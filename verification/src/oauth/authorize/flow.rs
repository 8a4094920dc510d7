//! The authorization endpoint's decisions, in the order they are taken:
//! request shape, session (with `prompt` and `max_age`), client,
//! redirect URI, scope, PKCE, consent, and finally code issuance. Each
//! step sees what the previous lookups returned; the caller performs the
//! lookups in between.

use vstd::prelude::*;

use super::code::AuthorizationCode;
use super::result::AuthorizeResult;
use crate::client::Client;
use crate::common::crypto::{base64url, random_url_safe};
use crate::common::strset::StringSet;
use crate::common::text::{
    as_opt_str, int_decimal, opt_str, opt_string, push_i64, str_eq, str_or_empty, string_or_empty,
    to_owned_opt, tokens, trim, trim_str,
};
use crate::common::time::{plus_seconds, seconds_between, secs_between};
use crate::common::url::{build_redirect, with_query};
use crate::oauth::consent::model::PendingAuthorization;
use crate::oauth::pkce::{is_method_supported, method_supported};
use crate::oauth::scopes::{is_subset_of, scope_subset, token_set};
use crate::session::model::SessionWithUser;

verus! {

/// Authorization codes live ten minutes.
pub const AUTH_CODE_TTL_MINUTES: i64 = 10;

/// Random bytes in an authorization code.
pub const AUTH_CODE_BYTES: usize = 48;

/// A parked consent request lives ten minutes.
pub const CONSENT_REQUEST_TTL_MINUTES: i64 = 10;

/// After a fresh login, `prompt=login` counts as satisfied for this many
/// seconds, so the redirect back from `/login` does not prompt again.
pub const REAUTH_GRACE_SECONDS: i64 = 10;

pub struct AuthorizeRequest<'a> {
    pub session_token: Option<&'a str>,
    pub client_id: Option<&'a str>,
    pub redirect_uri: Option<&'a str>,
    pub response_type: Option<&'a str>,
    pub scope: Option<&'a str>,
    pub state: Option<&'a str>,
    pub nonce: Option<&'a str>,
    pub prompt: Option<&'a str>,
    pub max_age: Option<i64>,
    pub code_challenge: Option<&'a str>,
    pub code_challenge_method: Option<&'a str>,
    pub claims_json: Option<&'a str>,
}

/// What the first step extracts from a well-formed request.
pub struct AuthorizeStart {
    /// The client id, trimmed.
    pub client_id: String,
    pub redirect_uri: String,
    pub prompt_none: bool,
    pub prompt_login: bool,
    pub prompt_consent: bool,
}

/// An error answered directly (no redirect).
pub open spec fn is_plain_error(r: AuthorizeResult, e: Seq<char>, d: Seq<char>) -> bool {
    &&& !r.ok
    &&& r.redirect is None
    &&& opt_string(r.error) == Some(e)
    &&& opt_string(r.error_description) == Some(d)
    &&& r.consent_request_id is None
}

/// The step failed with a plain error.
pub open spec fn fails_plain<T>(r: Result<T, AuthorizeResult>, e: Seq<char>, d: Seq<char>) -> bool {
    r matches Err(x) && is_plain_error(x, e, d)
}

/// The query parameters of an error sent back to the redirect URI:
/// `error`, then `error_description` when non-empty, then `state` when
/// present and non-empty.
pub open spec fn error_params(e: Seq<char>, d: Seq<char>, state: Option<Seq<char>>) -> Seq<(Seq<char>, Seq<char>)> {
    let p = seq![("error"@, e)];
    let p = if d.len() > 0 { p.push(("error_description"@, d)) } else { p };
    match state {
        Some(s) => if s.len() > 0 { p.push(("state"@, s)) } else { p },
        None => p,
    }
}

/// An error sent back to `redirect_uri` (RFC 6749 §4.1.2.1).
pub open spec fn is_redirect_error(
    r: AuthorizeResult,
    redirect_uri: Seq<char>,
    state: Option<Seq<char>>,
    e: Seq<char>,
    d: Seq<char>,
) -> bool {
    &&& !r.ok
    &&& opt_string(r.redirect) == Some(with_query(redirect_uri, error_params(e, d, state)))
    &&& opt_string(r.error) == Some(e)
    &&& opt_string(r.error_description) == Some(d)
    &&& r.consent_request_id is None
}

/// The step failed with an error sent back to the redirect URI.
pub open spec fn fails_redirect<T>(
    r: Result<T, AuthorizeResult>,
    redirect_uri: Seq<char>,
    state: Option<Seq<char>>,
    e: Seq<char>,
    d: Seq<char>,
) -> bool {
    r matches Err(x) && is_redirect_error(x, redirect_uri, state, e, d)
}

/// Builds the error redirect for a registered redirect URI.
pub fn error_redirect(redirect_uri: &str, state: Option<&str>, error: &str, desc: &str) -> (r: AuthorizeResult)
    ensures
        is_redirect_error(r, redirect_uri@, opt_str(state), error@, desc@),
{
    let mut params: Vec<(String, String)> = Vec::new();
    params.push(("error".to_owned(), error.to_owned()));
    if !desc.is_empty() {
        params.push(("error_description".to_owned(), desc.to_owned()));
    }
    if let Some(s) = state {
        if !s.is_empty() {
            params.push(("state".to_owned(), s.to_owned()));
        }
    }
    proof {
        assert(crate::common::url::pairs_view(params@) =~= error_params(error@, desc@, opt_str(state)));
    }
    AuthorizeResult::error_redirect(build_redirect(redirect_uri, &params), error, desc)
}

/// The `prompt` values: white-space separated.
pub open spec fn prompt_values(prompt: Option<Seq<char>>) -> Set<Seq<char>> {
    match prompt {
        Some(p) => tokens(p, false).to_set(),
        None => Set::empty(),
    }
}

pub fn parse_prompt(raw: Option<&str>) -> (r: StringSet)
    ensures
        r@ == prompt_values(opt_str(raw)),
{
    match raw {
        None => StringSet::new(),
        Some(s) => token_set(s, false),
    }
}

/// What step one gives for a request.
pub open spec fn begin_outcome(req: AuthorizeRequest, r: Result<AuthorizeStart, AuthorizeResult>) -> bool {
    &&& (opt_str(req.response_type) != Some("code"@) ==> fails_plain(r,
            "unsupported_response_type"@,
            "Only response_type=code is supported"@,
        ))
    &&& (opt_str(req.response_type) == Some("code"@) && (trim(str_or_empty(req.client_id)).len() == 0
            || str_or_empty(req.redirect_uri).len() == 0) ==> fails_plain(r,
            "invalid_request"@,
            "client_id and redirect_uri are required"@,
        ))
    &&& (opt_str(req.response_type) == Some("code"@) && trim(str_or_empty(req.client_id)).len() > 0
            && str_or_empty(req.redirect_uri).len() > 0 ==> (r matches Ok(s) && s.client_id@ == trim(
            str_or_empty(req.client_id),
        ) && s.redirect_uri@ == str_or_empty(req.redirect_uri) && s.prompt_none == prompt_values(
            opt_str(req.prompt),
        ).contains("none"@) && s.prompt_login == prompt_values(opt_str(req.prompt)).contains(
            "login"@,
        ) && s.prompt_consent == prompt_values(opt_str(req.prompt)).contains("consent"@)))
}

/// Step one: the request's shape.
pub fn begin(req: &AuthorizeRequest) -> (r: Result<AuthorizeStart, AuthorizeResult>)
    ensures
        begin_outcome(*req, r),
{
    let code_type = match req.response_type {
        Some(t) => str_eq(t, "code"),
        None => false,
    };
    if !code_type {
        return Err(
            AuthorizeResult::error("unsupported_response_type", "Only response_type=code is supported"),
        );
    }
    let client_id = trim_str(req.client_id.unwrap_or(""));
    let redirect_uri = req.redirect_uri.unwrap_or("").to_owned();
    proof {
        reveal_strlit("");
    }
    if client_id.unicode_len() == 0 || redirect_uri.unicode_len() == 0 {
        return Err(AuthorizeResult::error("invalid_request", "client_id and redirect_uri are required"));
    }
    let prompts = parse_prompt(req.prompt);
    Ok(
        AuthorizeStart {
            client_id,
            redirect_uri,
            prompt_none: prompts.contains("none"),
            prompt_login: prompts.contains("login"),
            prompt_consent: prompts.contains("consent"),
        },
    )
}

/// The error for a missing or insufficient session.
pub open spec fn session_error_code(start: AuthorizeStart) -> Seq<char> {
    if start.prompt_none { "login_required"@ } else { "invalid_session"@ }
}

/// Step two: the session behind the request (`None` when there is no
/// usable one), checked against `prompt=login` and `max_age`.
pub open spec fn session_check(
    start: AuthorizeStart,
    session: Option<SessionWithUser>,
    now: int,
    max_age: Option<i64>,
    r: Result<(), AuthorizeResult>,
) -> bool {
    match session {
        None => fails_plain(r,
            session_error_code(start),
            if start.prompt_login {
                "prompt=login requires re-authentication"@
            } else {
                "Login required"@
            },
        ),
        Some(s) => {
            let age = seconds_between(now, s.session.created_at as int);
            if start.prompt_login && !(age < REAUTH_GRACE_SECONDS) {
                fails_plain(r,
                    session_error_code(start),
                    "prompt=login requires re-authentication"@,
                )
            } else if max_age matches Some(m) && age > m {
                fails_plain(r,
                    session_error_code(start),
                    "Session age "@ + int_decimal(age) + "s exceeds max_age "@ + int_decimal(
                        max_age->0 as int,
                    ) + "s"@,
                )
            } else {
                r is Ok
            }
        },
    }
}

pub fn check_session(
    start: &AuthorizeStart,
    session: Option<&SessionWithUser>,
    now: i64,
    max_age: Option<i64>,
) -> (r: Result<(), AuthorizeResult>)
    ensures
        session_check(*start, match session {
            Some(s) => Some(*s),
            None => None,
        }, now as int, max_age, r),
{
    let code = if start.prompt_none {
        "login_required"
    } else {
        "invalid_session"
    };
    let s = match session {
        None => {
            let desc = if start.prompt_login {
                "prompt=login requires re-authentication"
            } else {
                "Login required"
            };
            return Err(AuthorizeResult::error(code, desc));
        },
        Some(s) => s,
    };
    let age = secs_between(now, s.session.created_at);
    if start.prompt_login && !(age < REAUTH_GRACE_SECONDS) {
        return Err(AuthorizeResult::error(code, "prompt=login requires re-authentication"));
    }
    if let Some(m) = max_age {
        if age > m {
            let mut desc = "Session age ".to_owned();
            push_i64(&mut desc, age);
            desc.append("s exceeds max_age ");
            push_i64(&mut desc, m);
            desc.append("s");
            return Err(AuthorizeResult::error(code, desc.as_str()));
        }
    }
    Ok(())
}

/// What step three gives: the client must exist and be enabled.
pub open spec fn client_check(client: Option<Client>, r: Result<(), AuthorizeResult>) -> bool {
    &&& ((client matches Some(c) && c.enabled) ==> r is Ok)
    &&& (!(client matches Some(c) && c.enabled) ==> fails_plain(r,
        "unauthorized_client"@,
        "Unknown or disabled client"@,
    ))
}

/// Step three: the client must exist and be enabled.
pub fn check_client(client: Option<&Client>) -> (r: Result<(), AuthorizeResult>)
    ensures
        client_check(match client {
            Some(c) => Some(*c),
            None => None,
        }, r),
{
    match client {
        Some(c) => if c.enabled {
            Ok(())
        } else {
            Err(AuthorizeResult::error("unauthorized_client", "Unknown or disabled client"))
        },
        None => Err(AuthorizeResult::error("unauthorized_client", "Unknown or disabled client")),
    }
}

/// A non-empty optional string.
pub open spec fn non_empty(o: Option<Seq<char>>) -> bool {
    o matches Some(s) && s.len() > 0
}

/// What step four gives: redirect URI registration, then scope, then
/// PKCE; errors after the registration check go back to the redirect URI.
pub open spec fn request_validation(
    start: AuthorizeStart,
    req: AuthorizeRequest,
    client: Client,
    redirect_allowed: bool,
    r: Result<Option<String>, AuthorizeResult>,
) -> bool {
    &&& (!redirect_allowed ==> fails_plain(r,
            "invalid_request"@,
            "redirect_uri is not registered"@,
        ))
    &&& (redirect_allowed && !scope_subset(str_or_empty(req.scope), string_or_empty(client.scopes))
            ==> fails_redirect(r,
            start.redirect_uri@,
            opt_str(req.state),
            "invalid_scope"@,
            "Requested scope is not allowed for this client"@,
        ))
    &&& (redirect_allowed && scope_subset(str_or_empty(req.scope), string_or_empty(client.scopes)) ==> {
            if non_empty(opt_str(req.code_challenge)) {
                if !non_empty(opt_str(req.code_challenge_method)) {
                    fails_redirect(r,
                        start.redirect_uri@,
                        opt_str(req.state),
                        "invalid_request"@,
                        "code_challenge_method is required (only S256 supported)"@,
                    )
                } else if !method_supported(opt_str(req.code_challenge_method)) {
                    fails_redirect(r,
                        start.redirect_uri@,
                        opt_str(req.state),
                        "invalid_request"@,
                        "Unsupported code_challenge_method"@,
                    )
                } else {
                    (r matches Ok(m) && opt_string(m) == opt_str(req.code_challenge_method))
                }
            } else if client.pkce_required {
                fails_redirect(r,
                    start.redirect_uri@,
                    opt_str(req.state),
                    "invalid_request"@,
                    "code_challenge is required"@,
                )
            } else {
                (r matches Ok(m) && m is None)
            }
        })
}

/// Step four, once the client is known: redirect URI registration
/// (`redirect_allowed`), scope, and PKCE. On success, the PKCE method to
/// bind to the code, if a challenge was sent.
pub fn validate_request(
    start: &AuthorizeStart,
    req: &AuthorizeRequest,
    client: &Client,
    redirect_allowed: bool,
) -> (r: Result<Option<String>, AuthorizeResult>)
    ensures
        request_validation(*start, *req, *client, redirect_allowed, r),
{
    if !redirect_allowed {
        return Err(AuthorizeResult::error("invalid_request", "redirect_uri is not registered"));
    }
    let redirect = start.redirect_uri.as_str();
    if !is_subset_of(req.scope, as_opt_str(&client.scopes)) {
        return Err(
            error_redirect(
                redirect,
                req.state,
                "invalid_scope",
                "Requested scope is not allowed for this client",
            ),
        );
    }
    let has_challenge = match req.code_challenge {
        Some(c) => !c.is_empty(),
        None => false,
    };
    if has_challenge {
        let method = match req.code_challenge_method {
            Some(m) => if m.is_empty() {
                None
            } else {
                Some(m)
            },
            None => None,
        };
        let method = match method {
            None => {
                return Err(
                    error_redirect(
                        redirect,
                        req.state,
                        "invalid_request",
                        "code_challenge_method is required (only S256 supported)",
                    ),
                );
            },
            Some(m) => m,
        };
        if !is_method_supported(Some(method)) {
            return Err(
                error_redirect(redirect, req.state, "invalid_request", "Unsupported code_challenge_method"),
            );
        }
        Ok(Some(method.to_owned()))
    } else if client.pkce_required {
        Err(error_redirect(redirect, req.state, "invalid_request", "code_challenge is required"))
    } else {
        Ok(None)
    }
}

/// What to do once the consent on record is known.
pub enum ConsentStep {
    /// Consent covers the request: issue a code.
    Issue,
    /// Park the request and send the user to the consent screen.
    AskConsent,
    /// Consent is missing and `prompt=none` forbids asking.
    Fail(AuthorizeResult),
}

/// What step five gives.
pub open spec fn consent_outcome(
    start: AuthorizeStart,
    state: Option<Seq<char>>,
    consent_on_record: bool,
    r: ConsentStep,
) -> bool {
    &&& (!start.prompt_consent && consent_on_record ==> r is Issue)
    &&& (!(!start.prompt_consent && consent_on_record) && !start.prompt_none ==> r is AskConsent)
    &&& (!(!start.prompt_consent && consent_on_record) && start.prompt_none ==> (r matches ConsentStep::Fail(e)
        && is_redirect_error(
        e,
        start.redirect_uri@,
        state,
        "consent_required"@,
        "Consent is required but prompt=none was specified"@,
    )))
}

/// Step five. `consent_on_record` is whether the recorded grant covers the
/// requested scope; it is not consulted under `prompt=consent`, which
/// always asks again.
pub fn consent_step(start: &AuthorizeStart, state: Option<&str>, consent_on_record: bool) -> (r: ConsentStep)
    ensures
        consent_outcome(*start, opt_str(state), consent_on_record, r),
{
    let has_consent = !start.prompt_consent && consent_on_record;
    if has_consent {
        ConsentStep::Issue
    } else if start.prompt_none {
        ConsentStep::Fail(
            error_redirect(
                start.redirect_uri.as_str(),
                state,
                "consent_required",
                "Consent is required but prompt=none was specified",
            ),
        )
    } else {
        ConsentStep::AskConsent
    }
}

/// Parks a request for the consent screen under a fresh random id (24
/// random bytes), for ten minutes.
pub fn park_for_consent(
    start: &AuthorizeStart,
    req: &AuthorizeRequest,
    session: &SessionWithUser,
    client: &Client,
    resolved_method: Option<String>,
    now: i64,
) -> (r: (PendingAuthorization, AuthorizeResult))
    requires
        now + CONSENT_REQUEST_TTL_MINUTES * 60 * 1_000_000 <= i64::MAX,
    ensures
        exists|b: Seq<u8>| b.len() == 24 && r.0.request_id@ == base64url(b),
        r.0.session_id == session.session.id,
        r.0.user_id == session.session.user_id,
        r.0.client_id@ == client.client_id@,
        r.0.redirect_uri@ == start.redirect_uri@,
        r.0.response_type@ == "code"@,
        opt_string(r.0.scope) == opt_str(req.scope),
        opt_string(r.0.state) == opt_str(req.state),
        opt_string(r.0.nonce) == opt_str(req.nonce),
        opt_string(r.0.prompt) == opt_str(req.prompt),
        r.0.max_age == req.max_age,
        opt_string(r.0.code_challenge) == opt_str(req.code_challenge),
        r.0.code_challenge_method == resolved_method,
        opt_string(r.0.claims_requested) == opt_str(req.claims_json),
        r.0.expires_at == now + CONSENT_REQUEST_TTL_MINUTES * 60 * 1_000_000,
        !r.1.ok,
        r.1.redirect is None,
        opt_string(r.1.error) == Some("consent_required"@),
        opt_string(r.1.error_description) == Some("User consent is required"@),
        opt_string(r.1.consent_request_id) == Some(r.0.request_id@),
{
    let request_id = random_url_safe(24);
    let pending = PendingAuthorization {
        request_id: request_id.clone(),
        session_id: session.session.id,
        user_id: session.session.user_id,
        client_id: client.client_id.clone(),
        redirect_uri: start.redirect_uri.clone(),
        response_type: "code".to_owned(),
        scope: to_owned_opt(req.scope),
        state: to_owned_opt(req.state),
        nonce: to_owned_opt(req.nonce),
        prompt: to_owned_opt(req.prompt),
        max_age: req.max_age,
        code_challenge: to_owned_opt(req.code_challenge),
        code_challenge_method: resolved_method,
        claims_requested: to_owned_opt(req.claims_json),
        expires_at: plus_seconds(now, CONSENT_REQUEST_TTL_MINUTES * 60),
    };
    (pending, AuthorizeResult::consent_required(request_id))
}

/// The redirect that delivers a code: `code`, then `state` (empty when
/// absent).
pub open spec fn code_redirect(redirect_uri: Seq<char>, code: Seq<char>, state: Option<Seq<char>>) -> Seq<char> {
    let st: Seq<char> = match state {
        Some(s) => s,
        None => Seq::empty(),
    };
    with_query(redirect_uri, seq![("code"@, code), ("state"@, st)])
}

/// Mints a code (48 random bytes, ten minutes) bound to the session,
/// client, redirect URI and request parameters, and the redirect that
/// delivers it.
pub fn issue_code(
    session_id: u128,
    user_id: u128,
    client_id: &str,
    redirect_uri: &str,
    scope: Option<&str>,
    state: Option<&str>,
    nonce: Option<&str>,
    code_challenge: Option<&str>,
    code_challenge_method: Option<&str>,
    claims_requested: Option<&str>,
    now: i64,
) -> (r: (AuthorizationCode, AuthorizeResult))
    requires
        now + AUTH_CODE_TTL_MINUTES * 60 * 1_000_000 <= i64::MAX,
    ensures
        exists|b: Seq<u8>| b.len() == AUTH_CODE_BYTES && r.0.code@ == base64url(b),
        r.0.client_id@ == client_id@,
        r.0.user_id == user_id,
        r.0.session_id == session_id,
        r.0.redirect_uri@ == redirect_uri@,
        opt_string(r.0.scope) == opt_str(scope),
        opt_string(r.0.state) == opt_str(state),
        opt_string(r.0.nonce) == opt_str(nonce),
        opt_string(r.0.code_challenge) == opt_str(code_challenge),
        opt_string(r.0.code_challenge_method) == opt_str(code_challenge_method),
        opt_string(r.0.claims_requested) == opt_str(claims_requested),
        r.0.expires_at == now + AUTH_CODE_TTL_MINUTES * 60 * 1_000_000,
        r.0.created_at is None,
        r.1.ok,
        opt_string(r.1.redirect) == Some(code_redirect(redirect_uri@, r.0.code@, opt_str(state))),
        r.1.error is None,
        r.1.error_description is None,
        r.1.consent_request_id is None,
{
    let code = random_url_safe(AUTH_CODE_BYTES);
    let stored = AuthorizationCode {
        code: code.clone(),
        client_id: client_id.to_owned(),
        user_id,
        session_id,
        redirect_uri: redirect_uri.to_owned(),
        scope: to_owned_opt(scope),
        state: to_owned_opt(state),
        nonce: to_owned_opt(nonce),
        code_challenge: to_owned_opt(code_challenge),
        code_challenge_method: to_owned_opt(code_challenge_method),
        claims_requested: to_owned_opt(claims_requested),
        expires_at: plus_seconds(now, AUTH_CODE_TTL_MINUTES * 60),
        created_at: None,
    };
    let mut params: Vec<(String, String)> = Vec::new();
    params.push(("code".to_owned(), code));
    let st = match state {
        Some(t) => t.to_owned(),
        None => String::new(),
    };
    params.push(("state".to_owned(), st));
    proof {
        assert(params@[0].1 == stored.code);
        assert(crate::common::url::pairs_view(params@) =~= seq![
            ("code"@, stored.code@),
            ("state"@, match opt_str(state) { Some(s) => s, None => Seq::empty() }),
        ]);
    }
    let url = build_redirect(redirect_uri, &params);
    proof {
        let ps = seq![
            ("code"@, stored.code@),
            ("state"@, match opt_str(state) { Some(s) => s, None => Seq::empty() }),
        ];
        assert(crate::common::url::pairs_view(params@) == ps);
        assert(url@ == with_query(redirect_uri@, ps));
        let st: Seq<char> = match opt_str(state) { Some(s) => s, None => Seq::empty() };
        assert(ps == seq![("code"@, stored.code@), ("state"@, st)]);
        assert(code_redirect(redirect_uri@, stored.code@, opt_str(state)) == with_query(redirect_uri@, seq![("code"@, stored.code@), ("state"@, st)]));
    }
    let result = AuthorizeResult::success(url);
    (stored, result)
}

/// Before issuing a code for a request parked for consent, the client is
/// checked again (it may have been disabled meanwhile) and so is the
/// redirect URI.
pub fn recheck_after_consent(client: Option<&Client>, redirect_allowed: bool) -> (r: Result<(), AuthorizeResult>)
    ensures
        !(client matches Some(c) && c.enabled) ==> fails_plain(r,
            "unauthorized_client"@,
            "Unknown or disabled client"@,
        ),
        (client matches Some(c) && c.enabled) && !redirect_allowed ==> fails_plain(r, "invalid_request"@, "redirect_uri is not registered"@),
        (client matches Some(c) && c.enabled) && redirect_allowed ==> r is Ok,
{
    check_client(client)?;
    if !redirect_allowed {
        return Err(AuthorizeResult::error("invalid_request", "redirect_uri is not registered"));
    }
    Ok(())
}

/// An error of the endpoint sent back to the client: to the request's
/// own `redirect_uri`, carrying the error, its description and `state`.
pub open spec fn redirected_to_request_uri(x: AuthorizeResult, req: AuthorizeRequest) -> bool {
    opt_string(x.redirect) == Some(
        with_query(
            str_or_empty(req.redirect_uri),
            error_params(string_or_empty(x.error), string_or_empty(x.error_description), opt_str(req.state)),
        ),
    )
}

/// The authorization endpoint never redirects to an unchecked URI. Every
/// rejection made before the redirect URI is known to be registered for
/// an enabled client (malformed request, missing ids, no usable session,
/// `prompt=login`/`max_age`, unknown or disabled client, unregistered
/// URI) is answered directly, without a redirect. Every later error
/// (scope, PKCE, `prompt=none` without consent) is redirected to the
/// request's `redirect_uri`, and only once it was found registered; the
/// code itself is issued (`issue_code`) to the same checked URI, for the
/// client the request names.
/// The steps are `begin` (`rb`), `check_session` (`rs`), `check_client`
/// (`rc`), `validate_request` (`rv`) and `consent_step` (`cs`), run on one
/// request, with `client` the client registered under the trimmed
/// `client_id` that `begin` extracted (if any) and `redirect_allowed`
/// whether the request's URI is registered for it. Whenever a redirect is
/// sent after `check_client` passed, that client is enabled and is the
/// one the request names.
pub proof fn law_authorize_redirects_only_to_checked_uri(
    req: AuthorizeRequest,
    rb: Result<AuthorizeStart, AuthorizeResult>,
    session: Option<SessionWithUser>,
    now: int,
    rs: Result<(), AuthorizeResult>,
    client: Option<Client>,
    rc: Result<(), AuthorizeResult>,
    redirect_allowed: bool,
    rv: Result<Option<String>, AuthorizeResult>,
    consent_on_record: bool,
    cs: ConsentStep,
)
    requires
        begin_outcome(req, rb),
        rb matches Ok(st) ==> session_check(st, session, now, req.max_age, rs),
        client_check(client, rc),
        rb matches Ok(st) ==> (client matches Some(c) ==> request_validation(st, req, c, redirect_allowed, rv)),
        rb matches Ok(st) ==> consent_outcome(st, opt_str(req.state), consent_on_record, cs),
        rb matches Ok(st) ==> (client matches Some(c) ==> c.client_id@ == st.client_id@),
    ensures
        rb matches Err(x) ==> x.redirect is None,
        rb is Ok ==> (rs matches Err(x) ==> x.redirect is None),
        rc matches Err(x) ==> x.redirect is None,
        (rb is Ok && client is Some && !redirect_allowed) ==> (rv matches Err(x) && x.redirect is None),
        (rb is Ok && client is Some) ==> (rv matches Err(x) ==> (x.redirect is Some ==> (redirect_allowed
            && redirected_to_request_uri(x, req)))),
        rb is Ok ==> (cs matches ConsentStep::Fail(x) ==> redirected_to_request_uri(x, req)),
        rb matches Ok(st) ==> (st.redirect_uri@ == str_or_empty(req.redirect_uri) && st.client_id@ == trim(
            str_or_empty(req.client_id),
        )),
        (rb is Ok && rc is Ok) ==> (client matches Some(c) && c.enabled && c.client_id@ == trim(
            str_or_empty(req.client_id),
        )),
{
}

/// `prompt=consent` always re-asks: whatever consent is on record, a
/// request carrying it never gets a code straight away; it is shown the
/// consent screen, or refused under `prompt=none`. And a code is issued
/// without asking only when a recorded consent covers the request.
pub proof fn law_prompt_consent_always_asks(
    start: AuthorizeStart,
    state: Option<Seq<char>>,
    consent_on_record: bool,
    r: ConsentStep,
)
    requires
        consent_outcome(start, state, consent_on_record, r),
    ensures
        start.prompt_consent ==> !(r is Issue),
        (start.prompt_consent && !start.prompt_none) ==> r is AskConsent,
        r is Issue ==> (consent_on_record && !start.prompt_consent),
        !consent_on_record ==> !(r is Issue),
        r matches ConsentStep::Fail(x) ==> (start.prompt_none && x.redirect is Some),
{
}

/// A request is taken further only when well formed: `begin` succeeds only
/// for `response_type=code` with a non-blank client id and a non-empty
/// redirect URI.
pub proof fn law_begin_accepts_only_code_requests(req: AuthorizeRequest, r: Result<AuthorizeStart, AuthorizeResult>)
    requires
        begin_outcome(req, r),
    ensures
        r is Ok ==> (opt_str(req.response_type) == Some("code"@) && trim(str_or_empty(req.client_id)).len() > 0
            && str_or_empty(req.redirect_uri).len() > 0),
        r matches Err(x) ==> x.redirect is None,
{
}

/// A session is accepted only when usable for the request: it exists,
/// under `prompt=login` it began less than `REAUTH_GRACE_SECONDS` ago,
/// and under `max_age` it is no older than that. Every refusal is answered
/// directly.
pub proof fn law_session_accepted_only_when_fresh_enough(
    start: AuthorizeStart,
    session: Option<SessionWithUser>,
    now: int,
    max_age: Option<i64>,
    r: Result<(), AuthorizeResult>,
)
    requires
        session_check(start, session, now, max_age, r),
    ensures
        r is Ok ==> (session matches Some(s) && (start.prompt_login ==> seconds_between(now, s.session.created_at as int)
            < REAUTH_GRACE_SECONDS) && (max_age matches Some(m) ==> seconds_between(
            now,
            s.session.created_at as int,
        ) <= m)),
        r matches Err(x) ==> x.redirect is None,
{
}

/// A request passes validation only when its redirect URI is registered,
/// its scope is within the client's, and its PKCE parameters are sound:
/// a client that requires PKCE sent a challenge, and a challenge comes
/// with the `S256` method, which is what is bound to the code.
pub proof fn law_request_validated_only_when_sound(
    start: AuthorizeStart,
    req: AuthorizeRequest,
    client: Client,
    redirect_allowed: bool,
    r: Result<Option<String>, AuthorizeResult>,
)
    requires
        request_validation(start, req, client, redirect_allowed, r),
    ensures
        r is Ok ==> (redirect_allowed && scope_subset(str_or_empty(req.scope), string_or_empty(client.scopes))),
        r is Ok ==> (client.pkce_required ==> (opt_str(req.code_challenge) matches Some(ch) && ch.len() > 0)),
        r matches Ok(m) ==> ((opt_str(req.code_challenge) matches Some(ch) && ch.len() > 0) ==> (opt_string(m)
            == Some("S256"@) && opt_str(req.code_challenge_method) == Some("S256"@))),
        r matches Ok(m) ==> (!(opt_str(req.code_challenge) matches Some(ch) && ch.len() > 0) ==> m is None),
{
}

} // verus!
