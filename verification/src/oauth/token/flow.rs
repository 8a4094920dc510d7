//! The token endpoint's decisions for each grant. Lookups (client, code,
//! refresh token, device authorization, user, session) happen between
//! the steps; each step states exactly which error it answers, if any.

use vstd::prelude::*;

use super::model::RefreshToken;
use super::result::{token_fails, TokenResult};
use crate::common::crypto::{keyed_hash, HmacSha256};
use crate::client::{authenticate_client, client_authenticates, is_confidential, is_confidential_client, Client};
use crate::common::text::{as_opt_str, opt_str, or_empty, opt_string, str_eq, str_or_empty, string_or_empty};
use crate::oauth::authorize::code::AuthorizationCode;
use crate::oauth::device::flow::verify_outcome;
use crate::oauth::device::model::DeviceAuthorization;
use crate::oauth::device::result::DeviceVerifyResult;
use crate::oauth::pkce::{pkce_holds, verify};
use crate::oauth::scopes::{is_subset_of, scope_subset};
use crate::session::model::{SessionWithUser, UserSession};
use crate::user::User;

verus! {

pub struct TokenRequest<'a> {
    pub grant_type: Option<&'a str>,
    pub code: Option<&'a str>,
    pub redirect_uri: Option<&'a str>,
    pub client_id: Option<&'a str>,
    pub client_secret: Option<&'a str>,
    pub code_verifier: Option<&'a str>,
    pub refresh_token: Option<&'a str>,
    pub scope: Option<&'a str>,
    pub device_code: Option<&'a str>,
}

pub enum Grant {
    AuthorizationCode,
    RefreshToken,
    ClientCredentials,
    DeviceCode,
}

/// Picks the grant named by `grant_type`.
pub fn select_grant(grant_type: Option<&str>) -> (r: Result<Grant, TokenResult>)
    ensures
        str_or_empty(grant_type) == "authorization_code"@ ==> r matches Ok(Grant::AuthorizationCode),
        str_or_empty(grant_type) == "refresh_token"@ ==> r matches Ok(Grant::RefreshToken),
        str_or_empty(grant_type) == "client_credentials"@ ==> r matches Ok(Grant::ClientCredentials),
        str_or_empty(grant_type) == "urn:ietf:params:oauth:grant-type:device_code"@ ==> r matches Ok(
            Grant::DeviceCode,
        ),
        str_or_empty(grant_type) != "authorization_code"@ && str_or_empty(grant_type) != "refresh_token"@
            && str_or_empty(grant_type) != "client_credentials"@ && str_or_empty(grant_type)
            != "urn:ietf:params:oauth:grant-type:device_code"@ ==> token_fails(
            r,
            "unsupported_grant_type"@,
            "Supported: authorization_code, refresh_token, client_credentials, device_code"@,
        ),
{
    let g = or_empty(grant_type);
    proof {
        reveal_strlit("authorization_code");
        reveal_strlit("refresh_token");
        reveal_strlit("client_credentials");
        reveal_strlit("urn:ietf:params:oauth:grant-type:device_code");
        assert("authorization_code"@.len() == 18);
        assert("refresh_token"@.len() == 13);
        assert("client_credentials"@.len() == 18);
        assert("client_credentials"@[0] != "authorization_code"@[0]);
        assert("urn:ietf:params:oauth:grant-type:device_code"@.len() == 44);
    }
    if str_eq(g, "authorization_code") {
        Ok(Grant::AuthorizationCode)
    } else if str_eq(g, "refresh_token") {
        Ok(Grant::RefreshToken)
    } else if str_eq(g, "client_credentials") {
        Ok(Grant::ClientCredentials)
    } else if str_eq(g, "urn:ietf:params:oauth:grant-type:device_code") {
        Ok(Grant::DeviceCode)
    } else {
        Err(
            TokenResult::error(
                "unsupported_grant_type",
                "Supported: authorization_code, refresh_token, client_credentials, device_code",
            ),
        )
    }
}

/// Every named field is present and non-empty.
pub open spec fn all_present(fields: Seq<Option<Seq<char>>>) -> bool {
    forall|i: int| 0 <= i < fields.len() ==> (#[trigger] fields[i] matches Some(s) && s.len() > 0)
}

fn present(o: Option<&str>) -> (r: bool)
    ensures
        r == (opt_str(o) matches Some(s) && s.len() > 0),
{
    match o {
        Some(s) => !s.is_empty(),
        None => false,
    }
}

/// The fields each grant requires, with the error for a missing one.
pub fn check_required(grant: &Grant, req: &TokenRequest) -> (r: Result<(), TokenResult>)
    ensures
        grant is AuthorizationCode ==> if all_present(
            seq![opt_str(req.code), opt_str(req.redirect_uri), opt_str(req.client_id)],
        ) {
            r is Ok
        } else {
            token_fails(r, "invalid_request"@, "code, redirect_uri, client_id are required"@)
        },
        grant is RefreshToken ==> if all_present(seq![opt_str(req.refresh_token), opt_str(req.client_id)]) {
            r is Ok
        } else {
            token_fails(r, "invalid_request"@, "refresh_token and client_id are required"@)
        },
        grant is ClientCredentials ==> if all_present(seq![opt_str(req.client_id)]) {
            r is Ok
        } else {
            token_fails(r, "invalid_request"@, "client_id is required"@)
        },
        grant is DeviceCode ==> if all_present(seq![opt_str(req.device_code), opt_str(req.client_id)]) {
            r is Ok
        } else {
            token_fails(r, "invalid_request"@, "device_code and client_id are required"@)
        },
{
    match grant {
        Grant::AuthorizationCode => {
            let a = present(req.code);
            let b = present(req.redirect_uri);
            let c = present(req.client_id);
            let ok = a && b && c;
            proof {
                let f = seq![opt_str(req.code), opt_str(req.redirect_uri), opt_str(req.client_id)];
                if !a { assert(!(f[0] matches Some(s) && s.len() > 0)); }
                else if !b { assert(!(f[1] matches Some(s) && s.len() > 0)); }
                else if !c { assert(!(f[2] matches Some(s) && s.len() > 0)); }
            }
            if ok {
                Ok(())
            } else {
                Err(TokenResult::error("invalid_request", "code, redirect_uri, client_id are required"))
            }
        },
        Grant::RefreshToken => {
            let a = present(req.refresh_token);
            let b = present(req.client_id);
            let ok = a && b;
            proof {
                let f = seq![opt_str(req.refresh_token), opt_str(req.client_id)];
                if !a { assert(!(f[0] matches Some(s) && s.len() > 0)); }
                else if !b { assert(!(f[1] matches Some(s) && s.len() > 0)); }
            }
            if ok {
                Ok(())
            } else {
                Err(TokenResult::error("invalid_request", "refresh_token and client_id are required"))
            }
        },
        Grant::ClientCredentials => {
            let ok = present(req.client_id);
            proof {
                let f = seq![opt_str(req.client_id)];
                if !ok { assert(!(f[0] matches Some(s) && s.len() > 0)); }
            }
            if ok {
                Ok(())
            } else {
                Err(TokenResult::error("invalid_request", "client_id is required"))
            }
        },
        Grant::DeviceCode => {
            let a = present(req.device_code);
            let b = present(req.client_id);
            let ok = a && b;
            proof {
                let f = seq![opt_str(req.device_code), opt_str(req.client_id)];
                if !a { assert(!(f[0] matches Some(s) && s.len() > 0)); }
                else if !b { assert(!(f[1] matches Some(s) && s.len() > 0)); }
            }
            if ok {
                Ok(())
            } else {
                Err(TokenResult::error("invalid_request", "device_code and client_id are required"))
            }
        },
    }
}

/// The client checks shared by the authorization-code, refresh-token and
/// device-code grants: the client exists, is enabled, and authenticates
/// (`secret_matches` is the stored-secret check on the presented secret).
pub fn client_gate(client: Option<&Client>, presented_secret: Option<&str>, secret_matches: bool) -> (r: Result<(), TokenResult>)
    ensures
        !(client matches Some(c) && c.enabled) ==> token_fails(r, "unauthorized_client"@, "Unknown or disabled client"@),
        (client matches Some(c) && c.enabled) ==> if client_authenticates(
            client->0,
            opt_str(presented_secret),
            secret_matches,
        ) {
            r is Ok
        } else {
            token_fails(r, "invalid_client"@, "Invalid client credentials"@)
        },
{
    let c = match client {
        None => return Err(TokenResult::error("unauthorized_client", "Unknown or disabled client")),
        Some(c) => c,
    };
    if !c.enabled {
        return Err(TokenResult::error("unauthorized_client", "Unknown or disabled client"));
    }
    if !authenticate_client(c, presented_secret, secret_matches) {
        return Err(TokenResult::error("invalid_client", "Invalid client credentials"));
    }
    Ok(())
}

/// The client checks of the client-credentials grant: as `client_gate`,
/// with a confidential client required before authentication, and the
/// requested scope within the client's registration after it.
pub fn client_credentials_gate(
    client: Option<&Client>,
    presented_secret: Option<&str>,
    secret_matches: bool,
    scope: Option<&str>,
) -> (r: Result<(), TokenResult>)
    ensures
        !(client matches Some(c) && c.enabled) ==> token_fails(r, "unauthorized_client"@, "Unknown or disabled client"@),
        (client matches Some(c) && c.enabled && !is_confidential(&c)) ==> token_fails(
            r,
            "unauthorized_client"@,
            "client_credentials grant requires a confidential client"@,
        ),
        (client matches Some(c) && c.enabled && is_confidential(&c) && !client_authenticates(
            &c,
            opt_str(presented_secret),
            secret_matches,
        )) ==> token_fails(r, "invalid_client"@, "Invalid client credentials"@),
        (client matches Some(c) && c.enabled && is_confidential(&c) && client_authenticates(
            &c,
            opt_str(presented_secret),
            secret_matches,
        )) ==> if scope_subset(str_or_empty(scope), string_or_empty(client->0.scopes)) {
            r is Ok
        } else {
            token_fails(r, "invalid_scope"@, "Requested scope is not allowed for this client"@)
        },
{
    let c = match client {
        None => return Err(TokenResult::error("unauthorized_client", "Unknown or disabled client")),
        Some(c) => c,
    };
    if !c.enabled {
        return Err(TokenResult::error("unauthorized_client", "Unknown or disabled client"));
    }
    if !is_confidential_client(c) {
        return Err(
            TokenResult::error("unauthorized_client", "client_credentials grant requires a confidential client"),
        );
    }
    if !authenticate_client(c, presented_secret, secret_matches) {
        return Err(TokenResult::error("invalid_client", "Invalid client credentials"));
    }
    if !is_subset_of(scope, as_opt_str(&c.scopes)) {
        return Err(TokenResult::error("invalid_scope", "Requested scope is not allowed for this client"));
    }
    Ok(())
}

/// PKCE is checked whenever the client requires it or the code carries a
/// challenge, so a client that opted in cannot be downgraded.
pub open spec fn pkce_applies(client: Client, code: AuthorizationCode) -> bool {
    client.pkce_required || (opt_string(code.code_challenge) matches Some(c) && c.len() > 0)
}

/// The checks on a redeemed authorization code, in order: it exists, is
/// unexpired, is bound to this client and redirect URI, and passes PKCE.
pub open spec fn code_check(
    code: Option<AuthorizationCode>,
    now: int,
    req: TokenRequest,
    client: Client,
    r: Result<(), TokenResult>,
) -> bool {
    match code {
        None => token_fails(r, "invalid_grant"@, "Invalid authorization code"@),
        Some(c) => if c.expires_at < now {
            token_fails(r, "invalid_grant"@, "Authorization code expired"@)
        } else if c.client_id@ != str_or_empty(req.client_id) || c.redirect_uri@ != str_or_empty(
            req.redirect_uri,
        ) {
            token_fails(r, "invalid_grant"@, "Code binding mismatch"@)
        } else if pkce_applies(client, c) {
            if str_or_empty(req.code_verifier).len() == 0 {
                token_fails(r, "invalid_request"@, "code_verifier is required"@)
            } else if !pkce_holds(
                str_or_empty(req.code_verifier),
                string_or_empty(c.code_challenge),
                string_or_empty(c.code_challenge_method),
            ) {
                token_fails(r, "invalid_grant"@, "PKCE verification failed"@)
            } else {
                r is Ok
            }
        } else {
            r is Ok
        },
    }
}

pub fn check_code(code: Option<&AuthorizationCode>, now: i64, req: &TokenRequest, client: &Client) -> (r: Result<(), TokenResult>)
    ensures
        code_check(match code {
            Some(c) => Some(*c),
            None => None,
        }, now as int, *req, *client, r),
{
    proof { reveal_strlit(""); }
    let c = match code {
        None => return Err(TokenResult::error("invalid_grant", "Invalid authorization code")),
        Some(c) => c,
    };
    if c.expires_at < now {
        return Err(TokenResult::error("invalid_grant", "Authorization code expired"));
    }
    if !str_eq(c.client_id.as_str(), or_empty(req.client_id)) || !str_eq(
        c.redirect_uri.as_str(),
        or_empty(req.redirect_uri),
    ) {
        return Err(TokenResult::error("invalid_grant", "Code binding mismatch"));
    }
    let has_challenge = match &c.code_challenge {
        Some(ch) => ch.unicode_len() > 0,
        None => false,
    };
    if client.pkce_required || has_challenge {
        let verifier = or_empty(req.code_verifier);
        if verifier.is_empty() {
            return Err(TokenResult::error("invalid_request", "code_verifier is required"));
        }
        let challenge = match &c.code_challenge {
            Some(ch) => ch.as_str(),
            None => "",
        };
        let method = match &c.code_challenge_method {
            Some(m) => m.as_str(),
            None => "",
        };
        if !verify(verifier, challenge, method) {
            return Err(TokenResult::error("invalid_grant", "PKCE verification failed"));
        }
    }
    Ok(())
}

/// The user and session a grant refers to must both still exist.
pub fn require_user_session(user: Option<&User>, session: Option<&UserSession>) -> (r: Result<(), TokenResult>)
    ensures
        (user is Some && session is Some) ==> r is Ok,
        !(user is Some && session is Some) ==> token_fails(r, "invalid_grant"@, "User/session not found"@),
{
    if user.is_some() && session.is_some() {
        Ok(())
    } else {
        Err(TokenResult::error("invalid_grant", "User/session not found"))
    }
}

/// What a presented refresh token leads to.
pub enum RefreshCheck {
    /// Usable: rotate it.
    Rotate,
    /// Already revoked: a replay. Revoke every refresh token of this
    /// session (the whole family), then answer with the error.
    Replayed { session_id: u128, error: TokenResult },
    Refused(TokenResult),
}

/// What a refresh token found under the presented token's hash leads to,
/// in order: it exists, is not revoked (else the family is revoked), is
/// unexpired, and belongs to this client.
pub open spec fn refresh_outcome(stored: Option<RefreshToken>, now: int, client_id: u128, r: RefreshCheck) -> bool {
    match stored {
        None => r matches RefreshCheck::Refused(e) && super::result::is_token_error(
            e,
            "invalid_grant"@,
            "Invalid refresh token"@,
        ),
        Some(t) => if t.revoked {
            r matches RefreshCheck::Replayed { session_id, error } && session_id == t.session_id
                && super::result::is_token_error(error, "invalid_grant"@, "Refresh token revoked — session terminated"@)
        } else if t.expires_at matches Some(e) && e < now {
            r matches RefreshCheck::Refused(e) && super::result::is_token_error(
                e,
                "invalid_grant"@,
                "Refresh token expired"@,
            )
        } else if t.client_id != client_id {
            r matches RefreshCheck::Refused(e) && super::result::is_token_error(
                e,
                "invalid_grant"@,
                "Refresh token client mismatch"@,
            )
        } else {
            r is Rotate
        },
    }
}

/// The hash a presented refresh token is looked up by: its keyed hash,
/// the one it was stored under when issued.
pub fn refresh_lookup_hash(hmac: &HmacSha256, raw: &str) -> (r: String)
    ensures
        r@ == keyed_hash(hmac.key(), raw@),
{
    hmac.compute(raw)
}

pub fn check_refresh(stored: Option<&RefreshToken>, now: i64, client: &Client) -> (r: RefreshCheck)
    ensures
        refresh_outcome(match stored {
            Some(t) => Some(*t),
            None => None,
        }, now as int, client.id, r),
{
    let t = match stored {
        None => return RefreshCheck::Refused(TokenResult::error("invalid_grant", "Invalid refresh token")),
        Some(t) => t,
    };
    if t.revoked {
        return RefreshCheck::Replayed {
            session_id: t.session_id,
            error: TokenResult::error("invalid_grant", "Refresh token revoked — session terminated"),
        };
    }
    if let Some(exp) = t.expires_at {
        if exp < now {
            return RefreshCheck::Refused(TokenResult::error("invalid_grant", "Refresh token expired"));
        }
    }
    if t.client_id != client.id {
        return RefreshCheck::Refused(TokenResult::error("invalid_grant", "Refresh token client mismatch"));
    }
    RefreshCheck::Rotate
}

/// The record of a refresh token after rotation: revoked, all else kept,
/// so that presenting it again is caught as a replay.
pub fn rotated(t: RefreshToken) -> (r: RefreshToken)
    ensures
        r.revoked,
        r.id == t.id,
        r.user_id == t.user_id,
        r.client_id == t.client_id,
        r.session_id == t.session_id,
        r.token_hash == t.token_hash,
        r.expires_at == t.expires_at,
        r.created_at == t.created_at,
{
    RefreshToken { revoked: true, ..t }
}

/// Reuse detection (OAuth 2.0 Security BCP §4.13): a refresh token that
/// was rotated is, when presented again, a replay that ends its session's
/// whole token family, whenever and by whichever client it is presented.
pub proof fn law_rotated_token_is_replay(t: RefreshToken, now: int, client_id: u128, r: RefreshCheck)
    requires
        t.revoked,
        refresh_outcome(Some(t), now, client_id, r),
    ensures
        r matches RefreshCheck::Replayed { session_id, error } && session_id == t.session_id,
{
}

/// A refresh token redeems while it lives. The record stored for a raw
/// token (`new_refresh_token`: its keyed hash, unrevoked, with an expiry)
/// is the one the refresh grant finds under the lookup hash of the same
/// raw token (`refresh_lookup_hash`), and until it expires the client it
/// was issued to may rotate it.
pub proof fn law_issued_refresh_token_redeems(
    t: RefreshToken,
    key: Seq<u8>,
    raw: Seq<char>,
    presented: Seq<char>,
    expiry: i64,
    now: int,
    client_id: u128,
    r: RefreshCheck,
)
    requires
        t.token_hash@ == keyed_hash(key, raw),
        !t.revoked,
        t.expires_at == Some(expiry),
        t.client_id == client_id,
        presented == raw,
        now <= expiry,
        refresh_outcome(Some(t), now, client_id, r),
    ensures
        keyed_hash(key, presented) == t.token_hash@,
        r is Rotate,
{
}

/// A rotated refresh token's user and session must exist and the user be
/// enabled.
pub fn require_active_user_session(user: Option<&User>, session: Option<&UserSession>) -> (r: Result<(), TokenResult>)
    ensures
        (user matches Some(u) && u.enabled && session is Some) ==> r is Ok,
        !(user matches Some(u) && u.enabled && session is Some) ==> token_fails(
            r,
            "invalid_grant"@,
            "User/session not valid"@,
        ),
{
    match (user, session) {
        (Some(u), Some(_)) => if u.enabled {
            Ok(())
        } else {
            Err(TokenResult::error("invalid_grant", "User/session not valid"))
        },
        _ => Err(TokenResult::error("invalid_grant", "User/session not valid")),
    }
}

/// The checks on a polled device code, in order. On success, the user and
/// session the user approved from.
pub open spec fn device_grant_check(
    auth: Option<DeviceAuthorization>,
    client_id: Seq<char>,
    now: int,
    r: Result<(u128, u128), TokenResult>,
) -> bool {
    match auth {
        None => token_fails(r, "invalid_grant"@, "Unknown device_code"@),
        Some(a) => if a.client_id@ != client_id {
            token_fails(r, "invalid_grant"@, "device_code does not belong to this client"@)
        } else if a.expires_at < now {
            token_fails(r, "expired_token"@, "device_code expired"@)
        } else if a.status@ == "pending"@ {
            token_fails(r, "authorization_pending"@, "User has not yet approved"@)
        } else if a.status@ == "denied"@ {
            token_fails(r, "access_denied"@, "User denied the authorization request"@)
        } else if a.status@ == "consumed"@ {
            token_fails(r, "invalid_grant"@, "device_code already used"@)
        } else if a.status@ != "approved"@ {
            token_fails(r, "invalid_grant"@, "Unknown device_code state"@)
        } else if a.user_id is None || a.session_id is None {
            token_fails(r, "invalid_grant"@, "Approved device_code missing user binding"@)
        } else {
            r == Ok::<(u128, u128), TokenResult>((a.user_id->0, a.session_id->0))
        },
    }
}

pub fn check_device_grant(auth: Option<&DeviceAuthorization>, client_id: &str, now: i64) -> (r: Result<(u128, u128), TokenResult>)
    ensures
        device_grant_check(match auth {
            Some(a) => Some(*a),
            None => None,
        }, client_id@, now as int, r),
{
    let a = match auth {
        None => return Err(TokenResult::error("invalid_grant", "Unknown device_code")),
        Some(a) => a,
    };
    if !str_eq(a.client_id.as_str(), client_id) {
        return Err(TokenResult::error("invalid_grant", "device_code does not belong to this client"));
    }
    if a.expires_at < now {
        return Err(TokenResult::error("expired_token", "device_code expired"));
    }
    let status = a.status.as_str();
    if str_eq(status, "pending") {
        return Err(TokenResult::error("authorization_pending", "User has not yet approved"));
    }
    if str_eq(status, "denied") {
        return Err(TokenResult::error("access_denied", "User denied the authorization request"));
    }
    if str_eq(status, "consumed") {
        return Err(TokenResult::error("invalid_grant", "device_code already used"));
    }
    if !str_eq(status, "approved") {
        return Err(TokenResult::error("invalid_grant", "Unknown device_code state"));
    }
    match (a.user_id, a.session_id) {
        (Some(u), Some(s)) => Ok((u, s)),
        _ => Err(TokenResult::error("invalid_grant", "Approved device_code missing user binding")),
    }
}

/// The device authorization after its code is redeemed.
pub fn consumed(auth: DeviceAuthorization) -> (r: DeviceAuthorization)
    ensures
        r.status@ == "consumed"@,
        r.id == auth.id,
        r.device_code == auth.device_code,
        r.user_code == auth.user_code,
        r.client_id == auth.client_id,
        r.scope == auth.scope,
        r.user_id == auth.user_id,
        r.session_id == auth.session_id,
        r.expires_at == auth.expires_at,
        r.created_at == auth.created_at,
{
    DeviceAuthorization { status: "consumed".to_owned(), ..auth }
}

/// An authorization code is accepted when redeemed by the client it was
/// issued to, at the redirect URI it was issued for, before it expires,
/// with the verifier whose `S256` challenge it carries (when it carries
/// one; a client that does not require PKCE may send none).
pub proof fn law_issued_code_redeems(
    c: AuthorizationCode,
    now: int,
    req: TokenRequest,
    client: Client,
    verifier: Seq<char>,
    r: Result<(), TokenResult>,
)
    requires
        c.expires_at >= now,
        c.client_id@ == str_or_empty(req.client_id),
        c.redirect_uri@ == str_or_empty(req.redirect_uri),
        match c.code_challenge {
            Some(ch) => ch@.len() > 0 && ch@ == crate::common::crypto::sha256_b64(verifier) && verifier.len() > 0
                && opt_str(req.code_verifier) == Some(verifier) && (opt_string(c.code_challenge_method) matches Some(
                m,
            ) && crate::common::text::eq_ignore_ascii_case_spec(m, "S256"@)),
            None => !client.pkce_required,
        },
        code_check(Some(c), now, req, client, r),
    ensures
        r is Ok,
{
}

/// PKCE cannot be downgraded: a code that carries a challenge is only
/// accepted with a verifier answering it, whether or not the client
/// requires PKCE.
pub proof fn law_challenged_code_needs_its_verifier(
    c: AuthorizationCode,
    now: int,
    req: TokenRequest,
    client: Client,
    r: Result<(), TokenResult>,
)
    requires
        c.code_challenge matches Some(ch) && ch@.len() > 0,
        code_check(Some(c), now, req, client, r),
        r is Ok,
    ensures
        pkce_holds(str_or_empty(req.code_verifier), c.code_challenge->0@, string_or_empty(c.code_challenge_method)),
{
}

/// The device-code lifecycle (RFC 8628): once the user approves the
/// pending code from a session, the device's next poll, by the client that
/// started it and before it expires, gets that session's user and session.
pub proof fn law_approved_device_code_redeems(
    pending: DeviceAuthorization,
    verified_at: int,
    session: SessionWithUser,
    approved: DeviceAuthorization,
    now: int,
    r: Result<(u128, u128), TokenResult>,
)
    requires
        verify_outcome(
            Some(pending),
            verified_at,
            session,
            true,
            Ok::<DeviceAuthorization, DeviceVerifyResult>(approved),
        ),
        approved.expires_at >= now,
        device_grant_check(Some(approved), approved.client_id@, now, r),
    ensures
        r == Ok::<(u128, u128), TokenResult>((session.session.user_id, session.session.id)),
{
    reveal_strlit("approved");
    reveal_strlit("pending");
    reveal_strlit("denied");
    reveal_strlit("consumed");
    assert("approved"@ != "pending"@ && "approved"@ != "denied"@ && "approved"@ != "consumed"@) by {
        assert("approved"@.len() == 8 && "pending"@.len() == 7 && "denied"@.len() == 6);
        assert("consumed"@.len() == 8 && "approved"@[0] != "consumed"@[0]);
    }
}

/// A redeemed device code cannot be redeemed again.
pub proof fn law_consumed_device_code_refused(used: DeviceAuthorization, now: int, r: Result<(u128, u128), TokenResult>)
    requires
        used.status@ == "consumed"@,
        used.expires_at >= now,
        device_grant_check(Some(used), used.client_id@, now, r),
    ensures
        token_fails(r, "invalid_grant"@, "device_code already used"@),
{
    reveal_strlit("pending");
    reveal_strlit("denied");
    reveal_strlit("consumed");
    assert("consumed"@ != "pending"@ && "consumed"@ != "denied"@) by {
        assert("consumed"@.len() == 8 && "pending"@.len() == 7 && "denied"@.len() == 6);
    }
}

/// An authorization code is redeemed only as it was issued: a redemption
/// is accepted only for an existing, unexpired code presented by the
/// client it was issued to, with the redirect URI it was issued for, and,
/// when PKCE applies (the client requires it or the code carries a
/// challenge), with a non-empty verifier whose SHA-256 (base64url) is the
/// stored challenge under the `S256` method. An unexpired code presented
/// by another client or with another redirect URI is refused as a binding
/// mismatch.
pub proof fn law_code_redeems_only_as_issued(
    code: Option<AuthorizationCode>,
    now: int,
    req: TokenRequest,
    client: Client,
    r: Result<(), TokenResult>,
)
    requires
        code_check(code, now, req, client, r),
    ensures
        code is None ==> r is Err,
        r is Ok ==> (code matches Some(c) && now <= c.expires_at && c.client_id@ == str_or_empty(req.client_id)
            && c.redirect_uri@ == str_or_empty(req.redirect_uri)),
        r is Ok ==> (code matches Some(c) ==> ((client.pkce_required || string_or_empty(c.code_challenge).len()
            > 0) ==> {
            &&& str_or_empty(req.code_verifier).len() > 0
            &&& string_or_empty(c.code_challenge).len() > 0
            &&& crate::common::text::eq_ignore_ascii_case_spec(string_or_empty(c.code_challenge_method), "S256"@)
            &&& crate::common::crypto::sha256_b64(str_or_empty(req.code_verifier)) == string_or_empty(
                c.code_challenge,
            )
        })),
        code matches Some(c) ==> ((now <= c.expires_at && (c.client_id@ != str_or_empty(req.client_id)
            || c.redirect_uri@ != str_or_empty(req.redirect_uri))) ==> (r is Err && token_fails(
            r,
            "invalid_grant"@,
            "Code binding mismatch"@,
        ))),
{
    if let Some(c) = code {
        if string_or_empty(c.code_challenge).len() > 0 {
            assert(c.code_challenge is Some);
        }
    }
}

/// Only a live refresh token of the presenting client is rotated: a
/// rotation is allowed only for a stored token that is not revoked, not
/// past its expiry, and issued to this client; a presented token found in
/// no row is refused, and a revoked one always ends its session's family.
pub proof fn law_refresh_rotates_only_live_own_tokens(
    stored: Option<RefreshToken>,
    now: int,
    client_id: u128,
    r: RefreshCheck,
)
    requires
        refresh_outcome(stored, now, client_id, r),
    ensures
        r is Rotate ==> (stored matches Some(t) && !t.revoked && t.client_id == client_id && (t.expires_at matches Some(
            e,
        ) ==> now <= e)),
        stored is None ==> r is Refused,
        stored matches Some(t) ==> (t.revoked ==> (r matches RefreshCheck::Replayed { session_id, error }
            && session_id == t.session_id && !error.ok)),
{
}

/// A device code redeems only once approved: the grant yields a user and
/// session only for an authorization of this client, unexpired, whose
/// status is `approved`, and they are the ones it was approved for. A
/// pending, denied or already used code never yields tokens.
pub proof fn law_device_code_redeems_only_when_approved(
    auth: Option<DeviceAuthorization>,
    client_id: Seq<char>,
    now: int,
    r: Result<(u128, u128), TokenResult>,
)
    requires
        device_grant_check(auth, client_id, now, r),
    ensures
        r matches Ok(ids) ==> (auth matches Some(a) && a.client_id@ == client_id && now <= a.expires_at
            && a.status@ == "approved"@ && a.user_id == Some(ids.0) && a.session_id == Some(ids.1)),
        auth matches Some(a) ==> ((a.status@ == "pending"@ || a.status@ == "denied"@ || a.status@
            == "consumed"@) ==> r is Err),
{
    reveal_strlit("approved");
    reveal_strlit("pending");
    reveal_strlit("denied");
    reveal_strlit("consumed");
}

} // verus!
