//! What the token endpoint mints: the claims of the access token
//! (RFC 9068) and of the ID token, the refresh-token record kept at rest,
//! and the response body. Signing happens outside: a claim list is handed
//! to the signer as is.

use vstd::prelude::*;

use super::model::RefreshToken;
use super::result::TokenPayload;
use crate::client::Client;
use crate::common::crypto::{keyed_hash, HmacSha256};
use crate::common::ids::{uuid_hyphenated, uuid_text};
use crate::common::order::{sorted_items, sorted_strict};
use crate::common::strset::{clone_strings, strings_view, StringSet};
use crate::common::text::{concat, or_empty, str_or_empty};
use crate::oauth::authorize::claims::ClaimsRequest;
use crate::session::model::UserSession;
use crate::user::User;

verus! {

/// Refresh tokens live this many days.
pub const REFRESH_TOKEN_TTL_DAYS: i64 = 30;

/// Microseconds in a day.
pub const MICROS_PER_DAY: i64 = 86_400_000_000;

/// The value of a claim.
pub enum ClaimValue {
    Text(String),
    Flag(bool),
    List(Vec<String>),
}

/// A named claim of a token.
pub struct Claim {
    pub name: String,
    pub value: ClaimValue,
}

/// A claim value as the contracts read it.
pub enum ClaimView {
    Text(Seq<char>),
    Flag(bool),
    List(Seq<Seq<char>>),
}

pub open spec fn value_view(v: ClaimValue) -> ClaimView {
    match v {
        ClaimValue::Text(s) => ClaimView::Text(s@),
        ClaimValue::Flag(b) => ClaimView::Flag(b),
        ClaimValue::List(l) => ClaimView::List(strings_view(l@)),
    }
}

/// A claim list as (name, value) pairs, in the order they were added.
pub open spec fn claims_view(v: Seq<Claim>) -> Seq<(Seq<char>, ClaimView)> {
    v.map_values(|c: Claim| (c.name@, value_view(c.value)))
}

/// One text claim.
pub open spec fn text_claim(name: Seq<char>, value: Seq<char>) -> Seq<(Seq<char>, ClaimView)> {
    seq![(name, ClaimView::Text(value))]
}

/// The claims of an access token minted by the client-credentials grant.
pub open spec fn client_claims_spec(client_id: Seq<char>, scope: Seq<char>) -> Seq<(Seq<char>, ClaimView)> {
    text_claim("scope"@, scope) + text_claim("client_id"@, client_id)
}

/// The claims of an access token minted for a user: the client, the
/// user's email and username, the session, the effective roles, the
/// granted scope and, when the `claims` parameter asked for `/userinfo`
/// claims, their names in increasing order.
pub open spec fn access_claims_spec(
    user: User,
    client: Client,
    session_id: u128,
    roles: Seq<Seq<char>>,
    scope: Seq<char>,
) -> Seq<(Seq<char>, ClaimView)> {
    text_claim("client_id"@, client.client_id@) + text_claim("email"@, user.email@) + text_claim(
        "username"@,
        user.username@,
    ) + text_claim("sid"@, uuid_hyphenated(session_id)) + seq![("roles"@, ClaimView::List(roles))]
        + text_claim("scope"@, scope)
}

/// The trailing `claims_userinfo` claim: the requested names, sorted.
pub open spec fn userinfo_claim_ok(tail: Seq<(Seq<char>, ClaimView)>, userinfo: Set<Seq<char>>) -> bool {
    if userinfo.len() == 0 {
        tail.len() == 0
    } else {
        &&& tail.len() == 1
        &&& tail[0].0 == "claims_userinfo"@
        &&& tail[0].1 matches ClaimView::List(names)
        &&& sorted_strict(names)
        &&& names.to_set() == userinfo
    }
}

/// The claim `(name, v)` when `cond` holds, else nothing.
pub open spec fn opt_claim(cond: bool, name: Seq<char>, v: ClaimView) -> Seq<(Seq<char>, ClaimView)> {
    if cond {
        seq![(name, v)]
    } else {
        seq![]
    }
}

/// The text of an optional string; absent reads as empty.
pub open spec fn text_of(o: Option<String>) -> Seq<char> {
    match o {
        Some(s) => s@,
        None => Seq::empty(),
    }
}

/// The claims describing a user after a leading claim: `email` and
/// `email_verified` when the `email` scope or the request asks for them,
/// then the profile claims (`preferred_username`, `given_name`,
/// `family_name`, `name`) when the `profile` scope or the request asks for
/// them and the user has the values.
pub open spec fn identity_claims_spec(
    head: Seq<char>,
    head_value: Seq<char>,
    user: User,
    scopes: Set<Seq<char>>,
    asked: Set<Seq<char>>,
) -> Seq<(Seq<char>, ClaimView)> {
    let profile = scopes.contains("profile"@);
    let first = user.first_name;
    let last = user.last_name;
    text_claim(head, head_value)
        + opt_claim(scopes.contains("email"@) || asked.contains("email"@), "email"@, ClaimView::Text(user.email@))
        + opt_claim(
        scopes.contains("email"@) || asked.contains("email_verified"@),
        "email_verified"@,
        ClaimView::Flag(user.email_verified),
    ) + opt_claim(
        profile || asked.contains("preferred_username"@),
        "preferred_username"@,
        ClaimView::Text(user.username@),
    ) + opt_claim(
        (profile || asked.contains("given_name"@)) && first is Some,
        "given_name"@,
        ClaimView::Text(text_of(first)),
    ) + opt_claim(
        (profile || asked.contains("family_name"@)) && last is Some,
        "family_name"@,
        ClaimView::Text(text_of(last)),
    ) + opt_claim(
        (profile || asked.contains("name"@)) && first is Some && last is Some,
        "name"@,
        ClaimView::Text(text_of(first) + " "@ + text_of(last)),
    )
}

/// The claims of an ID token: the session, then the identity claims the
/// granted scopes or the `claims` parameter ask for.
pub open spec fn id_claims_spec(
    user: User,
    session_id: u128,
    scopes: Set<Seq<char>>,
    asked: Set<Seq<char>>,
) -> Seq<(Seq<char>, ClaimView)> {
    identity_claims_spec("sid"@, uuid_hyphenated(session_id), user, scopes, asked)
}

fn text(name: &str, value: &str) -> (r: Claim)
    ensures
        r.name@ == name@,
        value_view(r.value) == ClaimView::Text(value@),
{
    Claim { name: name.to_owned(), value: ClaimValue::Text(value.to_owned()) }
}

fn push_claim(out: &mut Vec<Claim>, c: Claim)
    ensures
        claims_view(final(out)@) == claims_view(old(out)@).push((c.name@, value_view(c.value))),
{
    let ghost before = out@;
    out.push(c);
    assert(claims_view(out@) =~= claims_view(before).push((c.name@, value_view(c.value))));
}

/// The access-token claims of the client-credentials grant.
pub fn client_access_claims(client: &Client, scope: Option<&str>) -> (r: Vec<Claim>)
    ensures
        claims_view(r@) == client_claims_spec(client.client_id@, str_or_empty(scope)),
{
    let mut out: Vec<Claim> = Vec::new();
    push_claim(&mut out, text("scope", or_empty(scope)));
    push_claim(&mut out, text("client_id", client.client_id.as_str()));
    assert(claims_view(out@) =~= client_claims_spec(client.client_id@, str_or_empty(scope)));
    out
}

/// The access-token claims for a user's grant.
pub fn access_claims(
    user: &User,
    client: &Client,
    session: &UserSession,
    roles: &Vec<String>,
    scope: Option<&str>,
    claims_request: &ClaimsRequest,
) -> (r: Vec<Claim>)
    ensures
        claims_view(r@).len() >= 6,
        claims_view(r@).take(6) == access_claims_spec(
            *user,
            *client,
            session.id,
            strings_view(roles@),
            str_or_empty(scope),
        ),
        userinfo_claim_ok(claims_view(r@).skip(6), claims_request.userinfo()),
{
    proof {
        reveal_strlit("client_id");
        reveal_strlit("roles");
    }
    let mut out: Vec<Claim> = Vec::new();
    push_claim(&mut out, text("client_id", client.client_id.as_str()));
    push_claim(&mut out, text("email", user.email.as_str()));
    push_claim(&mut out, text("username", user.username.as_str()));
    let sid = uuid_text(session.id);
    push_claim(&mut out, text("sid", sid.as_str()));
    push_claim(&mut out, Claim { name: "roles".to_owned(), value: ClaimValue::List(clone_strings(roles)) });
    push_claim(&mut out, text("scope", or_empty(scope)));
    let ghost six = claims_view(out@);
    assert(six =~= access_claims_spec(
        *user,
        *client,
        session.id,
        strings_view(roles@),
        str_or_empty(scope),
    ));
    let asked = claims_request.userinfo_claims();
    if !asked.is_empty() {
        let names = sorted_items(asked);
        push_claim(&mut out, Claim { name: "claims_userinfo".to_owned(), value: ClaimValue::List(names) });
        assert(claims_view(out@).take(6) =~= six);
        assert(claims_view(out@).skip(6) =~= seq![("claims_userinfo"@, ClaimView::List(strings_view(names@)))]);
    } else {
        assert(claims_view(out@).take(6) =~= six);
        assert(claims_view(out@).skip(6) =~= Seq::<(Seq<char>, ClaimView)>::empty());
    }
    out
}

/// Appends the text claim `name` when `cond` holds.
fn push_text_when(out: &mut Vec<Claim>, cond: bool, name: &str, value: &str)
    ensures
        claims_view(final(out)@) == claims_view(old(out)@) + opt_claim(cond, name@, ClaimView::Text(value@)),
{
    let ghost before = claims_view(out@);
    if cond {
        push_claim(out, text(name, value));
    }
    assert(claims_view(out@) =~= before + opt_claim(cond, name@, ClaimView::Text(value@)));
}

/// Appends the text claim `name` holding `value` when `cond` holds and
/// `value` is present.
fn push_opt_text_when(out: &mut Vec<Claim>, cond: bool, name: &str, value: &Option<String>)
    ensures
        claims_view(final(out)@) == claims_view(old(out)@) + opt_claim(
            cond && value is Some,
            name@,
            ClaimView::Text(text_of(*value)),
        ),
{
    let ghost before = claims_view(out@);
    if cond {
        if let Some(v) = value {
            push_claim(out, text(name, v.as_str()));
        }
    }
    assert(claims_view(out@) =~= before + opt_claim(cond && value is Some, name@, ClaimView::Text(text_of(*value))));
}

/// The claim `head` holding `head_value`, then the identity claims of
/// `user` that `scopes` or `asked` call for.
pub fn identity_claims(head: &str, head_value: &str, user: &User, scopes: &StringSet, asked: &StringSet) -> (r: Vec<Claim>)
    ensures
        claims_view(r@) == identity_claims_spec(head@, head_value@, *user, scopes@, asked@),
{
    let profile = scopes.contains("profile");
    let mut out: Vec<Claim> = Vec::new();
    push_claim(&mut out, text(head, head_value));
    assert(claims_view(out@) =~= text_claim(head@, head_value@));
    let email = scopes.contains("email") || asked.contains("email");
    push_text_when(&mut out, email, "email", user.email.as_str());
    let ghost before_flag = claims_view(out@);
    let email_verified = scopes.contains("email") || asked.contains("email_verified");
    if email_verified {
        push_claim(&mut out, Claim { name: "email_verified".to_owned(), value: ClaimValue::Flag(user.email_verified) });
    }
    assert(claims_view(out@) =~= before_flag + opt_claim(
        email_verified,
        "email_verified"@,
        ClaimView::Flag(user.email_verified),
    ));
    let pu = profile || asked.contains("preferred_username");
    push_text_when(&mut out, pu, "preferred_username", user.username.as_str());
    let gn = profile || asked.contains("given_name");
    push_opt_text_when(&mut out, gn, "given_name", &user.first_name);
    let fnm = profile || asked.contains("family_name");
    push_opt_text_when(&mut out, fnm, "family_name", &user.last_name);
    let ghost before_name = claims_view(out@);
    let nm = profile || asked.contains("name");
    if nm {
        if let (Some(first), Some(last)) = (&user.first_name, &user.last_name) {
            let with_space = concat(first.as_str(), " ");
            let full = concat(with_space.as_str(), last.as_str());
            push_claim(&mut out, text("name", full.as_str()));
        }
    }
    assert(claims_view(out@) =~= before_name + opt_claim(
        nm && user.first_name is Some && user.last_name is Some,
        "name"@,
        ClaimView::Text(text_of(user.first_name) + " "@ + text_of(user.last_name)),
    ));
    out
}

/// The ID-token claims; `scopes` is the granted scope set.
pub fn id_token_claims(user: &User, session: &UserSession, scopes: &StringSet, claims_request: &ClaimsRequest) -> (r: Vec<Claim>)
    ensures
        claims_view(r@) == id_claims_spec(*user, session.id, scopes@, claims_request.id_token()),
{
    let sid = uuid_text(session.id);
    identity_claims("sid", sid.as_str(), user, scopes, claims_request.id_token_claims())
}

/// The ID token's `auth_time`: when the session was created, in whole
/// seconds since the epoch (rounded down).
pub fn auth_time(session: &UserSession) -> (r: i64)
    ensures
        r == session.created_at as int / 1_000_000,
{
    let t = session.created_at;
    if t >= 0 {
        t / 1_000_000
    } else {
        let r = -((-(t + 1)) / 1_000_000) - 1;
        assert(r == t as int / 1_000_000) by (nonlinear_arith)
            requires
                t < 0,
                r == -((-(t + 1)) / 1_000_000) - 1,
        ;
        r
    }
}

/// Whether a grant of `scope` also gets an ID token: its scope set holds
/// `openid`.
pub fn wants_id_token(scopes: &StringSet) -> (r: bool)
    ensures
        r == scopes@.contains("openid"@),
{
    scopes.contains("openid")
}

/// The refresh-token record kept for a freshly minted raw token: only the
/// keyed hash of the raw token is stored (the one the refresh grant and
/// revocation look it up by), and it expires `REFRESH_TOKEN_TTL_DAYS`
/// after `now`.
pub fn new_refresh_token(
    id: u128,
    user: &User,
    client: &Client,
    session: &UserSession,
    raw: &str,
    hmac: &HmacSha256,
    now: i64,
) -> (r: RefreshToken)
    requires
        now + REFRESH_TOKEN_TTL_DAYS * MICROS_PER_DAY <= i64::MAX,
    ensures
        r.id == id,
        r.user_id == user.id,
        r.client_id == client.id,
        r.session_id == session.id,
        r.token_hash@ == keyed_hash(hmac.key(), raw@),
        r.expires_at == Some((now + REFRESH_TOKEN_TTL_DAYS * MICROS_PER_DAY) as i64),
        !r.revoked,
        r.created_at == now,
{
    RefreshToken {
        id,
        user_id: user.id,
        client_id: client.id,
        session_id: session.id,
        token_hash: hmac.compute(raw),
        expires_at: Some(now + REFRESH_TOKEN_TTL_DAYS * MICROS_PER_DAY),
        revoked: false,
        created_at: now,
    }
}

/// The response body of the client-credentials grant: no refresh token,
/// no ID token.
pub fn client_token_payload(access_token: String, expires_in: i64, scope: Option<&str>) -> (r: TokenPayload)
    ensures
        r.token_type@ == "Bearer"@,
        r.expires_in == expires_in,
        r.access_token == access_token,
        r.refresh_token is None,
        r.scope@ == str_or_empty(scope),
        r.id_token is None,
{
    TokenPayload {
        token_type: "Bearer".to_owned(),
        expires_in,
        access_token,
        refresh_token: None,
        scope: or_empty(scope).to_owned(),
        id_token: None,
    }
}

/// The response body of a user's grant: access and refresh token, and the
/// ID token when one was minted.
pub fn user_token_payload(
    access_token: String,
    expires_in: i64,
    refresh_token: String,
    scope: Option<&str>,
    id_token: Option<String>,
) -> (r: TokenPayload)
    ensures
        r.token_type@ == "Bearer"@,
        r.expires_in == expires_in,
        r.access_token == access_token,
        r.refresh_token == Some(refresh_token),
        r.scope@ == str_or_empty(scope),
        r.id_token == id_token,
{
    TokenPayload {
        token_type: "Bearer".to_owned(),
        expires_in,
        access_token,
        refresh_token: Some(refresh_token),
        scope: or_empty(scope).to_owned(),
        id_token,
    }
}

proof fn lemma_concat_contains(a: Seq<(Seq<char>, ClaimView)>, b: Seq<(Seq<char>, ClaimView)>, x: (Seq<char>, ClaimView))
    ensures
        (a + b).contains(x) <==> (a.contains(x) || b.contains(x)),
{
    if a.contains(x) {
        let i = choose|i: int| 0 <= i < a.len() && a[i] == x;
        assert((a + b)[i] == x);
    }
    if b.contains(x) {
        let j = choose|j: int| 0 <= j < b.len() && b[j] == x;
        assert((a + b)[a.len() + j] == x);
    }
    if (a + b).contains(x) {
        let k = choose|k: int| 0 <= k < (a + b).len() && (a + b)[k] == x;
        if k < a.len() {
            assert(a[k] == x);
        } else {
            assert(b[k - a.len()] == x);
        }
    }
}

proof fn lemma_opt_claim_contains(cond: bool, name: Seq<char>, v: ClaimView, x: (Seq<char>, ClaimView))
    ensures
        opt_claim(cond, name, v).contains(x) <==> (cond && x == (name, v)),
{
    if cond {
        assert(opt_claim(cond, name, v)[0] == (name, v));
    }
}

/// Which pairs the identity claims hold: the leading pair, and each
/// optional claim exactly when its condition holds.
proof fn lemma_identity_membership(
    head: Seq<char>,
    head_value: Seq<char>,
    user: User,
    scopes: Set<Seq<char>>,
    asked: Set<Seq<char>>,
    x: (Seq<char>, ClaimView),
)
    ensures
        identity_claims_spec(head, head_value, user, scopes, asked).contains(x) <==> ({
            let profile = scopes.contains("profile"@);
            let first = user.first_name;
            let last = user.last_name;
            ||| x == (head, ClaimView::Text(head_value))
            ||| ((scopes.contains("email"@) || asked.contains("email"@)) && x == ("email"@, ClaimView::Text(user.email@)))
            ||| ((scopes.contains("email"@) || asked.contains("email_verified"@)) && x == (
                "email_verified"@,
                ClaimView::Flag(user.email_verified),
            ))
            ||| ((profile || asked.contains("preferred_username"@)) && x == (
                "preferred_username"@,
                ClaimView::Text(user.username@),
            ))
            ||| ((profile || asked.contains("given_name"@)) && first is Some && x == (
                "given_name"@,
                ClaimView::Text(text_of(first)),
            ))
            ||| ((profile || asked.contains("family_name"@)) && last is Some && x == (
                "family_name"@,
                ClaimView::Text(text_of(last)),
            ))
            ||| ((profile || asked.contains("name"@)) && first is Some && last is Some && x == (
                "name"@,
                ClaimView::Text(text_of(first) + " "@ + text_of(last)),
            ))
        }),
{
    let profile = scopes.contains("profile"@);
    let first = user.first_name;
    let last = user.last_name;
    let h = text_claim(head, head_value);
    let e = opt_claim(scopes.contains("email"@) || asked.contains("email"@), "email"@, ClaimView::Text(user.email@));
    let ev = opt_claim(
        scopes.contains("email"@) || asked.contains("email_verified"@),
        "email_verified"@,
        ClaimView::Flag(user.email_verified),
    );
    let pu = opt_claim(
        profile || asked.contains("preferred_username"@),
        "preferred_username"@,
        ClaimView::Text(user.username@),
    );
    let gn = opt_claim(
        (profile || asked.contains("given_name"@)) && first is Some,
        "given_name"@,
        ClaimView::Text(text_of(first)),
    );
    let fnm = opt_claim(
        (profile || asked.contains("family_name"@)) && last is Some,
        "family_name"@,
        ClaimView::Text(text_of(last)),
    );
    let nm = opt_claim(
        (profile || asked.contains("name"@)) && first is Some && last is Some,
        "name"@,
        ClaimView::Text(text_of(first) + " "@ + text_of(last)),
    );
    assert(identity_claims_spec(head, head_value, user, scopes, asked) == h + e + ev + pu + gn + fnm + nm);
    lemma_concat_contains(h + e + ev + pu + gn + fnm, nm, x);
    lemma_concat_contains(h + e + ev + pu + gn, fnm, x);
    lemma_concat_contains(h + e + ev + pu, gn, x);
    lemma_concat_contains(h + e + ev, pu, x);
    lemma_concat_contains(h + e, ev, x);
    lemma_concat_contains(h, e, x);
    lemma_opt_claim_contains(scopes.contains("email"@) || asked.contains("email"@), "email"@, ClaimView::Text(user.email@), x);
    lemma_opt_claim_contains(
        scopes.contains("email"@) || asked.contains("email_verified"@),
        "email_verified"@,
        ClaimView::Flag(user.email_verified),
        x,
    );
    lemma_opt_claim_contains(profile || asked.contains("preferred_username"@), "preferred_username"@, ClaimView::Text(user.username@), x);
    lemma_opt_claim_contains(
        (profile || asked.contains("given_name"@)) && first is Some,
        "given_name"@,
        ClaimView::Text(text_of(first)),
        x,
    );
    lemma_opt_claim_contains(
        (profile || asked.contains("family_name"@)) && last is Some,
        "family_name"@,
        ClaimView::Text(text_of(last)),
        x,
    );
    lemma_opt_claim_contains(
        (profile || asked.contains("name"@)) && first is Some && last is Some,
        "name"@,
        ClaimView::Text(text_of(first) + " "@ + text_of(last)),
        x,
    );
    if h.contains(x) {
        let k = choose|k: int| 0 <= k < h.len() && h[k] == x;
        assert(k == 0);
    }
    if x == (head, ClaimView::Text(head_value)) {
        assert(h[0] == x);
    }
}

/// The identity claims answer what was asked, and only that. Led by the
/// subject (or session) claim, they hold the email when the `email` scope
/// was granted or the `claims` parameter asked for it, `email_verified`
/// likewise, the username under `profile` or when asked, and the given,
/// family and full names (for a user who has them) under `profile` or
/// when asked; a claim neither granted by scope nor asked for is absent,
/// whatever its value (unless it is the leading claim itself).
pub proof fn law_identity_claims_answer_what_was_asked(
    head: Seq<char>,
    head_value: Seq<char>,
    user: User,
    scopes: Set<Seq<char>>,
    asked: Set<Seq<char>>,
    v: ClaimView,
)
    ensures
        identity_claims_spec(head, head_value, user, scopes, asked).len() >= 1,
        identity_claims_spec(head, head_value, user, scopes, asked)[0] == (head, ClaimView::Text(head_value)),
        (scopes.contains("email"@) || asked.contains("email"@)) ==> identity_claims_spec(
            head,
            head_value,
            user,
            scopes,
            asked,
        ).contains(("email"@, ClaimView::Text(user.email@))),
        (scopes.contains("email"@) || asked.contains("email_verified"@)) ==> identity_claims_spec(
            head,
            head_value,
            user,
            scopes,
            asked,
        ).contains(("email_verified"@, ClaimView::Flag(user.email_verified))),
        (scopes.contains("profile"@) || asked.contains("preferred_username"@)) ==> identity_claims_spec(
            head,
            head_value,
            user,
            scopes,
            asked,
        ).contains(("preferred_username"@, ClaimView::Text(user.username@))),
        ((scopes.contains("profile"@) || asked.contains("given_name"@)) && user.first_name is Some)
            ==> identity_claims_spec(head, head_value, user, scopes, asked).contains(
            ("given_name"@, ClaimView::Text(user.first_name->0@)),
        ),
        ((scopes.contains("profile"@) || asked.contains("family_name"@)) && user.last_name is Some)
            ==> identity_claims_spec(head, head_value, user, scopes, asked).contains(
            ("family_name"@, ClaimView::Text(user.last_name->0@)),
        ),
        ((scopes.contains("profile"@) || asked.contains("name"@)) && user.first_name is Some
            && user.last_name is Some) ==> identity_claims_spec(head, head_value, user, scopes, asked).contains(
            ("name"@, ClaimView::Text(user.first_name->0@ + " "@ + user.last_name->0@)),
        ),
        (head != "email"@ && !scopes.contains("email"@) && !asked.contains("email"@)) ==> !identity_claims_spec(
            head,
            head_value,
            user,
            scopes,
            asked,
        ).contains(("email"@, v)),
        (head != "email_verified"@ && !scopes.contains("email"@) && !asked.contains("email_verified"@))
            ==> !identity_claims_spec(head, head_value, user, scopes, asked).contains(("email_verified"@, v)),
        (head != "preferred_username"@ && !scopes.contains("profile"@) && !asked.contains("preferred_username"@))
            ==> !identity_claims_spec(head, head_value, user, scopes, asked).contains(("preferred_username"@, v)),
        (head != "given_name"@ && !scopes.contains("profile"@) && !asked.contains("given_name"@))
            ==> !identity_claims_spec(head, head_value, user, scopes, asked).contains(("given_name"@, v)),
        (head != "family_name"@ && !scopes.contains("profile"@) && !asked.contains("family_name"@))
            ==> !identity_claims_spec(head, head_value, user, scopes, asked).contains(("family_name"@, v)),
        (head != "name"@ && !scopes.contains("profile"@) && !asked.contains("name"@)) ==> !identity_claims_spec(
            head,
            head_value,
            user,
            scopes,
            asked,
        ).contains(("name"@, v)),
{
    reveal_strlit("email");
    reveal_strlit("email_verified");
    reveal_strlit("preferred_username");
    reveal_strlit("given_name");
    reveal_strlit("family_name");
    reveal_strlit("name");
    assert("email"@.len() == 5);
    assert("email_verified"@.len() == 14);
    assert("preferred_username"@.len() == 18);
    assert("given_name"@.len() == 10);
    assert("family_name"@.len() == 11);
    assert("name"@.len() == 4);
    let c = identity_claims_spec(head, head_value, user, scopes, asked);
    lemma_identity_membership(head, head_value, user, scopes, asked, (head, ClaimView::Text(head_value)));
    let k = choose|k: int| 0 <= k < c.len() && c[k] == (head, ClaimView::Text(head_value));
    assert(c[0] == text_claim(head, head_value)[0]);
    lemma_identity_membership(head, head_value, user, scopes, asked, ("email"@, ClaimView::Text(user.email@)));
    lemma_identity_membership(head, head_value, user, scopes, asked, ("email_verified"@, ClaimView::Flag(user.email_verified)));
    lemma_identity_membership(head, head_value, user, scopes, asked, ("preferred_username"@, ClaimView::Text(user.username@)));
    lemma_identity_membership(head, head_value, user, scopes, asked, ("given_name"@, ClaimView::Text(text_of(user.first_name))));
    lemma_identity_membership(head, head_value, user, scopes, asked, ("family_name"@, ClaimView::Text(text_of(user.last_name))));
    lemma_identity_membership(
        head,
        head_value,
        user,
        scopes,
        asked,
        ("name"@, ClaimView::Text(text_of(user.first_name) + " "@ + text_of(user.last_name))),
    );
    lemma_identity_membership(head, head_value, user, scopes, asked, ("email"@, v));
    lemma_identity_membership(head, head_value, user, scopes, asked, ("email_verified"@, v));
    lemma_identity_membership(head, head_value, user, scopes, asked, ("preferred_username"@, v));
    lemma_identity_membership(head, head_value, user, scopes, asked, ("given_name"@, v));
    lemma_identity_membership(head, head_value, user, scopes, asked, ("family_name"@, v));
    lemma_identity_membership(head, head_value, user, scopes, asked, ("name"@, v));
}

} // verus!
