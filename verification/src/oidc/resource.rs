//! `/userinfo` (it requires the `openid` scope) and the discovery
//! document.

use vstd::prelude::*;

use crate::common::ids::{uuid_from_text, uuid_hyphenated, uuid_text};
use crate::common::strset::{set_of, strings_view, StringSet};
use crate::common::text::{concat, eq_ignore_ascii_case, eq_ignore_ascii_case_spec, opt_str, str_or_empty};
use crate::oauth::scopes::{parse, scope_set};
use crate::oauth::token::issuer::{claims_view, identity_claims, identity_claims_spec, Claim};
use crate::user::User;

verus! {

/// Why `/userinfo` refuses a request.
pub enum UserinfoRefusal {
    /// 401: no valid bearer token, not an access token, its session is
    /// gone, or it names no enabled account.
    InvalidToken,
    /// 403: the token lacks the `openid` scope.
    InsufficientScope,
}

/// The scopes granted by the token's `scope` claim; refused without
/// `openid`.
pub fn userinfo_scopes(scope_claim: Option<&str>) -> (r: Result<StringSet, UserinfoRefusal>)
    ensures
        scope_set(str_or_empty(scope_claim)).contains("openid"@) ==> (r matches Ok(s) && s@ == scope_set(
            str_or_empty(scope_claim),
        )),
        !scope_set(str_or_empty(scope_claim)).contains("openid"@) ==> r matches Err(
            UserinfoRefusal::InsufficientScope,
        ),
{
    let set = match scope_claim {
        Some(s) => parse(Some(s)),
        None => parse(None),
    };
    if set.contains("openid") {
        Ok(set)
    } else {
        Err(UserinfoRefusal::InsufficientScope)
    }
}

/// The account the token's `sub` claim names, which must be a UUID.
pub fn userinfo_subject(sub_claim: Option<&str>) -> (r: Result<u128, UserinfoRefusal>)
    ensures
        match opt_str(sub_claim) {
            Some(s) => match uuid_from_text(s) {
                Some(u) => r == Ok::<u128, UserinfoRefusal>(u),
                None => r matches Err(UserinfoRefusal::InvalidToken),
            },
            None => r matches Err(UserinfoRefusal::InvalidToken),
        },
{
    match sub_claim {
        Some(s) => match crate::common::ids::parse_uuid(s) {
            Some(u) => Ok(u),
            None => Err(UserinfoRefusal::InvalidToken),
        },
        None => Err(UserinfoRefusal::InvalidToken),
    }
}

/// The JOSE `typ` of an access token (RFC 9068 §4): `at+jwt`, or the full
/// media type `application/at+jwt`, compared without ASCII case.
pub open spec fn is_access_token_type(typ: Option<Seq<char>>) -> bool {
    match typ {
        Some(t) => eq_ignore_ascii_case_spec(t, "at+jwt"@) || eq_ignore_ascii_case_spec(t, "application/at+jwt"@),
        None => false,
    }
}

/// The session the token's `sid` claim names, which must be a UUID.
pub fn userinfo_session_id(sid_claim: Option<&str>) -> (r: Result<u128, UserinfoRefusal>)
    ensures
        match opt_str(sid_claim) {
            Some(s) => match uuid_from_text(s) {
                Some(u) => r == Ok::<u128, UserinfoRefusal>(u),
                None => r matches Err(UserinfoRefusal::InvalidToken),
            },
            None => r matches Err(UserinfoRefusal::InvalidToken),
        },
{
    match sid_claim {
        Some(s) => match crate::common::ids::parse_uuid(s) {
            Some(u) => Ok(u),
            None => Err(UserinfoRefusal::InvalidToken),
        },
        None => Err(UserinfoRefusal::InvalidToken),
    }
}

/// Only an access token is accepted (an ID token or any other JWT signed
/// by this server is refused), and only while the session it was issued
/// in is still active (`session_active`: the session its `sid` names was
/// found and is usable).
pub fn userinfo_token_check(typ: Option<&str>, session_active: bool) -> (r: Result<(), UserinfoRefusal>)
    ensures
        (is_access_token_type(opt_str(typ)) && session_active) ==> r is Ok,
        !(is_access_token_type(opt_str(typ)) && session_active) ==> r matches Err(UserinfoRefusal::InvalidToken),
{
    let typed = match typ {
        Some(t) => eq_ignore_ascii_case(t, "at+jwt") || eq_ignore_ascii_case(t, "application/at+jwt"),
        None => false,
    };
    if typed && session_active {
        Ok(())
    } else {
        Err(UserinfoRefusal::InvalidToken)
    }
}

/// The account must exist and be enabled.
pub fn userinfo_account(user: Option<&User>) -> (r: Result<(), UserinfoRefusal>)
    ensures
        (user matches Some(u) && u.enabled) ==> r is Ok,
        !(user matches Some(u) && u.enabled) ==> r matches Err(UserinfoRefusal::InvalidToken),
{
    match user {
        Some(u) => if u.enabled {
            Ok(())
        } else {
            Err(UserinfoRefusal::InvalidToken)
        },
        None => Err(UserinfoRefusal::InvalidToken),
    }
}

/// The `/userinfo` claims: the subject, then the identity claims the
/// granted scopes or the token's `claims_userinfo` list ask for.
pub fn userinfo_claims(user: &User, scopes: &StringSet, requested: &Vec<String>) -> (r: Vec<Claim>)
    ensures
        claims_view(r@) == identity_claims_spec(
            "sub"@,
            uuid_hyphenated(user.id),
            *user,
            scopes@,
            strings_view(requested@).to_set(),
        ),
{
    let asked = set_of(requested);
    let sub = uuid_text(user.id);
    identity_claims("sub", sub.as_str(), user, scopes, &asked)
}

/// A refusal as sent: the status, the `WWW-Authenticate` challenge and
/// the `error` member of the body (a refused scope also names the scope
/// required).
pub struct RefusalReply {
    pub status: u16,
    pub www_authenticate: &'static str,
    pub error: &'static str,
}

pub fn refusal_reply(r: UserinfoRefusal) -> (out: RefusalReply)
    ensures
        r is InvalidToken ==> out.status == 401 && out.www_authenticate@
            == "Bearer realm=\"userinfo\", error=\"invalid_token\""@ && out.error@ == "invalid_token"@,
        r is InsufficientScope ==> out.status == 403 && out.www_authenticate@
            == "Bearer error=\"insufficient_scope\", scope=\"openid\""@ && out.error@ == "insufficient_scope"@,
{
    match r {
        UserinfoRefusal::InvalidToken => RefusalReply {
            status: 401,
            www_authenticate: "Bearer realm=\"userinfo\", error=\"invalid_token\"",
            error: "invalid_token",
        },
        UserinfoRefusal::InsufficientScope => RefusalReply {
            status: 403,
            www_authenticate: "Bearer error=\"insufficient_scope\", scope=\"openid\"",
            error: "insufficient_scope",
        },
    }
}

/// The endpoints of the discovery document; every other member is a
/// constant of this server (see `discovery_constants`).
pub struct DiscoveryEndpoints {
    pub issuer: String,
    pub authorization_endpoint: String,
    pub token_endpoint: String,
    pub userinfo_endpoint: String,
    pub revocation_endpoint: String,
    pub introspection_endpoint: String,
    pub end_session_endpoint: String,
    pub device_authorization_endpoint: String,
    pub jwks_uri: String,
}

pub fn discovery_endpoints(issuer: &str) -> (r: DiscoveryEndpoints)
    ensures
        r.issuer@ == issuer@,
        r.authorization_endpoint@ == issuer@ + "/oauth/authorize"@,
        r.token_endpoint@ == issuer@ + "/oauth/token"@,
        r.userinfo_endpoint@ == issuer@ + "/userinfo"@,
        r.revocation_endpoint@ == issuer@ + "/oauth/revoke"@,
        r.introspection_endpoint@ == issuer@ + "/oauth/introspect"@,
        r.end_session_endpoint@ == issuer@ + "/oauth/logout"@,
        r.device_authorization_endpoint@ == issuer@ + "/oauth/device-authorization"@,
        r.jwks_uri@ == issuer@ + "/.well-known/jwks.json"@,
{
    DiscoveryEndpoints {
        issuer: issuer.to_owned(),
        authorization_endpoint: concat(issuer, "/oauth/authorize"),
        token_endpoint: concat(issuer, "/oauth/token"),
        userinfo_endpoint: concat(issuer, "/userinfo"),
        revocation_endpoint: concat(issuer, "/oauth/revoke"),
        introspection_endpoint: concat(issuer, "/oauth/introspect"),
        end_session_endpoint: concat(issuer, "/oauth/logout"),
        device_authorization_endpoint: concat(issuer, "/oauth/device-authorization"),
        jwks_uri: concat(issuer, "/.well-known/jwks.json"),
    }
}

} // verus!
