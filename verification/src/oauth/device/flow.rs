//! The device authorization grant's decisions: who may start one, the
//! record a new one starts as, the user code shown to the user, the
//! response body, and what the user's approval or denial does to it.
//! Storage happens between the steps.

use vstd::prelude::*;

use super::model::DeviceAuthorization;
use super::result::{is_device_error, is_verify_error, DeviceAuthorizationResult, DevicePayload, DeviceVerifyResult};
use crate::client::Client;
use crate::common::crypto::random_below;
use crate::common::text::{chars_of, concat, is_blank, lemma_trim_empty_iff_blank, opt_str, push_char, str_eq, str_or_empty, string_or_empty, to_owned_opt, trim_str};
use crate::common::time::{plus_seconds, MICROS_PER_SECOND};
use crate::oauth::scopes::{is_subset_of, scope_subset};
use crate::session::model::SessionWithUser;

verus! {

/// A device code is valid this many seconds.
pub const DEVICE_CODE_TTL_SECONDS: i64 = 300;

/// The device polls at most this often (seconds).
pub const POLL_INTERVAL_SECONDS: i64 = 5;

/// How many fresh user codes are tried before giving up on a collision.
pub const PERSIST_RETRIES: usize = 5;

/// The letters of a user code: no vowels and no easily confused
/// characters.
pub open spec fn user_code_alphabet() -> Seq<char> {
    "BCDFGHJKLMNPQRSTVWXZ23456789"@
}

/// A user code: two groups of four alphabet letters joined by `-`.
pub open spec fn is_user_code(s: Seq<char>) -> bool {
    &&& s.len() == 9
    &&& s[4] == '-'
    &&& forall|i: int| 0 <= i < 9 && i != 4 ==> user_code_alphabet().contains(#[trigger] s[i])
}

/// The user code spelled by eight alphabet positions: four letters, `-`,
/// four letters.
pub open spec fn user_code_of(idx: Seq<usize>) -> Seq<char> {
    Seq::new(
        9,
        |i: int|
            if i == 4 {
                '-'
            } else {
                user_code_alphabet()[idx[if i < 4 { i } else { i - 1 }] as int]
            },
    )
}

/// Eight positions in the alphabet.
pub open spec fn valid_code_indices(idx: Seq<usize>) -> bool {
    idx.len() == 8 && forall|k: int| 0 <= k < 8 ==> #[trigger] idx[k] < 28
}

/// Spells the user code of eight alphabet positions.
pub fn user_code_from_indices(idx: &Vec<usize>) -> (r: String)
    requires
        valid_code_indices(idx@),
    ensures
        r@ == user_code_of(idx@),
        is_user_code(r@),
{
    let alphabet = chars_of("BCDFGHJKLMNPQRSTVWXZ23456789");
    proof { reveal_strlit("BCDFGHJKLMNPQRSTVWXZ23456789"); }
    assert(alphabet@.len() == 28);
    let mut s = String::new();
    let mut i: usize = 0;
    while i < 8
        invariant
            i <= 8,
            valid_code_indices(idx@),
            alphabet@ == user_code_alphabet(),
            alphabet@.len() == 28,
            s@.len() == if i <= 4 { i as int } else { i + 1 },
            forall|k: int| 0 <= k < s@.len() ==> #[trigger] s@[k] == user_code_of(idx@)[k],
        decreases 8 - i,
    {
        if i == 4 {
            push_char(&mut s, '-');
        }
        let c = alphabet[idx[i]];
        assert(idx@[i as int] < 28);
        push_char(&mut s, c);
        i = i + 1;
    }
    assert(s@ =~= user_code_of(idx@));
    assert forall|k: int| 0 <= k < 9 && k != 4 implies user_code_alphabet().contains(#[trigger] s@[k]) by {
        let j: int = if k < 4 { k } else { k - 1 };
        assert(idx@[j] < 28);
        assert(user_code_alphabet()[idx@[j] as int] == s@[k]);
    }
    s
}

/// A fresh random user code: eight positions drawn uniformly from the
/// alphabet, spelled out.
pub fn generate_user_code() -> (r: String)
    ensures
        exists|idx: Seq<usize>| valid_code_indices(idx) && r@ == user_code_of(idx),
        is_user_code(r@),
{
    let mut idx: Vec<usize> = Vec::new();
    while idx.len() < 8
        invariant
            idx@.len() <= 8,
            forall|k: int| 0 <= k < idx@.len() ==> #[trigger] idx@[k] < 28,
        decreases 8 - idx@.len(),
    {
        let n = random_below(28);
        idx.push(n);
    }
    let r = user_code_from_indices(&idx);
    assert(valid_code_indices(idx@) && r@ == user_code_of(idx@));
    r
}

/// The refusal, if any, of a device authorization request before the
/// client is looked up: a blank `client_id`.
pub fn device_request_precheck(client_id: &str) -> (r: Option<DeviceAuthorizationResult>)
    ensures
        is_blank(client_id@) ==> (r matches Some(e) && is_device_error(e, "invalid_request"@, "client_id is required"@)),
        !is_blank(client_id@) ==> r is None,
{
    let t = trim_str(client_id);
    proof { lemma_trim_empty_iff_blank(client_id@); }
    if t.unicode_len() == 0 {
        Some(DeviceAuthorizationResult::error("invalid_request", "client_id is required"))
    } else {
        None
    }
}

/// The refusal, if any, of the client found under the request's
/// `client_id`: unknown or disabled, or asking for scopes beyond its
/// registration.
pub fn device_client_check(client: Option<&Client>, scope: Option<&str>) -> (r: Option<DeviceAuthorizationResult>)
    ensures
        !(client matches Some(c) && c.enabled) ==> (r matches Some(e) && is_device_error(
            e,
            "unauthorized_client"@,
            "Unknown or disabled client"@,
        )),
        (client matches Some(c) && c.enabled) ==> if scope_subset(str_or_empty(scope), string_or_empty(client->0.scopes)) {
            r is None
        } else {
            r matches Some(e) && is_device_error(e, "invalid_scope"@, "Requested scope is not allowed for this client"@)
        },
{
    let c = match client {
        Some(c) => c,
        None => return Some(DeviceAuthorizationResult::error("unauthorized_client", "Unknown or disabled client")),
    };
    if !c.enabled {
        return Some(DeviceAuthorizationResult::error("unauthorized_client", "Unknown or disabled client"));
    }
    let allowed = match &c.scopes {
        Some(s) => Some(s.as_str()),
        None => None,
    };
    if !is_subset_of(scope, allowed) {
        return Some(DeviceAuthorizationResult::error("invalid_scope", "Requested scope is not allowed for this client"));
    }
    None
}

/// A new pending device authorization for `client`, without a user code
/// yet, valid `DEVICE_CODE_TTL_SECONDS` from `now`.
pub fn new_device_authorization(id: u128, device_code: String, client: &Client, scope: Option<&str>, now: i64) -> (r: DeviceAuthorization)
    requires
        now + DEVICE_CODE_TTL_SECONDS * MICROS_PER_SECOND <= i64::MAX,
    ensures
        r.id == id,
        r.device_code == device_code,
        r.user_code@ == Seq::<char>::empty(),
        r.client_id@ == client.client_id@,
        crate::common::text::opt_string(r.scope) == opt_str(scope),
        r.status@ == "pending"@,
        r.user_id is None,
        r.session_id is None,
        r.expires_at == now + DEVICE_CODE_TTL_SECONDS * MICROS_PER_SECOND,
        r.created_at == Some(now),
{
    DeviceAuthorization {
        id,
        device_code,
        user_code: String::new(),
        client_id: client.client_id.clone(),
        scope: to_owned_opt(scope),
        status: "pending".to_owned(),
        user_id: None,
        session_id: None,
        expires_at: plus_seconds(now, DEVICE_CODE_TTL_SECONDS),
        created_at: Some(now),
    }
}

/// What to do after an attempt to store the authorization under a fresh
/// user code.
pub enum PersistStep {
    /// Stored: answer the device.
    Done,
    /// The user code collided: try another.
    Retry,
    /// Every attempt collided: answer `server_error`.
    GiveUp,
}

/// After `attempts` attempts, the last of which `stored` or not.
pub fn after_persist_attempt(attempts: usize, stored: bool) -> (r: PersistStep)
    requires
        1 <= attempts <= PERSIST_RETRIES,
    ensures
        stored ==> r is Done,
        !stored && attempts < PERSIST_RETRIES ==> r is Retry,
        !stored && attempts == PERSIST_RETRIES ==> r is GiveUp,
{
    if stored {
        PersistStep::Done
    } else if attempts < PERSIST_RETRIES {
        PersistStep::Retry
    } else {
        PersistStep::GiveUp
    }
}

/// The answer when no unique user code could be stored.
pub fn persist_exhausted() -> (r: DeviceAuthorizationResult)
    ensures
        is_device_error(r, "server_error"@, "Could not allocate a unique user_code after retries"@),
{
    DeviceAuthorizationResult::error("server_error", "Could not allocate a unique user_code after retries")
}

/// The response body for a stored authorization; the user goes to
/// `{issuer}/oauth/device`, or straight to the form with the code filled
/// in.
pub fn device_payload(auth: &DeviceAuthorization, issuer_url: &str) -> (r: DevicePayload)
    ensures
        r.device_code == auth.device_code,
        r.user_code == auth.user_code,
        r.verification_uri@ == issuer_url@ + "/oauth/device"@,
        r.verification_uri_complete@ == issuer_url@ + "/oauth/device?user_code="@ + auth.user_code@,
        r.expires_in == DEVICE_CODE_TTL_SECONDS,
        r.interval == POLL_INTERVAL_SECONDS,
{
    let uri = concat(issuer_url, "/oauth/device");
    let with_query = concat(issuer_url, "/oauth/device?user_code=");
    let complete = concat(with_query.as_str(), auth.user_code.as_str());
    DevicePayload {
        device_code: auth.device_code.clone(),
        user_code: auth.user_code.clone(),
        verification_uri: uri,
        verification_uri_complete: complete,
        expires_in: DEVICE_CODE_TTL_SECONDS,
        interval: POLL_INTERVAL_SECONDS,
    }
}

/// The refusal, if any, of a verification before the code is looked up:
/// a blank user code, or no active session behind the request.
pub fn verify_precheck(user_code: &str, session: Option<&SessionWithUser>) -> (r: Option<DeviceVerifyResult>)
    ensures
        is_blank(user_code@) ==> (r matches Some(e) && is_verify_error(e, "invalid_request"@, "user_code is required"@)),
        !is_blank(user_code@) && session is None ==> (r matches Some(e) && is_verify_error(
            e,
            "invalid_session"@,
            "Login required"@,
        )),
        !is_blank(user_code@) && session is Some ==> r is None,
{
    let t = trim_str(user_code);
    proof { lemma_trim_empty_iff_blank(user_code@); }
    if t.unicode_len() == 0 {
        return Some(DeviceVerifyResult::error("invalid_request", "user_code is required"));
    }
    if session.is_none() {
        return Some(DeviceVerifyResult::error("invalid_session", "Login required"));
    }
    None
}

/// `b` is `a` with only its status and user binding changed.
pub open spec fn resolved_as(a: DeviceAuthorization, b: DeviceAuthorization, status: Seq<char>, user_id: Option<u128>, session_id: Option<u128>) -> bool {
    &&& b.status@ == status
    &&& b.user_id == user_id
    &&& b.session_id == session_id
    &&& b.id == a.id
    &&& b.device_code == a.device_code
    &&& b.user_code == a.user_code
    &&& b.client_id == a.client_id
    &&& b.scope == a.scope
    &&& b.expires_at == a.expires_at
    &&& b.created_at == a.created_at
}

/// What the user's answer does to the authorization found under the
/// code: unknown, expired and already resolved codes are refused; else it
/// is approved for the session's user and session, or denied.
pub open spec fn verify_outcome(
    auth: Option<DeviceAuthorization>,
    now: int,
    session: SessionWithUser,
    approve: bool,
    r: Result<DeviceAuthorization, DeviceVerifyResult>,
) -> bool {
    match auth {
        None => r matches Err(e) && is_verify_error(e, "invalid_user_code"@, "Unknown user_code"@),
        Some(a) => if a.expires_at < now {
            r matches Err(e) && is_verify_error(e, "expired_token"@, "user_code expired"@)
        } else if a.status@ != "pending"@ {
            r matches Err(e) && is_verify_error(e, "invalid_user_code"@, "Already resolved"@)
        } else if approve {
            r matches Ok(b) && resolved_as(a, b, "approved"@, Some(session.session.user_id), Some(session.session.id))
        } else {
            r matches Ok(b) && resolved_as(a, b, "denied"@, a.user_id, a.session_id)
        },
    }
}

pub fn resolve_user_code(
    auth: Option<DeviceAuthorization>,
    now: i64,
    session: &SessionWithUser,
    approve: bool,
) -> (r: Result<DeviceAuthorization, DeviceVerifyResult>)
    ensures
        verify_outcome(auth, now as int, *session, approve, r),
{
    let a = match auth {
        None => return Err(DeviceVerifyResult::error("invalid_user_code", "Unknown user_code")),
        Some(a) => a,
    };
    if a.expires_at < now {
        return Err(DeviceVerifyResult::error("expired_token", "user_code expired"));
    }
    if !str_eq(a.status.as_str(), "pending") {
        return Err(DeviceVerifyResult::error("invalid_user_code", "Already resolved"));
    }
    if approve {
        Ok(DeviceAuthorization {
            status: "approved".to_owned(),
            user_id: Some(session.session.user_id),
            session_id: Some(session.session.id),
            ..a
        })
    } else {
        Ok(DeviceAuthorization { status: "denied".to_owned(), ..a })
    }
}

} // verus!
