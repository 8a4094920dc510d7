//! Password reset and change decisions. Reset tokens are only issued
//! for an existing, enabled account, but the endpoint answers the same
//! either way; redeeming one rotates the password and ends every session
//! of the account. Password hashing and checking happen outside.

use vstd::prelude::*;

use super::model::PasswordReset;
use crate::common::crypto::{keyed_hash, HmacSha256};
use crate::common::text::{is_blank, lemma_trim_empty_iff_blank, trim, trim_str};
use crate::common::url::contains_char;
use crate::user::{Credential, User};

verus! {

/// Reset tokens live this many minutes.
pub const RESET_TOKEN_TTL_MINUTES: i64 = 30;

/// Random bytes in a reset token.
pub const RESET_TOKEN_BYTES: usize = 32;

/// The shortest password accepted, in UTF-8 bytes.
pub const MIN_PASSWORD_LEN: usize = 8;

/// Microseconds in a minute.
pub const MICROS_PER_MINUTE: i64 = 60_000_000;

/// Why a reset is refused.
pub enum ResetError {
    InvalidToken,
    WeakPassword,
}

/// Why a change is refused.
pub enum ChangeError {
    WrongPassword,
    WeakPassword,
}

/// A password shorter than `MIN_PASSWORD_LEN` bytes.
pub open spec fn weak_password(p: Seq<char>) -> bool {
    vstd::utf8::encode_utf8(p).len() < MIN_PASSWORD_LEN
}

pub fn is_weak_password(p: &str) -> (r: bool)
    ensures
        r == weak_password(p@),
{
    p.as_bytes().len() < MIN_PASSWORD_LEN
}

/// How the account behind a reset request is looked up.
pub enum AccountLookup {
    /// A blank identifier: no account, no token.
    Nothing,
    /// An identifier with `@`: by email.
    ByEmail(String),
    /// Any other identifier: by username, then by email.
    ByUsernameThenEmail(String),
}

pub fn reset_lookup(identifier: &str) -> (r: AccountLookup)
    ensures
        is_blank(identifier@) ==> r is Nothing,
        !is_blank(identifier@) && trim(identifier@).contains('@') ==> (r matches AccountLookup::ByEmail(s) && s@
            == trim(identifier@)),
        !is_blank(identifier@) && !trim(identifier@).contains('@') ==> (r matches AccountLookup::ByUsernameThenEmail(
            s,
        ) && s@ == trim(identifier@)),
{
    let t = trim_str(identifier);
    proof { lemma_trim_empty_iff_blank(identifier@); }
    if t.unicode_len() == 0 {
        AccountLookup::Nothing
    } else if contains_char(t.as_str(), '@') {
        AccountLookup::ByEmail(t)
    } else {
        AccountLookup::ByUsernameThenEmail(t)
    }
}

/// The account a reset token is issued for: the one found, if enabled.
pub fn reset_account(user: Option<&User>) -> (r: Option<u128>)
    ensures
        r == (match user {
            Some(u) => if u.enabled {
                Some(u.id)
            } else {
                None
            },
            None => None,
        }),
{
    match user {
        Some(u) => if u.enabled {
            Some(u.id)
        } else {
            None
        },
        None => None,
    }
}

/// The hash a reset token is kept and looked up by: its keyed hash.
pub fn reset_token_hash(hmac: &HmacSha256, raw: &str) -> (r: String)
    ensures
        r@ == keyed_hash(hmac.key(), raw@),
{
    hmac.compute(raw)
}

/// The record of a fresh reset token, valid `RESET_TOKEN_TTL_MINUTES`
/// from `now`, holding the keyed hash of the raw token.
pub fn new_password_reset(id: u128, user_id: u128, raw: &str, hmac: &HmacSha256, now: i64) -> (r: PasswordReset)
    requires
        now + RESET_TOKEN_TTL_MINUTES * MICROS_PER_MINUTE <= i64::MAX,
    ensures
        r.id == id,
        r.user_id == user_id,
        r.token_hash@ == keyed_hash(hmac.key(), raw@),
        r.expires_at == now + RESET_TOKEN_TTL_MINUTES * MICROS_PER_MINUTE,
        r.consumed_at is None,
        r.created_at == now,
{
    PasswordReset {
        id,
        user_id,
        token_hash: reset_token_hash(hmac, raw),
        expires_at: now + RESET_TOKEN_TTL_MINUTES * MICROS_PER_MINUTE,
        consumed_at: None,
        created_at: now,
    }
}

/// The refusal, if any, of a reset before the token is looked up: a weak
/// new password, then a blank token.
pub fn reset_precheck(token_raw: &str, new_password: &str) -> (r: Option<ResetError>)
    ensures
        weak_password(new_password@) ==> r == Some(ResetError::WeakPassword),
        !weak_password(new_password@) && is_blank(token_raw@) ==> r == Some(ResetError::InvalidToken),
        !weak_password(new_password@) && !is_blank(token_raw@) ==> r is None,
{
    if is_weak_password(new_password) {
        return Some(ResetError::WeakPassword);
    }
    let t = trim_str(token_raw);
    proof { lemma_trim_empty_iff_blank(token_raw@); }
    if t.unicode_len() == 0 {
        return Some(ResetError::InvalidToken);
    }
    None
}

/// A reset record found under the token's hash can be redeemed: it was
/// not redeemed before and has not expired.
pub open spec fn redeemable(r: PasswordReset, now: int) -> bool {
    r.consumed_at is None && r.expires_at >= now
}

/// The account whose password is rotated and the record to mark
/// redeemed, or `InvalidToken`.
pub fn redeem_reset(reset: Option<&PasswordReset>, now: i64) -> (r: Result<(u128, u128), ResetError>)
    ensures
        match reset {
            Some(x) => if redeemable(*x, now as int) {
                r == Ok::<(u128, u128), ResetError>((x.user_id, x.id))
            } else {
                r == Err::<(u128, u128), ResetError>(ResetError::InvalidToken)
            },
            None => r == Err::<(u128, u128), ResetError>(ResetError::InvalidToken),
        },
{
    match reset {
        Some(x) => if x.consumed_at.is_none() && x.expires_at >= now {
            Ok((x.user_id, x.id))
        } else {
            Err(ResetError::InvalidToken)
        },
        None => Err(ResetError::InvalidToken),
    }
}

/// The checks of a password change, in order: the new password is not
/// weak, the account exists, it has a password credential, and the old
/// password checks out against it (`old_password_matches`).
pub fn change_check(
    new_password: &str,
    user_found: bool,
    credential: Option<&Credential>,
    old_password_matches: bool,
) -> (r: Result<(), ChangeError>)
    ensures
        weak_password(new_password@) ==> r == Err::<(), ChangeError>(ChangeError::WeakPassword),
        !weak_password(new_password@) && (!user_found || credential is None || !old_password_matches) ==> r
            == Err::<(), ChangeError>(ChangeError::WrongPassword),
        !weak_password(new_password@) && user_found && credential is Some && old_password_matches ==> r is Ok,
{
    if is_weak_password(new_password) {
        return Err(ChangeError::WeakPassword);
    }
    if !user_found || credential.is_none() || !old_password_matches {
        return Err(ChangeError::WrongPassword);
    }
    Ok(())
}

/// The sessions of `ids` other than `keep`, in order.
pub open spec fn other_sessions(ids: Seq<u128>, keep: u128) -> Seq<u128>
    decreases ids.len(),
{
    if ids.len() == 0 {
        Seq::empty()
    } else {
        let rest = other_sessions(ids.drop_last(), keep);
        if ids.last() == keep {
            rest
        } else {
            rest.push(ids.last())
        }
    }
}

/// After a successful self-service password change, every other session
/// of the user is ended: of the user's sessions `session_ids`, all but the
/// one the change was made from (`current`).
pub fn sessions_to_end_after_change(session_ids: &Vec<u128>, current: u128) -> (r: Vec<u128>)
    ensures
        r@ == other_sessions(session_ids@, current),
{
    let mut out: Vec<u128> = Vec::new();
    let mut i: usize = 0;
    while i < session_ids.len()
        invariant
            i <= session_ids@.len(),
            out@ == other_sessions(session_ids@.take(i as int), current),
        decreases session_ids@.len() - i,
    {
        assert(session_ids@.take(i + 1).drop_last() =~= session_ids@.take(i as int));
        let s = session_ids[i];
        if s != current {
            out.push(s);
        }
        i = i + 1;
    }
    assert(session_ids@.take(session_ids@.len() as int) =~= session_ids@);
    out
}

/// A password change ends exactly the user's other sessions: a session is
/// ended if and only if it is one of the user's and not the current one.
pub proof fn law_password_change_ends_every_other_session(ids: Seq<u128>, current: u128, s: u128)
    ensures
        other_sessions(ids, current).contains(s) <==> (ids.contains(s) && s != current),
    decreases ids.len(),
{
    if ids.len() > 0 {
        law_password_change_ends_every_other_session(ids.drop_last(), current, s);
        let rest = other_sessions(ids.drop_last(), current);
        assert(ids =~= ids.drop_last().push(ids.last()));
        if ids.contains(s) && s != current {
            let k = choose|k: int| 0 <= k < ids.len() && ids[k] == s;
            if k < ids.len() - 1 {
                assert(ids.drop_last()[k] == s);
            }
        }
        if ids.last() != current {
            assert(rest.push(ids.last())[rest.len() as int] == ids.last());
            if rest.push(ids.last()).contains(s) {
                let j = choose|j: int| 0 <= j < rest.len() + 1 && rest.push(ids.last())[j] == s;
                if j < rest.len() {
                    assert(rest[j] == s);
                }
            }
        }
        if ids.drop_last().contains(s) {
            let j = choose|j: int| 0 <= j < ids.len() - 1 && ids.drop_last()[j] == s;
            assert(ids[j] == s);
        }
        if rest.contains(s) {
            let j = choose|j: int| 0 <= j < rest.len() && rest[j] == s;
            if ids.last() != current {
                assert(rest.push(ids.last())[j] == s);
            }
        }
    }
}

/// The stored hash parts of a credential, absent ones read as empty.
pub fn credential_secret_parts(c: &Credential) -> (r: (String, String))
    ensures
        r.0@ == crate::common::text::string_or_empty(c.secret_data),
        r.1@ == crate::common::text::string_or_empty(c.credential_data),
{
    let s = match &c.secret_data {
        Some(x) => x.clone(),
        None => String::new(),
    };
    let d = match &c.credential_data {
        Some(x) => x.clone(),
        None => String::new(),
    };
    (s, d)
}

/// The password credential after a rotation: the existing one with the
/// new hash parts and update time, or a new one. The flag says whether it
/// is new (to insert rather than update).
pub fn rotated_credential(
    existing: Option<Credential>,
    new_id: u128,
    user_id: u128,
    secret_data: String,
    credential_data: String,
    now: i64,
) -> (r: (Credential, bool))
    ensures
        r.0.secret_data == Some(secret_data),
        r.0.credential_data == Some(credential_data),
        r.0.updated_at == now,
        match existing {
            Some(c) => !r.1 && r.0.id == c.id && r.0.credential_type == c.credential_type && r.0.created_at
                == c.created_at && r.0.user_id == c.user_id,
            None => r.1 && r.0.id == new_id && r.0.credential_type@ == "password"@ && r.0.created_at == now
                && r.0.user_id == user_id,
        },
{
    match existing {
        Some(c) => (
            Credential {
                secret_data: Some(secret_data),
                credential_data: Some(credential_data),
                updated_at: now,
                ..c
            },
            false,
        ),
        None => (
            Credential {
                id: new_id,
                credential_type: "password".to_owned(),
                secret_data: Some(secret_data),
                credential_data: Some(credential_data),
                created_at: now,
                updated_at: now,
                user_id,
            },
            true,
        ),
    }
}

/// A reset token is redeemed only while live: a redemption succeeds only
/// for a recorded reset that was never used and has not expired, for the
/// account it was issued to.
pub proof fn law_reset_redeems_only_live_tokens(reset: Option<PasswordReset>, now: int, r: Result<(u128, u128), ResetError>)
    requires
        match reset {
            Some(x) => if redeemable(x, now) {
                r == Ok::<(u128, u128), ResetError>((x.user_id, x.id))
            } else {
                r == Err::<(u128, u128), ResetError>(ResetError::InvalidToken)
            },
            None => r == Err::<(u128, u128), ResetError>(ResetError::InvalidToken),
        },
    ensures
        r matches Ok(ids) ==> (reset matches Some(x) && x.consumed_at is None && now <= x.expires_at && ids.0
            == x.user_id && ids.1 == x.id),
{
}

} // verus!
