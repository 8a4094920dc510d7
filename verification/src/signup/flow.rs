//! Signup and email verification decisions. A signup is validated and
//! its email normalised; the account, its password credential and an
//! email-verification token are then written in one transaction, whose
//! outcome maps to a `SignupError` here. The password is hashed outside.

use vstd::prelude::*;

use super::dto::{SignupError, SignupRequest, SignupSuccess, VerifyEmailError};
use super::model::EmailVerification;
use crate::common::crypto::{keyed_hash, HmacSha256};
use crate::common::ids::{uuid_hyphenated, uuid_text};
use crate::common::storage::{database_error_code, sqlx_error_code, unique_violation_code};
use crate::common::text::{
    as_opt_str, clone_opt, is_blank, lemma_trim_empty_iff_blank, lowercase_of, opt_str, or_empty, str_eq,
    string_or_empty, to_lowercase, trim, trim_str,
};
use crate::user::{Credential, User};

verus! {

/// Email verification tokens live this many hours.
pub const VERIFICATION_TOKEN_TTL_HOURS: i64 = 24;

/// Random bytes in an email verification token.
pub const VERIFICATION_TOKEN_BYTES: usize = 32;

/// The shortest password accepted, in UTF-8 bytes.
pub const MIN_PASSWORD_LEN: usize = 8;

/// Microseconds in an hour.
pub const MICROS_PER_HOUR: i64 = 3_600_000_000;

/// A validated signup: the normalised email and username (trimmed and
/// lower-cased, so that `Alice` and `alice` are one account) and the
/// password as given.
pub struct ValidSignup {
    pub email: String,
    pub password: String,
    pub username: String,
}

/// The signup checks, in order: email, password and username present and
/// not blank, and the password at least `MIN_PASSWORD_LEN` bytes long.
/// The email and the username are kept trimmed and lower-cased.
pub open spec fn signup_validation(req: SignupRequest, r: Result<ValidSignup, SignupError>) -> bool {
    let email = string_or_empty(req.email);
    let password = string_or_empty(req.password);
    let username = string_or_empty(req.username);
    if is_blank(email) || is_blank(password) || is_blank(username) {
        r == Err::<ValidSignup, SignupError>(SignupError::InvalidRequest("email, password, username are required"))
    } else if vstd::utf8::encode_utf8(password).len() < MIN_PASSWORD_LEN {
        r == Err::<ValidSignup, SignupError>(SignupError::InvalidRequest("password must be at least 8 characters"))
    } else {
        r matches Ok(v) && v.email@ == lowercase_of(trim(email)) && v.password@ == password && v.username@
            == lowercase_of(trim(username))
    }
}

pub fn validate_signup(req: &SignupRequest) -> (r: Result<ValidSignup, SignupError>)
    ensures
        signup_validation(*req, r),
{
    let email = or_empty(as_opt_str(&req.email));
    let password = or_empty(as_opt_str(&req.password));
    let username = or_empty(as_opt_str(&req.username));
    let te = trim_str(email);
    let tp = trim_str(password);
    let tu = trim_str(username);
    proof {
        lemma_trim_empty_iff_blank(email@);
        lemma_trim_empty_iff_blank(password@);
        lemma_trim_empty_iff_blank(username@);
    }
    if te.unicode_len() == 0 || tp.unicode_len() == 0 || tu.unicode_len() == 0 {
        return Err(SignupError::InvalidRequest("email, password, username are required"));
    }
    if password.as_bytes().len() < MIN_PASSWORD_LEN {
        return Err(SignupError::InvalidRequest("password must be at least 8 characters"));
    }
    let normalized = to_lowercase(te.as_str());
    let normalized_username = to_lowercase(tu.as_str());
    Ok(ValidSignup { email: normalized, password: password.to_owned(), username: normalized_username })
}

/// The refusal, if any, of the uniqueness checks made before the insert:
/// a taken email is reported before a taken username.
pub fn uniqueness_conflict(email_taken: bool, username_taken: bool) -> (r: Option<SignupError>)
    ensures
        email_taken ==> r == Some(SignupError::Conflict("email already registered")),
        !email_taken && username_taken ==> r == Some(SignupError::Conflict("username already taken")),
        !email_taken && !username_taken ==> r is None,
{
    if email_taken {
        Some(SignupError::Conflict("email already registered"))
    } else if username_taken {
        Some(SignupError::Conflict("username already taken"))
    } else {
        None
    }
}

/// The error a failed write of the signup transaction maps to: a unique
/// violation (a racing signup took the email or username) is a conflict,
/// anything else an internal failure.
pub open spec fn write_failure(code: Option<Seq<char>>) -> SignupError {
    if code == Some(unique_violation_code()) {
        SignupError::Conflict("email or username already registered")
    } else {
        SignupError::InvalidRequest("internal")
    }
}

pub fn signup_error_for_code(code: Option<&str>) -> (r: SignupError)
    ensures
        r == write_failure(opt_str(code)),
{
    proof { reveal_strlit("23505"); }
    match code {
        Some(c) => if str_eq(c, "23505") {
            SignupError::Conflict("email or username already registered")
        } else {
            SignupError::InvalidRequest("internal")
        },
        None => SignupError::InvalidRequest("internal"),
    }
}

/// Maps a failed insert of the account to a `SignupError` by its
/// SQLSTATE.
pub fn map_unique_or_internal(e: &sqlx::Error) -> (r: SignupError)
    ensures
        r == write_failure(sqlx_error_code(*e)),
{
    let code = database_error_code(e);
    signup_error_for_code(as_opt_str(&code))
}

/// The account a valid signup creates: enabled, email not yet verified.
pub fn new_user(id: u128, valid: &ValidSignup, req: &SignupRequest, now: i64) -> (r: User)
    ensures
        r.id == id,
        r.email@ == valid.email@,
        !r.email_verified,
        r.username@ == valid.username@,
        r.first_name == req.first_name,
        r.last_name == req.last_name,
        r.enabled,
        r.created_at == now,
        r.updated_at == now,
{
    User {
        id,
        email: valid.email.clone(),
        email_verified: false,
        username: valid.username.clone(),
        first_name: clone_opt(&req.first_name),
        last_name: clone_opt(&req.last_name),
        enabled: true,
        created_at: now,
        updated_at: now,
    }
}

/// The password credential of a new account; `secret_data` and
/// `credential_data` come from the password hasher.
pub fn password_credential(id: u128, user_id: u128, secret_data: String, credential_data: String, now: i64) -> (r: Credential)
    ensures
        r.id == id,
        r.credential_type@ == "password"@,
        r.secret_data == Some(secret_data),
        r.credential_data == Some(credential_data),
        r.created_at == now,
        r.updated_at == now,
        r.user_id == user_id,
{
    Credential {
        id,
        credential_type: "password".to_owned(),
        secret_data: Some(secret_data),
        credential_data: Some(credential_data),
        created_at: now,
        updated_at: now,
        user_id,
    }
}

/// The hash a verification token is kept and looked up by: its keyed
/// hash.
pub fn verification_token_hash(hmac: &HmacSha256, raw: &str) -> (r: String)
    ensures
        r@ == keyed_hash(hmac.key(), raw@),
{
    hmac.compute(raw)
}

/// The verification record of a fresh token, valid
/// `VERIFICATION_TOKEN_TTL_HOURS` from `now`, holding the keyed hash of
/// the raw token.
pub fn new_email_verification(id: u128, user_id: u128, raw: &str, hmac: &HmacSha256, now: i64) -> (r: EmailVerification)
    requires
        now + VERIFICATION_TOKEN_TTL_HOURS * MICROS_PER_HOUR <= i64::MAX,
    ensures
        r.id == id,
        r.user_id == user_id,
        r.token_hash@ == keyed_hash(hmac.key(), raw@),
        r.expires_at == now + VERIFICATION_TOKEN_TTL_HOURS * MICROS_PER_HOUR,
        r.consumed_at is None,
        r.created_at == now,
{
    EmailVerification {
        id,
        user_id,
        token_hash: verification_token_hash(hmac, raw),
        expires_at: now + VERIFICATION_TOKEN_TTL_HOURS * MICROS_PER_HOUR,
        consumed_at: None,
        created_at: now,
    }
}

/// The body answering a successful signup.
pub fn signup_success(user_id: u128, verification_token: String) -> (r: SignupSuccess)
    ensures
        r.message@ == "signup successful, verify your email"@,
        r.user_id@ == uuid_hyphenated(user_id),
        r.verification_token == verification_token,
{
    SignupSuccess { message: "signup successful, verify your email", user_id: uuid_text(user_id), verification_token }
}

/// The refusal, if any, of a verification before the token is looked up:
/// a blank token.
pub fn verify_email_precheck(token: &str) -> (r: Option<VerifyEmailError>)
    ensures
        is_blank(token@) ==> r == Some(VerifyEmailError::InvalidRequest("token is required")),
        !is_blank(token@) ==> r is None,
{
    let t = trim_str(token);
    proof { lemma_trim_empty_iff_blank(token@); }
    if t.unicode_len() == 0 {
        Some(VerifyEmailError::InvalidRequest("token is required"))
    } else {
        None
    }
}

/// The checks on the record found under the token's hash, in order: it
/// exists, was not redeemed, and is unexpired. On success, the account to
/// mark verified and the record to mark redeemed.
pub open spec fn verification_check(v: Option<EmailVerification>, now: int, r: Result<(u128, u128), VerifyEmailError>) -> bool {
    match v {
        None => r == Err::<(u128, u128), VerifyEmailError>(VerifyEmailError::InvalidToken("verification token not found")),
        Some(x) => if x.consumed_at is Some {
            r == Err::<(u128, u128), VerifyEmailError>(VerifyEmailError::InvalidToken("verification token already used"))
        } else if x.expires_at < now {
            r == Err::<(u128, u128), VerifyEmailError>(VerifyEmailError::InvalidToken("verification token expired"))
        } else {
            r == Ok::<(u128, u128), VerifyEmailError>((x.user_id, x.id))
        },
    }
}

pub fn check_verification(v: Option<&EmailVerification>, now: i64) -> (r: Result<(u128, u128), VerifyEmailError>)
    ensures
        verification_check(
            match v {
                Some(x) => Some(*x),
                None => None,
            },
            now as int,
            r,
        ),
{
    let x = match v {
        None => return Err(VerifyEmailError::InvalidToken("verification token not found")),
        Some(x) => x,
    };
    if x.consumed_at.is_some() {
        return Err(VerifyEmailError::InvalidToken("verification token already used"));
    }
    if x.expires_at < now {
        return Err(VerifyEmailError::InvalidToken("verification token expired"));
    }
    Ok((x.user_id, x.id))
}

/// `c` is the record `v` once redeemed at `t`.
pub open spec fn redeemed_at(v: EmailVerification, c: EmailVerification, t: int) -> bool {
    &&& c.id == v.id
    &&& c.user_id == v.user_id
    &&& c.token_hash == v.token_hash
    &&& c.expires_at == v.expires_at
    &&& c.consumed_at == Some(t as i64)
    &&& c.created_at == v.created_at
}

/// A verification token redeems once. The record a signup stores for a
/// raw token (`new_email_verification` at `issued`) is the one looked up
/// when the same raw token is presented; presented within
/// `VERIFICATION_TOKEN_TTL_HOURS` it verifies the account it was issued
/// for; once redeemed, presenting it again is refused as already used.
pub proof fn law_verification_token_redeems_once(
    v: EmailVerification,
    c: EmailVerification,
    key: Seq<u8>,
    raw: Seq<char>,
    presented: Seq<char>,
    issued: int,
    t: int,
    later: int,
)
    requires
        v.token_hash@ == keyed_hash(key, raw),
        v.expires_at == issued + VERIFICATION_TOKEN_TTL_HOURS * MICROS_PER_HOUR,
        v.consumed_at is None,
        presented == raw,
        t <= issued + VERIFICATION_TOKEN_TTL_HOURS * MICROS_PER_HOUR,
        redeemed_at(v, c, t),
    ensures
        keyed_hash(key, presented) == v.token_hash@,
        verification_check(Some(v), t, Ok::<(u128, u128), VerifyEmailError>((v.user_id, v.id))),
        verification_check(
            Some(c),
            later,
            Err::<(u128, u128), VerifyEmailError>(VerifyEmailError::InvalidToken("verification token already used")),
        ),
{
}

/// Every field of a signup is required: a request with a blank email,
/// password or username is refused as incomplete, and an accepted one has
/// all three non-blank, a password of at least `MIN_PASSWORD_LEN` bytes,
/// and keeps its email and username trimmed (non-empty) and lower-cased.
pub proof fn law_signup_requires_every_field(req: SignupRequest, r: Result<ValidSignup, SignupError>)
    requires
        signup_validation(req, r),
    ensures
        (is_blank(string_or_empty(req.email)) || is_blank(string_or_empty(req.password)) || is_blank(
            string_or_empty(req.username),
        )) ==> r == Err::<ValidSignup, SignupError>(
            SignupError::InvalidRequest("email, password, username are required"),
        ),
        r matches Ok(v) ==> {
            &&& trim(string_or_empty(req.email)).len() > 0
            &&& trim(string_or_empty(req.username)).len() > 0
            &&& !is_blank(string_or_empty(req.password))
            &&& vstd::utf8::encode_utf8(string_or_empty(req.password)).len() >= MIN_PASSWORD_LEN
            &&& v.email@ == lowercase_of(trim(string_or_empty(req.email)))
            &&& v.username@ == lowercase_of(trim(string_or_empty(req.username)))
            &&& v.password@ == string_or_empty(req.password)
        },
{
    lemma_trim_empty_iff_blank(string_or_empty(req.email));
    lemma_trim_empty_iff_blank(string_or_empty(req.username));
}

/// An email verification succeeds only for a recorded token that was never
/// redeemed and has not expired, and it verifies the account the token
/// was issued for.
pub proof fn law_verification_only_for_live_tokens(
    v: Option<EmailVerification>,
    now: int,
    r: Result<(u128, u128), VerifyEmailError>,
)
    requires
        verification_check(v, now, r),
    ensures
        r matches Ok(ids) ==> (v matches Some(x) && x.consumed_at is None && now <= x.expires_at && ids.0
            == x.user_id && ids.1 == x.id),
        (v matches Some(x) && x.consumed_at is Some) ==> r is Err,
        v is None ==> r is Err,
{
}

/// A failed write of the signup is a conflict exactly when the store
/// reports a unique violation (SQLSTATE `23505`); anything else is an
/// internal failure.
pub proof fn law_write_failure_conflict_only_on_unique_violation(code: Option<Seq<char>>)
    ensures
        (write_failure(code) is Conflict) <==> code == Some("23505"@),
        !(write_failure(code) is Conflict) ==> write_failure(code) == SignupError::InvalidRequest("internal"),
{
}

} // verus!
