//! The password endpoints' request reading and replies.

use vstd::prelude::*;

use super::flow::{ChangeError, ResetError};
use crate::common::fields::{field_lookup, field_value};
use crate::common::text::{is_blank, lemma_trim_empty_iff_blank, opt_string, trim_str};
use crate::common::url::pairs_view;

verus! {

/// The first of `keys` whose field holds a non-blank value, and that
/// value. Front ends over time sent the same value under several names.
pub open spec fn first_non_blank_spec(body: Seq<(Seq<char>, Seq<char>)>, keys: Seq<Seq<char>>) -> Option<Seq<char>>
    decreases keys.len(),
{
    if keys.len() == 0 {
        None
    } else {
        match field_lookup(body, keys[0]) {
            Some(v) => if !is_blank(v) {
                Some(v)
            } else {
                first_non_blank_spec(body, keys.drop_first())
            },
            None => first_non_blank_spec(body, keys.drop_first()),
        }
    }
}

pub open spec fn strs_view(keys: Seq<&str>) -> Seq<Seq<char>> {
    keys.map_values(|k: &str| k@)
}

pub fn first_non_blank(body: &Vec<(String, String)>, keys: &[&str]) -> (r: Option<String>)
    ensures
        opt_string(r) == first_non_blank_spec(pairs_view(body@), strs_view(keys@)),
{
    let ghost m = pairs_view(body@);
    let mut i: usize = 0;
    assert(strs_view(keys@).skip(0) =~= strs_view(keys@));
    while i < keys.len()
        invariant
            i <= keys@.len(),
            m == pairs_view(body@),
            first_non_blank_spec(m, strs_view(keys@)) == first_non_blank_spec(m, strs_view(keys@).skip(i as int)),
        decreases keys@.len() - i,
    {
        let ghost rest = strs_view(keys@).skip(i as int);
        assert(rest[0] == keys@[i as int]@);
        assert(rest.drop_first() =~= strs_view(keys@).skip(i + 1));
        if let Some(v) = field_value(body, keys[i]) {
            let t = trim_str(v.as_str());
            proof { lemma_trim_empty_iff_blank(v@); }
            if t.unicode_len() > 0 {
                return Some(v);
            }
        }
        i = i + 1;
    }
    None
}

/// A reply of the password endpoints: the status and a one-member JSON
/// body, `{"message": ...}` or `{"error": ...}`.
pub enum PasswordReply {
    Message(u16, &'static str),
    Error(u16, &'static str),
}

/// The reply to a reset.
pub fn reset_reply(outcome: &Result<(), ResetError>) -> (r: PasswordReply)
    ensures
        outcome is Ok ==> r == PasswordReply::Message(200, "password updated"),
        outcome matches Err(ResetError::InvalidToken) ==> r == PasswordReply::Error(400, "invalid_token"),
        outcome matches Err(ResetError::WeakPassword) ==> r == PasswordReply::Error(400, "weak_password"),
{
    match outcome {
        Ok(()) => PasswordReply::Message(200, "password updated"),
        Err(ResetError::InvalidToken) => PasswordReply::Error(400, "invalid_token"),
        Err(ResetError::WeakPassword) => PasswordReply::Error(400, "weak_password"),
    }
}

/// The reply to a change.
pub fn change_reply(outcome: &Result<(), ChangeError>) -> (r: PasswordReply)
    ensures
        outcome is Ok ==> r == PasswordReply::Message(200, "password changed"),
        outcome matches Err(ChangeError::WrongPassword) ==> r == PasswordReply::Error(400, "wrong_password"),
        outcome matches Err(ChangeError::WeakPassword) ==> r == PasswordReply::Error(400, "weak_password"),
{
    match outcome {
        Ok(()) => PasswordReply::Message(200, "password changed"),
        Err(ChangeError::WrongPassword) => PasswordReply::Error(400, "wrong_password"),
        Err(ChangeError::WeakPassword) => PasswordReply::Error(400, "weak_password"),
    }
}

/// The reply to a reset request, the same whether or not an account was
/// found; the token is included only where one was issued.
pub struct ForgotPasswordReply {
    pub message: &'static str,
    pub reset_token: Option<String>,
}

pub fn forgot_password_reply(token: Option<String>) -> (r: ForgotPasswordReply)
    ensures
        r.message@ == "if the account exists, a reset token has been issued"@,
        r.reset_token == token,
{
    ForgotPasswordReply { message: "if the account exists, a reset token has been issued", reset_token: token }
}

} // verus!
