//! Request objects (OIDC Core §6.1): the authorization parameters sent as
//! a JWS. Only HS256, keyed with the client's secret, is accepted: the
//! object can override `redirect_uri`, `scope` and `code_challenge`, so an
//! unsigned one from a public client would defeat PKCE binding.

use vstd::prelude::*;

use crate::client::Client;
use crate::common::crypto::{base64url, base64url_decode, ct_eq, hmac_sha256, hmac_sha256_of};
use crate::common::text::{
    chars_of, concat, eq_ignore_ascii_case, eq_ignore_ascii_case_spec, is_blank, lemma_trim_empty_iff_blank,
    opt_string, push_char, trim_str,
};

verus! {

#[verifier::external_type_specification]
#[verifier::external_body]
pub struct ExJsonValue(serde_json::Value);

/// Whether `serde_json` reads the bytes as one JSON value.
pub uninterp spec fn is_json(b: Seq<u8>) -> bool;

/// The string member `key` of the JSON object in the bytes, if the top
/// level is an object holding a string there.
pub uninterp spec fn json_member_text(b: Seq<u8>, key: Seq<char>) -> Option<Seq<char>>;

/// `serde_json::from_slice::<Value>`.
#[verifier::external_body]
fn parse_json(bytes: &[u8]) -> (r: Option<serde_json::Value>)
    ensures
        r is Some <==> is_json(bytes@),
{
    serde_json::from_slice::<serde_json::Value>(bytes).ok()
}

/// `serde_json::from_slice::<Value>`, then `Value::get(key)` and
/// `Value::as_str`.
#[verifier::external_body]
fn json_text(bytes: &[u8], key: &str) -> (r: Option<Option<String>>)
    ensures
        match r {
            None => !is_json(bytes@),
            Some(m) => is_json(bytes@) && opt_string(m) == json_member_text(bytes@, key@),
        },
{
    match serde_json::from_slice::<serde_json::Value>(bytes) {
        Ok(v) => Some(v.get(key).and_then(|x| x.as_str()).map(|x| x.to_owned())),
        Err(_) => None,
    }
}

/// The pieces of `s` between occurrences of `c` (`str::split`): one more
/// piece than there are separators, empty pieces kept.
pub open spec fn split_on(s: Seq<char>, c: char) -> Seq<Seq<char>>
    decreases s.len(),
{
    if s.len() == 0 {
        seq![Seq::empty()]
    } else {
        let p = split_on(s.drop_last(), c);
        if s.last() == c {
            p.push(Seq::empty())
        } else {
            p.update(p.len() - 1, p.last().push(s.last()))
        }
    }
}

proof fn lemma_split_nonempty(s: Seq<char>, c: char)
    ensures
        split_on(s, c).len() >= 1,
    decreases s.len(),
{
    if s.len() > 0 {
        lemma_split_nonempty(s.drop_last(), c);
    }
}

pub fn split_char(s: &str, c: char) -> (r: Vec<String>)
    ensures
        crate::common::strset::strings_view(r@) == split_on(s@, c),
{
    let cs = chars_of(s);
    let mut parts: Vec<String> = Vec::new();
    let mut cur = String::new();
    let mut i: usize = 0;
    assert(cs@.take(0) =~= Seq::<char>::empty());
    while i < cs.len()
        invariant
            i <= cs@.len(),
            cs@ == s@,
            crate::common::strset::strings_view(parts@).push(cur@) == split_on(cs@.take(i as int), c),
        decreases cs@.len() - i,
    {
        let ghost before = crate::common::strset::strings_view(parts@).push(cur@);
        let ch = cs[i];
        assert(cs@.take(i + 1).drop_last() =~= cs@.take(i as int));
        if ch == c {
            let done = cur;
            parts.push(done);
            cur = String::new();
            assert(crate::common::strset::strings_view(parts@).push(cur@) =~= before.push(Seq::empty()));
        } else {
            push_char(&mut cur, ch);
            assert(crate::common::strset::strings_view(parts@).push(cur@) =~= before.update(
                before.len() - 1,
                before.last().push(ch),
            ));
        }
        i = i + 1;
    }
    parts.push(cur);
    assert(cs@.take(cs@.len() as int) =~= cs@);
    parts
}

/// Whether `s` is the URL-safe base64 of some bytes.
pub open spec fn b64_decodes(s: Seq<char>) -> bool {
    exists|b: Seq<u8>| base64url(b) == s
}

/// The bytes `s` is the URL-safe base64 of.
pub open spec fn b64_decoded(s: Seq<char>) -> Seq<u8> {
    choose|b: Seq<u8>| base64url(b) == s
}

/// The HS256 signature `signature` (URL-safe base64) is the HMAC-SHA256
/// of `input` keyed with `secret`.
pub open spec fn hs256_valid(input: Seq<char>, signature: Seq<char>, secret: Seq<char>) -> bool {
    signature == base64url(hmac_sha256_of(vstd::utf8::encode_utf8(secret), vstd::utf8::encode_utf8(input)))
}

pub fn verify_hs256(signing_input: &str, signature_b64url: &str, secret: &str) -> (r: bool)
    ensures
        r == hs256_valid(signing_input@, signature_b64url@, secret@),
{
    let expected = hmac_sha256(secret.as_bytes(), signing_input.as_bytes());
    let provided = match base64url_decode(signature_b64url) {
        Some(p) => p,
        None => {
            assert(base64url(expected@) != signature_b64url@);
            return false;
        },
    };
    if expected.len() != provided.len() {
        return false;
    }
    ct_eq(expected.as_slice(), provided.as_slice())
}

/// Whether a request object is accepted: not blank; three dot-separated
/// parts; header and payload URL-safe base64 of JSON; header `alg` HS256
/// in any ASCII case; the client has a non-empty secret; and the
/// signature is the HS256 of `header.payload` under that secret.
pub open spec fn request_object_accepted(jwt: Seq<char>, secret: Option<Seq<char>>) -> bool {
    let parts = split_on(jwt, '.');
    &&& !is_blank(jwt)
    &&& parts.len() == 3
    &&& b64_decodes(parts[0])
    &&& b64_decodes(parts[1])
    &&& is_json(b64_decoded(parts[0]))
    &&& is_json(b64_decoded(parts[1]))
    &&& eq_ignore_ascii_case_spec(
        match json_member_text(b64_decoded(parts[0]), "alg"@) {
            Some(a) => a,
            None => Seq::empty(),
        },
        "HS256"@,
    )
    &&& secret matches Some(k) && k.len() > 0
    &&& hs256_valid(parts[0] + "."@ + parts[1], parts[2], secret->0)
}

pub struct RequestObjectParser;

impl RequestObjectParser {
    /// The payload of an accepted request object (see
    /// `request_object_accepted`); `None` for any other.
    pub fn parse(request_jwt: &str, client: &Client) -> (r: Option<serde_json::Value>)
        ensures
            r is Some <==> request_object_accepted(request_jwt@, opt_string(client.client_secret)),
    {
        let ghost accepted = request_object_accepted(request_jwt@, opt_string(client.client_secret));
        let t = trim_str(request_jwt);
        proof { lemma_trim_empty_iff_blank(request_jwt@); }
        if t.unicode_len() == 0 {
            return None;
        }
        let parts = split_char(request_jwt, '.');
        if parts.len() != 3 {
            return None;
        }
        let ghost ps = split_on(request_jwt@, '.');
        assert(parts@[0]@ == ps[0] && parts@[1]@ == ps[1] && parts@[2]@ == ps[2]);
        let header_bytes = match base64url_decode(parts[0].as_str()) {
            Some(b) => b,
            None => return None,
        };
        let payload_bytes = match base64url_decode(parts[1].as_str()) {
            Some(b) => b,
            None => return None,
        };
        proof {
            assert(base64url(header_bytes@) == ps[0]);
            assert(base64url(payload_bytes@) == ps[1]);
            let h = b64_decoded(ps[0]);
            let p = b64_decoded(ps[1]);
            assert(base64url(h) == ps[0]);
            assert(base64url(p) == ps[1]);
        }
        let alg = match json_text(header_bytes.as_slice(), "alg") {
            Some(a) => a,
            None => return None,
        };
        let payload = match parse_json(payload_bytes.as_slice()) {
            Some(v) => v,
            None => return None,
        };
        let alg_text = match &alg {
            Some(a) => a.as_str(),
            None => "",
        };
        proof { reveal_strlit(""); }
        if !eq_ignore_ascii_case(alg_text, "HS256") {
            return None;
        }
        let secret = match &client.client_secret {
            Some(s) => s.as_str(),
            None => return None,
        };
        if secret.unicode_len() == 0 {
            return None;
        }
        let with_dot = concat(parts[0].as_str(), ".");
        let signing_input = concat(with_dot.as_str(), parts[1].as_str());
        if !verify_hs256(signing_input.as_str(), parts[2].as_str(), secret) {
            return None;
        }
        Some(payload)
    }
}

} // verus!
