//! How a device authorization is stored: a hash of named text fields
//! under its device code, and a pointer from its normalised user code.
//! Timestamps are ISO local date-times (UTC), identifiers hyphenated.

use vstd::prelude::*;

use super::model::DeviceAuthorization;
use crate::common::fields::{field_lookup, field_value, lemma_lookup_concat};
use crate::common::ids::{parse_uuid, uuid_from_text, uuid_hyphenated, uuid_text};
use crate::common::text::{chars_of, is_white_space, is_whitespace, opt_string, push_char, to_uppercase, uppercase_of};
use crate::common::time::{
    secs_between, seconds_between,
    datetime_formatted, datetime_parsed, format_datetime, in_datetime_range, iso_format, iso_format_whole,
    parse_datetime,
};
use crate::common::url::pairs_view;

verus! {

/// The characters of a user code that matter: white space and `-` are
/// dropped, so `bcdf-ghjk` and `BCDF GHJK` name the same code.
pub open spec fn code_core(s: Seq<char>) -> Seq<char>
    decreases s.len(),
{
    if s.len() == 0 {
        s
    } else {
        let rest = code_core(s.drop_last());
        let c = s.last();
        if is_white_space(c) || c == '-' {
            rest
        } else {
            rest.push(c)
        }
    }
}

/// The key a user code is looked up by (RFC 8628 §6.1: case- and
/// separator-insensitive).
pub open spec fn normalized_user_code(s: Seq<char>) -> Seq<char> {
    uppercase_of(code_core(s))
}

/// Dropping separators from a concatenation drops them from each part.
proof fn lemma_code_core_concat(a: Seq<char>, b: Seq<char>)
    ensures
        code_core(a + b) == code_core(a) + code_core(b),
    decreases b.len(),
{
    if b.len() == 0 {
        assert(a + b =~= a);
        assert(code_core(b) =~= Seq::<char>::empty());
        assert(code_core(a) + code_core(b) =~= code_core(a));
    } else {
        assert((a + b).drop_last() =~= a + b.drop_last());
        assert((a + b).last() == b.last());
        lemma_code_core_concat(a, b.drop_last());
        let c = b.last();
        if is_white_space(c) || c == '-' {
        } else {
            assert(code_core(a) + code_core(b.drop_last()).push(c) =~= (code_core(a) + code_core(b.drop_last())).push(c));
        }
    }
}

/// A user code is found whatever separators and white space the user
/// types between its characters: putting a `-` or a space anywhere does
/// not change the key it is looked up by.
pub proof fn law_user_code_separators_ignored(a: Seq<char>, b: Seq<char>, sep: char)
    requires
        sep == '-' || is_white_space(sep),
    ensures
        normalized_user_code(a + seq![sep] + b) == normalized_user_code(a + b),
{
    lemma_code_core_concat(a + seq![sep], b);
    lemma_code_core_concat(a, seq![sep]);
    lemma_code_core_concat(a, b);
    assert(seq![sep].drop_last() =~= Seq::<char>::empty());
    assert(code_core(Seq::<char>::empty()) =~= Seq::<char>::empty());
    assert(seq![sep].last() == sep);
    assert(code_core(seq![sep]) =~= Seq::<char>::empty());
    assert(code_core(a) + code_core(seq![sep]) =~= code_core(a));
}

pub fn normalize_user_code(user_code: &str) -> (r: String)
    ensures
        r@ == normalized_user_code(user_code@),
{
    let cs = chars_of(user_code);
    let mut kept = String::new();
    let mut i: usize = 0;
    while i < cs.len()
        invariant
            i <= cs@.len(),
            cs@ == user_code@,
            kept@ == code_core(cs@.take(i as int)),
        decreases cs@.len() - i,
    {
        let c = cs[i];
        assert(cs@.take(i + 1).drop_last() =~= cs@.take(i as int));
        if !is_whitespace(c) && c != '-' {
            push_char(&mut kept, c);
        }
        i = i + 1;
    }
    assert(cs@.take(cs@.len() as int) =~= cs@);
    to_uppercase(kept.as_str())
}

/// The stored timestamp of a field value: with fractional seconds, or
/// else without.
pub open spec fn stored_instant(s: Seq<char>) -> Option<i64> {
    match datetime_parsed(s, iso_format()) {
        Some(t) => Some(t),
        None => datetime_parsed(s, iso_format_whole()),
    }
}

fn read_instant(s: &str) -> (r: Option<i64>)
    ensures
        r == stored_instant(s@),
{
    proof {
        reveal_strlit("%Y-%m-%dT%H:%M:%S%.f");
        reveal_strlit("%Y-%m-%dT%H:%M:%S");
    }
    match parse_datetime(s, "%Y-%m-%dT%H:%M:%S%.f") {
        Some(t) => Some(t),
        None => parse_datetime(s, "%Y-%m-%dT%H:%M:%S"),
    }
}

/// One field.
pub open spec fn field(k: Seq<char>, v: Seq<char>) -> Seq<(Seq<char>, Seq<char>)> {
    seq![(k, v)]
}

/// One field when the value is present.
pub open spec fn opt_field(k: Seq<char>, v: Option<Seq<char>>) -> Seq<(Seq<char>, Seq<char>)> {
    match v {
        Some(x) => seq![(k, x)],
        None => seq![],
    }
}

pub open spec fn opt_id_text(v: Option<u128>) -> Option<Seq<char>> {
    match v {
        Some(u) => Some(uuid_hyphenated(u)),
        None => None,
    }
}

pub open spec fn opt_instant_text(v: Option<i64>) -> Option<Seq<char>> {
    match v {
        Some(t) => Some(datetime_formatted(t, iso_format())),
        None => None,
    }
}

/// The stored fields of an authorization, in order; absent optional
/// values get no field.
pub open spec fn fields_of(a: DeviceAuthorization) -> Seq<(Seq<char>, Seq<char>)> {
    field("id"@, uuid_hyphenated(a.id)) + field("deviceCode"@, a.device_code@) + field(
        "userCode"@,
        a.user_code@,
    ) + field("clientId"@, a.client_id@) + opt_field("scope"@, opt_string(a.scope)) + field(
        "status"@,
        a.status@,
    ) + opt_field("userId"@, opt_id_text(a.user_id)) + opt_field("sessionId"@, opt_id_text(a.session_id))
        + field("expiresAt"@, datetime_formatted(a.expires_at, iso_format())) + opt_field(
        "createdAt"@,
        opt_instant_text(a.created_at),
    )
}

/// Why stored fields do not decode, checked in this order.
pub enum DecodeError {
    MissingId,
    InvalidId,
    MissingDeviceCode,
    MissingUserCode,
    MissingClientId,
    MissingStatus,
    /// `expiresAt` is missing or no date-time.
    InvalidExpiresAt,
}

pub open spec fn decode_error(m: Seq<(Seq<char>, Seq<char>)>) -> Option<DecodeError> {
    if field_lookup(m, "id"@) is None {
        Some(DecodeError::MissingId)
    } else if uuid_from_text(field_lookup(m, "id"@)->0) is None {
        Some(DecodeError::InvalidId)
    } else if field_lookup(m, "deviceCode"@) is None {
        Some(DecodeError::MissingDeviceCode)
    } else if field_lookup(m, "userCode"@) is None {
        Some(DecodeError::MissingUserCode)
    } else if field_lookup(m, "clientId"@) is None {
        Some(DecodeError::MissingClientId)
    } else if field_lookup(m, "status"@) is None {
        Some(DecodeError::MissingStatus)
    } else if !(field_lookup(m, "expiresAt"@) matches Some(s) && stored_instant(s) is Some) {
        Some(DecodeError::InvalidExpiresAt)
    } else {
        None
    }
}

/// An authorization as the contracts compare it.
pub struct DeviceView {
    pub id: u128,
    pub device_code: Seq<char>,
    pub user_code: Seq<char>,
    pub client_id: Seq<char>,
    pub scope: Option<Seq<char>>,
    pub status: Seq<char>,
    pub user_id: Option<u128>,
    pub session_id: Option<u128>,
    pub expires_at: i64,
    pub created_at: Option<i64>,
}

pub open spec fn device_view(a: DeviceAuthorization) -> DeviceView {
    DeviceView {
        id: a.id,
        device_code: a.device_code@,
        user_code: a.user_code@,
        client_id: a.client_id@,
        scope: opt_string(a.scope),
        status: a.status@,
        user_id: a.user_id,
        session_id: a.session_id,
        expires_at: a.expires_at,
        created_at: a.created_at,
    }
}

pub open spec fn opt_id(o: Option<Seq<char>>) -> Option<u128> {
    match o {
        Some(s) => uuid_from_text(s),
        None => None,
    }
}

pub open spec fn opt_instant(o: Option<Seq<char>>) -> Option<i64> {
    match o {
        Some(s) => stored_instant(s),
        None => None,
    }
}

/// What fields that pass `decode_error` decode to. An unreadable
/// `userId`, `sessionId` or `createdAt` reads as absent.
pub open spec fn decoded_view(m: Seq<(Seq<char>, Seq<char>)>) -> DeviceView {
    DeviceView {
        id: uuid_from_text(field_lookup(m, "id"@)->0)->0,
        device_code: field_lookup(m, "deviceCode"@)->0,
        user_code: field_lookup(m, "userCode"@)->0,
        client_id: field_lookup(m, "clientId"@)->0,
        scope: field_lookup(m, "scope"@),
        status: field_lookup(m, "status"@)->0,
        user_id: opt_id(field_lookup(m, "userId"@)),
        session_id: opt_id(field_lookup(m, "sessionId"@)),
        expires_at: stored_instant(field_lookup(m, "expiresAt"@)->0)->0,
        created_at: opt_instant(field_lookup(m, "createdAt"@)),
    }
}

/// The timestamps of `a` read back from the text they are stored as.
pub open spec fn instants_read_back(a: DeviceAuthorization) -> bool {
    &&& stored_instant(datetime_formatted(a.expires_at, iso_format())) == Some(a.expires_at)
    &&& (a.created_at matches Some(c) ==> stored_instant(datetime_formatted(c, iso_format())) == Some(c))
}

fn push_field(out: &mut Vec<(String, String)>, k: &str, v: String)
    ensures
        pairs_view(final(out)@) == pairs_view(old(out)@) + field(k@, v@),
{
    let ghost before = pairs_view(out@);
    out.push((k.to_owned(), v));
    assert(pairs_view(out@) =~= before + field(k@, v@));
}

/// The fields an authorization is stored as. Decoding them gives the
/// authorization back, provided its timestamps read back from their text.
pub fn to_fields(auth: &DeviceAuthorization) -> (r: Vec<(String, String)>)
    requires
        in_datetime_range(auth.expires_at as int),
        auth.created_at matches Some(c) ==> in_datetime_range(c as int),
    ensures
        pairs_view(r@) == fields_of(*auth),
        instants_read_back(*auth) ==> decode_error(pairs_view(r@)) is None && decoded_view(pairs_view(r@))
            == device_view(*auth),
{
    proof {
        reveal_strlit("%Y-%m-%dT%H:%M:%S%.f");
    }
    let mut out: Vec<(String, String)> = Vec::new();
    let id = uuid_text(auth.id);
    push_field(&mut out, "id", id);
    push_field(&mut out, "deviceCode", auth.device_code.clone());
    push_field(&mut out, "userCode", auth.user_code.clone());
    push_field(&mut out, "clientId", auth.client_id.clone());
    let ghost p4 = pairs_view(out@);
    if let Some(s) = &auth.scope {
        push_field(&mut out, "scope", s.clone());
    }
    assert(pairs_view(out@) =~= p4 + opt_field("scope"@, opt_string(auth.scope)));
    push_field(&mut out, "status", auth.status.clone());
    let ghost p6 = pairs_view(out@);
    if let Some(u) = auth.user_id {
        let t = uuid_text(u);
        push_field(&mut out, "userId", t);
    }
    assert(pairs_view(out@) =~= p6 + opt_field("userId"@, opt_id_text(auth.user_id)));
    let ghost p7 = pairs_view(out@);
    if let Some(s) = auth.session_id {
        let t = uuid_text(s);
        push_field(&mut out, "sessionId", t);
    }
    assert(pairs_view(out@) =~= p7 + opt_field("sessionId"@, opt_id_text(auth.session_id)));
    push_field(&mut out, "expiresAt", format_datetime(auth.expires_at, "%Y-%m-%dT%H:%M:%S%.f"));
    let ghost p9 = pairs_view(out@);
    if let Some(c) = auth.created_at {
        push_field(&mut out, "createdAt", format_datetime(c, "%Y-%m-%dT%H:%M:%S%.f"));
    }
    assert(pairs_view(out@) =~= p9 + opt_field("createdAt"@, opt_instant_text(auth.created_at)));
    proof {
        lemma_decodes_back(*auth);
    }
    out
}

/// The fields of `a` decode to `a`, where its identifiers and timestamps
/// read back from their text.
proof fn lemma_decodes_back(a: DeviceAuthorization)
    requires
        uuid_from_text(uuid_hyphenated(a.id)) == Some(a.id),
        a.user_id matches Some(u) ==> uuid_from_text(uuid_hyphenated(u)) == Some(u),
        a.session_id matches Some(s) ==> uuid_from_text(uuid_hyphenated(s)) == Some(s),
    ensures
        instants_read_back(a) ==> decode_error(fields_of(a)) is None && decoded_view(fields_of(a)) == device_view(a),
{
    reveal_strlit("id");
    reveal_strlit("deviceCode");
    reveal_strlit("userCode");
    reveal_strlit("clientId");
    reveal_strlit("scope");
    reveal_strlit("status");
    reveal_strlit("userId");
    reveal_strlit("sessionId");
    reveal_strlit("expiresAt");
    reveal_strlit("createdAt");
    let f0 = field("id"@, uuid_hyphenated(a.id));
    let f1 = field("deviceCode"@, a.device_code@);
    let f2 = field("userCode"@, a.user_code@);
    let f3 = field("clientId"@, a.client_id@);
    let f4 = opt_field("scope"@, opt_string(a.scope));
    let f5 = field("status"@, a.status@);
    let f6 = opt_field("userId"@, opt_id_text(a.user_id));
    let f7 = opt_field("sessionId"@, opt_id_text(a.session_id));
    let f8 = field("expiresAt"@, datetime_formatted(a.expires_at, iso_format()));
    let f9 = opt_field("createdAt"@, opt_instant_text(a.created_at));
    let keys = seq!["id"@, "deviceCode"@, "userCode"@, "clientId"@, "scope"@, "status"@, "userId"@, "sessionId"@, "expiresAt"@, "createdAt"@];
    let parts = seq![f0, f1, f2, f3, f4, f5, f6, f7, f8, f9];
    assert(keys[0].len() == 2 && keys[1].len() == 10 && keys[2].len() == 8 && keys[3].len() == 8);
    assert(keys[4].len() == 5 && keys[5].len() == 6 && keys[6].len() == 6 && keys[7].len() == 9);
    assert(keys[8].len() == 9 && keys[9].len() == 9);
    assert(keys[2][0] == 'u' && keys[3][0] == 'c' && keys[5][0] == 's' && keys[6][0] == 'u');
    assert(keys[7][0] == 's' && keys[8][0] == 'e' && keys[9][0] == 'c');
    assert forall|i: int, j: int| 0 <= i < j < 10 implies #[trigger] keys[i] != #[trigger] keys[j] by {
        if keys[i] == keys[j] {
            assert(keys[i].len() == keys[j].len());
            assert(keys[i][0] == keys[j][0]);
        }
    }
    assert forall|k: int| 0 <= k < 10 implies field_lookup(fields_of(a), #[trigger] keys[k]) == field_lookup(parts[k], keys[k]) by {
        lemma_lookup_in_parts(parts, keys, k);
        assert(fields_of(a) =~= parts[0] + parts[1] + parts[2] + parts[3] + parts[4] + parts[5] + parts[6] + parts[7] + parts[8] + parts[9]);
    }
    assert(field_lookup(fields_of(a), keys[0]) == field_lookup(f0, "id"@));
    assert(field_lookup(fields_of(a), keys[1]) == field_lookup(f1, "deviceCode"@));
    assert(field_lookup(fields_of(a), keys[2]) == field_lookup(f2, "userCode"@));
    assert(field_lookup(fields_of(a), keys[3]) == field_lookup(f3, "clientId"@));
    assert(field_lookup(fields_of(a), keys[4]) == field_lookup(f4, "scope"@));
    assert(field_lookup(fields_of(a), keys[5]) == field_lookup(f5, "status"@));
    assert(field_lookup(fields_of(a), keys[6]) == field_lookup(f6, "userId"@));
    assert(field_lookup(fields_of(a), keys[7]) == field_lookup(f7, "sessionId"@));
    assert(field_lookup(fields_of(a), keys[8]) == field_lookup(f8, "expiresAt"@));
    assert(field_lookup(fields_of(a), keys[9]) == field_lookup(f9, "createdAt"@));
    assert(f0.drop_first().len() == 0);
    assert(f1.drop_first().len() == 0);
    assert(f2.drop_first().len() == 0);
    assert(f3.drop_first().len() == 0);
    assert(f5.drop_first().len() == 0);
    assert(f8.drop_first().len() == 0);
    if f4.len() > 0 { assert(f4.drop_first().len() == 0); }
    if f6.len() > 0 { assert(f6.drop_first().len() == 0); }
    if f7.len() > 0 { assert(f7.drop_first().len() == 0); }
    if f9.len() > 0 { assert(f9.drop_first().len() == 0); }
}

/// In a concatenation of ten parts where part `j` holds only fields named
/// `keys[j]`, and the names differ, a lookup of `keys[k]` finds what part
/// `k` holds.
proof fn lemma_lookup_in_parts(parts: Seq<Seq<(Seq<char>, Seq<char>)>>, keys: Seq<Seq<char>>, k: int)
    requires
        parts.len() == 10,
        keys.len() == 10,
        0 <= k < 10,
        forall|j: int| 0 <= j < 10 ==> #[trigger] parts[j].len() <= 1,
        forall|j: int| 0 <= j < 10 && parts[j].len() == 1 ==> #[trigger] parts[j][0].0 == keys[j],
        forall|i: int, j: int| 0 <= i < j < 10 ==> keys[i] != keys[j],
    ensures
        field_lookup(
            parts[0] + parts[1] + parts[2] + parts[3] + parts[4] + parts[5] + parts[6] + parts[7] + parts[8] + parts[9],
            keys[k],
        ) == field_lookup(parts[k], keys[k]),
{
    let key = keys[k];
    assert forall|j: int| 0 <= j < 10 && j != k implies field_lookup(#[trigger] parts[j], key) is None by {
        if parts[j].len() == 1 {
            if j < k {
                assert(keys[j] != keys[k]);
            } else {
                assert(keys[k] != keys[j]);
            }
            assert(parts[j].drop_first().len() == 0);
            assert(field_lookup(parts[j].drop_first(), key) is None);
        }
    }
    let s1 = parts[0] + parts[1];
    let s2 = s1 + parts[2];
    let s3 = s2 + parts[3];
    let s4 = s3 + parts[4];
    let s5 = s4 + parts[5];
    let s6 = s5 + parts[6];
    let s7 = s6 + parts[7];
    let s8 = s7 + parts[8];
    lemma_lookup_concat(parts[0], parts[1], key);
    lemma_lookup_concat(s1, parts[2], key);
    lemma_lookup_concat(s2, parts[3], key);
    lemma_lookup_concat(s3, parts[4], key);
    lemma_lookup_concat(s4, parts[5], key);
    lemma_lookup_concat(s5, parts[6], key);
    lemma_lookup_concat(s6, parts[7], key);
    lemma_lookup_concat(s7, parts[8], key);
    lemma_lookup_concat(s8, parts[9], key);
}

/// Decodes stored fields.
pub fn from_fields(fields: &Vec<(String, String)>) -> (r: Result<DeviceAuthorization, DecodeError>)
    ensures
        match r {
            Ok(a) => decode_error(pairs_view(fields@)) is None && device_view(a) == decoded_view(pairs_view(fields@)),
            Err(e) => decode_error(pairs_view(fields@)) == Some(e),
        },
{
    let ghost m = pairs_view(fields@);
    let id_text = match field_value(fields, "id") {
        Some(t) => t,
        None => return Err(DecodeError::MissingId),
    };
    let id = match parse_uuid(id_text.as_str()) {
        Some(u) => u,
        None => return Err(DecodeError::InvalidId),
    };
    let device_code = match field_value(fields, "deviceCode") {
        Some(t) => t,
        None => return Err(DecodeError::MissingDeviceCode),
    };
    let user_code = match field_value(fields, "userCode") {
        Some(t) => t,
        None => return Err(DecodeError::MissingUserCode),
    };
    let client_id = match field_value(fields, "clientId") {
        Some(t) => t,
        None => return Err(DecodeError::MissingClientId),
    };
    let scope = field_value(fields, "scope");
    let status = match field_value(fields, "status") {
        Some(t) => t,
        None => return Err(DecodeError::MissingStatus),
    };
    let user_id = match field_value(fields, "userId") {
        Some(t) => parse_uuid(t.as_str()),
        None => None,
    };
    let session_id = match field_value(fields, "sessionId") {
        Some(t) => parse_uuid(t.as_str()),
        None => None,
    };
    let expires_at = match field_value(fields, "expiresAt") {
        Some(t) => match read_instant(t.as_str()) {
            Some(x) => x,
            None => return Err(DecodeError::InvalidExpiresAt),
        },
        None => return Err(DecodeError::InvalidExpiresAt),
    };
    let created_at = match field_value(fields, "createdAt") {
        Some(t) => read_instant(t.as_str()),
        None => None,
    };
    Ok(DeviceAuthorization {
        id,
        device_code,
        user_code,
        client_id,
        scope,
        status,
        user_id,
        session_id,
        expires_at,
        created_at,
    })
}

/// How long the stored record and its pointer live: the whole seconds
/// left until the authorization expires, or `None` when none are left
/// (it is then not stored at all).
pub fn storage_ttl(expires_at: i64, now: i64) -> (r: Option<i64>)
    ensures
        seconds_between(expires_at as int, now as int) > 0 ==> r == Some(
            seconds_between(expires_at as int, now as int) as i64,
        ),
        seconds_between(expires_at as int, now as int) <= 0 ==> r is None,
{
    let ttl = secs_between(expires_at, now);
    if ttl <= 0 {
        None
    } else {
        Some(ttl)
    }
}

} // verus!
