//! The consent screen: who may see and answer it, what it shows, and
//! where a denial sends the user agent.

use vstd::prelude::*;

use super::model::PendingAuthorization;
use crate::client::Client;
use crate::common::order::{sorted_items, sorted_strict};
use crate::common::strset::strings_view;
use crate::common::text::{
    chars_of, concat, eq_ignore_ascii_case, eq_ignore_ascii_case_spec, opt_str, opt_string, push_char,
    string_or_empty,
};
use crate::common::url::{contains_char, url_encode, url_encode_str};
use crate::oauth::scopes::{parse, scope_set};
use crate::session::model::SessionWithUser;

verus! {

/// What a consent request leads to before its answer is read.
pub enum ConsentGate {
    /// No active session: 303 to `/login`.
    Login,
    /// No such pending request (unknown, expired or already answered):
    /// the page with an error.
    NotFound,
    /// The request was parked by another session: 403.
    SessionMismatch,
    /// Show or answer it.
    Proceed,
}

pub fn consent_gate(session: Option<&SessionWithUser>, pending: Option<&PendingAuthorization>) -> (r: ConsentGate)
    ensures
        session is None ==> r is Login,
        session is Some && pending is None ==> r is NotFound,
        (session matches Some(s) && pending matches Some(p) && s.session.id != p.session_id) ==> r is SessionMismatch,
        (session matches Some(s) && pending matches Some(p) && s.session.id == p.session_id) ==> r is Proceed,
{
    match session {
        None => ConsentGate::Login,
        Some(s) => match pending {
            None => ConsentGate::NotFound,
            Some(p) => if s.session.id != p.session_id {
                ConsentGate::SessionMismatch
            } else {
                ConsentGate::Proceed
            },
        },
    }
}

/// The answer approves only when it is `allow`, ASCII case ignored.
pub fn approves(action: Option<&str>) -> (r: bool)
    ensures
        r == (opt_str(action) matches Some(a) && eq_ignore_ascii_case_spec(a, "allow"@)),
{
    match action {
        Some(a) => eq_ignore_ascii_case(a, "allow"),
        None => false,
    }
}

/// Where a denial sends the user agent: the client's redirect URI with
/// `error=access_denied`, a description, and the request's `state` when
/// it has a non-empty one.
pub open spec fn denial_location(redirect_uri: Seq<char>, state: Option<Seq<char>>) -> Seq<char> {
    redirect_uri + (if redirect_uri.contains('?') {
        "&"@
    } else {
        "?"@
    }) + "error=access_denied&error_description="@ + url_encode("user denied consent"@) + (match state {
        Some(s) => if s.len() > 0 {
            "&state="@ + url_encode(s)
        } else {
            Seq::empty()
        },
        None => Seq::empty(),
    })
}

pub fn deny_location(pending: &PendingAuthorization) -> (r: String)
    ensures
        r@ == denial_location(pending.redirect_uri@, opt_string(pending.state)),
{
    proof {
        reveal_strlit("&");
        reveal_strlit("?");
    }
    let uri = pending.redirect_uri.as_str();
    let sep = if contains_char(uri, '?') {
        "&"
    } else {
        "?"
    };
    let a = concat(uri, sep);
    let b = concat(a.as_str(), "error=access_denied&error_description=");
    let why = url_encode_str("user denied consent");
    let mut location = concat(b.as_str(), why.as_str());
    let ghost base = location@;
    if let Some(st) = &pending.state {
        if st.unicode_len() > 0 {
            location.append("&state=");
            let enc = url_encode_str(st.as_str());
            location.append(enc.as_str());
        }
    }
    assert(location@ =~= denial_location(pending.redirect_uri@, opt_string(pending.state)));
    location
}

/// The name the page shows for the client: its registered name when that
/// is non-empty, else its client id.
pub open spec fn display_name(client: Option<Client>, client_id: Seq<char>) -> Seq<char> {
    match client {
        Some(c) => if string_or_empty(c.name).len() > 0 {
            string_or_empty(c.name)
        } else {
            client_id
        },
        None => client_id,
    }
}

pub fn client_display_name(client: Option<&Client>, client_id: &str) -> (r: String)
    ensures
        r@ == display_name(
            match client {
                Some(c) => Some(*c),
                None => None,
            },
            client_id@,
        ),
{
    match client {
        Some(c) => match &c.name {
            Some(n) => if n.unicode_len() > 0 {
                n.clone()
            } else {
                client_id.to_owned()
            },
            None => client_id.to_owned(),
        },
        None => client_id.to_owned(),
    }
}

/// `char::to_ascii_uppercase`.
pub open spec fn ascii_upper(c: char) -> char {
    if 'a' <= c <= 'z' {
        ((c as u32) - 32) as char
    } else {
        c
    }
}

/// The badge letter: the name's first character, ASCII upper-cased, or
/// `?` for an empty name.
pub fn client_initial(name: &str) -> (r: String)
    ensures
        name@.len() > 0 ==> r@ == seq![ascii_upper(name@[0])],
        name@.len() == 0 ==> r@ == "?"@,
{
    let cs = chars_of(name);
    let mut out = String::new();
    if cs.len() == 0 {
        push_char(&mut out, '?');
        proof { reveal_strlit("?"); }
        assert(out@ =~= "?"@);
    } else {
        let c = cs[0];
        let u = if 'a' <= c && c <= 'z' {
            ((c as u32) - 32) as u8 as char
        } else {
            c
        };
        assert(u == ascii_upper(c)) by {
            if 'a' <= c && c <= 'z' {
                assert(((c as u32) - 32) as u8 as char == ((c as u32) - 32) as char);
            }
        }
        push_char(&mut out, u);
        assert(out@ =~= seq![ascii_upper(name@[0])]);
    }
    out
}

/// Who the page says is signed in: the email, or the username when the
/// email is empty.
pub fn user_label(session: &SessionWithUser) -> (r: String)
    ensures
        session.user_email@.len() > 0 ==> r@ == session.user_email@,
        session.user_email@.len() == 0 ==> r@ == session.user_username@,
{
    if session.user_email.unicode_len() > 0 {
        session.user_email.clone()
    } else {
        session.user_username.clone()
    }
}

/// The parts of a URL that its host part is made of, as `url::Url::parse`
/// reads them: scheme, host and explicit non-default port; `None` when it
/// does not parse.
pub uninterp spec fn url_parts(s: Seq<char>) -> Option<(Seq<char>, Option<Seq<char>>, Option<u16>)>;

/// `url::Url::parse`, then `scheme`, `host_str` and `port`.
#[verifier::external_body]
fn parse_url(s: &str) -> (r: Option<(String, Option<String>, Option<u16>)>)
    ensures
        match r {
            Some((scheme, host, port)) => url_parts(s@) == Some((scheme@, opt_string(host), port)),
            None => url_parts(s@) is None,
        },
{
    match url::Url::parse(s) {
        Ok(u) => Some((u.scheme().to_owned(), u.host_str().map(|h| h.to_owned()), u.port())),
        Err(_) => None,
    }
}

/// What the page shows of the redirect URI: `scheme://host[:port]`,
/// without path or query; the URI itself when it does not parse or has no
/// host.
pub open spec fn redirect_host_spec(uri: Seq<char>) -> Seq<char> {
    if uri.len() == 0 {
        uri
    } else {
        match url_parts(uri) {
            Some((scheme, host, port)) => {
                let h = match host {
                    Some(x) => x,
                    None => Seq::empty(),
                };
                if h.len() == 0 {
                    uri
                } else {
                    match port {
                        Some(p) => scheme + "://"@ + h + ":"@ + crate::common::text::nat_decimal(p as nat),
                        None => scheme + "://"@ + h,
                    }
                }
            },
            None => uri,
        }
    }
}

pub fn redirect_host(uri: &str) -> (r: String)
    ensures
        r@ == redirect_host_spec(uri@),
{
    if uri.unicode_len() == 0 {
        return String::new();
    }
    match parse_url(uri) {
        Some((scheme, host, port)) => {
            let h = match &host {
                Some(x) => x.clone(),
                None => String::new(),
            };
            if h.unicode_len() == 0 {
                return uri.to_owned();
            }
            let with_sep = concat(scheme.as_str(), "://");
            let mut out = concat(with_sep.as_str(), h.as_str());
            if let Some(p) = port {
                out.append(":");
                crate::common::text::push_decimal(&mut out, p as u64);
            }
            out
        },
        None => uri.to_owned(),
    }
}

/// The consent page.
pub struct ConsentPage {
    pub request_id: String,
    pub client_name: String,
    pub client_id: String,
    pub client_initial: String,
    /// The requested scopes, in increasing order.
    pub scopes: Vec<String>,
    pub user_label: String,
    pub redirect_host: String,
    pub error: Option<String>,
}

/// The page for an unknown or expired request.
pub fn not_found_page() -> (r: ConsentPage)
    ensures
        r.request_id@.len() == 0,
        r.client_name@.len() == 0,
        r.client_id@.len() == 0,
        r.client_initial@ == "?"@,
        r.scopes@.len() == 0,
        r.user_label@.len() == 0,
        r.redirect_host@.len() == 0,
        opt_string(r.error) == Some("Consent request not found or expired."@),
{
    ConsentPage {
        request_id: String::new(),
        client_name: String::new(),
        client_id: String::new(),
        client_initial: "?".to_owned(),
        scopes: Vec::new(),
        user_label: String::new(),
        redirect_host: String::new(),
        error: Some("Consent request not found or expired.".to_owned()),
    }
}

/// The page asking `session`'s user about `pending`; `client` is the
/// client registered under its client id.
pub fn consent_page(pending: &PendingAuthorization, client: Option<&Client>, session: &SessionWithUser) -> (r: ConsentPage)
    ensures
        r.request_id == pending.request_id,
        r.client_name@ == display_name(
            match client {
                Some(c) => Some(*c),
                None => None,
            },
            pending.client_id@,
        ),
        r.client_id == pending.client_id,
        r.client_name@.len() > 0 ==> r.client_initial@ == seq![ascii_upper(r.client_name@[0])],
        r.client_name@.len() == 0 ==> r.client_initial@ == "?"@,
        sorted_strict(strings_view(r.scopes@)),
        strings_view(r.scopes@).to_set() == scope_set(string_or_empty(pending.scope)),
        session.user_email@.len() > 0 ==> r.user_label@ == session.user_email@,
        session.user_email@.len() == 0 ==> r.user_label@ == session.user_username@,
        r.redirect_host@ == redirect_host_spec(pending.redirect_uri@),
        r.error is None,
{
    let client_name = client_display_name(client, pending.client_id.as_str());
    let initial = client_initial(client_name.as_str());
    let scope = match &pending.scope {
        Some(s) => Some(s.as_str()),
        None => None,
    };
    let set = parse(scope);
    let scopes = sorted_items(&set);
    ConsentPage {
        request_id: pending.request_id.clone(),
        client_name,
        client_id: pending.client_id.clone(),
        client_initial: initial,
        scopes,
        user_label: user_label(session),
        redirect_host: redirect_host(pending.redirect_uri.as_str()),
        error: None,
    }
}

/// The plain-text body when code issuance fails after an approval:
/// `error: description`.
pub fn failure_text(error: &Option<String>, description: &Option<String>) -> (r: String)
    ensures
        r@ == string_or_empty(*error) + ": "@ + string_or_empty(*description),
{
    let e = match error {
        Some(x) => x.as_str(),
        None => "",
    };
    let d = match description {
        Some(x) => x.as_str(),
        None => "",
    };
    proof { reveal_strlit(""); }
    let a = concat(e, ": ");
    concat(a.as_str(), d)
}

} // verus!
