//! Requests and replies as plain values: what the client asks the transport to
//! send, and what the transport hands back.

use reqwest::header::{HeaderMap, HeaderName, HeaderValue};
use vstd::prelude::*;
use crate::web_api::json::{Json, JsonView};
use crate::web_api::text::chars_of;

verus! {

#[derive(Debug, PartialEq, Eq, Structural, Clone, Copy)]
pub enum Method {
    Get,
    Post,
}

/// What a request is sent for: one of the operations that the client supports.
#[derive(Debug, PartialEq, Eq, Structural, Clone, Copy)]
pub enum Operation {
    /// The profile of a user is fetched.
    ProfileFetch,
    /// A page of the feed of a user is fetched.
    FeedFetch,
    /// A session is opened.
    Login,
}

/// How the transport is set up for a request.
#[derive(Debug, PartialEq, Eq, Structural, Clone, Copy)]
pub enum Transport {
    /// A transport with its defaults.
    Plain,
    /// A transport that keeps cookies from reply to request and takes
    /// compressed replies.
    Session,
}

/// What the body of the reply is read as.
#[derive(Debug, PartialEq, Eq, Structural, Clone, Copy)]
pub enum BodyKind {
    Text,
    Json,
}

/// A request for the transport to send. The transport encodes `query` into the
/// URL and `form` into the body.
#[derive(Debug, PartialEq)]
pub struct HttpRequest {
    pub operation: Operation,
    pub method: Method,
    pub url: String,
    pub query: Vec<(String, String)>,
    pub headers: HeaderMap,
    pub form: Vec<(String, String)>,
    pub transport: Transport,
    pub expects: BodyKind,
}

/// The mathematical value of an [`HttpRequest`].
pub struct HttpRequestView {
    pub operation: Operation,
    pub method: Method,
    pub url: Seq<char>,
    pub query: Seq<(Seq<char>, Seq<char>)>,
    pub headers: Map<Seq<char>, Seq<char>>,
    pub form: Seq<(Seq<char>, Seq<char>)>,
    pub transport: Transport,
    pub expects: BodyKind,
}

impl View for HttpRequest {
    type V = HttpRequestView;

    open spec fn view(&self) -> HttpRequestView {
        HttpRequestView {
            operation: self.operation,
            method: self.method,
            url: self.url@,
            query: self.query.deep_view(),
            headers: header_entries(self.headers),
            form: self.form.deep_view(),
            transport: self.transport,
            expects: self.expects,
        }
    }
}

impl DeepView for HttpRequest {
    type V = HttpRequestView;

    open spec fn deep_view(&self) -> HttpRequestView {
        self@
    }
}

/// The body of a reply.
#[derive(Debug, PartialEq)]
pub enum HttpBody {
    Text(String),
    Json(Json),
    /// The body could not be read as what the request expects.
    Unreadable,
}

/// The mathematical value of an [`HttpBody`].
pub enum HttpBodyView {
    Text(Seq<char>),
    Json(JsonView),
    Unreadable,
}

impl View for HttpBody {
    type V = HttpBodyView;

    open spec fn view(&self) -> HttpBodyView {
        match self {
            HttpBody::Text(text) => HttpBodyView::Text(text@),
            HttpBody::Json(value) => HttpBodyView::Json(value@),
            HttpBody::Unreadable => HttpBodyView::Unreadable,
        }
    }
}

/// What came of sending a request.
#[derive(Debug, PartialEq)]
pub enum HttpOutcome {
    /// No response arrived.
    TransportFailure,
    /// A response arrived, with this status and body.
    Reply { status: u16, body: HttpBody },
}

/// The mathematical value of an [`HttpOutcome`].
pub enum HttpOutcomeView {
    TransportFailure,
    Reply { status: u16, body: HttpBodyView },
}

impl View for HttpOutcome {
    type V = HttpOutcomeView;

    open spec fn view(&self) -> HttpOutcomeView {
        match self {
            HttpOutcome::TransportFailure => HttpOutcomeView::TransportFailure,
            HttpOutcome::Reply { status, body } => HttpOutcomeView::Reply {
                status: *status,
                body: body@,
            },
        }
    }
}

impl DeepView for HttpOutcome {
    type V = HttpOutcomeView;

    open spec fn deep_view(&self) -> HttpOutcomeView {
        self@
    }
}

impl HttpOutcomeView {
    /// The JSON value that the reply carries, where a reply arrived and its
    /// body is one.
    pub open spec fn json(self) -> Option<JsonView> {
        match self {
            HttpOutcomeView::Reply { status, body: HttpBodyView::Json(value) } => Some(value),
            _ => None,
        }
    }

    /// The text that the reply carries, where a reply arrived and its body is text.
    pub open spec fn text(self) -> Option<Seq<char>> {
        match self {
            HttpOutcomeView::Reply { status, body: HttpBodyView::Text(text) } => Some(text),
            _ => None,
        }
    }
}

impl HttpOutcome {
    /// The JSON value that the reply carries, where a reply arrived and its
    /// body is one.
    pub fn json(&self) -> (value: Option<&Json>)
        ensures
            value.deep_view() == self@.json(),
    {
        match self {
            HttpOutcome::Reply { status: _, body: HttpBody::Json(value) } => Some(value),
            _ => None,
        }
    }

    /// The text that the reply carries, where a reply arrived and its body is text.
    pub fn text(&self) -> (text: Option<&str>)
        ensures
            text.deep_view() == self@.text(),
    {
        match self {
            HttpOutcome::Reply { status: _, body: HttpBody::Text(text) } => Some(text.as_str()),
            _ => None,
        }
    }
}

/// A name with its value, as owned strings.
pub fn pair(name: &str, value: &str) -> (out: (String, String))
    ensures
        out.deep_view() == (name@, value@),
{
    (name.to_owned(), value.to_owned())
}

/// Appends the pair of `name` and `value` to `pairs`.
pub fn push_pair(pairs: &mut Vec<(String, String)>, name: &str, value: &str)
    ensures
        final(pairs).deep_view() == old(pairs).deep_view().push((name@, value@)),
{
    let ghost before = pairs.deep_view();
    pairs.push(pair(name, value));
    assert(pairs.deep_view() =~= before.push((name@, value@)));
}

/// The value of a header, as `reqwest` holds it.
#[verifier::external_type_specification]
#[verifier::external_body]
pub struct ExHeaderValue(HeaderValue);

/// The headers of a request, as `reqwest` holds them.
#[verifier::external_type_specification]
#[verifier::external_body]
#[verifier::reject_recursive_types(T)]
pub struct ExHeaderMap<T>(HeaderMap<T>);

/// What a map of headers holds: each name, in lower case, with the text of the
/// first value that the map has for it.
pub uninterp spec fn header_entries(map: HeaderMap) -> Map<Seq<char>, Seq<char>>;

/// Whether `c` may stand in the name of a header as it is: a lower-case letter,
/// a digit or a hyphen.
pub open spec fn is_header_name_char(c: char) -> bool {
    ('a' <= c && c <= 'z') || ('0' <= c && c <= '9') || c == '-'
}

/// Whether `name` is the name of a header as the map keeps it: up to 64
/// lower-case letters, digits and hyphens.
pub open spec fn is_header_name(name: Seq<char>) -> bool {
    0 < name.len() <= 64 && forall|i: int|
        0 <= i < name.len() ==> is_header_name_char(#[trigger] name[i])
}

/// Whether `c` may stand in the value of a header: a tab, or a character from
/// the space on that is not DEL.
pub open spec fn is_header_char(c: char) -> bool {
    c == '\t' || (' ' <= c && c != '\u{7f}')
}

/// Whether `text` can be the value of a header.
pub open spec fn is_header_text(text: Seq<char>) -> bool {
    forall|i: int| 0 <= i < text.len() ==> is_header_char(#[trigger] text[i])
}

/// How many names a map of headers holds.
pub uninterp spec fn header_count(map: HeaderMap) -> nat;

/// Whether `map` has room for another name.
pub open spec fn has_room(map: HeaderMap) -> bool {
    header_count(map) < 1024
}

/// No headers.
pub open spec fn no_header_entries() -> Map<Seq<char>, Seq<char>> {
    Map::empty()
}

/// A map without headers.
///
/// Calls `reqwest::header::HeaderMap::new`, which gives an empty map.
#[verifier::external_body]
pub(crate) fn no_headers() -> (headers: HeaderMap)
    ensures
        header_entries(headers) == no_header_entries(),
        header_count(headers) == 0,
{
    HeaderMap::new()
}

/// Whether `value` can be the value of a header.
///
/// Asks `reqwest::header::HeaderValue::from_str`, which accepts a string when
/// each of its bytes is a tab, or is at least 32 and not 127. The bytes of a
/// character beyond ASCII are all above 127, so this is a condition on the
/// characters.
#[verifier::external_body]
pub(crate) fn header_value_ok(value: &str) -> (ok: bool)
    ensures
        ok == is_header_text(value@),
{
    HeaderValue::from_str(value).is_ok()
}

/// Gives the header `name` the value `value`, in place of what the map had for
/// the name.
///
/// Calls `reqwest::header::HeaderMap::insert` with the name and the value. A
/// name of lower-case letters, digits and hyphens is kept as it is, and a
/// value that `HeaderValue::from_str` accepts is kept byte for byte. The map
/// drops what it had for a name that it holds already. It takes a new name
/// until its table can grow no more, which is far beyond the room that is
/// asked for here.
#[verifier::external_body]
pub(crate) fn insert_header(map: &mut HeaderMap, name: &str, value: &str)
    requires
        is_header_name(name@),
        is_header_text(value@),
        has_room(*old(map)),
    ensures
        header_entries(*final(map)) == header_entries(*old(map)).insert(name@, value@),
        header_count(*final(map)) == header_count(*old(map)) + (if header_entries(
            *old(map),
        ).contains_key(name@) {
            0nat
        } else {
            1nat
        }),
{
    if let (Ok(name), Ok(value)) =
        (HeaderName::from_bytes(name.as_bytes()), HeaderValue::from_str(value))
    {
        map.insert(name, value);
    }
}

/// `headers` with the header `name` of the value `value`, where there is a
/// value and it can be the value of a header; `headers` as they are otherwise.
pub open spec fn header_if_valid(
    headers: Map<Seq<char>, Seq<char>>,
    name: Seq<char>,
    value: Option<Seq<char>>,
) -> Map<Seq<char>, Seq<char>> {
    match value {
        Some(value) if is_header_text(value) => headers.insert(name, value),
        _ => headers,
    }
}

/// The number of names that a map of headers holds.
///
/// Calls `reqwest::header::HeaderMap::keys_len`, which counts the names, not
/// the values.
#[verifier::external_body]
pub(crate) fn header_names_held(map: &HeaderMap) -> (held: usize)
    ensures
        held == header_count(*map),
{
    map.keys_len()
}

/// Whether `name` is the name of a header as the map keeps it: up to 64
/// lower-case letters, digits and hyphens.
pub fn header_name_ok(name: &str) -> (ok: bool)
    ensures
        ok == is_header_name(name@),
{
    let chars = chars_of(name);
    if chars.len() == 0 || chars.len() > 64 {
        return false;
    }
    let mut i: usize = 0;
    while i < chars.len()
        invariant
            i <= chars.len(),
            chars@ == name@,
            forall|k: int| 0 <= k < i ==> is_header_name_char(#[trigger] chars@[k]),
        decreases chars.len() - i,
    {
        let c = chars[i];
        if !(('a' <= c && c <= 'z') || ('0' <= c && c <= '9') || c == '-') {
            return false;
        }
        i += 1;
    }
    true
}

/// Gives the header `name` the value `value`, in place of what `headers` had
/// for the name, and says whether it did. It does where the name is one of
/// lower-case letters, digits and hyphens, the value can be the value of a
/// header, and the map has room; it leaves the map as it is otherwise.
pub fn set_header(headers: &mut HeaderMap, name: &str, value: &str) -> (set: bool)
    ensures
        set == (is_header_name(name@) && is_header_text(value@) && has_room(*old(headers))),
        set ==> header_entries(*final(headers)) == header_entries(*old(headers)).insert(
            name@,
            value@,
        ),
        !set ==> header_entries(*final(headers)) == header_entries(*old(headers)),
{
    if header_name_ok(name) && header_value_ok(value) && header_names_held(headers) < 1024 {
        insert_header(headers, name, value);
        true
    } else {
        false
    }
}

/// Gives the header `name` the value `value`, where there is a value and it can
/// be the value of a header.
pub(crate) fn insert_header_if_valid(map: &mut HeaderMap, name: &str, value: Option<&str>)
    requires
        is_header_name(name@),
        has_room(*old(map)),
    ensures
        header_entries(*final(map)) == header_if_valid(
            header_entries(*old(map)),
            name@,
            value.deep_view(),
        ),
        header_count(*final(map)) <= header_count(*old(map)) + 1,
{
    match value {
        Some(value) => {
            if header_value_ok(value) {
                insert_header(map, name, value);
            }
        },
        None => {},
    }
}

/// The line that a cookie is written as.
pub open spec fn cookie_text(
    name: Seq<char>,
    value: Seq<char>,
    domain: Seq<char>,
    path: Seq<char>,
    secure: bool,
) -> Seq<char> {
    name + "="@ + value + (if secure {
        "; Secure"@
    } else {
        Seq::empty()
    }) + "; Path="@ + path + "; Domain="@ + (if domain.len() > 0 && domain[0] == '.' {
        domain.skip(1)
    } else {
        domain
    })
}

/// The line that a cookie with this name, value, domain, path and `Secure`
/// flag is written as.
///
/// Builds the cookie with `cookie::Cookie::build` and writes it with its
/// `Display`, which gives `name=value`, then `; Secure` where the flag is set,
/// then `; Path=` and the path, then `; Domain=` and the domain without one
/// leading dot.
#[verifier::external_body]
pub(crate) fn cookie_line(name: &str, value: &str, domain: &str, path: &str, secure: bool) -> (line:
    String)
    ensures
        line@ == cookie_text(name@, value@, domain@, path@, secure),
{
    let builder = cookie::Cookie::build((name, value)).domain(domain).path(path);
    builder.secure(secure).build().to_string()
}

} // verus!
