//! Plain-value model of the request and response envelope.
//!
//! The dispatch core reads the method, the path and the query of a request and
//! the status of a response, so these are held as plain values. The header map
//! is the one of the `http` crate and is carried through unchanged.

use vstd::prelude::*;
use vstd::string::*;

verus! {

/// The header map of the `http` crate, declared so that it can stand in
/// fields and signatures. Nothing inside it is visible to the verifier.
#[verifier::external_type_specification]
#[verifier::external_body]
#[verifier::reject_recursive_types(T)]
pub struct ExHeaderMap<T>(http::HeaderMap<T>);

/// A header value of the `http` crate, declared for the same reason.
#[verifier::external_type_specification]
#[verifier::external_body]
pub struct ExHeaderValue(http::HeaderValue);

/// What a header map holds: for each header name present (in lower case), the
/// bytes of the first value stored under it.
pub uninterp spec fn header_values(headers: http::HeaderMap) -> Map<Seq<char>, Seq<u8>>;

/// Calls `http::HeaderMap::new`. The claim: the new map holds no header.
#[verifier::external_body]
pub(crate) fn empty_headers() -> (fresh: http::HeaderMap)
    ensures
        header_values(fresh) =~= Map::empty(),
{
    http::HeaderMap::new()
}

/// Whether a character is a lower-case letter, a digit or `-`.
pub open spec fn plain_name_char(c: char) -> bool {
    ('a' <= c && c <= 'z') || ('0' <= c && c <= '9') || c == '-'
}

/// Whether `name` is a header name in plain form: 1 to 64 characters, each a
/// lower-case letter, a digit or `-`.
pub open spec fn plain_header_name(name: Seq<char>) -> bool {
    &&& 1 <= name.len() <= 64
    &&& forall|i: int| 0 <= i < name.len() ==> plain_name_char(#[trigger] name[i])
}

/// Whether `name` is a header name in plain form.
pub fn is_plain_header_name(name: &str) -> (plain: bool)
    ensures
        plain == plain_header_name(name@),
{
    let mut count: usize = 0;
    for c in it: name.chars()
        invariant
            count == it.index@,
            count <= 64,
            it.seq() == name@,
            forall|i: int| 0 <= i < it.index@ ==> plain_name_char(#[trigger] name@[i]),
    {
        assert(c == name@[count as int]);
        if count >= 64 || !(('a' <= c && c <= 'z') || ('0' <= c && c <= '9') || c == '-') {
            return false;
        }
        count += 1;
    }
    count >= 1
}

/// Calls `http::HeaderMap::get` with the name as text. The claim, for a name
/// in plain form: the result is the first value stored under that name, as
/// bytes, and `None` exactly when no value is stored under it.
#[verifier::external_body]
pub(crate) fn header_value(headers: &http::HeaderMap, name: &str) -> (value: Option<Vec<u8>>)
    requires
        plain_header_name(name@),
    ensures
        match value {
            Some(bytes) => header_values(*headers).contains_key(name@) && header_values(
                *headers,
            )[name@] == bytes@,
            None => !header_values(*headers).contains_key(name@),
        },
{
    headers.get(name).map(|v| v.as_bytes().to_vec())
}

/// A request method.
#[derive(Clone, Copy, Debug, PartialEq, Eq, Structural)]
pub enum Method {
    Connect,
    Delete,
    Get,
    Head,
    Options,
    Patch,
    Post,
    Put,
    Trace,
    /// Any method outside the nine standard ones.
    Extension,
}

/// The protocol version of a request.
#[derive(Clone, Copy, Debug, PartialEq, Eq, Structural)]
pub enum Version {
    Http09,
    Http10,
    Http11,
    Http2,
    Http3,
}

/// A response status code.
#[derive(Clone, Copy, Debug, PartialEq, Eq, Structural)]
pub struct StatusCode {
    pub code: u16,
}

impl StatusCode {
    pub fn ok() -> (status: StatusCode)
        ensures
            status.code == 200,
    {
        StatusCode { code: 200 }
    }

    pub fn bad_request() -> (status: StatusCode)
        ensures
            status.code == 400,
    {
        StatusCode { code: 400 }
    }

    pub fn not_found() -> (status: StatusCode)
        ensures
            status.code == 404,
    {
        StatusCode { code: 404 }
    }

    pub fn method_not_allowed() -> (status: StatusCode)
        ensures
            status.code == 405,
    {
        StatusCode { code: 405 }
    }

    pub fn length_required() -> (status: StatusCode)
        ensures
            status.code == 411,
    {
        StatusCode { code: 411 }
    }

    pub fn payload_too_large() -> (status: StatusCode)
        ensures
            status.code == 413,
    {
        StatusCode { code: 413 }
    }

    pub fn internal_server_error() -> (status: StatusCode)
        ensures
            status.code == 500,
    {
        StatusCode { code: 500 }
    }

    pub fn as_u16(&self) -> (code: u16)
        ensures
            code == self.code,
    {
        self.code
    }
}

/// The target of a request: its path and, where it has one, its query.
#[derive(Debug)]
pub struct Uri {
    pub path: String,
    pub query: Option<String>,
}

impl Clone for Uri {
    fn clone(&self) -> (copy: Self)
        ensures
            copy.path@ == self.path@,
            copy.query.deep_view() == self.query.deep_view(),
    {
        let query = match &self.query {
            Some(q) => Some(q.clone()),
            None => None,
        };
        Uri { path: self.path.clone(), query }
    }
}

impl Uri {
    pub fn path(&self) -> (path: &str)
        ensures
            path@ == self.path@,
    {
        self.path.as_str()
    }

    pub fn query(&self) -> (query: Option<&str>)
        ensures
            match query {
                Some(q) => self.query is Some && q@ == self.query->0@,
                None => self.query is None,
            },
    {
        match &self.query {
            Some(q) => Some(q.as_str()),
            None => None,
        }
    }
}

/// Path parameters captured while routing, in the order in which they were
/// captured.
#[derive(Debug)]
pub struct UrlParams(pub Vec<(String, String)>);

impl DeepView for UrlParams {
    type V = Seq<(Seq<char>, Seq<char>)>;

    open spec fn deep_view(&self) -> Seq<(Seq<char>, Seq<char>)> {
        self.0.deep_view()
    }
}

/// Out-of-band values that travel with a request through the chain.
#[derive(Debug)]
pub struct Extensions {
    /// The parameters captured so far by the routes that matched the path.
    pub url_params: Option<UrlParams>,
    /// Set once a node whose path matched has turned the method down.
    pub no_method_match: bool,
}

impl Extensions {
    pub fn new() -> (ext: Extensions)
        ensures
            ext.url_params is None,
            !ext.no_method_match,
    {
        Extensions { url_params: None, no_method_match: false }
    }
}

/// An inbound request with a body of type `B`.
#[derive(Debug)]
pub struct Request<B> {
    pub method: Method,
    pub uri: Uri,
    pub version: Version,
    pub headers: http::HeaderMap,
    pub extensions: Extensions,
    pub body: B,
}

/// A response: status, headers and the bytes of the body.
#[derive(Debug)]
pub struct Response {
    pub status: StatusCode,
    pub headers: http::HeaderMap,
    pub body: Vec<u8>,
}

impl Response {
    /// A response with the given status, no header and an empty body.
    pub fn empty(status: StatusCode) -> (res: Response)
        ensures
            res.status == status,
            res.body@.len() == 0,
            header_values(res.headers) =~= Map::empty(),
    {
        Response { status, headers: empty_headers(), body: Vec::new() }
    }
}

} // verus!
