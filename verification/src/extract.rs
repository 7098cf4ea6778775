//! Typed extraction of handler arguments from a request.

pub mod builtin;
pub mod rejection;
pub mod request_parts;

use vstd::prelude::*;
use vstd::string::*;
use vstd::utf8::encode_utf8;
use crate::extract::rejection::{
    BodyAlreadyExtracted,
    ExtensionAlreadyExtracted,
    HeadersAlreadyExtracted,
    RequestAlreadyExtracted,
};
use crate::http_types::{
    header_value,
    header_values,
    Extensions,
    Method,
    Request,
    Uri,
    Version,
};
use crate::response::IntoResponse;

verus! {

/// A request taken apart. The method, the target and the version stay; the
/// headers, the extensions and the body can each be taken out once.
#[derive(Debug)]
pub struct RequestParts<B> {
    pub method: Method,
    pub uri: Uri,
    pub version: Version,
    pub headers: Option<http::HeaderMap>,
    pub extensions: Option<Extensions>,
    pub body: Option<B>,
}

/// A type that can be made from the parts of a request.
pub trait FromRequest<B>: Sized {
    /// What extraction fails with.
    type Rejection: IntoResponse;

    /// Whether extraction may turn the parts `before` into `after` and give
    /// `out`.
    open spec fn extracts(
        before: RequestParts<B>,
        after: RequestParts<B>,
        out: Result<Self, Self::Rejection>,
    ) -> bool {
        true
    }

    fn from_request(req: &mut RequestParts<B>) -> (out: Result<Self, Self::Rejection>)
        ensures
            Self::extracts(*old(req), *final(req), out),
    ;
}

/// The parts of a request, with nothing taken yet.
pub open spec fn parts_of<B>(req: Request<B>) -> RequestParts<B> {
    RequestParts {
        method: req.method,
        uri: req.uri,
        version: req.version,
        headers: Some(req.headers),
        extensions: Some(req.extensions),
        body: Some(req.body),
    }
}

/// The request that the parts make, or what is missing: the body is looked
/// for first, then the headers, then the extensions.
pub open spec fn request_of<B>(parts: RequestParts<B>) -> Result<
    Request<B>,
    RequestAlreadyExtracted,
> {
    if parts.body is None {
        Err(RequestAlreadyExtracted::BodyAlreadyExtracted(BodyAlreadyExtracted))
    } else if parts.headers is None {
        Err(RequestAlreadyExtracted::HeadersAlreadyExtracted(HeadersAlreadyExtracted))
    } else if parts.extensions is None {
        Err(RequestAlreadyExtracted::ExtensionAlreadyExtracted(ExtensionAlreadyExtracted))
    } else {
        Ok(
            Request {
                method: parts.method,
                uri: parts.uri,
                version: parts.version,
                headers: parts.headers->0,
                extensions: parts.extensions->0,
                body: parts.body->0,
            },
        )
    }
}

impl<B> RequestParts<B> {
    /// Takes a request apart.
    pub fn new(req: Request<B>) -> (parts: Self)
        ensures
            parts == parts_of(req),
    {
        let Request { method, uri, version, headers, extensions, body } = req;
        RequestParts {
            method,
            uri,
            version,
            headers: Some(headers),
            extensions: Some(extensions),
            body: Some(body),
        }
    }

    /// Puts the request together again. This fails where the body, the
    /// headers or the extensions were taken out before.
    pub fn try_into_request(self) -> (out: Result<Request<B>, RequestAlreadyExtracted>)
        ensures
            out == request_of(self),
    {
        let RequestParts { method, uri, version, headers, extensions, body } = self;
        let body = match body {
            Some(body) => body,
            None => {
                return Err(RequestAlreadyExtracted::BodyAlreadyExtracted(BodyAlreadyExtracted));
            },
        };
        let headers = match headers {
            Some(headers) => headers,
            None => {
                return Err(
                    RequestAlreadyExtracted::HeadersAlreadyExtracted(HeadersAlreadyExtracted),
                );
            },
        };
        let extensions = match extensions {
            Some(extensions) => extensions,
            None => {
                return Err(
                    RequestAlreadyExtracted::ExtensionAlreadyExtracted(ExtensionAlreadyExtracted),
                );
            },
        };
        Ok(Request { method, uri, version, headers, extensions, body })
    }

    pub fn method(&self) -> (method: &Method)
        ensures
            *method == self.method,
    {
        &self.method
    }

    pub fn method_mut(&mut self) -> (method: &mut Method)
        ensures
            *method == old(self).method,
            *final(self) == (RequestParts { method: *final(method), ..*old(self) }),
    {
        &mut self.method
    }

    pub fn uri(&self) -> (uri: &Uri)
        ensures
            *uri == self.uri,
    {
        &self.uri
    }

    pub fn uri_mut(&mut self) -> (uri: &mut Uri)
        ensures
            *uri == old(self).uri,
            *final(self) == (RequestParts { uri: *final(uri), ..*old(self) }),
    {
        &mut self.uri
    }

    pub fn version(&self) -> (version: Version)
        ensures
            version == self.version,
    {
        self.version
    }

    pub fn version_mut(&mut self) -> (version: &mut Version)
        ensures
            *version == old(self).version,
            *final(self) == (RequestParts { version: *final(version), ..*old(self) }),
    {
        &mut self.version
    }

    /// The headers, unless they were taken out.
    pub fn headers(&self) -> (headers: Option<&http::HeaderMap>)
        ensures
            match headers {
                Some(h) => self.headers == Some(*h),
                None => self.headers is None,
            },
    {
        match &self.headers {
            Some(headers) => Some(headers),
            None => None,
        }
    }

    /// The headers for change, unless they were taken out.
    pub fn headers_mut(&mut self) -> (headers: Option<&mut http::HeaderMap>)
        ensures
            match headers {
                Some(h) => old(self).headers == Some(*h) && *final(self) == (RequestParts {
                    headers: Some(*final(h)),
                    ..*old(self)
                }),
                None => old(self).headers is None && *final(self) == *old(self),
            },
    {
        match &mut self.headers {
            Some(headers) => Some(headers),
            None => None,
        }
    }

    /// Takes the headers out; `None` where they were taken out before.
    pub fn take_headers(&mut self) -> (headers: Option<http::HeaderMap>)
        ensures
            headers == old(self).headers,
            *final(self) == (RequestParts { headers: None, ..*old(self) }),
    {
        self.headers.take()
    }

    /// The extensions, unless they were taken out.
    pub fn extensions(&self) -> (extensions: Option<&Extensions>)
        ensures
            match extensions {
                Some(e) => self.extensions == Some(*e),
                None => self.extensions is None,
            },
    {
        match &self.extensions {
            Some(extensions) => Some(extensions),
            None => None,
        }
    }

    /// The extensions for change, unless they were taken out.
    pub fn extensions_mut(&mut self) -> (extensions: Option<&mut Extensions>)
        ensures
            match extensions {
                Some(e) => old(self).extensions == Some(*e) && *final(self) == (RequestParts {
                    extensions: Some(*final(e)),
                    ..*old(self)
                }),
                None => old(self).extensions is None && *final(self) == *old(self),
            },
    {
        match &mut self.extensions {
            Some(extensions) => Some(extensions),
            None => None,
        }
    }

    /// Takes the extensions out; `None` where they were taken out before.
    pub fn take_extensions(&mut self) -> (extensions: Option<Extensions>)
        ensures
            extensions == old(self).extensions,
            *final(self) == (RequestParts { extensions: None, ..*old(self) }),
    {
        self.extensions.take()
    }

    /// The body, unless it was taken out.
    pub fn body(&self) -> (body: Option<&B>)
        ensures
            match body {
                Some(b) => self.body == Some(*b),
                None => self.body is None,
            },
    {
        match &self.body {
            Some(body) => Some(body),
            None => None,
        }
    }

    /// The body for change, unless it was taken out.
    pub fn body_mut(&mut self) -> (body: Option<&mut B>)
        ensures
            match body {
                Some(b) => old(self).body == Some(*b) && *final(self) == (RequestParts {
                    body: Some(*final(b)),
                    ..*old(self)
                }),
                None => old(self).body is None && *final(self) == *old(self),
            },
    {
        match &mut self.body {
            Some(body) => Some(body),
            None => None,
        }
    }

    /// Takes the body out; `None` where it was taken out before.
    pub fn take_body(&mut self) -> (body: Option<B>)
        ensures
            body == old(self).body,
            *final(self) == (RequestParts { body: None, ..*old(self) }),
    {
        self.body.take()
    }
}

/// Taking a request apart and putting it together again, with nothing taken
/// in between, gives the request back: method, target, version, headers,
/// extensions and body.
pub proof fn law_parts_round_trip<B>(req: Request<B>)
    ensures
        request_of(parts_of(req)) == Ok::<Request<B>, RequestAlreadyExtracted>(req),
{
}

/// A field can be taken out once: after a take the field is gone, and the
/// request cannot be put together again.
pub proof fn law_taken_field_is_gone<B>(parts: RequestParts<B>)
    ensures
        request_of(RequestParts { body: None, ..parts }) is Err,
        request_of(RequestParts { headers: None, ..parts }) is Err,
        request_of(RequestParts { extensions: None, ..parts }) is Err,
{
}

impl<B, T: FromRequest<B>> FromRequest<B> for Result<T, T::Rejection> {
    type Rejection = core::convert::Infallible;

    open spec fn extracts(
        before: RequestParts<B>,
        after: RequestParts<B>,
        out: Result<Self, Self::Rejection>,
    ) -> bool {
        out is Ok && T::extracts(before, after, out->Ok_0)
    }

    /// Runs the extractor inside and hands on what it gave, success or
    /// rejection: this extraction itself never fails.
    fn from_request(req: &mut RequestParts<B>) -> (out: Result<Self, Self::Rejection>) {
        Ok(T::from_request(req))
    }
}

/// Whether every byte is a visible ASCII character, a space or a tab.
pub open spec fn visible_ascii(bytes: Seq<u8>) -> bool {
    forall|i: int| 0 <= i < bytes.len() ==> (32 <= #[trigger] bytes[i] < 127 || bytes[i] == 9)
}

/// Whether `bytes` begins with `start`.
pub open spec fn starts_with(bytes: Seq<u8>, start: Seq<u8>) -> bool {
    start.len() <= bytes.len() && bytes.subrange(0, start.len() as int) == start
}

/// Whether the headers hold a content type that is readable text and begins
/// with `expected`.
pub open spec fn spec_has_content_type(headers: http::HeaderMap, expected: Seq<char>) -> bool {
    &&& header_values(headers).contains_key("content-type"@)
    &&& visible_ascii(header_values(headers)["content-type"@])
    &&& starts_with(header_values(headers)["content-type"@], encode_utf8(expected))
}

/// Whether every byte is a visible ASCII character, a space or a tab.
pub fn is_visible_ascii(bytes: &Vec<u8>) -> (r: bool)
    ensures
        r == visible_ascii(bytes@),
{
    let mut i: usize = 0;
    while i < bytes.len()
        invariant
            i <= bytes.len(),
            forall|j: int| 0 <= j < i ==> (32 <= #[trigger] bytes@[j] < 127 || bytes@[j] == 9),
        decreases bytes.len() - i,
    {
        let b = bytes[i];
        if !(b >= 32 && b < 127 || b == 9) {
            return false;
        }
        i += 1;
    }
    true
}

/// Whether `bytes` begins with `start`.
pub fn bytes_start_with(bytes: &Vec<u8>, start: &[u8]) -> (r: bool)
    ensures
        r == starts_with(bytes@, start@),
{
    if start.len() > bytes.len() {
        return false;
    }
    let mut i: usize = 0;
    while i < start.len()
        invariant
            i <= start.len() <= bytes.len(),
            bytes@.subrange(0, i as int) == start@.subrange(0, i as int),
        decreases start.len() - i,
    {
        if bytes[i] != start[i] {
            proof {
                let whole = bytes@.subrange(0, start@.len() as int);
                assert(whole[i as int] == bytes@[i as int]);
            }
            return false;
        }
        i += 1;
        assert(bytes@.subrange(0, i as int) =~= start@.subrange(0, i as int));
    }
    assert(start@.subrange(0, start@.len() as int) =~= start@);
    true
}

/// Whether the request's content type begins with `expected_content_type`.
/// A request without a content type, or with one that is not readable text,
/// has none. This fails where the headers were taken out before.
pub fn has_content_type<B>(req: &RequestParts<B>, expected_content_type: &str) -> (out: Result<
    bool,
    HeadersAlreadyExtracted,
>)
    ensures
        match req.headers {
            Some(headers) => out == Ok::<bool, HeadersAlreadyExtracted>(
                spec_has_content_type(headers, expected_content_type@),
            ),
            None => out is Err,
        },
{
    let headers = match req.headers() {
        Some(headers) => headers,
        None => {
            return Err(HeadersAlreadyExtracted);
        },
    };
    proof {
        reveal_strlit("content-type");
    }
    let content_type = match header_value(headers, "content-type") {
        Some(content_type) => content_type,
        None => {
            return Ok(false);
        },
    };
    if !is_visible_ascii(&content_type) {
        return Ok(false);
    }
    Ok(bytes_start_with(&content_type, expected_content_type.as_bytes()))
}

/// Takes the body out. This fails where it was taken out before.
pub fn take_body<B>(req: &mut RequestParts<B>) -> (out: Result<B, BodyAlreadyExtracted>)
    ensures
        match old(req).body {
            Some(body) => out == Ok::<B, BodyAlreadyExtracted>(body),
            None => out is Err,
        },
        *final(req) == (RequestParts { body: None, ..*old(req) }),
{
    match req.take_body() {
        Some(body) => Ok(body),
        None => Err(BodyAlreadyExtracted),
    }
}

} // verus!
