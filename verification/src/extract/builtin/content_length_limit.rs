//! A limit on the length of the body, round another extractor.

use vstd::prelude::*;
use vstd::string::*;
use crate::extract::builtin::typed_header::{decimal, is_digits, ContentLength, Header};
use crate::extract::rejection::{
    ContentLengthLimitRejection,
    HeadersAlreadyExtracted,
    LengthRequired,
    PayloadTooLarge,
};
use crate::extract::{FromRequest, RequestParts};
use crate::http_types::{header_value, header_values};

verus! {

/// What the extractor inside gave, for a request whose declared length is at
/// most `N` bytes.
#[derive(Clone, Copy, Debug)]
pub struct ContentLengthLimit<T, const N: u64>(pub T);

/// The length that the headers declare: the value of `content-length` where
/// it is a number that fits in 64 bits.
pub open spec fn declared_length(headers: http::HeaderMap) -> Option<u64> {
    let values = header_values(headers);
    if values.contains_key("content-length"@) && is_digits(values["content-length"@]) && decimal(
        values["content-length"@],
    ) <= u64::MAX {
        Some(decimal(values["content-length"@]) as u64)
    } else {
        None
    }
}

/// The length that the headers declare, if they declare one.
pub fn content_length(headers: &http::HeaderMap) -> (length: Option<u64>)
    ensures
        length == declared_length(*headers),
{
    proof {
        reveal_strlit("content-length");
    }
    match header_value(headers, "content-length") {
        Some(value) => match ContentLength::decode(&value) {
            Some(length) => Some(length.0),
            None => None,
        },
        None => None,
    }
}

impl<B, T: FromRequest<B>, const N: u64> FromRequest<B> for ContentLengthLimit<T, N> {
    type Rejection = ContentLengthLimitRejection<T::Rejection>;

    open spec fn extracts(
        before: RequestParts<B>,
        after: RequestParts<B>,
        out: Result<Self, Self::Rejection>,
    ) -> bool {
        match before.headers {
            None => after == before && out is Err && out->Err_0 is HeadersAlreadyExtracted,
            Some(headers) => match declared_length(headers) {
                None => after == before && out is Err && out->Err_0 is LengthRequired,
                Some(length) => if length > N {
                    after == before && out is Err && out->Err_0 is PayloadTooLarge
                } else {
                    exists|inner: Result<T, T::Rejection>| #[trigger]
                        T::extracts(before, after, inner) && match inner {
                            Ok(value) => out is Ok && out->Ok_0.0 == value,
                            Err(rejection) => {
                                &&& out is Err
                                &&& out->Err_0 is Inner
                                &&& out->Err_0->Inner_0 == rejection
                            },
                        }
                },
            },
        }
    }

    /// Checks the declared length before anything is extracted. A request
    /// that declares no length is rejected with 411, one that declares more
    /// than `N` bytes with 413; for any other the extractor inside runs, and
    /// its rejection is handed on.
    fn from_request(req: &mut RequestParts<B>) -> (out: Result<Self, Self::Rejection>) {
        let declared = match req.headers() {
            Some(headers) => content_length(headers),
            None => {
                return Err(
                    ContentLengthLimitRejection::HeadersAlreadyExtracted(HeadersAlreadyExtracted),
                );
            },
        };
        match declared {
            Some(length) => {
                if length > N {
                    return Err(ContentLengthLimitRejection::PayloadTooLarge(PayloadTooLarge));
                }
            },
            None => {
                return Err(ContentLengthLimitRejection::LengthRequired(LengthRequired));
            },
        }
        match T::from_request(req) {
            Ok(value) => Ok(ContentLengthLimit(value)),
            Err(rejection) => Err(ContentLengthLimitRejection::Inner(rejection)),
        }
    }
}

} // verus!
