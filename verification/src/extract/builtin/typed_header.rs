//! One header of the request as a handler argument.

use vstd::prelude::*;
use vstd::string::*;
use crate::extract::rejection::HeadersAlreadyExtracted;
use crate::extract::{FromRequest, RequestParts};
use crate::http_types::{
    header_value,
    header_values,
    is_plain_header_name,
    plain_header_name,
    Response,
    StatusCode,
};
use crate::response::{is_plain, plain_response, IntoResponse};

verus! {

/// A type that the value of one header can be decoded into.
pub trait Header: Sized {
    /// Whether `name` may be the name that `name()` gives.
    open spec fn names(name: Seq<char>) -> bool {
        true
    }

    /// Whether decoding the bytes of the value may give `out`.
    open spec fn decodes(value: Seq<u8>, out: Option<Self>) -> bool {
        true
    }

    /// The name of the header, in lower case.
    fn name() -> (name: String)
        ensures
            Self::names(name@),
    ;

    /// The value decoded, or `None` where it is malformed.
    fn decode(value: &Vec<u8>) -> (out: Option<Self>)
        ensures
            Self::decodes(value@, out),
    ;
}

/// What a header was decoded into.
#[derive(Clone, Copy, Debug)]
pub struct TypedHeader<T>(pub T);

/// A header that is absent or malformed.
#[derive(Debug)]
pub struct InvalidHeader {
    pub name: String,
}

impl InvalidHeader {
    /// The line of text that the response carries.
    pub open spec fn spec_message(&self) -> Seq<char> {
        "invalid HTTP header ("@ + self.name@ + ")"@
    }

    pub fn message(&self) -> (text: String)
        ensures
            text@ == self.spec_message(),
    {
        String::from_str("invalid HTTP header (").concat(self.name.as_str()).concat(")")
    }
}

impl IntoResponse for InvalidHeader {
    open spec fn response_of(self, res: Response) -> bool {
        is_plain(res, 400, self.spec_message())
    }

    fn into_response(self) -> (res: Response) {
        let text = self.message();
        plain_response(StatusCode::bad_request(), text.as_str())
    }
}

/// Why a header could not be extracted.
#[derive(Debug)]
pub enum TypedHeaderRejection {
    HeadersAlreadyExtracted(HeadersAlreadyExtracted),
    InvalidHeader(InvalidHeader),
}

impl IntoResponse for TypedHeaderRejection {
    open spec fn response_of(self, res: Response) -> bool {
        match self {
            TypedHeaderRejection::HeadersAlreadyExtracted(inner) => inner.response_of(res),
            TypedHeaderRejection::InvalidHeader(inner) => inner.response_of(res),
        }
    }

    /// The response of the rejection inside.
    fn into_response(self) -> (res: Response) {
        match self {
            TypedHeaderRejection::HeadersAlreadyExtracted(inner) => inner.into_response(),
            TypedHeaderRejection::InvalidHeader(inner) => inner.into_response(),
        }
    }
}

/// Whether `out` is the rejection of the header `name` as absent or
/// malformed.
pub open spec fn rejects_header<T>(
    name: Seq<char>,
    out: Result<TypedHeader<T>, TypedHeaderRejection>,
) -> bool {
    &&& out is Err
    &&& out->Err_0 is InvalidHeader
    &&& out->Err_0->InvalidHeader_0.name@ == name
}

/// Whether `out` is what extraction gives for the header `name`, where the
/// headers hold the first value of each header as `values` tells.
pub open spec fn header_outcome<T: Header>(
    values: Map<Seq<char>, Seq<u8>>,
    name: Seq<char>,
    out: Result<TypedHeader<T>, TypedHeaderRejection>,
) -> bool {
    if plain_header_name(name) && values.contains_key(name) {
        exists|decoded: Option<T>| #[trigger]
            T::decodes(values[name], decoded) && match decoded {
                Some(value) => out is Ok && out->Ok_0.0 == value,
                None => rejects_header(name, out),
            }
    } else {
        rejects_header(name, out)
    }
}

impl<B, T: Header> FromRequest<B> for TypedHeader<T> {
    type Rejection = TypedHeaderRejection;

    open spec fn extracts(
        before: RequestParts<B>,
        after: RequestParts<B>,
        out: Result<Self, Self::Rejection>,
    ) -> bool {
        &&& after == before
        &&& match before.headers {
            Some(headers) => exists|name: Seq<char>|
                T::names(name) && #[trigger] header_outcome(header_values(headers), name, out),
            None => out is Err && out->Err_0 is HeadersAlreadyExtracted,
        }
    }

    /// Decodes the first value of the header that `T` names; the parts stay
    /// as they are. This fails where the headers were taken out before,
    /// where the request has no such header, and where its value is
    /// malformed.
    fn from_request(req: &mut RequestParts<B>) -> (out: Result<Self, Self::Rejection>) {
        let headers = match req.headers() {
            Some(headers) => headers,
            None => {
                return Err(TypedHeaderRejection::HeadersAlreadyExtracted(HeadersAlreadyExtracted));
            },
        };
        let name = T::name();
        if !is_plain_header_name(name.as_str()) {
            let out = Err(TypedHeaderRejection::InvalidHeader(InvalidHeader { name }));
            assert(header_outcome(header_values(old(req).headers->0), name@, out));
            return out;
        }
        let out = match header_value(headers, name.as_str()) {
            Some(value) => match T::decode(&value) {
                Some(decoded) => Ok(TypedHeader(decoded)),
                None => Err(TypedHeaderRejection::InvalidHeader(InvalidHeader { name })),
            },
            None => Err(TypedHeaderRejection::InvalidHeader(InvalidHeader { name })),
        };
        assert(header_outcome(header_values(old(req).headers->0), name@, out));
        out
    }
}

/// The length of the body, as the `content-length` header gives it.
#[derive(Clone, Copy, Debug, PartialEq, Eq, Structural)]
pub struct ContentLength(pub u64);

/// Whether a byte is an ASCII digit.
pub open spec fn is_digit(byte: u8) -> bool {
    48 <= byte <= 57
}

/// Whether the bytes are one or more ASCII digits.
pub open spec fn is_digits(bytes: Seq<u8>) -> bool {
    bytes.len() > 0 && forall|i: int| 0 <= i < bytes.len() ==> is_digit(#[trigger] bytes[i])
}

/// The number that decimal digits stand for.
pub open spec fn decimal(bytes: Seq<u8>) -> nat
    decreases bytes.len(),
{
    if bytes.len() == 0 {
        0
    } else {
        (decimal(bytes.drop_last()) * 10 + (bytes.last() - 48)) as nat
    }
}

/// The number that the first digits of a text stand for is at most the
/// number that all of them stand for.
pub proof fn lemma_decimal_grows(bytes: Seq<u8>, k: int)
    requires
        is_digits(bytes),
        0 <= k <= bytes.len(),
    ensures
        decimal(bytes.subrange(0, k)) <= decimal(bytes),
    decreases bytes.len() - k,
{
    if k < bytes.len() {
        let longer = bytes.subrange(0, k + 1);
        assert(longer.drop_last() =~= bytes.subrange(0, k));
        assert(is_digit(bytes[k]));
        assert(longer.last() == bytes[k]);
        lemma_decimal_grows(bytes, k + 1);
    } else {
        assert(bytes.subrange(0, k) =~= bytes);
    }
}

impl Header for ContentLength {
    open spec fn names(name: Seq<char>) -> bool {
        name == "content-length"@
    }

    open spec fn decodes(value: Seq<u8>, out: Option<Self>) -> bool {
        out == if is_digits(value) && decimal(value) <= u64::MAX {
            Some(ContentLength(decimal(value) as u64))
        } else {
            None
        }
    }

    fn name() -> (name: String) {
        String::from_str("content-length")
    }

    /// The value as a number: one or more decimal digits that fit in 64
    /// bits. Anything else is malformed.
    fn decode(value: &Vec<u8>) -> (out: Option<Self>) {
        if value.len() == 0 {
            return None;
        }
        let mut acc: u64 = 0;
        let mut i: usize = 0;
        while i < value.len()
            invariant
                i <= value.len(),
                value.len() > 0,
                forall|j: int| 0 <= j < i ==> is_digit(#[trigger] value@[j]),
                acc == decimal(value@.subrange(0, i as int)),
            decreases value.len() - i,
        {
            let byte = value[i];
            if byte < 48 || byte > 57 {
                return None;
            }
            let digit: u64 = (byte - 48) as u64;
            proof {
                let longer = value@.subrange(0, i + 1);
                assert(longer.drop_last() =~= value@.subrange(0, i as int));
                assert(longer.last() == byte);
                assert(decimal(longer) == acc * 10 + digit);
                if is_digits(value@) {
                    lemma_decimal_grows(value@, i + 1);
                }
            }
            if acc > (u64::MAX - digit) / 10 {
                return None;
            }
            acc = acc * 10 + digit;
            i += 1;
        }
        assert(value@.subrange(0, i as int) =~= value@);
        Some(ContentLength(acc))
    }
}

} // verus!
