//! Values that can be turned into a response.

use vstd::prelude::*;
use vstd::string::*;
use vstd::utf8::encode_utf8;
use crate::http_types::{header_values, Response, StatusCode};

verus! {

/// A value that can be turned into a response.
pub trait IntoResponse: Sized {
    /// Whether `res` is a response that this value may be turned into.
    open spec fn response_of(self, res: Response) -> bool {
        true
    }

    fn into_response(self) -> (res: Response)
        ensures
            self.response_of(res),
    ;
}

/// Whether `res` has the given status, no header and the text as its body.
pub open spec fn is_plain(res: Response, code: u16, text: Seq<char>) -> bool {
    &&& res.status.code == code
    &&& res.body@ == encode_utf8(text)
    &&& header_values(res.headers) =~= Map::empty()
}

/// The response with the given status, no header and the text as its body.
pub fn plain_response(status: StatusCode, text: &str) -> (res: Response)
    ensures
        is_plain(res, status.code, text@),
{
    let mut res = Response::empty(status);
    res.body = text.as_bytes_vec();
    res
}

impl IntoResponse for Response {
    open spec fn response_of(self, res: Response) -> bool {
        res == self
    }

    fn into_response(self) -> (res: Response) {
        self
    }
}

impl IntoResponse for &'static str {
    open spec fn response_of(self, res: Response) -> bool {
        is_plain(res, 200, self@)
    }

    /// The text as the body of a 200 response.
    fn into_response(self) -> (res: Response) {
        plain_response(StatusCode::ok(), self)
    }
}

impl IntoResponse for String {
    open spec fn response_of(self, res: Response) -> bool {
        is_plain(res, 200, self@)
    }

    /// The text as the body of a 200 response.
    fn into_response(self) -> (res: Response) {
        plain_response(StatusCode::ok(), self.as_str())
    }
}

impl IntoResponse for core::convert::Infallible {
    /// The response that a broken invariant of the library gets.
    fn into_response(self) -> (res: Response) {
        Response::empty(StatusCode::internal_server_error())
    }

    /// The rejection of an extraction that cannot fail. There is no value of
    /// this type, so no request leads here; the response would be 500 with
    /// no header and an empty body.
    open spec fn response_of(self, res: Response) -> bool {
        res.status.code == 500 && res.body@.len() == 0 && header_values(res.headers)
            =~= Map::empty()
    }
}

impl IntoResponse for StatusCode {
    open spec fn response_of(self, res: Response) -> bool {
        res.status == self && res.body@.len() == 0 && header_values(res.headers) =~= Map::empty()
    }

    /// The status with an empty body.
    fn into_response(self) -> (res: Response) {
        Response::empty(self)
    }
}

} // verus!
