//! The ways in which extraction fails. Each is turned into a response with
//! its status and a line of text.

use vstd::prelude::*;
use vstd::string::*;
use crate::http_types::{Response, StatusCode};
use crate::response::{is_plain, plain_response, IntoResponse};

verus! {

/// Rejection with status 500.
#[derive(Clone, Copy, Debug)]
pub struct ExtensionAlreadyExtracted;

impl ExtensionAlreadyExtracted {
    /// The line of text that the response carries.
    pub open spec fn spec_message() -> Seq<char> {
        "Extensions taken by other extractor"@
    }

    pub fn message(&self) -> (text: &'static str)
        ensures
            text@ == Self::spec_message(),
    {
        "Extensions taken by other extractor"
    }

    pub fn status(&self) -> (status: StatusCode)
        ensures
            status.code == 500,
    {
        StatusCode::internal_server_error()
    }
}

impl IntoResponse for ExtensionAlreadyExtracted {
    open spec fn response_of(self, res: Response) -> bool {
        is_plain(res, 500, Self::spec_message())
    }

    fn into_response(self) -> (res: Response) {
        plain_response(self.status(), self.message())
    }
}

/// Rejection with status 500.
#[derive(Clone, Copy, Debug)]
pub struct HeadersAlreadyExtracted;

impl HeadersAlreadyExtracted {
    /// The line of text that the response carries.
    pub open spec fn spec_message() -> Seq<char> {
        "Headers taken by other extractor"@
    }

    pub fn message(&self) -> (text: &'static str)
        ensures
            text@ == Self::spec_message(),
    {
        "Headers taken by other extractor"
    }

    pub fn status(&self) -> (status: StatusCode)
        ensures
            status.code == 500,
    {
        StatusCode::internal_server_error()
    }
}

impl IntoResponse for HeadersAlreadyExtracted {
    open spec fn response_of(self, res: Response) -> bool {
        is_plain(res, 500, Self::spec_message())
    }

    fn into_response(self) -> (res: Response) {
        plain_response(self.status(), self.message())
    }
}

/// Rejection with status 400; it carries the text of the error behind it.
#[derive(Debug)]
pub struct InvalidJsonBody(pub String);

impl InvalidJsonBody {
    /// The line of text that the response carries.
    pub open spec fn spec_message() -> Seq<char> {
        "Filed to parse the request body as JSON"@
    }

    pub fn message(&self) -> (text: &'static str)
        ensures
            text@ == Self::spec_message(),
    {
        "Filed to parse the request body as JSON"
    }

    pub fn status(&self) -> (status: StatusCode)
        ensures
            status.code == 400,
    {
        StatusCode::bad_request()
    }
}

impl IntoResponse for InvalidJsonBody {
    open spec fn response_of(self, res: Response) -> bool {
        is_plain(res, 400, Self::spec_message())
    }

    fn into_response(self) -> (res: Response) {
        plain_response(self.status(), self.message())
    }
}

/// Rejection with status 400.
#[derive(Clone, Copy, Debug)]
pub struct MissingJsonContentType;

impl MissingJsonContentType {
    /// The line of text that the response carries.
    pub open spec fn spec_message() -> Seq<char> {
        "Expected request with `Content-Type:application/json`"@
    }

    pub fn message(&self) -> (text: &'static str)
        ensures
            text@ == Self::spec_message(),
    {
        "Expected request with `Content-Type:application/json`"
    }

    pub fn status(&self) -> (status: StatusCode)
        ensures
            status.code == 400,
    {
        StatusCode::bad_request()
    }
}

impl IntoResponse for MissingJsonContentType {
    open spec fn response_of(self, res: Response) -> bool {
        is_plain(res, 400, Self::spec_message())
    }

    fn into_response(self) -> (res: Response) {
        plain_response(self.status(), self.message())
    }
}

/// Rejection with status 500; it carries the text of the error behind it.
#[derive(Debug)]
pub struct MissingExtension(pub String);

impl MissingExtension {
    /// The line of text that the response carries.
    pub open spec fn spec_message() -> Seq<char> {
        "Missing request extension"@
    }

    pub fn message(&self) -> (text: &'static str)
        ensures
            text@ == Self::spec_message(),
    {
        "Missing request extension"
    }

    pub fn status(&self) -> (status: StatusCode)
        ensures
            status.code == 500,
    {
        StatusCode::internal_server_error()
    }
}

impl IntoResponse for MissingExtension {
    open spec fn response_of(self, res: Response) -> bool {
        is_plain(res, 500, Self::spec_message())
    }

    fn into_response(self) -> (res: Response) {
        plain_response(self.status(), self.message())
    }
}

/// Rejection with status 400; it carries the text of the error behind it.
#[derive(Debug)]
pub struct FailedToBufferBody(pub String);

impl FailedToBufferBody {
    /// The line of text that the response carries.
    pub open spec fn spec_message() -> Seq<char> {
        "Failed to buffer the request body"@
    }

    pub fn message(&self) -> (text: &'static str)
        ensures
            text@ == Self::spec_message(),
    {
        "Failed to buffer the request body"
    }

    pub fn status(&self) -> (status: StatusCode)
        ensures
            status.code == 400,
    {
        StatusCode::bad_request()
    }
}

impl IntoResponse for FailedToBufferBody {
    open spec fn response_of(self, res: Response) -> bool {
        is_plain(res, 400, Self::spec_message())
    }

    fn into_response(self) -> (res: Response) {
        plain_response(self.status(), self.message())
    }
}

/// Rejection with status 400; it carries the text of the error behind it.
#[derive(Debug)]
pub struct InvalidUtf8(pub String);

impl InvalidUtf8 {
    /// The line of text that the response carries.
    pub open spec fn spec_message() -> Seq<char> {
        "Request body didn't contain valid UTF-8"@
    }

    pub fn message(&self) -> (text: &'static str)
        ensures
            text@ == Self::spec_message(),
    {
        "Request body didn't contain valid UTF-8"
    }

    pub fn status(&self) -> (status: StatusCode)
        ensures
            status.code == 400,
    {
        StatusCode::bad_request()
    }
}

impl IntoResponse for InvalidUtf8 {
    open spec fn response_of(self, res: Response) -> bool {
        is_plain(res, 400, Self::spec_message())
    }

    fn into_response(self) -> (res: Response) {
        plain_response(self.status(), self.message())
    }
}

/// Rejection with status 413.
#[derive(Clone, Copy, Debug)]
pub struct PayloadTooLarge;

impl PayloadTooLarge {
    /// The line of text that the response carries.
    pub open spec fn spec_message() -> Seq<char> {
        "Request payload is too large"@
    }

    pub fn message(&self) -> (text: &'static str)
        ensures
            text@ == Self::spec_message(),
    {
        "Request payload is too large"
    }

    pub fn status(&self) -> (status: StatusCode)
        ensures
            status.code == 413,
    {
        StatusCode::payload_too_large()
    }
}

impl IntoResponse for PayloadTooLarge {
    open spec fn response_of(self, res: Response) -> bool {
        is_plain(res, 413, Self::spec_message())
    }

    fn into_response(self) -> (res: Response) {
        plain_response(self.status(), self.message())
    }
}

/// Rejection with status 411.
#[derive(Clone, Copy, Debug)]
pub struct LengthRequired;

impl LengthRequired {
    /// The line of text that the response carries.
    pub open spec fn spec_message() -> Seq<char> {
        "Content length header is required"@
    }

    pub fn message(&self) -> (text: &'static str)
        ensures
            text@ == Self::spec_message(),
    {
        "Content length header is required"
    }

    pub fn status(&self) -> (status: StatusCode)
        ensures
            status.code == 411,
    {
        StatusCode::length_required()
    }
}

impl IntoResponse for LengthRequired {
    open spec fn response_of(self, res: Response) -> bool {
        is_plain(res, 411, Self::spec_message())
    }

    fn into_response(self) -> (res: Response) {
        plain_response(self.status(), self.message())
    }
}

/// Rejection with status 500.
#[derive(Clone, Copy, Debug)]
pub struct MissingRouteParams;

impl MissingRouteParams {
    /// The line of text that the response carries.
    pub open spec fn spec_message() -> Seq<char> {
        "No url params found or matched the route. This is a bug in nexus,please open the issue"@
    }

    pub fn message(&self) -> (text: &'static str)
        ensures
            text@ == Self::spec_message(),
    {
        "No url params found or matched the route. This is a bug in nexus,please open the issue"
    }

    pub fn status(&self) -> (status: StatusCode)
        ensures
            status.code == 500,
    {
        StatusCode::internal_server_error()
    }
}

impl IntoResponse for MissingRouteParams {
    open spec fn response_of(self, res: Response) -> bool {
        is_plain(res, 500, Self::spec_message())
    }

    fn into_response(self) -> (res: Response) {
        plain_response(self.status(), self.message())
    }
}

/// Rejection with status 500.
#[derive(Clone, Copy, Debug)]
pub struct BodyAlreadyExtracted;

impl BodyAlreadyExtracted {
    /// The line of text that the response carries.
    pub open spec fn spec_message() -> Seq<char> {
        "Cannot have two request body extractors for a single handler"@
    }

    pub fn message(&self) -> (text: &'static str)
        ensures
            text@ == Self::spec_message(),
    {
        "Cannot have two request body extractors for a single handler"
    }

    pub fn status(&self) -> (status: StatusCode)
        ensures
            status.code == 500,
    {
        StatusCode::internal_server_error()
    }
}

impl IntoResponse for BodyAlreadyExtracted {
    open spec fn response_of(self, res: Response) -> bool {
        is_plain(res, 500, Self::spec_message())
    }

    fn into_response(self) -> (res: Response) {
        plain_response(self.status(), self.message())
    }
}

/// Rejection with status 400.
#[derive(Clone, Copy, Debug)]
pub struct InvalidFormContentType;

impl InvalidFormContentType {
    /// The line of text that the response carries.
    pub open spec fn spec_message() -> Seq<char> {
        "From requests must have `Content-Type:x-www-from-urlencoded`"@
    }

    pub fn message(&self) -> (text: &'static str)
        ensures
            text@ == Self::spec_message(),
    {
        "From requests must have `Content-Type:x-www-from-urlencoded`"
    }

    pub fn status(&self) -> (status: StatusCode)
        ensures
            status.code == 400,
    {
        StatusCode::bad_request()
    }
}

impl IntoResponse for InvalidFormContentType {
    open spec fn response_of(self, res: Response) -> bool {
        is_plain(res, 400, Self::spec_message())
    }

    fn into_response(self) -> (res: Response) {
        plain_response(self.status(), self.message())
    }
}

/// A path parameter that could not be read as the type asked for.
#[derive(Debug)]
pub struct InvalidPathParam(pub String);

impl InvalidPathParam {
    pub fn new(err: String) -> (rejection: Self)
        ensures
            rejection.0 == err,
    {
        InvalidPathParam(err)
    }

    /// The line of text that the response carries.
    pub open spec fn spec_message(&self) -> Seq<char> {
        "Invalid url param. "@ + self.0@
    }

    pub fn message(&self) -> (text: String)
        ensures
            text@ == self.spec_message(),
    {
        String::from_str("Invalid url param. ").concat(self.0.as_str())
    }
}

impl IntoResponse for InvalidPathParam {
    open spec fn response_of(self, res: Response) -> bool {
        is_plain(res, 400, self.spec_message())
    }

    fn into_response(self) -> (res: Response) {
        let text = self.message();
        plain_response(StatusCode::bad_request(), text.as_str())
    }
}

/// A query string that could not be decoded into the type asked for.
#[derive(Debug)]
pub struct FailedToDeserializeQueryString {
    pub error: String,
    pub expected: String,
}

impl FailedToDeserializeQueryString {
    /// The rejection for a decoding error, given as its text, and the name of
    /// the type that was asked for.
    pub fn new(error: String, expected: &str) -> (rejection: Self)
        ensures
            rejection.error == error,
            rejection.expected@ == expected@,
    {
        FailedToDeserializeQueryString { error, expected: String::from_str(expected) }
    }

    /// The line of text that the response carries.
    pub open spec fn spec_message(&self) -> Seq<char> {
        "Failed to deserialize query string, Expected something of type `"@ + self.expected@
            + "`, Error: "@ + self.error@
    }

    pub fn message(&self) -> (text: String)
        ensures
            text@ == self.spec_message(),
    {
        String::from_str("Failed to deserialize query string, Expected something of type `").concat(
            self.expected.as_str(),
        ).concat("`, Error: ").concat(self.error.as_str())
    }
}

impl IntoResponse for FailedToDeserializeQueryString {
    open spec fn response_of(self, res: Response) -> bool {
        is_plain(res, 400, self.spec_message())
    }

    fn into_response(self) -> (res: Response) {
        let text = self.message();
        plain_response(StatusCode::bad_request(), text.as_str())
    }
}

/// Why a query string could not be extracted.
#[derive(Debug)]
pub enum QueryRejection {
    FailedToDeserializeQueryString(FailedToDeserializeQueryString),
}

impl IntoResponse for QueryRejection {
    open spec fn response_of(self, res: Response) -> bool {
        match self {
            QueryRejection::FailedToDeserializeQueryString(inner) => inner.response_of(res),
        }
    }

    /// The response of the rejection inside.
    fn into_response(self) -> (res: Response) {
        match self {
            QueryRejection::FailedToDeserializeQueryString(inner) => inner.into_response(),
        }
    }
}

/// Why a form could not be extracted.
#[derive(Debug)]
pub enum FromRejection {
    InvalidFormContentType(InvalidFormContentType),
    FailedToDeserializeQueryString(FailedToDeserializeQueryString),
    FailedToBufferBody(FailedToBufferBody),
    BodyAlreadyExtracted(BodyAlreadyExtracted),
    HeadersAlreadyExtracted(HeadersAlreadyExtracted),
}

impl IntoResponse for FromRejection {
    open spec fn response_of(self, res: Response) -> bool {
        match self {
            FromRejection::InvalidFormContentType(inner) => inner.response_of(res),
            FromRejection::FailedToDeserializeQueryString(inner) => inner.response_of(res),
            FromRejection::FailedToBufferBody(inner) => inner.response_of(res),
            FromRejection::BodyAlreadyExtracted(inner) => inner.response_of(res),
            FromRejection::HeadersAlreadyExtracted(inner) => inner.response_of(res),
        }
    }

    /// The response of the rejection inside.
    fn into_response(self) -> (res: Response) {
        match self {
            FromRejection::InvalidFormContentType(inner) => inner.into_response(),
            FromRejection::FailedToDeserializeQueryString(inner) => inner.into_response(),
            FromRejection::FailedToBufferBody(inner) => inner.into_response(),
            FromRejection::BodyAlreadyExtracted(inner) => inner.into_response(),
            FromRejection::HeadersAlreadyExtracted(inner) => inner.into_response(),
        }
    }
}

/// Why a JSON body could not be extracted.
#[derive(Debug)]
pub enum JsonRejection {
    MissingExtension(MissingExtension),
    ExtensionAlreadyExtracted(ExtensionAlreadyExtracted),
}

impl IntoResponse for JsonRejection {
    open spec fn response_of(self, res: Response) -> bool {
        match self {
            JsonRejection::MissingExtension(inner) => inner.response_of(res),
            JsonRejection::ExtensionAlreadyExtracted(inner) => inner.response_of(res),
        }
    }

    /// The response of the rejection inside.
    fn into_response(self) -> (res: Response) {
        match self {
            JsonRejection::MissingExtension(inner) => inner.into_response(),
            JsonRejection::ExtensionAlreadyExtracted(inner) => inner.into_response(),
        }
    }
}

/// Why path parameters could not be extracted.
#[derive(Debug)]
pub enum PathParamsRejection {
    InvalidPathParam(InvalidPathParam),
    MissingRouteParams(MissingRouteParams),
}

impl IntoResponse for PathParamsRejection {
    open spec fn response_of(self, res: Response) -> bool {
        match self {
            PathParamsRejection::InvalidPathParam(inner) => inner.response_of(res),
            PathParamsRejection::MissingRouteParams(inner) => inner.response_of(res),
        }
    }

    /// The response of the rejection inside.
    fn into_response(self) -> (res: Response) {
        match self {
            PathParamsRejection::InvalidPathParam(inner) => inner.into_response(),
            PathParamsRejection::MissingRouteParams(inner) => inner.into_response(),
        }
    }
}

/// Why the bytes of a body could not be extracted.
#[derive(Debug)]
pub enum BytesRejection {
    BodyAlreadyExtracted(BodyAlreadyExtracted),
    FailedToBufferBody(FailedToBufferBody),
}

impl IntoResponse for BytesRejection {
    open spec fn response_of(self, res: Response) -> bool {
        match self {
            BytesRejection::BodyAlreadyExtracted(inner) => inner.response_of(res),
            BytesRejection::FailedToBufferBody(inner) => inner.response_of(res),
        }
    }

    /// The response of the rejection inside.
    fn into_response(self) -> (res: Response) {
        match self {
            BytesRejection::BodyAlreadyExtracted(inner) => inner.into_response(),
            BytesRejection::FailedToBufferBody(inner) => inner.into_response(),
        }
    }
}

/// Why the text of a body could not be extracted.
#[derive(Debug)]
pub enum StringRejection {
    BodyAlreadyExtracted(BodyAlreadyExtracted),
    FailedToBufferBody(FailedToBufferBody),
    InvalidUtf8(InvalidUtf8),
}

impl IntoResponse for StringRejection {
    open spec fn response_of(self, res: Response) -> bool {
        match self {
            StringRejection::BodyAlreadyExtracted(inner) => inner.response_of(res),
            StringRejection::FailedToBufferBody(inner) => inner.response_of(res),
            StringRejection::InvalidUtf8(inner) => inner.response_of(res),
        }
    }

    /// The response of the rejection inside.
    fn into_response(self) -> (res: Response) {
        match self {
            StringRejection::BodyAlreadyExtracted(inner) => inner.into_response(),
            StringRejection::FailedToBufferBody(inner) => inner.into_response(),
            StringRejection::InvalidUtf8(inner) => inner.into_response(),
        }
    }
}

/// Why the whole request could not be put together again.
#[derive(Debug)]
pub enum RequestAlreadyExtracted {
    BodyAlreadyExtracted(BodyAlreadyExtracted),
    HeadersAlreadyExtracted(HeadersAlreadyExtracted),
    ExtensionAlreadyExtracted(ExtensionAlreadyExtracted),
}

impl IntoResponse for RequestAlreadyExtracted {
    open spec fn response_of(self, res: Response) -> bool {
        match self {
            RequestAlreadyExtracted::BodyAlreadyExtracted(inner) => inner.response_of(res),
            RequestAlreadyExtracted::HeadersAlreadyExtracted(inner) => inner.response_of(res),
            RequestAlreadyExtracted::ExtensionAlreadyExtracted(inner) => inner.response_of(res),
        }
    }

    /// The response of the rejection inside.
    fn into_response(self) -> (res: Response) {
        match self {
            RequestAlreadyExtracted::BodyAlreadyExtracted(inner) => inner.into_response(),
            RequestAlreadyExtracted::HeadersAlreadyExtracted(inner) => inner.into_response(),
            RequestAlreadyExtracted::ExtensionAlreadyExtracted(inner) => inner.into_response(),
        }
    }
}

/// Why a body under a length limit could not be extracted: the limit's own
/// reasons, or the reason of the extractor inside.
#[derive(Debug)]
#[non_exhaustive]
pub enum ContentLengthLimitRejection<T> {
    PayloadTooLarge(PayloadTooLarge),
    LengthRequired(LengthRequired),
    HeadersAlreadyExtracted(HeadersAlreadyExtracted),
    Inner(T),
}

impl<T: IntoResponse> IntoResponse for ContentLengthLimitRejection<T> {
    open spec fn response_of(self, res: Response) -> bool {
        match self {
            ContentLengthLimitRejection::PayloadTooLarge(inner) => inner.response_of(res),
            ContentLengthLimitRejection::LengthRequired(inner) => inner.response_of(res),
            ContentLengthLimitRejection::HeadersAlreadyExtracted(inner) => inner.response_of(res),
            ContentLengthLimitRejection::Inner(inner) => inner.response_of(res),
        }
    }

    /// The response of the rejection inside.
    fn into_response(self) -> (res: Response) {
        match self {
            ContentLengthLimitRejection::PayloadTooLarge(inner) => inner.into_response(),
            ContentLengthLimitRejection::LengthRequired(inner) => inner.into_response(),
            ContentLengthLimitRejection::HeadersAlreadyExtracted(inner) => inner.into_response(),
            ContentLengthLimitRejection::Inner(inner) => inner.into_response(),
        }
    }
}

} // verus!
