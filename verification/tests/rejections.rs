use nexus::extract::rejection::{
    BodyAlreadyExtracted, BytesRejection, ContentLengthLimitRejection, ExtensionAlreadyExtracted,
    FailedToBufferBody, FailedToDeserializeQueryString, FromRejection, HeadersAlreadyExtracted,
    InvalidFormContentType, InvalidJsonBody, InvalidPathParam, InvalidUtf8, JsonRejection,
    LengthRequired, MissingExtension, MissingJsonContentType, MissingRouteParams,
    PathParamsRejection, PayloadTooLarge, QueryRejection, RequestAlreadyExtracted,
    StringRejection,
};
use nexus::http_types::{Response, StatusCode};
use nexus::response::{plain_response, IntoResponse};

fn check(res: Response, status: u16, body: &str) {
    assert_eq!(res.status.as_u16(), status);
    assert_eq!(String::from_utf8(res.body).unwrap(), body);
    assert!(res.headers.is_empty());
}

#[test]
fn already_extracted_rejections_are_server_errors() {
    check(ExtensionAlreadyExtracted.into_response(), 500, "Extensions taken by other extractor");
    check(HeadersAlreadyExtracted.into_response(), 500, "Headers taken by other extractor");
    check(
        BodyAlreadyExtracted.into_response(),
        500,
        "Cannot have two request body extractors for a single handler",
    );
    check(
        MissingRouteParams.into_response(),
        500,
        "No url params found or matched the route. This is a bug in nexus,please open the issue",
    );
    check(MissingExtension("e".to_string()).into_response(), 500, "Missing request extension");
}

#[test]
fn malformed_input_rejections_are_bad_requests() {
    check(
        InvalidJsonBody("e".to_string()).into_response(),
        400,
        "Filed to parse the request body as JSON",
    );
    check(
        MissingJsonContentType.into_response(),
        400,
        "Expected request with `Content-Type:application/json`",
    );
    check(
        FailedToBufferBody("e".to_string()).into_response(),
        400,
        "Failed to buffer the request body",
    );
    check(
        InvalidUtf8("e".to_string()).into_response(),
        400,
        "Request body didn't contain valid UTF-8",
    );
    check(
        InvalidFormContentType.into_response(),
        400,
        "From requests must have `Content-Type:x-www-from-urlencoded`",
    );
}

#[test]
fn length_rejections_have_their_own_status() {
    check(PayloadTooLarge.into_response(), 413, "Request payload is too large");
    check(LengthRequired.into_response(), 411, "Content length header is required");
    assert_eq!(PayloadTooLarge.status().as_u16(), 413);
    assert_eq!(LengthRequired.status().as_u16(), 411);
    assert_eq!(LengthRequired.message(), "Content length header is required");
}

#[test]
fn invalid_path_param_names_the_error() {
    let rejection = InvalidPathParam::new("not a number".to_string());
    assert_eq!(rejection.message(), "Invalid url param. not a number");
    check(rejection.into_response(), 400, "Invalid url param. not a number");
}

#[test]
fn failed_query_names_type_and_error() {
    let rejection = FailedToDeserializeQueryString::new("missing field `page`".to_string(), "Pagination");
    assert_eq!(
        rejection.message(),
        "Failed to deserialize query string, Expected something of type `Pagination`, Error: missing field `page`"
    );
    check(
        rejection.into_response(),
        400,
        "Failed to deserialize query string, Expected something of type `Pagination`, Error: missing field `page`",
    );
}

#[test]
fn composite_rejections_answer_as_their_inner_rejection() {
    check(
        QueryRejection::FailedToDeserializeQueryString(FailedToDeserializeQueryString::new(
            "e".to_string(),
            "T",
        ))
        .into_response(),
        400,
        "Failed to deserialize query string, Expected something of type `T`, Error: e",
    );
    check(
        FromRejection::InvalidFormContentType(InvalidFormContentType).into_response(),
        400,
        "From requests must have `Content-Type:x-www-from-urlencoded`",
    );
    check(
        FromRejection::BodyAlreadyExtracted(BodyAlreadyExtracted).into_response(),
        500,
        "Cannot have two request body extractors for a single handler",
    );
    check(
        FromRejection::HeadersAlreadyExtracted(HeadersAlreadyExtracted).into_response(),
        500,
        "Headers taken by other extractor",
    );
    check(
        FromRejection::FailedToBufferBody(FailedToBufferBody("e".to_string())).into_response(),
        400,
        "Failed to buffer the request body",
    );
    check(
        JsonRejection::MissingExtension(MissingExtension("e".to_string())).into_response(),
        500,
        "Missing request extension",
    );
    check(
        JsonRejection::ExtensionAlreadyExtracted(ExtensionAlreadyExtracted).into_response(),
        500,
        "Extensions taken by other extractor",
    );
    check(
        PathParamsRejection::InvalidPathParam(InvalidPathParam::new("x".to_string())).into_response(),
        400,
        "Invalid url param. x",
    );
    check(
        PathParamsRejection::MissingRouteParams(MissingRouteParams).into_response(),
        500,
        "No url params found or matched the route. This is a bug in nexus,please open the issue",
    );
    check(
        BytesRejection::FailedToBufferBody(FailedToBufferBody("e".to_string())).into_response(),
        400,
        "Failed to buffer the request body",
    );
    check(
        StringRejection::InvalidUtf8(InvalidUtf8("e".to_string())).into_response(),
        400,
        "Request body didn't contain valid UTF-8",
    );
    check(
        RequestAlreadyExtracted::ExtensionAlreadyExtracted(ExtensionAlreadyExtracted).into_response(),
        500,
        "Extensions taken by other extractor",
    );
}

#[test]
fn content_length_limit_rejection_answers_as_inner() {
    check(
        ContentLengthLimitRejection::<BodyAlreadyExtracted>::PayloadTooLarge(PayloadTooLarge)
            .into_response(),
        413,
        "Request payload is too large",
    );
    check(
        ContentLengthLimitRejection::<BodyAlreadyExtracted>::LengthRequired(LengthRequired)
            .into_response(),
        411,
        "Content length header is required",
    );
    check(
        ContentLengthLimitRejection::<BodyAlreadyExtracted>::HeadersAlreadyExtracted(
            HeadersAlreadyExtracted,
        )
        .into_response(),
        500,
        "Headers taken by other extractor",
    );
    check(
        ContentLengthLimitRejection::Inner(BodyAlreadyExtracted).into_response(),
        500,
        "Cannot have two request body extractors for a single handler",
    );
}

#[test]
fn plain_values_become_responses() {
    check("hello".into_response(), 200, "hello");
    check("héllo".to_string().into_response(), 200, "héllo");
    check(StatusCode::not_found().into_response(), 404, "");
    check(plain_response(StatusCode::bad_request(), "no"), 400, "no");
    let res = plain_response(StatusCode::ok(), "kept").into_response();
    check(res, 200, "kept");
}

#[test]
fn status_codes_have_their_numbers() {
    assert_eq!(StatusCode::ok().as_u16(), 200);
    assert_eq!(StatusCode::bad_request().as_u16(), 400);
    assert_eq!(StatusCode::not_found().as_u16(), 404);
    assert_eq!(StatusCode::method_not_allowed().as_u16(), 405);
    assert_eq!(StatusCode::length_required().as_u16(), 411);
    assert_eq!(StatusCode::payload_too_large().as_u16(), 413);
    assert_eq!(StatusCode::internal_server_error().as_u16(), 500);
}
