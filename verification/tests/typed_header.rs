use nexus::extract::builtin::query::Query;
use nexus::extract::builtin::typed_header::{
    ContentLength, Header, TypedHeader, TypedHeaderRejection,
};
use nexus::extract::{FromRequest, RequestParts};
use nexus::handler::get;
use nexus::http_types::{is_plain_header_name, Extensions, Method, Request, Uri, Version};
use nexus::response::IntoResponse;
use nexus::router::Router;
use nexus::service::Service;

#[derive(Debug, PartialEq)]
struct UserAgent(String);

impl Header for UserAgent {
    fn name() -> String {
        "user-agent".to_string()
    }

    fn decode(value: &Vec<u8>) -> Option<Self> {
        String::from_utf8(value.clone()).ok().map(UserAgent)
    }
}

#[derive(Debug)]
struct OddName;

impl Header for OddName {
    fn name() -> String {
        "User Agent".to_string()
    }

    fn decode(_value: &Vec<u8>) -> Option<Self> {
        Some(OddName)
    }
}

fn request_with_agent(value: Option<&[u8]>) -> Request<()> {
    let mut headers = http::HeaderMap::new();
    headers.insert("accept", http::HeaderValue::from_static("*/*"));
    if let Some(value) = value {
        headers.insert(http::header::USER_AGENT, http::HeaderValue::from_bytes(value).unwrap());
        headers.append(http::header::USER_AGENT, http::HeaderValue::from_static("second"));
    }
    Request {
        method: Method::Get,
        uri: Uri { path: "/".to_string(), query: None },
        version: Version::Http11,
        headers,
        extensions: Extensions::new(),
        body: (),
    }
}

#[test]
fn typed_header_decodes_first_value() {
    let mut parts = RequestParts::new(request_with_agent(Some(b"curl/8.0")));
    let TypedHeader(agent) = TypedHeader::<UserAgent>::from_request(&mut parts).unwrap();
    assert_eq!(agent, UserAgent("curl/8.0".to_string()));
    assert_eq!(parts.headers().unwrap().len(), 3);
}

#[test]
fn typed_header_absent_is_rejected() {
    let mut parts = RequestParts::new(request_with_agent(None));
    match TypedHeader::<UserAgent>::from_request(&mut parts) {
        Err(TypedHeaderRejection::InvalidHeader(rejection)) => {
            assert_eq!(rejection.name, "user-agent");
            assert_eq!(rejection.message(), "invalid HTTP header (user-agent)");
            let res = TypedHeaderRejection::InvalidHeader(rejection).into_response();
            assert_eq!(res.status.as_u16(), 400);
            assert_eq!(res.body, b"invalid HTTP header (user-agent)".to_vec());
        },
        _ => panic!("an absent header is rejected"),
    }
}

#[test]
fn typed_header_malformed_is_rejected() {
    let mut parts = RequestParts::new(request_with_agent(Some(b"\xff\xfe")));
    match TypedHeader::<UserAgent>::from_request(&mut parts) {
        Err(TypedHeaderRejection::InvalidHeader(rejection)) => {
            assert_eq!(rejection.name, "user-agent")
        },
        _ => panic!("a malformed header is rejected"),
    }
}

#[test]
fn typed_header_needs_headers() {
    let mut parts = RequestParts::new(request_with_agent(Some(b"curl/8.0")));
    parts.take_headers();
    match TypedHeader::<UserAgent>::from_request(&mut parts) {
        Err(TypedHeaderRejection::HeadersAlreadyExtracted(rejection)) => {
            assert_eq!(rejection.into_response().status.as_u16(), 500)
        },
        _ => panic!("the taken headers are reported"),
    }
}

#[test]
fn typed_header_with_odd_name_is_rejected() {
    let mut parts = RequestParts::new(request_with_agent(Some(b"curl/8.0")));
    match TypedHeader::<OddName>::from_request(&mut parts) {
        Err(TypedHeaderRejection::InvalidHeader(rejection)) => {
            assert_eq!(rejection.name, "User Agent")
        },
        _ => panic!("a name that is not in plain form finds nothing"),
    }
}

#[test]
fn plain_header_names() {
    assert!(is_plain_header_name("content-type"));
    assert!(is_plain_header_name("x-1"));
    assert!(is_plain_header_name(&"a".repeat(64)));
    assert!(!is_plain_header_name(&"a".repeat(65)));
    assert!(!is_plain_header_name(""));
    assert!(!is_plain_header_name("Content-Type"));
    assert!(!is_plain_header_name("x y"));
    assert!(!is_plain_header_name("x_y"));
    assert!(!is_plain_header_name("é"));
}

#[test]
fn typed_header_handler_end_to_end() {
    let app = Router::new().route("/", get(|agent: TypedHeader<UserAgent>| agent.0 .0));
    let reply = app.call(request_with_agent(Some(b"probe")));
    assert_eq!(reply.response.status.as_u16(), 200);
    assert_eq!(reply.response.body, b"probe".to_vec());
    let reply = app.call(request_with_agent(None));
    assert_eq!(reply.response.status.as_u16(), 400);
}

#[test]
fn chain_is_always_ready() {
    let app = Router::new().route("/", get(|| "ok"));
    assert!(Service::<()>::poll_ready(&app));
    assert!(Service::<()>::poll_ready(&Router::new()));
}

#[test]
fn query_derefs_to_its_value() {
    let query = Query(vec![1u8, 2, 3]);
    assert_eq!(query.len(), 3);
    assert_eq!(*query, vec![1u8, 2, 3]);
    let empty: Query<Vec<u8>> = Query::default();
    assert!(empty.is_empty());
}

#[test]
fn content_length_is_decimal_digits() {
    assert_eq!(ContentLength::name(), "content-length");
    assert_eq!(ContentLength::decode(&b"0".to_vec()), Some(ContentLength(0)));
    assert_eq!(ContentLength::decode(&b"42".to_vec()), Some(ContentLength(42)));
    assert_eq!(ContentLength::decode(&b"007".to_vec()), Some(ContentLength(7)));
    assert_eq!(
        ContentLength::decode(&b"18446744073709551615".to_vec()),
        Some(ContentLength(u64::MAX))
    );
}

#[test]
fn content_length_rejects_what_is_not_a_number() {
    assert_eq!(ContentLength::decode(&b"".to_vec()), None);
    assert_eq!(ContentLength::decode(&b"12a".to_vec()), None);
    assert_eq!(ContentLength::decode(&b"+1".to_vec()), None);
    assert_eq!(ContentLength::decode(&b" 1".to_vec()), None);
    assert_eq!(ContentLength::decode(&b"1.5".to_vec()), None);
    assert_eq!(ContentLength::decode(&b"18446744073709551616".to_vec()), None);
    assert_eq!(ContentLength::decode(&b"99999999999999999999999".to_vec()), None);
}

#[test]
fn content_length_is_extracted_from_the_request() {
    let mut req = request_with_agent(None);
    req.headers.insert(http::header::CONTENT_LENGTH, http::HeaderValue::from_static("1024"));
    let mut parts = RequestParts::new(req);
    let TypedHeader(length) = TypedHeader::<ContentLength>::from_request(&mut parts).unwrap();
    assert_eq!(length, ContentLength(1024));

    let mut parts = RequestParts::new(request_with_agent(None));
    assert!(TypedHeader::<ContentLength>::from_request(&mut parts).is_err());
}
