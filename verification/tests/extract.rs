use std::cell::Cell;
use std::rc::Rc;

use nexus::extract::builtin::query::{query_text, DecodeQuery, Query};
use nexus::extract::rejection::{
    BodyAlreadyExtracted, FailedToDeserializeQueryString, QueryRejection, RequestAlreadyExtracted,
};
use nexus::extract::request_parts::Body;
use nexus::extract::{
    bytes_start_with, has_content_type, is_visible_ascii, take_body, FromRequest, RequestParts,
};
use nexus::handler::{get, Handler};
use nexus::http_types::{Extensions, Method, Request, Response, StatusCode, Uri, UrlParams, Version};
use nexus::response::IntoResponse;
use nexus::router::Router;
use nexus::service::Service;

fn request_with<B>(path: &str, query: Option<&str>, body: B) -> Request<B> {
    Request {
        method: Method::Get,
        uri: Uri { path: path.to_string(), query: query.map(|q| q.to_string()) },
        version: Version::Http11,
        headers: http::HeaderMap::new(),
        extensions: Extensions::new(),
        body,
    }
}

fn with_content_type(value: &[u8]) -> RequestParts<()> {
    let mut req = request_with("/", None, ());
    req.headers.insert(http::header::CONTENT_TYPE, http::HeaderValue::from_bytes(value).unwrap());
    RequestParts::new(req)
}

#[test]
fn parts_round_trip_gives_request_back() {
    let mut req = request_with("/a/b", Some("x=1"), vec![1u8, 2, 3]);
    req.method = Method::Put;
    req.version = Version::Http2;
    req.headers.insert("x-trace", http::HeaderValue::from_static("abc"));
    req.extensions.url_params = Some(UrlParams(vec![("id".to_string(), "7".to_string())]));
    req.extensions.no_method_match = true;

    let back = RequestParts::new(req).try_into_request().unwrap();
    assert_eq!(back.method, Method::Put);
    assert_eq!(back.uri.path, "/a/b");
    assert_eq!(back.uri.query, Some("x=1".to_string()));
    assert_eq!(back.version, Version::Http2);
    assert_eq!(back.headers.len(), 1);
    assert_eq!(back.headers.get("x-trace").unwrap(), "abc");
    assert_eq!(back.extensions.url_params.unwrap().0, vec![("id".to_string(), "7".to_string())]);
    assert!(back.extensions.no_method_match);
    assert_eq!(back.body, vec![1u8, 2, 3]);
}

#[test]
fn new_parts_hold_every_field() {
    let parts = RequestParts::new(request_with("/p", Some("q"), 5u8));
    assert_eq!(*parts.method(), Method::Get);
    assert_eq!(parts.uri().path(), "/p");
    assert_eq!(parts.uri().query(), Some("q"));
    assert_eq!(parts.version(), Version::Http11);
    assert!(parts.headers().is_some());
    assert!(parts.extensions().is_some());
    assert_eq!(parts.body(), Some(&5u8));
}

#[test]
fn each_field_is_taken_once() {
    let mut parts = RequestParts::new(request_with("/", None, 9u8));
    assert!(parts.take_headers().is_some());
    assert!(parts.take_headers().is_none());
    assert!(parts.headers().is_none());
    assert!(parts.headers_mut().is_none());
    assert!(parts.take_extensions().is_some());
    assert!(parts.take_extensions().is_none());
    assert!(parts.extensions().is_none());
    assert!(parts.extensions_mut().is_none());
    assert_eq!(parts.take_body(), Some(9u8));
    assert_eq!(parts.take_body(), None);
    assert!(parts.body().is_none());
    assert!(parts.body_mut().is_none());
}

#[test]
fn mutable_access_changes_the_parts() {
    let mut parts = RequestParts::new(request_with("/", None, 1u8));
    *parts.method_mut() = Method::Delete;
    parts.uri_mut().path = "/changed".to_string();
    *parts.version_mut() = Version::Http10;
    parts.headers_mut().unwrap().insert("x-a", http::HeaderValue::from_static("1"));
    parts.extensions_mut().unwrap().no_method_match = true;
    *parts.body_mut().unwrap() = 2u8;
    let req = parts.try_into_request().unwrap();
    assert_eq!(req.method, Method::Delete);
    assert_eq!(req.uri.path, "/changed");
    assert_eq!(req.version, Version::Http10);
    assert_eq!(req.headers.get("x-a").unwrap(), "1");
    assert!(req.extensions.no_method_match);
    assert_eq!(req.body, 2u8);
}

#[test]
fn reassembly_fails_without_body() {
    let mut parts = RequestParts::new(request_with("/", None, ()));
    parts.take_body();
    match parts.try_into_request() {
        Err(RequestAlreadyExtracted::BodyAlreadyExtracted(_)) => {},
        _ => panic!("the missing body is reported"),
    }
}

#[test]
fn reassembly_fails_without_headers() {
    let mut parts = RequestParts::new(request_with("/", None, ()));
    parts.take_headers();
    match parts.try_into_request() {
        Err(RequestAlreadyExtracted::HeadersAlreadyExtracted(_)) => {},
        _ => panic!("the missing headers are reported"),
    }
}

#[test]
fn reassembly_fails_without_extensions() {
    let mut parts = RequestParts::new(request_with("/", None, ()));
    parts.take_extensions();
    match parts.try_into_request() {
        Err(RequestAlreadyExtracted::ExtensionAlreadyExtracted(_)) => {},
        _ => panic!("the missing extensions are reported"),
    }
}

#[test]
fn reassembly_reports_body_before_headers() {
    let mut parts = RequestParts::new(request_with("/", None, ()));
    parts.take_extensions();
    parts.take_headers();
    parts.take_body();
    match parts.try_into_request() {
        Err(RequestAlreadyExtracted::BodyAlreadyExtracted(_)) => {},
        _ => panic!("the body is looked for first"),
    }
    let mut parts = RequestParts::new(request_with("/", None, ()));
    parts.take_extensions();
    parts.take_headers();
    match parts.try_into_request() {
        Err(RequestAlreadyExtracted::HeadersAlreadyExtracted(_)) => {},
        _ => panic!("the headers are looked for before the extensions"),
    }
}

#[test]
fn whole_request_extractor_empties_the_parts() {
    let mut parts = RequestParts::new(request_with("/whole", Some("a=b"), 3u8));
    let req = Request::<u8>::from_request(&mut parts).unwrap();
    assert_eq!(req.uri.path, "/whole");
    assert_eq!(req.uri.query, Some("a=b".to_string()));
    assert_eq!(req.body, 3u8);
    assert!(parts.headers().is_none());
    assert!(parts.extensions().is_none());
    assert!(parts.body().is_none());
    assert_eq!(parts.uri().path(), "/whole");
    match Request::<u8>::from_request(&mut parts) {
        Err(RequestAlreadyExtracted::BodyAlreadyExtracted(_)) => {},
        _ => panic!("a second whole request cannot be had"),
    }
}

#[test]
fn whole_request_extractor_fails_after_a_take() {
    let mut parts = RequestParts::new(request_with("/", None, 3u8));
    parts.take_headers();
    match Request::<u8>::from_request(&mut parts) {
        Err(RequestAlreadyExtracted::HeadersAlreadyExtracted(_)) => {},
        _ => panic!("the taken headers are reported"),
    }
    assert!(parts.body().is_none());
}

#[test]
fn body_extractor_takes_the_body() {
    let mut parts = RequestParts::new(request_with("/", None, "payload".to_string()));
    let Body(body) = Body::<String>::from_request(&mut parts).unwrap();
    assert_eq!(body, "payload");
    assert!(Body::<String>::from_request(&mut parts).is_err());
    assert!(parts.headers().is_some());
}

#[test]
fn take_body_fails_the_second_time() {
    let mut parts = RequestParts::new(request_with("/", None, 11u32));
    assert_eq!(take_body(&mut parts).unwrap(), 11);
    assert!(take_body(&mut parts).is_err());
}

#[test]
fn result_extractor_never_fails() {
    let mut parts = RequestParts::new(request_with("/", None, 1u8));
    let first = Result::<Body<u8>, BodyAlreadyExtracted>::from_request(&mut parts);
    assert!(matches!(first, Ok(Ok(Body(1)))));
    let second = Result::<Body<u8>, BodyAlreadyExtracted>::from_request(&mut parts);
    assert!(matches!(second, Ok(Err(BodyAlreadyExtracted))));
}

#[test]
fn content_type_prefix_is_recognised() {
    let parts = with_content_type(b"application/json; charset=utf-8");
    assert_eq!(has_content_type(&parts, "application/json").ok(), Some(true));
    assert_eq!(has_content_type(&parts, "application/x-www-form-urlencoded").ok(), Some(false));
    assert_eq!(has_content_type(&parts, "").ok(), Some(true));
    assert_eq!(has_content_type(&parts, "application/json; charset=utf-8 ").ok(), Some(false));
}

#[test]
fn content_type_absent_is_false() {
    let parts = RequestParts::new(request_with("/", None, ()));
    assert_eq!(has_content_type(&parts, "application/json").ok(), Some(false));
    assert_eq!(has_content_type(&parts, "").ok(), Some(false));
}

#[test]
fn content_type_that_is_not_text_is_false() {
    let parts = with_content_type(b"application/json\xff");
    assert_eq!(has_content_type(&parts, "application/json").ok(), Some(false));
}

#[test]
fn content_type_needs_headers() {
    let mut parts = with_content_type(b"application/json");
    parts.take_headers();
    assert!(has_content_type(&parts, "application/json").is_err());
}

#[test]
fn visible_ascii_bounds() {
    assert!(is_visible_ascii(&vec![]));
    assert!(is_visible_ascii(&vec![32, 126, 9, b'a']));
    assert!(!is_visible_ascii(&vec![b'a', 127]));
    assert!(!is_visible_ascii(&vec![31]));
    assert!(!is_visible_ascii(&vec![b'a', 10]));
    assert!(!is_visible_ascii(&vec![200]));
}

#[test]
fn byte_prefix_check() {
    assert!(bytes_start_with(&b"abcdef".to_vec(), b"abc"));
    assert!(bytes_start_with(&b"abc".to_vec(), b"abc"));
    assert!(bytes_start_with(&b"abc".to_vec(), b""));
    assert!(!bytes_start_with(&b"ab".to_vec(), b"abc"));
    assert!(!bytes_start_with(&b"abd".to_vec(), b"abc"));
}

#[test]
fn query_text_defaults_to_empty() {
    let parts = RequestParts::new(request_with("/page", None, ()));
    assert_eq!(query_text(&parts), "");
    let parts = RequestParts::new(request_with("/page", Some("page=1"), ()));
    assert_eq!(query_text(&parts), "page=1");
}

#[test]
fn query_pairs_are_decoded_in_order() {
    let mut parts = RequestParts::new(request_with("/s", Some("b=2&a=1&b=x%20y&c=d+e"), ()));
    let Query(pairs) = Query::<Vec<(String, String)>>::from_request(&mut parts).unwrap();
    assert_eq!(
        pairs,
        vec![
            ("b".to_string(), "2".to_string()),
            ("a".to_string(), "1".to_string()),
            ("b".to_string(), "x y".to_string()),
            ("c".to_string(), "d e".to_string()),
        ]
    );
    assert!(parts.headers().is_some());
    assert!(parts.body().is_some());
}

#[test]
fn query_pairs_of_missing_query_are_empty() {
    let mut parts = RequestParts::new(request_with("/s", None, ()));
    let Query(pairs) = Query::<Vec<(String, String)>>::from_request(&mut parts).unwrap();
    assert!(pairs.is_empty());
}

#[test]
fn from_decoded_wraps_both_outcomes() {
    let ok = Query::from_decoded(Ok(5u8), "u8").unwrap();
    assert_eq!(ok.into_inner(), 5);
    match Query::<u8>::from_decoded(Err("bad digit".to_string()), "u8") {
        Err(QueryRejection::FailedToDeserializeQueryString(FailedToDeserializeQueryString {
            error,
            expected,
        })) => {
            assert_eq!(error, "bad digit");
            assert_eq!(expected, "u8");
        },
        _ => panic!("a decoding error is a rejection"),
    }
}

#[derive(Debug, PartialEq)]
struct Pagination {
    page: usize,
    per_page: usize,
}

struct PaginationVisitor;

impl<'de> serde::de::Visitor<'de> for PaginationVisitor {
    type Value = Pagination;

    fn expecting(&self, f: &mut std::fmt::Formatter<'_>) -> std::fmt::Result {
        f.write_str("a page and a page size")
    }

    fn visit_map<A: serde::de::MapAccess<'de>>(self, mut map: A) -> Result<Pagination, A::Error> {
        let mut page = None;
        let mut per_page = None;
        while let Some(key) = map.next_key::<String>()? {
            if key == "page" {
                page = Some(map.next_value::<usize>()?);
            } else if key == "per_page" {
                per_page = Some(map.next_value::<usize>()?);
            } else {
                map.next_value::<serde::de::IgnoredAny>()?;
            }
        }
        let page = page.ok_or_else(|| <A::Error as serde::de::Error>::missing_field("page"))?;
        let per_page =
            per_page.ok_or_else(|| <A::Error as serde::de::Error>::missing_field("per_page"))?;
        Ok(Pagination { page, per_page })
    }
}

impl<'de> serde::Deserialize<'de> for Pagination {
    fn deserialize<D: serde::Deserializer<'de>>(deserializer: D) -> Result<Self, D::Error> {
        deserializer.deserialize_map(PaginationVisitor)
    }
}

impl DecodeQuery for Pagination {
    fn decode_query(query: &str) -> Result<Self, String> {
        serde_urlencoded::from_str::<Pagination>(query).map_err(|e| e.to_string())
    }

    fn expected() -> String {
        "Pagination".to_string()
    }
}

fn page_handler(pagination: Query<Pagination>) -> String {
    format!("{}/{}", pagination.0.page, pagination.0.per_page)
}

#[test]
fn query_struct_is_extracted() {
    let mut parts = RequestParts::new(request_with("/page", Some("page=1&per_page=10"), ()));
    let Query(pagination) = Query::<Pagination>::from_request(&mut parts).unwrap();
    assert_eq!(pagination, Pagination { page: 1, per_page: 10 });
}

#[test]
fn query_struct_without_query_is_rejected() {
    let mut parts = RequestParts::new(request_with("/page", None, ()));
    match Query::<Pagination>::from_request(&mut parts) {
        Err(QueryRejection::FailedToDeserializeQueryString(rejection)) => {
            assert_eq!(rejection.expected, "Pagination");
            assert_eq!(rejection.error, "missing field `page`");
            let res = QueryRejection::FailedToDeserializeQueryString(rejection).into_response();
            assert_eq!(res.status.as_u16(), 400);
        },
        _ => panic!("required fields are missing"),
    }
}

#[test]
fn query_handler_end_to_end() {
    let app = Router::new().route("/page", get(page_handler));
    let reply = app.call(request_with("/page", Some("page=1&per_page=10"), ()));
    assert_eq!(reply.response.status.as_u16(), 200);
    assert_eq!(reply.response.body, b"1/10".to_vec());

    let reply = app.call(request_with("/page", None, ()));
    assert_eq!(reply.response.status.as_u16(), 400);
    assert_eq!(
        String::from_utf8(reply.response.body).unwrap(),
        "Failed to deserialize query string, Expected something of type `Pagination`, Error: missing field `page`"
    );

    let reply = app.call(request_with("/page", Some("page=x&per_page=10"), ()));
    assert_eq!(reply.response.status.as_u16(), 400);
}

type Counter = Rc<Cell<u32>>;

struct Teapot(&'static str);

impl IntoResponse for Teapot {
    fn into_response(self) -> Response {
        let mut res = Response::empty(StatusCode { code: 418 });
        res.body = self.0.as_bytes().to_vec();
        res
    }
}

struct AlwaysFailsFirst;

impl FromRequest<Counter> for AlwaysFailsFirst {
    type Rejection = Teapot;

    fn from_request(_req: &mut RequestParts<Counter>) -> Result<Self, Teapot> {
        Err(Teapot("first"))
    }
}

struct CountsAndFails;

impl FromRequest<Counter> for CountsAndFails {
    type Rejection = Teapot;

    fn from_request(req: &mut RequestParts<Counter>) -> Result<Self, Teapot> {
        let counter = req.body().unwrap();
        counter.set(counter.get() + 1);
        Err(Teapot("second"))
    }
}

struct CountsAndPasses;

impl FromRequest<Counter> for CountsAndPasses {
    type Rejection = Teapot;

    fn from_request(req: &mut RequestParts<Counter>) -> Result<Self, Teapot> {
        let counter = req.body().unwrap();
        counter.set(counter.get() + 1);
        Ok(CountsAndPasses)
    }
}

fn never_reached(_a: AlwaysFailsFirst, _b: CountsAndFails) -> &'static str {
    "handler ran"
}

fn second_fails(_a: CountsAndPasses, _b: CountsAndFails) -> &'static str {
    "handler ran"
}

fn both_pass(_a: CountsAndPasses, _b: CountsAndPasses) -> &'static str {
    "handler ran"
}

#[test]
fn first_rejection_wins_and_later_extractors_do_not_run() {
    let counter: Counter = Rc::new(Cell::new(0));
    let res = Handler::call(&never_reached, request_with("/", None, counter.clone()));
    assert_eq!(res.status.as_u16(), 418);
    assert_eq!(res.body, b"first".to_vec());
    assert_eq!(counter.get(), 0);
}

#[test]
fn extraction_runs_left_to_right() {
    let counter: Counter = Rc::new(Cell::new(0));
    let res = Handler::call(&second_fails, request_with("/", None, counter.clone()));
    assert_eq!(res.body, b"second".to_vec());
    assert_eq!(counter.get(), 2);

    let counter: Counter = Rc::new(Cell::new(0));
    let res = Handler::call(&both_pass, request_with("/", None, counter.clone()));
    assert_eq!(res.status.as_u16(), 200);
    assert_eq!(res.body, b"handler ran".to_vec());
    assert_eq!(counter.get(), 2);
}
