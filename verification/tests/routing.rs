use nexus::handler::{get, on, post, Handler, Hidden};
use nexus::http_types::{Extensions, Method, Request, Response, StatusCode, Uri, UrlParams, Version};
use nexus::router::empty_router::{EmptyRouter, FromEmptyRouter};
use nexus::router::future::{RouteFuture, RouteFutureInner, Step};
use nexus::router::method_filter::MethodFilter;
use nexus::router::route::{insert_url_params, PathPattern, Route};
use nexus::router::Router;
use nexus::service::{Reply, Service};

fn request(method: Method, path: &str) -> Request<()> {
    Request {
        method,
        uri: Uri { path: path.to_string(), query: None },
        version: Version::Http11,
        headers: http::HeaderMap::new(),
        extensions: Extensions::new(),
        body: (),
    }
}

fn pair(name: &str, value: &str) -> (String, String) {
    (name.to_string(), value.to_string())
}

fn handler_a() -> &'static str {
    "a"
}

fn handler_b() -> &'static str {
    "b"
}

#[derive(Clone)]
struct ShowParams;

impl Handler<(), ShowParams> for ShowParams {
    type Sealed = Hidden;

    fn call(&self, req: Request<()>) -> Response {
        let mut text = String::new();
        if let Some(params) = req.extensions.url_params {
            for (name, value) in params.0 {
                text.push_str(&format!("{}={};", name, value));
            }
        }
        let mut res = Response::empty(StatusCode::ok());
        res.body = text.into_bytes();
        res
    }
}

#[test]
fn two_routes_dispatch_by_path_and_method() {
    let app = Router::new().route("/", get(handler_a)).route("/page", get(handler_b));

    let reply = app.call(request(Method::Get, "/page"));
    assert_eq!(reply.response.status.as_u16(), 200);
    assert_eq!(reply.response.body, b"b".to_vec());

    let reply = app.call(request(Method::Get, "/"));
    assert_eq!(reply.response.status.as_u16(), 200);
    assert_eq!(reply.response.body, b"a".to_vec());

    let reply = app.call(request(Method::Post, "/"));
    assert_eq!(reply.response.status.as_u16(), 405);
    assert!(reply.response.body.is_empty());

    let reply = app.call(request(Method::Get, "/missing"));
    assert_eq!(reply.response.status.as_u16(), 404);
    assert!(reply.response.body.is_empty());
}

#[test]
fn unmatched_path_is_not_found_with_empty_body() {
    let app = Router::new()
        .route("/a", get(handler_a))
        .route("/b", post(handler_b))
        .route("/c/:id", get(handler_a));
    for path in ["/", "/x", "/a/b", "/c", "/c/", "/c/1/2", "/bb"] {
        for method in [Method::Get, Method::Post, Method::Delete, Method::Extension] {
            let reply = app.call(request(method, path));
            assert_eq!(reply.response.status.as_u16(), 404);
            assert!(reply.response.body.is_empty());
            assert!(reply.response.headers.is_empty());
        }
    }
}

#[test]
fn empty_chain_is_not_found() {
    let app = Router::new();
    let reply = app.call(request(Method::Get, "/"));
    assert_eq!(reply.response.status.as_u16(), 404);
    assert!(reply.response.body.is_empty());
    let app = Router::default();
    let reply = app.call(request(Method::Post, "/anything"));
    assert_eq!(reply.response.status.as_u16(), 404);
}

#[test]
fn matched_path_with_other_method_is_not_allowed() {
    let app = Router::new()
        .route("/a", get(handler_a))
        .route("/b", post(handler_b))
        .route("/c/:id", get(handler_a));
    let reply = app.call(request(Method::Post, "/a"));
    assert_eq!(reply.response.status.as_u16(), 405);
    assert!(reply.response.body.is_empty());
    let reply = app.call(request(Method::Get, "/b"));
    assert_eq!(reply.response.status.as_u16(), 405);
    let reply = app.call(request(Method::Delete, "/c/9"));
    assert_eq!(reply.response.status.as_u16(), 405);
    let reply = app.call(request(Method::Extension, "/a"));
    assert_eq!(reply.response.status.as_u16(), 405);
}

#[test]
fn get_route_also_takes_head() {
    let app = Router::new().route("/", get(handler_a));
    let reply = app.call(request(Method::Head, "/"));
    assert_eq!(reply.response.status.as_u16(), 200);
}

#[test]
fn post_route_turns_get_down() {
    let app = Router::new().route("/submit", post(handler_a));
    let reply = app.call(request(Method::Get, "/submit"));
    assert_eq!(reply.response.status.as_u16(), 405);
    let reply = app.call(request(Method::Post, "/submit"));
    assert_eq!(reply.response.status.as_u16(), 200);
}

#[test]
fn route_registered_last_is_asked_first() {
    let app = Router::new().route("/users/:id", get(handler_a)).route("/users/active", get(handler_b));
    let reply = app.call(request(Method::Get, "/users/active"));
    assert_eq!(reply.response.body, b"b".to_vec());
    let reply = app.call(request(Method::Get, "/users/7"));
    assert_eq!(reply.response.body, b"a".to_vec());

    let app = Router::new().route("/users/active", get(handler_b)).route("/users/:id", get(handler_a));
    let reply = app.call(request(Method::Get, "/users/active"));
    assert_eq!(reply.response.body, b"a".to_vec());
}

#[test]
fn same_path_with_two_methods() {
    let app = Router::new().route("/item", get(handler_a)).route("/item", post(handler_b));
    let reply = app.call(request(Method::Get, "/item"));
    assert_eq!(reply.response.status.as_u16(), 200);
    assert_eq!(reply.response.body, b"a".to_vec());
    let reply = app.call(request(Method::Post, "/item"));
    assert_eq!(reply.response.body, b"b".to_vec());
    let reply = app.call(request(Method::Put, "/item"));
    assert_eq!(reply.response.status.as_u16(), 405);
}

#[test]
fn method_chain_on_one_node() {
    let node = get(handler_a).post(handler_b);
    let app = Router::new().route("/", node);
    assert_eq!(app.call(request(Method::Get, "/")).response.body, b"a".to_vec());
    assert_eq!(app.call(request(Method::Post, "/")).response.body, b"b".to_vec());
    assert_eq!(app.call(request(Method::Put, "/")).response.status.as_u16(), 405);
}

#[test]
fn every_chain_method_routes_its_method() {
    let node = on(MethodFilter::empty(), handler_a)
        .connect(|| "connect")
        .delete(|| "delete")
        .get(|| "get")
        .head(|| "head")
        .options(|| "options")
        .patch(|| "patch")
        .post(|| "post")
        .put(|| "put")
        .trace(|| "trace");
    let cases = [
        (Method::Connect, "connect"),
        (Method::Delete, "delete"),
        (Method::Get, "get"),
        (Method::Head, "head"),
        (Method::Options, "options"),
        (Method::Patch, "patch"),
        (Method::Post, "post"),
        (Method::Put, "put"),
        (Method::Trace, "trace"),
    ];
    for (method, text) in cases {
        let reply = node.call(request(method, "/whatever"));
        assert_eq!(reply.response.status.as_u16(), 200);
        assert_eq!(reply.response.body, text.as_bytes().to_vec());
    }
    let reply = node.call(request(Method::Extension, "/whatever"));
    assert_eq!(reply.response.status.as_u16(), 405);
}

#[test]
fn any_takes_every_standard_method() {
    let node = post(handler_a).any(handler_b);
    assert_eq!(node.call(request(Method::Post, "/")).response.body, b"b".to_vec());
    assert_eq!(node.call(request(Method::Trace, "/")).response.body, b"b".to_vec());
    assert!(node.call(request(Method::Extension, "/")).response.body.is_empty());
    assert_eq!(node.call(request(Method::Extension, "/")).response.status.as_u16(), 405);
}

#[test]
fn captured_params_reach_the_handler() {
    let app = Router::new().route("/orgs/:org/repos/:repo", get(ShowParams));
    let reply = app.call(request(Method::Get, "/orgs/acme/repos/anvil"));
    assert_eq!(reply.response.status.as_u16(), 200);
    assert_eq!(reply.response.body, b"org=acme;repo=anvil;".to_vec());
}

#[test]
fn params_of_a_turned_down_route_stay() {
    let app = Router::new().route("/users/:name", get(ShowParams)).route("/users/:id", post(ShowParams));
    let reply = app.call(request(Method::Get, "/users/42"));
    assert_eq!(reply.response.body, b"id=42;name=42;".to_vec());
}

#[test]
fn insert_url_params_appends() {
    let mut req = request(Method::Get, "/");
    insert_url_params(&mut req, vec![pair("a", "1")]);
    assert_eq!(req.extensions.url_params.as_ref().unwrap().0, vec![pair("a", "1")]);
    insert_url_params(&mut req, vec![pair("b", "2"), pair("a", "3")]);
    assert_eq!(
        req.extensions.url_params.as_ref().unwrap().0,
        vec![pair("a", "1"), pair("b", "2"), pair("a", "3")]
    );
    insert_url_params(&mut req, vec![]);
    assert_eq!(req.extensions.url_params.as_ref().unwrap().0.len(), 3);
    assert_eq!(req.uri.path, "/");
    assert!(!req.extensions.no_method_match);
}

#[test]
fn insert_url_params_keeps_existing_empty_list() {
    let mut req = request(Method::Get, "/");
    req.extensions.url_params = Some(UrlParams(vec![]));
    insert_url_params(&mut req, vec![pair("k", "v")]);
    assert_eq!(req.extensions.url_params.unwrap().0, vec![pair("k", "v")]);
}

#[test]
fn empty_router_not_found_hands_request_back() {
    let node = EmptyRouter::not_found();
    assert_eq!(node.status().as_u16(), 404);
    let reply: Reply<()> = node.call(request(Method::Get, "/x"));
    assert_eq!(reply.response.status.as_u16(), 404);
    assert!(reply.response.body.is_empty());
    let back = reply.from_empty_router.unwrap().request;
    assert_eq!(back.uri.path, "/x");
    assert_eq!(back.method, Method::Get);
    assert!(!back.extensions.no_method_match);
}

#[test]
fn empty_router_method_not_allowed_marks_request() {
    let node = EmptyRouter::method_not_allowed();
    assert_eq!(node.status().as_u16(), 405);
    let reply: Reply<()> = node.call(request(Method::Get, "/x"));
    assert_eq!(reply.response.status.as_u16(), 405);
    assert!(reply.from_empty_router.unwrap().request.extensions.no_method_match);
}

#[test]
fn empty_router_not_found_upgrades_on_marker() {
    let node = EmptyRouter::not_found();
    let mut req = request(Method::Get, "/x");
    req.extensions.no_method_match = true;
    let reply: Reply<()> = node.call(req);
    assert_eq!(reply.response.status.as_u16(), 405);
    let reply: Reply<()> = node.call(request(Method::Get, "/x"));
    assert_eq!(reply.response.status.as_u16(), 404);
}

#[test]
fn route_future_phase_a_forwards_marked_reply() {
    let mut fut = RouteFuture::a();
    let reply = Reply {
        response: Response::empty(StatusCode::not_found()),
        from_empty_router: Some(FromEmptyRouter { request: request(Method::Get, "/back") }),
    };
    match fut.poll(reply) {
        Step::Fallback(req) => assert_eq!(req.uri.path, "/back"),
        Step::Ready(_) => panic!("a marked reply in phase A asks for the fallback"),
    }
    assert_eq!(fut.state, RouteFutureInner::B);
}

#[test]
fn route_future_phase_a_keeps_plain_reply() {
    let mut fut = RouteFuture::a();
    let reply: Reply<()> = Reply { response: Response::empty(StatusCode::ok()), from_empty_router: None };
    match fut.poll(reply) {
        Step::Ready(reply) => assert_eq!(reply.response.status.as_u16(), 200),
        Step::Fallback(_) => panic!("a plain reply is final"),
    }
    assert_eq!(fut.state, RouteFutureInner::A);
}

#[test]
fn route_future_phase_b_is_final() {
    let mut fut = RouteFuture::b();
    let reply = Reply {
        response: Response::empty(StatusCode::not_found()),
        from_empty_router: Some(FromEmptyRouter { request: request(Method::Get, "/back") }),
    };
    match fut.poll(reply) {
        Step::Ready(reply) => {
            assert_eq!(reply.response.status.as_u16(), 404);
            assert!(reply.from_empty_router.is_some());
        },
        Step::Fallback(_) => panic!("every reply in phase B is final"),
    }
    assert_eq!(fut.state, RouteFutureInner::B);
}

#[test]
fn route_node_can_be_built_by_hand() {
    let node = Route {
        pattern: PathPattern::new("/only"),
        svc: get(handler_a),
        fallback: EmptyRouter::not_found(),
    };
    assert_eq!(node.call(request(Method::Get, "/only")).response.status.as_u16(), 200);
    assert_eq!(node.call(request(Method::Get, "/other")).response.status.as_u16(), 404);
    assert_eq!(node.call(request(Method::Put, "/only")).response.status.as_u16(), 405);
}

#[test]
fn wrapped_chains_route_like_the_chain() {
    let app = Router::new().route("/", get(handler_a)).check_infallible();
    assert_eq!(app.call(request(Method::Get, "/")).response.status.as_u16(), 200);
    assert_eq!(app.call(request(Method::Get, "/no")).response.status.as_u16(), 404);

    let app = Router::new().route("/", get(handler_a)).layer(|svc| svc);
    assert_eq!(app.call(request(Method::Post, "/")).response.status.as_u16(), 405);

    let app = Router::new().route("/", get(handler_a)).map(|svc| svc);
    assert_eq!(app.call(request(Method::Get, "/")).response.body, b"a".to_vec());
}

#[test]
fn make_service_hands_out_the_chain() {
    let factory = Router::new().route("/", get(handler_a)).into_make_service();
    let reply = factory.service().call(request(Method::Get, "/"));
    assert_eq!(reply.response.status.as_u16(), 200);
    let copy = Router::new().into_make_service().make_service();
    assert_eq!(copy.call(request(Method::Get, "/")).response.status.as_u16(), 404);
}

#[test]
fn handle_error_keeps_chain_and_function() {
    let app = Router::new().handle_error(|code: u16| code + 1);
    assert_eq!(app.svc.inner.status().as_u16(), 404);
    assert_eq!((app.svc.f)(1), 2);
}

#[test]
fn copies_route_like_the_chain() {
    let app = Router::new().route("/users/:id", get(ShowParams)).route("/", post(handler_a));
    let copy = app.clone();
    for (method, path) in [
        (Method::Get, "/users/5"),
        (Method::Post, "/users/5"),
        (Method::Post, "/"),
        (Method::Get, "/"),
        (Method::Get, "/none"),
    ] {
        let first = app.call(request(method, path));
        let second = copy.call(request(method, path));
        assert_eq!(first.response.status, second.response.status);
        assert_eq!(first.response.body, second.response.body);
    }
    let pattern = PathPattern::new("/a/:b");
    let shared = pattern.clone();
    assert_eq!(
        pattern.full_match(&request(Method::Get, "/a/1")),
        shared.full_match(&request(Method::Get, "/a/1"))
    );
    assert_eq!(shared.full_match(&request(Method::Get, "/a/1")), Some(vec![pair("b", "1")]));
    let factory = app.into_make_service().clone();
    assert_eq!(factory.make_service().call(request(Method::Post, "/")).response.status.as_u16(), 200);
}
