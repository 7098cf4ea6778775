//! The routing chain: routes wrapped round a terminal empty router.

pub mod empty_router;
pub mod future;
pub mod method_filter;
pub mod route;

use vstd::prelude::*;
use crate::http_types::{Method, Request};
use crate::router::empty_router::EmptyRouter;
use crate::router::route::{parse_template, Chain, PathPattern, Route};
use crate::service::{HandleError, Reply, Service};

verus! {

/// A chain of routes. Each registration wraps the chain built so far, so the
/// route registered last is asked first.
#[derive(Debug)]
pub struct Router<S> {
    pub svc: S,
}

impl<S: Clone> Clone for Router<S> {
    fn clone(&self) -> (copy: Self)
        ensures
            cloned(self.svc, copy.svc),
    {
        Router { svc: self.svc.clone() }
    }
}

impl Router<EmptyRouter> {
    /// The chain without routes: it answers every request with 404.
    pub fn new() -> (router: Self)
        ensures
            router.svc.spec_status().code == 404,
    {
        Router { svc: EmptyRouter::not_found() }
    }
}

impl Default for Router<EmptyRouter> {
    fn default() -> (router: Self)
        ensures
            router.svc.spec_status().code == 404,
    {
        Router::new()
    }
}

impl<S> Router<S> {
    /// Registers `svc` for the paths that the template matches in full. The
    /// chain so far becomes the fallback of the new route.
    pub fn route<T>(self, path: &str, svc: T) -> (router: Router<Route<T, S>>)
        requires
            path@.len() > 0,
            path@[0] == '/',
        ensures
            router.svc.pattern@ == parse_template(path@),
            router.svc.svc == svc,
            router.svc.fallback == self.svc,
    {
        Router { svc: Route { pattern: PathPattern::new(path), svc, fallback: self.svc } }
    }

    /// The chain with `f` applied to its service.
    pub fn map<F, S2>(self, f: F) -> (router: Router<S2>) where F: FnOnce(S) -> S2
        requires
            f.requires((self.svc,)),
        ensures
            f.ensures((self.svc,), router.svc),
    {
        Router { svc: f(self.svc) }
    }

    /// The chain as a factory that hands out one service per connection.
    pub fn into_make_service(self) -> (factory: IntoMakeService<S>)
        ensures
            factory.service == self.svc,
    {
        IntoMakeService::new(self.svc)
    }

    /// Wraps the whole chain in what `layer` makes of it.
    pub fn layer<L, S2>(self, layer: L) -> (router: Router<Layered<S2>>) where L: FnOnce(S) -> S2
        requires
            layer.requires((self.svc,)),
        ensures
            layer.ensures((self.svc,), router.svc.inner),
    {
        Router { svc: Layered::new(layer(self.svc)) }
    }

    /// Puts the function that turns the chain's errors into responses round
    /// the chain.
    pub fn handle_error<F>(self, f: F) -> (router: Router<HandleError<S, F>>)
        ensures
            router.svc.inner == self.svc,
            router.svc.f == f,
    {
        Router { svc: HandleError::new(self.svc, f) }
    }

    /// Marks the chain as one that cannot fail.
    pub fn check_infallible(self) -> (router: Router<CheckInfallible<S>>)
        ensures
            router.svc.0 == self.svc,
    {
        Router { svc: CheckInfallible(self.svc) }
    }
}

impl<B, S: Service<B>> Service<B> for Router<S> {
    open spec fn wf(&self) -> bool {
        self.svc.wf()
    }

    open spec fn accepts(&self, path: Seq<char>, method: Method) -> bool {
        self.svc.accepts(path, method)
    }

    open spec fn path_matched(&self, path: Seq<char>) -> bool {
        self.svc.path_matched(path)
    }

    open spec fn replies(&self, req: Request<B>, reply: Reply<B>) -> bool {
        self.svc.replies(req, reply)
    }

    fn call(&self, req: Request<B>) -> (reply: Reply<B>) {
        self.svc.call(req)
    }

    proof fn lemma_taken(&self, req: Request<B>, reply: Reply<B>) {
        self.svc.lemma_taken(req, reply);
    }

    proof fn lemma_turned_down(&self, req: Request<B>, reply: Reply<B>) {
        self.svc.lemma_turned_down(req, reply);
    }
}

impl<B, S: Chain<B>> Chain<B> for Router<S> {
    open spec fn route_matches(&self, path: Seq<char>) -> bool {
        self.svc.route_matches(path)
    }

    open spec fn ends_not_found(&self) -> bool {
        self.svc.ends_not_found()
    }

    proof fn lemma_no_route(&self, path: Seq<char>, method: Method) {
        self.svc.lemma_no_route(path, method);
    }
}

/// A chain inside a layer.
#[derive(Debug)]
pub struct Layered<S> {
    pub inner: S,
}

impl<S: Clone> Clone for Layered<S> {
    fn clone(&self) -> (copy: Self)
        ensures
            cloned(self.inner, copy.inner),
    {
        Layered::new(self.inner.clone())
    }
}

impl<S> Layered<S> {
    pub fn new(inner: S) -> (layered: Self)
        ensures
            layered.inner == inner,
    {
        Layered { inner }
    }
}

impl<B, S: Service<B>> Service<B> for Layered<S> {
    open spec fn wf(&self) -> bool {
        self.inner.wf()
    }

    open spec fn accepts(&self, path: Seq<char>, method: Method) -> bool {
        self.inner.accepts(path, method)
    }

    open spec fn path_matched(&self, path: Seq<char>) -> bool {
        self.inner.path_matched(path)
    }

    open spec fn replies(&self, req: Request<B>, reply: Reply<B>) -> bool {
        self.inner.replies(req, reply)
    }

    fn call(&self, req: Request<B>) -> (reply: Reply<B>) {
        self.inner.call(req)
    }

    proof fn lemma_taken(&self, req: Request<B>, reply: Reply<B>) {
        self.inner.lemma_taken(req, reply);
    }

    proof fn lemma_turned_down(&self, req: Request<B>, reply: Reply<B>) {
        self.inner.lemma_turned_down(req, reply);
    }
}

/// A factory that hands out the chain, one copy per connection.
#[derive(Debug)]
pub struct IntoMakeService<S> {
    pub service: S,
}

impl<S: Clone> Clone for IntoMakeService<S> {
    fn clone(&self) -> (copy: Self)
        ensures
            cloned(self.service, copy.service),
    {
        IntoMakeService { service: self.service.clone() }
    }
}

impl<S> IntoMakeService<S> {
    pub fn new(svc: S) -> (factory: Self)
        ensures
            factory.service == svc,
    {
        IntoMakeService { service: svc }
    }

    /// The chain that the factory hands out.
    pub fn service(&self) -> (svc: &S)
        ensures
            *svc == self.service,
    {
        &self.service
    }

    /// A copy of the chain for one connection.
    pub fn make_service(&self) -> (svc: S) where S: Clone
        ensures
            cloned(self.service, svc),
    {
        self.service.clone()
    }
}

/// A chain that is known not to fail.
#[derive(Debug)]
pub struct CheckInfallible<S>(pub S);

impl<B, S: Service<B>> Service<B> for CheckInfallible<S> {
    open spec fn wf(&self) -> bool {
        self.0.wf()
    }

    open spec fn accepts(&self, path: Seq<char>, method: Method) -> bool {
        self.0.accepts(path, method)
    }

    open spec fn path_matched(&self, path: Seq<char>) -> bool {
        self.0.path_matched(path)
    }

    open spec fn replies(&self, req: Request<B>, reply: Reply<B>) -> bool {
        self.0.replies(req, reply)
    }

    fn call(&self, req: Request<B>) -> (reply: Reply<B>) {
        self.0.call(req)
    }

    proof fn lemma_taken(&self, req: Request<B>, reply: Reply<B>) {
        self.0.lemma_taken(req, reply);
    }

    proof fn lemma_turned_down(&self, req: Request<B>, reply: Reply<B>) {
        self.0.lemma_turned_down(req, reply);
    }
}

/// In a chain that registration built, a request whose path matches no
/// route's pattern is answered with 404 and an empty body.
pub proof fn law_unrouted_path_is_not_found<B, C: Chain<B>>(
    chain: Router<C>,
    req: Request<B>,
    reply: Reply<B>,
)
    requires
        chain.wf(),
        chain.ends_not_found(),
        !req.extensions.no_method_match,
        !chain.route_matches(req.uri.path@),
        chain.replies(req, reply),
    ensures
        reply.response.status.code == 404,
        reply.response.body@.len() == 0,
{
    chain.lemma_no_route(req.uri.path@, req.method);
    chain.lemma_turned_down(req, reply);
}

/// Where a node matched the path of a request but no handler takes its
/// method, the request is answered with 405, not with 404, and an empty body.
pub proof fn law_matched_path_wrong_method_is_not_allowed<B, S: Service<B>>(
    chain: Router<S>,
    req: Request<B>,
    reply: Reply<B>,
)
    requires
        chain.wf(),
        chain.path_matched(req.uri.path@),
        !chain.accepts(req.uri.path@, req.method),
        chain.replies(req, reply),
    ensures
        reply.response.status.code == 405,
        reply.response.body@.len() == 0,
{
    chain.lemma_turned_down(req, reply);
}

} // verus!
