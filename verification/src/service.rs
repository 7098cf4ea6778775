//! The callable that every node of a chain is, and what it hands back.

use vstd::prelude::*;
use crate::http_types::{Method, Request, Response};
use crate::router::empty_router::FromEmptyRouter;

verus! {

/// What a service hands back: a response and, where the service was a
/// terminal empty router, the request it was given.
#[derive(Debug)]
pub struct Reply<B> {
    pub response: Response,
    pub from_empty_router: Option<FromEmptyRouter<B>>,
}

/// Whether `reply` is what a chain gives when nothing in it took the request:
/// an empty body, the request handed back with only its extensions touched,
/// the marker set if it was set before or if `matched` holds, and the status
/// 405 where the marker is set and 404 where it is not.
pub open spec fn turned_down<B>(req: Request<B>, reply: Reply<B>, matched: bool) -> bool {
    &&& reply.response.body@.len() == 0
    &&& reply.from_empty_router is Some
    &&& reply.from_empty_router->0.request.method == req.method
    &&& reply.from_empty_router->0.request.uri == req.uri
    &&& reply.from_empty_router->0.request.version == req.version
    &&& reply.from_empty_router->0.request.headers == req.headers
    &&& reply.from_empty_router->0.request.body == req.body
    &&& reply.from_empty_router->0.request.extensions.no_method_match == marked_after(req, matched)
    &&& reply.response.status.code == if marked_after(req, matched) {
        405u16
    } else {
        404u16
    }
}

/// Whether the request carries the marker once a chain has turned it down:
/// it does if it carried it before, or if a node matched its path.
pub open spec fn marked_after<B>(req: Request<B>, matched: bool) -> bool {
    req.extensions.no_method_match || matched
}

/// A node of a routing chain: it is always ready, takes a request and gives
/// a reply.
pub trait Service<B>: Sized {
    /// What the node needs of its parts to be callable.
    spec fn wf(&self) -> bool;

    /// Whether some handler in this service takes a request with this path
    /// and method.
    spec fn accepts(&self, path: Seq<char>, method: Method) -> bool;

    /// Whether a node that matched this path is left to turn the method down
    /// when no handler takes the request.
    spec fn path_matched(&self, path: Seq<char>) -> bool;

    /// Whether `reply` is a reply that this service may give to `req`.
    spec fn replies(&self, req: Request<B>, reply: Reply<B>) -> bool;

    /// Whether the service can take a request now. A node of a chain does
    /// no work before it is called, so it always can.
    fn poll_ready(&self) -> (ready: bool)
        ensures
            ready,
    {
        true
    }

    fn call(&self, req: Request<B>) -> (reply: Reply<B>)
        requires
            self.wf(),
        ensures
            self.replies(req, reply),
    ;

    /// A request that some handler takes is answered by a handler: the reply
    /// hands no request back.
    proof fn lemma_taken(&self, req: Request<B>, reply: Reply<B>)
        requires
            self.wf(),
            self.replies(req, reply),
        ensures
            self.accepts(req.uri.path@, req.method) ==> reply.from_empty_router is None,
    ;

    /// A request that no handler takes comes back turned down: with 405
    /// where a node matched the path, with 404 where none did.
    proof fn lemma_turned_down(&self, req: Request<B>, reply: Reply<B>)
        requires
            self.wf(),
            self.replies(req, reply),
        ensures
            !self.accepts(req.uri.path@, req.method) ==> turned_down(
                req,
                reply,
                self.path_matched(req.uri.path@),
            ),
    ;
}

/// A service together with the function that turns its errors into
/// responses.
pub struct HandleError<S, F> {
    pub inner: S,
    pub f: F,
}

impl<S, F> HandleError<S, F> {
    pub fn new(inner: S, f: F) -> (wrapped: Self)
        ensures
            wrapped.inner == inner,
            wrapped.f == f,
    {
        HandleError { inner, f }
    }
}

} // verus!
