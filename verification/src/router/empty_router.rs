//! The terminal node of a chain.

use vstd::prelude::*;
use crate::http_types::{header_values, Method, Request, Response, StatusCode};
use crate::router::route::Chain;
use crate::service::{marked_after, Reply, Service};

verus! {

/// The request that an empty router was given, handed back with its reply so
/// that an enclosing route can try its fallback.
#[derive(Debug)]
pub struct FromEmptyRouter<B> {
    pub request: Request<B>,
}

/// The terminal node of a chain: it answers every request with its status,
/// 404 or 405, and an empty body.
#[derive(Clone, Copy, Debug)]
pub struct EmptyRouter {
    status: StatusCode,
}

impl EmptyRouter {
    /// The status this node was made with.
    pub closed spec fn spec_status(&self) -> StatusCode {
        self.status
    }

    /// The terminal node that answers 404.
    pub fn not_found() -> (node: EmptyRouter)
        ensures
            node.spec_status().code == 404,
    {
        EmptyRouter { status: StatusCode::not_found() }
    }

    /// The terminal node that answers 405 and marks the request as one whose
    /// path matched.
    pub fn method_not_allowed() -> (node: EmptyRouter)
        ensures
            node.spec_status().code == 405,
    {
        EmptyRouter { status: StatusCode::method_not_allowed() }
    }

    /// The status this node was made with.
    pub fn status(&self) -> (status: StatusCode)
        ensures
            status == self.spec_status(),
    {
        self.status
    }
}

impl<B> Service<B> for EmptyRouter {
    open spec fn wf(&self) -> bool {
        self.spec_status().code == 404 || self.spec_status().code == 405
    }

    open spec fn accepts(&self, path: Seq<char>, method: Method) -> bool {
        false
    }

    open spec fn path_matched(&self, path: Seq<char>) -> bool {
        self.spec_status().code == 405
    }

    open spec fn replies(&self, req: Request<B>, reply: Reply<B>) -> bool {
        &&& turned_down_by(self.spec_status(), req, reply)
        &&& header_values(reply.response.headers) =~= Map::empty()
    }

    /// Answers with an empty body and hands the request back. A node made
    /// for 405 sets the marker on the request; a node made for 404 answers
    /// 405 instead where it finds the marker set.
    fn call(&self, req: Request<B>) -> (reply: Reply<B>) {
        let mut request = req;
        let mut status = self.status;
        if status.code == 405 {
            request.extensions.no_method_match = true;
        }
        if status.code == 404 && request.extensions.no_method_match {
            status = StatusCode::method_not_allowed();
        }
        Reply {
            response: Response::empty(status),
            from_empty_router: Some(FromEmptyRouter { request }),
        }
    }

    proof fn lemma_taken(&self, req: Request<B>, reply: Reply<B>) {
    }

    proof fn lemma_turned_down(&self, req: Request<B>, reply: Reply<B>) {
    }
}

impl<B> Chain<B> for EmptyRouter {
    open spec fn route_matches(&self, path: Seq<char>) -> bool {
        false
    }

    open spec fn ends_not_found(&self) -> bool {
        self.spec_status().code == 404
    }

    proof fn lemma_no_route(&self, path: Seq<char>, method: Method) {
    }
}

/// What an empty router with the given status replies to a request.
pub open spec fn turned_down_by<B>(status: StatusCode, req: Request<B>, reply: Reply<B>) -> bool {
    &&& reply.response.body@.len() == 0
    &&& reply.from_empty_router is Some
    &&& reply.from_empty_router->0.request.method == req.method
    &&& reply.from_empty_router->0.request.uri == req.uri
    &&& reply.from_empty_router->0.request.version == req.version
    &&& reply.from_empty_router->0.request.headers == req.headers
    &&& reply.from_empty_router->0.request.body == req.body
    &&& reply.from_empty_router->0.request.extensions.url_params == req.extensions.url_params
    &&& reply.from_empty_router->0.request.extensions.no_method_match == marked_after(
        req,
        status.code == 405,
    )
    &&& reply.response.status.code == if status.code == 404 && req.extensions.no_method_match {
        405u16
    } else {
        status.code
    }
}

} // verus!
