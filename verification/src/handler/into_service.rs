//! A handler as a service.

use core::marker::PhantomData;
use vstd::prelude::*;
use crate::handler::Handler;
use crate::http_types::{Method, Request};
use crate::service::{Reply, Service};

verus! {

/// A handler as a service that takes every request.
#[derive(Debug)]
pub struct IntoService<H, B, T> {
    pub handler: H,
    pub _marker: PhantomData<(B, T)>,
}

impl<H, B, T> IntoService<H, B, T> {
    pub fn new(handler: H) -> (svc: Self)
        ensures
            svc.handler == handler,
    {
        IntoService { handler, _marker: PhantomData }
    }
}

impl<H: Clone, B, T> Clone for IntoService<H, B, T> {
    fn clone(&self) -> (copy: Self)
        ensures
            cloned(self.handler, copy.handler),
    {
        IntoService { handler: self.handler.clone(), _marker: PhantomData }
    }
}

impl<H: Handler<B, T>, B, T> Service<B> for IntoService<H, B, T> {
    open spec fn wf(&self) -> bool {
        self.handler.wf()
    }

    open spec fn accepts(&self, path: Seq<char>, method: Method) -> bool {
        true
    }

    open spec fn path_matched(&self, path: Seq<char>) -> bool {
        true
    }

    open spec fn replies(&self, req: Request<B>, reply: Reply<B>) -> bool {
        reply.from_empty_router is None && self.handler.responds(req, reply.response)
    }

    /// Runs the handler; the reply is final.
    fn call(&self, req: Request<B>) -> (reply: Reply<B>) {
        Reply { response: self.handler.call(req), from_empty_router: None }
    }

    proof fn lemma_taken(&self, req: Request<B>, reply: Reply<B>) {
    }

    proof fn lemma_turned_down(&self, req: Request<B>, reply: Reply<B>) {
    }
}

} // verus!
