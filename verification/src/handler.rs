//! Handlers and the method-gated node that runs them.

pub mod functions;
pub mod into_service;

use core::marker::PhantomData;
use vstd::prelude::*;
use crate::handler::into_service::IntoService;
use crate::http_types::{Method, Request, Response};
use crate::router::empty_router::EmptyRouter;
use crate::router::method_filter::MethodFilter;
use crate::service::{HandleError, Reply, Service};

verus! {

/// Marks the handlers that this library provides.
pub trait HiddenTrait {

}

/// The one type that carries the mark.
pub struct Hidden;

impl HiddenTrait for Hidden {

}

/// Something that takes a whole request and gives a response. `T` tells the
/// kinds of handler apart: for a function it is the tuple of its arguments.
pub trait Handler<B, T>: Sized {
    type Sealed: HiddenTrait;

    /// What the handler needs of its parts to be callable.
    open spec fn wf(&self) -> bool {
        true
    }

    /// Whether `res` is a response that this handler may give to `req`.
    open spec fn responds(&self, req: Request<B>, res: Response) -> bool {
        true
    }

    fn call(&self, req: Request<B>) -> (res: Response)
        requires
            self.wf(),
        ensures
            self.responds(req, res),
    ;

    /// The handler as a service that takes every request.
    fn into_service(self) -> (svc: IntoService<Self, B, T>)
        ensures
            svc.handler == self,
    {
        IntoService::new(self)
    }
}

/// A handler behind a method filter, with the node that is asked when the
/// filter turns the method down.
#[derive(Debug)]
pub struct OnMethod<H, B, T, F> {
    pub method: MethodFilter,
    pub handler: H,
    pub fallback: F,
    pub _marker: PhantomData<(B, T)>,
}

impl<H: Clone, B, T, F: Clone> Clone for OnMethod<H, B, T, F> {
    fn clone(&self) -> (copy: Self)
        ensures
            copy.method == self.method,
            cloned(self.handler, copy.handler),
            cloned(self.fallback, copy.fallback),
    {
        OnMethod {
            method: self.method,
            handler: self.handler.clone(),
            fallback: self.fallback.clone(),
            _marker: PhantomData,
        }
    }
}

/// Routes the methods in `method` to `handler`; every other method is
/// turned down with 405.
pub fn on<H: Handler<B, T>, B, T>(method: MethodFilter, handler: H) -> (node: OnMethod<
    H,
    B,
    T,
    EmptyRouter,
>)
    ensures
        node.method == method,
        node.handler == handler,
        node.fallback.spec_status().code == 405,
{
    OnMethod { method, handler, fallback: EmptyRouter::method_not_allowed(), _marker: PhantomData }
}

/// Routes `GET` and `HEAD` to `handler`.
pub fn get<H: Handler<B, T>, B, T>(handler: H) -> (node: OnMethod<H, B, T, EmptyRouter>)
    ensures
        forall|m: Method| node.method.allows(m) <==> m == Method::Get || m == Method::Head,
        node.handler == handler,
        node.fallback.spec_status().code == 405,
{
    let filter = MethodFilter::get().union(MethodFilter::head());
    on(filter, handler)
}

/// Routes `POST` to `handler`.
pub fn post<H: Handler<B, T>, B, T>(handler: H) -> (node: OnMethod<H, B, T, EmptyRouter>)
    ensures
        forall|m: Method| node.method.allows(m) <==> m == Method::Post,
        node.handler == handler,
        node.fallback.spec_status().code == 405,
{
    let filter = MethodFilter::post();
    on(filter, handler)
}

impl<H, B, T, F> OnMethod<H, B, T, F> {
    /// Routes every standard method to `handler`, ahead of this node.
    pub fn any<H2: Handler<B, T2>, T2>(self, handler: H2) -> (node: OnMethod<H2, B, T2, Self>)
        ensures
            forall|m: Method| node.method.allows(m) <==> m != Method::Extension,
            node.handler == handler,
            node.fallback == self,
    {
        self.on(MethodFilter::all(), handler)
    }

    /// Routes `CONNECT` to `handler`, ahead of this node.
    pub fn connect<H2: Handler<B, T2>, T2>(self, handler: H2) -> (node: OnMethod<H2, B, T2, Self>)
        ensures
            forall|m: Method| node.method.allows(m) <==> m == Method::Connect,
            node.handler == handler,
            node.fallback == self,
    {
        let filter = MethodFilter::connect();
        self.on(filter, handler)
    }

    /// Routes `DELETE` to `handler`, ahead of this node.
    pub fn delete<H2: Handler<B, T2>, T2>(self, handler: H2) -> (node: OnMethod<H2, B, T2, Self>)
        ensures
            forall|m: Method| node.method.allows(m) <==> m == Method::Delete,
            node.handler == handler,
            node.fallback == self,
    {
        let filter = MethodFilter::delete();
        self.on(filter, handler)
    }

    /// Routes `GET` and `HEAD` to `handler`, ahead of this node.
    pub fn get<H2: Handler<B, T2>, T2>(self, handler: H2) -> (node: OnMethod<H2, B, T2, Self>)
        ensures
            forall|m: Method| node.method.allows(m) <==> m == Method::Get || m == Method::Head,
            node.handler == handler,
            node.fallback == self,
    {
        let filter = MethodFilter::get().union(MethodFilter::head());
        self.on(filter, handler)
    }

    /// Routes `HEAD` to `handler`, ahead of this node.
    pub fn head<H2: Handler<B, T2>, T2>(self, handler: H2) -> (node: OnMethod<H2, B, T2, Self>)
        ensures
            forall|m: Method| node.method.allows(m) <==> m == Method::Head,
            node.handler == handler,
            node.fallback == self,
    {
        let filter = MethodFilter::head();
        self.on(filter, handler)
    }

    /// Routes `OPTIONS` to `handler`, ahead of this node.
    pub fn options<H2: Handler<B, T2>, T2>(self, handler: H2) -> (node: OnMethod<H2, B, T2, Self>)
        ensures
            forall|m: Method| node.method.allows(m) <==> m == Method::Options,
            node.handler == handler,
            node.fallback == self,
    {
        let filter = MethodFilter::options();
        self.on(filter, handler)
    }

    /// Routes `PATCH` to `handler`, ahead of this node.
    pub fn patch<H2: Handler<B, T2>, T2>(self, handler: H2) -> (node: OnMethod<H2, B, T2, Self>)
        ensures
            forall|m: Method| node.method.allows(m) <==> m == Method::Patch,
            node.handler == handler,
            node.fallback == self,
    {
        let filter = MethodFilter::patch();
        self.on(filter, handler)
    }

    /// Routes `POST` to `handler`, ahead of this node.
    pub fn post<H2: Handler<B, T2>, T2>(self, handler: H2) -> (node: OnMethod<H2, B, T2, Self>)
        ensures
            forall|m: Method| node.method.allows(m) <==> m == Method::Post,
            node.handler == handler,
            node.fallback == self,
    {
        let filter = MethodFilter::post();
        self.on(filter, handler)
    }

    /// Routes `PUT` to `handler`, ahead of this node.
    pub fn put<H2: Handler<B, T2>, T2>(self, handler: H2) -> (node: OnMethod<H2, B, T2, Self>)
        ensures
            forall|m: Method| node.method.allows(m) <==> m == Method::Put,
            node.handler == handler,
            node.fallback == self,
    {
        let filter = MethodFilter::put();
        self.on(filter, handler)
    }

    /// Routes `TRACE` to `handler`, ahead of this node.
    pub fn trace<H2: Handler<B, T2>, T2>(self, handler: H2) -> (node: OnMethod<H2, B, T2, Self>)
        ensures
            forall|m: Method| node.method.allows(m) <==> m == Method::Trace,
            node.handler == handler,
            node.fallback == self,
    {
        let filter = MethodFilter::trace();
        self.on(filter, handler)
    }

    /// Routes the methods in `method` to `handler`, ahead of this node: this
    /// node is asked only where the new filter turns the method down.
    pub fn on<H2: Handler<B, T2>, T2>(self, method: MethodFilter, handler: H2) -> (node: OnMethod<
        H2,
        B,
        T2,
        Self,
    >)
        ensures
            node.method == method,
            node.handler == handler,
            node.fallback == self,
    {
        OnMethod { method, handler, fallback: self, _marker: PhantomData }
    }
}

impl<H: Handler<B, T>, B, T, F: Service<B>> Service<B> for OnMethod<H, B, T, F> {
    open spec fn wf(&self) -> bool {
        self.handler.wf() && self.fallback.wf()
    }

    open spec fn accepts(&self, path: Seq<char>, method: Method) -> bool {
        self.method.allows(method) || self.fallback.accepts(path, method)
    }

    open spec fn path_matched(&self, path: Seq<char>) -> bool {
        self.fallback.path_matched(path)
    }

    open spec fn replies(&self, req: Request<B>, reply: Reply<B>) -> bool {
        if self.method.allows(req.method) {
            reply.from_empty_router is None && self.handler.responds(req, reply.response)
        } else {
            self.fallback.replies(req, reply)
        }
    }

    /// Runs the handler where the filter lets the request's method through,
    /// and the fallback with the request as it came where it does not.
    fn call(&self, req: Request<B>) -> (reply: Reply<B>) {
        if self.method.matches(&req.method) {
            Reply { response: self.handler.call(req), from_empty_router: None }
        } else {
            self.fallback.call(req)
        }
    }

    proof fn lemma_taken(&self, req: Request<B>, reply: Reply<B>) {
        if !self.method.allows(req.method) {
            self.fallback.lemma_taken(req, reply);
        }
    }

    proof fn lemma_turned_down(&self, req: Request<B>, reply: Reply<B>) {
        if !self.method.allows(req.method) {
            self.fallback.lemma_turned_down(req, reply);
        }
    }
}

/// A service used as a handler: its response is the handler's response.
#[derive(Debug)]
pub struct Layered<S, T> {
    pub svc: S,
    pub _input: PhantomData<T>,
}

impl<S, T> Layered<S, T> {
    pub fn new(svc: S) -> (layered: Self)
        ensures
            layered.svc == svc,
    {
        Layered { svc, _input: PhantomData }
    }

    /// Puts the function that turns the service's errors into responses
    /// round the service.
    pub fn handle_error<F, E>(self, f: F) -> (layered: Layered<HandleError<S, F>, E>)
        ensures
            layered.svc.inner == self.svc,
            layered.svc.f == f,
    {
        Layered::new(HandleError::new(self.svc, f))
    }
}

impl<S: Clone, T> Clone for Layered<S, T> {
    fn clone(&self) -> (copy: Self)
        ensures
            cloned(self.svc, copy.svc),
    {
        Layered::new(self.svc.clone())
    }
}

impl<B, S: Service<B>, T> Handler<B, T> for Layered<S, T> {
    type Sealed = Hidden;

    open spec fn wf(&self) -> bool {
        self.svc.wf()
    }

    open spec fn responds(&self, req: Request<B>, res: Response) -> bool {
        exists|reply: Reply<B>| #[trigger] self.svc.replies(req, reply) && reply.response == res
    }

    /// Runs the service and hands on its response.
    fn call(&self, req: Request<B>) -> (res: Response) {
        let reply = self.svc.call(req);
        reply.response
    }
}

} // verus!
