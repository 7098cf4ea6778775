//! The two phases of a dispatch at a route.

use vstd::prelude::*;
use crate::http_types::Request;
use crate::service::Reply;

verus! {

/// The phase a dispatch at a route is in.
#[derive(Clone, Copy, Debug, PartialEq, Eq, Structural)]
pub enum RouteFutureInner {
    /// The primary service runs; its fallback has not been used.
    A,
    /// The fallback runs.
    B,
}

/// What a dispatch does next, once the service it ran has replied.
#[derive(Debug)]
pub enum Step<B> {
    /// The reply is final.
    Ready(Reply<B>),
    /// The fallback is to be run with this request.
    Fallback(Request<B>),
}

/// The state of a dispatch at a route. It starts in phase A where the
/// route's pattern matched and in phase B where it did not.
#[derive(Clone, Copy, Debug)]
pub struct RouteFuture {
    pub state: RouteFutureInner,
}

/// What `poll` hands back for a reply, by phase.
pub open spec fn step_of<B>(state: RouteFutureInner, reply: Reply<B>) -> Step<B> {
    match (state, reply.from_empty_router) {
        (RouteFutureInner::A, Some(ext)) => Step::Fallback(ext.request),
        _ => Step::Ready(reply),
    }
}

/// The phase after `poll`, by the phase before it and the reply.
pub open spec fn state_after<B>(state: RouteFutureInner, reply: Reply<B>) -> RouteFutureInner {
    match (state, reply.from_empty_router) {
        (RouteFutureInner::A, None) => RouteFutureInner::A,
        _ => RouteFutureInner::B,
    }
}

impl RouteFuture {
    /// A dispatch whose primary service runs.
    pub fn a() -> (fut: RouteFuture)
        ensures
            fut.state == RouteFutureInner::A,
    {
        RouteFuture { state: RouteFutureInner::A }
    }

    /// A dispatch whose fallback runs.
    pub fn b() -> (fut: RouteFuture)
        ensures
            fut.state == RouteFutureInner::B,
    {
        RouteFuture { state: RouteFutureInner::B }
    }

    /// Takes the reply of the service that ran. In phase A a reply that
    /// comes from an empty router moves the dispatch to phase B and asks for
    /// the fallback, with the request that the empty router handed back;
    /// any other reply is final. In phase B every reply is final.
    pub fn poll<B>(&mut self, reply: Reply<B>) -> (step: Step<B>)
        ensures
            step == step_of(old(self).state, reply),
            final(self).state == state_after(old(self).state, reply),
    {
        match self.state {
            RouteFutureInner::A => {
                let Reply { response, from_empty_router } = reply;
                match from_empty_router {
                    Some(ext) => {
                        self.state = RouteFutureInner::B;
                        Step::Fallback(ext.request)
                    },
                    None => Step::Ready(Reply { response, from_empty_router: None }),
                }
            },
            RouteFutureInner::B => Step::Ready(reply),
        }
    }
}

} // verus!
