//! Extractors that take whole parts of the request.

use vstd::prelude::*;
use crate::extract::rejection::{
    BodyAlreadyExtracted,
    ExtensionAlreadyExtracted,
    HeadersAlreadyExtracted,
    RequestAlreadyExtracted,
};
use crate::extract::{FromRequest, RequestParts};
use crate::http_types::Request;

verus! {

/// The body of the request, as it came.
#[derive(Debug)]
pub struct Body<B>(pub B);

impl<B> FromRequest<B> for Request<B> {
    type Rejection = RequestAlreadyExtracted;

    open spec fn extracts(
        before: RequestParts<B>,
        after: RequestParts<B>,
        out: Result<Self, Self::Rejection>,
    ) -> bool {
        &&& after.method == before.method
        &&& after.version == before.version
        &&& after.uri.path@ == before.uri.path@
        &&& after.uri.query.deep_view() == before.uri.query.deep_view()
        &&& after.headers is None
        &&& after.extensions is None
        &&& after.body is None
        &&& if before.body is None {
            out == Err::<Self, Self::Rejection>(
                RequestAlreadyExtracted::BodyAlreadyExtracted(BodyAlreadyExtracted),
            )
        } else if before.headers is None {
            out == Err::<Self, Self::Rejection>(
                RequestAlreadyExtracted::HeadersAlreadyExtracted(HeadersAlreadyExtracted),
            )
        } else if before.extensions is None {
            out == Err::<Self, Self::Rejection>(
                RequestAlreadyExtracted::ExtensionAlreadyExtracted(ExtensionAlreadyExtracted),
            )
        } else {
            &&& out is Ok
            &&& out->Ok_0.method == before.method
            &&& out->Ok_0.version == before.version
            &&& out->Ok_0.uri.path@ == before.uri.path@
            &&& out->Ok_0.uri.query.deep_view() == before.uri.query.deep_view()
            &&& out->Ok_0.headers == before.headers->0
            &&& out->Ok_0.extensions == before.extensions->0
            &&& out->Ok_0.body == before.body->0
        }
    }

    /// The whole request, put together from the parts. The headers, the
    /// extensions and the body leave the parts, whether this succeeds or not;
    /// it fails where one of them was taken out before.
    fn from_request(req: &mut RequestParts<B>) -> (out: Result<Self, Self::Rejection>) {
        let taken = RequestParts {
            method: req.method,
            uri: req.uri.clone(),
            version: req.version,
            headers: req.headers.take(),
            extensions: req.extensions.take(),
            body: req.body.take(),
        };
        taken.try_into_request()
    }
}

impl<B> FromRequest<B> for Body<B> {
    type Rejection = BodyAlreadyExtracted;

    open spec fn extracts(
        before: RequestParts<B>,
        after: RequestParts<B>,
        out: Result<Self, Self::Rejection>,
    ) -> bool {
        &&& after == (RequestParts { body: None, ..before })
        &&& match before.body {
            Some(body) => out is Ok && out->Ok_0.0 == body,
            None => out is Err,
        }
    }

    /// The body, taken out of the parts. This fails where it was taken out
    /// before.
    fn from_request(req: &mut RequestParts<B>) -> (out: Result<Self, Self::Rejection>) {
        match req.take_body() {
            Some(body) => Ok(Body(body)),
            None => Err(BodyAlreadyExtracted),
        }
    }
}

} // verus!
