//! Functions as handlers: a function of up to sixteen arguments, each of
//! which can be extracted from a request, whose result can be turned into a
//! response.

use vstd::prelude::*;
use crate::extract::{parts_of, FromRequest, RequestParts};
use crate::handler::{Handler, Hidden};
use crate::http_types::{Request, Response};
use crate::response::IntoResponse;

verus! {

/// One step of the extraction of a handler's arguments: `T` is extracted
/// from the parts `before`; where that is rejected, `res` is the response of
/// the rejection and nothing further is extracted; where it succeeds, `next`
/// holds of the parts that are left and of the value.
pub open spec fn extract_then<B, T: FromRequest<B>>(
    before: RequestParts<B>,
    res: Response,
    next: spec_fn(RequestParts<B>, T) -> bool,
) -> bool {
    exists|after: RequestParts<B>, out: Result<T, T::Rejection>|
        #![trigger T::extracts(before, after, out)]
        {
            &&& T::extracts(before, after, out)
            &&& match out {
                Ok(value) => next(after, value),
                Err(rejection) => rejection.response_of(res),
            }
        }
}

impl<B, F, Res> Handler<B, ()> for F where F: Fn() -> Res, Res: IntoResponse {
    type Sealed = Hidden;

    open spec fn wf(&self) -> bool {
        self.requires(())
    }

    open spec fn responds(&self, req: Request<B>, res: Response) -> bool {
        exists|value: Res| #[trigger] self.ensures((), value) && value.response_of(res)
    }

    /// Calls the function and turns what it gives into the response. The
    /// request is not looked at.
    fn call(&self, req: Request<B>) -> (res: Response) {
        let value = self();
        value.into_response()
    }
}

impl<B, F, Res, T1> Handler<B, (T1,)> for F where
    F: Fn(T1) -> Res,
    Res: IntoResponse,
    T1: FromRequest<B>,
{
    type Sealed = Hidden;

    open spec fn wf(&self) -> bool {
        forall|a1: T1| #[trigger] self.requires((a1,))
    }

    open spec fn responds(&self, req: Request<B>, res: Response) -> bool {
        extract_then::<B, T1>(parts_of(req), res, |left1: RequestParts<B>, a1: T1|
            exists|value: Res| #[trigger] self.ensures((a1,), value) && value.response_of(res)
        )
    }

    /// Extracts the arguments from left to right, stops at the first that
    /// is rejected and answers with that rejection; where all are extracted,
    /// calls the function and turns what it gives into the response.
    fn call(&self, req: Request<B>) -> (res: Response) {
        let mut parts = RequestParts::new(req);
        let a1 = match T1::from_request(&mut parts) {
            Ok(value) => value,
            Err(rejection) => {
                return rejection.into_response();
            },
        };
        let value = self(a1);
        value.into_response()
    }
}

impl<B, F, Res, T1, T2> Handler<B, (T1, T2)> for F where
    F: Fn(T1, T2) -> Res,
    Res: IntoResponse,
    T1: FromRequest<B>,
    T2: FromRequest<B>,
{
    type Sealed = Hidden;

    open spec fn wf(&self) -> bool {
        forall|a1: T1, a2: T2| #[trigger] self.requires((a1, a2))
    }

    open spec fn responds(&self, req: Request<B>, res: Response) -> bool {
        extract_then::<B, T1>(parts_of(req), res, |left1: RequestParts<B>, a1: T1|
            extract_then::<B, T2>(left1, res, |left2: RequestParts<B>, a2: T2|
            exists|value: Res| #[trigger] self.ensures((a1, a2), value) && value.response_of(res)
            ))
    }

    /// Extracts the arguments from left to right, stops at the first that
    /// is rejected and answers with that rejection; where all are extracted,
    /// calls the function and turns what it gives into the response.
    fn call(&self, req: Request<B>) -> (res: Response) {
        let mut parts = RequestParts::new(req);
        let a1 = match T1::from_request(&mut parts) {
            Ok(value) => value,
            Err(rejection) => {
                return rejection.into_response();
            },
        };
        let a2 = match T2::from_request(&mut parts) {
            Ok(value) => value,
            Err(rejection) => {
                return rejection.into_response();
            },
        };
        let value = self(a1, a2);
        value.into_response()
    }
}

impl<B, F, Res, T1, T2, T3> Handler<B, (T1, T2, T3)> for F where
    F: Fn(T1, T2, T3) -> Res,
    Res: IntoResponse,
    T1: FromRequest<B>,
    T2: FromRequest<B>,
    T3: FromRequest<B>,
{
    type Sealed = Hidden;

    open spec fn wf(&self) -> bool {
        forall|a1: T1, a2: T2, a3: T3| #[trigger] self.requires((a1, a2, a3))
    }

    open spec fn responds(&self, req: Request<B>, res: Response) -> bool {
        extract_then::<B, T1>(parts_of(req), res, |left1: RequestParts<B>, a1: T1|
            extract_then::<B, T2>(left1, res, |left2: RequestParts<B>, a2: T2|
            extract_then::<B, T3>(left2, res, |left3: RequestParts<B>, a3: T3|
            exists|value: Res| #[trigger] self.ensures((a1, a2, a3), value) && value.response_of(res)
            )))
    }

    /// Extracts the arguments from left to right, stops at the first that
    /// is rejected and answers with that rejection; where all are extracted,
    /// calls the function and turns what it gives into the response.
    fn call(&self, req: Request<B>) -> (res: Response) {
        let mut parts = RequestParts::new(req);
        let a1 = match T1::from_request(&mut parts) {
            Ok(value) => value,
            Err(rejection) => {
                return rejection.into_response();
            },
        };
        let a2 = match T2::from_request(&mut parts) {
            Ok(value) => value,
            Err(rejection) => {
                return rejection.into_response();
            },
        };
        let a3 = match T3::from_request(&mut parts) {
            Ok(value) => value,
            Err(rejection) => {
                return rejection.into_response();
            },
        };
        let value = self(a1, a2, a3);
        value.into_response()
    }
}

impl<B, F, Res, T1, T2, T3, T4> Handler<B, (T1, T2, T3, T4)> for F where
    F: Fn(T1, T2, T3, T4) -> Res,
    Res: IntoResponse,
    T1: FromRequest<B>,
    T2: FromRequest<B>,
    T3: FromRequest<B>,
    T4: FromRequest<B>,
{
    type Sealed = Hidden;

    open spec fn wf(&self) -> bool {
        forall|a1: T1, a2: T2, a3: T3, a4: T4| #[trigger] self.requires((a1, a2, a3, a4))
    }

    open spec fn responds(&self, req: Request<B>, res: Response) -> bool {
        extract_then::<B, T1>(parts_of(req), res, |left1: RequestParts<B>, a1: T1|
            extract_then::<B, T2>(left1, res, |left2: RequestParts<B>, a2: T2|
            extract_then::<B, T3>(left2, res, |left3: RequestParts<B>, a3: T3|
            extract_then::<B, T4>(left3, res, |left4: RequestParts<B>, a4: T4|
            exists|value: Res| #[trigger] self.ensures((a1, a2, a3, a4), value) && value.response_of(res)
            ))))
    }

    /// Extracts the arguments from left to right, stops at the first that
    /// is rejected and answers with that rejection; where all are extracted,
    /// calls the function and turns what it gives into the response.
    fn call(&self, req: Request<B>) -> (res: Response) {
        let mut parts = RequestParts::new(req);
        let a1 = match T1::from_request(&mut parts) {
            Ok(value) => value,
            Err(rejection) => {
                return rejection.into_response();
            },
        };
        let a2 = match T2::from_request(&mut parts) {
            Ok(value) => value,
            Err(rejection) => {
                return rejection.into_response();
            },
        };
        let a3 = match T3::from_request(&mut parts) {
            Ok(value) => value,
            Err(rejection) => {
                return rejection.into_response();
            },
        };
        let a4 = match T4::from_request(&mut parts) {
            Ok(value) => value,
            Err(rejection) => {
                return rejection.into_response();
            },
        };
        let value = self(a1, a2, a3, a4);
        value.into_response()
    }
}

impl<B, F, Res, T1, T2, T3, T4, T5> Handler<B, (T1, T2, T3, T4, T5)> for F where
    F: Fn(T1, T2, T3, T4, T5) -> Res,
    Res: IntoResponse,
    T1: FromRequest<B>,
    T2: FromRequest<B>,
    T3: FromRequest<B>,
    T4: FromRequest<B>,
    T5: FromRequest<B>,
{
    type Sealed = Hidden;

    open spec fn wf(&self) -> bool {
        forall|a1: T1, a2: T2, a3: T3, a4: T4, a5: T5| #[trigger] self.requires((a1, a2, a3, a4, a5))
    }

    open spec fn responds(&self, req: Request<B>, res: Response) -> bool {
        extract_then::<B, T1>(parts_of(req), res, |left1: RequestParts<B>, a1: T1|
            extract_then::<B, T2>(left1, res, |left2: RequestParts<B>, a2: T2|
            extract_then::<B, T3>(left2, res, |left3: RequestParts<B>, a3: T3|
            extract_then::<B, T4>(left3, res, |left4: RequestParts<B>, a4: T4|
            extract_then::<B, T5>(left4, res, |left5: RequestParts<B>, a5: T5|
            exists|value: Res| #[trigger] self.ensures((a1, a2, a3, a4, a5), value) && value.response_of(res)
            )))))
    }

    /// Extracts the arguments from left to right, stops at the first that
    /// is rejected and answers with that rejection; where all are extracted,
    /// calls the function and turns what it gives into the response.
    fn call(&self, req: Request<B>) -> (res: Response) {
        let mut parts = RequestParts::new(req);
        let a1 = match T1::from_request(&mut parts) {
            Ok(value) => value,
            Err(rejection) => {
                return rejection.into_response();
            },
        };
        let a2 = match T2::from_request(&mut parts) {
            Ok(value) => value,
            Err(rejection) => {
                return rejection.into_response();
            },
        };
        let a3 = match T3::from_request(&mut parts) {
            Ok(value) => value,
            Err(rejection) => {
                return rejection.into_response();
            },
        };
        let a4 = match T4::from_request(&mut parts) {
            Ok(value) => value,
            Err(rejection) => {
                return rejection.into_response();
            },
        };
        let a5 = match T5::from_request(&mut parts) {
            Ok(value) => value,
            Err(rejection) => {
                return rejection.into_response();
            },
        };
        let value = self(a1, a2, a3, a4, a5);
        value.into_response()
    }
}

impl<B, F, Res, T1, T2, T3, T4, T5, T6> Handler<B, (T1, T2, T3, T4, T5, T6)> for F where
    F: Fn(T1, T2, T3, T4, T5, T6) -> Res,
    Res: IntoResponse,
    T1: FromRequest<B>,
    T2: FromRequest<B>,
    T3: FromRequest<B>,
    T4: FromRequest<B>,
    T5: FromRequest<B>,
    T6: FromRequest<B>,
{
    type Sealed = Hidden;

    open spec fn wf(&self) -> bool {
        forall|a1: T1, a2: T2, a3: T3, a4: T4, a5: T5, a6: T6| #[trigger] self.requires((a1, a2, a3, a4, a5, a6))
    }

    open spec fn responds(&self, req: Request<B>, res: Response) -> bool {
        extract_then::<B, T1>(parts_of(req), res, |left1: RequestParts<B>, a1: T1|
            extract_then::<B, T2>(left1, res, |left2: RequestParts<B>, a2: T2|
            extract_then::<B, T3>(left2, res, |left3: RequestParts<B>, a3: T3|
            extract_then::<B, T4>(left3, res, |left4: RequestParts<B>, a4: T4|
            extract_then::<B, T5>(left4, res, |left5: RequestParts<B>, a5: T5|
            extract_then::<B, T6>(left5, res, |left6: RequestParts<B>, a6: T6|
            exists|value: Res| #[trigger] self.ensures((a1, a2, a3, a4, a5, a6), value) && value.response_of(res)
            ))))))
    }

    /// Extracts the arguments from left to right, stops at the first that
    /// is rejected and answers with that rejection; where all are extracted,
    /// calls the function and turns what it gives into the response.
    fn call(&self, req: Request<B>) -> (res: Response) {
        let mut parts = RequestParts::new(req);
        let a1 = match T1::from_request(&mut parts) {
            Ok(value) => value,
            Err(rejection) => {
                return rejection.into_response();
            },
        };
        let a2 = match T2::from_request(&mut parts) {
            Ok(value) => value,
            Err(rejection) => {
                return rejection.into_response();
            },
        };
        let a3 = match T3::from_request(&mut parts) {
            Ok(value) => value,
            Err(rejection) => {
                return rejection.into_response();
            },
        };
        let a4 = match T4::from_request(&mut parts) {
            Ok(value) => value,
            Err(rejection) => {
                return rejection.into_response();
            },
        };
        let a5 = match T5::from_request(&mut parts) {
            Ok(value) => value,
            Err(rejection) => {
                return rejection.into_response();
            },
        };
        let a6 = match T6::from_request(&mut parts) {
            Ok(value) => value,
            Err(rejection) => {
                return rejection.into_response();
            },
        };
        let value = self(a1, a2, a3, a4, a5, a6);
        value.into_response()
    }
}

impl<
    B, F, Res, T1, T2, T3, T4, T5, T6, T7,
> Handler<
    B,
    (
        T1, T2, T3, T4, T5, T6, T7,
    ),
> for F where
    F: Fn(
        T1, T2, T3, T4, T5, T6, T7,
    ) -> Res,
    Res: IntoResponse,
    T1: FromRequest<B>,
    T2: FromRequest<B>,
    T3: FromRequest<B>,
    T4: FromRequest<B>,
    T5: FromRequest<B>,
    T6: FromRequest<B>,
    T7: FromRequest<B>,
{
    type Sealed = Hidden;

    open spec fn wf(&self) -> bool {
        forall|
            a1: T1, a2: T2, a3: T3, a4: T4, a5: T5, a6: T6, a7: T7,
        | #[trigger]
            self.requires(
                (
                    a1, a2, a3, a4, a5, a6, a7,
                ),
            )
    }

    open spec fn responds(&self, req: Request<B>, res: Response) -> bool {
        extract_then::<B, T1>(parts_of(req), res, |left1: RequestParts<B>, a1: T1|
            extract_then::<B, T2>(left1, res, |left2: RequestParts<B>, a2: T2|
            extract_then::<B, T3>(left2, res, |left3: RequestParts<B>, a3: T3|
            extract_then::<B, T4>(left3, res, |left4: RequestParts<B>, a4: T4|
            extract_then::<B, T5>(left4, res, |left5: RequestParts<B>, a5: T5|
            extract_then::<B, T6>(left5, res, |left6: RequestParts<B>, a6: T6|
            extract_then::<B, T7>(left6, res, |left7: RequestParts<B>, a7: T7|
            exists|value: Res| #[trigger]
                self.ensures(
                    (
                        a1, a2, a3, a4, a5, a6, a7,
                    ),
                    value,
                ) && value.response_of(res)
            )))))))
    }

    /// Extracts the arguments from left to right, stops at the first that
    /// is rejected and answers with that rejection; where all are extracted,
    /// calls the function and turns what it gives into the response.
    fn call(&self, req: Request<B>) -> (res: Response) {
        let mut parts = RequestParts::new(req);
        let a1 = match T1::from_request(&mut parts) {
            Ok(value) => value,
            Err(rejection) => {
                return rejection.into_response();
            },
        };
        let a2 = match T2::from_request(&mut parts) {
            Ok(value) => value,
            Err(rejection) => {
                return rejection.into_response();
            },
        };
        let a3 = match T3::from_request(&mut parts) {
            Ok(value) => value,
            Err(rejection) => {
                return rejection.into_response();
            },
        };
        let a4 = match T4::from_request(&mut parts) {
            Ok(value) => value,
            Err(rejection) => {
                return rejection.into_response();
            },
        };
        let a5 = match T5::from_request(&mut parts) {
            Ok(value) => value,
            Err(rejection) => {
                return rejection.into_response();
            },
        };
        let a6 = match T6::from_request(&mut parts) {
            Ok(value) => value,
            Err(rejection) => {
                return rejection.into_response();
            },
        };
        let a7 = match T7::from_request(&mut parts) {
            Ok(value) => value,
            Err(rejection) => {
                return rejection.into_response();
            },
        };
        let value = self(
            a1, a2, a3, a4, a5, a6, a7,
        );
        value.into_response()
    }
}

impl<
    B, F, Res, T1, T2, T3, T4, T5, T6, T7, T8,
> Handler<
    B,
    (
        T1, T2, T3, T4, T5, T6, T7, T8,
    ),
> for F where
    F: Fn(
        T1, T2, T3, T4, T5, T6, T7, T8,
    ) -> Res,
    Res: IntoResponse,
    T1: FromRequest<B>,
    T2: FromRequest<B>,
    T3: FromRequest<B>,
    T4: FromRequest<B>,
    T5: FromRequest<B>,
    T6: FromRequest<B>,
    T7: FromRequest<B>,
    T8: FromRequest<B>,
{
    type Sealed = Hidden;

    open spec fn wf(&self) -> bool {
        forall|
            a1: T1, a2: T2, a3: T3, a4: T4, a5: T5, a6: T6, a7: T7, a8: T8,
        | #[trigger]
            self.requires(
                (
                    a1, a2, a3, a4, a5, a6, a7, a8,
                ),
            )
    }

    open spec fn responds(&self, req: Request<B>, res: Response) -> bool {
        extract_then::<B, T1>(parts_of(req), res, |left1: RequestParts<B>, a1: T1|
            extract_then::<B, T2>(left1, res, |left2: RequestParts<B>, a2: T2|
            extract_then::<B, T3>(left2, res, |left3: RequestParts<B>, a3: T3|
            extract_then::<B, T4>(left3, res, |left4: RequestParts<B>, a4: T4|
            extract_then::<B, T5>(left4, res, |left5: RequestParts<B>, a5: T5|
            extract_then::<B, T6>(left5, res, |left6: RequestParts<B>, a6: T6|
            extract_then::<B, T7>(left6, res, |left7: RequestParts<B>, a7: T7|
            extract_then::<B, T8>(left7, res, |left8: RequestParts<B>, a8: T8|
            exists|value: Res| #[trigger]
                self.ensures(
                    (
                        a1, a2, a3, a4, a5, a6, a7, a8,
                    ),
                    value,
                ) && value.response_of(res)
            ))))))))
    }

    /// Extracts the arguments from left to right, stops at the first that
    /// is rejected and answers with that rejection; where all are extracted,
    /// calls the function and turns what it gives into the response.
    fn call(&self, req: Request<B>) -> (res: Response) {
        let mut parts = RequestParts::new(req);
        let a1 = match T1::from_request(&mut parts) {
            Ok(value) => value,
            Err(rejection) => {
                return rejection.into_response();
            },
        };
        let a2 = match T2::from_request(&mut parts) {
            Ok(value) => value,
            Err(rejection) => {
                return rejection.into_response();
            },
        };
        let a3 = match T3::from_request(&mut parts) {
            Ok(value) => value,
            Err(rejection) => {
                return rejection.into_response();
            },
        };
        let a4 = match T4::from_request(&mut parts) {
            Ok(value) => value,
            Err(rejection) => {
                return rejection.into_response();
            },
        };
        let a5 = match T5::from_request(&mut parts) {
            Ok(value) => value,
            Err(rejection) => {
                return rejection.into_response();
            },
        };
        let a6 = match T6::from_request(&mut parts) {
            Ok(value) => value,
            Err(rejection) => {
                return rejection.into_response();
            },
        };
        let a7 = match T7::from_request(&mut parts) {
            Ok(value) => value,
            Err(rejection) => {
                return rejection.into_response();
            },
        };
        let a8 = match T8::from_request(&mut parts) {
            Ok(value) => value,
            Err(rejection) => {
                return rejection.into_response();
            },
        };
        let value = self(
            a1, a2, a3, a4, a5, a6, a7, a8,
        );
        value.into_response()
    }
}

impl<
    B, F, Res, T1, T2, T3, T4, T5, T6, T7, T8, T9,
> Handler<
    B,
    (
        T1, T2, T3, T4, T5, T6, T7, T8, T9,
    ),
> for F where
    F: Fn(
        T1, T2, T3, T4, T5, T6, T7, T8, T9,
    ) -> Res,
    Res: IntoResponse,
    T1: FromRequest<B>,
    T2: FromRequest<B>,
    T3: FromRequest<B>,
    T4: FromRequest<B>,
    T5: FromRequest<B>,
    T6: FromRequest<B>,
    T7: FromRequest<B>,
    T8: FromRequest<B>,
    T9: FromRequest<B>,
{
    type Sealed = Hidden;

    open spec fn wf(&self) -> bool {
        forall|
            a1: T1, a2: T2, a3: T3, a4: T4, a5: T5, a6: T6, a7: T7, a8: T8, a9: T9,
        | #[trigger]
            self.requires(
                (
                    a1, a2, a3, a4, a5, a6, a7, a8, a9,
                ),
            )
    }

    open spec fn responds(&self, req: Request<B>, res: Response) -> bool {
        extract_then::<B, T1>(parts_of(req), res, |left1: RequestParts<B>, a1: T1|
            extract_then::<B, T2>(left1, res, |left2: RequestParts<B>, a2: T2|
            extract_then::<B, T3>(left2, res, |left3: RequestParts<B>, a3: T3|
            extract_then::<B, T4>(left3, res, |left4: RequestParts<B>, a4: T4|
            extract_then::<B, T5>(left4, res, |left5: RequestParts<B>, a5: T5|
            extract_then::<B, T6>(left5, res, |left6: RequestParts<B>, a6: T6|
            extract_then::<B, T7>(left6, res, |left7: RequestParts<B>, a7: T7|
            extract_then::<B, T8>(left7, res, |left8: RequestParts<B>, a8: T8|
            extract_then::<B, T9>(left8, res, |left9: RequestParts<B>, a9: T9|
            exists|value: Res| #[trigger]
                self.ensures(
                    (
                        a1, a2, a3, a4, a5, a6, a7, a8, a9,
                    ),
                    value,
                ) && value.response_of(res)
            )))))))))
    }

    /// Extracts the arguments from left to right, stops at the first that
    /// is rejected and answers with that rejection; where all are extracted,
    /// calls the function and turns what it gives into the response.
    fn call(&self, req: Request<B>) -> (res: Response) {
        let mut parts = RequestParts::new(req);
        let a1 = match T1::from_request(&mut parts) {
            Ok(value) => value,
            Err(rejection) => {
                return rejection.into_response();
            },
        };
        let a2 = match T2::from_request(&mut parts) {
            Ok(value) => value,
            Err(rejection) => {
                return rejection.into_response();
            },
        };
        let a3 = match T3::from_request(&mut parts) {
            Ok(value) => value,
            Err(rejection) => {
                return rejection.into_response();
            },
        };
        let a4 = match T4::from_request(&mut parts) {
            Ok(value) => value,
            Err(rejection) => {
                return rejection.into_response();
            },
        };
        let a5 = match T5::from_request(&mut parts) {
            Ok(value) => value,
            Err(rejection) => {
                return rejection.into_response();
            },
        };
        let a6 = match T6::from_request(&mut parts) {
            Ok(value) => value,
            Err(rejection) => {
                return rejection.into_response();
            },
        };
        let a7 = match T7::from_request(&mut parts) {
            Ok(value) => value,
            Err(rejection) => {
                return rejection.into_response();
            },
        };
        let a8 = match T8::from_request(&mut parts) {
            Ok(value) => value,
            Err(rejection) => {
                return rejection.into_response();
            },
        };
        let a9 = match T9::from_request(&mut parts) {
            Ok(value) => value,
            Err(rejection) => {
                return rejection.into_response();
            },
        };
        let value = self(
            a1, a2, a3, a4, a5, a6, a7, a8, a9,
        );
        value.into_response()
    }
}

impl<
    B, F, Res, T1, T2, T3, T4, T5, T6, T7, T8, T9, T10,
> Handler<
    B,
    (
        T1, T2, T3, T4, T5, T6, T7, T8, T9, T10,
    ),
> for F where
    F: Fn(
        T1, T2, T3, T4, T5, T6, T7, T8, T9, T10,
    ) -> Res,
    Res: IntoResponse,
    T1: FromRequest<B>,
    T2: FromRequest<B>,
    T3: FromRequest<B>,
    T4: FromRequest<B>,
    T5: FromRequest<B>,
    T6: FromRequest<B>,
    T7: FromRequest<B>,
    T8: FromRequest<B>,
    T9: FromRequest<B>,
    T10: FromRequest<B>,
{
    type Sealed = Hidden;

    open spec fn wf(&self) -> bool {
        forall|
            a1: T1, a2: T2, a3: T3, a4: T4, a5: T5, a6: T6, a7: T7, a8: T8, a9: T9, a10: T10,
        | #[trigger]
            self.requires(
                (
                    a1, a2, a3, a4, a5, a6, a7, a8, a9, a10,
                ),
            )
    }

    open spec fn responds(&self, req: Request<B>, res: Response) -> bool {
        extract_then::<B, T1>(parts_of(req), res, |left1: RequestParts<B>, a1: T1|
            extract_then::<B, T2>(left1, res, |left2: RequestParts<B>, a2: T2|
            extract_then::<B, T3>(left2, res, |left3: RequestParts<B>, a3: T3|
            extract_then::<B, T4>(left3, res, |left4: RequestParts<B>, a4: T4|
            extract_then::<B, T5>(left4, res, |left5: RequestParts<B>, a5: T5|
            extract_then::<B, T6>(left5, res, |left6: RequestParts<B>, a6: T6|
            extract_then::<B, T7>(left6, res, |left7: RequestParts<B>, a7: T7|
            extract_then::<B, T8>(left7, res, |left8: RequestParts<B>, a8: T8|
            extract_then::<B, T9>(left8, res, |left9: RequestParts<B>, a9: T9|
            extract_then::<B, T10>(left9, res, |left10: RequestParts<B>, a10: T10|
            exists|value: Res| #[trigger]
                self.ensures(
                    (
                        a1, a2, a3, a4, a5, a6, a7, a8, a9, a10,
                    ),
                    value,
                ) && value.response_of(res)
            ))))))))))
    }

    /// Extracts the arguments from left to right, stops at the first that
    /// is rejected and answers with that rejection; where all are extracted,
    /// calls the function and turns what it gives into the response.
    fn call(&self, req: Request<B>) -> (res: Response) {
        let mut parts = RequestParts::new(req);
        let a1 = match T1::from_request(&mut parts) {
            Ok(value) => value,
            Err(rejection) => {
                return rejection.into_response();
            },
        };
        let a2 = match T2::from_request(&mut parts) {
            Ok(value) => value,
            Err(rejection) => {
                return rejection.into_response();
            },
        };
        let a3 = match T3::from_request(&mut parts) {
            Ok(value) => value,
            Err(rejection) => {
                return rejection.into_response();
            },
        };
        let a4 = match T4::from_request(&mut parts) {
            Ok(value) => value,
            Err(rejection) => {
                return rejection.into_response();
            },
        };
        let a5 = match T5::from_request(&mut parts) {
            Ok(value) => value,
            Err(rejection) => {
                return rejection.into_response();
            },
        };
        let a6 = match T6::from_request(&mut parts) {
            Ok(value) => value,
            Err(rejection) => {
                return rejection.into_response();
            },
        };
        let a7 = match T7::from_request(&mut parts) {
            Ok(value) => value,
            Err(rejection) => {
                return rejection.into_response();
            },
        };
        let a8 = match T8::from_request(&mut parts) {
            Ok(value) => value,
            Err(rejection) => {
                return rejection.into_response();
            },
        };
        let a9 = match T9::from_request(&mut parts) {
            Ok(value) => value,
            Err(rejection) => {
                return rejection.into_response();
            },
        };
        let a10 = match T10::from_request(&mut parts) {
            Ok(value) => value,
            Err(rejection) => {
                return rejection.into_response();
            },
        };
        let value = self(
            a1, a2, a3, a4, a5, a6, a7, a8, a9, a10,
        );
        value.into_response()
    }
}

impl<
    B, F, Res, T1, T2, T3, T4, T5, T6, T7, T8, T9, T10, T11,
> Handler<
    B,
    (
        T1, T2, T3, T4, T5, T6, T7, T8, T9, T10, T11,
    ),
> for F where
    F: Fn(
        T1, T2, T3, T4, T5, T6, T7, T8, T9, T10, T11,
    ) -> Res,
    Res: IntoResponse,
    T1: FromRequest<B>,
    T2: FromRequest<B>,
    T3: FromRequest<B>,
    T4: FromRequest<B>,
    T5: FromRequest<B>,
    T6: FromRequest<B>,
    T7: FromRequest<B>,
    T8: FromRequest<B>,
    T9: FromRequest<B>,
    T10: FromRequest<B>,
    T11: FromRequest<B>,
{
    type Sealed = Hidden;

    open spec fn wf(&self) -> bool {
        forall|
            a1: T1, a2: T2, a3: T3, a4: T4, a5: T5, a6: T6, a7: T7, a8: T8, a9: T9, a10: T10,
            a11: T11,
        | #[trigger]
            self.requires(
                (
                    a1, a2, a3, a4, a5, a6, a7, a8, a9, a10, a11,
                ),
            )
    }

    open spec fn responds(&self, req: Request<B>, res: Response) -> bool {
        extract_then::<B, T1>(parts_of(req), res, |left1: RequestParts<B>, a1: T1|
            extract_then::<B, T2>(left1, res, |left2: RequestParts<B>, a2: T2|
            extract_then::<B, T3>(left2, res, |left3: RequestParts<B>, a3: T3|
            extract_then::<B, T4>(left3, res, |left4: RequestParts<B>, a4: T4|
            extract_then::<B, T5>(left4, res, |left5: RequestParts<B>, a5: T5|
            extract_then::<B, T6>(left5, res, |left6: RequestParts<B>, a6: T6|
            extract_then::<B, T7>(left6, res, |left7: RequestParts<B>, a7: T7|
            extract_then::<B, T8>(left7, res, |left8: RequestParts<B>, a8: T8|
            extract_then::<B, T9>(left8, res, |left9: RequestParts<B>, a9: T9|
            extract_then::<B, T10>(left9, res, |left10: RequestParts<B>, a10: T10|
            extract_then::<B, T11>(left10, res, |left11: RequestParts<B>, a11: T11|
            exists|value: Res| #[trigger]
                self.ensures(
                    (
                        a1, a2, a3, a4, a5, a6, a7, a8, a9, a10, a11,
                    ),
                    value,
                ) && value.response_of(res)
            )))))))))))
    }

    /// Extracts the arguments from left to right, stops at the first that
    /// is rejected and answers with that rejection; where all are extracted,
    /// calls the function and turns what it gives into the response.
    fn call(&self, req: Request<B>) -> (res: Response) {
        let mut parts = RequestParts::new(req);
        let a1 = match T1::from_request(&mut parts) {
            Ok(value) => value,
            Err(rejection) => {
                return rejection.into_response();
            },
        };
        let a2 = match T2::from_request(&mut parts) {
            Ok(value) => value,
            Err(rejection) => {
                return rejection.into_response();
            },
        };
        let a3 = match T3::from_request(&mut parts) {
            Ok(value) => value,
            Err(rejection) => {
                return rejection.into_response();
            },
        };
        let a4 = match T4::from_request(&mut parts) {
            Ok(value) => value,
            Err(rejection) => {
                return rejection.into_response();
            },
        };
        let a5 = match T5::from_request(&mut parts) {
            Ok(value) => value,
            Err(rejection) => {
                return rejection.into_response();
            },
        };
        let a6 = match T6::from_request(&mut parts) {
            Ok(value) => value,
            Err(rejection) => {
                return rejection.into_response();
            },
        };
        let a7 = match T7::from_request(&mut parts) {
            Ok(value) => value,
            Err(rejection) => {
                return rejection.into_response();
            },
        };
        let a8 = match T8::from_request(&mut parts) {
            Ok(value) => value,
            Err(rejection) => {
                return rejection.into_response();
            },
        };
        let a9 = match T9::from_request(&mut parts) {
            Ok(value) => value,
            Err(rejection) => {
                return rejection.into_response();
            },
        };
        let a10 = match T10::from_request(&mut parts) {
            Ok(value) => value,
            Err(rejection) => {
                return rejection.into_response();
            },
        };
        let a11 = match T11::from_request(&mut parts) {
            Ok(value) => value,
            Err(rejection) => {
                return rejection.into_response();
            },
        };
        let value = self(
            a1, a2, a3, a4, a5, a6, a7, a8, a9, a10, a11,
        );
        value.into_response()
    }
}

impl<
    B, F, Res, T1, T2, T3, T4, T5, T6, T7, T8, T9, T10, T11, T12,
> Handler<
    B,
    (
        T1, T2, T3, T4, T5, T6, T7, T8, T9, T10, T11, T12,
    ),
> for F where
    F: Fn(
        T1, T2, T3, T4, T5, T6, T7, T8, T9, T10, T11, T12,
    ) -> Res,
    Res: IntoResponse,
    T1: FromRequest<B>,
    T2: FromRequest<B>,
    T3: FromRequest<B>,
    T4: FromRequest<B>,
    T5: FromRequest<B>,
    T6: FromRequest<B>,
    T7: FromRequest<B>,
    T8: FromRequest<B>,
    T9: FromRequest<B>,
    T10: FromRequest<B>,
    T11: FromRequest<B>,
    T12: FromRequest<B>,
{
    type Sealed = Hidden;

    open spec fn wf(&self) -> bool {
        forall|
            a1: T1, a2: T2, a3: T3, a4: T4, a5: T5, a6: T6, a7: T7, a8: T8, a9: T9, a10: T10,
            a11: T11, a12: T12,
        | #[trigger]
            self.requires(
                (
                    a1, a2, a3, a4, a5, a6, a7, a8, a9, a10, a11, a12,
                ),
            )
    }

    open spec fn responds(&self, req: Request<B>, res: Response) -> bool {
        extract_then::<B, T1>(parts_of(req), res, |left1: RequestParts<B>, a1: T1|
            extract_then::<B, T2>(left1, res, |left2: RequestParts<B>, a2: T2|
            extract_then::<B, T3>(left2, res, |left3: RequestParts<B>, a3: T3|
            extract_then::<B, T4>(left3, res, |left4: RequestParts<B>, a4: T4|
            extract_then::<B, T5>(left4, res, |left5: RequestParts<B>, a5: T5|
            extract_then::<B, T6>(left5, res, |left6: RequestParts<B>, a6: T6|
            extract_then::<B, T7>(left6, res, |left7: RequestParts<B>, a7: T7|
            extract_then::<B, T8>(left7, res, |left8: RequestParts<B>, a8: T8|
            extract_then::<B, T9>(left8, res, |left9: RequestParts<B>, a9: T9|
            extract_then::<B, T10>(left9, res, |left10: RequestParts<B>, a10: T10|
            extract_then::<B, T11>(left10, res, |left11: RequestParts<B>, a11: T11|
            extract_then::<B, T12>(left11, res, |left12: RequestParts<B>, a12: T12|
            exists|value: Res| #[trigger]
                self.ensures(
                    (
                        a1, a2, a3, a4, a5, a6, a7, a8, a9, a10, a11, a12,
                    ),
                    value,
                ) && value.response_of(res)
            ))))))))))))
    }

    /// Extracts the arguments from left to right, stops at the first that
    /// is rejected and answers with that rejection; where all are extracted,
    /// calls the function and turns what it gives into the response.
    fn call(&self, req: Request<B>) -> (res: Response) {
        let mut parts = RequestParts::new(req);
        let a1 = match T1::from_request(&mut parts) {
            Ok(value) => value,
            Err(rejection) => {
                return rejection.into_response();
            },
        };
        let a2 = match T2::from_request(&mut parts) {
            Ok(value) => value,
            Err(rejection) => {
                return rejection.into_response();
            },
        };
        let a3 = match T3::from_request(&mut parts) {
            Ok(value) => value,
            Err(rejection) => {
                return rejection.into_response();
            },
        };
        let a4 = match T4::from_request(&mut parts) {
            Ok(value) => value,
            Err(rejection) => {
                return rejection.into_response();
            },
        };
        let a5 = match T5::from_request(&mut parts) {
            Ok(value) => value,
            Err(rejection) => {
                return rejection.into_response();
            },
        };
        let a6 = match T6::from_request(&mut parts) {
            Ok(value) => value,
            Err(rejection) => {
                return rejection.into_response();
            },
        };
        let a7 = match T7::from_request(&mut parts) {
            Ok(value) => value,
            Err(rejection) => {
                return rejection.into_response();
            },
        };
        let a8 = match T8::from_request(&mut parts) {
            Ok(value) => value,
            Err(rejection) => {
                return rejection.into_response();
            },
        };
        let a9 = match T9::from_request(&mut parts) {
            Ok(value) => value,
            Err(rejection) => {
                return rejection.into_response();
            },
        };
        let a10 = match T10::from_request(&mut parts) {
            Ok(value) => value,
            Err(rejection) => {
                return rejection.into_response();
            },
        };
        let a11 = match T11::from_request(&mut parts) {
            Ok(value) => value,
            Err(rejection) => {
                return rejection.into_response();
            },
        };
        let a12 = match T12::from_request(&mut parts) {
            Ok(value) => value,
            Err(rejection) => {
                return rejection.into_response();
            },
        };
        let value = self(
            a1, a2, a3, a4, a5, a6, a7, a8, a9, a10, a11, a12,
        );
        value.into_response()
    }
}

impl<
    B, F, Res, T1, T2, T3, T4, T5, T6, T7, T8, T9, T10, T11, T12, T13,
> Handler<
    B,
    (
        T1, T2, T3, T4, T5, T6, T7, T8, T9, T10, T11, T12, T13,
    ),
> for F where
    F: Fn(
        T1, T2, T3, T4, T5, T6, T7, T8, T9, T10, T11, T12, T13,
    ) -> Res,
    Res: IntoResponse,
    T1: FromRequest<B>,
    T2: FromRequest<B>,
    T3: FromRequest<B>,
    T4: FromRequest<B>,
    T5: FromRequest<B>,
    T6: FromRequest<B>,
    T7: FromRequest<B>,
    T8: FromRequest<B>,
    T9: FromRequest<B>,
    T10: FromRequest<B>,
    T11: FromRequest<B>,
    T12: FromRequest<B>,
    T13: FromRequest<B>,
{
    type Sealed = Hidden;

    open spec fn wf(&self) -> bool {
        forall|
            a1: T1, a2: T2, a3: T3, a4: T4, a5: T5, a6: T6, a7: T7, a8: T8, a9: T9, a10: T10,
            a11: T11, a12: T12, a13: T13,
        | #[trigger]
            self.requires(
                (
                    a1, a2, a3, a4, a5, a6, a7, a8, a9, a10, a11, a12, a13,
                ),
            )
    }

    open spec fn responds(&self, req: Request<B>, res: Response) -> bool {
        extract_then::<B, T1>(parts_of(req), res, |left1: RequestParts<B>, a1: T1|
            extract_then::<B, T2>(left1, res, |left2: RequestParts<B>, a2: T2|
            extract_then::<B, T3>(left2, res, |left3: RequestParts<B>, a3: T3|
            extract_then::<B, T4>(left3, res, |left4: RequestParts<B>, a4: T4|
            extract_then::<B, T5>(left4, res, |left5: RequestParts<B>, a5: T5|
            extract_then::<B, T6>(left5, res, |left6: RequestParts<B>, a6: T6|
            extract_then::<B, T7>(left6, res, |left7: RequestParts<B>, a7: T7|
            extract_then::<B, T8>(left7, res, |left8: RequestParts<B>, a8: T8|
            extract_then::<B, T9>(left8, res, |left9: RequestParts<B>, a9: T9|
            extract_then::<B, T10>(left9, res, |left10: RequestParts<B>, a10: T10|
            extract_then::<B, T11>(left10, res, |left11: RequestParts<B>, a11: T11|
            extract_then::<B, T12>(left11, res, |left12: RequestParts<B>, a12: T12|
            extract_then::<B, T13>(left12, res, |left13: RequestParts<B>, a13: T13|
            exists|value: Res| #[trigger]
                self.ensures(
                    (
                        a1, a2, a3, a4, a5, a6, a7, a8, a9, a10, a11, a12, a13,
                    ),
                    value,
                ) && value.response_of(res)
            )))))))))))))
    }

    /// Extracts the arguments from left to right, stops at the first that
    /// is rejected and answers with that rejection; where all are extracted,
    /// calls the function and turns what it gives into the response.
    fn call(&self, req: Request<B>) -> (res: Response) {
        let mut parts = RequestParts::new(req);
        let a1 = match T1::from_request(&mut parts) {
            Ok(value) => value,
            Err(rejection) => {
                return rejection.into_response();
            },
        };
        let a2 = match T2::from_request(&mut parts) {
            Ok(value) => value,
            Err(rejection) => {
                return rejection.into_response();
            },
        };
        let a3 = match T3::from_request(&mut parts) {
            Ok(value) => value,
            Err(rejection) => {
                return rejection.into_response();
            },
        };
        let a4 = match T4::from_request(&mut parts) {
            Ok(value) => value,
            Err(rejection) => {
                return rejection.into_response();
            },
        };
        let a5 = match T5::from_request(&mut parts) {
            Ok(value) => value,
            Err(rejection) => {
                return rejection.into_response();
            },
        };
        let a6 = match T6::from_request(&mut parts) {
            Ok(value) => value,
            Err(rejection) => {
                return rejection.into_response();
            },
        };
        let a7 = match T7::from_request(&mut parts) {
            Ok(value) => value,
            Err(rejection) => {
                return rejection.into_response();
            },
        };
        let a8 = match T8::from_request(&mut parts) {
            Ok(value) => value,
            Err(rejection) => {
                return rejection.into_response();
            },
        };
        let a9 = match T9::from_request(&mut parts) {
            Ok(value) => value,
            Err(rejection) => {
                return rejection.into_response();
            },
        };
        let a10 = match T10::from_request(&mut parts) {
            Ok(value) => value,
            Err(rejection) => {
                return rejection.into_response();
            },
        };
        let a11 = match T11::from_request(&mut parts) {
            Ok(value) => value,
            Err(rejection) => {
                return rejection.into_response();
            },
        };
        let a12 = match T12::from_request(&mut parts) {
            Ok(value) => value,
            Err(rejection) => {
                return rejection.into_response();
            },
        };
        let a13 = match T13::from_request(&mut parts) {
            Ok(value) => value,
            Err(rejection) => {
                return rejection.into_response();
            },
        };
        let value = self(
            a1, a2, a3, a4, a5, a6, a7, a8, a9, a10, a11, a12, a13,
        );
        value.into_response()
    }
}

impl<
    B, F, Res, T1, T2, T3, T4, T5, T6, T7, T8, T9, T10, T11, T12, T13, T14,
> Handler<
    B,
    (
        T1, T2, T3, T4, T5, T6, T7, T8, T9, T10, T11, T12, T13, T14,
    ),
> for F where
    F: Fn(
        T1, T2, T3, T4, T5, T6, T7, T8, T9, T10, T11, T12, T13, T14,
    ) -> Res,
    Res: IntoResponse,
    T1: FromRequest<B>,
    T2: FromRequest<B>,
    T3: FromRequest<B>,
    T4: FromRequest<B>,
    T5: FromRequest<B>,
    T6: FromRequest<B>,
    T7: FromRequest<B>,
    T8: FromRequest<B>,
    T9: FromRequest<B>,
    T10: FromRequest<B>,
    T11: FromRequest<B>,
    T12: FromRequest<B>,
    T13: FromRequest<B>,
    T14: FromRequest<B>,
{
    type Sealed = Hidden;

    open spec fn wf(&self) -> bool {
        forall|
            a1: T1, a2: T2, a3: T3, a4: T4, a5: T5, a6: T6, a7: T7, a8: T8, a9: T9, a10: T10,
            a11: T11, a12: T12, a13: T13, a14: T14,
        | #[trigger]
            self.requires(
                (
                    a1, a2, a3, a4, a5, a6, a7, a8, a9, a10, a11, a12, a13, a14,
                ),
            )
    }

    open spec fn responds(&self, req: Request<B>, res: Response) -> bool {
        extract_then::<B, T1>(parts_of(req), res, |left1: RequestParts<B>, a1: T1|
            extract_then::<B, T2>(left1, res, |left2: RequestParts<B>, a2: T2|
            extract_then::<B, T3>(left2, res, |left3: RequestParts<B>, a3: T3|
            extract_then::<B, T4>(left3, res, |left4: RequestParts<B>, a4: T4|
            extract_then::<B, T5>(left4, res, |left5: RequestParts<B>, a5: T5|
            extract_then::<B, T6>(left5, res, |left6: RequestParts<B>, a6: T6|
            extract_then::<B, T7>(left6, res, |left7: RequestParts<B>, a7: T7|
            extract_then::<B, T8>(left7, res, |left8: RequestParts<B>, a8: T8|
            extract_then::<B, T9>(left8, res, |left9: RequestParts<B>, a9: T9|
            extract_then::<B, T10>(left9, res, |left10: RequestParts<B>, a10: T10|
            extract_then::<B, T11>(left10, res, |left11: RequestParts<B>, a11: T11|
            extract_then::<B, T12>(left11, res, |left12: RequestParts<B>, a12: T12|
            extract_then::<B, T13>(left12, res, |left13: RequestParts<B>, a13: T13|
            extract_then::<B, T14>(left13, res, |left14: RequestParts<B>, a14: T14|
            exists|value: Res| #[trigger]
                self.ensures(
                    (
                        a1, a2, a3, a4, a5, a6, a7, a8, a9, a10, a11, a12, a13, a14,
                    ),
                    value,
                ) && value.response_of(res)
            ))))))))))))))
    }

    /// Extracts the arguments from left to right, stops at the first that
    /// is rejected and answers with that rejection; where all are extracted,
    /// calls the function and turns what it gives into the response.
    fn call(&self, req: Request<B>) -> (res: Response) {
        let mut parts = RequestParts::new(req);
        let a1 = match T1::from_request(&mut parts) {
            Ok(value) => value,
            Err(rejection) => {
                return rejection.into_response();
            },
        };
        let a2 = match T2::from_request(&mut parts) {
            Ok(value) => value,
            Err(rejection) => {
                return rejection.into_response();
            },
        };
        let a3 = match T3::from_request(&mut parts) {
            Ok(value) => value,
            Err(rejection) => {
                return rejection.into_response();
            },
        };
        let a4 = match T4::from_request(&mut parts) {
            Ok(value) => value,
            Err(rejection) => {
                return rejection.into_response();
            },
        };
        let a5 = match T5::from_request(&mut parts) {
            Ok(value) => value,
            Err(rejection) => {
                return rejection.into_response();
            },
        };
        let a6 = match T6::from_request(&mut parts) {
            Ok(value) => value,
            Err(rejection) => {
                return rejection.into_response();
            },
        };
        let a7 = match T7::from_request(&mut parts) {
            Ok(value) => value,
            Err(rejection) => {
                return rejection.into_response();
            },
        };
        let a8 = match T8::from_request(&mut parts) {
            Ok(value) => value,
            Err(rejection) => {
                return rejection.into_response();
            },
        };
        let a9 = match T9::from_request(&mut parts) {
            Ok(value) => value,
            Err(rejection) => {
                return rejection.into_response();
            },
        };
        let a10 = match T10::from_request(&mut parts) {
            Ok(value) => value,
            Err(rejection) => {
                return rejection.into_response();
            },
        };
        let a11 = match T11::from_request(&mut parts) {
            Ok(value) => value,
            Err(rejection) => {
                return rejection.into_response();
            },
        };
        let a12 = match T12::from_request(&mut parts) {
            Ok(value) => value,
            Err(rejection) => {
                return rejection.into_response();
            },
        };
        let a13 = match T13::from_request(&mut parts) {
            Ok(value) => value,
            Err(rejection) => {
                return rejection.into_response();
            },
        };
        let a14 = match T14::from_request(&mut parts) {
            Ok(value) => value,
            Err(rejection) => {
                return rejection.into_response();
            },
        };
        let value = self(
            a1, a2, a3, a4, a5, a6, a7, a8, a9, a10, a11, a12, a13, a14,
        );
        value.into_response()
    }
}

impl<
    B, F, Res, T1, T2, T3, T4, T5, T6, T7, T8, T9, T10, T11, T12, T13, T14, T15,
> Handler<
    B,
    (
        T1, T2, T3, T4, T5, T6, T7, T8, T9, T10, T11, T12, T13, T14, T15,
    ),
> for F where
    F: Fn(
        T1, T2, T3, T4, T5, T6, T7, T8, T9, T10, T11, T12, T13, T14, T15,
    ) -> Res,
    Res: IntoResponse,
    T1: FromRequest<B>,
    T2: FromRequest<B>,
    T3: FromRequest<B>,
    T4: FromRequest<B>,
    T5: FromRequest<B>,
    T6: FromRequest<B>,
    T7: FromRequest<B>,
    T8: FromRequest<B>,
    T9: FromRequest<B>,
    T10: FromRequest<B>,
    T11: FromRequest<B>,
    T12: FromRequest<B>,
    T13: FromRequest<B>,
    T14: FromRequest<B>,
    T15: FromRequest<B>,
{
    type Sealed = Hidden;

    open spec fn wf(&self) -> bool {
        forall|
            a1: T1, a2: T2, a3: T3, a4: T4, a5: T5, a6: T6, a7: T7, a8: T8, a9: T9, a10: T10,
            a11: T11, a12: T12, a13: T13, a14: T14, a15: T15,
        | #[trigger]
            self.requires(
                (
                    a1, a2, a3, a4, a5, a6, a7, a8, a9, a10, a11, a12, a13, a14, a15,
                ),
            )
    }

    open spec fn responds(&self, req: Request<B>, res: Response) -> bool {
        extract_then::<B, T1>(parts_of(req), res, |left1: RequestParts<B>, a1: T1|
            extract_then::<B, T2>(left1, res, |left2: RequestParts<B>, a2: T2|
            extract_then::<B, T3>(left2, res, |left3: RequestParts<B>, a3: T3|
            extract_then::<B, T4>(left3, res, |left4: RequestParts<B>, a4: T4|
            extract_then::<B, T5>(left4, res, |left5: RequestParts<B>, a5: T5|
            extract_then::<B, T6>(left5, res, |left6: RequestParts<B>, a6: T6|
            extract_then::<B, T7>(left6, res, |left7: RequestParts<B>, a7: T7|
            extract_then::<B, T8>(left7, res, |left8: RequestParts<B>, a8: T8|
            extract_then::<B, T9>(left8, res, |left9: RequestParts<B>, a9: T9|
            extract_then::<B, T10>(left9, res, |left10: RequestParts<B>, a10: T10|
            extract_then::<B, T11>(left10, res, |left11: RequestParts<B>, a11: T11|
            extract_then::<B, T12>(left11, res, |left12: RequestParts<B>, a12: T12|
            extract_then::<B, T13>(left12, res, |left13: RequestParts<B>, a13: T13|
            extract_then::<B, T14>(left13, res, |left14: RequestParts<B>, a14: T14|
            extract_then::<B, T15>(left14, res, |left15: RequestParts<B>, a15: T15|
            exists|value: Res| #[trigger]
                self.ensures(
                    (
                        a1, a2, a3, a4, a5, a6, a7, a8, a9, a10, a11, a12, a13, a14, a15,
                    ),
                    value,
                ) && value.response_of(res)
            )))))))))))))))
    }

    /// Extracts the arguments from left to right, stops at the first that
    /// is rejected and answers with that rejection; where all are extracted,
    /// calls the function and turns what it gives into the response.
    fn call(&self, req: Request<B>) -> (res: Response) {
        let mut parts = RequestParts::new(req);
        let a1 = match T1::from_request(&mut parts) {
            Ok(value) => value,
            Err(rejection) => {
                return rejection.into_response();
            },
        };
        let a2 = match T2::from_request(&mut parts) {
            Ok(value) => value,
            Err(rejection) => {
                return rejection.into_response();
            },
        };
        let a3 = match T3::from_request(&mut parts) {
            Ok(value) => value,
            Err(rejection) => {
                return rejection.into_response();
            },
        };
        let a4 = match T4::from_request(&mut parts) {
            Ok(value) => value,
            Err(rejection) => {
                return rejection.into_response();
            },
        };
        let a5 = match T5::from_request(&mut parts) {
            Ok(value) => value,
            Err(rejection) => {
                return rejection.into_response();
            },
        };
        let a6 = match T6::from_request(&mut parts) {
            Ok(value) => value,
            Err(rejection) => {
                return rejection.into_response();
            },
        };
        let a7 = match T7::from_request(&mut parts) {
            Ok(value) => value,
            Err(rejection) => {
                return rejection.into_response();
            },
        };
        let a8 = match T8::from_request(&mut parts) {
            Ok(value) => value,
            Err(rejection) => {
                return rejection.into_response();
            },
        };
        let a9 = match T9::from_request(&mut parts) {
            Ok(value) => value,
            Err(rejection) => {
                return rejection.into_response();
            },
        };
        let a10 = match T10::from_request(&mut parts) {
            Ok(value) => value,
            Err(rejection) => {
                return rejection.into_response();
            },
        };
        let a11 = match T11::from_request(&mut parts) {
            Ok(value) => value,
            Err(rejection) => {
                return rejection.into_response();
            },
        };
        let a12 = match T12::from_request(&mut parts) {
            Ok(value) => value,
            Err(rejection) => {
                return rejection.into_response();
            },
        };
        let a13 = match T13::from_request(&mut parts) {
            Ok(value) => value,
            Err(rejection) => {
                return rejection.into_response();
            },
        };
        let a14 = match T14::from_request(&mut parts) {
            Ok(value) => value,
            Err(rejection) => {
                return rejection.into_response();
            },
        };
        let a15 = match T15::from_request(&mut parts) {
            Ok(value) => value,
            Err(rejection) => {
                return rejection.into_response();
            },
        };
        let value = self(
            a1, a2, a3, a4, a5, a6, a7, a8, a9, a10, a11, a12, a13, a14, a15,
        );
        value.into_response()
    }
}

impl<
    B, F, Res, T1, T2, T3, T4, T5, T6, T7, T8, T9, T10, T11, T12, T13, T14, T15, T16,
> Handler<
    B,
    (
        T1, T2, T3, T4, T5, T6, T7, T8, T9, T10, T11, T12, T13, T14, T15, T16,
    ),
> for F where
    F: Fn(
        T1, T2, T3, T4, T5, T6, T7, T8, T9, T10, T11, T12, T13, T14, T15, T16,
    ) -> Res,
    Res: IntoResponse,
    T1: FromRequest<B>,
    T2: FromRequest<B>,
    T3: FromRequest<B>,
    T4: FromRequest<B>,
    T5: FromRequest<B>,
    T6: FromRequest<B>,
    T7: FromRequest<B>,
    T8: FromRequest<B>,
    T9: FromRequest<B>,
    T10: FromRequest<B>,
    T11: FromRequest<B>,
    T12: FromRequest<B>,
    T13: FromRequest<B>,
    T14: FromRequest<B>,
    T15: FromRequest<B>,
    T16: FromRequest<B>,
{
    type Sealed = Hidden;

    open spec fn wf(&self) -> bool {
        forall|
            a1: T1, a2: T2, a3: T3, a4: T4, a5: T5, a6: T6, a7: T7, a8: T8, a9: T9, a10: T10,
            a11: T11, a12: T12, a13: T13, a14: T14, a15: T15, a16: T16,
        | #[trigger]
            self.requires(
                (
                    a1, a2, a3, a4, a5, a6, a7, a8, a9, a10, a11, a12, a13, a14, a15, a16,
                ),
            )
    }

    open spec fn responds(&self, req: Request<B>, res: Response) -> bool {
        extract_then::<B, T1>(parts_of(req), res, |left1: RequestParts<B>, a1: T1|
            extract_then::<B, T2>(left1, res, |left2: RequestParts<B>, a2: T2|
            extract_then::<B, T3>(left2, res, |left3: RequestParts<B>, a3: T3|
            extract_then::<B, T4>(left3, res, |left4: RequestParts<B>, a4: T4|
            extract_then::<B, T5>(left4, res, |left5: RequestParts<B>, a5: T5|
            extract_then::<B, T6>(left5, res, |left6: RequestParts<B>, a6: T6|
            extract_then::<B, T7>(left6, res, |left7: RequestParts<B>, a7: T7|
            extract_then::<B, T8>(left7, res, |left8: RequestParts<B>, a8: T8|
            extract_then::<B, T9>(left8, res, |left9: RequestParts<B>, a9: T9|
            extract_then::<B, T10>(left9, res, |left10: RequestParts<B>, a10: T10|
            extract_then::<B, T11>(left10, res, |left11: RequestParts<B>, a11: T11|
            extract_then::<B, T12>(left11, res, |left12: RequestParts<B>, a12: T12|
            extract_then::<B, T13>(left12, res, |left13: RequestParts<B>, a13: T13|
            extract_then::<B, T14>(left13, res, |left14: RequestParts<B>, a14: T14|
            extract_then::<B, T15>(left14, res, |left15: RequestParts<B>, a15: T15|
            extract_then::<B, T16>(left15, res, |left16: RequestParts<B>, a16: T16|
            exists|value: Res| #[trigger]
                self.ensures(
                    (
                        a1, a2, a3, a4, a5, a6, a7, a8, a9, a10, a11, a12, a13, a14, a15, a16,
                    ),
                    value,
                ) && value.response_of(res)
            ))))))))))))))))
    }

    /// Extracts the arguments from left to right, stops at the first that
    /// is rejected and answers with that rejection; where all are extracted,
    /// calls the function and turns what it gives into the response.
    fn call(&self, req: Request<B>) -> (res: Response) {
        let mut parts = RequestParts::new(req);
        let a1 = match T1::from_request(&mut parts) {
            Ok(value) => value,
            Err(rejection) => {
                return rejection.into_response();
            },
        };
        let a2 = match T2::from_request(&mut parts) {
            Ok(value) => value,
            Err(rejection) => {
                return rejection.into_response();
            },
        };
        let a3 = match T3::from_request(&mut parts) {
            Ok(value) => value,
            Err(rejection) => {
                return rejection.into_response();
            },
        };
        let a4 = match T4::from_request(&mut parts) {
            Ok(value) => value,
            Err(rejection) => {
                return rejection.into_response();
            },
        };
        let a5 = match T5::from_request(&mut parts) {
            Ok(value) => value,
            Err(rejection) => {
                return rejection.into_response();
            },
        };
        let a6 = match T6::from_request(&mut parts) {
            Ok(value) => value,
            Err(rejection) => {
                return rejection.into_response();
            },
        };
        let a7 = match T7::from_request(&mut parts) {
            Ok(value) => value,
            Err(rejection) => {
                return rejection.into_response();
            },
        };
        let a8 = match T8::from_request(&mut parts) {
            Ok(value) => value,
            Err(rejection) => {
                return rejection.into_response();
            },
        };
        let a9 = match T9::from_request(&mut parts) {
            Ok(value) => value,
            Err(rejection) => {
                return rejection.into_response();
            },
        };
        let a10 = match T10::from_request(&mut parts) {
            Ok(value) => value,
            Err(rejection) => {
                return rejection.into_response();
            },
        };
        let a11 = match T11::from_request(&mut parts) {
            Ok(value) => value,
            Err(rejection) => {
                return rejection.into_response();
            },
        };
        let a12 = match T12::from_request(&mut parts) {
            Ok(value) => value,
            Err(rejection) => {
                return rejection.into_response();
            },
        };
        let a13 = match T13::from_request(&mut parts) {
            Ok(value) => value,
            Err(rejection) => {
                return rejection.into_response();
            },
        };
        let a14 = match T14::from_request(&mut parts) {
            Ok(value) => value,
            Err(rejection) => {
                return rejection.into_response();
            },
        };
        let a15 = match T15::from_request(&mut parts) {
            Ok(value) => value,
            Err(rejection) => {
                return rejection.into_response();
            },
        };
        let a16 = match T16::from_request(&mut parts) {
            Ok(value) => value,
            Err(rejection) => {
                return rejection.into_response();
            },
        };
        let value = self(
            a1, a2, a3, a4, a5, a6, a7, a8, a9, a10, a11, a12, a13, a14, a15, a16,
        );
        value.into_response()
    }
}

/// Arguments are extracted from left to right and extraction stops at the
/// first rejection: where the first argument of a function of two is always
/// rejected, the response is that of a rejection of the first argument,
/// whatever the extractor of the second would do.
pub proof fn law_first_rejection_answers<B, F, Res, T1, T2>(
    f: F,
    req: Request<B>,
    res: Response,
) where
    F: Fn(T1, T2) -> Res,
    Res: IntoResponse,
    T1: FromRequest<B>,
    T2: FromRequest<B>,

    requires
        forall|before: RequestParts<B>, after: RequestParts<B>, out: Result<T1, T1::Rejection>|
            #[trigger] T1::extracts(before, after, out) ==> out is Err,
        <F as Handler<B, (T1, T2)>>::responds(&f, req, res),
    ensures
        exists|after: RequestParts<B>, rejection: T1::Rejection|
            #![trigger T1::extracts(parts_of(req), after, Err(rejection))]
            T1::extracts(parts_of(req), after, Err(rejection)) && rejection.response_of(res),
{
    let (after, out) = choose|after: RequestParts<B>, out: Result<T1, T1::Rejection>|
        #![trigger T1::extracts(parts_of(req), after, out)]
        T1::extracts(parts_of(req), after, out) && out is Err && out->Err_0.response_of(res);
    assert(T1::extracts(parts_of(req), after, Err(out->Err_0)));
}

/// Where the first argument of a function of two is extracted and the
/// second is rejected, the second was extracted from the parts that the
/// first left, and the response is that of its rejection: the function is
/// not called.
pub proof fn law_second_rejection_answers<B, F, Res, T1, T2>(
    f: F,
    req: Request<B>,
    res: Response,
) where
    F: Fn(T1, T2) -> Res,
    Res: IntoResponse,
    T1: FromRequest<B>,
    T2: FromRequest<B>,

    requires
        forall|before: RequestParts<B>, after: RequestParts<B>, out: Result<T1, T1::Rejection>|
            #[trigger] T1::extracts(before, after, out) ==> out is Ok,
        forall|before: RequestParts<B>, after: RequestParts<B>, out: Result<T2, T2::Rejection>|
            #[trigger] T2::extracts(before, after, out) ==> out is Err,
        <F as Handler<B, (T1, T2)>>::responds(&f, req, res),
    ensures
        exists|left: RequestParts<B>, first: T1, after: RequestParts<B>, rejection: T2::Rejection|
            #![trigger
                T1::extracts(parts_of(req), left, Ok(first)),
                T2::extracts(left, after, Err(rejection)),
            ]
            {
                &&& T1::extracts(parts_of(req), left, Ok(first))
                &&& T2::extracts(left, after, Err(rejection))
                &&& rejection.response_of(res)
            },
{
    let (left, out1) = choose|left: RequestParts<B>, out1: Result<T1, T1::Rejection>|
        #![trigger T1::extracts(parts_of(req), left, out1)]
        {
            &&& T1::extracts(parts_of(req), left, out1)
            &&& out1 is Ok
            &&& extract_then::<B, T2>(
                left,
                res,
                |left2: RequestParts<B>, a2: T2|
                    exists|value: Res| #[trigger]
                        f.ensures((out1->Ok_0, a2), value) && value.response_of(res),
            )
        };
    let (after, out2) = choose|after: RequestParts<B>, out2: Result<T2, T2::Rejection>|
        #![trigger T2::extracts(left, after, out2)]
        T2::extracts(left, after, out2) && out2 is Err && out2->Err_0.response_of(res);
    assert(T1::extracts(parts_of(req), left, Ok(out1->Ok_0)));
    assert(T2::extracts(left, after, Err(out2->Err_0)));
}

} // verus!
