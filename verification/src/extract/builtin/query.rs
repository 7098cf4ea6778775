//! The query string as a handler argument.

use vstd::prelude::*;
use vstd::string::*;
use crate::extract::rejection::{FailedToDeserializeQueryString, QueryRejection};
use crate::extract::{FromRequest, RequestParts};
use crate::http_types::Uri;

verus! {

/// What the query string was decoded into.
#[derive(Clone, Copy, Debug, Default)]
pub struct Query<T>(pub T);

/// What `serde_urlencoded` decodes a query string into when it is asked for
/// the list of its pairs: the pairs in their order, or the text of its error.
pub uninterp spec fn urlencoded_pairs(query: Seq<char>) -> Result<
    Seq<(Seq<char>, Seq<char>)>,
    Seq<char>,
>;

/// Calls `serde_urlencoded::from_str` for a list of pairs of strings. The
/// claim: the outcome depends on the query string alone.
#[verifier::external_body]
fn decode_pairs(query: &str) -> (out: Result<Vec<(String, String)>, String>)
    ensures
        match out {
            Ok(pairs) => urlencoded_pairs(query@) == Ok::<
                Seq<(Seq<char>, Seq<char>)>,
                Seq<char>,
            >(pairs.deep_view()),
            Err(error) => urlencoded_pairs(query@) == Err::<
                Seq<(Seq<char>, Seq<char>)>,
                Seq<char>,
            >(error@),
        },
{
    serde_urlencoded::from_str::<Vec<(String, String)>>(query).map_err(|e| e.to_string())
}

/// The query of a target, empty where the target has none.
pub open spec fn query_or_empty(uri: Uri) -> Seq<char> {
    match uri.query {
        Some(q) => q@,
        None => Seq::<char>::empty(),
    }
}

/// The query string of the request, empty where the target has none.
pub fn query_text<B>(req: &RequestParts<B>) -> (text: &str)
    ensures
        text@ == query_or_empty(req.uri),
{
    match req.uri.query() {
        Some(q) => q,
        None => {
            proof {
                reveal_strlit("");
            }
            assert(""@ =~= Seq::<char>::empty());
            ""
        },
    }
}

/// A type that a query string can be decoded into.
pub trait DecodeQuery: Sized {
    /// Whether decoding `query` may give `out`; an error is given as its
    /// text.
    open spec fn decodes(query: Seq<char>, out: Result<Self, String>) -> bool {
        true
    }

    fn decode_query(query: &str) -> (out: Result<Self, String>)
        ensures
            Self::decodes(query@, out),
    ;

    /// The name of the type, for the text of a rejection.
    fn expected() -> String;
}

impl DecodeQuery for Vec<(String, String)> {
    open spec fn decodes(query: Seq<char>, out: Result<Self, String>) -> bool {
        match out {
            Ok(pairs) => urlencoded_pairs(query) == Ok::<Seq<(Seq<char>, Seq<char>)>, Seq<char>>(
                pairs.deep_view(),
            ),
            Err(error) => urlencoded_pairs(query) == Err::<
                Seq<(Seq<char>, Seq<char>)>,
                Seq<char>,
            >(error@),
        }
    }

    /// The pairs of the query string, in their order.
    fn decode_query(query: &str) -> (out: Result<Self, String>) {
        decode_pairs(query)
    }

    fn expected() -> (name: String)
        ensures
            name@ == "Vec<(String, String)>"@,
    {
        String::from_str("Vec<(String, String)>")
    }
}

/// Whether `out` is what extraction gives for the outcome `decoded` of
/// decoding: the value on success; on failure the rejection that carries the
/// text of the error and the name of the type asked for.
pub open spec fn query_outcome<T>(
    decoded: Result<T, String>,
    expected: Seq<char>,
    out: Result<Query<T>, QueryRejection>,
) -> bool {
    match decoded {
        Ok(value) => out is Ok && out->Ok_0.0 == value,
        Err(error) => {
            &&& out is Err
            &&& out->Err_0 is FailedToDeserializeQueryString
            &&& out->Err_0->FailedToDeserializeQueryString_0.error == error
            &&& out->Err_0->FailedToDeserializeQueryString_0.expected@ == expected
        },
    }
}

impl<T> Query<T> {
    /// What extraction gives for the outcome of decoding the query string
    /// into `T`.
    pub fn from_decoded(decoded: Result<T, String>, expected: &str) -> (out: Result<
        Self,
        QueryRejection,
    >)
        ensures
            query_outcome(decoded, expected@, out),
    {
        match decoded {
            Ok(value) => Ok(Query(value)),
            Err(error) => Err(
                QueryRejection::FailedToDeserializeQueryString(
                    FailedToDeserializeQueryString::new(error, expected),
                ),
            ),
        }
    }

    /// The decoded value.
    pub fn into_inner(self) -> (value: T)
        ensures
            value == self.0,
    {
        self.0
    }
}

impl<T> core::ops::Deref for Query<T> {
    type Target = T;

    fn deref(&self) -> (value: &T)
        ensures
            *value == self.0,
    {
        &self.0
    }
}

impl<B, T: DecodeQuery> FromRequest<B> for Query<T> {
    type Rejection = QueryRejection;

    open spec fn extracts(
        before: RequestParts<B>,
        after: RequestParts<B>,
        out: Result<Self, Self::Rejection>,
    ) -> bool {
        &&& after == before
        &&& exists|decoded: Result<T, String>, expected: Seq<char>|
            #![trigger query_outcome(decoded, expected, out)]
            T::decodes(query_or_empty(before.uri), decoded) && query_outcome(
                decoded,
                expected,
                out,
            )
    }

    /// Decodes the query string of the request; the parts stay as they are.
    /// A target without a query is decoded as the empty string. A query
    /// string that cannot be decoded is rejected.
    fn from_request(req: &mut RequestParts<B>) -> (out: Result<Self, Self::Rejection>) {
        let decoded = T::decode_query(query_text(req));
        let expected = T::expected();
        Query::from_decoded(decoded, expected.as_str())
    }
}

} // verus!
