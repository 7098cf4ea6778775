//! A set of request methods, held as a bit mask.

use vstd::prelude::*;
use crate::http_types::Method;

verus! {

/// A set of the nine standard request methods.
#[derive(Clone, Copy, Debug, PartialEq, Eq, Structural)]
pub struct MethodFilter {
    pub bits: u16,
}

/// The bit that stands for a method; zero for a method outside the standard
/// nine.
pub open spec fn method_bit(method: Method) -> u16 {
    match method {
        Method::Connect => 0b000000001u16,
        Method::Delete => 0b000000010u16,
        Method::Get => 0b000000100u16,
        Method::Head => 0b000001000u16,
        Method::Options => 0b000010000u16,
        Method::Patch => 0b000100000u16,
        Method::Post => 0b001000000u16,
        Method::Put => 0b010000000u16,
        Method::Trace => 0b100000000u16,
        Method::Extension => 0u16,
    }
}

impl MethodFilter {
    /// Whether the filter lets `method` through. A method outside the standard
    /// nine is never let through.
    pub open spec fn allows(self, method: Method) -> bool {
        method != Method::Extension && (self.bits & method_bit(method)) == method_bit(method)
    }

    /// Whether every bit of `other` is set in `self`.
    pub open spec fn spec_contains(self, other: MethodFilter) -> bool {
        (self.bits & other.bits) == other.bits
    }

    /// The filter that lets `CONNECT` through and nothing else.
    pub fn connect() -> (f: MethodFilter)
        ensures
            f.bits == method_bit(Method::Connect),
            forall|m: Method| f.allows(m) <==> m == Method::Connect,
    {
        let f = MethodFilter { bits: 0b000000001 };
        proof {
            lemma_one_method(f, Method::Connect);
        }
        f
    }

    /// The filter that lets `DELETE` through and nothing else.
    pub fn delete() -> (f: MethodFilter)
        ensures
            f.bits == method_bit(Method::Delete),
            forall|m: Method| f.allows(m) <==> m == Method::Delete,
    {
        let f = MethodFilter { bits: 0b000000010 };
        proof {
            lemma_one_method(f, Method::Delete);
        }
        f
    }

    /// The filter that lets `GET` through and nothing else.
    pub fn get() -> (f: MethodFilter)
        ensures
            f.bits == method_bit(Method::Get),
            forall|m: Method| f.allows(m) <==> m == Method::Get,
    {
        let f = MethodFilter { bits: 0b000000100 };
        proof {
            lemma_one_method(f, Method::Get);
        }
        f
    }

    /// The filter that lets `HEAD` through and nothing else.
    pub fn head() -> (f: MethodFilter)
        ensures
            f.bits == method_bit(Method::Head),
            forall|m: Method| f.allows(m) <==> m == Method::Head,
    {
        let f = MethodFilter { bits: 0b000001000 };
        proof {
            lemma_one_method(f, Method::Head);
        }
        f
    }

    /// The filter that lets `OPTIONS` through and nothing else.
    pub fn options() -> (f: MethodFilter)
        ensures
            f.bits == method_bit(Method::Options),
            forall|m: Method| f.allows(m) <==> m == Method::Options,
    {
        let f = MethodFilter { bits: 0b000010000 };
        proof {
            lemma_one_method(f, Method::Options);
        }
        f
    }

    /// The filter that lets `PATCH` through and nothing else.
    pub fn patch() -> (f: MethodFilter)
        ensures
            f.bits == method_bit(Method::Patch),
            forall|m: Method| f.allows(m) <==> m == Method::Patch,
    {
        let f = MethodFilter { bits: 0b000100000 };
        proof {
            lemma_one_method(f, Method::Patch);
        }
        f
    }

    /// The filter that lets `POST` through and nothing else.
    pub fn post() -> (f: MethodFilter)
        ensures
            f.bits == method_bit(Method::Post),
            forall|m: Method| f.allows(m) <==> m == Method::Post,
    {
        let f = MethodFilter { bits: 0b001000000 };
        proof {
            lemma_one_method(f, Method::Post);
        }
        f
    }

    /// The filter that lets `PUT` through and nothing else.
    pub fn put() -> (f: MethodFilter)
        ensures
            f.bits == method_bit(Method::Put),
            forall|m: Method| f.allows(m) <==> m == Method::Put,
    {
        let f = MethodFilter { bits: 0b010000000 };
        proof {
            lemma_one_method(f, Method::Put);
        }
        f
    }

    /// The filter that lets `TRACE` through and nothing else.
    pub fn trace() -> (f: MethodFilter)
        ensures
            f.bits == method_bit(Method::Trace),
            forall|m: Method| f.allows(m) <==> m == Method::Trace,
    {
        let f = MethodFilter { bits: 0b100000000 };
        proof {
            lemma_one_method(f, Method::Trace);
        }
        f
    }

    /// The filter that lets no method through.
    pub fn empty() -> (f: MethodFilter)
        ensures
            f.bits == 0,
            forall|m: Method| !f.allows(m),
    {
        let f = MethodFilter { bits: 0 };
        proof {
            assert forall|m: Method| !f.allows(m) by {
                if m != Method::Extension {
                    lemma_single_bit(0u16, m);
                }
            }
        }
        f
    }

    /// The filter that lets all nine standard methods through.
    pub fn all() -> (f: MethodFilter)
        ensures
            f.bits == 0b111111111u16,
            forall|m: Method| f.allows(m) <==> m != Method::Extension,
    {
        let f = MethodFilter { bits: 0b111111111 };
        proof {
            assert forall|m: Method| f.allows(m) <==> m != Method::Extension by {
                if m != Method::Extension {
                    lemma_single_bit(0b111111111u16, m);
                }
            }
        }
        f
    }

    /// The raw bit mask.
    pub fn bits(self) -> (bits: u16)
        ensures
            bits == self.bits,
    {
        self.bits
    }

    /// Whether every method of `other` is also in `self`.
    pub fn contains(self, other: MethodFilter) -> (r: bool)
        ensures
            r == self.spec_contains(other),
    {
        (self.bits & other.bits) == other.bits
    }

    /// The filter that lets through what either filter lets through.
    pub fn union(self, other: MethodFilter) -> (f: MethodFilter)
        ensures
            f.bits == self.bits | other.bits,
            forall|m: Method| f.allows(m) <==> self.allows(m) || other.allows(m),
    {
        let f = MethodFilter { bits: self.bits | other.bits };
        proof {
            assert forall|m: Method| f.allows(m) <==> self.allows(m) || other.allows(m) by {
                lemma_union_bit(self.bits, other.bits, m);
            }
        }
        f
    }

    /// Whether the request method is in the filter. The answer depends on the
    /// filter and the method alone.
    pub fn matches(self, method: &Method) -> (r: bool)
        ensures
            r == self.allows(*method),
            *method == Method::Extension ==> !r,
    {
        let flag = match *method {
            Method::Connect => MethodFilter::connect(),
            Method::Delete => MethodFilter::delete(),
            Method::Get => MethodFilter::get(),
            Method::Head => MethodFilter::head(),
            Method::Options => MethodFilter::options(),
            Method::Patch => MethodFilter::patch(),
            Method::Post => MethodFilter::post(),
            Method::Put => MethodFilter::put(),
            Method::Trace => MethodFilter::trace(),
            Method::Extension => {
                return false;
            },
        };
        self.contains(flag)
    }
}

impl core::ops::BitOr for MethodFilter {
    type Output = MethodFilter;

    /// The union of the two filters.
    fn bitor(self, other: MethodFilter) -> (f: MethodFilter)
        ensures
            forall|m: Method| f.allows(m) <==> self.allows(m) || other.allows(m),
    {
        self.union(other)
    }
}

impl vstd::std_specs::ops::BitOrSpecImpl for MethodFilter {
    open spec fn obeys_bitor_spec() -> bool {
        true
    }

    open spec fn bitor_req(self, other: MethodFilter) -> bool {
        true
    }

    open spec fn bitor_spec(self, other: MethodFilter) -> MethodFilter {
        MethodFilter { bits: self.bits | other.bits }
    }
}

/// The mask with no bit set holds no method's bit; the mask with all nine set
/// holds each of them.
pub proof fn lemma_single_bit(bits: u16, method: Method)
    requires
        bits == 0u16 || bits == 0b111111111u16,
        method != Method::Extension,
    ensures
        bits == 0u16 ==> (bits & method_bit(method)) != method_bit(method),
        bits == 0b111111111u16 ==> (bits & method_bit(method)) == method_bit(method),
{
    let b = method_bit(method);
    assert(b == 1u16 || b == 2u16 || b == 4u16 || b == 8u16 || b == 16u16 || b == 32u16 || b
        == 64u16 || b == 128u16 || b == 256u16);
    assert(bits == 0u16 ==> (bits & b) != b) by (bit_vector)
        requires
            b == 1u16 || b == 2u16 || b == 4u16 || b == 8u16 || b == 16u16 || b == 32u16 || b
                == 64u16 || b == 128u16 || b == 256u16,
    ;
    assert(bits == 0b111111111u16 ==> (bits & b) == b) by (bit_vector)
        requires
            b == 1u16 || b == 2u16 || b == 4u16 || b == 8u16 || b == 16u16 || b == 32u16 || b
                == 64u16 || b == 128u16 || b == 256u16,
    ;
}

/// A filter made of the bit of one standard method lets that method through
/// and no other.
pub proof fn lemma_one_method(filter: MethodFilter, method: Method)
    requires
        method != Method::Extension,
        filter.bits == method_bit(method),
    ensures
        forall|m: Method| filter.allows(m) <==> m == method,
{
    let a = method_bit(method);
    assert forall|m: Method| filter.allows(m) <==> m == method by {
        let c = method_bit(m);
        assert((a & c) == c <==> c == 0u16 || c == a) by (bit_vector)
            requires
                a == 1u16 || a == 2u16 || a == 4u16 || a == 8u16 || a == 16u16 || a == 32u16 || a
                    == 64u16 || a == 128u16 || a == 256u16,
                c == 0u16 || c == 1u16 || c == 2u16 || c == 4u16 || c == 8u16 || c == 16u16 || c
                    == 32u16 || c == 64u16 || c == 128u16 || c == 256u16,
        ;
    }
}

/// A method's bit is set in the union of two masks exactly when it is set in
/// one of them.
pub proof fn lemma_union_bit(a: u16, b: u16, method: Method)
    ensures
        ((a | b) & method_bit(method)) == method_bit(method) <==> (a & method_bit(method))
            == method_bit(method) || (b & method_bit(method)) == method_bit(method),
{
    let c = method_bit(method);
    assert(c == 0u16 || c == 1u16 || c == 2u16 || c == 4u16 || c == 8u16 || c == 16u16 || c
        == 32u16 || c == 64u16 || c == 128u16 || c == 256u16);
    assert(((a | b) & c) == c <==> (a & c) == c || (b & c) == c) by (bit_vector)
        requires
            c == 0u16 || c == 1u16 || c == 2u16 || c == 4u16 || c == 8u16 || c == 16u16 || c
                == 32u16 || c == 64u16 || c == 128u16 || c == 256u16,
    ;
}

/// Matching a method against a filter gives the same answer however often it
/// is asked, and whatever was asked of other filters in between: the answer is
/// a function of the filter's mask and the method.
pub proof fn law_matches_is_pure(f: MethodFilter, g: MethodFilter, method: Method)
    requires
        f.bits == g.bits,
    ensures
        f.allows(method) == g.allows(method),
        f.allows(method) ==> method != Method::Extension,
{
}

} // verus!
