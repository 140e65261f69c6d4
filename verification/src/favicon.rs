//! Favicon selection: parse the `t=` query parameter into one of the three
//! recognized icon variants, or `Unrecognized`.
//!
//! Matching is case-insensitive substring containment, not equality, and the
//! three selectors are tried in a fixed order; the first match wins.

use vstd::prelude::*;
use crate::bytes::{
    contains_bytes, contains_seq, find_sub, first_index, lower_seq, sub_at, to_lower,
};
use crate::lit::{amp_seq, apple_seq, favicon16_seq, favicon32_seq, query_t_seq};
use crate::lit::{amp_bytes, apple_bytes, favicon16_bytes, favicon32_bytes, query_t_bytes};

verus! {

/// One of the three recognized favicon variants, or none of them.
#[derive(Clone, Copy, Debug, PartialEq, Eq, Structural)]
pub enum FaviconVariant {
    AppleTouch,
    Size16,
    Size32,
    Unrecognized,
}

/// The value of the `t=` parameter in query string `q`: everything after the
/// first `"t="`, truncated at the first `"&"` that follows it. Meaningful
/// only when `q` contains `"t="`.
pub open spec fn spec_query_value(q: Seq<u8>) -> Seq<u8> {
    let rest = q.subrange(first_index(q, query_t_seq()) + 2, q.len() as int);
    if contains_seq(rest, amp_seq()) {
        rest.subrange(0, first_index(rest, amp_seq()))
    } else {
        rest
    }
}

/// The variant a parameter value selects: the lowercased value is tested for
/// containment of `"apple"`, `"favicon16"`, `"favicon32"`, in that order.
pub open spec fn spec_variant_of(value: Seq<u8>) -> FaviconVariant {
    let low = lower_seq(value);
    if contains_seq(low, apple_seq()) {
        FaviconVariant::AppleTouch
    } else if contains_seq(low, favicon16_seq()) {
        FaviconVariant::Size16
    } else if contains_seq(low, favicon32_seq()) {
        FaviconVariant::Size32
    } else {
        FaviconVariant::Unrecognized
    }
}

/// The variant selected by an optional raw query string.
pub open spec fn spec_select(q: Option<Seq<u8>>) -> FaviconVariant {
    match q {
        Option::None => FaviconVariant::Unrecognized,
        Option::Some(s) => if !contains_seq(s, query_t_seq()) {
            FaviconVariant::Unrecognized
        } else {
            spec_variant_of(spec_query_value(s))
        },
    }
}

/// The view of an optional borrowed query string.
pub open spec fn query_view(q: Option<&[u8]>) -> Option<Seq<u8>> {
    match q {
        Option::None => Option::None,
        Option::Some(s) => Option::Some(s@),
    }
}

/// The variant selected by a parameter value.
pub fn variant_of(value: &[u8]) -> (r: FaviconVariant)
    ensures
        r == spec_variant_of(value@),
{
    let low = to_lower(value);
    if contains_bytes(low.as_slice(), apple_bytes().as_slice()) {
        FaviconVariant::AppleTouch
    } else if contains_bytes(low.as_slice(), favicon16_bytes().as_slice()) {
        FaviconVariant::Size16
    } else if contains_bytes(low.as_slice(), favicon32_bytes().as_slice()) {
        FaviconVariant::Size32
    } else {
        FaviconVariant::Unrecognized
    }
}

/// The variant selected by an optional raw query string.
pub fn select(query: Option<&[u8]>) -> (r: FaviconVariant)
    ensures
        r == spec_select(query_view(query)),
{
    let q = match query {
        Option::None => {
            return FaviconVariant::Unrecognized;
        },
        Option::Some(q) => q,
    };
    let ql = q.len();
    let tq = query_t_bytes();
    let i = match find_sub(q, tq.as_slice()) {
        Option::None => {
            return FaviconVariant::Unrecognized;
        },
        Option::Some(i) => i,
    };
    assert(i + 2 <= ql) by {
        assert(sub_at(q@, query_t_seq(), i as int));
    };
    let rest = &q[i + 2..ql];
    let value = match find_sub(rest, amp_bytes().as_slice()) {
        Option::None => rest,
        Option::Some(j) => &rest[0..j],
    };
    assert(value@ == spec_query_value(q@));
    variant_of(value)
}

} // verus!
