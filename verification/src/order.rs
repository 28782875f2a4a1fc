//! The order of texts and numbers.

use std::cmp::Ordering;
use vstd::prelude::*;

verus! {

/// The place of a character in Unicode.
pub open spec fn code_point(c: char) -> int {
    c as int
}

/// How two numbers stand to each other.
pub open spec fn number_order(left: nat, right: nat) -> Ordering {
    if left < right {
        Ordering::Less
    } else if left > right {
        Ordering::Greater
    } else {
        Ordering::Equal
    }
}

/// How two values stand to each other of which either may be missing: a
/// missing one comes before any that is there, and two that are there
/// stand as `inner` says.
pub open spec fn option_order<T>(
    left: Option<T>,
    right: Option<T>,
    inner: spec_fn(T, T) -> Ordering,
) -> Ordering {
    match (left, right) {
        (None, None) => Ordering::Equal,
        (None, Some(_)) => Ordering::Less,
        (Some(_), None) => Ordering::Greater,
        (Some(l), Some(r)) => inner(l, r),
    }
}

/// The order by a first criterion and, where that one sees no difference,
/// by a second.
pub open spec fn and_then_order(first: Ordering, second: Ordering) -> Ordering {
    match first {
        Ordering::Equal => second,
        _ => first,
    }
}

/// How two texts stand to each other in the order of the dictionary, where
/// a character comes before another when its place in Unicode is lower, and
/// a text comes before the texts that it begins.
pub open spec fn text_order(left: Seq<char>, right: Seq<char>) -> Ordering
    decreases left.len(),
{
    if left.len() == 0 {
        if right.len() == 0 {
            Ordering::Equal
        } else {
            Ordering::Less
        }
    } else if right.len() == 0 {
        Ordering::Greater
    } else if code_point(left[0]) < code_point(right[0]) {
        Ordering::Less
    } else if code_point(left[0]) > code_point(right[0]) {
        Ordering::Greater
    } else {
        text_order(left.drop_first(), right.drop_first())
    }
}

/// `Ord::cmp` on string slices, from the standard library: the order of the
/// dictionary by the characters' places in Unicode.
#[verifier::external_body]
pub(crate) fn compare_texts(left: &str, right: &str) -> (order: Ordering)
    ensures
        order == text_order(left@, right@),
{
    left.cmp(right)
}

} // verus!
