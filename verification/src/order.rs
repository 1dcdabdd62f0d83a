//! The order of range entries.

use vstd::prelude::*;
use core::cmp::Ordering;
use crate::class::{RangeEntry, RangeType};

verus! {

/// The order of two integers.
pub open spec fn int_order(a: int, b: int) -> Ordering {
    if a < b {
        Ordering::Less
    } else if a == b {
        Ordering::Equal
    } else {
        Ordering::Greater
    }
}

/// The order of two range entries: by minimum, then maximum, then resolution,
/// the order of their fields, as the derived `Ord` compares them.
pub open spec fn range_order<T: RangeType>(a: RangeEntry<T>, b: RangeEntry<T>) -> Ordering {
    if a.min.spec_int() != b.min.spec_int() {
        int_order(a.min.spec_int(), b.min.spec_int())
    } else if a.max.spec_int() != b.max.spec_int() {
        int_order(a.max.spec_int(), b.max.spec_int())
    } else {
        int_order(a.res.spec_int(), b.res.spec_int())
    }
}

fn compare_i64(a: i64, b: i64) -> (r: Ordering)
    ensures
        (r == Ordering::Less) == (a < b),
        (r == Ordering::Equal) == (a == b),
        (r == Ordering::Greater) == (a > b),
{
    if a < b {
        Ordering::Less
    } else if a == b {
        Ordering::Equal
    } else {
        Ordering::Greater
    }
}

/// Range entries are ordered by minimum, then maximum, then resolution. The
/// subranges of a RANGE attribute ascend and do not overlap, so among them
/// the minimum alone decides.
impl<T: RangeType + PartialEq> PartialOrd for RangeEntry<T> {
    fn partial_cmp(&self, other: &Self) -> (r: Option<Ordering>) {
        let a = self.min.to_i64();
        let b = other.min.to_i64();
        if a != b {
            return Some(compare_i64(a, b));
        }
        let a = self.max.to_i64();
        let b = other.max.to_i64();
        if a != b {
            return Some(compare_i64(a, b));
        }
        Some(compare_i64(self.res.to_i64(), other.res.to_i64()))
    }
}

impl<T: RangeType + PartialEq> vstd::std_specs::cmp::PartialOrdSpecImpl for RangeEntry<T> {
    open spec fn obeys_partial_cmp_spec() -> bool {
        true
    }

    open spec fn partial_cmp_spec(&self, other: &Self) -> Option<Ordering> {
        Some(range_order(*self, *other))
    }
}

/// Two subranges that do not overlap, or two equal ones, are ordered as
/// their minimums are.
pub proof fn lemma_subranges_order_by_minimum<T: RangeType>(a: RangeEntry<T>, b: RangeEntry<T>)
    requires
        a.min.spec_int() <= a.max.spec_int(),
        b.min.spec_int() <= b.max.spec_int(),
        a.max.spec_int() < b.min.spec_int() || b.max.spec_int() < a.min.spec_int() || a == b,
    ensures
        range_order(a, b) == int_order(a.min.spec_int(), b.min.spec_int()),
{
}

} // verus!
