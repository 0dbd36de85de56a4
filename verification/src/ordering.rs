//! The order of timestamps: by monotonic reading first, with the wall-clock
//! reading breaking ties, as a derived lexicographic order does.

use std::cmp::Ordering;
use vstd::prelude::*;
use vstd::std_specs::cmp::{PartialOrdSpec, PartialOrdSpecImpl};
use crate::timestamp::Timestamp;

verus! {

impl Timestamp {
    /// The lexicographic comparison of `(monotonic_ns, wall_clock_ns)`.
    pub open spec fn compare_spec(&self, other: &Self) -> Ordering {
        if self.monotonic_ns < other.monotonic_ns {
            Ordering::Less
        } else if self.monotonic_ns > other.monotonic_ns {
            Ordering::Greater
        } else if self.wall_clock_ns < other.wall_clock_ns {
            Ordering::Less
        } else if self.wall_clock_ns > other.wall_clock_ns {
            Ordering::Greater
        } else {
            Ordering::Equal
        }
    }
}

impl PartialOrd for Timestamp {
    fn partial_cmp(&self, other: &Self) -> (r: Option<Ordering>) {
        if self.monotonic_ns < other.monotonic_ns {
            Some(Ordering::Less)
        } else if self.monotonic_ns > other.monotonic_ns {
            Some(Ordering::Greater)
        } else if self.wall_clock_ns < other.wall_clock_ns {
            Some(Ordering::Less)
        } else if self.wall_clock_ns > other.wall_clock_ns {
            Some(Ordering::Greater)
        } else {
            Some(Ordering::Equal)
        }
    }
}

impl PartialOrdSpecImpl for Timestamp {
    open spec fn obeys_partial_cmp_spec() -> bool {
        true
    }

    open spec fn partial_cmp_spec(&self, other: &Self) -> Option<Ordering> {
        Some(self.compare_spec(other))
    }
}

/// Timestamps are ordered by their monotonic readings: a strictly earlier
/// monotonic reading compares less, whatever the wall-clock readings are.
pub proof fn lemma_order_follows_monotonic(a: Timestamp, b: Timestamp)
    requires
        a.monotonic_ns < b.monotonic_ns,
    ensures
        a.compare_spec(&b) == Ordering::Less,
        b.compare_spec(&a) == Ordering::Greater,
{
}

/// A timestamp is earlier exactly when its monotonic reading is smaller, or the
/// monotonic readings are equal and its wall-clock reading is smaller: the
/// lexicographic order of `(monotonic_ns, wall_clock_ns)`.
pub proof fn lemma_order_is_lexicographic(a: Timestamp, b: Timestamp)
    ensures
        (a.compare_spec(&b) == Ordering::Less) == (a.monotonic_ns < b.monotonic_ns || (
        a.monotonic_ns == b.monotonic_ns && a.wall_clock_ns < b.wall_clock_ns)),
        (a.compare_spec(&b) == Ordering::Greater) == (a.monotonic_ns > b.monotonic_ns || (
        a.monotonic_ns == b.monotonic_ns && a.wall_clock_ns > b.wall_clock_ns)),
        PartialOrdSpec::partial_cmp_spec(&a, &b) == Some(a.compare_spec(&b)),
{
}

/// The order is total and antisymmetric: two timestamps compare equal exactly
/// when they are the same, and swapping them reverses the comparison.
pub proof fn lemma_order_antisymmetric(a: Timestamp, b: Timestamp)
    ensures
        (a.compare_spec(&b) == Ordering::Equal) == (a == b),
        (a.compare_spec(&b) == Ordering::Less) == (b.compare_spec(&a) == Ordering::Greater),
{
}

/// The order is transitive.
pub proof fn lemma_order_transitive(a: Timestamp, b: Timestamp, c: Timestamp)
    requires
        a.compare_spec(&b) == Ordering::Less,
        b.compare_spec(&c) == Ordering::Less,
    ensures
        a.compare_spec(&c) == Ordering::Less,
{
}

} // verus!
