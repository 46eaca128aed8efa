//! The order of sizes: small before medium before large.

use std::cmp::Ordering;
use vstd::prelude::*;
use vstd::std_specs::cmp::PartialOrdSpecImpl;
use crate::common::Size;

verus! {

impl PartialOrd for Size {
    fn partial_cmp(&self, other: &Size) -> (r: Option<Ordering>) {
        let mine = self.to_u8();
        let theirs = other.to_u8();
        if mine < theirs {
            Some(Ordering::Less)
        } else if mine == theirs {
            Some(Ordering::Equal)
        } else {
            Some(Ordering::Greater)
        }
    }
}

impl PartialOrdSpecImpl for Size {
    open spec fn obeys_partial_cmp_spec() -> bool {
        true
    }

    /// Sizes are ordered by rank.
    open spec fn partial_cmp_spec(&self, other: &Size) -> Option<Ordering> {
        if self.rank() < other.rank() {
            Some(Ordering::Less)
        } else if self.rank() == other.rank() {
            Some(Ordering::Equal)
        } else {
            Some(Ordering::Greater)
        }
    }
}

} // verus!
