//! What an emitted conversion returns.
//!
//! The conversion from an integer type matches the value against the
//! discriminant of each variant in order and returns the first variant whose
//! discriminant it is. A value that is no variant's discriminant gives the
//! empty error.

use crate::derivation::DerivationModel;
use crate::width::IntWidth;
use vstd::prelude::*;

verus! {

impl DerivationModel {
    /// Whether the variant at `index` is the first whose discriminant is
    /// `value`.
    pub open spec fn picks(self, value: int, index: int) -> bool {
        &&& 0 <= index < self.discriminants.len()
        &&& self.discriminants[index] == value
        &&& forall|earlier: int| 0 <= earlier < index ==> self.discriminants[earlier] != value
    }

    /// A conversion picks at most one variant for a value.
    pub proof fn lemma_picks_unique(self, value: int, first: int, second: int)
        requires
            self.picks(value, first),
            self.picks(value, second),
        ensures
            first == second,
    {
    }

    /// What converting `value` from the type `width` gives: nothing where no
    /// conversion from that type is emitted, else the index of the variant
    /// that the conversion returns, or the empty error.
    pub open spec fn convert(self, width: IntWidth, value: int) -> Option<Result<int, ()>> {
        if !self.widths().contains(width) {
            None
        } else if exists|index: int| self.picks(value, index) {
            Some(Ok(choose|index: int| self.picks(value, index)))
        } else {
            Some(Err(()))
        }
    }
}

} // verus!
