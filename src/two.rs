use vstd::prelude::*;
use crate::integer::{lemma_widths, Integer};

verus! {

/// Integer domains that have the value 2.
pub trait Two: Integer {
    /// Returns two.
    fn two() -> (r: Self)
        ensures
            r.value() == 2,
    ;
}

impl<T: Integer> Two for T {
    fn two() -> (r: Self) {
        proof {
            T::lemma_bits();
            lemma_widths();
        }
        T::from_offset(T::zero_offset() + 2)
    }
}

} // verus!
