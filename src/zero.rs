use vstd::prelude::*;
use crate::integer::{lemma_widths, Integer};

verus! {

/// Integer domains that have the value 0.
pub trait Zero: Integer {
    /// Returns the additive identity.
    fn zero() -> (r: Self)
        ensures
            r.value() == 0,
    ;
}

impl<T: Integer> Zero for T {
    fn zero() -> (r: Self) {
        proof {
            T::lemma_bits();
            lemma_widths();
        }
        T::from_offset(T::zero_offset() + 0)
    }
}

} // verus!
