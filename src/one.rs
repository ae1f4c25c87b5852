use vstd::prelude::*;
use crate::integer::{lemma_widths, Integer};

verus! {

/// Integer domains that have the value 1.
pub trait One: Integer {
    /// Returns the multiplicative identity.
    fn one() -> (r: Self)
        ensures
            r.value() == 1,
    ;
}

impl<T: Integer> One for T {
    fn one() -> (r: Self) {
        proof {
            T::lemma_bits();
            lemma_widths();
        }
        T::from_offset(T::zero_offset() + 1)
    }
}

} // verus!
