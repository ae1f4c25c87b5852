use vstd::prelude::*;
use crate::integer::{domain_max, domain_min, lemma_widths, Integer};
use crate::scale::low_mask;

verus! {

/// Limits of the normal range of a domain: its whole range for integers.
pub trait NormalLimits: Integer {
    /// Maximum normal value.
    fn norm_max() -> (r: Self)
        ensures
            r.value() == domain_max(Self::bits(), Self::signed()),
    ;

    /// Minimum normal value.
    fn norm_min() -> (r: Self)
        ensures
            r.value() == domain_min(Self::bits(), Self::signed()),
    ;
}

impl<T: Integer> NormalLimits for T {
    fn norm_max() -> (r: Self) {
        proof {
            T::lemma_bits();
            lemma_widths();
        }
        T::from_offset(low_mask(T::width()))
    }

    fn norm_min() -> (r: Self) {
        proof {
            T::lemma_bits();
            lemma_widths();
            vstd::arithmetic::power2::lemma_pow2_pos(T::bits());
        }
        T::from_offset(0)
    }
}

} // verus!
