use vstd::prelude::*;
use vstd::arithmetic::div_mod::{lemma_mod_add_multiples_vanish, lemma_mod_multiples_vanish};
use vstd::arithmetic::power2::{lemma_pow2_adds, lemma_pow2_pos, pow2};
use crate::integer::{lemma_widths, wrap, Integer};
use crate::scale::low_mask;

verus! {

/// Converts a value to another domain, possibly narrower. Overflows are ignored:
/// the value wraps around as two's complement.
pub trait Cast<O: Integer>: Integer {
    /// Converts this value to the domain `O`, wrapping around on overflow.
    fn cast(self) -> (r: O)
        ensures
            r.value() == wrap(self.value(), O::bits(), O::signed()),
    ;
}

impl<A: Integer, B: Integer> Cast<B> for A {
    fn cast(self) -> (r: B) {
        let za = A::zero_offset();
        let zb = B::zero_offset();
        let o = self.to_offset();
        proof {
            self.lemma_domain();
            A::lemma_bits();
            B::lemma_bits();
            lemma_widths();
        }
        let ghost v = self.value();
        let ghost p = pow2(B::bits()) as int;
        let ghost big = pow2(128) as int;
        // the value modulo 2^128
        let x = if o >= za {
            o - za
        } else {
            u128::MAX - (za - o) + 1
        };
        proof {
            lemma_pow2_adds(B::bits(), (128 - B::bits()) as nat);
            lemma_pow2_pos((128 - B::bits()) as nat);
            let k = pow2((128 - B::bits()) as nat) as int;
            assert(big == p * k);
            if o < za {
                assert(x == v + big);
                lemma_mod_add_multiples_vanish(v, p * k);
                lemma_mod_multiples_vanish(k, v, p);
            }
            assert(x as int % p == v % p);
        }
        let m = low_mask(B::width());
        let y = if m == u128::MAX {
            x
        } else {
            x % (m + 1)
        };
        assert(y == v % p);
        let off = if y > m - zb {
            y - (m - zb) - 1
        } else {
            y + zb
        };
        B::from_offset(off)
    }
}

} // verus!
