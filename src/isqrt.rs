use vstd::prelude::*;
use crate::integer::Integer;

verus! {

/// Whether `r` is the integer square root of `v`: the floor of its square root.
pub open spec fn is_isqrt(r: int, v: int) -> bool {
    0 <= r && r * r <= v && v < (r + 1) * (r + 1)
}

/// Integer square root.
pub trait Isqrt: Integer {
    /// Calculates the floor of the square root.
    fn isqrt(self) -> (r: Self)
        requires
            self.value() >= 0,
        ensures
            is_isqrt(r.value(), self.value()),
    ;
}

/// Floor of the square root of `v`, by bisection.
fn isqrt_u128(v: u128) -> (r: u128)
    ensures
        is_isqrt(r as int, v as int),
{
    let mut lo: u128 = 0;
    let mut hi: u128 = 0x1_0000_0000_0000_0000;
    while hi - lo > 1
        invariant
            lo < hi <= 0x1_0000_0000_0000_0000,
            lo * lo <= v,
            v < hi * hi,
        decreases hi - lo,
    {
        let mid = lo + (hi - lo) / 2;
        proof {
            assert(mid * mid <= 0xffff_ffff_ffff_ffff * 0xffff_ffff_ffff_ffff) by (nonlinear_arith)
                requires
                    mid < 0x1_0000_0000_0000_0000,
            ;
        }
        if mid * mid <= v {
            lo = mid;
        } else {
            hi = mid;
        }
    }
    lo
}

impl<T: Integer> Isqrt for T {
    fn isqrt(self) -> (r: Self) {
        let z = T::zero_offset();
        let v = self.to_offset() - z;
        let s = isqrt_u128(v);
        proof {
            self.lemma_domain();
            assert(s <= v) by (nonlinear_arith)
                requires
                    s * s <= v,
                    v < (s + 1) * (s + 1),
                    s >= 0,
            ;
        }
        T::from_offset(s + z)
    }
}

} // verus!
