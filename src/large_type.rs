use vstd::prelude::*;
use crate::cast::Cast;
use crate::integer::{in_range, lemma_wrap_in_range, wrap, Integer};

verus! {

/// Division rounding towards zero, as integer division does.
pub open spec fn trunc_div(a: int, b: int) -> int {
    if a >= 0 {
        a / b
    } else {
        -((-a) / b)
    }
}

/// `v` moved from the range `ss..=se` to the range `ds..=de`, before it is narrowed
/// back to its domain.
pub open spec fn remapped(v: int, ss: int, se: int, ds: int, de: int) -> int {
    trunc_div((v - ss) * (de - ds), se - ss) + ds
}

/// Whether every intermediate value of the remapping fits the domain of `bits` width.
pub open spec fn remap_fits(v: int, ss: int, se: int, ds: int, de: int, bits: nat, signed: bool) -> bool {
    &&& in_range(v - ss, bits, signed)
    &&& in_range(de - ds, bits, signed)
    &&& in_range(se - ss, bits, signed)
    &&& in_range((v - ss) * (de - ds), bits, signed)
    &&& in_range(trunc_div((v - ss) * (de - ds), se - ss), bits, signed)
    &&& in_range(remapped(v, ss, se, ds, de), bits, signed)
}

/// A domain with a larger domain for operations whose intermediate values may leave
/// the normal range.
pub trait LargeType: Integer {
    /// The larger domain.
    type Large: Integer;

    /// Converts this value to the larger domain.
    fn to_large(self) -> (r: Self::Large)
        ensures
            r.value() == self.value(),
    ;

    /// Converts a value of the larger domain back, wrapping around on overflow.
    fn from_large(l: Self::Large) -> (r: Self)
        ensures
            r.value() == wrap(l.value(), Self::bits(), Self::signed()),
    ;
}

impl LargeType for u8 {
    type Large = u16;

    fn to_large(self) -> (r: u16) {
        self as u16
    }

    fn from_large(l: u16) -> (r: Self) {
        l.cast()
    }
}

impl LargeType for i8 {
    type Large = i16;

    fn to_large(self) -> (r: i16) {
        self as i16
    }

    fn from_large(l: i16) -> (r: Self) {
        l.cast()
    }
}

impl LargeType for u16 {
    type Large = u32;

    fn to_large(self) -> (r: u32) {
        self as u32
    }

    fn from_large(l: u32) -> (r: Self) {
        l.cast()
    }
}

impl LargeType for i16 {
    type Large = i32;

    fn to_large(self) -> (r: i32) {
        self as i32
    }

    fn from_large(l: i32) -> (r: Self) {
        l.cast()
    }
}

impl LargeType for u32 {
    type Large = u64;

    fn to_large(self) -> (r: u64) {
        self as u64
    }

    fn from_large(l: u64) -> (r: Self) {
        l.cast()
    }
}

impl LargeType for i32 {
    type Large = i64;

    fn to_large(self) -> (r: i64) {
        self as i64
    }

    fn from_large(l: i64) -> (r: Self) {
        l.cast()
    }
}

impl LargeType for u64 {
    type Large = u128;

    fn to_large(self) -> (r: u128) {
        self as u128
    }

    fn from_large(l: u128) -> (r: Self) {
        l.cast()
    }
}

impl LargeType for i64 {
    type Large = i128;

    fn to_large(self) -> (r: i128) {
        self as i128
    }

    fn from_large(l: i128) -> (r: Self) {
        l.cast()
    }
}

/// Changes the range of `v` from `ss..=se` to `ds..=de`. The computation runs in the
/// larger domain; the result is narrowed back, wrapping around on overflow.
pub fn change_range<T: LargeType>(v: T, ss: T, se: T, ds: T, de: T) -> (r: T)
    requires
        se.value() != ss.value(),
        remap_fits(
            v.value(),
            ss.value(),
            se.value(),
            ds.value(),
            de.value(),
            <T::Large as Integer>::bits(),
            <T::Large as Integer>::signed(),
        ),
    ensures
        r.value() == wrap(
            remapped(v.value(), ss.value(), se.value(), ds.value(), de.value()),
            T::bits(),
            T::signed(),
        ),
{
    let lv = v.to_large();
    let lss = ss.to_large();
    let lse = se.to_large();
    let lds = ds.to_large();
    let lde = de.to_large();
    proof {
        T::Large::lemma_ops(lv, lss);
        T::Large::lemma_ops(lde, lds);
        T::Large::lemma_ops(lse, lss);
    }
    let a = lv - lss;
    let b = lde - lds;
    let c = lse - lss;
    proof {
        T::Large::lemma_ops(a, b);
    }
    let p = a * b;
    proof {
        T::Large::lemma_ops(p, c);
    }
    let q = p / c;
    proof {
        T::Large::lemma_ops(q, lds);
    }
    T::from_large(q + lds)
}

/// Changing the range from a range to itself gives back the value wherever the
/// computation fits the larger domain.
pub proof fn lemma_change_range_identity<T: LargeType>(v: T, s: T, e: T)
    requires
        s.value() != e.value(),
        remap_fits(
            v.value(),
            s.value(),
            e.value(),
            s.value(),
            e.value(),
            <T::Large as Integer>::bits(),
            <T::Large as Integer>::signed(),
        ),
    ensures
        wrap(remapped(v.value(), s.value(), e.value(), s.value(), e.value()), T::bits(), T::signed())
            == v.value(),
{
    let k = v.value() - s.value();
    let d = e.value() - s.value();
    assert((k * d) / d == k) by (nonlinear_arith)
        requires
            d != 0,
    ;
    assert((-(k * d)) / d == -k) by (nonlinear_arith)
        requires
            d != 0,
    ;
    assert(trunc_div(k * d, d) == k);
    T::lemma_bits();
    v.lemma_domain();
    lemma_wrap_in_range(v.value(), T::bits(), T::signed());
}

} // verus!
