use vstd::prelude::*;
use crate::large_type::trunc_div;
use vstd::layout::{signed_int_min_max_values, unsigned_int_max_values};
use vstd::std_specs::cmp::{PartialEqSpec, PartialOrdIs, PartialOrdSpec};
use vstd::std_specs::ops::{AddSpec, DivSpec, MulSpec, RemSpec, SubSpec};
use std::ops::{Add, Div, Mul, Rem, Sub};
use vstd::arithmetic::div_mod::{lemma_mod_add_multiples_vanish, lemma_small_mod};
use vstd::arithmetic::power2::{lemma2_to64, lemma2_to64_rest, lemma_pow2_adds, pow2};

verus! {

/// Smallest value of an integer domain of `bits` width.
pub open spec fn domain_min(bits: nat, signed: bool) -> int {
    if signed { -(pow2((bits - 1) as nat) as int) } else { 0 }
}

/// Largest value of an integer domain of `bits` width.
pub open spec fn domain_max(bits: nat, signed: bool) -> int {
    domain_min(bits, signed) + pow2(bits) - 1
}

/// Value `v` reduced into the integer domain (two's complement wrap-around).
pub open spec fn wrap(v: int, bits: nat, signed: bool) -> int {
    let m = v % (pow2(bits) as int);
    if signed && m >= pow2((bits - 1) as nat) { m - pow2(bits) } else { m }
}

/// Powers of two at the supported widths and half widths.
pub proof fn lemma_widths()
    ensures
        pow2(7) == 0x80,
        pow2(8) == 0x100,
        pow2(15) == 0x8000,
        pow2(16) == 0x1_0000,
        pow2(31) == 0x8000_0000,
        pow2(32) == 0x1_0000_0000,
        pow2(63) == 0x8000_0000_0000_0000,
        pow2(64) == 0x1_0000_0000_0000_0000,
        pow2(127) == 0x8000_0000_0000_0000_0000_0000_0000_0000,
        pow2(128) == 0x1_0000_0000_0000_0000_0000_0000_0000_0000,
{
    lemma2_to64();
    lemma2_to64_rest();
    lemma_pow2_adds(63, 64);
    lemma_pow2_adds(64, 64);
}

/// Whether `v` is a value of the integer domain of `bits` width.
pub open spec fn in_range(v: int, bits: nat, signed: bool) -> bool {
    domain_min(bits, signed) <= v <= domain_max(bits, signed)
}

/// Wrapping a value of the domain leaves it unchanged.
pub proof fn lemma_wrap_in_range(v: int, bits: nat, signed: bool)
    requires
        bits >= 1,
        in_range(v, bits, signed),
    ensures
        wrap(v, bits, signed) == v,
{
    let p = pow2(bits) as int;
    lemma_pow2_adds((bits - 1) as nat, 1);
    lemma2_to64();
    if v >= 0 {
        lemma_small_mod(v as nat, p as nat);
    } else {
        lemma_mod_add_multiples_vanish(v, p);
        lemma_small_mod((v + p) as nat, p as nat);
    }
}

/// A fixed-width integer scalar domain: its width, signedness and the mathematical
/// value of each element.
pub trait Integer: Copy + Sized + Ord + Add<Output = Self> + Sub<Output = Self> + Mul<
    Output = Self,
> + Div<Output = Self> + Rem<Output = Self> {
    /// Width in bits.
    spec fn bits() -> nat;

    /// Whether the domain holds negative values.
    spec fn signed() -> bool;

    /// The mathematical value.
    spec fn value(self) -> int;

    /// The domain's width is one of the supported widths.
    proof fn lemma_bits()
        ensures
            Self::bits() == 8 || Self::bits() == 16 || Self::bits() == 32 || Self::bits() == 64
                || Self::bits() == 128,
    ;

    /// Range of every value of the domain.
    proof fn lemma_domain(self)
        ensures
            domain_min(Self::bits(), Self::signed()) <= self.value(),
            self.value() <= domain_max(Self::bits(), Self::signed()),
    ;

    /// Two elements with one value are the same element.
    proof fn lemma_value_injective(self, other: Self)
        requires
            self.value() == other.value(),
        ensures
            self == other,
    ;

    /// The arithmetic operators compute the mathematical result wherever it fits
    /// the domain.
    proof fn lemma_ops(a: Self, b: Self)
        ensures
            Self::obeys_add_spec(),
            Self::obeys_sub_spec(),
            Self::obeys_mul_spec(),
            Self::obeys_div_spec(),
            Self::obeys_rem_spec(),
            in_range(a.value() + b.value(), Self::bits(), Self::signed()) ==> a.add_req(b) && a.add_spec(b).value()
                == a.value() + b.value(),
            in_range(a.value() - b.value(), Self::bits(), Self::signed()) ==> a.sub_req(b) && a.sub_spec(b).value()
                == a.value() - b.value(),
            in_range(a.value() * b.value(), Self::bits(), Self::signed()) ==> a.mul_req(b) && a.mul_spec(b).value()
                == a.value() * b.value(),
            b.value() != 0 && in_range(trunc_div(a.value(), b.value()), Self::bits(), Self::signed())
                ==> a.div_req(b) && a.div_spec(b).value() == trunc_div(a.value(), b.value()),
            b.value() > 0 && a.value() >= 0 ==> a.rem_req(b) && a.rem_spec(b).value() == a.value()
                % b.value(),
    ;

    /// Comparisons follow the values.
    proof fn lemma_cmp(a: Self, b: Self)
        ensures
            Self::obeys_partial_cmp_spec(),
            Self::obeys_eq_spec(),
            a.is_lt(&b) <==> a.value() < b.value(),
            a.is_le(&b) <==> a.value() <= b.value(),
            a.is_gt(&b) <==> a.value() > b.value(),
            a.is_ge(&b) <==> a.value() >= b.value(),
            a.eq_spec(&b) <==> a.value() == b.value(),
    ;

    /// Width in bits.
    fn width() -> (r: u32)
        ensures
            r == Self::bits(),
    ;

    /// Distance of zero from the domain's minimum.
    fn zero_offset() -> (r: u128)
        ensures
            r == -domain_min(Self::bits(), Self::signed()),
    ;

    /// Distance of the value from the domain's minimum.
    fn to_offset(self) -> (r: u128)
        ensures
            r == self.value() - domain_min(Self::bits(), Self::signed()),
    ;

    /// Element at distance `o` from the domain's minimum.
    fn from_offset(o: u128) -> (r: Self)
        requires
            o < pow2(Self::bits()),
        ensures
            r.value() == o + domain_min(Self::bits(), Self::signed()),
    ;
}

impl Integer for u8 {
    open spec fn bits() -> nat { 8 }

    open spec fn signed() -> bool { false }

    open spec fn value(self) -> int { self as int }

    proof fn lemma_bits() {
    }

    proof fn lemma_domain(self) {
        lemma_widths();
    }

    proof fn lemma_value_injective(self, other: Self) {
    }

    proof fn lemma_cmp(a: Self, b: Self) {
    }

    proof fn lemma_ops(a: Self, b: Self) {
        lemma_widths();
    }

    fn width() -> (r: u32) {
        8
    }

    fn zero_offset() -> (r: u128) {
        proof {
            lemma_widths();
        }
        0
    }

    fn to_offset(self) -> (r: u128) {
        self as u128
    }

    fn from_offset(o: u128) -> (r: Self) {
        proof {
            lemma_widths();
        }
        o as u8
    }
}

impl Integer for i8 {
    open spec fn bits() -> nat { 8 }

    open spec fn signed() -> bool { true }

    open spec fn value(self) -> int { self as int }

    proof fn lemma_bits() {
    }

    proof fn lemma_domain(self) {
        lemma_widths();
    }

    proof fn lemma_value_injective(self, other: Self) {
    }

    proof fn lemma_cmp(a: Self, b: Self) {
    }

    proof fn lemma_ops(a: Self, b: Self) {
        lemma_widths();
    }

    fn width() -> (r: u32) {
        8
    }

    fn zero_offset() -> (r: u128) {
        proof {
            lemma_widths();
        }
        0x80
    }

    fn to_offset(self) -> (r: u128) {
        proof {
            lemma_widths();
        }
        (self as i16 + 128) as u128
    }

    fn from_offset(o: u128) -> (r: Self) {
        proof {
            lemma_widths();
        }
        (o as i16 - 128) as i8
    }
}


impl Integer for u16 {
    open spec fn bits() -> nat { 16 }

    open spec fn signed() -> bool { false }

    open spec fn value(self) -> int { self as int }

    proof fn lemma_bits() {
    }

    proof fn lemma_domain(self) {
        lemma_widths();
    }

    proof fn lemma_value_injective(self, other: Self) {
    }

    proof fn lemma_cmp(a: Self, b: Self) {
    }

    proof fn lemma_ops(a: Self, b: Self) {
        lemma_widths();
    }

    fn width() -> (r: u32) {
        16
    }

    fn zero_offset() -> (r: u128) {
        proof {
            lemma_widths();
        }
        0
    }

    fn to_offset(self) -> (r: u128) {
        self as u128
    }

    fn from_offset(o: u128) -> (r: Self) {
        proof {
            lemma_widths();
        }
        o as u16
    }
}

impl Integer for u32 {
    open spec fn bits() -> nat { 32 }

    open spec fn signed() -> bool { false }

    open spec fn value(self) -> int { self as int }

    proof fn lemma_bits() {
    }

    proof fn lemma_domain(self) {
        lemma_widths();
    }

    proof fn lemma_value_injective(self, other: Self) {
    }

    proof fn lemma_cmp(a: Self, b: Self) {
    }

    proof fn lemma_ops(a: Self, b: Self) {
        lemma_widths();
    }

    fn width() -> (r: u32) {
        32
    }

    fn zero_offset() -> (r: u128) {
        proof {
            lemma_widths();
        }
        0
    }

    fn to_offset(self) -> (r: u128) {
        self as u128
    }

    fn from_offset(o: u128) -> (r: Self) {
        proof {
            lemma_widths();
        }
        o as u32
    }
}

impl Integer for u64 {
    open spec fn bits() -> nat { 64 }

    open spec fn signed() -> bool { false }

    open spec fn value(self) -> int { self as int }

    proof fn lemma_bits() {
    }

    proof fn lemma_domain(self) {
        lemma_widths();
    }

    proof fn lemma_value_injective(self, other: Self) {
    }

    proof fn lemma_cmp(a: Self, b: Self) {
    }

    proof fn lemma_ops(a: Self, b: Self) {
        lemma_widths();
    }

    fn width() -> (r: u32) {
        64
    }

    fn zero_offset() -> (r: u128) {
        proof {
            lemma_widths();
        }
        0
    }

    fn to_offset(self) -> (r: u128) {
        self as u128
    }

    fn from_offset(o: u128) -> (r: Self) {
        proof {
            lemma_widths();
        }
        o as u64
    }
}

impl Integer for u128 {
    open spec fn bits() -> nat { 128 }

    open spec fn signed() -> bool { false }

    open spec fn value(self) -> int { self as int }

    proof fn lemma_bits() {
    }

    proof fn lemma_domain(self) {
        lemma_widths();
    }

    proof fn lemma_value_injective(self, other: Self) {
    }

    proof fn lemma_cmp(a: Self, b: Self) {
    }

    proof fn lemma_ops(a: Self, b: Self) {
        lemma_widths();
    }

    fn width() -> (r: u32) {
        128
    }

    fn zero_offset() -> (r: u128) {
        proof {
            lemma_widths();
        }
        0
    }

    fn to_offset(self) -> (r: u128) {
        self
    }

    fn from_offset(o: u128) -> (r: Self) {
        proof {
            lemma_widths();
        }
        o
    }
}

impl Integer for i16 {
    open spec fn bits() -> nat { 16 }

    open spec fn signed() -> bool { true }

    open spec fn value(self) -> int { self as int }

    proof fn lemma_bits() {
    }

    proof fn lemma_domain(self) {
        lemma_widths();
    }

    proof fn lemma_value_injective(self, other: Self) {
    }

    proof fn lemma_cmp(a: Self, b: Self) {
    }

    proof fn lemma_ops(a: Self, b: Self) {
        lemma_widths();
    }

    fn width() -> (r: u32) {
        16
    }

    fn zero_offset() -> (r: u128) {
        proof {
            lemma_widths();
        }
        0x8000
    }

    fn to_offset(self) -> (r: u128) {
        proof {
            lemma_widths();
        }
        (self as i32 + 0x8000) as u128
    }

    fn from_offset(o: u128) -> (r: Self) {
        proof {
            lemma_widths();
        }
        (o as i32 - 0x8000) as i16
    }
}

impl Integer for i32 {
    open spec fn bits() -> nat { 32 }

    open spec fn signed() -> bool { true }

    open spec fn value(self) -> int { self as int }

    proof fn lemma_bits() {
    }

    proof fn lemma_domain(self) {
        lemma_widths();
    }

    proof fn lemma_value_injective(self, other: Self) {
    }

    proof fn lemma_cmp(a: Self, b: Self) {
    }

    proof fn lemma_ops(a: Self, b: Self) {
        lemma_widths();
    }

    fn width() -> (r: u32) {
        32
    }

    fn zero_offset() -> (r: u128) {
        proof {
            lemma_widths();
        }
        0x80000000
    }

    fn to_offset(self) -> (r: u128) {
        proof {
            lemma_widths();
        }
        (self as i64 + 0x80000000) as u128
    }

    fn from_offset(o: u128) -> (r: Self) {
        proof {
            lemma_widths();
        }
        (o as i64 - 0x80000000) as i32
    }
}

impl Integer for i64 {
    open spec fn bits() -> nat { 64 }

    open spec fn signed() -> bool { true }

    open spec fn value(self) -> int { self as int }

    proof fn lemma_bits() {
    }

    proof fn lemma_domain(self) {
        lemma_widths();
    }

    proof fn lemma_value_injective(self, other: Self) {
    }

    proof fn lemma_cmp(a: Self, b: Self) {
    }

    proof fn lemma_ops(a: Self, b: Self) {
        lemma_widths();
    }

    fn width() -> (r: u32) {
        64
    }

    fn zero_offset() -> (r: u128) {
        proof {
            lemma_widths();
        }
        0x8000000000000000
    }

    fn to_offset(self) -> (r: u128) {
        proof {
            lemma_widths();
        }
        (self as i128 + 0x8000000000000000) as u128
    }

    fn from_offset(o: u128) -> (r: Self) {
        proof {
            lemma_widths();
        }
        (o as i128 - 0x8000000000000000) as i64
    }
}

impl Integer for i128 {
    open spec fn bits() -> nat { 128 }

    open spec fn signed() -> bool { true }

    open spec fn value(self) -> int { self as int }

    proof fn lemma_bits() {
    }

    proof fn lemma_domain(self) {
        lemma_widths();
    }

    proof fn lemma_value_injective(self, other: Self) {
    }

    proof fn lemma_cmp(a: Self, b: Self) {
    }

    proof fn lemma_ops(a: Self, b: Self) {
        lemma_widths();
    }

    fn width() -> (r: u32) {
        128
    }

    fn zero_offset() -> (r: u128) {
        proof {
            lemma_widths();
        }
        0x80000000000000000000000000000000
    }

    fn to_offset(self) -> (r: u128) {
        proof {
            lemma_widths();
        }
        if self >= 0 {
            self as u128 + 0x8000_0000_0000_0000_0000_0000_0000_0000
        } else {
            (self + i128::MAX + 1) as u128
        }
    }

    fn from_offset(o: u128) -> (r: Self) {
        proof {
            lemma_widths();
        }
        if o >= 0x8000_0000_0000_0000_0000_0000_0000_0000 {
            (o - 0x8000_0000_0000_0000_0000_0000_0000_0000) as i128
        } else {
            o as i128 - i128::MAX - 1
        }
    }
}

impl Integer for usize {
    open spec fn bits() -> nat { usize::BITS as nat }

    open spec fn signed() -> bool { false }

    open spec fn value(self) -> int { self as int }

    proof fn lemma_bits() {
        unsigned_int_max_values();
        lemma_widths();
    }

    proof fn lemma_domain(self) {
        unsigned_int_max_values();
    }

    proof fn lemma_value_injective(self, other: Self) {
    }

    proof fn lemma_cmp(a: Self, b: Self) {
    }

    proof fn lemma_ops(a: Self, b: Self) {
        unsigned_int_max_values();
    }

    fn width() -> (r: u32) {
        usize::BITS
    }

    fn zero_offset() -> (r: u128) {
        0
    }

    fn to_offset(self) -> (r: u128) {
        self as u128
    }

    fn from_offset(o: u128) -> (r: Self) {
        proof {
            unsigned_int_max_values();
        }
        o as usize
    }
}

impl Integer for isize {
    open spec fn bits() -> nat { isize::BITS as nat }

    open spec fn signed() -> bool { true }

    open spec fn value(self) -> int { self as int }

    proof fn lemma_bits() {
        unsigned_int_max_values();
        lemma_widths();
    }

    proof fn lemma_domain(self) {
        signed_int_min_max_values();
        lemma_pow2_adds((isize::BITS - 1) as nat, 1);
        lemma2_to64();
    }

    proof fn lemma_value_injective(self, other: Self) {
    }

    proof fn lemma_cmp(a: Self, b: Self) {
    }

    proof fn lemma_ops(a: Self, b: Self) {
        signed_int_min_max_values();
        lemma_pow2_adds((isize::BITS - 1) as nat, 1);
        lemma2_to64();
    }

    fn width() -> (r: u32) {
        isize::BITS
    }

    fn zero_offset() -> (r: u128) {
        proof {
            signed_int_min_max_values();
        }
        (0 - isize::MIN as i128) as u128
    }

    fn to_offset(self) -> (r: u128) {
        proof {
            signed_int_min_max_values();
        }
        (self as i128 - isize::MIN as i128) as u128
    }

    fn from_offset(o: u128) -> (r: Self) {
        proof {
            signed_int_min_max_values();
            lemma_pow2_adds((isize::BITS - 1) as nat, 1);
            lemma2_to64();
            unsigned_int_max_values();
        }
        (o as i128 + isize::MIN as i128) as isize
    }
}

} // verus!
