use vstd::prelude::*;
use vstd::arithmetic::power2::{lemma2_to64, lemma_pow2_adds, lemma_pow2_pos, lemma_pow2_unfold, pow2};
use vstd::arithmetic::div_mod::{lemma_div_by_self, lemma_div_multiples_vanish};
use vstd::bits::lemma_u128_shr_is_div;
use crate::integer::{domain_min, lemma_widths, Integer};

verus! {

/// Distance of `v` from the smallest value of its domain.
pub open spec fn offset_of<T: Integer>(v: T) -> int {
    v.value() - domain_min(T::bits(), T::signed())
}

/// Largest offset in a domain of `bits` width.
pub open spec fn max_offset(bits: nat) -> int {
    pow2(bits) - 1
}

/// Rescales an offset from a domain of `from` bits to one of `to` bits: the low bits
/// are dropped when narrowing; when widening, the pattern is repeated over the wider
/// width, which multiplies the offset by `(2^to - 1) / (2^from - 1)`.
pub open spec fn scaled_offset(o: int, from: nat, to: nat) -> int {
    if to <= from {
        o / (pow2((from - to) as nat) as int)
    } else {
        o * (max_offset(to) / max_offset(from))
    }
}

/// Rescales a value from the full range of one domain onto the full range of
/// another, keeping its relative position.
pub trait Scale<T: Integer>: Integer {
    /// Scales this value to the domain `T`.
    fn scale(self) -> (r: T)
        ensures
            offset_of(r) == scaled_offset(offset_of(self), Self::bits(), T::bits()),
    ;
}

/// `2^bits - 1` for a supported width.
pub(crate) fn low_mask(bits: u32) -> (r: u128)
    requires
        bits == 8 || bits == 16 || bits == 32 || bits == 64 || bits == 128,
    ensures
        r == max_offset(bits as nat),
{
    proof {
        lemma_widths();
    }
    if bits == 8 {
        0xff
    } else if bits == 16 {
        0xffff
    } else if bits == 32 {
        0xffff_ffff
    } else if bits == 64 {
        0xffff_ffff_ffff_ffff
    } else {
        u128::MAX
    }
}

/// `1 << k` is the `k`-th power of two.
proof fn lemma_one_shl(k: u128)
    requires
        k < 128,
    ensures
        (1u128 << k) == pow2(k as nat),
    decreases k,
{
    if k == 0 {
        assert((1u128 << 0u128) == 1u128) by (bit_vector);
        lemma2_to64();
    } else {
        lemma_one_shl((k - 1) as u128);
        let j = (k - 1) as u128;
        assert((1u128 << k) == (1u128 << j) * 2) by (bit_vector)
            requires
                1 <= k < 128,
                j == k - 1,
        ;
        lemma_pow2_unfold(k as nat);
    }
}

/// Shifting left by `k` multiplies by `2^k` where the product fits.
proof fn lemma_shl_is_mul(x: u128, k: u128)
    requires
        k < 128,
        x * pow2(k as nat) <= u128::MAX,
    ensures
        (x << k) == x * pow2(k as nat),
    decreases k,
{
    if k == 0 {
        assert((x << 0u128) == x) by (bit_vector);
        lemma2_to64();
    } else {
        let j = (k - 1) as u128;
        lemma_pow2_unfold(k as nat);
        lemma_pow2_pos(j as nat);
        assert(x * pow2(j as nat) <= x * pow2(k as nat)) by (nonlinear_arith)
            requires
                pow2(k as nat) == 2 * pow2(j as nat),
                x >= 0,
        ;
        lemma_shl_is_mul(x, j);
        let y = x << j;
        assert(y * 2 == x * pow2(k as nat)) by (nonlinear_arith)
            requires
                y == x * pow2(j as nat),
                pow2(k as nat) == 2 * pow2(j as nat),
        ;
        assert((x << k) == y * 2) by (bit_vector)
            requires
                1 <= k < 128,
                j == k - 1,
                y == x << j,
                y * 2 <= u128::MAX,
        ;
    }
}

/// A value with its low `k` bits clear joined with a value below `2^k` is their sum.
proof fn lemma_disjoint_or(c: u128, b: u128, k: u128)
    requires
        k < 128,
        b < pow2(k as nat),
    ensures
        ((c << k) | b) == (c << k) + b,
{
    lemma_one_shl(k);
    assert(((c << k) | b) == (c << k) + b) by (bit_vector)
        requires
            k < 128,
            b < (1u128 << k),
    ;
}

/// Widens the offset `o` from `n` to `m` bits: shifts it into the high bits, then
/// fills the low bits by repeatedly joining the value with itself shifted right by
/// the width filled so far, doubling that width each time.
fn replicate(o: u128, n: u32, m: u32) -> (r: u128)
    requires
        n == 8 || n == 16 || n == 32 || n == 64,
        m == 16 || m == 32 || m == 64 || m == 128,
        n < m,
        o <= max_offset(n as nat),
    ensures
        r == o * (max_offset(m as nat) / max_offset(n as nat)),
{
    proof {
        lemma_widths();
        lemma_pow2_adds(n as nat, (m - n) as nat);
        assert(o * pow2((m - n) as nat) <= u128::MAX) by (nonlinear_arith)
            requires
                o <= pow2(n as nat) - 1,
                pow2(n as nat) * pow2((m - n) as nat) == pow2(m as nat),
                pow2(m as nat) <= 0x1_0000_0000_0000_0000_0000_0000_0000_0000,
                pow2((m - n) as nat) > 0,
                o >= 0,
        ;
        lemma_shl_is_mul(o, (m - n) as u128);
        lemma_div_by_self(max_offset(n as nat));
    }
    let mut res = o << ((m - n) as u128);
    let mut shift = n;
    while shift < m
        invariant
            shift == 8 || shift == 16 || shift == 32 || shift == 64 || shift == 128,
            n <= shift <= m,
            n == 8 || n == 16 || n == 32 || n == 64,
            m == 16 || m == 32 || m == 64 || m == 128,
            o <= max_offset(n as nat),
            res == o * (max_offset(shift as nat) / max_offset(n as nat)) * pow2(
                (m - shift) as nat,
            ),
        decreases m - shift,
    {
        let ghost s = shift as nat;
        let ghost f = max_offset(s) / max_offset(n as nat);
        let ghost a = o * f;
        let ghost p = pow2(s) as int;
        let ghost q = pow2((m - 2 * shift) as nat) as int;
        proof {
            lemma_widths();
            assert(2 * shift <= m);
            lemma_pow2_adds(s, (m - 2 * shift) as nat);
            lemma_pow2_adds(s, s);
            lemma_pow2_pos((m - 2 * shift) as nat);
            if s > n {
                lemma_replication_factor(n as nat, s);
            } else {
                lemma_div_by_self(max_offset(n as nat));
            }
            assert(max_offset(n as nat) * f == max_offset(s));
            assert(0 <= a <= p - 1) by (nonlinear_arith)
                requires
                    a == o * f,
                    0 <= o <= max_offset(n as nat),
                    max_offset(n as nat) * f == p - 1,
                    f >= 0,
            ;
            assert(res == a * (p * q));
            lemma_u128_shr_is_div(res, shift as u128);
            assert(a * (p * q) / p == a * q) by (nonlinear_arith)
                requires
                    p > 0,
                    q > 0,
            ;
            assert(a * q < p * q) by (nonlinear_arith)
                requires
                    0 <= a < p,
                    q > 0,
            ;
            lemma_shl_is_mul(a as u128, (m - shift) as u128);
            lemma_disjoint_or(a as u128, res >> (shift as u128), (m - shift) as u128);
        }
        res = res | (res >> (shift as u128));
        proof {
            let s2 = (2 * shift) as nat;
            let f2 = max_offset(s2) / max_offset(n as nat);
            if s2 < m || s2 == m {
                lemma_replication_factor(n as nat, s2);
            }
            assert(max_offset(n as nat) * f2 == max_offset(s2));
            assert(pow2(s2) == p * p);
            assert(f2 == f * (p + 1)) by (nonlinear_arith)
                requires
                    max_offset(n as nat) * f2 == p * p - 1,
                    max_offset(n as nat) * f == p - 1,
                    max_offset(n as nat) > 0,
            ;
            assert(res == a * (p * q) + a * q);
            assert(res == o * f2 * q) by (nonlinear_arith)
                requires
                    res == a * (p * q) + a * q,
                    a == o * f,
                    f2 == f * (p + 1),
            ;
        }
        shift = shift * 2;
    }
    proof {
        assert(pow2(0) == 1) by {
            lemma2_to64();
        }
        assert(shift == m);
        assert(res == o * (max_offset(m as nat) / max_offset(n as nat)) * 1);
    }
    res
}

impl<A: Integer, B: Integer> Scale<B> for A {
    fn scale(self) -> (r: B) {
        let o = self.to_offset();
        let n = A::width();
        let m = B::width();
        proof {
            self.lemma_domain();
            A::lemma_bits();
            B::lemma_bits();
            lemma_widths();
        }
        let s = if m <= n {
            proof {
                lemma_u128_shr_is_div(o, (n - m) as u128);
                let d = (n - m) as nat;
                lemma_pow2_adds(d, m as nat);
                lemma_pow2_pos(d);
                let p = pow2(d) as int;
                let q = pow2(m as nat) as int;
                assert(o as int / p < q) by (nonlinear_arith)
                    requires
                        0 <= o < p * q,
                        p > 0,
                ;
            }
            o >> ((n - m) as u128)
        } else {
            proof {
                let a = max_offset(n as nat);
                let b = max_offset(m as nat);
                let f = b / a;
                assert(o * f <= b) by (nonlinear_arith)
                    requires
                        0 <= o <= a,
                        a > 0,
                        b >= 0,
                        f == b / a,
                ;
            }
            replicate(o, n, m)
        };
        B::from_offset(s)
    }
}

/// `a * (b / a) == b` where `b` is a known multiple of `a`.
proof fn lemma_exact_quotient(a: int, b: int, k: int)
    requires
        a > 0,
        b == a * k,
    ensures
        a * (b / a) == b,
{
    lemma_div_multiples_vanish(k, a);
}

/// The replication factor divides exactly: repeating a pattern of `n` bits over `m`
/// bits maps the largest offset onto the largest offset.
pub proof fn lemma_replication_factor(n: nat, m: nat)
    requires
        n == 8 || n == 16 || n == 32 || n == 64 || n == 128,
        m == 8 || m == 16 || m == 32 || m == 64 || m == 128,
        n < m,
    ensures
        max_offset(n) * (max_offset(m) / max_offset(n)) == max_offset(m),
{
    lemma_widths();
    let a = max_offset(n);
    let b = max_offset(m);
    if n == 8 {
        if m == 16 {
            lemma_exact_quotient(a, b, 0x101);
        } else if m == 32 {
            lemma_exact_quotient(a, b, 0x1010101);
        } else if m == 64 {
            lemma_exact_quotient(a, b, 0x101010101010101);
        } else {
            lemma_exact_quotient(a, b, 0x1010101010101010101010101010101);
        }
    } else if n == 16 {
        if m == 32 {
            lemma_exact_quotient(a, b, 0x10001);
        } else if m == 64 {
            lemma_exact_quotient(a, b, 0x1000100010001);
        } else {
            lemma_exact_quotient(a, b, 0x10001000100010001000100010001);
        }
    } else if n == 32 {
        if m == 64 {
            lemma_exact_quotient(a, b, 0x100000001);
        } else {
            lemma_exact_quotient(a, b, 0x1000000010000000100000001);
        }
    } else if n == 64 {
        lemma_exact_quotient(a, b, 0x10000000000000001);
    }
}

/// Scaling keeps the extremes: the minimum of a domain goes to the minimum of the
/// other, the maximum to the maximum.
pub proof fn lemma_scale_keeps_extremes<A: Integer, B: Integer>()
    ensures
        scaled_offset(0, A::bits(), B::bits()) == 0,
        scaled_offset(max_offset(A::bits()), A::bits(), B::bits()) == max_offset(B::bits()),
{
    A::lemma_bits();
    B::lemma_bits();
    lemma_widths();
    let n = A::bits();
    let m = B::bits();
    if m <= n {
        lemma_pow2_adds((n - m) as nat, m);
        lemma_pow2_pos((n - m) as nat);
        let p = pow2((n - m) as nat) as int;
        let q = pow2(m) as int;
        assert(0int / p == 0);
        assert((p * q - 1) / p == q - 1) by (nonlinear_arith)
            requires
                p > 0,
                q > 0,
        ;
    } else {
        lemma_replication_factor(n, m);
    }
}

/// Scaling keeps the order: a value not above another is not scaled above it.
pub proof fn lemma_scale_monotonic<A: Integer, B: Integer>(a: A, b: A)
    requires
        a.value() <= b.value(),
    ensures
        scaled_offset(offset_of(a), A::bits(), B::bits()) <= scaled_offset(
            offset_of(b),
            A::bits(),
            B::bits(),
        ),
{
    a.lemma_domain();
    b.lemma_domain();
    A::lemma_bits();
    B::lemma_bits();
    lemma_widths();
    let n = A::bits();
    let m = B::bits();
    let x = offset_of(a);
    let y = offset_of(b);
    if m <= n {
        lemma_pow2_pos((n - m) as nat);
        let p = pow2((n - m) as nat) as int;
        assert(x / p <= y / p) by (nonlinear_arith)
            requires
                0 <= x <= y,
                p > 0,
        ;
    } else {
        let f = max_offset(m) / max_offset(n);
        assert(x * f <= y * f) by (nonlinear_arith)
            requires
                0 <= x <= y,
                f >= 0,
        ;
    }
}

/// Widening and then narrowing back gives the same offset.
pub proof fn lemma_scale_round_trip(o: int, n: nat, m: nat)
    requires
        n == 8 || n == 16 || n == 32 || n == 64 || n == 128,
        m == 8 || m == 16 || m == 32 || m == 64 || m == 128,
        n <= m,
        0 <= o <= max_offset(n),
    ensures
        scaled_offset(scaled_offset(o, n, m), m, n) == o,
{
    lemma_widths();
    if n == m {
        assert(pow2(0) == 1) by {
            vstd::arithmetic::power2::lemma2_to64();
        }
        assert((n - m) as nat == 0nat);
        assert(o / 1 == o);
        assert(scaled_offset(o, n, m) == o / (pow2(0) as int));
        assert(scaled_offset(o, n, m) == o);
    } else {
        lemma_replication_factor(n, m);
        let d = (m - n) as nat;
        lemma_pow2_adds(n, d);
        lemma_pow2_pos(d);
        let p = pow2(d) as int;
        let q = pow2(n) as int;
        let k = max_offset(m) / max_offset(n);
        assert((q - 1) * k == q * p - 1);
        assert((o * k) / p == o) by (nonlinear_arith)
            requires
                (q - 1) * k == q * p - 1,
                0 <= o <= q - 1,
                q > 1,
                p >= 1,
        ;
        assert(scaled_offset(o, n, m) == o * k);
        assert(scaled_offset(o * k, m, n) == (o * k) / p);
    }
}

} // verus!
