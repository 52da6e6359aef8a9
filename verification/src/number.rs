//! Double precision numbers, held by their IEEE 754 representation, and the
//! limits that a caller gives as such a number.
use vstd::arithmetic::power2::{
    lemma_pow2_adds, lemma_pow2_pos, lemma_pow2_strictly_increases, lemma_pow2_unfold, pow2,
};
use vstd::prelude::*;

verus! {

/// The most context lines that one match is shown with.
pub const MAX_CONTEXT_LINES: usize = 100;

/// 2 to the power 52: one more than the largest fraction field.
pub const FRACTION_SPAN: u64 = 0x10_0000_0000_0000;

/// 2 to the power 63: the weight of the sign bit.
pub const SIGN_WEIGHT: u64 = 0x8000_0000_0000_0000;

/// A double precision number (IEEE 754 binary64) as its 64 bits.
#[derive(Clone, Copy, Debug, PartialEq, Eq)]
pub struct Binary64 {
    pub bits: u64,
}

impl Binary64 {
    /// Whether the sign bit is set.
    pub open spec fn negative(self) -> bool {
        self.bits >= SIGN_WEIGHT
    }

    /// The biased exponent field.
    pub open spec fn exponent(self) -> int {
        (self.bits as int / FRACTION_SPAN as int) % 2048
    }

    /// The fraction field.
    pub open spec fn fraction(self) -> int {
        self.bits as int % FRACTION_SPAN as int
    }

    /// Whether the number is neither infinite nor a NaN.
    pub open spec fn finite(self) -> bool {
        self.exponent() != 2047
    }

    /// The significand of a finite number, as an integer.
    pub open spec fn significand(self) -> nat {
        if self.exponent() == 0 {
            self.fraction() as nat
        } else {
            (FRACTION_SPAN + self.fraction()) as nat
        }
    }

    /// The power of two that the significand of a finite number is scaled by:
    /// its magnitude is `significand * 2^scale`.
    pub open spec fn scale(self) -> int {
        if self.exponent() == 0 {
            -1074
        } else {
            self.exponent() - 1075
        }
    }

    /// Whether the number is finite and greater than zero.
    pub open spec fn positive(self) -> bool {
        self.finite() && !self.negative() && self.significand() > 0
    }

    /// Whether the number is finite and not less than zero; negative zero is
    /// not less than zero.
    pub open spec fn nonnegative(self) -> bool {
        self.finite() && (!self.negative() || self.significand() == 0)
    }

    /// The magnitude of a finite number, in units of `2^-1074`, the smallest
    /// one there is.
    pub open spec fn magnitude(self) -> nat {
        self.significand() * pow2((self.scale() + 1074) as nat)
    }

    /// The magnitude of a finite number, rounded to the nearest integer, with
    /// halves rounded up.
    pub open spec fn rounded(self) -> nat {
        let m = self.significand();
        if self.scale() >= 0 {
            m * pow2(self.scale() as nat)
        } else {
            let unit = pow2((-self.scale()) as nat);
            (2 * m + unit) / (2 * unit)
        }
    }

    /// The number whose representation is `bits`.
    pub fn from_bits(bits: u64) -> (number: Binary64)
        ensures
            number.bits == bits,
    {
        Binary64 { bits }
    }

    /// The significand and the biased exponent.
    fn parts(self) -> (parts: (u64, u64))
        ensures
            parts.0 == self.significand(),
            parts.0 < 2 * FRACTION_SPAN,
            parts.1 == self.exponent(),
            parts.1 < 2048,
            parts.1 > 0 ==> parts.0 >= FRACTION_SPAN,
    {
        let exponent: u64 = (self.bits / FRACTION_SPAN) % 2048;
        let fraction: u64 = self.bits % FRACTION_SPAN;
        let significand: u64 = if exponent == 0 { fraction } else { FRACTION_SPAN + fraction };
        (significand, exponent)
    }

    /// Whether the number is finite and greater than zero.
    pub fn is_positive(self) -> (yes: bool)
        ensures
            yes == self.positive(),
    {
        let (significand, exponent) = self.parts();
        exponent != 2047 && self.bits < SIGN_WEIGHT && significand > 0
    }

    /// Whether the number is finite and not less than zero.
    pub fn is_nonnegative(self) -> (yes: bool)
        ensures
            yes == self.nonnegative(),
    {
        let (significand, exponent) = self.parts();
        exponent != 2047 && (self.bits < SIGN_WEIGHT || significand == 0)
    }

    /// The magnitude rounded to the nearest integer, or the largest `u64`
    /// where that is smaller.
    fn round_to_u64(self) -> (n: u64)
        requires
            self.finite(),
        ensures
            n == if self.rounded() <= u64::MAX { self.rounded() as int } else { u64::MAX as int },
    {
        let (significand, exponent) = self.parts();
        if exponent >= 1075 {
            double_times(significand, exponent - 1075)
        } else {
            let halvings: u64 = if exponent == 0 { 1074 } else { 1075 - exponent };
            assert(halvings == -self.scale());
            if halvings >= 54 {
                proof {
                    let unit = pow2(halvings as nat);
                    lemma_pow2_pos(halvings as nat);
                    assert(pow2(54) == 0x40_0000_0000_0000) by {
                        vstd::arithmetic::power2::lemma2_to64();
                        vstd::arithmetic::power2::lemma2_to64_rest();
                    }
                    if halvings > 54 {
                        lemma_pow2_strictly_increases(54, halvings as nat);
                    }
                    assert((2 * significand + unit) / (2 * unit as int) == 0)
                        by (nonlinear_arith)
                        requires
                            0 <= 2 * significand < unit,
                    ;
                }
                0
            } else {
                let unit: u64 = double_times(1, halvings);
                proof {
                    assert(pow2(53) == 0x20_0000_0000_0000) by {
                        vstd::arithmetic::power2::lemma2_to64();
                        vstd::arithmetic::power2::lemma2_to64_rest();
                    }
                    lemma_pow2_pos(halvings as nat);
                    if halvings < 53 {
                        lemma_pow2_strictly_increases(halvings as nat, 53);
                    }
                }
                let n: u64 = (2 * significand + unit) / (2 * unit);
                assert(n <= u64::MAX);
                n
            }
        }
    }

    /// The magnitude rounded to the nearest integer, or the largest `usize`
    /// where that is smaller.
    pub fn round_to_usize(self) -> (n: usize)
        requires
            self.finite(),
        ensures
            n == saturated(self.rounded()),
    {
        let wide: u64 = self.round_to_u64();
        if wide <= usize::MAX as u64 {
            wide as usize
        } else {
            usize::MAX
        }
    }
}

/// A number that is at most the largest `usize`.
pub open spec fn saturated(n: nat) -> usize {
    if n <= usize::MAX {
        n as usize
    } else {
        usize::MAX
    }
}

/// A number doubled `times` times, or the largest `u64` where that is smaller.
fn double_times(n: u64, times: u64) -> (out: u64)
    requires
        n > 0,
    ensures
        out == if n * pow2(times as nat) <= u64::MAX {
            n * pow2(times as nat)
        } else {
            u64::MAX as int
        },
{
    let mut out: u64 = n;
    let mut i: u64 = 0;
    assert(pow2(0) == 1) by {
        vstd::arithmetic::power2::lemma2_to64();
    }
    while i < times
        invariant
            n > 0,
            i <= times,
            out == n * pow2(i as nat),
        decreases times - i,
    {
        proof {
            vstd::arithmetic::power2::lemma_pow2_unfold(i as nat + 1);
            let p = pow2(i as nat);
            assert(n * (2 * p) == 2 * (n * p)) by (nonlinear_arith);
        }
        if out > u64::MAX / 2 {
            proof {
                if i + 1 < times {
                    lemma_pow2_strictly_increases(i as nat + 1, times as nat);
                }
                let p = pow2(i as nat + 1);
                let q = pow2(times as nat);
                assert(n * p <= n * q) by (nonlinear_arith)
                    requires
                        n > 0,
                        p <= q,
                ;
            }
            return u64::MAX;
        }
        out = 2 * out;
        i += 1;
    }
    out
}

/// The limit that a request asks for: a number greater than zero, rounded to
/// an integer of at least one. Without a number, and for one that is zero,
/// negative, infinite or a NaN, it is the default.
pub open spec fn max_results_of(raw: Option<Binary64>, default_limit: usize) -> usize {
    match raw {
        Some(v) => if v.positive() {
            if v.rounded() >= 1 {
                saturated(v.rounded())
            } else {
                1
            }
        } else {
            default_limit
        },
        None => default_limit,
    }
}

/// The number of context lines that a request asks for: a number not less
/// than zero, rounded to an integer and cut at [`MAX_CONTEXT_LINES`]. A
/// negative number, an infinite one and a NaN ask for nothing.
pub open spec fn context_of(raw: Option<Binary64>) -> Option<usize> {
    match raw {
        Some(v) => if v.nonnegative() {
            if v.rounded() <= MAX_CONTEXT_LINES {
                Some(v.rounded() as usize)
            } else {
                Some(MAX_CONTEXT_LINES)
            }
        } else {
            None
        },
        None => None,
    }
}

/// Reads the limit that a request asks for.
pub fn normalize_max_results(raw: Option<Binary64>, default_limit: usize) -> (limit: usize)
    ensures
        limit == max_results_of(raw, default_limit),
{
    match raw {
        None => default_limit,
        Some(v) => if !v.is_positive() {
            default_limit
        } else {
            let n: usize = v.round_to_usize();
            if n < 1 {
                1
            } else {
                n
            }
        },
    }
}

/// Reads the number of context lines that a request asks for.
pub fn normalize_context(raw: Option<Binary64>) -> (lines: Option<usize>)
    ensures
        lines == context_of(raw),
{
    match raw {
        None => None,
        Some(v) => if !v.is_nonnegative() {
            None
        } else {
            let n: usize = v.round_to_usize();
            if n > MAX_CONTEXT_LINES {
                Some(MAX_CONTEXT_LINES)
            } else {
                Some(n)
            }
        },
    }
}

/// Rounding gives the nearest integer, and of two that are equally near the
/// greater: a magnitude of `m / unit` lies from half below the rounded number,
/// which is included, to half above it, which is not.
pub proof fn rounding_is_to_nearest(v: Binary64)
    requires
        v.finite(),
        v.scale() < 0,
    ensures
        ({
            let n = v.rounded();
            let unit = pow2((-v.scale()) as nat);
            (2 * n - 1) * unit <= 2 * v.significand() < (2 * n + 1) * unit
        }),
{
    let n = v.rounded() as int;
    let unit = pow2((-v.scale()) as nat) as int;
    let m = v.significand() as int;
    lemma_pow2_pos((-v.scale()) as nat);
    vstd::arithmetic::div_mod::lemma_fundamental_div_mod(2 * m + unit, 2 * unit);
    vstd::arithmetic::div_mod::lemma_mod_bound(2 * m + unit, 2 * unit);
    assert((2 * n - 1) * unit == (2 * unit) * n - unit) by (nonlinear_arith);
    assert((2 * n + 1) * unit == (2 * unit) * n + unit) by (nonlinear_arith);
}

/// A finite number is rounded like its magnitude, counted in units of `2^-1074`.
proof fn rounded_by_magnitude(v: Binary64)
    requires
        v.finite(),
    ensures
        v.rounded() == (2 * v.magnitude() + pow2(1074)) / (2 * pow2(1074)),
{
    let m = v.significand() as int;
    let whole = pow2(1074) as int;
    lemma_pow2_pos(1074);
    let shift = (v.scale() + 1074) as nat;
    lemma_pow2_pos(shift);
    let p = pow2(shift) as int;
    if v.scale() >= 0 {
        let k = pow2(v.scale() as nat) as int;
        lemma_pow2_adds(v.scale() as nat, 1074);
        let n = m * k;
        assert(2 * (m * p) + whole == (2 * whole) * n + whole) by (nonlinear_arith)
            requires
                p == k * whole,
                n == m * k,
        ;
        vstd::arithmetic::div_mod::lemma_div_multiples_vanish_fancy(n, whole, 2 * whole);
    } else {
        let unit = pow2((-v.scale()) as nat) as int;
        lemma_pow2_pos((-v.scale()) as nat);
        lemma_pow2_adds(shift, (-v.scale()) as nat);
        assert(2 * (m * p) + whole == p * (2 * m + unit)) by (nonlinear_arith)
            requires
                whole == p * unit,
        ;
        assert(2 * whole == p * (2 * unit)) by (nonlinear_arith)
            requires
                whole == p * unit,
        ;
        vstd::arithmetic::div_mod::lemma_div_multiples_vanish_quotient(p, 2 * m + unit, 2 * unit);
    }
}

/// Positive numbers are ordered like their representations.
pub proof fn bits_are_ordered_like_magnitudes(v: Binary64, w: Binary64)
    requires
        v.positive(),
        w.positive(),
        v.bits <= w.bits,
    ensures
        v.magnitude() <= w.magnitude(),
{
    let m = v.significand() as int;
    let n = w.significand() as int;
    let low = (v.scale() + 1074) as nat;
    let high = (w.scale() + 1074) as nat;
    let p = pow2(low) as int;
    let q = pow2(high) as int;
    lemma_pow2_pos(low);
    lemma_pow2_pos(high);
    if low == high {
        assert(m <= n);
        assert(m * p <= n * p) by (nonlinear_arith)
            requires
                m <= n,
                p > 0,
        ;
    } else {
        assert(low < high);
        lemma_pow2_unfold((low + 1) as nat);
        if low + 1 < high {
            lemma_pow2_strictly_increases((low + 1) as nat, high);
        }
        assert(m <= 2 * n);
        assert(m * p <= n * q) by (nonlinear_arith)
            requires
                0 <= m <= 2 * n,
                0 < 2 * p <= q,
        ;
    }
}

/// A greater number never asks for a smaller limit, and a number greater than
/// zero never for none, whatever the defaults are.
pub proof fn limit_is_monotone(
    v: Binary64,
    w: Binary64,
    default_limit: usize,
    other_default: usize,
)
    requires
        v.positive(),
        w.positive(),
        v.bits <= w.bits,
    ensures
        1 <= max_results_of(Some(v), default_limit) <= max_results_of(Some(w), other_default),
{
    bits_are_ordered_like_magnitudes(v, w);
    rounded_by_magnitude(v);
    rounded_by_magnitude(w);
    lemma_pow2_pos(1074);
    vstd::arithmetic::div_mod::lemma_div_is_ordered(
        (2 * v.magnitude() + pow2(1074)) as int,
        (2 * w.magnitude() + pow2(1074)) as int,
        (2 * pow2(1074)) as int,
    );
}

/// A limit is never zero, whatever number a request gives, as long as the
/// default is not.
pub proof fn limit_is_never_zero(raw: Option<Binary64>, default_limit: usize)
    requires
        default_limit >= 1,
    ensures
        max_results_of(raw, default_limit) >= 1,
{
}

/// No request gets more than [`MAX_CONTEXT_LINES`] context lines.
pub proof fn context_is_bounded(raw: Option<Binary64>)
    ensures
        context_of(raw) matches Some(lines) ==> lines <= MAX_CONTEXT_LINES,
{
}

/// The numbers greater than zero are those whose bits lie above zero and below
/// those of infinity. The numbers not less than zero are these, zero, and
/// negative zero, which has the sign bit alone.
pub proof fn bits_tell_sign(v: Binary64)
    ensures
        v.positive() <==> 0 < v.bits < 0x7ff0_0000_0000_0000,
        v.nonnegative() <==> v.bits < 0x7ff0_0000_0000_0000 || v.bits == 0x8000_0000_0000_0000,
{
    assert(FRACTION_SPAN == 0x10_0000_0000_0000);
    assert(SIGN_WEIGHT == 0x8000_0000_0000_0000);
    let b = v.bits as int;
    let high = b / 0x10_0000_0000_0000;
    assert(b == high * 0x10_0000_0000_0000 + v.fraction());
    assert(0 <= high < 4096);
    if high < 2048 {
        assert(v.exponent() == high);
    } else {
        assert(v.exponent() == high - 2048);
    }
}

/// The magnitude of a number that is not less than zero, in units of `2^-1074`:
/// the bits themselves up to `2^52`; beyond it the eleven bits in front say how
/// often the fraction, with one more bit in front of it, is doubled.
pub proof fn bits_give_magnitude(v: Binary64)
    requires
        v.bits < 0x7ff0_0000_0000_0000,
    ensures
        v.bits < 0x10_0000_0000_0000 ==> v.magnitude() == v.bits,
        v.bits >= 0x10_0000_0000_0000 ==> v.magnitude() == (0x10_0000_0000_0000 + v.bits as int
            % 0x10_0000_0000_0000) * pow2((v.bits as int / 0x10_0000_0000_0000 - 1) as nat),
{
    assert(FRACTION_SPAN == 0x10_0000_0000_0000);
    let b = v.bits as int;
    let high = b / 0x10_0000_0000_0000;
    assert(0 <= high < 2047);
    assert(v.exponent() == high);
    if high == 0 {
        assert(v.scale() + 1074 == 0);
        vstd::arithmetic::power2::lemma2_to64();
        assert(pow2(0) == 1);
        assert(v.significand() == b);
        let p = pow2(0) as int;
        assert(b * p == b) by (nonlinear_arith)
            requires
                p == 1,
        ;
    }
}

/// The nearest integer to a magnitude, the greater of two that are as near.
proof fn nearest_to_magnitude(v: Binary64)
    requires
        v.finite(),
    ensures
        ({
            let n = v.rounded() as int;
            let unit = pow2(1074) as int;
            (2 * n - 1) * unit <= 2 * v.magnitude() < (2 * n + 1) * unit
        }),
{
    rounded_by_magnitude(v);
    let n = v.rounded() as int;
    let unit = pow2(1074) as int;
    let m = v.magnitude() as int;
    lemma_pow2_pos(1074);
    vstd::arithmetic::div_mod::lemma_fundamental_div_mod(2 * m + unit, 2 * unit);
    vstd::arithmetic::div_mod::lemma_mod_bound(2 * m + unit, 2 * unit);
    assert((2 * n - 1) * unit == (2 * unit) * n - unit) by (nonlinear_arith);
    assert((2 * n + 1) * unit == (2 * unit) * n + unit) by (nonlinear_arith);
}

/// A number greater than zero asks for the nearest limit there is: the integer
/// that it differs from by a half at most, the greater of two; at least one,
/// and at most the largest limit. Any other number, and none, leave the
/// default.
pub proof fn limit_is_nearest(raw: Option<Binary64>, default_limit: usize)
    ensures
        ({
            let limit = max_results_of(raw, default_limit) as int;
            let unit = pow2(1074) as int;
            match raw {
                Some(v) => if 0 < v.bits < 0x7ff0_0000_0000_0000 {
                    &&& limit >= 1
                    &&& limit > 1 ==> (2 * limit - 1) * unit <= 2 * v.magnitude()
                    &&& limit < usize::MAX ==> 2 * v.magnitude() < (2 * limit + 1) * unit
                } else {
                    limit == default_limit
                },
                None => limit == default_limit,
            }
        }),
{
    if let Some(v) = raw {
        bits_tell_sign(v);
        if v.positive() {
            nearest_to_magnitude(v);
            let n = v.rounded() as int;
            let unit = pow2(1074) as int;
            let limit = max_results_of(raw, default_limit) as int;
            lemma_pow2_pos(1074);
            if n < 1 {
                assert((2 * n + 1) * unit <= (2 * limit + 1) * unit) by (nonlinear_arith)
                    requires
                        n <= limit,
                        unit > 0,
                ;
            }
            if n > limit {
                assert((2 * limit - 1) * unit <= (2 * n - 1) * unit) by (nonlinear_arith)
                    requires
                        limit <= n,
                        unit > 0,
                ;
            }
        }
    }
}

/// A number not less than zero asks for the nearest number of context lines, a
/// hundred at most. Any other number, and none, ask for nothing.
pub proof fn context_is_nearest(raw: Option<Binary64>)
    ensures
        ({
            let unit = pow2(1074) as int;
            let asked = raw matches Some(v) && (v.bits < 0x7ff0_0000_0000_0000 || v.bits
                == 0x8000_0000_0000_0000);
            &&& context_of(raw) is Some <==> asked
            &&& asked ==> {
                let lines = context_of(raw)->0 as int;
                let v = raw->0;
                &&& 0 <= lines <= 100
                &&& (2 * lines - 1) * unit <= 2 * v.magnitude()
                &&& lines < 100 ==> 2 * v.magnitude() < (2 * lines + 1) * unit
            }
        }),
{
    if let Some(v) = raw {
        bits_tell_sign(v);
        if v.nonnegative() {
            nearest_to_magnitude(v);
            let n = v.rounded() as int;
            let unit = pow2(1074) as int;
            lemma_pow2_pos(1074);
            if n > 100 {
                assert((2 * 100 - 1) * unit <= (2 * n - 1) * unit) by (nonlinear_arith)
                    requires
                        100 <= n,
                        unit > 0,
                ;
            }
        }
    }
}

/// A number that fits is kept, and any greater one becomes the largest `usize`.
pub proof fn saturation_keeps_what_fits(n: nat)
    ensures
        n <= usize::MAX ==> saturated(n) == n,
        n > usize::MAX ==> saturated(n) == usize::MAX,
{
}

} // verus!
