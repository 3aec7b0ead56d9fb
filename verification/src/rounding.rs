//! Rounding of exact fractions to whole units, halves away from zero.
use vstd::prelude::*;
use vstd::arithmetic::div_mod::lemma_fundamental_div_mod;

verus! {

/// An exact fraction `num / den`. Every fraction the library builds has a
/// positive denominator.
pub struct Ratio {
    pub num: int,
    pub den: int,
}

impl Ratio {
    /// The whole number `n` as a fraction.
    pub open spec fn whole(n: int) -> Ratio {
        Ratio { num: n, den: 1 }
    }

    /// `self + extra / per_unit`, over the common denominator.
    pub open spec fn plus_fraction(self, extra: int, per_unit: int) -> Ratio {
        Ratio { num: self.num * per_unit + extra * self.den, den: self.den * per_unit }
    }

    /// Whether `self > level`, for a fraction with a positive denominator.
    pub open spec fn exceeds(self, level: int) -> bool {
        self.num > level * self.den
    }

    /// The multiple of `step` nearest to the fraction, halves away from zero.
    pub open spec fn rounded_to(self, step: int) -> int {
        step * round_half_away(self.num, self.den * step)
    }
}

/// The largest magnitude that `round_ratio` accepts for either part of a
/// fraction (2 to the power 120).
pub const RATIO_LIMIT: i128 = 0x100_0000_0000_0000_0000_0000_0000_0000;

/// The integer nearest to `num / den`; a fraction that lies exactly halfway
/// between two integers goes to the one farther from zero.
pub open spec fn round_half_away(num: int, den: int) -> int
    recommends
        den > 0,
{
    if num >= 0 {
        (num + num + den) / (den + den)
    } else {
        -((den - num - num) / (den + den))
    }
}

/// `round_half_away(num, den)` is within half a unit of `num / den`, and of the
/// two candidates at a tie it is the one farther from zero.
pub proof fn lemma_round_is_nearest(num: int, den: int)
    requires
        den > 0,
    ensures
        num >= 0 ==> -den <= 2 * (num - round_half_away(num, den) * den) < den,
        num < 0 ==> -den < 2 * (num - round_half_away(num, den) * den) <= den,
{
    let r = round_half_away(num, den);
    if num >= 0 {
        let a = num + num + den;
        lemma_fundamental_div_mod(a, den + den);
        assert(a == (den + den) * r + a % (den + den));
        assert((den + den) * r == 2 * (r * den)) by (nonlinear_arith);
    } else {
        let a = den - num - num;
        let q = a / (den + den);
        lemma_fundamental_div_mod(a, den + den);
        assert(a == (den + den) * q + a % (den + den));
        assert((den + den) * q == 2 * (q * den)) by (nonlinear_arith);
        assert(r * den == -(q * den)) by (nonlinear_arith)
            requires
                r == -q,
        ;
    }
}

/// Only one integer is as near to `num / den` as `lemma_round_is_nearest` says.
pub proof fn lemma_round_is_unique(num: int, den: int, r: int)
    requires
        den > 0,
        num >= 0 ==> -den <= 2 * (num - r * den) < den,
        num < 0 ==> -den < 2 * (num - r * den) <= den,
    ensures
        r == round_half_away(num, den),
{
    let s = round_half_away(num, den);
    lemma_round_is_nearest(num, den);
    assert(r == s) by (nonlinear_arith)
        requires
            den > 0,
            -2 * den < 2 * (num - r * den) - 2 * (num - s * den) < 2 * den,
    ;
}

/// Scaling both parts of a fraction by the same positive factor does not
/// change what it rounds to.
pub proof fn lemma_round_scaled(num: int, den: int, k: int)
    requires
        den > 0,
        k > 0,
    ensures
        round_half_away(num * k, den * k) == round_half_away(num, den),
{
    let r = round_half_away(num, den);
    lemma_round_is_nearest(num, den);
    assert(den * k > 0) by (nonlinear_arith)
        requires
            den > 0,
            k > 0,
    ;
    assert(2 * (num * k - r * (den * k)) == (2 * (num - r * den)) * k) by (nonlinear_arith);
    let e = 2 * (num - r * den);
    assert(num >= 0 ==> num * k >= 0) by (nonlinear_arith)
        requires
            k > 0,
    ;
    assert(num < 0 ==> num * k < 0) by (nonlinear_arith)
        requires
            k > 0,
    ;
    assert(-den <= e ==> -(den * k) <= e * k) by (nonlinear_arith)
        requires
            k > 0,
    ;
    assert(-den < e ==> -(den * k) < e * k) by (nonlinear_arith)
        requires
            k > 0,
    ;
    assert(e <= den ==> e * k <= den * k) by (nonlinear_arith)
        requires
            k > 0,
    ;
    assert(e < den ==> e * k < den * k) by (nonlinear_arith)
        requires
            k > 0,
    ;
    lemma_round_is_unique(num * k, den * k, r);
}

/// A whole number rounds to itself.
pub proof fn lemma_round_whole(n: int, den: int)
    requires
        den > 0,
    ensures
        round_half_away(n * den, den) == n,
{
    assert(n >= 0 ==> n * den >= 0) by (nonlinear_arith)
        requires
            den > 0,
    ;
    assert(n < 0 ==> n * den < 0) by (nonlinear_arith)
        requires
            den > 0,
    ;
    lemma_round_is_unique(n * den, den, n);
}

/// A value that lies within `bound` units rounds to within `bound`.
pub proof fn lemma_round_within(num: int, den: int, bound: int)
    requires
        den > 0,
        bound >= 0,
        -(bound * den) <= num <= bound * den,
    ensures
        -bound <= round_half_away(num, den) <= bound,
{
    let r = round_half_away(num, den);
    lemma_round_is_nearest(num, den);
    assert(-bound <= r <= bound) by (nonlinear_arith)
        requires
            den > 0,
            bound >= 0,
            -(bound * den) <= num <= bound * den,
            -den <= 2 * (num - r * den) <= den,
    ;
}

/// Rounds `num / den` to the nearest integer, halves away from zero.
pub fn round_ratio(num: i128, den: i128) -> (r: i128)
    requires
        0 < den <= RATIO_LIMIT,
        -RATIO_LIMIT <= num <= RATIO_LIMIT,
    ensures
        r == round_half_away(num as int, den as int),
{
    if num >= 0 {
        (num + num + den) / (den + den)
    } else {
        let q: i128 = (den - num - num) / (den + den);
        assert(0 <= q <= den - num - num) by (nonlinear_arith)
            requires
                q == (den - num - num) / (den + den),
                den > 0,
                den - num - num >= 0,
        ;
        -q
    }
}

} // verus!
