//! Fixed-point arithmetic in micro-units.
//!
//! One whole unit is `SCALE` micro-units.  Scores, prices, volumes and
//! percentages are all carried as signed integer counts of millionths;
//! a percentage of `12.5` is stored as `12_500_000`.

use vstd::prelude::*;

verus! {

use vstd::arithmetic::div_mod::lemma_div_is_ordered;

/// Micro-units per whole unit.
pub const SCALE: i64 = 1_000_000;

/// Division that rounds toward zero, as the executable `/` on signed
/// integers does.  Only used with a positive divisor.
pub open spec fn tdiv(a: int, b: int) -> int {
    if a >= 0 {
        a / b
    } else {
        -((-a) / b)
    }
}

/// Rounding toward zero is monotone in the dividend.
pub proof fn lemma_tdiv_ordered(a: int, b: int, d: int)
    requires
        a <= b,
        d > 0,
    ensures
        tdiv(a, d) <= tdiv(b, d),
{
    if a >= 0 {
        lemma_div_is_ordered(a, b, d);
    } else if b >= 0 {
        assert((-a) / d >= 0) by {
            lemma_div_is_ordered(0, -a, d);
        }
        assert(b / d >= 0) by {
            lemma_div_is_ordered(0, b, d);
        }
    } else {
        lemma_div_is_ordered(-b, -a, d);
    }
}

/// A bound on the dividend carries to a `1/d`-scaled bound on the
/// quotient, whichever its sign.
pub proof fn lemma_tdiv_bounded(a: int, d: int, m: int)
    requires
        d > 0,
        0 <= m,
        -m <= a <= m,
    ensures
        -(m / d) <= tdiv(a, d) <= m / d,
{
    if a >= 0 {
        lemma_div_is_ordered(a, m, d);
        lemma_div_is_ordered(0, a, d);
    } else {
        lemma_div_is_ordered(-a, m, d);
        lemma_div_is_ordered(0, -a, d);
    }
}

/// `a * c / d` for a non-negative `a` and a small scaling pair
/// `c <= 2 * d`, computed without forming the wide product `a * c`.
pub fn mul_div(a: i128, c: i128, d: i128) -> (r: i128)
    requires
        0 <= a <= 50_000_000_000_000_000_000_000_000_000_000_000_000i128,
        0 < d <= 1_000_000,
        0 < c <= 2 * d,
    ensures
        r == (a as int * c as int) / (d as int),
        0 <= r <= 2 * a as int + 2_000_000,
{
    let q: i128 = a / d;
    let rem: i128 = a % d;
    proof {
        let ai = a as int;
        let ci = c as int;
        let di = d as int;
        let qi = ai / di;
        let remi = ai % di;
        vstd::arithmetic::div_mod::lemma_fundamental_div_mod(ai, di);
        assert(qi * ci <= 2 * ai) by (nonlinear_arith)
            requires
                qi >= 0,
                di > 0,
                0 < ci <= 2 * di,
                di * qi <= ai,
        ;
        assert(qi >= 0) by {
            vstd::arithmetic::div_mod::lemma_div_pos_is_pos(ai, di);
        }
        assert(remi * ci < di * (2 * di)) by (nonlinear_arith)
            requires
                0 <= remi < di,
                0 < ci <= 2 * di,
        ;
        assert(remi * ci >= 0) by (nonlinear_arith)
            requires
                remi >= 0,
                ci > 0,
        ;
        lemma_div_is_ordered(0, remi * ci, di);
        vstd::arithmetic::div_mod::lemma_multiply_divide_lt(remi * ci, di, 2 * di);
        assert(di * (2 * di) <= 2_000_000_000_000int) by (nonlinear_arith)
            requires
                0 < di <= 1_000_000,
        ;
        assert((remi * ci) / di < 2 * di <= 2_000_000);
        // The decomposition is exact: a*c/d == q*c + rem*c/d.
        assert(ai * ci == remi * ci + (qi * ci) * di) by (nonlinear_arith)
            requires
                ai == di * qi + remi,
        ;
        vstd::arithmetic::div_mod::lemma_hoist_over_denominator(remi * ci, qi * ci, d as nat);
        assert((remi * ci) / di + qi * ci == (ai * ci) / di);
    }
    q * c + rem * c / d
}

/// The integer square root, defined by counting up.
pub open spec fn spec_isqrt(x: int) -> int
    decreases x,
{
    if x <= 0 {
        0
    } else {
        let r = spec_isqrt(x - 1);
        if (r + 1) * (r + 1) <= x {
            r + 1
        } else {
            r
        }
    }
}

/// `spec_isqrt(x)` is the unique `r >= 0` with `r * r <= x < (r + 1) * (r + 1)`.
pub proof fn lemma_isqrt_bounds(x: int)
    requires
        x >= 0,
    ensures
        0 <= spec_isqrt(x),
        spec_isqrt(x) * spec_isqrt(x) <= x,
        x < (spec_isqrt(x) + 1) * (spec_isqrt(x) + 1),
    decreases x,
{
    if x > 0 {
        lemma_isqrt_bounds(x - 1);
        let r = spec_isqrt(x - 1);
        if (r + 1) * (r + 1) <= x {
            assert(x < ((r + 1) + 1) * ((r + 1) + 1)) by (nonlinear_arith)
                requires
                    x - 1 < (r + 1) * (r + 1),
                    r >= 0,
            ;
        }
    }
}

/// Any `r` in the characteristic range of `x` is its integer square root.
pub proof fn lemma_isqrt_unique(x: int, r: int)
    requires
        0 <= r,
        r * r <= x,
        x < (r + 1) * (r + 1),
    ensures
        r == spec_isqrt(x),
{
    lemma_isqrt_bounds(x);
    let s = spec_isqrt(x);
    if r < s {
        assert((r + 1) * (r + 1) <= s * s) by (nonlinear_arith)
            requires
                0 <= r,
                r + 1 <= s,
        ;
    }
    if s < r {
        assert((s + 1) * (s + 1) <= r * r) by (nonlinear_arith)
            requires
                0 <= s,
                s + 1 <= r,
        ;
    }
}

/// The integer square root never decreases.
pub proof fn lemma_isqrt_monotone(x: int, y: int)
    requires
        0 <= x <= y,
    ensures
        spec_isqrt(x) <= spec_isqrt(y),
{
    lemma_isqrt_bounds(x);
    lemma_isqrt_bounds(y);
    let rx = spec_isqrt(x);
    let ry = spec_isqrt(y);
    if ry < rx {
        assert((ry + 1) * (ry + 1) <= rx * rx) by (nonlinear_arith)
            requires
                0 <= ry,
                ry + 1 <= rx,
        ;
    }
}

/// Executable integer square root, by binary search.
pub fn isqrt(x: u64) -> (r: u64)
    ensures
        r == spec_isqrt(x as int),
{
    let mut lo: u64 = 0;
    let mut hi: u64 = 4294967296;
    proof {
        assert((4294967296int) * 4294967296 > u64::MAX);
    }
    while lo + 1 < hi
        invariant
            lo < hi <= 4294967296,
            (lo as int) * (lo as int) <= x as int,
            (x as int) < (hi as int) * (hi as int),
        decreases hi - lo,
    {
        let mid = lo + (hi - lo) / 2;
        assert(lo < mid < hi);
        proof {
            assert((mid as int) * (mid as int) <= u64::MAX) by (nonlinear_arith)
                requires
                    0 <= mid as int <= 4294967295int,
            ;
        }
        if mid * mid <= x {
            lo = mid;
        } else {
            hi = mid;
        }
    }
    proof {
        lemma_isqrt_unique(x as int, lo as int);
    }
    lo
}

/// `m` raised to the power `3/2`, both argument and result in
/// micro-units of a value in `[0, 1]`: the boost that the adjusted
/// concentration applies for a bot likelihood of `m`.
pub open spec fn spec_pow_three_halves(m: int) -> int {
    spec_isqrt((m * m * m) / (SCALE as int))
}

/// The power `3/2` never decreases on `[0, SCALE]`.
pub proof fn lemma_pow_three_halves_monotone(a: int, b: int)
    requires
        0 <= a <= b,
    ensures
        spec_pow_three_halves(a) <= spec_pow_three_halves(b),
{
    assert(a * a * a <= b * b * b) by (nonlinear_arith)
        requires
            0 <= a <= b,
    ;
    assert(a * a * a >= 0) by (nonlinear_arith)
        requires
            0 <= a,
    ;
    lemma_div_is_ordered(a * a * a, b * b * b, SCALE as int);
    lemma_isqrt_monotone((a * a * a) / (SCALE as int), (b * b * b) / (SCALE as int));
}

/// The power `3/2` of a non-negative value is non-negative.
pub proof fn lemma_pow_three_halves_nonneg(m: int)
    requires
        0 <= m,
    ensures
        0 <= spec_pow_three_halves(m),
{
    assert(0 <= m * m * m) by (nonlinear_arith)
        requires
            0 <= m,
    ;
    lemma_div_is_ordered(0, m * m * m, SCALE as int);
    lemma_isqrt_bounds((m * m * m) / (SCALE as int));
}

/// Executable power `3/2` in micro-units.
pub fn pow_three_halves(m: i64) -> (r: i64)
    requires
        0 <= m <= SCALE,
    ensures
        r == spec_pow_three_halves(m as int),
        0 <= r <= SCALE,
{
    let mu: u64 = m as u64;
    proof {
        assert((mu as int) * (mu as int) <= 1_000_000_000_000int) by (nonlinear_arith)
            requires
                0 <= mu as int <= 1_000_000,
        ;
        assert((mu as int) * (mu as int) * (mu as int) <= 1_000_000_000_000_000_000int)
            by (nonlinear_arith)
            requires
                0 <= mu as int <= 1_000_000,
        ;
    }
    let sq: u64 = mu * mu;
    let cube: u64 = sq * mu;
    let c: u64 = cube / 1_000_000;
    let r = isqrt(c);
    proof {
        lemma_div_is_ordered(cube as int, 1_000_000_000_000_000_000int, 1_000_000int);
        lemma_isqrt_bounds(c as int);
        assert(spec_isqrt(c as int) <= 1_000_000) by {
            if spec_isqrt(c as int) > 1_000_000 {
                assert(spec_isqrt(c as int) * spec_isqrt(c as int) > 1_000_000_000_000int)
                    by (nonlinear_arith)
                    requires
                        spec_isqrt(c as int) > 1_000_000,
                ;
            }
        }
    }
    r as i64
}

} // verus!
