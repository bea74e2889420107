//! The concentration and bot-adjustment engine.
//!
//! The base concentration is a Herfindahl-Hirschman index of the
//! synthesized holdings, in micro-units: the sum of squared shares over
//! the squared total.  When the holder count is known the small-sample
//! normalization `(hhi - 1/n) / (1 - 1/n)` is applied; it can be
//! negative for dispersed holdings and that is kept, not clamped.  The
//! normalization is undefined at `n = 1` (and inbound data can carry
//! `n = 0`), so for `n <= 1` the raw index is kept unchanged.
//! The adjusted concentration boosts the base by
//! `1 + bot_likelihood^(3/2)`, penalizing confident bot signals more
//! than linearly.

use vstd::prelude::*;

verus! {

use crate::bot::{spec_bot_likelihood, spec_trades_bounded};
use crate::fixed::{
    SCALE,
    tdiv,
    mul_div,
    pow_three_halves,
    spec_pow_three_halves,
    lemma_pow_three_halves_monotone,
    lemma_tdiv_ordered,
};
use crate::holdings::{MAX_HOLDING_MICROS, MAX_HOLDINGS_LEN};
use crate::token::TokenData;
use crate::trades::TradePattern;
use vstd::arithmetic::div_mod::{
    lemma_div_is_ordered,
    lemma_div_is_ordered_by_denominator,
    lemma_div_pos_is_pos,
    lemma_div_basics,
    lemma_div_by_multiple,
};

/// Largest base-concentration score the engine can produce, micro-units.
pub const MAX_BASE_SCORE: i128 = 50_000_000_000_000_000_000_000_000_000_000_000_000;

/// The total supply of a holdings distribution: the sum of its shares.
pub open spec fn spec_total(s: Seq<i64>) -> int
    decreases s.len(),
{
    if s.len() == 0 {
        0
    } else {
        spec_total(s.drop_last()) + s.last()
    }
}

/// The sum of the squared shares of a holdings distribution.
pub open spec fn spec_sum_squares(s: Seq<i64>) -> int
    decreases s.len(),
{
    if s.len() == 0 {
        0
    } else {
        spec_sum_squares(s.drop_last()) + s.last() * s.last()
    }
}

/// The raw Herfindahl-Hirschman index in micro-units: the sum of the
/// squared market shares, `sum((a_i / total)^2)`, as one exact integer
/// division `sum(a_i^2) * SCALE / total^2`.
pub open spec fn spec_raw_hhi(s: Seq<i64>) -> int {
    (spec_sum_squares(s) * (SCALE as int)) / (spec_total(s) * spec_total(s))
}

/// The small-sample normalization `(hhi - 1/n) / (1 - 1/n)` in
/// micro-units, rounding toward zero.  Undefined at `n = 1` in real
/// arithmetic, so the raw index is kept for `n <= 1`.
pub open spec fn spec_normalized_hhi(h: int, n: int) -> int {
    if n <= 1 {
        h
    } else {
        let inv = (SCALE as int) / n;
        tdiv((h - inv) * (SCALE as int), (SCALE as int) - inv)
    }
}

/// The base concentration of a holdings distribution: zero when the
/// distribution is empty or its total is not positive, else the raw
/// index, normalized when the holder count is known.
pub open spec fn spec_base_concentration(s: Seq<i64>, holders: Option<u32>) -> int {
    if s.len() == 0 || spec_total(s) <= 0 {
        0
    } else if holders is Some {
        spec_normalized_hhi(spec_raw_hhi(s), holders->Some_0 as int)
    } else {
        spec_raw_hhi(s)
    }
}

/// The conditions every holdings distribution handed to the scorer
/// satisfies; the synthesizer establishes them.
pub open spec fn spec_holdings_bounded(s: Seq<i64>) -> bool {
    &&& s.len() <= MAX_HOLDINGS_LEN
    &&& forall|i: int| 0 <= i < s.len() ==> -MAX_HOLDING_MICROS <= #[trigger] s[i]
        <= MAX_HOLDING_MICROS
}

/// Normalizing a full-concentration index leaves it at one: with
/// `hhi = 1`, `(1 - 1/n) / (1 - 1/n) == 1` for every `n >= 2`.
pub proof fn lemma_normalized_hhi_full(n: int)
    requires
        2 <= n,
    ensures
        spec_normalized_hhi(SCALE as int, n) == SCALE as int,
{
    let inv = (SCALE as int) / n;
    lemma_div_is_ordered_by_denominator(SCALE as int, 2, n);
    lemma_div_pos_is_pos(SCALE as int, n);
    assert((SCALE as int - inv) * (SCALE as int) == (SCALE as int) * (SCALE as int - inv))
        by (nonlinear_arith);
    lemma_div_by_multiple(SCALE as int, SCALE as int - inv);
    assert(((SCALE as int) * (SCALE as int - inv)) / (SCALE as int - inv) == SCALE as int);
}

/// Normalizing the index of a perfectly uniform distribution yields
/// zero: with `hhi = 1/n` the numerator vanishes.
pub proof fn lemma_normalized_hhi_uniform(n: int)
    requires
        2 <= n,
    ensures
        spec_normalized_hhi((SCALE as int) / n, n) == 0,
{
    let inv = (SCALE as int) / n;
    assert((inv - inv) * (SCALE as int) == 0) by (nonlinear_arith);
    lemma_div_is_ordered_by_denominator(SCALE as int, 2, n);
    assert(tdiv(0, (SCALE as int) - inv) == 0) by {
        vstd::arithmetic::div_mod::lemma_div_of0((SCALE as int) - inv);
    }
}

impl TokenData {
    /// The base concentration of a holdings distribution, in
    /// micro-units.  Zero for an empty distribution or one whose total
    /// is not positive; otherwise the Herfindahl-Hirschman index,
    /// normalized for the snapshot's holder count when that is known.
    pub fn calculate_wallet_concentration(&self, wallet_holdings: &Vec<i64>) -> (r: i128)
        requires
            self.wf(),
            spec_holdings_bounded(wallet_holdings@),
        ensures
            r == spec_base_concentration(wallet_holdings@, self.attributes.holders_count),
            (wallet_holdings@.len() == 0 || spec_total(wallet_holdings@) <= 0) ==> r == 0,
            -(SCALE as int) <= r <= MAX_BASE_SCORE,
    {
        let mut total: i64 = 0;
        let mut sumsq: i128 = 0;
        let mut i: usize = 0;
        while i < wallet_holdings.len()
            invariant
                spec_holdings_bounded(wallet_holdings@),
                i <= wallet_holdings@.len(),
                total == spec_total(wallet_holdings@.take(i as int)),
                sumsq == spec_sum_squares(wallet_holdings@.take(i as int)),
                -(i as int) * MAX_HOLDING_MICROS <= total <= (i as int) * MAX_HOLDING_MICROS,
                0 <= sumsq <= (i as int) * 100_000_000_000_000_000_000_000_000,
            decreases wallet_holdings@.len() - i,
        {
            let a = wallet_holdings[i];
            proof {
                assert(0 <= a as int * (a as int) <= 100_000_000_000_000_000_000_000_000int)
                    by (nonlinear_arith)
                    requires
                        -MAX_HOLDING_MICROS as int <= a as int <= MAX_HOLDING_MICROS as int,
                ;
                assert(wallet_holdings@.take(i as int + 1).drop_last() =~= wallet_holdings@.take(
                    i as int,
                ));
            }
            total = total + a;
            sumsq = sumsq + (a as i128) * (a as i128);
            i = i + 1;
        }
        proof {
            assert(wallet_holdings@.take(wallet_holdings@.len() as int) =~= wallet_holdings@);
        }

        if wallet_holdings.len() == 0 || total <= 0 {
            return 0;
        }

        let t: i128 = total as i128;
        proof {
            assert(1 <= t as int * (t as int) <= 4_000_000_000_000_000_000_000_000_000_000_000_000int)
                by (nonlinear_arith)
                requires
                    1 <= t as int <= 2_000_000_000_000_000_000int,
            ;
        }
        let denom: i128 = t * t;
        let num: i128 = sumsq * (SCALE as i128);
        let h: i128 = num / denom;
        proof {
            lemma_div_pos_is_pos(num as int, denom as int);
            lemma_div_is_ordered_by_denominator(num as int, 1, denom as int);
            lemma_div_basics(num as int);
            assert(h as int == spec_raw_hhi(wallet_holdings@));
            assert(0 <= h <= 20_000_000_000_000_000_000_000_000_000_000_000_000i128);
        }

        let n: u32 = match self.attributes.holders_count {
            Some(n) => n,
            None => {
                return h;
            },
        };
        if n <= 1 {
            return h;
        }

        let inv: i128 = (SCALE as i128) / (n as i128);
        proof {
            lemma_div_is_ordered_by_denominator(SCALE as int, 2, n as int);
            lemma_div_pos_is_pos(SCALE as int, n as int);
        }
        let den: i128 = SCALE as i128 - inv;
        if h >= inv {
            let r = mul_div(h - inv, SCALE as i128, den);
            proof {
                assert(r as int == tdiv((h as int - inv as int) * (SCALE as int), den as int));
            }
            r
        } else {
            let d: i128 = inv - h;
            let neg: i128 = d * (SCALE as i128) / den;
            proof {
                let di = d as int;
                let deni = den as int;
                assert((h as int - inv as int) * (SCALE as int) == -(di * (SCALE as int)))
                    by (nonlinear_arith)
                    requires
                        di == inv as int - h as int,
                ;
                lemma_div_pos_is_pos(di * (SCALE as int), deni);
                lemma_div_is_ordered(di * (SCALE as int), 500_000_000_000int, deni);
                lemma_div_is_ordered_by_denominator(500_000_000_000int, 500_000, deni);
            }
            -neg
        }
    }
}

/// The adjusted concentration: the base score boosted by
/// `1 + bot_likelihood^(3/2)`, rounding toward zero.
pub open spec fn spec_adjusted(base: int, bot: int) -> int {
    tdiv(base * ((SCALE as int) + spec_pow_three_halves(bot)), SCALE as int)
}

/// Combines a base concentration and a bot likelihood into the
/// adjusted concentration, exactly as `spec_adjusted` states.
pub fn adjust_concentration(base: i128, bot_likelihood: i64) -> (r: i128)
    requires
        -(SCALE as int) <= base <= MAX_BASE_SCORE,
        0 <= bot_likelihood <= SCALE,
    ensures
        r == spec_adjusted(base as int, bot_likelihood as int),
        -2_000_001 <= r <= 2 * MAX_BASE_SCORE as int + 2_000_000,
{
    let boost: i64 = pow_three_halves(bot_likelihood);
    let factor: i128 = (SCALE + boost) as i128;
    if base >= 0 {
        let r = mul_div(base, factor, SCALE as i128);
        proof {
            assert(r as int == tdiv(base as int * (factor as int), SCALE as int));
        }
        r
    } else {
        let m: i128 = -base;
        proof {
            let mi = m as int;
            assert(base as int * (factor as int) == -(mi * (factor as int))) by (nonlinear_arith)
                requires
                    mi == -(base as int),
            ;
            assert(0 <= mi * (factor as int) <= 2_000_000_000_000int) by (nonlinear_arith)
                requires
                    0 <= mi <= 1_000_000,
                    0 < factor as int <= 2_000_000,
            ;
            lemma_div_pos_is_pos(mi * (factor as int), SCALE as int);
            lemma_div_is_ordered(mi * (factor as int), 2_000_000_000_000int, SCALE as int);
        }
        let neg: i128 = m * factor / (SCALE as i128);
        -neg
    }
}

/// The adjusted concentration never decreases when the base
/// concentration grows or the bot likelihood grows, the base being
/// non-negative.
pub proof fn lemma_adjusted_monotone(base1: int, base2: int, bot1: int, bot2: int)
    requires
        0 <= base1 <= base2,
        0 <= bot1 <= bot2,
    ensures
        spec_adjusted(base1, bot1) <= spec_adjusted(base2, bot2),
{
    lemma_pow_three_halves_monotone(bot1, bot2);
    crate::fixed::lemma_pow_three_halves_nonneg(bot1);
    let f1 = (SCALE as int) + spec_pow_three_halves(bot1);
    let f2 = (SCALE as int) + spec_pow_three_halves(bot2);
    assert(base1 * f1 <= base2 * f2) by (nonlinear_arith)
        requires
            0 <= base1 <= base2,
            0 < f1 <= f2,
    ;
    lemma_tdiv_ordered(base1 * f1, base2 * f2, SCALE as int);
}

impl TokenData {
    /// The adjusted concentration of one snapshot's synthesized
    /// holdings and trades, in micro-units: the score handed to the
    /// risk classifiers.
    pub fn calculate_adjusted_concentration(
        &self,
        wallet_holdings: &Vec<i64>,
        trades: &Vec<TradePattern>,
    ) -> (r: i128)
        requires
            self.wf(),
            spec_holdings_bounded(wallet_holdings@),
            spec_trades_bounded(trades@),
        ensures
            r == spec_adjusted(
                spec_base_concentration(wallet_holdings@, self.attributes.holders_count),
                spec_bot_likelihood(self, trades@),
            ),
            -2_000_001 <= r <= 2 * MAX_BASE_SCORE as int + 2_000_000,
    {
        let base = self.calculate_wallet_concentration(wallet_holdings);
        let bot = self.detect_bot_patterns(trades);
        adjust_concentration(base, bot)
    }

    /// The fixed-threshold risk wording for an adjusted concentration:
    /// below `0.15` low, below `0.25` moderate, below `0.40` high,
    /// anything else very high.
    pub fn get_concentration_risk(&self, hhi: i128) -> (r: &'static str)
        ensures
            hhi < 150_000 ==> r@ == "Low Risk"@,
            150_000 <= hhi < 250_000 ==> r@ == "Moderate Risk"@,
            250_000 <= hhi < 400_000 ==> r@ == "High Risk"@,
            hhi >= 400_000 ==> r@ == "Very High Risk"@,
    {
        if hhi < 150_000 {
            "Low Risk"
        } else if hhi < 250_000 {
            "Moderate Risk"
        } else if hhi < 400_000 {
            "High Risk"
        } else {
            "Very High Risk"
        }
    }
}

} // verus!
