//! The wallet-holdings synthesizer.
//!
//! A snapshot declares only an aggregate top-holder percentage and a
//! holder count; the scorer needs a per-holder distribution.  This
//! module fabricates one: the top decile of holders receives linearly
//! decaying slices of the declared top-holder percentage, and whatever
//! remains of one hundred percent is pooled into a single aggregate
//! bucket standing for all remaining holders.  Only the values matter
//! downstream, so the distribution is a plain vector of shares in
//! micro-units.

use vstd::prelude::*;

verus! {

use crate::fixed::{SCALE, tdiv, lemma_tdiv_bounded};
use crate::token::TokenData;
use vstd::arithmetic::div_mod::{
    lemma_div_is_ordered,
    lemma_div_is_ordered_by_denominator,
    lemma_div_multiples_vanish,
};

/// Bound on the magnitude of one synthesized share, in micro-units.
pub const MAX_HOLDING_MICROS: i64 = 10_000_000_000_000;

/// Bound on the number of entries of a synthesized distribution.
pub const MAX_HOLDINGS_LEN: usize = 200_000;

/// How many holders form the explicitly modelled top decile:
/// a tenth of the holder count, rounded up.
pub open spec fn spec_top_count(n: int) -> int {
    (n + 9) / 10
}

/// The share handed to top holder `i`: the declared top-holder
/// percentage decayed by a tenth per rank.
pub open spec fn spec_top_share(perc: int, i: int) -> int {
    tdiv(perc * (10 - i), 10)
}

/// The sum of the first `t` top-decile shares.
pub open spec fn spec_top_sum(perc: int, t: int) -> int
    decreases t,
{
    if t <= 0 {
        0
    } else {
        spec_top_sum(perc, t - 1) + spec_top_share(perc, t - 1)
    }
}

/// The single aggregate bucket for the `n - top_count` remaining
/// holders: the remainder to one hundred percent, split evenly.
pub open spec fn spec_remainder_bucket(perc: int, n: int) -> int {
    tdiv(100 * (SCALE as int) - spec_top_sum(perc, spec_top_count(n)), n - spec_top_count(n))
}

/// Length of the synthesized distribution.
pub open spec fn spec_holdings_len(perc: int, n: int) -> int {
    spec_top_count(n) + if n - spec_top_count(n) > 0 {
        1int
    } else {
        0int
    }
}

/// The whole synthesized distribution of one snapshot, as a sequence:
/// the decaying top-decile shares, then the remainder bucket when any
/// holders remain below the decile.
pub open spec fn spec_holdings_of(token: &TokenData) -> Seq<i64> {
    if token.attributes.audit is Some && token.attributes.holders_count is Some {
        let perc = token.attributes.audit->Some_0.top_holders_perc as int;
        let n = token.attributes.holders_count->Some_0 as int;
        let t = spec_top_count(n);
        Seq::new(
            spec_holdings_len(perc, n) as nat,
            |i: int|
                if i < t {
                    spec_top_share(perc, i) as i64
                } else {
                    spec_remainder_bucket(perc, n) as i64
                },
        )
    } else {
        Seq::empty()
    }
}

/// Synthesizes the per-holder distribution for one snapshot.
///
/// With no audit or no holder count the distribution is empty (and the
/// base concentration downstream is zero).  Otherwise the first
/// `spec_top_count` entries are the decaying top-decile shares and, when
/// any holders remain below the decile, one final aggregate bucket
/// carries the remainder to one hundred percent.
pub fn generate_wallet_holdings(token: &TokenData) -> (r: Vec<i64>)
    requires
        token.wf(),
    ensures
        r@.len() <= MAX_HOLDINGS_LEN,
        forall|i: int|
            0 <= i < r@.len() ==> -MAX_HOLDING_MICROS <= #[trigger] r@[i] <= MAX_HOLDING_MICROS,
        (token.attributes.audit is None || token.attributes.holders_count is None) ==> r@.len()
            == 0,
        r@ =~= spec_holdings_of(token),
        (token.attributes.audit is Some && token.attributes.holders_count is Some) ==> {
            let perc = token.attributes.audit->Some_0.top_holders_perc as int;
            let n = token.attributes.holders_count->Some_0 as int;
            let t = spec_top_count(n);
            &&& r@.len() == spec_holdings_len(perc, n)
            &&& (forall|i: int| 0 <= i < t ==> #[trigger] r@[i] == spec_top_share(perc, i))
            &&& (n - t > 0 ==> r@[t] == spec_remainder_bucket(perc, n))
        },
{
    let mut holdings: Vec<i64> = Vec::new();
    let (perc, n) = match (&token.attributes.audit, &token.attributes.holders_count) {
        (Some(a), Some(n)) => (a.top_holders_perc, *n),
        _ => {
            return holdings;
        },
    };
    let top_n: u32 = (n + 9) / 10;
    let ghost percg = perc as int;
    assert(top_n as int == spec_top_count(n as int));
    assert(top_n <= 100_001);

    let mut sum: i64 = 0;
    let mut i: u32 = 0;
    while i < top_n
        invariant
            percg == perc as int,
            0 <= perc <= 100_000_000,
            top_n <= 100_001,
            i <= top_n,
            holdings@.len() == i as int,
            forall|j: int| 0 <= j < i as int ==> #[trigger] holdings@[j] == spec_top_share(percg, j),
            forall|j: int|
                0 <= j < i as int ==> -1_000_200_000_000 <= #[trigger] holdings@[j]
                    <= 1_000_200_000_000,
            sum == spec_top_sum(percg, i as int),
            -(i as int) * 1_000_200_000_000 <= sum <= (i as int) * 1_000_200_000_000,
        decreases top_n - i,
    {
        let factor: i64 = 10 - (i as i64);
        proof {
            assert(-10_002_000_000_000 <= perc as int * (factor as int) <= 10_002_000_000_000)
                by (nonlinear_arith)
                requires
                    0 <= perc as int <= 100_000_000,
                    -100_010 <= factor as int <= 10,
            ;
        }
        let base: i64 = perc * factor;
        proof {
            lemma_tdiv_bounded(base as int, 10, 10_002_000_000_000);
        }
        let share: i64 = base / 10;
        holdings.push(share);
        sum = sum + share;
        proof {
            assert(base as int == percg * (10 - i as int));
            assert(share == spec_top_share(percg, i as int));
            assert(spec_top_sum(percg, i as int + 1) == spec_top_sum(percg, i as int)
                + spec_top_share(percg, i as int));
        }
        i = i + 1;
    }

    let remaining: i64 = 100 * SCALE - sum;
    let k: u32 = n - top_n;
    if k > 0 {
        proof {
            let rem = remaining as int;
            let t = top_n as int;
            assert(-100_020_100_000_000_000 <= rem <= 100_020_100_000_000_000);
            if t <= 1 {
                assert(-1_000_300_000_000 <= rem <= 1_000_300_000_000);
                lemma_tdiv_bounded(rem, k as int, 1_000_300_000_000);
                lemma_div_is_ordered(1_000_300_000_000, MAX_HOLDING_MICROS as int, k as int);
                assert(1_000_300_000_000int / (k as int) <= 1_000_300_000_000) by {
                    lemma_tdiv_bounded(1_000_300_000_000, k as int, 1_000_300_000_000);
                }
            } else {
                // With at least two modelled top holders, at least
                // nine times as many holders share the remainder.
                assert(10 * t <= n as int + 9);
                assert(k as int >= 9 * t - 9);
                assert(9 * t - 9 >= 1);
                let m = 100_000_000 + t * 1_000_200_000_000;
                assert(-m <= rem <= m);
                assert(m <= MAX_HOLDING_MICROS as int * (9 * t - 9));
                lemma_tdiv_bounded(rem, k as int, m);
                lemma_div_is_ordered_by_denominator(m, 9 * t - 9, k as int);
                lemma_div_is_ordered(m, MAX_HOLDING_MICROS as int * (9 * t - 9), 9 * t - 9);
                lemma_div_multiples_vanish(MAX_HOLDING_MICROS as int, 9 * t - 9);
            }
        }
        let bucket: i64 = remaining / (k as i64);
        holdings.push(bucket);
    }
    holdings
}

} // verus!
