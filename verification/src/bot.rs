//! The bot-likelihood detector.
//!
//! Synthetic trades are grouped into clusters by the whole second of
//! their timestamp.  Every cluster of at least three trades is scored:
//! near-constant prices and amounts, a single trade side throughout,
//! and many trades from few wallets each add a fixed contribution.  A
//! token with any snipers adds a flat bonus.  The total saturates at
//! one (in micro-units).
//!
//! Variance thresholds are exact: the population variance of a cluster
//! of `n` values `x_i` is `(n * sum(x_i^2) - sum(x_i)^2) / n^2`, so
//! "price variance below `1e-5`" is the integer comparison
//! `n * sum(p^2) - sum(p)^2 < 10^7 * n^2` with prices in micro-units,
//! and "amount variance below `1e-3`" compares against `10^9 * n^2`.

use vstd::prelude::*;

verus! {

use crate::fixed::SCALE;
use crate::token::{TokenData, MAX_AMOUNT_MICROS};
use crate::trades::TradePattern;

/// The trades of `trades` whose timestamp falls in second `ts`, in order.
pub open spec fn spec_bucket_of(trades: Seq<TradePattern>, ts: i64) -> Seq<TradePattern>
    decreases trades.len(),
{
    if trades.len() == 0 {
        Seq::empty()
    } else {
        let rest = spec_bucket_of(trades.drop_last(), ts);
        if trades.last().timestamp == ts {
            rest.push(trades.last())
        } else {
            rest
        }
    }
}

/// The distinct timestamps of `trades`, in first-occurrence order.
pub open spec fn spec_keys(trades: Seq<TradePattern>) -> Seq<i64>
    decreases trades.len(),
{
    if trades.len() == 0 {
        Seq::empty()
    } else {
        let rest = spec_keys(trades.drop_last());
        if rest.contains(trades.last().timestamp) {
            rest
        } else {
            rest.push(trades.last().timestamp)
        }
    }
}

pub open spec fn spec_sum_prices(b: Seq<TradePattern>) -> int
    decreases b.len(),
{
    if b.len() == 0 {
        0
    } else {
        spec_sum_prices(b.drop_last()) + b.last().price
    }
}

pub open spec fn spec_sum_price_squares(b: Seq<TradePattern>) -> int
    decreases b.len(),
{
    if b.len() == 0 {
        0
    } else {
        spec_sum_price_squares(b.drop_last()) + b.last().price * b.last().price
    }
}

pub open spec fn spec_sum_amounts(b: Seq<TradePattern>) -> int
    decreases b.len(),
{
    if b.len() == 0 {
        0
    } else {
        spec_sum_amounts(b.drop_last()) + b.last().amount
    }
}

pub open spec fn spec_sum_amount_squares(b: Seq<TradePattern>) -> int
    decreases b.len(),
{
    if b.len() == 0 {
        0
    } else {
        spec_sum_amount_squares(b.drop_last()) + b.last().amount * b.last().amount
    }
}

/// Both the price variance and the amount variance of the cluster fall
/// below their thresholds (`1e-5` and `1e-3` square units).
pub open spec fn spec_low_variance(b: Seq<TradePattern>) -> bool {
    let n = b.len() as int;
    &&& n * spec_sum_price_squares(b) - spec_sum_prices(b) * spec_sum_prices(b) < 10_000_000 * (
    n * n)
    &&& n * spec_sum_amount_squares(b) - spec_sum_amounts(b) * spec_sum_amounts(b)
        < 1_000_000_000 * (n * n)
}

/// Every trade of the cluster is on the same side as the first; with
/// fewer than two trades this holds vacuously.
pub open spec fn spec_all_same_side(b: Seq<TradePattern>) -> bool {
    forall|i: int| 0 <= i < b.len() ==> (#[trigger] b[i]).trade_type == b[0].trade_type
}

/// Whether some trade of `b` carries the wallet label `w`.
pub open spec fn spec_wallet_in(b: Seq<TradePattern>, w: u64) -> bool {
    exists|j: int| 0 <= j < b.len() && b[j].wallet == w
}

/// The number of distinct wallet labels among the cluster's trades.
pub open spec fn spec_distinct_wallets(b: Seq<TradePattern>) -> int
    decreases b.len(),
{
    if b.len() == 0 {
        0
    } else {
        spec_distinct_wallets(b.drop_last()) + if spec_wallet_in(b.drop_last(), b.last().wallet) {
            0int
        } else {
            1int
        }
    }
}

/// The score of one same-second cluster, in micro-units: nothing below
/// three trades; otherwise `0.3` for near-constant prices and amounts,
/// `0.2` for a single trade side, and `0.3` for more than five trades
/// drawn from at most three wallets.
pub open spec fn spec_bucket_score(b: Seq<TradePattern>) -> int {
    if b.len() < 3 {
        0
    } else {
        (if spec_low_variance(b) {
            300_000int
        } else {
            0int
        }) + (if spec_all_same_side(b) {
            200_000int
        } else {
            0int
        }) + (if b.len() > 5 && spec_distinct_wallets(b) <= 3 {
            300_000int
        } else {
            0int
        })
    }
}

/// The summed scores of the clusters named by `keys`.
pub open spec fn spec_cluster_sum(trades: Seq<TradePattern>, keys: Seq<i64>) -> int
    decreases keys.len(),
{
    if keys.len() == 0 {
        0
    } else {
        spec_cluster_sum(trades, keys.drop_last()) + spec_bucket_score(
            spec_bucket_of(trades, keys.last()),
        )
    }
}

/// The flat bonus for declared snipers: `0.2` when any are present.
pub open spec fn spec_sniper_bonus(token: &TokenData) -> int {
    if token.attributes.snipers_count matches Some(c) && c > 0 {
        200_000
    } else {
        0
    }
}

/// The unclamped bot likelihood in micro-units.
pub open spec fn spec_raw_bot_likelihood(token: &TokenData, trades: Seq<TradePattern>) -> int {
    spec_sniper_bonus(token) + spec_cluster_sum(trades, spec_keys(trades))
}

/// The bot likelihood in micro-units, saturating at one.
pub open spec fn spec_bot_likelihood(token: &TokenData, trades: Seq<TradePattern>) -> int {
    if spec_raw_bot_likelihood(token, trades) > SCALE {
        SCALE as int
    } else {
        spec_raw_bot_likelihood(token, trades)
    }
}

/// The conditions every trade list handed to the detector satisfies:
/// bounded length, prices and amounts non-negative and bounded.
pub open spec fn spec_trades_bounded(trades: Seq<TradePattern>) -> bool {
    &&& trades.len() <= 1000
    &&& forall|i: int|
        0 <= i < trades.len() ==> {
            &&& 0 <= #[trigger] trades[i].price <= MAX_AMOUNT_MICROS
            &&& 0 <= trades[i].amount <= MAX_AMOUNT_MICROS
        }
}

/// Whether the cluster's price and amount variances fall below the
/// thresholds, by the exact integer comparison.
fn cluster_low_variance(bucket: &Vec<TradePattern>) -> (r: bool)
    requires
        spec_trades_bounded(bucket@),
    ensures
        r == spec_low_variance(bucket@),
{
    let mut sp: i128 = 0;
    let mut spsq: i128 = 0;
    let mut sa: i128 = 0;
    let mut sasq: i128 = 0;
    let mut i: usize = 0;
    while i < bucket.len()
        invariant
            spec_trades_bounded(bucket@),
            i <= bucket@.len(),
            sp == spec_sum_prices(bucket@.take(i as int)),
            spsq == spec_sum_price_squares(bucket@.take(i as int)),
            sa == spec_sum_amounts(bucket@.take(i as int)),
            sasq == spec_sum_amount_squares(bucket@.take(i as int)),
            0 <= sp <= (i as int) * 1_000_000_000_000_000,
            0 <= sa <= (i as int) * 1_000_000_000_000_000,
            0 <= spsq <= (i as int) * 1_000_000_000_000_000_000_000_000_000_000,
            0 <= sasq <= (i as int) * 1_000_000_000_000_000_000_000_000_000_000,
        decreases bucket@.len() - i,
    {
        let t = bucket[i];
        proof {
            assert(0 <= t.price as int * (t.price as int)
                <= 1_000_000_000_000_000_000_000_000_000_000int) by (nonlinear_arith)
                requires
                    0 <= t.price as int <= 1_000_000_000_000_000int,
            ;
            assert(0 <= t.amount as int * (t.amount as int)
                <= 1_000_000_000_000_000_000_000_000_000_000int) by (nonlinear_arith)
                requires
                    0 <= t.amount as int <= 1_000_000_000_000_000int,
            ;
            assert(bucket@.take(i as int + 1).drop_last() =~= bucket@.take(i as int));
        }
        sp = sp + t.price as i128;
        spsq = spsq + (t.price as i128) * (t.price as i128);
        sa = sa + t.amount as i128;
        sasq = sasq + (t.amount as i128) * (t.amount as i128);
        i = i + 1;
    }
    proof {
        assert(bucket@.take(bucket@.len() as int) =~= bucket@);
    }

    let n: i128 = bucket.len() as i128;
    proof {
        assert(0 <= n as int * (spsq as int)
            <= 1_000_000_000_000_000_000_000_000_000_000_000_000int) by (nonlinear_arith)
            requires
                0 <= n as int <= 1000,
                0 <= spsq as int <= 1_000_000_000_000_000_000_000_000_000_000_000int,
        ;
        assert(0 <= n as int * (sasq as int)
            <= 1_000_000_000_000_000_000_000_000_000_000_000_000int) by (nonlinear_arith)
            requires
                0 <= n as int <= 1000,
                0 <= sasq as int <= 1_000_000_000_000_000_000_000_000_000_000_000int,
        ;
        assert(0 <= sp as int * (sp as int)
            <= 1_000_000_000_000_000_000_000_000_000_000_000_000int) by (nonlinear_arith)
            requires
                0 <= sp as int <= 1_000_000_000_000_000_000int,
        ;
        assert(0 <= sa as int * (sa as int)
            <= 1_000_000_000_000_000_000_000_000_000_000_000_000int) by (nonlinear_arith)
            requires
                0 <= sa as int <= 1_000_000_000_000_000_000int,
        ;
        assert(0 <= n as int * (n as int) <= 1_000_000int) by (nonlinear_arith)
            requires
                0 <= n as int <= 1000,
        ;
    }
    let price_m: i128 = n * spsq - sp * sp;
    let amount_m: i128 = n * sasq - sa * sa;
    let nn: i128 = n * n;
    price_m < 10_000_000 * nn && amount_m < 1_000_000_000 * nn
}

/// Whether every trade of the cluster is on one side.
fn cluster_same_side(bucket: &Vec<TradePattern>) -> (r: bool)
    ensures
        r == spec_all_same_side(bucket@),
{
    if bucket.len() == 0 {
        return true;
    }
    let first = bucket[0].trade_type;
    let mut same_side: bool = true;
    let mut i: usize = 0;
    while i < bucket.len()
        invariant
            i <= bucket@.len(),
            bucket@.len() > 0,
            first == bucket@[0].trade_type,
            same_side == (forall|j: int|
                0 <= j < i as int ==> (#[trigger] bucket@[j]).trade_type == bucket@[0].trade_type),
        decreases bucket@.len() - i,
    {
        if !(bucket[i].trade_type == first) {
            same_side = false;
        }
        i = i + 1;
    }
    same_side
}

/// Counts the distinct wallet labels among the cluster's trades.
fn cluster_distinct_wallets(bucket: &Vec<TradePattern>) -> (r: usize)
    ensures
        r == spec_distinct_wallets(bucket@),
{
    let mut distinct: usize = 0;
    let mut m: usize = 0;
    while m < bucket.len()
        invariant
            m <= bucket@.len(),
            distinct as int == spec_distinct_wallets(bucket@.take(m as int)),
            distinct <= m,
        decreases bucket@.len() - m,
    {
        let w = bucket[m].wallet;
        let mut seen: bool = false;
        let mut j: usize = 0;
        while j < m
            invariant
                j <= m <= bucket@.len(),
                seen == spec_wallet_in(bucket@.take(j as int), w),
            decreases m - j,
        {
            proof {
                assert(bucket@.take(j as int + 1).drop_last() =~= bucket@.take(j as int));
            }
            if bucket[j].wallet == w {
                seen = true;
                proof {
                    assert(bucket@.take(j as int + 1)[j as int] == bucket@[j as int]);
                    assert(spec_wallet_in(bucket@.take(j as int + 1), w));
                }
            } else {
                proof {
                    if spec_wallet_in(bucket@.take(j as int + 1), w) && !spec_wallet_in(
                        bucket@.take(j as int),
                        w,
                    ) {
                        let q = choose|q: int|
                            0 <= q < j as int + 1 && (#[trigger] bucket@.take(j as int + 1)[q]).wallet
                                == w;
                        assert(q == j as int);
                    }
                }
            }
            j = j + 1;
        }
        proof {
            assert(bucket@.take(m as int + 1).drop_last() =~= bucket@.take(m as int));
            assert(bucket@.take(m as int + 1).last() == bucket@[m as int]);
        }
        if !seen {
            distinct = distinct + 1;
        }
        m = m + 1;
    }
    proof {
        assert(bucket@.take(bucket@.len() as int) =~= bucket@);
    }
    distinct
}

/// Scores one same-second cluster.
fn bucket_score(bucket: &Vec<TradePattern>) -> (r: i64)
    requires
        spec_trades_bounded(bucket@),
    ensures
        r == spec_bucket_score(bucket@),
        0 <= r <= 800_000,
{
    if bucket.len() < 3 {
        return 0;
    }
    let low_variance = cluster_low_variance(bucket);
    let same_side = cluster_same_side(bucket);
    let distinct = cluster_distinct_wallets(bucket);

    let mut score: i64 = 0;
    if low_variance {
        score += 300_000;
    }
    if same_side {
        score += 200_000;
    }
    if bucket.len() > 5 && distinct <= 3 {
        score += 300_000;
    }
    score
}

impl TokenData {
    /// Scores how bot-like the trade list looks, in micro-units of a
    /// likelihood in `[0, 1]`.
    pub fn detect_bot_patterns(&self, trades: &Vec<TradePattern>) -> (r: i64)
        requires
            spec_trades_bounded(trades@),
        ensures
            r == spec_bot_likelihood(self, trades@),
            0 <= r <= SCALE,
    {
        let mut raw: i64 = match self.attributes.snipers_count {
            Some(c) => if c > 0 {
                200_000
            } else {
                0
            },
            None => 0,
        };
        assert(raw == spec_sniper_bonus(self));

        // Distinct timestamps, in first-occurrence order.
        let mut keys: Vec<i64> = Vec::new();
        let mut i: usize = 0;
        while i < trades.len()
            invariant
                i <= trades@.len(),
                keys@ == spec_keys(trades@.take(i as int)),
                keys@.len() <= i as int,
            decreases trades@.len() - i,
        {
            let ts = trades[i].timestamp;
            let mut found: bool = false;
            let mut j: usize = 0;
            while j < keys.len()
                invariant
                    j <= keys@.len(),
                    found == keys@.take(j as int).contains(ts),
                decreases keys@.len() - j,
            {
                proof {
                    assert(keys@.take(j as int + 1).drop_last() =~= keys@.take(j as int));
                }
                if keys[j] == ts {
                    found = true;
                    proof {
                        assert(keys@.take(j as int + 1)[j as int] == ts);
                        assert(keys@.take(j as int + 1).contains(ts));
                    }
                } else {
                    proof {
                        if keys@.take(j as int + 1).contains(ts) && !keys@.take(
                            j as int,
                        ).contains(ts) {
                            let q = choose|q: int|
                                0 <= q < j as int + 1 && #[trigger] keys@.take(j as int + 1)[q]
                                    == ts;
                            assert(q == j as int);
                        }
                    }
                }
                j = j + 1;
            }
            proof {
                assert(keys@.take(keys@.len() as int) =~= keys@);
                assert(found == keys@.contains(ts));
                assert(trades@.take(i as int + 1).drop_last() =~= trades@.take(i as int));
                assert(trades@.take(i as int + 1).last() == trades@[i as int]);
            }
            if !found {
                keys.push(ts);
            }
            i = i + 1;
        }
        proof {
            assert(trades@.take(trades@.len() as int) =~= trades@);
        }
        assert(keys@ == spec_keys(trades@));

        // Collect and score each cluster.
        let mut k: usize = 0;
        while k < keys.len()
            invariant
                spec_trades_bounded(trades@),
                k <= keys@.len(),
                keys@.len() <= trades@.len(),
                keys@ == spec_keys(trades@),
                raw as int == spec_sniper_bonus(self) + spec_cluster_sum(
                    trades@,
                    keys@.take(k as int),
                ),
                0 <= raw <= 200_000 + 800_000 * (k as int),
            decreases keys@.len() - k,
        {
            let key = keys[k];
            let mut bucket: Vec<TradePattern> = Vec::new();
            let mut m: usize = 0;
            while m < trades.len()
                invariant
                    spec_trades_bounded(trades@),
                    m <= trades@.len(),
                    bucket@ == spec_bucket_of(trades@.take(m as int), key),
                    bucket@.len() <= m as int,
                    forall|q: int|
                        0 <= q < bucket@.len() ==> {
                            &&& 0 <= (#[trigger] bucket@[q]).price <= MAX_AMOUNT_MICROS
                            &&& 0 <= bucket@[q].amount <= MAX_AMOUNT_MICROS
                        },
                decreases trades@.len() - m,
            {
                proof {
                    assert(trades@.take(m as int + 1).drop_last() =~= trades@.take(m as int));
                    assert(trades@.take(m as int + 1).last() == trades@[m as int]);
                }
                if trades[m].timestamp == key {
                    bucket.push(trades[m]);
                }
                m = m + 1;
            }
            proof {
                assert(trades@.take(trades@.len() as int) =~= trades@);
            }
            assert(bucket@ == spec_bucket_of(trades@, key));

            let score = bucket_score(&bucket);
            proof {
                assert(keys@.take(k as int + 1).drop_last() =~= keys@.take(k as int));
                assert(keys@.take(k as int + 1).last() == keys@[k as int]);
            }
            raw = raw + score;
            k = k + 1;
        }
        proof {
            assert(keys@.take(keys@.len() as int) =~= keys@);
        }

        if raw > SCALE {
            SCALE
        } else {
            raw
        }
    }
}


proof fn lemma_cluster_sum_nonneg(trades: Seq<TradePattern>, keys: Seq<i64>)
    ensures
        spec_cluster_sum(trades, keys) >= 0,
    decreases keys.len(),
{
    if keys.len() > 0 {
        lemma_cluster_sum_nonneg(trades, keys.drop_last());
    }
}

/// Every clustering key is the timestamp of some trade.
proof fn lemma_keys_are_timestamps(trades: Seq<TradePattern>, k: i64)
    requires
        spec_keys(trades).contains(k),
    ensures
        exists|i: int| 0 <= i < trades.len() && (#[trigger] trades[i]).timestamp == k,
    decreases trades.len(),
{
    let rest = spec_keys(trades.drop_last());
    if trades.len() > 0 {
        if rest.contains(k) {
            lemma_keys_are_timestamps(trades.drop_last(), k);
            let i = choose|i: int|
                0 <= i < trades.drop_last().len() && (#[trigger] trades.drop_last()[i]).timestamp
                    == k;
            assert(trades[i].timestamp == k);
        } else {
            let keys = spec_keys(trades);
            assert(keys == rest.push(trades.last().timestamp));
            let j = choose|j: int| 0 <= j < keys.len() && keys[j] == k;
            if j < rest.len() {
                assert(rest[j] == k);
                assert(rest.contains(k));
            } else {
                assert(k == trades.last().timestamp);
                assert(trades[trades.len() - 1].timestamp == k);
            }
        }
    }
}

/// Trades appended at other seconds leave a second's cluster alone.
proof fn lemma_bucket_append(a: Seq<TradePattern>, b: Seq<TradePattern>, ts: i64)
    requires
        forall|i: int| 0 <= i < b.len() ==> (#[trigger] b[i]).timestamp != ts,
    ensures
        spec_bucket_of(a + b, ts) == spec_bucket_of(a, ts),
    decreases b.len(),
{
    if b.len() == 0 {
        assert(a + b =~= a);
    } else {
        lemma_bucket_append(a, b.drop_last(), ts);
        assert((a + b).drop_last() =~= a + b.drop_last());
        assert((a + b).last() == b[b.len() - 1]);
        assert((a + b).len() > 0);
    }
}

/// With no second shared between the two lists, the keys of the
/// concatenation are the keys of each, in order.
proof fn lemma_keys_append(a: Seq<TradePattern>, b: Seq<TradePattern>)
    requires
        forall|i: int, j: int|
            0 <= i < a.len() && 0 <= j < b.len() ==> (#[trigger] a[i]).timestamp != (
            #[trigger] b[j]).timestamp,
    ensures
        spec_keys(a + b) =~= spec_keys(a) + spec_keys(b),
    decreases b.len(),
{
    if b.len() == 0 {
        assert(a + b =~= a);
        assert(spec_keys(a) + spec_keys(b) =~= spec_keys(a));
    } else {
        let b1 = b.drop_last();
        let x = b.last();
        assert(forall|i: int, j: int|
            0 <= i < a.len() && 0 <= j < b1.len() ==> (#[trigger] a[i]).timestamp != (
            #[trigger] b1[j]).timestamp) by {
            assert(forall|j: int| 0 <= j < b1.len() ==> b1[j] == b[j]);
        }
        lemma_keys_append(a, b1);
        assert((a + b).drop_last() =~= a + b1);
        assert((a + b).last() == b[b.len() - 1]);
        let rest = spec_keys(a + b1);
        assert(rest =~= spec_keys(a) + spec_keys(b1));

        // The new trade's second cannot be one of a's keys.
        assert(!spec_keys(a).contains(x.timestamp)) by {
            if spec_keys(a).contains(x.timestamp) {
                lemma_keys_are_timestamps(a, x.timestamp);
                let i = choose|i: int|
                    0 <= i < a.len() && (#[trigger] a[i]).timestamp == x.timestamp;
                assert(a[i].timestamp != b[b.len() - 1].timestamp);
            }
        }
        assert(rest.contains(x.timestamp) <==> spec_keys(b1).contains(x.timestamp)) by {
            if rest.contains(x.timestamp) {
                let j = choose|j: int| 0 <= j < rest.len() && rest[j] == x.timestamp;
                if j < spec_keys(a).len() {
                    assert(spec_keys(a)[j] == x.timestamp);
                    assert(spec_keys(a).contains(x.timestamp));
                } else {
                    assert(spec_keys(b1)[j - spec_keys(a).len()] == x.timestamp);
                    assert(spec_keys(b1).contains(x.timestamp));
                }
            }
            if spec_keys(b1).contains(x.timestamp) {
                let j = choose|j: int|
                    0 <= j < spec_keys(b1).len() && spec_keys(b1)[j] == x.timestamp;
                assert(rest[spec_keys(a).len() + j] == x.timestamp);
                assert(rest.contains(x.timestamp));
            }
        }
        if spec_keys(b1).contains(x.timestamp) {
            assert(spec_keys(a + b) == rest);
            assert(spec_keys(b) == spec_keys(b1));
        } else {
            assert(spec_keys(a + b) == rest.push(x.timestamp));
            assert(spec_keys(b) == spec_keys(b1).push(x.timestamp));
            assert(rest.push(x.timestamp) =~= spec_keys(a) + spec_keys(b1).push(x.timestamp));
        }
    }
}

/// Summing over concatenated key lists splits.
proof fn lemma_cluster_sum_concat(trades: Seq<TradePattern>, ks1: Seq<i64>, ks2: Seq<i64>)
    ensures
        spec_cluster_sum(trades, ks1 + ks2) == spec_cluster_sum(trades, ks1) + spec_cluster_sum(
            trades,
            ks2,
        ),
    decreases ks2.len(),
{
    if ks2.len() == 0 {
        assert(ks1 + ks2 =~= ks1);
    } else {
        lemma_cluster_sum_concat(trades, ks1, ks2.drop_last());
        assert((ks1 + ks2).drop_last() =~= ks1 + ks2.drop_last());
        assert((ks1 + ks2).last() == ks2.last());
        assert((ks1 + ks2).len() > 0);
    }
}

/// Two trade lists with the same cluster under every listed key sum
/// to the same score.
proof fn lemma_cluster_sum_same_buckets(
    s1: Seq<TradePattern>,
    s2: Seq<TradePattern>,
    keys: Seq<i64>,
)
    requires
        forall|i: int|
            0 <= i < keys.len() ==> spec_bucket_of(s1, #[trigger] keys[i]) == spec_bucket_of(
                s2,
                keys[i],
            ),
    ensures
        spec_cluster_sum(s1, keys) == spec_cluster_sum(s2, keys),
    decreases keys.len(),
{
    if keys.len() > 0 {
        lemma_cluster_sum_same_buckets(s1, s2, keys.drop_last());
        assert(keys[keys.len() - 1] == keys.last());
    }
}

/// Adding trade clusters at fresh seconds never lowers the bot
/// likelihood: the clusters already scored are untouched, the new
/// seconds only add non-negative scores, and the clamp keeps order.
pub proof fn lemma_bot_likelihood_monotone(
    token: &TokenData,
    t1: Seq<TradePattern>,
    t2: Seq<TradePattern>,
)
    requires
        forall|i: int, j: int|
            0 <= i < t1.len() && 0 <= j < t2.len() ==> (#[trigger] t1[i]).timestamp != (
            #[trigger] t2[j]).timestamp,
    ensures
        spec_bot_likelihood(token, t1) <= spec_bot_likelihood(token, t1 + t2),
{
    lemma_keys_append(t1, t2);
    assert(spec_cluster_sum(t1 + t2, spec_keys(t1 + t2)) == spec_cluster_sum(
        t1 + t2,
        spec_keys(t1) + spec_keys(t2),
    ));
    lemma_cluster_sum_concat(t1 + t2, spec_keys(t1), spec_keys(t2));
    assert forall|i: int| 0 <= i < spec_keys(t1).len() implies spec_bucket_of(
        t1 + t2,
        #[trigger] spec_keys(t1)[i],
    ) == spec_bucket_of(t1, spec_keys(t1)[i]) by {
        assert(spec_keys(t1).contains(spec_keys(t1)[i]));
        lemma_keys_are_timestamps(t1, spec_keys(t1)[i]);
        assert forall|j: int| 0 <= j < t2.len() implies (#[trigger] t2[j]).timestamp != spec_keys(
            t1,
        )[i] by {
            let w = choose|w: int|
                0 <= w < t1.len() && (#[trigger] t1[w]).timestamp == spec_keys(t1)[i];
            assert(t1[w].timestamp != t2[j].timestamp);
        }
        lemma_bucket_append(t1, t2, spec_keys(t1)[i]);
    }
    lemma_cluster_sum_same_buckets(t1 + t2, t1, spec_keys(t1));
    lemma_cluster_sum_nonneg(t1 + t2, spec_keys(t2));
}


} // verus!
