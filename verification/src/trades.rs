//! The trade-pattern synthesizer.
//!
//! A snapshot declares only aggregate buy and sell counts, a volume and
//! a price; the bot detector needs individual trades.  This module
//! fabricates up to twenty trades per side, all sharing the price, the
//! side's average amount and one synthesis timestamp, each under a
//! distinct synthetic wallet label.  That every record of one pass
//! shares the same second is deliberate: downstream clustering keys on
//! the second of arrival, not on true historical spacing.

use vstd::prelude::*;

verus! {

use crate::token::{TokenData, MAX_AMOUNT_MICROS};
use crate::time::now_epoch_seconds;

/// Whether a synthetic trade bought or sold.
#[derive(Clone, Copy, Debug, PartialEq, Eq, Structural)]
pub enum TradeType {
    Buy,
    Sell,
}

/// One synthetic trade record.  `price` and `amount` are micro-units,
/// `timestamp` is epoch seconds, `wallet` is a synthetic label that is
/// distinct within one synthesis pass.
#[derive(Clone, Copy, Debug, PartialEq, Eq, Structural)]
pub struct TradePattern {
    pub timestamp: i64,
    pub price: i64,
    pub amount: i64,
    pub wallet: u64,
    pub trade_type: TradeType,
}

/// How many trades one side contributes: its declared count, the
/// price's presence permitting, capped at twenty.
pub open spec fn spec_side_count(count: Option<u64>, price: Option<i64>) -> int {
    if count is Some && price is Some {
        if count->Some_0 > 20 {
            20
        } else {
            count->Some_0 as int
        }
    } else {
        0
    }
}

/// The average amount of one side: volume split evenly over the
/// declared count, zero when the count is zero.
pub open spec fn spec_avg_amount(volume: Option<i64>, count: u64) -> int {
    if count == 0 {
        0
    } else {
        (if volume is Some {
            volume->Some_0 as int
        } else {
            0
        }) / count as int
    }
}

/// The `i`-th synthetic buy record of a snapshot.
pub open spec fn spec_buy_trade(token: &TokenData, now: int, i: int) -> TradePattern {
    TradePattern {
        timestamp: now as i64,
        price: token.attributes.price_usd->Some_0,
        amount: spec_avg_amount(
            token.attributes.volume,
            token.attributes.buys_count->Some_0,
        ) as i64,
        wallet: (2 * i) as u64,
        trade_type: TradeType::Buy,
    }
}

/// The `i`-th synthetic sell record of a snapshot.
pub open spec fn spec_sell_trade(token: &TokenData, now: int, i: int) -> TradePattern {
    TradePattern {
        timestamp: now as i64,
        price: token.attributes.price_usd->Some_0,
        amount: spec_avg_amount(
            token.attributes.volume,
            token.attributes.sells_count->Some_0,
        ) as i64,
        wallet: (2 * i + 1) as u64,
        trade_type: TradeType::Sell,
    }
}

/// Number of buy records synthesized for a snapshot.
pub open spec fn spec_buys_len(token: &TokenData) -> int {
    spec_side_count(token.attributes.buys_count, token.attributes.price_usd)
}

/// Number of sell records synthesized for a snapshot.
pub open spec fn spec_sells_len(token: &TokenData) -> int {
    spec_side_count(token.attributes.sells_count, token.attributes.price_usd)
}

/// The whole synthesized trade list of one snapshot at a given
/// synthesis time, as a sequence: the buys, then the sells.
pub open spec fn spec_trades_of(token: &TokenData, now: int) -> Seq<TradePattern> {
    Seq::new(
        (spec_buys_len(token) + spec_sells_len(token)) as nat,
        |i: int|
            if i < spec_buys_len(token) {
                spec_buy_trade(token, now, i)
            } else {
                spec_sell_trade(token, now, i - spec_buys_len(token))
            },
    )
}

/// Synthesizes the recent-trade list of one snapshot at a given
/// synthesis time: first the buys, then the sells.
pub fn collect_recent_trades(token: &TokenData, now: i64) -> (r: Vec<TradePattern>)
    requires
        token.wf(),
    ensures
        r@ =~= spec_trades_of(token, now as int),
        r@.len() == spec_buys_len(token) + spec_sells_len(token),
        r@.len() <= 40,
        forall|i: int|
            0 <= i < spec_buys_len(token) ==> #[trigger] r@[i] == spec_buy_trade(
                token,
                now as int,
                i,
            ),
        forall|i: int|
            0 <= i < spec_sells_len(token) ==> #[trigger] r@[spec_buys_len(token) + i]
                == spec_sell_trade(token, now as int, i),
        forall|i: int|
            0 <= i < r@.len() ==> {
                &&& (#[trigger] r@[i]).timestamp == now
                &&& 0 <= r@[i].price <= MAX_AMOUNT_MICROS
                &&& 0 <= r@[i].amount <= MAX_AMOUNT_MICROS
            },
{
    let mut trades: Vec<TradePattern> = Vec::new();

    if let (Some(b), Some(p)) = (token.attributes.buys_count, token.attributes.price_usd) {
        let vol: i64 = match token.attributes.volume {
            Some(v) => v,
            None => 0,
        };
        let nb: u64 = if b > 20 {
            20
        } else {
            b
        };
        let avg: i64 = if b == 0 {
            0
        } else {
            ((vol as u64) / b) as i64
        };
        assert(avg as int == spec_avg_amount(token.attributes.volume, b));
        let mut i: u64 = 0;
        while i < nb
            invariant
                i <= nb,
                nb as int == spec_buys_len(token),
                nb <= 20,
                trades@.len() == i as int,
                token.attributes.price_usd == Some(p),
                0 <= p <= MAX_AMOUNT_MICROS,
                0 <= avg <= MAX_AMOUNT_MICROS,
                avg as int == spec_avg_amount(
                    token.attributes.volume,
                    token.attributes.buys_count->Some_0,
                ),
                forall|j: int|
                    0 <= j < i as int ==> #[trigger] trades@[j] == spec_buy_trade(
                        token,
                        now as int,
                        j,
                    ),
                forall|j: int|
                    0 <= j < trades@.len() ==> {
                        &&& (#[trigger] trades@[j]).timestamp == now
                        &&& 0 <= trades@[j].price <= MAX_AMOUNT_MICROS
                        &&& 0 <= trades@[j].amount <= MAX_AMOUNT_MICROS
                    },
            decreases nb - i,
        {
            trades.push(
                TradePattern {
                    timestamp: now,
                    price: p,
                    amount: avg,
                    wallet: 2 * i,
                    trade_type: TradeType::Buy,
                },
            );
            i = i + 1;
        }
    }
    let ghost nbuys = spec_buys_len(token);
    assert(trades@.len() == nbuys);

    if let (Some(s), Some(p)) = (token.attributes.sells_count, token.attributes.price_usd) {
        let vol: i64 = match token.attributes.volume {
            Some(v) => v,
            None => 0,
        };
        let ns: u64 = if s > 20 {
            20
        } else {
            s
        };
        let avg: i64 = if s == 0 {
            0
        } else {
            ((vol as u64) / s) as i64
        };
        assert(avg as int == spec_avg_amount(token.attributes.volume, s));
        let mut i: u64 = 0;
        while i < ns
            invariant
                i <= ns,
                ns as int == spec_sells_len(token),
                ns <= 20,
                trades@.len() == nbuys + i as int,
                nbuys == spec_buys_len(token),
                0 <= nbuys <= 20,
                token.attributes.price_usd == Some(p),
                0 <= p <= MAX_AMOUNT_MICROS,
                0 <= avg <= MAX_AMOUNT_MICROS,
                avg as int == spec_avg_amount(
                    token.attributes.volume,
                    token.attributes.sells_count->Some_0,
                ),
                forall|j: int|
                    0 <= j < nbuys ==> #[trigger] trades@[j] == spec_buy_trade(
                        token,
                        now as int,
                        j,
                    ),
                forall|j: int|
                    0 <= j < i as int ==> #[trigger] trades@[nbuys + j] == spec_sell_trade(
                        token,
                        now as int,
                        j,
                    ),
                forall|j: int|
                    0 <= j < trades@.len() ==> {
                        &&& (#[trigger] trades@[j]).timestamp == now
                        &&& 0 <= trades@[j].price <= MAX_AMOUNT_MICROS
                        &&& 0 <= trades@[j].amount <= MAX_AMOUNT_MICROS
                    },
            decreases ns - i,
        {
            trades.push(
                TradePattern {
                    timestamp: now,
                    price: p,
                    amount: avg,
                    wallet: 2 * i + 1,
                    trade_type: TradeType::Sell,
                },
            );
            i = i + 1;
        }
    }
    proof {
        assert forall|q: int| 0 <= q < trades@.len() implies trades@[q] == spec_trades_of(
            token,
            now as int,
        )[q] by {
            if q >= spec_buys_len(token) {
                assert(trades@[spec_buys_len(token) + (q - spec_buys_len(token))]
                    == spec_sell_trade(token, now as int, q - spec_buys_len(token)));
            }
        }
        assert(trades@ =~= spec_trades_of(token, now as int));
    }
    trades
}

/// Synthesizes the recent-trade list at the current wall-clock time and
/// reports the synthesis time alongside it.
pub fn collect_recent_trades_now(token: &TokenData) -> (r: (i64, Vec<TradePattern>))
    requires
        token.wf(),
    ensures
        r.1@ =~= spec_trades_of(token, r.0 as int),
        r.1@.len() == spec_buys_len(token) + spec_sells_len(token),
        forall|i: int|
            0 <= i < spec_buys_len(token) ==> #[trigger] r.1@[i] == spec_buy_trade(
                token,
                r.0 as int,
                i,
            ),
        forall|i: int|
            0 <= i < spec_sells_len(token) ==> #[trigger] r.1@[spec_buys_len(token) + i]
                == spec_sell_trade(token, r.0 as int, i),
{
    let now = now_epoch_seconds();
    let trades = collect_recent_trades(token, now);
    (now, trades)
}

} // verus!
