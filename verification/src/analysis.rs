//! Screening tokens and summarizing their metrics.
//!
//! Ratios are compared exactly by cross-multiplication instead of
//! division, so no precision is lost at the thresholds: a buy/sell
//! ratio of at least `r` is `buys * SCALE >= r * sells`, and a
//! volume/market-cap ratio above one tenth is `10 * volume > fdv`
//! (which also matches the degenerate market-cap-of-zero case: any
//! positive volume passes, zero volume fails).

use vstd::prelude::*;

verus! {

use crate::fixed::{SCALE, tdiv};
use crate::token::{Attributes, TokenData};

/// The screening thresholds, in micro-units.
pub struct TokenFilter {
    /// Minimum market capitalization.
    pub min_market_cap: i64,
    /// Maximum market capitalization.
    pub max_market_cap: i64,
    /// Maximum combined share of the top holders.
    pub max_top_holders_perc: i64,
    /// Minimum buy/sell ratio.
    pub min_buy_sell_ratio: i64,
    /// Minimum trading volume.
    pub min_volume: i64,
    /// Minimum pooled SOL.
    pub min_pooled_sol: i64,
}

impl TokenFilter {
    /// The ranges the screening arithmetic needs.
    pub open spec fn wf(&self) -> bool {
        &&& 0 <= self.min_buy_sell_ratio <= 1_000_000_000_000
        &&& 0 <= self.min_volume
        &&& 0 <= self.min_pooled_sol
    }

    /// The declared buy count, an absent one counting as zero.
    pub open spec fn spec_buys(a: Attributes) -> int {
        if a.buys_count is Some {
            a.buys_count->Some_0 as int
        } else {
            0
        }
    }

    /// The declared sell count, an absent one counting as one.
    pub open spec fn spec_sells_or_one(a: Attributes) -> int {
        if a.sells_count is Some {
            a.sells_count->Some_0 as int
        } else {
            1
        }
    }

    /// An absent amount counts as zero.
    pub open spec fn spec_amount_or_zero(v: Option<i64>) -> int {
        if v is Some {
            v->Some_0 as int
        } else {
            0
        }
    }

    /// Whether the buy/sell ratio reaches the threshold.  With a sell
    /// count of zero the ratio is unbounded: any buying passes, none
    /// fails.
    pub open spec fn spec_ratio_ok(&self, a: Attributes) -> bool {
        let buys = Self::spec_buys(a);
        let sells = Self::spec_sells_or_one(a);
        if sells == 0 {
            buys > 0
        } else {
            buys * (SCALE as int) >= self.min_buy_sell_ratio * sells
        }
    }

    /// Positive momentum: the buy/sell ratio, the volume, the pooled
    /// SOL and the volume-to-market-cap ratio all clear their bars.
    pub open spec fn spec_momentum(&self, a: Attributes) -> bool {
        &&& self.spec_ratio_ok(a)
        &&& Self::spec_amount_or_zero(a.volume) >= self.min_volume
        &&& Self::spec_amount_or_zero(a.pooled_sol) >= self.min_pooled_sol
        &&& 10 * Self::spec_amount_or_zero(a.volume) > Self::spec_amount_or_zero(a.fdv)
    }

    /// A token meets the criteria when its market cap lies in range,
    /// its declared audit shows dispersed top holders, it has a
    /// Twitter presence and it shows positive momentum.
    pub open spec fn spec_meets(&self, token: TokenData) -> bool {
        let a = token.attributes;
        &&& self.min_market_cap <= Self::spec_amount_or_zero(a.fdv) <= self.max_market_cap
        &&& (a.audit matches Some(audit) && audit.top_holders_perc <= self.max_top_holders_perc)
        &&& (a.socials matches Some(s) && s.twitter is Some)
        &&& self.spec_momentum(a)
    }

    /// Checks the momentum conditions alone.
    pub fn has_positive_momentum(&self, attributes: &Attributes) -> (r: bool)
        requires
            self.wf(),
            attributes.wf(),
        ensures
            r == self.spec_momentum(*attributes),
    {
        let buys: u64 = match attributes.buys_count {
            Some(c) => c,
            None => 0,
        };
        let sells: u64 = match attributes.sells_count {
            Some(c) => c,
            None => 1,
        };
        let volume: i64 = match attributes.volume {
            Some(v) => v,
            None => 0,
        };
        let pooled: i64 = match attributes.pooled_sol {
            Some(v) => v,
            None => 0,
        };
        let fdv: i64 = match attributes.fdv {
            Some(v) => v,
            None => 0,
        };
        let ratio_ok: bool = if sells == 0 {
            buys > 0
        } else {
            proof {
                assert((buys as int) * (SCALE as int)
                    <= 9_300_000_000_000_000_000_000_000int) by (nonlinear_arith)
                    requires
                        0 <= buys as int <= 9_223_372_036_854int,
                ;
                assert(0 <= self.min_buy_sell_ratio as int * (sells as int)
                    <= 20_000_000_000_000_000_000_000_000_000_000int) by (nonlinear_arith)
                    requires
                        0 <= self.min_buy_sell_ratio as int <= 1_000_000_000_000int,
                        0 <= sells as int <= 20_000_000_000_000_000_000int,
                ;
            }
            (buys as i128) * (SCALE as i128) >= (self.min_buy_sell_ratio as i128) * (sells as i128)
        };
        ratio_ok && volume >= self.min_volume && pooled >= self.min_pooled_sol && 10 * volume > fdv
    }

    /// Checks the whole filter.
    pub fn meets_criteria(&self, token: &TokenData) -> (r: bool)
        requires
            self.wf(),
            token.wf(),
        ensures
            r == self.spec_meets(*token),
    {
        let attrs = &token.attributes;
        let fdv: i64 = match attrs.fdv {
            Some(v) => v,
            None => 0,
        };
        if fdv < self.min_market_cap || fdv > self.max_market_cap {
            return false;
        }
        match &attrs.audit {
            Some(audit) => if audit.top_holders_perc > self.max_top_holders_perc {
                return false;
            },
            None => {
                return false;
            },
        }
        let has_twitter = match &attrs.socials {
            Some(s) => s.twitter.is_some(),
            None => false,
        };
        if !has_twitter {
            return false;
        }
        self.has_positive_momentum(attrs)
    }
}

impl Default for TokenFilter {
    /// The standard screening thresholds: a market cap between forty
    /// thousand and half a million, top holders at a quarter at most,
    /// a buy/sell ratio of at least `1.2`, five thousand in volume and
    /// twenty pooled SOL.
    fn default() -> (r: Self)
        ensures
            r.wf(),
    {
        TokenFilter {
            min_market_cap: 40_000_000_000,
            max_market_cap: 500_000_000_000,
            max_top_holders_perc: 25_000_000,
            min_buy_sell_ratio: 1_200_000,
            min_volume: 5_000_000_000,
            min_pooled_sol: 20_000_000,
        }
    }
}

/// A display-ready summary of one token, in micro-units where numeric.
pub struct TokenMetrics {
    /// The token's name, or the display placeholder.
    pub name: String,
    /// The token's symbol, or the display placeholder.
    pub symbol: String,
    pub price_usd: Option<i64>,
    pub market_cap: i64,
    pub holders: u32,
    pub top_holders_perc: i64,
    pub volume: i64,
    /// Volume over market cap; zero when the market cap is zero.
    pub volume_mcap_ratio: i128,
    /// Buys over sells, an absent sell count counting as one; zero
    /// when the sell count is zero.
    pub buy_sell_ratio: i128,
    /// Hours since creation, negative for a creation time in the
    /// future; zero when no creation time is declared.
    pub age_hours: i64,
}

impl TokenMetrics {
    /// The volume-to-market-cap ratio of a snapshot.
    pub open spec fn spec_volume_mcap_ratio(a: Attributes) -> int {
        let volume = TokenFilter::spec_amount_or_zero(a.volume);
        let fdv = TokenFilter::spec_amount_or_zero(a.fdv);
        if fdv > 0 {
            (volume * (SCALE as int)) / fdv
        } else {
            0
        }
    }

    /// The buy/sell ratio of a snapshot.
    pub open spec fn spec_buy_sell_ratio(a: Attributes) -> int {
        let buys = TokenFilter::spec_buys(a);
        let sells = TokenFilter::spec_sells_or_one(a);
        if sells > 0 {
            (buys * (SCALE as int)) / sells
        } else {
            0
        }
    }

    /// The age of a snapshot at time `now`, in micro-hours.
    pub open spec fn spec_age_hours(a: Attributes, now: int) -> int {
        match a.created_timestamp {
            Some(created) => tdiv((now - created) * (SCALE as int), 3600),
            None => 0,
        }
    }

    /// Summarizes one snapshot as of time `now` (epoch seconds).
    pub fn from_token(token: &TokenData, now: i64) -> (r: TokenMetrics)
        requires
            token.wf(),
            -9_223_372_036_854 <= now <= 9_223_372_036_854,
        ensures
            token.attributes.name matches Some(n) ==> r.name@ == n@,
            token.attributes.symbol matches Some(sym) ==> r.symbol@ == sym@,
            r.price_usd == token.attributes.price_usd,
            r.market_cap as int == TokenFilter::spec_amount_or_zero(token.attributes.fdv),
            token.attributes.holders_count matches Some(h) ==> r.holders == h,
            token.attributes.audit matches Some(a) ==> r.top_holders_perc == a.top_holders_perc,
            r.volume as int == TokenFilter::spec_amount_or_zero(token.attributes.volume),
            r.volume_mcap_ratio as int == Self::spec_volume_mcap_ratio(token.attributes),
            r.buy_sell_ratio as int == Self::spec_buy_sell_ratio(token.attributes),
            r.age_hours as int == Self::spec_age_hours(token.attributes, now as int),
    {
        let attrs = &token.attributes;
        let volume: i64 = match attrs.volume {
            Some(v) => v,
            None => 0,
        };
        let fdv: i64 = match attrs.fdv {
            Some(v) => v,
            None => 0,
        };
        let ratio: i128 = if fdv > 0 {
            proof {
                assert(0 <= volume as int * (SCALE as int) <= 1_000_000_000_000_000_000_000int)
                    by (nonlinear_arith)
                    requires
                        0 <= volume as int <= 1_000_000_000_000_000int,
                ;
                vstd::arithmetic::div_mod::lemma_div_pos_is_pos(
                    volume as int * (SCALE as int),
                    fdv as int,
                );
                vstd::arithmetic::div_mod::lemma_div_is_ordered_by_denominator(
                    volume as int * (SCALE as int),
                    1,
                    fdv as int,
                );
                vstd::arithmetic::div_mod::lemma_div_basics(volume as int * (SCALE as int));
            }
            ((volume as i128) * (SCALE as i128)) / (fdv as i128)
        } else {
            0
        };
        let buys: u64 = match attrs.buys_count {
            Some(c) => c,
            None => 0,
        };
        let sells: u64 = match attrs.sells_count {
            Some(c) => c,
            None => 1,
        };
        let bs_ratio: i128 = if sells > 0 {
            proof {
                assert(0 <= buys as int * (SCALE as int) <= 9_223_372_036_854_000_000int)
                    by (nonlinear_arith)
                    requires
                        0 <= buys as int <= 9_223_372_036_854int,
                ;
                vstd::arithmetic::div_mod::lemma_div_pos_is_pos(
                    buys as int * (SCALE as int),
                    sells as int,
                );
                vstd::arithmetic::div_mod::lemma_div_is_ordered_by_denominator(
                    buys as int * (SCALE as int),
                    1,
                    sells as int,
                );
                vstd::arithmetic::div_mod::lemma_div_basics(buys as int * (SCALE as int));
            }
            ((buys as i128) * (SCALE as i128)) / (sells as i128)
        } else {
            0
        };
        let age: i64 = match attrs.created_timestamp {
            Some(created) => {
                let diff: i64 = now - created;
                proof {
                    assert(-18_500_000_000_000_000_000_000int <= diff as int * (SCALE as int)
                        <= 18_500_000_000_000_000_000_000int) by (nonlinear_arith)
                        requires
                            -18_446_744_073_708int <= diff as int <= 18_446_744_073_708int,
                    ;
                    crate::fixed::lemma_tdiv_bounded(
                        diff as int * (SCALE as int),
                        3600,
                        18_500_000_000_000_000_000_000int,
                    );
                }
                ((diff as i128) * (SCALE as i128) / 3600) as i64
            },
            None => 0,
        };
        TokenMetrics {
            name: attrs.get_display_name(),
            symbol: attrs.get_symbol_or_default(),
            price_usd: attrs.price_usd,
            market_cap: fdv,
            holders: match attrs.holders_count {
                Some(h) => h,
                None => 0,
            },
            top_holders_perc: match &attrs.audit {
                Some(a) => a.top_holders_perc,
                None => 0,
            },
            volume,
            volume_mcap_ratio: ratio,
            buy_sell_ratio: bs_ratio,
            age_hours: age,
        }
    }

    /// Summarizes one snapshot as of the current wall-clock time,
    /// when that time lies in the supported range.
    pub fn from_token_now(token: &TokenData) -> (r: Option<TokenMetrics>)
        requires
            token.wf(),
        ensures
            r matches Some(m) ==> exists|now: int|
                -9_223_372_036_854 <= now <= 9_223_372_036_854 && m.age_hours as int
                    == #[trigger] Self::spec_age_hours(token.attributes, now),
    {
        let now = crate::time::now_epoch_seconds();
        if -9_223_372_036_854 <= now && now <= 9_223_372_036_854 {
            let m = Self::from_token(token, now);
            proof {
                assert(m.age_hours as int == Self::spec_age_hours(
                    token.attributes,
                    now as int,
                ));
            }
            Some(m)
        } else {
            None
        }
    }
}

} // verus!
