//! The proportional risk classifier.
//!
//! Two threshold schemes coexist in the system and call sites disagree
//! on which to use, so both are kept as named variants: the
//! fixed-threshold wording (`TokenData::get_concentration_risk`, cuts
//! at `0.15 / 0.25 / 0.40`) and this calculator's proportional scheme
//! (cuts at `0.25 / 0.50 / 0.75 / 1.00`, with `Unknown` beyond one).

use vstd::prelude::*;

verus! {

use crate::fixed::SCALE;
use crate::holdings::{generate_wallet_holdings, spec_holdings_of};
use crate::math::{spec_adjusted, spec_base_concentration};
use crate::bot::spec_bot_likelihood;
use crate::token::TokenData;
use crate::trades::{collect_recent_trades, collect_recent_trades_now, spec_trades_of};

/// The ordered risk tiers: `Low < Moderate < High < VeryHigh`, with
/// `Unknown` sorting last.
#[derive(Clone, Copy, Debug, PartialEq, Eq, Hash, PartialOrd, Ord, Structural)]
pub enum RiskLevel {
    Low,
    Moderate,
    High,
    VeryHigh,
    Unknown,
}

impl RiskLevel {
    /// The tier's position in the total order.
    pub open spec fn spec_rank(&self) -> int {
        match self {
            RiskLevel::Low => 0,
            RiskLevel::Moderate => 1,
            RiskLevel::High => 2,
            RiskLevel::VeryHigh => 3,
            RiskLevel::Unknown => 4,
        }
    }

    /// The tier's position in the total order, for sorting and
    /// filtering: tiers compare as their ranks do.
    pub fn rank(&self) -> (r: u8)
        ensures
            r as int == self.spec_rank(),
    {
        match self {
            RiskLevel::Low => 0,
            RiskLevel::Moderate => 1,
            RiskLevel::High => 2,
            RiskLevel::VeryHigh => 3,
            RiskLevel::Unknown => 4,
        }
    }
}

/// The proportional classifier: four ascending thresholds in
/// micro-units, one per named tier.
pub struct RiskCalculator {
    pub low: i64,
    pub moderate: i64,
    pub high: i64,
    pub very_high: i64,
}

impl RiskCalculator {
    /// The tier of an adjusted concentration under this calculator's
    /// thresholds: the first threshold the score does not exceed, and
    /// `Unknown` past the last.
    pub open spec fn spec_risk_level(&self, concentration: int) -> RiskLevel {
        if concentration <= self.low {
            RiskLevel::Low
        } else if concentration <= self.moderate {
            RiskLevel::Moderate
        } else if concentration <= self.high {
            RiskLevel::High
        } else if concentration <= self.very_high {
            RiskLevel::VeryHigh
        } else {
            RiskLevel::Unknown
        }
    }

    /// The standard proportional thresholds.
    pub fn new() -> (r: Self)
        ensures
            r.low == 250_000,
            r.moderate == 500_000,
            r.high == 750_000,
            r.very_high == 1_000_000,
    {
        RiskCalculator { low: 250_000, moderate: 500_000, high: 750_000, very_high: 1_000_000 }
    }

    /// Classifies an adjusted concentration score.
    pub fn get_risk_level(&self, concentration: i128) -> (r: RiskLevel)
        ensures
            r == self.spec_risk_level(concentration as int),
    {
        if concentration <= self.low as i128 {
            RiskLevel::Low
        } else if concentration <= self.moderate as i128 {
            RiskLevel::Moderate
        } else if concentration <= self.high as i128 {
            RiskLevel::High
        } else if concentration <= self.very_high as i128 {
            RiskLevel::VeryHigh
        } else {
            RiskLevel::Unknown
        }
    }

    /// The tier of one snapshot at a given synthesis time: holdings
    /// and trades are synthesized, scored and classified.
    pub fn calculate_risk_at(&self, token: &TokenData, now: i64) -> (r: RiskLevel)
        requires
            token.wf(),
        ensures
            r == self.spec_risk_level(
                spec_adjusted(
                    spec_base_concentration(
                        spec_holdings_of(token),
                        token.attributes.holders_count,
                    ),
                    spec_bot_likelihood(token, spec_trades_of(token, now as int)),
                ),
            ),
    {
        let holdings = generate_wallet_holdings(token);
        let trades = collect_recent_trades(token, now);
        let concentration = token.calculate_adjusted_concentration(&holdings, &trades);
        self.get_risk_level(concentration)
    }

    /// The tier of one snapshot, synthesized at the current wall-clock
    /// time: what `calculate_risk_at` yields for some synthesis time.
    pub fn calculate_risk(&self, token: &TokenData) -> (r: RiskLevel)
        requires
            token.wf(),
        ensures
            exists|now: int|
                r == self.spec_risk_level(
                    #[trigger] spec_adjusted(
                        spec_base_concentration(
                            spec_holdings_of(token),
                            token.attributes.holders_count,
                        ),
                        spec_bot_likelihood(token, spec_trades_of(token, now)),
                    ),
                ),
    {
        let (now, trades) = collect_recent_trades_now(token);
        let holdings = generate_wallet_holdings(token);
        let concentration = token.calculate_adjusted_concentration(&holdings, &trades);
        let level = self.get_risk_level(concentration);
        proof {
            assert(level == self.spec_risk_level(
                spec_adjusted(
                    spec_base_concentration(
                        spec_holdings_of(token),
                        token.attributes.holders_count,
                    ),
                    spec_bot_likelihood(token, spec_trades_of(token, now as int)),
                ),
            ));
        }
        level
    }

    /// The tier's display wording.
    pub fn get_risk_text(&self, risk: RiskLevel) -> (r: &'static str)
        ensures
            risk is Low ==> r@ == "Low Risk"@,
            risk is Moderate ==> r@ == "Moderate Risk"@,
            risk is High ==> r@ == "High Risk"@,
            risk is VeryHigh ==> r@ == "Very High Risk"@,
            risk is Unknown ==> r@ == "Unknown Risk"@,
    {
        match risk {
            RiskLevel::Low => "Low Risk",
            RiskLevel::Moderate => "Moderate Risk",
            RiskLevel::High => "High Risk",
            RiskLevel::VeryHigh => "Very High Risk",
            RiskLevel::Unknown => "Unknown Risk",
        }
    }
}

impl Default for RiskCalculator {
    /// The standard proportional thresholds.
    fn default() -> (r: Self)
        ensures
            r.low == 250_000,
            r.moderate == 500_000,
            r.high == 750_000,
            r.very_high == 1_000_000,
    {
        RiskCalculator { low: 250_000, moderate: 500_000, high: 750_000, very_high: 1_000_000 }
    }
}

impl Clone for RiskCalculator {
    fn clone(&self) -> (r: Self)
        ensures
            r == *self,
    {
        RiskCalculator {
            low: self.low,
            moderate: self.moderate,
            high: self.high,
            very_high: self.very_high,
        }
    }
}

} // verus!
