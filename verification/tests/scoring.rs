use token_monitor::fixed::{isqrt, pow_three_halves, SCALE};
use token_monitor::holdings::generate_wallet_holdings;
use token_monitor::math::adjust_concentration;
use token_monitor::risk::{RiskCalculator, RiskLevel};
use token_monitor::token::{Attributes, Audit, TokenData};
use token_monitor::trades::{collect_recent_trades, collect_recent_trades_now, TradeType};

fn token_with(attributes: Attributes) -> TokenData {
    TokenData { attributes, id: "T".to_string(), data_type: "token".to_string() }
}

fn audit(top_holders_perc: i64) -> Audit {
    Audit {
        freeze_authority: false,
        mint_authority: false,
        lp_burned_perc: 100,
        top_holders_perc,
    }
}

#[test]
fn isqrt_exact_values() {
    assert_eq!(isqrt(0), 0);
    assert_eq!(isqrt(1), 1);
    assert_eq!(isqrt(3), 1);
    assert_eq!(isqrt(4), 2);
    assert_eq!(isqrt(999_999), 999);
    assert_eq!(isqrt(1_000_000_000_000), 1_000_000);
    assert_eq!(isqrt(u64::MAX), 4_294_967_295);
}

#[test]
fn pow_three_halves_exact_values() {
    assert_eq!(pow_three_halves(0), 0);
    assert_eq!(pow_three_halves(SCALE), SCALE);
    // 0.25^1.5 == 0.125
    assert_eq!(pow_three_halves(250_000), 125_000);
    // 0.5^1.5 == isqrt(0.125 * 1e12) micro-units
    assert_eq!(pow_three_halves(500_000), 353_553);
}

#[test]
fn empty_holdings_give_zero_concentration() {
    let token = token_with(Attributes::default());
    let holdings = generate_wallet_holdings(&token);
    assert!(holdings.is_empty());
    assert_eq!(token.calculate_wallet_concentration(&holdings), 0);
}

#[test]
fn nonpositive_total_gives_zero_concentration() {
    let token = token_with(Attributes::default());
    assert_eq!(token.calculate_wallet_concentration(&vec![5_000_000, -5_000_000]), 0);
    assert_eq!(token.calculate_wallet_concentration(&vec![-1_000_000]), 0);
}

#[test]
fn single_holder_owns_everything() {
    // One holder with the full declared share: the raw index is one,
    // and with n == 1 the normalization is skipped.
    let token = token_with(Attributes {
        holders_count: Some(1),
        audit: Some(audit(100_000_000)),
        ..Default::default()
    });
    let holdings = generate_wallet_holdings(&token);
    assert_eq!(holdings, vec![100_000_000]);
    assert_eq!(token.calculate_wallet_concentration(&holdings), SCALE as i128);
}

#[test]
fn uniform_holdings_normalize_to_zero() {
    let token = token_with(Attributes { holders_count: Some(4), ..Default::default() });
    let uniform = vec![25_000_000i64; 4];
    assert_eq!(token.calculate_wallet_concentration(&uniform), 0);
}

#[test]
fn full_concentration_normalizes_to_one() {
    let token = token_with(Attributes { holders_count: Some(2), ..Default::default() });
    let concentrated = vec![100_000_000i64, 0];
    assert_eq!(token.calculate_wallet_concentration(&concentrated), SCALE as i128);
}

#[test]
fn raw_index_when_holder_count_unknown() {
    let token = token_with(Attributes::default());
    // Two equal shares: hhi == 1/2.
    assert_eq!(token.calculate_wallet_concentration(&vec![50_000_000, 50_000_000]), 500_000);
}

#[test]
fn holdings_shape_top_decile_and_bucket() {
    // Ten holders at fifty percent declared for the top: one top share
    // and one aggregate bucket for the remaining nine.
    let token = token_with(Attributes {
        holders_count: Some(10),
        audit: Some(audit(50_000_000)),
        ..Default::default()
    });
    let holdings = generate_wallet_holdings(&token);
    assert_eq!(holdings.len(), 2);
    assert_eq!(holdings[0], 50_000_000);
    // remainder 50% over nine holders
    assert_eq!(holdings[1], 50_000_000 / 9);
    assert!(token.calculate_wallet_concentration(&holdings) > 0);
}

#[test]
fn trades_synthesis_counts_and_amounts() {
    let token = token_with(Attributes {
        buys_count: Some(10),
        sells_count: Some(3),
        volume: Some(1_000_000_000),
        price_usd: Some(1_000_000),
        ..Default::default()
    });
    let trades = collect_recent_trades(&token, 1_700_000_000);
    assert_eq!(trades.len(), 13);
    for t in &trades {
        assert_eq!(t.timestamp, 1_700_000_000);
        assert_eq!(t.price, 1_000_000);
    }
    // buys: volume / 10, sells: volume / 3
    assert_eq!(trades[0].amount, 100_000_000);
    assert!(matches!(trades[0].trade_type, TradeType::Buy));
    assert_eq!(trades[12].amount, 333_333_333);
    assert!(matches!(trades[12].trade_type, TradeType::Sell));
    // capped at twenty per side
    let busy = token_with(Attributes {
        buys_count: Some(100),
        price_usd: Some(1_000_000),
        ..Default::default()
    });
    assert_eq!(collect_recent_trades(&busy, 0).len(), 20);
}

#[test]
fn trades_now_share_one_timestamp() {
    let token = token_with(Attributes {
        buys_count: Some(4),
        sells_count: Some(2),
        volume: Some(6_000_000),
        price_usd: Some(2_000_000),
        ..Default::default()
    });
    let (now, trades) = collect_recent_trades_now(&token);
    assert_eq!(trades.len(), 6);
    for t in &trades {
        assert_eq!(t.timestamp, now);
    }
    assert!(now > 1_600_000_000);
}

#[test]
fn sniper_bonus_alone() {
    // buys 10, sells 0, volume 1000, price 1.0, snipers 3.
    let token = token_with(Attributes {
        buys_count: Some(10),
        sells_count: Some(0),
        volume: Some(1_000_000_000),
        price_usd: Some(1_000_000),
        snipers_count: Some(3),
        ..Default::default()
    });
    let trades = collect_recent_trades(&token, 1_700_000_000);
    assert_eq!(trades.len(), 10);
    let likelihood = token.detect_bot_patterns(&trades);
    assert!(likelihood >= 200_000);
    // one cluster of ten identical same-side trades from ten wallets:
    // low variance (0.3) + one side (0.2) + the sniper bonus (0.2)
    assert_eq!(likelihood, 700_000);
}

#[test]
fn no_trades_no_snipers_zero_likelihood() {
    let token = token_with(Attributes::default());
    assert_eq!(token.detect_bot_patterns(&Vec::new()), 0);
}

#[test]
fn likelihood_grows_with_added_clusters_and_clamps() {
    let token = token_with(Attributes::default());
    let mut trades = collect_recent_trades(
        &token_with(Attributes {
            buys_count: Some(3),
            volume: Some(3_000_000),
            price_usd: Some(1_000_000),
            ..Default::default()
        }),
        100,
    );
    let one_cluster = token.detect_bot_patterns(&trades);
    assert_eq!(one_cluster, 500_000);

    let mut second = collect_recent_trades(
        &token_with(Attributes {
            buys_count: Some(3),
            volume: Some(3_000_000),
            price_usd: Some(1_000_000),
            ..Default::default()
        }),
        200,
    );
    trades.append(&mut second);
    let two_clusters = token.detect_bot_patterns(&trades);
    assert!(two_clusters >= one_cluster);
    assert_eq!(two_clusters, 1_000_000);

    let mut third = collect_recent_trades(
        &token_with(Attributes {
            buys_count: Some(3),
            volume: Some(3_000_000),
            price_usd: Some(1_000_000),
            ..Default::default()
        }),
        300,
    );
    trades.append(&mut third);
    // clamped at one
    assert_eq!(token.detect_bot_patterns(&trades), 1_000_000);
}

#[test]
fn adjusted_concentration_boost() {
    assert_eq!(adjust_concentration(100_000, 0), 100_000);
    // full bot likelihood doubles the base
    assert_eq!(adjust_concentration(100_000, 1_000_000), 200_000);
    // 0.25^1.5 == 0.125: base 0.2 becomes 0.225
    assert_eq!(adjust_concentration(200_000, 250_000), 225_000);
    // negative bases are kept and boosted toward the negative
    assert_eq!(adjust_concentration(-100_000, 1_000_000), -200_000);
}

#[test]
fn adjusted_concentration_monotone_samples() {
    let mut last: i128 = -1;
    for bot in [0i64, 100_000, 300_000, 600_000, 1_000_000] {
        let score = adjust_concentration(500_000, bot);
        assert!(score >= last);
        last = score;
    }
    assert!(adjust_concentration(100_000, 500_000) <= adjust_concentration(200_000, 500_000));
}

#[test]
fn fixed_threshold_wording_boundaries() {
    let token = token_with(Attributes::default());
    assert_eq!(token.get_concentration_risk(0), "Low Risk");
    assert_eq!(token.get_concentration_risk(149_999), "Low Risk");
    assert_eq!(token.get_concentration_risk(150_000), "Moderate Risk");
    assert_eq!(token.get_concentration_risk(249_999), "Moderate Risk");
    assert_eq!(token.get_concentration_risk(250_000), "High Risk");
    assert_eq!(token.get_concentration_risk(399_999), "High Risk");
    assert_eq!(token.get_concentration_risk(400_000), "Very High Risk");
    assert_eq!(token.get_concentration_risk(-50_000), "Low Risk");
}

#[test]
fn proportional_threshold_boundaries() {
    let calc = RiskCalculator::new();
    assert_eq!(calc.get_risk_level(250_000), RiskLevel::Low);
    assert_eq!(calc.get_risk_level(250_001), RiskLevel::Moderate);
    assert_eq!(calc.get_risk_level(500_000), RiskLevel::Moderate);
    assert_eq!(calc.get_risk_level(750_000), RiskLevel::High);
    assert_eq!(calc.get_risk_level(1_000_000), RiskLevel::VeryHigh);
    assert_eq!(calc.get_risk_level(1_000_001), RiskLevel::Unknown);
    assert_eq!(calc.get_risk_text(RiskLevel::Moderate), "Moderate Risk");
    assert_eq!(calc.get_risk_text(RiskLevel::Unknown), "Unknown Risk");
}

#[test]
fn risk_levels_are_totally_ordered() {
    assert!(RiskLevel::Low < RiskLevel::Moderate);
    assert!(RiskLevel::Moderate < RiskLevel::High);
    assert!(RiskLevel::High < RiskLevel::VeryHigh);
    assert!(RiskLevel::VeryHigh < RiskLevel::Unknown);
    assert_eq!(RiskLevel::Low.rank(), 0);
    assert_eq!(RiskLevel::Unknown.rank(), 4);
}

#[test]
fn end_to_end_sparse_snapshot_is_low_risk() {
    // No audit and no holder count: score zero, lowest tier in both schemes.
    let token = token_with(Attributes::default());
    let holdings = generate_wallet_holdings(&token);
    let trades = collect_recent_trades(&token, 1_700_000_000);
    let score = token.calculate_adjusted_concentration(&holdings, &trades);
    assert_eq!(score, 0);
    let calc = RiskCalculator::default();
    assert_eq!(calc.get_risk_level(score), RiskLevel::Low);
    assert_eq!(token.get_concentration_risk(score), "Low Risk");
    assert_eq!(calc.calculate_risk_at(&token, 1_700_000_000), RiskLevel::Low);
    assert_eq!(calc.calculate_risk(&token), RiskLevel::Low);
}

#[test]
fn largest_holder_count_is_supported() {
    // One million holders: one hundred thousand and one synthesized
    // entries.  The decaying allocation turns deeply negative past the
    // tenth rank, the total ends up below zero, and the defined
    // fallback gives a zero base concentration rather than an error.
    let token = token_with(Attributes {
        holders_count: Some(1_000_000),
        audit: Some(audit(100_000_000)),
        ..Default::default()
    });
    let holdings = generate_wallet_holdings(&token);
    assert_eq!(holdings.len(), 100_001);
    let total: i64 = holdings.iter().sum();
    assert!(total < 0);
    assert_eq!(token.calculate_wallet_concentration(&holdings), 0);
}

#[test]
fn concentrated_sniped_token_ranks_worst() {
    let token = token_with(Attributes {
        holders_count: Some(10),
        audit: Some(audit(90_000_000)),
        snipers_count: Some(5),
        ..Default::default()
    });
    let holdings = generate_wallet_holdings(&token);
    let trades = collect_recent_trades(&token, 1_700_000_000);
    let base = token.calculate_wallet_concentration(&holdings);
    // nine tenths declared for one holder: well past the top tier bar
    assert!(base > 900_000);
    let score = token.calculate_adjusted_concentration(&holdings, &trades);
    assert!(score > base);
    assert_eq!(token.get_concentration_risk(score), "Very High Risk");
    // past one: the proportional scheme cannot name the tier
    assert!(score > 1_000_000);
    assert_eq!(RiskCalculator::new().get_risk_level(score), RiskLevel::Unknown);
    assert_eq!(RiskCalculator::new().calculate_risk_at(&token, 1_700_000_000), RiskLevel::Unknown);
}
