use token_monitor::token::{Attributes, Audit, InitialLiquidity, TokenData, WebSocketError};

fn sparse_attributes() -> Attributes {
    Attributes::default()
}

#[test]
fn test_audit_risk_score() {
    let audit = Audit {
        freeze_authority: true,
        mint_authority: true,
        lp_burned_perc: 90,
        top_holders_perc: 20_000_000,
    };
    assert_eq!(audit.get_risk_score(), 8);
    assert!(!audit.is_safe());
}

#[test]
fn test_attributes_display() {
    let attrs = Attributes {
        name: Some("Test Token".into()),
        symbol: Some("TEST".into()),
        price_usd: Some(1_000_000),
        volume: Some(1_000_000_000),
        holders_count: Some(100),
        ..Default::default()
    };

    assert_eq!(attrs.get_display_name(), "Test Token");
    assert_eq!(attrs.get_symbol_or_default(), "TEST");
    assert!(attrs.has_valid_price());
    assert!(attrs.has_valid_volume());
    assert!(attrs.has_valid_holders());
}

#[test]
fn display_defaults_for_missing_name_and_symbol() {
    let attrs = sparse_attributes();
    assert_eq!(attrs.get_display_name(), "Unknown Token");
    assert_eq!(attrs.get_symbol_or_default(), "???");
    assert!(!attrs.has_valid_price());
    assert!(!attrs.has_valid_volume());
    assert!(!attrs.has_valid_holders());
}

#[test]
fn audit_is_safe_when_all_checks_pass() {
    let audit = Audit {
        freeze_authority: false,
        mint_authority: false,
        lp_burned_perc: 95,
        top_holders_perc: 15_000_000,
    };
    assert!(audit.is_safe());
    assert_eq!(audit.get_risk_score(), 0);
}

#[test]
fn validate_rejects_empty_id() {
    let token = TokenData {
        attributes: sparse_attributes(),
        id: String::new(),
        data_type: "token".to_string(),
    };
    match token.validate() {
        Err(WebSocketError::TokenParse(m)) => assert_eq!(m, "Empty token ID"),
        _ => panic!("empty id must be rejected"),
    }
}

#[test]
fn validate_rejects_empty_type() {
    let token = TokenData {
        attributes: sparse_attributes(),
        id: "abc".to_string(),
        data_type: String::new(),
    };
    match token.validate() {
        Err(WebSocketError::TokenParse(m)) => assert_eq!(m, "Empty token type"),
        _ => panic!("empty type must be rejected"),
    }
}

#[test]
fn validate_accepts_nonempty_id_and_type() {
    let token = TokenData {
        attributes: sparse_attributes(),
        id: "abc".to_string(),
        data_type: "token".to_string(),
    };
    assert!(token.validate().is_ok());
}

#[test]
fn initial_liquidity_validity() {
    let liq = InitialLiquidity {
        quote: Some(1_000_000),
        timestamp: None,
        token: Some(2_000_000),
        usd: Some(3_000_000),
        lp_amount: None,
        open_timestamp: None,
        percentage: None,
        pending: Some(false),
    };
    assert!(liq.is_valid());
    assert_eq!(liq.get_total_value_usd(), Some(3_000_000));

    let pending = InitialLiquidity { pending: Some(true), ..liq.clone() };
    assert!(!pending.is_valid());

    let unknown = InitialLiquidity { pending: None, ..liq.clone() };
    assert!(!unknown.is_valid());
}
