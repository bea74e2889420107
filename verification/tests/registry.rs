use token_monitor::analysis::{TokenFilter, TokenMetrics};
use token_monitor::metrics::Metrics;
use token_monitor::registry::{TokenProcessor, TokenRegistry};
use token_monitor::settings::Settings;
use token_monitor::token::{Attributes, Audit, Socials, TokenData, WebSocketError};

fn snapshot(id: &str, name: Option<&str>) -> TokenData {
    TokenData {
        attributes: Attributes { name: name.map(|n| n.to_string()), ..Default::default() },
        id: id.to_string(),
        data_type: "token".to_string(),
    }
}

#[test]
fn upsert_creates_then_replaces() {
    let mut registry = TokenRegistry::new();
    assert_eq!(registry.len(), 0);
    assert!(registry.get(&"A".to_string()).is_none());

    registry.upsert(snapshot("A", Some("first")));
    assert_eq!(registry.len(), 1);
    let stored = registry.get(&"A".to_string()).expect("entry must exist");
    assert_eq!(stored.attributes.name.as_deref(), Some("first"));

    registry.upsert(snapshot("A", Some("second")));
    assert_eq!(registry.len(), 1);
    let stored = registry.get(&"A".to_string()).expect("entry must exist");
    assert_eq!(stored.attributes.name.as_deref(), Some("second"));
}

#[test]
fn upsert_is_idempotent_for_identical_snapshots() {
    let mut registry = TokenRegistry::new();
    registry.upsert(snapshot("A", Some("same")));
    registry.upsert(snapshot("A", Some("same")));
    assert_eq!(registry.len(), 1);
    let stored = registry.get(&"A".to_string()).expect("entry must exist");
    assert_eq!(stored.id, "A");
    assert_eq!(stored.attributes.name.as_deref(), Some("same"));
}

#[test]
fn sequential_upserts_last_write_wins() {
    // Second snapshot fully replaces the first: no field carries over.
    let mut registry = TokenRegistry::new();
    let mut first = snapshot("B", Some("old"));
    first.attributes.volume = Some(5_000_000);
    first.attributes.holders_count = Some(7);
    registry.upsert(first);

    let second = snapshot("B", None);
    registry.upsert(second);

    let stored = registry.get(&"B".to_string()).expect("entry must exist");
    assert_eq!(stored.attributes.name, None);
    assert_eq!(stored.attributes.volume, None);
    assert_eq!(stored.attributes.holders_count, None);
    assert_eq!(registry.len(), 1);
}

#[test]
fn get_all_snapshot_returns_every_entry() {
    let mut registry = TokenRegistry::new();
    registry.upsert(snapshot("A", Some("a")));
    registry.upsert(snapshot("B", Some("b")));
    registry.upsert(snapshot("C", Some("c")));
    registry.upsert(snapshot("B", Some("b2")));

    let all = registry.get_all_snapshot();
    assert_eq!(all.len(), 3);
    let mut ids: Vec<String> = all.iter().map(|(id, _)| id.clone()).collect();
    ids.sort();
    assert_eq!(ids, vec!["A".to_string(), "B".to_string(), "C".to_string()]);
    for (id, token) in &all {
        assert_eq!(&token.id, id);
        if id.as_str() == "B" {
            assert_eq!(token.attributes.name.as_deref(), Some("b2"));
        }
    }
}

#[test]
fn processor_accepts_only_named_addressed_tokens() {
    let mut processor = TokenProcessor::new();
    let mut good = snapshot("A", Some("named"));
    good.attributes.token_address = Some("addr".to_string());
    assert!(processor.process_token(good).is_ok());

    let bad = snapshot("B", None);
    match processor.process_token(bad) {
        Err(WebSocketError::ValidationError(m)) => assert_eq!(m, "Invalid token data"),
        _ => panic!("unnamed token must be rejected"),
    }
}

#[test]
fn metrics_count_events() {
    let mut metrics = Metrics::new();
    assert_eq!(metrics.active_connections, 0);
    assert_eq!(metrics.messages_processed, 0);
    metrics.record_connection();
    metrics.record_message();
    metrics.record_message();
    assert_eq!(metrics.active_connections, 1);
    assert_eq!(metrics.messages_processed, 2);
}

#[test]
fn settings_carry_their_values() {
    let settings = Settings::new("127.0.0.1".to_string(), 8080, 64, 30);
    assert_eq!(settings.server.host, "127.0.0.1");
    assert_eq!(settings.server.port, 8080);
    assert_eq!(settings.websocket.max_connections, 64);
    assert_eq!(settings.websocket.timeout_seconds, 30);
}

fn promising_token() -> TokenData {
    TokenData {
        attributes: Attributes {
            fdv: Some(100_000_000_000),          // 100 000 usd
            volume: Some(20_000_000_000),        // 20 000 usd
            pooled_sol: Some(25_000_000),        // 25 sol
            buys_count: Some(12),
            sells_count: Some(10),
            audit: Some(Audit {
                freeze_authority: false,
                mint_authority: false,
                lp_burned_perc: 100,
                top_holders_perc: 20_000_000,
            }),
            socials: Some(Socials {
                medium: false,
                reddit: false,
                telegram: None,
                twitter: Some("https://x.com/example".to_string()),
                website: None,
            }),
            ..Default::default()
        },
        id: "P".to_string(),
        data_type: "token".to_string(),
    }
}

#[test]
fn filter_accepts_promising_token() {
    let filter = TokenFilter::default();
    let token = promising_token();
    assert!(filter.has_positive_momentum(&token.attributes));
    assert!(filter.meets_criteria(&token));
}

#[test]
fn filter_rejects_on_each_criterion() {
    let filter = TokenFilter::default();

    let mut small = promising_token();
    small.attributes.fdv = Some(10_000_000_000);
    assert!(!filter.meets_criteria(&small));

    let mut concentrated = promising_token();
    if let Some(a) = &mut concentrated.attributes.audit {
        a.top_holders_perc = 30_000_000;
    }
    assert!(!filter.meets_criteria(&concentrated));

    let mut no_twitter = promising_token();
    no_twitter.attributes.socials = None;
    assert!(!filter.meets_criteria(&no_twitter));

    // ratio 12/11 < 1.2
    let mut weak = promising_token();
    weak.attributes.sells_count = Some(11);
    assert!(!filter.has_positive_momentum(&weak.attributes));
    assert!(!filter.meets_criteria(&weak));
}

#[test]
fn metrics_summary_is_exact() {
    let token = promising_token();
    let now: i64 = 1_700_003_600;
    let mut aged = token;
    aged.attributes.created_timestamp = Some(1_700_000_000);
    let m = TokenMetrics::from_token(&aged, now);
    assert_eq!(m.name, "Unknown Token");
    assert_eq!(m.market_cap, 100_000_000_000);
    assert_eq!(m.volume, 20_000_000_000);
    // volume / market cap == 0.2
    assert_eq!(m.volume_mcap_ratio, 200_000);
    // 12 buys over 10 sells
    assert_eq!(m.buy_sell_ratio, 1_200_000);
    // one hour old
    assert_eq!(m.age_hours, 1_000_000);
    assert_eq!(m.top_holders_perc, 20_000_000);
}
