use token_monitor::decode::{decode_token, DecodeError, DecodeField};
use token_monitor::ingest::{pooled_sol_names, process_message, update_token_map};
use token_monitor::json::JsonValue;
use token_monitor::registry::TokenRegistry;
use token_monitor::risk::{RiskCalculator, RiskLevel};
use token_monitor::token::{Attributes, Audit, TokenData, WebSocketError};
use token_monitor::holdings::generate_wallet_holdings;

/// Rebuilds a wire value as the library's JSON model, numbers going to
/// micro-units.
fn to_model(v: &serde_json::Value) -> JsonValue {
    match v {
        serde_json::Value::Null => JsonValue::Null,
        serde_json::Value::Bool(b) => JsonValue::Bool(*b),
        serde_json::Value::Number(n) => {
            let micros = (n.as_f64().unwrap() * 1_000_000.0).round() as i64;
            JsonValue::Num(micros)
        }
        serde_json::Value::String(s) => JsonValue::Str(s.clone()),
        serde_json::Value::Array(items) => JsonValue::Arr(items.iter().map(to_model).collect()),
        serde_json::Value::Object(fields) => {
            JsonValue::Obj(fields.iter().map(|(k, v)| (k.clone(), to_model(v))).collect())
        }
    }
}

fn parse(text: &str) -> JsonValue {
    to_model(&serde_json::from_str::<serde_json::Value>(text).expect("test JSON must parse"))
}

#[test]
fn test_deserialize() {
    let json = r#"{
        "attributes": {
            "address": "test",
            "audit": {
                "freeze_authority": false,
                "lp_burned_perc": 100,
                "mint_authority": false,
                "top_holders_perc": 10.5
            }
        },
        "id": "123",
        "type": "token"
    }"#;

    let result = decode_token(&parse(json));
    assert!(result.is_ok());
    let token = result.unwrap();
    assert_eq!(token.id, "123");
    assert_eq!(token.data_type, "token");
    let audit = token.attributes.audit.expect("audit decoded");
    assert_eq!(audit.top_holders_perc, 10_500_000);
    assert_eq!(audit.lp_burned_perc, 100);
}

#[test]
fn decode_reports_the_offending_field() {
    assert!(matches!(decode_token(&parse("[1, 2]")), Err(DecodeError::NotAnObject)));
    assert!(matches!(
        decode_token(&parse(r#"{"type":"token","attributes":{}}"#)),
        Err(DecodeError::MissingField(DecodeField::Id))
    ));
    assert!(matches!(
        decode_token(&parse(r#"{"id":7,"type":"token","attributes":{}}"#)),
        Err(DecodeError::WrongType(DecodeField::Id))
    ));
    assert!(matches!(
        decode_token(&parse(r#"{"id":"","type":"token","attributes":{}}"#)),
        Err(DecodeError::OutOfRange(DecodeField::Id))
    ));
    assert!(matches!(
        decode_token(&parse(r#"{"id":"A","attributes":{}}"#)),
        Err(DecodeError::MissingField(DecodeField::Kind))
    ));
    assert!(matches!(
        decode_token(&parse(r#"{"id":"A","type":"token"}"#)),
        Err(DecodeError::MissingField(DecodeField::Attributes))
    ));
    assert!(matches!(
        decode_token(&parse(r#"{"id":"A","type":"token","attributes":{"price_usd":-1.0}}"#)),
        Err(DecodeError::OutOfRange(DecodeField::PriceUsd))
    ));
    assert!(matches!(
        decode_token(&parse(r#"{"id":"A","type":"token","attributes":{"buys_count":1.5}}"#)),
        Err(DecodeError::WrongType(DecodeField::BuysCount))
    ));
    assert!(matches!(
        decode_token(&parse(
            r#"{"id":"A","type":"token","attributes":{"audit":{"freeze_authority":false,"mint_authority":false,"top_holders_perc":1.0}}}"#
        )),
        Err(DecodeError::MissingField(DecodeField::LpBurnedPerc))
    ));
    assert!(matches!(
        decode_token(&parse(
            r#"{"id":"A","type":"token","attributes":{"audit":{"freeze_authority":false,"mint_authority":false,"lp_burned_perc":100,"top_holders_perc":101.0}}}"#
        )),
        Err(DecodeError::OutOfRange(DecodeField::TopHoldersPerc))
    ));
}

#[test]
fn decode_accepts_sparse_attributes_and_socials() {
    let token = decode_token(&parse(
        r#"{"id":"A","type":"token","attributes":{
            "name":"N","symbol":"S","tokenAddress":"addr",
            "volume":1000.5,"holders_count":3,"created_timestamp":1700000000,
            "socials":{"twitter":"https://x.com/a","reddit":{"x":1},"medium":null},
            "action":"overwrite"
        }}"#,
    ))
    .expect("record decodes");
    assert_eq!(token.attributes.volume, Some(1_000_500_000));
    assert_eq!(token.attributes.holders_count, Some(3));
    assert_eq!(token.attributes.created_timestamp, Some(1_700_000_000));
    let socials = token.attributes.socials.expect("socials decoded");
    assert!(socials.reddit);
    assert!(!socials.medium);
    assert_eq!(socials.twitter.as_deref(), Some("https://x.com/a"));
    assert!(token.attributes.action.is_some());
}

#[test]
fn ingest_scenario_registry_and_score() {
    let mut registry = TokenRegistry::new();
    let message = parse(
        r#"{"tokens":[{"id":"A","type":"token","attributes":{
            "holders_count":10,
            "audit":{"top_holders_perc":50.0,"freeze_authority":false,"mint_authority":false,"lp_burned_perc":100}
        }}]}"#,
    );
    let report = process_message(&mut registry, &message).expect("batch applies");
    assert_eq!(report.accepted, 1);
    assert_eq!(report.skipped, 0);

    let stored = registry.get(&"A".to_string()).expect("token A present").clone();
    let holdings = generate_wallet_holdings(&stored);
    assert!(!holdings.is_empty());
    assert!(stored.calculate_wallet_concentration(&holdings) > 0);
}

#[test]
fn malformed_record_is_skipped_not_fatal() {
    // One malformed record inside a batch of three: the other two land.
    let mut registry = TokenRegistry::new();
    let message = parse(
        r#"{"tokens":[
            {"id":"A","type":"token","attributes":{}},
            {"id":42,"type":"token","attributes":{}},
            {"id":"C","type":"token","attributes":{"holders_count":5}}
        ]}"#,
    );
    let report = process_message(&mut registry, &message).expect("batch applies");
    assert_eq!(report.accepted, 2);
    assert_eq!(report.skipped, 1);
    assert_eq!(registry.len(), 2);
    assert!(registry.get(&"A".to_string()).is_some());
    assert!(registry.get(&"C".to_string()).is_some());
}

#[test]
fn non_array_batch_is_a_batch_level_error() {
    let mut registry = TokenRegistry::new();
    let message = parse(r#"{"tokens":{"id":"A"}}"#);
    match process_message(&mut registry, &message) {
        Err(WebSocketError::TokenParse(m)) => assert_eq!(m, "Expected array"),
        _ => panic!("a non-array batch must be refused"),
    }
    assert_eq!(registry.len(), 0);

    match update_token_map(&mut registry, &JsonValue::Num(3_000_000)) {
        Err(WebSocketError::TokenParse(m)) => assert_eq!(m, "Expected array"),
        _ => panic!("a non-array batch must be refused"),
    }
}

#[test]
fn message_without_batch_is_a_no_op() {
    let mut registry = TokenRegistry::new();
    let report = process_message(&mut registry, &parse(r#"{"other":1}"#)).expect("no-op");
    assert_eq!(report.accepted, 0);
    assert_eq!(report.skipped, 0);
    let report = process_message(&mut registry, &parse("3.5")).expect("no-op");
    assert_eq!(report.accepted, 0);
    assert_eq!(registry.len(), 0);
}

#[test]
fn data_key_is_accepted_as_batch() {
    let mut registry = TokenRegistry::new();
    let message = parse(r#"{"data":[{"id":"D","type":"token","attributes":{}}]}"#);
    let report = process_message(&mut registry, &message).expect("batch applies");
    assert_eq!(report.accepted, 1);
    assert!(registry.get(&"D".to_string()).is_some());
}

#[test]
fn sequential_batches_replace_whole_snapshots() {
    // Two sequential upserts with id "B": the second fully replaces
    // the first, nothing carries over.
    let mut registry = TokenRegistry::new();
    process_message(
        &mut registry,
        &parse(r#"{"tokens":[{"id":"B","type":"token","attributes":{"name":"old","volume":7.0}}]}"#),
    )
    .expect("first batch");
    process_message(
        &mut registry,
        &parse(r#"{"tokens":[{"id":"B","type":"token","attributes":{"symbol":"NEW"}}]}"#),
    )
    .expect("second batch");

    let stored = registry.get(&"B".to_string()).expect("B present");
    assert_eq!(stored.attributes.name, None);
    assert_eq!(stored.attributes.volume, None);
    assert_eq!(stored.attributes.symbol.as_deref(), Some("NEW"));
}

#[test]
fn sparse_snapshot_scores_zero_and_low() {
    // No audit and no holders_count: adjusted concentration zero, tier low.
    let mut registry = TokenRegistry::new();
    process_message(
        &mut registry,
        &parse(r#"{"tokens":[{"id":"E","type":"token","attributes":{}}]}"#),
    )
    .expect("batch applies");
    let stored = registry.get(&"E".to_string()).expect("E present").clone();
    let holdings = generate_wallet_holdings(&stored);
    let trades = token_monitor::trades::collect_recent_trades(&stored, 1_700_000_000);
    let score = stored.calculate_adjusted_concentration(&holdings, &trades);
    assert_eq!(score, 0);
    assert_eq!(RiskCalculator::new().get_risk_level(score), RiskLevel::Low);
}

#[test]
fn pooled_names_filter() {
    fn with_pool(id: &str, name: &str, pooled: i64, lp: u8) -> TokenData {
        TokenData {
            attributes: Attributes {
                name: Some(name.to_string()),
                pooled_sol: Some(pooled),
                audit: Some(Audit {
                    freeze_authority: false,
                    mint_authority: false,
                    lp_burned_perc: lp,
                    top_holders_perc: 0,
                }),
                ..Default::default()
            },
            id: id.to_string(),
            data_type: "token".to_string(),
        }
    }
    let tokens = vec![
        with_pool("A", "keeper", 2_000_000, 100),
        with_pool("B", "shallow", 1_999_999, 100),
        with_pool("C", "unburned", 5_000_000, 99),
        with_pool("D", "winner", 10_000_000, 100),
    ];
    let names = pooled_sol_names(&tokens);
    assert_eq!(names, vec!["keeper".to_string(), "winner".to_string()]);
}

#[test]
fn out_of_range_numbers_are_schema_errors() {
    // holder counts above the supported scale and amounts beyond one
    // billion units are refused per record, not silently clamped
    assert!(matches!(
        decode_token(&parse(r#"{"id":"A","type":"token","attributes":{"holders_count":1000001}}"#)),
        Err(DecodeError::OutOfRange(DecodeField::HoldersCount))
    ));
    assert!(matches!(
        decode_token(&parse(r#"{"id":"A","type":"token","attributes":{"price_usd":2000000000.0}}"#)),
        Err(DecodeError::OutOfRange(DecodeField::PriceUsd))
    ));
    assert!(matches!(
        decode_token(&parse(r#"{"id":"A","type":"token","attributes":{"holders_count":1000000}}"#)),
        Ok(_)
    ));
}
