//! The identity-token-info record: optional omission, decoding, round trips.

use ocpp_codec::datatypes::id_token_info::IdTokenInfoType;
use ocpp_codec::decimal::Decimal;
use ocpp_codec::enums::AuthorizationStatusEnumType;
use ocpp_codec::instant::Instant;
use ocpp_codec::json::Json;
use ocpp_codec::json::JsonField;

fn token_info_with(
    cache_expiry_date_time: Option<Instant>,
    charging_priority: Option<i32>,
    language1: Option<String>,
) -> IdTokenInfoType {
    IdTokenInfoType {
        status: AuthorizationStatusEnumType::Accepted,
        cache_expiry_date_time,
        charging_priority,
        language1,
        evse_id: None,
        language2: None,
        group_id_token: None,
        personal_message: None,
    }
}

#[test]
fn test_id_token_info_serialize_with_none_cache_expiry() {
    let token_info = token_info_with(None, Some(1), Some("en".to_string()));
    let v = token_info.to_json();
    assert!(
        v.get("cacheExpiryDateTime").is_none(),
        "cacheExpiryDateTime should not be in JSON when None"
    );
    match v.get("status") {
        Some(Json::Str(s)) => assert_eq!(s, "Accepted"),
        other => panic!("status should be a string, got {:?}", other),
    }
    match v.get("chargingPriority") {
        Some(Json::Num(d)) => assert_eq!(*d, Decimal::from_int(1)),
        other => panic!("chargingPriority should be a number, got {:?}", other),
    }
}

#[test]
fn test_id_token_info_serialize_with_some_cache_expiry() {
    let dt = Instant::new(2025, 12, 31, 23, 59, 59, 0);
    let token_info = token_info_with(Some(dt), None, None);
    let v = token_info.to_json();
    assert!(
        v.get("cacheExpiryDateTime").is_some(),
        "cacheExpiryDateTime should be in JSON when Some"
    );
    let ts_str = match v.get("cacheExpiryDateTime") {
        Some(Json::Str(s)) => s.clone(),
        other => panic!("cacheExpiryDateTime should be a string, got {:?}", other),
    };
    assert!(ts_str.starts_with("2025-12-31T23:59:59"));
    assert!(ts_str.ends_with('Z'));
}

#[test]
fn test_id_token_info_deserialize_with_none_cache_expiry() {
    let input = Json::Obj(vec![
        JsonField { key: "status".to_string(), value: Json::Str("Accepted".to_string()) },
        JsonField { key: "chargingPriority".to_string(), value: Json::Num(Decimal::from_int(1)) },
    ]);
    let token_info = IdTokenInfoType::from_json(&input).unwrap();
    assert_eq!(token_info.status, AuthorizationStatusEnumType::Accepted);
    assert_eq!(token_info.cache_expiry_date_time, None);
    assert_eq!(token_info.charging_priority, Some(1));
}

#[test]
fn test_id_token_info_deserialize_with_some_cache_expiry() {
    let input = Json::Obj(vec![
        JsonField { key: "status".to_string(), value: Json::Str("Accepted".to_string()) },
        JsonField {
            key: "cacheExpiryDateTime".to_string(),
            value: Json::Str("2025-12-31T23:59:59.000Z".to_string()),
        },
    ]);
    let token_info = IdTokenInfoType::from_json(&input).unwrap();
    assert_eq!(token_info.status, AuthorizationStatusEnumType::Accepted);
    assert!(token_info.cache_expiry_date_time.is_some());
    let dt = token_info.cache_expiry_date_time.unwrap();
    assert_eq!(dt.year, 2025);
    assert_eq!(dt.month, 12);
    assert_eq!(dt.day, 31);
}

#[test]
fn test_id_token_info_round_trip_none() {
    let original = token_info_with(None, Some(5), Some("de".to_string()));
    let v = original.to_json();
    let deserialized = IdTokenInfoType::from_json(&v).unwrap();
    assert_eq!(original, deserialized);
}

#[test]
fn test_id_token_info_round_trip_some() {
    let dt = Instant::new(2024, 6, 15, 10, 30, 45, 0);
    let original = token_info_with(Some(dt), Some(3), Some("fr".to_string()));
    let v = original.to_json();
    let deserialized = IdTokenInfoType::from_json(&v).unwrap();
    assert_eq!(original, deserialized);
}
