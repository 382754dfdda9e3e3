//! The wider model: instant normalization, enumeration exactness, typed
//! decode failures, and round trips of every record type.

use ocpp_codec::datatypes::ac_charging_parameters::ACChargingParametersType;
use ocpp_codec::datatypes::charging_needs::ChargingNeedsType;
use ocpp_codec::datatypes::clear_monitoring_result::ClearMonitoringResultType;
use ocpp_codec::datatypes::dc_charging_parameters::DCChargingParametersType;
use ocpp_codec::datatypes::evse::EVSEType;
use ocpp_codec::datatypes::firmware::FirmwareType;
use ocpp_codec::datatypes::id_token::IdTokenType;
use ocpp_codec::datatypes::id_token_info::IdTokenInfoType;
use ocpp_codec::datatypes::log_parameters::LogParametersType;
use ocpp_codec::datatypes::message_content::MessageContentType;
use ocpp_codec::datatypes::meter_value::MeterValueType;
use ocpp_codec::datatypes::sampled_value::SampledValueType;
use ocpp_codec::datatypes::status_info::StatusInfoType;
use ocpp_codec::datatypes::transaction::TransactionType;
use ocpp_codec::decimal::Decimal;
use ocpp_codec::enums::AuthorizationStatusEnumType;
use ocpp_codec::enums::ClearMonitoringStatusEnumType;
use ocpp_codec::enums::EnergyTransferModeEnumType;
use ocpp_codec::enums::IdTokenEnumType;
use ocpp_codec::enums::MessageFormatEnumType;
use ocpp_codec::enums::TransactionEventEnumType;
use ocpp_codec::enums::TriggerReasonEnumType;
use ocpp_codec::error::CodecError;
use ocpp_codec::instant::Instant;
use ocpp_codec::json::Json;
use ocpp_codec::json::JsonField;
use ocpp_codec::messages::transaction_event::TransactionEventRequest;
use ocpp_codec::messages::transaction_event::TransactionEventResponse;

#[test]
fn encode_instant_exact_text() {
    let dt = Instant::new(2023, 9, 3, 12, 34, 56, 789);
    assert_eq!(dt.to_rfc3339(), "2023-09-03T12:34:56.789Z");
}

#[test]
fn decode_instant_truncates_submillisecond_digits() {
    let dt = Instant::parse_rfc3339("2023-09-03T12:34:56.789999Z").unwrap();
    assert_eq!(dt.milli, 789);
    assert_eq!(dt.to_rfc3339(), "2023-09-03T12:34:56.789Z");
}

#[test]
fn decode_instant_normalizes_offset_to_utc() {
    let dt = Instant::parse_rfc3339("2024-01-01T00:30:00+01:00").unwrap();
    assert_eq!(dt.to_rfc3339(), "2023-12-31T23:30:00.000Z");
    let dt2 = Instant::parse_rfc3339("2023-12-31T23:30:00-02:30").unwrap();
    assert_eq!(dt2.to_rfc3339(), "2024-01-01T02:00:00.000Z");
}

#[test]
fn decode_instant_rejects_malformed_text() {
    let r = Instant::parse_rfc3339("not-a-date");
    assert_eq!(
        r,
        Err(CodecError::MalformedTimestamp { text: "not-a-date".to_string() })
    );
    assert!(Instant::parse_rfc3339("2023-13-01T00:00:00Z").is_err());
    assert!(Instant::parse_rfc3339("2023-02-29T00:00:00Z").is_err());
    assert!(Instant::parse_rfc3339("2023-02-28T00:00:00").is_err());
}

#[test]
fn leap_day_is_accepted_in_leap_years() {
    assert!(Instant::parse_rfc3339("2024-02-29T00:00:00Z").is_ok());
}

#[test]
fn enumeration_tags_are_exact() {
    assert_eq!(
        AuthorizationStatusEnumType::from_tag("Accepted"),
        Some(AuthorizationStatusEnumType::Accepted)
    );
    assert_eq!(AuthorizationStatusEnumType::from_tag("accepted"), None);
    assert_eq!(AuthorizationStatusEnumType::from_tag("Banana"), None);
    assert_eq!(
        TriggerReasonEnumType::from_tag("EVDeparted"),
        Some(TriggerReasonEnumType::EVDeparted)
    );
    assert_eq!(
        TriggerReasonEnumType::from_tag("EVDetected"),
        Some(TriggerReasonEnumType::EVDetected)
    );
    assert_eq!(
        EnergyTransferModeEnumType::from_tag("AC_single_phase"),
        Some(EnergyTransferModeEnumType::ACSinglePhase)
    );
    assert_eq!(EnergyTransferModeEnumType::ACSinglePhase.tag(), "AC_single_phase");
}

#[test]
fn unknown_enumeration_tag_fails_decode() {
    let input = Json::Obj(vec![JsonField {
        key: "status".to_string(),
        value: Json::Str("accepted".to_string()),
    }]);
    let r = IdTokenInfoType::from_json(&input);
    assert_eq!(
        r,
        Err(CodecError::UnknownEnumerationValue {
            enum_name: "AuthorizationStatusEnumType".to_string(),
            received_tag: "accepted".to_string(),
        })
    );
}

#[test]
fn missing_required_field_fails_decode() {
    let input = Json::Obj(vec![JsonField {
        key: "chargingPriority".to_string(),
        value: Json::Num(Decimal::from_int(1)),
    }]);
    let r = IdTokenInfoType::from_json(&input);
    assert_eq!(
        r,
        Err(CodecError::MissingRequiredField { field: "status".to_string() })
    );
}

#[test]
fn type_mismatch_fails_decode() {
    let input = Json::Obj(vec![
        JsonField { key: "status".to_string(), value: Json::Str("Accepted".to_string()) },
        JsonField {
            key: "chargingPriority".to_string(),
            value: Json::Str("high".to_string()),
        },
    ]);
    let r = IdTokenInfoType::from_json(&input);
    assert_eq!(
        r,
        Err(CodecError::TypeMismatch {
            field: "chargingPriority".to_string(),
            expected: "integer".to_string(),
            found: "string".to_string(),
        })
    );
}

#[test]
fn unknown_keys_are_ignored() {
    let input = Json::Obj(vec![
        JsonField { key: "status".to_string(), value: Json::Str("Accepted".to_string()) },
        JsonField { key: "futureField".to_string(), value: Json::Null },
    ]);
    let token_info = IdTokenInfoType::from_json(&input).unwrap();
    assert_eq!(token_info.status, AuthorizationStatusEnumType::Accepted);
}

#[test]
fn status_info_round_trip() {
    let original = StatusInfoType {
        reason_code: "NotSupported".to_string(),
        additional_info: Some("detail".to_string()),
    };
    let v = original.to_json();
    assert_eq!(StatusInfoType::from_json(&v).unwrap(), original);
}

#[test]
fn clear_monitoring_result_round_trip() {
    let original = ClearMonitoringResultType {
        status: ClearMonitoringStatusEnumType::NotFound,
        id: 42,
        status_info: Some(StatusInfoType {
            reason_code: "NoMonitor".to_string(),
            additional_info: None,
        }),
    };
    let v = original.to_json();
    assert_eq!(ClearMonitoringResultType::from_json(&v).unwrap(), original);
}

#[test]
fn firmware_round_trip() {
    let original = FirmwareType {
        location: "https://example.invalid/fw.bin".to_string(),
        retrieve_date_time: Instant::new(2025, 1, 2, 3, 4, 5, 6),
        install_date_time: None,
        signing_certificate: Some("CERT".to_string()),
        signature: None,
    };
    let v = original.to_json();
    assert_eq!(FirmwareType::from_json(&v).unwrap(), original);
    assert!(v.get("installDateTime").is_none());
}

#[test]
fn log_parameters_round_trip() {
    let original = LogParametersType {
        remote_location: "ftp://logs.example.invalid".to_string(),
        oldest_timestamp: Some(Instant::new(2024, 2, 29, 0, 0, 0, 0)),
        latest_timestamp: None,
    };
    let v = original.to_json();
    assert_eq!(LogParametersType::from_json(&v).unwrap(), original);
}

#[test]
fn meter_value_round_trip() {
    let original = MeterValueType {
        timestamp: Instant::new(2024, 6, 15, 10, 30, 45, 500),
        sampled_value: vec![
            SampledValueType { value: Decimal::new(1234, 1) },
            SampledValueType { value: Decimal::from_int(7) },
        ],
    };
    let v = original.to_json();
    assert_eq!(MeterValueType::from_json(&v).unwrap(), original);
}

#[test]
fn charging_needs_round_trip() {
    let original = ChargingNeedsType {
        requested_energy_transfer: EnergyTransferModeEnumType::ACThreePhase,
        departure_time: Some(Instant::new(2024, 7, 1, 8, 0, 0, 0)),
        ac_charging_parameters: Some(ACChargingParametersType {
            energy_amount: 30000,
            ev_min_current: 6,
            ev_max_current: 32,
            ev_max_voltage: 400,
        }),
        dc_charging_parameters: None,
    };
    let v = original.to_json();
    assert_eq!(ChargingNeedsType::from_json(&v).unwrap(), original);
    let with_dc = ChargingNeedsType {
        requested_energy_transfer: EnergyTransferModeEnumType::DC,
        departure_time: None,
        ac_charging_parameters: None,
        dc_charging_parameters: Some(DCChargingParametersType {
            ev_max_current: 200,
            ev_max_voltage: 800,
            energy_amount: Some(50000),
            state_of_charge: Some(20),
        }),
    };
    let v2 = with_dc.to_json();
    assert_eq!(ChargingNeedsType::from_json(&v2).unwrap(), with_dc);
}

#[test]
fn transaction_event_request_round_trip() {
    let original = TransactionEventRequest {
        event_type: TransactionEventEnumType::Started,
        timestamp: Instant::new(2024, 6, 15, 10, 30, 45, 123),
        trigger_reason: TriggerReasonEnumType::CablePluggedIn,
        seq_no: 7,
        offline: Some(false),
        number_of_phases_used: None,
        cable_max_current: Some(32),
        reservation_id: None,
        transaction_info: TransactionType {
            transaction_id: "tx-001".to_string(),
            time_spent_charging: None,
            remote_start_id: None,
        },
        id_token: Some(IdTokenType {
            id_token: "ABCD1234".to_string(),
            kind: IdTokenEnumType::ISO14443,
        }),
        evse: Some(EVSEType { id: 1, connector_id: Some(2) }),
        meter_value: Some(vec![MeterValueType {
            timestamp: Instant::new(2024, 6, 15, 10, 30, 45, 0),
            sampled_value: vec![SampledValueType { value: Decimal::new(95, 1) }],
        }]),
    };
    let v = original.to_json();
    assert_eq!(TransactionEventRequest::from_json(&v).unwrap(), original);
}

#[test]
fn transaction_event_response_round_trip() {
    let original = TransactionEventResponse {
        total_cost: Some(Decimal::new(1999, 2)),
        charging_priority: Some(-1),
        id_token_info: Some(IdTokenInfoType::default()),
        updated_personal_message: Some(MessageContentType {
            format: MessageFormatEnumType::UTF8,
            language: Some("en".to_string()),
            content: "Thank you".to_string(),
        }),
    };
    let v = original.to_json();
    assert_eq!(TransactionEventResponse::from_json(&v).unwrap(), original);
    assert!(TransactionEventResponse::default().to_json().get("totalCost").is_none());
}

#[test]
fn decimal_survives_the_wire_exactly() {
    let original = TransactionEventResponse {
        total_cost: Some(Decimal::new(1050, 3)),
        charging_priority: None,
        id_token_info: None,
        updated_personal_message: None,
    };
    let v = original.to_json();
    let back = TransactionEventResponse::from_json(&v).unwrap();
    assert_eq!(back.total_cost, Some(Decimal::new(1050, 3)));
}
