//! The instant codec round-trips through its canonical text form.

use ocpp_codec::instant::Instant;
use ocpp_codec::json::Json;

#[test]
fn test_serialize_deserialize_datetime() {
    let dt = Instant::new(2023, 9, 3, 12, 34, 56, 789);
    let text = dt.to_rfc3339();
    let deserialized = Instant::parse_rfc3339(&text).unwrap();
    assert_eq!(dt, deserialized);
}

#[test]
fn test_serialize_deserialize_option_some() {
    let dt = Instant::new(2023, 9, 3, 12, 34, 56, 789);
    let opt_dt = Some(dt);
    let text = opt_dt.map(|i| i.to_rfc3339());
    let deserialized = match &text {
        Some(s) => Some(Instant::parse_rfc3339(s).unwrap()),
        None => None,
    };
    assert_eq!(opt_dt, deserialized);
}

#[test]
fn test_serialize_deserialize_option_none() {
    let opt_dt: Option<Instant> = None;
    // An absent optional instant writes no member at all; reading the missing
    // member back yields absence.
    let obj = Json::Obj(Vec::new());
    let deserialized = obj.get_opt_instant("timestamp").unwrap();
    assert_eq!(opt_dt, deserialized);
}
