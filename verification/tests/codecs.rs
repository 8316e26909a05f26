use carbonex::errors::DecodeError;
use carbonex::timestamp::{deserialize, serialize, Timestamp};
use carbonex::types::{IntensityIndex, PowerType};

#[test]
fn timestamp_round_trip_from_text() {
    let t = deserialize("2024-01-01T00:00Z").unwrap();
    assert_eq!(
        t,
        Timestamp { year: 2024, month: 1, day: 1, hour: 0, minute: 0 }
    );
    assert_eq!(serialize(&t), "2024-01-01T00:00Z");
}

#[test]
fn timestamp_round_trip_from_value() {
    let t = Timestamp { year: 1999, month: 12, day: 31, hour: 23, minute: 59 };
    let text = serialize(&t);
    assert_eq!(text, "1999-12-31T23:59Z");
    assert_eq!(deserialize(&text).unwrap(), t);
}

#[test]
fn timestamp_with_seconds_fails() {
    assert_eq!(
        deserialize("2024-01-01T00:00:00Z"),
        Err(DecodeError::InvalidTimestamp)
    );
}

#[test]
fn timestamp_bad_patterns_fail() {
    assert!(deserialize("2024-01-01 00:00Z").is_err());
    assert!(deserialize("2024-13-01T00:00Z").is_err());
    assert!(deserialize("2024-00-01T00:00Z").is_err());
    assert!(deserialize("2024-01-32T00:00Z").is_err());
    assert!(deserialize("2024-01-01T24:00Z").is_err());
    assert!(deserialize("2024-01-01T00:60Z").is_err());
    assert!(deserialize("2024-01-01T00:00").is_err());
    assert!(deserialize("").is_err());
}

#[test]
fn timestamp_leap_year_rules() {
    assert!(deserialize("2024-02-29T12:30Z").is_ok());
    assert!(deserialize("2023-02-29T12:30Z").is_err());
    assert!(deserialize("2000-02-29T12:30Z").is_ok());
    assert!(deserialize("1900-02-29T12:30Z").is_err());
}

#[test]
fn metric_value_is_strictly_increasing() {
    let ordinals = [
        IntensityIndex::VeryLow.metric_value(),
        IntensityIndex::Low.metric_value(),
        IntensityIndex::Moderate.metric_value(),
        IntensityIndex::High.metric_value(),
        IntensityIndex::VeryHigh.metric_value(),
    ];
    assert_eq!(ordinals, [0, 1, 2, 3, 4]);
    for w in ordinals.windows(2) {
        assert!(w[0] < w[1]);
    }
}

#[test]
fn intensity_index_decodes_exact_wire_forms() {
    assert_eq!(IntensityIndex::decode("very low"), Ok(IntensityIndex::VeryLow));
    assert_eq!(IntensityIndex::decode("low"), Ok(IntensityIndex::Low));
    assert_eq!(IntensityIndex::decode("moderate"), Ok(IntensityIndex::Moderate));
    assert_eq!(IntensityIndex::decode("high"), Ok(IntensityIndex::High));
    assert_eq!(IntensityIndex::decode("very high"), Ok(IntensityIndex::VeryHigh));
}

#[test]
fn intensity_index_rejects_other_tokens() {
    assert_eq!(
        IntensityIndex::decode("Very Low"),
        Err(DecodeError::UnknownVariant { token: "Very Low".to_string() })
    );
    assert!(IntensityIndex::decode("verylow").is_err());
    assert!(IntensityIndex::decode("HIGH").is_err());
    assert!(IntensityIndex::decode("").is_err());
}

#[test]
fn power_type_decodes_all_nine_wire_forms() {
    assert_eq!(PowerType::decode("gas"), Ok(PowerType::Gas));
    assert_eq!(PowerType::decode("coal"), Ok(PowerType::Coal));
    assert_eq!(PowerType::decode("biomass"), Ok(PowerType::Biomass));
    assert_eq!(PowerType::decode("nuclear"), Ok(PowerType::Nuclear));
    assert_eq!(PowerType::decode("hydro"), Ok(PowerType::Hydro));
    assert_eq!(PowerType::decode("imports"), Ok(PowerType::Imports));
    assert_eq!(PowerType::decode("other"), Ok(PowerType::Other));
    assert_eq!(PowerType::decode("wind"), Ok(PowerType::Wind));
    assert_eq!(PowerType::decode("solar"), Ok(PowerType::Solar));
}

#[test]
fn power_type_is_case_sensitive_and_rejects_unknown() {
    assert_eq!(
        PowerType::decode("geothermal"),
        Err(DecodeError::UnknownVariant { token: "geothermal".to_string() })
    );
    assert!(PowerType::decode("Gas").is_err());
    assert!(PowerType::decode("WIND").is_err());
    assert!(PowerType::decode("").is_err());
}
