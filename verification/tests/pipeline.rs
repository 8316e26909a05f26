use carbonex::adapt::{adapt, forecast_metric, index_metric};
use carbonex::decode::decode_payload;
use carbonex::errors::{DecodeError, FetchError};
use carbonex::fetch::{check_status, fetch_outcome, region_url};
use carbonex::poller::{
    apply_action, poller_step, PollerAction, PollerEvent, PollerState, RegionGauges,
    POLL_INTERVAL_SECS,
};
use carbonex::timestamp::Timestamp;
use carbonex::types::{IntensityIndex, PowerType, Region};

const SAMPLE: &str = r#"{"data":[{"regionid":1,"dnoregion":"X","shortname":"Y","postcode":"RG1","data":[{"from":"2024-01-01T00:00Z","to":"2024-01-01T00:30Z","intensity":{"forecast":120.5,"index":"high"},"generationmix":[{"fuel":"wind","perc":40.0}]}]}]}"#;

#[test]
fn end_to_end_sample_decodes_and_adapts() {
    let region = fetch_outcome(200, SAMPLE).unwrap();
    assert_eq!(region.region_id, 1);
    assert_eq!(region.dnoregion, "X");
    assert_eq!(region.shortname, "Y");
    assert_eq!(region.postcode, "RG1");
    assert_eq!(region.region_data.len(), 1);
    let obs = &region.region_data[0];
    assert_eq!(
        obs.from,
        Timestamp { year: 2024, month: 1, day: 1, hour: 0, minute: 0 }
    );
    assert_eq!(
        obs.to,
        Timestamp { year: 2024, month: 1, day: 1, hour: 0, minute: 30 }
    );
    assert_eq!(obs.intensity.forecast, "120.5");
    assert_eq!(obs.intensity.forecast.parse::<f64>().unwrap(), 120.5);
    assert!(matches!(obs.intensity.index, IntensityIndex::High));
    assert_eq!(obs.generation_mix.len(), 1);
    assert!(matches!(obs.generation_mix[0].fuel, PowerType::Wind));
    assert_eq!(obs.generation_mix[0].percent.parse::<f64>().unwrap(), 40.0);

    let update = adapt(&region).unwrap();
    assert_eq!(update.postcode, "RG1");
    assert_eq!(update.forecast.parse::<f64>().unwrap(), 120.5);
    assert_eq!(update.index_ordinal, 3);
    assert_eq!(forecast_metric(), "carbon_regional_intensity_forecast_gco2e");
    assert_eq!(index_metric(), "carbon_regional_intensity_index");
}

#[test]
fn decode_tolerates_unknown_fields() {
    let body = r#"{"extra":null,"data":[{"regionid":7,"unknown":[1,2,{"x":true}],"dnoregion":"D","shortname":"S","postcode":"CB25","data":[]}],"more":"later"}"#;
    let envelope = decode_payload(body).unwrap();
    assert_eq!(envelope.data.len(), 1);
    assert_eq!(envelope.data[0].region_id, 7);
    assert_eq!(envelope.data[0].postcode, "CB25");
}

#[test]
fn http_status_boundaries() {
    assert!(check_status(200).is_ok());
    assert!(check_status(299).is_ok());
    assert_eq!(check_status(199), Err(FetchError::HttpStatus(199)));
    assert_eq!(check_status(300), Err(FetchError::HttpStatus(300)));
    assert_eq!(check_status(404), Err(FetchError::HttpStatus(404)));
}

#[test]
fn non_2xx_fails_before_decoding() {
    // The body is the valid sample; the status alone decides.
    assert_eq!(
        fetch_outcome(503, SAMPLE),
        Err(FetchError::HttpStatus(503))
    );
    // Even a body that would not decode reports only the status.
    assert_eq!(
        fetch_outcome(503, "not json at all"),
        Err(FetchError::HttpStatus(503))
    );
}

#[test]
fn empty_envelope_is_no_region_data() {
    assert_eq!(
        fetch_outcome(200, r#"{"data":[]}"#),
        Err(FetchError::NoRegionData)
    );
}

#[test]
fn empty_region_data_is_no_region_data_in_adapt() {
    let region = Region {
        region_id: 5,
        dnoregion: "D".to_string(),
        shortname: "S".to_string(),
        postcode: "AB1".to_string(),
        region_data: Vec::new(),
    };
    assert_eq!(adapt(&region), Err(FetchError::NoRegionData));
}

#[test]
fn decode_error_identifies_unknown_enum_token() {
    let body = r#"{"data":[{"regionid":1,"dnoregion":"X","shortname":"Y","postcode":"RG1","data":[{"from":"2024-01-01T00:00Z","to":"2024-01-01T00:30Z","intensity":{"forecast":1,"index":"high"},"generationmix":[{"fuel":"geothermal","perc":40.0}]}]}]}"#;
    match fetch_outcome(200, body) {
        Err(FetchError::Decode(DecodeError::UnknownVariant { token })) => {
            assert_eq!(token, "geothermal");
        },
        other => panic!("expected an unknown-variant decode error, got {:?}", other),
    }
}

#[test]
fn unknown_index_token_fails_identifiably() {
    let body = r#"{"data":[{"regionid":1,"dnoregion":"X","shortname":"Y","postcode":"RG1","data":[{"from":"2024-01-01T00:00Z","to":"2024-01-01T00:30Z","intensity":{"forecast":1,"index":"extreme"},"generationmix":[]}]}]}"#;
    match fetch_outcome(200, body) {
        Err(FetchError::Decode(DecodeError::UnknownVariant { token })) => {
            assert_eq!(token, "extreme");
        },
        other => panic!("expected an unknown-variant decode error, got {:?}", other),
    }
}

#[test]
fn capitalized_fuel_token_fails_decode() {
    let body = r#"{"data":[{"regionid":1,"dnoregion":"X","shortname":"Y","postcode":"RG1","data":[{"from":"2024-01-01T00:00Z","to":"2024-01-01T00:30Z","intensity":{"forecast":1,"index":"low"},"generationmix":[{"fuel":"Gas","perc":40.0}]}]}]}"#;
    match fetch_outcome(200, body) {
        Err(FetchError::Decode(DecodeError::UnknownVariant { token })) => {
            assert_eq!(token, "Gas");
        },
        other => panic!("expected an unknown-variant decode error, got {:?}", other),
    }
}

#[test]
fn unknown_fields_do_not_change_the_snapshot() {
    let with_extras = r#"{"note":7,"data":[{"regionid":1,"future":true,"dnoregion":"X","shortname":"Y","postcode":"RG1","data":[{"from":"2024-01-01T00:00Z","to":"2024-01-01T00:30Z","intensity":{"forecast":120.5,"index":"high","next":null},"generationmix":[{"fuel":"wind","perc":40.0,"source":"model"}]}]}]}"#;
    assert_eq!(
        decode_payload(SAMPLE).unwrap(),
        decode_payload(with_extras).unwrap()
    );
}

#[test]
fn decode_error_taxonomy() {
    assert!(matches!(
        decode_payload("not json"),
        Err(DecodeError::Syntax { .. })
    ));
    assert!(matches!(
        decode_payload(r#"{"data":[{"regionid":1}]}"#),
        Err(DecodeError::MissingField { .. })
    ));
    assert!(matches!(
        decode_payload(r#"{"data":"x"}"#),
        Err(DecodeError::WrongType { .. })
    ));
    assert!(matches!(
        decode_payload(
            r#"{"data":[{"regionid":1.5,"dnoregion":"X","shortname":"Y","postcode":"P","data":[]}]}"#
        ),
        Err(DecodeError::InvalidNumber { .. })
    ));
    let with_seconds = r#"{"data":[{"regionid":1,"dnoregion":"X","shortname":"Y","postcode":"P","data":[{"from":"2024-01-01T00:00:00Z","to":"2024-01-01T00:30Z","intensity":{"forecast":1,"index":"low"},"generationmix":[]}]}]}"#;
    assert_eq!(
        decode_payload(with_seconds),
        Err(DecodeError::InvalidTimestamp)
    );
}

#[test]
fn poller_cycle_transitions() {
    let (s, a) = poller_step(PollerState::Idle, PollerEvent::Started);
    assert_eq!(s, PollerState::Fetching);
    assert!(matches!(a, Some(PollerAction::StartFetch)));

    let region = fetch_outcome(200, SAMPLE).unwrap();
    let (s, a) = poller_step(PollerState::Fetching, PollerEvent::FetchDone(Ok(region)));
    assert_eq!(s, PollerState::Publishing);
    match a {
        Some(PollerAction::Publish(u)) => {
            assert_eq!(u.postcode, "RG1");
            assert_eq!(u.index_ordinal, 3);
        },
        other => panic!("expected a publish action, got {:?}", other.is_some()),
    }

    let (s, a) = poller_step(PollerState::Publishing, PollerEvent::Published);
    assert_eq!(s, PollerState::Sleeping);
    assert!(matches!(a, Some(PollerAction::StartSleep(POLL_INTERVAL_SECS))));

    let (s, a) = poller_step(PollerState::Sleeping, PollerEvent::SleepElapsed);
    assert_eq!(s, PollerState::Fetching);
    assert!(matches!(a, Some(PollerAction::StartFetch)));
}

#[test]
fn envelope_first_takes_the_first_region() {
    let envelope = decode_payload(SAMPLE).unwrap();
    let first = envelope.first().unwrap();
    assert_eq!(first.postcode, "RG1");
    let empty: carbonex::types::Data<Region> = carbonex::types::Data { data: Vec::new() };
    assert!(empty.first().is_none());
}

#[test]
fn region_id_out_of_u64_range_is_invalid_number() {
    let body = r#"{"data":[{"regionid":99999999999999999999999999,"dnoregion":"X","shortname":"Y","postcode":"P","data":[]}]}"#;
    assert!(matches!(
        decode_payload(body),
        Err(DecodeError::InvalidNumber { .. })
    ));
}

#[test]
fn region_url_embeds_postcode_in_fixed_template() {
    assert_eq!(
        region_url("RG1"),
        "https://api.carbonintensity.org.uk/regional/postcode/RG1"
    );
    assert_eq!(
        region_url("CB25"),
        "https://api.carbonintensity.org.uk/regional/postcode/CB25"
    );
}

#[test]
fn poll_interval_is_ten_minutes() {
    assert_eq!(POLL_INTERVAL_SECS, 600);
}

#[test]
fn failed_second_cycle_retains_gauges() {
    let mut gauges = RegionGauges { forecast: None, index_ordinal: None };

    // First cycle succeeds and publishes.
    let region = fetch_outcome(200, SAMPLE).unwrap();
    let (state, action) = poller_step(PollerState::Fetching, PollerEvent::FetchDone(Ok(region)));
    assert_eq!(state, PollerState::Publishing);
    apply_action(&mut gauges, &action);
    assert_eq!(gauges.forecast.as_deref(), Some("120.5"));
    assert_eq!(gauges.index_ordinal, Some(3));

    // Second cycle fails transport: the loop goes to sleep and the gauges
    // keep the first cycle's values.
    let failure = PollerEvent::FetchDone(Err(FetchError::Transport {
        message: "connection reset".to_string(),
    }));
    let (state, action) = poller_step(PollerState::Fetching, failure);
    assert_eq!(state, PollerState::Sleeping);
    assert!(matches!(action, Some(PollerAction::StartSleep(_))));
    apply_action(&mut gauges, &action);
    assert_eq!(gauges.forecast.as_deref(), Some("120.5"));
    assert_eq!(gauges.index_ordinal, Some(3));
}

#[test]
fn undefined_state_event_pairs_do_nothing() {
    let (s, a) = poller_step(PollerState::Sleeping, PollerEvent::Published);
    assert_eq!(s, PollerState::Sleeping);
    assert!(a.is_none());
    let (s, a) = poller_step(PollerState::Idle, PollerEvent::SleepElapsed);
    assert_eq!(s, PollerState::Idle);
    assert!(a.is_none());
}
