use carbon_intensity::carbon_date_format::Timestamp;
use carbon_intensity::intensity::{Intensity, IntensitySnapshot};
use carbon_intensity::regional::{decode_regional, DataItem, DecodeError, ForecastWindow, RegionalResult};

fn data_payload() -> &'static str {
    r#"
{
    "data": [
        {
            "regionid": 13,
            "dnoregion": "UKPN London",
            "shortname": "London",
            "data": [
                {
                    "from": "2021-12-13T16:30Z",
                    "to": "2021-12-13T17:00Z",
                    "intensity": {
                        "forecast": 435,
                        "index": "very high"
                    },
                    "generationmix": [
                        {
                            "fuel": "biomass",
                            "perc": 0
                        },
                        {
                            "fuel": "coal",
                            "perc": 0.1
                        },
                        {
                            "fuel": "imports",
                            "perc": 84.1
                        },
                        {
                            "fuel": "gas",
                            "perc": 8.9
                        },
                        {
                            "fuel": "nuclear",
                            "perc": 2.4
                        },
                        {
                            "fuel": "other",
                            "perc": 0
                        },
                        {
                            "fuel": "hydro",
                            "perc": 0.2
                        },
                        {
                            "fuel": "solar",
                            "perc": 0
                        },
                        {
                            "fuel": "wind",
                            "perc": 4.3
                        }
                    ]
                }
            ]
        }
    ]
}
        "#
}

fn error_payload() -> &'static str {
    r#"
{
    "error": {
        "code": "400 Bad Request",
        "message": "Please enter a valid region ID i.e. 1-17."
    }
}
        "#
}

#[test]
fn test_timestamp() {
    let res = decode_regional(data_payload()).unwrap();
    let expected_item = DataItem {
        display_name: "London".to_string(),
        windows: vec![ForecastWindow {
            from: Timestamp { year: 2021, month: 12, day: 13, hour: 16, minute: 30 },
            to: Timestamp { year: 2021, month: 12, day: 13, hour: 17, minute: 0 },
            snapshot: IntensitySnapshot { level: Intensity::VeryHigh, forecast_value: 435 },
        }],
    };
    assert_eq!(res, RegionalResult::Data(vec![expected_item]));
}

#[test]
fn test_error() {
    let res = decode_regional(error_payload()).unwrap();
    match res {
        RegionalResult::Error(e) => {
            assert_eq!(e.code, "400 Bad Request");
            assert_eq!(e.message, "Please enter a valid region ID i.e. 1-17.");
        }
        RegionalResult::Data(_) => panic!("expected the error shape"),
    }
}

#[test]
fn data_payload_first_snapshot_reads_first_window() {
    let res = decode_regional(data_payload()).unwrap();
    assert_eq!(
        res.first_snapshot(),
        Some(IntensitySnapshot { level: Intensity::VeryHigh, forecast_value: 435 })
    );
}

#[test]
fn error_payload_keeps_code_and_message_verbatim() {
    let body = r#"{"error":{"code":"E-42","message":"weird  spacing kept   as-is."}}"#;
    match decode_regional(body).unwrap() {
        RegionalResult::Error(e) => {
            assert_eq!(e.code, "E-42");
            assert_eq!(e.message, "weird  spacing kept   as-is.");
        }
        RegionalResult::Data(_) => panic!("expected the error shape"),
    }
}

#[test]
fn unknown_intensity_label_fails_decode() {
    for label in ["Low", "LOW", "Very High", "very  high", "medium", "", "lo"] {
        let body = format!(
            r#"{{"data":[{{"shortname":"x","data":[{{"from":"2021-12-13T16:30Z","to":"2021-12-13T17:00Z","intensity":{{"forecast":1,"index":"{}"}}}}]}}]}}"#,
            label
        );
        assert_eq!(
            decode_regional(&body),
            Err(DecodeError::UnknownLabel),
            "label {:?} must be refused",
            label
        );
    }
}

#[test]
fn known_intensity_labels_decode() {
    for (label, level) in [
        ("low", Intensity::Low),
        ("moderate", Intensity::Moderate),
        ("high", Intensity::High),
        ("very high", Intensity::VeryHigh),
    ] {
        let body = format!(
            r#"{{"data":[{{"shortname":"x","data":[{{"from":"2021-12-13T16:30Z","to":"2021-12-13T17:00Z","intensity":{{"forecast":7,"index":"{}"}}}}]}}]}}"#,
            label
        );
        let res = decode_regional(&body).unwrap();
        assert_eq!(
            res.first_snapshot(),
            Some(IntensitySnapshot { level, forecast_value: 7 })
        );
    }
}

#[test]
fn from_label_matches_decode() {
    assert_eq!(Intensity::from_label("low"), Some(Intensity::Low));
    assert_eq!(Intensity::from_label("moderate"), Some(Intensity::Moderate));
    assert_eq!(Intensity::from_label("high"), Some(Intensity::High));
    assert_eq!(Intensity::from_label("very high"), Some(Intensity::VeryHigh));
    assert_eq!(Intensity::from_label("very high "), None);
    assert_eq!(Intensity::from_label("High"), None);
    assert_eq!(Intensity::from_label(""), None);
}

#[test]
fn malformed_body_is_a_syntax_error() {
    for body in ["", "{", "[1,", "{\"data\":}", "nul", "{\"a\" 1}", "tru e"] {
        assert_eq!(decode_regional(body), Err(DecodeError::Syntax), "body {:?}", body);
    }
}

#[test]
fn short_escapes_are_decoded() {
    let body = r#"{"error":{"code":"a\"b\\c","message":"line\none\ttwo\r\/\b\f"}}"#;
    match decode_regional(body).unwrap() {
        RegionalResult::Error(e) => {
            assert_eq!(e.code, "a\"b\\c");
            assert_eq!(e.message, "line\none\ttwo\r/\u{8}\u{c}");
        }
        RegionalResult::Data(_) => panic!("expected the error shape"),
    }
}

#[test]
fn hexadecimal_escapes_are_refused() {
    let body = r#"{"error":{"code":"a\u0041b","message":"m"}}"#;
    assert_eq!(decode_regional(body), Err(DecodeError::Syntax));
    let unterminated = r#"{"error":{"code":"a"#;
    assert_eq!(decode_regional(unterminated), Err(DecodeError::Syntax));
}

#[test]
fn wrong_shapes_are_refused() {
    // no known top-level discriminant
    assert_eq!(
        decode_regional(r#"{"payload":[]}"#),
        Err(DecodeError::Shape)
    );
    // two top-level keys: the union is selected by a single key
    assert_eq!(
        decode_regional(r#"{"data":[],"error":{"code":"c","message":"m"}}"#),
        Err(DecodeError::Shape)
    );
    // data not a list
    assert_eq!(decode_regional(r#"{"data":7}"#), Err(DecodeError::Shape));
    // item without shortname
    assert_eq!(
        decode_regional(r#"{"data":[{"data":[]}]}"#),
        Err(DecodeError::Shape)
    );
    // error without message
    assert_eq!(
        decode_regional(r#"{"error":{"code":"c"}}"#),
        Err(DecodeError::Shape)
    );
    // a bare list is not the union
    assert_eq!(decode_regional(r#"[1,2]"#), Err(DecodeError::Shape));
}

#[test]
fn bad_timestamps_are_refused() {
    for ts in [
        "2021-12-13T16:30",   // missing Z
        "2021-12-13 16:30Z",  // wrong separator
        "2021-13-13T16:30Z",  // month 13
        "2021-02-29T00:00Z",  // not a leap year
        "2021-12-00T16:30Z",  // day zero
        "2021-12-13T24:00Z",  // hour 24
        "2021-12-13T16:60Z",  // minute 60
        "21-12-13T16:30Z",    // short year
    ] {
        let body = format!(
            r#"{{"data":[{{"shortname":"x","data":[{{"from":"{}","to":"2021-12-13T17:00Z","intensity":{{"forecast":1,"index":"low"}}}}]}}]}}"#,
            ts
        );
        assert_eq!(
            decode_regional(&body),
            Err(DecodeError::BadTimestamp),
            "timestamp {:?} must be refused",
            ts
        );
    }
}

#[test]
fn leap_day_is_accepted_in_a_leap_year() {
    let body = r#"{"data":[{"shortname":"x","data":[{"from":"2020-02-29T00:00Z","to":"2020-02-29T00:30Z","intensity":{"forecast":1,"index":"low"}}]}]}"#;
    let res = decode_regional(body).unwrap();
    match &res {
        RegionalResult::Data(items) => {
            assert_eq!(
                items[0].windows[0].from,
                Timestamp { year: 2020, month: 2, day: 29, hour: 0, minute: 0 }
            );
        }
        RegionalResult::Error(_) => panic!("expected data"),
    }
}

#[test]
fn forecast_out_of_range_is_refused() {
    let body = r#"{"data":[{"shortname":"x","data":[{"from":"2021-12-13T16:30Z","to":"2021-12-13T17:00Z","intensity":{"forecast":4294967296,"index":"low"}}]}]}"#;
    assert_eq!(decode_regional(body), Err(DecodeError::ValueRange));
    let ok = r#"{"data":[{"shortname":"x","data":[{"from":"2021-12-13T16:30Z","to":"2021-12-13T17:00Z","intensity":{"forecast":4294967295,"index":"low"}}]}]}"#;
    let res = decode_regional(ok).unwrap();
    assert_eq!(
        res.first_snapshot(),
        Some(IntensitySnapshot { level: Intensity::Low, forecast_value: 4294967295 })
    );
}

#[test]
fn fractional_forecast_is_not_an_integer() {
    let body = r#"{"data":[{"shortname":"x","data":[{"from":"2021-12-13T16:30Z","to":"2021-12-13T17:00Z","intensity":{"forecast":4.5,"index":"low"}}]}]}"#;
    assert_eq!(decode_regional(body), Err(DecodeError::Shape));
}

#[test]
fn unknown_fields_are_skipped() {
    let body = r#"{"data":[{"shortname":"x","extra":{"deep":[null,true,false,-1.5e-3,{"k":"v"}]},"data":[{"from":"2021-12-13T16:30Z","to":"2021-12-13T17:00Z","note":"kept out","intensity":{"forecast":9,"index":"moderate","spare":[[]]}}]}]}"#;
    let res = decode_regional(body).unwrap();
    assert_eq!(
        res.first_snapshot(),
        Some(IntensitySnapshot { level: Intensity::Moderate, forecast_value: 9 })
    );
}

#[test]
fn first_member_wins_on_duplicate_keys() {
    let body = r#"{"data":[{"shortname":"x","data":[{"from":"2021-12-13T16:30Z","to":"2021-12-13T17:00Z","intensity":{"forecast":1,"forecast":2,"index":"low"}}]}]}"#;
    let res = decode_regional(body).unwrap();
    assert_eq!(
        res.first_snapshot(),
        Some(IntensitySnapshot { level: Intensity::Low, forecast_value: 1 })
    );
}

#[test]
fn empty_lists_have_no_current_value() {
    let empty_data = decode_regional(r#"{"data":[]}"#).unwrap();
    assert_eq!(empty_data.first_snapshot(), None);
    let empty_windows =
        decode_regional(r#"{"data":[{"shortname":"x","data":[]}]}"#).unwrap();
    assert_eq!(empty_windows.first_snapshot(), None);
}

#[test]
fn intensity_levels_are_ordered_and_numbered() {
    assert!(Intensity::Low < Intensity::Moderate);
    assert!(Intensity::Moderate < Intensity::High);
    assert!(Intensity::High < Intensity::VeryHigh);
    assert_eq!(Intensity::Low.ordinal(), 0);
    assert_eq!(Intensity::Moderate.ordinal(), 1);
    assert_eq!(Intensity::High.ordinal(), 2);
    assert_eq!(Intensity::VeryHigh.ordinal(), 3);
    assert_eq!(Intensity::VeryHigh.name(), "VeryHigh");
}
