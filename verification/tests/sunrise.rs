use morning_lights::instant::Instant;
use morning_lights::sunrise::{
    parse_sunrise, resolve_sunrise, sunrise_from_parsed, sunrise_url, SunriseError,
};

#[test]
fn relaxed_rfc3339_forms_give_the_same_instant() {
    let expected = Instant::new(1_355_314_332, 0);
    for text in [
        "2012-12-12T12:12:12Z",
        "2012-12-12 12:12:12Z",
        "2012-12-12 12:12:12+0000",
        "2012-12-12 12:12:12+00:00",
    ] {
        assert_eq!(parse_sunrise(text).unwrap(), expected);
    }
}

#[test]
fn offset_is_taken_to_utc() {
    assert_eq!(
        parse_sunrise("2024-06-01T07:30:00+02:00").unwrap(),
        Instant::new(1_717_219_800, 0)
    );
}

#[test]
fn fraction_becomes_nanoseconds() {
    assert_eq!(
        parse_sunrise("2024-06-01T05:30:00.5Z").unwrap(),
        Instant::new(1_717_219_800, 500_000_000)
    );
}

#[test]
fn leap_second_is_a_full_second_of_nanoseconds() {
    assert_eq!(
        parse_sunrise("2016-12-31T23:59:60Z").unwrap(),
        Instant::new(1_483_228_799, 1_000_000_000)
    );
}

#[test]
fn malformed_timestamp_is_a_parse_error() {
    for text in ["", "not a time", "5:30:00 AM", "2024-06-01", "2024-13-01T05:30:00Z"] {
        assert!(matches!(parse_sunrise(text), Err(SunriseError::Parse(_))));
        assert!(matches!(resolve_sunrise(Some(text)), Err(SunriseError::Parse(_))));
    }
}

#[test]
fn failed_request_is_a_request_error() {
    assert!(matches!(resolve_sunrise(None), Err(SunriseError::Request)));
}

#[test]
fn resolved_sunrise_is_the_parsed_field() {
    assert_eq!(
        resolve_sunrise(Some("2024-06-01T05:30:00+00:00")).unwrap(),
        Instant::new(1_717_219_800, 0)
    );
}

#[test]
fn parser_verdict_is_carried_over() {
    let at = Instant::new(42, 7);
    assert_eq!(sunrise_from_parsed(Ok(at)).unwrap(), at);
    let rejection = "x".parse::<chrono::DateTime<chrono::Utc>>().unwrap_err();
    match sunrise_from_parsed(Err(rejection)) {
        Err(SunriseError::Parse(e)) => assert_eq!(e, rejection),
        other => panic!("unexpected: {:?}", other),
    }
}

#[test]
fn url_embeds_coordinates_and_asks_for_iso_timestamps() {
    assert_eq!(
        sunrise_url("36.72016", "-4.42034"),
        "https://api.sunrise-sunset.org/json?lat=36.72016&lng=-4.42034&formatted=0"
    );
    assert_eq!(
        sunrise_url("", ""),
        "https://api.sunrise-sunset.org/json?lat=&lng=&formatted=0"
    );
}
