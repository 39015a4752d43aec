use gtime::{
    parse_integer, resolve_local, LocalOutcome, MAX_TIMESTAMP, MIN_TIMESTAMP, format_offset, format_timezone_output, get_timezones, needs_config, parse_time, render_lines,
    render_zone, select_time_format, split_timezone_list, Args, Config, LocalTime, OutputLine,
    ParseError, RenderError, ResolveError, TimeFormat,
};

fn strings(v: &[&str]) -> Vec<String> {
    v.iter().map(|s| s.to_string()).collect()
}

fn local(year: i32, hour: u32, offset_seconds: i32, abbreviation: &str) -> LocalTime {
    LocalTime {
        year,
        month: 1,
        day: 1,
        hour,
        minute: 0,
        second: 0,
        offset_seconds,
        abbreviation: abbreviation.to_string(),
    }
}

#[test]
fn timestamp_parses_to_epoch_seconds() {
    let (echo, t, f) = parse_time("1704110400").unwrap();
    assert_eq!(echo, "1704110400");
    assert_eq!(t, 1704110400);
    assert_eq!(f, TimeFormat::Timestamp);
}

#[test]
fn negative_and_zero_timestamps() {
    assert_eq!(parse_time("0").unwrap(), ("0".to_string(), 0, TimeFormat::Timestamp));
    assert_eq!(parse_time("-1").unwrap(), ("-1".to_string(), -1, TimeFormat::Timestamp));
    assert_eq!(parse_time("+60").unwrap(), ("+60".to_string(), 60, TimeFormat::Timestamp));
}

#[test]
fn timestamp_out_of_range() {
    assert_eq!(parse_time("9223372036854775807"), Err(ParseError::TimestampRange));
    assert_eq!(ParseError::TimestampRange.message(), "Invalid timestamp");
}

#[test]
fn now_in_any_case() {
    for s in ["now", "NOW", "Now", "nOw"] {
        let (echo, _, f) = parse_time(s).unwrap();
        assert_eq!(echo, "now");
        assert_eq!(f, TimeFormat::Now);
    }
}

#[test]
fn rfc3339_with_zulu() {
    assert_eq!(
        parse_time("2024-01-01T12:00:00Z").unwrap(),
        ("2024-01-01T12:00:00Z".to_string(), 1704110400, TimeFormat::RFC3339)
    );
}

#[test]
fn numeric_offset_reads_as_iso8601() {
    let (echo, t, f) = parse_time("2024-01-01T12:00:00+02:00").unwrap();
    assert_eq!(echo, "2024-01-01T12:00:00+02:00");
    assert_eq!(t, 1704103200);
    assert_eq!(f, TimeFormat::ISO8601);
}

#[test]
fn rfc3339_only_forms_keep_their_tag() {
    assert_eq!(
        parse_time("2024-01-01t12:00:00z").unwrap(),
        ("2024-01-01t12:00:00z".to_string(), 1704110400, TimeFormat::RFC3339)
    );
    assert_eq!(
        parse_time("2024-01-01T12:00:00.5+02:00").unwrap(),
        ("2024-01-01T12:00:00.5+02:00".to_string(), 1704103200, TimeFormat::RFC3339)
    );
}

#[test]
fn timestamp_range_bounds() {
    let max = MAX_TIMESTAMP.to_string();
    let min = MIN_TIMESTAMP.to_string();
    assert_eq!(parse_time(&max).unwrap(), (max.clone(), MAX_TIMESTAMP, TimeFormat::Timestamp));
    assert_eq!(parse_time(&min).unwrap(), (min.clone(), MIN_TIMESTAMP, TimeFormat::Timestamp));
    assert_eq!(parse_time(&(MAX_TIMESTAMP + 1).to_string()), Err(ParseError::TimestampRange));
    assert_eq!(parse_time(&(MIN_TIMESTAMP - 1).to_string()), Err(ParseError::TimestampRange));
}

#[test]
fn daylight_saving_policy() {
    assert_eq!(resolve_local(&LocalOutcome::Single(10)), Some(10));
    assert_eq!(resolve_local(&LocalOutcome::Ambiguous(20, 16)), Some(16));
    assert_eq!(resolve_local(&LocalOutcome::Ambiguous(16, 20)), Some(16));
    assert_eq!(resolve_local(&LocalOutcome::Gap), None);
}

#[test]
fn iso8601_with_signed_year() {
    assert_eq!(
        parse_time("+2024-01-01T12:00:00+02:00").unwrap(),
        ("+2024-01-01T12:00:00+02:00".to_string(), 1704103200, TimeFormat::ISO8601)
    );
}

#[test]
fn human_readable_is_utc() {
    assert_eq!(
        parse_time("2024-01-01 12:00:00").unwrap(),
        ("2024-01-01 12:00:00".to_string(), 1704110400, TimeFormat::HumanReadable)
    );
}

#[test]
fn time_only_forms() {
    for s in ["15:00", "15:30:45"] {
        match parse_time(s) {
            Ok((echo, _, f)) => {
                assert_eq!(echo, s);
                assert_eq!(f, TimeFormat::TimeOnly);
            }
            Err(e) => assert_eq!(e, ParseError::NonexistentLocalTime),
        }
    }
}

#[test]
fn unrecognised_text_fails() {
    assert_eq!(parse_time("not a time"), Err(ParseError::TimeFormat));
    assert_eq!(parse_time(""), Err(ParseError::TimeFormat));
    assert!(ParseError::TimeFormat.message().contains("RFC3339 (e.g., '2024-01-01T12:00:00Z')"));
}

#[test]
fn cascade_takes_first_match() {
    let r = select_time_format("xZ", false, 0, Some(5), Some(6), Some(7), true, None, false, None);
    assert_eq!(r, Ok(("xZ".to_string(), 5, TimeFormat::RFC3339)));
    let r = select_time_format("x", false, 0, Some(5), Some(6), Some(7), true, None, false, None);
    assert_eq!(r, Ok(("x".to_string(), 6, TimeFormat::ISO8601)));
    let r = select_time_format("x", false, 0, Some(5), None, Some(7), true, None, false, None);
    assert_eq!(r, Ok(("x".to_string(), 5, TimeFormat::RFC3339)));
    let r = select_time_format("x", true, 9, Some(5), None, None, false, None, false, None);
    assert_eq!(r, Ok(("now".to_string(), 9, TimeFormat::Now)));
    let r = select_time_format("x", false, 0, None, None, Some(7), false, Some(3), false, None);
    assert_eq!(r, Err(ParseError::TimestampRange));
    let r = select_time_format("x", false, 0, None, None, None, false, None, true, None);
    assert_eq!(r, Err(ParseError::NonexistentLocalTime));
    let r = select_time_format("x", false, 0, None, None, None, false, None, true, Some(4));
    assert_eq!(r, Ok(("x".to_string(), 4, TimeFormat::TimeOnly)));
    let r = select_time_format("x", false, 0, None, None, None, false, None, false, None);
    assert_eq!(r, Err(ParseError::TimeFormat));
}

#[test]
fn offsets_truncate_hours_and_keep_sign() {
    assert_eq!(format_offset(0), "+00:00");
    assert_eq!(format_offset(-16200), "-04:30");
    assert_eq!(format_offset(20700), "+05:45");
    assert_eq!(format_offset(-1800), "-00:30");
    assert_eq!(format_offset(3600 * 14), "+14:00");
}

#[test]
fn utc_rendering_round_trip() {
    let line = render_zone("UTC", 1704110400, TimeFormat::RFC3339).unwrap();
    assert_eq!(line, "2024-01-01T12:00:00 UTC (+00:00)");
}

#[test]
fn named_abbreviation_gets_offset() {
    let line = render_zone("America/New_York", 1704110400, TimeFormat::HumanReadable).unwrap();
    assert_eq!(line, "2024-01-01 07:00:00 EST (-05:00)");
    let stub = local(2024, 21, 9 * 3600, "JST");
    assert_eq!(
        format_timezone_output("Asia/Tokyo", &stub, TimeFormat::ISO8601),
        "2024-01-01T21:00:00 JST (+09:00)"
    );
}

#[test]
fn numeric_abbreviation_appears_once() {
    let stub = local(2024, 21, 9 * 3600, "+09");
    let line = format_timezone_output("Etc/Stub", &stub, TimeFormat::Timestamp);
    assert_eq!(line, "2024-01-01 21:00:00 +09");
    assert_eq!(line.matches("+09").count(), 1);
}

#[test]
fn empty_abbreviation_shows_offset() {
    let stub = local(2024, 5, 5 * 3600 + 45 * 60, "");
    assert_eq!(
        format_timezone_output("Asia/Kathmandu", &stub, TimeFormat::Now),
        "2024-01-01 05:00:00 (+05:45)"
    );
}

#[test]
fn years_beyond_four_digits_carry_a_sign() {
    assert_eq!(
        format_timezone_output("UTC", &local(10000, 0, 0, "UTC"), TimeFormat::TimeOnly),
        "+10000-01-01 00:00:00 UTC (+00:00)"
    );
    assert_eq!(
        format_timezone_output("UTC", &local(-1, 0, 0, "UTC"), TimeFormat::RFC3339),
        "-0001-01-01T00:00:00 UTC (+00:00)"
    );
    assert_eq!(
        format_timezone_output("UTC", &local(7, 0, 0, "UTC"), TimeFormat::RFC3339),
        "0007-01-01T00:00:00 UTC (+00:00)"
    );
}

#[test]
fn invalid_zone_is_reported() {
    match render_zone("Not/AZone", 0, TimeFormat::Now) {
        Err(e @ RenderError::InvalidTimezone { .. }) => {
            assert!(e.message().starts_with("Invalid timezone 'Not/AZone': "));
        }
        _ => panic!("expected an invalid zone"),
    }
}

#[test]
fn middle_invalid_zone_is_skipped() {
    let zones = strings(&["UTC", "Not/AZone", "Asia/Tokyo"]);
    let lines = render_lines(&zones, 1704110400, TimeFormat::RFC3339);
    assert_eq!(lines.len(), 3);
    match &lines[0] {
        OutputLine::Converted(s) => assert_eq!(s, "UTC: 2024-01-01T12:00:00 UTC (+00:00)"),
        OutputLine::Failed(_) => panic!("UTC should convert"),
    }
    match &lines[1] {
        OutputLine::Failed(s) => assert!(s.starts_with("Error: Invalid timezone 'Not/AZone': ")),
        OutputLine::Converted(_) => panic!("the invalid zone should fail"),
    }
    match &lines[2] {
        OutputLine::Converted(s) => assert_eq!(s, "Asia/Tokyo: 2024-01-01T21:00:00 JST (+09:00)"),
        OutputLine::Failed(_) => panic!("Tokyo should convert"),
    }
}

#[test]
fn flags_override_env_and_config() {
    let args = Args { time: "now".to_string(), timezones: strings(&["Europe/Paris"]) };
    let env = Some("UTC".to_string());
    let config = Config { timezones: strings(&["Asia/Tokyo"]) };
    assert_eq!(get_timezones(&args, &env, &config), Ok(strings(&["Europe/Paris"])));
    assert!(!needs_config(&args, &env));
}

#[test]
fn env_list_is_split_and_trimmed() {
    let args = Args { time: "now".to_string(), timezones: vec![] };
    let env = Some(" UTC , Asia/Tokyo,Europe/Paris ".to_string());
    let config = Config { timezones: strings(&["America/Chicago"]) };
    assert_eq!(
        get_timezones(&args, &env, &config),
        Ok(strings(&["UTC", "Asia/Tokyo", "Europe/Paris"]))
    );
    assert!(!needs_config(&args, &env));
}

#[test]
fn config_is_last_resort() {
    let args = Args { time: "now".to_string(), timezones: vec![] };
    let config = Config { timezones: strings(&["America/Chicago"]) };
    assert!(needs_config(&args, &None));
    assert_eq!(get_timezones(&args, &None, &config), Ok(strings(&["America/Chicago"])));
    let empty = Config { timezones: vec![] };
    assert_eq!(get_timezones(&args, &None, &empty), Err(ResolveError::NoTimezones));
    assert!(ResolveError::NoTimezones.message().contains("GTIME_TIMEZONES"));
}

#[test]
fn split_keeps_empty_entries() {
    assert_eq!(split_timezone_list("a,,b"), strings(&["a", "", "b"]));
    assert_eq!(split_timezone_list(""), strings(&[""]));
    assert_eq!(split_timezone_list("UTC"), strings(&["UTC"]));
}

#[test]
fn instant_outside_range_is_reported() {
    match render_zone("UTC", i64::MAX, TimeFormat::Timestamp) {
        Err(e @ RenderError::OutOfRange { .. }) => {
            assert_eq!(e.message(), "Time out of range in timezone 'UTC'");
        }
        _ => panic!("expected an out-of-range error"),
    }
}

#[test]
fn integer_text_edges() {
    assert_eq!(parse_integer("-9223372036854775808"), Some(i64::MIN));
    assert_eq!(parse_integer("9223372036854775807"), Some(i64::MAX));
    assert_eq!(parse_integer("9223372036854775808"), None);
    assert_eq!(parse_integer("123456789012345678901234567890"), None);
    assert_eq!(parse_integer("+42"), Some(42));
    assert_eq!(parse_integer("-0"), Some(0));
    assert_eq!(parse_integer("+"), None);
    assert_eq!(parse_integer("-"), None);
    assert_eq!(parse_integer(""), None);
    assert_eq!(parse_integer("12a"), None);
    assert_eq!(parse_integer(" 12"), None);
}

#[test]
fn entries_lose_unicode_whitespace() {
    assert_eq!(
        split_timezone_list("\u{3000}UTC\t,\u{a0}Asia/Tokyo\n, Europe/Paris\u{2009}"),
        strings(&["UTC", "Asia/Tokyo", "Europe/Paris"])
    );
    assert_eq!(split_timezone_list(" \t "), strings(&[""]));
}
