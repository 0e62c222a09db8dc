use dx::time::calendar::{MAX_EPOCH_SECONDS, MIN_EPOCH_SECONDS};
use dx::time::classify::{FormatClassifier, PatternKind};
use dx::time::convert::{bullet_list, TimestampConverter};
use dx::time::duration::{DurationBreakdown, DurationDecomposer};
use dx::time::error::TimeError;
use dx::time::instant::Instant;
use dx::time::parsed::ParsedDate;
use dx::time::zone::TimezoneResolver;

const RFC3339_PATTERN: &str = "%Y-%m-%dT%H:%M:%S%z";

#[test]
fn to_unix_reads_a_date_with_an_offset() {
    assert_eq!(
        TimestampConverter::to_unix("02/01/2026 00:00 +0000", "%d/%m/%Y %H:%M %z"),
        Ok("1767312000".to_string())
    );
}

#[test]
fn to_unix_takes_the_offset_off() {
    assert_eq!(
        TimestampConverter::to_unix("02/01/2026 00:00 +0200", "%d/%m/%Y %H:%M %z"),
        Ok("1767304800".to_string())
    );
}

#[test]
fn to_unix_reads_a_date_and_time_as_utc() {
    assert_eq!(
        TimestampConverter::to_unix("2026-01-02 00:00:01", "%Y-%m-%d %H:%M:%S"),
        Ok("1767312001".to_string())
    );
}

#[test]
fn to_unix_reads_a_date_as_midnight_utc() {
    assert_eq!(
        TimestampConverter::to_unix("2026-01-02", "%Y-%m-%d"),
        Ok("1767312000".to_string())
    );
    assert_eq!(
        TimestampConverter::to_unix("1969-12-31", "%Y-%m-%d"),
        Ok("-86400".to_string())
    );
}

#[test]
fn to_unix_reports_what_the_parser_says() {
    assert_eq!(
        TimestampConverter::to_unix("not a date", "%Y-%m-%d"),
        Err(TimeError::DateParseError {
            date: "not a date".to_string(),
            pattern: "%Y-%m-%d".to_string(),
            detail: "input contains invalid characters".to_string(),
        })
    );
    assert_eq!(
        TimestampConverter::to_unix("2026-01", "%Y-%m-%d"),
        Err(TimeError::DateParseError {
            date: "2026-01".to_string(),
            pattern: "%Y-%m-%d".to_string(),
            detail: "premature end of input".to_string(),
        })
    );
}

#[test]
fn to_unix_needs_an_offset_where_the_pattern_names_one() {
    let r = TimestampConverter::to_unix("02/01/2026 00:00", "%d/%m/%Y %H:%M %z");
    assert!(matches!(r, Err(TimeError::DateParseError { .. })));
}

#[test]
fn relative_breaks_the_span_down() {
    assert_eq!(
        TimestampConverter::relative(1764592225, Some(1767139200)),
        Ok("4 Weeks 1 Days 11 Hours 29 Minutes 35 Seconds".to_string())
    );
}

#[test]
fn relative_is_the_same_in_both_directions() {
    assert_eq!(
        TimestampConverter::relative(1767139200, Some(1764592225)),
        Ok("4 Weeks 1 Days 11 Hours 29 Minutes 35 Seconds".to_string())
    );
}

#[test]
fn relative_rejects_a_timestamp_out_of_range() {
    assert_eq!(
        TimestampConverter::relative(i64::MAX, Some(0)),
        Err(TimeError::InvalidTimestamp(i64::MAX))
    );
    assert_eq!(
        TimestampConverter::relative(i64::MIN, None),
        Err(TimeError::InvalidTimestamp(i64::MIN))
    );
}

#[test]
fn relative_falls_back_to_now_for_a_start_out_of_range() {
    let now = Instant::from_epoch_seconds(160).unwrap();
    assert_eq!(
        TimestampConverter::relative_at(100, Some(i64::MAX), &now),
        Ok("1 Minutes 0 Seconds".to_string())
    );
    assert_eq!(
        TimestampConverter::relative_at(100, None, &now),
        Ok("1 Minutes 0 Seconds".to_string())
    );
    assert_eq!(
        TimestampConverter::relative_at(100, Some(101), &now),
        Ok("1 Seconds".to_string())
    );
    assert!(TimestampConverter::relative(100, Some(i64::MIN)).is_ok());
}

#[test]
fn relative_without_start_measures_from_the_clock() {
    let now = Instant::now().epoch_seconds();
    let text = TimestampConverter::relative(now - 7 * 86400 - 3600, None).unwrap();
    assert!(text.starts_with("1 Weeks 1 Hours "), "{text}");
    assert!(text.ends_with(" Seconds"));
}

#[test]
fn format_keeps_the_offset() {
    assert_eq!(
        TimestampConverter::format(
            "02/01/2026 00:00 +0200",
            "%d/%m/%Y %H:%M %z",
            "%d.%m.%Y %H:%M (%z)"
        ),
        Ok("02.01.2026 00:00 (+0200)".to_string())
    );
}

#[test]
fn format_rewrites_a_date_and_time_without_zone() {
    assert_eq!(
        TimestampConverter::format(
            "2026-01-02 10:20:30",
            "%Y-%m-%d %H:%M:%S",
            "%H.%M.%S on %d/%m/%Y"
        ),
        Ok("10.20.30 on 02/01/2026".to_string())
    );
}

#[test]
fn format_rewrites_a_date() {
    assert_eq!(
        TimestampConverter::format("2026-01-02", "%Y-%m-%d", "%d/%m/%Y"),
        Ok("02/01/2026".to_string())
    );
}

#[test]
fn format_fails_on_a_date_that_does_not_follow_the_pattern() {
    assert_eq!(
        TimestampConverter::format("02/01/2026", "%Y-%m-%d", "%d/%m/%Y"),
        Err(TimeError::DateParseError {
            date: "02/01/2026".to_string(),
            pattern: "%Y-%m-%d".to_string(),
            detail: "input contains invalid characters".to_string(),
        })
    );
}

#[test]
fn format_fails_where_the_target_asks_for_what_the_value_lacks() {
    assert_eq!(
        TimestampConverter::format("2026-01-02", "%Y-%m-%d", "%H:%M"),
        Err(TimeError::UnrenderablePattern("%H:%M".to_string()))
    );
    assert_eq!(
        TimestampConverter::format("2026-01-02 10:20:30", "%Y-%m-%d %H:%M:%S", "%H %z"),
        Err(TimeError::UnrenderablePattern("%H %z".to_string()))
    );
}

#[test]
fn from_unix_renders_in_a_zone() {
    assert_eq!(
        TimestampConverter::from_unix(1767352174, Some("Europe/Sofia")),
        Ok("2026-01-02T13:09:34+02:00".to_string())
    );
}

#[test]
fn from_unix_follows_daylight_saving() {
    assert_eq!(
        TimestampConverter::from_unix(1751328000, Some("Europe/Sofia")),
        Ok("2025-07-01T03:00:00+03:00".to_string())
    );
    assert_eq!(
        TimestampConverter::from_unix(1751328000, Some("America/New_York")),
        Ok("2025-06-30T20:00:00-04:00".to_string())
    );
}

#[test]
fn from_unix_renders_in_utc_without_a_zone() {
    assert_eq!(
        TimestampConverter::from_unix(0, None),
        Ok("1970-01-01T00:00:00+00:00".to_string())
    );
    assert_eq!(
        TimestampConverter::from_unix(-1, None),
        Ok("1969-12-31T23:59:59+00:00".to_string())
    );
    assert_eq!(
        TimestampConverter::from_unix(1767352174, None),
        Ok("2026-01-02T11:09:34+00:00".to_string())
    );
}

#[test]
fn from_unix_reaches_exactly_as_far_as_the_calendar() {
    assert_eq!(
        TimestampConverter::from_unix(MAX_EPOCH_SECONDS, None),
        Ok("+262142-12-31T23:59:59+00:00".to_string())
    );
    assert_eq!(
        TimestampConverter::from_unix(MAX_EPOCH_SECONDS + 1, None),
        Err(TimeError::InvalidTimestamp(MAX_EPOCH_SECONDS + 1))
    );
    assert_eq!(
        TimestampConverter::from_unix(MIN_EPOCH_SECONDS, None),
        Ok("-262143-01-01T00:00:00+00:00".to_string())
    );
    assert_eq!(
        TimestampConverter::from_unix(MIN_EPOCH_SECONDS - 1, None),
        Err(TimeError::InvalidTimestamp(MIN_EPOCH_SECONDS - 1))
    );
    assert_eq!(
        TimestampConverter::from_unix(i64::MAX, Some("Europe/Sofia")),
        Err(TimeError::InvalidTimestamp(i64::MAX))
    );
}

#[test]
fn from_unix_checks_the_timestamp_before_the_zone() {
    assert_eq!(
        TimestampConverter::from_unix(i64::MIN, Some("Not/AZone")),
        Err(TimeError::InvalidTimestamp(i64::MIN))
    );
    assert_eq!(
        TimestampConverter::from_unix(0, Some("Not/AZone")),
        Err(TimeError::InvalidTimezone("Not/AZone".to_string()))
    );
}

#[test]
fn from_unix_then_to_unix_gives_the_timestamp_back() {
    let zones = [None, Some("Europe/Sofia"), Some("America/New_York"), Some("Asia/Kolkata"), Some("UTC")];
    let stamps: [i64; 7] = [0, -1, 1, 1767352174, 1751328000, 946684800, 253402300799];
    for zone in zones {
        for stamp in stamps {
            let text = TimestampConverter::from_unix(stamp, zone).unwrap();
            assert_eq!(
                TimestampConverter::to_unix(&text, RFC3339_PATTERN),
                Ok(stamp.to_string()),
                "{text}"
            );
        }
    }
}

#[test]
fn an_offset_with_seconds_is_rendered_to_the_minute() {
    let text = TimestampConverter::from_unix(-2208988800, Some("Asia/Kolkata")).unwrap();
    assert_eq!(text, "1900-01-01T05:21:10+05:21");
    assert_eq!(
        TimestampConverter::to_unix(&text, RFC3339_PATTERN),
        Ok("-2208988790".to_string())
    );
}

#[test]
fn to_unix_counts_a_leap_second_with_the_second_before() {
    assert_eq!(
        TimestampConverter::to_unix("2016-12-31 23:59:60", "%Y-%m-%d %H:%M:%S"),
        Ok("1483228799".to_string())
    );
    assert_eq!(
        TimestampConverter::format("2016-12-31 23:59:60", "%Y-%m-%d %H:%M:%S", "%H:%M:%S"),
        Ok("23:59:60".to_string())
    );
    assert_eq!(
        TimestampConverter::to_unix("2016-12-31 23:59:60 +0100", "%Y-%m-%d %H:%M:%S %z"),
        Ok("1483225199".to_string())
    );
}

#[test]
fn to_unix_reaches_the_ends_of_the_calendar() {
    assert_eq!(
        TimestampConverter::to_unix("+262142-12-31", "%Y-%m-%d"),
        Ok("8210266790400".to_string())
    );
    assert_eq!(
        TimestampConverter::to_unix("+262142-12-31 23:59:59", "%Y-%m-%d %H:%M:%S"),
        Ok(MAX_EPOCH_SECONDS.to_string())
    );
    assert_eq!(
        TimestampConverter::to_unix("-262143-01-01 00:00:00", "%Y-%m-%d %H:%M:%S"),
        Ok(MIN_EPOCH_SECONDS.to_string())
    );
    assert_eq!(
        TimestampConverter::to_unix("-262143-01-01 00:30:00 +0030", "%Y-%m-%d %H:%M:%S %z"),
        Ok(MIN_EPOCH_SECONDS.to_string())
    );
    assert_eq!(
        TimestampConverter::to_unix("+262143-01-01", "%Y-%m-%d"),
        Err(TimeError::DateParseError {
            date: "+262143-01-01".to_string(),
            pattern: "%Y-%m-%d".to_string(),
            detail: "input is out of range".to_string(),
        })
    );
    assert!(TimestampConverter::to_unix(
        "+262142-12-31 23:59:59 -0100",
        "%Y-%m-%d %H:%M:%S %z"
    )
    .is_err());
}

#[test]
fn zones_render_at_the_ends_of_the_calendar() {
    assert!(TimestampConverter::from_unix(MAX_EPOCH_SECONDS, Some("Asia/Tokyo")).is_ok());
    assert!(TimestampConverter::from_unix(MIN_EPOCH_SECONDS, Some("America/New_York")).is_ok());
    let last = Instant::from_epoch_seconds(MAX_EPOCH_SECONDS).unwrap();
    let first = Instant::from_epoch_seconds(MIN_EPOCH_SECONDS).unwrap();
    assert!(TimestampConverter::now_in_zone(&last, "Asia/Tokyo").is_ok());
    assert!(TimestampConverter::now_in_zone(&first, "America/New_York").is_ok());
    assert_eq!(
        TimestampConverter::now_in_zone(&last, "UTC"),
        Ok("31/12/+262142 23:59:59 UTC".to_string())
    );
}

#[test]
fn resolve_fails_on_an_unknown_name() {
    match TimezoneResolver::resolve("Not/AZone") {
        Err(e) => assert_eq!(e, TimeError::InvalidTimezone("Not/AZone".to_string())),
        Ok(_) => panic!("an unknown zone was resolved"),
    }
}

#[test]
fn resolve_is_exact_about_letters() {
    assert!(TimezoneResolver::resolve("Europe/Sofia").is_ok());
    assert!(TimezoneResolver::resolve("europe/sofia").is_err());
    assert!(TimezoneResolver::resolve("").is_err());
    assert!(TimezoneResolver::resolve(" Europe/Sofia").is_err());
}

#[test]
fn resolve_keeps_the_name() {
    let zone = TimezoneResolver::resolve("Asia/Tokyo").unwrap();
    assert_eq!(zone.name(), "Asia/Tokyo");
    assert_eq!(zone.rfc3339(0), "1970-01-01T09:00:00+09:00");
    assert_eq!(zone.text(0, "%H:%M %Z"), Some("09:00 JST".to_string()));
}

#[test]
fn list_all_is_complete_and_stable() {
    let first = TimezoneResolver::list_all();
    let second = TimezoneResolver::list_all();
    assert_eq!(first, second);
    assert_eq!(first.len(), 597);
    assert_eq!(first[0], "Africa/Abidjan");
    assert_eq!(first[1], "Africa/Accra");
    assert!(first.iter().any(|name| name == "Europe/Sofia"));
    assert!(first.iter().any(|name| name == "UTC"));
    for name in &first {
        assert!(TimezoneResolver::resolve(name).is_ok(), "{name}");
    }
}

#[test]
fn list_timezones_has_one_bulleted_line_for_each_zone() {
    let text = TimestampConverter::list_timezones();
    let names = TimezoneResolver::list_all();
    let lines: Vec<&str> = text.split('\n').collect();
    assert_eq!(lines.len(), names.len());
    for (line, name) in lines.iter().zip(names.iter()) {
        assert_eq!(*line, format!("- {name}"));
    }
    assert!(text.starts_with("- Africa/Abidjan\n- Africa/Accra\n"));
    assert!(!text.ends_with('\n'));
}

#[test]
fn bullet_list_joins_with_line_breaks() {
    assert_eq!(bullet_list(&vec![]), "");
    assert_eq!(bullet_list(&vec!["a".to_string()]), "- a");
    assert_eq!(
        bullet_list(&vec!["a".to_string(), "b c".to_string(), "".to_string()]),
        "- a\n- b c\n- "
    );
}

#[test]
fn now_shows_the_moment_in_the_zone() {
    let epoch = Instant::from_epoch_seconds(0).unwrap();
    assert_eq!(
        TimestampConverter::now_in_zone(&epoch, "UTC"),
        Ok("01/01/1970 00:00:00 UTC".to_string())
    );
    assert_eq!(
        TimestampConverter::now_in_zone(&epoch, "Europe/Sofia"),
        Ok("01/01/1970 02:00:00 EET".to_string())
    );
    let summer = Instant::from_epoch_seconds(1751328000).unwrap();
    assert_eq!(
        TimestampConverter::now_in_zone(&summer, "Europe/Sofia"),
        Ok("01/07/2025 03:00:00 EEST".to_string())
    );
    assert_eq!(
        TimestampConverter::now_in_zone(&epoch, "Not/AZone"),
        Err(TimeError::InvalidTimezone("Not/AZone".to_string()))
    );
}

#[test]
fn now_reads_the_clock() {
    let text = TimestampConverter::now(Some("UTC")).unwrap();
    assert_eq!(text.len(), "01/01/1970 00:00:00 UTC".len());
    assert!(text.ends_with(" UTC"));
    assert_eq!(
        TimestampConverter::now(Some("Not/AZone")),
        Err(TimeError::InvalidTimezone("Not/AZone".to_string()))
    );
    let local = TimestampConverter::now(None).unwrap();
    assert!(local.len() >= "01/01/1970 00:00:00 ".len());
    assert_eq!(&local[2..3], "/");
}

#[test]
fn unix_now_is_the_clock_in_decimal() {
    let before = Instant::now().epoch_seconds();
    let text = TimestampConverter::unix_now();
    let after = Instant::now().epoch_seconds();
    let shown: i64 = text.parse().unwrap();
    assert!(before <= shown && shown <= after);
    assert!(shown > 1_700_000_000);
    let at = Instant::from_epoch_seconds(-42).unwrap();
    assert_eq!(TimestampConverter::unix_at(&at), "-42");
}

#[test]
fn instants_cover_the_calendar_and_no_more() {
    assert!(Instant::from_epoch_seconds(MAX_EPOCH_SECONDS).is_some());
    assert!(Instant::from_epoch_seconds(MAX_EPOCH_SECONDS + 1).is_none());
    assert!(Instant::from_epoch_seconds(MIN_EPOCH_SECONDS).is_some());
    assert!(Instant::from_epoch_seconds(MIN_EPOCH_SECONDS - 1).is_none());
    assert!(Instant::from_epoch_seconds(i64::MAX).is_none());
    assert!(Instant::from_epoch_seconds(i64::MIN).is_none());
    let low = Instant::from_epoch_seconds(MIN_EPOCH_SECONDS).unwrap();
    let high = Instant::from_epoch_seconds(MAX_EPOCH_SECONDS).unwrap();
    assert_eq!(low.seconds_between(&high), 16_544_868_105_599);
    assert_eq!(high.seconds_between(&low), 16_544_868_105_599);
    assert_eq!(high.epoch_seconds(), MAX_EPOCH_SECONDS);
    assert_eq!(low.to_decimal(), "-8334601228800");
    assert_eq!(
        Instant::checked(MAX_EPOCH_SECONDS + 1).err(),
        Some(TimeError::InvalidTimestamp(MAX_EPOCH_SECONDS + 1))
    );
    assert_eq!(Instant::checked(5).unwrap().to_rfc3339(), "1970-01-01T00:00:05+00:00");
}

#[test]
fn decompose_divides_by_each_unit_in_turn() {
    assert_eq!(
        DurationDecomposer::decompose(2546975),
        DurationBreakdown { weeks: 4, days: 1, hours: 11, minutes: 29, seconds: 35 }
    );
    assert_eq!(
        DurationDecomposer::decompose(0),
        DurationBreakdown { weeks: 0, days: 0, hours: 0, minutes: 0, seconds: 0 }
    );
    assert_eq!(
        DurationDecomposer::decompose(604799),
        DurationBreakdown { weeks: 0, days: 6, hours: 23, minutes: 59, seconds: 59 }
    );
    assert_eq!(
        DurationDecomposer::decompose(604800),
        DurationBreakdown { weeks: 1, days: 0, hours: 0, minutes: 0, seconds: 0 }
    );
    assert_eq!(
        DurationDecomposer::decompose(u64::MAX),
        DurationBreakdown { weeks: 30500568904943, days: 0, hours: 7, minutes: 0, seconds: 15 }
    );
}

#[test]
fn decompose_adds_up_to_the_span() {
    for total in [0u64, 1, 59, 60, 3599, 3600, 86399, 86400, 604799, 604800, 2546975, u64::MAX] {
        let b = DurationDecomposer::decompose(total);
        let sum = b.weeks as u128 * 604800
            + b.days as u128 * 86400
            + b.hours as u128 * 3600
            + b.minutes as u128 * 60
            + b.seconds as u128;
        assert_eq!(sum, total as u128);
        assert!(b.days < 7 && b.hours < 24 && b.minutes < 60 && b.seconds < 60);
        let text = b.render();
        assert_eq!(text.contains("Weeks"), b.weeks > 0);
        assert_eq!(text.contains("Days"), b.days > 0);
        assert_eq!(text.contains("Hours"), b.hours > 0);
        assert_eq!(text.contains("Minutes"), b.minutes > 0);
        assert!(text.contains("Seconds"));
    }
}

#[test]
fn render_leaves_out_every_unit_that_is_zero() {
    assert_eq!(DurationDecomposer::describe(0), "0 Seconds");
    assert_eq!(DurationDecomposer::describe(59), "59 Seconds");
    assert_eq!(DurationDecomposer::describe(60), "1 Minutes 0 Seconds");
    assert_eq!(DurationDecomposer::describe(86400 + 60), "1 Days 1 Minutes 0 Seconds");
    assert_eq!(DurationDecomposer::describe(604800), "1 Weeks 0 Seconds");
    assert_eq!(DurationDecomposer::describe(604800 + 3600 + 5), "1 Weeks 1 Hours 5 Seconds");
    assert_eq!(
        DurationDecomposer::describe(2546975),
        "4 Weeks 1 Days 11 Hours 29 Minutes 35 Seconds"
    );
    let odd = DurationBreakdown { weeks: 0, days: 12, hours: 0, minutes: 70, seconds: 0 };
    assert_eq!(odd.render(), "12 Days 70 Minutes 0 Seconds");
}

#[test]
fn classify_goes_by_the_tokens() {
    assert_eq!(FormatClassifier::classify("%d/%m/%Y %H:%M %z"), PatternKind::OffsetAware);
    assert_eq!(FormatClassifier::classify("%Y %Z"), PatternKind::OffsetAware);
    assert_eq!(FormatClassifier::classify("%z"), PatternKind::OffsetAware);
    assert_eq!(FormatClassifier::classify("%Y-%m-%d %H"), PatternKind::NaiveDateTime);
    assert_eq!(FormatClassifier::classify("%M"), PatternKind::NaiveDateTime);
    assert_eq!(FormatClassifier::classify("at %S"), PatternKind::NaiveDateTime);
    assert_eq!(FormatClassifier::classify("%Y-%m-%d %T"), PatternKind::NaiveDateTime);
    assert_eq!(FormatClassifier::classify("%Y-%m-%d"), PatternKind::DateOnly);
    assert_eq!(FormatClassifier::classify(""), PatternKind::DateOnly);
    assert_eq!(FormatClassifier::classify("%"), PatternKind::DateOnly);
    assert_eq!(FormatClassifier::classify("z%"), PatternKind::DateOnly);
    assert_eq!(FormatClassifier::classify("% z %h %m %s %t"), PatternKind::DateOnly);
    assert_eq!(FormatClassifier::classify("%:z"), PatternKind::DateOnly);
    assert_eq!(FormatClassifier::classify("é%Yü%Hß"), PatternKind::NaiveDateTime);
}

#[test]
fn classifier_predicates_are_independent() {
    assert!(FormatClassifier::has_offset_token("%H %z"));
    assert!(FormatClassifier::has_time_token("%H %z"));
    assert!(FormatClassifier::has_offset_token("%Z"));
    assert!(!FormatClassifier::has_time_token("%Z"));
    assert!(!FormatClassifier::has_offset_token("%H:%M:%S"));
    assert!(FormatClassifier::has_time_token("%H:%M:%S"));
    assert!(!FormatClassifier::has_offset_token("%Y"));
    assert!(!FormatClassifier::has_time_token("%Y"));
}

#[test]
fn parsed_dates_carry_the_fields() {
    match ParsedDate::parse("02/01/2026 03:04 +0200", "%d/%m/%Y %H:%M %z").unwrap() {
        ParsedDate::WithOffset(v) => {
            assert_eq!((v.local.date.year, v.local.date.month, v.local.date.day), (2026, 1, 2));
            assert_eq!((v.local.hour, v.local.minute, v.local.second), (3, 4, 0));
            assert_eq!(v.offset_seconds, 7200);
        }
        other => panic!("{other:?}"),
    }
    match ParsedDate::parse("2024-02-29 23:59:58", "%Y-%m-%d %H:%M:%S").unwrap() {
        ParsedDate::DateTime(v) => {
            assert_eq!((v.date.year, v.date.month, v.date.day), (2024, 2, 29));
            assert_eq!((v.hour, v.minute, v.second, v.nanosecond), (23, 59, 58, 0));
        }
        other => panic!("{other:?}"),
    }
    let day = ParsedDate::parse("2024-02-29", "%Y-%m-%d").unwrap();
    match day {
        ParsedDate::Date(v) => assert_eq!((v.year, v.month, v.day), (2024, 2, 29)),
        other => panic!("{other:?}"),
    }
    assert_eq!(day.epoch_seconds(), 1709164800);
    assert_eq!(day.render("%d %B %Y"), Ok("29 February 2024".to_string()));
    assert!(ParsedDate::parse("2023-02-29", "%Y-%m-%d").is_err());
}

#[test]
fn errors_say_what_went_wrong() {
    assert_eq!(
        TimeError::InvalidTimezone("Mars/Base".to_string()).message(),
        "Timezone 'Mars/Base' is invalid! Run 'dx time tz' to list all available timezones"
    );
    assert_eq!(
        TimeError::InvalidTimestamp(-9223372036854775808).message(),
        "Timestamp '-9223372036854775808' is invalid!"
    );
    assert_eq!(
        TimeError::DateParseError {
            date: "x".to_string(),
            pattern: "%Y".to_string(),
            detail: "input contains invalid characters".to_string(),
        }
        .message(),
        "Failed to parse date 'x' with format '%Y'! input contains invalid characters"
    );
    assert_eq!(
        TimeError::UnrenderablePattern("%H".to_string()).message(),
        "Format '%H' cannot be applied to the parsed date!"
    );
}
