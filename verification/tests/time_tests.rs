//! Time-value construction, rendering and round-trip tests.

use shadow_rs::date_time::DateTime;
use shadow_rs::fact::EnvSnapshot;
use shadow_rs::date_time::parse_human_format;
use shadow_rs::strutil::{chars_to_string, i64_to_chars, u64_to_chars};
use shadow_rs::time::{now_data_time, BuildTime};

#[test]
fn date_time_test_timestamp_2_utc() {
    let time = DateTime::timestamp_2_utc(1628080443).unwrap();
    assert_eq!(time.to_rfc2822(), "Wed, 04 Aug 2021 12:34:03 +0000");
    assert_eq!(time.to_rfc3339(), "2021-08-04T12:34:03Z");
    assert_eq!(time.human_format(), "2021-08-04 12:34:03 +00:00");
}

#[test]
fn time_test_timestamp_2_utc() {
    let time = BuildTime::timestamp_2_utc(1628080443);
    assert_eq!(time.to_rfc2822(), "Wed, 04 Aug 2021 12:34:03 +0000");
    assert_eq!(time.to_rfc3339(), "2021-08-04T12:34:03Z");
    assert_eq!(time.human_format(), "2021-08-04 12:34:03 +00:00");
}

#[test]
fn date_time_test_source_date_epoch() {
    let mut env = EnvSnapshot::new();
    env.push_entry("SOURCE_DATE_EPOCH".to_string(), "1628080443".to_string());
    let time = shadow_rs::date_time::now_date_time(&env);
    assert_eq!(time.human_format(), "2021-08-04 12:34:03 +00:00");
}

#[test]
fn time_test_source_date_epoch() {
    let mut env = EnvSnapshot::new();
    env.push_entry("SOURCE_DATE_EPOCH".to_string(), "1628080443".to_string());
    let time = now_data_time(&env);
    assert_eq!(time.human_format(), "2021-08-04 12:34:03 +00:00");
}

#[test]
fn time_test_local_now_human_format() {
    let time = BuildTime::local_now().unwrap().human_format();
    println!("{}", time); // 2022-07-14 00:40:05 +08:00
    assert_eq!(time.len(), 26);
}

#[test]
fn date_time_test_local_now_human_format() {
    let time = DateTime::local_now().unwrap().human_format();
    assert!(DateTime::from_human_format(&time).is_ok());
    println!("local now:{time}"); // 2022-07-14 00:40:05 +08:00
    assert_eq!(time.len(), 26);
}

#[test]
fn test_human_format_round_trip() {
    // Re-parsing the human rendering recovers the instant and the
    // original offset exactly.
    let original = DateTime::from_iso8601_string("2021-08-04T12:34:03+08:00").unwrap();
    let human = original.human_format();
    let reparsed = DateTime::from_human_format(&human).unwrap();
    assert_eq!(reparsed.timestamp(), original.timestamp());
    assert_eq!(reparsed.human_format(), human);

    let rfc3339 = original.to_rfc3339();
    let reparsed2 = DateTime::from_iso8601_string(&rfc3339).unwrap();
    assert_eq!(reparsed2.timestamp(), original.timestamp());
    assert_eq!(reparsed2.to_rfc3339(), rfc3339);
}

#[test]
fn test_negative_offset_round_trip() {
    let original = DateTime::from_iso8601_string("1999-12-31T23:59:59-05:00").unwrap();
    assert_eq!(original.human_format(), "1999-12-31 23:59:59 -05:00");
    let reparsed = DateTime::from_human_format(&original.human_format()).unwrap();
    assert_eq!(reparsed.timestamp(), original.timestamp());
    assert!(original.to_rfc3339().contains("-05:00"));
}

#[test]
fn test_timestamp_out_of_range() {
    assert!(DateTime::timestamp_2_utc(-62135596801).is_err());
    assert!(DateTime::timestamp_2_utc(260000000000).is_err());
    assert!(DateTime::timestamp_2_utc(-62135596800).is_ok());
}

#[test]
fn test_from_iso8601_rejects_malformed() {
    assert!(DateTime::from_iso8601_string("2021-08-04 12:34:03+08:00").is_err());
    assert!(DateTime::from_iso8601_string("2021-13-04T12:34:03Z").is_err());
    assert!(DateTime::from_iso8601_string("2021-02-30T12:34:03Z").is_err());
    assert!(DateTime::from_iso8601_string("2021-08-04T12:34:03").is_err());
    assert!(DateTime::from_iso8601_string("2021-08-04T12:34:03+8:00").is_err());
}

#[test]
fn test_leap_year_dates() {
    let time = DateTime::from_iso8601_string("2020-02-29T00:00:00Z").unwrap();
    assert_eq!(time.timestamp(), 1582934400);
    assert_eq!(time.to_rfc2822(), "Sat, 29 Feb 2020 00:00:00 +0000");
}

#[test]
fn test_decimal_renderings() {
    assert_eq!(chars_to_string(&u64_to_chars(0)), "0");
    assert_eq!(chars_to_string(&u64_to_chars(1628080443)), "1628080443");
    assert_eq!(chars_to_string(&i64_to_chars(-42)), "-42");
    assert_eq!(chars_to_string(&i64_to_chars(i64::MIN)), "-9223372036854775808");
}

#[test]
fn test_parse() {
    assert!(parse_human_format("2022-07-14 00:40:05 +08:00").is_ok());
    assert!(parse_human_format("2022-12-14 00:40:05 +08:00").is_ok());
    assert!(parse_human_format("2022-13-14 00:40:05 +08:00").is_err());
    assert!(parse_human_format("2022-12-31 00:40:05 +08:00").is_ok());
    assert!(parse_human_format("2022-12-32 00:40:05 +08:00").is_err());
    assert!(parse_human_format("2022-07-14 00:40:05 +08:0").is_err());
    assert!(parse_human_format("2022-07-14 00:40:05 -08:0").is_err());
    assert!(parse_human_format("2022-07-00 00:40:05 +08:00").is_err());
    assert!(parse_human_format("2022-00-01 00:40:05 +08:00").is_err());
    assert!(parse_human_format("2022-00-01 00:40:05 08:00").is_err());
    assert!(parse_human_format("2022-00-01 00:40:05+08:00").is_err());
    assert!(parse_human_format("20221-00-01 00:40:05+08:00").is_err());
    assert!(parse_human_format("20221-01-01 00:40:05 +08:00").is_ok());
}
