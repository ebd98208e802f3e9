use hcs::display::{local_second, DISPLAY_ZONE};
use hcs::instant::UtcInstant;
use hcs::normalize::normalize;

fn params(key: &str, values: &[&str]) -> Option<Vec<(String, Vec<String>)>> {
    Some(vec![(
        key.to_string(),
        values.iter().map(|v| v.to_string()).collect(),
    )])
}

fn text(s: &str) -> Option<String> {
    Some(s.to_string())
}

#[test]
fn absolute_utc_timestamp_parses() {
    let r = normalize(&text("20240101T100000Z"), &None);
    assert_eq!(r, Some(UtcInstant { unix_ms: 1_704_103_200_000 }));
}

#[test]
fn timestamp_without_zone_is_rejected() {
    assert_eq!(normalize(&text("20240101T100000"), &None), None);
}

#[test]
fn missing_value_is_rejected() {
    assert_eq!(normalize(&None, &None), None);
    assert_eq!(normalize(&None, &params("VALUE", &["DATE"])), None);
    assert_eq!(normalize(&None, &params("TZID", &["Europe/Bucharest"])), None);
}

#[test]
fn empty_parameter_list_reads_value_directly() {
    let r = normalize(&text("20240101T100000Z"), &Some(vec![]));
    assert_eq!(r, Some(UtcInstant { unix_ms: 1_704_103_200_000 }));
}

#[test]
fn garbage_is_rejected() {
    assert_eq!(normalize(&text("tomorrow"), &None), None);
    assert_eq!(normalize(&text(""), &None), None);
}

#[test]
fn date_value_is_midnight_utc() {
    let r = normalize(&text("20240315"), &params("VALUE", &["DATE"]));
    assert_eq!(r, Some(UtcInstant { unix_ms: 1_710_460_800_000 }));
    assert_eq!(r.unwrap().unix_ms % 86_400_000, 0);
}

#[test]
fn other_value_kind_is_unhandled() {
    let r = normalize(&text("20240315T100000"), &params("VALUE", &["DATE-TIME"]));
    assert_eq!(r, None);
    assert_eq!(normalize(&text("20240315"), &params("VALUE", &[])), None);
}

#[test]
fn unknown_parameter_is_unhandled() {
    assert_eq!(normalize(&text("20240101T100000Z"), &params("X-FOO", &["bar"])), None);
}

#[test]
fn tzid_converts_local_time_to_utc() {
    // Bucharest is two hours ahead of UTC in winter.
    let r = normalize(&text("20240101T120000"), &params("TZID", &["Europe/Bucharest"]));
    assert_eq!(r, Some(UtcInstant { unix_ms: 1_704_103_200_000 }));
}

#[test]
fn tzid_summer_time_uses_summer_offset() {
    // 2024-07-01 12:00 in Bucharest is 09:00 UTC.
    let r = normalize(&text("20240701T120000"), &params("TZID", &["Europe/Bucharest"]));
    assert_eq!(r, Some(UtcInstant { unix_ms: 1_719_824_400_000 }));
}

#[test]
fn tzid_round_trips_through_zone_offset() {
    let r = normalize(&text("20240101T120000"), &params("TZID", &["Europe/Bucharest"]))
        .unwrap();
    assert_eq!(local_second(DISPLAY_ZONE, r), Some(12 * 3600));
    let s = normalize(&text("20240701T083000"), &params("TZID", &["America/New_York"]))
        .unwrap();
    assert_eq!(local_second("America/New_York", s), Some(8 * 3600 + 30 * 60));
}

#[test]
fn tzid_unknown_zone_is_rejected() {
    let r = normalize(&text("20240101T120000"), &params("TZID", &["Mars/Olympus"]));
    assert_eq!(r, None);
    assert_eq!(normalize(&text("20240101T120000"), &params("TZID", &[])), None);
}

#[test]
fn tzid_nonexistent_local_time_is_rejected() {
    // Clocks in Bucharest jump from 03:00 to 04:00 on 2024-03-31.
    let r = normalize(&text("20240331T033000"), &params("TZID", &["Europe/Bucharest"]));
    assert_eq!(r, None);
}

#[test]
fn tzid_ambiguous_local_time_is_rejected() {
    // 03:30 happens twice in Bucharest on 2024-10-27.
    let r = normalize(&text("20241027T033000"), &params("TZID", &["Europe/Bucharest"]));
    assert_eq!(r, None);
}

#[test]
fn only_first_parameter_counts() {
    let ps = Some(vec![
        ("VALUE".to_string(), vec!["DATE".to_string()]),
        ("TZID".to_string(), vec!["Europe/Bucharest".to_string()]),
    ]);
    let r = normalize(&text("20240315"), &ps);
    assert_eq!(r, Some(UtcInstant { unix_ms: 1_710_460_800_000 }));
}

#[test]
fn instant_seconds_round_toward_zero() {
    assert_eq!(UtcInstant { unix_ms: 1_999 }.unix_secs(), 1);
    assert_eq!(UtcInstant { unix_ms: -1_999 }.unix_secs(), -1);
    assert_eq!(UtcInstant::from_unix_secs(5), Some(UtcInstant { unix_ms: 5_000 }));
    assert_eq!(UtcInstant::from_unix_secs(i64::MAX), None);
}

#[test]
fn only_compact_form_is_accepted() {
    assert_eq!(normalize(&text("2024-01-01T10:00:00Z"), &None), None);
    assert_eq!(normalize(&text("20240101T100000+0100"), &None), None);
    assert_eq!(normalize(&text("20240101T100000UTC"), &None), None);
    assert_eq!(normalize(&text("20240101T1000Z"), &None), None);
}

#[test]
fn offset_past_last_year_is_rejected() {
    assert_eq!(normalize(&text("99991231T235959+0100"), &None), None);
    let tz = params("TZID", &["Europe/Bucharest"]);
    assert_eq!(normalize(&text("99991231T235959+0100"), &tz), None);
    assert_eq!(normalize(&text("99991231T235959+0100"), &params("VALUE", &["DATE"])), None);
}

#[test]
fn compact_fields_must_exist() {
    assert_eq!(normalize(&text("20240230T100000Z"), &None), None);
    assert_eq!(normalize(&text("20241301T100000Z"), &None), None);
    assert_eq!(normalize(&text("20240101T240000Z"), &None), None);
    assert_eq!(normalize(&text("20240229T000000Z"), &None), Some(UtcInstant { unix_ms: 1_709_164_800_000 }));
}

#[test]
fn extreme_years_stay_in_range() {
    assert_eq!(normalize(&text("00000101T000000Z"), &None), Some(UtcInstant { unix_ms: -62_167_219_200_000 }));
    assert_eq!(normalize(&text("99991231T235959Z"), &None), Some(UtcInstant { unix_ms: 253_402_300_799_000 }));
}

#[test]
fn date_value_must_be_a_bare_date() {
    assert_eq!(normalize(&text("20240315T120000"), &params("VALUE", &["DATE"])), None);
    assert_eq!(normalize(&text("2024-03-15"), &params("VALUE", &["DATE"])), None);
}
