use timesheet_backend::datetime::{
    complete_date, convert_ics_date_unix, get_now, resolve_instant, seconds_or_epoch,
    utc_month_day, MAX_TIMESTAMP, MIN_TIMESTAMP,
};

#[test]
fn date_time_in_utc_is_converted() {
    assert_eq!(convert_ics_date_unix("20230301T090000Z".to_string()), 1677661200);
    assert_eq!(convert_ics_date_unix("20240229T120000Z".to_string()), 1709208000);
}

#[test]
fn date_time_without_zone_is_read_as_utc() {
    assert_eq!(convert_ics_date_unix("20230301T090000".to_string()), 1677661200);
}

#[test]
fn epoch_is_converted_to_zero() {
    assert_eq!(convert_ics_date_unix("19700101T000000Z".to_string()), 0);
}

#[test]
fn date_without_time_is_midnight_utc() {
    assert_eq!(convert_ics_date_unix("20230301".to_string()), 1677628800);
    assert_eq!(
        convert_ics_date_unix("20230301".to_string()),
        convert_ics_date_unix("20230301T000000Z".to_string())
    );
}

#[test]
fn unparsable_date_resolves_to_zero() {
    assert_eq!(convert_ics_date_unix("not a date".to_string()), 0);
    assert_eq!(convert_ics_date_unix(String::new()), 0);
    assert_eq!(convert_ics_date_unix("20231301T090000Z".to_string()), 0);
    assert_eq!(convert_ics_date_unix("T".to_string()), 0);
}

#[test]
fn midnight_is_appended_only_without_a_time() {
    assert_eq!(complete_date("20230301".to_string()), "20230301T000000Z");
    assert_eq!(complete_date("20230301T090000Z".to_string()), "20230301T090000Z");
    assert_eq!(complete_date(String::new()), "T000000Z");
    assert_eq!(complete_date("Tuesday".to_string()), "Tuesday");
}

#[test]
fn parsed_instant_or_zero() {
    assert_eq!(resolve_instant(Some(1677661200)), 1677661200);
    assert_eq!(resolve_instant(Some(-5)), -5);
    assert_eq!(resolve_instant(None), 0);
}

#[test]
fn month_and_day_of_an_instant() {
    assert_eq!(utc_month_day(0), Some((1, 1)));
    assert_eq!(utc_month_day(1677661200), Some((3, 1)));
    assert_eq!(utc_month_day(1677628799), Some((2, 28)));
    assert_eq!(utc_month_day(1709208000), Some((2, 29)));
    assert_eq!(utc_month_day(-1), Some((12, 31)));
}

#[test]
fn resolved_instants_are_those_with_a_date() {
    assert_eq!(utc_month_day(MAX_TIMESTAMP), Some((12, 31)));
    assert_eq!(utc_month_day(MAX_TIMESTAMP + 1), None);
    assert_eq!(utc_month_day(MIN_TIMESTAMP), Some((1, 1)));
    assert_eq!(utc_month_day(MIN_TIMESTAMP - 1), None);
    assert_eq!(utc_month_day(i64::MAX), None);
    assert_eq!(utc_month_day(i64::MIN), None);
}

#[test]
fn latest_date_is_the_latest_resolved_instant() {
    assert_eq!(convert_ics_date_unix("99991231T235959Z".to_string()), MAX_TIMESTAMP);
}

#[test]
fn clock_reads_a_time_after_2020() {
    let now = get_now();
    assert!(now > 1_577_836_800);
    assert!(now <= MAX_TIMESTAMP as u64);
}

#[test]
fn clock_before_the_epoch_reads_as_the_epoch() {
    assert_eq!(seconds_or_epoch(None), 0);
    assert_eq!(seconds_or_epoch(Some(0)), 0);
    assert_eq!(seconds_or_epoch(Some(1679270400)), 1679270400);
    assert_eq!(seconds_or_epoch(Some(u64::MAX)), u64::MAX);
}
