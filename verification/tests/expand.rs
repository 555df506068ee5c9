use std::collections::HashSet;
use timesheet_backend::entry::ICSEntry;
use timesheet_backend::dedup::emit;
use timesheet_backend::expand::{expand, expand_instants, expand_single};
use timesheet_backend::recurrence::{
    instants_of_rule, window_bounds, Recurrence, RETENTION_SECONDS,
};

const NOW: u64 = 1679270400;
const WEEK: i64 = 604800;
const DAY: i64 = 86400;

fn entry(title: &str, start: i64, duration: i64) -> ICSEntry {
    ICSEntry {
        desc: String::new(),
        uid: String::new(),
        title: title.to_string(),
        start,
        duration,
        confirmed: false,
        oof: false,
    }
}

fn starts(out: &Vec<ICSEntry>) -> Vec<i64> {
    out.iter().map(|e| e.start).collect()
}

#[test]
fn retention_is_seventy_days() {
    assert_eq!(RETENTION_SECONDS, 70 * 24 * 60 * 60);
}

#[test]
fn emitted_occurrence_is_remembered_by_its_start() {
    let mut seen = HashSet::new();
    let mut out = Vec::new();
    emit(entry("first", 100, 5), &mut seen, &mut out);
    emit(entry("second", 100, 9), &mut seen, &mut out);
    emit(entry("third", 101, 9), &mut seen, &mut out);
    assert_eq!(out.len(), 2);
    assert_eq!(out[0].title, "first");
    assert_eq!(out[0].duration, 5);
    assert_eq!(out[1].title, "third");
    assert!(seen.contains(&100) && seen.contains(&101) && seen.len() == 2);
}

#[test]
fn single_record_in_the_window_is_emitted_as_it_is() {
    let mut seen = HashSet::new();
    let mut out = Vec::new();
    expand_single(entry("Standup", 1678093200, 1800), NOW, &mut seen, &mut out);
    assert_eq!(out.len(), 1);
    assert_eq!(out[0].start, 1678093200);
    assert_eq!(out[0].duration, 1800);
    assert_eq!(out[0].title, "Standup");
}

#[test]
fn single_record_at_the_start_of_the_window_is_emitted() {
    let first = NOW as i64 - RETENTION_SECONDS as i64;
    let mut seen = HashSet::new();
    let mut out = Vec::new();
    expand_single(entry("edge", first, 0), NOW, &mut seen, &mut out);
    assert_eq!(starts(&out), vec![first]);
}

#[test]
fn single_record_before_the_window_is_dropped() {
    let first = NOW as i64 - RETENTION_SECONDS as i64;
    let mut seen = HashSet::new();
    let mut out = Vec::new();
    expand_single(entry("old", first - 1, 0), NOW, &mut seen, &mut out);
    expand_single(entry("older", 0, 0), NOW, &mut seen, &mut out);
    assert!(out.is_empty());
    assert!(seen.is_empty());
}

#[test]
fn single_record_after_now_is_emitted() {
    let mut seen = HashSet::new();
    let mut out = Vec::new();
    expand_single(entry("planned", NOW as i64 + DAY, 0), NOW, &mut seen, &mut out);
    assert_eq!(starts(&out), vec![NOW as i64 + DAY]);
}

#[test]
fn single_record_with_a_seen_start_is_dropped() {
    let mut seen = HashSet::new();
    let mut out = Vec::new();
    expand_single(entry("first", 1678093200, 0), NOW, &mut seen, &mut out);
    expand_single(entry("second", 1678093200, 60), NOW, &mut seen, &mut out);
    assert_eq!(out.len(), 1);
    assert_eq!(out[0].title, "first");
}

#[test]
fn instants_outside_the_window_are_not_emitted() {
    let now = NOW as i64;
    let first = now - RETENTION_SECONDS as i64;
    let instants = vec![first - WEEK, first - 1, first, now - DAY, now, now + 1, now - 2 * DAY];
    let mut seen = HashSet::new();
    let mut out = Vec::new();
    expand_instants(&entry("Weekly", 5, 1800), &instants, NOW, &mut seen, &mut out);
    assert_eq!(starts(&out), vec![first, now - DAY, now]);
    assert!(out.iter().all(|e| e.title == "Weekly" && e.duration == 1800));
}

#[test]
fn iteration_stops_at_the_first_instant_after_now() {
    let now = NOW as i64;
    let instants = vec![now + 1, now - DAY, now - 2 * DAY];
    let mut seen = HashSet::new();
    let mut out = Vec::new();
    expand_instants(&entry("Later", 0, 0), &instants, NOW, &mut seen, &mut out);
    assert!(out.is_empty());
}

#[test]
fn equal_instants_are_emitted_once() {
    let now = NOW as i64;
    let instants = vec![now - DAY, now - DAY, now - 10, now - DAY];
    let mut seen = HashSet::new();
    let mut out = vec![entry("kept", 1, 1)];
    expand_instants(&entry("Twice", 0, 0), &instants, NOW, &mut seen, &mut out);
    assert_eq!(starts(&out), vec![1, now - DAY, now - 10]);
}

#[test]
fn instants_collide_with_other_records() {
    let now = NOW as i64;
    let mut seen = HashSet::new();
    let mut out = Vec::new();
    expand_single(entry("Single", now - DAY, 60), NOW, &mut seen, &mut out);
    expand_instants(&entry("Rule", 0, 0), &vec![now - 2 * DAY, now - DAY], NOW, &mut seen, &mut out);
    expand_instants(&entry("Other rule", 0, 0), &vec![now - 2 * DAY, now - 5], NOW, &mut seen, &mut out);
    let titles: Vec<&str> = out.iter().map(|e| e.title.as_str()).collect();
    assert_eq!(titles, vec!["Single", "Rule", "Other rule"]);
    assert_eq!(starts(&out), vec![now - DAY, now - 2 * DAY, now - 5]);
}

#[test]
fn no_instants_give_no_occurrences() {
    let mut seen = HashSet::new();
    let mut out = Vec::new();
    expand_instants(&entry("None", 0, 0), &Vec::new(), NOW, &mut seen, &mut out);
    assert!(out.is_empty());
}

#[test]
fn weekly_rule_gives_the_weeks_up_to_now() {
    let start = 1677661200;
    let instants = instants_of_rule("FREQ=WEEKLY", start, NOW);
    assert_eq!(instants, Some(vec![start, start + WEEK, start + 2 * WEEK]));
}

#[test]
fn daily_rule_from_long_ago_fills_the_window() {
    let instants = instants_of_rule("FREQ=DAILY", 1641027600, NOW).unwrap();
    assert_eq!(instants.len(), 70);
    assert_eq!(instants[0], 1673254800);
    assert_eq!(instants[69], 1673254800 + 69 * DAY);
}

#[test]
fn rule_with_a_count_ends_after_it() {
    let start = 1677661200;
    assert_eq!(
        instants_of_rule("FREQ=DAILY;COUNT=2", start, NOW),
        Some(vec![start, start + DAY])
    );
}

#[test]
fn rule_that_starts_after_now_has_no_instants() {
    assert_eq!(instants_of_rule("FREQ=DAILY", NOW as i64 + DAY, NOW), Some(vec![]));
}

#[test]
fn rule_that_does_not_compile_gives_nothing() {
    assert_eq!(instants_of_rule("FREQ=SOMETIMES", 1677661200, NOW), None);
    assert_eq!(instants_of_rule("", 1677661200, NOW), None);
    assert_eq!(instants_of_rule("FREQ=DAILY;BYMONTH=13", 1677661200, NOW), None);
}

#[test]
fn rule_with_interval_zero_compiles_to_no_instants() {
    assert_eq!(instants_of_rule("FREQ=DAILY;INTERVAL=0", 1677661200, NOW), Some(vec![]));
}

#[test]
fn recurring_record_is_expanded_by_its_rule() {
    let start = 1677661200;
    let mut seen = HashSet::new();
    let mut out = Vec::new();
    let rule = Recurrence::Recurring("FREQ=WEEKLY".to_string());
    expand(entry("Weekly", start, 1800), &rule, NOW, &mut seen, &mut out);
    assert_eq!(starts(&out), vec![start, start + WEEK, start + 2 * WEEK]);
    assert!(out.iter().all(|e| e.duration == 1800 && e.title == "Weekly"));
}

#[test]
fn record_with_a_broken_rule_is_dropped() {
    let mut seen = HashSet::new();
    let mut out = Vec::new();
    let rule = Recurrence::Recurring("EVERY DAY".to_string());
    expand(entry("Broken", 1677661200, 0), &rule, NOW, &mut seen, &mut out);
    assert!(out.is_empty());
    assert!(seen.is_empty());
}

#[test]
fn record_without_rule_is_expanded_to_itself() {
    let mut seen = HashSet::new();
    let mut out = Vec::new();
    expand(entry("Once", 1677661200, 0), &Recurrence::NonRecurring, NOW, &mut seen, &mut out);
    assert_eq!(starts(&out), vec![1677661200]);
}

#[test]
fn window_reaches_seventy_days_back_from_now() {
    assert_eq!(window_bounds(NOW), (1673222400, 1679270400));
    assert_eq!(window_bounds(0), (-6_048_000, 0));
    assert_eq!(window_bounds(6_048_000), (0, 6_048_000));
    assert_eq!(window_bounds(253_402_300_799), (253_396_252_799, 253_402_300_799));
}
