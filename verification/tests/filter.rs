use timesheet_backend::entry::{are_well_formed, copy_entries, ICSEntry};
use timesheet_backend::filter::{date_matches, filter_ics_entries, title_is_excluded};

fn entry(title: &str, start: i64) -> ICSEntry {
    ICSEntry {
        desc: String::new(),
        uid: String::new(),
        title: title.to_string(),
        start,
        duration: 0,
        confirmed: false,
        oof: false,
    }
}

fn titles(entries: &Vec<ICSEntry>) -> Vec<&str> {
    entries.iter().map(|e| e.title.as_str()).collect()
}

fn sample() -> Vec<ICSEntry> {
    vec![
        entry("Standup", 1678093200),
        entry("Team Lunch", 1678104000),
        entry("Review", 1677628799),
        entry("Planning", 1677628800),
        entry("Leap", 1709208000),
    ]
}

fn words(list: &[&str]) -> Vec<String> {
    list.iter().map(|w| w.to_string()).collect()
}

#[test]
fn without_selectors_and_exclusions_everything_is_shown() {
    let shown = filter_ics_entries(sample(), None, None, &Vec::new());
    assert_eq!(titles(&shown), vec!["Standup", "Team Lunch", "Review", "Planning", "Leap"]);
}

#[test]
fn month_selects_by_the_utc_date() {
    let shown = filter_ics_entries(sample(), Some(3), None, &Vec::new());
    assert_eq!(titles(&shown), vec!["Standup", "Team Lunch", "Planning"]);
    let shown = filter_ics_entries(sample(), Some(2), None, &Vec::new());
    assert_eq!(titles(&shown), vec!["Review", "Leap"]);
    let shown = filter_ics_entries(sample(), Some(7), None, &Vec::new());
    assert!(shown.is_empty());
}

#[test]
fn day_selects_by_the_day_of_the_month() {
    let shown = filter_ics_entries(sample(), Some(3), Some(6), &Vec::new());
    assert_eq!(titles(&shown), vec!["Standup", "Team Lunch"]);
    let shown = filter_ics_entries(sample(), Some(2), Some(29), &Vec::new());
    assert_eq!(titles(&shown), vec!["Leap"]);
    let shown = filter_ics_entries(sample(), None, Some(1), &Vec::new());
    assert_eq!(titles(&shown), vec!["Planning"]);
}

#[test]
fn month_outside_the_calendar_selects_every_month() {
    let shown = filter_ics_entries(sample(), Some(0), None, &Vec::new());
    assert_eq!(shown.len(), 5);
    let shown = filter_ics_entries(sample(), Some(13), None, &Vec::new());
    assert_eq!(shown.len(), 5);
    let shown = filter_ics_entries(sample(), Some(13), Some(6), &Vec::new());
    assert_eq!(titles(&shown), vec!["Standup", "Team Lunch"]);
}

#[test]
fn selectors_count_by_their_low_eight_bits() {
    let shown = filter_ics_entries(sample(), Some(256 + 3), None, &Vec::new());
    assert_eq!(titles(&shown), vec!["Standup", "Team Lunch", "Planning"]);
    let shown = filter_ics_entries(sample(), None, Some(256 + 6), &Vec::new());
    assert_eq!(titles(&shown), vec!["Standup", "Team Lunch"]);
}

#[test]
fn day_zero_selects_nothing() {
    let shown = filter_ics_entries(sample(), None, Some(0), &Vec::new());
    assert!(shown.is_empty());
    let shown = filter_ics_entries(sample(), None, Some(32), &Vec::new());
    assert!(shown.is_empty());
}

#[test]
fn excluded_titles_are_omitted_whatever_the_date() {
    let exclusions = words(&["Lunch"]);
    let shown = filter_ics_entries(sample(), None, None, &exclusions);
    assert_eq!(titles(&shown), vec!["Standup", "Review", "Planning", "Leap"]);
    let shown = filter_ics_entries(sample(), Some(3), Some(6), &exclusions);
    assert_eq!(titles(&shown), vec!["Standup"]);
}

#[test]
fn any_exclusion_omits_a_title() {
    let exclusions = words(&["Lunch", "view", "Plan"]);
    let shown = filter_ics_entries(sample(), None, None, &exclusions);
    assert_eq!(titles(&shown), vec!["Standup", "Leap"]);
}

#[test]
fn exclusions_match_case_sensitively() {
    let shown = filter_ics_entries(sample(), None, None, &words(&["lunch", "STANDUP"]));
    assert_eq!(shown.len(), 5);
}

#[test]
fn empty_exclusion_omits_every_title() {
    let shown = filter_ics_entries(sample(), None, None, &words(&[""]));
    assert!(shown.is_empty());
}

#[test]
fn filter_keeps_the_entries_whole() {
    let mut one = entry("Standup", 1678093200);
    one.desc = "Daily".to_string();
    one.uid = "abc".to_string();
    one.duration = 900;
    one.confirmed = true;
    one.oof = true;
    let shown = filter_ics_entries(vec![one], Some(3), None, &Vec::new());
    assert_eq!(shown.len(), 1);
    assert_eq!(shown[0].desc, "Daily");
    assert_eq!(shown[0].uid, "abc");
    assert_eq!(shown[0].start, 1678093200);
    assert_eq!(shown[0].duration, 900);
    assert!(shown[0].confirmed && shown[0].oof);
}

#[test]
fn filter_of_nothing_is_nothing() {
    assert!(filter_ics_entries(Vec::new(), Some(3), Some(6), &words(&["x"])).is_empty());
}

#[test]
fn entries_at_the_ends_of_the_range_are_dated() {
    let ends = vec![entry("first", -377_705_116_800), entry("last", 253_402_300_799)];
    let shown = filter_ics_entries(ends, Some(12), Some(31), &Vec::new());
    assert_eq!(titles(&shown), vec!["last"]);
}

#[test]
fn dates_match_the_selectors() {
    assert!(date_matches((3, 6), None, None));
    assert!(date_matches((3, 6), Some(3), None));
    assert!(date_matches((3, 6), Some(3), Some(6)));
    assert!(!date_matches((3, 6), Some(4), Some(6)));
    assert!(!date_matches((3, 6), Some(3), Some(7)));
    assert!(date_matches((3, 6), Some(13), Some(6)));
    assert!(date_matches((3, 6), Some(259), Some(262)));
    assert!(!date_matches((3, 6), None, Some(0)));
}

#[test]
fn titles_are_excluded_by_substrings() {
    assert!(title_is_excluded("Team Lunch", &words(&["Lunch"])));
    assert!(title_is_excluded("Team Lunch", &words(&["Dinner", "Team"])));
    assert!(title_is_excluded("Team Lunch", &words(&["Team Lunch"])));
    assert!(!title_is_excluded("Team Lunch", &words(&["Team Lunch!"])));
    assert!(!title_is_excluded("Team Lunch", &Vec::new()));
    assert!(!title_is_excluded("", &words(&["a"])));
    assert!(title_is_excluded("", &words(&[""])));
}

#[test]
fn entries_with_resolved_starts_are_well_formed() {
    assert!(are_well_formed(&sample()));
    assert!(are_well_formed(&Vec::new()));
    assert!(are_well_formed(&vec![entry("a", 253_402_300_799), entry("b", -377_705_116_800)]));
    assert!(!are_well_formed(&vec![entry("a", 0), entry("b", 253_402_300_800)]));
    assert!(!are_well_formed(&vec![entry("a", -377_705_116_801)]));
    assert!(entry("a", 0).is_well_formed());
    assert!(!entry("a", i64::MAX).is_well_formed());
}

#[test]
fn entries_are_copied_whole() {
    let mut one = entry("Standup", 1678093200);
    one.desc = "Daily".to_string();
    one.uid = "abc".to_string();
    one.duration = 900;
    one.oof = true;
    let copy = copy_entries(&vec![one, entry("Other", 5)]);
    assert_eq!(copy.len(), 2);
    assert_eq!(copy[0].title, "Standup");
    assert_eq!(copy[0].desc, "Daily");
    assert_eq!(copy[0].uid, "abc");
    assert_eq!(copy[0].start, 1678093200);
    assert_eq!(copy[0].duration, 900);
    assert!(copy[0].oof && !copy[0].confirmed);
    assert_eq!(copy[1].title, "Other");
    let moved = copy[0].starting_at(7);
    assert_eq!(moved.start, 7);
    assert_eq!(moved.duration, 900);
    assert_eq!(moved.title, "Standup");
}
