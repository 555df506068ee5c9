use timesheet_backend::feed::{collect_events, parse_feed, RawEvent, RawProperty};

fn property(name: &str, value: Option<&str>) -> RawProperty {
    RawProperty { name: name.to_string(), params: None, value: value.map(|v| v.to_string()) }
}

fn names(event: &RawEvent) -> Vec<String> {
    event.properties.iter().map(|p| p.name.clone()).collect()
}

const FEED: &str = "BEGIN:VCALENDAR\r\nVERSION:2.0\r\nBEGIN:VEVENT\r\nUID:one\r\nSUMMARY:Standup\r\nDTSTART:20230306T090000Z\r\nDTEND:20230306T093000Z\r\nEND:VEVENT\r\nBEGIN:VEVENT\r\nUID:two\r\nSUMMARY:Team Lunch\r\nDTSTART;VALUE=DATE:20230307\r\nDESCRIPTION:\r\nEND:VEVENT\r\nEND:VCALENDAR\r\n";

#[test]
fn feed_is_parsed_into_its_events() {
    let events = parse_feed(FEED);
    assert_eq!(events.len(), 2);
    assert_eq!(names(&events[0]), vec!["UID", "SUMMARY", "DTSTART", "DTEND"]);
    assert_eq!(events[0].properties[1].value, Some("Standup".to_string()));
    assert_eq!(events[0].properties[2].value, Some("20230306T090000Z".to_string()));
    assert_eq!(names(&events[1]), vec!["UID", "SUMMARY", "DTSTART", "DESCRIPTION"]);
    assert_eq!(events[1].properties[2].value, Some("20230307".to_string()));
    assert_eq!(events[1].properties[3].value, None);
}

#[test]
fn empty_feed_has_no_events() {
    assert_eq!(parse_feed("").len(), 0);
    assert_eq!(parse_feed("BEGIN:VCALENDAR\r\nEND:VCALENDAR\r\n").len(), 0);
}

#[test]
fn text_that_is_no_calendar_has_no_events() {
    assert_eq!(parse_feed("<html><body>Sign in</body></html>").len(), 0);
}

#[test]
fn malformed_calendar_is_skipped_and_the_next_is_read() {
    let text = format!("BEGIN:VCALENDAR\r\nBEGIN:VNONSENSE\r\nEND:VNONSENSE\r\nEND:VCALENDAR\r\n{}", FEED);
    let events = parse_feed(&text);
    assert!(events.iter().any(|e| e.properties.iter().any(|p| p.value == Some("Standup".to_string()))));
}

#[test]
fn events_of_several_calendars_are_joined_in_order() {
    let text = format!("{}{}", FEED, FEED);
    let events = parse_feed(&text);
    assert_eq!(events.len(), 4);
    assert_eq!(events[2].properties[0].value, Some("one".to_string()));
}

#[test]
fn failed_documents_are_skipped() {
    let a = RawEvent { properties: vec![property("UID", Some("a"))], alarms: Vec::new() };
    let b = RawEvent { properties: vec![property("UID", Some("b"))], alarms: Vec::new() };
    let c = RawEvent { properties: vec![property("UID", Some("c"))], alarms: Vec::new() };
    let events = collect_events(vec![Some(vec![a]), None, Some(vec![]), Some(vec![b, c]), None]);
    let uids: Vec<Option<String>> = events.iter().map(|e| e.properties[0].value.clone()).collect();
    assert_eq!(uids, vec![Some("a".to_string()), Some("b".to_string()), Some("c".to_string())]);
}

#[test]
fn no_documents_give_no_events() {
    assert_eq!(collect_events(vec![]).len(), 0);
    assert_eq!(collect_events(vec![None, None]).len(), 0);
}

#[test]
fn parameters_and_alarms_are_kept() {
    let text = "BEGIN:VCALENDAR\r\nBEGIN:VEVENT\r\nUID:one\r\nDTSTART;TZID=Europe/Berlin;VALUE=DATE-TIME:20230306T100000\r\nBEGIN:VALARM\r\nACTION:DISPLAY\r\nTRIGGER;RELATED=START:-PT15M\r\nEND:VALARM\r\nEND:VEVENT\r\nEND:VCALENDAR\r\n";
    let events = parse_feed(text);
    assert_eq!(events.len(), 1);
    assert_eq!(names(&events[0]), vec!["UID", "DTSTART"]);
    assert_eq!(events[0].properties[0].params, None);
    assert_eq!(
        events[0].properties[1].params,
        Some(vec![
            ("TZID".to_string(), vec!["Europe/Berlin".to_string()]),
            ("VALUE".to_string(), vec!["DATE-TIME".to_string()]),
        ])
    );
    assert_eq!(events[0].properties[1].value, Some("20230306T100000".to_string()));
    assert_eq!(events[0].alarms.len(), 1);
    let alarm = &events[0].alarms[0];
    assert_eq!(alarm.properties.len(), 2);
    assert_eq!(alarm.properties[0].name, "ACTION");
    assert_eq!(alarm.properties[0].value, Some("DISPLAY".to_string()));
    assert_eq!(alarm.properties[1].name, "TRIGGER");
    assert_eq!(
        alarm.properties[1].params,
        Some(vec![("RELATED".to_string(), vec!["START".to_string()])])
    );
    assert_eq!(alarm.properties[1].value, Some("-PT15M".to_string()));
}
