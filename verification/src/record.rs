//! From a raw event record to the template of its occurrences.
//!
//! Of a raw record only these properties are read: description, unique id,
//! summary, start, end, the Microsoft busy status, and the recurrence rule.
//! Where a property occurs more than once, the last one counts.

use vstd::prelude::*;
use crate::datetime::{convert_ics_date_unix, is_resolved, unix_of_date};
use crate::entry::{ICSEntry, Occurrence};
use crate::feed::{EventModel, PropertyModel, RawEvent, RawProperty};
use crate::recurrence::Recurrence;
use crate::text::{before_first, cut_at};

verus! {

/// The run of underscores after which a description holds only boilerplate.
pub const SEPARATOR: &'static str =
    "________________________________________________________________________________";

/// The value of the last property of `props` that is named `name`; `None`
/// where there is no such property.
pub open spec fn last_value(props: Seq<PropertyModel>, name: Seq<char>) -> Option<
    Option<Seq<char>>,
>
    decreases props.len(),
{
    if props.len() == 0 {
        None
    } else if props.last().0 == name {
        Some(props.last().2)
    } else {
        last_value(props.drop_last(), name)
    }
}

/// The text of a property: empty where the property or its value is absent.
pub open spec fn text_of(value: Option<Option<Seq<char>>>) -> Seq<char> {
    match value {
        Some(Some(text)) => text,
        _ => Seq::empty(),
    }
}

/// The value of a property, if the property is there and has one.
pub open spec fn value_of(value: Option<Option<Seq<char>>>) -> Option<Seq<char>> {
    match value {
        Some(Some(text)) => Some(text),
        _ => None,
    }
}

/// The model of `Fields`.
pub struct FieldsView {
    pub desc: Seq<char>,
    pub uid: Seq<char>,
    pub title: Seq<char>,
    pub start: Option<Seq<char>>,
    pub has_end: bool,
    pub end: Option<Seq<char>>,
    pub busy: Seq<char>,
    pub rule: Option<Seq<char>>,
}

/// The properties of a raw record that the conversion reads, still as text.
#[derive(Debug)]
pub struct Fields {
    pub desc: String,
    pub uid: String,
    pub title: String,
    /// The start date string.
    pub start: Option<String>,
    /// Whether the record has an end property.
    pub has_end: bool,
    /// The end date string.
    pub end: Option<String>,
    /// The busy status.
    pub busy: String,
    /// The recurrence rule.
    pub rule: Option<String>,
}

impl View for Fields {
    type V = FieldsView;

    open spec fn view(&self) -> FieldsView {
        FieldsView {
            desc: self.desc@,
            uid: self.uid@,
            title: self.title@,
            start: self.start.deep_view(),
            has_end: self.has_end,
            end: self.end.deep_view(),
            busy: self.busy@,
            rule: self.rule.deep_view(),
        }
    }
}

/// The fields of a record with the properties `props`.
pub open spec fn fields_of(props: Seq<PropertyModel>) -> FieldsView {
    FieldsView {
        desc: text_of(last_value(props, "DESCRIPTION"@)),
        uid: text_of(last_value(props, "UID"@)),
        title: text_of(last_value(props, "SUMMARY"@)),
        start: value_of(last_value(props, "DTSTART"@)),
        has_end: last_value(props, "DTEND"@) is Some,
        end: value_of(last_value(props, "DTEND"@)),
        busy: text_of(last_value(props, "X-MICROSOFT-CDO-BUSYSTATUS"@)),
        rule: value_of(last_value(props, "RRULE"@)),
    }
}

/// The template of a record's occurrences, given the instants that its start
/// and end resolved to. The description is cut off at the separator; the
/// duration is `end - start` where the record has an end property, else 0;
/// a busy status of `BUSY` confirms the occurrence, one of `OOF` marks it out
/// of office.
pub open spec fn template_from(fields: FieldsView, start: i64, end: i64) -> Occurrence {
    Occurrence {
        desc: before_first(fields.desc, SEPARATOR@),
        uid: fields.uid,
        title: fields.title,
        start,
        duration: if fields.has_end {
            (end - start) as i64
        } else {
            0
        },
        confirmed: fields.busy == "BUSY"@,
        oof: fields.busy == "OOF"@,
    }
}

/// The instant of an optional date string: 0 where there is none.
pub open spec fn date_of(text: Option<Seq<char>>) -> i64 {
    match text {
        Some(text) => unix_of_date(text),
        None => 0,
    }
}

/// The template and the recurrence rule of the record `event`.
pub open spec fn record_of(event: EventModel) -> (Occurrence, Option<Seq<char>>) {
    let fields = fields_of(event.0);
    (template_from(fields, date_of(fields.start), date_of(fields.end)), fields.rule)
}

/// Looks up the last property named `name`.
pub fn last_named(props: &Vec<RawProperty>, name: &str) -> (found: Option<Option<String>>)
    ensures
        found.deep_view() == last_value(props.deep_view(), name@),
{
    let ghost all = props.deep_view();
    let mut i: usize = props.len();
    assert(all.take(i as int) =~= all);
    while i > 0
        invariant
            i <= props.len(),
            all == props.deep_view(),
            last_value(all, name@) == last_value(all.take(i as int), name@),
        decreases i,
    {
        let ghost upto = all.take(i as int);
        assert(upto.last() == all[i - 1]);
        assert(upto.drop_last() =~= all.take(i - 1));
        i -= 1;
        let prop = &props[i];
        if *prop.name.as_str() == *name {
            return Some(
                match &prop.value {
                    Some(text) => Some(text.clone()),
                    None => None,
                },
            );
        }
    }
    None
}

fn text_or_empty(value: Option<Option<String>>) -> (text: String)
    ensures
        text@ == text_of(value.deep_view()),
{
    match value {
        Some(Some(text)) => text,
        _ => String::new(),
    }
}

fn value_or_none(value: Option<Option<String>>) -> (text: Option<String>)
    ensures
        text.deep_view() == value_of(value.deep_view()),
{
    match value {
        Some(Some(text)) => Some(text),
        _ => None,
    }
}

/// Reads the fields of a raw record.
pub fn read_fields(event: &RawEvent) -> (fields: Fields)
    ensures
        fields@ == fields_of(event.deep_view().0),
{
    let props = &event.properties;
    let end = last_named(props, "DTEND");
    Fields {
        desc: text_or_empty(last_named(props, "DESCRIPTION")),
        uid: text_or_empty(last_named(props, "UID")),
        title: text_or_empty(last_named(props, "SUMMARY")),
        start: value_or_none(last_named(props, "DTSTART")),
        has_end: end.is_some(),
        end: value_or_none(end),
        busy: text_or_empty(last_named(props, "X-MICROSOFT-CDO-BUSYSTATUS")),
        rule: value_or_none(last_named(props, "RRULE")),
    }
}

/// Builds the template of a record's occurrences from its fields and from
/// the instants that its start and end resolved to, and says whether the
/// record recurs.
pub fn make_template(fields: Fields, start: i64, end: i64) -> (record: (ICSEntry, Recurrence))
    requires
        is_resolved(start as int),
        is_resolved(end as int),
    ensures
        record.0@ == template_from(fields@, start, end),
        fields.has_end ==> record.0.duration == end - start,
        record.0.well_formed(),
        record.1.deep_view() == fields@.rule,
{
    let confirmed = *fields.busy.as_str() == *"BUSY";
    let oof = *fields.busy.as_str() == *"OOF";
    let duration = if fields.has_end {
        end - start
    } else {
        0
    };
    let template = ICSEntry {
        desc: cut_at(fields.desc, SEPARATOR),
        uid: fields.uid,
        title: fields.title,
        start,
        duration,
        confirmed,
        oof,
    };
    (template, Recurrence::from_rule(fields.rule))
}

/// The instant of an optional date string.
pub fn resolve_date(text: Option<String>) -> (ts: i64)
    ensures
        ts == date_of(text.deep_view()),
        is_resolved(ts as int),
{
    match text {
        Some(text) => convert_ics_date_unix(text),
        None => 0,
    }
}

/// Reads a raw record: the template of its occurrences and its recurrence.
pub fn read_record(event: &RawEvent) -> (record: (ICSEntry, Recurrence))
    ensures
        (record.0@, record.1.deep_view()) == record_of(event.deep_view()),
        record.0.well_formed(),
{
    let mut fields = read_fields(event);
    let start = resolve_date(fields.start.take());
    let end = resolve_date(fields.end.take());
    make_template(fields, start, end)
}

} // verus!
