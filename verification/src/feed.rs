//! Raw event records, as the calendar parser hands them out.

use ical::parser::ical::component::{IcalAlarm, IcalEvent};
use ical::property::Property;
use ical::IcalParser;
use vstd::prelude::*;

verus! {

/// One named property of a raw record. The value is absent where the feed
/// gave the property no content. The parameters are kept as the feed gave
/// them; the conversion reads the name and the value only.
#[derive(Debug)]
pub struct RawProperty {
    pub name: String,
    pub params: Option<Vec<(String, Vec<String>)>>,
    pub value: Option<String>,
}

/// An alarm of a raw event record; it is kept as the feed gave it and is not
/// read by the conversion.
#[derive(Debug)]
pub struct RawAlarm {
    pub properties: Vec<RawProperty>,
}

/// A raw event record: the properties of one event of the feed, in the order
/// in which the feed gave them, and the event's alarms.
#[derive(Debug)]
pub struct RawEvent {
    pub properties: Vec<RawProperty>,
    pub alarms: Vec<RawAlarm>,
}

/// The model of a property: its name, its parameters, each with its values,
/// and its value.
pub type PropertyModel = (Seq<char>, Option<Seq<(Seq<char>, Seq<Seq<char>>)>>, Option<Seq<char>>);

/// The model of an event: its properties, and the properties of each of its
/// alarms.
pub type EventModel = (Seq<PropertyModel>, Seq<Seq<PropertyModel>>);

impl DeepView for RawProperty {
    type V = PropertyModel;

    open spec fn deep_view(&self) -> PropertyModel {
        (self.name@, self.params.deep_view(), self.value.deep_view())
    }
}

impl DeepView for RawAlarm {
    type V = Seq<PropertyModel>;

    open spec fn deep_view(&self) -> Seq<PropertyModel> {
        self.properties.deep_view()
    }
}

impl DeepView for RawEvent {
    type V = EventModel;

    open spec fn deep_view(&self) -> EventModel {
        (self.properties.deep_view(), self.alarms.deep_view())
    }
}

/// What `ical::IcalParser` yields for a calendar text, item by item: for each
/// calendar object that it reads, the events of the object, each with its
/// properties and with the properties of its alarms, a property being its
/// name, its parameters and its value; `None` for an item that it reports as
/// an error.
pub uninterp spec fn feed_documents(text: Seq<char>) -> Seq<Option<Seq<(Seq<(Seq<char>, Option<Seq<(Seq<char>, Seq<Seq<char>>)>>, Option<Seq<char>>)>, Seq<Seq<(Seq<char>, Option<Seq<(Seq<char>, Seq<Seq<char>>)>>, Option<Seq<char>>)>>)>>>;

/// Runs `ical::IcalParser` over a calendar text and hands out what it
/// yields, item by item: the events of each calendar object, with their
/// properties and alarms moved field by field into the library's records.
#[verifier::external_body]
pub(crate) fn read_documents(text: &str) -> (documents: Vec<Option<Vec<RawEvent>>>)
    ensures
        documents.deep_view() == feed_documents(text@),
{
    let property = |p: Property| RawProperty { name: p.name, params: p.params, value: p.value };
    let alarm = |a: IcalAlarm| RawAlarm {
        properties: a.properties.into_iter().map(property).collect(),
    };
    let event = |e: IcalEvent| RawEvent {
        properties: e.properties.into_iter().map(property).collect(),
        alarms: e.alarms.into_iter().map(alarm).collect(),
    };
    IcalParser::new(text.as_bytes())
        .map(|item| item.ok().map(|calendar| calendar.events.into_iter().map(event).collect()))
        .collect()
}

/// The events of the documents that were read without error, in order.
pub open spec fn events_of(documents: Seq<Option<Seq<EventModel>>>) -> Seq<EventModel>
    decreases documents.len(),
{
    if documents.len() == 0 {
        Seq::empty()
    } else {
        let before = events_of(documents.drop_last());
        match documents.last() {
            Some(events) => before + events,
            None => before,
        }
    }
}

/// Gathers the events of the documents that were read without error; a
/// document that failed to parse is skipped.
pub fn collect_events(documents: Vec<Option<Vec<RawEvent>>>) -> (events: Vec<RawEvent>)
    ensures
        events.deep_view() == events_of(documents.deep_view()),
{
    let ghost all = documents.deep_view();
    let mut events: Vec<RawEvent> = Vec::new();
    let mut documents = documents;
    let mut i: usize = 0;
    assert(all.take(0) =~= Seq::empty());
    while i < documents.len()
        invariant
            i <= documents.len(),
            documents.len() == all.len(),
            forall|k: int| i <= k < documents.len() ==> (#[trigger] documents[k]).deep_view() == all[k],
            events.deep_view() == events_of(all.take(i as int)),
        decreases documents.len() - i,
    {
        let ghost before = events.deep_view();
        assert(all.take(i + 1).drop_last() =~= all.take(i as int));
        assert(all.take(i + 1).last() == all[i as int]);
        let mut found: Option<Vec<RawEvent>> = None;
        std::mem::swap(&mut documents[i], &mut found);
        match found {
            Some(mut more) => {
                let ghost added = more.deep_view();
                events.append(&mut more);
                assert(events.deep_view() =~= before + added);
            },
            None => {},
        }
        i += 1;
    }
    assert(all.take(i as int) =~= all);
    events
}

/// Parses a calendar text into its raw event records.
pub fn parse_feed(text: &str) -> (events: Vec<RawEvent>)
    ensures
        events.deep_view() == events_of(feed_documents(text@)),
{
    collect_events(read_documents(text))
}

} // verus!
