//! The cache store's decisions: what a request does next.
//!
//! A request runs as a conversation. The pipeline names an action (read an
//! artifact, fetch the feed, write an artifact), whoever drives it performs
//! the action and reports the outcome as an event, and the pipeline names the
//! next action, until it finishes with the reply. The pipeline itself touches
//! neither the network nor the disk.

use vstd::pervasive::{arbitrary, unreached};
use vstd::prelude::*;
use crate::convert::{convert, normalized};
use crate::datetime::MAX_TIMESTAMP;
use crate::entry::{all_well_formed, are_well_formed, copy_entries, ICSEntry, Occurrence};
use crate::feed::{events_of, feed_documents, parse_feed, EventModel, RawEvent};
use crate::filter::{filter_ics_entries, shown_to};
use crate::settings::Settings;

verus! {

/// The freshness threshold: cached data is served for 24 hours.
pub const FRESH_SECONDS: u64 = 86_400;

/// The status of a feed response that carries a calendar.
pub const STATUS_OK: u16 = 200;

/// The status under which every failure but a feed's own is reported.
pub const STATUS_NOT_FOUND: u16 = 404;

/// The message of the failure to find a feed URL in the settings.
pub const NO_URL: &'static str = "No ICS URL set";

/// The file of the settings record, in the data directory.
pub const SETTINGS_FILE: &'static str = "settings.json";

/// The file of the `meta` artifact.
pub const META_FILE: &'static str = "ics_ts.json";

/// The file of the `raw` artifact.
pub const RAW_FILE: &'static str = "ics_raw.json";

/// The file of the `normalized` artifact.
pub const NORMALIZED_FILE: &'static str = "ics.json";

/// The seconds after which a request to the feed is given up.
pub const FETCH_TIMEOUT_SECONDS: u64 = 10;

/// The user agent under which the feed is asked.
pub const FETCH_USER_AGENT: &'static str =
    "Mozilla/5.0 (X11; Linux x86_64; rv:109.0) Gecko/20100101 Firefox/110.0";

/// The host header under which the feed is asked.
pub const FETCH_HOST: &'static str = "outlook.office365.com";

/// The record of the last successful fetch.
#[derive(Clone, Copy, Debug, PartialEq, Eq, Structural)]
pub struct FetchMeta {
    pub timestamp: u64,
}

impl Default for FetchMeta {
    /// The record that stands in for a missing or corrupt one.
    fn default() -> (meta: Self)
        ensures
            meta.timestamp == 0,
    {
        FetchMeta { timestamp: 0 }
    }
}

/// Data fetched at `timestamp` is fresh at `now`: less than 24 hours old.
pub open spec fn fresh(timestamp: u64, now: u64) -> bool {
    now - timestamp < FRESH_SECONDS
}

impl FetchMeta {
    /// Whether the cache that this record belongs to is fresh at `now`.
    pub fn is_fresh(&self, now: u64) -> (is: bool)
        ensures
            is == fresh(self.timestamp, now),
    {
        self.timestamp >= now || now - self.timestamp < FRESH_SECONDS
    }
}

/// What a request asks for: all occurrences, those of a month, or those of a
/// day of a month.
#[derive(Clone, Copy, Debug, PartialEq, Eq, Structural)]
pub struct Request {
    pub month: Option<u64>,
    pub day: Option<u64>,
}

impl Request {
    /// The request for all occurrences.
    pub fn full() -> (request: Request)
        ensures
            request == (Request { month: None, day: None }),
    {
        Request { month: None, day: None }
    }

    /// The request for the occurrences of a month.
    pub fn of_month(month: u64) -> (request: Request)
        ensures
            request == (Request { month: Some(month), day: None }),
    {
        Request { month: Some(month), day: None }
    }

    /// The request for the occurrences of a day of a month.
    pub fn of_month_day(month: u64, day: u64) -> (request: Request)
        ensures
            request == (Request { month: Some(month), day: Some(day) }),
    {
        Request { month: Some(month), day: Some(day) }
    }
}

/// The model of `PipelineError`.
pub enum Failure {
    SettingsMissingOrInvalid(Seq<char>),
    FetchTransportError(Seq<char>),
    FetchStatusError(u16, Seq<char>),
    CacheArtifactCorruptOrMissing(Seq<char>),
    CacheWriteFailure(Seq<char>),
}

impl Failure {
    /// The status under which the failure is reported: a feed's own status
    /// where the feed answered with one, else 404.
    pub open spec fn status(self) -> u16 {
        match self {
            Failure::FetchStatusError(code, _) => code,
            _ => STATUS_NOT_FOUND,
        }
    }

    /// The message of the failure: the body of the feed's answer, or the
    /// cause as it was reported.
    pub open spec fn message(self) -> Seq<char> {
        match self {
            Failure::SettingsMissingOrInvalid(message) => message,
            Failure::FetchTransportError(message) => message,
            Failure::FetchStatusError(_, body) => body,
            Failure::CacheArtifactCorruptOrMissing(message) => message,
            Failure::CacheWriteFailure(message) => message,
        }
    }
}

/// Why a request failed. Every failure is fatal to the request: no partial
/// result is returned.
#[derive(Debug)]
pub enum PipelineError {
    /// The settings could not be read, or hold no feed URL.
    SettingsMissingOrInvalid(String),
    /// The feed could not be reached.
    FetchTransportError(String),
    /// The feed answered with a status other than 200; the status and the
    /// body are kept verbatim.
    FetchStatusError(u16, String),
    /// The normalized artifact could not be read although the cache is fresh.
    CacheArtifactCorruptOrMissing(String),
    /// An artifact could not be written.
    CacheWriteFailure(String),
}

impl View for PipelineError {
    type V = Failure;

    open spec fn view(&self) -> Failure {
        match self {
            PipelineError::SettingsMissingOrInvalid(message) => Failure::SettingsMissingOrInvalid(
                message@,
            ),
            PipelineError::FetchTransportError(message) => Failure::FetchTransportError(message@),
            PipelineError::FetchStatusError(code, body) => Failure::FetchStatusError(*code, body@),
            PipelineError::CacheArtifactCorruptOrMissing(message) => Failure::CacheArtifactCorruptOrMissing(
                message@,
            ),
            PipelineError::CacheWriteFailure(message) => Failure::CacheWriteFailure(message@),
        }
    }
}

impl PipelineError {
    /// The status of the status/message pair under which the failure
    /// surfaces.
    pub fn status(&self) -> (code: u16)
        ensures
            code == self@.status(),
    {
        match self {
            PipelineError::FetchStatusError(code, _) => *code,
            _ => STATUS_NOT_FOUND,
        }
    }

    /// The message of the status/message pair under which the failure
    /// surfaces.
    pub fn message(&self) -> (text: String)
        ensures
            text@ == self@.message(),
    {
        match self {
            PipelineError::SettingsMissingOrInvalid(message) => message.clone(),
            PipelineError::FetchTransportError(message) => message.clone(),
            PipelineError::FetchStatusError(_, body) => body.clone(),
            PipelineError::CacheArtifactCorruptOrMissing(message) => message.clone(),
            PipelineError::CacheWriteFailure(message) => message.clone(),
        }
    }
}

/// The model of `Event`.
pub enum EventView {
    Begin,
    Settings(Result<(Seq<char>, Seq<Seq<char>>), Seq<char>>),
    Meta(Option<u64>),
    Normalized(Result<Seq<Occurrence>, Seq<char>>),
    Feed(Result<(u16, Seq<char>), Seq<char>>),
    Written(Result<(), Seq<char>>),
}

/// What the driver reports to the pipeline.
#[derive(Debug)]
pub enum Event {
    /// The request arrived.
    Begin,
    /// The settings record, or why it could not be read.
    Settings(Result<Settings, String>),
    /// The timestamp of the `meta` artifact; `None` where the artifact is
    /// missing or corrupt.
    Meta(Option<u64>),
    /// The `normalized` artifact, or why it could not be read.
    Normalized(Result<Vec<ICSEntry>, String>),
    /// The status and the body of the feed's answer, or why the feed could
    /// not be reached.
    Feed(Result<(u16, String), String>),
    /// The artifact was written, or why it could not be.
    Written(Result<(), String>),
}

impl View for Event {
    type V = EventView;

    open spec fn view(&self) -> EventView {
        match self {
            Event::Begin => EventView::Begin,
            Event::Settings(Ok(settings)) => EventView::Settings(
                Ok((settings.ics_url@, settings.ics_filter.deep_view())),
            ),
            Event::Settings(Err(message)) => EventView::Settings(Err(message@)),
            Event::Meta(timestamp) => EventView::Meta(*timestamp),
            Event::Normalized(Ok(entries)) => EventView::Normalized(Ok(entries.deep_view())),
            Event::Normalized(Err(message)) => EventView::Normalized(Err(message@)),
            Event::Feed(Ok((status, body))) => EventView::Feed(Ok((*status, body@))),
            Event::Feed(Err(message)) => EventView::Feed(Err(message@)),
            Event::Written(Ok(_)) => EventView::Written(Ok(())),
            Event::Written(Err(message)) => EventView::Written(Err(message@)),
        }
    }
}

/// The model of `Action`.
pub enum ActionView {
    ReadSettings,
    ReadMeta,
    ReadNormalized,
    FetchFeed(Seq<char>),
    WriteRaw(Seq<EventModel>),
    WriteNormalized(Seq<Occurrence>),
    WriteMeta(u64),
    Finish(Result<Seq<Occurrence>, Failure>),
}

/// What the pipeline asks the driver to do.
#[derive(Debug)]
pub enum Action {
    /// Read the settings record.
    ReadSettings,
    /// Read the `meta` artifact.
    ReadMeta,
    /// Read the `normalized` artifact.
    ReadNormalized,
    /// Fetch the feed at this URL.
    FetchFeed(String),
    /// Replace the `raw` artifact by these records.
    WriteRaw(Vec<RawEvent>),
    /// Replace the `normalized` artifact by these occurrences.
    WriteNormalized(Vec<ICSEntry>),
    /// Replace the `meta` artifact by this timestamp.
    WriteMeta(u64),
    /// Answer the request; the conversation is over.
    Finish(Result<Vec<ICSEntry>, PipelineError>),
}

impl View for Action {
    type V = ActionView;

    open spec fn view(&self) -> ActionView {
        match self {
            Action::ReadSettings => ActionView::ReadSettings,
            Action::ReadMeta => ActionView::ReadMeta,
            Action::ReadNormalized => ActionView::ReadNormalized,
            Action::FetchFeed(url) => ActionView::FetchFeed(url@),
            Action::WriteRaw(events) => ActionView::WriteRaw(events.deep_view()),
            Action::WriteNormalized(entries) => ActionView::WriteNormalized(entries.deep_view()),
            Action::WriteMeta(timestamp) => ActionView::WriteMeta(*timestamp),
            Action::Finish(Ok(entries)) => ActionView::Finish(Ok(entries.deep_view())),
            Action::Finish(Err(error)) => ActionView::Finish(Err(error@)),
        }
    }
}

/// The model of a pipeline's stage: what it waits for, and what it holds
/// meanwhile.
pub enum StageView {
    Start,
    AwaitSettings,
    AwaitMeta { url: Seq<char>, exclusions: Seq<Seq<char>> },
    AwaitNormalized { exclusions: Seq<Seq<char>> },
    AwaitFeed { exclusions: Seq<Seq<char>> },
    AwaitRawWritten { entries: Seq<Occurrence>, exclusions: Seq<Seq<char>> },
    AwaitNormalizedWritten { entries: Seq<Occurrence>, exclusions: Seq<Seq<char>> },
    AwaitMetaWritten { entries: Seq<Occurrence>, exclusions: Seq<Seq<char>> },
    Done,
}

#[derive(Debug)]
enum Stage {
    Start,
    AwaitSettings,
    AwaitMeta { url: String, exclusions: Vec<String> },
    AwaitNormalized { exclusions: Vec<String> },
    AwaitFeed { exclusions: Vec<String> },
    AwaitRawWritten { entries: Vec<ICSEntry>, exclusions: Vec<String> },
    AwaitNormalizedWritten { entries: Vec<ICSEntry>, exclusions: Vec<String> },
    AwaitMetaWritten { entries: Vec<ICSEntry>, exclusions: Vec<String> },
    Done,
}

impl View for Stage {
    type V = StageView;

    closed spec fn view(&self) -> StageView {
        match self {
            Stage::Start => StageView::Start,
            Stage::AwaitSettings => StageView::AwaitSettings,
            Stage::AwaitMeta { url, exclusions } => StageView::AwaitMeta {
                url: url@,
                exclusions: exclusions.deep_view(),
            },
            Stage::AwaitNormalized { exclusions } => StageView::AwaitNormalized {
                exclusions: exclusions.deep_view(),
            },
            Stage::AwaitFeed { exclusions } => StageView::AwaitFeed {
                exclusions: exclusions.deep_view(),
            },
            Stage::AwaitRawWritten { entries, exclusions } => StageView::AwaitRawWritten {
                entries: entries.deep_view(),
                exclusions: exclusions.deep_view(),
            },
            Stage::AwaitNormalizedWritten { entries, exclusions } => StageView::AwaitNormalizedWritten {
                entries: entries.deep_view(),
                exclusions: exclusions.deep_view(),
            },
            Stage::AwaitMetaWritten { entries, exclusions } => StageView::AwaitMetaWritten {
                entries: entries.deep_view(),
                exclusions: exclusions.deep_view(),
            },
            Stage::Done => StageView::Done,
        }
    }
}

/// The model of a pipeline: the request it serves, the time at which it
/// serves it, and its stage.
pub struct PipelineView {
    pub request: Request,
    pub now: u64,
    pub stage: StageView,
}

impl PipelineView {
    /// The pipeline of a request that arrives at `now`.
    pub open spec fn start(request: Request, now: u64) -> PipelineView {
        PipelineView { request, now, stage: StageView::Start }
    }

    /// `now` is a resolved instant, and so is the start of every occurrence
    /// that the pipeline holds.
    pub open spec fn well_formed(self) -> bool {
        &&& self.now <= MAX_TIMESTAMP
        &&& match self.stage {
            StageView::AwaitRawWritten { entries, .. } => all_well_formed(entries),
            StageView::AwaitNormalizedWritten { entries, .. } => all_well_formed(entries),
            StageView::AwaitMetaWritten { entries, .. } => all_well_formed(entries),
            _ => true,
        }
    }

    /// `event` is the kind of event that the pipeline waits for, and the
    /// occurrences that it brings, if any, are well formed.
    pub open spec fn awaits(self, event: EventView) -> bool {
        match self.stage {
            StageView::Start => event is Begin,
            StageView::AwaitSettings => event is Settings,
            StageView::AwaitMeta { .. } => event is Meta,
            StageView::AwaitNormalized { .. } => match event {
                EventView::Normalized(Ok(entries)) => all_well_formed(entries),
                EventView::Normalized(Err(_)) => true,
                _ => false,
            },
            StageView::AwaitFeed { .. } => event is Feed,
            StageView::AwaitRawWritten { .. } => event is Written,
            StageView::AwaitNormalizedWritten { .. } => event is Written,
            StageView::AwaitMetaWritten { .. } => event is Written,
            StageView::Done => false,
        }
    }

    /// What the request sees of `entries`.
    pub open spec fn reply(self, entries: Seq<Occurrence>, exclusions: Seq<Seq<char>>) -> ActionView {
        ActionView::Finish(
            Ok(entries.filter(shown_to(self.request.month, self.request.day, exclusions))),
        )
    }

    /// The stage that follows on `event`, and the action that the pipeline
    /// asks for. Nothing is said of an event that the pipeline does not wait
    /// for.
    pub open spec fn next(self, event: EventView) -> (StageView, ActionView) {
        match (self.stage, event) {
            (StageView::Start, EventView::Begin) => (
                StageView::AwaitSettings,
                ActionView::ReadSettings,
            ),
            (StageView::AwaitSettings, EventView::Settings(Err(message))) => (
                StageView::Done,
                ActionView::Finish(Err(Failure::SettingsMissingOrInvalid(message))),
            ),
            (StageView::AwaitSettings, EventView::Settings(Ok((url, exclusions)))) => if url.len()
                == 0 {
                (
                    StageView::Done,
                    ActionView::Finish(Err(Failure::SettingsMissingOrInvalid(NO_URL@))),
                )
            } else {
                (StageView::AwaitMeta { url, exclusions }, ActionView::ReadMeta)
            },
            (StageView::AwaitMeta { url, exclusions }, EventView::Meta(timestamp)) => if fresh(
                match timestamp {
                    Some(at) => at,
                    None => 0,
                },
                self.now,
            ) {
                (StageView::AwaitNormalized { exclusions }, ActionView::ReadNormalized)
            } else {
                (StageView::AwaitFeed { exclusions }, ActionView::FetchFeed(url))
            },
            (StageView::AwaitNormalized { exclusions }, EventView::Normalized(Err(message))) => (
                StageView::Done,
                ActionView::Finish(Err(Failure::CacheArtifactCorruptOrMissing(message))),
            ),
            (StageView::AwaitNormalized { exclusions }, EventView::Normalized(Ok(entries))) => (
                StageView::Done,
                self.reply(entries, exclusions),
            ),
            (StageView::AwaitFeed { exclusions }, EventView::Feed(Err(message))) => (
                StageView::Done,
                ActionView::Finish(Err(Failure::FetchTransportError(message))),
            ),
            (StageView::AwaitFeed { exclusions }, EventView::Feed(Ok((status, body)))) => if status
                != STATUS_OK {
                (StageView::Done, ActionView::Finish(Err(Failure::FetchStatusError(status, body))))
            } else {
                let events = events_of(feed_documents(body));
                (
                    StageView::AwaitRawWritten {
                        entries: normalized(events, self.now as int),
                        exclusions,
                    },
                    ActionView::WriteRaw(events),
                )
            },
            (StageView::AwaitRawWritten { entries, exclusions }, EventView::Written(Ok(_))) => (
                StageView::AwaitNormalizedWritten { entries, exclusions },
                ActionView::WriteNormalized(entries),
            ),
            (
                StageView::AwaitNormalizedWritten { entries, exclusions },
                EventView::Written(Ok(_)),
            ) => (
                StageView::AwaitMetaWritten { entries, exclusions },
                ActionView::WriteMeta(self.now),
            ),
            (StageView::AwaitMetaWritten { entries, exclusions }, EventView::Written(Ok(_))) => (
                StageView::Done,
                self.reply(entries, exclusions),
            ),
            (_, EventView::Written(Err(message))) => (
                StageView::Done,
                ActionView::Finish(Err(Failure::CacheWriteFailure(message))),
            ),
            _ => arbitrary(),
        }
    }

    /// The pipeline after `event`.
    pub open spec fn after(self, event: EventView) -> PipelineView {
        PipelineView { stage: self.next(event).0, ..self }
    }
}

/// The decisions of one request's run through the cache store.
#[derive(Debug)]
pub struct Pipeline {
    request: Request,
    now: u64,
    stage: Stage,
}

impl View for Pipeline {
    type V = PipelineView;

    closed spec fn view(&self) -> PipelineView {
        PipelineView { request: self.request, now: self.now, stage: self.stage@ }
    }
}

impl Pipeline {
    /// The pipeline of a request that arrives at `now`. It waits for
    /// `Event::Begin`.
    pub fn new(request: Request, now: u64) -> (pipeline: Pipeline)
        requires
            now <= MAX_TIMESTAMP,
        ensures
            pipeline@ == PipelineView::start(request, now),
            pipeline@.well_formed(),
    {
        Pipeline { request, now, stage: Stage::Start }
    }

    /// Whether the conversation is over.
    pub fn is_done(&self) -> (done: bool)
        ensures
            done == (self@.stage is Done),
    {
        match self.stage {
            Stage::Done => true,
            _ => false,
        }
    }

    /// Whether `event` is one that the pipeline can take now: of the kind
    /// that it waits for, and bringing well-formed occurrences only.
    pub fn expects(&self, event: &Event) -> (expected: bool)
        ensures
            expected == self@.awaits(event@),
    {
        match (&self.stage, event) {
            (Stage::Start, Event::Begin) => true,
            (Stage::AwaitSettings, Event::Settings(_)) => true,
            (Stage::AwaitMeta { .. }, Event::Meta(_)) => true,
            (Stage::AwaitNormalized { .. }, Event::Normalized(Ok(entries))) => are_well_formed(
                entries,
            ),
            (Stage::AwaitNormalized { .. }, Event::Normalized(Err(_))) => true,
            (Stage::AwaitFeed { .. }, Event::Feed(_)) => true,
            (Stage::AwaitRawWritten { .. }, Event::Written(_)) => true,
            (Stage::AwaitNormalizedWritten { .. }, Event::Written(_)) => true,
            (Stage::AwaitMetaWritten { .. }, Event::Written(_)) => true,
            _ => false,
        }
    }

    /// Takes the outcome of the last action and names the next one. The
    /// conversation is over with `Action::Finish`.
    ///
    /// The cache is consulted first: where the `meta` artifact says that the
    /// last fetch is less than 24 hours old, the `normalized` artifact is
    /// read and the request sees its part of it. Otherwise the feed is
    /// fetched, parsed and converted, the three artifacts are written (`raw`,
    /// `normalized`, then `meta`), and the request sees its part of the fresh
    /// set. The first failure ends the conversation.
    pub fn step(self, event: Event) -> (next: (Pipeline, Action))
        requires
            self@.well_formed(),
            self@.awaits(event@),
        ensures
            (next.0@.stage, next.1@) == self@.next(event@),
            next.0@ == self@.after(event@),
            next.0@.well_formed(),
            (next.1@ is Finish) == (next.0@.stage is Done),
    {
        let Pipeline { request, now, stage } = self;
        let (stage, action) = match stage {
            Stage::Start => match event {
                Event::Begin => (Stage::AwaitSettings, Action::ReadSettings),
                _ => unreached(),
            },
            Stage::AwaitSettings => match event {
                Event::Settings(Err(message)) => (
                    Stage::Done,
                    Action::Finish(Err(PipelineError::SettingsMissingOrInvalid(message))),
                ),
                Event::Settings(Ok(settings)) => {
                    if settings.ics_url.as_str().is_empty() {
                        let message = String::from_str(NO_URL);
                        (
                            Stage::Done,
                            Action::Finish(Err(PipelineError::SettingsMissingOrInvalid(message))),
                        )
                    } else {
                        (
                            Stage::AwaitMeta {
                                url: settings.ics_url,
                                exclusions: settings.ics_filter,
                            },
                            Action::ReadMeta,
                        )
                    }
                },
                _ => unreached(),
            },
            Stage::AwaitMeta { url, exclusions } => match event {
                Event::Meta(timestamp) => {
                    let meta = match timestamp {
                        Some(at) => FetchMeta { timestamp: at },
                        None => FetchMeta::default(),
                    };
                    if meta.is_fresh(now) {
                        (Stage::AwaitNormalized { exclusions }, Action::ReadNormalized)
                    } else {
                        (Stage::AwaitFeed { exclusions }, Action::FetchFeed(url))
                    }
                },
                _ => unreached(),
            },
            Stage::AwaitNormalized { exclusions } => match event {
                Event::Normalized(Err(message)) => (
                    Stage::Done,
                    Action::Finish(Err(PipelineError::CacheArtifactCorruptOrMissing(message))),
                ),
                Event::Normalized(Ok(entries)) => {
                    let shown = filter_ics_entries(entries, request.month, request.day, &exclusions);
                    (Stage::Done, Action::Finish(Ok(shown)))
                },
                _ => unreached(),
            },
            Stage::AwaitFeed { exclusions } => match event {
                Event::Feed(Err(message)) => (
                    Stage::Done,
                    Action::Finish(Err(PipelineError::FetchTransportError(message))),
                ),
                Event::Feed(Ok((status, body))) => {
                    if status != STATUS_OK {
                        (
                            Stage::Done,
                            Action::Finish(Err(PipelineError::FetchStatusError(status, body))),
                        )
                    } else {
                        let events = parse_feed(body.as_str());
                        let entries = convert(&events, now);
                        (Stage::AwaitRawWritten { entries, exclusions }, Action::WriteRaw(events))
                    }
                },
                _ => unreached(),
            },
            Stage::AwaitRawWritten { entries, exclusions } => match event {
                Event::Written(Ok(_)) => {
                    let copy = copy_entries(&entries);
                    (
                        Stage::AwaitNormalizedWritten { entries, exclusions },
                        Action::WriteNormalized(copy),
                    )
                },
                Event::Written(Err(message)) => (
                    Stage::Done,
                    Action::Finish(Err(PipelineError::CacheWriteFailure(message))),
                ),
                _ => unreached(),
            },
            Stage::AwaitNormalizedWritten { entries, exclusions } => match event {
                Event::Written(Ok(_)) => (
                    Stage::AwaitMetaWritten { entries, exclusions },
                    Action::WriteMeta(now),
                ),
                Event::Written(Err(message)) => (
                    Stage::Done,
                    Action::Finish(Err(PipelineError::CacheWriteFailure(message))),
                ),
                _ => unreached(),
            },
            Stage::AwaitMetaWritten { entries, exclusions } => match event {
                Event::Written(Ok(_)) => {
                    let shown = filter_ics_entries(entries, request.month, request.day, &exclusions);
                    (Stage::Done, Action::Finish(Ok(shown)))
                },
                Event::Written(Err(message)) => (
                    Stage::Done,
                    Action::Finish(Err(PipelineError::CacheWriteFailure(message))),
                ),
                _ => unreached(),
            },
            Stage::Done => unreached(),
        };
        (Pipeline { request, now, stage }, action)
    }
}

} // verus!
