//! The cache store as a request sees it: a model of the three artifacts, of a
//! driver that performs the pipeline's actions faithfully, and what follows
//! for a request's run.

use vstd::prelude::*;
use crate::convert::normalized;
use crate::entry::Occurrence;
use crate::feed::{events_of, feed_documents, EventModel};
use crate::pipeline::{fresh, ActionView, EventView, PipelineView, Request, STATUS_OK};

verus! {

/// The three persisted artifacts; `None` stands for one that is missing or
/// corrupt.
pub struct CacheView {
    /// The time of the last successful fetch.
    pub meta: Option<u64>,
    /// The raw records of the last fetch.
    pub raw: Option<Seq<EventModel>>,
    /// The unfiltered occurrences of the last fetch.
    pub normalized: Option<Seq<Occurrence>>,
}

/// What lies outside the cache while a request runs.
pub struct Surroundings {
    /// The feed URL and the title exclusions of the settings record, or why
    /// the record cannot be read.
    pub settings: Result<(Seq<char>, Seq<Seq<char>>), Seq<char>>,
    /// What fetching the feed gives.
    pub feed: Result<(u16, Seq<char>), Seq<char>>,
    /// What reading a missing artifact reports.
    pub missing: Seq<char>,
}

/// The cache after a faithful driver performed `action`, and the event that
/// the driver reports. Writes replace a whole artifact and succeed.
pub open spec fn performed(cache: CacheView, around: Surroundings, action: ActionView) -> (
    CacheView,
    EventView,
) {
    match action {
        ActionView::ReadSettings => (cache, EventView::Settings(around.settings)),
        ActionView::ReadMeta => (cache, EventView::Meta(cache.meta)),
        ActionView::ReadNormalized => (
            cache,
            EventView::Normalized(
                match cache.normalized {
                    Some(entries) => Ok(entries),
                    None => Err(around.missing),
                },
            ),
        ),
        ActionView::FetchFeed(_) => (cache, EventView::Feed(around.feed)),
        ActionView::WriteRaw(events) => (
            CacheView { raw: Some(events), ..cache },
            EventView::Written(Ok(())),
        ),
        ActionView::WriteNormalized(entries) => (
            CacheView { normalized: Some(entries), ..cache },
            EventView::Written(Ok(())),
        ),
        ActionView::WriteMeta(timestamp) => (
            CacheView { meta: Some(timestamp), ..cache },
            EventView::Written(Ok(())),
        ),
        ActionView::Finish(_) => (cache, EventView::Begin),
    }
}

/// A request's run: the actions that the pipeline asked for, in order, and
/// the cache that the run leaves behind.
pub struct Run {
    pub actions: Seq<ActionView>,
    pub cache: CacheView,
}

impl Run {
    /// The run asked for the feed.
    pub open spec fn fetched(self) -> bool {
        exists|i: int| 0 <= i < self.actions.len() && (#[trigger] self.actions[i]) is FetchFeed
    }
}

/// The run of `pipeline` from `event` on, for at most `steps` actions.
pub open spec fn run(
    pipeline: PipelineView,
    event: EventView,
    cache: CacheView,
    around: Surroundings,
    steps: nat,
) -> Run
    decreases steps,
{
    if steps == 0 {
        Run { actions: Seq::empty(), cache }
    } else {
        let action = pipeline.next(event).1;
        if action is Finish {
            Run { actions: seq![action], cache }
        } else {
            let (changed, report) = performed(cache, around, action);
            let rest = run(pipeline.after(event), report, changed, around, (steps - 1) as nat);
            Run { actions: seq![action] + rest.actions, cache: rest.cache }
        }
    }
}

/// The whole run of a request that arrives at `now`. No run takes more than
/// seven actions.
pub open spec fn served(
    request: Request,
    now: u64,
    cache: CacheView,
    around: Surroundings,
) -> Run {
    run(PipelineView::start(request, now), EventView::Begin, cache, around, 7)
}

/// Every run comes to an answer: whatever the cache holds and whatever lies
/// around it, the last action of a request's run is `Finish`, and no action
/// before it is.
pub proof fn law_every_run_finishes(
    request: Request,
    now: u64,
    cache: CacheView,
    around: Surroundings,
)
    ensures
        ({
            let done = served(request, now, cache, around);
            &&& 0 < done.actions.len() <= 7
            &&& done.actions.last() is Finish
            &&& forall|i: int|
                0 <= i < done.actions.len() - 1 ==> !((#[trigger] done.actions[i]) is Finish)
        }),
{
    reveal_with_fuel(run, 8);
}

/// A fresh cache is served as it is: where the last fetch is less than 24
/// hours old and the normalized artifact is there, the run reads the
/// settings, the meta record and the normalized artifact, asks for no fetch,
/// writes nothing, and answers with the request's part of the artifact.
pub proof fn law_fresh_cache_is_served(
    request: Request,
    now: u64,
    cache: CacheView,
    around: Surroundings,
)
    requires
        around.settings matches Ok(found) && found.0.len() > 0,
        cache.meta matches Some(timestamp) && fresh(timestamp, now),
        cache.normalized is Some,
    ensures
        served(request, now, cache, around).actions == seq![
            ActionView::ReadSettings,
            ActionView::ReadMeta,
            ActionView::ReadNormalized,
            PipelineView::start(request, now).reply(
                cache.normalized->0,
                around.settings->Ok_0.1,
            ),
        ],
        served(request, now, cache, around).cache == cache,
        !served(request, now, cache, around).fetched(),
{
    reveal_with_fuel(run, 5);
    let done = served(request, now, cache, around);
    let expected = seq![
        ActionView::ReadSettings,
        ActionView::ReadMeta,
        ActionView::ReadNormalized,
        PipelineView::start(request, now).reply(cache.normalized->0, around.settings->Ok_0.1),
    ];
    assert(done.actions =~= expected);
    assert forall|i: int| 0 <= i < done.actions.len() implies !((#[trigger] done.actions[i])
        is FetchFeed) by {
        assert(done.actions[i] == expected[i]);
    }
}

/// A stale cache is refreshed: where the last fetch is 24 hours old or more,
/// or unknown, and the feed answers with status 200, the run fetches the
/// feed, replaces the raw artifact by the feed's records, the normalized
/// artifact by their conversion and the meta record by `now`, in that order,
/// and answers with the request's part of the fresh set.
pub proof fn law_stale_cache_is_refreshed(
    request: Request,
    now: u64,
    cache: CacheView,
    around: Surroundings,
)
    requires
        around.settings matches Ok(found) && found.0.len() > 0,
        !fresh(
            match cache.meta {
                Some(timestamp) => timestamp,
                None => 0,
            },
            now,
        ),
        around.feed matches Ok(answer) && answer.0 == STATUS_OK,
    ensures
        ({
            let events = events_of(feed_documents(around.feed->Ok_0.1));
            let entries = normalized(events, now as int);
            let done = served(request, now, cache, around);
            &&& done.actions == seq![
                ActionView::ReadSettings,
                ActionView::ReadMeta,
                ActionView::FetchFeed(around.settings->Ok_0.0),
                ActionView::WriteRaw(events),
                ActionView::WriteNormalized(entries),
                ActionView::WriteMeta(now),
                PipelineView::start(request, now).reply(entries, around.settings->Ok_0.1),
            ]
            &&& done.cache == (CacheView {
                meta: Some(now),
                raw: Some(events),
                normalized: Some(entries),
            })
        }),
{
    reveal_with_fuel(run, 8);
    let events = events_of(feed_documents(around.feed->Ok_0.1));
    let entries = normalized(events, now as int);
    let done = served(request, now, cache, around);
    assert(done.actions =~= seq![
        ActionView::ReadSettings,
        ActionView::ReadMeta,
        ActionView::FetchFeed(around.settings->Ok_0.0),
        ActionView::WriteRaw(events),
        ActionView::WriteNormalized(entries),
        ActionView::WriteMeta(now),
        PipelineView::start(request, now).reply(entries, around.settings->Ok_0.1),
    ]);
}

/// Cache freshness: a request that arrives less than 24 hours after a
/// successful fetch asks for no fetch and gets the answer that the request
/// which fetched got, as long as it asks for the same and the settings are
/// the same. What the feed would give by then does not matter.
pub proof fn law_second_request_is_served_from_cache(
    request: Request,
    now: u64,
    later: u64,
    cache: CacheView,
    around: Surroundings,
    around_later: Surroundings,
)
    requires
        around.settings matches Ok(found) && found.0.len() > 0,
        !fresh(
            match cache.meta {
                Some(timestamp) => timestamp,
                None => 0,
            },
            now,
        ),
        around.feed matches Ok(answer) && answer.0 == STATUS_OK,
        around_later.settings == around.settings,
        fresh(now, later),
    ensures
        ({
            let first = served(request, now, cache, around);
            let second = served(request, later, first.cache, around_later);
            &&& !second.fetched()
            &&& second.actions.last() == first.actions.last()
            &&& second.cache == first.cache
        }),
{
    law_stale_cache_is_refreshed(request, now, cache, around);
    let first = served(request, now, cache, around);
    law_fresh_cache_is_served(request, later, first.cache, around_later);
}

} // verus!
