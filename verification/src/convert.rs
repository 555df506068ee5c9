//! The conversion run: from the raw records of a feed to the normalized
//! occurrences, deduplicated over the whole run.

use std::collections::HashSet;
use vstd::prelude::*;
use crate::datetime::{is_resolved, MAX_TIMESTAMP};
use crate::entry::{all_well_formed, ICSEntry, Occurrence};
use crate::dedup::{
    kept, lemma_kept_concat, lemma_kept_distinct, lemma_starts_concat, offered, starts_of,
};
use crate::expand::{
    candidates, contribution, expand, law_single_record_in_window, record_starts,
};
use crate::feed::{EventModel, RawEvent};
use crate::record::{read_record, record_of, template_from, FieldsView};
use crate::recurrence::{compiled, in_window};

verus! {

/// The occurrences that the records `events` give rise to at `now`, in
/// order and before deduplication, where `outcomes` holds for each record
/// what its recurrence rule compiled to.
pub open spec fn all_candidates(
    events: Seq<EventModel>,
    outcomes: Seq<Option<Seq<i64>>>,
    now: int,
) -> Seq<Occurrence>
    decreases events.len(),
{
    if events.len() == 0 {
        Seq::empty()
    } else {
        let record = record_of(events.last());
        all_candidates(events.drop_last(), outcomes.drop_last(), now) + candidates(
            record.0,
            record_starts(record.0.start, record.1, outcomes.last(), now),
        )
    }
}

/// The normalized occurrences of the records `events` at `now`, where
/// `outcomes` holds for each record what its recurrence rule compiled to: of
/// all the occurrences that the records give rise to, the first with each
/// start.
pub open spec fn conversion(
    events: Seq<EventModel>,
    outcomes: Seq<Option<Seq<i64>>>,
    now: int,
) -> Seq<Occurrence> {
    kept(all_candidates(events, outcomes, now), Set::empty())
}

/// What the recurrence rule of each record of `events` compiles to at `now`.
pub open spec fn outcomes_of(events: Seq<EventModel>, now: int) -> Seq<Option<Seq<i64>>> {
    Seq::new(
        events.len(),
        |i: int|
            {
                let record = record_of(events[i]);
                compiled(record.1, record.0.start, now)
            },
    )
}

/// The normalized occurrences of a feed with the records `events` at `now`.
pub open spec fn normalized(events: Seq<EventModel>, now: int) -> Seq<Occurrence> {
    conversion(events, outcomes_of(events, now), now)
}

/// Converts the raw records of a feed to normalized occurrences at `now`.
/// Each record is expanded in turn; an occurrence is dropped where an earlier
/// one of this run has the same start. The result is a function of the
/// records and of `now`: the same records at the same `now` give the same
/// occurrences in the same order.
pub fn convert(input: &Vec<RawEvent>, now: u64) -> (output: Vec<ICSEntry>)
    requires
        now <= MAX_TIMESTAMP,
    ensures
        output.deep_view() == normalized(input.deep_view(), now as int),
        all_well_formed(output.deep_view()),
        forall|a: int, b: int|
            0 <= a < b < output.len() ==> (#[trigger] output.deep_view()[a]).start != (
            #[trigger] output.deep_view()[b]).start,
{
    let ghost events = input.deep_view();
    let mut output: Vec<ICSEntry> = Vec::new();
    let mut seen: HashSet<i64> = HashSet::new();
    let mut i: usize = 0;
    proof {
        assert(events.take(0) =~= Seq::empty());
        assert(starts_of(Seq::<Occurrence>::empty()) =~= Set::empty());
    }
    while i < input.len()
        invariant
            i <= input.len(),
            now <= MAX_TIMESTAMP,
            events == input.deep_view(),
            output.deep_view() == normalized(events.take(i as int), now as int),
            seen@ == starts_of(
                all_candidates(
                    events.take(i as int),
                    outcomes_of(events.take(i as int), now as int),
                    now as int,
                ),
            ),
            all_well_formed(output.deep_view()),
        decreases input.len() - i,
    {
        let (template, recurrence) = read_record(&input[i]);
        let ghost upto = events.take(i as int);
        let ghost next = events.take(i + 1);
        let ghost before = all_candidates(upto, outcomes_of(upto, now as int), now as int);
        let ghost more = contribution(template@, recurrence.deep_view(), now as int);
        expand(template, &recurrence, now, &mut seen, &mut output);
        proof {
            assert(next.drop_last() =~= upto);
            assert(next.last() == events[i as int]);
            assert(outcomes_of(next, now as int).drop_last() =~= outcomes_of(upto, now as int));
            assert(all_candidates(next, outcomes_of(next, now as int), now as int) == before
                + more);
            lemma_kept_concat(before, more, Set::empty());
            lemma_starts_concat(before, more);
            assert(Set::<i64>::empty().union(starts_of(before)) =~= starts_of(before));
        }
        i += 1;
    }
    proof {
        assert(events.take(i as int) =~= events);
        lemma_kept_distinct(
            all_candidates(events, outcomes_of(events, now as int), now as int),
            Set::empty(),
        );
    }
    output
}

/// A record without a recurrence rule, with a start `start` and an end `end`
/// that are resolved instants, the start inside the retention window: the
/// occurrence that is emitted for it starts at `start` and lasts
/// `end - start` seconds.
pub proof fn law_non_recurring_record_in_window(
    fields: FieldsView,
    start: i64,
    end: i64,
    outcome: Option<Seq<i64>>,
    now: int,
    out: Seq<Occurrence>,
    seen: Set<i64>,
)
    requires
        fields.rule is None,
        fields.has_end,
        is_resolved(start as int),
        is_resolved(end as int),
        in_window(start as int, now),
        !seen.contains(start),
    ensures
        ({
            let template = template_from(fields, start, end);
            let emitted = offered(
                out,
                seen,
                candidates(template, record_starts(template.start, fields.rule, outcome, now)),
            ).0;
            &&& emitted == out.push(template)
            &&& emitted.last().start == start
            &&& emitted.last().duration == end - start
        }),
{
    let template = template_from(fields, start, end);
    law_single_record_in_window(template, outcome, now, out, seen);
}

/// No record of `events` has a recurrence rule.
pub open spec fn no_rules(events: Seq<EventModel>) -> bool {
    forall|i: int| 0 <= i < events.len() ==> record_of(#[trigger] events[i]).1 is None
}

/// Where no record has a recurrence rule, nothing is left to the rule
/// compiler: the conversion is a function of the records and of `now` alone.
pub proof fn law_conversion_without_rules(
    events: Seq<EventModel>,
    now: int,
    one: Seq<Option<Seq<i64>>>,
    other: Seq<Option<Seq<i64>>>,
)
    requires
        no_rules(events),
    ensures
        all_candidates(events, one, now) == all_candidates(events, other, now),
        conversion(events, one, now) == conversion(events, other, now),
    decreases events.len(),
{
    if events.len() > 0 {
        assert(record_of(events[events.len() - 1]).1 is None);
        assert forall|i: int| 0 <= i < events.drop_last().len() implies record_of(
            #[trigger] events.drop_last()[i],
        ).1 is None by {
            assert(events.drop_last()[i] == events[i]);
        }
        law_conversion_without_rules(events.drop_last(), now, one.drop_last(), other.drop_last());
    }
}

} // verus!
