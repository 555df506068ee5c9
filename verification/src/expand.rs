//! Expansion of a record into the occurrences that it contributes.

use std::collections::HashSet;
use vstd::prelude::*;
use crate::datetime::MAX_TIMESTAMP;
use crate::dedup::{
    emit, kept, lemma_kept_concat, lemma_kept_from_candidates, lemma_offered_well_formed,
    lemma_starts_concat, offered, starts_of,
};
use crate::entry::{all_well_formed, ICSEntry, Occurrence};
use crate::recurrence::{
    accepted_instants, accepted_single, compiled, in_window, instants_of_rule,
    lemma_accepted_in_window, lemma_accepted_stops, none_after, window_start, Recurrence,
    RETENTION_SECONDS,
};

verus! {

/// The occurrences that a record gives rise to: its template at each of
/// `starts`.
pub open spec fn candidates(template: Occurrence, starts: Seq<i64>) -> Seq<Occurrence> {
    Seq::new(starts.len(), |i: int| template.at(starts[i]))
}

/// The starts that a record contributes at `now`. A record without a rule
/// contributes its own start; a record with a rule contributes the accepted
/// instants of `outcome`, the instants that the rule compiled to, and nothing
/// where the rule did not compile.
pub open spec fn record_starts(start: i64, rule: Option<Seq<char>>, outcome: Option<Seq<i64>>, now: int) -> Seq<i64> {
    match rule {
        None => accepted_single(start, now),
        Some(_) => match outcome {
            Some(instants) => accepted_instants(instants, now),
            None => Seq::empty(),
        },
    }
}

/// A record without a recurrence rule whose start lies in the retention
/// window contributes one occurrence, which starts at the record's start and
/// lasts from there to the record's end; it is emitted unless an occurrence
/// with the same start was emitted before it.
pub proof fn law_single_record_in_window(
    template: Occurrence,
    outcome: Option<Seq<i64>>,
    now: int,
    out: Seq<Occurrence>,
    seen: Set<i64>,
)
    requires
        in_window(template.start as int, now),
    ensures
        candidates(template, record_starts(template.start, None, outcome, now)) == seq![template],
        !seen.contains(template.start) ==> offered(
            out,
            seen,
            candidates(template, record_starts(template.start, None, outcome, now)),
        ).0 == out.push(template),
{
    let cands = candidates(template, record_starts(template.start, None, outcome, now));
    assert(cands =~= seq![template]);
    assert(cands.drop_last() =~= Seq::<Occurrence>::empty());
    assert(starts_of(Seq::<Occurrence>::empty()) =~= Set::empty());
    if !seen.contains(template.start) {
        assert(kept(Seq::<Occurrence>::empty(), seen) =~= Seq::<Occurrence>::empty());
        assert(kept(cands, seen) =~= seq![template]);
        assert(out + seq![template] =~= out.push(template));
    }
}

/// A record without a recurrence rule whose start lies strictly before
/// `now - 70 days` is never emitted.
pub proof fn law_single_record_before_window(
    template: Occurrence,
    outcome: Option<Seq<i64>>,
    now: int,
    out: Seq<Occurrence>,
    seen: Set<i64>,
)
    requires
        template.start < window_start(now),
    ensures
        offered(
            out,
            seen,
            candidates(template, record_starts(template.start, None, outcome, now)),
        ) == (out, seen),
{
    let cands = candidates(template, record_starts(template.start, None, outcome, now));
    assert(cands =~= Seq::<Occurrence>::empty());
    assert(starts_of(cands) =~= Set::empty());
    assert(seen.union(starts_of(cands)) =~= seen);
    assert(out + kept(cands, seen) =~= out);
}

/// The occurrences of a recurring record all start in the retention window:
/// none after `now`, none before `now - 70 days`, whatever instants the rule
/// compiled to.
pub proof fn law_recurring_record_stays_in_window(
    template: Occurrence,
    rule: Seq<char>,
    outcome: Option<Seq<i64>>,
    now: int,
    seen: Set<i64>,
)
    ensures
        forall|k: int|
            #![trigger candidates(template, record_starts(template.start, Some(rule), outcome, now))[k]]
            0 <= k < candidates(
                template,
                record_starts(template.start, Some(rule), outcome, now),
            ).len() ==> in_window(
                candidates(
                    template,
                    record_starts(template.start, Some(rule), outcome, now),
                )[k].start as int,
                now,
            ),
        forall|k: int|
            #![trigger kept(candidates(template, record_starts(template.start, Some(rule), outcome, now)), seen)[k]]
            0 <= k < kept(
                candidates(template, record_starts(template.start, Some(rule), outcome, now)),
                seen,
            ).len() ==> in_window(
                kept(
                    candidates(template, record_starts(template.start, Some(rule), outcome, now)),
                    seen,
                )[k].start as int,
                now,
            ),
{
    let starts = record_starts(template.start, Some(rule), outcome, now);
    let cands = candidates(template, starts);
    if outcome is Some {
        lemma_accepted_in_window(outcome->0, now);
    }
    assert forall|k: int| 0 <= k < cands.len() implies in_window(
        (#[trigger] cands[k]).start as int,
        now,
    ) by {
        assert(cands[k].start == starts[k]);
    }
    lemma_kept_from_candidates(cands, seen);
    assert forall|k: int| 0 <= k < kept(cands, seen).len() implies in_window(
        (#[trigger] kept(cands, seen)[k]).start as int,
        now,
    ) by {
        let i = choose|i: int| 0 <= i < cands.len() && cands[i] == kept(cands, seen)[k];
        assert(in_window(cands[i].start as int, now));
    }
}

/// Expands a record without a recurrence rule: its single occurrence is
/// offered if it starts at or after `now - 70 days`, and dropped otherwise.
pub fn expand_single(template: ICSEntry, now: u64, seen: &mut HashSet<i64>, out: &mut Vec<ICSEntry>)
    ensures
        (final(out).deep_view(), final(seen)@) == offered(
            old(out).deep_view(),
            old(seen)@,
            candidates(template@, accepted_single(template.start, now as int)),
        ),
        template.start < window_start(now as int) ==> final(out).deep_view() == old(
            out,
        ).deep_view(),
        window_start(now as int) <= template.start && !old(seen)@.contains(template.start)
            ==> final(out).deep_view() == old(out).deep_view().push(template@),
        all_well_formed(old(out).deep_view()) && template.well_formed() ==> all_well_formed(
            final(out).deep_view(),
        ),
{
    let ghost cands = candidates(template@, accepted_single(template.start, now as int));
    if template.start as i128 >= now as i128 - RETENTION_SECONDS as i128 {
        proof {
            assert(cands =~= seq![template@]);
        }
        emit(template, seen, out);
    } else {
        proof {
            assert(cands =~= Seq::<Occurrence>::empty());
            assert(starts_of(cands) =~= Set::empty());
            assert(old(seen)@.union(starts_of(cands)) =~= old(seen)@);
            assert(old(out).deep_view() + kept(cands, old(seen)@) =~= old(out).deep_view());
        }
    }
    proof {
        if all_well_formed(old(out).deep_view()) && template.well_formed() {
            assert(all_well_formed(cands));
            lemma_offered_well_formed(old(out).deep_view(), old(seen)@, cands);
        }
    }
}

/// Expands a recurring record over the instants that its rule compiled to,
/// in the rule's order. Iteration stops at the first instant after `now`; an
/// instant before `now - 70 days` is skipped; every other instant is offered
/// as a copy of the template that starts at the instant.
pub fn expand_instants(
    template: &ICSEntry,
    instants: &Vec<i64>,
    now: u64,
    seen: &mut HashSet<i64>,
    out: &mut Vec<ICSEntry>,
)
    ensures
        (final(out).deep_view(), final(seen)@) == offered(
            old(out).deep_view(),
            old(seen)@,
            candidates(template@, accepted_instants(instants@, now as int)),
        ),
        final(out).len() >= old(out).len(),
        forall|k: int|
            old(out).len() <= k < final(out).len() ==> in_window(
                (#[trigger] final(out).deep_view()[k]).start as int,
                now as int,
            ),
        now <= MAX_TIMESTAMP && all_well_formed(old(out).deep_view()) ==> all_well_formed(
            final(out).deep_view(),
        ),
{
    let ghost model = template@;
    let ghost out0 = out.deep_view();
    let ghost seen0 = seen@;
    let mut i: usize = 0;
    let mut stopped = false;
    proof {
        assert(instants@.take(0) =~= Seq::<i64>::empty());
        let none = candidates(model, accepted_instants(instants@.take(0), now as int));
        assert(none =~= Seq::<Occurrence>::empty());
        assert(starts_of(none) =~= Set::empty());
        assert(seen0.union(starts_of(none)) =~= seen0);
        assert(out0 + kept(none, seen0) =~= out0);
    }
    while i < instants.len() && !stopped
        invariant
            i <= instants.len(),
            model == template@,
            stopped ==> i < instants.len() && instants[i as int] > now,
            !stopped ==> none_after(instants@.take(i as int), now as int),
            (out.deep_view(), seen@) == offered(
                out0,
                seen0,
                candidates(model, accepted_instants(instants@.take(i as int), now as int)),
            ),
        decreases instants.len() - i + (if stopped { 0int } else { 1int }),
    {
        let at = instants[i];
        let ghost upto = instants@.take(i as int);
        let ghost next = instants@.take(i + 1);
        proof {
            assert(next.drop_last() =~= upto);
            assert(next.last() == at);
        }
        if at as i128 > now as i128 {
            stopped = true;
        } else {
            proof {
                assert forall|k: int| 0 <= k < next.len() implies next[k] <= now by {
                    if k < i {
                        assert(upto[k] == next[k]);
                    }
                }
            }
            if (at as i128) < now as i128 - RETENTION_SECONDS as i128 {
            } else {
                let ghost cands = candidates(model, accepted_instants(upto, now as int));
                let ghost more = candidates(model, accepted_instants(next, now as int));
                let entry = template.starting_at(at);
                proof {
                    assert(more =~= cands.push(entry@));
                    assert(cands + seq![entry@] =~= more);
                    lemma_kept_concat(cands, seq![entry@], seen0);
                    lemma_starts_concat(cands, seq![entry@]);
                    assert(out0 + kept(cands, seen0) + kept(
                        seq![entry@],
                        seen0.union(starts_of(cands)),
                    ) =~= out0 + (kept(cands, seen0) + kept(
                        seq![entry@],
                        seen0.union(starts_of(cands)),
                    )));
                    assert(seen0.union(starts_of(cands)).union(starts_of(seq![entry@]))
                        =~= seen0.union(starts_of(cands).union(starts_of(seq![entry@]))));
                }
                emit(entry, seen, out);
            }
            i += 1;
        }
    }
    proof {
        if stopped {
            lemma_accepted_stops(instants@, now as int, i as int, instants@.len() as int);
        }
        assert(instants@.take(instants@.len() as int) =~= instants@);
        let cands = candidates(model, accepted_instants(instants@, now as int));
        lemma_accepted_in_window(instants@, now as int);
        lemma_kept_from_candidates(cands, seen0);
        assert(accepted_instants(instants@.take(i as int), now as int) == accepted_instants(
            instants@,
            now as int,
        ));
        assert(out.deep_view() == out0 + kept(cands, seen0));
        assert(out.len() == out.deep_view().len());
        assert(cands.len() == accepted_instants(instants@, now as int).len());
        assert forall|k: int| out0.len() <= k < out.len() implies in_window(
            (#[trigger] out.deep_view()[k]).start as int,
            now as int,
        ) by {
            let j = k - out0.len();
            assert(out.deep_view()[k] == kept(cands, seen0)[j]);
            let c = choose|c: int| 0 <= c < cands.len() && cands[c] == kept(cands, seen0)[j];
            assert(in_window(accepted_instants(instants@, now as int)[c] as int, now as int));
        }
        if now <= MAX_TIMESTAMP && all_well_formed(out0) {
            assert forall|k: int| 0 <= k < cands.len() implies (#[trigger] cands[k]).well_formed() by {
                let t = accepted_instants(instants@, now as int)[k];
                assert(in_window(t as int, now as int));
            }
            lemma_offered_well_formed(out0, seen0, cands);
        }
    }
}

/// The occurrences that a record contributes at `now`, before
/// deduplication: its template at each of the starts that it contributes,
/// with its rule, if it has one, compiled at the record's start.
pub open spec fn contribution(template: Occurrence, rule: Option<Seq<char>>, now: int) -> Seq<Occurrence> {
    candidates(
        template,
        record_starts(template.start, rule, compiled(rule, template.start, now), now),
    )
}

/// Expands one record into the occurrences that it contributes at `now`. A
/// record without a rule contributes its own occurrence. For a recurring
/// record the rule is compiled, anchored at the record's start; where it does
/// not compile the record is dropped.
pub fn expand(
    template: ICSEntry,
    recurrence: &Recurrence,
    now: u64,
    seen: &mut HashSet<i64>,
    out: &mut Vec<ICSEntry>,
)
    requires
        template.well_formed(),
        now <= MAX_TIMESTAMP,
    ensures
        (final(out).deep_view(), final(seen)@) == offered(
            old(out).deep_view(),
            old(seen)@,
            contribution(template@, recurrence.deep_view(), now as int),
        ),
        all_well_formed(old(out).deep_view()) ==> all_well_formed(final(out).deep_view()),
{
    let ghost model = template@;
    match recurrence {
        Recurrence::NonRecurring => {
            expand_single(template, now, seen, out);
        },
        Recurrence::Recurring(rule) => {
            match instants_of_rule(rule.as_str(), template.start, now) {
                Some(instants) => {
                    assert(compiled(Some(rule@), model.start, now as int) == Some(instants@));
                    expand_instants(&template, &instants, now, seen, out);
                },
                None => {
                    proof {
                        let none = candidates(model, Seq::<i64>::empty());
                        assert(none =~= Seq::<Occurrence>::empty());
                        assert(starts_of(none) =~= Set::empty());
                        assert(old(seen)@.union(starts_of(none)) =~= old(seen)@);
                        assert(old(out).deep_view() + kept(none, old(seen)@) =~= old(
                            out,
                        ).deep_view());
                    }
                },
            }
        },
    }
}

} // verus!
