//! The retention window and the instants of a recurrence rule.

use chrono::TimeZone;
use rrule::{RRule, RRuleSet, Tz, Unvalidated};
use vstd::prelude::*;
use crate::datetime::{is_resolved, MAX_TIMESTAMP};

verus! {

/// The length of the retention window: 70 days, in seconds.
pub const RETENTION_SECONDS: u64 = 6_048_000;

/// The first instant of the retention window that ends at `now`.
pub open spec fn window_start(now: int) -> int {
    now - RETENTION_SECONDS
}

/// `at` lies in the retention window `[now - 70 days, now]`.
pub open spec fn in_window(at: int, now: int) -> bool {
    window_start(now) <= at <= now
}

/// No instant of `instants` lies after `now`.
pub open spec fn none_after(instants: Seq<i64>, now: int) -> bool {
    forall|i: int| 0 <= i < instants.len() ==> instants[i] <= now
}

/// The instants of a rule that are accepted at `now`: an instant is accepted
/// where neither it nor any instant before it in the rule's order lies after
/// `now`, and it is not earlier than the start of the retention window.
pub open spec fn accepted_instants(instants: Seq<i64>, now: int) -> Seq<i64>
    decreases instants.len(),
{
    if instants.len() == 0 {
        Seq::empty()
    } else {
        let earlier = accepted_instants(instants.drop_last(), now);
        if none_after(instants, now) && window_start(now) <= instants.last() {
            earlier.push(instants.last())
        } else {
            earlier
        }
    }
}

/// The start that a record without a recurrence rule contributes at `now`:
/// its own, unless it lies before the retention window.
pub open spec fn accepted_single(start: i64, now: int) -> Seq<i64> {
    if window_start(now) <= start {
        seq![start]
    } else {
        Seq::empty()
    }
}

/// Every accepted instant lies in the retention window: none after `now`,
/// none before `now - 70 days`.
pub proof fn lemma_accepted_in_window(instants: Seq<i64>, now: int)
    ensures
        forall|k: int|
            0 <= k < accepted_instants(instants, now).len() ==> in_window(
                #[trigger] accepted_instants(instants, now)[k] as int,
                now,
            ),
    decreases instants.len(),
{
    if instants.len() > 0 {
        lemma_accepted_in_window(instants.drop_last(), now);
        let earlier = accepted_instants(instants.drop_last(), now);
        assert forall|k: int| 0 <= k < accepted_instants(instants, now).len() implies in_window(
            #[trigger] accepted_instants(instants, now)[k] as int,
            now,
        ) by {
            if k < earlier.len() {
                assert(accepted_instants(instants, now)[k] == earlier[k]);
            } else {
                assert(none_after(instants, now));
                assert(instants[instants.len() - 1] <= now);
            }
        }
    }
}

/// Once an instant lies after `now`, nothing that follows it is accepted.
pub proof fn lemma_accepted_stops(instants: Seq<i64>, now: int, stop: int, upto: int)
    requires
        0 <= stop < upto <= instants.len(),
        instants[stop] > now,
    ensures
        accepted_instants(instants.take(upto), now) == accepted_instants(instants.take(stop), now),
    decreases upto - stop,
{
    let prefix = instants.take(upto);
    assert(prefix.drop_last() =~= instants.take(upto - 1));
    assert(prefix[stop] == instants[stop]);
    assert(!none_after(prefix, now));
    if upto - 1 > stop {
        lemma_accepted_stops(instants, now, stop, upto - 1);
    }
}

/// Whether a record recurs, and by which rule.
#[derive(Debug)]
pub enum Recurrence {
    NonRecurring,
    Recurring(String),
}

impl DeepView for Recurrence {
    type V = Option<Seq<char>>;

    open spec fn deep_view(&self) -> Option<Seq<char>> {
        match self {
            Recurrence::NonRecurring => None,
            Recurrence::Recurring(rule) => Some(rule@),
        }
    }
}

impl Recurrence {
    /// The recurrence of a record whose rule property, if any, holds `rule`.
    pub fn from_rule(rule: Option<String>) -> (recurrence: Recurrence)
        ensures
            recurrence.deep_view() == rule.deep_view(),
    {
        match rule {
            Some(rule) => Recurrence::Recurring(rule),
            None => Recurrence::NonRecurring,
        }
    }
}

/// What the `rrule` crate makes of a recurrence rule anchored at `anchor` in
/// UTC: the instants of the rule from `after` to `before`, in the rule's
/// order, or `None` where the rule does not compile.
pub uninterp spec fn rule_instants_in(rule: Seq<char>, anchor: i64, after: i64, before: i64) -> Option<Seq<i64>>;

/// Compiles a recurrence rule anchored at `anchor`, in UTC, with the `rrule`
/// crate (`RRule::from_str`, then `validate`) and collects, with
/// `RRuleSet::all_unchecked`, the instants of the rule from `after` to
/// `before`. `None` where the rule does not compile. The crate's source shows
/// that it walks the rule's instants in the rule's order, stops at the first
/// instant after `before`, and hands out those instants only that lie in
/// `[after, before]`. The crate's parser reads an end date without a zone in
/// the zone of the machine, but against an anchor in UTC its validation
/// refuses every end date that is not in UTC, so the result depends on the
/// arguments alone. The three instants are resolved, so `chrono` can hold
/// them and the years that the crate walks through stay in its range.
#[verifier::external_body]
pub(crate) fn rule_instants(rule: &str, anchor: i64, after: i64, before: i64) -> (instants: Option<Vec<i64>>)
    requires
        is_resolved(anchor as int),
        is_resolved(after as int),
        is_resolved(before as int),
    ensures
        instants.deep_view() == rule_instants_in(rule@, anchor, after, before),
        instants matches Some(found) ==> forall|i: int|
            0 <= i < found.len() ==> after <= #[trigger] found[i] <= before,
{
    let anchor = Tz::UTC.timestamp_opt(anchor, 0).single()?;
    let after = Tz::UTC.timestamp_opt(after, 0).single()?;
    let before = Tz::UTC.timestamp_opt(before, 0).single()?;
    let rule = rule.parse::<RRule<Unvalidated>>().ok()?.validate(anchor).ok()?;
    let set = RRuleSet::new(anchor).rrule(rule).after(after).before(before);
    Some(set.all_unchecked().iter().map(|at| at.timestamp()).collect())
}

/// What the rule of a record that starts at `anchor` compiles to at `now`:
/// the instants of the rule in the retention window that ends at `now`;
/// `None` where the record has no rule or the rule does not compile.
pub open spec fn compiled(rule: Option<Seq<char>>, anchor: i64, now: int) -> Option<Seq<i64>> {
    match rule {
        Some(rule) => rule_instants_in(rule, anchor, window_start(now) as i64, now as i64),
        None => None,
    }
}

/// The instants of `rule`, anchored at `anchor`, that the retention window
/// ending at `now` can hold; `None` where the rule does not compile.
pub fn instants_of_rule(rule: &str, anchor: i64, now: u64) -> (instants: Option<Vec<i64>>)
    requires
        is_resolved(anchor as int),
        now <= MAX_TIMESTAMP,
    ensures
        instants.deep_view() == compiled(Some(rule@), anchor, now as int),
        instants matches Some(found) ==> forall|i: int|
            0 <= i < found.len() ==> in_window(#[trigger] found[i] as int, now as int),
{
    let (after, before) = window_bounds(now);
    rule_instants(rule, anchor, after, before)
}

/// The first and the last instant of the retention window that ends at
/// `now`: the bounds between which a rule's instants are asked for.
pub fn window_bounds(now: u64) -> (bounds: (i64, i64))
    requires
        now <= MAX_TIMESTAMP,
    ensures
        bounds.0 == window_start(now as int),
        bounds.1 == now,
        is_resolved(bounds.0 as int),
        is_resolved(bounds.1 as int),
{
    let last = now as i64;
    (last - RETENTION_SECONDS as i64, last)
}

} // verus!
