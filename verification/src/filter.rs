//! The request filter: which occurrences of the cached set a request sees.

use vstd::prelude::*;
use crate::datetime::{civil_month_day, month_and_day};
use crate::entry::{all_well_formed, ICSEntry, Occurrence};
use crate::text::{has_text, occurs_in};

verus! {

/// The month selector of a request, as a calendar month. The selector counts
/// by its low eight bits, and only where those give a month from 1 to 12: any
/// other selector selects every month.
pub open spec fn selected_month(month: Option<u64>) -> Option<u8> {
    match month {
        Some(m) => if 1 <= m % 256 <= 12 {
            Some((m % 256) as u8)
        } else {
            None
        },
        None => None,
    }
}

/// The day selector of a request, as a day of the month: its low eight bits.
pub open spec fn selected_day(day: Option<u64>) -> Option<u8> {
    match day {
        Some(d) => Some((d % 256) as u8),
        None => None,
    }
}

/// `date`, a month and a day of the month, matches the selectors.
pub open spec fn date_selected(date: (u8, u8), month: Option<u64>, day: Option<u64>) -> bool {
    &&& selected_month(month) matches Some(m) ==> date.0 == m
    &&& selected_day(day) matches Some(d) ==> date.1 == d
}

/// `title` contains one of the exclusion substrings.
pub open spec fn title_excluded(title: Seq<char>, exclusions: Seq<Seq<char>>) -> bool {
    exists|k: int| 0 <= k < exclusions.len() && occurs_in(title, #[trigger] exclusions[k])
}

/// An occurrence is shown to a request where the UTC date of its start
/// matches the selectors and its title contains no exclusion substring.
pub open spec fn shown(occurrence: Occurrence, month: Option<u64>, day: Option<u64>, exclusions: Seq<Seq<char>>) -> bool {
    &&& date_selected(civil_month_day(occurrence.start), month, day)
    &&& !title_excluded(occurrence.title, exclusions)
}

/// `shown` as a predicate on occurrences.
pub open spec fn shown_to(month: Option<u64>, day: Option<u64>, exclusions: Seq<Seq<char>>) -> spec_fn(Occurrence) -> bool {
    |occurrence: Occurrence| shown(occurrence, month, day, exclusions)
}

/// Whether a date, as month and day of the month, matches the selectors.
pub fn date_matches(date: (u8, u8), month: Option<u64>, day: Option<u64>) -> (matches: bool)
    ensures
        matches == date_selected(date, month, day),
{
    if let Some(m) = month {
        let low = m % 256;
        if 1 <= low && low <= 12 && date.0 as u64 != low {
            return false;
        }
    }
    if let Some(d) = day {
        if date.1 as u64 != d % 256 {
            return false;
        }
    }
    true
}

/// Whether `title` contains one of the exclusion substrings.
pub fn title_is_excluded(title: &str, exclusions: &Vec<String>) -> (excluded: bool)
    ensures
        excluded == title_excluded(title@, exclusions.deep_view()),
{
    let mut k: usize = 0;
    while k < exclusions.len()
        invariant
            k <= exclusions.len(),
            forall|j: int| 0 <= j < k ==> !occurs_in(title@, #[trigger] exclusions.deep_view()[j]),
        decreases exclusions.len() - k,
    {
        assert(exclusions.deep_view()[k as int] == exclusions[k as int]@);
        if has_text(title, exclusions[k].as_str()) {
            return true;
        }
        k += 1;
    }
    false
}

/// Narrows a set of occurrences to what a request sees: the occurrences
/// whose start falls, in UTC, in the selected month and on the selected day,
/// and whose title contains none of the exclusion substrings. The order is
/// kept.
pub fn filter_ics_entries(entries: Vec<ICSEntry>, month: Option<u64>, day: Option<u64>, filter: &Vec<String>) -> (shown: Vec<ICSEntry>)
    requires
        all_well_formed(entries.deep_view()),
    ensures
        shown.deep_view() == entries.deep_view().filter(shown_to(month, day, filter.deep_view())),
        all_well_formed(shown.deep_view()),
        forall|i: int|
            0 <= i < shown.len() ==> !title_excluded(
                (#[trigger] shown.deep_view()[i]).title,
                filter.deep_view(),
            ),
{
    let ghost all = entries.deep_view();
    let ghost pred = shown_to(month, day, filter.deep_view());
    let mut shown: Vec<ICSEntry> = Vec::new();
    let mut i: usize = 0;
    proof {
        reveal(Seq::filter);
        assert(all.take(0) =~= Seq::empty());
    }
    while i < entries.len()
        invariant
            i <= entries.len(),
            all == entries.deep_view(),
            all_well_formed(all),
            pred == shown_to(month, day, filter.deep_view()),
            shown.deep_view() == all.take(i as int).filter(pred),
            all_well_formed(shown.deep_view()),
            forall|k: int|
                0 <= k < shown.len() ==> !title_excluded(
                    (#[trigger] shown.deep_view()[k]).title,
                    filter.deep_view(),
                ),
        decreases entries.len() - i,
    {
        let entry = &entries[i];
        let ghost before = shown.deep_view();
        proof {
            reveal(Seq::filter);
            assert(all.take(i + 1).drop_last() =~= all.take(i as int));
            assert(all.take(i + 1).last() == entry@);
            assert(all[i as int].well_formed());
        }
        let date = month_and_day(entry.start);
        let keep = match date {
            Some(date) => date_matches(date, month, day) && !title_is_excluded(
                entry.title.as_str(),
                filter,
            ),
            None => false,
        };
        assert(keep == pred(entry@));
        if keep {
            shown.push(entry.clone());
            assert(shown.deep_view() =~= before.push(entry@));
        }
        i += 1;
    }
    proof {
        assert(all.take(i as int) =~= all);
    }
    shown
}

/// Title filter: an occurrence whose title contains an exclusion substring is
/// never shown, whatever its date and whatever the selectors.
pub proof fn law_excluded_title_is_never_shown(
    occurrences: Seq<Occurrence>,
    month: Option<u64>,
    day: Option<u64>,
    exclusions: Seq<Seq<char>>,
)
    ensures
        forall|k: int|
            #![trigger occurrences.filter(shown_to(month, day, exclusions))[k]]
            0 <= k < occurrences.filter(shown_to(month, day, exclusions)).len() ==> !title_excluded(
                occurrences.filter(shown_to(month, day, exclusions))[k].title,
                exclusions,
            ),
{
    let pred = shown_to(month, day, exclusions);
    assert forall|k: int| 0 <= k < occurrences.filter(pred).len() implies !title_excluded(
        (#[trigger] occurrences.filter(pred)[k]).title,
        exclusions,
    ) by {
        occurrences.lemma_filter_pred(pred, k);
    }
}

} // verus!
