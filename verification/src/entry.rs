//! The normalized occurrence: one concrete instance of an event.

use vstd::prelude::*;
use crate::datetime::{is_resolved, MAX_TIMESTAMP, MIN_TIMESTAMP};

verus! {

/// The mathematical model of an occurrence.
pub struct Occurrence {
    pub desc: Seq<char>,
    pub uid: Seq<char>,
    pub title: Seq<char>,
    /// UNIX seconds, UTC.
    pub start: i64,
    /// Seconds.
    pub duration: i64,
    pub confirmed: bool,
    /// Out of office.
    pub oof: bool,
}

impl Occurrence {
    /// The same occurrence at another instant.
    pub open spec fn at(self, start: i64) -> Occurrence {
        Occurrence { start, ..self }
    }

    /// The start is a resolved UTC instant.
    pub open spec fn well_formed(self) -> bool {
        is_resolved(self.start as int)
    }
}

/// One occurrence of an event, as it is cached and handed to clients.
#[derive(Debug, Default)]
pub struct ICSEntry {
    pub desc: String,
    pub uid: String,
    pub title: String,
    /// Unix timestamp in seconds
    pub start: i64,
    /// Duration in seconds
    pub duration: i64,
    pub confirmed: bool,
    /// Out of office
    pub oof: bool,
}

impl View for ICSEntry {
    type V = Occurrence;

    open spec fn view(&self) -> Occurrence {
        Occurrence {
            desc: self.desc@,
            uid: self.uid@,
            title: self.title@,
            start: self.start,
            duration: self.duration,
            confirmed: self.confirmed,
            oof: self.oof,
        }
    }
}

impl DeepView for ICSEntry {
    type V = Occurrence;

    open spec fn deep_view(&self) -> Occurrence {
        self@
    }
}

impl Clone for ICSEntry {
    fn clone(&self) -> (copy: Self)
        ensures
            copy == *self,
    {
        ICSEntry {
            desc: self.desc.clone(),
            uid: self.uid.clone(),
            title: self.title.clone(),
            start: self.start,
            duration: self.duration,
            confirmed: self.confirmed,
            oof: self.oof,
        }
    }
}

impl ICSEntry {
    /// The start is a resolved UTC instant.
    pub open spec fn well_formed(&self) -> bool {
        self@.well_formed()
    }

    /// Whether the start is a resolved UTC instant.
    pub fn is_well_formed(&self) -> (ok: bool)
        ensures
            ok == self.well_formed(),
    {
        MIN_TIMESTAMP <= self.start && self.start <= MAX_TIMESTAMP
    }

    /// A copy of this entry that starts at `start`; the duration is kept.
    pub fn starting_at(&self, start: i64) -> (moved: ICSEntry)
        ensures
            moved@ == self@.at(start),
    {
        let mut moved = self.clone();
        moved.start = start;
        moved
    }
}

/// Every occurrence of `occurrences` is well formed.
pub open spec fn all_well_formed(occurrences: Seq<Occurrence>) -> bool {
    forall|i: int| 0 <= i < occurrences.len() ==> (#[trigger] occurrences[i]).well_formed()
}

/// Whether every entry of `entries` is well formed.
pub fn are_well_formed(entries: &Vec<ICSEntry>) -> (ok: bool)
    ensures
        ok == all_well_formed(entries.deep_view()),
{
    let mut i: usize = 0;
    while i < entries.len()
        invariant
            i <= entries.len(),
            forall|k: int| 0 <= k < i ==> (#[trigger] entries.deep_view()[k]).well_formed(),
        decreases entries.len() - i,
    {
        if !entries[i].is_well_formed() {
            assert(!entries.deep_view()[i as int].well_formed());
            return false;
        }
        i += 1;
    }
    true
}

/// Copies a list of entries.
pub fn copy_entries(entries: &Vec<ICSEntry>) -> (copy: Vec<ICSEntry>)
    ensures
        copy@ == entries@,
{
    let mut copy: Vec<ICSEntry> = Vec::new();
    let mut i: usize = 0;
    while i < entries.len()
        invariant
            i <= entries.len(),
            copy@ == entries@.take(i as int),
        decreases entries.len() - i,
    {
        copy.push(entries[i].clone());
        i += 1;
    }
    copy
}

} // verus!
