//! The removal of duplicates.
//!
//! Occurrences are deduplicated over a whole conversion run by their start
//! alone: of two occurrences that start at the same second, whatever events
//! they belong to, only the first survives.

use std::collections::HashSet;
use vstd::prelude::*;
use crate::entry::{all_well_formed, ICSEntry, Occurrence};

verus! {

/// The starts of the occurrences of `cands`.
pub open spec fn starts_of(cands: Seq<Occurrence>) -> Set<i64> {
    Set::new(|t: i64| exists|i: int| 0 <= i < cands.len() && (#[trigger] cands[i]).start == t)
}

/// The occurrences of `cands` that survive deduplication when the starts of
/// `seen` are taken already: an occurrence survives where its start is
/// neither in `seen` nor the start of an occurrence before it in `cands`.
pub open spec fn kept(cands: Seq<Occurrence>, seen: Set<i64>) -> Seq<Occurrence>
    decreases cands.len(),
{
    if cands.len() == 0 {
        Seq::empty()
    } else {
        let earlier = cands.drop_last();
        let last = cands.last();
        if seen.contains(last.start) || starts_of(earlier).contains(last.start) {
            kept(earlier, seen)
        } else {
            kept(earlier, seen).push(last)
        }
    }
}

/// The output and the set of seen starts after `cands` were offered in order.
pub open spec fn offered(out: Seq<Occurrence>, seen: Set<i64>, cands: Seq<Occurrence>) -> (
    Seq<Occurrence>,
    Set<i64>,
) {
    (out + kept(cands, seen), seen.union(starts_of(cands)))
}

/// The starts of a list with one more occurrence.
pub proof fn lemma_starts_push(cands: Seq<Occurrence>, next: Occurrence)
    ensures
        starts_of(cands.push(next)) == starts_of(cands).insert(next.start),
{
    let longer = cands.push(next);
    assert forall|t: i64| starts_of(longer).contains(t) <==> starts_of(cands).insert(
        next.start,
    ).contains(t) by {
        if starts_of(longer).contains(t) {
            let i = choose|i: int| 0 <= i < longer.len() && (#[trigger] longer[i]).start == t;
            if i < cands.len() {
                assert(cands[i].start == t);
            }
        }
        if starts_of(cands).contains(t) {
            let i = choose|i: int| 0 <= i < cands.len() && (#[trigger] cands[i]).start == t;
            assert(longer[i].start == t);
        }
        if t == next.start {
            assert(longer[cands.len() as int].start == t);
        }
    }
    assert(starts_of(longer) =~= starts_of(cands).insert(next.start));
}

/// The starts of two lists joined are the starts of the one and of the other.
pub proof fn lemma_starts_concat(a: Seq<Occurrence>, b: Seq<Occurrence>)
    ensures
        starts_of(a + b) == starts_of(a).union(starts_of(b)),
    decreases b.len(),
{
    if b.len() == 0 {
        assert(a + b =~= a);
        assert(starts_of(b) =~= Set::empty());
        assert(starts_of(a).union(starts_of(b)) =~= starts_of(a));
    } else {
        let front = b.drop_last();
        lemma_starts_concat(a, front);
        lemma_starts_push(a + front, b.last());
        lemma_starts_push(front, b.last());
        assert((a + front).push(b.last()) =~= a + b);
        assert(front.push(b.last()) =~= b);
        assert(starts_of(a + b) =~= starts_of(a).union(starts_of(b)));
    }
}

/// Offering `a` and then `b` is offering `a + b`.
pub proof fn lemma_kept_concat(a: Seq<Occurrence>, b: Seq<Occurrence>, seen: Set<i64>)
    ensures
        kept(a + b, seen) == kept(a, seen) + kept(b, seen.union(starts_of(a))),
    decreases b.len(),
{
    if b.len() == 0 {
        assert(a + b =~= a);
        assert(kept(a, seen) + Seq::<Occurrence>::empty() =~= kept(a, seen));
    } else {
        let front = b.drop_last();
        let last = b.last();
        lemma_kept_concat(a, front, seen);
        lemma_starts_concat(a, front);
        assert((a + b).drop_last() =~= a + front);
        assert((a + b).last() == last);
        let wider = seen.union(starts_of(a));
        assert((seen.contains(last.start) || starts_of(a + front).contains(last.start)) <==> (
        wider.contains(last.start) || starts_of(front).contains(last.start)));
        if wider.contains(last.start) || starts_of(front).contains(last.start) {
        } else {
            assert(kept(a, seen) + kept(front, wider).push(last) =~= (kept(a, seen) + kept(
                front,
                wider,
            )).push(last));
        }
    }
}

/// Whatever is kept was offered.
pub proof fn lemma_kept_from_candidates(cands: Seq<Occurrence>, seen: Set<i64>)
    ensures
        forall|k: int|
            0 <= k < kept(cands, seen).len() ==> exists|i: int|
                0 <= i < cands.len() && cands[i] == #[trigger] kept(cands, seen)[k],
    decreases cands.len(),
{
    if cands.len() > 0 {
        let earlier = cands.drop_last();
        lemma_kept_from_candidates(earlier, seen);
        assert forall|k: int| 0 <= k < kept(cands, seen).len() implies exists|i: int|
            0 <= i < cands.len() && cands[i] == #[trigger] kept(cands, seen)[k] by {
            if k < kept(earlier, seen).len() {
                assert(kept(cands, seen)[k] == kept(earlier, seen)[k]);
                let i = choose|i: int| 0 <= i < earlier.len() && earlier[i] == kept(earlier, seen)[k];
                assert(cands[i] == kept(cands, seen)[k]);
            } else {
                assert(cands[cands.len() - 1] == kept(cands, seen)[k]);
            }
        }
    }
}

/// Well-formed candidates leave a well-formed output well formed.
pub proof fn lemma_offered_well_formed(out: Seq<Occurrence>, seen: Set<i64>, cands: Seq<Occurrence>)
    requires
        all_well_formed(out),
        all_well_formed(cands),
    ensures
        all_well_formed(offered(out, seen, cands).0),
{
    lemma_kept_from_candidates(cands, seen);
    let after = out + kept(cands, seen);
    assert forall|k: int| 0 <= k < after.len() implies (#[trigger] after[k]).well_formed() by {
        if k >= out.len() {
            let j = k - out.len();
            assert(after[k] == kept(cands, seen)[j]);
            let i = choose|i: int| 0 <= i < cands.len() && cands[i] == kept(cands, seen)[j];
            assert(cands[i].well_formed());
        } else {
            assert(after[k] == out[k]);
        }
    }
}

/// `cands[i]` is the first occurrence of its start: no occurrence before it in
/// `cands` starts when it does, and its start is not in `seen`.
pub open spec fn first_with_start(cands: Seq<Occurrence>, seen: Set<i64>, i: int) -> bool {
    &&& 0 <= i < cands.len()
    &&& !seen.contains(cands[i].start)
    &&& forall|j: int| 0 <= j < i ==> (#[trigger] cands[j]).start != cands[i].start
}

/// `occurrence` is, in `cands`, the first occurrence of its start.
pub open spec fn first_of_its_start(cands: Seq<Occurrence>, seen: Set<i64>, occurrence: Occurrence) -> bool {
    exists|i: int| first_with_start(cands, seen, i) && cands[i] == occurrence
}

/// The starts that survive are the starts that were offered and not seen
/// before.
pub proof fn lemma_kept_starts(cands: Seq<Occurrence>, seen: Set<i64>)
    ensures
        starts_of(kept(cands, seen)) == starts_of(cands).difference(seen),
    decreases cands.len(),
{
    if cands.len() == 0 {
        assert(starts_of(cands) =~= Set::empty());
        assert(starts_of(kept(cands, seen)) =~= starts_of(cands).difference(seen));
    } else {
        let earlier = cands.drop_last();
        let last = cands.last();
        lemma_kept_starts(earlier, seen);
        lemma_starts_push(earlier, last);
        assert(earlier.push(last) =~= cands);
        if seen.contains(last.start) || starts_of(earlier).contains(last.start) {
            assert(starts_of(kept(cands, seen)) =~= starts_of(cands).difference(seen));
        } else {
            lemma_starts_push(kept(earlier, seen), last);
            assert(starts_of(kept(cands, seen)) =~= starts_of(cands).difference(seen));
        }
    }
}

/// No two survivors start at the same second.
pub proof fn lemma_kept_distinct(cands: Seq<Occurrence>, seen: Set<i64>)
    ensures
        forall|a: int, b: int|
            0 <= a < b < kept(cands, seen).len() ==> (#[trigger] kept(cands, seen)[a]).start != (
            #[trigger] kept(cands, seen)[b]).start,
    decreases cands.len(),
{
    if cands.len() > 0 {
        let earlier = cands.drop_last();
        let before = kept(earlier, seen);
        let all = kept(cands, seen);
        lemma_kept_distinct(earlier, seen);
        lemma_kept_starts(earlier, seen);
        assert forall|a: int, b: int| 0 <= a < b < all.len() implies (#[trigger] all[a]).start != (
        #[trigger] all[b]).start by {
            if b < before.len() {
                assert(all[a] == before[a] && all[b] == before[b]);
            } else {
                assert(all[a] == before[a]);
                assert(starts_of(before).contains(before[a].start));
            }
        }
    }
}

/// Each survivor is the first occurrence of its start.
pub proof fn lemma_kept_is_first(cands: Seq<Occurrence>, seen: Set<i64>, k: int)
    requires
        0 <= k < kept(cands, seen).len(),
    ensures
        first_of_its_start(cands, seen, kept(cands, seen)[k]),
    decreases cands.len(),
{
    let earlier = cands.drop_last();
    let before = kept(earlier, seen);
    if k < before.len() {
        assert(kept(cands, seen)[k] == before[k]);
        lemma_kept_is_first(earlier, seen, k);
        let i = choose|i: int| first_with_start(earlier, seen, i) && earlier[i] == before[k];
        assert forall|j: int| 0 <= j < i implies (#[trigger] cands[j]).start != cands[i].start by {
            assert(earlier[j].start != earlier[i].start);
        }
        assert(first_with_start(cands, seen, i));
    } else {
        let i = cands.len() - 1;
        assert(kept(cands, seen)[k] == cands[i]);
        assert forall|j: int| 0 <= j < i implies (#[trigger] cands[j]).start != cands[i].start by {
            assert(earlier[j].start == cands[j].start);
        }
        assert(first_with_start(cands, seen, i));
    }
}

/// The first occurrence of each start survives.
pub proof fn lemma_first_is_kept(cands: Seq<Occurrence>, seen: Set<i64>, i: int)
    requires
        first_with_start(cands, seen, i),
    ensures
        kept(cands, seen).contains(cands[i]),
    decreases cands.len(),
{
    let earlier = cands.drop_last();
    let before = kept(earlier, seen);
    let all = kept(cands, seen);
    if i < earlier.len() {
        assert forall|j: int| 0 <= j < i implies (#[trigger] earlier[j]).start
            != earlier[i].start by {
            assert(cands[j].start != cands[i].start);
        }
        assert(first_with_start(earlier, seen, i));
        lemma_first_is_kept(earlier, seen, i);
        let k = choose|k: int| 0 <= k < before.len() && before[k] == earlier[i];
        assert(all[k] == cands[i]);
        assert(all.contains(cands[i]));
    } else {
        if starts_of(earlier).contains(cands[i].start) {
            let j = choose|j: int|
                0 <= j < earlier.len() && (#[trigger] earlier[j]).start == cands[i].start;
            assert(cands[j].start == cands[i].start);
        }
        assert(all[all.len() - 1] == cands[i]);
        assert(all.contains(cands[i]));
    }
}

/// Deduplication: of the occurrences that start at the same second, whether
/// they come from one rule or from several, only the first that was offered
/// survives. No two survivors start at the same second, each survivor is the
/// first occurrence of its start, and the first occurrence of each start that
/// was not seen before survives.
pub proof fn law_first_with_each_start_survives(cands: Seq<Occurrence>, seen: Set<i64>)
    ensures
        forall|a: int, b: int|
            0 <= a < b < kept(cands, seen).len() ==> (#[trigger] kept(cands, seen)[a]).start != (
            #[trigger] kept(cands, seen)[b]).start,
        forall|k: int|
            0 <= k < kept(cands, seen).len() ==> first_of_its_start(
                cands,
                seen,
                #[trigger] kept(cands, seen)[k],
            ),
        forall|i: int|
            first_with_start(cands, seen, i) ==> kept(cands, seen).contains(#[trigger] cands[i]),
{
    lemma_kept_distinct(cands, seen);
    assert forall|k: int| 0 <= k < kept(cands, seen).len() implies first_of_its_start(
        cands,
        seen,
        #[trigger] kept(cands, seen)[k],
    ) by {
        lemma_kept_is_first(cands, seen, k);
    }
    assert forall|i: int| first_with_start(cands, seen, i) implies kept(cands, seen).contains(
        #[trigger] cands[i],
    ) by {
        lemma_first_is_kept(cands, seen, i);
    }
}

/// Offers one occurrence: it is appended to `out` unless an occurrence with
/// the same start was offered before.
pub fn emit(entry: ICSEntry, seen: &mut HashSet<i64>, out: &mut Vec<ICSEntry>)
    ensures
        (final(out).deep_view(), final(seen)@) == offered(
            old(out).deep_view(),
            old(seen)@,
            seq![entry@],
        ),
        final(out).deep_view() == if old(seen)@.contains(entry.start) {
            old(out).deep_view()
        } else {
            old(out).deep_view().push(entry@)
        },
        final(seen)@ == old(seen)@.insert(entry.start),
{
    broadcast use vstd::std_specs::hash::group_hash_axioms;

    let ghost one = seq![entry@];
    let ghost before = out.deep_view();
    proof {
        assert(one.drop_last() =~= Seq::<Occurrence>::empty());
        assert(starts_of(Seq::<Occurrence>::empty()) =~= Set::empty());
        lemma_starts_push(Seq::<Occurrence>::empty(), entry@);
        assert(Seq::<Occurrence>::empty().push(entry@) =~= one);
        assert(old(seen)@.union(starts_of(one)) =~= old(seen)@.insert(entry.start));
        assert(kept(Seq::<Occurrence>::empty(), old(seen)@) =~= Seq::<Occurrence>::empty());
    }
    let start = entry.start;
    if seen.insert(start) {
        let ghost model = entry@;
        out.push(entry);
        proof {
            assert(out.deep_view() =~= before.push(model));
            assert(kept(one, old(seen)@) =~= seq![model]);
            assert(before + seq![model] =~= before.push(model));
        }
    } else {
        proof {
            assert(kept(one, old(seen)@) =~= Seq::<Occurrence>::empty());
            assert(before + Seq::<Occurrence>::empty() =~= before);
        }
    }
}

} // verus!
