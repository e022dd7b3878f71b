//! What a merge guarantees about the identifier table.

use vstd::prelude::*;
use crate::identifier::IdTuple;
use crate::matching::{is_matched, is_survivor, retired_set};
use crate::merge::{after_merge, distinct, has_match, holds, lemma_survivor_unique, merge_result, merge_writes, merged_identifiers, new_claims, retired_tuples, several_match, survivor_of, surviving_identifiers, union_tuples};
use crate::merge::{repoint, surviving_instruments};
use crate::models::{DerivativeRecord, IdentifierRecordView, InstrumentRecord};
use crate::store::DataStore;
use crate::timestamp::Timestamp;

verus! {

/// A list without repetitions holds the same triples as the list it was
/// made from.
pub proof fn lemma_distinct_contains(tuples: Seq<IdTuple>, t: IdTuple)
    ensures
        distinct(tuples).contains(t) <==> tuples.contains(t),
    decreases tuples.len(),
{
    if tuples.len() > 0 {
        let front = tuples.drop_last();
        lemma_distinct_contains(front, t);
        lemma_distinct_contains(front, tuples.last());
        if tuples.contains(t) {
            let i = choose|i: int| 0 <= i < tuples.len() && tuples[i] == t;
            if i < tuples.len() - 1 {
                assert(front[i] == t);
                assert(front.contains(t));
            }
        }
        if front.contains(t) {
            let i = choose|i: int| 0 <= i < front.len() && front[i] == t;
            assert(tuples[i] == t);
        }
        let d = distinct(front);
        if d.contains(t) {
            let i = choose|i: int| 0 <= i < d.len() && d[i] == t;
            assert(d.push(tuples.last())[i] == t);
        }
        if !d.contains(tuples.last()) {
            assert(d.push(tuples.last())[d.len() as int] == tuples.last());
            if d.push(tuples.last()).contains(t) {
                let i = choose|i: int|
                    0 <= i < d.push(tuples.last()).len() && d.push(tuples.last())[i] == t;
                if i < d.len() {
                    assert(d[i] == t);
                }
            }
        }
        assert(tuples[tuples.len() - 1] == tuples.last());
    }
}

/// A list without repetitions has none.
pub proof fn lemma_distinct_no_duplicates(tuples: Seq<IdTuple>)
    ensures
        distinct(tuples).no_duplicates(),
    decreases tuples.len(),
{
    if tuples.len() > 0 {
        lemma_distinct_no_duplicates(tuples.drop_last());
    }
}

/// A filtered list holds the elements of the list that pass the filter.
pub proof fn lemma_filter_holds<A>(s: Seq<A>, p: spec_fn(A) -> bool, x: A)
    ensures
        s.filter(p).contains(x) <==> s.contains(x) && p(x),
{
    if s.filter(p).contains(x) {
        let k = choose|k: int| 0 <= k < s.filter(p).len() && s.filter(p)[k] == x;
        s.lemma_filter_pred(p, k);
        s.lemma_filter_contains_rev(p, x);
    }
    if s.contains(x) && p(x) {
        let i = choose|i: int| 0 <= i < s.len() && s[i] == x;
        s.lemma_filter_contains(p, i);
    }
}

/// After the retired instruments were deleted, an instrument holds what it
/// held before unless it was retired, and then it holds nothing.
pub proof fn lemma_surviving_holds(
    rows: Seq<IdentifierRecordView>,
    retired: Set<i64>,
    x: i64,
    t: IdTuple,
)
    ensures
        holds(surviving_identifiers(rows, retired), x, t) <==> holds(rows, x, t)
            && !retired.contains(x),
{
    let stays = |r: IdentifierRecordView| !retired.contains(r.instrument_dbid);
    let kept = surviving_identifiers(rows, retired);
    if holds(kept, x, t) {
        let k = choose|k: int|
            0 <= k < kept.len() && (#[trigger] kept[k]).instrument_dbid == x && kept[k].tuple()
                == t;
        assert(kept.contains(kept[k]));
        lemma_filter_holds(rows, stays, kept[k]);
        let i = choose|i: int| 0 <= i < rows.len() && rows[i] == kept[k];
        assert(rows[i].instrument_dbid == x && rows[i].tuple() == t);
    }
    if holds(rows, x, t) && !retired.contains(x) {
        let i = choose|i: int|
            0 <= i < rows.len() && (#[trigger] rows[i]).instrument_dbid == x && rows[i].tuple()
                == t;
        assert(rows.contains(rows[i]));
        lemma_filter_holds(rows, stays, rows[i]);
        let k = choose|k: int| 0 <= k < kept.len() && kept[k] == rows[i];
        assert(kept[k].instrument_dbid == x && kept[k].tuple() == t);
    }
}

/// The triples of the retired instruments are what some retired instrument
/// held.
pub proof fn lemma_retired_tuples(rows: Seq<IdentifierRecordView>, retired: Set<i64>, t: IdTuple)
    ensures
        retired_tuples(rows, retired).contains(t) <==> exists|y: i64|
            retired.contains(y) && holds(rows, y, t),
{
    let goes = |r: IdentifierRecordView| retired.contains(r.instrument_dbid);
    let gone = rows.filter(goes);
    let tuples = retired_tuples(rows, retired);
    if tuples.contains(t) {
        let k = choose|k: int| 0 <= k < tuples.len() && tuples[k] == t;
        assert(gone.contains(gone[k]));
        lemma_filter_holds(rows, goes, gone[k]);
        let i = choose|i: int| 0 <= i < rows.len() && rows[i] == gone[k];
        assert(rows[i].instrument_dbid == gone[k].instrument_dbid && rows[i].tuple() == t);
        assert(holds(rows, gone[k].instrument_dbid, t));
    }
    if exists|y: i64| retired.contains(y) && holds(rows, y, t) {
        let y = choose|y: i64| retired.contains(y) && holds(rows, y, t);
        let i = choose|i: int|
            0 <= i < rows.len() && (#[trigger] rows[i]).instrument_dbid == y && rows[i].tuple()
                == t;
        assert(rows.contains(rows[i]));
        lemma_filter_holds(rows, goes, rows[i]);
        let k = choose|k: int| 0 <= k < gone.len() && gone[k] == rows[i];
        assert(tuples[k] == t);
    }
}

/// The rows that a merge writes are held by the survivor, one for each
/// triple written.
pub proof fn lemma_new_claims_hold(
    tuples: Seq<IdTuple>,
    survivor: i64,
    first: int,
    now: Timestamp,
    x: i64,
    t: IdTuple,
)
    ensures
        holds(new_claims(tuples, survivor, first, now), x, t) <==> x == survivor
            && tuples.contains(t),
{
    let rows = new_claims(tuples, survivor, first, now);
    if holds(rows, x, t) {
        let k = choose|k: int|
            0 <= k < rows.len() && (#[trigger] rows[k]).instrument_dbid == x && rows[k].tuple()
                == t;
        assert(tuples[k] == t);
    }
    if x == survivor && tuples.contains(t) {
        let k = choose|k: int| 0 <= k < tuples.len() && tuples[k] == t;
        assert(rows[k].instrument_dbid == x && rows[k].tuple() == t);
    }
}

/// An instrument holds a triple in two tables put together when it holds it
/// in one of them.
pub proof fn lemma_holds_concat(
    a: Seq<IdentifierRecordView>,
    b: Seq<IdentifierRecordView>,
    x: i64,
    t: IdTuple,
)
    ensures
        holds(a + b, x, t) <==> holds(a, x, t) || holds(b, x, t),
{
    let both = a + b;
    if holds(both, x, t) {
        let k = choose|k: int|
            0 <= k < both.len() && (#[trigger] both[k]).instrument_dbid == x && both[k].tuple()
                == t;
        if k < a.len() {
            assert(a[k].instrument_dbid == x && a[k].tuple() == t);
        } else {
            assert(b[k - a.len()].instrument_dbid == x && b[k - a.len()].tuple() == t);
        }
    }
    if holds(a, x, t) {
        let k = choose|k: int|
            0 <= k < a.len() && (#[trigger] a[k]).instrument_dbid == x && a[k].tuple() == t;
        assert(both[k].instrument_dbid == x && both[k].tuple() == t);
    }
    if holds(b, x, t) {
        let k = choose|k: int|
            0 <= k < b.len() && (#[trigger] b[k]).instrument_dbid == x && b[k].tuple() == t;
        assert(both[k + a.len()].instrument_dbid == x && both[k + a.len()].tuple() == t);
    }
}

/// An instrument matches the candidates when it holds one of them.
pub proof fn lemma_matched_holds(
    identifiers: Seq<IdentifierRecordView>,
    candidates: Seq<IdTuple>,
    x: i64,
)
    ensures
        is_matched(identifiers, candidates, x) <==> exists|t: IdTuple|
            candidates.contains(t) && holds(identifiers, x, t),
{
    if is_matched(identifiers, candidates, x) {
        let i = choose|i: int|
            0 <= i < identifiers.len() && (#[trigger] identifiers[i]).instrument_dbid == x
                && candidates.contains(identifiers[i].tuple());
        assert(holds(identifiers, x, identifiers[i].tuple()));
    }
    if exists|t: IdTuple| candidates.contains(t) && holds(identifiers, x, t) {
        let t = choose|t: IdTuple| candidates.contains(t) && holds(identifiers, x, t);
        let i = choose|i: int|
            0 <= i < identifiers.len() && (#[trigger] identifiers[i]).instrument_dbid == x
                && identifiers[i].tuple() == t;
        assert(candidates.contains(identifiers[i].tuple()));
    }
}

/// Who holds what after a merge. The survivor holds what it held, every
/// candidate, and what the retired instruments held. A retired instrument
/// holds nothing. Every other instrument holds what it held.
pub proof fn lemma_merged_holds(
    identifiers: Seq<IdentifierRecordView>,
    candidates: Seq<IdTuple>,
    first: int,
    now: Timestamp,
    x: i64,
    t: IdTuple,
)
    requires
        has_match(identifiers, candidates),
    ensures
        holds(merged_identifiers(identifiers, candidates, first, now), x, t) <==> if x
            == survivor_of(identifiers, candidates) {
            holds(identifiers, x, t) || candidates.contains(t) || exists|y: i64|
                retired_set(identifiers, candidates).contains(y) && holds(identifiers, y, t)
        } else {
            !retired_set(identifiers, candidates).contains(x) && holds(identifiers, x, t)
        },
{
    let retired = retired_set(identifiers, candidates);
    let survivor = survivor_of(identifiers, candidates);
    let kept = surviving_identifiers(identifiers, retired);
    let gone = retired_tuples(identifiers, retired);
    let union = union_tuples(candidates, gone);
    let writes = merge_writes(identifiers, candidates);
    let written = new_claims(writes, survivor, first, now);
    lemma_lowest_survives(identifiers, candidates);
    assert(!retired.contains(survivor));
    lemma_holds_concat(kept, written, x, t);
    lemma_surviving_holds(identifiers, retired, x, t);
    lemma_surviving_holds(identifiers, retired, survivor, t);
    lemma_new_claims_hold(writes, survivor, first, now, x, t);
    lemma_filter_holds(union, |u: IdTuple| !holds(kept, survivor, u), t);
    lemma_distinct_contains(candidates + gone, t);
    lemma_retired_tuples(identifiers, retired, t);
    if (candidates + gone).contains(t) {
        let i = choose|i: int| 0 <= i < (candidates + gone).len() && (candidates + gone)[i] == t;
        if i < candidates.len() {
            assert(candidates[i] == t);
        } else {
            assert(gone[i - candidates.len()] == t);
        }
    }
    if candidates.contains(t) {
        let i = choose|i: int| 0 <= i < candidates.len() && candidates[i] == t;
        assert((candidates + gone)[i] == t);
    }
    if gone.contains(t) {
        let i = choose|i: int| 0 <= i < gone.len() && gone[i] == t;
        assert((candidates + gone)[i + candidates.len()] == t);
    }
}

/// Where something matches, the matching instrument with the lowest id is
/// the survivor.
pub proof fn lemma_lowest_survives(identifiers: Seq<IdentifierRecordView>, candidates: Seq<IdTuple>)
    requires
        has_match(identifiers, candidates),
    ensures
        is_survivor(identifiers, candidates, survivor_of(identifiers, candidates)),
{
    let some = choose|x: i64| is_matched(identifiers, candidates, x);
    let s = lowest_owner(identifiers, candidates, identifiers.len() as int, some);
    lemma_lowest_owner(identifiers, candidates, identifiers.len() as int, some);
    assert forall|x: i64| is_matched(identifiers, candidates, x) implies s <= x by {
        let i = choose|i: int|
            0 <= i < identifiers.len() && (#[trigger] identifiers[i]).instrument_dbid == x
                && candidates.contains(identifiers[i].tuple());
    }
    assert(is_survivor(identifiers, candidates, s));
}

/// The lowest id among `start` and the owners of the first `n` rows whose
/// triple is a candidate.
pub open spec fn lowest_owner(
    identifiers: Seq<IdentifierRecordView>,
    candidates: Seq<IdTuple>,
    n: int,
    start: i64,
) -> i64
    decreases n,
{
    if n <= 0 {
        start
    } else {
        let rest = lowest_owner(identifiers, candidates, n - 1, start);
        if candidates.contains(identifiers[n - 1].tuple()) && identifiers[n - 1].instrument_dbid
            < rest {
            identifiers[n - 1].instrument_dbid
        } else {
            rest
        }
    }
}

/// The lowest owner matches where the start does, and no matching row among
/// the first `n` has a lower owner.
pub proof fn lemma_lowest_owner(
    identifiers: Seq<IdentifierRecordView>,
    candidates: Seq<IdTuple>,
    n: int,
    start: i64,
)
    requires
        0 <= n <= identifiers.len(),
        is_matched(identifiers, candidates, start),
    ensures
        is_matched(identifiers, candidates, lowest_owner(identifiers, candidates, n, start)),
        lowest_owner(identifiers, candidates, n, start) <= start,
        forall|i: int|
            0 <= i < n && candidates.contains((#[trigger] identifiers[i]).tuple())
                ==> lowest_owner(identifiers, candidates, n, start)
                <= identifiers[i].instrument_dbid,
    decreases n,
{
    if n > 0 {
        lemma_lowest_owner(identifiers, candidates, n - 1, start);
        if candidates.contains(identifiers[n - 1].tuple()) {
            assert(is_matched(identifiers, candidates, identifiers[n - 1].instrument_dbid));
        }
    }
}

/// What one merge does to the identifier table, where something matches.
/// The survivor matched. Afterwards it holds everything that a matching
/// instrument held; no other matching instrument holds anything; and an
/// instrument that did not match holds what it held.
pub proof fn lemma_merge_step(
    identifiers: Seq<IdentifierRecordView>,
    candidates: Seq<IdTuple>,
    first: int,
    now: Timestamp,
)
    requires
        has_match(identifiers, candidates),
    ensures
        is_survivor(identifiers, candidates, survivor_of(identifiers, candidates)),
        forall|z: i64, t: IdTuple|
            is_matched(identifiers, candidates, z) && #[trigger] holds(identifiers, z, t)
                ==> holds(
                after_merge(identifiers, candidates, first, now),
                survivor_of(identifiers, candidates),
                t,
            ),
        forall|z: i64, t: IdTuple|
            is_matched(identifiers, candidates, z) && z != survivor_of(identifiers, candidates)
                ==> !#[trigger] holds(after_merge(identifiers, candidates, first, now), z, t),
        forall|z: i64, t: IdTuple|
            !is_matched(identifiers, candidates, z) ==> (#[trigger] holds(
                after_merge(identifiers, candidates, first, now),
                z,
                t,
            ) <==> holds(identifiers, z, t)),
{
    let s = survivor_of(identifiers, candidates);
    let after = after_merge(identifiers, candidates, first, now);
    let retired = retired_set(identifiers, candidates);
    lemma_lowest_survives(identifiers, candidates);
    lemma_survivor_unique(identifiers, candidates, s);
    assert forall|z: i64, t: IdTuple|
        is_matched(identifiers, candidates, z) && #[trigger] holds(
            identifiers,
            z,
            t,
        ) implies holds(after, s, t) by {
        if several_match(identifiers, candidates) {
            lemma_merged_holds(identifiers, candidates, first, now, s, t);
            if z != s {
                assert(retired.contains(z));
            }
        } else {
            if z != s {
                assert(retired.contains(z));
            }
        }
    }
    assert forall|z: i64, t: IdTuple|
        is_matched(identifiers, candidates, z) && z != s implies !#[trigger] holds(
            after,
            z,
            t,
        ) by {
        assert(retired.contains(z));
        lemma_merged_holds(identifiers, candidates, first, now, z, t);
    }
    assert forall|z: i64, t: IdTuple| !is_matched(identifiers, candidates, z) implies (
    #[trigger] holds(after, z, t) <==> holds(identifiers, z, t)) by {
        if several_match(identifiers, candidates) {
            lemma_merged_holds(identifiers, candidates, first, now, z, t);
        }
    }
}

/// After a merge at most one instrument answers to the candidate set: every
/// instrument that still matches the candidates is the survivor, which does
/// match.
pub proof fn lemma_merge_unifies(
    identifiers: Seq<IdentifierRecordView>,
    candidates: Seq<IdTuple>,
    first: int,
    now: Timestamp,
)
    requires
        has_match(identifiers, candidates),
    ensures
        is_survivor(
            after_merge(identifiers, candidates, first, now),
            candidates,
            survivor_of(identifiers, candidates),
        ),
        forall|z: i64|
            is_matched(after_merge(identifiers, candidates, first, now), candidates, z) ==> z
                == survivor_of(identifiers, candidates),
{
    let s = survivor_of(identifiers, candidates);
    let after = after_merge(identifiers, candidates, first, now);
    lemma_merge_step(identifiers, candidates, first, now);
    lemma_matched_holds(identifiers, candidates, s);
    let held = choose|t: IdTuple| candidates.contains(t) && holds(identifiers, s, t);
    assert(holds(after, s, held));
    lemma_matched_holds(after, candidates, s);
    assert forall|z: i64| is_matched(after, candidates, z) implies z == s by {
        lemma_matched_holds(after, candidates, z);
        let t = choose|t: IdTuple| candidates.contains(t) && holds(after, z, t);
        if z != s {
            if is_matched(identifiers, candidates, z) {
                assert(!holds(after, z, t));
            } else {
                assert(holds(identifiers, z, t));
                lemma_matched_holds(identifiers, candidates, z);
            }
        }
    }
}

/// Merging again on the same candidates changes nothing and returns the
/// same survivor.
pub proof fn lemma_merge_idempotent(
    identifiers: Seq<IdentifierRecordView>,
    candidates: Seq<IdTuple>,
    first: int,
    now: Timestamp,
    again_first: int,
    again_now: Timestamp,
)
    ensures
        merge_result(after_merge(identifiers, candidates, first, now), candidates)
            == merge_result(identifiers, candidates),
        after_merge(
            after_merge(identifiers, candidates, first, now),
            candidates,
            again_first,
            again_now,
        ) == after_merge(identifiers, candidates, first, now),
{
    let after = after_merge(identifiers, candidates, first, now);
    if has_match(identifiers, candidates) {
        let s = survivor_of(identifiers, candidates);
        lemma_merge_unifies(identifiers, candidates, first, now);
        lemma_survivor_unique(after, candidates, s);
        assert(!several_match(after, candidates));
    } else {
        assert(!several_match(identifiers, candidates));
    }
}

/// Where exactly one instrument matches, it is the survivor and the merge
/// retires nothing, so that the merge returns it and writes nothing.
pub proof fn lemma_single_match(
    identifiers: Seq<IdentifierRecordView>,
    candidates: Seq<IdTuple>,
    only: i64,
)
    requires
        is_matched(identifiers, candidates, only),
        forall|x: i64| is_matched(identifiers, candidates, x) ==> x == only,
    ensures
        merge_result(identifiers, candidates) == Some(only),
        !several_match(identifiers, candidates),
{
    assert(is_survivor(identifiers, candidates, only));
    lemma_survivor_unique(identifiers, candidates, only);
}

/// An empty candidate set matches nothing, so that the merge returns
/// nothing and writes nothing.
pub proof fn lemma_no_candidates(identifiers: Seq<IdentifierRecordView>)
    ensures
        merge_result(identifiers, Seq::<IdTuple>::empty()) == None::<i64>,
        !several_match(identifiers, Seq::<IdTuple>::empty()),
{
    assert forall|x: i64| !is_matched(identifiers, Seq::<IdTuple>::empty(), x) by {}
}

/// Candidates that no identifier row holds match nothing, so that the merge
/// returns nothing and writes nothing.
pub proof fn lemma_unknown_candidates(identifiers: Seq<IdentifierRecordView>, candidates: Seq<IdTuple>)
    requires
        forall|i: int|
            0 <= i < identifiers.len() ==> !candidates.contains(
                (#[trigger] identifiers[i]).tuple(),
            ),
    ensures
        merge_result(identifiers, candidates) == None::<i64>,
        !several_match(identifiers, candidates),
{
    assert forall|x: i64| !is_matched(identifiers, candidates, x) by {}
}

/// Two merges converge. Let instruments `a` and `b` share the triple `x`,
/// and `b` and `c` share the triple `y`. After a merge on `x` and then a
/// merge on `y`, the survivor of the second merge holds every triple that
/// `a`, `b` or `c` held, and of the three instruments none but that survivor
/// holds anything.
pub proof fn lemma_merge_converges(
    identifiers: Seq<IdentifierRecordView>,
    a: i64,
    b: i64,
    c: i64,
    x: IdTuple,
    y: IdTuple,
    first: int,
    now: Timestamp,
    second_first: int,
    second_now: Timestamp,
)
    requires
        a != b,
        b != c,
        a != c,
        holds(identifiers, a, x),
        holds(identifiers, b, x),
        holds(identifiers, b, y),
        holds(identifiers, c, y),
    ensures
        ({
            let once = after_merge(identifiers, seq![x], first, now);
            let twice = after_merge(once, seq![y], second_first, second_now);
            let survivor = survivor_of(once, seq![y]);
            &&& merge_result(once, seq![y]) == Some(survivor)
            &&& forall|t: IdTuple|
                holds(identifiers, a, t) || holds(identifiers, b, t) || holds(identifiers, c, t)
                    ==> #[trigger] holds(twice, survivor, t)
            &&& forall|t: IdTuple| a != survivor ==> !#[trigger] holds(twice, a, t)
            &&& forall|t: IdTuple| b != survivor ==> !#[trigger] holds(twice, b, t)
            &&& forall|t: IdTuple| c != survivor ==> !#[trigger] holds(twice, c, t)
        }),
{
    let on_x = seq![x];
    let on_y = seq![y];
    let once = after_merge(identifiers, on_x, first, now);
    let twice = after_merge(once, on_y, second_first, second_now);
    assert(on_x[0] == x);
    assert(on_x.contains(x));
    assert(on_y[0] == y);
    assert(on_y.contains(y));
    lemma_matched_holds(identifiers, on_x, a);
    lemma_matched_holds(identifiers, on_x, b);
    assert(is_matched(identifiers, on_x, a) && is_matched(identifiers, on_x, b));
    let s1 = survivor_of(identifiers, on_x);
    lemma_merge_step(identifiers, on_x, first, now);
    assert(holds(once, s1, y));
    lemma_matched_holds(once, on_y, s1);
    assert(is_matched(once, on_y, s1));
    let s2 = survivor_of(once, on_y);
    lemma_merge_step(once, on_y, second_first, second_now);
    lemma_matched_holds(once, on_y, c);
    // What `a` and `b` held is held by the first survivor, then by the second.
    assert forall|t: IdTuple|
        holds(identifiers, a, t) || holds(identifiers, b, t) || holds(
            identifiers,
            c,
            t,
        ) implies #[trigger] holds(twice, s2, t) by {
        if holds(identifiers, a, t) || holds(identifiers, b, t) {
            assert(holds(once, s1, t));
        } else if is_matched(identifiers, on_x, c) {
            assert(holds(once, s1, t));
        } else {
            assert(holds(once, c, t));
            assert(holds(once, c, y));
            assert(is_matched(once, on_y, c));
        }
    }
    assert forall|t: IdTuple| a != s2 implies !#[trigger] holds(twice, a, t) by {
        if a != s2 {
            if a == s1 {
            } else {
                assert(!holds(once, a, t));
                if is_matched(once, on_y, a) {
                } else {
                }
            }
        }
    }
    assert forall|t: IdTuple| b != s2 implies !#[trigger] holds(twice, b, t) by {
        if b != s2 {
            if b == s1 {
            } else {
                assert(!holds(once, b, t));
                if is_matched(once, on_y, b) {
                } else {
                }
            }
        }
    }
    assert forall|t: IdTuple| c != s2 implies !#[trigger] holds(twice, c, t) by {
        if c != s2 {
            if is_matched(identifiers, on_x, c) {
                if c == s1 {
                } else {
                    assert(!holds(once, c, t));
                    if is_matched(once, on_y, c) {
                    } else {
                    }
                }
            } else {
                assert(holds(once, c, y));
                assert(is_matched(once, on_y, c));
            }
        }
    }
}

/// Whether the table holds an instrument with the id.
pub open spec fn instrument_exists(instruments: Seq<InstrumentRecord>, dbid: i64) -> bool {
    exists|i: int| 0 <= i < instruments.len() && (#[trigger] instruments[i]).dbid == dbid
}

impl DataStore {
    /// Whether every reference to an instrument names an instrument of the
    /// store: in transactions, prices, identifiers and derivatives.
    pub open spec fn references_resolve(&self) -> bool {
        &&& forall|i: int|
            0 <= i < self.transactions@.len() ==> instrument_exists(
                self.instruments@,
                (#[trigger] self.transactions@[i]).instrument_dbid,
            )
        &&& forall|i: int|
            0 <= i < self.prices@.len() ==> instrument_exists(
                self.instruments@,
                (#[trigger] self.prices@[i]).instrument_dbid,
            )
        &&& forall|i: int|
            0 <= i < self.identifier_views().len() ==> instrument_exists(
                self.instruments@,
                (#[trigger] self.identifier_views()[i]).instrument_dbid,
            )
        &&& forall|i: int|
            0 <= i < self.derivatives@.len() ==> instrument_exists(
                self.instruments@,
                (#[trigger] self.derivatives@[i]).instrument_dbid,
            ) && instrument_exists(self.instruments@, self.derivatives@[i].underlying_dbid)
    }
}

/// The identifier table of a store that a merge left is the table after the
/// merge.
pub proof fn lemma_follows_merge_identifiers(
    after: DataStore,
    before: DataStore,
    candidates: Seq<IdTuple>,
    now: Timestamp,
)
    requires
        after.follows_merge(&before, candidates, now),
    ensures
        after.identifier_views() == after_merge(
            before.identifier_views(),
            candidates,
            before.next_dbid as int,
            now,
        ),
{
}

/// An instrument that survives a merge is still in the instrument table, and
/// a retired one is not.
pub proof fn lemma_surviving_instruments(
    instruments: Seq<InstrumentRecord>,
    retired: Set<i64>,
    dbid: i64,
)
    ensures
        instrument_exists(surviving_instruments(instruments, retired), dbid)
            <==> instrument_exists(instruments, dbid) && !retired.contains(dbid),
{
    let stays = |i: InstrumentRecord| !retired.contains(i.dbid);
    let kept = surviving_instruments(instruments, retired);
    if instrument_exists(kept, dbid) {
        let k = choose|k: int| 0 <= k < kept.len() && (#[trigger] kept[k]).dbid == dbid;
        assert(kept.contains(kept[k]));
        lemma_filter_holds(instruments, stays, kept[k]);
        let i = choose|i: int| 0 <= i < instruments.len() && instruments[i] == kept[k];
        assert(instruments[i].dbid == dbid);
    }
    if instrument_exists(instruments, dbid) && !retired.contains(dbid) {
        let i = choose|i: int| 0 <= i < instruments.len() && (#[trigger] instruments[i]).dbid == dbid;
        assert(instruments.contains(instruments[i]));
        lemma_filter_holds(instruments, stays, instruments[i]);
        let k = choose|k: int| 0 <= k < kept.len() && kept[k] == instruments[i];
        assert(kept[k].dbid == dbid);
    }
}

/// A merge keeps references intact. Every transaction and every price that
/// referred to a retired instrument refers to the survivor afterwards, and
/// where every reference named an instrument of the store before the merge,
/// every reference does so after it.
pub proof fn lemma_merge_keeps_references(
    after: DataStore,
    before: DataStore,
    candidates: Seq<IdTuple>,
    now: Timestamp,
)
    requires
        before.references_resolve(),
        after.follows_merge(&before, candidates, now),
    ensures
        after.references_resolve(),
        after.transactions@.len() == before.transactions@.len(),
        after.prices@.len() == before.prices@.len(),
        forall|i: int|
            0 <= i < before.transactions@.len() && retired_set(
                before.identifier_views(),
                candidates,
            ).contains(before.transactions@[i].instrument_dbid) ==> (
            #[trigger] after.transactions@[i]).instrument_dbid == survivor_of(
                before.identifier_views(),
                candidates,
            ),
        forall|i: int|
            0 <= i < before.prices@.len() && retired_set(
                before.identifier_views(),
                candidates,
            ).contains(before.prices@[i].instrument_dbid) ==> (
            #[trigger] after.prices@[i]).instrument_dbid == survivor_of(
                before.identifier_views(),
                candidates,
            ),
{
    let ids = before.identifier_views();
    if several_match(ids, candidates) {
        let retired = retired_set(ids, candidates);
        let survivor = survivor_of(ids, candidates);
        let some = choose|x: i64| retired.contains(x);
        assert(is_matched(ids, candidates, some));
        lemma_lowest_survives(ids, candidates);
        lemma_survivor_unique(ids, candidates, survivor);
        let w = choose|w: int|
            0 <= w < ids.len() && (#[trigger] ids[w]).instrument_dbid == survivor
                && candidates.contains(ids[w].tuple());
        assert(instrument_exists(before.instruments@, survivor));
        assert forall|x: i64|
            instrument_exists(before.instruments@, x) implies #[trigger] instrument_exists(
            after.instruments@,
            repoint(x, retired, survivor),
        ) by {
            lemma_surviving_instruments(before.instruments@, retired, repoint(x, retired, survivor));
        }
        assert forall|i: int| 0 <= i < after.transactions@.len() implies instrument_exists(
            after.instruments@,
            (#[trigger] after.transactions@[i]).instrument_dbid,
        ) by {
            assert(instrument_exists(
                before.instruments@,
                before.transactions@[i].instrument_dbid,
            ));
        }
        assert forall|i: int| 0 <= i < after.prices@.len() implies instrument_exists(
            after.instruments@,
            (#[trigger] after.prices@[i]).instrument_dbid,
        ) by {
            assert(instrument_exists(before.instruments@, before.prices@[i].instrument_dbid));
        }
        let kept = surviving_identifiers(ids, retired);
        let written = new_claims(
            merge_writes(ids, candidates),
            survivor,
            before.next_dbid as int,
            now,
        );
        assert forall|i: int| 0 <= i < after.identifier_views().len() implies instrument_exists(
            after.instruments@,
            (#[trigger] after.identifier_views()[i]).instrument_dbid,
        ) by {
            let row = after.identifier_views()[i];
            if i < kept.len() {
                assert(row == kept[i]);
                assert(kept.contains(row));
                lemma_filter_holds(
                    ids,
                    |r: IdentifierRecordView| !retired.contains(r.instrument_dbid),
                    row,
                );
                let j = choose|j: int| 0 <= j < ids.len() && ids[j] == row;
                assert(instrument_exists(before.instruments@, ids[j].instrument_dbid));
                assert(repoint(row.instrument_dbid, retired, survivor) == row.instrument_dbid);
            } else {
                assert(row == written[i - kept.len()]);
                assert(repoint(survivor, retired, survivor) == survivor);
            }
        }
        let stays = |d: DerivativeRecord| !retired.contains(d.instrument_dbid);
        let left = before.derivatives@.filter(stays);
        assert forall|i: int| 0 <= i < after.derivatives@.len() implies instrument_exists(
            after.instruments@,
            (#[trigger] after.derivatives@[i]).instrument_dbid,
        ) && instrument_exists(after.instruments@, after.derivatives@[i].underlying_dbid) by {
            let row = left[i];
            assert(left.contains(row));
            lemma_filter_holds(before.derivatives@, stays, row);
            let j = choose|j: int|
                0 <= j < before.derivatives@.len() && before.derivatives@[j] == row;
            assert(instrument_exists(before.instruments@, before.derivatives@[j].instrument_dbid));
            assert(instrument_exists(before.instruments@, before.derivatives@[j].underlying_dbid));
            assert(repoint(row.instrument_dbid, retired, survivor) == row.instrument_dbid);
        }
    }
}

/// Two merges converge in the store. Let instruments `a` and `b` share the
/// triple `x`, and `b` and `c` share the triple `y`. After a merge on `x`
/// and then a merge on `y`, the survivor of the second merge holds every
/// triple that `a`, `b` or `c` held, and of the three none but that survivor
/// is left as an instrument or holds an identifier.
pub proof fn lemma_stores_converge(
    start: DataStore,
    once: DataStore,
    twice: DataStore,
    a: i64,
    b: i64,
    c: i64,
    x: IdTuple,
    y: IdTuple,
    now: Timestamp,
    second_now: Timestamp,
)
    requires
        a != b,
        b != c,
        a != c,
        holds(start.identifier_views(), a, x),
        holds(start.identifier_views(), b, x),
        holds(start.identifier_views(), b, y),
        holds(start.identifier_views(), c, y),
        once.follows_merge(&start, seq![x], now),
        twice.follows_merge(&once, seq![y], second_now),
    ensures
        ({
            let survivor = survivor_of(once.identifier_views(), seq![y]);
            &&& merge_result(once.identifier_views(), seq![y]) == Some(survivor)
            &&& forall|t: IdTuple|
                holds(start.identifier_views(), a, t) || holds(start.identifier_views(), b, t)
                    || holds(start.identifier_views(), c, t) ==> #[trigger] holds(
                    twice.identifier_views(),
                    survivor,
                    t,
                )
            &&& forall|z: i64, t: IdTuple|
                (z == a || z == b || z == c) && z != survivor ==> !#[trigger] holds(
                    twice.identifier_views(),
                    z,
                    t,
                )
            &&& forall|z: i64|
                (z == a || z == b || z == c) && z != survivor ==> !#[trigger] instrument_exists(
                    twice.instruments@,
                    z,
                )
        }),
{
    let ids0 = start.identifier_views();
    let ids1 = once.identifier_views();
    let on_x = seq![x];
    let on_y = seq![y];
    lemma_follows_merge_identifiers(once, start, on_x, now);
    lemma_follows_merge_identifiers(twice, once, on_y, second_now);
    lemma_merge_converges(
        ids0,
        a,
        b,
        c,
        x,
        y,
        start.next_dbid as int,
        now,
        once.next_dbid as int,
        second_now,
    );
    let s1 = survivor_of(ids0, on_x);
    let s2 = survivor_of(ids1, on_y);
    assert(on_x[0] == x);
    assert(on_x.contains(x));
    assert(on_y[0] == y);
    assert(on_y.contains(y));
    lemma_matched_holds(ids0, on_x, a);
    lemma_matched_holds(ids0, on_x, b);
    lemma_merge_step(ids0, on_x, start.next_dbid as int, now);
    lemma_survivor_unique(ids0, on_x, s1);
    assert(holds(ids1, s1, y));
    lemma_matched_holds(ids1, on_y, s1);
    lemma_matched_holds(ids1, on_y, c);
    lemma_merge_step(ids1, on_y, once.next_dbid as int, second_now);
    lemma_survivor_unique(ids1, on_y, s2);
    let r1 = retired_set(ids0, on_x);
    let r2 = retired_set(ids1, on_y);
    assert(r1.contains(a) || r1.contains(b));
    assert(several_match(ids0, on_x));
    assert forall|z: i64|
        (z == a || z == b || z == c) && z != s2 implies !#[trigger] instrument_exists(
        twice.instruments@,
        z,
    ) by {
        lemma_surviving_instruments(start.instruments@, r1, z);
        if r1.contains(z) {
            if several_match(ids1, on_y) {
                lemma_surviving_instruments(once.instruments@, r2, z);
            }
        } else {
            // z was not retired by the first merge, so it holds `y` after
            // it and the second merge retires it.
            if z == c && !is_matched(ids0, on_x, c) {
                assert(holds(ids1, c, y));
            }
            assert(is_matched(ids1, on_y, z));
            assert(r2.contains(z));
            assert(several_match(ids1, on_y));
            lemma_surviving_instruments(once.instruments@, r2, z);
        }
    }
}

} // verus!
