//! Finding the canonical instruments that a set of identifier claims
//! matches, and deciding what a merge has to do about them.

use vstd::prelude::*;
use crate::identifier::{tuples_of, IdTuple, Identifier};
use crate::ingest::identifier_views;
use crate::models::{IdentifierRecord, IdentifierRecordView};
use crate::store::DataStore;

verus! {

/// Whether the instrument holds an identifier whose triple is one of the
/// candidates.
pub open spec fn is_matched(
    identifiers: Seq<IdentifierRecordView>,
    candidates: Seq<IdTuple>,
    instrument_dbid: i64,
) -> bool {
    exists|i: int|
        0 <= i < identifiers.len() && (#[trigger] identifiers[i]).instrument_dbid
            == instrument_dbid && candidates.contains(identifiers[i].tuple())
}

/// Whether the instrument is the survivor of a merge on the candidates: it
/// matches, and no matching instrument has a lower id.
pub open spec fn is_survivor(
    identifiers: Seq<IdentifierRecordView>,
    candidates: Seq<IdTuple>,
    instrument_dbid: i64,
) -> bool {
    is_matched(identifiers, candidates, instrument_dbid) && forall|x: i64|
        is_matched(identifiers, candidates, x) ==> instrument_dbid <= x
}

/// The instruments that a merge on the candidates retires: those that match
/// and are not the survivor.
pub open spec fn retired_set(
    identifiers: Seq<IdentifierRecordView>,
    candidates: Seq<IdTuple>,
) -> Set<i64> {
    Set::new(
        |x: i64|
            is_matched(identifiers, candidates, x) && !is_survivor(identifiers, candidates, x),
    )
}

/// What a merge has to do, given the instruments that matched.
#[derive(Debug, PartialEq, Eq)]
pub enum MergePlan {
    /// Nothing matched: there is nothing to merge.
    NoMatch,
    /// One instrument matched: it stays as it is.
    Single(i64),
    /// Several instruments matched: `retiring` are merged into `survivor`.
    Merge { survivor: i64, retiring: Vec<i64> },
}

/// Whether `lowest` occurs in the list and nothing in the list is lower.
pub open spec fn is_lowest(ids: Seq<i64>, lowest: i64) -> bool {
    ids.contains(lowest) && forall|i: int| 0 <= i < ids.len() ==> lowest <= #[trigger] ids[i]
}

/// Whether a value is in a list of ids.
pub fn contains_id(ids: &Vec<i64>, x: i64) -> (r: bool)
    ensures
        r == ids@.contains(x),
{
    let mut i: usize = 0;
    while i < ids.len()
        invariant
            i <= ids.len(),
            forall|j: int| 0 <= j < i ==> ids@[j] != x,
        decreases ids.len() - i,
    {
        if ids[i] == x {
            return true;
        }
        i += 1;
    }
    false
}

/// The ids of a list other than `survivor`, each once, in order of first
/// occurrence.
pub open spec fn retirees(ids: Seq<i64>, survivor: i64) -> Seq<i64>
    decreases ids.len(),
{
    if ids.len() == 0 {
        Seq::empty()
    } else {
        let front = retirees(ids.drop_last(), survivor);
        if ids.last() != survivor && !front.contains(ids.last()) {
            front.push(ids.last())
        } else {
            front
        }
    }
}

/// The retirees are the ids of the list other than the survivor.
pub proof fn lemma_retirees_contains(ids: Seq<i64>, survivor: i64, x: i64)
    ensures
        retirees(ids, survivor).contains(x) <==> ids.contains(x) && x != survivor,
    decreases ids.len(),
{
    if ids.len() > 0 {
        let front_ids = ids.drop_last();
        let last = ids.last();
        lemma_retirees_contains(front_ids, survivor, x);
        let front = retirees(front_ids, survivor);
        let all = retirees(ids, survivor);
        if all.contains(x) {
            let w = choose|w: int| 0 <= w < all.len() && all[w] == x;
            if w < front.len() {
                assert(front[w] == x);
                assert(front.contains(x));
                let v = choose|v: int| 0 <= v < front_ids.len() && front_ids[v] == x;
                assert(ids[v] == x);
            } else {
                assert(x == last);
                assert(ids[ids.len() - 1] == x);
            }
        }
        if ids.contains(x) && x != survivor {
            let v = choose|v: int| 0 <= v < ids.len() && ids[v] == x;
            if v < ids.len() - 1 {
                assert(front_ids[v] == x);
                assert(front_ids.contains(x));
                let w = choose|w: int| 0 <= w < front.len() && front[w] == x;
                assert(all[w] == x);
            } else {
                assert(x == last);
                if front.contains(x) {
                    let w = choose|w: int| 0 <= w < front.len() && front[w] == x;
                    assert(all[w] == x);
                } else {
                    assert(all[front.len() as int] == x);
                }
            }
        }
    }
}

/// No id is retired twice.
pub proof fn lemma_retirees_distinct(ids: Seq<i64>, survivor: i64)
    ensures
        retirees(ids, survivor).no_duplicates(),
    decreases ids.len(),
{
    if ids.len() > 0 {
        lemma_retirees_distinct(ids.drop_last(), survivor);
    }
}

/// Decides what a merge does from the ids of the instruments that matched,
/// in any order and with repetitions. The survivor is the lowest id; every
/// other id that occurs is retired, each once, in order of first occurrence.
/// Where no other id occurs there is nothing to merge.
pub fn plan_merge(matched: &Vec<i64>) -> (plan: MergePlan)
    ensures
        matched@.len() == 0 <==> plan == MergePlan::NoMatch,
        match plan {
            MergePlan::NoMatch => true,
            MergePlan::Single(survivor) => is_lowest(matched@, survivor) && retirees(
                matched@,
                survivor,
            ).len() == 0,
            MergePlan::Merge { survivor, retiring } => is_lowest(matched@, survivor)
                && retiring@.len() > 0 && retiring@ == retirees(matched@, survivor),
        },
{
    if matched.len() == 0 {
        return MergePlan::NoMatch;
    }
    let mut survivor: i64 = matched[0];
    let mut i: usize = 1;
    assert(matched@.take(1)[0] == survivor);
    while i < matched.len()
        invariant
            1 <= i <= matched.len(),
            is_lowest(matched@.take(i as int), survivor),
        decreases matched.len() - i,
    {
        proof {
            let front = matched@.take(i as int);
            let next = matched@.take(i + 1);
            let w = choose|w: int| 0 <= w < front.len() && front[w] == survivor;
            assert(next[w] == survivor);
            assert(next[i as int] == matched@[i as int]);
            assert forall|j: int| 0 <= j < next.len() implies (if matched@[i as int]
                < survivor {
                matched@[i as int]
            } else {
                survivor
            }) <= #[trigger] next[j] by {
                if j < i {
                    assert(front[j] == next[j]);
                }
            }
        }
        if matched[i] < survivor {
            survivor = matched[i];
        }
        i += 1;
    }
    assert(matched@.take(i as int) =~= matched@);
    let mut retiring: Vec<i64> = Vec::new();
    let mut k: usize = 0;
    while k < matched.len()
        invariant
            k <= matched.len(),
            retiring@ == retirees(matched@.take(k as int), survivor),
        decreases matched.len() - k,
    {
        let x: i64 = matched[k];
        let seen: bool = contains_id(&retiring, x);
        proof {
            assert(matched@.take(k + 1).drop_last() =~= matched@.take(k as int));
            assert(matched@.take(k + 1).last() == x);
        }
        if x != survivor && !seen {
            retiring.push(x);
        }
        k += 1;
    }
    assert(matched@.take(k as int) =~= matched@);
    if retiring.len() == 0 {
        MergePlan::Single(survivor)
    } else {
        MergePlan::Merge { survivor, retiring }
    }
}

/// The instrument ids of the identifier rows whose triple is one of the
/// candidates, one per matching row, in table order.
pub open spec fn matched_ids(identifiers: Seq<IdentifierRecordView>, candidates: Seq<IdTuple>) -> Seq<
    i64,
> {
    identifiers.filter(|r: IdentifierRecordView| candidates.contains(r.tuple())).map_values(
        |r: IdentifierRecordView| r.instrument_dbid,
    )
}

/// The matching rows name exactly the instruments that match.
pub proof fn lemma_matched_ids(
    identifiers: Seq<IdentifierRecordView>,
    candidates: Seq<IdTuple>,
    x: i64,
)
    ensures
        matched_ids(identifiers, candidates).contains(x) <==> is_matched(identifiers, candidates, x),
{
    let hit = |r: IdentifierRecordView| candidates.contains(r.tuple());
    let rows = identifiers.filter(hit);
    let ids = matched_ids(identifiers, candidates);
    if ids.contains(x) {
        let k = choose|k: int| 0 <= k < ids.len() && ids[k] == x;
        identifiers.lemma_filter_pred(hit, k);
        identifiers.lemma_filter_contains_rev(hit, rows[k]);
        let i = choose|i: int| 0 <= i < identifiers.len() && identifiers[i] == rows[k];
        assert(identifiers[i].instrument_dbid == x && candidates.contains(
            identifiers[i].tuple(),
        ));
    }
    if is_matched(identifiers, candidates, x) {
        let i = choose|i: int|
            0 <= i < identifiers.len() && (#[trigger] identifiers[i]).instrument_dbid == x
                && candidates.contains(identifiers[i].tuple());
        identifiers.lemma_filter_contains(hit, i);
        let k = choose|k: int| 0 <= k < rows.len() && rows[k] == identifiers[i];
        assert(ids[k] == x);
    }
}

/// Whether the triple of a canonical identifier is one of the candidates.
pub fn is_candidate(candidates: &Vec<Identifier>, row: &IdentifierRecord) -> (r: bool)
    ensures
        r == tuples_of(candidates@).contains(row@.tuple()),
{
    let mut i: usize = 0;
    while i < candidates.len()
        invariant
            i <= candidates.len(),
            forall|j: int| 0 <= j < i ==> tuples_of(candidates@)[j] != row@.tuple(),
        decreases candidates.len() - i,
    {
        let c: &Identifier = &candidates[i];
        if c.namespace == row.namespace && c.domain == row.domain && c.identifier == row.id {
            assert(tuples_of(candidates@)[i as int] == row@.tuple());
            return true;
        }
        i += 1;
    }
    false
}

impl DataStore {
    /// Finds the identifier rows whose namespace, domain and identifier
    /// equal those of a candidate, and returns the instrument id of each, in
    /// table order.
    pub fn find_matches(&self, candidates: &Vec<Identifier>) -> (r: Vec<i64>)
        ensures
            r@ == matched_ids(self.identifier_views(), tuples_of(candidates@)),
    {
        let ghost rows = self.identifier_views();
        let ghost hit = |r: IdentifierRecordView| tuples_of(candidates@).contains(r.tuple());
        let ghost owner = |r: IdentifierRecordView| r.instrument_dbid;
        let mut out: Vec<i64> = Vec::new();
        let mut i: usize = 0;
        proof {
            reveal(Seq::filter);
            assert(rows.take(0).filter(hit) =~= Seq::empty());
        }
        while i < self.identifiers.len()
            invariant
                i <= self.identifiers.len(),
                rows == self.identifier_views(),
                hit == |r: IdentifierRecordView| tuples_of(candidates@).contains(r.tuple()),
                owner == |r: IdentifierRecordView| r.instrument_dbid,
                out@ == rows.take(i as int).filter(hit).map_values(owner),
            decreases self.identifiers.len() - i,
        {
            let row: &IdentifierRecord = &self.identifiers[i];
            let keep: bool = is_candidate(candidates, row);
            proof {
                assert(rows.take(i + 1) =~= rows.take(i as int).push(rows[i as int]));
                rows.take(i as int).lemma_filter_push(rows[i as int], hit);
            }
            if keep {
                let ghost prev = out@;
                out.push(row.instrument_dbid);
                assert(out@ =~= rows.take(i + 1).filter(hit).map_values(owner));
            }
            i += 1;
        }
        assert(rows.take(i as int) =~= rows);
        out
    }
}

} // verus!
