//! Merging duplicate instruments: the instruments that share identifiers
//! with a candidate set are collapsed into one survivor, and everything that
//! referred to the others is re-pointed.

use vstd::prelude::*;
use crate::identifier::{tuples_of, IdTuple, Identifier};
use crate::ingest::identifier_views;
use crate::errors::StoreError;
use crate::matching::{contains_id, is_matched, retirees, is_survivor, lemma_matched_ids, lemma_retirees_contains, plan_merge, retired_set, MergePlan};
use crate::store::DataStore;
use crate::models::{DerivativeRecord, IdentifierRecord, IdentifierRecordView, InstrumentRecord, Price, Transaction};
use crate::timestamp::Timestamp;

verus! {

/// An instrument reference after a merge: the survivor where it named a
/// retired instrument, otherwise what it was.
pub open spec fn repoint(instrument_dbid: i64, retired: Set<i64>, survivor: i64) -> i64 {
    if retired.contains(instrument_dbid) {
        survivor
    } else {
        instrument_dbid
    }
}

/// The transactions after a merge: every row that referred to a retired
/// instrument refers to the survivor.
pub open spec fn repointed_transactions(
    rows: Seq<Transaction>,
    retired: Set<i64>,
    survivor: i64,
) -> Seq<Transaction> {
    rows.map_values(
        |t: Transaction|
            Transaction { instrument_dbid: repoint(t.instrument_dbid, retired, survivor), ..t },
    )
}

/// The prices after a merge: every row that referred to a retired instrument
/// refers to the survivor.
pub open spec fn repointed_prices(rows: Seq<Price>, retired: Set<i64>, survivor: i64) -> Seq<
    Price,
> {
    rows.map_values(
        |p: Price| Price { instrument_dbid: repoint(p.instrument_dbid, retired, survivor), ..p },
    )
}

/// The derivative rows after a merge: the rows owned by a retired instrument
/// go with it; in the others an underlying that was retired becomes the
/// survivor, and the owning instrument is left alone.
pub open spec fn surviving_derivatives(
    rows: Seq<DerivativeRecord>,
    retired: Set<i64>,
    survivor: i64,
) -> Seq<DerivativeRecord> {
    rows.filter(|d: DerivativeRecord| !retired.contains(d.instrument_dbid)).map_values(
        |d: DerivativeRecord|
            DerivativeRecord { underlying_dbid: repoint(d.underlying_dbid, retired, survivor), ..d },
    )
}

/// The instruments after a merge: all but the retired ones.
pub open spec fn surviving_instruments(rows: Seq<InstrumentRecord>, retired: Set<i64>) -> Seq<
    InstrumentRecord,
> {
    rows.filter(|i: InstrumentRecord| !retired.contains(i.dbid))
}

/// Re-points the transactions of retired instruments to the survivor.
pub fn repoint_transactions(rows: &mut Vec<Transaction>, retiring: &Vec<i64>, survivor: i64)
    ensures
        final(rows)@ == repointed_transactions(old(rows)@, retiring@.to_set(), survivor),
{
    let ghost retired = retiring@.to_set();
    let mut i: usize = 0;
    while i < rows.len()
        invariant
            i <= rows.len(),
            rows.len() == old(rows).len(),
            retired == retiring@.to_set(),
            forall|j: int|
                0 <= j < i ==> #[trigger] rows@[j] == (Transaction {
                    instrument_dbid: repoint(old(rows)@[j].instrument_dbid, retired, survivor),
                    ..old(rows)@[j]
                }),
            forall|j: int| i <= j < rows.len() ==> #[trigger] rows@[j] == old(rows)@[j],
        decreases rows.len() - i,
    {
        if contains_id(retiring, rows[i].instrument_dbid) {
            let mut row: Transaction = rows[i].clone();
            row.instrument_dbid = survivor;
            rows.set(i, row);
        }
        i += 1;
    }
    assert(rows@ =~= repointed_transactions(old(rows)@, retired, survivor));
}

/// Re-points the prices of retired instruments to the survivor.
pub fn repoint_prices(rows: &mut Vec<Price>, retiring: &Vec<i64>, survivor: i64)
    ensures
        final(rows)@ == repointed_prices(old(rows)@, retiring@.to_set(), survivor),
{
    let ghost retired = retiring@.to_set();
    let mut i: usize = 0;
    while i < rows.len()
        invariant
            i <= rows.len(),
            rows.len() == old(rows).len(),
            retired == retiring@.to_set(),
            forall|j: int|
                0 <= j < i ==> #[trigger] rows@[j] == (Price {
                    instrument_dbid: repoint(old(rows)@[j].instrument_dbid, retired, survivor),
                    ..old(rows)@[j]
                }),
            forall|j: int| i <= j < rows.len() ==> #[trigger] rows@[j] == old(rows)@[j],
        decreases rows.len() - i,
    {
        if contains_id(retiring, rows[i].instrument_dbid) {
            let mut row: Price = rows[i];
            row.instrument_dbid = survivor;
            rows.set(i, row);
        }
        i += 1;
    }
    assert(rows@ =~= repointed_prices(old(rows)@, retired, survivor));
}

/// Drops the derivative rows of retired instruments and re-points the
/// underlying of the others.
pub fn keep_derivatives(rows: &Vec<DerivativeRecord>, retiring: &Vec<i64>, survivor: i64) -> (r:
    Vec<DerivativeRecord>)
    ensures
        r@ == surviving_derivatives(rows@, retiring@.to_set(), survivor),
{
    let ghost retired = retiring@.to_set();
    let ghost stays = |d: DerivativeRecord| !retired.contains(d.instrument_dbid);
    let ghost moved = |d: DerivativeRecord|
        DerivativeRecord { underlying_dbid: repoint(d.underlying_dbid, retired, survivor), ..d };
    let mut out: Vec<DerivativeRecord> = Vec::new();
    let mut i: usize = 0;
    proof {
        reveal(Seq::filter);
        assert(rows@.take(0).filter(stays) =~= Seq::empty());
    }
    while i < rows.len()
        invariant
            i <= rows.len(),
            retired == retiring@.to_set(),
            stays == |d: DerivativeRecord| !retired.contains(d.instrument_dbid),
            moved == |d: DerivativeRecord|
                (DerivativeRecord {
                    underlying_dbid: repoint(d.underlying_dbid, retired, survivor),
                    ..d
                }),
            out@ == rows@.take(i as int).filter(stays).map_values(moved),
        decreases rows.len() - i,
    {
        let row: DerivativeRecord = rows[i];
        let gone: bool = contains_id(retiring, row.instrument_dbid);
        proof {
            assert(rows@.take(i + 1) =~= rows@.take(i as int).push(rows@[i as int]));
            rows@.take(i as int).lemma_filter_push(rows@[i as int], stays);
        }
        if !gone {
            let mut kept: DerivativeRecord = row;
            if contains_id(retiring, row.underlying_dbid) {
                kept.underlying_dbid = survivor;
            }
            out.push(kept);
            assert(out@ =~= rows@.take(i + 1).filter(stays).map_values(moved));
        }
        i += 1;
    }
    assert(rows@.take(i as int) =~= rows@);
    out
}

/// Drops the retired instruments.
pub fn keep_instruments(rows: &Vec<InstrumentRecord>, retiring: &Vec<i64>) -> (r: Vec<
    InstrumentRecord,
>)
    ensures
        r@ == surviving_instruments(rows@, retiring@.to_set()),
{
    let ghost retired = retiring@.to_set();
    let ghost stays = |i: InstrumentRecord| !retired.contains(i.dbid);
    let mut out: Vec<InstrumentRecord> = Vec::new();
    let mut i: usize = 0;
    proof {
        reveal(Seq::filter);
        assert(rows@.take(0).filter(stays) =~= Seq::empty());
    }
    while i < rows.len()
        invariant
            i <= rows.len(),
            retired == retiring@.to_set(),
            stays == |i: InstrumentRecord| !retired.contains(i.dbid),
            out@ == rows@.take(i as int).filter(stays),
        decreases rows.len() - i,
    {
        let gone: bool = contains_id(retiring, rows[i].dbid);
        proof {
            assert(rows@.take(i + 1) =~= rows@.take(i as int).push(rows@[i as int]));
            rows@.take(i as int).lemma_filter_push(rows@[i as int], stays);
        }
        if !gone {
            out.push(rows[i].clone());
        }
        i += 1;
    }
    assert(rows@.take(i as int) =~= rows@);
    out
}

/// The identifier rows after the retired instruments were deleted: the rows
/// of a retired instrument go with it.
pub open spec fn surviving_identifiers(rows: Seq<IdentifierRecordView>, retired: Set<i64>) -> Seq<
    IdentifierRecordView,
> {
    rows.filter(|r: IdentifierRecordView| !retired.contains(r.instrument_dbid))
}

/// The triples that the retired instruments held, in table order.
pub open spec fn retired_tuples(rows: Seq<IdentifierRecordView>, retired: Set<i64>) -> Seq<
    IdTuple,
> {
    rows.filter(|r: IdentifierRecordView| retired.contains(r.instrument_dbid)).map_values(
        |r: IdentifierRecordView| r.tuple(),
    )
}

/// A list of triples without repetitions: each triple stays where it
/// occurs first.
pub open spec fn distinct(tuples: Seq<IdTuple>) -> Seq<IdTuple>
    decreases tuples.len(),
{
    if tuples.len() == 0 {
        Seq::empty()
    } else {
        let front = distinct(tuples.drop_last());
        if front.contains(tuples.last()) {
            front
        } else {
            front.push(tuples.last())
        }
    }
}

/// The union of the candidate triples and the triples of the retired
/// instruments, as a set written in order of first occurrence.
pub open spec fn union_tuples(candidates: Seq<IdTuple>, retired: Seq<IdTuple>) -> Seq<IdTuple> {
    distinct(candidates + retired)
}

/// Whether the instrument holds an identifier with the triple.
pub open spec fn holds(rows: Seq<IdentifierRecordView>, instrument_dbid: i64, tuple: IdTuple) -> bool {
    exists|i: int|
        0 <= i < rows.len() && (#[trigger] rows[i]).instrument_dbid == instrument_dbid
            && rows[i].tuple() == tuple
}

/// The triples of a list that the instrument does not hold yet.
pub open spec fn missing_tuples(
    rows: Seq<IdentifierRecordView>,
    instrument_dbid: i64,
    tuples: Seq<IdTuple>,
) -> Seq<IdTuple> {
    tuples.filter(|t: IdTuple| !holds(rows, instrument_dbid, t))
}

/// The identifier row that a merge writes for a triple: attached to the
/// survivor, without a source, not authoritative, valid without limits.
pub open spec fn new_claim(tuple: IdTuple, survivor: i64, dbid: i64, now: Timestamp) -> IdentifierRecordView {
    IdentifierRecordView {
        dbid,
        instrument_dbid: survivor,
        namespace: tuple.namespace,
        domain: tuple.domain,
        id: tuple.identifier,
        source: Seq::empty(),
        authoritative: false,
        valid_from: None,
        valid_to: None,
        created_at: now,
    }
}

/// The identifier rows that a merge writes for a list of triples, numbered
/// consecutively from `first`.
pub open spec fn new_claims(tuples: Seq<IdTuple>, survivor: i64, first: int, now: Timestamp) -> Seq<
    IdentifierRecordView,
> {
    Seq::new(tuples.len(), |k: int| new_claim(tuples[k], survivor, (first + k) as i64, now))
}

/// Whether a list of identifier claims holds the triple of a claim.
pub fn has_tuple(claims: &Vec<Identifier>, claim: &Identifier) -> (r: bool)
    ensures
        r == tuples_of(claims@).contains(claim@.tuple()),
{
    let mut i: usize = 0;
    while i < claims.len()
        invariant
            i <= claims.len(),
            forall|j: int| 0 <= j < i ==> tuples_of(claims@)[j] != claim@.tuple(),
        decreases claims.len() - i,
    {
        if claims[i].same_tuple(claim) {
            assert(tuples_of(claims@)[i as int] == claim@.tuple());
            return true;
        }
        i += 1;
    }
    false
}

/// Splits the identifier table for a merge: the rows that stay, and the
/// claims that the retired instruments held.
pub fn split_identifiers(rows: &Vec<IdentifierRecord>, retiring: &Vec<i64>) -> (r: (
    Vec<IdentifierRecord>,
    Vec<Identifier>,
))
    ensures
        identifier_views(r.0@) == surviving_identifiers(
            identifier_views(rows@),
            retiring@.to_set(),
        ),
        tuples_of(r.1@) == retired_tuples(identifier_views(rows@), retiring@.to_set()),
{
    let ghost retired = retiring@.to_set();
    let ghost views = identifier_views(rows@);
    let ghost stays = |r: IdentifierRecordView| !retired.contains(r.instrument_dbid);
    let ghost goes = |r: IdentifierRecordView| retired.contains(r.instrument_dbid);
    let ghost tuple = |r: IdentifierRecordView| r.tuple();
    let mut kept: Vec<IdentifierRecord> = Vec::new();
    let mut claims: Vec<Identifier> = Vec::new();
    let mut i: usize = 0;
    proof {
        reveal(Seq::filter);
        assert(views.take(0).filter(stays) =~= Seq::empty());
        assert(views.take(0).filter(goes) =~= Seq::empty());
    }
    while i < rows.len()
        invariant
            i <= rows.len(),
            retired == retiring@.to_set(),
            views == identifier_views(rows@),
            stays == |r: IdentifierRecordView| !retired.contains(r.instrument_dbid),
            goes == |r: IdentifierRecordView| retired.contains(r.instrument_dbid),
            tuple == |r: IdentifierRecordView| r.tuple(),
            identifier_views(kept@) == views.take(i as int).filter(stays),
            tuples_of(claims@) == views.take(i as int).filter(goes).map_values(tuple),
        decreases rows.len() - i,
    {
        let row: &IdentifierRecord = &rows[i];
        let gone: bool = contains_id(retiring, row.instrument_dbid);
        proof {
            assert(views.take(i + 1) =~= views.take(i as int).push(views[i as int]));
            views.take(i as int).lemma_filter_push(views[i as int], stays);
            views.take(i as int).lemma_filter_push(views[i as int], goes);
        }
        if gone {
            let claim = Identifier {
                id: String::new(),
                namespace: row.namespace.clone(),
                domain: row.domain.clone(),
                identifier: row.id.clone(),
            };
            let ghost prev = claims@;
            claims.push(claim);
            assert(tuples_of(claims@) =~= tuples_of(prev).push(views[i as int].tuple()));
            assert(tuples_of(claims@) =~= views.take(i + 1).filter(goes).map_values(tuple));
        } else {
            let ghost prev = kept@;
            kept.push(row.clone());
            assert(identifier_views(kept@) =~= identifier_views(prev).push(views[i as int]));
        }
        i += 1;
    }
    assert(views.take(i as int) =~= views);
    (kept, claims)
}

/// Computes the union of the candidate claims and the claims of the retired
/// instruments: every triple once, in order of first occurrence.
pub fn union_identifiers(candidates: &Vec<Identifier>, retired: &Vec<Identifier>) -> (r: Vec<
    Identifier,
>)
    ensures
        tuples_of(r@) == union_tuples(tuples_of(candidates@), tuples_of(retired@)),
{
    let ghost all = tuples_of(candidates@) + tuples_of(retired@);
    let mut out: Vec<Identifier> = Vec::new();
    let mut i: usize = 0;
    while i < candidates.len()
        invariant
            i <= candidates.len(),
            all == tuples_of(candidates@) + tuples_of(retired@),
            tuples_of(out@) == distinct(all.take(i as int)),
        decreases candidates.len() - i,
    {
        let claim: &Identifier = &candidates[i];
        let seen: bool = has_tuple(&out, claim);
        proof {
            assert(all.take(i + 1).drop_last() =~= all.take(i as int));
            assert(all.take(i + 1).last() == claim@.tuple());
        }
        if !seen {
            let ghost prev = out@;
            out.push(claim.clone());
            assert(tuples_of(out@) =~= tuples_of(prev).push(claim@.tuple()));
        }
        i += 1;
    }
    let n: usize = candidates.len();
    let mut j: usize = 0;
    while j < retired.len()
        invariant
            j <= retired.len(),
            n == candidates@.len(),
            all == tuples_of(candidates@) + tuples_of(retired@),
            tuples_of(out@) == distinct(all.take(n + j)),
        decreases retired.len() - j,
    {
        let claim: &Identifier = &retired[j];
        let seen: bool = has_tuple(&out, claim);
        proof {
            assert(all.take(n + j + 1).drop_last() =~= all.take(n + j));
            assert(all.take(n + j + 1).last() == claim@.tuple());
        }
        if !seen {
            let ghost prev = out@;
            out.push(claim.clone());
            assert(tuples_of(out@) =~= tuples_of(prev).push(claim@.tuple()));
        }
        j += 1;
    }
    assert(all.take(n + j) =~= all);
    out
}

/// Whether the instrument holds an identifier with the triple of a claim.
pub fn holds_claim(rows: &Vec<IdentifierRecord>, instrument_dbid: i64, claim: &Identifier) -> (r:
    bool)
    ensures
        r == holds(identifier_views(rows@), instrument_dbid, claim@.tuple()),
{
    let mut i: usize = 0;
    while i < rows.len()
        invariant
            i <= rows.len(),
            forall|j: int|
                0 <= j < i ==> !((#[trigger] identifier_views(rows@)[j]).instrument_dbid
                    == instrument_dbid && identifier_views(rows@)[j].tuple() == claim@.tuple()),
        decreases rows.len() - i,
    {
        let row: &IdentifierRecord = &rows[i];
        if row.instrument_dbid == instrument_dbid && row.namespace == claim.namespace
            && row.domain == claim.domain && row.id == claim.identifier {
            assert(identifier_views(rows@)[i as int].instrument_dbid == instrument_dbid
                && identifier_views(rows@)[i as int].tuple() == claim@.tuple());
            return true;
        }
        i += 1;
    }
    false
}

/// Picks the claims that the instrument does not hold yet.
pub fn missing_identifiers(
    rows: &Vec<IdentifierRecord>,
    instrument_dbid: i64,
    claims: &Vec<Identifier>,
) -> (r: Vec<Identifier>)
    ensures
        tuples_of(r@) == missing_tuples(
            identifier_views(rows@),
            instrument_dbid,
            tuples_of(claims@),
        ),
{
    let ghost tuples = tuples_of(claims@);
    let ghost absent = |t: IdTuple| !holds(identifier_views(rows@), instrument_dbid, t);
    let mut out: Vec<Identifier> = Vec::new();
    let mut i: usize = 0;
    proof {
        reveal(Seq::filter);
        assert(tuples.take(0).filter(absent) =~= Seq::empty());
    }
    while i < claims.len()
        invariant
            i <= claims.len(),
            tuples == tuples_of(claims@),
            absent == |t: IdTuple| !holds(identifier_views(rows@), instrument_dbid, t),
            tuples_of(out@) == tuples.take(i as int).filter(absent),
        decreases claims.len() - i,
    {
        let claim: &Identifier = &claims[i];
        let held: bool = holds_claim(rows, instrument_dbid, claim);
        proof {
            assert(tuples.take(i + 1) =~= tuples.take(i as int).push(tuples[i as int]));
            tuples.take(i as int).lemma_filter_push(tuples[i as int], absent);
        }
        if !held {
            let ghost prev = out@;
            out.push(claim.clone());
            assert(tuples_of(out@) =~= tuples_of(prev).push(claim@.tuple()));
        }
        i += 1;
    }
    assert(tuples.take(i as int) =~= tuples);
    out
}

/// Writes one identifier row per claim for the survivor, numbered
/// consecutively from `first`.
pub fn attach_identifiers(
    rows: &mut Vec<IdentifierRecord>,
    survivor: i64,
    claims: &Vec<Identifier>,
    first: i64,
    now: Timestamp,
)
    requires
        first + claims@.len() <= i64::MAX,
    ensures
        identifier_views(final(rows)@) == identifier_views(old(rows)@) + new_claims(
            tuples_of(claims@),
            survivor,
            first as int,
            now,
        ),
{
    let ghost tuples = tuples_of(claims@);
    let mut k: usize = 0;
    while k < claims.len()
        invariant
            k <= claims.len(),
            first + claims@.len() <= i64::MAX,
            tuples == tuples_of(claims@),
            identifier_views(rows@) == identifier_views(old(rows)@) + new_claims(
                tuples.take(k as int),
                survivor,
                first as int,
                now,
            ),
        decreases claims.len() - k,
    {
        let claim: &Identifier = &claims[k];
        let row = IdentifierRecord {
            dbid: ((first as i128) + (k as i128)) as i64,
            instrument_dbid: survivor,
            namespace: claim.namespace.clone(),
            domain: claim.domain.clone(),
            id: claim.identifier.clone(),
            source: String::new(),
            authoritative: false,
            valid_from: None,
            valid_to: None,
            created_at: now,
        };
        let ghost prev = rows@;
        let ghost row_view = row@;
        rows.push(row);
        proof {
            assert(row_view == new_claim(tuples[k as int], survivor, (first + k) as i64, now));
            assert(identifier_views(rows@) =~= identifier_views(prev).push(row_view));
            assert(new_claims(tuples.take(k + 1), survivor, first as int, now) =~= new_claims(
                tuples.take(k as int),
                survivor,
                first as int,
                now,
            ).push(row_view));
        }
        k += 1;
    }
    assert(tuples.take(k as int) =~= tuples);
}

/// Whether some instrument matches the candidates.
pub open spec fn has_match(identifiers: Seq<IdentifierRecordView>, candidates: Seq<IdTuple>) -> bool {
    exists|x: i64| is_matched(identifiers, candidates, x)
}

/// The survivor of a merge on the candidates: the matching instrument with
/// the lowest id.
pub open spec fn survivor_of(identifiers: Seq<IdentifierRecordView>, candidates: Seq<IdTuple>) -> i64 {
    choose|s: i64| is_survivor(identifiers, candidates, s)
}

/// The triples that a merge on the candidates writes for the survivor: the
/// union of the candidates and the triples of the retired instruments,
/// without those that the survivor holds already.
pub open spec fn merge_writes(identifiers: Seq<IdentifierRecordView>, candidates: Seq<IdTuple>) -> Seq<
    IdTuple,
> {
    let retired = retired_set(identifiers, candidates);
    missing_tuples(
        surviving_identifiers(identifiers, retired),
        survivor_of(identifiers, candidates),
        union_tuples(candidates, retired_tuples(identifiers, retired)),
    )
}

/// The identifier table after a merge on the candidates at `now`, where new
/// rows are numbered from `first`.
pub open spec fn merged_identifiers(
    identifiers: Seq<IdentifierRecordView>,
    candidates: Seq<IdTuple>,
    first: int,
    now: Timestamp,
) -> Seq<IdentifierRecordView> {
    surviving_identifiers(identifiers, retired_set(identifiers, candidates)) + new_claims(
        merge_writes(identifiers, candidates),
        survivor_of(identifiers, candidates),
        first,
        now,
    )
}

/// Whether a merge on the candidates retires an instrument: several
/// instruments match.
pub open spec fn several_match(identifiers: Seq<IdentifierRecordView>, candidates: Seq<IdTuple>) -> bool {
    exists|x: i64| retired_set(identifiers, candidates).contains(x)
}

/// What a merge on the candidates returns: the survivor, or nothing where
/// no instrument matches.
pub open spec fn merge_result(identifiers: Seq<IdentifierRecordView>, candidates: Seq<IdTuple>) -> Option<
    i64,
> {
    if has_match(identifiers, candidates) {
        Some(survivor_of(identifiers, candidates))
    } else {
        None
    }
}

/// The identifier table after a merge on the candidates at `now`: changed
/// only where several instruments match.
pub open spec fn after_merge(
    identifiers: Seq<IdentifierRecordView>,
    candidates: Seq<IdTuple>,
    first: int,
    now: Timestamp,
) -> Seq<IdentifierRecordView> {
    if several_match(identifiers, candidates) {
        merged_identifiers(identifiers, candidates, first, now)
    } else {
        identifiers
    }
}

/// At most one instrument is the survivor.
pub proof fn lemma_survivor_unique(
    identifiers: Seq<IdentifierRecordView>,
    candidates: Seq<IdTuple>,
    s: i64,
)
    requires
        is_survivor(identifiers, candidates, s),
    ensures
        survivor_of(identifiers, candidates) == s,
        has_match(identifiers, candidates),
        forall|x: i64| is_survivor(identifiers, candidates, x) <==> x == s,
{
    let t = survivor_of(identifiers, candidates);
    assert(is_survivor(identifiers, candidates, t));
    assert(s <= t && t <= s);
    assert forall|x: i64| is_survivor(identifiers, candidates, x) implies x == s by {
        assert(s <= x && x <= s);
    }
}

impl DataStore {
    /// Merges the canonical instruments that hold an identifier of the
    /// candidate set, at time `now`.
    ///
    /// Where no instrument matches, which includes an empty candidate set,
    /// the result is `None` and nothing is written. Where one instrument
    /// matches, the result is its id and nothing is written. Where several
    /// match, the one with the lowest id survives and the others are
    /// retired: transactions, prices and derivative underlyings that referred
    /// to a retired instrument refer to the survivor; the retired
    /// instruments go, with their identifier and derivative rows; and the
    /// survivor receives one new identifier row for each triple of the union
    /// of the candidates and the retired instruments' triples that it does
    /// not hold yet. The result is the survivor's id.
    ///
    /// The merge is all or nothing: where the id sequence cannot number the
    /// new identifier rows, `Exhausted` is returned and nothing is written.
    pub fn merge_instruments(&mut self, candidates: &Vec<Identifier>, now: Timestamp) -> (r:
        Result<Option<i64>, StoreError>)
        ensures
            old(self).wf() ==> final(self).wf(),
            old(self).merge_fits(tuples_of(candidates@)) ==> r == Ok::<Option<i64>, StoreError>(
                merge_result(old(self).identifier_views(), tuples_of(candidates@)),
            ) && final(self).follows_merge(old(self), tuples_of(candidates@), now),
            !old(self).merge_fits(tuples_of(candidates@)) ==> r == Err::<Option<i64>, StoreError>(
                StoreError::Exhausted,
            ) && *final(self) == *old(self),
    {
        let ghost ids = self.identifier_views();
        let ghost cands = tuples_of(candidates@);
        let matched: Vec<i64> = self.find_matches(candidates);
        proof {
            assert forall|x: i64| matched@.contains(x) <==> is_matched(ids, cands, x) by {
                lemma_matched_ids(ids, cands, x);
            }
        }
        let plan: MergePlan = plan_merge(&matched);
        match plan {
            MergePlan::NoMatch => {
                assert forall|x: i64| !is_matched(ids, cands, x) by {
                    assert(!matched@.contains(x));
                }
                assert(!several_match(ids, cands));
                Ok(None)
            },
            MergePlan::Single(survivor) => {
                proof {
                    assert forall|i: int| 0 <= i < matched@.len() implies matched@[i]
                        == survivor by {
                        if matched@[i] != survivor {
                            assert(matched@.contains(matched@[i]));
                            lemma_retirees_contains(matched@, survivor, matched@[i]);
                            assert(retirees(matched@, survivor).contains(matched@[i]));
                        }
                    }
                    assert forall|x: i64| is_matched(ids, cands, x) implies survivor <= x by {
                        let i = choose|i: int| 0 <= i < matched@.len() && matched@[i] == x;
                    }
                    lemma_survivor_unique(ids, cands, survivor);
                    assert forall|x: i64| !retired_set(ids, cands).contains(x) by {
                        if is_matched(ids, cands, x) {
                            let i = choose|i: int| 0 <= i < matched@.len() && matched@[i] == x;
                        }
                    }
                    assert(!several_match(ids, cands));
                }
                Ok(Some(survivor))
            },
            MergePlan::Merge { survivor, retiring } => {
                let ghost retired = retiring@.to_set();
                proof {
                    assert forall|x: i64|
                        retiring@.contains(x) <==> matched@.contains(x) && x != survivor by {
                        lemma_retirees_contains(matched@, survivor, x);
                    }
                    assert forall|x: i64| is_matched(ids, cands, x) implies survivor <= x by {
                        let i = choose|i: int| 0 <= i < matched@.len() && matched@[i] == x;
                    }
                    lemma_survivor_unique(ids, cands, survivor);
                    assert(retired =~= retired_set(ids, cands));
                    assert(retiring@.contains(retiring@[0]));
                    assert(retired_set(ids, cands).contains(retiring@[0]));
                    assert(several_match(ids, cands));
                }
                let (mut kept, claims) = split_identifiers(&self.identifiers, &retiring);
                let union: Vec<Identifier> = union_identifiers(candidates, &claims);
                let missing: Vec<Identifier> = missing_identifiers(&kept, survivor, &union);
                assert(tuples_of(missing@) == merge_writes(ids, cands));
                assert(tuples_of(missing@).len() == missing@.len());
                let first: i64 = self.next_dbid;
                if (first as i128) + (missing.len() as i128) > (i64::MAX as i128) {
                    return Err(StoreError::Exhausted);
                }
                attach_identifiers(&mut kept, survivor, &missing, first, now);
                let mut transactions: Vec<Transaction> = Vec::new();
                let mut prices: Vec<Price> = Vec::new();
                std::mem::swap(&mut transactions, &mut self.transactions);
                std::mem::swap(&mut prices, &mut self.prices);
                repoint_transactions(&mut transactions, &retiring, survivor);
                repoint_prices(&mut prices, &retiring, survivor);
                let derivatives: Vec<DerivativeRecord> = keep_derivatives(
                    &self.derivatives,
                    &retiring,
                    survivor,
                );
                let instruments: Vec<InstrumentRecord> = keep_instruments(
                    &self.instruments,
                    &retiring,
                );
                self.transactions = transactions;
                self.prices = prices;
                self.derivatives = derivatives;
                self.instruments = instruments;
                self.identifiers = kept;
                self.next_dbid = ((first as i128) + (missing.len() as i128)) as i64;
                Ok(Some(survivor))
            },
        }
    }

    /// Whether the id sequence can number the identifier rows that a merge
    /// on the candidates writes.
    pub open spec fn merge_fits(&self, candidates: Seq<IdTuple>) -> bool {
        several_match(self.identifier_views(), candidates) ==> self.has_room(
            merge_writes(self.identifier_views(), candidates).len() as int,
        )
    }

    /// Whether this store is what a merge on the candidates at `now` leaves
    /// of `before`: the same store unless several instruments matched.
    pub open spec fn follows_merge(&self, before: &DataStore, candidates: Seq<IdTuple>, now: Timestamp) -> bool {
        if several_match(before.identifier_views(), candidates) {
            self.is_merge_of(before, candidates, now)
        } else {
            *self == *before
        }
    }

    /// Whether this store is what a merge on the candidates at `now` makes
    /// of `before`, given that several instruments matched and the new
    /// identifier rows could be numbered.
    pub open spec fn is_merge_of(&self, before: &DataStore, candidates: Seq<IdTuple>, now: Timestamp) -> bool {
        let ids = before.identifier_views();
        let retired = retired_set(ids, candidates);
        let survivor = survivor_of(ids, candidates);
        &&& self.next_dbid == before.next_dbid + merge_writes(ids, candidates).len()
        &&& self.transactions@ == repointed_transactions(before.transactions@, retired, survivor)
        &&& self.prices@ == repointed_prices(before.prices@, retired, survivor)
        &&& self.derivatives@ == surviving_derivatives(before.derivatives@, retired, survivor)
        &&& self.instruments@ == surviving_instruments(before.instruments@, retired)
        &&& self.identifier_views() == merged_identifiers(
            ids,
            candidates,
            before.next_dbid as int,
            now,
        )
        &&& self.batches == before.batches
        &&& self.staging_txs == before.staging_txs
        &&& self.staging_instruments == before.staging_instruments
        &&& self.staging_identifiers == before.staging_identifiers
    }
}

} // verus!
