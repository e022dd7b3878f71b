//! Staging: writing the rows of a batch, and finding the identifier claims
//! that no canonical instrument answers yet.

use vstd::prelude::*;
use crate::batch::BatchView;
use crate::codes::BatchStatus;
use crate::errors::StoreError;
use crate::identifier::IdTuple;
use crate::models::{IdentifierRecord, IdentifierRecordView};
use crate::plan::{claim_count, count_instrument_rows, identifier_rows, instrument_rows, lemma_identifier_rows_batch, lemma_identifier_rows_len, plan_identifier_rows, plan_instrument_rows, plan_tx_rows, staging_identifier_views, staging_instrument_views, staging_tx_views, tx_rows};
use crate::records::{instrument_views, tx_views, Instrument, Tx};
use crate::staging::{StagingIdentifier, StagingIdentifierView, StagingInstrument, StagingInstrumentView, StagingTx, StagingTxView};
use crate::store::{blocks_status, has_batch, set_status, DataStore};
use crate::timestamp::Timestamp;

verus! {

/// The batches after the batch with the id was marked as failed for
/// `reason` at `now`. Nothing changes where the batch does not exist or has
/// already finished.
pub open spec fn fail_batch(
    batches: Seq<BatchView>,
    batch_dbid: i64,
    reason: Seq<char>,
    now: Timestamp,
) -> Seq<BatchView> {
    if has_batch(batches, batch_dbid) && !blocks_status(batches, batch_dbid, BatchStatus::Failed) {
        set_status(batches, batch_dbid, BatchStatus::Failed, Some(reason), now)
    } else {
        batches
    }
}

/// Transaction rows numbered consecutively from `first`.
pub open spec fn numbered_txs(rows: Seq<StagingTxView>, first: i64) -> Seq<StagingTxView> {
    Seq::new(rows.len(), |k: int| rows[k].with_dbid((first + k) as i64))
}

/// Instrument rows numbered consecutively from `first`.
pub open spec fn numbered_instruments(rows: Seq<StagingInstrumentView>, first: i64) -> Seq<
    StagingInstrumentView,
> {
    Seq::new(rows.len(), |k: int| rows[k].with_dbid((first + k) as i64))
}

/// Identifier rows numbered consecutively from `first`.
pub open spec fn numbered_identifiers(rows: Seq<StagingIdentifierView>, first: int) -> Seq<
    StagingIdentifierView,
> {
    Seq::new(rows.len(), |k: int| rows[k].with_dbid((first + k) as i64))
}

/// The `count` consecutive row ids from `first`.
pub open spec fn row_ids(first: i64, count: nat) -> Seq<i64> {
    Seq::new(count, |k: int| (first + k) as i64)
}

/// The mathematical values of a table of canonical identifiers.
pub open spec fn identifier_views(rows: Seq<IdentifierRecord>) -> Seq<IdentifierRecordView> {
    rows.map_values(|r: IdentifierRecord| r@)
}

/// Whether some canonical identifier claims the triple.
pub open spec fn is_claimed(identifiers: Seq<IdentifierRecordView>, tuple: IdTuple) -> bool {
    exists|i: int| 0 <= i < identifiers.len() && (#[trigger] identifiers[i]).tuple() == tuple
}

/// The staged identifier rows of a batch whose triple no canonical identifier
/// claims, in table order.
pub open spec fn unresolved(
    staged: Seq<StagingIdentifierView>,
    identifiers: Seq<IdentifierRecordView>,
    batch_dbid: i64,
) -> Seq<StagingIdentifierView> {
    staged.filter(
        |r: StagingIdentifierView| r.batch_dbid == batch_dbid && !is_claimed(identifiers, r.tuple()),
    )
}

impl DataStore {
    /// The staged transactions as mathematical values.
    pub open spec fn staging_tx_views(&self) -> Seq<StagingTxView> {
        staging_tx_views(self.staging_txs@)
    }

    /// The staged instruments as mathematical values.
    pub open spec fn staging_instrument_views(&self) -> Seq<StagingInstrumentView> {
        staging_instrument_views(self.staging_instruments@)
    }

    /// The staged identifiers as mathematical values.
    pub open spec fn staging_identifier_views(&self) -> Seq<StagingIdentifierView> {
        staging_identifier_views(self.staging_identifiers@)
    }

    /// The canonical identifiers as mathematical values.
    pub open spec fn identifier_views(&self) -> Seq<IdentifierRecordView> {
        identifier_views(self.identifiers@)
    }

    /// Whether the canonical tables are the same in both stores.
    pub open spec fn same_canonical(&self, other: &DataStore) -> bool {
        &&& self.instruments == other.instruments
        &&& self.identifiers == other.identifiers
        &&& self.derivatives == other.derivatives
        &&& self.transactions == other.transactions
        &&& self.prices == other.prices
    }

    /// Whether the id sequence has `rows` ids left.
    pub open spec fn has_room(&self, rows: int) -> bool {
        self.next_dbid + rows <= i64::MAX
    }

    /// Marks a batch as failed for `reason`, unless it does not exist or has
    /// already finished.
    pub fn mark_failed(&mut self, batch_dbid: i64, reason: &str, now: Timestamp)
        ensures
            old(self).wf() ==> final(self).wf(),
            final(self).next_dbid == old(self).next_dbid,
            final(self).same_rows(old(self)),
            final(self).batch_views() == fail_batch(
                old(self).batch_views(),
                batch_dbid,
                reason@,
                now,
            ),
    {
        let _ = self.update_batch_status(batch_dbid, BatchStatus::Failed, Some(reason), now);
    }

    /// Stages one row per raw transaction for a batch and returns how many
    /// rows were written. The rows take consecutive ids from the sequence.
    ///
    /// An empty list writes nothing and returns 0. Staging for a batch that
    /// does not exist fails with `ForeignKey` and writes nothing. Where the
    /// id sequence cannot number all rows, no row is written, the batch is
    /// marked as failed with the reason, and `Exhausted` is returned.
    pub fn stage_txs(&mut self, batch_dbid: i64, txs: Vec<Tx>, now: Timestamp) -> (r: Result<
        usize,
        StoreError,
    >)
        ensures
            old(self).wf() ==> final(self).wf(),
            txs@.len() == 0 ==> r == Ok::<usize, StoreError>(0) && *final(self) == *old(self),
            txs@.len() > 0 && !has_batch(old(self).batch_views(), batch_dbid) ==> r == Err::<
                usize,
                StoreError,
            >(StoreError::ForeignKey(batch_dbid)) && *final(self) == *old(self),
            txs@.len() > 0 && has_batch(old(self).batch_views(), batch_dbid) && !old(self).has_room(txs@.len() as int) ==> r == Err::<usize, StoreError>(StoreError::Exhausted)
                && final(self).next_dbid == old(self).next_dbid && final(self).same_rows(
                old(self),
            ) && final(self).batch_views() == fail_batch(
                old(self).batch_views(),
                batch_dbid,
                StoreError::Exhausted.spec_message(),
                now,
            ),
            txs@.len() > 0 && has_batch(old(self).batch_views(), batch_dbid) && old(self).has_room(txs@.len() as int) ==> r == Ok::<usize, StoreError>(txs@.len() as usize)
                && final(self).next_dbid == old(self).next_dbid + txs@.len()
                && final(self).staging_tx_views() == old(self).staging_tx_views() + numbered_txs(
                tx_rows(batch_dbid, tx_views(txs@)),
                old(self).next_dbid,
            ) && final(self).batches == old(self).batches && final(self).staging_instruments
                == old(self).staging_instruments && final(self).staging_identifiers == old(self).staging_identifiers && final(self).same_canonical(old(self)),
    {
        let n: usize = txs.len();
        if n == 0 {
            return Ok(0);
        }
        if !self.batch_exists(batch_dbid) {
            return Err(StoreError::ForeignKey(batch_dbid));
        }
        let base: i64 = self.next_dbid;
        if (base as i128) + (n as i128) > (i64::MAX as i128) {
            let reason: String = StoreError::Exhausted.message();
            self.mark_failed(batch_dbid, reason.as_str(), now);
            return Err(StoreError::Exhausted);
        }
        let rows: Vec<StagingTx> = plan_tx_rows(batch_dbid, &txs);
        let ghost planned = staging_tx_views(rows@);
        assert(planned.len() == rows@.len() && planned.len() == txs@.len());
        let mut k: usize = 0;
        while k < n
            invariant
                k <= n,
                n == rows@.len(),
                base + n <= i64::MAX,
                staging_tx_views(rows@) == planned,
                self.next_dbid == base,
                self.batches == old(self).batches,
                self.staging_instruments == old(self).staging_instruments,
                self.staging_identifiers == old(self).staging_identifiers,
                self.same_canonical(old(self)),
                self.staging_tx_views() == old(self).staging_tx_views() + numbered_txs(
                    planned.take(k as int),
                    base,
                ),
            decreases n - k,
        {
            let mut row: StagingTx = rows[k].clone();
            row.dbid = ((base as i128) + (k as i128)) as i64;
            let ghost prev = self.staging_txs@;
            let ghost row_view = row@;
            self.staging_txs.push(row);
            proof {
                assert(row_view == planned[k as int].with_dbid((base + k) as i64));
                assert(staging_tx_views(self.staging_txs@) =~= staging_tx_views(prev).push(
                    row_view,
                ));
                assert(numbered_txs(planned.take(k + 1), base) =~= numbered_txs(
                    planned.take(k as int),
                    base,
                ).push(row_view));
            }
            k += 1;
        }
        assert(planned.take(k as int) =~= planned);
        self.next_dbid = ((base as i128) + (n as i128)) as i64;
        proof {
            if old(self).wf() {
                let before = old(self).staging_tx_views();
                let added = numbered_txs(planned, base);
                assert forall|i: int| 0 <= i < self.staging_txs@.len() implies has_batch(
                    self.batch_views(),
                    (#[trigger] self.staging_txs@[i]).batch_dbid,
                ) by {
                    assert(self.staging_txs@[i]@ == self.staging_tx_views()[i]);
                    if i < before.len() {
                        assert(self.staging_tx_views()[i] == before[i]);
                        assert(before[i] == old(self).staging_txs@[i]@);
                    } else {
                        assert(self.staging_tx_views()[i] == added[i - before.len()]);
                    }
                }
            }
        }
        Ok(n)
    }

    /// Whether this store and the result `r` are what staging a list of raw
    /// instruments for a batch at `now` makes of `before`.
    ///
    /// An empty list writes nothing and gives 0. A batch that does not exist
    /// gives `ForeignKey` and nothing is written. Where the rows cannot be
    /// counted or numbered, nothing is staged, the batch is marked as failed
    /// with the reason, and the result is `Exhausted`. Otherwise the
    /// instrument rows take the next ids, the identifier rows the ids after
    /// them, each identifier row refers to the id of its instrument's row,
    /// and the result is the number of rows.
    pub open spec fn instruments_staged(
        &self,
        before: &DataStore,
        batch_dbid: i64,
        source: Seq<char>,
        instruments: Seq<Instrument>,
        now: Timestamp,
        r: Result<usize, StoreError>,
    ) -> bool {
        if instruments.len() == 0 {
            r == Ok::<usize, StoreError>(0) && *self == *before
        } else if !has_batch(before.batch_views(), batch_dbid) {
            r == Err::<usize, StoreError>(StoreError::ForeignKey(batch_dbid)) && *self == *before
        } else if !(staged_row_count(instruments) <= usize::MAX && before.has_room(
            staged_row_count(instruments),
        )) {
            &&& r == Err::<usize, StoreError>(StoreError::Exhausted)
            &&& self.next_dbid == before.next_dbid
            &&& self.same_rows(before)
            &&& self.batch_views() == fail_batch(
                before.batch_views(),
                batch_dbid,
                StoreError::Exhausted.spec_message(),
                now,
            )
        } else {
            &&& r == Ok::<usize, StoreError>(staged_row_count(instruments) as usize)
            &&& self.next_dbid == before.next_dbid + staged_row_count(instruments)
            &&& self.staging_instrument_views() == before.staging_instrument_views()
                + numbered_instruments(
                instrument_rows(batch_dbid, instrument_views(instruments)),
                before.next_dbid,
            )
            &&& self.staging_identifier_views() == before.staging_identifier_views()
                + numbered_identifiers(
                identifier_rows(
                    batch_dbid,
                    source,
                    instrument_views(instruments),
                    row_ids(before.next_dbid, instruments.len()),
                ),
                before.next_dbid + instruments.len(),
            )
            &&& self.batches == before.batches
            &&& self.staging_txs == before.staging_txs
            &&& self.same_canonical(before)
        }
    }

    /// Stages the rows of a list of raw instruments for a batch, all or
    /// none: one instrument row each, then one identifier row per claim,
    /// attributed to `source` and referring to the id that its instrument's
    /// row was given. Returns the number of rows written, instruments and
    /// identifiers together.
    ///
    /// An empty list writes nothing and returns 0. Staging for a batch that
    /// does not exist fails with `ForeignKey` and writes nothing. Where the
    /// rows cannot be counted or numbered, no row is written, the batch is
    /// marked as failed with the reason, and `Exhausted` is returned.
    pub fn stage_instruments(
        &mut self,
        batch_dbid: i64,
        source: String,
        instruments: Vec<Instrument>,
        now: Timestamp,
    ) -> (r: Result<usize, StoreError>)
        ensures
            old(self).wf() ==> final(self).wf(),
            final(self).instruments_staged(old(self), batch_dbid, source@, instruments@, now, r),
    {
        let n: usize = instruments.len();
        if n == 0 {
            return Ok(0);
        }
        if !self.batch_exists(batch_dbid) {
            return Err(StoreError::ForeignKey(batch_dbid));
        }
        let base: i64 = self.next_dbid;
        let total: usize = match count_instrument_rows(&instruments) {
            Some(total) => {
                if (base as i128) + (total as i128) > (i64::MAX as i128) {
                    let reason: String = StoreError::Exhausted.message();
                    self.mark_failed(batch_dbid, reason.as_str(), now);
                    return Err(StoreError::Exhausted);
                }
                total
            },
            None => {
                let reason: String = StoreError::Exhausted.message();
                self.mark_failed(batch_dbid, reason.as_str(), now);
                return Err(StoreError::Exhausted);
            },
        };
        let rows: Vec<StagingInstrument> = plan_instrument_rows(batch_dbid, &instruments);
        let ghost planned = staging_instrument_views(rows@);
        assert(planned.len() == rows@.len() && planned.len() == instruments@.len());
        let mut dbids: Vec<i64> = Vec::new();
        let mut k: usize = 0;
        while k < n
            invariant
                k <= n,
                n == rows@.len(),
                n <= total,
                base + total <= i64::MAX,
                staging_instrument_views(rows@) == planned,
                self.next_dbid == base,
                self.batches == old(self).batches,
                self.staging_txs == old(self).staging_txs,
                self.staging_identifiers == old(self).staging_identifiers,
                self.same_canonical(old(self)),
                dbids@ == row_ids(base, k as nat),
                self.staging_instrument_views() == old(self).staging_instrument_views()
                    + numbered_instruments(planned.take(k as int), base),
            decreases n - k,
        {
            let mut row: StagingInstrument = rows[k].clone();
            let dbid: i64 = ((base as i128) + (k as i128)) as i64;
            row.dbid = dbid;
            let ghost prev = self.staging_instruments@;
            let ghost row_view = row@;
            self.staging_instruments.push(row);
            dbids.push(dbid);
            proof {
                assert(row_view == planned[k as int].with_dbid((base + k) as i64));
                assert(staging_instrument_views(self.staging_instruments@)
                    =~= staging_instrument_views(prev).push(row_view));
                assert(numbered_instruments(planned.take(k + 1), base) =~= numbered_instruments(
                    planned.take(k as int),
                    base,
                ).push(row_view));
                assert(dbids@ =~= row_ids(base, (k + 1) as nat));
            }
            k += 1;
        }
        assert(planned.take(k as int) =~= planned);
        let claims: Vec<StagingIdentifier> = match plan_identifier_rows(
            batch_dbid,
            source.as_str(),
            &instruments,
            &dbids,
        ) {
            Ok(claims) => claims,
            Err(e) => {
                assert(false);
                return Err(e);
            },
        };
        let ghost claimed = staging_identifier_views(claims@);
        proof {
            lemma_identifier_rows_len(
                batch_dbid,
                source@,
                instrument_views(instruments@),
                dbids@,
            );
        }
        let m: usize = claims.len();
        let first: i128 = (base as i128) + (n as i128);
        let mut j: usize = 0;
        while j < m
            invariant
                j <= m,
                m == claims@.len(),
                n + m == total,
                first == base + n,
                base + total <= i64::MAX,
                staging_identifier_views(claims@) == claimed,
                self.next_dbid == base,
                self.batches == old(self).batches,
                self.staging_txs == old(self).staging_txs,
                self.same_canonical(old(self)),
                self.staging_instrument_views() == old(self).staging_instrument_views()
                    + numbered_instruments(planned, base),
                self.staging_identifier_views() == old(self).staging_identifier_views()
                    + numbered_identifiers(claimed.take(j as int), first as int),
            decreases m - j,
        {
            let mut row: StagingIdentifier = claims[j].clone();
            row.dbid = (first + (j as i128)) as i64;
            let ghost prev = self.staging_identifiers@;
            let ghost row_view = row@;
            self.staging_identifiers.push(row);
            proof {
                assert(row_view == claimed[j as int].with_dbid((first + j) as i64));
                assert(staging_identifier_views(self.staging_identifiers@)
                    =~= staging_identifier_views(prev).push(row_view));
                assert(numbered_identifiers(claimed.take(j + 1), first as int)
                    =~= numbered_identifiers(claimed.take(j as int), first as int).push(
                    row_view,
                ));
            }
            j += 1;
        }
        assert(claimed.take(j as int) =~= claimed);
        self.next_dbid = ((base as i128) + (total as i128)) as i64;
        proof {
            if old(self).wf() {
                let before = old(self).staging_instrument_views();
                let added = numbered_instruments(planned, base);
                assert forall|i: int| 0 <= i < self.staging_instruments@.len() implies has_batch(
                    self.batch_views(),
                    (#[trigger] self.staging_instruments@[i]).batch_dbid,
                ) by {
                    assert(self.staging_instruments@[i]@ == self.staging_instrument_views()[i]);
                    if i < before.len() {
                        assert(self.staging_instrument_views()[i] == before[i]);
                        assert(before[i] == old(self).staging_instruments@[i]@);
                    } else {
                        assert(self.staging_instrument_views()[i] == added[i - before.len()]);
                    }
                }
                let before_ids = old(self).staging_identifier_views();
                let added_ids = numbered_identifiers(claimed, first as int);
                lemma_identifier_rows_batch(
                    batch_dbid,
                    source@,
                    instrument_views(instruments@),
                    dbids@,
                );
                assert forall|i: int| 0 <= i < self.staging_identifiers@.len() implies has_batch(
                    self.batch_views(),
                    (#[trigger] self.staging_identifiers@[i]).batch_dbid,
                ) by {
                    assert(self.staging_identifiers@[i]@ == self.staging_identifier_views()[i]);
                    if i < before_ids.len() {
                        assert(self.staging_identifier_views()[i] == before_ids[i]);
                        assert(before_ids[i] == old(self).staging_identifiers@[i]@);
                    } else {
                        assert(self.staging_identifier_views()[i] == added_ids[i
                            - before_ids.len()]);
                    }
                }
            }
        }
        Ok(total)
    }

    /// Whether some canonical identifier claims the triple.
    pub fn has_identifier(&self, namespace: &String, domain: &String, identifier: &String) -> (r:
        bool)
        ensures
            r == is_claimed(
                self.identifier_views(),
                IdTuple { namespace: namespace@, domain: domain@, identifier: identifier@ },
            ),
    {
        let ghost tuple = IdTuple {
            namespace: namespace@,
            domain: domain@,
            identifier: identifier@,
        };
        let mut i: usize = 0;
        while i < self.identifiers.len()
            invariant
                i <= self.identifiers.len(),
                tuple == (IdTuple {
                    namespace: namespace@,
                    domain: domain@,
                    identifier: identifier@,
                }),
                forall|j: int| 0 <= j < i ==> (#[trigger] self.identifier_views()[j]).tuple() != tuple,
            decreases self.identifiers.len() - i,
        {
            let row: &IdentifierRecord = &self.identifiers[i];
            if row.namespace == *namespace && row.domain == *domain && row.id == *identifier {
                assert(self.identifier_views()[i as int].tuple() == tuple);
                return true;
            }
            i += 1;
        }
        false
    }

    /// The identifier rows staged for a batch that no canonical identifier
    /// answers yet: the work list of a resolver. A staged row is answered
    /// when a canonical identifier has the same namespace, domain and
    /// identifier.
    pub fn unresolved_identifiers(&self, batch_dbid: i64) -> (r: Vec<StagingIdentifier>)
        ensures
            staging_identifier_views(r@) == unresolved(
                self.staging_identifier_views(),
                self.identifier_views(),
                batch_dbid,
            ),
    {
        let ghost staged = self.staging_identifier_views();
        let ghost open = |r: StagingIdentifierView|
            r.batch_dbid == batch_dbid && !is_claimed(self.identifier_views(), r.tuple());
        let mut out: Vec<StagingIdentifier> = Vec::new();
        let mut i: usize = 0;
        proof {
            reveal(Seq::filter);
            assert(staged.take(0).filter(open) =~= Seq::empty());
        }
        while i < self.staging_identifiers.len()
            invariant
                i <= self.staging_identifiers.len(),
                staged == self.staging_identifier_views(),
                open == |r: StagingIdentifierView|
                    r.batch_dbid == batch_dbid && !is_claimed(self.identifier_views(), r.tuple()),
                staging_identifier_views(out@) == staged.take(i as int).filter(open),
            decreases self.staging_identifiers.len() - i,
        {
            let row: &StagingIdentifier = &self.staging_identifiers[i];
            let keep: bool = row.batch_dbid == batch_dbid && !self.has_identifier(
                &row.namespace,
                &row.domain,
                &row.identifier,
            );
            proof {
                assert(staged.take(i + 1) =~= staged.take(i as int).push(staged[i as int]));
                staged.take(i as int).lemma_filter_push(staged[i as int], open);
                assert(keep == open(staged[i as int]));
            }
            if keep {
                let ghost prev = out@;
                out.push(row.clone());
                assert(staging_identifier_views(out@) =~= staging_identifier_views(prev).push(
                    staged[i as int],
                ));
            }
            i += 1;
        }
        assert(staged.take(i as int) =~= staged);
        out
    }
}

/// The number of rows that staging a list of instruments writes: one per
/// instrument and one per identifier claim.
pub open spec fn staged_row_count(instruments: Seq<Instrument>) -> int {
    (instruments.len() + claim_count(instrument_views(instruments))) as int
}

/// Staging instruments only appends: whatever the outcome, the staged rows
/// that were there are still there, in place and unchanged, and neither the
/// staged transactions nor the canonical tables are touched.
pub proof fn lemma_staging_appends(
    after: DataStore,
    before: DataStore,
    batch_dbid: i64,
    source: Seq<char>,
    instruments: Seq<Instrument>,
    now: Timestamp,
    r: Result<usize, StoreError>,
)
    requires
        after.instruments_staged(&before, batch_dbid, source, instruments, now, r),
    ensures
        before.staging_instrument_views().is_prefix_of(after.staging_instrument_views()),
        before.staging_identifier_views().is_prefix_of(after.staging_identifier_views()),
        after.staging_txs == before.staging_txs,
        after.same_canonical(&before),
        after.next_dbid >= before.next_dbid,
{
}

} // verus!
