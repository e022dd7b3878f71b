//! The data store: batches, staging tables and canonical tables, held in
//! memory, with the batch lifecycle.

use vstd::prelude::*;
use crate::batch::{new_batch, Batch, BatchView};
use crate::codes::{BatchStatus, BatchType};
use crate::errors::StoreError;
use crate::models::{DerivativeRecord, IdentifierRecord, InstrumentRecord, Price, Transaction};
use crate::staging::{StagingIdentifier, StagingInstrument, StagingTx};
use crate::timestamp::Timestamp;

verus! {

/// All tables of the service. Row ids come from one sequence, `next_dbid`.
#[derive(Clone, Debug, PartialEq, Eq)]
pub struct DataStore {
    pub next_dbid: i64,
    pub batches: Vec<Batch>,
    pub staging_txs: Vec<StagingTx>,
    pub staging_instruments: Vec<StagingInstrument>,
    pub staging_identifiers: Vec<StagingIdentifier>,
    pub instruments: Vec<InstrumentRecord>,
    pub identifiers: Vec<IdentifierRecord>,
    pub derivatives: Vec<DerivativeRecord>,
    pub transactions: Vec<Transaction>,
    pub prices: Vec<Price>,
}

/// The mathematical values of a table of batches.
pub open spec fn batch_views(batches: Seq<Batch>) -> Seq<BatchView> {
    batches.map_values(|b: Batch| b@)
}

/// Whether some batch of the table has the id.
pub open spec fn has_batch(batches: Seq<BatchView>, batch_dbid: i64) -> bool {
    exists|i: int| 0 <= i < batches.len() && #[trigger] batches[i].dbid == batch_dbid
}

/// Whether the lifecycle forbids some batch with the id to take the status.
pub open spec fn blocks_status(
    batches: Seq<BatchView>,
    batch_dbid: i64,
    status: BatchStatus,
) -> bool {
    exists|i: int|
        0 <= i < batches.len() && #[trigger] batches[i].dbid == batch_dbid
            && !batches[i].status.spec_can_become(status)
}

/// The first batch with the id whose status cannot become `status`.
pub open spec fn first_blocked(
    batches: Seq<BatchView>,
    batch_dbid: i64,
    status: BatchStatus,
) -> int {
    choose|i: int|
        0 <= i < batches.len() && #[trigger] batches[i].dbid == batch_dbid
            && !batches[i].status.spec_can_become(status) && forall|j: int|
            0 <= j < i ==> !(#[trigger] batches[j].dbid == batch_dbid
                && !batches[j].status.spec_can_become(status))
}

/// A batch after the total of the batch with the id was set.
pub open spec fn total_set(b: BatchView, batch_dbid: i64, total_records: i32) -> BatchView {
    if b.dbid == batch_dbid {
        b.with_total_records(total_records)
    } else {
        b
    }
}

/// The table after the total of the batch with the id was set.
pub open spec fn set_total_records(
    batches: Seq<BatchView>,
    batch_dbid: i64,
    total_records: i32,
) -> Seq<BatchView> {
    batches.map_values(|b: BatchView| total_set(b, batch_dbid, total_records))
}

/// A batch after the status of the batch with the id was updated at `now`.
pub open spec fn status_set(
    b: BatchView,
    batch_dbid: i64,
    status: BatchStatus,
    error_message: Option<Seq<char>>,
    now: Timestamp,
) -> BatchView {
    if b.dbid == batch_dbid {
        b.with_status(status, error_message, now)
    } else {
        b
    }
}

/// The table after the status of the batch with the id was updated at `now`.
pub open spec fn set_status(
    batches: Seq<BatchView>,
    batch_dbid: i64,
    status: BatchStatus,
    error_message: Option<Seq<char>>,
    now: Timestamp,
) -> Seq<BatchView> {
    batches.map_values(|b: BatchView| status_set(b, batch_dbid, status, error_message, now))
}

/// The view of an optional message.
pub open spec fn message_view(message: Option<&str>) -> Option<Seq<char>> {
    match message {
        Some(m) => Some(m@),
        None => None,
    }
}

/// Whether every batch of `before` is still a batch of `after`, under the
/// same id.
pub open spec fn keeps_batches(before: Seq<BatchView>, after: Seq<BatchView>) -> bool {
    before.len() <= after.len() && forall|i: int|
        0 <= i < before.len() ==> (#[trigger] after[i]).dbid == before[i].dbid
}

/// A batch that a table holds is held by every table that keeps its batches.
pub proof fn lemma_keeps_has_batch(before: Seq<BatchView>, after: Seq<BatchView>, batch_dbid: i64)
    requires
        keeps_batches(before, after),
        has_batch(before, batch_dbid),
    ensures
        has_batch(after, batch_dbid),
{
    let i = choose|i: int| 0 <= i < before.len() && #[trigger] before[i].dbid == batch_dbid;
    assert(after[i].dbid == batch_dbid);
}

/// Decides an update of a batch's status from the status that the batch
/// has, or `None` where no batch has the id: `NotFound` for a missing
/// batch, `Transition` for a move that the lifecycle forbids.
pub fn check_transition(batch_dbid: i64, current: Option<BatchStatus>, next: BatchStatus) -> (r:
    Result<(), StoreError>)
    ensures
        r == match current {
            None => Err::<(), StoreError>(StoreError::NotFound(batch_dbid)),
            Some(status) => if status.spec_can_become(next) {
                Ok::<(), StoreError>(())
            } else {
                Err::<(), StoreError>(StoreError::Transition(status, next))
            },
        },
{
    match current {
        None => Err(StoreError::NotFound(batch_dbid)),
        Some(status) => if status.can_become(next) {
            Ok(())
        } else {
            Err(StoreError::Transition(status, next))
        },
    }
}

impl DataStore {
    /// An empty store whose first row id is 1.
    pub fn new() -> (s: DataStore)
        ensures
            s.wf(),
            s.next_dbid == 1,
            s.batches@.len() == 0,
            s.staging_txs@.len() == 0,
            s.staging_instruments@.len() == 0,
            s.staging_identifiers@.len() == 0,
            s.instruments@.len() == 0,
            s.identifiers@.len() == 0,
            s.derivatives@.len() == 0,
            s.transactions@.len() == 0,
            s.prices@.len() == 0,
    {
        DataStore {
            next_dbid: 1,
            batches: Vec::new(),
            staging_txs: Vec::new(),
            staging_instruments: Vec::new(),
            staging_identifiers: Vec::new(),
            instruments: Vec::new(),
            identifiers: Vec::new(),
            derivatives: Vec::new(),
            transactions: Vec::new(),
            prices: Vec::new(),
        }
    }

    /// The batches as mathematical values.
    pub open spec fn batch_views(&self) -> Seq<BatchView> {
        batch_views(self.batches@)
    }

    /// Whether everything but the batches and the id sequence is the same in
    /// both stores.
    pub open spec fn same_rows(&self, other: &DataStore) -> bool {
        &&& self.staging_txs == other.staging_txs
        &&& self.staging_instruments == other.staging_instruments
        &&& self.staging_identifiers == other.staging_identifiers
        &&& self.instruments == other.instruments
        &&& self.identifiers == other.identifiers
        &&& self.derivatives == other.derivatives
        &&& self.transactions == other.transactions
        &&& self.prices == other.prices
    }

    /// The store is well formed when every batch was numbered from the id
    /// sequence and every staged row belongs to a batch of the store.
    pub open spec fn wf(&self) -> bool {
        &&& forall|i: int|
            0 <= i < self.batches@.len() ==> (#[trigger] self.batches@[i]).dbid < self.next_dbid
        &&& forall|i: int|
            0 <= i < self.staging_txs@.len() ==> has_batch(
                self.batch_views(),
                (#[trigger] self.staging_txs@[i]).batch_dbid,
            )
        &&& forall|i: int|
            0 <= i < self.staging_instruments@.len() ==> has_batch(
                self.batch_views(),
                (#[trigger] self.staging_instruments@[i]).batch_dbid,
            )
        &&& forall|i: int|
            0 <= i < self.staging_identifiers@.len() ==> has_batch(
                self.batch_views(),
                (#[trigger] self.staging_identifiers@[i]).batch_dbid,
            )
    }

    /// A well-formed store stays well formed when its batches are kept, its
    /// staged rows are the same, and its batches are numbered below the id
    /// sequence.
    pub proof fn lemma_wf_kept(&self, before: &DataStore)
        requires
            before.wf(),
            self.same_rows(before),
            keeps_batches(before.batch_views(), self.batch_views()),
            forall|i: int|
                0 <= i < self.batches@.len() ==> (#[trigger] self.batches@[i]).dbid
                    < self.next_dbid,
        ensures
            self.wf(),
    {
        assert forall|i: int| 0 <= i < self.staging_txs@.len() implies has_batch(
            self.batch_views(),
            (#[trigger] self.staging_txs@[i]).batch_dbid,
        ) by {
            lemma_keeps_has_batch(
                before.batch_views(),
                self.batch_views(),
                self.staging_txs@[i].batch_dbid,
            );
        }
        assert forall|i: int| 0 <= i < self.staging_instruments@.len() implies has_batch(
            self.batch_views(),
            (#[trigger] self.staging_instruments@[i]).batch_dbid,
        ) by {
            lemma_keeps_has_batch(
                before.batch_views(),
                self.batch_views(),
                self.staging_instruments@[i].batch_dbid,
            );
        }
        assert forall|i: int| 0 <= i < self.staging_identifiers@.len() implies has_batch(
            self.batch_views(),
            (#[trigger] self.staging_identifiers@[i]).batch_dbid,
        ) by {
            lemma_keeps_has_batch(
                before.batch_views(),
                self.batch_views(),
                self.staging_identifiers@[i].batch_dbid,
            );
        }
    }

    /// Creates a batch for `user_dbid` at time `now` and returns its id. The
    /// batch is pending with all counts at zero. The period is taken as
    /// given. Fails only when the id sequence is used up; the store is then
    /// unchanged.
    pub fn create_batch(
        &mut self,
        user_dbid: i64,
        batch_type: BatchType,
        broker_key: &str,
        period_start: Timestamp,
        period_end: Timestamp,
        now: Timestamp,
    ) -> (r: Result<i64, StoreError>)
        ensures
            old(self).wf() ==> final(self).wf(),
            old(self).next_dbid == i64::MAX ==> r == Err::<i64, StoreError>(StoreError::Exhausted)
                && *final(self) == *old(self),
            old(self).next_dbid < i64::MAX ==> r == Ok::<i64, StoreError>(old(self).next_dbid)
                && final(self).next_dbid == old(self).next_dbid + 1
                && final(self).batch_views() == old(self).batch_views().push(
                new_batch(
                    old(self).next_dbid,
                    user_dbid,
                    batch_type,
                    broker_key@,
                    period_start,
                    period_end,
                    now,
                ),
            ) && final(self).same_rows(old(self)),
    {
        if self.next_dbid == i64::MAX {
            return Err(StoreError::Exhausted);
        }
        let dbid: i64 = self.next_dbid;
        let batch = Batch::new(
            dbid,
            user_dbid,
            batch_type,
            broker_key,
            period_start,
            period_end,
            now,
        );
        self.batches.push(batch);
        self.next_dbid = dbid + 1;
        assert(self.batch_views() =~= old(self).batch_views().push(batch@));
        proof {
            if old(self).wf() {
                assert forall|i: int| 0 <= i < self.batches@.len() implies (
                #[trigger] self.batches@[i]).dbid < self.next_dbid by {
                    if i < old(self).batches@.len() {
                        assert(self.batches@[i] == old(self).batches@[i]);
                    }
                }
                self.lemma_wf_kept(old(self));
            }
        }
        Ok(dbid)
    }

    /// Whether a batch with the id exists.
    pub fn batch_exists(&self, batch_dbid: i64) -> (r: bool)
        ensures
            r == has_batch(self.batch_views(), batch_dbid),
    {
        let mut i: usize = 0;
        while i < self.batches.len()
            invariant
                i <= self.batches.len(),
                forall|j: int| 0 <= j < i ==> self.batch_views()[j].dbid != batch_dbid,
            decreases self.batches.len() - i,
        {
            if self.batches[i].dbid == batch_dbid {
                assert(self.batch_views()[i as int].dbid == batch_dbid);
                return true;
            }
            i += 1;
        }
        false
    }

    /// Sets the total number of records of a batch. Fails with `NotFound`,
    /// changing nothing, when no batch has the id.
    pub fn update_batch_total_records(&mut self, batch_dbid: i64, total_records: i32) -> (r:
        Result<(), StoreError>)
        ensures
            old(self).wf() ==> final(self).wf(),
            final(self).next_dbid == old(self).next_dbid,
            final(self).same_rows(old(self)),
            has_batch(old(self).batch_views(), batch_dbid) ==> r == Ok::<(), StoreError>(())
                && final(self).batch_views() == set_total_records(
                old(self).batch_views(),
                batch_dbid,
                total_records,
            ),
            !has_batch(old(self).batch_views(), batch_dbid) ==> r == Err::<(), StoreError>(
                StoreError::NotFound(batch_dbid),
            ) && final(self).batch_views() == old(self).batch_views(),
    {
        if !self.batch_exists(batch_dbid) {
            return Err(StoreError::NotFound(batch_dbid));
        }
        let mut i: usize = 0;
        while i < self.batches.len()
            invariant
                i <= self.batches.len(),
                self.batches.len() == old(self).batches.len(),
                self.next_dbid == old(self).next_dbid,
                self.same_rows(old(self)),
                forall|j: int|
                    0 <= j < i ==> (#[trigger] self.batches@[j])@ == total_set(
                        old(self).batches@[j]@,
                        batch_dbid,
                        total_records,
                    ),
                forall|j: int|
                    i <= j < self.batches.len() ==> #[trigger] self.batches@[j] == old(self).batches@[j],
            decreases self.batches.len() - i,
        {
            if self.batches[i].dbid == batch_dbid {
                let mut b: Batch = self.batches[i].clone();
                b.total_records = total_records;
                self.batches.set(i, b);
            }
            i += 1;
        }
        assert(self.batch_views() =~= set_total_records(
            old(self).batch_views(),
            batch_dbid,
            total_records,
        ));
        proof {
            if old(self).wf() {
                assert forall|i: int| 0 <= i < self.batches@.len() implies (
                #[trigger] self.batches@[i]).dbid < self.next_dbid by {
                    assert(self.batch_views()[i].dbid == old(self).batches@[i].dbid);
                }
                self.lemma_wf_kept(old(self));
            }
        }
        Ok(())
    }
    /// The status that stops the batch with the id from taking `status`, if
    /// the lifecycle forbids the move.
    pub fn blocking_status(&self, batch_dbid: i64, status: BatchStatus) -> (r: Option<
        BatchStatus,
    >)
        ensures
            r.is_some() == blocks_status(self.batch_views(), batch_dbid, status),
            r.is_some() ==> r == Some(
                self.batch_views()[first_blocked(self.batch_views(), batch_dbid, status)].status,
            ),
    {
        let mut i: usize = 0;
        while i < self.batches.len()
            invariant
                i <= self.batches.len(),
                forall|j: int|
                    0 <= j < i ==> !(#[trigger] self.batch_views()[j].dbid == batch_dbid
                        && !self.batch_views()[j].status.spec_can_become(status)),
            decreases self.batches.len() - i,
        {
            if self.batches[i].dbid == batch_dbid && !self.batches[i].status.can_become(status) {
                proof {
                    let views = self.batch_views();
                    assert(views[i as int].dbid == batch_dbid);
                    let k = first_blocked(views, batch_dbid, status);
                    assert(0 <= k < views.len() && views[k].dbid == batch_dbid
                        && !views[k].status.spec_can_become(status) && forall|j: int|
                        0 <= j < k ==> !(#[trigger] views[j].dbid == batch_dbid
                            && !views[j].status.spec_can_become(status)));
                    assert(k == i);
                }
                return Some(self.batches[i].status);
            }
            i += 1;
        }
        None
    }

    /// Moves a batch to `status` at time `now`. A message, where one is
    /// given, is stored with it; entering a terminal status stamps the time of
    /// processing. Fails with `NotFound` when no batch has the id, and with
    /// `Transition` when the lifecycle forbids the move; a failure changes
    /// nothing.
    pub fn update_batch_status(
        &mut self,
        batch_dbid: i64,
        status: BatchStatus,
        error_message: Option<&str>,
        now: Timestamp,
    ) -> (r: Result<(), StoreError>)
        ensures
            old(self).wf() ==> final(self).wf(),
            final(self).next_dbid == old(self).next_dbid,
            final(self).same_rows(old(self)),
            !has_batch(old(self).batch_views(), batch_dbid) ==> r == Err::<(), StoreError>(
                StoreError::NotFound(batch_dbid),
            ) && final(self).batch_views() == old(self).batch_views(),
            has_batch(old(self).batch_views(), batch_dbid) && blocks_status(
                old(self).batch_views(),
                batch_dbid,
                status,
            ) ==> r == Err::<(), StoreError>(
                StoreError::Transition(
                    old(self).batch_views()[first_blocked(
                        old(self).batch_views(),
                        batch_dbid,
                        status,
                    )].status,
                    status,
                ),
            ) && final(self).batch_views() == old(self).batch_views(),
            has_batch(old(self).batch_views(), batch_dbid) && !blocks_status(
                old(self).batch_views(),
                batch_dbid,
                status,
            ) ==> r == Ok::<(), StoreError>(()) && final(self).batch_views() == set_status(
                old(self).batch_views(),
                batch_dbid,
                status,
                message_view(error_message),
                now,
            ),
    {
        if !self.batch_exists(batch_dbid) {
            return Err(StoreError::NotFound(batch_dbid));
        }
        match self.blocking_status(batch_dbid, status) {
            Some(from) => {
                return Err(StoreError::Transition(from, status));
            },
            None => {},
        }
        let terminal: bool = status.is_terminal();
        let mut i: usize = 0;
        while i < self.batches.len()
            invariant
                i <= self.batches.len(),
                self.batches.len() == old(self).batches.len(),
                self.next_dbid == old(self).next_dbid,
                self.same_rows(old(self)),
                terminal == status.spec_is_terminal(),
                forall|j: int|
                    0 <= j < i ==> (#[trigger] self.batches@[j])@ == status_set(
                        old(self).batches@[j]@,
                        batch_dbid,
                        status,
                        message_view(error_message),
                        now,
                    ),
                forall|j: int|
                    i <= j < self.batches.len() ==> #[trigger] self.batches@[j] == old(self).batches@[j],
            decreases self.batches.len() - i,
        {
            if self.batches[i].dbid == batch_dbid {
                let mut b: Batch = self.batches[i].clone();
                b.status = status;
                match error_message {
                    Some(m) => {
                        b.error_message = Some(m.to_owned());
                    },
                    None => {},
                }
                if terminal {
                    b.processed_at = Some(now);
                }
                self.batches.set(i, b);
            }
            i += 1;
        }
        assert(self.batch_views() =~= set_status(
            old(self).batch_views(),
            batch_dbid,
            status,
            message_view(error_message),
            now,
        ));
        proof {
            if old(self).wf() {
                assert forall|i: int| 0 <= i < self.batches@.len() implies (
                #[trigger] self.batches@[i]).dbid < self.next_dbid by {
                    assert(self.batch_views()[i].dbid == old(self).batches@[i].dbid);
                }
                self.lemma_wf_kept(old(self));
            }
        }
        Ok(())
    }
}

} // verus!
