//! The ingestion entry point: one call that creates a batch and stages what
//! a broker submitted for it.

use vstd::prelude::*;
use vstd::string::*;
use crate::batch::new_batch;
use crate::codes::{BatchStatus, BatchType};
use crate::errors::{Errors, Status, StatusCode, StoreError};
use crate::models::IdentifierRecord;
use crate::period::{checked_period, validate_period, DateRange};
use crate::ingest::{numbered_identifiers, numbered_instruments, numbered_txs, row_ids, staged_row_count};
use crate::plan::{count_instrument_rows, identifier_rows, instrument_rows, lemma_identifier_rows_batch, lemma_identifier_rows_len, tx_rows};
use crate::records::{instrument_views, tx_views, Instrument, Tx};
use crate::staging::{StagingIdentifierView, StagingInstrumentView, StagingTxView};
use crate::store::{blocks_status, has_batch, DataStore};
use crate::timestamp::Timestamp;

verus! {

/// The number of rows that staging a submission writes: one per
/// transaction, one per instrument and one per identifier claim.
pub open spec fn submission_rows(txs: Seq<Tx>, instruments: Seq<Instrument>) -> int {
    staged_row_count(instruments) + txs.len()
}

/// A filter that every element passes keeps the list as it is.
pub proof fn lemma_filter_all<A>(s: Seq<A>, p: spec_fn(A) -> bool)
    requires
        forall|i: int| 0 <= i < s.len() ==> p(#[trigger] s[i]),
    ensures
        s.filter(p) == s,
    decreases s.len(),
{
    reveal(Seq::filter);
    if s.len() > 0 {
        lemma_filter_all(s.drop_last(), p);
        assert(s.drop_last().push(s.last()) =~= s);
    } else {
        assert(s.filter(p) =~= s);
    }
}

/// A filter that no element passes leaves nothing.
pub proof fn lemma_filter_none<A>(s: Seq<A>, p: spec_fn(A) -> bool)
    requires
        forall|i: int| 0 <= i < s.len() ==> !p(#[trigger] s[i]),
    ensures
        s.filter(p).len() == 0,
    decreases s.len(),
{
    reveal(Seq::filter);
    if s.len() > 0 {
        lemma_filter_none(s.drop_last(), p);
    }
}

impl DataStore {
    /// The number of rows staged for a batch, over the three staging tables.
    pub open spec fn staged_for(&self, batch_dbid: i64) -> int {
        (self.staging_tx_views().filter(|r: StagingTxView| r.batch_dbid == batch_dbid).len()
            + self.staging_instrument_views().filter(
            |r: StagingInstrumentView| r.batch_dbid == batch_dbid,
        ).len() + self.staging_identifier_views().filter(
            |r: StagingIdentifierView| r.batch_dbid == batch_dbid,
        ).len()) as int
    }

    /// What staging a submission returns: the id of the new batch, or
    /// `Exhausted` where the submission does not fit.
    pub open spec fn submission_result(&self, txs: Seq<Tx>, instruments: Seq<Instrument>) -> Result<
        i64,
        StoreError,
    > {
        if self.submission_fits(txs, instruments) {
            Ok(self.next_dbid)
        } else {
            Err(StoreError::Exhausted)
        }
    }

    /// Whether a submission can be staged as one batch: its row count fits
    /// the batch's total, and the id sequence can number the batch and the
    /// rows.
    pub open spec fn submission_fits(&self, txs: Seq<Tx>, instruments: Seq<Instrument>) -> bool {
        submission_rows(txs, instruments) <= i32::MAX && self.next_dbid + 1 + submission_rows(
            txs,
            instruments,
        ) <= i64::MAX
    }
}

/// A well-formed store holds no staged row for an id that the sequence has
/// not given out yet.
pub proof fn lemma_nothing_staged_ahead(store: DataStore, batch_dbid: i64)
    requires
        store.wf(),
        batch_dbid >= store.next_dbid,
    ensures
        store.staged_for(batch_dbid) == 0,
{
    assert forall|x: i64| has_batch(store.batch_views(), x) implies x < store.next_dbid by {
        let i = choose|i: int|
            0 <= i < store.batch_views().len() && #[trigger] store.batch_views()[i].dbid == x;
        assert(store.batches@[i].dbid == x);
    }
    assert forall|i: int| 0 <= i < store.staging_tx_views().len() implies (
    #[trigger] store.staging_tx_views()[i]).batch_dbid != batch_dbid by {
        assert(has_batch(store.batch_views(), store.staging_txs@[i].batch_dbid));
    }
    lemma_filter_none(
        store.staging_tx_views(),
        |r: StagingTxView| r.batch_dbid == batch_dbid,
    );
    assert forall|i: int| 0 <= i < store.staging_instrument_views().len() implies (
    #[trigger] store.staging_instrument_views()[i]).batch_dbid != batch_dbid by {
        assert(has_batch(store.batch_views(), store.staging_instruments@[i].batch_dbid));
    }
    lemma_filter_none(
        store.staging_instrument_views(),
        |r: StagingInstrumentView| r.batch_dbid == batch_dbid,
    );
    assert forall|i: int| 0 <= i < store.staging_identifier_views().len() implies (
    #[trigger] store.staging_identifier_views()[i]).batch_dbid != batch_dbid by {
        assert(has_batch(store.batch_views(), store.staging_identifiers@[i].batch_dbid));
    }
    lemma_filter_none(
        store.staging_identifier_views(),
        |r: StagingIdentifierView| r.batch_dbid == batch_dbid,
    );
}

/// The ingestion service over a data store.
#[derive(Clone, Debug, PartialEq, Eq)]
pub struct Service {
    pub db: DataStore,
}

impl Service {
    /// A service over the given store.
    pub fn new(db: DataStore) -> (s: Service)
        ensures
            s.db == db,
    {
        Service { db }
    }

    /// The store of the service.
    pub fn db(&self) -> (db: &DataStore)
        ensures
            *db == self.db,
    {
        &self.db
    }

    /// Whether this service's store is what staging a submission as the
    /// batch `batch_dbid` at `now` made of `before`.
    pub open spec fn holds_submission(
        &self,
        before: &Service,
        batch_dbid: i64,
        user_dbid: i64,
        broker_key: Seq<char>,
        period_start: Timestamp,
        period_end: Timestamp,
        txs: Seq<Tx>,
        instruments: Seq<Instrument>,
        now: Timestamp,
    ) -> bool {
        let first = (batch_dbid + 1) as i64;
        &&& self.db.next_dbid == batch_dbid + 1 + submission_rows(txs, instruments)
        &&& self.db.batch_views() == before.db.batch_views().push(
            new_batch(
                batch_dbid,
                user_dbid,
                BatchType::TxsTimeseries,
                broker_key,
                period_start,
                period_end,
                now,
            ).with_total_records(submission_rows(txs, instruments) as i32).with_status(
                BatchStatus::Processing,
                None,
                now,
            ),
        )
        &&& self.db.staging_instrument_views() == before.db.staging_instrument_views()
            + numbered_instruments(instrument_rows(batch_dbid, instrument_views(instruments)), first)
        &&& self.db.staging_identifier_views() == before.db.staging_identifier_views()
            + numbered_identifiers(
            identifier_rows(
                batch_dbid,
                Seq::empty(),
                instrument_views(instruments),
                row_ids(first, instruments.len()),
            ),
            first + instruments.len(),
        )
        &&& self.db.staging_tx_views() == before.db.staging_tx_views() + numbered_txs(
            tx_rows(batch_dbid, tx_views(txs)),
            (first + staged_row_count(instruments)) as i64,
        )
        &&& self.db.same_canonical(&before.db)
        &&& self.db.staged_for(batch_dbid) == submission_rows(txs, instruments)
    }

    /// Whether this service's store and the result `r` are what staging a
    /// submission at `now` makes of `before`.
    ///
    /// Where the id sequence cannot even number the batch, the result is
    /// `Exhausted` and nothing changes. Where the rows cannot be numbered or
    /// counted, the result is `Exhausted` and the batch is in the store,
    /// failed with the reason, without any staged row. Otherwise the result
    /// is the id of the batch, which holds the submission.
    pub open spec fn submission_staged(
        &self,
        before: &Service,
        user_dbid: i64,
        broker_key: Seq<char>,
        period_start: Timestamp,
        period_end: Timestamp,
        txs: Seq<Tx>,
        instruments: Seq<Instrument>,
        now: Timestamp,
        r: Result<i64, StoreError>,
    ) -> bool {
        if before.db.next_dbid == i64::MAX {
            r == Err::<i64, StoreError>(StoreError::Exhausted) && *self == *before
        } else if !before.db.submission_fits(txs, instruments) {
            &&& r == Err::<i64, StoreError>(StoreError::Exhausted)
            &&& self.db.next_dbid == before.db.next_dbid + 1
            &&& self.db.same_rows(&before.db)
            &&& self.db.batch_views() == before.db.batch_views().push(
                new_batch(
                    before.db.next_dbid,
                    user_dbid,
                    BatchType::TxsTimeseries,
                    broker_key,
                    period_start,
                    period_end,
                    now,
                ).with_status(
                    BatchStatus::Failed,
                    Some(StoreError::Exhausted.spec_message()),
                    now,
                ),
            )
        } else {
            r == Ok::<i64, StoreError>(before.db.next_dbid) && self.holds_submission(
                before,
                before.db.next_dbid,
                user_dbid,
                broker_key,
                period_start,
                period_end,
                txs,
                instruments,
                now,
            )
        }
    }

    /// Creates a transaction batch for `user_id` and stages a submission
    /// for it at time `now`: first the instruments with their identifier
    /// claims, as supplied by the user, then the transactions. The batch
    /// then records the number of staged rows as its total and starts
    /// processing. Returns the id of the batch.
    ///
    /// Either all rows are staged or none is. Where the id sequence cannot
    /// even number the batch, `Exhausted` is returned and nothing changes.
    /// Where the rows cannot be numbered or counted, the batch stays in the
    /// store, marked as failed with the reason, and `Exhausted` is returned.
    pub fn stage_txs_batch(
        &mut self,
        user_id: i64,
        broker_key: String,
        period_start: Timestamp,
        period_end: Timestamp,
        txs: Vec<Tx>,
        instruments: Vec<Instrument>,
        now: Timestamp,
    ) -> (r: Result<i64, StoreError>)
        requires
            old(self).db.wf(),
        ensures
            final(self).db.wf(),
            final(self).submission_staged(
                old(self),
                user_id,
                broker_key@,
                period_start,
                period_end,
                txs@,
                instruments@,
                now,
                r,
            ),
    {
        let batch_dbid: i64 = match self.db.create_batch(
            user_id,
            BatchType::TxsTimeseries,
            broker_key.as_str(),
            period_start,
            period_end,
            now,
        ) {
            Ok(id) => id,
            Err(e) => {
                return Err(e);
            },
        };
        let ghost created = new_batch(
            batch_dbid,
            user_id,
            BatchType::TxsTimeseries,
            broker_key@,
            period_start,
            period_end,
            now,
        );
        let ghost before = old(self).db.batch_views();
        let ghost with_batch = self.db.batch_views();
        proof {
            assert(with_batch[before.len() as int].dbid == batch_dbid);
            assert(has_batch(with_batch, batch_dbid));
            assert forall|i: int| 0 <= i < before.len() implies before[i].dbid != batch_dbid by {
                assert(old(self).db.batches@[i].dbid < batch_dbid);
            }
            assert forall|status: BatchStatus|
                created.status.spec_can_become(status) implies !blocks_status(
                with_batch,
                batch_dbid,
                status,
            ) by {
                if blocks_status(with_batch, batch_dbid, status) {
                    let i = choose|i: int|
                        0 <= i < with_batch.len() && #[trigger] with_batch[i].dbid == batch_dbid
                            && !with_batch[i].status.spec_can_become(status);
                    if i < before.len() {
                        assert(with_batch[i] == before[i]);
                    }
                }
            }
            lemma_nothing_staged_ahead(old(self).db, batch_dbid);
        }
        let instrument_rows_count: Option<usize> = count_instrument_rows(&instruments);
        let total: Option<usize> = match instrument_rows_count {
            Some(c) => {
                if txs.len() > usize::MAX - c {
                    None
                } else {
                    Some(c + txs.len())
                }
            },
            None => None,
        };
        let fits: bool = match total {
            Some(t) => t <= 2147483647 && (self.db.next_dbid as i128) + (t as i128) <= (
            i64::MAX as i128),
            None => false,
        };
        if !fits {
            let reason: String = StoreError::Exhausted.message();
            self.db.mark_failed(batch_dbid, reason.as_str(), now);
            proof {
                assert(self.db.batch_views() =~= before.push(
                    created.with_status(
                        BatchStatus::Failed,
                        Some(StoreError::Exhausted.spec_message()),
                        now,
                    ),
                ));
            }
            return Err(StoreError::Exhausted);
        }
        let total: usize = match total {
            Some(t) => t,
            None => {
                return Err(StoreError::Exhausted);
            },
        };
        let ghost first = self.db.next_dbid;
        let ghost staged_instruments = numbered_instruments(
            instrument_rows(batch_dbid, instrument_views(instruments@)),
            first,
        );
        let ghost planned_claims = identifier_rows(
            batch_dbid,
            Seq::empty(),
            instrument_views(instruments@),
            row_ids(first, instruments@.len()),
        );
        let ghost staged_claims = numbered_identifiers(
            planned_claims,
            first + instruments@.len(),
        );
        let ghost staged_txs = numbered_txs(
            tx_rows(batch_dbid, tx_views(txs@)),
            (first + staged_row_count(instruments@)) as i64,
        );
        proof {
            lemma_identifier_rows_len(
                batch_dbid,
                Seq::empty(),
                instrument_views(instruments@),
                row_ids(first, instruments@.len()),
            );
            lemma_identifier_rows_batch(
                batch_dbid,
                Seq::empty(),
                instrument_views(instruments@),
                row_ids(first, instruments@.len()),
            );
        }
        let source: String = String::new();
        match self.db.stage_instruments(batch_dbid, source, instruments, now) {
            Ok(_) => {},
            Err(e) => {
                proof {
                    assert(false);
                }
                return Err(e);
            },
        }
        proof {
            assert(self.db.staging_instrument_views() =~= old(self).db.staging_instrument_views()
                + staged_instruments);
            assert(self.db.staging_identifier_views() =~= old(self).db.staging_identifier_views()
                + staged_claims);
        }
        match self.db.stage_txs(batch_dbid, txs, now) {
            Ok(_) => {},
            Err(e) => {
                proof {
                    assert(false);
                }
                return Err(e);
            },
        }
        proof {
            assert(self.db.staging_tx_views() =~= old(self).db.staging_tx_views() + staged_txs);
        }
        match self.db.update_batch_total_records(batch_dbid, total as i32) {
            Ok(_) => {},
            Err(e) => {
                proof {
                    assert(false);
                }
                return Err(e);
            },
        }
        let ghost counted = self.db.batch_views();
        proof {
            assert(counted =~= before.push(created.with_total_records(total as i32)));
            assert(counted[before.len() as int].dbid == batch_dbid);
            assert(has_batch(counted, batch_dbid));
            if blocks_status(counted, batch_dbid, BatchStatus::Processing) {
                let i = choose|i: int|
                    0 <= i < counted.len() && #[trigger] counted[i].dbid == batch_dbid
                        && !counted[i].status.spec_can_become(BatchStatus::Processing);
                if i < before.len() {
                    assert(counted[i] == before[i]);
                }
            }
        }
        match self.db.update_batch_status(batch_dbid, BatchStatus::Processing, None, now) {
            Ok(_) => {},
            Err(e) => {
                proof {
                    assert(false);
                }
                return Err(e);
            },
        }
        proof {
            assert(self.db.batch_views() =~= before.push(
                created.with_total_records(total as i32).with_status(
                    BatchStatus::Processing,
                    None,
                    now,
                ),
            ));
            let of_batch_tx = |r: StagingTxView| r.batch_dbid == batch_dbid;
            let of_batch_instrument = |r: StagingInstrumentView| r.batch_dbid == batch_dbid;
            let of_batch_claim = |r: StagingIdentifierView| r.batch_dbid == batch_dbid;
            Seq::filter_distributes_over_add(
                old(self).db.staging_tx_views(),
                staged_txs,
                of_batch_tx,
            );
            Seq::filter_distributes_over_add(
                old(self).db.staging_instrument_views(),
                staged_instruments,
                of_batch_instrument,
            );
            Seq::filter_distributes_over_add(
                old(self).db.staging_identifier_views(),
                staged_claims,
                of_batch_claim,
            );
            lemma_filter_all(staged_txs, of_batch_tx);
            lemma_filter_all(staged_instruments, of_batch_instrument);
            lemma_filter_all(staged_claims, of_batch_claim);
        }
        Ok(batch_dbid)
    }
}

/// The broker that a submission comes from.
#[derive(Debug, PartialEq, Eq)]
pub struct Broker {
    pub key: String,
}

/// A request to replace the transactions of a period.
#[derive(Debug, PartialEq, Eq)]
pub struct UpdateTxsRequest {
    pub period: Option<DateRange>,
    pub txs: Vec<Tx>,
    pub broker: Option<Broker>,
    pub instruments: Vec<Instrument>,
}

/// The identifiers of a batch after disambiguation.
#[derive(Debug, PartialEq, Eq)]
pub struct DisambiguatedIds {
    pub identifiers: Vec<IdentifierRecord>,
}

/// Why a request is turned away before anything is staged, if it is: the
/// caller is not authenticated, the period is missing or malformed, or the
/// broker is missing, checked in this order.
pub open spec fn request_rejection(user_id: Option<i64>, request: UpdateTxsRequest) -> Option<
    (StatusCode, Seq<char>),
> {
    if user_id.is_none() {
        Some((StatusCode::Unauthenticated, "User is not authenticated"@))
    } else if request.period.is_none() {
        Some((StatusCode::InvalidArgument, "Period is required"@))
    } else if checked_period(request.period.unwrap()).is_err() {
        Some(
            (
                StatusCode::InvalidArgument,
                checked_period(request.period.unwrap()).unwrap_err().spec_message(),
            ),
        )
    } else if request.broker.is_none() {
        Some((StatusCode::InvalidArgument, "Broker is required"@))
    } else {
        None
    }
}

/// What the caller sees where staging failed: an internal failure that
/// names the step and the cause.
pub open spec fn staging_failure(cause: StoreError) -> (StatusCode, Seq<char>) {
    (StatusCode::Internal, "Failed to stage transactions: "@ + cause.spec_message())
}

/// Whether a result carries the given class and text.
pub open spec fn is_failure(r: Result<(), Status>, failure: (StatusCode, Seq<char>)) -> bool {
    r.is_err() && r.unwrap_err().code == failure.0 && r.unwrap_err().message@ == failure.1
}

impl Service {
    /// The id of the authenticated user of a request, where there is one.
    pub fn get_authenticated_user(user_id: Option<i64>) -> (r: Result<i64, Status>)
        ensures
            match user_id {
                Some(id) => r == Ok::<i64, Status>(id),
                None => r.is_err() && r.unwrap_err().code == StatusCode::Unauthenticated
                    && r.unwrap_err().message@ == "User is not authenticated"@,
            },
    {
        match user_id {
            Some(id) => Ok(id),
            None => Err(Errors::unauthenticated(String::from_str("User is not authenticated"))),
        }
    }

    /// Disambiguates the identifiers of a batch. No disambiguation service
    /// is configured, so the result is empty.
    pub fn disambiguate_ids(&self, batch_dbid: i64, user_id: i64) -> (r: DisambiguatedIds)
        ensures
            r.identifiers@.len() == 0,
    {
        DisambiguatedIds { identifiers: Vec::new() }
    }

    /// Handles a request to replace the transactions of a period, made by
    /// `user_id` at time `now`.
    ///
    /// A request is turned away, with nothing written, where the caller is
    /// not authenticated, the period is missing or malformed, or the broker
    /// is missing. Otherwise the submission is staged as one batch for the
    /// period; a failure of the staging is reported as an internal failure
    /// that names the cause.
    pub fn update_txs(&mut self, user_id: Option<i64>, request: UpdateTxsRequest, now: Timestamp) -> (r:
        Result<(), Status>)
        requires
            old(self).db.wf(),
        ensures
            final(self).db.wf(),
            match request_rejection(user_id, request) {
                Some(failure) => is_failure(r, failure) && *final(self) == *old(self),
                None => final(self).submission_staged(
                    old(self),
                    user_id.unwrap(),
                    request.broker.unwrap().key@,
                    checked_period(request.period.unwrap()).unwrap().0,
                    checked_period(request.period.unwrap()).unwrap().1,
                    request.txs@,
                    request.instruments@,
                    now,
                    old(self).db.submission_result(request.txs@, request.instruments@),
                ) && match old(self).db.submission_result(request.txs@, request.instruments@) {
                    Ok(_) => r == Ok::<(), Status>(()),
                    Err(cause) => is_failure(r, staging_failure(cause)),
                },
            },
    {
        let user: i64 = match Service::get_authenticated_user(user_id) {
            Ok(id) => id,
            Err(status) => {
                return Err(status);
            },
        };
        let UpdateTxsRequest { period, txs, broker, instruments } = request;
        let period: DateRange = match period {
            Some(p) => p,
            None => {
                return Err(Errors::invalid_argument(String::from_str("Period is required")));
            },
        };
        let (period_start, period_end) = match validate_period(&period) {
            Ok(ends) => ends,
            Err(e) => {
                return Err(Errors::invalid_argument(String::from_str(e.message())));
            },
        };
        let broker_key: String = match broker {
            Some(b) => b.key,
            None => {
                return Err(Errors::invalid_argument(String::from_str("Broker is required")));
            },
        };
        let staged: Result<i64, StoreError> = self.stage_txs_batch(
            user,
            broker_key,
            period_start,
            period_end,
            txs,
            instruments,
            now,
        );
        match staged {
            Ok(batch_dbid) => {
                let _ = self.disambiguate_ids(batch_dbid, user);
                Ok(())
            },
            Err(cause) => {
                let mut message: String = String::from_str("Failed to stage transactions: ");
                let reason: String = cause.message();
                message.append(reason.as_str());
                Err(Errors::internal(message))
            },
        }
    }
}

} // verus!
