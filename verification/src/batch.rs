//! Batches: one ingestion unit each, with its lifecycle.

use vstd::prelude::*;
use crate::codes::{BatchStatus, BatchType};
use crate::timestamp::Timestamp;

verus! {

/// One ingestion unit.
#[derive(Debug, PartialEq, Eq)]
pub struct Batch {
    pub dbid: i64,
    pub user_dbid: i64,
    pub batch_type: BatchType,
    pub status: BatchStatus,
    pub broker_key: String,
    pub period_start: Timestamp,
    pub period_end: Timestamp,
    pub total_records: i32,
    pub processed_records: i32,
    pub error_count: i32,
    pub created_at: Timestamp,
    pub processed_at: Option<Timestamp>,
    pub error_message: Option<String>,
}

/// The mathematical value of a [`Batch`].
pub struct BatchView {
    pub dbid: i64,
    pub user_dbid: i64,
    pub batch_type: BatchType,
    pub status: BatchStatus,
    pub broker_key: Seq<char>,
    pub period_start: Timestamp,
    pub period_end: Timestamp,
    pub total_records: i32,
    pub processed_records: i32,
    pub error_count: i32,
    pub created_at: Timestamp,
    pub processed_at: Option<Timestamp>,
    pub error_message: Option<Seq<char>>,
}

impl View for Batch {
    type V = BatchView;

    open spec fn view(&self) -> BatchView {
        BatchView {
            dbid: self.dbid,
            user_dbid: self.user_dbid,
            batch_type: self.batch_type,
            status: self.status,
            broker_key: self.broker_key@,
            period_start: self.period_start,
            period_end: self.period_end,
            total_records: self.total_records,
            processed_records: self.processed_records,
            error_count: self.error_count,
            created_at: self.created_at,
            processed_at: self.processed_at,
            error_message: match self.error_message {
                Some(m) => Some(m@),
                None => None,
            },
        }
    }
}

impl Clone for Batch {
    fn clone(&self) -> (r: Self)
        ensures
            r == *self,
    {
        Batch {
            dbid: self.dbid,
            user_dbid: self.user_dbid,
            batch_type: self.batch_type,
            status: self.status,
            broker_key: self.broker_key.clone(),
            period_start: self.period_start,
            period_end: self.period_end,
            total_records: self.total_records,
            processed_records: self.processed_records,
            error_count: self.error_count,
            created_at: self.created_at,
            processed_at: self.processed_at,
            error_message: match &self.error_message {
                Some(m) => Some(m.clone()),
                None => None,
            },
        }
    }
}

/// A batch as it is created: pending, with all counts at zero, not yet
/// processed and without an error message.
pub open spec fn new_batch(
    dbid: i64,
    user_dbid: i64,
    batch_type: BatchType,
    broker_key: Seq<char>,
    period_start: Timestamp,
    period_end: Timestamp,
    created_at: Timestamp,
) -> BatchView {
    BatchView {
        dbid,
        user_dbid,
        batch_type,
        status: BatchStatus::Pending,
        broker_key,
        period_start,
        period_end,
        total_records: 0,
        processed_records: 0,
        error_count: 0,
        created_at,
        processed_at: None,
        error_message: None,
    }
}

impl BatchView {
    /// The batch with another total.
    pub open spec fn with_total_records(self, total_records: i32) -> BatchView {
        BatchView { total_records, ..self }
    }

    /// The batch after a status update at time `now`: the status is set; a
    /// message, where one is given, replaces the stored one; entering a
    /// terminal status stamps the time of processing.
    pub open spec fn with_status(
        self,
        status: BatchStatus,
        error_message: Option<Seq<char>>,
        now: Timestamp,
    ) -> BatchView {
        BatchView {
            status,
            error_message: match error_message {
                Some(m) => Some(m),
                None => self.error_message,
            },
            processed_at: if status.spec_is_terminal() {
                Some(now)
            } else {
                self.processed_at
            },
            ..self
        }
    }
}

impl Batch {
    /// Creates a pending batch.
    pub fn new(
        dbid: i64,
        user_dbid: i64,
        batch_type: BatchType,
        broker_key: &str,
        period_start: Timestamp,
        period_end: Timestamp,
        created_at: Timestamp,
    ) -> (b: Batch)
        ensures
            b@ == new_batch(
                dbid,
                user_dbid,
                batch_type,
                broker_key@,
                period_start,
                period_end,
                created_at,
            ),
    {
        Batch {
            dbid,
            user_dbid,
            batch_type,
            status: BatchStatus::Pending,
            broker_key: broker_key.to_owned(),
            period_start,
            period_end,
            total_records: 0,
            processed_records: 0,
            error_count: 0,
            created_at,
            processed_at: None,
            error_message: None,
        }
    }
}

} // verus!
