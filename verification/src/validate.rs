//! Validation of staged transactions.

use vstd::prelude::*;
use vstd::string::*;
use crate::codes::BatchStatus;
use crate::errors::StoreError;
use crate::ingest::fail_batch;
use crate::plan::staging_tx_views;
use crate::staging::{StagingTx, StagingTxView};
use crate::store::{blocks_status, has_batch, DataStore};
use crate::text::{decimal, decimal_string};
use crate::timestamp::Timestamp;

verus! {

/// A staged transaction is malformed when the triple that names its
/// instrument is incomplete: the namespace, the domain or the identifier is
/// missing.
pub open spec fn is_malformed(row: StagingTxView) -> bool {
    !row.instrument().is_complete()
}

/// The malformed transactions staged for a batch, in table order.
pub open spec fn malformed_rows(staged: Seq<StagingTxView>, batch_dbid: i64) -> Seq<
    StagingTxView,
> {
    staged.filter(|r: StagingTxView| r.batch_dbid == batch_dbid && is_malformed(r))
}

/// The line that reports one malformed transaction: its raw identifier and
/// its trade date in seconds since the epoch.
pub open spec fn report_line(row: StagingTxView) -> Seq<char> {
    "Invalid transaction: identifier ("@ + row.instrument_namespace + ", "@
        + row.instrument_domain + ", "@ + row.instrument_identifier + ") traded at "@ + decimal(
        row.trade_date.seconds as int,
    ) + "\n"@
}

/// The report on a list of malformed transactions: one line each, in order.
pub open spec fn report(rows: Seq<StagingTxView>) -> Seq<char>
    decreases rows.len(),
{
    if rows.len() == 0 {
        Seq::empty()
    } else {
        report(rows.drop_last()) + report_line(rows.last())
    }
}

/// Whether `part` occurs in `text` as a run of consecutive characters.
pub open spec fn mentions(text: Seq<char>, part: Seq<char>) -> bool {
    exists|at: int|
        0 <= at && at + part.len() <= text.len() && #[trigger] text.subrange(
            at,
            at + part.len(),
        ) == part
}

/// Whether a staged transaction is malformed.
pub fn malformed(row: &StagingTx) -> (r: bool)
    ensures
        r == is_malformed(row@),
{
    row.instrument_namespace.as_str().is_empty() || row.instrument_domain.as_str().is_empty()
        || row.instrument_identifier.as_str().is_empty()
}

/// Appends the line that reports a malformed transaction.
pub fn append_report_line(text: &mut String, row: &StagingTx)
    ensures
        final(text)@ == old(text)@ + report_line(row@),
{
    let seconds: String = decimal_string(row.trade_date.seconds);
    let ghost start = text@;
    text.append("Invalid transaction: identifier (");
    text.append(row.instrument_namespace.as_str());
    text.append(", ");
    text.append(row.instrument_domain.as_str());
    text.append(", ");
    text.append(row.instrument_identifier.as_str());
    text.append(") traded at ");
    text.append(seconds.as_str());
    text.append("\n");
    assert(text@ =~= start + report_line(row@));
}

/// Reports the malformed transactions among the staged rows of a batch:
/// `None` where there is none, otherwise the report on them, one line each
/// in table order.
pub fn report_malformed(rows: &Vec<StagingTx>, batch_dbid: i64) -> (r: Option<String>)
    ensures
        match r {
            None => malformed_rows(staging_tx_views(rows@), batch_dbid).len() == 0,
            Some(text) => malformed_rows(staging_tx_views(rows@), batch_dbid).len() > 0 && text@
                == report(malformed_rows(staging_tx_views(rows@), batch_dbid)),
        },
{
    let ghost staged = staging_tx_views(rows@);
    let ghost bad = |r: StagingTxView| r.batch_dbid == batch_dbid && is_malformed(r);
    let mut text: String = String::new();
    let mut found: usize = 0;
    let mut i: usize = 0;
    proof {
        reveal(Seq::filter);
        assert(staged.take(0).filter(bad) =~= Seq::empty());
    }
    while i < rows.len()
        invariant
            i <= rows.len(),
            staged == staging_tx_views(rows@),
            bad == |r: StagingTxView| r.batch_dbid == batch_dbid && is_malformed(r),
            text@ == report(staged.take(i as int).filter(bad)),
            found == staged.take(i as int).filter(bad).len(),
            found <= i,
        decreases rows.len() - i,
    {
        let row: &StagingTx = &rows[i];
        let hit: bool = row.batch_dbid == batch_dbid && malformed(row);
        proof {
            assert(staged.take(i + 1) =~= staged.take(i as int).push(staged[i as int]));
            staged.take(i as int).lemma_filter_push(staged[i as int], bad);
            let before = staged.take(i as int).filter(bad);
            assert(before.push(staged[i as int]).drop_last() =~= before);
        }
        if hit {
            append_report_line(&mut text, row);
            found = found + 1;
        }
        i += 1;
    }
    assert(staged.take(i as int) =~= staged);
    if found == 0 {
        None
    } else {
        Some(text)
    }
}

impl DataStore {
    /// Checks the transactions staged for a batch at time `now`.
    ///
    /// Where none is malformed the result is `Ok` and nothing changes: the
    /// batch keeps its status. Otherwise the result is a `Validation` error
    /// whose text reports every malformed row, one line each, and the batch
    /// is marked as failed with that text, unless it does not exist or has
    /// already finished.
    pub fn validate_txs(&mut self, batch_dbid: i64, now: Timestamp) -> (r: Result<
        (),
        StoreError,
    >)
        ensures
            old(self).wf() ==> final(self).wf(),
            malformed_rows(old(self).staging_tx_views(), batch_dbid).len() == 0 ==> r == Ok::<
                (),
                StoreError,
            >(()) && *final(self) == *old(self),
            malformed_rows(old(self).staging_tx_views(), batch_dbid).len() > 0 ==> (match r {
                Err(StoreError::Validation(text)) => text@ == report(
                    malformed_rows(old(self).staging_tx_views(), batch_dbid),
                ),
                _ => false,
            }) && final(self).next_dbid == old(self).next_dbid && final(self).same_rows(old(self))
                && final(self).batch_views() == fail_batch(
                old(self).batch_views(),
                batch_dbid,
                report(malformed_rows(old(self).staging_tx_views(), batch_dbid)),
                now,
            ),
    {
        match report_malformed(&self.staging_txs, batch_dbid) {
            None => Ok(()),
            Some(text) => {
                self.mark_failed(batch_dbid, text.as_str(), now);
                Err(StoreError::Validation(text))
            },
        }
    }
}

/// A report mentions the line of every row that it reports.
pub proof fn lemma_report_mentions_line(rows: Seq<StagingTxView>, k: int)
    requires
        0 <= k < rows.len(),
    ensures
        mentions(report(rows), report_line(rows[k])),
    decreases rows.len(),
{
    let front = rows.drop_last();
    let line = report_line(rows[k]);
    if k == rows.len() - 1 {
        let at = report(front).len() as int;
        assert(report(rows).subrange(at, at + line.len()) =~= line);
    } else {
        lemma_report_mentions_line(front, k);
        let at = choose|at: int|
            0 <= at && at + line.len() <= report(front).len() && #[trigger] report(
                front,
            ).subrange(at, at + line.len()) == line;
        assert(report(rows).subrange(at, at + line.len()) =~= report(front).subrange(
            at,
            at + line.len(),
        ));
    }
}

/// The line that reports a row mentions the three parts of its raw
/// identifier.
pub proof fn lemma_line_mentions_identifier(row: StagingTxView)
    ensures
        mentions(report_line(row), row.instrument_namespace),
        mentions(report_line(row), row.instrument_domain),
        mentions(report_line(row), row.instrument_identifier),
{
    let line = report_line(row);
    let a = "Invalid transaction: identifier ("@.len() as int;
    let b = a + row.instrument_namespace.len() + ", "@.len();
    let c = b + row.instrument_domain.len() + ", "@.len();
    assert(line.subrange(a, a + row.instrument_namespace.len()) =~= row.instrument_namespace);
    assert(line.subrange(b, b + row.instrument_domain.len()) =~= row.instrument_domain);
    assert(line.subrange(c, c + row.instrument_identifier.len()) =~= row.instrument_identifier);
}

/// What a text mentions, a text that mentions that text mentions too.
pub proof fn lemma_mentions_transitive(text: Seq<char>, part: Seq<char>, piece: Seq<char>)
    requires
        mentions(text, part),
        mentions(part, piece),
    ensures
        mentions(text, piece),
{
    let at = choose|at: int|
        0 <= at && at + part.len() <= text.len() && #[trigger] text.subrange(at, at + part.len())
            == part;
    let inner = choose|inner: int|
        0 <= inner && inner + piece.len() <= part.len() && #[trigger] part.subrange(
            inner,
            inner + piece.len(),
        ) == piece;
    assert(text.subrange(at + inner, at + inner + piece.len()) =~= part.subrange(
        inner,
        inner + piece.len(),
    ));
}

/// A batch with a malformed transaction ends as failed. Where the batch
/// exists and has not finished, marking it as failed with the report leaves
/// every batch with that id failed, with the report as its message; and the
/// report mentions the raw identifier of every malformed row.
pub proof fn lemma_malformed_batch_fails(
    store: DataStore,
    batch_dbid: i64,
    now: Timestamp,
)
    requires
        has_batch(store.batch_views(), batch_dbid),
        !blocks_status(store.batch_views(), batch_dbid, BatchStatus::Failed),
    ensures
        ({
            let rows = malformed_rows(store.staging_tx_views(), batch_dbid);
            let after = fail_batch(store.batch_views(), batch_dbid, report(rows), now);
            &&& after.len() == store.batch_views().len()
            &&& forall|i: int|
                0 <= i < after.len() && (#[trigger] after[i]).dbid == batch_dbid ==> after[i].status
                    == BatchStatus::Failed && after[i].error_message == Some(report(rows))
            &&& forall|k: int|
                0 <= k < rows.len() ==> mentions(report(rows), report_line(#[trigger] rows[k]))
                    && mentions(report(rows), rows[k].instrument_namespace) && mentions(
                    report(rows),
                    rows[k].instrument_domain,
                ) && mentions(report(rows), rows[k].instrument_identifier)
        }),
{
    let rows = malformed_rows(store.staging_tx_views(), batch_dbid);
    assert forall|k: int| 0 <= k < rows.len() implies mentions(
        report(rows),
        report_line(#[trigger] rows[k]),
    ) && mentions(report(rows), rows[k].instrument_namespace) && mentions(
        report(rows),
        rows[k].instrument_domain,
    ) && mentions(report(rows), rows[k].instrument_identifier) by {
        lemma_report_mentions_line(rows, k);
        lemma_line_mentions_identifier(rows[k]);
        lemma_mentions_transitive(report(rows), report_line(rows[k]), rows[k].instrument_namespace);
        lemma_mentions_transitive(report(rows), report_line(rows[k]), rows[k].instrument_domain);
        lemma_mentions_transitive(
            report(rows),
            report_line(rows[k]),
            rows[k].instrument_identifier,
        );
    }
}

} // verus!
