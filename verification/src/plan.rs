//! What staging writes, worked out from the raw records before any row is
//! stored.

use vstd::prelude::*;
use crate::errors::StoreError;
use crate::identifier::{Identifier, IdentifierView};
use crate::records::{instrument_views, tx_views, Instrument, InstrumentView, Tx, TxView};
use crate::staging::{staged_identifier, staged_instrument, staged_tx, StagingIdentifier, StagingIdentifierView, StagingInstrument, StagingInstrumentView, StagingTx, StagingTxView};

verus! {

/// The mathematical values of a sequence of staged transactions.
pub open spec fn staging_tx_views(rows: Seq<StagingTx>) -> Seq<StagingTxView> {
    rows.map_values(|r: StagingTx| r@)
}

/// The mathematical values of a sequence of staged instruments.
pub open spec fn staging_instrument_views(rows: Seq<StagingInstrument>) -> Seq<
    StagingInstrumentView,
> {
    rows.map_values(|r: StagingInstrument| r@)
}

/// The mathematical values of a sequence of staged identifiers.
pub open spec fn staging_identifier_views(rows: Seq<StagingIdentifier>) -> Seq<
    StagingIdentifierView,
> {
    rows.map_values(|r: StagingIdentifier| r@)
}

/// The rows staged for a list of raw transactions under a batch: one per
/// transaction, in order, not yet numbered.
pub open spec fn tx_rows(batch_dbid: i64, txs: Seq<TxView>) -> Seq<StagingTxView> {
    txs.map_values(|t: TxView| staged_tx(t).with_batch_dbid(batch_dbid))
}

/// The rows staged for a list of raw instruments under a batch: one per
/// instrument, in order, not yet numbered.
pub open spec fn instrument_rows(batch_dbid: i64, instruments: Seq<InstrumentView>) -> Seq<
    StagingInstrumentView,
> {
    instruments.map_values(|i: InstrumentView| staged_instrument(i).with_batch_dbid(batch_dbid))
}

/// The rows staged for the identifier claims of one instrument whose staged
/// row has the id `instrument_dbid`.
pub open spec fn claim_rows(
    batch_dbid: i64,
    source: Seq<char>,
    instrument_dbid: i64,
    claims: Seq<IdentifierView>,
) -> Seq<StagingIdentifierView> {
    claims.map_values(
        |c: IdentifierView|
            staged_identifier(c).with_batch_dbid(batch_dbid).with_source(
                source,
            ).with_instrument_dbid(instrument_dbid),
    )
}

/// The rows staged for the identifier claims of a list of instruments, where
/// `instrument_dbids` gives the id of each instrument's staged row: the
/// claims of the first instrument, then those of the second, and so on.
pub open spec fn identifier_rows(
    batch_dbid: i64,
    source: Seq<char>,
    instruments: Seq<InstrumentView>,
    instrument_dbids: Seq<i64>,
) -> Seq<StagingIdentifierView>
    recommends
        instruments.len() <= instrument_dbids.len(),
    decreases instruments.len(),
{
    if instruments.len() == 0 {
        Seq::empty()
    } else {
        identifier_rows(batch_dbid, source, instruments.drop_last(), instrument_dbids)
            + claim_rows(
            batch_dbid,
            source,
            instrument_dbids[instruments.len() - 1],
            instruments.last().identifiers,
        )
    }
}

/// The number of identifier claims that a list of instruments makes.
pub open spec fn claim_count(instruments: Seq<InstrumentView>) -> nat
    decreases instruments.len(),
{
    if instruments.len() == 0 {
        0
    } else {
        claim_count(instruments.drop_last()) + instruments.last().identifiers.len()
    }
}

/// There is one identifier row per claim.
pub proof fn lemma_identifier_rows_len(
    batch_dbid: i64,
    source: Seq<char>,
    instruments: Seq<InstrumentView>,
    instrument_dbids: Seq<i64>,
)
    ensures
        identifier_rows(batch_dbid, source, instruments, instrument_dbids).len() == claim_count(
            instruments,
        ),
    decreases instruments.len(),
{
    if instruments.len() > 0 {
        lemma_identifier_rows_len(batch_dbid, source, instruments.drop_last(), instrument_dbids);
    }
}

/// Every identifier row belongs to the batch it was planned for.
pub proof fn lemma_identifier_rows_batch(
    batch_dbid: i64,
    source: Seq<char>,
    instruments: Seq<InstrumentView>,
    instrument_dbids: Seq<i64>,
)
    ensures
        forall|j: int|
            0 <= j < identifier_rows(batch_dbid, source, instruments, instrument_dbids).len()
                ==> (#[trigger] identifier_rows(
                batch_dbid,
                source,
                instruments,
                instrument_dbids,
            )[j]).batch_dbid == batch_dbid,
    decreases instruments.len(),
{
    if instruments.len() > 0 {
        lemma_identifier_rows_batch(batch_dbid, source, instruments.drop_last(), instrument_dbids);
        let front = identifier_rows(batch_dbid, source, instruments.drop_last(), instrument_dbids);
        let tail = claim_rows(
            batch_dbid,
            source,
            instrument_dbids[instruments.len() - 1],
            instruments.last().identifiers,
        );
        let all = identifier_rows(batch_dbid, source, instruments, instrument_dbids);
        assert(all == front + tail);
        assert forall|j: int| 0 <= j < all.len() implies (#[trigger] all[j]).batch_dbid
            == batch_dbid by {
            if j < front.len() {
                assert(all[j] == front[j]);
            } else {
                assert(all[j] == tail[j - front.len()]);
            }
        }
    }
}

/// A list of instruments without the last one makes no more claims.
pub proof fn lemma_claim_count_take(instruments: Seq<InstrumentView>, k: int)
    requires
        0 <= k <= instruments.len(),
    ensures
        claim_count(instruments.take(k)) <= claim_count(instruments),
    decreases instruments.len(),
{
    if k < instruments.len() {
        assert(instruments.drop_last().take(k) =~= instruments.take(k));
        lemma_claim_count_take(instruments.drop_last(), k);
    } else {
        assert(instruments.take(k) =~= instruments);
    }
}

/// Flattens raw transactions into the rows to stage for a batch.
pub fn plan_tx_rows(batch_dbid: i64, txs: &Vec<Tx>) -> (rows: Vec<StagingTx>)
    ensures
        staging_tx_views(rows@) == tx_rows(batch_dbid, tx_views(txs@)),
{
    let mut rows: Vec<StagingTx> = Vec::new();
    let mut i: usize = 0;
    while i < txs.len()
        invariant
            i <= txs.len(),
            staging_tx_views(rows@) == tx_rows(batch_dbid, tx_views(txs@.take(i as int))),
        decreases txs.len() - i,
    {
        let row: StagingTx = StagingTx::from_tx(txs[i].clone()).with_batch_dbid(batch_dbid);
        let ghost prev = rows@;
        let ghost row_view = row@;
        rows.push(row);
        proof {
            assert(txs@.take(i + 1) =~= txs@.take(i as int).push(txs@[i as int]));
            assert(staging_tx_views(rows@) =~= staging_tx_views(prev).push(row_view));
            assert(tx_views(txs@.take(i + 1)) =~= tx_views(txs@.take(i as int)).push(
                txs@[i as int]@,
            ));
            assert(tx_rows(batch_dbid, tx_views(txs@.take(i + 1))) =~= tx_rows(
                batch_dbid,
                tx_views(txs@.take(i as int)),
            ).push(row_view));
        }
        i += 1;
    }
    assert(txs@.take(i as int) =~= txs@);
    rows
}

/// Flattens raw instruments into the instrument rows to stage for a batch.
pub fn plan_instrument_rows(batch_dbid: i64, instruments: &Vec<Instrument>) -> (rows: Vec<
    StagingInstrument,
>)
    ensures
        staging_instrument_views(rows@) == instrument_rows(
            batch_dbid,
            instrument_views(instruments@),
        ),
{
    let mut rows: Vec<StagingInstrument> = Vec::new();
    let mut i: usize = 0;
    while i < instruments.len()
        invariant
            i <= instruments.len(),
            staging_instrument_views(rows@) == instrument_rows(
                batch_dbid,
                instrument_views(instruments@.take(i as int)),
            ),
        decreases instruments.len() - i,
    {
        let row: StagingInstrument = StagingInstrument::from_instrument(
            &instruments[i],
        ).with_batch_dbid(batch_dbid);
        let ghost prev = rows@;
        let ghost row_view = row@;
        rows.push(row);
        proof {
            assert(instruments@.take(i + 1) =~= instruments@.take(i as int).push(
                instruments@[i as int],
            ));
            assert(staging_instrument_views(rows@) =~= staging_instrument_views(prev).push(
                row_view,
            ));
            assert(instrument_views(instruments@.take(i + 1)) =~= instrument_views(
                instruments@.take(i as int),
            ).push(instruments@[i as int]@));
            assert(instrument_rows(batch_dbid, instrument_views(instruments@.take(i + 1)))
                =~= instrument_rows(
                batch_dbid,
                instrument_views(instruments@.take(i as int)),
            ).push(row_view));
        }
        i += 1;
    }
    assert(instruments@.take(i as int) =~= instruments@);
    rows
}

/// Works out the identifier rows to stage for a batch once the instrument
/// rows have been stored and numbered: every claim of the k-th instrument
/// refers to the k-th id. Fails with `IdCount` when the number of ids
/// differs from the number of instruments.
pub fn plan_identifier_rows(
    batch_dbid: i64,
    source: &str,
    instruments: &Vec<Instrument>,
    instrument_dbids: &Vec<i64>,
) -> (r: Result<Vec<StagingIdentifier>, StoreError>)
    ensures
        instruments@.len() != instrument_dbids@.len() ==> r == Err::<
            Vec<StagingIdentifier>,
            StoreError,
        >(StoreError::IdCount(instrument_dbids@.len() as usize, instruments@.len() as usize)),
        instruments@.len() == instrument_dbids@.len() ==> r.is_ok() && staging_identifier_views(
            r.unwrap()@,
        ) == identifier_rows(
            batch_dbid,
            source@,
            instrument_views(instruments@),
            instrument_dbids@,
        ),
{
    if instruments.len() != instrument_dbids.len() {
        return Err(StoreError::IdCount(instrument_dbids.len(), instruments.len()));
    }
    let mut rows: Vec<StagingIdentifier> = Vec::new();
    let mut k: usize = 0;
    while k < instruments.len()
        invariant
            k <= instruments.len(),
            instruments@.len() == instrument_dbids@.len(),
            staging_identifier_views(rows@) == identifier_rows(
                batch_dbid,
                source@,
                instrument_views(instruments@.take(k as int)),
                instrument_dbids@,
            ),
        decreases instruments.len() - k,
    {
        let instrument: &Instrument = &instruments[k];
        let instrument_dbid: i64 = instrument_dbids[k];
        let ghost front = staging_identifier_views(rows@);
        let mut j: usize = 0;
        while j < instrument.identifiers.len()
            invariant
                j <= instrument.identifiers.len(),
                staging_identifier_views(rows@) == front + claim_rows(
                    batch_dbid,
                    source@,
                    instrument_dbid,
                    instrument@.identifiers.take(j as int),
                ),
            decreases instrument.identifiers.len() - j,
        {
            let claim: Identifier = instrument.identifiers[j].clone();
            let row: StagingIdentifier = StagingIdentifier::from_identifier(
                claim,
            ).with_batch_dbid(batch_dbid).with_source(source.to_owned()).with_instrument_dbid(
                instrument_dbid,
            );
            let ghost prev = rows@;
            let ghost row_view = row@;
            rows.push(row);
            proof {
                assert(instrument@.identifiers.take(j + 1) =~= instrument@.identifiers.take(
                    j as int,
                ).push(instrument@.identifiers[j as int]));
                assert(instrument@.identifiers[j as int] == instrument.identifiers@[j as int]@);
                assert(staging_identifier_views(rows@) =~= staging_identifier_views(prev).push(
                    row_view,
                ));
                assert(claim_rows(
                    batch_dbid,
                    source@,
                    instrument_dbid,
                    instrument@.identifiers.take(j + 1),
                ) =~= claim_rows(
                    batch_dbid,
                    source@,
                    instrument_dbid,
                    instrument@.identifiers.take(j as int),
                ).push(row_view));
            }
            j += 1;
        }
        proof {
            assert(instrument@.identifiers.take(j as int) =~= instrument@.identifiers);
            let next = instrument_views(instruments@.take(k + 1));
            assert(next.drop_last() =~= instrument_views(instruments@.take(k as int)));
            assert(next.last() == instrument@);
        }
        k += 1;
    }
    assert(instruments@.take(k as int) =~= instruments@);
    Ok(rows)
}

/// Counts the rows that staging a list of instruments writes: one per
/// instrument and one per identifier claim. `None` when the count does not
/// fit.
pub fn count_instrument_rows(instruments: &Vec<Instrument>) -> (r: Option<usize>)
    ensures
        r.is_some() == (instruments@.len() + claim_count(instrument_views(instruments@))
            <= usize::MAX),
        r.is_some() ==> r.unwrap() == instruments@.len() + claim_count(
            instrument_views(instruments@),
        ),
{
    let mut count: usize = instruments.len();
    let mut k: usize = 0;
    while k < instruments.len()
        invariant
            k <= instruments.len(),
            count == instruments@.len() + claim_count(
                instrument_views(instruments@.take(k as int)),
            ),
        decreases instruments.len() - k,
    {
        let claims: usize = instruments[k].identifiers.len();
        proof {
            let next = instrument_views(instruments@.take(k + 1));
            assert(next.drop_last() =~= instrument_views(instruments@.take(k as int)));
            assert(next.last() == instruments@[k as int]@);
            assert(claim_count(next) == claim_count(next.drop_last()) + claims);
            lemma_claim_count_take(instrument_views(instruments@), k + 1);
            assert(instrument_views(instruments@).take(k + 1) =~= next);
        }
        if claims > usize::MAX - count {
            return None;
        }
        count = count + claims;
        k += 1;
    }
    assert(instruments@.take(k as int) =~= instruments@);
    Some(count)
}

} // verus!
