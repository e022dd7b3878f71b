//! Identifier resolution: handing the unresolved identifiers of a batch to
//! an external lookup and staging what it finds.

use vstd::prelude::*;
use vstd::string::*;
use crate::errors::StoreError;
use crate::identifier::{Identifier, IdentifierView};
use crate::ingest::unresolved;
use crate::plan::staging_identifier_views;
use crate::records::Instrument;
use crate::staging::{StagingIdentifier, StagingIdentifierView};
use crate::store::DataStore;
use crate::timestamp::Timestamp;

verus! {

/// An external lookup that maps identifiers to fully described instruments.
/// The lookup is best effort: an identifier that it cannot match is simply
/// absent from the result. A failure of the lookup itself is reported as
/// text.
pub trait IdResolver {
    /// The name under which results of this resolver are staged.
    fn name(&self) -> String;

    /// Looks the identifiers up.
    fn resolve(&self, ids: Vec<Identifier>) -> Result<Vec<Instrument>, String>;
}

/// A strategy that resolves the unresolved identifiers of a batch and
/// stages the instruments found, tagged with the source that found them.
pub trait StagingResolver {
    /// Resolves the identifiers staged for a batch at time `now`.
    fn resolve(&self, db: &mut DataStore, batch_dbid: i64, now: Timestamp) -> Result<
        (),
        StoreError,
    >;
}

/// The mathematical values of a list of identifier claims.
pub open spec fn lookup_views(ids: Seq<Identifier>) -> Seq<IdentifierView> {
    ids.map_values(|i: Identifier| i@)
}

/// Turns staged identifier rows into the lookup keys that a resolver
/// receives, one per row, in order.
pub fn lookup_keys(rows: Vec<StagingIdentifier>) -> (keys: Vec<Identifier>)
    ensures
        lookup_views(keys@) == staging_identifier_views(rows@).map_values(
            |r: StagingIdentifierView| r.lookup_key(),
        ),
{
    let ghost key = |r: StagingIdentifierView| r.lookup_key();
    let mut keys: Vec<Identifier> = Vec::new();
    let mut i: usize = 0;
    while i < rows.len()
        invariant
            i <= rows.len(),
            key == |r: StagingIdentifierView| r.lookup_key(),
            lookup_views(keys@) == staging_identifier_views(rows@.take(i as int)).map_values(key),
        decreases rows.len() - i,
    {
        let row: StagingIdentifier = rows[i].clone();
        let id: Identifier = row.into_identifier();
        let ghost prev = keys@;
        keys.push(id);
        proof {
            assert(rows@.take(i + 1) =~= rows@.take(i as int).push(rows@[i as int]));
            assert(lookup_views(keys@) =~= lookup_views(prev).push(rows@[i as int]@.lookup_key()));
            assert(staging_identifier_views(rows@.take(i + 1)).map_values(key)
                =~= staging_identifier_views(rows@.take(i as int)).map_values(key).push(
                rows@[i as int]@.lookup_key(),
            ));
        }
        i += 1;
    }
    assert(rows@.take(i as int) =~= rows@);
    keys
}

/// Stages what a resolver returned for a batch at time `now`, under the
/// resolver's name.
///
/// A failed lookup is passed on as a `Resolver` error and nothing is
/// written. Otherwise the instruments found are staged as by
/// `stage_instruments`, and the number of rows written is returned; a
/// lookup that found nothing writes nothing and returns 0.
pub fn stage_resolved(
    db: &mut DataStore,
    batch_dbid: i64,
    source: String,
    resolved: Result<Vec<Instrument>, String>,
    now: Timestamp,
) -> (r: Result<usize, StoreError>)
    ensures
        old(db).wf() ==> final(db).wf(),
        match resolved {
            Err(reason) => r == Err::<usize, StoreError>(StoreError::Resolver(reason))
                && *final(db) == *old(db),
            Ok(found) => final(db).instruments_staged(
                old(db),
                batch_dbid,
                source@,
                found@,
                now,
                r,
            ),
        },
{
    match resolved {
        Err(reason) => Err(StoreError::Resolver(reason)),
        Ok(found) => db.stage_instruments(batch_dbid, source, found, now),
    }
}

/// Resolves all unresolved identifiers of a batch through one resolver.
pub struct SimpleResolver<R: IdResolver> {
    pub id_resolver: R,
}

impl<R: IdResolver> SimpleResolver<R> {
    /// A staging resolver over one identifier resolver.
    pub fn new(id_resolver: R) -> (s: Self)
        ensures
            s.id_resolver == id_resolver,
    {
        SimpleResolver { id_resolver }
    }

    /// The lookup keys for the unresolved identifiers of a batch: what this
    /// resolver hands to its identifier resolver.
    pub fn pending(&self, db: &DataStore, batch_dbid: i64) -> (keys: Vec<Identifier>)
        ensures
            lookup_views(keys@) == unresolved(
                db.staging_identifier_views(),
                db.identifier_views(),
                batch_dbid,
            ).map_values(|r: StagingIdentifierView| r.lookup_key()),
    {
        lookup_keys(db.unresolved_identifiers(batch_dbid))
    }
}

/// What a resolution returns once the answer has been staged: the number of
/// rows is dropped, a failure is passed on.
pub open spec fn without_count(staged: Result<usize, StoreError>) -> Result<(), StoreError> {
    match staged {
        Ok(_) => Ok(()),
        Err(e) => Err(e),
    }
}

/// Whether the store `after` and the result `r` are what resolving a batch
/// at `now` makes of `before`, for some answer of the resolver. Either the
/// lookup failed: then the result is a `Resolver` error and the store is as
/// it was. Or the lookup returned instruments under the resolver's name:
/// then the store is what staging those instruments under that name makes
/// of it, and the result is the result of that staging without the count.
pub open spec fn resolution_outcome(
    after: &DataStore,
    before: &DataStore,
    batch_dbid: i64,
    now: Timestamp,
    r: Result<(), StoreError>,
) -> bool {
    ||| r.is_err() && r.unwrap_err() is Resolver && *after == *before
    ||| exists|source: Seq<char>, found: Seq<Instrument>, staged: Result<usize, StoreError>|
        #[trigger] after.instruments_staged(before, batch_dbid, source, found, now, staged)
            && r == without_count(staged)
}

impl<R: IdResolver> StagingResolver for SimpleResolver<R> {
    /// Looks up the unresolved identifiers of the batch and stages what the
    /// resolver returns under the resolver's name. What is found is up to
    /// the resolver. A failed lookup is passed on as a `Resolver` error and
    /// adds nothing; a lookup that found nothing adds nothing and succeeds;
    /// otherwise the outcome is that of staging what was found. Whatever
    /// the answer, only staged instruments and identifiers are added.
    fn resolve(&self, db: &mut DataStore, batch_dbid: i64, now: Timestamp) -> (r: Result<
        (),
        StoreError,
    >)
        ensures
            resolution_outcome(final(db), old(db), batch_dbid, now, r),
            old(db).wf() ==> final(db).wf(),
            final(db).same_canonical(old(db)),
            final(db).staging_txs == old(db).staging_txs,
            final(db).next_dbid >= old(db).next_dbid,
            old(db).staging_instrument_views().is_prefix_of(final(db).staging_instrument_views()),
            old(db).staging_identifier_views().is_prefix_of(final(db).staging_identifier_views()),
    {
        let keys: Vec<Identifier> = self.pending(db, batch_dbid);
        let resolved: Result<Vec<Instrument>, String> = self.id_resolver.resolve(keys);
        let source: String = self.id_resolver.name();
        let ghost answer = resolved;
        let ghost name = source@;
        let staged: Result<usize, StoreError> = stage_resolved(
            db,
            batch_dbid,
            source,
            resolved,
            now,
        );
        proof {
            match answer {
                Ok(found) => {
                    assert(db.instruments_staged(old(db), batch_dbid, name, found@, now, staged));
                },
                Err(_) => {},
            }
        }
        match staged {
            Ok(_) => Ok(()),
            Err(e) => Err(e),
        }
    }
}

/// The resolver backed by the OpenFIGI symbology service. It does not look
/// anything up yet: every lookup finds nothing.
#[derive(Clone, Copy, Debug, PartialEq, Eq, Structural)]
pub struct OpenfigiResolver {}

impl OpenfigiResolver {
    /// A resolver for the OpenFIGI service.
    pub fn new() -> (r: Self)
        ensures
            r == (OpenfigiResolver {  }),
    {
        OpenfigiResolver {  }
    }
}

impl IdResolver for OpenfigiResolver {
    fn name(&self) -> (s: String)
        ensures
            s@ == "openfigi"@,
    {
        String::from_str("openfigi")
    }

    fn resolve(&self, ids: Vec<Identifier>) -> (r: Result<Vec<Instrument>, String>)
        ensures
            r.is_ok(),
            r.unwrap()@.len() == 0,
    {
        Ok(Vec::new())
    }
}

/// The extension point for resolving through several resolvers in order of
/// priority. It resolves nothing yet: every batch is left as it is.
#[derive(Clone, Copy, Debug, PartialEq, Eq, Structural)]
pub struct PriorityResolver {}

impl StagingResolver for PriorityResolver {
    fn resolve(&self, db: &mut DataStore, batch_dbid: i64, now: Timestamp) -> (r: Result<
        (),
        StoreError,
    >)
        ensures
            r == Ok::<(), StoreError>(()),
            *final(db) == *old(db),
    {
        Ok(())
    }
}

} // verus!
