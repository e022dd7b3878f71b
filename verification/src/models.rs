//! Canonical, durable records: instruments and what refers to them.

use vstd::prelude::*;
use crate::amount::Amount;
use crate::identifier::IdTuple;
use crate::timestamp::Timestamp;

verus! {

/// A canonical instrument.
#[derive(Debug, PartialEq, Eq)]
pub struct InstrumentRecord {
    pub dbid: i64,
    pub type_: String,
    pub status: String,
    pub listing_mic: String,
    pub currency: String,
    pub created_at: Timestamp,
}

impl Clone for InstrumentRecord {
    fn clone(&self) -> (r: Self)
        ensures
            r == *self,
    {
        InstrumentRecord {
            dbid: self.dbid,
            type_: self.type_.clone(),
            status: self.status.clone(),
            listing_mic: self.listing_mic.clone(),
            currency: self.currency.clone(),
            created_at: self.created_at,
        }
    }
}

/// An identifier claim attached to a canonical instrument.
#[derive(Debug, PartialEq, Eq)]
pub struct IdentifierRecord {
    pub dbid: i64,
    pub instrument_dbid: i64,
    pub namespace: String,
    pub domain: String,
    pub id: String,
    pub source: String,
    pub authoritative: bool,
    pub valid_from: Option<Timestamp>,
    pub valid_to: Option<Timestamp>,
    pub created_at: Timestamp,
}

/// The mathematical value of an [`IdentifierRecord`].
pub struct IdentifierRecordView {
    pub dbid: i64,
    pub instrument_dbid: i64,
    pub namespace: Seq<char>,
    pub domain: Seq<char>,
    pub id: Seq<char>,
    pub source: Seq<char>,
    pub authoritative: bool,
    pub valid_from: Option<Timestamp>,
    pub valid_to: Option<Timestamp>,
    pub created_at: Timestamp,
}

impl IdentifierRecordView {
    /// The triple that the row claims for its instrument.
    pub open spec fn tuple(self) -> IdTuple {
        IdTuple { namespace: self.namespace, domain: self.domain, identifier: self.id }
    }
}

impl View for IdentifierRecord {
    type V = IdentifierRecordView;

    open spec fn view(&self) -> IdentifierRecordView {
        IdentifierRecordView {
            dbid: self.dbid,
            instrument_dbid: self.instrument_dbid,
            namespace: self.namespace@,
            domain: self.domain@,
            id: self.id@,
            source: self.source@,
            authoritative: self.authoritative,
            valid_from: self.valid_from,
            valid_to: self.valid_to,
            created_at: self.created_at,
        }
    }
}

impl Clone for IdentifierRecord {
    fn clone(&self) -> (r: Self)
        ensures
            r == *self,
    {
        IdentifierRecord {
            dbid: self.dbid,
            instrument_dbid: self.instrument_dbid,
            namespace: self.namespace.clone(),
            domain: self.domain.clone(),
            id: self.id.clone(),
            source: self.source.clone(),
            authoritative: self.authoritative,
            valid_from: self.valid_from,
            valid_to: self.valid_to,
            created_at: self.created_at,
        }
    }
}

impl IdentifierRecord {
    /// The claimed triple as owned strings: namespace, domain, identifier.
    pub fn to_tuple(&self) -> (t: (String, String, String))
        ensures
            t.0@ == self@.namespace,
            t.1@ == self@.domain,
            t.2@ == self@.id,
    {
        (self.namespace.clone(), self.domain.clone(), self.id.clone())
    }
}

/// The derivative metadata of an instrument: `instrument_dbid` is the
/// derivative itself, `underlying_dbid` the instrument it derives from.
#[derive(Clone, Copy, Debug, PartialEq, Eq, Structural)]
pub struct DerivativeRecord {
    pub dbid: i64,
    pub instrument_dbid: i64,
    pub underlying_dbid: i64,
    pub is_call: bool,
    pub strike_price: Amount,
    pub expiration_date: Timestamp,
    pub multiplier: Amount,
}

/// A transaction in a canonical instrument.
#[derive(Debug, PartialEq, Eq)]
pub struct Transaction {
    pub dbid: i64,
    pub user_dbid: i64,
    pub instrument_dbid: i64,
    pub account_id: String,
    pub units: Amount,
    pub unit_price: Option<Amount>,
    pub currency: String,
    pub trade_date: Timestamp,
    pub settled_date: Option<Timestamp>,
    pub tx_type: String,
}

impl Clone for Transaction {
    fn clone(&self) -> (r: Self)
        ensures
            r == *self,
    {
        Transaction {
            dbid: self.dbid,
            user_dbid: self.user_dbid,
            instrument_dbid: self.instrument_dbid,
            account_id: self.account_id.clone(),
            units: self.units,
            unit_price: self.unit_price,
            currency: self.currency.clone(),
            trade_date: self.trade_date,
            settled_date: self.settled_date,
            tx_type: self.tx_type.clone(),
        }
    }
}

/// A price of a canonical instrument at a point in time.
#[derive(Clone, Copy, Debug, PartialEq, Eq, Structural)]
pub struct Price {
    pub dbid: i64,
    pub instrument_dbid: i64,
    pub price: Amount,
    pub date_as_of: Timestamp,
}

} // verus!
