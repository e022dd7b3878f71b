//! Staging rows: flat, batch-scoped copies of the raw records.

use vstd::prelude::*;
use vstd::string::*;
use crate::amount::Amount;
use crate::identifier::{IdTuple, Identifier, IdentifierView};
use crate::records::{DerivativeView, Instrument, InstrumentView, Tx, TxView};
use crate::text::{decimal, decimal_string};
use crate::timestamp::{Timestamp, WireTimestamp};

verus! {

/// One staged transaction.
#[derive(Debug, PartialEq, Eq)]
pub struct StagingTx {
    pub dbid: i64,
    pub batch_dbid: i64,
    pub instrument_namespace: String,
    pub instrument_domain: String,
    pub instrument_identifier: String,
    pub account_id: String,
    pub currency: String,
    pub units: Amount,
    pub unit_price: Option<Amount>,
    pub trade_date: Timestamp,
    pub settled_date: Option<Timestamp>,
    pub tx_type: String,
}

/// The mathematical value of a [`StagingTx`].
pub struct StagingTxView {
    pub dbid: i64,
    pub batch_dbid: i64,
    pub instrument_namespace: Seq<char>,
    pub instrument_domain: Seq<char>,
    pub instrument_identifier: Seq<char>,
    pub account_id: Seq<char>,
    pub currency: Seq<char>,
    pub units: Amount,
    pub unit_price: Option<Amount>,
    pub trade_date: Timestamp,
    pub settled_date: Option<Timestamp>,
    pub tx_type: Seq<char>,
}

impl StagingTxView {
    /// The identifier triple by which the row names its instrument.
    pub open spec fn instrument(self) -> IdTuple {
        IdTuple {
            namespace: self.instrument_namespace,
            domain: self.instrument_domain,
            identifier: self.instrument_identifier,
        }
    }

    /// The same row under another batch.
    pub open spec fn with_batch_dbid(self, batch_dbid: i64) -> StagingTxView {
        StagingTxView { batch_dbid, ..self }
    }

    /// The same row under another row id.
    pub open spec fn with_dbid(self, dbid: i64) -> StagingTxView {
        StagingTxView { dbid, ..self }
    }
}

impl View for StagingTx {
    type V = StagingTxView;

    open spec fn view(&self) -> StagingTxView {
        StagingTxView {
            dbid: self.dbid,
            batch_dbid: self.batch_dbid,
            instrument_namespace: self.instrument_namespace@,
            instrument_domain: self.instrument_domain@,
            instrument_identifier: self.instrument_identifier@,
            account_id: self.account_id@,
            currency: self.currency@,
            units: self.units,
            unit_price: self.unit_price,
            trade_date: self.trade_date,
            settled_date: self.settled_date,
            tx_type: self.tx_type@,
        }
    }
}

/// The date a staged row carries for an optional wire date: the epoch where
/// none was given or the calendar cannot represent it.
pub open spec fn staged_date(date: Option<WireTimestamp>) -> Timestamp {
    match date {
        Some(ts) => Timestamp::spec_from_wire_or_epoch(ts),
        None => Timestamp::spec_epoch(),
    }
}

/// The optional date a staged row carries for an optional wire date: absent
/// where none was given, the epoch where the calendar cannot represent it.
pub open spec fn staged_optional_date(date: Option<WireTimestamp>) -> Option<Timestamp> {
    match date {
        Some(ts) => Some(Timestamp::spec_from_wire_or_epoch(ts)),
        None => None,
    }
}

/// The staged form of a raw transaction, before it is given a batch and a
/// row id: the identifier triple is flattened (empty where no identifier was
/// given), the dates are checked, and the kind is stored by name.
pub open spec fn staged_tx(tx: TxView) -> StagingTxView {
    StagingTxView {
        dbid: 0,
        batch_dbid: 0,
        instrument_namespace: match tx.identifier {
            Some(i) => i.namespace,
            None => Seq::empty(),
        },
        instrument_domain: match tx.identifier {
            Some(i) => i.domain,
            None => Seq::empty(),
        },
        instrument_identifier: match tx.identifier {
            Some(i) => i.identifier,
            None => Seq::empty(),
        },
        account_id: tx.account_id,
        currency: tx.currency,
        units: tx.units,
        unit_price: tx.unit_price,
        trade_date: staged_date(tx.trade_date),
        settled_date: staged_optional_date(tx.settled_date),
        tx_type: tx.tx_type.spec_name(),
    }
}

impl Clone for StagingTx {
    fn clone(&self) -> (r: Self)
        ensures
            r == *self,
    {
        StagingTx {
            dbid: self.dbid,
            batch_dbid: self.batch_dbid,
            instrument_namespace: self.instrument_namespace.clone(),
            instrument_domain: self.instrument_domain.clone(),
            instrument_identifier: self.instrument_identifier.clone(),
            account_id: self.account_id.clone(),
            currency: self.currency.clone(),
            units: self.units,
            unit_price: self.unit_price,
            trade_date: self.trade_date,
            settled_date: self.settled_date,
            tx_type: self.tx_type.clone(),
        }
    }
}

impl StagingTx {
    /// Flattens a raw transaction into its staged form.
    pub fn from_tx(tx: Tx) -> (r: StagingTx)
        ensures
            r@ == staged_tx(tx@),
    {
        let Tx {
            identifier,
            account_id,
            units,
            unit_price,
            currency,
            trade_date,
            settled_date,
            tx_type,
        } = tx;
        let (namespace, domain, id) = match identifier {
            Some(i) => (i.namespace, i.domain, i.identifier),
            None => (String::new(), String::new(), String::new()),
        };
        let trade_date: Timestamp = match trade_date {
            Some(ts) => Timestamp::from_wire_or_epoch(ts),
            None => Timestamp::epoch(),
        };
        let settled_date: Option<Timestamp> = match settled_date {
            Some(ts) => Some(Timestamp::from_wire_or_epoch(ts)),
            None => None,
        };
        StagingTx {
            dbid: 0,
            batch_dbid: 0,
            instrument_namespace: namespace,
            instrument_domain: domain,
            instrument_identifier: id,
            account_id,
            currency,
            units,
            unit_price,
            trade_date,
            settled_date,
            tx_type: String::from_str(tx_type.name()),
        }
    }

    /// Ties the row to a batch.
    pub fn with_batch_dbid(self, batch_dbid: i64) -> (r: StagingTx)
        ensures
            r@ == self@.with_batch_dbid(batch_dbid),
    {
        let mut r = self;
        r.batch_dbid = batch_dbid;
        r
    }
}

/// One staged instrument, with the derivative and option parts flattened
/// into columns of its own.
#[derive(Debug, PartialEq, Eq)]
pub struct StagingInstrument {
    pub dbid: i64,
    pub batch_dbid: i64,
    pub type_: String,
    pub status: String,
    pub listing_mic: String,
    pub currency: String,
    pub underlying_namespace: String,
    pub underlying_domain: String,
    pub underlying_identifier: String,
    pub derivative_type: String,
    pub option_expiration_date: Option<Timestamp>,
    pub option_put_call: String,
    pub option_strike_price: Option<Amount>,
    pub option_style: String,
}

/// The mathematical value of a [`StagingInstrument`].
pub struct StagingInstrumentView {
    pub dbid: i64,
    pub batch_dbid: i64,
    pub type_: Seq<char>,
    pub status: Seq<char>,
    pub listing_mic: Seq<char>,
    pub currency: Seq<char>,
    pub underlying_namespace: Seq<char>,
    pub underlying_domain: Seq<char>,
    pub underlying_identifier: Seq<char>,
    pub derivative_type: Seq<char>,
    pub option_expiration_date: Option<Timestamp>,
    pub option_put_call: Seq<char>,
    pub option_strike_price: Option<Amount>,
    pub option_style: Seq<char>,
}

impl StagingInstrumentView {
    /// The same row under another batch.
    pub open spec fn with_batch_dbid(self, batch_dbid: i64) -> StagingInstrumentView {
        StagingInstrumentView { batch_dbid, ..self }
    }

    /// The same row under another row id.
    pub open spec fn with_dbid(self, dbid: i64) -> StagingInstrumentView {
        StagingInstrumentView { dbid, ..self }
    }
}

impl View for StagingInstrument {
    type V = StagingInstrumentView;

    open spec fn view(&self) -> StagingInstrumentView {
        StagingInstrumentView {
            dbid: self.dbid,
            batch_dbid: self.batch_dbid,
            type_: self.type_@,
            status: self.status@,
            listing_mic: self.listing_mic@,
            currency: self.currency@,
            underlying_namespace: self.underlying_namespace@,
            underlying_domain: self.underlying_domain@,
            underlying_identifier: self.underlying_identifier@,
            derivative_type: self.derivative_type@,
            option_expiration_date: self.option_expiration_date,
            option_put_call: self.option_put_call@,
            option_strike_price: self.option_strike_price,
            option_style: self.option_style@,
        }
    }
}

/// The identifier of a derivative's underlying, if the derivative names one.
pub open spec fn underlying_of(derivative: Option<DerivativeView>) -> Option<IdentifierView> {
    match derivative {
        Some(d) => d.underlying_id,
        None => None,
    }
}

/// The expiration date a staged option carries: absent where none was given
/// or the calendar cannot represent it.
pub open spec fn staged_expiration(date: Option<WireTimestamp>) -> Option<Timestamp> {
    match date {
        Some(ts) => Timestamp::spec_from_wire(ts),
        None => None,
    }
}

/// The staged form of a raw instrument, before it is given a batch and a row
/// id. The status is always `ACTIVE`. The underlying's triple is empty unless
/// a derivative names one. The option columns are filled only for an option,
/// which also sets the derivative type to `OPTION`.
pub open spec fn staged_instrument(instrument: InstrumentView) -> StagingInstrumentView {
    let underlying = underlying_of(instrument.derivative);
    let option = match instrument.derivative {
        Some(d) => d.option,
        None => None,
    };
    StagingInstrumentView {
        dbid: 0,
        batch_dbid: 0,
        type_: instrument.instrument_type.spec_name(),
        status: "ACTIVE"@,
        listing_mic: instrument.listing_mic,
        currency: instrument.currency,
        underlying_namespace: match underlying {
            Some(u) => u.namespace,
            None => Seq::empty(),
        },
        underlying_domain: match underlying {
            Some(u) => u.domain,
            None => Seq::empty(),
        },
        underlying_identifier: match underlying {
            Some(u) => u.identifier,
            None => Seq::empty(),
        },
        derivative_type: match option {
            Some(o) => "OPTION"@,
            None => Seq::empty(),
        },
        option_expiration_date: match option {
            Some(o) => staged_expiration(o.expiration_date),
            None => None,
        },
        option_put_call: match option {
            Some(o) => o.put_call.spec_name(),
            None => Seq::empty(),
        },
        option_strike_price: match option {
            Some(o) => Some(o.strike_price),
            None => None,
        },
        option_style: match option {
            Some(o) => o.style.spec_name(),
            None => Seq::empty(),
        },
    }
}

impl Clone for StagingInstrument {
    fn clone(&self) -> (r: Self)
        ensures
            r == *self,
    {
        StagingInstrument {
            dbid: self.dbid,
            batch_dbid: self.batch_dbid,
            type_: self.type_.clone(),
            status: self.status.clone(),
            listing_mic: self.listing_mic.clone(),
            currency: self.currency.clone(),
            underlying_namespace: self.underlying_namespace.clone(),
            underlying_domain: self.underlying_domain.clone(),
            underlying_identifier: self.underlying_identifier.clone(),
            derivative_type: self.derivative_type.clone(),
            option_expiration_date: self.option_expiration_date,
            option_put_call: self.option_put_call.clone(),
            option_strike_price: self.option_strike_price,
            option_style: self.option_style.clone(),
        }
    }
}

impl StagingInstrument {
    /// Flattens a raw instrument into its staged form. The identifier claims
    /// are staged separately, one row each.
    pub fn from_instrument(instrument: &Instrument) -> (r: StagingInstrument)
        ensures
            r@ == staged_instrument(instrument@),
    {
        let (
            underlying_namespace,
            underlying_domain,
            underlying_identifier,
            derivative_type,
            option_expiration_date,
            option_put_call,
            option_strike_price,
            option_style,
        ) = match &instrument.derivative {
            Some(derivative) => {
                let (underlying_namespace, underlying_domain, underlying_identifier) =
                    match &derivative.underlying_id {
                    Some(u) => (u.namespace.clone(), u.domain.clone(), u.identifier.clone()),
                    None => (String::new(), String::new(), String::new()),
                };
                match derivative.option {
                    Some(opt) => {
                        let expiration_date: Option<Timestamp> = match opt.expiration_date {
                            Some(ts) => Timestamp::from_wire(ts),
                            None => None,
                        };
                        (
                            underlying_namespace,
                            underlying_domain,
                            underlying_identifier,
                            String::from_str("OPTION"),
                            expiration_date,
                            String::from_str(opt.put_call.name()),
                            Some(opt.strike_price),
                            String::from_str(opt.style.name()),
                        )
                    },
                    None => (
                        underlying_namespace,
                        underlying_domain,
                        underlying_identifier,
                        String::new(),
                        None,
                        String::new(),
                        None,
                        String::new(),
                    ),
                }
            },
            None => (
                String::new(),
                String::new(),
                String::new(),
                String::new(),
                None,
                String::new(),
                None,
                String::new(),
            ),
        };
        StagingInstrument {
            dbid: 0,
            batch_dbid: 0,
            type_: String::from_str(instrument.instrument_type.name()),
            status: String::from_str("ACTIVE"),
            listing_mic: instrument.listing_mic.clone(),
            currency: instrument.currency.clone(),
            underlying_namespace,
            underlying_domain,
            underlying_identifier,
            derivative_type,
            option_expiration_date,
            option_put_call,
            option_strike_price,
            option_style,
        }
    }

    /// Ties the row to a batch.
    pub fn with_batch_dbid(self, batch_dbid: i64) -> (r: StagingInstrument)
        ensures
            r@ == self@.with_batch_dbid(batch_dbid),
    {
        let mut r = self;
        r.batch_dbid = batch_dbid;
        r
    }
}

/// One identifier claim staged for one staged instrument, tagged with the
/// source that produced it.
#[derive(Debug, PartialEq, Eq)]
pub struct StagingIdentifier {
    pub dbid: i64,
    pub batch_dbid: i64,
    pub instrument_dbid: i64,
    pub source: String,
    pub namespace: String,
    pub domain: String,
    pub identifier: String,
}

/// The mathematical value of a [`StagingIdentifier`].
pub struct StagingIdentifierView {
    pub dbid: i64,
    pub batch_dbid: i64,
    pub instrument_dbid: i64,
    pub source: Seq<char>,
    pub namespace: Seq<char>,
    pub domain: Seq<char>,
    pub identifier: Seq<char>,
}

impl StagingIdentifierView {
    /// The triple that the row claims.
    pub open spec fn tuple(self) -> IdTuple {
        IdTuple { namespace: self.namespace, domain: self.domain, identifier: self.identifier }
    }

    /// The same row under another batch.
    pub open spec fn with_batch_dbid(self, batch_dbid: i64) -> StagingIdentifierView {
        StagingIdentifierView { batch_dbid, ..self }
    }

    /// The same row for another staged instrument.
    pub open spec fn with_instrument_dbid(self, instrument_dbid: i64) -> StagingIdentifierView {
        StagingIdentifierView { instrument_dbid, ..self }
    }

    /// The same row attributed to another source.
    pub open spec fn with_source(self, source: Seq<char>) -> StagingIdentifierView {
        StagingIdentifierView { source, ..self }
    }

    /// The same row under another row id.
    pub open spec fn with_dbid(self, dbid: i64) -> StagingIdentifierView {
        StagingIdentifierView { dbid, ..self }
    }

    /// The lookup key handed to a resolver for the row: the claimed triple,
    /// with the row id in decimal as the caller handle.
    pub open spec fn lookup_key(self) -> IdentifierView {
        IdentifierView {
            id: decimal(self.dbid as int),
            namespace: self.namespace,
            domain: self.domain,
            identifier: self.identifier,
        }
    }
}

impl View for StagingIdentifier {
    type V = StagingIdentifierView;

    open spec fn view(&self) -> StagingIdentifierView {
        StagingIdentifierView {
            dbid: self.dbid,
            batch_dbid: self.batch_dbid,
            instrument_dbid: self.instrument_dbid,
            source: self.source@,
            namespace: self.namespace@,
            domain: self.domain@,
            identifier: self.identifier@,
        }
    }
}

/// The staged form of an identifier claim, before it is given a batch, an
/// instrument, a source and a row id.
pub open spec fn staged_identifier(identifier: IdentifierView) -> StagingIdentifierView {
    StagingIdentifierView {
        dbid: 0,
        batch_dbid: 0,
        instrument_dbid: 0,
        source: Seq::empty(),
        namespace: identifier.namespace,
        domain: identifier.domain,
        identifier: identifier.identifier,
    }
}

impl Clone for StagingIdentifier {
    fn clone(&self) -> (r: Self)
        ensures
            r == *self,
    {
        StagingIdentifier {
            dbid: self.dbid,
            batch_dbid: self.batch_dbid,
            instrument_dbid: self.instrument_dbid,
            source: self.source.clone(),
            namespace: self.namespace.clone(),
            domain: self.domain.clone(),
            identifier: self.identifier.clone(),
        }
    }
}

impl StagingIdentifier {
    /// Stages an identifier claim. The caller handle is dropped.
    pub fn from_identifier(identifier: Identifier) -> (r: StagingIdentifier)
        ensures
            r@ == staged_identifier(identifier@),
    {
        let Identifier { id: _, namespace, domain, identifier: id } = identifier;
        StagingIdentifier {
            dbid: 0,
            batch_dbid: 0,
            instrument_dbid: 0,
            source: String::new(),
            namespace,
            domain,
            identifier: id,
        }
    }

    /// Ties the row to a batch.
    pub fn with_batch_dbid(self, batch_dbid: i64) -> (r: StagingIdentifier)
        ensures
            r@ == self@.with_batch_dbid(batch_dbid),
    {
        let mut r = self;
        r.batch_dbid = batch_dbid;
        r
    }

    /// Ties the row to a staged instrument.
    pub fn with_instrument_dbid(self, instrument_dbid: i64) -> (r: StagingIdentifier)
        ensures
            r@ == self@.with_instrument_dbid(instrument_dbid),
    {
        let mut r = self;
        r.instrument_dbid = instrument_dbid;
        r
    }

    /// Attributes the row to a source.
    pub fn with_source(self, source: String) -> (r: StagingIdentifier)
        ensures
            r@ == self@.with_source(source@),
    {
        let mut r = self;
        r.source = source;
        r
    }

    /// Turns the row into the lookup key that a resolver receives.
    pub fn into_identifier(self) -> (r: Identifier)
        ensures
            r@ == self@.lookup_key(),
    {
        Identifier {
            id: decimal_string(self.dbid),
            namespace: self.namespace,
            domain: self.domain,
            identifier: self.identifier,
        }
    }
}

} // verus!
