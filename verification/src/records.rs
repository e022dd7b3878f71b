//! Raw records as upstream brokers submit them.

use vstd::prelude::*;
use crate::amount::Amount;
use crate::codes::{InstrumentType, OptionStyle, PutCall, TxType};
use crate::identifier::{Identifier, IdentifierView};
use crate::timestamp::WireTimestamp;

verus! {

/// A raw transaction. The instrument is named by an identifier claim, not by
/// a reference to a canonical instrument.
#[derive(Debug, PartialEq, Eq)]
pub struct Tx {
    pub identifier: Option<Identifier>,
    pub account_id: String,
    pub units: Amount,
    pub unit_price: Option<Amount>,
    pub currency: String,
    pub trade_date: Option<WireTimestamp>,
    pub settled_date: Option<WireTimestamp>,
    pub tx_type: TxType,
}

/// The mathematical value of a [`Tx`].
pub struct TxView {
    pub identifier: Option<IdentifierView>,
    pub account_id: Seq<char>,
    pub units: Amount,
    pub unit_price: Option<Amount>,
    pub currency: Seq<char>,
    pub trade_date: Option<WireTimestamp>,
    pub settled_date: Option<WireTimestamp>,
    pub tx_type: TxType,
}

impl View for Tx {
    type V = TxView;

    open spec fn view(&self) -> TxView {
        TxView {
            identifier: match self.identifier {
                Some(i) => Some(i@),
                None => None,
            },
            account_id: self.account_id@,
            units: self.units,
            unit_price: self.unit_price,
            currency: self.currency@,
            trade_date: self.trade_date,
            settled_date: self.settled_date,
            tx_type: self.tx_type,
        }
    }
}

impl Clone for Tx {
    fn clone(&self) -> (r: Self)
        ensures
            r == *self,
    {
        Tx {
            identifier: match &self.identifier {
                Some(i) => Some(i.clone()),
                None => None,
            },
            account_id: self.account_id.clone(),
            units: self.units,
            unit_price: self.unit_price,
            currency: self.currency.clone(),
            trade_date: self.trade_date,
            settled_date: self.settled_date,
            tx_type: self.tx_type,
        }
    }
}

/// The option part of a derivative.
#[derive(Clone, Copy, Debug, PartialEq, Eq, Structural)]
pub struct OptionDerivative {
    pub expiration_date: Option<WireTimestamp>,
    pub put_call: PutCall,
    pub strike_price: Amount,
    pub style: OptionStyle,
}

/// What makes an instrument a derivative: the identifier of its underlying
/// and, for an option, the option's terms.
#[derive(Debug, PartialEq, Eq)]
pub struct Derivative {
    pub underlying_id: Option<Identifier>,
    pub option: Option<OptionDerivative>,
}

/// The mathematical value of a [`Derivative`].
pub struct DerivativeView {
    pub underlying_id: Option<IdentifierView>,
    pub option: Option<OptionDerivative>,
}

impl View for Derivative {
    type V = DerivativeView;

    open spec fn view(&self) -> DerivativeView {
        DerivativeView {
            underlying_id: match self.underlying_id {
                Some(i) => Some(i@),
                None => None,
            },
            option: self.option,
        }
    }
}

impl Clone for Derivative {
    fn clone(&self) -> (r: Self)
        ensures
            r == *self,
    {
        Derivative {
            underlying_id: match &self.underlying_id {
                Some(i) => Some(i.clone()),
                None => None,
            },
            option: self.option,
        }
    }
}

/// A raw instrument description with the identifier claims made for it.
#[derive(Debug, PartialEq, Eq)]
pub struct Instrument {
    pub instrument_type: InstrumentType,
    pub listing_mic: String,
    pub currency: String,
    pub identifiers: Vec<Identifier>,
    pub derivative: Option<Derivative>,
}

/// The mathematical value of an [`Instrument`].
pub struct InstrumentView {
    pub instrument_type: InstrumentType,
    pub listing_mic: Seq<char>,
    pub currency: Seq<char>,
    pub identifiers: Seq<IdentifierView>,
    pub derivative: Option<DerivativeView>,
}

impl View for Instrument {
    type V = InstrumentView;

    open spec fn view(&self) -> InstrumentView {
        InstrumentView {
            instrument_type: self.instrument_type,
            listing_mic: self.listing_mic@,
            currency: self.currency@,
            identifiers: self.identifiers@.map_values(|i: Identifier| i@),
            derivative: match self.derivative {
                Some(d) => Some(d@),
                None => None,
            },
        }
    }
}

/// Copies a list of identifier claims.
pub fn clone_identifiers(ids: &Vec<Identifier>) -> (r: Vec<Identifier>)
    ensures
        r@ == ids@,
{
    let mut out: Vec<Identifier> = Vec::new();
    let mut i: usize = 0;
    while i < ids.len()
        invariant
            i <= ids.len(),
            out@ == ids@.subrange(0, i as int),
        decreases ids.len() - i,
    {
        out.push(ids[i].clone());
        assert(out@ =~= ids@.subrange(0, i + 1));
        i += 1;
    }
    assert(out@ =~= ids@);
    out
}

impl Clone for Instrument {
    fn clone(&self) -> (r: Self)
        ensures
            r@ == self@,
            r.identifiers@ == self.identifiers@,
    {
        Instrument {
            instrument_type: self.instrument_type,
            listing_mic: self.listing_mic.clone(),
            currency: self.currency.clone(),
            identifiers: clone_identifiers(&self.identifiers),
            derivative: match &self.derivative {
                Some(d) => Some(d.clone()),
                None => None,
            },
        }
    }
}

/// The mathematical values of a sequence of raw transactions.
pub open spec fn tx_views(txs: Seq<Tx>) -> Seq<TxView> {
    txs.map_values(|t: Tx| t@)
}

/// The mathematical values of a sequence of raw instruments.
pub open spec fn instrument_views(instruments: Seq<Instrument>) -> Seq<InstrumentView> {
    instruments.map_values(|i: Instrument| i@)
}

} // verus!
