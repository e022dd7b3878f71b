use portfoliodb::amount::Amount;
use portfoliodb::codes::{BatchStatus, BatchType, InstrumentType, OptionStyle, PutCall, TxType};
use portfoliodb::errors::StoreError;
use portfoliodb::identifier::Identifier;
use portfoliodb::records::{Derivative, Instrument, OptionDerivative, Tx};
use portfoliodb::service::Service;
use portfoliodb::staging::{StagingIdentifier, StagingInstrument, StagingTx};
use portfoliodb::store::DataStore;
use portfoliodb::timestamp::{Timestamp, WireTimestamp};

fn at(seconds: i64) -> Timestamp {
    Timestamp { seconds, nanos: 0 }
}

fn wire(seconds: i64) -> WireTimestamp {
    WireTimestamp { seconds, nanos: 0 }
}

fn amount(value: f64) -> Amount {
    Amount::from_bits(value.to_bits())
}

fn test_tx() -> Tx {
    Tx {
        identifier: Some(Identifier::new("NASDAQ", "NASDAQ", "AAPL")),
        account_id: "account1".to_string(),
        units: amount(10.0),
        unit_price: Some(amount(150.0)),
        currency: "USD".to_string(),
        trade_date: Some(wire(1640995200)),
        settled_date: Some(wire(1641081600)),
        tx_type: TxType::Buy,
    }
}

fn test_stock() -> Instrument {
    Instrument {
        instrument_type: InstrumentType::Stk,
        listing_mic: "NASDAQ".to_string(),
        currency: "USD".to_string(),
        identifiers: vec![Identifier::new("NASDAQ", "NASDAQ", "AAPL")],
        derivative: None,
    }
}

fn test_option() -> Instrument {
    Instrument {
        instrument_type: InstrumentType::Opt,
        listing_mic: "NASDAQ".to_string(),
        currency: "USD".to_string(),
        identifiers: vec![Identifier::new("OCC", "", "AAPL250919C00150000")],
        derivative: Some(Derivative {
            underlying_id: Some(Identifier::new("NASDAQ", "NASDAQ", "AAPL")),
            option: Some(OptionDerivative {
                expiration_date: Some(wire(1640995200)),
                put_call: PutCall::Unknown,
                strike_price: amount(150.0),
                style: OptionStyle::American,
            }),
        }),
    }
}

#[test]
fn test_stage_txs_success() {
    let user_id = 1;
    let period_start = at(1640995200);
    let period_end = at(1641081600);
    let txs = vec![test_tx()];
    let instruments = vec![test_stock(), test_option()];
    let expected_batch_id = 1;
    let expected_instrument_records = 4;
    let expected_tx_records = 1;
    let expected_total_records = expected_instrument_records + expected_tx_records;

    let mut service = Service::new(DataStore::new());
    let result = service.stage_txs_batch(
        user_id,
        "test_broker".to_string(),
        period_start,
        period_end,
        txs,
        instruments,
        at(1700000000),
    );

    assert!(result.is_ok(), "Expected stage_txs to succeed");
    let batch_id = result.unwrap();
    assert_eq!(
        batch_id, expected_batch_id,
        "Expected batch ID {} but got {}",
        expected_batch_id, batch_id
    );
    let db = service.db();
    assert_eq!(db.staging_instruments.len(), 2, "Expected 2 instruments to be staged");
    assert_eq!(db.staging_txs.len(), 1, "Expected 1 transaction to be staged");
    assert_eq!(db.staging_identifiers.len(), 2);
    assert_eq!(db.batches.len(), 1);
    let batch = &db.batches[0];
    assert_eq!(batch.dbid, expected_batch_id);
    assert_eq!(batch.user_dbid, user_id);
    assert_eq!(batch.batch_type, BatchType::TxsTimeseries);
    assert_eq!(batch.batch_type.name(), "TXS_TIMESERIES");
    assert_eq!(batch.broker_key, "test_broker");
    assert_eq!(batch.period_start, period_start);
    assert_eq!(batch.period_end, period_end);
    assert_eq!(batch.total_records, expected_total_records);
    assert_eq!(batch.status, BatchStatus::Processing);
    assert_eq!(batch.status.name(), "PROCESSING");
    assert_eq!(batch.processed_at, None);
    assert_eq!(batch.error_message, None);
    println!("Test passed: stage_txs success case");
}

#[test]
fn staging_test_stage_txs() {
    let mut db = DataStore::new();
    let batch_dbid = db
        .create_batch(1, BatchType::TxsTimeseries, "broker1", at(1640995200), at(1641081600), at(5))
        .expect("Failed to create batch");
    let input_txs = vec![test_tx()];
    let record_count = db
        .stage_txs(batch_dbid, input_txs.clone(), at(6))
        .expect("Failed to stage transactions");
    assert_eq!(record_count, input_txs.len(), "Record count mismatch for test case: {}", "Basic buy transaction");

    let actual: Vec<&StagingTx> =
        db.staging_txs.iter().filter(|r| r.batch_dbid == batch_dbid).collect();
    let expected = StagingTx {
        dbid: 2,
        batch_dbid,
        instrument_namespace: "NASDAQ".to_string(),
        instrument_domain: "NASDAQ".to_string(),
        instrument_identifier: "AAPL".to_string(),
        account_id: "account1".to_string(),
        currency: "USD".to_string(),
        units: amount(10.0),
        unit_price: Some(amount(150.0)),
        trade_date: at(1640995200),
        settled_date: Some(at(1641081600)),
        tx_type: "BUY".to_string(),
    };
    assert_eq!(actual.len(), 1);
    assert_eq!(*actual[0], expected);
}

#[test]
fn stage_txs_empty_input_writes_nothing() {
    let mut db = DataStore::new();
    assert_eq!(db.stage_txs(77, Vec::new(), at(1)), Ok(0));
    assert_eq!(db.stage_instruments(77, "x".to_string(), Vec::new(), at(1)), Ok(0));
    assert_eq!(db.next_dbid, 1);
    assert!(db.staging_txs.is_empty());
    assert!(db.staging_instruments.is_empty());
    assert!(db.staging_identifiers.is_empty());
    assert!(db.batches.is_empty());
}

#[test]
fn stage_txs_unknown_batch_is_foreign_key_error() {
    let mut db = DataStore::new();
    assert_eq!(db.stage_txs(9, vec![test_tx()], at(1)), Err(StoreError::ForeignKey(9)));
    assert_eq!(
        db.stage_instruments(9, "".to_string(), vec![test_stock()], at(1)),
        Err(StoreError::ForeignKey(9))
    );
    assert!(db.staging_txs.is_empty());
    assert!(db.staging_instruments.is_empty());
}

#[test]
fn stage_txs_exhausted_marks_batch_failed() {
    let mut db = DataStore::new();
    db.next_dbid = i64::MAX - 1;
    let batch = db
        .create_batch(1, BatchType::TxsTimeseries, "b", at(10), at(20), at(1))
        .unwrap();
    assert_eq!(batch, i64::MAX - 1);
    assert_eq!(db.stage_txs(batch, vec![test_tx()], at(2)), Err(StoreError::Exhausted));
    assert!(db.staging_txs.is_empty());
    assert_eq!(db.batches[0].status, BatchStatus::Failed);
    assert_eq!(db.batches[0].error_message, Some("Store has no room left".to_string()));
    assert_eq!(db.batches[0].processed_at, Some(at(2)));
    assert_eq!(
        db.create_batch(1, BatchType::TxsTimeseries, "b", at(10), at(20), at(1)),
        Err(StoreError::Exhausted)
    );
}

#[test]
fn stage_instruments_backfills_instrument_ids() {
    let mut db = DataStore::new();
    let batch = db
        .create_batch(1, BatchType::TxsTimeseries, "b", at(10), at(20), at(1))
        .unwrap();
    let mut stock = test_stock();
    stock.identifiers.push(Identifier::new("ISIN", "ISIN", "US0378331005"));
    let written = db
        .stage_instruments(batch, "openfigi".to_string(), vec![stock, test_option()], at(2))
        .unwrap();
    assert_eq!(written, 5);
    assert_eq!(db.next_dbid, 7);
    let instrument_ids: Vec<i64> = db.staging_instruments.iter().map(|r| r.dbid).collect();
    assert_eq!(instrument_ids, vec![2, 3]);
    let claims: Vec<(i64, i64, &str, &str)> = db
        .staging_identifiers
        .iter()
        .map(|r| (r.dbid, r.instrument_dbid, r.identifier.as_str(), r.source.as_str()))
        .collect();
    assert_eq!(
        claims,
        vec![
            (4, 2, "AAPL", "openfigi"),
            (5, 2, "US0378331005", "openfigi"),
            (6, 3, "AAPL250919C00150000", "openfigi"),
        ]
    );
    assert!(db.staging_identifiers.iter().all(|r| r.batch_dbid == batch));
}

#[test]
fn staged_instrument_flattens_option() {
    let row = StagingInstrument::from_instrument(&test_option()).with_batch_dbid(3);
    let expected = StagingInstrument {
        dbid: 0,
        batch_dbid: 3,
        type_: "OPT".to_string(),
        status: "ACTIVE".to_string(),
        listing_mic: "NASDAQ".to_string(),
        currency: "USD".to_string(),
        underlying_namespace: "NASDAQ".to_string(),
        underlying_domain: "NASDAQ".to_string(),
        underlying_identifier: "AAPL".to_string(),
        derivative_type: "OPTION".to_string(),
        option_expiration_date: Some(at(1640995200)),
        option_put_call: "UNKNOWN".to_string(),
        option_strike_price: Some(amount(150.0)),
        option_style: "AMERICAN".to_string(),
    };
    assert_eq!(row, expected);
}

#[test]
fn staged_instrument_without_derivative_has_empty_columns() {
    let row = StagingInstrument::from_instrument(&test_stock());
    assert_eq!(row.type_, "STK");
    assert_eq!(row.status, "ACTIVE");
    assert_eq!(row.underlying_namespace, "");
    assert_eq!(row.underlying_domain, "");
    assert_eq!(row.underlying_identifier, "");
    assert_eq!(row.derivative_type, "");
    assert_eq!(row.option_expiration_date, None);
    assert_eq!(row.option_put_call, "");
    assert_eq!(row.option_strike_price, None);
    assert_eq!(row.option_style, "");
}

#[test]
fn staged_instrument_derivative_without_option() {
    let mut instrument = test_option();
    instrument.derivative = Some(Derivative {
        underlying_id: Some(Identifier::new("NASDAQ", "NASDAQ", "AAPL")),
        option: None,
    });
    let row = StagingInstrument::from_instrument(&instrument);
    assert_eq!(row.underlying_identifier, "AAPL");
    assert_eq!(row.derivative_type, "");
    assert_eq!(row.option_strike_price, None);
}

#[test]
fn staged_option_with_invalid_expiration_has_none() {
    let mut instrument = test_option();
    instrument.derivative = Some(Derivative {
        underlying_id: None,
        option: Some(OptionDerivative {
            expiration_date: Some(WireTimestamp { seconds: 0, nanos: 2_000_000_000 }),
            put_call: PutCall::Call,
            strike_price: amount(1.5),
            style: OptionStyle::European,
        }),
    });
    let row = StagingInstrument::from_instrument(&instrument);
    assert_eq!(row.option_expiration_date, None);
    assert_eq!(row.option_put_call, "CALL");
    assert_eq!(row.option_style, "EUROPEAN");
    assert_eq!(row.underlying_namespace, "");
}

#[test]
fn staged_tx_without_identifier_or_dates() {
    let tx = Tx {
        identifier: None,
        account_id: "a".to_string(),
        units: amount(1.0),
        unit_price: None,
        currency: "EUR".to_string(),
        trade_date: None,
        settled_date: None,
        tx_type: TxType::Unknown,
    };
    let row = StagingTx::from_tx(tx).with_batch_dbid(4);
    assert_eq!(row.batch_dbid, 4);
    assert_eq!(row.dbid, 0);
    assert_eq!(row.instrument_namespace, "");
    assert_eq!(row.instrument_domain, "");
    assert_eq!(row.instrument_identifier, "");
    assert_eq!(row.trade_date, Timestamp::epoch());
    assert_eq!(row.settled_date, None);
    assert_eq!(row.tx_type, "UNKNOWN");
    assert_eq!(row.unit_price, None);
}

#[test]
fn staged_tx_with_unrepresentable_dates_falls_back_to_epoch() {
    let mut tx = test_tx();
    tx.trade_date = Some(WireTimestamp { seconds: i64::MAX, nanos: 0 });
    tx.settled_date = Some(WireTimestamp { seconds: 5, nanos: -1 });
    tx.tx_type = TxType::Sell;
    let row = StagingTx::from_tx(tx);
    assert_eq!(row.trade_date, Timestamp::epoch());
    assert_eq!(row.settled_date, Some(Timestamp::epoch()));
    assert_eq!(row.tx_type, "SELL");
}

#[test]
fn wire_timestamp_is_checked_by_the_calendar() {
    assert_eq!(Timestamp::from_wire(wire(1640995200)), Some(at(1640995200)));
    assert_eq!(
        Timestamp::from_wire(WireTimestamp { seconds: 59, nanos: 1_500_000_000 }),
        Some(Timestamp { seconds: 59, nanos: 1_500_000_000 })
    );
    assert_eq!(Timestamp::from_wire(WireTimestamp { seconds: 58, nanos: 1_500_000_000 }), None);
    assert_eq!(Timestamp::from_wire(WireTimestamp { seconds: i64::MIN, nanos: 0 }), None);
    assert_eq!(Timestamp::from_wire(WireTimestamp { seconds: 0, nanos: -1 }), None);
    assert_eq!(Timestamp::from_wire_or_epoch(WireTimestamp { seconds: 7, nanos: -1 }), at(0));
}

#[test]
fn staging_identifier_round_trip_to_lookup_key() {
    let row = StagingIdentifier::from_identifier(Identifier {
        id: "caller-handle".to_string(),
        namespace: "NASDAQ".to_string(),
        domain: "XNAS".to_string(),
        identifier: "AAPL".to_string(),
    })
    .with_batch_dbid(1)
    .with_instrument_dbid(2)
    .with_source("src".to_string());
    assert_eq!(row.dbid, 0);
    assert_eq!(row.batch_dbid, 1);
    assert_eq!(row.instrument_dbid, 2);
    assert_eq!(row.source, "src");
    let mut numbered = row.clone();
    numbered.dbid = -42;
    let key = numbered.into_identifier();
    assert_eq!(key.id, "-42");
    assert_eq!(key.namespace, "NASDAQ");
    assert_eq!(key.domain, "XNAS");
    assert_eq!(key.identifier, "AAPL");
}
