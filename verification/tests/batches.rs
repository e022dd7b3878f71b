use portfoliodb::batch::Batch;
use portfoliodb::codes::{BatchStatus, BatchType, InstrumentType, OptionStyle, PutCall, TxType};
use portfoliodb::errors::{Errors, StatusCode, StoreError};
use portfoliodb::identifier::Identifier;
use portfoliodb::models::IdentifierRecord;
use portfoliodb::staging::StagingTx;
use portfoliodb::store::DataStore;
use portfoliodb::amount::Amount;
use portfoliodb::records::{Instrument, Tx};
use portfoliodb::text::{decimal_nat_string, decimal_string, same_str, same_text};
use portfoliodb::timestamp::{Timestamp, WireTimestamp};

fn at(seconds: i64) -> Timestamp {
    Timestamp { seconds, nanos: 0 }
}

fn new_batch(db: &mut DataStore) -> i64 {
    db.create_batch(7, BatchType::PricesTimeseries, "broker-key", at(100), at(200), at(50)).unwrap()
}

fn tx(namespace: &str, domain: &str, identifier: &str, seconds: i64) -> Tx {
    Tx {
        identifier: Some(Identifier::new(namespace, domain, identifier)),
        account_id: "acc".to_string(),
        units: Amount::from_bits(1.0f64.to_bits()),
        unit_price: None,
        currency: "USD".to_string(),
        trade_date: Some(WireTimestamp { seconds, nanos: 0 }),
        settled_date: None,
        tx_type: TxType::Buy,
    }
}

#[test]
fn create_batch_is_pending_with_zero_counts() {
    let mut db = DataStore::new();
    let id = new_batch(&mut db);
    assert_eq!(id, 1);
    assert_eq!(db.next_dbid, 2);
    assert_eq!(
        db.batches,
        vec![Batch {
            dbid: 1,
            user_dbid: 7,
            batch_type: BatchType::PricesTimeseries,
            status: BatchStatus::Pending,
            broker_key: "broker-key".to_string(),
            period_start: at(100),
            period_end: at(200),
            total_records: 0,
            processed_records: 0,
            error_count: 0,
            created_at: at(50),
            processed_at: None,
            error_message: None,
        }]
    );
    assert_eq!(new_batch(&mut db), 2);
    assert!(db.batch_exists(1));
    assert!(db.batch_exists(2));
    assert!(!db.batch_exists(3));
}

#[test]
fn create_batch_takes_a_malformed_period_as_given() {
    let mut db = DataStore::new();
    let id = db
        .create_batch(1, BatchType::TxsTimeseries, "", at(200), Timestamp::epoch(), at(1))
        .unwrap();
    assert_eq!(db.batches[0].dbid, id);
    assert_eq!(db.batches[0].period_start, at(200));
    assert_eq!(db.batches[0].period_end, at(0));
}

#[test]
fn update_total_records_sets_only_that_batch() {
    let mut db = DataStore::new();
    let a = new_batch(&mut db);
    let b = new_batch(&mut db);
    assert_eq!(db.update_batch_total_records(b, 42), Ok(()));
    assert_eq!(db.batches[0].total_records, 0);
    assert_eq!(db.batches[1].total_records, 42);
    assert_eq!(db.update_batch_total_records(a, -1), Ok(()));
    assert_eq!(db.batches[0].total_records, -1);
    assert_eq!(db.batches[1].status, BatchStatus::Pending);
}

#[test]
fn update_on_unknown_batch_is_not_found() {
    let mut db = DataStore::new();
    new_batch(&mut db);
    let before = db.clone();
    assert_eq!(db.update_batch_total_records(99, 1), Err(StoreError::NotFound(99)));
    assert_eq!(
        db.update_batch_status(99, BatchStatus::Processing, None, at(1)),
        Err(StoreError::NotFound(99))
    );
    assert_eq!(db, before);
    assert_eq!(StoreError::NotFound(99).message(), "Batch with id 99 not found");
}

#[test]
fn status_moves_forward_and_stamps_terminal_states() {
    let mut db = DataStore::new();
    let id = new_batch(&mut db);
    assert_eq!(db.update_batch_status(id, BatchStatus::Processing, None, at(60)), Ok(()));
    assert_eq!(db.batches[0].status, BatchStatus::Processing);
    assert_eq!(db.batches[0].processed_at, None);
    assert_eq!(db.batches[0].error_message, None);
    assert_eq!(db.update_batch_status(id, BatchStatus::Completed, None, at(70)), Ok(()));
    assert_eq!(db.batches[0].status, BatchStatus::Completed);
    assert_eq!(db.batches[0].processed_at, Some(at(70)));
    assert_eq!(db.batches[0].error_message, None);

    let failed = new_batch(&mut db);
    assert_eq!(db.update_batch_status(failed, BatchStatus::Failed, Some("boom"), at(80)), Ok(()));
    assert_eq!(db.batches[1].status, BatchStatus::Failed);
    assert_eq!(db.batches[1].processed_at, Some(at(80)));
    assert_eq!(db.batches[1].error_message, Some("boom".to_string()));
    assert_eq!(db.batches[0].status, BatchStatus::Completed);
}

#[test]
fn no_terminal_state_is_left_and_nothing_moves_backward() {
    let all = [
        BatchStatus::Pending,
        BatchStatus::Processing,
        BatchStatus::Completed,
        BatchStatus::Failed,
    ];
    let allowed = [
        (BatchStatus::Pending, BatchStatus::Processing),
        (BatchStatus::Pending, BatchStatus::Failed),
        (BatchStatus::Processing, BatchStatus::Completed),
        (BatchStatus::Processing, BatchStatus::Failed),
    ];
    for from in all {
        for to in all {
            assert_eq!(from.can_become(to), allowed.contains(&(from, to)), "{:?} -> {:?}", from, to);
        }
    }
    assert!(!BatchStatus::Pending.is_terminal());
    assert!(!BatchStatus::Processing.is_terminal());
    assert!(BatchStatus::Completed.is_terminal());
    assert!(BatchStatus::Failed.is_terminal());

    let mut db = DataStore::new();
    let id = new_batch(&mut db);
    db.update_batch_status(id, BatchStatus::Failed, Some("first"), at(10)).unwrap();
    let before = db.clone();
    assert_eq!(
        db.update_batch_status(id, BatchStatus::Processing, None, at(11)),
        Err(StoreError::Transition(BatchStatus::Failed, BatchStatus::Processing))
    );
    assert_eq!(
        db.update_batch_status(id, BatchStatus::Failed, Some("second"), at(12)),
        Err(StoreError::Transition(BatchStatus::Failed, BatchStatus::Failed))
    );
    assert_eq!(db, before);
    let other = new_batch(&mut db);
    assert_eq!(
        db.update_batch_status(other, BatchStatus::Completed, None, at(13)),
        Err(StoreError::Transition(BatchStatus::Pending, BatchStatus::Completed))
    );
    assert_eq!(db.blocking_status(other, BatchStatus::Pending), Some(BatchStatus::Pending));
    assert_eq!(db.blocking_status(other, BatchStatus::Failed), None);
    assert_eq!(db.blocking_status(12345, BatchStatus::Failed), None);
}

#[test]
fn mark_failed_skips_missing_and_finished_batches() {
    let mut db = DataStore::new();
    let id = new_batch(&mut db);
    db.update_batch_status(id, BatchStatus::Processing, None, at(1)).unwrap();
    db.update_batch_status(id, BatchStatus::Completed, None, at(2)).unwrap();
    let before = db.clone();
    db.mark_failed(id, "late", at(3));
    db.mark_failed(404, "missing", at(3));
    assert_eq!(db, before);
    let open = new_batch(&mut db);
    db.mark_failed(open, "why", at(4));
    assert_eq!(db.batches[1].status, BatchStatus::Failed);
    assert_eq!(db.batches[1].error_message, Some("why".to_string()));
    assert_eq!(db.batches[1].processed_at, Some(at(4)));
}

#[test]
fn stored_names_round_trip() {
    for s in [
        BatchStatus::Pending,
        BatchStatus::Processing,
        BatchStatus::Completed,
        BatchStatus::Failed,
    ] {
        assert_eq!(BatchStatus::from_name(s.name()), Some(s));
    }
    for t in [BatchType::TxsTimeseries, BatchType::PricesTimeseries] {
        assert_eq!(BatchType::from_name(t.name()), Some(t));
    }
    assert_eq!(BatchStatus::Pending.name(), "PENDING");
    assert_eq!(BatchStatus::Processing.name(), "PROCESSING");
    assert_eq!(BatchStatus::Completed.name(), "COMPLETED");
    assert_eq!(BatchStatus::Failed.name(), "FAILED");
    assert_eq!(BatchType::TxsTimeseries.name(), "TXS_TIMESERIES");
    assert_eq!(BatchType::PricesTimeseries.name(), "PRICES_TIMESERIES");
    assert_eq!(BatchStatus::from_name("pending"), None);
    assert_eq!(BatchStatus::from_name(""), None);
    assert_eq!(BatchType::from_name("TXS"), None);
    assert_eq!(TxType::Buy.name(), "BUY");
    assert_eq!(TxType::Sell.name(), "SELL");
    assert_eq!(TxType::Dividend.name(), "DIVIDEND");
    assert_eq!(TxType::Interest.name(), "INTEREST");
    assert_eq!(TxType::Deposit.name(), "DEPOSIT");
    assert_eq!(TxType::Withdrawal.name(), "WITHDRAWAL");
    assert_eq!(TxType::Unknown.name(), "UNKNOWN");
    assert_eq!(InstrumentType::Stk.name(), "STK");
    assert_eq!(InstrumentType::Opt.name(), "OPT");
    assert_eq!(InstrumentType::Fut.name(), "FUT");
    assert_eq!(InstrumentType::Bond.name(), "BOND");
    assert_eq!(InstrumentType::Cash.name(), "CASH");
    assert_eq!(InstrumentType::Unknown.name(), "UNKNOWN");
    assert_eq!(PutCall::Put.name(), "PUT");
    assert_eq!(PutCall::Call.name(), "CALL");
    assert_eq!(PutCall::Unknown.name(), "UNKNOWN");
    assert_eq!(OptionStyle::American.name(), "AMERICAN");
    assert_eq!(OptionStyle::European.name(), "EUROPEAN");
    assert_eq!(OptionStyle::Unknown.name(), "UNKNOWN");
}

#[test]
fn validate_passes_well_formed_batch_and_leaves_status() {
    let mut db = DataStore::new();
    let id = new_batch(&mut db);
    let other = new_batch(&mut db);
    db.stage_txs(id, vec![tx("NASDAQ", "NASDAQ", "AAPL", 5), tx("N", "D", "I", 6)], at(1)).unwrap();
    // A malformed row of another batch does not count.
    db.stage_txs(other, vec![tx("", "D", "I", 6)], at(1)).unwrap();
    let before = db.clone();
    assert_eq!(db.validate_txs(id, at(2)), Ok(()));
    assert_eq!(db, before);
    // A batch without staged rows is well formed too.
    assert_eq!(db.validate_txs(4711, at(2)), Ok(()));
    assert_eq!(db, before);
}

#[test]
fn validate_fails_batch_with_report_of_every_malformed_row() {
    let mut db = DataStore::new();
    let id = new_batch(&mut db);
    db.update_batch_status(id, BatchStatus::Processing, None, at(1)).unwrap();
    let mut no_identifier = tx("x", "y", "z", -3);
    no_identifier.identifier = None;
    db.stage_txs(
        id,
        vec![
            tx("NASDAQ", "", "AAPL", 1640995200),
            tx("NASDAQ", "NASDAQ", "MSFT", 1),
            tx("", "LSE", "", 0),
            no_identifier,
            tx("OCC", "OCC", "", -86400),
        ],
        at(2),
    )
    .unwrap();
    let expected = "Invalid transaction: identifier (NASDAQ, , AAPL) traded at 1640995200\n\
                    Invalid transaction: identifier (, LSE, ) traded at 0\n\
                    Invalid transaction: identifier (, , ) traded at -3\n\
                    Invalid transaction: identifier (OCC, OCC, ) traded at -86400\n";
    let staged = db.staging_txs.clone();
    let result = db.validate_txs(id, at(3));
    assert_eq!(result, Err(StoreError::Validation(expected.to_string())));
    assert_eq!(result.unwrap_err().message(), expected);
    assert_eq!(db.batches[0].status, BatchStatus::Failed);
    assert_eq!(db.batches[0].error_message, Some(expected.to_string()));
    assert_eq!(db.batches[0].processed_at, Some(at(3)));
    assert_eq!(db.staging_txs, staged);
    // Validating again reports the same rows; the batch stays failed.
    let before = db.clone();
    assert_eq!(db.validate_txs(id, at(4)), Err(StoreError::Validation(expected.to_string())));
    assert_eq!(db, before);
}

#[test]
fn unresolved_identifiers_is_an_anti_join_on_the_triple() {
    let mut db = DataStore::new();
    let id = new_batch(&mut db);
    let other = new_batch(&mut db);
    let instrument = |ids: Vec<Identifier>| Instrument {
        instrument_type: InstrumentType::Stk,
        listing_mic: "X".to_string(),
        currency: "USD".to_string(),
        identifiers: ids,
        derivative: None,
    };
    db.stage_instruments(
        id,
        "".to_string(),
        vec![
            instrument(vec![Identifier::new("N", "D", "KNOWN"), Identifier::new("N", "D", "NEW")]),
            instrument(vec![Identifier::new("N", "OTHER", "KNOWN")]),
        ],
        at(1),
    )
    .unwrap();
    db.stage_instruments(other, "".to_string(), vec![instrument(vec![Identifier::new("N", "D", "ELSE")])], at(1))
        .unwrap();
    db.identifiers.push(IdentifierRecord {
        dbid: 500,
        instrument_dbid: 400,
        namespace: "N".to_string(),
        domain: "D".to_string(),
        id: "KNOWN".to_string(),
        source: "".to_string(),
        authoritative: false,
        valid_from: None,
        valid_to: None,
        created_at: at(0),
    });
    assert!(db.has_identifier(&"N".to_string(), &"D".to_string(), &"KNOWN".to_string()));
    assert!(!db.has_identifier(&"N".to_string(), &"D".to_string(), &"NEW".to_string()));
    let open: Vec<(String, String)> = db
        .unresolved_identifiers(id)
        .into_iter()
        .map(|r| (r.domain, r.identifier))
        .collect();
    assert_eq!(
        open,
        vec![("D".to_string(), "NEW".to_string()), ("OTHER".to_string(), "KNOWN".to_string())]
    );
    assert_eq!(db.unresolved_identifiers(other).len(), 1);
    assert!(db.unresolved_identifiers(999).is_empty());
}

#[test]
fn decimal_text() {
    assert_eq!(decimal_string(0), "0");
    assert_eq!(decimal_string(7), "7");
    assert_eq!(decimal_string(10), "10");
    assert_eq!(decimal_string(-1), "-1");
    assert_eq!(decimal_string(1640995200), "1640995200");
    assert_eq!(decimal_string(i64::MAX), "9223372036854775807");
    assert_eq!(decimal_string(i64::MIN), "-9223372036854775808");
    assert_eq!(decimal_nat_string(u64::MAX), "18446744073709551615");
    assert_eq!(decimal_nat_string(1234567890), "1234567890");
    assert!(same_str("abc", "abc"));
    assert!(!same_str("abc", "abd"));
    assert!(same_text(&"".to_string(), &String::new()));
    assert!(!same_text(&"a".to_string(), &"".to_string()));
}

#[test]
fn error_messages() {
    assert_eq!(StoreError::ForeignKey(-5).message(), "Batch with id -5 does not exist");
    assert_eq!(
        StoreError::Transition(BatchStatus::Completed, BatchStatus::Failed).message(),
        "Batch cannot move from COMPLETED to FAILED"
    );
    assert_eq!(StoreError::Exhausted.message(), "Store has no room left");
    assert_eq!(StoreError::Validation("a\nb\n".to_string()).message(), "a\nb\n");
    assert_eq!(StoreError::Resolver("timeout".to_string()).message(), "timeout");
    let s = Errors::internal("x".to_string());
    assert_eq!((s.code, s.message.as_str()), (StatusCode::Internal, "x"));
    let s = Errors::unauthenticated("y".to_string());
    assert_eq!((s.code, s.message.as_str()), (StatusCode::Unauthenticated, "y"));
    let s = Errors::invalid_argument("z".to_string());
    assert_eq!((s.code, s.message.as_str()), (StatusCode::InvalidArgument, "z"));
    let s = Errors::permission_denied("w".to_string());
    assert_eq!((s.code, s.message.as_str()), (StatusCode::PermissionDenied, "w"));
}

#[test]
fn staged_rows_keep_what_was_submitted() {
    let mut db = DataStore::new();
    let id = new_batch(&mut db);
    db.stage_txs(id, vec![tx("N", "D", "I", 5), tx("N2", "D2", "I2", 6)], at(1)).unwrap();
    let rows: Vec<StagingTx> = db.staging_txs.clone();
    assert_eq!(rows.len(), 2);
    assert_eq!((rows[0].dbid, rows[1].dbid), (2, 3));
    assert_eq!(rows[1].instrument_namespace, "N2");
    assert_eq!(rows[1].trade_date, at(6));
    assert_eq!(rows[0].units.to_bits(), 1.0f64.to_bits());
    assert_eq!(db.next_dbid, 4);
}
