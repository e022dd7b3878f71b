use portfoliodb::amount::Amount;
use portfoliodb::codes::{BatchStatus, BatchType, InstrumentType, TxType};
use portfoliodb::errors::StoreError;
use portfoliodb::identifier::Identifier;
use portfoliodb::matching::{contains_id, plan_merge, MergePlan};
use portfoliodb::merge::{
    attach_identifiers, holds_claim, keep_derivatives, keep_instruments, missing_identifiers,
    repoint_prices, repoint_transactions, split_identifiers, union_identifiers,
};
use portfoliodb::models::{
    DerivativeRecord, IdentifierRecord, InstrumentRecord, Price, Transaction,
};
use portfoliodb::records::{Instrument, Tx};
use portfoliodb::resolver::{IdResolver, SimpleResolver, StagingResolver};
use portfoliodb::store::DataStore;
use portfoliodb::timestamp::{Timestamp, WireTimestamp};

struct Stub;

impl IdResolver for Stub {
    fn name(&self) -> String {
        "stub".to_string()
    }

    fn resolve(&self, ids: Vec<Identifier>) -> Result<Vec<Instrument>, String> {
        assert_eq!(ids.len(), 1);
        assert_eq!(ids[0].identifier, "AAPL");
        Ok(vec![Instrument {
            instrument_type: InstrumentType::Stk,
            listing_mic: "XNAS".to_string(),
            currency: "USD".to_string(),
            identifiers: vec![Identifier::new("NASDAQ", "NASDAQ", "AAPL")],
            derivative: None,
        }])
    }
}

fn at(seconds: i64) -> Timestamp {
    Timestamp { seconds, nanos: 0 }
}

fn instrument(dbid: i64, type_: &str) -> InstrumentRecord {
    InstrumentRecord {
        dbid,
        type_: type_.to_string(),
        status: "ACTIVE".to_string(),
        listing_mic: "XNAS".to_string(),
        currency: "USD".to_string(),
        created_at: at(1),
    }
}

fn identifier(dbid: i64, instrument_dbid: i64, namespace: &str, domain: &str, id: &str) -> IdentifierRecord {
    IdentifierRecord {
        dbid,
        instrument_dbid,
        namespace: namespace.to_string(),
        domain: domain.to_string(),
        id: id.to_string(),
        source: "seed".to_string(),
        authoritative: true,
        valid_from: None,
        valid_to: None,
        created_at: at(1),
    }
}

fn transaction(dbid: i64, instrument_dbid: i64) -> Transaction {
    Transaction {
        dbid,
        user_dbid: 1,
        instrument_dbid,
        account_id: "account1".to_string(),
        units: Amount::from_bits(10.0f64.to_bits()),
        unit_price: Some(Amount::from_bits(150.0f64.to_bits())),
        currency: "USD".to_string(),
        trade_date: at(1640995200),
        settled_date: None,
        tx_type: "BUY".to_string(),
    }
}

fn price(dbid: i64, instrument_dbid: i64) -> Price {
    Price { dbid, instrument_dbid, price: Amount::from_bits(1.0f64.to_bits()), date_as_of: at(9) }
}

fn derivative(dbid: i64, instrument_dbid: i64, underlying_dbid: i64) -> DerivativeRecord {
    DerivativeRecord {
        dbid,
        instrument_dbid,
        underlying_dbid,
        is_call: true,
        strike_price: Amount::from_bits(160.0f64.to_bits()),
        expiration_date: at(1735603200),
        multiplier: Amount::from_bits(1.0f64.to_bits()),
    }
}

fn store(next_dbid: i64) -> DataStore {
    let mut db = DataStore::new();
    db.next_dbid = next_dbid;
    db
}

fn tuples_on(db: &DataStore, instrument_dbid: i64) -> Vec<(String, String, String)> {
    let mut out: Vec<(String, String, String)> = db
        .identifiers
        .iter()
        .filter(|r| r.instrument_dbid == instrument_dbid)
        .map(|r| (r.namespace.clone(), r.domain.clone(), r.id.clone()))
        .collect();
    out.sort();
    out
}

#[test]
fn test_merge_instruments() {
    // Merge two instruments with identical identifiers.
    let mut db = store(5000);
    db.instruments.push(instrument(1001, "STK"));
    db.instruments.push(instrument(1002, "STK"));
    db.identifiers.push(identifier(2001, 1001, "GOOGLEFINANCE", "NASDAQ", "AAPL"));
    db.identifiers.push(identifier(2002, 1002, "GOOGLEFINANCE", "NASDAQ", "AAPL"));
    let result = db
        .merge_instruments(&vec![Identifier::new("GOOGLEFINANCE", "NASDAQ", "AAPL")], at(50))
        .expect("Failed to merge instruments");
    assert!(result.is_some(), "Merge should return target instrument dbid");
    assert_eq!(result, Some(1001));
    let instrument_ids: Vec<i64> = db.instruments.iter().map(|i| i.dbid).collect();
    assert_eq!(instrument_ids, vec![1001]);
    assert_eq!(db.identifiers, vec![identifier(2001, 1001, "GOOGLEFINANCE", "NASDAQ", "AAPL")]);
    assert_eq!(db.next_dbid, 5000);

    // Merge instruments with different domains but the same symbol.
    let mut db = store(5000);
    db.instruments.push(instrument(1003, "STK"));
    db.instruments.push(instrument(1004, "STK"));
    db.identifiers.push(identifier(2003, 1003, "GOOGLEFINANCE", "NASDAQ", "MSFT"));
    db.identifiers.push(identifier(2004, 1004, "YAHOO", "NASDAQ", "MSFT"));
    let result = db
        .merge_instruments(
            &vec![
                Identifier::new("GOOGLEFINANCE", "NASDAQ", "MSFT"),
                Identifier::new("YAHOO", "NASDAQ", "MSFT"),
            ],
            at(60),
        )
        .expect("Failed to merge instruments");
    assert!(result.is_some(), "Merge should return target instrument dbid");
    assert_eq!(result, Some(1003));
    let instrument_ids: Vec<i64> = db.instruments.iter().map(|i| i.dbid).collect();
    assert_eq!(instrument_ids, vec![1003]);
    assert_eq!(db.identifiers.len(), 2);
    assert_eq!(db.identifiers[0], identifier(2003, 1003, "GOOGLEFINANCE", "NASDAQ", "MSFT"));
    assert_eq!(
        db.identifiers[1],
        IdentifierRecord {
            dbid: 5000,
            instrument_dbid: 1003,
            namespace: "YAHOO".to_string(),
            domain: "NASDAQ".to_string(),
            id: "MSFT".to_string(),
            source: "".to_string(),
            authoritative: false,
            valid_from: None,
            valid_to: None,
            created_at: at(60),
        }
    );
    assert_eq!(db.next_dbid, 5001);
}

#[test]
fn merge_single_match_returns_it_and_writes_nothing() {
    let mut db = store(10);
    db.instruments.push(instrument(1, "STK"));
    db.instruments.push(instrument(2, "STK"));
    db.identifiers.push(identifier(3, 1, "NASDAQ", "NASDAQ", "AAPL"));
    db.identifiers.push(identifier(4, 2, "NASDAQ", "NASDAQ", "MSFT"));
    db.transactions.push(transaction(5, 1));
    let before = db.clone();
    let result = db.merge_instruments(
        &vec![
            Identifier::new("NASDAQ", "NASDAQ", "AAPL"),
            Identifier::new("ISIN", "ISIN", "US0378331005"),
        ],
        at(99),
    );
    assert_eq!(result, Ok(Some(1)));
    assert_eq!(db, before);
}

#[test]
fn merge_empty_candidates_is_none() {
    let mut db = store(10);
    db.instruments.push(instrument(1, "STK"));
    db.identifiers.push(identifier(3, 1, "NASDAQ", "NASDAQ", "AAPL"));
    let before = db.clone();
    assert_eq!(db.merge_instruments(&Vec::new(), at(1)), Ok(None));
    assert_eq!(db, before);
}

#[test]
fn merge_unknown_candidate_is_none() {
    let mut db = store(10);
    db.instruments.push(instrument(1, "STK"));
    db.identifiers.push(identifier(3, 1, "NASDAQ", "NASDAQ", "AAPL"));
    let before = db.clone();
    let r = db.merge_instruments(&vec![Identifier::new("NASDAQ", "NASDAQ", "aapl")], at(1));
    assert_eq!(r, Ok(None));
    let r = db.merge_instruments(&vec![Identifier::new("NASDAQ", "", "AAPL")], at(1));
    assert_eq!(r, Ok(None));
    assert_eq!(db, before);
}

#[test]
fn merge_survivor_is_lowest_id_whatever_the_row_order() {
    let mut db = store(100);
    db.instruments.push(instrument(9, "STK"));
    db.instruments.push(instrument(4, "STK"));
    db.instruments.push(instrument(7, "STK"));
    db.identifiers.push(identifier(20, 9, "N", "D", "X"));
    db.identifiers.push(identifier(21, 7, "N", "D", "X"));
    db.identifiers.push(identifier(22, 4, "N", "D", "X"));
    db.identifiers.push(identifier(23, 9, "N", "D", "ONLY9"));
    db.identifiers.push(identifier(24, 7, "N", "D", "ONLY7"));
    assert_eq!(db.find_matches(&vec![Identifier::new("N", "D", "X")]), vec![9, 7, 4]);
    let r = db.merge_instruments(&vec![Identifier::new("N", "D", "X")], at(5));
    assert_eq!(r, Ok(Some(4)));
    let instrument_ids: Vec<i64> = db.instruments.iter().map(|i| i.dbid).collect();
    assert_eq!(instrument_ids, vec![4]);
    assert_eq!(
        tuples_on(&db, 4),
        vec![
            ("N".to_string(), "D".to_string(), "ONLY7".to_string()),
            ("N".to_string(), "D".to_string(), "ONLY9".to_string()),
            ("N".to_string(), "D".to_string(), "X".to_string()),
        ]
    );
    assert_eq!(db.identifiers.len(), 3);
    // The row the survivor had stays; the retired instruments' triples come
    // in table order under new ids.
    let ids: Vec<(i64, &str)> = db.identifiers.iter().map(|r| (r.dbid, r.id.as_str())).collect();
    assert_eq!(ids, vec![(22, "X"), (100, "ONLY9"), (101, "ONLY7")]);
    assert_eq!(db.next_dbid, 102);
}

#[test]
fn merge_converges_over_two_merges() {
    // A and B share X; B and C share Y.
    let mut db = store(1000);
    for id in [1, 2, 3] {
        db.instruments.push(instrument(id, "STK"));
    }
    db.identifiers.push(identifier(10, 1, "N", "D", "A-OWN"));
    db.identifiers.push(identifier(11, 1, "N", "D", "X"));
    db.identifiers.push(identifier(12, 2, "N", "D", "X"));
    db.identifiers.push(identifier(13, 2, "N", "D", "Y"));
    db.identifiers.push(identifier(14, 3, "N", "D", "Y"));
    db.identifiers.push(identifier(15, 3, "N", "D", "C-OWN"));
    assert_eq!(db.merge_instruments(&vec![Identifier::new("N", "D", "X")], at(1)), Ok(Some(1)));
    assert_eq!(db.instruments.len(), 2);
    assert_eq!(db.merge_instruments(&vec![Identifier::new("N", "D", "Y")], at(2)), Ok(Some(1)));
    let instrument_ids: Vec<i64> = db.instruments.iter().map(|i| i.dbid).collect();
    assert_eq!(instrument_ids, vec![1]);
    assert!(db.identifiers.iter().all(|r| r.instrument_dbid == 1));
    assert_eq!(
        tuples_on(&db, 1),
        vec![
            ("N".to_string(), "D".to_string(), "A-OWN".to_string()),
            ("N".to_string(), "D".to_string(), "C-OWN".to_string()),
            ("N".to_string(), "D".to_string(), "X".to_string()),
            ("N".to_string(), "D".to_string(), "Y".to_string()),
        ]
    );
    assert_eq!(db.identifiers.len(), 4);
    // Repeating either merge changes nothing.
    let before = db.clone();
    assert_eq!(db.merge_instruments(&vec![Identifier::new("N", "D", "X")], at(3)), Ok(Some(1)));
    assert_eq!(db.merge_instruments(&vec![Identifier::new("N", "D", "Y")], at(3)), Ok(Some(1)));
    assert_eq!(db, before);
}

#[test]
fn merge_repoints_transactions_prices_and_underlyings() {
    let mut db = store(500);
    for id in [1, 2, 3, 4] {
        db.instruments.push(instrument(id, "STK"));
    }
    db.instruments.push(instrument(5, "OPT"));
    db.identifiers.push(identifier(10, 2, "N", "D", "X"));
    db.identifiers.push(identifier(11, 1, "N", "D", "X"));
    db.identifiers.push(identifier(12, 3, "N", "D", "OTHER"));
    db.identifiers.push(identifier(13, 4, "N", "D", "X"));
    db.transactions.push(transaction(20, 2));
    db.transactions.push(transaction(21, 3));
    db.transactions.push(transaction(22, 1));
    db.transactions.push(transaction(23, 4));
    db.prices.push(price(30, 4));
    db.prices.push(price(31, 3));
    // An option on instrument 2, an option held by instrument 4 on 3, and one
    // on 1.
    db.derivatives.push(derivative(40, 5, 2));
    db.derivatives.push(derivative(41, 4, 3));
    db.derivatives.push(derivative(42, 3, 1));
    let r = db.merge_instruments(&vec![Identifier::new("N", "D", "X")], at(7));
    assert_eq!(r, Ok(Some(1)));
    let tx_refs: Vec<(i64, i64)> =
        db.transactions.iter().map(|t| (t.dbid, t.instrument_dbid)).collect();
    assert_eq!(tx_refs, vec![(20, 1), (21, 3), (22, 1), (23, 1)]);
    assert_eq!(db.transactions[0], transaction(20, 1));
    let price_refs: Vec<(i64, i64)> =
        db.prices.iter().map(|p| (p.dbid, p.instrument_dbid)).collect();
    assert_eq!(price_refs, vec![(30, 1), (31, 3)]);
    assert_eq!(db.derivatives, vec![derivative(40, 5, 1), derivative(42, 3, 1)]);
    let instrument_ids: Vec<i64> = db.instruments.iter().map(|i| i.dbid).collect();
    assert_eq!(instrument_ids, vec![1, 3, 5]);
    // No row refers to an instrument that is gone.
    let alive = |id: i64| db.instruments.iter().any(|i| i.dbid == id);
    assert!(db.transactions.iter().all(|t| alive(t.instrument_dbid)));
    assert!(db.prices.iter().all(|p| alive(p.instrument_dbid)));
    assert!(db.identifiers.iter().all(|r| alive(r.instrument_dbid)));
    assert!(db.derivatives.iter().all(|d| alive(d.instrument_dbid) && alive(d.underlying_dbid)));
    // Both duplicates held the same triple: the union is a set.
    assert_eq!(db.identifiers.len(), 2);
    assert_eq!(db.next_dbid, 500);
}

#[test]
fn merge_stores_candidates_that_matched_nothing() {
    let mut db = store(50);
    db.instruments.push(instrument(1, "STK"));
    db.instruments.push(instrument(2, "STK"));
    db.identifiers.push(identifier(10, 1, "N", "D", "X"));
    db.identifiers.push(identifier(11, 2, "N", "D", "X"));
    let candidates = vec![
        Identifier::new("N", "D", "NEW"),
        Identifier::new("N", "D", "X"),
        Identifier::new("N", "D", "NEW"),
    ];
    assert_eq!(db.merge_instruments(&candidates, at(3)), Ok(Some(1)));
    let ids: Vec<(i64, i64, &str)> =
        db.identifiers.iter().map(|r| (r.dbid, r.instrument_dbid, r.id.as_str())).collect();
    assert_eq!(ids, vec![(10, 1, "X"), (50, 1, "NEW")]);
}

#[test]
fn merge_without_room_fails_and_writes_nothing() {
    let mut db = store(i64::MAX);
    db.instruments.push(instrument(1, "STK"));
    db.instruments.push(instrument(2, "STK"));
    db.identifiers.push(identifier(10, 1, "N", "D", "X"));
    db.identifiers.push(identifier(11, 2, "N", "D", "X"));
    db.identifiers.push(identifier(12, 2, "N", "D", "Z"));
    db.transactions.push(transaction(20, 2));
    let before = db.clone();
    let r = db.merge_instruments(&vec![Identifier::new("N", "D", "X")], at(3));
    assert_eq!(r, Err(StoreError::Exhausted));
    assert_eq!(db, before);
    // With exactly one id left the merge goes through.
    db.next_dbid = i64::MAX - 1;
    let r = db.merge_instruments(&vec![Identifier::new("N", "D", "X")], at(3));
    assert_eq!(r, Ok(Some(1)));
    assert_eq!(db.next_dbid, i64::MAX);
    assert_eq!(db.identifiers[1].dbid, i64::MAX - 1);
}

#[test]
fn scenario_first_ingestion_then_merge_down() {
    let mut db = DataStore::new();
    // 2022-01-01 to 2022-02-01
    let batch = db
        .create_batch(1, BatchType::TxsTimeseries, "broker", at(1640995200), at(1643673600), at(100))
        .unwrap();
    let tx = Tx {
        identifier: Some(Identifier::new("NASDAQ", "NASDAQ", "AAPL")),
        account_id: "account1".to_string(),
        units: Amount::from_bits(10.0f64.to_bits()),
        unit_price: Some(Amount::from_bits(150.0f64.to_bits())),
        currency: "USD".to_string(),
        trade_date: Some(WireTimestamp { seconds: 1641000000, nanos: 0 }),
        settled_date: None,
        tx_type: TxType::Buy,
    };
    assert_eq!(db.stage_txs(batch, vec![tx], at(101)), Ok(1));
    // The user supplied the identifier of the instrument with the submission.
    let supplied = Instrument {
        instrument_type: InstrumentType::Stk,
        listing_mic: "XNAS".to_string(),
        currency: "USD".to_string(),
        identifiers: vec![Identifier::new("NASDAQ", "NASDAQ", "AAPL")],
        derivative: None,
    };
    assert_eq!(db.stage_instruments(batch, "".to_string(), vec![supplied], at(101)), Ok(2));
    assert_eq!(db.validate_txs(batch, at(102)), Ok(()));
    assert_eq!(db.batches[0].status, BatchStatus::Pending);

    let resolver = SimpleResolver::new(Stub);
    assert_eq!(resolver.resolve(&mut db, batch, at(103)), Ok(()));
    assert_eq!(db.staging_instruments.len(), 2);
    assert_eq!(db.staging_identifiers.len(), 2);
    assert_eq!(db.staging_identifiers[1].source, "stub");
    assert_eq!(db.staging_identifiers[1].instrument_dbid, db.staging_instruments[1].dbid);

    let candidates = vec![Identifier::new("NASDAQ", "NASDAQ", "AAPL")];
    // Nothing canonical yet: first-time creation, not a merge.
    assert_eq!(db.merge_instruments(&candidates, at(104)), Ok(None));
    assert!(db.instruments.is_empty());

    // The caller creates the instrument directly.
    db.instruments.push(instrument(900, "STK"));
    db.identifiers.push(identifier(901, 900, "NASDAQ", "NASDAQ", "AAPL"));
    assert_eq!(db.merge_instruments(&candidates, at(105)), Ok(Some(900)));
    assert!(db.unresolved_identifiers(batch).is_empty());

    // A second ingestion of the same identifier created a duplicate.
    db.instruments.push(instrument(950, "STK"));
    db.identifiers.push(identifier(951, 950, "NASDAQ", "NASDAQ", "AAPL"));
    assert_eq!(db.merge_instruments(&candidates, at(106)), Ok(Some(900)));
    let instrument_ids: Vec<i64> = db.instruments.iter().map(|i| i.dbid).collect();
    assert_eq!(instrument_ids, vec![900]);
    assert_eq!(db.identifiers.len(), 1);
}

#[test]
fn plan_merge_picks_lowest_and_retires_the_rest_once() {
    assert_eq!(plan_merge(&vec![]), MergePlan::NoMatch);
    assert_eq!(plan_merge(&vec![7]), MergePlan::Single(7));
    assert_eq!(plan_merge(&vec![7, 7, 7]), MergePlan::Single(7));
    assert_eq!(
        plan_merge(&vec![7, 3, 9, 3, 7, -2]),
        MergePlan::Merge { survivor: -2, retiring: vec![7, 3, 9] }
    );
    assert_eq!(
        plan_merge(&vec![i64::MIN, i64::MAX]),
        MergePlan::Merge { survivor: i64::MIN, retiring: vec![i64::MAX] }
    );
    assert!(contains_id(&vec![1, 2, 3], 2));
    assert!(!contains_id(&vec![1, 2, 3], 4));
}

#[test]
fn union_is_a_set_in_order_of_first_occurrence() {
    let candidates = vec![
        Identifier::new("N", "D", "B"),
        Identifier::new("N", "D", "A"),
        Identifier::new("N", "D", "B"),
    ];
    let retired = vec![
        Identifier::new("N", "D", "A"),
        Identifier::new("N", "D", "C"),
        Identifier::new("N", "E", "A"),
        Identifier::new("N", "D", "C"),
    ];
    let union: Vec<(String, String)> = union_identifiers(&candidates, &retired)
        .into_iter()
        .map(|i| (i.domain, i.identifier))
        .collect();
    assert_eq!(
        union,
        vec![
            ("D".to_string(), "B".to_string()),
            ("D".to_string(), "A".to_string()),
            ("D".to_string(), "C".to_string()),
            ("E".to_string(), "A".to_string()),
        ]
    );
    assert!(union_identifiers(&Vec::new(), &Vec::new()).is_empty());
}

#[test]
fn merge_building_blocks() {
    let rows = vec![
        identifier(1, 10, "N", "D", "A"),
        identifier(2, 20, "N", "D", "B"),
        identifier(3, 10, "N", "D", "C"),
        identifier(4, 30, "N", "D", "A"),
    ];
    let (kept, claims) = split_identifiers(&rows, &vec![20, 30]);
    assert_eq!(kept, vec![rows[0].clone(), rows[2].clone()]);
    let claimed: Vec<&str> = claims.iter().map(|c| c.identifier.as_str()).collect();
    assert_eq!(claimed, vec!["B", "A"]);
    assert_eq!(rows[1].to_tuple(), ("N".to_string(), "D".to_string(), "B".to_string()));
    assert!(holds_claim(&kept, 10, &Identifier::new("N", "D", "A")));
    assert!(!holds_claim(&kept, 10, &Identifier::new("N", "D", "B")));
    assert!(!holds_claim(&kept, 11, &Identifier::new("N", "D", "A")));
    let missing = missing_identifiers(&kept, 10, &claims);
    let missing_ids: Vec<&str> = missing.iter().map(|c| c.identifier.as_str()).collect();
    assert_eq!(missing_ids, vec!["B"]);
    let mut table = kept.clone();
    attach_identifiers(&mut table, 10, &missing, 77, at(5));
    assert_eq!(table.len(), 3);
    assert_eq!(table[2].dbid, 77);
    assert_eq!(table[2].instrument_dbid, 10);
    assert_eq!(table[2].id, "B");
    assert_eq!(table[2].source, "");
    assert!(!table[2].authoritative);
    assert_eq!(table[2].created_at, at(5));

    let mut txs = vec![transaction(1, 20), transaction(2, 10)];
    repoint_transactions(&mut txs, &vec![20, 30], 10);
    assert_eq!(txs, vec![transaction(1, 10), transaction(2, 10)]);
    let mut prices = vec![price(1, 30), price(2, 40)];
    repoint_prices(&mut prices, &vec![20, 30], 10);
    assert_eq!(prices, vec![price(1, 10), price(2, 40)]);
    let derivatives = vec![derivative(1, 20, 40), derivative(2, 40, 30), derivative(3, 50, 60)];
    assert_eq!(
        keep_derivatives(&derivatives, &vec![20, 30], 10),
        vec![derivative(2, 40, 10), derivative(3, 50, 60)]
    );
    let instruments = vec![instrument(10, "STK"), instrument(20, "STK"), instrument(40, "OPT")];
    assert_eq!(
        keep_instruments(&instruments, &vec![20, 30]),
        vec![instrument(10, "STK"), instrument(40, "OPT")]
    );
}
