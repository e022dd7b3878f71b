//! Ingestion and reconciliation core of a portfolio-data service.
//!
//! Brokers submit batches of raw transactions and instrument descriptions.
//! The library stages them, validates the staged transactions, hands
//! unresolved identifiers to a resolver, and merges canonical instruments
//! that turn out to share identifiers.
//!
//! The [`store::DataStore`] holds all tables in memory and is the model that
//! every contract speaks of. The modules [`plan`], [`matching`] and [`merge`]
//! hold the decisions as functions on plain rows, so that a store on a
//! database can make the same decisions. [`executor`] decides which
//! transaction scope an operation may open and close.
//!
//! Time is an argument: every operation that stamps a row takes the current
//! instant from its caller.

pub mod amount;
pub mod auth;
pub mod batch;
pub mod codes;
pub mod errors;
pub mod executor;
pub mod identifier;
pub mod ingest;
pub mod matching;
pub mod merge;
pub mod merge_laws;
pub mod models;
pub mod period;
pub mod plan;
pub mod records;
pub mod resolver;
pub mod service;
pub mod staging;
pub mod store;
pub mod text;
pub mod timestamp;
pub mod validate;
