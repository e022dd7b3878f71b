//! What can go wrong in the store and the pipeline.

use vstd::prelude::*;
use vstd::string::*;
use crate::codes::BatchStatus;
use crate::text::{decimal, decimal_nat, decimal_nat_string, decimal_string};

verus! {

/// A failure of a store operation.
#[derive(Debug, PartialEq, Eq)]
pub enum StoreError {
    /// An update named a batch id that no batch has.
    NotFound(i64),
    /// Rows were to be staged for a batch that does not exist.
    ForeignKey(i64),
    /// The lifecycle does not let a batch move from the first status to the
    /// second.
    Transition(BatchStatus, BatchStatus),
    /// The store has run out of row ids, or a count does not fit its column.
    Exhausted,
    /// Staged rows are malformed; the text lists them, one line each.
    Validation(String),
    /// An identifier resolver failed; the text is what it reported.
    Resolver(String),
    /// The store returned the first number of row ids for the second number
    /// of instrument rows.
    IdCount(usize, usize),
}

impl StoreError {
    /// The text that describes the failure to a person.
    pub open spec fn spec_message(self) -> Seq<char> {
        match self {
            StoreError::NotFound(id) => "Batch with id "@ + decimal(id as int) + " not found"@,
            StoreError::ForeignKey(id) => "Batch with id "@ + decimal(id as int)
                + " does not exist"@,
            StoreError::Transition(from, to) => "Batch cannot move from "@ + from.spec_name()
                + " to "@ + to.spec_name(),
            StoreError::Exhausted => "Store has no room left"@,
            StoreError::Validation(report) => report@,
            StoreError::Resolver(reason) => reason@,
            StoreError::IdCount(returned, expected) => "Failed to insert instruments: incorrect number ids returned: "@
                + decimal_nat(returned as nat) + ": expected: "@ + decimal_nat(expected as nat),
        }
    }

    /// Renders the failure as text.
    pub fn message(&self) -> (s: String)
        ensures
            s@ == self.spec_message(),
    {
        match self {
            StoreError::NotFound(id) => {
                let mut s: String = String::from_str("Batch with id ");
                let digits: String = decimal_string(*id);
                s.append(digits.as_str());
                s.append(" not found");
                s
            },
            StoreError::ForeignKey(id) => {
                let mut s: String = String::from_str("Batch with id ");
                let digits: String = decimal_string(*id);
                s.append(digits.as_str());
                s.append(" does not exist");
                s
            },
            StoreError::Transition(from, to) => {
                let mut s: String = String::from_str("Batch cannot move from ");
                s.append(from.name());
                s.append(" to ");
                s.append(to.name());
                s
            },
            StoreError::Exhausted => String::from_str("Store has no room left"),
            StoreError::Validation(report) => report.clone(),
            StoreError::Resolver(reason) => reason.clone(),
            StoreError::IdCount(returned, expected) => {
                let mut s: String = String::from_str(
                    "Failed to insert instruments: incorrect number ids returned: ",
                );
                let first: String = decimal_nat_string(*returned as u64);
                s.append(first.as_str());
                s.append(": expected: ");
                let second: String = decimal_nat_string(*expected as u64);
                s.append(second.as_str());
                s
            },
        }
    }
}

/// The class of a failure as the remote caller sees it.
#[derive(Clone, Copy, Debug, PartialEq, Eq, Structural)]
pub enum StatusCode {
    Internal,
    Unauthenticated,
    InvalidArgument,
    PermissionDenied,
}

/// A failure as the remote caller sees it: a class and a text.
#[derive(Debug, PartialEq, Eq)]
pub struct Status {
    pub code: StatusCode,
    pub message: String,
}

/// Turns failures into what the remote caller sees.
pub struct Errors;

impl Errors {
    /// An internal failure with the given text.
    pub fn internal(message: String) -> (s: Status)
        ensures
            s.code == StatusCode::Internal,
            s.message == message,
    {
        Status { code: StatusCode::Internal, message }
    }

    /// A failure to authenticate with the given text.
    pub fn unauthenticated(message: String) -> (s: Status)
        ensures
            s.code == StatusCode::Unauthenticated,
            s.message == message,
    {
        Status { code: StatusCode::Unauthenticated, message }
    }

    /// A malformed request with the given text.
    pub fn invalid_argument(message: String) -> (s: Status)
        ensures
            s.code == StatusCode::InvalidArgument,
            s.message == message,
    {
        Status { code: StatusCode::InvalidArgument, message }
    }

    /// A refusal with the given text.
    pub fn permission_denied(message: String) -> (s: Status)
        ensures
            s.code == StatusCode::PermissionDenied,
            s.message == message,
    {
        Status { code: StatusCode::PermissionDenied, message }
    }
}

} // verus!
