//! Error kinds of the ledger: local validation and authorization failures.
//!
//! Every failure aborts the enclosing operation atomically: no event is
//! emitted and no field is mutated. A digest mismatch during verification is
//! not an error; it is a successful operation returning `false`.

use vstd::prelude::*;

verus! {

/// Why an operation on the ledger was refused.
#[derive(Clone, Copy, Debug, PartialEq, Eq, Structural)]
pub enum ErrorCode {
    /// The agent identifier is empty or over the length bound.
    InvalidAgentId,
    /// The payload is empty.
    EmptyActionData,
    /// The action code is outside the closed enumeration.
    InvalidActionType,
    /// The timestamp is not strictly positive.
    InvalidTimestamp,
    /// The caller is not the record's authority.
    UnauthorizedMetadataUpdate,
    /// The identifier has no corresponding record.
    RecordNotFound,
}

impl ErrorCode {
    /// A human-readable description of the failure.
    pub fn message(&self) -> (r: String)
        ensures
            r@ == match *self {
                ErrorCode::InvalidAgentId => "Agent ID cannot be empty"@,
                ErrorCode::EmptyActionData => "Action data cannot be empty"@,
                ErrorCode::InvalidActionType => "Invalid action type"@,
                ErrorCode::InvalidTimestamp => "Invalid timestamp"@,
                ErrorCode::UnauthorizedMetadataUpdate => "Only the original authority can update metadata"@,
                ErrorCode::RecordNotFound => "Record not found"@,
            },
    {
        match self {
            ErrorCode::InvalidAgentId => "Agent ID cannot be empty".to_owned(),
            ErrorCode::EmptyActionData => "Action data cannot be empty".to_owned(),
            ErrorCode::InvalidActionType => "Invalid action type".to_owned(),
            ErrorCode::InvalidTimestamp => "Invalid timestamp".to_owned(),
            ErrorCode::UnauthorizedMetadataUpdate => "Only the original authority can update metadata".to_owned(),
            ErrorCode::RecordNotFound => "Record not found".to_owned(),
        }
    }
}

} // verus!
