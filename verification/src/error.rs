//! The unified error taxonomy: handle-lookup failures, storage-open
//! failures, parameter-conversion failures, backend execution failures and
//! replication failures, each carrying its human-readable detail.

use vstd::prelude::*;

verus! {

/// Every failure an operation of this library can report.
#[derive(Debug, Clone, PartialEq)]
pub enum BridgeError {
    /// The referenced connection identifier is absent from the registry.
    HandleNotFound(String),
    /// Opening the underlying storage target failed.
    StorageOpenError(String),
    /// A parameter at the given zero-based position could not be converted
    /// to its native form; the statement was never run.
    InvalidParameter(usize, String),
    /// The backend rejected the statement; its message is carried verbatim.
    ExecutionFailed(String),
    /// A replication pass against the remote origin failed.
    SyncFailed(String),
}

impl BridgeError {
    /// The human-readable message of this error.
    pub open spec fn spec_message(self) -> Seq<char> {
        match self {
            BridgeError::HandleNotFound(id) => "connection handle not found: "@ + id@,
            BridgeError::StorageOpenError(detail) => "failed to open the storage target: "@ + detail@,
            BridgeError::InvalidParameter(_, reason) => "invalid parameter: "@ + reason@,
            BridgeError::ExecutionFailed(detail) => "statement execution failed: "@ + detail@,
            BridgeError::SyncFailed(detail) => "replication sync failed: "@ + detail@,
        }
    }

    /// Renders this error as its human-readable message.
    pub fn message(&self) -> (r: String)
        ensures
            r@ == self.spec_message(),
    {
        match self {
            BridgeError::HandleNotFound(id) => {
                String::from_str("connection handle not found: ").concat(id.as_str())
            },
            BridgeError::StorageOpenError(detail) => {
                String::from_str("failed to open the storage target: ").concat(detail.as_str())
            },
            BridgeError::InvalidParameter(_, reason) => {
                String::from_str("invalid parameter: ").concat(reason.as_str())
            },
            BridgeError::ExecutionFailed(detail) => {
                String::from_str("statement execution failed: ").concat(detail.as_str())
            },
            BridgeError::SyncFailed(detail) => {
                String::from_str("replication sync failed: ").concat(detail.as_str())
            },
        }
    }
}

} // verus!
