//! The trusted seam to the storage backend: declarations of the opaque
//! handle types the registry owns, the identifier mint, and the one
//! synchronous backend call the library makes itself. The asynchronous
//! calls (opening a database, running a statement, a replication pass) are
//! driven by the unverified host; the registry only stores their handles.

use vstd::prelude::*;

verus! {

/// Declares libsql's connection handle: a live session over one opened
/// database, able to run SQL. Opaque to verification; registry entries
/// hold one and hand it out for the host to drive.
#[verifier::external_type_specification]
#[verifier::external_body]
pub struct ExConnection(libsql::Connection);

/// Declares libsql's database handle: the owning resource for one opened
/// storage target, from which connection handles are derived.
#[verifier::external_type_specification]
#[verifier::external_body]
pub struct ExDatabase(libsql::Database);

/// Declares libsql's error type, so a backend failure can be carried to
/// the verified code that maps it into this library's own taxonomy.
#[verifier::external_type_specification]
#[verifier::external_body]
pub struct ExBackendError(libsql::Error);

/// Relies on uuid::Uuid::new_v4 and its Display form: mints an identifier
/// from fresh randomness. The result is random, so nothing is promised of
/// it; the registry itself checks it against the identifiers in use.
#[verifier::external_body]
pub(crate) fn mint_identifier() -> String {
    uuid::Uuid::new_v4().to_string()
}

/// Relies on libsql::Database::connect: derives a connection handle over
/// the given database, or reports the backend's error. Which of the two
/// happens depends on backend state, so only the shape of the result is
/// stated, and callers promise nothing about the successful case either.
#[verifier::external_body]
pub(crate) fn derive_connection(db: &libsql::Database) -> Result<libsql::Connection, libsql::Error> {
    db.connect()
}

/// Relies on the Display form of libsql::Error: renders the backend error
/// as its human-readable message.
#[verifier::external_body]
pub(crate) fn backend_error_message(e: &libsql::Error) -> String {
    format!("{}", e)
}

/// Derives a connection handle over the given database handle, reporting a
/// failure as a storage-open error of this library's taxonomy.
pub fn open_session(db: &libsql::Database) -> (r: Result<
    libsql::Connection,
    crate::error::BridgeError,
>)
    ensures
        r matches Err(e) ==> e matches crate::error::BridgeError::StorageOpenError(_),
{
    match derive_connection(db) {
        Ok(conn) => Ok(conn),
        Err(e) => Err(crate::error::BridgeError::StorageOpenError(backend_error_message(&e))),
    }
}

} // verus!
