//! Data shapes crossing the caller boundary: request options, result
//! structures, and the tagged value model used for SQL parameters and
//! result cells.

use vstd::prelude::*;

verus! {

/// Payload of a `ping` request: an optional value to echo back.
#[derive(Debug)]
pub struct PingRequest {
    pub value: Option<String>,
}

/// Response of a `ping` request: the echoed value.
#[derive(Debug, Clone)]
pub struct PingResponse {
    pub value: Option<String>,
}

/// How a connection should be opened: a local file path, optionally a
/// remote origin to sync against, and the credential for that origin.
#[derive(Debug)]
pub struct ConnectOptions {
    pub local_path: String,
    pub url: Option<String>,
    pub auth_token: Option<String>,
}

/// The opaque identifier handed to callers for one registered connection.
#[derive(Debug, Clone, PartialEq, Eq)]
pub struct ConnectionId(pub String);

/// Request to run a mutating statement on a registered connection.
#[derive(Debug)]
pub struct ExecuteOptions {
    pub connection_id: String,
    pub sql: String,
    pub params: Option<Vec<Value>>,
}

/// Request to run a projecting statement on a registered connection.
#[derive(Debug)]
pub struct QueryOptions {
    pub connection_id: String,
    pub sql: String,
    pub params: Option<Vec<Value>>,
}

/// Request to synchronize a replica connection with its remote origin.
#[derive(Debug, Clone)]
pub struct SyncOptions {
    pub connection_id: String,
}

/// Request to close a registered connection.
#[derive(Debug, Clone)]
pub struct CloseOptions {
    pub connection_id: String,
}

/// Result of a projecting statement: column names as observed on the first
/// row (empty when no row was produced) and the rows in backend order.
#[derive(Debug, Clone, PartialEq)]
pub struct QueryResult {
    pub columns: Vec<String>,
    pub rows: Vec<Vec<Value>>,
}

/// Result of a mutating statement: the number of rows affected and, when
/// the backend reports one, the identifier of the last inserted row.
#[derive(Debug, Clone, PartialEq, Eq)]
pub struct ExecuteResult {
    pub rows_affected: u64,
    pub last_insert_rowid: Option<i64>,
}

/// The tagged value crossing the boundary for parameters and result cells.
///
/// A real number is carried as the 64 bits of its IEEE 754 representation,
/// so the round trip through the native domain is lossless bit for bit.
#[derive(Debug, Clone, PartialEq)]
pub enum Value {
    Null,
    Integer(i64),
    Real(u64),
    Text(String),
    Blob(Vec<u8>),
}

/// The library's model of the native database value domain: the same five
/// kinds the backend distinguishes, with a real number again carried as its
/// IEEE 754 bit pattern.
#[derive(Debug, Clone, PartialEq)]
pub enum NativeValue {
    Null,
    Integer(i64),
    Real(u64),
    Text(String),
    Blob(Vec<u8>),
}

/// The storage topology a `connect` request asks for.
///
/// A `url` without an `auth_token` deliberately falls back to a pure local
/// database, ignoring the url; rejecting such a request instead would be a
/// compatible alternative, but the fallback is the documented behaviour here.
#[derive(Debug, Clone, PartialEq, Eq)]
pub enum Topology {
    Local { path: String },
    Replica { path: String, url: String, auth_token: String },
}

impl Topology {
    /// Whether this topology syncs a local replica against a remote origin.
    pub open spec fn spec_is_replica(self) -> bool {
        self matches Topology::Replica { .. }
    }

    /// Executable twin of [`Self::spec_is_replica`].
    pub fn is_replica(&self) -> (r: bool)
        ensures
            r == self.spec_is_replica(),
    {
        match self {
            Topology::Replica { .. } => true,
            Topology::Local { .. } => false,
        }
    }
}

/// The topology a set of connect options denotes: a remote origin together
/// with a credential makes a replica; anything else is a pure local file.
pub open spec fn spec_topology(o: ConnectOptions) -> Topology {
    match o.url {
        Some(url) => match o.auth_token {
            Some(auth_token) => Topology::Replica { path: o.local_path, url, auth_token },
            None => Topology::Local { path: o.local_path },
        },
        None => Topology::Local { path: o.local_path },
    }
}

impl ConnectOptions {
    /// Resolves these options into the topology to open, consuming them.
    pub fn topology(self) -> (r: Topology)
        ensures
            r == spec_topology(self),
    {
        match self.url {
            Some(url) => match self.auth_token {
                Some(auth_token) => Topology::Replica {
                    path: self.local_path,
                    url,
                    auth_token,
                },
                None => Topology::Local { path: self.local_path },
            },
            None => Topology::Local { path: self.local_path },
        }
    }
}

} // verus!
