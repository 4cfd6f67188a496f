//! Verified core of a libsql bridge: a connection registry that owns live
//! database and connection handles, a loss-free boundary value codec, and
//! the statement-execution logic that converts parameters and shapes query
//! results. The asynchronous backend calls themselves are driven by the
//! unverified host around this library; every decision about them is made
//! here, under contract.

use vstd::prelude::*;

mod backend;
mod codec;
mod error;
mod executor;
mod models;
mod registry;

pub use backend::open_session;
pub use codec::boundary_to_native;
pub use codec::lemma_boundary_round_trip;
pub use codec::lemma_native_round_trip;
pub use codec::native_to_boundary;
pub use error::BridgeError;
pub use executor::build_execute_result;
pub use executor::build_query_result;
pub use executor::convert_params;
pub use executor::prepare_params;
pub use executor::prepare_statement;
pub use executor::spec_columns;
pub use executor::spec_row;
pub use executor::RawRow;
pub use models::CloseOptions;
pub use models::ConnectOptions;
pub use models::ConnectionId;
pub use models::ExecuteOptions;
pub use models::ExecuteResult;
pub use models::NativeValue;
pub use models::PingRequest;
pub use models::PingResponse;
pub use models::QueryOptions;
pub use models::QueryResult;
pub use models::spec_topology;
pub use models::SyncOptions;
pub use models::Topology;
pub use models::Value;
pub use registry::lemma_close_idempotent;
pub use registry::lemma_distinct_ids_independent;
pub use registry::lemma_remove_absent;
pub use registry::Entry;
pub use registry::Registry;

verus! {

/// Answers a ping by echoing the optional payload value back unchanged.
pub fn ping(payload: PingRequest) -> (r: PingResponse)
    ensures
        r.value == payload.value,
{
    PingResponse { value: payload.value }
}

} // verus!
