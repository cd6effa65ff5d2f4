//! JSON-RPC routing: the routing table and the method tables of the
//! application's services.

pub mod router;
pub mod rpcs;

use crate::model;
use vstd::prelude::*;

verus! {

/// Errors that the JSON-RPC handlers return.
#[derive(Debug)]
pub enum Error {
    Model(model::Error),
    /// A JSON (de)serialisation failure, by its message.
    SerdeJson(String),
}

impl From<model::Error> for Error {
    fn from(val: model::Error) -> (r: Self) {
        Error::Model(val)
    }
}

impl vstd::std_specs::convert::FromSpecImpl<model::Error> for Error {
    open spec fn obeys_from_spec() -> bool {
        true
    }

    open spec fn from_spec(val: model::Error) -> Self {
        Error::Model(val)
    }
}

/// The `.result` of a JSON-RPC response: the requested data under `data`.
#[derive(Debug)]
pub struct DataRpcResult<T> {
    pub data: T,
}

impl<T> From<T> for DataRpcResult<T> {
    fn from(val: T) -> (r: Self) {
        DataRpcResult { data: val }
    }
}

impl<T> vstd::std_specs::convert::FromSpecImpl<T> for DataRpcResult<T> {
    open spec fn obeys_from_spec() -> bool {
        true
    }

    open spec fn from_spec(val: T) -> Self {
        DataRpcResult { data: val }
    }
}

} // verus!
