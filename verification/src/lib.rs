//! Verified core of a web application: multi-scheme password hashing,
//! request-path parsing, JSON-RPC routing tables, list-option rules and
//! error-to-client mapping.

pub mod b64;
pub mod ctx;
pub mod model;
pub mod pwd;
pub mod rpc;
pub mod text;
pub mod token;
pub mod utc;
pub mod uuid;
pub mod web;

use vstd::prelude::*;

verus! {

/// Generic newtype wrapper, mostly used for conversions between
/// types that are foreign to this crate.
pub struct W<T>(pub T);

} // verus!
