//! Errors of password hashing and validation.

use crate::pwd::scheme;
use vstd::prelude::*;

verus! {

/// Why a password could not be hashed or validated.
#[derive(Debug)]
pub enum Error {
    /// The key could not initialise the keyed hash.
    KeyFailHmac,
    /// The named scheme failed.
    Scheme { scheme_name: String, scheme_error: scheme::Error },
    /// The password does not match.
    NotMatching,
    /// No scheme carries the name.
    SchemeUnknown(String),
    /// The stored password does not start with `#<scheme>#`.
    SchemeNotInContent,
}

} // verus!
