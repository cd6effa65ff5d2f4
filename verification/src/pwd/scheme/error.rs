//! Errors raised by individual password schemes.

use vstd::prelude::*;

verus! {

/// Why a scheme could not hash or validate a password.
#[derive(Debug)]
pub enum Error {
    /// The key could not initialise the keyed hash.
    Key,
    /// The salt could not be encoded for the hasher.
    Salt,
    /// Hashing failed, or the reference hash could not be read.
    Hash,
    /// The password does not match the reference hash.
    PwdValidate,
    /// No scheme carries the given name.
    SchemeNotFound(String),
}

} // verus!
