//! Errors of the model layer.

use crate::pwd;
use vstd::prelude::*;

verus! {

/// Why a model operation failed.
#[derive(Debug)]
pub enum Error {
    /// No row of `entity` has the id.
    EntityNotFound { entity: &'static str, id: i64 },
    /// The list limit asked for is over the maximum.
    ListLimitOverMax { max: i64, actual: i64 },
    /// Counting the rows failed.
    CountFail,
    // -- Modules
    Pwd(pwd::Error),
    Store(String),
    // -- Externals, by their message
    SeaQuery(String),
    Sqlx(String),
}

impl From<pwd::Error> for Error {
    fn from(val: pwd::Error) -> (r: Self) {
        Error::Pwd(val)
    }
}

impl vstd::std_specs::convert::FromSpecImpl<pwd::Error> for Error {
    open spec fn obeys_from_spec() -> bool {
        true
    }

    open spec fn from_spec(val: pwd::Error) -> Self {
        Error::Pwd(val)
    }
}

} // verus!
