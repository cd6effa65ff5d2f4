//! The demonstration login: a fixed account and a fixed token.

use crate::text::str_eq;
use vstd::prelude::*;

verus! {

/// The name of the authentication cookie.
pub const AUTH_TOKEN: &'static str = "auth-token";

/// The token the demonstration login hands out.
pub const DEMO_TOKEN: &'static str = "user-1.exp.sign";

/// Whether the demonstration login accepts the credentials: only user
/// `demo1` with password `welcome`.
pub fn login_accepted(username: &str, pwd: &str) -> (r: bool)
    ensures
        r == (username@ == "demo1"@ && pwd@ == "welcome"@),
{
    str_eq(username, "demo1") && str_eq(pwd, "welcome")
}

} // verus!
