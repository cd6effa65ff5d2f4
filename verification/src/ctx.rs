//! The request context: who acts, and in which organisation.

use vstd::prelude::*;

verus! {

/// Errors of context creation.
#[derive(Debug, Clone)]
pub enum Error {
    /// `Ctx::new` was asked for the root user (id 0).
    CtxCannotNewRootCtx,
}

impl Error {
    /// The name of the error, as its debug form prints it.
    pub fn as_str(&self) -> (s: &'static str)
        ensures
            s@ == "CtxCannotNewRootCtx"@,
    {
        match self {
            Error::CtxCannotNewRootCtx => "CtxCannotNewRootCtx",
        }
    }
}

/// The context of a request: the acting user and, when the route names
/// one, the organisation.
#[derive(Debug, Clone)]
pub struct Ctx {
    user_id: i64,
    org_id: Option<i64>,
}

impl Ctx {
    /// The acting user.
    pub closed spec fn spec_user_id(self) -> i64 {
        self.user_id
    }

    /// The organisation of the request, if any.
    pub closed spec fn spec_org_id(self) -> Option<i64> {
        self.org_id
    }

    /// The context of the system itself: user 0, no organisation.
    pub fn root_ctx() -> (c: Ctx)
        ensures
            c.spec_user_id() == 0,
            c.spec_org_id() is None,
    {
        Ctx { user_id: 0, org_id: None }
    }

    /// The context of user `user_id`; the root user (0) cannot be created
    /// this way.
    pub fn new(user_id: i64, org_id: Option<i64>) -> (r: Result<Ctx, Error>)
        ensures
            user_id == 0 ==> r matches Err(Error::CtxCannotNewRootCtx),
            user_id != 0 ==> (r matches Ok(c) && c.spec_user_id() == user_id && c.spec_org_id()
                == org_id),
    {
        if user_id == 0 {
            Err(Error::CtxCannotNewRootCtx)
        } else {
            Ok(Ctx { user_id, org_id })
        }
    }

    /// The acting user.
    pub fn user_id(&self) -> (r: i64)
        ensures
            r == self.spec_user_id(),
    {
        self.user_id
    }

    /// The organisation of the request, if any.
    pub fn org_id(&self) -> (r: Option<i64>)
        ensures
            r == self.spec_org_id(),
    {
        self.org_id
    }
}

} // verus!
