//! The project service's JSON-RPC methods.

use super::RpcMethod;
use crate::rpc::router::RpcRouter;
use vstd::prelude::*;

verus! {

/// The project methods.
pub open spec fn project_routes() -> Map<Seq<char>, RpcMethod> {
    map![
        "create_project"@ => RpcMethod::CreateProject,
        "list_projects"@ => RpcMethod::ListProjects,
        "update_project"@ => RpcMethod::UpdateProject,
        "delete_project"@ => RpcMethod::DeleteProject,
    ]
}

/// The router of the project service.
pub fn rpc_router() -> (r: RpcRouter<RpcMethod>)
    ensures
        r@ == project_routes(),
{
    let r = RpcRouter::new()
        .add_dyn("create_project", RpcMethod::CreateProject)
        .add_dyn("list_projects", RpcMethod::ListProjects)
        .add_dyn("update_project", RpcMethod::UpdateProject)
        .add_dyn("delete_project", RpcMethod::DeleteProject);
    assert(r@ =~= project_routes());
    r
}

} // verus!
