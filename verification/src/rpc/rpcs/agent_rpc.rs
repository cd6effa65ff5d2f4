//! The agent service's JSON-RPC methods.

use super::RpcMethod;
use crate::rpc::router::RpcRouter;
use vstd::prelude::*;

verus! {

/// The agent methods.
pub open spec fn agent_routes() -> Map<Seq<char>, RpcMethod> {
    map![
        "create_agent"@ => RpcMethod::CreateAgent,
        "get_agent"@ => RpcMethod::GetAgent,
        "list_agents"@ => RpcMethod::ListAgents,
        "update_agent"@ => RpcMethod::UpdateAgent,
        "delete_agent"@ => RpcMethod::DeleteAgent,
    ]
}

/// The router of the agent service.
pub fn rpc_router_builder() -> (r: RpcRouter<RpcMethod>)
    ensures
        r@ == agent_routes(),
{
    let r = RpcRouter::new()
        .add_dyn("create_agent", RpcMethod::CreateAgent)
        .add_dyn("get_agent", RpcMethod::GetAgent)
        .add_dyn("list_agents", RpcMethod::ListAgents)
        .add_dyn("update_agent", RpcMethod::UpdateAgent)
        .add_dyn("delete_agent", RpcMethod::DeleteAgent);
    assert(r@ =~= agent_routes());
    r
}

} // verus!
