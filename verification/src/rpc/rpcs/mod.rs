//! The method tables of the application's JSON-RPC services.
//!
//! Each table maps the JSON-RPC method names of a service to the
//! `RpcMethod` that serves them; the program binds each `RpcMethod` to its
//! handler.

pub mod agent_rpc;
pub mod conv_rpc;
pub mod project_rpc;

use super::router::RpcRouter;
use vstd::prelude::*;

verus! {

/// The JSON-RPC methods of the application.
#[derive(Clone, Copy, Debug, PartialEq, Eq, Structural)]
pub enum RpcMethod {
    CreateProject,
    ListProjects,
    UpdateProject,
    DeleteProject,
    CreateAgent,
    GetAgent,
    ListAgents,
    UpdateAgent,
    DeleteAgent,
    CreateConv,
    GetConv,
    ListConvs,
    UpdateConv,
    DeleteConv,
    AddConvMsg,
}

/// The agent and conversation services in one router.
pub fn all_rpc_router_builder() -> (r: RpcRouter<RpcMethod>)
    ensures
        r@ == agent_rpc::agent_routes().union_prefer_right(conv_rpc::conv_routes()),
{
    RpcRouter::new().extend(agent_rpc::rpc_router_builder()).extend(conv_rpc::rpc_router_builder())
}

/// The agent and conversation services in one router.
pub fn all_rpc_router() -> (r: RpcRouter<RpcMethod>)
    ensures
        r@ == agent_rpc::agent_routes().union_prefer_right(conv_rpc::conv_routes()),
{
    RpcRouter::new().extend(agent_rpc::rpc_router_builder()).extend(conv_rpc::rpc_router_builder())
}

} // verus!
