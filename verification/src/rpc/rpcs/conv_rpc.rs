//! The conversation service's JSON-RPC methods.

use super::RpcMethod;
use crate::rpc::router::RpcRouter;
use vstd::prelude::*;

verus! {

/// The conversation methods.
pub open spec fn conv_routes() -> Map<Seq<char>, RpcMethod> {
    map![
        "create_conv"@ => RpcMethod::CreateConv,
        "get_conv"@ => RpcMethod::GetConv,
        "list_convs"@ => RpcMethod::ListConvs,
        "update_conv"@ => RpcMethod::UpdateConv,
        "delete_conv"@ => RpcMethod::DeleteConv,
        "add_conv_msg"@ => RpcMethod::AddConvMsg,
    ]
}

/// The router of the conversation service.
pub fn rpc_router_builder() -> (r: RpcRouter<RpcMethod>)
    ensures
        r@ == conv_routes(),
{
    let r = RpcRouter::new()
        .add_dyn("create_conv", RpcMethod::CreateConv)
        .add_dyn("get_conv", RpcMethod::GetConv)
        .add_dyn("list_convs", RpcMethod::ListConvs)
        .add_dyn("update_conv", RpcMethod::UpdateConv)
        .add_dyn("delete_conv", RpcMethod::DeleteConv)
        .add_dyn("add_conv_msg", RpcMethod::AddConvMsg);
    assert(r@ =~= conv_routes());
    r
}

} // verus!
