use rust_web_app::rpc::router::{Error, RpcRouter};
use rust_web_app::rpc::rpcs::{agent_rpc, all_rpc_router, all_rpc_router_builder, conv_rpc, project_rpc, RpcMethod};
use rust_web_app::rpc::DataRpcResult;

#[test]
fn router_resolves_added_methods() {
	let router = RpcRouter::new().add_dyn("a", 1u32).add_dyn("b", 2u32);
	assert_eq!(router.resolve("a").ok(), Some(&1));
	assert_eq!(router.resolve("b").ok(), Some(&2));
	assert!(matches!(router.resolve("c"), Err(Error::RpcMethodUnknown(ref m)) if m == "c"));
}

#[test]
fn router_add_replaces_same_name() {
	let router = RpcRouter::new().add_dyn("a", 1u32).add_dyn("a", 7u32);
	assert_eq!(router.resolve("a").ok(), Some(&7));
}

#[test]
fn router_extend_prefers_other() {
	let left = RpcRouter::new().add_dyn("a", 1u32).add_dyn("b", 2u32);
	let right = RpcRouter::new().add_dyn("b", 20u32).add_dyn("c", 30u32);
	let router = left.extend(right);
	assert_eq!(router.resolve("a").ok(), Some(&1));
	assert_eq!(router.resolve("b").ok(), Some(&20));
	assert_eq!(router.resolve("c").ok(), Some(&30));
	assert!(router.resolve("d").is_err());
}

#[test]
fn service_tables_hold_their_methods() {
	let project = project_rpc::rpc_router();
	assert_eq!(project.resolve("create_project").ok(), Some(&RpcMethod::CreateProject));
	assert_eq!(project.resolve("list_projects").ok(), Some(&RpcMethod::ListProjects));
	assert_eq!(project.resolve("update_project").ok(), Some(&RpcMethod::UpdateProject));
	assert_eq!(project.resolve("delete_project").ok(), Some(&RpcMethod::DeleteProject));
	let agent = agent_rpc::rpc_router_builder();
	assert_eq!(agent.resolve("get_agent").ok(), Some(&RpcMethod::GetAgent));
	let conv = conv_rpc::rpc_router_builder();
	assert_eq!(conv.resolve("add_conv_msg").ok(), Some(&RpcMethod::AddConvMsg));
}

#[test]
fn all_router_holds_agent_and_conv_methods() {
	for router in [all_rpc_router(), all_rpc_router_builder()] {
		for (name, method) in [
			("create_agent", RpcMethod::CreateAgent),
			("get_agent", RpcMethod::GetAgent),
			("list_agents", RpcMethod::ListAgents),
			("update_agent", RpcMethod::UpdateAgent),
			("delete_agent", RpcMethod::DeleteAgent),
			("create_conv", RpcMethod::CreateConv),
			("get_conv", RpcMethod::GetConv),
			("list_convs", RpcMethod::ListConvs),
			("update_conv", RpcMethod::UpdateConv),
			("delete_conv", RpcMethod::DeleteConv),
			("add_conv_msg", RpcMethod::AddConvMsg),
		] {
			assert_eq!(router.resolve(name).ok(), Some(&method), "{name}");
		}
		assert!(matches!(router.resolve("create_project"), Err(Error::RpcMethodUnknown(_))));
	}
}

#[test]
fn data_rpc_result_wraps_data() {
	let r: DataRpcResult<i64> = DataRpcResult::from(5);
	assert_eq!(r.data, 5);
}
