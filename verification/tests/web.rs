use rust_web_app::ctx::Ctx;
use rust_web_app::model;
use rust_web_app::rpc;
use rust_web_app::web::error::{ClientError, Error, RpcRouterError};
use rust_web_app::web::mw_auth::{ctx_for_path, extract_org_id, should_remove_token_cookie, CtxExtError, CtxW};
use rust_web_app::web::routes_login::login_accepted;

#[test]
fn org_id_from_paths() {
	assert!(matches!(extract_org_id("/api/orgs/12/rpc"), Ok(None)));
	assert!(matches!(extract_org_id("/api/rpc"), Ok(None)));
	assert!(matches!(extract_org_id("/api/rpc/whatever"), Ok(None)));
	assert!(matches!(extract_org_id("/api/org/123/rpc"), Ok(Some(123))));
	assert!(matches!(extract_org_id("/api/org/007/rpc"), Ok(Some(7))));
	assert!(matches!(extract_org_id("/api/org/9223372036854775807/rpc"), Ok(Some(i64::MAX))));
}

#[test]
fn org_id_invalid_paths() {
	for path in [
		"/api/org/9223372036854775808/rpc",
		"/api/org//rpc",
		"/api/org/12/rpcx",
		"/api/org/1a/rpc",
		"/api/org/-1/rpc",
		"/api/org/\u{0661}\u{0662}/rpc",
		"/login",
		"",
	] {
		match extract_org_id(path) {
			Err(CtxExtError::OrgIdInvalid { path: p }) => assert_eq!(p, path),
			other => panic!("{path}: {other:?}"),
		}
	}
}

#[test]
fn token_cookie_removed_on_failures_but_missing_token() {
	let ctx = Ctx::new(1, None).unwrap();
	assert!(!should_remove_token_cookie(&Ok(CtxW(ctx))));
	assert!(!should_remove_token_cookie(&Err(CtxExtError::TokenNotInCookie)));
	assert!(should_remove_token_cookie(&Err(CtxExtError::FailValidate)));
	assert!(should_remove_token_cookie(&Err(CtxExtError::TokenWrongFormat)));
}

#[test]
fn ctx_new_refuses_root() {
	assert!(Ctx::new(0, None).is_err());
	let ctx = Ctx::new(5, Some(9)).unwrap();
	assert_eq!(ctx.user_id(), 5);
	assert_eq!(ctx.org_id(), Some(9));
	assert_eq!(Ctx::root_ctx().user_id(), 0);
}

#[test]
fn client_errors_for_login_and_auth() {
	assert!(matches!(Error::LoginFailUsernameNotFound.client_status_and_error(), (403, ClientError::LOGIN_FAIL)));
	assert!(matches!(Error::LoginFailUserHasNoPwd { user_id: 1 }.client_status_and_error(), (403, ClientError::LOGIN_FAIL)));
	assert!(matches!(Error::LoginFailPwdNotMatching { user_id: 1 }.client_status_and_error(), (403, ClientError::LOGIN_FAIL)));
	assert!(matches!(Error::CtxExt(CtxExtError::UserNotFound).client_status_and_error(), (403, ClientError::NO_AUTH)));
}

#[test]
fn client_errors_for_model_and_rpc() {
	let e = Error::Model(model::Error::EntityNotFound { entity: "task", id: 100 });
	assert!(matches!(e.client_status_and_error(), (400, ClientError::ENTITY_NOT_FOUND { entity: "task", id: 100 })));
	let e = Error::RpcRequestParsing("bad".to_string());
	assert!(matches!(e.client_status_and_error(), (400, ClientError::RPC_REQUEST_INVALID(ref s)) if s == "bad"));
	let e = Error::RpcRouter { id: "1".to_string(), method: "m".to_string(), error: RpcRouterError::MethodUnknown };
	assert!(matches!(e.client_status_and_error(), (400, ClientError::RPC_REQUEST_METHOD_UNKNOWN(ref s)) if s == "rpc method 'm' unknown"));
	let e = Error::RpcRouter { id: "1".to_string(), method: "m".to_string(), error: RpcRouterError::ParamsParsing("p".to_string()) };
	assert!(matches!(e.client_status_and_error(), (400, ClientError::RPC_PARAMS_INVALID(ref s)) if s == "p"));
	let e = Error::RpcRouter { id: "1".to_string(), method: "m".to_string(), error: RpcRouterError::ParamsMissingButRequested };
	assert!(matches!(e.client_status_and_error(), (400, ClientError::RPC_PARAMS_INVALID(ref s)) if s == "Params missing. Method 'm' requires params"));
}

#[test]
fn client_errors_fall_back_to_service_error() {
	for e in [
		Error::ReqStampNotInReqExt,
		Error::Model(model::Error::CountFail),
		Error::Rpc(rpc::Error::Model(model::Error::EntityNotFound { entity: "task", id: 1 })),
		Error::RpcHandlerErrorUnhandled("x".to_string()),
		Error::RpcRouter { id: "1".to_string(), method: "m".to_string(), error: RpcRouterError::Other("o".to_string()) },
		Error::SerdeJson("s".to_string()),
		Error::Token("t".to_string()),
	] {
		assert!(matches!(e.client_status_and_error(), (500, ClientError::SERVICE_ERROR)));
	}
}

#[test]
fn demo_login_only_for_demo_account() {
	assert!(login_accepted("demo1", "welcome"));
	assert!(!login_accepted("demo1", "welcome2"));
	assert!(!login_accepted("demo2", "welcome"));
}

#[test]
fn ctx_for_path_outcomes() {
	let ctx = ctx_for_path(7, "/api/org/42/rpc").unwrap().0;
	assert_eq!(ctx.user_id(), 7);
	assert_eq!(ctx.org_id(), Some(42));

	let ctx = ctx_for_path(7, "/api/rpc").unwrap().0;
	assert_eq!(ctx.org_id(), None);

	match ctx_for_path(0, "/api/rpc") {
		Err(CtxExtError::CtxCreateFail(m)) => assert_eq!(m, "CtxCannotNewRootCtx"),
		other => panic!("unexpected {other:?}"),
	}
	match ctx_for_path(0, "/elsewhere") {
		Err(CtxExtError::OrgIdInvalid { path }) => assert_eq!(path, "/elsewhere"),
		other => panic!("unexpected {other:?}"),
	}
}

