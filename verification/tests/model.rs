use rust_web_app::ctx::Ctx;
use rust_web_app::model::base::{
	affected_result, compute_list_options, delete_many_without_query, order_by_from_str, delete_many_result, first_list_options, first_of, get_result,
	prep_fields_for_create, prep_fields_for_update, CommonIden, ListOptions, OrderBy, TimestampIden,
	LIST_LIMIT_DEFAULT,
};
use rust_web_app::model::agent::{AgentBmc, AgentFilter, AgentForCreate, AgentForUpdate};
use rust_web_app::model::filter::{filter_condition, FilterOp, SqlPart};
use rust_web_app::model::statement::{
	count_statement, delete_many_statement, delete_statement, get_statement, insert_many_statement, insert_statement,
	list_statement, update_statement,
};
use rust_web_app::model::user::UserBmc;
use rust_web_app::model::base::DbBmc;
use rust_web_app::model::conv::{ConvBmc, ConvFilter, ConvForCreate, ConvForUpdate, ConvKind, ConvScoped, ConvState};
use rust_web_app::model::conv_msg::{ConvMsgForCreate, ConvMsgForInsert};
use rust_web_app::model::project::{ProjectBmc, ProjectFilter, ProjectForCreate, ProjectForUpdate};
use rust_web_app::model::task::{TaskBmc, TaskFilter, TaskForCreate, TaskForUpdate};
use rust_web_app::model::{Error, Field, ModelManager, SqlValue, UtcTime};

fn columns(fields: &[Field]) -> Vec<String> {
	fields.iter().map(|f| f.column.clone()).collect()
}

#[test]
fn list_options_default_when_none() {
	let lo = compute_list_options(None).unwrap();
	assert_eq!(lo.limit, Some(LIST_LIMIT_DEFAULT));
	assert_eq!(lo.offset, None);
	assert!(matches!(lo.order_bys.as_deref(), Some([OrderBy::Asc(c)]) if c == "id"));
}

#[test]
fn list_options_limit_rules() {
	let lo = compute_list_options(Some(ListOptions { limit: None, offset: Some(3), order_bys: None })).unwrap();
	assert_eq!(lo.limit, Some(1000));
	assert_eq!(lo.offset, Some(3));
	assert!(lo.order_bys.is_none());
	let lo = compute_list_options(Some(ListOptions { limit: Some(5000), offset: None, order_bys: None })).unwrap();
	assert_eq!(lo.limit, Some(5000));
	let res = compute_list_options(Some(ListOptions { limit: Some(5001), offset: None, order_bys: None }));
	assert!(matches!(res, Err(Error::ListLimitOverMax { max: 5000, actual: 5001 })));
}

#[test]
fn first_list_options_limits_to_one() {
	let lo = first_list_options(Some(ListOptions {
		limit: Some(50),
		offset: Some(10),
		order_bys: Some(vec![OrderBy::Desc("title".to_string())]),
	}));
	assert_eq!(lo.limit, Some(1));
	assert_eq!(lo.offset, None);
	assert!(matches!(lo.order_bys.as_deref(), Some([OrderBy::Desc(c)]) if c == "title"));
	let lo = first_list_options(None);
	assert_eq!(lo.limit, Some(1));
	assert!(matches!(lo.order_bys.as_deref(), Some([OrderBy::Asc(c)]) if c == "id"));
}

#[test]
fn db_results_map_to_errors() {
	assert_eq!(get_result("task", 100, Some(5)).unwrap(), 5);
	assert!(matches!(get_result::<i32>("task", 100, None), Err(Error::EntityNotFound { entity: "task", id: 100 })));
	assert!(affected_result("task", 1, 1).is_ok());
	assert!(matches!(affected_result("task", 100, 0), Err(Error::EntityNotFound { entity: "task", id: 100 })));
	assert_eq!(delete_many_result("task", 3, 3).unwrap(), 3);
	assert!(matches!(delete_many_result("task", 3, 2), Err(Error::EntityNotFound { entity: "task", id: 0 })));
	assert_eq!(first_of(vec![4, 5]), Some(4));
	assert_eq!(first_of::<i32>(vec![]), None);
}

#[test]
fn create_fields_add_owner_and_timestamps() {
	let now = UtcTime { unix_nanos: 42 };
	let mut fields = ConvForCreate { agent_id: 3, title: Some("t".to_string()), kind: Some(ConvKind::MultiUsers) }.not_none_fields();
	prep_fields_for_create::<ConvBmc>(&mut fields, 7, now);
	assert_eq!(columns(&fields), ["agent_id", "title", "kind", "owner_id", "cid", "ctime", "mid", "mtime"]);
	assert!(matches!(fields[2].value, SqlValue::Text(ref k) if k == "MultiUsers"));
	assert_eq!(fields[2].cast_as.as_deref(), Some("conv_kind"));
	assert!(matches!(fields[3].value, SqlValue::BigInt(7)));
	assert!(matches!(fields[5].value, SqlValue::Time(t) if t == now));

	let mut fields = TaskForCreate { title: "x".to_string(), project_id: 2 }.not_none_fields();
	prep_fields_for_create::<TaskBmc>(&mut fields, 7, now);
	assert_eq!(columns(&fields), ["title", "project_id", "cid", "ctime", "mid", "mtime"]);
}

#[test]
fn update_fields_add_modifier() {
	let now = UtcTime { unix_nanos: 1 };
	let mut fields = TaskForUpdate { title: None, done: Some(true) }.not_none_fields();
	prep_fields_for_update::<TaskBmc>(&mut fields, 9, now);
	assert_eq!(columns(&fields), ["done", "mid", "mtime"]);
	let fields = ConvForUpdate { state: Some(ConvState::Archived), ..Default::default() }.not_none_fields();
	assert_eq!(columns(&fields), ["state"]);
	assert_eq!(fields[0].cast_as.as_deref(), Some("conv_state"));
	let fields = ProjectForUpdate { name: Some("n".to_string()), owner_id: None }.not_none_fields();
	assert_eq!(columns(&fields), ["name"]);
}

#[test]
fn project_create_is_owned_by_user() {
	let ctx = Ctx::new(12, None).unwrap();
	let inner = ProjectBmc::create_inner(&ctx, ProjectForCreate { name: "p".to_string() });
	assert_eq!(inner.owner_id, 12);
	assert_eq!(columns(&inner.not_none_fields()), ["name", "owner_id"]);
}

#[test]
fn conv_msg_insert_takes_user() {
	let ctx = Ctx::new(4, None).unwrap();
	let m = ConvBmc::msg_for_insert(&ctx, ConvMsgForCreate { conv_id: 8, content: "hi".to_string() });
	assert_eq!((m.conv_id, m.user_id, m.content.as_str()), (8, 4, "hi"));
	let m2 = ConvMsgForInsert::from_msg_for_create(5, ConvMsgForCreate { conv_id: 1, content: "c".to_string() });
	assert_eq!(m2.user_id, 5);
	assert_eq!(ConvMsgForCreate { conv_id: 3, content: String::new() }.conv_id(), 3);
}

#[test]
fn conv_kind_names() {
	assert_eq!(ConvKind::OwnerOnly.as_str(), "OwnerOnly");
	assert_eq!(ConvKind::MultiUsers.as_str(), "MultiUsers");
	assert_eq!(ConvKind::null(), ConvKind::OwnerOnly);
	assert_eq!(ConvState::Active.as_str(), "Active");
}

#[test]
fn idens_name_columns() {
	assert_eq!(CommonIden::Id.column(), "id");
	assert_eq!(CommonIden::OwnerId.column(), "owner_id");
	assert_eq!(TimestampIden::Mtime.column(), "mtime");
	assert!(ModelManager::new().is_ok());
}

#[test]
fn order_by_terms() {
	assert!(matches!(order_by_from_str("name"), OrderBy::Asc(c) if c == "name"));
	assert!(matches!(order_by_from_str("!name"), OrderBy::Desc(c) if c == "name"));
	assert!(matches!(order_by_from_str("!"), OrderBy::Desc(c) if c.is_empty()));
	assert!(matches!(order_by_from_str(""), OrderBy::Asc(c) if c.is_empty()));
	assert!(matches!(order_by_from_str("a!b"), OrderBy::Asc(c) if c == "a!b"));
}

#[test]
fn agent_fields_and_table() {
	let fs = AgentForCreate { name: "bot".to_string() }.not_none_fields();
	assert_eq!(columns(&fs), vec!["name"]);
	assert!(matches!(&fs[0].value, SqlValue::Text(t) if t == "bot"));
	assert!(AgentForUpdate { name: None }.not_none_fields().is_empty());
	assert_eq!(columns(&AgentForUpdate { name: Some("b".to_string()) }.not_none_fields()), vec!["name"]);
	assert_eq!(AgentBmc::table(), "agent");
	assert!(AgentBmc::has_owner_id());
	assert!(AgentBmc::has_timestamps());

	let ctx = Ctx::new(5, None).unwrap();
	let mut fs = AgentForCreate { name: "bot".to_string() }.not_none_fields();
	prep_fields_for_create::<AgentBmc>(&mut fs, ctx.user_id(), UtcTime { unix_nanos: 1 });
	assert_eq!(columns(&fs), vec!["name", "owner_id", "cid", "ctime", "mid", "mtime"]);
}

#[test]
fn delete_many_of_no_ids_needs_no_query() {
	assert!(matches!(delete_many_without_query(&vec![]), Some(Ok(0))));
	assert!(delete_many_without_query(&vec![1, 2]).is_none());
}

fn render(parts: &[SqlPart]) -> String {
	let mut out = String::new();
	let mut n: usize = 0;
	for p in parts {
		match p {
			SqlPart::Sql(s) => out.push_str(s),
			SqlPart::Column(c) => out.push_str(&format!("\"{c}\"")),
			SqlPart::Value(v, cast) => {
				n += 1;
				let shown = match v {
					SqlValue::BigInt(i) => i.to_string(),
					SqlValue::Bool(b) => b.to_string(),
					SqlValue::Text(t) => format!("'{t}'"),
					SqlValue::Time(t) => format!("@{}", t.unix_nanos),
				};
				out.push_str(&format!("${n}={shown}"));
				if let Some(c) = cast {
					out.push_str(&format!("::{c}"));
				}
			}
		}
	}
	out
}

#[test]
fn filter_condition_of_task_filters() {
	// No filter: no condition.
	assert!(filter_condition(&vec![]).is_empty());

	// The tasks of one project.
	let by_project = TaskFilter { project_id: Some(vec![FilterOp::Eq(SqlValue::BigInt(42))]), ..Default::default() };
	assert_eq!(render(&filter_condition(&vec![by_project.into_group()])), "((\"project_id\" = $1=42))");

	// The project's tasks whose title contains a text.
	let by_title = TaskFilter {
		project_id: Some(vec![FilterOp::Eq(SqlValue::BigInt(42))]),
		title: Some(vec![FilterOp::Contains("by_title_contains_ok 02".to_string())]),
		..Default::default()
	};
	assert_eq!(
		render(&filter_condition(&vec![by_title.into_group()])),
		"((\"project_id\" = $1=42 AND \"title\" LIKE $2='%by_title_contains_ok 02%'))"
	);

	// Two groups are alternatives; an empty group holds for every row.
	let done = TaskFilter { done: Some(vec![FilterOp::Eq(SqlValue::Bool(true))]), ..Default::default() };
	let all = TaskFilter::default();
	assert_eq!(
		render(&filter_condition(&vec![done.into_group(), all.into_group()])),
		"((\"done\" = $1=true) OR TRUE)"
	);

	// Times compare as instants.
	let recent = TaskFilter {
		ctime: Some(vec![FilterOp::Gt(SqlValue::Time(UtcTime { unix_nanos: 5 })), FilterOp::Null(false)]),
		..Default::default()
	};
	assert_eq!(
		render(&filter_condition(&vec![recent.into_group()])),
		"((\"ctime\" > $1=@5 AND \"ctime\" IS NOT NULL))"
	);
}

#[test]
fn filter_condition_of_lists_and_casts() {
	let kinds = ConvFilter {
		agent_id: Some(vec![FilterOp::Eq(SqlValue::BigInt(3))]),
		kind: Some(vec![FilterOp::In(vec![SqlValue::Text("MultiUsers".to_string())])]),
		..Default::default()
	};
	assert_eq!(
		render(&filter_condition(&vec![kinds.into_group()])),
		"((\"agent_id\" = $1=3 AND \"kind\" IN ($2='MultiUsers'::conv_kind)))"
	);
	let many = ProjectFilter {
		name: Some(vec![
			FilterOp::NotIn(vec![SqlValue::Text("a".to_string()), SqlValue::Text("b".to_string())]),
			FilterOp::In(vec![]),
			FilterOp::StartsWith("p".to_string()),
			FilterOp::NotEndsWith("q".to_string()),
		]),
	};
	assert_eq!(
		render(&filter_condition(&vec![many.into_group()])),
		"((\"name\" NOT IN ($1='a', $2='b') AND 1 = 2 AND \"name\" LIKE $3='p%' AND \"name\" NOT LIKE $4='%q'))"
	);
	let names = AgentFilter { name: Some(vec![FilterOp::Not(SqlValue::Text("x".to_string()))]), ..Default::default() };
	assert_eq!(render(&filter_condition(&vec![names.into_group()])), "((\"name\" <> $1='x'))");
	let user = UserBmc::username_filter("demo1");
	assert_eq!(render(&filter_condition(&user)), "((\"username\" = $1='demo1'))");
}

#[test]
fn statements_render() {
	let fields = vec![
		Field { column: "title".to_string(), value: SqlValue::Text("t".to_string()), cast_as: None },
		Field { column: "kind".to_string(), value: SqlValue::Text("OwnerOnly".to_string()), cast_as: Some("conv_kind".to_string()) },
	];
	assert_eq!(
		render(&insert_statement("task", &fields)),
		"INSERT INTO \"task\" (\"title\", \"kind\") VALUES ($1='t', $2='OwnerOnly'::conv_kind) RETURNING \"id\""
	);
	assert_eq!(
		render(&insert_many_statement("task", &vec![fields.clone(), fields.clone()])),
		"INSERT INTO \"task\" (\"title\", \"kind\") VALUES ($1='t', $2='OwnerOnly'::conv_kind), ($3='t', $4='OwnerOnly'::conv_kind) RETURNING \"id\""
	);
	assert_eq!(
		render(&update_statement("task", 7, &fields)),
		"UPDATE \"task\" SET \"title\" = $1='t', \"kind\" = $2='OwnerOnly'::conv_kind WHERE \"id\" = $3=7"
	);
	assert_eq!(render(&get_statement("task", 7)), "SELECT row_to_json(t) FROM \"task\" t WHERE \"id\" = $1=7");
	assert_eq!(render(&delete_statement("task", 7)), "DELETE FROM \"task\" WHERE \"id\" = $1=7");
	assert_eq!(
		render(&delete_many_statement("task", &vec![1, 2])),
		"DELETE FROM \"task\" WHERE \"id\" IN ($1=1, $2=2)"
	);
	assert_eq!(render(&count_statement("task", &None)), "SELECT count(*) FROM \"task\"");
}

#[test]
fn list_statement_with_filter_and_options() {
	// The tasks of one project, title descending, first two.
	let filter = Some(vec![
		TaskFilter { project_id: Some(vec![FilterOp::Eq(SqlValue::BigInt(42))]), ..Default::default() }.into_group(),
	]);
	let lo = ListOptions { limit: Some(2), offset: Some(0), order_bys: Some(vec![order_by_from_str("!title")]) };
	let lo = compute_list_options(Some(lo)).unwrap();
	assert_eq!(
		render(&list_statement("task", &filter, &lo)),
		"SELECT row_to_json(t) FROM \"task\" t WHERE ((\"project_id\" = $1=42)) ORDER BY \"title\" DESC LIMIT $2=2 OFFSET $3=0"
	);
	let lo = compute_list_options(None).unwrap();
	assert_eq!(
		render(&list_statement("task", &None, &lo)),
		"SELECT row_to_json(t) FROM \"task\" t ORDER BY \"id\" ASC LIMIT $1=1000"
	);
	assert_eq!(
		render(&count_statement("task", &filter)),
		"SELECT count(*) FROM \"task\" WHERE ((\"project_id\" = $1=42))"
	);
}
