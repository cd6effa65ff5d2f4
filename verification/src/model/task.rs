//! Tasks of a project.

use super::base::DbBmc;
use super::{fields_are, opt_bool, opt_col, opt_text, push_opt, Field, SqlValue, SqlValueView, UtcTime};
use super::filter::{field_nodes, group_view, nodes_view, push_field_nodes, FilterGroup, FilterNode, FilterOp};
use vstd::prelude::*;

verus! {

/// A task, as stored.
#[derive(Clone, Debug)]
pub struct Task {
    pub id: i64,
    pub project_id: i64,
    pub title: String,
    pub done: bool,
    // -- Timestamps (creator and last modifier, with their times)
    pub cid: i64,
    pub ctime: UtcTime,
    pub mid: i64,
    pub mtime: UtcTime,
}

/// The data of a task to create.
#[derive(Clone, Debug)]
pub struct TaskForCreate {
    pub title: String,
    pub project_id: i64,
}

/// The changes to a task; absent values are left as they are.
#[derive(Clone, Debug, Default)]
pub struct TaskForUpdate {
    pub title: Option<String>,
    pub done: Option<bool>,
}

impl TaskForCreate {
    /// The columns written for a new task: title and project.
    pub fn not_none_fields(&self) -> (fs: Vec<Field>)
        ensures
            fields_are(
                fs@,
                seq![
                    ("title"@, SqlValueView::Text(self.title@), None),
                    ("project_id"@, SqlValueView::BigInt(self.project_id), None),
                ],
            ),
    {
        let mut fs: Vec<Field> = Vec::new();
        push_opt(&mut fs, "title", Some(SqlValue::Text(self.title.clone())), None);
        push_opt(&mut fs, "project_id", Some(SqlValue::BigInt(self.project_id)), None);
        fs
    }
}

impl TaskForUpdate {
    /// The columns written for an update: the present values only.
    pub fn not_none_fields(&self) -> (fs: Vec<Field>)
        ensures
            fields_are(
                fs@,
                opt_col("title"@, opt_text(self.title), None) + opt_col(
                    "done"@,
                    opt_bool(self.done),
                    None,
                ),
            ),
    {
        let mut fs: Vec<Field> = Vec::new();
        let title = match &self.title {
            Some(t) => Some(SqlValue::Text(t.clone())),
            None => None,
        };
        push_opt(&mut fs, "title", title, None);
        push_opt(&mut fs, "done", match self.done {
            Some(d) => Some(SqlValue::Bool(d)),
            None => None,
        }, None);
        fs
    }
}

/// The model controller of tasks.
pub struct TaskBmc;

impl DbBmc for TaskBmc {
    open spec fn spec_table() -> Seq<char> {
        "task"@
    }

    open spec fn spec_has_timestamps() -> bool {
        true
    }

    open spec fn spec_has_owner_id() -> bool {
        false
    }

    fn table() -> (t: &'static str) {
        "task"
    }

    fn has_timestamps() -> (b: bool) {
        true
    }

    fn has_owner_id() -> (b: bool) {
        false
    }
}

/// Conditions on tasks; each present field puts its conditions on its
/// column.
#[derive(Clone, Debug, Default)]
pub struct TaskFilter {
    pub id: Option<Vec<FilterOp>>,
    pub project_id: Option<Vec<FilterOp>>,
    pub title: Option<Vec<FilterOp>>,
    pub done: Option<Vec<FilterOp>>,
    pub cid: Option<Vec<FilterOp>>,
    pub ctime: Option<Vec<FilterOp>>,
    pub mid: Option<Vec<FilterOp>>,
    pub mtime: Option<Vec<FilterOp>>,
}

impl TaskFilter {
    /// The group of conditions the filter stands for, field by field.
    pub fn into_group(self) -> (g: FilterGroup)
        ensures
            group_view(g) == field_nodes("id"@, self.id, None)
                + field_nodes("project_id"@, self.project_id, None)
                + field_nodes("title"@, self.title, None)
                + field_nodes("done"@, self.done, None)
                + field_nodes("cid"@, self.cid, None)
                + field_nodes("ctime"@, self.ctime, None)
                + field_nodes("mid"@, self.mid, None)
                + field_nodes("mtime"@, self.mtime, None),
    {
        let mut nodes: Vec<FilterNode> = Vec::new();
        push_field_nodes(&mut nodes, "id", self.id, None);
        push_field_nodes(&mut nodes, "project_id", self.project_id, None);
        push_field_nodes(&mut nodes, "title", self.title, None);
        push_field_nodes(&mut nodes, "done", self.done, None);
        push_field_nodes(&mut nodes, "cid", self.cid, None);
        push_field_nodes(&mut nodes, "ctime", self.ctime, None);
        push_field_nodes(&mut nodes, "mid", self.mid, None);
        push_field_nodes(&mut nodes, "mtime", self.mtime, None);
        let g = FilterGroup { nodes };
        assert(group_view(g) =~= nodes_view(g.nodes@));
        g
    }
}

} // verus!
