//! Projects.

use super::base::DbBmc;
use super::{fields_are, opt_bigint, opt_col, opt_text, push_opt, Field, SqlValue, SqlValueView, UtcTime};
use crate::ctx::Ctx;
use super::filter::{field_nodes, group_view, nodes_view, push_field_nodes, FilterGroup, FilterNode, FilterOp};
use vstd::prelude::*;

verus! {

/// A project, as stored.
#[derive(Clone, Debug)]
pub struct Project {
    pub id: i64,
    pub name: String,
    pub owner_id: i64,
    // -- Timestamps
    pub cid: i64,
    pub ctime: UtcTime,
    pub mid: i64,
    pub mtime: UtcTime,
}

/// The data of a project to create, as the API takes it.
#[derive(Clone, Debug)]
pub struct ProjectForCreate {
    pub name: String,
}

/// The changes to a project; absent values are left as they are.
#[derive(Clone, Debug, Default)]
pub struct ProjectForUpdate {
    pub name: Option<String>,
    pub owner_id: Option<i64>,
}

/// The project row to insert: the owner is the user who creates it and is
/// never taken from the API.
#[derive(Clone, Debug)]
pub struct ProjectForCreateInner {
    pub name: String,
    pub owner_id: i64,
}

impl ProjectForCreateInner {
    /// The columns written for a new project: name and owner.
    pub fn not_none_fields(&self) -> (fs: Vec<Field>)
        ensures
            fields_are(
                fs@,
                seq![
                    ("name"@, SqlValueView::Text(self.name@), None),
                    ("owner_id"@, SqlValueView::BigInt(self.owner_id), None),
                ],
            ),
    {
        let mut fs: Vec<Field> = Vec::new();
        push_opt(&mut fs, "name", Some(SqlValue::Text(self.name.clone())), None);
        push_opt(&mut fs, "owner_id", Some(SqlValue::BigInt(self.owner_id)), None);
        fs
    }
}

impl ProjectForUpdate {
    /// The columns written for an update: the present values only.
    pub fn not_none_fields(&self) -> (fs: Vec<Field>)
        ensures
            fields_are(
                fs@,
                opt_col("name"@, opt_text(self.name), None) + opt_col(
                    "owner_id"@,
                    opt_bigint(self.owner_id),
                    None,
                ),
            ),
    {
        let mut fs: Vec<Field> = Vec::new();
        let name = match &self.name {
            Some(n) => Some(SqlValue::Text(n.clone())),
            None => None,
        };
        push_opt(&mut fs, "name", name, None);
        push_opt(&mut fs, "owner_id", match self.owner_id {
            Some(o) => Some(SqlValue::BigInt(o)),
            None => None,
        }, None);
        fs
    }
}

/// The model controller of projects.
pub struct ProjectBmc;

impl ProjectBmc {
    /// The row that creating `project_c` as `ctx`'s user inserts: the name,
    /// owned by that user.
    pub fn create_inner(ctx: &Ctx, project_c: ProjectForCreate) -> (p: ProjectForCreateInner)
        ensures
            p.name == project_c.name,
            p.owner_id == ctx.spec_user_id(),
    {
        ProjectForCreateInner { name: project_c.name, owner_id: ctx.user_id() }
    }
}

impl DbBmc for ProjectBmc {
    open spec fn spec_table() -> Seq<char> {
        "project"@
    }

    open spec fn spec_has_timestamps() -> bool {
        true
    }

    open spec fn spec_has_owner_id() -> bool {
        false
    }

    fn table() -> (t: &'static str) {
        "project"
    }

    fn has_timestamps() -> (b: bool) {
        true
    }

    fn has_owner_id() -> (b: bool) {
        false
    }
}

/// Conditions on projects; each present field puts its conditions on its
/// column.
#[derive(Clone, Debug, Default)]
pub struct ProjectFilter {
    pub name: Option<Vec<FilterOp>>,
}

impl ProjectFilter {
    /// The group of conditions the filter stands for, field by field.
    pub fn into_group(self) -> (g: FilterGroup)
        ensures
            group_view(g) == field_nodes("name"@, self.name, None),
    {
        let mut nodes: Vec<FilterNode> = Vec::new();
        push_field_nodes(&mut nodes, "name", self.name, None);
        let g = FilterGroup { nodes };
        assert(group_view(g) =~= nodes_view(g.nodes@));
        g
    }
}

} // verus!
