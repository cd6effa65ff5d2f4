//! Agents, which conversations are held with.

use super::base::DbBmc;
use super::{fields_are, opt_col, opt_text, push_opt, Field, SqlValue, SqlValueView, UtcTime};
use super::filter::{field_nodes, group_view, nodes_view, push_field_nodes, FilterGroup, FilterNode, FilterOp};
use vstd::prelude::*;

verus! {

/// An agent, as stored.
#[derive(Clone, Debug)]
pub struct Agent {
    pub id: i64,
    pub owner_id: i64,
    pub name: String,
    // -- Timestamps
    pub cid: i64,
    pub ctime: UtcTime,
    pub mid: i64,
    pub mtime: UtcTime,
}

/// The data of an agent to create.
#[derive(Clone, Debug)]
pub struct AgentForCreate {
    pub name: String,
}

/// The changes to an agent; absent values are left as they are.
#[derive(Clone, Debug, Default)]
pub struct AgentForUpdate {
    pub name: Option<String>,
}

impl AgentForCreate {
    /// The columns written for a new agent: its name.
    pub fn not_none_fields(&self) -> (fs: Vec<Field>)
        ensures
            fields_are(fs@, seq![("name"@, SqlValueView::Text(self.name@), None)]),
    {
        let mut fs: Vec<Field> = Vec::new();
        push_opt(&mut fs, "name", Some(SqlValue::Text(self.name.clone())), None);
        fs
    }
}

impl AgentForUpdate {
    /// The columns written for an update: the name when present.
    pub fn not_none_fields(&self) -> (fs: Vec<Field>)
        ensures
            fields_are(fs@, opt_col("name"@, opt_text(self.name), None)),
    {
        let mut fs: Vec<Field> = Vec::new();
        let name = match &self.name {
            Some(n) => Some(SqlValue::Text(n.clone())),
            None => None,
        };
        push_opt(&mut fs, "name", name, None);
        fs
    }
}

/// The model controller of agents; an agent is owned by the user who
/// creates it.
pub struct AgentBmc;

impl DbBmc for AgentBmc {
    open spec fn spec_table() -> Seq<char> {
        "agent"@
    }

    open spec fn spec_has_timestamps() -> bool {
        true
    }

    open spec fn spec_has_owner_id() -> bool {
        true
    }

    fn table() -> (t: &'static str) {
        "agent"
    }

    fn has_timestamps() -> (b: bool) {
        true
    }

    fn has_owner_id() -> (b: bool) {
        true
    }
}

/// Conditions on agents; each present field puts its conditions on its
/// column.
#[derive(Clone, Debug, Default)]
pub struct AgentFilter {
    pub id: Option<Vec<FilterOp>>,
    pub name: Option<Vec<FilterOp>>,
}

impl AgentFilter {
    /// The group of conditions the filter stands for, field by field.
    pub fn into_group(self) -> (g: FilterGroup)
        ensures
            group_view(g) == field_nodes("id"@, self.id, None)
                + field_nodes("name"@, self.name, None),
    {
        let mut nodes: Vec<FilterNode> = Vec::new();
        push_field_nodes(&mut nodes, "id", self.id, None);
        push_field_nodes(&mut nodes, "name", self.name, None);
        let g = FilterGroup { nodes };
        assert(group_view(g) =~= nodes_view(g.nodes@));
        g
    }
}

} // verus!
