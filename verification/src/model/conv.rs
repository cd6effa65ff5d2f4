//! Conversations, and the messages added to them.

use super::base::DbBmc;
use super::conv_msg::{ConvMsgForCreate, ConvMsgForInsert};
use super::{field_spec, fields_are, opt_bigint, opt_bool, opt_col, opt_text, push_opt, Field, SqlValue, SqlValueView, UtcTime};
use crate::ctx::Ctx;
use super::filter::{field_nodes, group_view, nodes_view, push_field_nodes, FilterGroup, FilterNode, FilterOp};
use vstd::prelude::*;

verus! {

/// Entities that belong to one conversation.
pub trait ConvScoped {
    /// The conversation of the entity.
    spec fn spec_conv_id(&self) -> i64;

    fn conv_id(&self) -> (r: i64)
        ensures
            r == self.spec_conv_id(),
    ;
}

/// Who may take part in a conversation.
#[derive(Clone, Copy, Debug, PartialEq, Eq, Structural)]
pub enum ConvKind {
    OwnerOnly,
    MultiUsers,
}

/// The state of a conversation.
#[derive(Clone, Copy, Debug, PartialEq, Eq, Structural)]
pub enum ConvState {
    Active,
    Archived,
}

/// The stored name of a conversation kind.
pub open spec fn conv_kind_name(kind: ConvKind) -> Seq<char> {
    match kind {
        ConvKind::OwnerOnly => "OwnerOnly"@,
        ConvKind::MultiUsers => "MultiUsers"@,
    }
}

/// The stored name of a conversation state.
pub open spec fn conv_state_name(state: ConvState) -> Seq<char> {
    match state {
        ConvState::Active => "Active"@,
        ConvState::Archived => "Archived"@,
    }
}

impl ConvKind {
    /// The stored name of the kind (the variant's name).
    pub fn as_str(&self) -> (s: &'static str)
        ensures
            s@ == conv_kind_name(*self),
    {
        match self {
            ConvKind::OwnerOnly => "OwnerOnly",
            ConvKind::MultiUsers => "MultiUsers",
        }
    }

    /// The kind stored when none is given.
    pub fn null() -> (k: ConvKind)
        ensures
            k == ConvKind::OwnerOnly,
    {
        ConvKind::OwnerOnly
    }
}

impl ConvState {
    /// The stored name of the state (the variant's name).
    pub fn as_str(&self) -> (s: &'static str)
        ensures
            s@ == conv_state_name(*self),
    {
        match self {
            ConvState::Active => "Active",
            ConvState::Archived => "Archived",
        }
    }
}

/// A conversation, as stored.
#[derive(Clone, Debug)]
pub struct Conv {
    pub id: i64,
    // -- Relations
    pub agent_id: i64,
    pub owner_id: i64,
    // -- Properties
    pub title: Option<String>,
    pub kind: ConvKind,
    pub state: ConvState,
    // -- Timestamps
    pub cid: i64,
    pub ctime: UtcTime,
    pub mid: i64,
    pub mtime: UtcTime,
}

/// The data of a conversation to create.
#[derive(Clone, Debug, Default)]
pub struct ConvForCreate {
    pub agent_id: i64,
    pub title: Option<String>,
    pub kind: Option<ConvKind>,
}

/// The changes to a conversation; absent values are left as they are.
#[derive(Clone, Debug, Default)]
pub struct ConvForUpdate {
    pub owner_id: Option<i64>,
    pub title: Option<String>,
    pub closed: Option<bool>,
    pub state: Option<ConvState>,
}

/// The column value of an optional kind.
pub open spec fn opt_kind(k: Option<ConvKind>) -> Option<SqlValueView> {
    match k {
        Some(kind) => Some(SqlValueView::Text(conv_kind_name(kind))),
        None => None,
    }
}

/// The column value of an optional state.
pub open spec fn opt_state(s: Option<ConvState>) -> Option<SqlValueView> {
    match s {
        Some(state) => Some(SqlValueView::Text(conv_state_name(state))),
        None => None,
    }
}

impl ConvForCreate {
    /// The columns written for a new conversation: the agent, then the title
    /// and the kind (cast to `conv_kind`) when present.
    pub fn not_none_fields(&self) -> (fs: Vec<Field>)
        ensures
            fields_are(
                fs@,
                seq![("agent_id"@, SqlValueView::BigInt(self.agent_id), None)] + opt_col(
                    "title"@,
                    opt_text(self.title),
                    None,
                ) + opt_col("kind"@, opt_kind(self.kind), Some("conv_kind"@)),
            ),
    {
        let mut fs: Vec<Field> = Vec::new();
        push_opt(&mut fs, "agent_id", Some(SqlValue::BigInt(self.agent_id)), None);
        let title = match &self.title {
            Some(t) => Some(SqlValue::Text(t.clone())),
            None => None,
        };
        push_opt(&mut fs, "title", title, None);
        let kind = match self.kind {
            Some(k) => Some(SqlValue::Text(k.as_str().to_owned())),
            None => None,
        };
        push_opt(&mut fs, "kind", kind, Some("conv_kind"));
        fs
    }
}

impl ConvForUpdate {
    /// The columns written for an update: the present values only, the
    /// state cast to `conv_state`.
    pub fn not_none_fields(&self) -> (fs: Vec<Field>)
        ensures
            fields_are(
                fs@,
                opt_col("owner_id"@, opt_bigint(self.owner_id), None) + opt_col(
                    "title"@,
                    opt_text(self.title),
                    None,
                ) + opt_col("closed"@, opt_bool(self.closed), None) + opt_col(
                    "state"@,
                    opt_state(self.state),
                    Some("conv_state"@),
                ),
            ),
    {
        let mut fs: Vec<Field> = Vec::new();
        push_opt(&mut fs, "owner_id", match self.owner_id {
            Some(o) => Some(SqlValue::BigInt(o)),
            None => None,
        }, None);
        let title = match &self.title {
            Some(t) => Some(SqlValue::Text(t.clone())),
            None => None,
        };
        push_opt(&mut fs, "title", title, None);
        push_opt(&mut fs, "closed", match self.closed {
            Some(c) => Some(SqlValue::Bool(c)),
            None => None,
        }, None);
        let state = match self.state {
            Some(st) => Some(SqlValue::Text(st.as_str().to_owned())),
            None => None,
        };
        push_opt(&mut fs, "state", state, Some("conv_state"));
        fs
    }
}

/// The model controller of conversations; a conversation is owned by the
/// user who creates it.
pub struct ConvBmc;

impl DbBmc for ConvBmc {
    open spec fn spec_table() -> Seq<char> {
        "conv"@
    }

    open spec fn spec_has_timestamps() -> bool {
        true
    }

    open spec fn spec_has_owner_id() -> bool {
        true
    }

    fn table() -> (t: &'static str) {
        "conv"
    }

    fn has_timestamps() -> (b: bool) {
        true
    }

    fn has_owner_id() -> (b: bool) {
        true
    }
}

impl ConvBmc {
    /// The message row that adding `msg_c` as `ctx`'s user inserts.
    pub fn msg_for_insert(ctx: &Ctx, msg_c: ConvMsgForCreate) -> (m: ConvMsgForInsert)
        ensures
            m.conv_id == msg_c.conv_id,
            m.user_id == ctx.spec_user_id(),
            m.content == msg_c.content,
    {
        ConvMsgForInsert::from_msg_for_create(ctx.user_id(), msg_c)
    }
}

/// Conditions on conversations; each present field puts its conditions on its
/// column.
#[derive(Clone, Debug, Default)]
pub struct ConvFilter {
    pub id: Option<Vec<FilterOp>>,
    pub owner_id: Option<Vec<FilterOp>>,
    pub agent_id: Option<Vec<FilterOp>>,
    pub kind: Option<Vec<FilterOp>>,
    pub title: Option<Vec<FilterOp>>,
    pub cid: Option<Vec<FilterOp>>,
    pub ctime: Option<Vec<FilterOp>>,
    pub mid: Option<Vec<FilterOp>>,
    pub mtime: Option<Vec<FilterOp>>,
}

impl ConvFilter {
    /// The group of conditions the filter stands for, field by field.
    pub fn into_group(self) -> (g: FilterGroup)
        ensures
            group_view(g) == field_nodes("id"@, self.id, None)
                + field_nodes("owner_id"@, self.owner_id, None)
                + field_nodes("agent_id"@, self.agent_id, None)
                + field_nodes("kind"@, self.kind, Some("conv_kind"@))
                + field_nodes("title"@, self.title, None)
                + field_nodes("cid"@, self.cid, None)
                + field_nodes("ctime"@, self.ctime, None)
                + field_nodes("mid"@, self.mid, None)
                + field_nodes("mtime"@, self.mtime, None),
    {
        proof {
            reveal_strlit("conv_kind");
        }
        let mut nodes: Vec<FilterNode> = Vec::new();
        push_field_nodes(&mut nodes, "id", self.id, None);
        push_field_nodes(&mut nodes, "owner_id", self.owner_id, None);
        push_field_nodes(&mut nodes, "agent_id", self.agent_id, None);
        push_field_nodes(&mut nodes, "kind", self.kind, Some("conv_kind"));
        push_field_nodes(&mut nodes, "title", self.title, None);
        push_field_nodes(&mut nodes, "cid", self.cid, None);
        push_field_nodes(&mut nodes, "ctime", self.ctime, None);
        push_field_nodes(&mut nodes, "mid", self.mid, None);
        push_field_nodes(&mut nodes, "mtime", self.mtime, None);
        let g = FilterGroup { nodes };
        assert(group_view(g) =~= nodes_view(g.nodes@));
        g
    }
}

// region:    --- Laws

/// Different states are stored under different names, and each name is
/// the variant's own: `Active`, `Archived`.
pub proof fn lemma_conv_state_names(a: ConvState, b: ConvState)
    ensures
        conv_state_name(a) == conv_state_name(b) ==> a == b,
        a == ConvState::Active ==> conv_state_name(a) =~= seq!['A', 'c', 't', 'i', 'v', 'e'],
        a == ConvState::Archived ==> conv_state_name(a) =~= seq!['A', 'r', 'c', 'h', 'i', 'v', 'e', 'd'],
{
    reveal_strlit("Active");
    reveal_strlit("Archived");
    assert("Active"@.len() != "Archived"@.len());
}

/// Different kinds are stored under different names, and each name is the
/// variant's own: `OwnerOnly`, `MultiUsers`.
pub proof fn lemma_conv_kind_names(a: ConvKind, b: ConvKind)
    ensures
        conv_kind_name(a) == conv_kind_name(b) ==> a == b,
        a == ConvKind::OwnerOnly ==> conv_kind_name(a) =~= seq!['O', 'w', 'n', 'e', 'r', 'O', 'n', 'l', 'y'],
        a == ConvKind::MultiUsers ==> conv_kind_name(a) =~= seq!['M', 'u', 'l', 't', 'i', 'U', 's', 'e', 'r', 's'],
{
    reveal_strlit("OwnerOnly");
    reveal_strlit("MultiUsers");
    assert("OwnerOnly"@.len() != "MultiUsers"@.len());
}

/// An update to a state writes exactly one field: the `state` column, cast
/// to `conv_state`, holding that state's name; different states write
/// different values.
pub proof fn lemma_conv_update_state(u: ConvForUpdate, fs: Seq<Field>, st: ConvState, other: ConvState)
    requires
        u.owner_id is None,
        u.title is None,
        u.closed is None,
        u.state == Some(st),
        fields_are(
            fs,
            opt_col("owner_id"@, opt_bigint(u.owner_id), None) + opt_col(
                "title"@,
                opt_text(u.title),
                None,
            ) + opt_col("closed"@, opt_bool(u.closed), None) + opt_col(
                "state"@,
                opt_state(u.state),
                Some("conv_state"@),
            ),
        ),
    ensures
        fs.len() == 1,
        fs[0].column@ == "state"@,
        fs[0].value@ == SqlValueView::Text(conv_state_name(st)),
        other != st ==> fs[0].value@ != SqlValueView::Text(conv_state_name(other)),
{
    lemma_conv_state_names(st, other);
    assert(field_spec(fs[0]) == ("state"@, SqlValueView::Text(conv_state_name(st)), Some("conv_state"@)));
}

// endregion: --- Laws

} // verus!
