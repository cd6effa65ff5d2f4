//! Messages of a conversation.

use super::base::DbBmc;
use super::conv::ConvScoped;
use super::{fields_are, opt_col, opt_text, push_opt, Field, SqlValue, SqlValueView, UtcTime};
use super::filter::{field_nodes, group_view, nodes_view, push_field_nodes, FilterGroup, FilterNode, FilterOp};
use vstd::prelude::*;

verus! {

/// A conversation message, as stored.
#[derive(Clone, Debug)]
pub struct ConvMsg {
    pub id: i64,
    // -- FK
    pub conv_id: i64,
    pub user_id: i64,
    // -- Properties
    pub content: String,
    // -- Timestamps
    pub cid: i64,
    pub ctime: UtcTime,
    pub mid: i64,
    pub mtime: UtcTime,
}

impl ConvScoped for ConvMsg {
    open spec fn spec_conv_id(&self) -> i64 {
        self.conv_id
    }

    fn conv_id(&self) -> (r: i64) {
        self.conv_id
    }
}

/// A message to add to a conversation, as the API takes it.
#[derive(Clone, Debug)]
pub struct ConvMsgForCreate {
    pub conv_id: i64,
    pub content: String,
}

impl ConvScoped for ConvMsgForCreate {
    open spec fn spec_conv_id(&self) -> i64 {
        self.conv_id
    }

    fn conv_id(&self) -> (r: i64) {
        self.conv_id
    }
}

/// A message row to insert: the public `ConvMsgForCreate` with the user who
/// adds it.
#[derive(Clone, Debug)]
pub struct ConvMsgForInsert {
    pub conv_id: i64,
    pub user_id: i64,
    pub content: String,
}

impl ConvMsgForInsert {
    /// The row for `msg_c` added by `user_id`.
    pub fn from_msg_for_create(user_id: i64, msg_c: ConvMsgForCreate) -> (m: Self)
        ensures
            m.conv_id == msg_c.conv_id,
            m.user_id == user_id,
            m.content == msg_c.content,
    {
        Self { conv_id: msg_c.conv_id, user_id, content: msg_c.content }
    }

    /// The columns written for a new message.
    pub fn not_none_fields(&self) -> (fs: Vec<Field>)
        ensures
            fields_are(
                fs@,
                seq![
                    ("conv_id"@, SqlValueView::BigInt(self.conv_id), None),
                    ("user_id"@, SqlValueView::BigInt(self.user_id), None),
                    ("content"@, SqlValueView::Text(self.content@), None),
                ],
            ),
    {
        let mut fs: Vec<Field> = Vec::new();
        push_opt(&mut fs, "conv_id", Some(SqlValue::BigInt(self.conv_id)), None);
        push_opt(&mut fs, "user_id", Some(SqlValue::BigInt(self.user_id)), None);
        push_opt(&mut fs, "content", Some(SqlValue::Text(self.content.clone())), None);
        fs
    }
}

/// The changes to a message; absent values are left as they are.
#[derive(Clone, Debug, Default)]
pub struct ConvMsgForUpdate {
    pub conv_id: i64,
    pub content: Option<String>,
}

impl ConvScoped for ConvMsgForUpdate {
    open spec fn spec_conv_id(&self) -> i64 {
        self.conv_id
    }

    fn conv_id(&self) -> (r: i64) {
        self.conv_id
    }
}

impl ConvMsgForUpdate {
    /// The columns written for an update: the conversation and, when present,
    /// the content.
    pub fn not_none_fields(&self) -> (fs: Vec<Field>)
        ensures
            fields_are(
                fs@,
                seq![("conv_id"@, SqlValueView::BigInt(self.conv_id), None)] + opt_col(
                    "content"@,
                    opt_text(self.content),
                    None,
                ),
            ),
    {
        let mut fs: Vec<Field> = Vec::new();
        push_opt(&mut fs, "conv_id", Some(SqlValue::BigInt(self.conv_id)), None);
        let content = match &self.content {
            Some(c) => Some(SqlValue::Text(c.clone())),
            None => None,
        };
        push_opt(&mut fs, "content", content, None);
        fs
    }
}

/// The model controller of conversation messages; they are managed through
/// `ConvBmc`.
pub struct ConvMsgBmc;

impl DbBmc for ConvMsgBmc {
    open spec fn spec_table() -> Seq<char> {
        "conv_msg"@
    }

    open spec fn spec_has_timestamps() -> bool {
        true
    }

    open spec fn spec_has_owner_id() -> bool {
        false
    }

    fn table() -> (t: &'static str) {
        "conv_msg"
    }

    fn has_timestamps() -> (b: bool) {
        true
    }

    fn has_owner_id() -> (b: bool) {
        false
    }
}

/// Conditions on conversation messages; each present field puts its conditions on its
/// column.
#[derive(Clone, Debug, Default)]
pub struct ConvMsgFilter {
    pub id: Option<Vec<FilterOp>>,
    pub conv_id: Option<Vec<FilterOp>>,
    pub content: Option<Vec<FilterOp>>,
    pub cid: Option<Vec<FilterOp>>,
    pub ctime: Option<Vec<FilterOp>>,
    pub mid: Option<Vec<FilterOp>>,
    pub mtime: Option<Vec<FilterOp>>,
}

impl ConvMsgFilter {
    /// The group of conditions the filter stands for, field by field.
    pub fn into_group(self) -> (g: FilterGroup)
        ensures
            group_view(g) == field_nodes("id"@, self.id, None)
                + field_nodes("conv_id"@, self.conv_id, None)
                + field_nodes("content"@, self.content, None)
                + field_nodes("cid"@, self.cid, None)
                + field_nodes("ctime"@, self.ctime, None)
                + field_nodes("mid"@, self.mid, None)
                + field_nodes("mtime"@, self.mtime, None),
    {
        let mut nodes: Vec<FilterNode> = Vec::new();
        push_field_nodes(&mut nodes, "id", self.id, None);
        push_field_nodes(&mut nodes, "conv_id", self.conv_id, None);
        push_field_nodes(&mut nodes, "content", self.content, None);
        push_field_nodes(&mut nodes, "cid", self.cid, None);
        push_field_nodes(&mut nodes, "ctime", self.ctime, None);
        push_field_nodes(&mut nodes, "mid", self.mid, None);
        push_field_nodes(&mut nodes, "mtime", self.mtime, None);
        let g = FilterGroup { nodes };
        assert(group_view(g) =~= nodes_view(g.nodes@));
        g
    }
}

} // verus!
