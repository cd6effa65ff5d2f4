//! Users, as login and authentication read them.

use super::base::DbBmc;
use super::filter::{groups_view, FilterGroup, FilterNode, FilterOp, FilterOpView};
use super::{SqlValue, SqlValueView};
use crate::uuid::Uuid;
use vstd::prelude::*;

verus! {

/// What the login reads of a user.
#[derive(Clone, Debug)]
pub struct UserForLogin {
    pub id: i64,
    pub username: String,
    /// The stored password, `#<scheme>#<hash>`, if the user has one.
    pub pwd: Option<String>,
    pub pwd_salt: Uuid,
    pub token_salt: Uuid,
}

/// What request authentication reads of a user.
#[derive(Clone, Debug)]
pub struct UserForAuth {
    pub id: i64,
    pub username: String,
    pub token_salt: Uuid,
}

/// The model controller of users.
pub struct UserBmc;

impl DbBmc for UserBmc {
    open spec fn spec_table() -> Seq<char> {
        "user"@
    }

    open spec fn spec_has_timestamps() -> bool {
        true
    }

    open spec fn spec_has_owner_id() -> bool {
        false
    }

    fn table() -> (t: &'static str) {
        "user"
    }

    fn has_timestamps() -> (b: bool) {
        true
    }

    fn has_owner_id() -> (b: bool) {
        false
    }
}

impl UserBmc {
    /// The filter that finds a user by name.
    pub fn username_filter(username: &str) -> (f: Vec<FilterGroup>)
        ensures
            groups_view(f@) == seq![
                seq![("username"@, FilterOpView::Eq(SqlValueView::Text(username@)), None::<Seq<char>>)],
            ],
    {
        let mut nodes: Vec<FilterNode> = Vec::new();
        nodes.push(
            FilterNode {
                column: "username".to_owned(),
                op: FilterOp::Eq(SqlValue::Text(username.to_owned())),
                cast_as: None,
            },
        );
        let mut f: Vec<FilterGroup> = Vec::new();
        f.push(FilterGroup { nodes });
        assert(groups_view(f@) =~= seq![
            seq![("username"@, FilterOpView::Eq(SqlValueView::Text(username@)), None::<Seq<char>>)],
        ]) by {
            assert(super::filter::group_view(f@[0]) =~= seq![
                ("username"@, FilterOpView::Eq(SqlValueView::Text(username@)), None::<Seq<char>>),
            ]);
        }
        f
    }
}

} // verus!
