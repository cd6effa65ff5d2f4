//! What the statements of the model layer do to a table, and the laws of
//! the create, get, update and delete functions over it.
//!
//! A table is modelled as its rows by id, each row as its values by column.
//! An insert stores the written fields and the new id; an update by id
//! overwrites the written columns of that row and keeps the others; a delete
//! by id removes that row; both report one affected row when the id exists
//! and none otherwise. This is how the database runs the statements that
//! `statement::insert_statement`, `update_statement`, `delete_statement` and
//! `get_statement` build; the laws below hold of this model, which the
//! database itself is not checked against.

use super::base::{
    affected_result_spec, create_fields_added, get_result_spec, update_fields_added, DbBmc,
};
use super::task::{TaskBmc, TaskForCreate, TaskForUpdate};
use super::{field_spec, fields_are, opt_bool, opt_col, opt_text, Field, SqlValueView, UtcTime};
use vstd::prelude::*;

verus! {

/// A row: its values by column.
pub type Row = Map<Seq<char>, SqlValueView>;

/// A table: its rows by id.
pub type Table = Map<i64, Row>;

/// The values that fields write, by column (a later field wins).
pub open spec fn row_of(fields: Seq<Field>) -> Row
    decreases fields.len(),
{
    if fields.len() == 0 {
        Map::empty()
    } else {
        row_of(fields.drop_last()).insert(fields.last().column@, fields.last().value@)
    }
}

/// The table after inserting the fields as the row with id `id`.
pub open spec fn table_insert(t: Table, id: i64, fields: Seq<Field>) -> Table {
    t.insert(id, row_of(fields).insert("id"@, SqlValueView::BigInt(id)))
}

/// The rows that a statement on id `id` affects: one when the row exists.
pub open spec fn rows_by_id(t: Table, id: i64) -> int {
    if t.contains_key(id) {
        1
    } else {
        0
    }
}

/// The table after updating the row with id `id` with the fields.
pub open spec fn table_update(t: Table, id: i64, fields: Seq<Field>) -> Table {
    if t.contains_key(id) {
        t.insert(id, t[id].union_prefer_right(row_of(fields)))
    } else {
        t
    }
}

/// The table after deleting the row with id `id`.
pub open spec fn table_delete(t: Table, id: i64) -> Table {
    t.remove(id)
}

/// The row with id `id`, if any.
pub open spec fn table_get(t: Table, id: i64) -> Option<Row> {
    if t.contains_key(id) {
        Some(t[id])
    } else {
        None
    }
}

/// A column is written by one of the fields.
pub open spec fn writes(fields: Seq<Field>, column: Seq<char>) -> bool {
    exists|i: int| 0 <= i < fields.len() && #[trigger] fields[i].column@ == column
}

/// The value written to a column is that of the last field on it; a column
/// that no field writes is absent.
pub proof fn lemma_row_of(fields: Seq<Field>, column: Seq<char>)
    ensures
        row_of(fields).contains_key(column) <==> writes(fields, column),
        forall|i: int|
            0 <= i < fields.len() && fields[i].column@ == column && (forall|j: int|
                i < j < fields.len() ==> #[trigger] fields[j].column@ != column) ==> row_of(
                fields,
            )[column] == #[trigger] fields[i].value@,
    decreases fields.len(),
{
    if fields.len() > 0 {
        let init = fields.drop_last();
        lemma_row_of(init, column);
        if writes(fields, column) && fields.last().column@ != column {
            let i = choose|i: int| 0 <= i < fields.len() && #[trigger] fields[i].column@ == column;
            assert(init[i].column@ == column);
        }
        if writes(init, column) {
            let i = choose|i: int| 0 <= i < init.len() && #[trigger] init[i].column@ == column;
            assert(fields[i].column@ == column);
        }
        assert forall|i: int|
            0 <= i < fields.len() && fields[i].column@ == column && (forall|j: int|
                i < j < fields.len() ==> #[trigger] fields[j].column@ != column) implies row_of(
            fields,
        )[column] == #[trigger] fields[i].value@ by {
            if i < fields.len() - 1 {
                assert(fields[fields.len() - 1].column@ != column);
                assert(init[i] == fields[i]);
                assert forall|j: int| i < j < init.len() implies #[trigger] init[j].column@ != column by {
                    assert(init[j] == fields[j]);
                }
            }
        }
    }
}

/// An update keeps the columns it does not write.
pub proof fn lemma_update_keeps(t: Table, id: i64, fields: Seq<Field>, column: Seq<char>)
    requires
        t.contains_key(id),
        !writes(fields, column),
    ensures
        table_update(t, id, fields)[id].contains_key(column) <==> t[id].contains_key(column),
        t[id].contains_key(column) ==> table_update(t, id, fields)[id][column] == t[id][column],
{
    lemma_row_of(fields, column);
}

/// A row deleted by id is not found afterwards, and deleting it again
/// affects no row; the delete itself affects one row, and leaves the other
/// rows as they were.
pub proof fn lemma_delete_then_get(t: Table, id: i64, entity: &'static str, other: i64)
    requires
        t.contains_key(id),
    ensures
        affected_result_spec(entity, id, rows_by_id(t, id)) is Ok,
        get_result_spec(entity, id, table_get(table_delete(t, id), id)) == Err::<Row, super::Error>(
            super::Error::EntityNotFound { entity, id },
        ),
        affected_result_spec(entity, id, rows_by_id(table_delete(t, id), id)) == Err::<
            (),
            super::Error,
        >(super::Error::EntityNotFound { entity, id }),
        other != id ==> table_get(table_delete(t, id), other) == table_get(t, other),
{
}

/// A task created with `TaskForCreate` reads back by its id with its title,
/// its project, its id, and the creator and creation time the create added.
///
/// `data` are the fields that `TaskForCreate::not_none_fields` returns and
/// `fields` what `prep_fields_for_create::<TaskBmc>` makes of them.
pub proof fn lemma_task_create_then_get(
    c: TaskForCreate,
    data: Seq<Field>,
    fields: Seq<Field>,
    user_id: i64,
    now: UtcTime,
    t: Table,
    id: i64,
    entity: &'static str,
)
    requires
        entity@ == TaskBmc::spec_table(),
        fields_are(
            data,
            seq![
                ("title"@, SqlValueView::Text(c.title@), None),
                ("project_id"@, SqlValueView::BigInt(c.project_id), None),
            ],
        ),
        fields.len() >= data.len(),
        fields.subrange(0, data.len() as int) == data,
        create_fields_added(
            TaskBmc::spec_has_owner_id(),
            TaskBmc::spec_has_timestamps(),
            fields.subrange(data.len() as int, fields.len() as int),
            user_id,
            now,
        ),
    ensures
        table_get(table_insert(t, id, fields), id) matches Some(row) && {
            &&& row["id"@] == SqlValueView::BigInt(id)
            &&& row["title"@] == SqlValueView::Text(c.title@)
            &&& row["project_id"@] == SqlValueView::BigInt(c.project_id)
            &&& row["cid"@] == SqlValueView::BigInt(user_id)
            &&& row["ctime"@] == SqlValueView::Time(now)
        },
        get_result_spec(entity, id, table_get(table_insert(t, id, fields), id)) is Ok,
{
    let added = fields.subrange(data.len() as int, fields.len() as int);
    assert(fields.len() == 6);
    assert(field_spec(data[0]) == ("title"@, SqlValueView::Text(c.title@), None::<Seq<char>>));
    assert(field_spec(data[1]) == ("project_id"@, SqlValueView::BigInt(c.project_id), None::<Seq<char>>));
    assert(fields[0] == data[0]);
    assert(fields[1] == data[1]);
    assert(fields[2] == added[0]);
    assert(fields[3] == added[1]);
    assert(fields[4] == added[2]);
    assert(fields[5] == added[3]);
    reveal_strlit("title");
    reveal_strlit("project_id");
    reveal_strlit("cid");
    reveal_strlit("ctime");
    reveal_strlit("mid");
    reveal_strlit("mtime");
    reveal_strlit("id");
    lemma_row_of(fields, "title"@);
    lemma_row_of(fields, "project_id"@);
    lemma_row_of(fields, "cid"@);
    lemma_row_of(fields, "ctime"@);
    assert(fields[0].column@ == "title"@);
    assert(fields[1].column@ == "project_id"@);
    assert(fields[2].column@ == "cid"@);
    assert(fields[3].column@ == "ctime"@);
    assert(fields[4].column@ == "mid"@);
    assert(fields[5].column@ == "mtime"@);
    let r = row_of(fields);
    assert("project_id"@.len() != "title"@.len());
    assert forall|j: int| 0 < j < fields.len() implies #[trigger] fields[j].column@ != "title"@ by {
        assert(fields[j].column@.len() != "title"@.len() || fields[j].column@[0] != 't');
    }
    assert forall|j: int| 1 < j < fields.len() implies #[trigger] fields[j].column@ != "project_id"@ by {
        assert(fields[j].column@.len() != "project_id"@.len());
    }
    assert forall|j: int| 2 < j < fields.len() implies #[trigger] fields[j].column@ != "cid"@ by {
        assert(fields[j].column@.len() != "cid"@.len() || fields[j].column@[0] != 'c');
    }
    assert forall|j: int| 3 < j < fields.len() implies #[trigger] fields[j].column@ != "ctime"@ by {
        assert(fields[j].column@[0] != 'c');
    }
    assert(r["title"@] == fields[0].value@);
    assert(r["project_id"@] == fields[1].value@);
    assert(r["cid"@] == fields[2].value@);
    assert(r["ctime"@] == fields[3].value@);
    assert("id"@.len() == 2);
    assert("id"@ != "title"@ && "id"@ != "project_id"@ && "id"@ != "cid"@ && "id"@ != "ctime"@);
    let row = r.insert("id"@, SqlValueView::BigInt(id));
    assert(table_insert(t, id, fields)[id] == row);
    assert(row["title"@] == SqlValueView::Text(c.title@));
    assert(row["project_id"@] == SqlValueView::BigInt(c.project_id));
    assert(row["cid"@] == SqlValueView::BigInt(user_id));
    assert(row["ctime"@] == SqlValueView::Time(now));
}

/// A task updated with only a new title reads back with that title and the
/// modifier and modification time of the update, and keeps every other
/// column (its project, whether it is done, its creator) as it was.
///
/// `data` are the fields that `TaskForUpdate::not_none_fields` returns and
/// `fields` what `prep_fields_for_update::<TaskBmc>` makes of them.
pub proof fn lemma_task_update_then_get(
    u: TaskForUpdate,
    data: Seq<Field>,
    fields: Seq<Field>,
    user_id: i64,
    now: UtcTime,
    t: Table,
    id: i64,
    column: Seq<char>,
    entity: &'static str,
)
    requires
        entity@ == TaskBmc::spec_table(),
        u.title is Some,
        u.done is None,
        fields_are(
            data,
            opt_col("title"@, opt_text(u.title), None) + opt_col("done"@, opt_bool(u.done), None),
        ),
        fields.len() >= data.len(),
        fields.subrange(0, data.len() as int) == data,
        update_fields_added(
            TaskBmc::spec_has_timestamps(),
            fields.subrange(data.len() as int, fields.len() as int),
            user_id,
            now,
        ),
        t.contains_key(id),
    ensures
        affected_result_spec(entity, id, rows_by_id(t, id)) is Ok,
        table_get(table_update(t, id, fields), id) matches Some(row) && {
            &&& row["title"@] == SqlValueView::Text(u.title->0@)
            &&& row["mid"@] == SqlValueView::BigInt(user_id)
            &&& row["mtime"@] == SqlValueView::Time(now)
            &&& (column != "title"@ && column != "mid"@ && column != "mtime"@) ==> {
                &&& row.contains_key(column) <==> t[id].contains_key(column)
                &&& t[id].contains_key(column) ==> row[column] == t[id][column]
            }
        },
{
    let added = fields.subrange(data.len() as int, fields.len() as int);
    assert(data.len() == 1);
    assert(field_spec(data[0]) == ("title"@, SqlValueView::Text(u.title->0@), None::<Seq<char>>));
    assert(fields.len() == 3);
    assert(fields[0] == data[0]);
    assert(fields[1] == added[0]);
    assert(fields[2] == added[1]);
    reveal_strlit("title");
    reveal_strlit("mid");
    reveal_strlit("mtime");
    assert(fields[0].column@ == "title"@);
    assert(fields[1].column@ == "mid"@);
    assert(fields[2].column@ == "mtime"@);
    lemma_row_of(fields, "title"@);
    lemma_row_of(fields, "mid"@);
    lemma_row_of(fields, "mtime"@);
    let r = row_of(fields);
    assert forall|j: int| 0 < j < fields.len() implies #[trigger] fields[j].column@ != "title"@ by {
        assert(fields[j].column@[0] != 't');
    }
    assert forall|j: int| 1 < j < fields.len() implies #[trigger] fields[j].column@ != "mid"@ by {
        assert(fields[j].column@.len() != "mid"@.len());
    }
    assert(r["title"@] == fields[0].value@);
    assert(r["mid"@] == fields[1].value@);
    assert(r["mtime"@] == fields[2].value@);
    assert(r.contains_key("title"@) && r.contains_key("mid"@) && r.contains_key("mtime"@));
    if column != "title"@ && column != "mid"@ && column != "mtime"@ {
        assert(!writes(fields, column));
        lemma_update_keeps(t, id, fields, column);
    }
}

} // verus!
