//! The SQL statements of the model layer, as pieces: SQL text, quoted
//! names, and values bound as parameters.

use super::base::{ListOptions, OrderBy};
use super::filter::{
    copy_cast, copy_value, filter_condition, filter_parts, groups_view, parts_view, push_part,
    FilterGroup, SqlPart, SqlPartView,
};
use super::{Field, SqlValue, SqlValueView};
use vstd::prelude::*;

verus! {

/// How a list of fields is written.
#[derive(Clone, Copy, Debug, PartialEq, Eq, Structural)]
pub enum FieldsAs {
    /// `"col", "col"`
    Columns,
    /// `$1, $2` (with casts)
    Values,
    /// `"col" = $1, "col" = $2`
    Assignments,
}

/// The cast of a field, as plain text.
pub open spec fn cast_view(f: Field) -> Option<Seq<char>> {
    match f.cast_as {
        Some(c) => Some(c@),
        None => None,
    }
}

/// One field, written as `how` says.
pub open spec fn field_item(f: Field, how: FieldsAs) -> Seq<SqlPartView> {
    match how {
        FieldsAs::Columns => seq![SqlPartView::Column(f.column@)],
        FieldsAs::Values => seq![SqlPartView::Value(f.value@, cast_view(f))],
        FieldsAs::Assignments => seq![
            SqlPartView::Column(f.column@),
            SqlPartView::Sql(" = "@),
            SqlPartView::Value(f.value@, cast_view(f)),
        ],
    }
}

/// The fields, each written as `how` says, separated by `, `.
pub open spec fn field_list(fs: Seq<Field>, how: FieldsAs) -> Seq<SqlPartView>
    decreases fs.len(),
{
    if fs.len() == 0 {
        seq![]
    } else if fs.len() == 1 {
        field_item(fs[0], how)
    } else {
        field_list(fs.drop_last(), how) + seq![SqlPartView::Sql(", "@)] + field_item(fs.last(), how)
    }
}

fn push_field_item(parts: &mut Vec<SqlPart>, f: &Field, how: FieldsAs)
    ensures
        parts_view(final(parts)@) == parts_view(old(parts)@) + field_item(*f, how),
{
    let ghost start = parts_view(parts@);
    match how {
        FieldsAs::Columns => {
            push_part(parts, SqlPart::Column(f.column.clone()));
        },
        FieldsAs::Values => {
            push_part(parts, SqlPart::Value(copy_value(&f.value), copy_cast(&f.cast_as)));
        },
        FieldsAs::Assignments => {
            push_part(parts, SqlPart::Column(f.column.clone()));
            push_part(parts, SqlPart::Sql(" = "));
            push_part(parts, SqlPart::Value(copy_value(&f.value), copy_cast(&f.cast_as)));
        },
    }
    assert(parts_view(parts@) =~= start + field_item(*f, how));
}

fn push_field_list(parts: &mut Vec<SqlPart>, fs: &Vec<Field>, how: FieldsAs)
    ensures
        parts_view(final(parts)@) == parts_view(old(parts)@) + field_list(fs@, how),
{
    let ghost start = parts_view(parts@);
    let mut i: usize = 0;
    while i < fs.len()
        invariant
            0 <= i <= fs@.len(),
            parts_view(parts@) == start + field_list(fs@.subrange(0, i as int), how),
        decreases fs@.len() - i,
    {
        let ghost sub = fs@.subrange(0, i + 1);
        assert(sub.drop_last() =~= fs@.subrange(0, i as int));
        if i > 0 {
            push_part(parts, SqlPart::Sql(", "));
        }
        push_field_item(parts, &fs[i], how);
        assert(parts_view(parts@) =~= start + field_list(sub, how));
        i = i + 1;
    }
    assert(fs@.subrange(0, fs@.len() as int) =~= fs@);
}

/// `INSERT INTO "<table>" (<columns>) VALUES (<values>) RETURNING "id"`.
pub open spec fn insert_parts(table: Seq<char>, fs: Seq<Field>) -> Seq<SqlPartView> {
    seq![SqlPartView::Sql("INSERT INTO "@), SqlPartView::Column(table), SqlPartView::Sql(" ("@)]
        + field_list(fs, FieldsAs::Columns) + seq![SqlPartView::Sql(") VALUES ("@)] + field_list(
        fs,
        FieldsAs::Values,
    ) + seq![SqlPartView::Sql(") RETURNING "@), SqlPartView::Column("id"@)]
}

/// The statement that inserts one row and returns its id.
pub fn insert_statement(table: &str, fields: &Vec<Field>) -> (parts: Vec<SqlPart>)
    ensures
        parts_view(parts@) == insert_parts(table@, fields@),
{
    let mut parts: Vec<SqlPart> = Vec::new();
    push_part(&mut parts, SqlPart::Sql("INSERT INTO "));
    push_part(&mut parts, SqlPart::Column(table.to_owned()));
    push_part(&mut parts, SqlPart::Sql(" ("));
    push_field_list(&mut parts, fields, FieldsAs::Columns);
    push_part(&mut parts, SqlPart::Sql(") VALUES ("));
    push_field_list(&mut parts, fields, FieldsAs::Values);
    push_part(&mut parts, SqlPart::Sql(") RETURNING "));
    push_part(&mut parts, SqlPart::Column("id".to_owned()));
    assert(parts_view(parts@) =~= insert_parts(table@, fields@));
    parts
}

/// The value lists of several rows: `(<values>), (<values>)`.
pub open spec fn rows_values(rows: Seq<Vec<Field>>) -> Seq<SqlPartView>
    decreases rows.len(),
{
    if rows.len() == 0 {
        seq![]
    } else {
        let last = seq![SqlPartView::Sql("("@)] + field_list(rows.last()@, FieldsAs::Values) + seq![
            SqlPartView::Sql(")"@),
        ];
        if rows.len() == 1 {
            last
        } else {
            rows_values(rows.drop_last()) + seq![SqlPartView::Sql(", "@)] + last
        }
    }
}

/// `INSERT INTO "<table>" (<columns of the first row>) VALUES (<values>), ...
/// RETURNING "id"`.
pub open spec fn insert_many_parts(table: Seq<char>, rows: Seq<Vec<Field>>) -> Seq<SqlPartView> {
    seq![SqlPartView::Sql("INSERT INTO "@), SqlPartView::Column(table), SqlPartView::Sql(" ("@)]
        + field_list(rows[0]@, FieldsAs::Columns) + seq![SqlPartView::Sql(") VALUES "@)] + rows_values(
        rows,
    ) + seq![SqlPartView::Sql(" RETURNING "@), SqlPartView::Column("id"@)]
}

/// The statement that inserts several rows, named by the columns of the
/// first, and returns their ids.
pub fn insert_many_statement(table: &str, rows: &Vec<Vec<Field>>) -> (parts: Vec<SqlPart>)
    requires
        rows@.len() > 0,
    ensures
        parts_view(parts@) == insert_many_parts(table@, rows@),
{
    let mut parts: Vec<SqlPart> = Vec::new();
    push_part(&mut parts, SqlPart::Sql("INSERT INTO "));
    push_part(&mut parts, SqlPart::Column(table.to_owned()));
    push_part(&mut parts, SqlPart::Sql(" ("));
    push_field_list(&mut parts, &rows[0], FieldsAs::Columns);
    push_part(&mut parts, SqlPart::Sql(") VALUES "));
    let ghost head = parts_view(parts@);
    let mut i: usize = 0;
    while i < rows.len()
        invariant
            0 <= i <= rows@.len(),
            parts_view(parts@) == head + rows_values(rows@.subrange(0, i as int)),
        decreases rows@.len() - i,
    {
        let ghost sub = rows@.subrange(0, i + 1);
        assert(sub.drop_last() =~= rows@.subrange(0, i as int));
        if i > 0 {
            push_part(&mut parts, SqlPart::Sql(", "));
        }
        push_part(&mut parts, SqlPart::Sql("("));
        push_field_list(&mut parts, &rows[i], FieldsAs::Values);
        push_part(&mut parts, SqlPart::Sql(")"));
        assert(parts_view(parts@) =~= head + rows_values(sub));
        i = i + 1;
    }
    assert(rows@.subrange(0, rows@.len() as int) =~= rows@);
    push_part(&mut parts, SqlPart::Sql(" RETURNING "));
    push_part(&mut parts, SqlPart::Column("id".to_owned()));
    assert(parts_view(parts@) =~= insert_many_parts(table@, rows@));
    parts
}

/// `WHERE "id" = $id`.
pub open spec fn by_id_parts(id: i64) -> Seq<SqlPartView> {
    seq![
        SqlPartView::Sql(" WHERE "@),
        SqlPartView::Column("id"@),
        SqlPartView::Sql(" = "@),
        SqlPartView::Value(SqlValueView::BigInt(id), None),
    ]
}

fn push_by_id(parts: &mut Vec<SqlPart>, id: i64)
    ensures
        parts_view(final(parts)@) == parts_view(old(parts)@) + by_id_parts(id),
{
    let ghost start = parts_view(parts@);
    push_part(parts, SqlPart::Sql(" WHERE "));
    push_part(parts, SqlPart::Column("id".to_owned()));
    push_part(parts, SqlPart::Sql(" = "));
    push_part(parts, SqlPart::Value(SqlValue::BigInt(id), None));
    assert(parts_view(parts@) =~= start + by_id_parts(id));
}

/// `SELECT row_to_json(t) FROM "<table>" t WHERE "id" = $id`.
pub open spec fn get_parts(table: Seq<char>, id: i64) -> Seq<SqlPartView> {
    seq![
        SqlPartView::Sql("SELECT row_to_json(t) FROM "@),
        SqlPartView::Column(table),
        SqlPartView::Sql(" t"@),
    ] + by_id_parts(id)
}

/// The statement that reads the row with the id, as JSON.
pub fn get_statement(table: &str, id: i64) -> (parts: Vec<SqlPart>)
    ensures
        parts_view(parts@) == get_parts(table@, id),
{
    let mut parts: Vec<SqlPart> = Vec::new();
    push_part(&mut parts, SqlPart::Sql("SELECT row_to_json(t) FROM "));
    push_part(&mut parts, SqlPart::Column(table.to_owned()));
    push_part(&mut parts, SqlPart::Sql(" t"));
    push_by_id(&mut parts, id);
    assert(parts_view(parts@) =~= get_parts(table@, id));
    parts
}

/// `UPDATE "<table>" SET "col" = $v, ... WHERE "id" = $id`.
pub open spec fn update_parts(table: Seq<char>, id: i64, fs: Seq<Field>) -> Seq<SqlPartView> {
    seq![SqlPartView::Sql("UPDATE "@), SqlPartView::Column(table), SqlPartView::Sql(" SET "@)]
        + field_list(fs, FieldsAs::Assignments) + by_id_parts(id)
}

/// The statement that writes the fields to the row with the id.
pub fn update_statement(table: &str, id: i64, fields: &Vec<Field>) -> (parts: Vec<SqlPart>)
    ensures
        parts_view(parts@) == update_parts(table@, id, fields@),
{
    let mut parts: Vec<SqlPart> = Vec::new();
    push_part(&mut parts, SqlPart::Sql("UPDATE "));
    push_part(&mut parts, SqlPart::Column(table.to_owned()));
    push_part(&mut parts, SqlPart::Sql(" SET "));
    push_field_list(&mut parts, fields, FieldsAs::Assignments);
    push_by_id(&mut parts, id);
    assert(parts_view(parts@) =~= update_parts(table@, id, fields@));
    parts
}

/// `DELETE FROM "<table>" WHERE "id" = $id`.
pub open spec fn delete_parts(table: Seq<char>, id: i64) -> Seq<SqlPartView> {
    seq![SqlPartView::Sql("DELETE FROM "@), SqlPartView::Column(table)] + by_id_parts(id)
}

/// The statement that deletes the row with the id.
pub fn delete_statement(table: &str, id: i64) -> (parts: Vec<SqlPart>)
    ensures
        parts_view(parts@) == delete_parts(table@, id),
{
    let mut parts: Vec<SqlPart> = Vec::new();
    push_part(&mut parts, SqlPart::Sql("DELETE FROM "));
    push_part(&mut parts, SqlPart::Column(table.to_owned()));
    push_by_id(&mut parts, id);
    assert(parts_view(parts@) =~= delete_parts(table@, id));
    parts
}

/// The ids, bound as values separated by `, `.
pub open spec fn id_list(ids: Seq<i64>) -> Seq<SqlPartView>
    decreases ids.len(),
{
    if ids.len() == 0 {
        seq![]
    } else if ids.len() == 1 {
        seq![SqlPartView::Value(SqlValueView::BigInt(ids[0]), None)]
    } else {
        id_list(ids.drop_last()) + seq![
            SqlPartView::Sql(", "@),
            SqlPartView::Value(SqlValueView::BigInt(ids.last()), None),
        ]
    }
}

/// `DELETE FROM "<table>" WHERE "id" IN ($id, ...)`.
pub open spec fn delete_many_parts(table: Seq<char>, ids: Seq<i64>) -> Seq<SqlPartView> {
    seq![
        SqlPartView::Sql("DELETE FROM "@),
        SqlPartView::Column(table),
        SqlPartView::Sql(" WHERE "@),
        SqlPartView::Column("id"@),
        SqlPartView::Sql(" IN ("@),
    ] + id_list(ids) + seq![SqlPartView::Sql(")"@)]
}

/// The statement that deletes the rows with the ids (there is at least one:
/// deleting none needs no statement).
pub fn delete_many_statement(table: &str, ids: &Vec<i64>) -> (parts: Vec<SqlPart>)
    ensures
        parts_view(parts@) == delete_many_parts(table@, ids@),
{
    let mut parts: Vec<SqlPart> = Vec::new();
    push_part(&mut parts, SqlPart::Sql("DELETE FROM "));
    push_part(&mut parts, SqlPart::Column(table.to_owned()));
    push_part(&mut parts, SqlPart::Sql(" WHERE "));
    push_part(&mut parts, SqlPart::Column("id".to_owned()));
    push_part(&mut parts, SqlPart::Sql(" IN ("));
    let ghost head = parts_view(parts@);
    let mut i: usize = 0;
    while i < ids.len()
        invariant
            0 <= i <= ids@.len(),
            parts_view(parts@) == head + id_list(ids@.subrange(0, i as int)),
        decreases ids@.len() - i,
    {
        let ghost sub = ids@.subrange(0, i + 1);
        assert(sub.drop_last() =~= ids@.subrange(0, i as int));
        if i > 0 {
            push_part(&mut parts, SqlPart::Sql(", "));
        }
        push_part(&mut parts, SqlPart::Value(SqlValue::BigInt(ids[i]), None));
        assert(parts_view(parts@) =~= head + id_list(sub));
        i = i + 1;
    }
    assert(ids@.subrange(0, ids@.len() as int) =~= ids@);
    push_part(&mut parts, SqlPart::Sql(")"));
    assert(parts_view(parts@) =~= delete_many_parts(table@, ids@));
    parts
}

/// ` WHERE <condition>` of a filter, or nothing when it has no condition.
pub open spec fn where_parts(filter: Option<Vec<FilterGroup>>) -> Seq<SqlPartView> {
    match filter {
        None => seq![],
        Some(gs) => {
            let c = filter_parts(groups_view(gs@));
            if c.len() == 0 {
                seq![]
            } else {
                seq![SqlPartView::Sql(" WHERE "@)] + c
            }
        },
    }
}

fn push_where(parts: &mut Vec<SqlPart>, filter: &Option<Vec<FilterGroup>>)
    ensures
        parts_view(final(parts)@) == parts_view(old(parts)@) + where_parts(*filter),
{
    let ghost start = parts_view(parts@);
    match filter {
        None => {
            assert(parts_view(parts@) =~= start + where_parts(*filter));
        },
        Some(gs) => {
            let cond = filter_condition(gs);
            if cond.len() == 0 {
                assert(parts_view(cond@).len() == 0);
                assert(parts_view(parts@) =~= start + where_parts(*filter));
            } else {
                push_part(parts, SqlPart::Sql(" WHERE "));
                let ghost mid = parts_view(parts@);
                let mut cond = cond;
                let ghost all = cond@;
                let mut k: usize = 0;
                let n = cond.len();
                while cond.len() > 0
                    invariant
                        k <= all.len(),
                        all.len() == n,
                        cond@ == all.subrange(k as int, all.len() as int),
                        parts_view(parts@) == mid + parts_view(all.subrange(0, k as int)),
                    decreases cond@.len(),
                {
                    let p = cond.remove(0);
                    push_part(parts, p);
                    assert(parts_view(all.subrange(0, k + 1)) =~= parts_view(
                        all.subrange(0, k as int),
                    ).push(p@));
                    k = k + 1;
                }
                assert(all.subrange(0, k as int) =~= all);
                assert(parts_view(parts@) =~= start + where_parts(*filter));
            }
        },
    }
}

/// One ordering term: `"col" ASC` or `"col" DESC`.
pub open spec fn order_item(o: OrderBy) -> Seq<SqlPartView> {
    match o {
        OrderBy::Asc(c) => seq![SqlPartView::Column(c@), SqlPartView::Sql(" ASC"@)],
        OrderBy::Desc(c) => seq![SqlPartView::Column(c@), SqlPartView::Sql(" DESC"@)],
    }
}

/// The ordering terms, separated by `, `.
pub open spec fn order_list(os: Seq<OrderBy>) -> Seq<SqlPartView>
    decreases os.len(),
{
    if os.len() == 0 {
        seq![]
    } else if os.len() == 1 {
        order_item(os[0])
    } else {
        order_list(os.drop_last()) + seq![SqlPartView::Sql(", "@)] + order_item(os.last())
    }
}

/// ` ORDER BY <terms>`, or nothing without terms.
pub open spec fn order_parts(o: Option<Vec<OrderBy>>) -> Seq<SqlPartView> {
    match o {
        Some(v) => if v@.len() == 0 {
            seq![]
        } else {
            seq![SqlPartView::Sql(" ORDER BY "@)] + order_list(v@)
        },
        None => seq![],
    }
}

fn push_order(parts: &mut Vec<SqlPart>, o: &Option<Vec<OrderBy>>)
    ensures
        parts_view(final(parts)@) == parts_view(old(parts)@) + order_parts(*o),
{
    let ghost start = parts_view(parts@);
    match o {
        None => {
            assert(parts_view(parts@) =~= start + order_parts(*o));
        },
        Some(v) => {
            if v.len() == 0 {
                assert(parts_view(parts@) =~= start + order_parts(*o));
                return;
            }
            push_part(parts, SqlPart::Sql(" ORDER BY "));
            let ghost head = parts_view(parts@);
            let mut i: usize = 0;
            while i < v.len()
                invariant
                    0 <= i <= v@.len(),
                    parts_view(parts@) == head + order_list(v@.subrange(0, i as int)),
                decreases v@.len() - i,
            {
                let ghost sub = v@.subrange(0, i + 1);
                assert(sub.drop_last() =~= v@.subrange(0, i as int));
                if i > 0 {
                    push_part(parts, SqlPart::Sql(", "));
                }
                match &v[i] {
                    OrderBy::Asc(c) => {
                        push_part(parts, SqlPart::Column(c.clone()));
                        push_part(parts, SqlPart::Sql(" ASC"));
                    },
                    OrderBy::Desc(c) => {
                        push_part(parts, SqlPart::Column(c.clone()));
                        push_part(parts, SqlPart::Sql(" DESC"));
                    },
                }
                assert(parts_view(parts@) =~= head + order_list(sub));
                i = i + 1;
            }
            assert(v@.subrange(0, v@.len() as int) =~= v@);
            assert(parts_view(parts@) =~= start + order_parts(*o));
        },
    }
}

/// ` <keyword> $value` for a present value.
pub open spec fn bound_clause(keyword: Seq<char>, v: Option<i64>) -> Seq<SqlPartView> {
    match v {
        Some(x) => seq![SqlPartView::Sql(keyword), SqlPartView::Value(SqlValueView::BigInt(x), None)],
        None => seq![],
    }
}

/// `SELECT row_to_json(t) FROM "<table>" t [WHERE ...] [ORDER BY ...]
/// [LIMIT $l] [OFFSET $o]`.
pub open spec fn list_parts_of(table: Seq<char>, filter: Option<Vec<FilterGroup>>, lo: ListOptions) -> Seq<SqlPartView> {
    seq![
        SqlPartView::Sql("SELECT row_to_json(t) FROM "@),
        SqlPartView::Column(table),
        SqlPartView::Sql(" t"@),
    ] + where_parts(filter) + order_parts(lo.order_bys) + bound_clause(" LIMIT "@, lo.limit)
        + bound_clause(" OFFSET "@, lo.offset)
}

/// The statement that lists the rows the filter keeps, ordered and paged by
/// the list options (already completed by `compute_list_options`).
pub fn list_statement(table: &str, filter: &Option<Vec<FilterGroup>>, list_options: &ListOptions) -> (parts: Vec<SqlPart>)
    ensures
        parts_view(parts@) == list_parts_of(table@, *filter, *list_options),
{
    let mut parts: Vec<SqlPart> = Vec::new();
    push_part(&mut parts, SqlPart::Sql("SELECT row_to_json(t) FROM "));
    push_part(&mut parts, SqlPart::Column(table.to_owned()));
    push_part(&mut parts, SqlPart::Sql(" t"));
    push_where(&mut parts, filter);
    push_order(&mut parts, &list_options.order_bys);
    let ghost before_limit = parts_view(parts@);
    if let Some(limit) = list_options.limit {
        push_part(&mut parts, SqlPart::Sql(" LIMIT "));
        push_part(&mut parts, SqlPart::Value(SqlValue::BigInt(limit), None));
    }
    assert(parts_view(parts@) =~= before_limit + bound_clause(" LIMIT "@, list_options.limit));
    let ghost before_offset = parts_view(parts@);
    if let Some(offset) = list_options.offset {
        push_part(&mut parts, SqlPart::Sql(" OFFSET "));
        push_part(&mut parts, SqlPart::Value(SqlValue::BigInt(offset), None));
    }
    assert(parts_view(parts@) =~= before_offset + bound_clause(" OFFSET "@, list_options.offset));
    assert(parts_view(parts@) =~= list_parts_of(table@, *filter, *list_options));
    parts
}

/// `SELECT count(*) FROM "<table>" [WHERE ...]`.
pub open spec fn count_parts(table: Seq<char>, filter: Option<Vec<FilterGroup>>) -> Seq<SqlPartView> {
    seq![SqlPartView::Sql("SELECT count(*) FROM "@), SqlPartView::Column(table)] + where_parts(filter)
}

/// The statement that counts the rows the filter keeps.
pub fn count_statement(table: &str, filter: &Option<Vec<FilterGroup>>) -> (parts: Vec<SqlPart>)
    ensures
        parts_view(parts@) == count_parts(table@, *filter),
{
    let mut parts: Vec<SqlPart> = Vec::new();
    push_part(&mut parts, SqlPart::Sql("SELECT count(*) FROM "));
    push_part(&mut parts, SqlPart::Column(table.to_owned()));
    push_where(&mut parts, filter);
    assert(parts_view(parts@) =~= count_parts(table@, *filter));
    parts
}

// region:    --- Laws

/// Each field is written by its own column, value and cast: a column list
/// names the column, a value list binds the value with the cast, and an
/// assignment sets the column to the value.
pub proof fn lemma_field_items(f: Field)
    ensures
        field_item(f, FieldsAs::Columns) == seq![SqlPartView::Column(f.column@)],
        field_item(f, FieldsAs::Values) == seq![SqlPartView::Value(f.value@, cast_view(f))],
        field_item(f, FieldsAs::Assignments) == seq![
            SqlPartView::Column(f.column@),
            SqlPartView::Sql(" = "@),
            SqlPartView::Value(f.value@, cast_view(f)),
        ],
{
}

/// A list of fields is written field by field, in order, separated by
/// `, `: one more field adds `, ` and that field.
pub proof fn lemma_field_list(fs: Seq<Field>, f: Field, how: FieldsAs)
    ensures
        field_list(Seq::empty(), how) == Seq::<SqlPartView>::empty(),
        field_list(seq![f], how) == field_item(f, how),
        fs.len() > 0 ==> field_list(fs.push(f), how) == field_list(fs, how) + seq![
            SqlPartView::Sql(", "@),
        ] + field_item(f, how),
{
    assert(fs.push(f).drop_last() =~= fs);
}

/// The rows of an insert of several rows are written row by row, in order:
/// each row's own values in parentheses, separated by `, `; one more row
/// adds `, (` that row's values `)`.
pub proof fn lemma_rows_values(rows: Seq<Vec<Field>>, r: Vec<Field>)
    ensures
        rows_values(seq![r]) == seq![SqlPartView::Sql("("@)] + field_list(r@, FieldsAs::Values)
            + seq![SqlPartView::Sql(")"@)],
        rows.len() > 0 ==> rows_values(rows.push(r)) == rows_values(rows) + seq![
            SqlPartView::Sql(", "@),
            SqlPartView::Sql("("@),
        ] + field_list(r@, FieldsAs::Values) + seq![SqlPartView::Sql(")"@)],
{
    assert(rows.push(r).drop_last() =~= rows);
    assert(rows.push(r).last() == r);
    assert(seq![r].last() == r);
}

/// The ids of a delete of several rows are bound one by one, in order,
/// separated by `, `.
pub proof fn lemma_id_list(ids: Seq<i64>, id: i64)
    ensures
        id_list(seq![id]) == seq![SqlPartView::Value(SqlValueView::BigInt(id), None)],
        ids.len() > 0 ==> id_list(ids.push(id)) == id_list(ids) + seq![
            SqlPartView::Sql(", "@),
            SqlPartView::Value(SqlValueView::BigInt(id), None),
        ],
{
    assert(ids.push(id).drop_last() =~= ids);
}

/// The statements by id name the table, and select, set or delete by
/// `"id" = $id`; inserts name the columns then bind the values and return
/// the new ids.
pub proof fn lemma_statement_shapes(table: Seq<char>, id: i64, fs: Seq<Field>, rows: Seq<Vec<Field>>, ids: Seq<i64>)
    ensures
        by_id_parts(id) == seq![
            SqlPartView::Sql(" WHERE "@),
            SqlPartView::Column("id"@),
            SqlPartView::Sql(" = "@),
            SqlPartView::Value(SqlValueView::BigInt(id), None),
        ],
        insert_parts(table, fs) == seq![
            SqlPartView::Sql("INSERT INTO "@),
            SqlPartView::Column(table),
            SqlPartView::Sql(" ("@),
        ] + field_list(fs, FieldsAs::Columns) + seq![SqlPartView::Sql(") VALUES ("@)] + field_list(
            fs,
            FieldsAs::Values,
        ) + seq![SqlPartView::Sql(") RETURNING "@), SqlPartView::Column("id"@)],
        rows.len() > 0 ==> insert_many_parts(table, rows) == seq![
            SqlPartView::Sql("INSERT INTO "@),
            SqlPartView::Column(table),
            SqlPartView::Sql(" ("@),
        ] + field_list(rows[0]@, FieldsAs::Columns) + seq![SqlPartView::Sql(") VALUES "@)]
            + rows_values(rows) + seq![SqlPartView::Sql(" RETURNING "@), SqlPartView::Column("id"@)],
        get_parts(table, id) == seq![
            SqlPartView::Sql("SELECT row_to_json(t) FROM "@),
            SqlPartView::Column(table),
            SqlPartView::Sql(" t"@),
        ] + by_id_parts(id),
        update_parts(table, id, fs) == seq![
            SqlPartView::Sql("UPDATE "@),
            SqlPartView::Column(table),
            SqlPartView::Sql(" SET "@),
        ] + field_list(fs, FieldsAs::Assignments) + by_id_parts(id),
        delete_parts(table, id) == seq![SqlPartView::Sql("DELETE FROM "@), SqlPartView::Column(table)]
            + by_id_parts(id),
        delete_many_parts(table, ids) == seq![
            SqlPartView::Sql("DELETE FROM "@),
            SqlPartView::Column(table),
            SqlPartView::Sql(" WHERE "@),
            SqlPartView::Column("id"@),
            SqlPartView::Sql(" IN ("@),
        ] + id_list(ids) + seq![SqlPartView::Sql(")"@)],
{
}

/// An ordering term orders by its column, ascending or descending.
pub proof fn lemma_order_item(c: String)
    ensures
        order_item(OrderBy::Asc(c)) == seq![SqlPartView::Column(c@), SqlPartView::Sql(" ASC"@)],
        order_item(OrderBy::Desc(c)) == seq![SqlPartView::Column(c@), SqlPartView::Sql(" DESC"@)],
{
}

/// The ordering holds every term, in order, separated by `, `: one more
/// term adds `, ` and that term; with terms it is ` ORDER BY <terms>`, and
/// without terms there is no ordering clause.
pub proof fn lemma_order_terms(os: Seq<OrderBy>, o: OrderBy, v: Vec<OrderBy>)
    ensures
        order_list(seq![o]) == order_item(o),
        os.len() > 0 ==> order_list(os.push(o)) == order_list(os) + seq![SqlPartView::Sql(", "@)]
            + order_item(o),
        v@.len() > 0 ==> order_parts(Some(v)) == seq![SqlPartView::Sql(" ORDER BY "@)] + order_list(
            v@,
        ),
        v@.len() == 0 ==> order_parts(Some(v)) == Seq::<SqlPartView>::empty(),
        order_parts(None) == Seq::<SqlPartView>::empty(),
{
    assert(os.push(o).drop_last() =~= os);
}

/// Each ordering term contributes exactly one column, so the ordering has
/// as many columns as terms, and the `k`-th column named is the `k`-th
/// term's.
pub proof fn lemma_order_columns(os: Seq<OrderBy>)
    ensures
        order_list(os).len() == (if os.len() == 0 {
            0
        } else {
            3 * os.len() - 1
        }),
        forall|k: int|
            0 <= k < os.len() ==> order_list(os)[3 * k] == SqlPartView::Column(
                match #[trigger] os[k] {
                    OrderBy::Asc(c) => c@,
                    OrderBy::Desc(c) => c@,
                },
            ),
    decreases os.len(),
{
    if os.len() > 1 {
        let init = os.drop_last();
        lemma_order_columns(init);
        assert forall|k: int| 0 <= k < os.len() implies order_list(os)[3 * k] == SqlPartView::Column(
            match #[trigger] os[k] {
                OrderBy::Asc(c) => c@,
                OrderBy::Desc(c) => c@,
            },
        ) by {
            if k < os.len() - 1 {
                assert(init[k] == os[k]);
            }
        }
    }
}

/// The filter stands after ` WHERE ` when it has a condition; otherwise
/// there is no `WHERE`.
pub proof fn lemma_where(gs: Vec<FilterGroup>)
    ensures
        where_parts(None) == Seq::<SqlPartView>::empty(),
        filter_parts(groups_view(gs@)).len() > 0 ==> where_parts(Some(gs)) == seq![
            SqlPartView::Sql(" WHERE "@),
        ] + filter_parts(groups_view(gs@)),
        filter_parts(groups_view(gs@)).len() == 0 ==> where_parts(Some(gs)) == Seq::<
            SqlPartView,
        >::empty(),
{
}

/// A list reads the table's rows as JSON, then applies the filter, the
/// ordering, the limit and the offset, in that order; a count counts the
/// rows the filter keeps.
pub proof fn lemma_list_and_count(table: Seq<char>, filter: Option<Vec<FilterGroup>>, lo: ListOptions)
    ensures
        list_parts_of(table, filter, lo) == seq![
            SqlPartView::Sql("SELECT row_to_json(t) FROM "@),
            SqlPartView::Column(table),
            SqlPartView::Sql(" t"@),
        ] + where_parts(filter) + order_parts(lo.order_bys) + (match lo.limit {
            Some(l) => seq![SqlPartView::Sql(" LIMIT "@), SqlPartView::Value(SqlValueView::BigInt(l), None)],
            None => Seq::<SqlPartView>::empty(),
        }) + (match lo.offset {
            Some(o) => seq![SqlPartView::Sql(" OFFSET "@), SqlPartView::Value(SqlValueView::BigInt(o), None)],
            None => Seq::<SqlPartView>::empty(),
        }),
        count_parts(table, filter) == seq![
            SqlPartView::Sql("SELECT count(*) FROM "@),
            SqlPartView::Column(table),
        ] + where_parts(filter),
{
}

// endregion: --- Laws

} // verus!
