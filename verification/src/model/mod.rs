//! The model layer: entities, their create/update payloads, and the rules
//! that the CRUD functions apply around each database call.

pub mod agent;
pub mod base;
pub mod conv;
pub mod conv_msg;
pub mod filter;
mod error;
pub mod project;
pub mod statement;
pub mod store;
pub mod task;
pub mod user;

pub use self::error::Error;

use vstd::prelude::*;

verus! {

/// A UTC instant, in nanoseconds since the Unix epoch.
#[derive(Clone, Copy, Debug, PartialEq, Eq)]
pub struct UtcTime {
    pub unix_nanos: i128,
}

/// A value written to a column.
#[derive(Clone, Debug)]
pub enum SqlValue {
    BigInt(i64),
    Bool(bool),
    Text(String),
    Time(UtcTime),
}

/// A column value as a plain value.
pub ghost enum SqlValueView {
    BigInt(i64),
    Bool(bool),
    Text(Seq<char>),
    Time(UtcTime),
}

impl View for SqlValue {
    type V = SqlValueView;

    open spec fn view(&self) -> SqlValueView {
        match self {
            SqlValue::BigInt(v) => SqlValueView::BigInt(*v),
            SqlValue::Bool(b) => SqlValueView::Bool(*b),
            SqlValue::Text(t) => SqlValueView::Text(t@),
            SqlValue::Time(t) => SqlValueView::Time(*t),
        }
    }
}

/// A column and the value to write to it, with the SQL type to cast the
/// value to, if any.
#[derive(Clone, Debug)]
pub struct Field {
    pub column: String,
    pub value: SqlValue,
    pub cast_as: Option<String>,
}

/// `f` writes `value` to the column `column`, without cast.
pub open spec fn is_field(f: Field, column: Seq<char>, value: SqlValueView) -> bool {
    f.column@ == column && f.value@ == value && f.cast_as is None
}

/// The column, value and cast of a field, as plain values.
pub open spec fn field_spec(f: Field) -> (Seq<char>, SqlValueView, Option<Seq<char>>) {
    (
        f.column@,
        f.value@,
        match f.cast_as {
            Some(c) => Some(c@),
            None => None,
        },
    )
}

/// The fields `fs` are, in order, the columns, values and casts `cols`.
pub open spec fn fields_are(fs: Seq<Field>, cols: Seq<(Seq<char>, SqlValueView, Option<Seq<char>>)>) -> bool {
    fs.len() == cols.len() && forall|i: int| 0 <= i < fs.len() ==> field_spec(#[trigger] fs[i]) == cols[i]
}

/// One column when the value is present, none otherwise.
pub open spec fn opt_col(column: Seq<char>, value: Option<SqlValueView>, cast: Option<Seq<char>>) -> Seq<
    (Seq<char>, SqlValueView, Option<Seq<char>>),
> {
    match value {
        Some(v) => seq![(column, v, cast)],
        None => Seq::empty(),
    }
}

/// The text value of an optional string.
pub open spec fn opt_text(s: Option<String>) -> Option<SqlValueView> {
    match s {
        Some(t) => Some(SqlValueView::Text(t@)),
        None => None,
    }
}

/// The integer value of an optional integer.
pub open spec fn opt_bigint(v: Option<i64>) -> Option<SqlValueView> {
    match v {
        Some(x) => Some(SqlValueView::BigInt(x)),
        None => None,
    }
}

/// The boolean value of an optional boolean.
pub open spec fn opt_bool(v: Option<bool>) -> Option<SqlValueView> {
    match v {
        Some(x) => Some(SqlValueView::Bool(x)),
        None => None,
    }
}

/// Appends a field holding `value` when it is present.
pub fn push_opt(fields: &mut Vec<Field>, column: &str, value: Option<SqlValue>, cast: Option<&str>)
    ensures
        fields_are(
            final(fields)@,
            field_specs(old(fields)@) + opt_col(
                column@,
                match value {
                    Some(v) => Some(v@),
                    None => None,
                },
                match cast {
                    Some(c) => Some(c@),
                    None => None,
                },
            ),
        ),
{
    let ghost before = fields@;
    match value {
        Some(v) => {
            let cast_as = match cast {
                Some(c) => Some(c.to_owned()),
                None => None,
            };
            fields.push(Field { column: column.to_owned(), value: v, cast_as });
        },
        None => {},
    }
    assert forall|i: int| 0 <= i < fields@.len() implies field_spec(#[trigger] fields@[i]) == (
    field_specs(before) + opt_col(
        column@,
        match value {
            Some(v) => Some(v@),
            None => None,
        },
        match cast {
            Some(c) => Some(c@),
            None => None,
        },
    ))[i] by {
        if i < before.len() {
            assert(fields@[i] == before[i]);
        }
    }
}

/// The columns, values and casts of a list of fields.
pub open spec fn field_specs(fs: Seq<Field>) -> Seq<(Seq<char>, SqlValueView, Option<Seq<char>>)> {
    fs.map_values(|f: Field| field_spec(f))
}

/// A field without cast.
pub fn field(column: &str, value: SqlValue) -> (f: Field)
    ensures
        is_field(f, column@, value@),
{
    Field { column: column.to_owned(), value, cast_as: None }
}

/// The handle of the data store, which the program opens.
#[derive(Clone, Debug)]
pub struct ModelManager {}

impl ModelManager {
    /// A model manager.
    pub fn new() -> (r: Result<ModelManager, Error>)
        ensures
            r is Ok,
    {
        Ok(ModelManager {})
    }
}

} // verus!
