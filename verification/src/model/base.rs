//! Rules shared by the CRUD functions: column names, the table metadata of
//! each model controller, the fields added on create and update, the list
//! options, and how row counts become results.

use super::{field, is_field, Error, Field, SqlValue, SqlValueView, UtcTime};
use crate::text::{chars_of, string_from_chars};
use vstd::prelude::*;

verus! {

/// The default limit of a list query.
pub const LIST_LIMIT_DEFAULT: i64 = 1000;

/// The largest limit a list query may ask for.
pub const LIST_LIMIT_MAX: i64 = 5000;

/// Columns common to all tables.
#[derive(Clone, Copy, Debug, PartialEq, Eq, Structural)]
pub enum CommonIden {
    Id,
    OwnerId,
}

/// The timestamp columns: creator, creation time, last modifier, last
/// modification time.
#[derive(Clone, Copy, Debug, PartialEq, Eq, Structural)]
pub enum TimestampIden {
    Cid,
    Ctime,
    Mid,
    Mtime,
}

/// The common columns (`id`, `owner_id`), under their other name.
pub type CommonSpec = CommonIden;

/// The timestamp columns (`cid`, `ctime`, `mid`, `mtime`), under their other name.
pub type TimestampSpec = TimestampIden;

impl CommonIden {
    /// The column name.
    pub fn column(&self) -> (s: &'static str)
        ensures
            s@ == match self {
                CommonIden::Id => "id"@,
                CommonIden::OwnerId => "owner_id"@,
            },
    {
        match self {
            CommonIden::Id => "id",
            CommonIden::OwnerId => "owner_id",
        }
    }
}

impl TimestampIden {
    /// The column name.
    pub fn column(&self) -> (s: &'static str)
        ensures
            s@ == match self {
                TimestampIden::Cid => "cid"@,
                TimestampIden::Ctime => "ctime"@,
                TimestampIden::Mid => "mid"@,
                TimestampIden::Mtime => "mtime"@,
            },
    {
        match self {
            TimestampIden::Cid => "cid",
            TimestampIden::Ctime => "ctime",
            TimestampIden::Mid => "mid",
            TimestampIden::Mtime => "mtime",
        }
    }
}

/// The table metadata of a model controller: its table, whether the table
/// has the timestamp columns (cid, ctime, mid, mtime), and whether it has an
/// `owner_id` column set on create.
pub trait DbBmc {
    /// The table name.
    spec fn spec_table() -> Seq<char>;

    /// Whether the table has the timestamp columns.
    spec fn spec_has_timestamps() -> bool;

    /// Whether the table has an `owner_id` column.
    spec fn spec_has_owner_id() -> bool;

    fn table() -> (t: &'static str)
        ensures
            t@ == Self::spec_table(),
    ;

    fn has_timestamps() -> (b: bool)
        ensures
            b == Self::spec_has_timestamps(),
    ;

    fn has_owner_id() -> (b: bool)
        ensures
            b == Self::spec_has_owner_id(),
    ;
}

/// The fields that creating a row adds: `owner_id` when the table has one,
/// then `cid`, `ctime`, `mid`, `mtime` when it has timestamps (creator and
/// modifier are the user, both times are `now`).
pub open spec fn create_fields_added(
    has_owner_id: bool,
    has_timestamps: bool,
    fields: Seq<Field>,
    user_id: i64,
    now: UtcTime,
) -> bool {
    let o: int = if has_owner_id { 1 } else { 0 };
    let t: int = if has_timestamps { 4 } else { 0 };
    &&& fields.len() == o + t
    &&& has_owner_id ==> is_field(fields[0], "owner_id"@, SqlValueView::BigInt(user_id))
    &&& has_timestamps ==> {
        &&& is_field(fields[o], "cid"@, SqlValueView::BigInt(user_id))
        &&& is_field(fields[o + 1], "ctime"@, SqlValueView::Time(now))
        &&& is_field(fields[o + 2], "mid"@, SqlValueView::BigInt(user_id))
        &&& is_field(fields[o + 3], "mtime"@, SqlValueView::Time(now))
    }
}

/// The fields that updating a row adds: `mid` and `mtime` when the table has
/// timestamps.
pub open spec fn update_fields_added(
    has_timestamps: bool,
    fields: Seq<Field>,
    user_id: i64,
    now: UtcTime,
) -> bool {
    if has_timestamps {
        &&& fields.len() == 2
        &&& is_field(fields[0], "mid"@, SqlValueView::BigInt(user_id))
        &&& is_field(fields[1], "mtime"@, SqlValueView::Time(now))
    } else {
        fields.len() == 0
    }
}

/// Adds the creator and creation time and the modifier and modification
/// time, all from the same user and instant.
pub fn add_timestamp_for_create(fields: &mut Vec<Field>, user_id: i64, now: UtcTime)
    ensures
        final(fields)@.len() == old(fields)@.len() + 4,
        final(fields)@.subrange(0, old(fields)@.len() as int) == old(fields)@,
        create_fields_added(
            false,
            true,
            final(fields)@.subrange(old(fields)@.len() as int, final(fields)@.len() as int),
            user_id,
            now,
        ),
{
    fields.push(field(TimestampIden::Cid.column(), SqlValue::BigInt(user_id)));
    fields.push(field(TimestampIden::Ctime.column(), SqlValue::Time(now)));
    fields.push(field(TimestampIden::Mid.column(), SqlValue::BigInt(user_id)));
    fields.push(field(TimestampIden::Mtime.column(), SqlValue::Time(now)));
}

/// Adds the modifier and modification time.
pub fn add_timestamp_for_update(fields: &mut Vec<Field>, user_id: i64, now: UtcTime)
    ensures
        final(fields)@.len() == old(fields)@.len() + 2,
        final(fields)@.subrange(0, old(fields)@.len() as int) == old(fields)@,
        update_fields_added(
            true,
            final(fields)@.subrange(old(fields)@.len() as int, final(fields)@.len() as int),
            user_id,
            now,
        ),
{
    fields.push(field(TimestampIden::Mid.column(), SqlValue::BigInt(user_id)));
    fields.push(field(TimestampIden::Mtime.column(), SqlValue::Time(now)));
}

/// Completes the fields of a row to create: the owner and the timestamps,
/// as the table of `MC` has them. `now` is the time of the call.
pub fn prep_fields_for_create<MC: DbBmc>(fields: &mut Vec<Field>, user_id: i64, now: UtcTime)
    ensures
        final(fields)@.len() >= old(fields)@.len(),
        final(fields)@.subrange(0, old(fields)@.len() as int) == old(fields)@,
        create_fields_added(
            MC::spec_has_owner_id(),
            MC::spec_has_timestamps(),
            final(fields)@.subrange(old(fields)@.len() as int, final(fields)@.len() as int),
            user_id,
            now,
        ),
{
    let ghost start = fields@;
    if MC::has_owner_id() {
        fields.push(field(CommonIden::OwnerId.column(), SqlValue::BigInt(user_id)));
    }
    let ghost mid = fields@;
    if MC::has_timestamps() {
        add_timestamp_for_create(fields, user_id, now);
        assert(fields@.subrange(0, start.len() as int) =~= start);
    }
    let ghost added = fields@.subrange(start.len() as int, fields@.len() as int);
    assert(added =~= mid.subrange(start.len() as int, mid.len() as int) + fields@.subrange(
        mid.len() as int,
        fields@.len() as int,
    ));
    assert(fields@.subrange(0, start.len() as int) =~= start);
}

/// Completes the fields of a row to update: the modifier and modification
/// time when the table of `MC` has timestamps. `now` is the time of the call.
pub fn prep_fields_for_update<MC: DbBmc>(fields: &mut Vec<Field>, user_id: i64, now: UtcTime)
    ensures
        final(fields)@.len() >= old(fields)@.len(),
        final(fields)@.subrange(0, old(fields)@.len() as int) == old(fields)@,
        update_fields_added(
            MC::spec_has_timestamps(),
            final(fields)@.subrange(old(fields)@.len() as int, final(fields)@.len() as int),
            user_id,
            now,
        ),
{
    if MC::has_timestamps() {
        add_timestamp_for_update(fields, user_id, now);
    } else {
        assert(fields@.subrange(0, fields@.len() as int) =~= fields@);
    }
}

// region:    --- List options

/// One ordering term: a column, ascending or descending.
#[derive(Clone, Debug)]
pub enum OrderBy {
    Asc(String),
    Desc(String),
}

/// Paging and ordering of a list query.
#[derive(Clone, Debug)]
pub struct ListOptions {
    pub limit: Option<i64>,
    pub offset: Option<i64>,
    pub order_bys: Option<Vec<OrderBy>>,
}

/// The ordering that a term of an `order_bys` list names: `!col` orders by
/// `col` descending, any other term orders by itself ascending.
pub fn order_by_from_str(term: &str) -> (o: OrderBy)
    ensures
        term@.len() > 0 && term@[0] == '!' ==> (o matches OrderBy::Desc(c) && c@ == term@.subrange(
            1,
            term@.len() as int,
        )),
        !(term@.len() > 0 && term@[0] == '!') ==> (o matches OrderBy::Asc(c) && c@ == term@),
{
    let cs = chars_of(term);
    if cs.len() > 0 && cs[0] == '!' {
        OrderBy::Desc(string_from_chars(&cs, 1, cs.len()))
    } else {
        OrderBy::Asc(term.to_owned())
    }
}

/// The ordering "by id, ascending".
pub open spec fn is_order_by_id(o: Option<Vec<OrderBy>>) -> bool {
    o matches Some(v) && v@.len() == 1 && (v@[0] matches OrderBy::Asc(c) && c@ == "id"@)
}

/// Ordering by id, ascending.
fn order_by_id() -> (o: Option<Vec<OrderBy>>)
    ensures
        is_order_by_id(o),
{
    let mut v: Vec<OrderBy> = Vec::new();
    v.push(OrderBy::Asc("id".to_owned()));
    Some(v)
}

/// The list options a list query runs with: without options, the default
/// limit, no offset, ordered by id; with options, a limit over the maximum
/// is refused, a missing limit becomes the default, and the rest is kept.
pub fn compute_list_options(list_options: Option<ListOptions>) -> (r: Result<ListOptions, Error>)
    ensures
        r matches Ok(lo) ==> (lo.limit matches Some(limit) && limit <= LIST_LIMIT_MAX),
        list_options is None ==> (r matches Ok(lo) && lo.limit == Some(LIST_LIMIT_DEFAULT)
            && lo.offset is None && is_order_by_id(lo.order_bys)),
        list_options matches Some(given) ==> match given.limit {
            Some(limit) => if limit > LIST_LIMIT_MAX {
                r matches Err(Error::ListLimitOverMax { max, actual }) && max == LIST_LIMIT_MAX
                    && actual == limit
            } else {
                r == Ok::<ListOptions, Error>(given)
            },
            None => r == Ok::<ListOptions, Error>(
                ListOptions { limit: Some(LIST_LIMIT_DEFAULT), ..given },
            ),
        },
{
    match list_options {
        Some(mut list_options) => {
            match list_options.limit {
                Some(limit) => {
                    if limit > LIST_LIMIT_MAX {
                        return Err(Error::ListLimitOverMax { max: LIST_LIMIT_MAX, actual: limit });
                    }
                },
                None => {
                    list_options.limit = Some(LIST_LIMIT_DEFAULT);
                },
            }
            Ok(list_options)
        },
        None => Ok(ListOptions { limit: Some(LIST_LIMIT_DEFAULT), offset: None, order_bys: order_by_id() }),
    }
}

/// The list options of a query for the first row: limit 1, no offset, and
/// the given ordering, or by id when none is given.
pub fn first_list_options(list_options: Option<ListOptions>) -> (lo: ListOptions)
    ensures
        lo.limit == Some(1i64),
        lo.offset is None,
        match list_options {
            Some(given) => if given.order_bys is Some {
                lo.order_bys == given.order_bys
            } else {
                is_order_by_id(lo.order_bys)
            },
            None => is_order_by_id(lo.order_bys),
        },
{
    match list_options {
        Some(mut list_options) => {
            list_options.offset = None;
            list_options.limit = Some(1);
            if list_options.order_bys.is_none() {
                list_options.order_bys = order_by_id();
            }
            list_options
        },
        None => ListOptions { limit: Some(1), offset: None, order_bys: order_by_id() },
    }
}

// endregion: --- List options

// region:    --- Results of the database calls

/// The first row, if any.
pub fn first_of<E>(rows: Vec<E>) -> (r: Option<E>)
    ensures
        rows@.len() == 0 ==> r is None,
        rows@.len() > 0 ==> r == Some(rows@[0]),
{
    let mut rows = rows;
    if rows.len() > 0 {
        Some(rows.remove(0))
    } else {
        None
    }
}

/// What `get_result` returns.
pub open spec fn get_result_spec<E>(entity: &'static str, id: i64, row: Option<E>) -> Result<E, Error> {
    match row {
        Some(e) => Ok(e),
        None => Err(Error::EntityNotFound { entity, id }),
    }
}

/// The row that a get by id found, or `EntityNotFound` for the table and id.
pub fn get_result<E>(entity: &'static str, id: i64, row: Option<E>) -> (r: Result<E, Error>)
    ensures
        r == get_result_spec(entity, id, row),
        row matches Some(e) ==> r == Ok::<E, Error>(e),
        row is None ==> (r matches Err(Error::EntityNotFound { entity: t, id: i }) && t == entity
            && i == id),
{
    match row {
        Some(e) => Ok(e),
        None => Err(Error::EntityNotFound { entity, id }),
    }
}

/// What `affected_result` returns.
pub open spec fn affected_result_spec(entity: &'static str, id: i64, count: int) -> Result<(), Error> {
    if count == 0 {
        Err(Error::EntityNotFound { entity, id })
    } else {
        Ok(())
    }
}

/// The result of an update or delete by id that affected `count` rows:
/// `EntityNotFound` when none was.
pub fn affected_result(entity: &'static str, id: i64, count: u64) -> (r: Result<(), Error>)
    ensures
        r == affected_result_spec(entity, id, count as int),
        count > 0 ==> r is Ok,
        count == 0 ==> (r matches Err(Error::EntityNotFound { entity: t, id: i }) && t == entity
            && i == id),
{
    if count == 0 {
        Err(Error::EntityNotFound { entity, id })
    } else {
        Ok(())
    }
}

/// The answer to deleting no ids, which needs no statement: `Ok(0)`; `None`
/// when there are ids to delete.
pub fn delete_many_without_query(ids: &Vec<i64>) -> (r: Option<Result<u64, Error>>)
    ensures
        ids@.len() == 0 ==> r == Some(Ok::<u64, Error>(0)),
        ids@.len() > 0 ==> r is None,
{
    if ids.len() == 0 {
        Some(Ok(0))
    } else {
        None
    }
}

/// The result of deleting `requested` ids when `affected` rows went:
/// `EntityNotFound` (id 0) unless every id was found.
pub fn delete_many_result(entity: &'static str, requested: usize, affected: u64) -> (r: Result<
    u64,
    Error,
>)
    ensures
        affected as usize == requested ==> r == Ok::<u64, Error>(affected),
        affected as usize != requested ==> (r matches Err(
            Error::EntityNotFound { entity: t, id: i },
        ) && t == entity && i == 0),
{
    if affected as usize != requested {
        Err(Error::EntityNotFound { entity, id: 0 })
    } else {
        Ok(affected)
    }
}

// endregion: --- Results of the database calls

/// A list without options returns at most a thousand rows, and no list asks
/// for more than five thousand.
pub proof fn lemma_list_limits()
    ensures
        LIST_LIMIT_DEFAULT == 1000,
        LIST_LIMIT_MAX == 5000,
        LIST_LIMIT_DEFAULT <= LIST_LIMIT_MAX,
{
}

} // verus!
