//! List filters: conditions on columns, and the SQL condition a filtered
//! query is built from.
//!
//! A filter is a list of groups; a row is kept when one group holds, and a
//! group holds when each of its conditions does.

use super::{SqlValue, SqlValueView};
use crate::text::string_append;
use vstd::prelude::*;

verus! {

/// One condition on a column's value.
#[derive(Clone, Debug)]
pub enum FilterOp {
    Eq(SqlValue),
    Not(SqlValue),
    In(Vec<SqlValue>),
    NotIn(Vec<SqlValue>),
    Lt(SqlValue),
    Lte(SqlValue),
    Gt(SqlValue),
    Gte(SqlValue),
    /// `true`: the value is NULL; `false`: it is not.
    Null(bool),
    Contains(String),
    NotContains(String),
    StartsWith(String),
    NotStartsWith(String),
    EndsWith(String),
    NotEndsWith(String),
}

/// A filter condition as plain values.
pub ghost enum FilterOpView {
    Eq(SqlValueView),
    Not(SqlValueView),
    In(Seq<SqlValueView>),
    NotIn(Seq<SqlValueView>),
    Lt(SqlValueView),
    Lte(SqlValueView),
    Gt(SqlValueView),
    Gte(SqlValueView),
    Null(bool),
    Contains(Seq<char>),
    NotContains(Seq<char>),
    StartsWith(Seq<char>),
    NotStartsWith(Seq<char>),
    EndsWith(Seq<char>),
    NotEndsWith(Seq<char>),
}

/// The plain values of a list of column values.
pub open spec fn values_view(vs: Seq<SqlValue>) -> Seq<SqlValueView> {
    vs.map_values(|v: SqlValue| v@)
}

impl View for FilterOp {
    type V = FilterOpView;

    open spec fn view(&self) -> FilterOpView {
        match self {
            FilterOp::Eq(v) => FilterOpView::Eq(v@),
            FilterOp::Not(v) => FilterOpView::Not(v@),
            FilterOp::In(vs) => FilterOpView::In(values_view(vs@)),
            FilterOp::NotIn(vs) => FilterOpView::NotIn(values_view(vs@)),
            FilterOp::Lt(v) => FilterOpView::Lt(v@),
            FilterOp::Lte(v) => FilterOpView::Lte(v@),
            FilterOp::Gt(v) => FilterOpView::Gt(v@),
            FilterOp::Gte(v) => FilterOpView::Gte(v@),
            FilterOp::Null(b) => FilterOpView::Null(*b),
            FilterOp::Contains(s) => FilterOpView::Contains(s@),
            FilterOp::NotContains(s) => FilterOpView::NotContains(s@),
            FilterOp::StartsWith(s) => FilterOpView::StartsWith(s@),
            FilterOp::NotStartsWith(s) => FilterOpView::NotStartsWith(s@),
            FilterOp::EndsWith(s) => FilterOpView::EndsWith(s@),
            FilterOp::NotEndsWith(s) => FilterOpView::NotEndsWith(s@),
        }
    }
}

/// A condition on a column, with the SQL type to cast compared values to.
#[derive(Clone, Debug)]
pub struct FilterNode {
    pub column: String,
    pub op: FilterOp,
    pub cast_as: Option<String>,
}

/// The plain values of a condition: column, condition, cast.
pub open spec fn node_view(n: FilterNode) -> (Seq<char>, FilterOpView, Option<Seq<char>>) {
    (
        n.column@,
        n.op@,
        match n.cast_as {
            Some(c) => Some(c@),
            None => None,
        },
    )
}

/// Conditions that must all hold.
#[derive(Clone, Debug)]
pub struct FilterGroup {
    pub nodes: Vec<FilterNode>,
}

/// The plain values of a group's conditions.
pub open spec fn group_view(g: FilterGroup) -> Seq<(Seq<char>, FilterOpView, Option<Seq<char>>)> {
    g.nodes@.map_values(|n: FilterNode| node_view(n))
}

// region:    --- SQL condition

/// A piece of an SQL condition: SQL text, a column name (quoted when
/// written), or a value bound as a parameter with its cast.
#[derive(Debug)]
pub enum SqlPart {
    Sql(&'static str),
    Column(String),
    Value(SqlValue, Option<String>),
}

/// An SQL condition piece as plain values.
pub ghost enum SqlPartView {
    Sql(Seq<char>),
    Column(Seq<char>),
    Value(SqlValueView, Option<Seq<char>>),
}

impl View for SqlPart {
    type V = SqlPartView;

    open spec fn view(&self) -> SqlPartView {
        match self {
            SqlPart::Sql(s) => SqlPartView::Sql(s@),
            SqlPart::Column(c) => SqlPartView::Column(c@),
            SqlPart::Value(v, cast) => SqlPartView::Value(
                v@,
                match cast {
                    Some(c) => Some(c@),
                    None => None,
                },
            ),
        }
    }
}

/// The plain values of a list of pieces.
pub open spec fn parts_view(ps: Seq<SqlPart>) -> Seq<SqlPartView> {
    ps.map_values(|p: SqlPart| p@)
}

/// `column <op> value`.
pub open spec fn cmp_parts(column: Seq<char>, op: Seq<char>, v: SqlValueView, cast: Option<Seq<char>>) -> Seq<SqlPartView> {
    seq![SqlPartView::Column(column), SqlPartView::Sql(op), SqlPartView::Value(v, cast)]
}

/// The values of a list, separated by `, `.
pub open spec fn list_parts(vs: Seq<SqlValueView>, cast: Option<Seq<char>>) -> Seq<SqlPartView>
    decreases vs.len(),
{
    if vs.len() == 0 {
        seq![]
    } else if vs.len() == 1 {
        seq![SqlPartView::Value(vs[0], cast)]
    } else {
        list_parts(vs.drop_last(), cast) + seq![SqlPartView::Sql(", "@), SqlPartView::Value(vs.last(), cast)]
    }
}

/// `column IN (values)` (`NOT IN` when `negated`); an empty list holds for
/// no row (`1 = 2`), and its negation for every row (`1 = 1`).
pub open spec fn in_parts(column: Seq<char>, vs: Seq<SqlValueView>, cast: Option<Seq<char>>, negated: bool) -> Seq<SqlPartView> {
    if vs.len() == 0 {
        seq![SqlPartView::Sql(if negated { "1 = 1"@ } else { "1 = 2"@ })]
    } else {
        seq![SqlPartView::Column(column), SqlPartView::Sql(if negated { " NOT IN ("@ } else { " IN ("@ })]
            + list_parts(vs, cast) + seq![SqlPartView::Sql(")"@)]
    }
}

/// `column LIKE pattern` (`NOT LIKE` when `negated`), the pattern bound as text.
pub open spec fn like_parts(column: Seq<char>, pattern: Seq<char>, negated: bool) -> Seq<SqlPartView> {
    cmp_parts(
        column,
        if negated { " NOT LIKE "@ } else { " LIKE "@ },
        SqlValueView::Text(pattern),
        None,
    )
}

/// The SQL condition of one filter condition.
pub open spec fn node_parts(n: (Seq<char>, FilterOpView, Option<Seq<char>>)) -> Seq<SqlPartView> {
    let (c, op, cast) = n;
    match op {
        FilterOpView::Eq(v) => cmp_parts(c, " = "@, v, cast),
        FilterOpView::Not(v) => cmp_parts(c, " <> "@, v, cast),
        FilterOpView::In(vs) => in_parts(c, vs, cast, false),
        FilterOpView::NotIn(vs) => in_parts(c, vs, cast, true),
        FilterOpView::Lt(v) => cmp_parts(c, " < "@, v, cast),
        FilterOpView::Lte(v) => cmp_parts(c, " <= "@, v, cast),
        FilterOpView::Gt(v) => cmp_parts(c, " > "@, v, cast),
        FilterOpView::Gte(v) => cmp_parts(c, " >= "@, v, cast),
        FilterOpView::Null(b) => seq![
            SqlPartView::Column(c),
            SqlPartView::Sql(if b { " IS NULL"@ } else { " IS NOT NULL"@ }),
        ],
        FilterOpView::Contains(s) => like_parts(c, seq!['%'] + s + seq!['%'], false),
        FilterOpView::NotContains(s) => like_parts(c, seq!['%'] + s + seq!['%'], true),
        FilterOpView::StartsWith(s) => like_parts(c, s + seq!['%'], false),
        FilterOpView::NotStartsWith(s) => like_parts(c, s + seq!['%'], true),
        FilterOpView::EndsWith(s) => like_parts(c, seq!['%'] + s, false),
        FilterOpView::NotEndsWith(s) => like_parts(c, seq!['%'] + s, true),
    }
}

/// The conditions of a group joined by ` AND `.
pub open spec fn and_parts(nodes: Seq<(Seq<char>, FilterOpView, Option<Seq<char>>)>) -> Seq<SqlPartView>
    decreases nodes.len(),
{
    if nodes.len() == 0 {
        seq![]
    } else if nodes.len() == 1 {
        node_parts(nodes[0])
    } else {
        and_parts(nodes.drop_last()) + seq![SqlPartView::Sql(" AND "@)] + node_parts(nodes.last())
    }
}

/// The SQL condition of a group: its conditions in parentheses, or `TRUE`
/// when it has none.
pub open spec fn group_parts(nodes: Seq<(Seq<char>, FilterOpView, Option<Seq<char>>)>) -> Seq<SqlPartView> {
    if nodes.len() == 0 {
        seq![SqlPartView::Sql("TRUE"@)]
    } else {
        seq![SqlPartView::Sql("("@)] + and_parts(nodes) + seq![SqlPartView::Sql(")"@)]
    }
}

/// The groups' conditions joined by ` OR `.
pub open spec fn or_parts(groups: Seq<Seq<(Seq<char>, FilterOpView, Option<Seq<char>>)>>) -> Seq<SqlPartView>
    decreases groups.len(),
{
    if groups.len() == 0 {
        seq![]
    } else if groups.len() == 1 {
        group_parts(groups[0])
    } else {
        or_parts(groups.drop_last()) + seq![SqlPartView::Sql(" OR "@)] + group_parts(groups.last())
    }
}

/// The plain values of a filter's groups.
pub open spec fn groups_view(gs: Seq<FilterGroup>) -> Seq<Seq<(Seq<char>, FilterOpView, Option<Seq<char>>)>> {
    gs.map_values(|g: FilterGroup| group_view(g))
}

/// The SQL condition of a filter: its groups in parentheses, or nothing (no
/// condition) when it has no group.
pub open spec fn filter_parts(groups: Seq<Seq<(Seq<char>, FilterOpView, Option<Seq<char>>)>>) -> Seq<SqlPartView> {
    if groups.len() == 0 {
        seq![]
    } else {
        seq![SqlPartView::Sql("("@)] + or_parts(groups) + seq![SqlPartView::Sql(")"@)]
    }
}

/// A copy of a column value.
pub(crate) fn copy_value(v: &SqlValue) -> (r: SqlValue)
    ensures
        r@ == v@,
{
    match v {
        SqlValue::BigInt(x) => SqlValue::BigInt(*x),
        SqlValue::Bool(b) => SqlValue::Bool(*b),
        SqlValue::Text(t) => SqlValue::Text(t.clone()),
        SqlValue::Time(t) => SqlValue::Time(*t),
    }
}

/// A copy of an optional cast.
pub(crate) fn copy_cast(c: &Option<String>) -> (r: Option<String>)
    ensures
        match *c {
            Some(s) => r matches Some(t) && t@ == s@,
            None => r is None,
        },
{
    match c {
        Some(s) => Some(s.clone()),
        None => None,
    }
}

/// Appends `p` to `parts`.
pub(crate) fn push_part(parts: &mut Vec<SqlPart>, p: SqlPart)
    ensures
        parts_view(final(parts)@) == parts_view(old(parts)@).push(p@),
{
    parts.push(p);
    assert(parts_view(parts@) =~= parts_view(old(parts)@).push(p@));
}

/// Appends `column <op> value`.
fn push_cmp(parts: &mut Vec<SqlPart>, column: &String, op: &'static str, v: &SqlValue, cast: &Option<String>)
    ensures
        parts_view(final(parts)@) == parts_view(old(parts)@) + cmp_parts(
            column@,
            op@,
            v@,
            match *cast {
                Some(c) => Some(c@),
                None => None,
            },
        ),
{
    let ghost start = parts_view(parts@);
    push_part(parts, SqlPart::Column(column.clone()));
    push_part(parts, SqlPart::Sql(op));
    push_part(parts, SqlPart::Value(copy_value(v), copy_cast(cast)));
    assert(parts_view(parts@) =~= start + cmp_parts(
        column@,
        op@,
        v@,
        match *cast {
            Some(c) => Some(c@),
            None => None,
        },
    ));
}

/// Appends `column <LIKE|NOT LIKE> pattern`.
fn push_like(parts: &mut Vec<SqlPart>, column: &String, pattern: String, negated: bool)
    ensures
        parts_view(final(parts)@) == parts_view(old(parts)@) + like_parts(column@, pattern@, negated),
{
    let op = if negated { " NOT LIKE " } else { " LIKE " };
    push_cmp(parts, column, op, &SqlValue::Text(pattern), &None);
}

/// `prefix + s + suffix`.
fn surround(prefix: &str, s: &String, suffix: &str) -> (r: String)
    ensures
        r@ == prefix@ + s@ + suffix@,
{
    let mut r = String::new();
    string_append(&mut r, prefix);
    string_append(&mut r, s.as_str());
    string_append(&mut r, suffix);
    r
}

/// Appends `column IN (...)` or its negation.
fn push_in(parts: &mut Vec<SqlPart>, column: &String, vs: &Vec<SqlValue>, cast: &Option<String>, negated: bool)
    ensures
        parts_view(final(parts)@) == parts_view(old(parts)@) + in_parts(
            column@,
            values_view(vs@),
            match *cast {
                Some(c) => Some(c@),
                None => None,
            },
            negated,
        ),
{
    let ghost start = parts_view(parts@);
    let ghost cv = match cast {
        Some(c) => Some(c@),
        None => None,
    };
    if vs.len() == 0 {
        push_part(parts, SqlPart::Sql(if negated { "1 = 1" } else { "1 = 2" }));
        assert(parts_view(parts@) =~= start + in_parts(column@, values_view(vs@), cv, negated));
        return;
    }
    push_part(parts, SqlPart::Column(column.clone()));
    push_part(parts, SqlPart::Sql(if negated { " NOT IN (" } else { " IN (" }));
    let ghost head = parts_view(parts@);
    let mut i: usize = 0;
    while i < vs.len()
        invariant
            0 <= i <= vs@.len(),
            vs@.len() > 0,
            parts_view(parts@) == head + list_parts(values_view(vs@).subrange(0, i as int), cv),
            cv == match *cast {
                Some(c) => Some(c@),
                None => None,
            },
        decreases vs@.len() - i,
    {
        let ghost before = parts_view(parts@);
        let ghost sub = values_view(vs@).subrange(0, i + 1);
        assert(sub.drop_last() =~= values_view(vs@).subrange(0, i as int));
        if i > 0 {
            push_part(parts, SqlPart::Sql(", "));
        }
        push_part(parts, SqlPart::Value(copy_value(&vs[i]), copy_cast(cast)));
        assert(parts_view(parts@) =~= head + list_parts(sub, cv));
        i = i + 1;
    }
    push_part(parts, SqlPart::Sql(")"));
    assert(values_view(vs@).subrange(0, vs@.len() as int) =~= values_view(vs@));
    assert(parts_view(parts@) =~= start + in_parts(column@, values_view(vs@), cv, negated));
}

/// Appends the SQL condition of one filter condition.
fn push_node(parts: &mut Vec<SqlPart>, n: &FilterNode)
    ensures
        parts_view(final(parts)@) == parts_view(old(parts)@) + node_parts(node_view(*n)),
{
    let c = &n.column;
    let cast = &n.cast_as;
    proof {
        reveal_strlit("%");
        reveal_strlit("");
        assert(""@ =~= Seq::<char>::empty());
        assert("%"@ =~= seq!['%']);
    }
    match &n.op {
        FilterOp::Eq(v) => push_cmp(parts, c, " = ", v, cast),
        FilterOp::Not(v) => push_cmp(parts, c, " <> ", v, cast),
        FilterOp::In(vs) => push_in(parts, c, vs, cast, false),
        FilterOp::NotIn(vs) => push_in(parts, c, vs, cast, true),
        FilterOp::Lt(v) => push_cmp(parts, c, " < ", v, cast),
        FilterOp::Lte(v) => push_cmp(parts, c, " <= ", v, cast),
        FilterOp::Gt(v) => push_cmp(parts, c, " > ", v, cast),
        FilterOp::Gte(v) => push_cmp(parts, c, " >= ", v, cast),
        FilterOp::Null(b) => {
            let ghost start = parts_view(parts@);
            push_part(parts, SqlPart::Column(c.clone()));
            push_part(parts, SqlPart::Sql(if *b { " IS NULL" } else { " IS NOT NULL" }));
            assert(parts_view(parts@) =~= start + node_parts(node_view(*n)));
        },
        FilterOp::Contains(s) => push_like(parts, c, surround("%", s, "%"), false),
        FilterOp::NotContains(s) => push_like(parts, c, surround("%", s, "%"), true),
        FilterOp::StartsWith(s) => push_like(parts, c, surround("", s, "%"), false),
        FilterOp::NotStartsWith(s) => push_like(parts, c, surround("", s, "%"), true),
        FilterOp::EndsWith(s) => push_like(parts, c, surround("%", s, ""), false),
        FilterOp::NotEndsWith(s) => push_like(parts, c, surround("%", s, ""), true),
    }
}

/// Appends the SQL condition of a group.
fn push_group(parts: &mut Vec<SqlPart>, g: &FilterGroup)
    ensures
        parts_view(final(parts)@) == parts_view(old(parts)@) + group_parts(group_view(*g)),
{
    let ghost start = parts_view(parts@);
    let ghost gv = group_view(*g);
    if g.nodes.len() == 0 {
        push_part(parts, SqlPart::Sql("TRUE"));
        assert(parts_view(parts@) =~= start + group_parts(gv));
        return;
    }
    push_part(parts, SqlPart::Sql("("));
    let ghost head = parts_view(parts@);
    let mut i: usize = 0;
    while i < g.nodes.len()
        invariant
            0 <= i <= g.nodes@.len(),
            g.nodes@.len() > 0,
            gv == group_view(*g),
            parts_view(parts@) == head + and_parts(gv.subrange(0, i as int)),
        decreases g.nodes@.len() - i,
    {
        let ghost sub = gv.subrange(0, i + 1);
        assert(sub.drop_last() =~= gv.subrange(0, i as int));
        assert(sub.last() == node_view(g.nodes@[i as int]));
        if i > 0 {
            push_part(parts, SqlPart::Sql(" AND "));
        }
        push_node(parts, &g.nodes[i]);
        assert(parts_view(parts@) =~= head + and_parts(sub));
        i = i + 1;
    }
    push_part(parts, SqlPart::Sql(")"));
    assert(gv.subrange(0, gv.len() as int) =~= gv);
    assert(parts_view(parts@) =~= start + group_parts(gv));
}

/// The SQL condition that a filtered query is built from: the groups in
/// parentheses joined by ` OR `, each group's conditions joined by ` AND `;
/// no pieces when there is no group.
pub fn filter_condition(groups: &Vec<FilterGroup>) -> (parts: Vec<SqlPart>)
    ensures
        parts_view(parts@) == filter_parts(groups_view(groups@)),
{
    let mut parts: Vec<SqlPart> = Vec::new();
    let ghost gsv = groups_view(groups@);
    if groups.len() == 0 {
        assert(parts_view(parts@) =~= filter_parts(gsv));
        return parts;
    }
    push_part(&mut parts, SqlPart::Sql("("));
    let ghost head = parts_view(parts@);
    let mut i: usize = 0;
    while i < groups.len()
        invariant
            0 <= i <= groups@.len(),
            groups@.len() > 0,
            gsv == groups_view(groups@),
            parts_view(parts@) == head + or_parts(gsv.subrange(0, i as int)),
        decreases groups@.len() - i,
    {
        let ghost sub = gsv.subrange(0, i + 1);
        assert(sub.drop_last() =~= gsv.subrange(0, i as int));
        assert(sub.last() == group_view(groups@[i as int]));
        if i > 0 {
            push_part(&mut parts, SqlPart::Sql(" OR "));
        }
        push_group(&mut parts, &groups[i]);
        assert(parts_view(parts@) =~= head + or_parts(sub));
        i = i + 1;
    }
    push_part(&mut parts, SqlPart::Sql(")"));
    assert(gsv.subrange(0, gsv.len() as int) =~= gsv);
    assert(parts_view(parts@) =~= filter_parts(gsv));
    parts
}

// endregion: --- SQL condition

// region:    --- Conditions of typed filters

/// The conditions that a filter field puts on its column: one per
/// operation, with the column's cast; none when the field is absent.
pub open spec fn field_nodes(column: Seq<char>, ops: Option<Vec<FilterOp>>, cast: Option<Seq<char>>) -> Seq<
    (Seq<char>, FilterOpView, Option<Seq<char>>),
> {
    match ops {
        Some(v) => v@.map_values(|op: FilterOp| (column, op@, cast)),
        None => seq![],
    }
}

/// The plain values of a list of conditions.
pub open spec fn nodes_view(ns: Seq<FilterNode>) -> Seq<(Seq<char>, FilterOpView, Option<Seq<char>>)> {
    ns.map_values(|n: FilterNode| node_view(n))
}

/// Appends the conditions of a filter field on `column`.
pub fn push_field_nodes(nodes: &mut Vec<FilterNode>, column: &str, ops: Option<Vec<FilterOp>>, cast: Option<&str>)
    ensures
        nodes_view(final(nodes)@) == nodes_view(old(nodes)@) + field_nodes(
            column@,
            ops,
            match cast {
                Some(c) => Some(c@),
                None => None,
            },
        ),
{
    let ghost cv = match cast {
        Some(c) => Some(c@),
        None => None,
    };
    let ghost start = nodes_view(nodes@);
    match ops {
        None => {
            assert(nodes_view(nodes@) =~= start + field_nodes(column@, ops, cv));
        },
        Some(v) => {
            let ghost all = v@;
            let n = v.len();
            let mut rest = v;
            let mut i: usize = 0;
            while rest.len() > 0
                invariant
                    i <= all.len(),
                    all.len() == n,
                    rest@ == all.subrange(i as int, all.len() as int),
                    nodes_view(nodes@) == start + all.subrange(0, i as int).map_values(
                        |op: FilterOp| (column@, op@, cv),
                    ),
                    cv == match cast {
                        Some(c) => Some(c@),
                        None => None,
                    },
                decreases rest@.len(),
            {
                let op = rest.remove(0);
                let cast_as = match cast {
                    Some(c) => Some(c.to_owned()),
                    None => None,
                };
                let ghost before = nodes_view(nodes@);
                nodes.push(FilterNode { column: column.to_owned(), op, cast_as });
                assert(nodes_view(nodes@) =~= before.push((column@, op@, cv)));
                assert(all.subrange(0, i + 1).map_values(|op: FilterOp| (column@, op@, cv))
                    =~= all.subrange(0, i as int).map_values(|op: FilterOp| (column@, op@, cv)).push(
                    (column@, op@, cv),
                ));
                i = i + 1;
            }
            assert(all.subrange(0, i as int) =~= all);
            assert(nodes_view(nodes@) =~= start + field_nodes(column@, Some(v), cv)) by {
                assert(field_nodes(column@, Some(v), cv) =~= all.map_values(
                    |op: FilterOp| (column@, op@, cv),
                ));
            }
        },
    }
}

// endregion: --- Conditions of typed filters

// region:    --- Laws

/// Each comparison is written `column <op> value` with its own operator:
/// `=` for equality, `<>` for inequality, `<` (strictly below), `<=`, `>`
/// (strictly above), `>=`; the value is bound with the column's cast.
pub proof fn lemma_comparison_operators(c: Seq<char>, v: SqlValueView, cast: Option<Seq<char>>)
    ensures
        node_parts((c, FilterOpView::Eq(v), cast)) == seq![
            SqlPartView::Column(c),
            SqlPartView::Sql(seq![' ', '=', ' ']),
            SqlPartView::Value(v, cast),
        ],
        node_parts((c, FilterOpView::Not(v), cast)) == seq![
            SqlPartView::Column(c),
            SqlPartView::Sql(seq![' ', '<', '>', ' ']),
            SqlPartView::Value(v, cast),
        ],
        node_parts((c, FilterOpView::Lt(v), cast)) == seq![
            SqlPartView::Column(c),
            SqlPartView::Sql(seq![' ', '<', ' ']),
            SqlPartView::Value(v, cast),
        ],
        node_parts((c, FilterOpView::Lte(v), cast)) == seq![
            SqlPartView::Column(c),
            SqlPartView::Sql(seq![' ', '<', '=', ' ']),
            SqlPartView::Value(v, cast),
        ],
        node_parts((c, FilterOpView::Gt(v), cast)) == seq![
            SqlPartView::Column(c),
            SqlPartView::Sql(seq![' ', '>', ' ']),
            SqlPartView::Value(v, cast),
        ],
        node_parts((c, FilterOpView::Gte(v), cast)) == seq![
            SqlPartView::Column(c),
            SqlPartView::Sql(seq![' ', '>', '=', ' ']),
            SqlPartView::Value(v, cast),
        ],
{
    reveal_strlit(" = ");
    reveal_strlit(" <> ");
    reveal_strlit(" < ");
    reveal_strlit(" <= ");
    reveal_strlit(" > ");
    reveal_strlit(" >= ");
    assert(" = "@ =~= seq![' ', '=', ' ']);
    assert(" <> "@ =~= seq![' ', '<', '>', ' ']);
    assert(" < "@ =~= seq![' ', '<', ' ']);
    assert(" <= "@ =~= seq![' ', '<', '=', ' ']);
    assert(" > "@ =~= seq![' ', '>', ' ']);
    assert(" >= "@ =~= seq![' ', '>', '=', ' ']);
}

/// Text conditions are `LIKE` patterns on the text, bound without cast:
/// contains `%s%`, starts with `s%`, ends with `%s`; their negations use
/// `NOT LIKE` with the same pattern. A null test is `IS NULL` or
/// `IS NOT NULL`.
pub proof fn lemma_text_and_null_conditions(c: Seq<char>, s: Seq<char>, cast: Option<Seq<char>>)
    ensures
        node_parts((c, FilterOpView::Contains(s), cast)) == seq![
            SqlPartView::Column(c),
            SqlPartView::Sql(seq![' ', 'L', 'I', 'K', 'E', ' ']),
            SqlPartView::Value(SqlValueView::Text(seq!['%'] + s + seq!['%']), None),
        ],
        node_parts((c, FilterOpView::NotContains(s), cast)) == seq![
            SqlPartView::Column(c),
            SqlPartView::Sql(seq![' ', 'N', 'O', 'T', ' ', 'L', 'I', 'K', 'E', ' ']),
            SqlPartView::Value(SqlValueView::Text(seq!['%'] + s + seq!['%']), None),
        ],
        node_parts((c, FilterOpView::StartsWith(s), cast)) == seq![
            SqlPartView::Column(c),
            SqlPartView::Sql(seq![' ', 'L', 'I', 'K', 'E', ' ']),
            SqlPartView::Value(SqlValueView::Text(s + seq!['%']), None),
        ],
        node_parts((c, FilterOpView::NotStartsWith(s), cast)) == seq![
            SqlPartView::Column(c),
            SqlPartView::Sql(seq![' ', 'N', 'O', 'T', ' ', 'L', 'I', 'K', 'E', ' ']),
            SqlPartView::Value(SqlValueView::Text(s + seq!['%']), None),
        ],
        node_parts((c, FilterOpView::EndsWith(s), cast)) == seq![
            SqlPartView::Column(c),
            SqlPartView::Sql(seq![' ', 'L', 'I', 'K', 'E', ' ']),
            SqlPartView::Value(SqlValueView::Text(seq!['%'] + s), None),
        ],
        node_parts((c, FilterOpView::NotEndsWith(s), cast)) == seq![
            SqlPartView::Column(c),
            SqlPartView::Sql(seq![' ', 'N', 'O', 'T', ' ', 'L', 'I', 'K', 'E', ' ']),
            SqlPartView::Value(SqlValueView::Text(seq!['%'] + s), None),
        ],
        node_parts((c, FilterOpView::Null(true), cast)) == seq![
            SqlPartView::Column(c),
            SqlPartView::Sql(seq![' ', 'I', 'S', ' ', 'N', 'U', 'L', 'L']),
        ],
        node_parts((c, FilterOpView::Null(false), cast)) == seq![
            SqlPartView::Column(c),
            SqlPartView::Sql(seq![' ', 'I', 'S', ' ', 'N', 'O', 'T', ' ', 'N', 'U', 'L', 'L']),
        ],
{
    reveal_strlit(" LIKE ");
    reveal_strlit(" NOT LIKE ");
    reveal_strlit(" IS NULL");
    reveal_strlit(" IS NOT NULL");
    assert(" LIKE "@ =~= seq![' ', 'L', 'I', 'K', 'E', ' ']);
    assert(" NOT LIKE "@ =~= seq![' ', 'N', 'O', 'T', ' ', 'L', 'I', 'K', 'E', ' ']);
    assert(" IS NULL"@ =~= seq![' ', 'I', 'S', ' ', 'N', 'U', 'L', 'L']);
    assert(" IS NOT NULL"@ =~= seq![' ', 'I', 'S', ' ', 'N', 'O', 'T', ' ', 'N', 'U', 'L', 'L']);
}

/// A list of values is written value by value, each with the cast, in
/// order and separated by `, `: one more value adds `, ` and that value.
pub proof fn lemma_value_list(vs: Seq<SqlValueView>, v: SqlValueView, cast: Option<Seq<char>>)
    ensures
        list_parts(seq![v], cast) == seq![SqlPartView::Value(v, cast)],
        vs.len() > 0 ==> list_parts(vs.push(v), cast) == list_parts(vs, cast) + seq![
            SqlPartView::Sql(seq![',', ' ']),
            SqlPartView::Value(v, cast),
        ],
{
    reveal_strlit(", ");
    assert(", "@ =~= seq![',', ' ']);
    assert(vs.push(v).drop_last() =~= vs);
}

/// `IN` holds the listed values in parentheses, `NOT IN` likewise; an
/// empty list keeps no row (`1 = 2`) and its negation every row (`1 = 1`).
pub proof fn lemma_in_conditions(c: Seq<char>, vs: Seq<SqlValueView>, cast: Option<Seq<char>>)
    ensures
        vs.len() > 0 ==> node_parts((c, FilterOpView::In(vs), cast)) == seq![
            SqlPartView::Column(c),
            SqlPartView::Sql(seq![' ', 'I', 'N', ' ', '(']),
        ] + list_parts(vs, cast) + seq![SqlPartView::Sql(seq![')'])],
        vs.len() > 0 ==> node_parts((c, FilterOpView::NotIn(vs), cast)) == seq![
            SqlPartView::Column(c),
            SqlPartView::Sql(seq![' ', 'N', 'O', 'T', ' ', 'I', 'N', ' ', '(']),
        ] + list_parts(vs, cast) + seq![SqlPartView::Sql(seq![')'])],
        vs.len() == 0 ==> node_parts((c, FilterOpView::In(vs), cast)) == seq![
            SqlPartView::Sql(seq!['1', ' ', '=', ' ', '2']),
        ],
        vs.len() == 0 ==> node_parts((c, FilterOpView::NotIn(vs), cast)) == seq![
            SqlPartView::Sql(seq!['1', ' ', '=', ' ', '1']),
        ],
{
    reveal_strlit(" IN (");
    reveal_strlit(" NOT IN (");
    reveal_strlit(")");
    reveal_strlit("1 = 2");
    reveal_strlit("1 = 1");
    assert(" IN ("@ =~= seq![' ', 'I', 'N', ' ', '(']);
    assert(" NOT IN ("@ =~= seq![' ', 'N', 'O', 'T', ' ', 'I', 'N', ' ', '(']);
    assert(")"@ =~= seq![')']);
    assert("1 = 2"@ =~= seq!['1', ' ', '=', ' ', '2']);
    assert("1 = 1"@ =~= seq!['1', ' ', '=', ' ', '1']);
}

/// The conditions of a group are all required: each condition is written in
/// order, joined by ` AND `, and the group stands in parentheses; a group
/// without conditions is `TRUE`.
pub proof fn lemma_group_conjunction(
    nodes: Seq<(Seq<char>, FilterOpView, Option<Seq<char>>)>,
    n: (Seq<char>, FilterOpView, Option<Seq<char>>),
)
    ensures
        and_parts(seq![n]) == node_parts(n),
        nodes.len() > 0 ==> and_parts(nodes.push(n)) == and_parts(nodes) + seq![
            SqlPartView::Sql(seq![' ', 'A', 'N', 'D', ' ']),
        ] + node_parts(n),
        group_parts(Seq::empty()) == seq![SqlPartView::Sql(seq!['T', 'R', 'U', 'E'])],
        nodes.len() > 0 ==> group_parts(nodes) == seq![SqlPartView::Sql(seq!['('])] + and_parts(nodes)
            + seq![SqlPartView::Sql(seq![')'])],
{
    reveal_strlit(" AND ");
    reveal_strlit("TRUE");
    reveal_strlit("(");
    reveal_strlit(")");
    assert(" AND "@ =~= seq![' ', 'A', 'N', 'D', ' ']);
    assert("TRUE"@ =~= seq!['T', 'R', 'U', 'E']);
    assert("("@ =~= seq!['(']);
    assert(")"@ =~= seq![')']);
    assert(nodes.push(n).drop_last() =~= nodes);
}

/// The groups of a filter are alternatives: each group is written in order,
/// joined by ` OR `, and the whole stands in parentheses; a filter without
/// groups puts no condition.
pub proof fn lemma_filter_disjunction(
    groups: Seq<Seq<(Seq<char>, FilterOpView, Option<Seq<char>>)>>,
    g: Seq<(Seq<char>, FilterOpView, Option<Seq<char>>)>,
)
    ensures
        or_parts(seq![g]) == group_parts(g),
        groups.len() > 0 ==> or_parts(groups.push(g)) == or_parts(groups) + seq![
            SqlPartView::Sql(seq![' ', 'O', 'R', ' ']),
        ] + group_parts(g),
        filter_parts(Seq::empty()) == Seq::<SqlPartView>::empty(),
        groups.len() > 0 ==> filter_parts(groups) == seq![SqlPartView::Sql(seq!['('])] + or_parts(
            groups,
        ) + seq![SqlPartView::Sql(seq![')'])],
{
    reveal_strlit(" OR ");
    reveal_strlit("(");
    reveal_strlit(")");
    assert(" OR "@ =~= seq![' ', 'O', 'R', ' ']);
    assert("("@ =~= seq!['(']);
    assert(")"@ =~= seq![')']);
    assert(groups.push(g).drop_last() =~= groups);
}

/// A filter field puts one condition per operation on its column, in order,
/// each with the column's cast.
pub proof fn lemma_field_nodes(column: Seq<char>, ops: Vec<FilterOp>, cast: Option<Seq<char>>, k: int)
    requires
        0 <= k < ops@.len(),
    ensures
        field_nodes(column, Some(ops), cast).len() == ops@.len(),
        field_nodes(column, Some(ops), cast)[k] == (column, ops@[k]@, cast),
        field_nodes(column, None, cast).len() == 0,
{
}

// endregion: --- Laws

} // verus!
