//! Compiling CRUD intents into parameterised SQL.
//!
//! Identifiers are never bound: every table and field name that an operation
//! mentions must be declared by the schema, and names are emitted in the
//! order in which the table declares its columns.
use crate::error::SqlError;
use crate::model::{
    find_entry, lookup, CreateOperation, CrudOperation, DeleteOperation, Params,
    QueryOperator, ReadOperation, SqlQuery, UpdateOperation, bindings,
};
use crate::schema::{ColumnDefinition, Schema, TableDefinition};
use crate::text::{decimal, join, placeholders, push_joined, push_placeholders, push_unsigned, views};
use crate::value::{Value, ValueModel};
use vstd::prelude::*;

verus! {

/// A compiled statement's text and its bindings, or the error.
pub type Compiled = Result<(Seq<char>, Seq<(Seq<char>, ValueModel)>), SqlError>;

/// What a compiler result says.
pub open spec fn compiled_view(r: Result<SqlQuery, SqlError>) -> Compiled {
    match r {
        Ok(q) => Ok((q.statement@, q.params@)),
        Err(e) => Err(e),
    }
}

pub open spec fn ints(v: Seq<usize>) -> Seq<int> {
    v.map_values(|x: usize| x as int)
}

/// The positions of the entries that stand for the columns of `cols`, in the
/// order in which the columns are declared.
pub open spec fn picks<T>(cols: Seq<ColumnDefinition>, entries: Seq<(String, T)>) -> Seq<int>
    decreases cols.len(),
{
    if cols.len() == 0 {
        Seq::empty()
    } else {
        let rest = picks(cols.drop_last(), entries);
        match lookup(entries, cols.last().name@) {
            Some(k) => rest.push(k),
            None => rest,
        }
    }
}

/// Every key of `entries` is a column of `t`.
pub open spec fn keys_declared<T>(t: TableDefinition, entries: Seq<(String, T)>) -> bool {
    forall|k: int| 0 <= k < entries.len() ==> t.has_column(#[trigger] entries[k].0@)
}

/// The SQL of an operator, after the field name.
pub open spec fn op_text(op: QueryOperator) -> Seq<char> {
    match op {
        QueryOperator::Equal(_) => "= ?"@,
        QueryOperator::NotEqual(_) => "<> ?"@,
        QueryOperator::GreaterThan(_) => "> ?"@,
        QueryOperator::GreaterThanOrEqual(_) => ">= ?"@,
        QueryOperator::LessThan(_) => "< ?"@,
        QueryOperator::LessThanOrEqual(_) => "<= ?"@,
        QueryOperator::Like(_) => "LIKE ?"@,
        QueryOperator::In(vs) => "IN ("@ + placeholders(vs@.len()) + ")"@,
    }
}

/// The values that an operator binds, each named by the field.
pub open spec fn op_bindings(name: Seq<char>, op: QueryOperator) -> Seq<(Seq<char>, ValueModel)> {
    match op {
        QueryOperator::Equal(v) => seq![(name, v@)],
        QueryOperator::NotEqual(v) => seq![(name, v@)],
        QueryOperator::GreaterThan(v) => seq![(name, v@)],
        QueryOperator::GreaterThanOrEqual(v) => seq![(name, v@)],
        QueryOperator::LessThan(v) => seq![(name, v@)],
        QueryOperator::LessThanOrEqual(v) => seq![(name, v@)],
        QueryOperator::Like(p) => seq![(name, ValueModel::Text(p@))],
        QueryOperator::In(vs) => vs@.map_values(|v: Value| (name, v@)),
    }
}

pub open spec fn condition_texts(conds: Seq<(String, QueryOperator)>, ks: Seq<int>) -> Seq<Seq<char>> {
    ks.map_values(|k: int| conds[k].0@ + " "@ + op_text(conds[k].1))
}

/// The WHERE clause of the conditions at `ks`, joined by AND; empty for none.
pub open spec fn where_text(conds: Seq<(String, QueryOperator)>, ks: Seq<int>) -> Seq<char> {
    if ks.len() == 0 {
        Seq::empty()
    } else {
        " WHERE "@ + join(condition_texts(conds, ks), " AND "@)
    }
}

pub open spec fn where_bindings(conds: Seq<(String, QueryOperator)>, ks: Seq<int>) -> Seq<(Seq<char>, ValueModel)>
    decreases ks.len(),
{
    if ks.len() == 0 {
        Seq::empty()
    } else {
        where_bindings(conds, ks.drop_last()) + op_bindings(conds[ks.last()].0@, conds[ks.last()].1)
    }
}

/// Some condition at `ks` is an `In` with no values.
pub open spec fn has_empty_in(conds: Seq<(String, QueryOperator)>, ks: Seq<int>) -> bool {
    exists|j: int|
        0 <= j < ks.len() && match #[trigger] conds[ks[j]].1 {
            QueryOperator::In(vs) => vs@.len() == 0,
            _ => false,
        }
}

pub open spec fn entry_names<T>(entries: Seq<(String, T)>, ks: Seq<int>) -> Seq<Seq<char>> {
    ks.map_values(|k: int| entries[k].0@)
}

pub open spec fn entry_bindings(entries: Seq<(String, Value)>, ks: Seq<int>) -> Seq<(Seq<char>, ValueModel)> {
    ks.map_values(|k: int| (entries[k].0@, entries[k].1@))
}

/// The table that an operation names, if the schema declares it.
pub open spec fn target(s: Schema, table: String) -> Option<TableDefinition> {
    match s.table_named(table@) {
        Some(i) => Some(s.tables@[i]),
        None => None,
    }
}

pub open spec fn create_spec(c: CreateOperation, s: Schema) -> Compiled {
    match target(s, c.table) {
        Some(t) if keys_declared(t, c.data@) => {
            let ks = picks(t.columns@, c.data@);
            let text = if ks.len() == 0 {
                "INSERT INTO "@ + c.table@ + " DEFAULT VALUES"@
            } else {
                "INSERT INTO "@ + c.table@ + " ("@ + join(entry_names(c.data@, ks), ", "@) + ") VALUES ("@
                    + placeholders(ks.len()) + ")"@
            };
            Ok((text, entry_bindings(c.data@, ks)))
        },
        _ => Err(SqlError::InvalidIdentifier),
    }
}

/// The projection of a read: the listed fields, or every column.
pub open spec fn projection_text(fields: Option<Vec<String>>) -> Seq<char> {
    match fields {
        Some(fs) if fs@.len() > 0 => join(views(fs@), ", "@),
        _ => "*"@,
    }
}

pub open spec fn order_item_text(o: (String, bool)) -> Seq<char> {
    o.0@ + if o.1 { " ASC"@ } else { " DESC"@ }
}

/// The ORDER BY clause, with the fields in the caller's order.
pub open spec fn order_text(order_by: Option<Vec<(String, bool)>>) -> Seq<char> {
    match order_by {
        Some(os) if os@.len() > 0 => " ORDER BY "@ + join(os@.map_values(|o: (String, bool)| order_item_text(o)), ", "@),
        _ => Seq::empty(),
    }
}

/// LIMIT and OFFSET; an offset without a limit comes with `LIMIT -1`, no limit.
pub open spec fn paging_text(limit: Option<u32>, offset: Option<u32>) -> Seq<char> {
    let l = match limit {
        Some(n) => " LIMIT "@ + decimal(n as nat),
        None => if offset is Some { " LIMIT -1"@ } else { Seq::empty() },
    };
    let o = match offset {
        Some(n) => " OFFSET "@ + decimal(n as nat),
        None => Seq::empty(),
    };
    l + o
}

pub open spec fn fields_declared(t: TableDefinition, fields: Option<Vec<String>>) -> bool {
    match fields {
        Some(fs) => forall|k: int| 0 <= k < fs@.len() ==> t.has_column(#[trigger] fs@[k]@),
        None => true,
    }
}

pub open spec fn order_declared(t: TableDefinition, order_by: Option<Vec<(String, bool)>>) -> bool {
    match order_by {
        Some(os) => forall|k: int| 0 <= k < os@.len() ==> t.has_column(#[trigger] os@[k].0@),
        None => true,
    }
}

pub open spec fn read_spec(r: ReadOperation, s: Schema) -> Compiled {
    match target(s, r.table) {
        Some(t) if keys_declared(t, r.query.conditions@) && fields_declared(t, r.fields) && order_declared(
            t,
            r.order_by,
        ) => {
            let conds = r.query.conditions@;
            let ks = picks(t.columns@, conds);
            if has_empty_in(conds, ks) {
                Err(SqlError::EmptyInList)
            } else {
                Ok(
                    (
                        "SELECT "@ + projection_text(r.fields) + " FROM "@ + r.table@ + where_text(conds, ks)
                            + order_text(r.order_by) + paging_text(r.limit, r.offset),
                        where_bindings(conds, ks),
                    ),
                )
            }
        },
        _ => Err(SqlError::InvalidIdentifier),
    }
}

pub open spec fn update_spec(u: UpdateOperation, s: Schema) -> Compiled {
    match target(s, u.table) {
        Some(t) if keys_declared(t, u.query.conditions@) && keys_declared(t, u.updates@) => {
            let conds = u.query.conditions@;
            let ks = picks(t.columns@, conds);
            let us = picks(t.columns@, u.updates@);
            if has_empty_in(conds, ks) {
                Err(SqlError::EmptyInList)
            } else {
                Ok(
                    (
                        "UPDATE "@ + u.table@ + " SET "@ + join(
                            entry_names(u.updates@, us).map_values(|n: Seq<char>| n + " = ?"@),
                            ", "@,
                        ) + where_text(conds, ks),
                        entry_bindings(u.updates@, us) + where_bindings(conds, ks),
                    ),
                )
            }
        },
        _ => Err(SqlError::InvalidIdentifier),
    }
}

pub open spec fn delete_spec(d: DeleteOperation, s: Schema) -> Compiled {
    match target(s, d.table) {
        Some(t) if keys_declared(t, d.query.conditions@) => {
            let conds = d.query.conditions@;
            let ks = picks(t.columns@, conds);
            if has_empty_in(conds, ks) {
                Err(SqlError::EmptyInList)
            } else {
                Ok(("DELETE FROM "@ + d.table@ + where_text(conds, ks), where_bindings(conds, ks)))
            }
        },
        _ => Err(SqlError::InvalidIdentifier),
    }
}

/// What compiling `op` against `s` gives.
pub open spec fn compile_spec(op: CrudOperation, s: Schema) -> Compiled {
    match op {
        CrudOperation::Create(c) => create_spec(c, s),
        CrudOperation::Read(r) => read_spec(r, s),
        CrudOperation::Update(u) => update_spec(u, s),
        CrudOperation::Delete(d) => delete_spec(d, s),
    }
}

/// Every table and field name that `op` mentions is declared by `s`.
pub open spec fn identifiers_declared(op: CrudOperation, s: Schema) -> bool {
    match op {
        CrudOperation::Create(c) => match target(s, c.table) {
            Some(t) => keys_declared(t, c.data@),
            None => false,
        },
        CrudOperation::Read(r) => match target(s, r.table) {
            Some(t) => keys_declared(t, r.query.conditions@) && fields_declared(t, r.fields)
                && order_declared(t, r.order_by),
            None => false,
        },
        CrudOperation::Update(u) => match target(s, u.table) {
            Some(t) => keys_declared(t, u.query.conditions@) && keys_declared(t, u.updates@),
            None => false,
        },
        CrudOperation::Delete(d) => match target(s, d.table) {
            Some(t) => keys_declared(t, d.query.conditions@),
            None => false,
        },
    }
}

/// The positions of the entries that stand for the columns of `cols`.
fn pick<T>(cols: &Vec<ColumnDefinition>, entries: &Vec<(String, T)>) -> (r: Vec<usize>)
    ensures
        ints(r@) == picks(cols@, entries@),
        forall|j: int| 0 <= j < r@.len() ==> r@[j] < entries@.len(),
{
    let mut r: Vec<usize> = Vec::new();
    let mut i: usize = 0;
    while i < cols.len()
        invariant
            0 <= i <= cols@.len(),
            ints(r@) =~= picks(cols@.take(i as int), entries@),
            forall|j: int| 0 <= j < r@.len() ==> r@[j] < entries@.len(),
        decreases cols@.len() - i,
    {
        assert(cols@.take(i + 1).drop_last() =~= cols@.take(i as int));
        match find_entry(entries, &cols[i].name) {
            Some(k) => {
                r.push(k);
            },
            None => {},
        }
        i = i + 1;
    }
    assert(cols@.take(i as int) =~= cols@);
    r
}

/// Whether every key of `entries` is a column of `t`.
fn check_keys<T>(t: &TableDefinition, entries: &Vec<(String, T)>) -> (r: bool)
    ensures
        r == keys_declared(*t, entries@),
{
    let mut k: usize = 0;
    while k < entries.len()
        invariant
            0 <= k <= entries@.len(),
            forall|m: int| 0 <= m < k ==> t.has_column(#[trigger] entries@[m].0@),
        decreases entries@.len() - k,
    {
        if t.find_column(&entries[k].0).is_none() {
            return false;
        }
        k = k + 1;
    }
    true
}

fn push_binding(params: &mut Vec<(String, Value)>, name: &String, v: Value)
    ensures
        bindings(final(params)@) == bindings(old(params)@).push((name@, v@)),
{
    let n = name.clone();
    params.push((n, v));
    assert(bindings(params@) =~= bindings(old(params)@).push((name@, v@)));
}

fn push_operator(text: &mut String, op: &QueryOperator)
    ensures
        final(text)@ == old(text)@ + op_text(*op),
{
    match op {
        QueryOperator::Equal(_) => text.append("= ?"),
        QueryOperator::NotEqual(_) => text.append("<> ?"),
        QueryOperator::GreaterThan(_) => text.append("> ?"),
        QueryOperator::GreaterThanOrEqual(_) => text.append(">= ?"),
        QueryOperator::LessThan(_) => text.append("< ?"),
        QueryOperator::LessThanOrEqual(_) => text.append("<= ?"),
        QueryOperator::Like(_) => text.append("LIKE ?"),
        QueryOperator::In(vs) => {
            text.append("IN (");
            push_placeholders(text, vs.len());
            text.append(")");
            assert(final(text)@ =~= old(text)@ + op_text(*op));
        },
    }
}

fn push_operator_bindings(params: &mut Vec<(String, Value)>, name: &String, op: &QueryOperator)
    ensures
        bindings(final(params)@) == bindings(old(params)@) + op_bindings(name@, *op),
{
    match op {
        QueryOperator::Equal(v) | QueryOperator::NotEqual(v) | QueryOperator::GreaterThan(v)
        | QueryOperator::GreaterThanOrEqual(v) | QueryOperator::LessThan(v)
        | QueryOperator::LessThanOrEqual(v) => {
            push_binding(params, name, v.duplicate());
            assert(bindings(params@) =~= bindings(old(params)@) + op_bindings(name@, *op));
        },
        QueryOperator::Like(p) => {
            push_binding(params, name, Value::Text(p.clone()));
            assert(bindings(params@) =~= bindings(old(params)@) + op_bindings(name@, *op));
        },
        QueryOperator::In(vs) => {
            let ghost all = vs@.map_values(|v: Value| (name@, v@));
            let mut i: usize = 0;
            while i < vs.len()
                invariant
                    0 <= i <= vs@.len(),
                    all == vs@.map_values(|v: Value| (name@, v@)),
                    bindings(params@) =~= bindings(old(params)@) + all.take(i as int),
                decreases vs@.len() - i,
            {
                push_binding(params, name, vs[i].duplicate());
                i = i + 1;
            }
            assert(all.take(i as int) =~= all);
        },
    }
}

/// Appends the WHERE clause of the conditions at `ks`, and binds their values.
fn push_where(
    text: &mut String,
    params: &mut Vec<(String, Value)>,
    conds: &Vec<(String, QueryOperator)>,
    ks: &Vec<usize>,
)
    requires
        forall|j: int| 0 <= j < ks@.len() ==> ks@[j] < conds@.len(),
    ensures
        final(text)@ == old(text)@ + where_text(conds@, ints(ks@)),
        bindings(final(params)@) == bindings(old(params)@) + where_bindings(conds@, ints(ks@)),
{
    if ks.len() == 0 {
        assert(bindings(params@) =~= bindings(old(params)@) + where_bindings(conds@, ints(ks@)));
        return;
    }
    text.append(" WHERE ");
    let mut pieces: Vec<String> = Vec::new();
    let mut j: usize = 0;
    while j < ks.len()
        invariant
            0 <= j <= ks@.len(),
            forall|m: int| 0 <= m < ks@.len() ==> ks@[m] < conds@.len(),
            pieces@.len() == j,
            forall|m: int| 0 <= m < j ==> #[trigger] pieces@[m]@ == condition_texts(conds@, ints(ks@))[m],
            bindings(params@) =~= bindings(old(params)@) + where_bindings(conds@, ints(ks@).take(j as int)),
        decreases ks@.len() - j,
    {
        let k = ks[j];
        let mut piece = conds[k].0.clone();
        piece.append(" ");
        push_operator(&mut piece, &conds[k].1);
        push_operator_bindings(params, &conds[k].0, &conds[k].1);
        pieces.push(piece);
        assert(ints(ks@).take(j + 1).drop_last() =~= ints(ks@).take(j as int));
        assert(pieces@[j as int]@ == condition_texts(conds@, ints(ks@))[j as int]);
        j = j + 1;
    }
    assert(ints(ks@).take(j as int) =~= ints(ks@));
    assert(views(pieces@) =~= condition_texts(conds@, ints(ks@)));
    push_joined(text, &pieces, " AND ");
}

/// Whether some condition at `ks` is an `In` with no values.
fn check_empty_in(conds: &Vec<(String, QueryOperator)>, ks: &Vec<usize>) -> (r: bool)
    requires
        forall|j: int| 0 <= j < ks@.len() ==> ks@[j] < conds@.len(),
    ensures
        r == has_empty_in(conds@, ints(ks@)),
{
    let mut j: usize = 0;
    while j < ks.len()
        invariant
            0 <= j <= ks@.len(),
            forall|m: int| 0 <= m < ks@.len() ==> ks@[m] < conds@.len(),
            forall|m: int|
                0 <= m < j ==> !(match #[trigger] conds@[ints(ks@)[m]].1 {
                    QueryOperator::In(vs) => vs@.len() == 0,
                    _ => false,
                }),
        decreases ks@.len() - j,
    {
        match &conds[ks[j]].1 {
            QueryOperator::In(vs) => {
                if vs.len() == 0 {
                    assert(ints(ks@)[j as int] == ks@[j as int] as int);
                    return true;
                }
            },
            _ => {},
        }
        assert(ints(ks@)[j as int] == ks@[j as int] as int);
        j = j + 1;
    }
    false
}

/// The names of the entries at `ks`, each followed by `suffix`, and their
/// values bound under those names.
fn entry_pieces(entries: &Vec<(String, Value)>, ks: &Vec<usize>, suffix: &str) -> (r: (
    Vec<String>,
    Vec<(String, Value)>,
))
    requires
        forall|j: int| 0 <= j < ks@.len() ==> ks@[j] < entries@.len(),
    ensures
        views(r.0@) == entry_names(entries@, ints(ks@)).map_values(|n: Seq<char>| n + suffix@),
        bindings(r.1@) == entry_bindings(entries@, ints(ks@)),
{
    let mut names: Vec<String> = Vec::new();
    let mut params: Vec<(String, Value)> = Vec::new();
    let mut j: usize = 0;
    while j < ks.len()
        invariant
            0 <= j <= ks@.len(),
            forall|m: int| 0 <= m < ks@.len() ==> ks@[m] < entries@.len(),
            names@.len() == j,
            forall|m: int|
                0 <= m < j ==> #[trigger] names@[m]@ == entries@[ks@[m] as int].0@ + suffix@,
            bindings(params@) =~= entry_bindings(entries@, ints(ks@).take(j as int)),
        decreases ks@.len() - j,
    {
        let k = ks[j];
        let mut name = entries[k].0.clone();
        name.append(suffix);
        names.push(name);
        push_binding(&mut params, &entries[k].0, entries[k].1.duplicate());
        assert(ints(ks@).take(j + 1) =~= ints(ks@).take(j as int).push(k as int));
        j = j + 1;
    }
    assert(ints(ks@).take(j as int) =~= ints(ks@));
    assert(views(names@) =~= entry_names(entries@, ints(ks@)).map_values(|n: Seq<char>| n + suffix@));
    (names, params)
}

fn compile_create(c: &CreateOperation, s: &Schema) -> (r: Result<SqlQuery, SqlError>)
    ensures
        compiled_view(r) == create_spec(*c, *s),
{
    let i = match s.find_table(&c.table) {
        Some(i) => i,
        None => return Err(SqlError::InvalidIdentifier),
    };
    let t = &s.tables[i];
    if !check_keys(t, &c.data) {
        return Err(SqlError::InvalidIdentifier);
    }
    let ks = pick(&t.columns, &c.data);
    let mut text = String::from_str("INSERT INTO ");
    text.append(c.table.as_str());
    if ks.len() == 0 {
        text.append(" DEFAULT VALUES");
        let params: Vec<(String, Value)> = Vec::new();
        assert(bindings(params@) =~= entry_bindings(c.data@, ints(ks@)));
        return Ok(SqlQuery { statement: text, params: Params { values: params } });
    }
    let (names, params) = entry_pieces(&c.data, &ks, "");
    proof {
        reveal_strlit("");
        assert(entry_names(c.data@, ints(ks@)).map_values(|n: Seq<char>| n + ""@) =~= entry_names(
            c.data@,
            ints(ks@),
        ));
    }
    text.append(" (");
    push_joined(&mut text, &names, ", ");
    text.append(") VALUES (");
    push_placeholders(&mut text, ks.len());
    text.append(")");
    Ok(SqlQuery { statement: text, params: Params { values: params } })
}

fn check_order(t: &TableDefinition, os: &Vec<(String, bool)>) -> (r: bool)
    ensures
        r == order_declared(*t, Some(*os)),
{
    let mut k: usize = 0;
    while k < os.len()
        invariant
            0 <= k <= os@.len(),
            forall|m: int| 0 <= m < k ==> t.has_column(#[trigger] os@[m].0@),
        decreases os@.len() - k,
    {
        if t.find_column(&os[k].0).is_none() {
            let ghost declared = Some(*os);
            assert(!t.has_column(declared->0@[k as int].0@));
            return false;
        }
        k = k + 1;
    }
    true
}

fn push_order(text: &mut String, order_by: &Option<Vec<(String, bool)>>)
    ensures
        final(text)@ == old(text)@ + order_text(*order_by),
{
    match order_by {
        Some(os) => {
            if os.len() == 0 {
                assert(final(text)@ =~= old(text)@ + order_text(*order_by));
                return;
            }
            let mut pieces: Vec<String> = Vec::new();
            let mut k: usize = 0;
            while k < os.len()
                invariant
                    0 <= k <= os@.len(),
                    pieces@.len() == k,
                    forall|m: int| 0 <= m < k ==> #[trigger] pieces@[m]@ == order_item_text(os@[m]),
                decreases os@.len() - k,
            {
                let mut piece = os[k].0.clone();
                if os[k].1 {
                    piece.append(" ASC");
                } else {
                    piece.append(" DESC");
                }
                pieces.push(piece);
                k = k + 1;
            }
            assert(views(pieces@) =~= os@.map_values(|o: (String, bool)| order_item_text(o)));
            text.append(" ORDER BY ");
            push_joined(text, &pieces, ", ");
            assert(final(text)@ =~= old(text)@ + order_text(*order_by));
        },
        None => {
            assert(final(text)@ =~= old(text)@ + order_text(*order_by));
        },
    }
}

fn push_paging(text: &mut String, limit: Option<u32>, offset: Option<u32>)
    ensures
        final(text)@ == old(text)@ + paging_text(limit, offset),
{
    match limit {
        Some(n) => {
            text.append(" LIMIT ");
            push_unsigned(text, n as u64);
        },
        None => {
            if offset.is_some() {
                text.append(" LIMIT -1");
            }
        },
    }
    match offset {
        Some(n) => {
            text.append(" OFFSET ");
            push_unsigned(text, n as u64);
        },
        None => {},
    }
    assert(final(text)@ =~= old(text)@ + paging_text(limit, offset));
}

fn compile_read(r: &ReadOperation, s: &Schema) -> (res: Result<SqlQuery, SqlError>)
    ensures
        compiled_view(res) == read_spec(*r, *s),
{
    let i = match s.find_table(&r.table) {
        Some(i) => i,
        None => return Err(SqlError::InvalidIdentifier),
    };
    let t = &s.tables[i];
    let fields_ok = match &r.fields {
        Some(fs) => t.has_columns(fs),
        None => true,
    };
    let order_ok = match &r.order_by {
        Some(os) => check_order(t, os),
        None => true,
    };
    if !check_keys(t, &r.query.conditions) || !fields_ok || !order_ok {
        return Err(SqlError::InvalidIdentifier);
    }
    let conds = &r.query.conditions;
    let ks = pick(&t.columns, conds);
    if check_empty_in(conds, &ks) {
        return Err(SqlError::EmptyInList);
    }
    let mut text = String::from_str("SELECT ");
    match &r.fields {
        Some(fs) => {
            if fs.len() > 0 {
                push_joined(&mut text, fs, ", ");
            } else {
                text.append("*");
            }
        },
        None => {
            text.append("*");
        },
    }
    text.append(" FROM ");
    text.append(r.table.as_str());
    let mut params: Vec<(String, Value)> = Vec::new();
    assert(bindings(params@) =~= Seq::empty());
    push_where(&mut text, &mut params, conds, &ks);
    push_order(&mut text, &r.order_by);
    push_paging(&mut text, r.limit, r.offset);
    assert(bindings(params@) =~= where_bindings(conds@, ints(ks@)));
    Ok(SqlQuery { statement: text, params: Params { values: params } })
}

fn compile_update(u: &UpdateOperation, s: &Schema) -> (r: Result<SqlQuery, SqlError>)
    ensures
        compiled_view(r) == update_spec(*u, *s),
{
    let i = match s.find_table(&u.table) {
        Some(i) => i,
        None => return Err(SqlError::InvalidIdentifier),
    };
    let t = &s.tables[i];
    if !check_keys(t, &u.query.conditions) || !check_keys(t, &u.updates) {
        return Err(SqlError::InvalidIdentifier);
    }
    let conds = &u.query.conditions;
    let ks = pick(&t.columns, conds);
    if check_empty_in(conds, &ks) {
        return Err(SqlError::EmptyInList);
    }
    let us = pick(&t.columns, &u.updates);
    let (pieces, mut params) = entry_pieces(&u.updates, &us, " = ?");
    let mut text = String::from_str("UPDATE ");
    text.append(u.table.as_str());
    text.append(" SET ");
    push_joined(&mut text, &pieces, ", ");
    push_where(&mut text, &mut params, conds, &ks);
    Ok(SqlQuery { statement: text, params: Params { values: params } })
}

fn compile_delete(d: &DeleteOperation, s: &Schema) -> (r: Result<SqlQuery, SqlError>)
    ensures
        compiled_view(r) == delete_spec(*d, *s),
{
    let i = match s.find_table(&d.table) {
        Some(i) => i,
        None => return Err(SqlError::InvalidIdentifier),
    };
    let t = &s.tables[i];
    if !check_keys(t, &d.query.conditions) {
        return Err(SqlError::InvalidIdentifier);
    }
    let conds = &d.query.conditions;
    let ks = pick(&t.columns, conds);
    if check_empty_in(conds, &ks) {
        return Err(SqlError::EmptyInList);
    }
    let mut text = String::from_str("DELETE FROM ");
    text.append(d.table.as_str());
    let mut params: Vec<(String, Value)> = Vec::new();
    assert(bindings(params@) =~= Seq::empty());
    push_where(&mut text, &mut params, conds, &ks);
    assert(bindings(params@) =~= where_bindings(conds@, ints(ks@)));
    Ok(SqlQuery { statement: text, params: Params { values: params } })
}

/// Compiles `op` against `schema` into a statement and its bindings.
///
/// Every table and field name of `op` must be declared by `schema`, or the
/// result is `InvalidIdentifier`; an `In` condition with no values gives
/// `EmptyInList`. Fields, conditions and assignments come in the order in
/// which the table declares its columns; the projection and the ORDER BY
/// fields in the caller's order.
pub fn compile(op: &CrudOperation, schema: &Schema) -> (r: Result<SqlQuery, SqlError>)
    ensures
        compiled_view(r) == compile_spec(*op, *schema),
        r is Err && r->Err_0 == SqlError::InvalidIdentifier <==> !identifiers_declared(*op, *schema),
{
    match op {
        CrudOperation::Create(c) => compile_create(c, schema),
        CrudOperation::Read(r) => compile_read(r, schema),
        CrudOperation::Update(u) => compile_update(u, schema),
        CrudOperation::Delete(d) => compile_delete(d, schema),
    }
}

/// Compiling the same operation against the same schema twice gives the
/// same text and the same bindings, in the same order.
pub proof fn compile_is_deterministic(
    op: CrudOperation,
    schema: Schema,
    first: Result<SqlQuery, SqlError>,
    second: Result<SqlQuery, SqlError>,
)
    requires
        compiled_view(first) == compile_spec(op, schema),
        compiled_view(second) == compile_spec(op, schema),
    ensures
        compiled_view(first) == compiled_view(second),
{
}

/// An operation that names a table or a field that the schema does not
/// declare compiles to `InvalidIdentifier`, and so to no statement at all.
pub proof fn undeclared_names_are_rejected(op: CrudOperation, schema: Schema)
    requires
        !identifiers_declared(op, schema),
    ensures
        compile_spec(op, schema) == Err::<(Seq<char>, Seq<(Seq<char>, ValueModel)>), SqlError>(
            SqlError::InvalidIdentifier,
        ),
{
}

} // verus!
