//! The idempotent DDL that brings a database to a schema's shape.
use crate::error::SqlError;
use crate::schema::{
    ColumnConstraint, ColumnDefinition, DataType, DefaultValue, ForeignKey, ForeignKeyAction,
    IndexDefinition, Schema, TableDefinition,
};
use crate::text::{join, push_joined, push_signed, signed_decimal, views};
use vstd::prelude::*;

verus! {

pub open spec fn type_text(dt: DataType) -> Seq<char> {
    match dt {
        DataType::Integer => "INTEGER"@,
        DataType::Text => "TEXT"@,
        DataType::Real => "REAL"@,
        DataType::Blob => "BLOB"@,
    }
}

pub open spec fn constraint_text(c: ColumnConstraint) -> Seq<char> {
    match c {
        ColumnConstraint::PrimaryKey => " PRIMARY KEY"@,
        ColumnConstraint::NotNull => " NOT NULL"@,
        ColumnConstraint::Unique => " UNIQUE"@,
    }
}

/// The inline constraints, in the order given.
pub open spec fn constraints_text(cs: Seq<ColumnConstraint>) -> Seq<char>
    decreases cs.len(),
{
    if cs.len() == 0 {
        Seq::empty()
    } else {
        constraints_text(cs.drop_last()) + constraint_text(cs.last())
    }
}

/// One character of a string literal: a quote is doubled.
pub open spec fn escaped_char(c: char) -> Seq<char> {
    if c == '\'' {
        "''"@
    } else {
        seq![c]
    }
}

pub open spec fn escaped(s: Seq<char>) -> Seq<char>
    decreases s.len(),
{
    if s.len() == 0 {
        Seq::empty()
    } else {
        escaped(s.drop_last()) + escaped_char(s.last())
    }
}

/// A string literal of SQL that stands for `s`.
pub open spec fn quoted(s: Seq<char>) -> Seq<char> {
    "'"@ + escaped(s) + "'"@
}

pub open spec fn default_text(d: Option<DefaultValue>) -> Seq<char> {
    match d {
        None => Seq::empty(),
        Some(DefaultValue::Integer(n)) => " DEFAULT "@ + signed_decimal(n as int),
        Some(DefaultValue::Text(s)) => " DEFAULT "@ + quoted(s@),
        Some(DefaultValue::Real { mantissa, exponent }) => " DEFAULT "@ + signed_decimal(mantissa as int) + "e"@
            + signed_decimal(exponent as int),
        Some(DefaultValue::Null) => " DEFAULT NULL"@,
        Some(DefaultValue::CurrentTimestamp) => " DEFAULT CURRENT_TIMESTAMP"@,
    }
}

pub open spec fn column_text(c: ColumnDefinition) -> Seq<char> {
    c.name@ + " "@ + type_text(c.data_type) + constraints_text(c.constraints@) + default_text(c.default_value)
}

pub open spec fn action_text(a: ForeignKeyAction) -> Seq<char> {
    match a {
        ForeignKeyAction::NoAction => "NO ACTION"@,
        ForeignKeyAction::Cascade => "CASCADE"@,
        ForeignKeyAction::SetNull => "SET NULL"@,
        ForeignKeyAction::SetDefault => "SET DEFAULT"@,
        ForeignKeyAction::Restrict => "RESTRICT"@,
    }
}

pub open spec fn foreign_key_text(fk: ForeignKey) -> Seq<char> {
    "FOREIGN KEY ("@ + fk.column@ + ") REFERENCES "@ + fk.foreign_table@ + " ("@ + fk.foreign_column@
        + ") ON DELETE "@ + action_text(fk.on_delete) + " ON UPDATE "@ + action_text(fk.on_update)
}

/// The definitions inside `CREATE TABLE`: the columns in declaration order,
/// the table's primary key if it names any column, then the foreign keys.
pub open spec fn table_items(t: TableDefinition) -> Seq<Seq<char>> {
    t.columns@.map_values(|c: ColumnDefinition| column_text(c)) + (if t.primary_key@.len() > 0 {
        seq!["PRIMARY KEY ("@ + join(views(t.primary_key@), ", "@) + ")"@]
    } else {
        Seq::empty()
    }) + t.foreign_keys@.map_values(|fk: ForeignKey| foreign_key_text(fk))
}

pub open spec fn create_table_text(t: TableDefinition) -> Seq<char> {
    "CREATE TABLE IF NOT EXISTS "@ + t.name@ + " ("@ + join(table_items(t), ", "@) + ")"@
}

pub open spec fn create_index_text(table: Seq<char>, x: IndexDefinition) -> Seq<char> {
    "CREATE "@ + (if x.unique { "UNIQUE "@ } else { Seq::empty() }) + "INDEX IF NOT EXISTS "@ + x.name@
        + " ON "@ + table + " ("@ + join(views(x.columns@), ", "@) + ")"@
}

/// A table's statement, then one statement per index of it.
pub open spec fn table_statements(t: TableDefinition) -> Seq<Seq<char>> {
    seq![create_table_text(t)] + t.indexes@.map_values(|x: IndexDefinition| create_index_text(t.name@, x))
}

/// The statements of `tables`, table by table in declaration order.
pub open spec fn schema_statements(tables: Seq<TableDefinition>) -> Seq<Seq<char>>
    decreases tables.len(),
{
    if tables.len() == 0 {
        Seq::empty()
    } else {
        schema_statements(tables.drop_last()) + table_statements(tables.last())
    }
}

fn type_str(dt: DataType) -> (r: &'static str)
    ensures
        r@ == type_text(dt),
{
    match dt {
        DataType::Integer => "INTEGER",
        DataType::Text => "TEXT",
        DataType::Real => "REAL",
        DataType::Blob => "BLOB",
    }
}

fn action_str(a: ForeignKeyAction) -> (r: &'static str)
    ensures
        r@ == action_text(a),
{
    match a {
        ForeignKeyAction::NoAction => "NO ACTION",
        ForeignKeyAction::Cascade => "CASCADE",
        ForeignKeyAction::SetNull => "SET NULL",
        ForeignKeyAction::SetDefault => "SET DEFAULT",
        ForeignKeyAction::Restrict => "RESTRICT",
    }
}

/// Appends `s` as a string literal of SQL.
pub fn push_quoted(text: &mut String, s: &String)
    ensures
        final(text)@ == old(text)@ + quoted(s@),
{
    text.append("'");
    let ghost start = text@;
    let n = s.as_str().unicode_len();
    let mut i: usize = 0;
    while i < n
        invariant
            0 <= i <= n,
            n == s@.len(),
            text@ == start + escaped(s@.take(i as int)),
        decreases n - i,
    {
        assert(s@.take(i + 1).drop_last() =~= s@.take(i as int));
        let c = s.as_str().get_char(i);
        if c == '\'' {
            text.append("''");
        } else {
            let one = s.as_str().substring_char(i, i + 1);
            assert(one@ =~= seq![c]);
            text.append(one);
        }
        assert(text@ =~= start + escaped(s@.take(i + 1)));
        i = i + 1;
    }
    assert(s@.take(i as int) =~= s@);
    text.append("'");
    assert(final(text)@ =~= old(text)@ + quoted(s@));
}

fn push_constraints(text: &mut String, cs: &Vec<ColumnConstraint>)
    ensures
        final(text)@ == old(text)@ + constraints_text(cs@),
{
    let ghost start = text@;
    let mut i: usize = 0;
    while i < cs.len()
        invariant
            0 <= i <= cs@.len(),
            text@ == start + constraints_text(cs@.take(i as int)),
        decreases cs@.len() - i,
    {
        assert(cs@.take(i + 1).drop_last() =~= cs@.take(i as int));
        match cs[i] {
            ColumnConstraint::PrimaryKey => text.append(" PRIMARY KEY"),
            ColumnConstraint::NotNull => text.append(" NOT NULL"),
            ColumnConstraint::Unique => text.append(" UNIQUE"),
        }
        assert(text@ =~= start + constraints_text(cs@.take(i + 1)));
        i = i + 1;
    }
    assert(cs@.take(i as int) =~= cs@);
}

fn push_default(text: &mut String, d: &Option<DefaultValue>)
    ensures
        final(text)@ == old(text)@ + default_text(*d),
{
    match d {
        None => {},
        Some(DefaultValue::Integer(n)) => {
            text.append(" DEFAULT ");
            push_signed(text, *n);
        },
        Some(DefaultValue::Text(s)) => {
            text.append(" DEFAULT ");
            push_quoted(text, s);
        },
        Some(DefaultValue::Real { mantissa, exponent }) => {
            text.append(" DEFAULT ");
            push_signed(text, *mantissa);
            text.append("e");
            push_signed(text, *exponent as i64);
        },
        Some(DefaultValue::Null) => text.append(" DEFAULT NULL"),
        Some(DefaultValue::CurrentTimestamp) => text.append(" DEFAULT CURRENT_TIMESTAMP"),
    }
    assert(final(text)@ =~= old(text)@ + default_text(*d));
}

/// The definition of one column.
pub fn column_sql(c: &ColumnDefinition) -> (r: String)
    ensures
        r@ == column_text(*c),
{
    let mut text = c.name.clone();
    text.append(" ");
    text.append(type_str(c.data_type));
    push_constraints(&mut text, &c.constraints);
    push_default(&mut text, &c.default_value);
    assert(text@ =~= column_text(*c));
    text
}

fn foreign_key_sql(fk: &ForeignKey) -> (r: String)
    ensures
        r@ == foreign_key_text(*fk),
{
    let mut text = String::from_str("FOREIGN KEY (");
    text.append(fk.column.as_str());
    text.append(") REFERENCES ");
    text.append(fk.foreign_table.as_str());
    text.append(" (");
    text.append(fk.foreign_column.as_str());
    text.append(") ON DELETE ");
    text.append(action_str(fk.on_delete));
    text.append(" ON UPDATE ");
    text.append(action_str(fk.on_update));
    assert(text@ =~= foreign_key_text(*fk));
    text
}

/// The `CREATE TABLE IF NOT EXISTS` statement of a table.
pub fn create_table_sql(t: &TableDefinition) -> (r: String)
    ensures
        r@ == create_table_text(*t),
{
    let mut items: Vec<String> = Vec::new();
    let mut j: usize = 0;
    while j < t.columns.len()
        invariant
            0 <= j <= t.columns@.len(),
            items@.len() == j,
            forall|m: int| 0 <= m < j ==> #[trigger] items@[m]@ == column_text(t.columns@[m]),
        decreases t.columns@.len() - j,
    {
        items.push(column_sql(&t.columns[j]));
        j = j + 1;
    }
    let ghost n_cols = items@.len();
    if t.primary_key.len() > 0 {
        let mut pk = String::from_str("PRIMARY KEY (");
        push_joined(&mut pk, &t.primary_key, ", ");
        pk.append(")");
        items.push(pk);
    }
    let ghost n_head = items@.len();
    let mut f: usize = 0;
    while f < t.foreign_keys.len()
        invariant
            0 <= f <= t.foreign_keys@.len(),
            items@.len() == n_head + f,
            n_head == n_cols + (if t.primary_key@.len() > 0 { 1int } else { 0int }),
            n_cols == t.columns@.len(),
            forall|m: int| 0 <= m < n_cols ==> #[trigger] items@[m]@ == column_text(t.columns@[m]),
            t.primary_key@.len() > 0 ==> items@[n_cols as int]@ == "PRIMARY KEY ("@ + join(
                views(t.primary_key@),
                ", "@,
            ) + ")"@,
            forall|m: int| 0 <= m < f ==> #[trigger] items@[n_head + m]@ == foreign_key_text(t.foreign_keys@[m]),
        decreases t.foreign_keys@.len() - f,
    {
        items.push(foreign_key_sql(&t.foreign_keys[f]));
        f = f + 1;
    }
    assert(views(items@) =~= table_items(*t)) by {
        let cols = t.columns@.map_values(|c: ColumnDefinition| column_text(c));
        let pk: Seq<Seq<char>> = if t.primary_key@.len() > 0 {
            seq!["PRIMARY KEY ("@ + join(views(t.primary_key@), ", "@) + ")"@]
        } else {
            Seq::empty()
        };
        let fks = t.foreign_keys@.map_values(|fk: ForeignKey| foreign_key_text(fk));
        assert(table_items(*t) == cols + pk + fks);
        assert forall|m: int| 0 <= m < items@.len() implies views(items@)[m] == (cols + pk + fks)[m] by {
            if m < n_cols {
            } else if m < n_head {
            } else {
                assert(items@[n_head + (m - n_head)]@ == foreign_key_text(t.foreign_keys@[m - n_head]));
            }
        }
    }
    let mut text = String::from_str("CREATE TABLE IF NOT EXISTS ");
    text.append(t.name.as_str());
    text.append(" (");
    push_joined(&mut text, &items, ", ");
    text.append(")");
    assert(text@ =~= create_table_text(*t));
    text
}

/// The `CREATE INDEX IF NOT EXISTS` statement of an index on `table`.
pub fn create_index_sql(table: &String, x: &IndexDefinition) -> (r: String)
    ensures
        r@ == create_index_text(table@, *x),
{
    let mut text = String::from_str("CREATE ");
    if x.unique {
        text.append("UNIQUE ");
    }
    text.append("INDEX IF NOT EXISTS ");
    text.append(x.name.as_str());
    text.append(" ON ");
    text.append(table.as_str());
    text.append(" (");
    push_joined(&mut text, &x.columns, ", ");
    text.append(")");
    assert(text@ =~= create_index_text(table@, *x));
    text
}

/// The DDL of a schema, table by table: each table's statement, then its
/// indexes'.
pub fn schema_sql(schema: &Schema) -> (r: Vec<String>)
    ensures
        views(r@) == schema_statements(schema.tables@),
{
    let mut out: Vec<String> = Vec::new();
    let mut i: usize = 0;
    while i < schema.tables.len()
        invariant
            0 <= i <= schema.tables@.len(),
            views(out@) =~= schema_statements(schema.tables@.take(i as int)),
        decreases schema.tables@.len() - i,
    {
        let t = &schema.tables[i];
        assert(schema.tables@.take(i + 1).drop_last() =~= schema.tables@.take(i as int));
        let ghost before = views(out@);
        out.push(create_table_sql(t));
        assert(views(out@) =~= before + seq![create_table_text(*t)]);
        let mut x: usize = 0;
        while x < t.indexes.len()
            invariant
                0 <= x <= t.indexes@.len(),
                i < schema.tables@.len(),
                *t == schema.tables@[i as int],
                views(out@) =~= before + seq![create_table_text(*t)] + t.indexes@.take(x as int).map_values(
                    |y: IndexDefinition| create_index_text(t.name@, y),
                ),
            decreases t.indexes@.len() - x,
        {
            let ghost prev = out@;
            out.push(create_index_sql(&t.name, &t.indexes[x]));
            assert(t.indexes@.take(x + 1) =~= t.indexes@.take(x as int).push(t.indexes@[x as int]));
            assert(views(out@) =~= views(prev).push(create_index_text(t.name@, t.indexes@[x as int])));
            x = x + 1;
        }
        assert(t.indexes@.take(x as int) =~= t.indexes@);
        i = i + 1;
    }
    assert(schema.tables@.take(i as int) =~= schema.tables@);
    out
}

/// The statements that bring a database to the schema's shape, after the
/// schema has been checked: every statement is `IF NOT EXISTS`, so running
/// them again changes nothing.
pub fn initialization_statements(schema: &Schema) -> (r: Result<Vec<String>, SqlError>)
    ensures
        r is Ok <==> schema.is_valid(),
        match r {
            Ok(stmts) => views(stmts@) == schema_statements(schema.tables@),
            Err(e) => e == SqlError::SchemaValidationError,
        },
{
    schema.validate()?;
    Ok(schema_sql(schema))
}

/// A statement that creates a table or an index only where none of that
/// name exists, and so does nothing when run again.
pub open spec fn creates_if_absent(stmt: Seq<char>) -> bool {
    ||| exists|rest: Seq<char>| stmt == "CREATE TABLE IF NOT EXISTS "@ + rest
    ||| exists|rest: Seq<char>| stmt == "CREATE "@ + "INDEX IF NOT EXISTS "@ + rest
    ||| exists|rest: Seq<char>| stmt == "CREATE "@ + "UNIQUE "@ + "INDEX IF NOT EXISTS "@ + rest
}

/// Every statement of a schema's DDL creates only what is absent.
pub proof fn schema_statements_create_if_absent(tables: Seq<TableDefinition>)
    ensures
        forall|k: int|
            0 <= k < schema_statements(tables).len() ==> creates_if_absent(#[trigger] schema_statements(tables)[k]),
    decreases tables.len(),
{
    if tables.len() > 0 {
        schema_statements_create_if_absent(tables.drop_last());
        let t = tables.last();
        let head = schema_statements(tables.drop_last());
        let stmts = table_statements(t);
        assert forall|k: int| 0 <= k < stmts.len() implies creates_if_absent(#[trigger] stmts[k]) by {
            if k == 0 {
                let rest = t.name@ + " ("@ + join(table_items(t), ", "@) + ")"@;
                assert(stmts[k] =~= "CREATE TABLE IF NOT EXISTS "@ + rest);
                assert(creates_if_absent(stmts[k]));
            } else {
                let x = t.indexes@[k - 1];
                let rest = x.name@ + " ON "@ + t.name@ + " ("@ + join(views(x.columns@), ", "@) + ")"@;
                if x.unique {
                    assert(stmts[k] =~= "CREATE "@ + "UNIQUE "@ + "INDEX IF NOT EXISTS "@ + rest);
                    assert(creates_if_absent(stmts[k]));
                } else {
                    assert(stmts[k] =~= "CREATE "@ + "INDEX IF NOT EXISTS "@ + rest);
                    assert(creates_if_absent(stmts[k]));
                }
            }
        }
        assert forall|k: int|
            0 <= k < schema_statements(tables).len() implies creates_if_absent(#[trigger] schema_statements(tables)[k]) by {
            if k >= head.len() {
                assert(schema_statements(tables)[k] == stmts[k - head.len()]);
            } else {
                assert(schema_statements(tables)[k] == head[k]);
            }
        }
    }
}

} // verus!
