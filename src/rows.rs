//! Driver cells, binding values into them, and reading rows back.
use crate::error::SqlError;
use crate::schema::{DataType, TableDefinition};
use crate::value::{Value, ValueModel};
use vstd::prelude::*;

verus! {

/// A cell as the engine stores it. A real is the bit pattern of an IEEE-754
/// binary64 value.
#[derive(Debug, Clone, PartialEq)]
pub enum Cell {
    Null,
    Integer(i64),
    Real(u64),
    Text(String),
    Blob(Vec<u8>),
}

impl View for Cell {
    type V = ValueModel;

    open spec fn view(&self) -> ValueModel {
        match self {
            Cell::Null => ValueModel::Null,
            Cell::Integer(i) => ValueModel::Integer(*i as int),
            Cell::Real(b) => ValueModel::Real(*b),
            Cell::Text(s) => ValueModel::Text(s@),
            Cell::Blob(b) => ValueModel::Blob(b@),
        }
    }
}

/// The cell that a value is stored as: a boolean as the integer 1 or 0,
/// everything else unchanged.
pub open spec fn bound(v: ValueModel) -> ValueModel {
    match v {
        ValueModel::Boolean(b) => ValueModel::Integer(if b { 1 } else { 0 }),
        _ => v,
    }
}

/// The declared type that a non-null cell's content belongs to.
pub open spec fn cell_type(c: ValueModel) -> DataType {
    match c {
        ValueModel::Real(_) => DataType::Real,
        ValueModel::Text(_) => DataType::Text,
        ValueModel::Blob(_) => DataType::Blob,
        _ => DataType::Integer,
    }
}

/// Reading a cell for a column of the declared type, if one is known: null
/// is always `Null`; otherwise the cell's type must be the declared one, or
/// the result is the cell's own type as a mismatch.
pub open spec fn read_cell(c: ValueModel, declared: Option<DataType>) -> Result<ValueModel, DataType> {
    match c {
        ValueModel::Null => Ok(ValueModel::Null),
        _ => match declared {
            Some(dt) => if cell_type(c) == dt {
                Ok(c)
            } else {
                Err(cell_type(c))
            },
            None => Ok(c),
        },
    }
}

/// Stores a value as a cell.
pub fn bind_value(v: &Value) -> (c: Cell)
    ensures
        c@ == bound(v@),
{
    match v {
        Value::Null => Cell::Null,
        Value::Integer(i) => Cell::Integer(*i),
        Value::Real(b) => Cell::Real(*b),
        Value::Text(s) => Cell::Text(s.clone()),
        Value::Blob(b) => {
            let c = b.clone();
            assert(c@ =~= b@);
            Cell::Blob(c)
        },
        Value::Boolean(b) => Cell::Integer(if *b { 1 } else { 0 }),
    }
}

/// Reads a cell for a column of the declared type, if one is known.
pub fn map_cell(c: &Cell, declared: Option<DataType>) -> (r: Result<Value, DataType>)
    ensures
        match r {
            Ok(v) => read_cell(c@, declared) == Ok::<ValueModel, DataType>(v@),
            Err(t) => read_cell(c@, declared) == Err::<ValueModel, DataType>(t),
        },
{
    let actual = match c {
        Cell::Null => return Ok(Value::Null),
        Cell::Integer(_) => DataType::Integer,
        Cell::Real(_) => DataType::Real,
        Cell::Text(_) => DataType::Text,
        Cell::Blob(_) => DataType::Blob,
    };
    match declared {
        Some(dt) => {
            if dt != actual {
                return Err(actual);
            }
        },
        None => {},
    }
    let v = match c {
        Cell::Null => Value::Null,
        Cell::Integer(i) => Value::Integer(*i),
        Cell::Real(b) => Value::Real(*b),
        Cell::Text(s) => Value::Text(s.clone()),
        Cell::Blob(b) => {
            let d = b.clone();
            assert(d@ =~= b@);
            Value::Blob(d)
        },
    };
    Ok(v)
}

/// Binding a value and reading the cell back for a column of the value's own
/// type gives the value; null gives null for a column of any type.
pub proof fn round_trip(v: Value, dt: DataType)
    requires
        !(v is Boolean),
        v is Null || dt == cell_type(v@),
    ensures
        read_cell(bound(v@), Some(dt)) == Ok::<ValueModel, DataType>(v@),
{
}

/// A boolean is stored, and read back, as the integer 1 or 0.
pub proof fn boolean_reads_as_integer(b: bool)
    ensures
        read_cell(bound(ValueModel::Boolean(b)), Some(DataType::Integer)) == Ok::<ValueModel, DataType>(
            ValueModel::Integer(if b { 1 } else { 0 }),
        ),
{
}

/// One row read from the cell at `i` on: each column's name with its value,
/// or the mismatch at the first cell that cannot be read.
pub open spec fn read_row_from(
    names: Seq<String>,
    declared: Seq<Option<DataType>>,
    cells: Seq<Cell>,
    i: int,
) -> Result<Seq<(Seq<char>, ValueModel)>, SqlError>
    decreases cells.len() - i,
{
    if i < 0 || i >= cells.len() {
        Ok(Seq::empty())
    } else {
        match read_cell(cells[i]@, declared[i]) {
            Err(actual) => Err(SqlError::TypeMismatch { column: names[i], expected: declared[i]->Some_0, actual }),
            Ok(v) => match read_row_from(names, declared, cells, i + 1) {
                Ok(rest) => Ok(seq![(names[i]@, v)] + rest),
                Err(e) => Err(e),
            },
        }
    }
}

pub open spec fn read_row(names: Seq<String>, declared: Seq<Option<DataType>>, cells: Seq<Cell>) -> Result<
    Seq<(Seq<char>, ValueModel)>,
    SqlError,
> {
    read_row_from(names, declared, cells, 0)
}

/// The names and values of a mapped row.
pub open spec fn row_view(row: Seq<(String, Value)>) -> Seq<(Seq<char>, ValueModel)> {
    row.map_values(|p: (String, Value)| (p.0@, p.1@))
}

/// Reads one row: `names[j]` is the column of `cells[j]`, and `declared[j]`
/// its declared type where one is known.
pub fn map_row(names: &Vec<String>, declared: &Vec<Option<DataType>>, cells: &Vec<Cell>) -> (r: Result<
    Vec<(String, Value)>,
    SqlError,
>)
    requires
        names@.len() == cells@.len(),
        declared@.len() == cells@.len(),
    ensures
        match r {
            Ok(row) => read_row(names@, declared@, cells@) == Ok::<_, SqlError>(row_view(row@)),
            Err(e) => read_row(names@, declared@, cells@) == Err::<Seq<(Seq<char>, ValueModel)>, _>(e),
        },
{
    let mut row: Vec<(String, Value)> = Vec::new();
    let mut i: usize = 0;
    while i < cells.len()
        invariant
            0 <= i <= cells@.len(),
            names@.len() == cells@.len(),
            declared@.len() == cells@.len(),
            read_row(names@, declared@, cells@) == match read_row_from(names@, declared@, cells@, i as int) {
                Ok(rest) => Ok(row_view(row@) + rest),
                Err(e) => Err(e),
            },
        decreases cells@.len() - i,
    {
        match map_cell(&cells[i], declared[i]) {
            Ok(v) => {
                let ghost before = row@;
                row.push((names[i].clone(), v));
                assert(row_view(row@) =~= row_view(before) + seq![(names@[i as int]@, v@)]);
                assert forall|rest: Seq<(Seq<char>, ValueModel)>|
                    #![auto]
                    row_view(before) + (seq![(names@[i as int]@, v@)] + rest) == row_view(row@) + rest by {
                    assert(row_view(before) + (seq![(names@[i as int]@, v@)] + rest) =~= row_view(row@) + rest);
                }
            },
            Err(actual) => {
                let column = names[i].clone();
                let expected = match declared[i] {
                    Some(dt) => dt,
                    None => DataType::Integer,
                };
                return Err(SqlError::TypeMismatch { column, expected, actual });
            },
        }
        i = i + 1;
    }
    assert(row_view(row@) + Seq::empty() =~= row_view(row@));
    Ok(row)
}

/// `types[k]` is the declared type of the column of `t` named `names[k]`,
/// or none where `t` declares no such column.
pub open spec fn types_of(t: TableDefinition, names: Seq<String>, types: Seq<Option<DataType>>) -> bool {
    &&& types.len() == names.len()
    &&& forall|k: int|
        0 <= k < names.len() ==> match #[trigger] types[k] {
            Some(dt) => exists|j: int|
                0 <= j < t.columns@.len() && t.columns@[j].name@ == names[k]@ && t.columns@[j].data_type == dt,
            None => !t.has_column(names[k]@),
        }
}

/// The declared type of each named column of `t`, where `t` declares it.
pub fn declared_types(t: &TableDefinition, names: &Vec<String>) -> (r: Vec<Option<DataType>>)
    ensures
        types_of(*t, names@, r@),
{
    let mut r: Vec<Option<DataType>> = Vec::new();
    let mut k: usize = 0;
    while k < names.len()
        invariant
            0 <= k <= names@.len(),
            r@.len() == k,
            forall|m: int|
                0 <= m < k ==> match #[trigger] r@[m] {
                    Some(dt) => exists|j: int|
                        0 <= j < t.columns@.len() && t.columns@[j].name@ == names@[m]@
                            && t.columns@[j].data_type == dt,
                    None => !t.has_column(names@[m]@),
                },
        decreases names@.len() - k,
    {
        match t.find_column(&names[k]) {
            Some(j) => r.push(Some(t.columns[j].data_type)),
            None => r.push(None),
        }
        k = k + 1;
    }
    r
}

/// The rows from the one at `i` on, read in order, or the first mismatch.
pub open spec fn read_rows_from(
    names: Seq<String>,
    declared: Seq<Option<DataType>>,
    rows: Seq<Vec<Cell>>,
    i: int,
) -> Result<Seq<Seq<(Seq<char>, ValueModel)>>, SqlError>
    decreases rows.len() - i,
{
    if i < 0 || i >= rows.len() {
        Ok(Seq::empty())
    } else {
        match read_row(names, declared, rows[i]@) {
            Err(e) => Err(e),
            Ok(row) => match read_rows_from(names, declared, rows, i + 1) {
                Ok(rest) => Ok(seq![row] + rest),
                Err(e) => Err(e),
            },
        }
    }
}

pub open spec fn rows_view(rows: Seq<Vec<(String, Value)>>) -> Seq<Seq<(Seq<char>, ValueModel)>> {
    rows.map_values(|r: Vec<(String, Value)>| row_view(r@))
}

/// Reads every row of a result, keeping the driver's row order.
pub fn map_rows(names: &Vec<String>, declared: &Vec<Option<DataType>>, rows: &Vec<Vec<Cell>>) -> (r: Result<
    Vec<Vec<(String, Value)>>,
    SqlError,
>)
    requires
        declared@.len() == names@.len(),
        forall|k: int| 0 <= k < rows@.len() ==> (#[trigger] rows@[k])@.len() == names@.len(),
    ensures
        match r {
            Ok(out) => read_rows_from(names@, declared@, rows@, 0) == Ok::<_, SqlError>(rows_view(out@)),
            Err(e) => read_rows_from(names@, declared@, rows@, 0) == Err::<Seq<Seq<(Seq<char>, ValueModel)>>, _>(e),
        },
{
    let mut out: Vec<Vec<(String, Value)>> = Vec::new();
    let mut i: usize = 0;
    while i < rows.len()
        invariant
            0 <= i <= rows@.len(),
            declared@.len() == names@.len(),
            forall|k: int| 0 <= k < rows@.len() ==> (#[trigger] rows@[k])@.len() == names@.len(),
            read_rows_from(names@, declared@, rows@, 0) == match read_rows_from(names@, declared@, rows@, i as int) {
                Ok(rest) => Ok(rows_view(out@) + rest),
                Err(e) => Err(e),
            },
        decreases rows@.len() - i,
    {
        let row = map_row(names, declared, &rows[i])?;
        let ghost before = out@;
        out.push(row);
        assert(rows_view(out@) =~= rows_view(before) + seq![row_view(row@)]);
        assert forall|rest: Seq<Seq<(Seq<char>, ValueModel)>>|
            #![auto]
            rows_view(before) + (seq![row_view(row@)] + rest) == rows_view(out@) + rest by {
            assert(rows_view(before) + (seq![row_view(row@)] + rest) =~= rows_view(out@) + rest);
        }
        i = i + 1;
    }
    assert(rows_view(out@) + Seq::empty() =~= rows_view(out@));
    Ok(out)
}

} // verus!
