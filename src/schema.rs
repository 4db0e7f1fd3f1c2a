//! The DDL model and its validation.
use crate::error::SqlError;
use crate::text::views;
use vstd::prelude::*;

verus! {

/// The declared type of a column.
#[derive(Debug, Clone, Copy, PartialEq, Eq, Structural)]
pub enum DataType {
    Integer,
    Text,
    Real,
    Blob,
}

/// A constraint written inline on a column.
#[derive(Debug, Clone, Copy, PartialEq, Eq, Structural)]
pub enum ColumnConstraint {
    PrimaryKey,
    NotNull,
    Unique,
}

/// A column's default, as written in DDL.
///
/// A real default is `mantissa * 10^exponent`, which is written out exactly.
#[derive(Debug, Clone, PartialEq)]
pub enum DefaultValue {
    Integer(i64),
    Text(String),
    Real { mantissa: i64, exponent: i32 },
    Null,
    CurrentTimestamp,
}

/// What the engine does to referencing rows when a referenced row changes.
#[derive(Debug, Clone, Copy, PartialEq, Eq, Structural)]
pub enum ForeignKeyAction {
    NoAction,
    Cascade,
    SetNull,
    SetDefault,
    Restrict,
}

#[derive(Debug, Clone, PartialEq)]
pub struct ForeignKey {
    pub column: String,
    pub foreign_table: String,
    pub foreign_column: String,
    pub on_delete: ForeignKeyAction,
    pub on_update: ForeignKeyAction,
}

#[derive(Debug, Clone, PartialEq)]
pub struct IndexDefinition {
    pub name: String,
    pub columns: Vec<String>,
    pub unique: bool,
}

#[derive(Debug, Clone, PartialEq)]
pub struct ColumnDefinition {
    pub name: String,
    pub data_type: DataType,
    pub constraints: Vec<ColumnConstraint>,
    pub default_value: Option<DefaultValue>,
}

#[derive(Debug, Clone, PartialEq)]
pub struct TableDefinition {
    pub name: String,
    pub columns: Vec<ColumnDefinition>,
    pub primary_key: Vec<String>,
    pub foreign_keys: Vec<ForeignKey>,
    pub indexes: Vec<IndexDefinition>,
}

/// The tables of a database, in declaration order.
#[derive(Debug, Clone, PartialEq)]
pub struct Schema {
    pub tables: Vec<TableDefinition>,
}

/// No name occurs twice.
pub open spec fn names_unique(s: Seq<Seq<char>>) -> bool {
    forall|i: int, j: int| 0 <= i < j < s.len() ==> s[i] != s[j]
}

impl TableDefinition {
    pub open spec fn column_names(&self) -> Seq<Seq<char>> {
        self.columns@.map_values(|c: ColumnDefinition| c.name@)
    }

    /// The table declares a column of this name.
    pub open spec fn has_column(&self, name: Seq<char>) -> bool {
        exists|j: int| 0 <= j < self.columns@.len() && #[trigger] self.columns@[j].name@ == name
    }

    pub open spec fn index_names(&self) -> Seq<Seq<char>> {
        self.indexes@.map_values(|x: IndexDefinition| x.name@)
    }

    /// The declared column that a name stands for, if any.
    pub fn find_column(&self, name: &String) -> (r: Option<usize>)
        ensures
            match r {
                Some(j) => j < self.columns@.len() && self.columns@[j as int].name@ == name@,
                None => !self.has_column(name@),
            },
    {
        let mut j: usize = 0;
        while j < self.columns.len()
            invariant
                0 <= j <= self.columns@.len(),
                forall|k: int| 0 <= k < j ==> self.columns@[k].name@ != name@,
            decreases self.columns@.len() - j,
        {
            if self.columns[j].name == *name {
                return Some(j);
            }
            j = j + 1;
        }
        None
    }

    /// Every name in `names` is a declared column.
    pub fn has_columns(&self, names: &Vec<String>) -> (r: bool)
        ensures
            r == (forall|k: int| 0 <= k < names@.len() ==> self.has_column(#[trigger] names@[k]@)),
    {
        let mut k: usize = 0;
        while k < names.len()
            invariant
                0 <= k <= names@.len(),
                forall|m: int| 0 <= m < k ==> self.has_column(#[trigger] names@[m]@),
            decreases names@.len() - k,
        {
            if self.find_column(&names[k]).is_none() {
                return false;
            }
            k = k + 1;
        }
        true
    }
}

/// The position of the first table in `tables` at or after `i` with this name.
pub open spec fn first_table_from(tables: Seq<TableDefinition>, name: Seq<char>, i: int) -> Option<int>
    decreases tables.len() - i,
{
    if i < 0 || i >= tables.len() {
        None
    } else if tables[i].name@ == name {
        Some(i)
    } else {
        first_table_from(tables, name, i + 1)
    }
}

impl Schema {
    pub fn new() -> (r: Schema)
        ensures
            r.tables@.len() == 0,
    {
        Schema { tables: Vec::new() }
    }

    /// The schema with `table` declared after the present tables.
    pub fn add_table(self, table: TableDefinition) -> (r: Schema)
        ensures
            r.tables@ == self.tables@.push(table),
    {
        let mut tables = self.tables;
        tables.push(table);
        Schema { tables }
    }

    pub open spec fn table_names(&self) -> Seq<Seq<char>> {
        self.tables@.map_values(|t: TableDefinition| t.name@)
    }

    /// The first table with this name, if any.
    pub open spec fn table_named(&self, name: Seq<char>) -> Option<int> {
        first_table_from(self.tables@, name, 0)
    }

    /// The position of the first table with this name.
    pub fn find_table(&self, name: &String) -> (r: Option<usize>)
        ensures
            match r {
                Some(i) => self.table_named(name@) == Some(i as int) && i < self.tables@.len(),
                None => self.table_named(name@) is None,
            },
    {
        let mut i: usize = 0;
        while i < self.tables.len()
            invariant
                0 <= i <= self.tables@.len(),
                first_table_from(self.tables@, name@, 0) == first_table_from(self.tables@, name@, i as int),
            decreases self.tables@.len() - i,
        {
            if self.tables[i].name == *name {
                return Some(i);
            }
            i = i + 1;
        }
        None
    }
}

/// The names of every index of `tables`, table by table.
pub open spec fn index_names_of(tables: Seq<TableDefinition>) -> Seq<Seq<char>>
    decreases tables.len(),
{
    if tables.len() == 0 {
        Seq::empty()
    } else {
        index_names_of(tables.drop_last()) + tables.last().index_names()
    }
}

impl Schema {
    /// A foreign key's referenced table exists and declares the referenced column.
    pub open spec fn resolves(&self, fk: ForeignKey) -> bool {
        exists|i: int|
            0 <= i < self.tables@.len() && #[trigger] self.tables@[i].name@ == fk.foreign_table@
                && self.tables@[i].has_column(fk.foreign_column@)
    }

    /// Column names are unique, and every column that the primary key, the
    /// foreign keys and the indexes name is declared; every foreign key resolves.
    pub open spec fn table_valid(&self, t: TableDefinition) -> bool {
        &&& names_unique(t.column_names())
        &&& forall|k: int| 0 <= k < t.primary_key@.len() ==> t.has_column(#[trigger] t.primary_key@[k]@)
        &&& forall|f: int| 0 <= f < t.foreign_keys@.len() ==> t.has_column(#[trigger] t.foreign_keys@[f].column@)
        &&& forall|f: int| 0 <= f < t.foreign_keys@.len() ==> self.resolves(#[trigger] t.foreign_keys@[f])
        &&& forall|x: int, c: int|
            0 <= x < t.indexes@.len() && 0 <= c < t.indexes@[x].columns@.len() ==> t.has_column(
                #[trigger] t.indexes@[x].columns@[c]@,
            )
    }

    /// Table names are unique, index names are unique across the database, and
    /// every table is valid.
    pub open spec fn is_valid(&self) -> bool {
        &&& names_unique(self.table_names())
        &&& names_unique(index_names_of(self.tables@))
        &&& forall|i: int| 0 <= i < self.tables@.len() ==> self.table_valid(#[trigger] self.tables@[i])
    }

    /// Whether a foreign key resolves in this schema.
    pub fn check_foreign_key(&self, fk: &ForeignKey) -> (r: bool)
        ensures
            r == self.resolves(*fk),
    {
        let mut i: usize = 0;
        while i < self.tables.len()
            invariant
                0 <= i <= self.tables@.len(),
                forall|m: int|
                    0 <= m < i ==> !(#[trigger] self.tables@[m].name@ == fk.foreign_table@
                        && self.tables@[m].has_column(fk.foreign_column@)),
            decreases self.tables@.len() - i,
        {
            if self.tables[i].name == fk.foreign_table && self.tables[i].find_column(&fk.foreign_column).is_some() {
                return true;
            }
            i = i + 1;
        }
        false
    }

    fn check_table(&self, t: &TableDefinition) -> (r: bool)
        ensures
            r == self.table_valid(*t),
    {
        let mut names: Vec<String> = Vec::new();
        let mut j: usize = 0;
        while j < t.columns.len()
            invariant
                0 <= j <= t.columns@.len(),
                names@.len() == j,
                views(names@) =~= t.column_names().take(j as int),
            decreases t.columns@.len() - j,
        {
            let name = t.columns[j].name.clone();
            names.push(name);
            assert(views(names@)[j as int] == t.column_names()[j as int]);
            j = j + 1;
        }
        assert(t.column_names().take(j as int) =~= t.column_names());
        if !all_distinct(&names) {
            return false;
        }
        if !t.has_columns(&t.primary_key) {
            return false;
        }
        let mut f: usize = 0;
        while f < t.foreign_keys.len()
            invariant
                0 <= f <= t.foreign_keys@.len(),
                forall|g: int| 0 <= g < f ==> t.has_column(#[trigger] t.foreign_keys@[g].column@),
                forall|g: int| 0 <= g < f ==> self.resolves(#[trigger] t.foreign_keys@[g]),
            decreases t.foreign_keys@.len() - f,
        {
            if t.find_column(&t.foreign_keys[f].column).is_none() {
                return false;
            }
            if !self.check_foreign_key(&t.foreign_keys[f]) {
                return false;
            }
            f = f + 1;
        }
        let mut x: usize = 0;
        while x < t.indexes.len()
            invariant
                0 <= x <= t.indexes@.len(),
                forall|y: int, c: int|
                    0 <= y < x && 0 <= c < t.indexes@[y].columns@.len() ==> t.has_column(
                        #[trigger] t.indexes@[y].columns@[c]@,
                    ),
            decreases t.indexes@.len() - x,
        {
            if !t.has_columns(&t.indexes[x].columns) {
                return false;
            }
            x = x + 1;
        }
        true
    }

    /// Checks the schema once, before it is used: `Ok` exactly when it is valid.
    pub fn validate(&self) -> (r: Result<(), SqlError>)
        ensures
            r is Ok <==> self.is_valid(),
            r is Err ==> r == Err::<(), SqlError>(SqlError::SchemaValidationError),
    {
        let mut names: Vec<String> = Vec::new();
        let mut index_names: Vec<String> = Vec::new();
        let mut i: usize = 0;
        while i < self.tables.len()
            invariant
                0 <= i <= self.tables@.len(),
                names@.len() == i,
                views(names@) =~= self.table_names().take(i as int),
                views(index_names@) =~= index_names_of(self.tables@.take(i as int)),
            decreases self.tables@.len() - i,
        {
            let t = &self.tables[i];
            let name = t.name.clone();
            names.push(name);
            assert(views(names@)[i as int] == self.table_names()[i as int]);
            let ghost before = views(index_names@);
            let mut x: usize = 0;
            while x < t.indexes.len()
                invariant
                    0 <= x <= t.indexes@.len(),
                    i < self.tables@.len(),
                    *t == self.tables@[i as int],
                    index_names@.len() == before.len() + x,
                    forall|k: int| 0 <= k < before.len() ==> #[trigger] index_names@[k]@ == before[k],
                    forall|m: int| 0 <= m < x ==> #[trigger] index_names@[before.len() + m]@ == t.index_names()[m],
                decreases t.indexes@.len() - x,
            {
                let ghost prev = index_names@;
                let name = t.indexes[x].name.clone();
                index_names.push(name);
                assert(index_names@[before.len() + x]@ == t.index_names()[x as int]);
                assert forall|k: int| 0 <= k < prev.len() implies index_names@[k] == prev[k] by {}
                x = x + 1;
            }
            assert(views(index_names@) =~= before + t.index_names()) by {
                assert forall|k: int| 0 <= k < index_names@.len() implies views(index_names@)[k] == (before + t.index_names())[k] by {
                    if k >= before.len() {
                        assert(index_names@[before.len() + (k - before.len())]@ == t.index_names()[k - before.len()]);
                    }
                }
            }
            assert(self.tables@.take(i + 1).drop_last() =~= self.tables@.take(i as int));
            i = i + 1;
        }
        assert(self.tables@.take(i as int) =~= self.tables@);
        assert(self.table_names().take(i as int) =~= self.table_names());
        if !all_distinct(&names) || !all_distinct(&index_names) {
            return Err(SqlError::SchemaValidationError);
        }
        let mut k: usize = 0;
        while k < self.tables.len()
            invariant
                0 <= k <= self.tables@.len(),
                forall|m: int| 0 <= m < k ==> self.table_valid(#[trigger] self.tables@[m]),
            decreases self.tables@.len() - k,
        {
            if !self.check_table(&self.tables[k]) {
                return Err(SqlError::SchemaValidationError);
            }
            k = k + 1;
        }
        Ok(())
    }
}

/// Whether no two strings of `v` are equal.
pub fn all_distinct(v: &Vec<String>) -> (r: bool)
    ensures
        r == names_unique(views(v@)),
{
    let mut i: usize = 0;
    while i < v.len()
        invariant
            0 <= i <= v@.len(),
            forall|a: int, b: int| 0 <= a < i && a < b < v@.len() ==> v@[a]@ != v@[b]@,
        decreases v@.len() - i,
    {
        let mut j: usize = i + 1;
        while j < v.len()
            invariant
                0 <= i < j <= v@.len(),
                forall|a: int, b: int| 0 <= a < i && a < b < v@.len() ==> v@[a]@ != v@[b]@,
                forall|b: int| i < b < j ==> v@[i as int]@ != v@[b]@,
            decreases v@.len() - j,
        {
            if v[i] == v[j] {
                assert(views(v@)[i as int] == views(v@)[j as int]);
                return false;
            }
            j = j + 1;
        }
        i = i + 1;
    }
    true
}

/// All of a schema's validity but the resolution of its foreign keys'
/// targets.
pub open spec fn valid_apart_from_references(s: Schema) -> bool {
    &&& names_unique(s.table_names())
    &&& names_unique(index_names_of(s.tables@))
    &&& forall|i: int|
        0 <= i < s.tables@.len() ==> {
            let t = #[trigger] s.tables@[i];
            &&& names_unique(t.column_names())
            &&& forall|k: int| 0 <= k < t.primary_key@.len() ==> t.has_column(#[trigger] t.primary_key@[k]@)
            &&& forall|f: int|
                0 <= f < t.foreign_keys@.len() ==> t.has_column(#[trigger] t.foreign_keys@[f].column@)
            &&& forall|x: int, c: int|
                0 <= x < t.indexes@.len() && 0 <= c < t.indexes@[x].columns@.len() ==> t.has_column(
                    #[trigger] t.indexes@[x].columns@[c]@,
                )
        }
}

/// Every foreign key of every table names a table of the schema and a
/// column that table declares.
pub open spec fn references_resolve(s: Schema) -> bool {
    forall|i: int, f: int|
        0 <= i < s.tables@.len() && 0 <= f < s.tables@[i].foreign_keys@.len() ==> s.resolves(
            #[trigger] s.tables@[i].foreign_keys@[f],
        )
}

/// A schema with a foreign key to a table that does not exist, or to a
/// column that the referenced table does not declare, is not valid.
pub proof fn dangling_foreign_key_is_invalid(s: Schema, i: int, f: int)
    requires
        0 <= i < s.tables@.len(),
        0 <= f < s.tables@[i].foreign_keys@.len(),
        !s.resolves(s.tables@[i].foreign_keys@[f]),
    ensures
        !s.is_valid(),
{
    assert(!s.table_valid(s.tables@[i]));
}

/// A schema that is sound in every other respect, and whose foreign keys
/// all resolve, is valid.
pub proof fn resolved_schema_is_valid(s: Schema)
    requires
        valid_apart_from_references(s),
        references_resolve(s),
    ensures
        s.is_valid(),
{
    assert forall|i: int| 0 <= i < s.tables@.len() implies s.table_valid(#[trigger] s.tables@[i]) by {
        let t = s.tables@[i];
        assert forall|f: int| 0 <= f < t.foreign_keys@.len() implies s.resolves(#[trigger] t.foreign_keys@[f]) by {
            assert(s.resolves(s.tables@[i].foreign_keys@[f]));
        }
    }
}

} // verus!
