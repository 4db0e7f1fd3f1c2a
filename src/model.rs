//! Parameters, conditions and CRUD intents.
use crate::value::{Value, ValueModel};
use vstd::prelude::*;

verus! {

/// The position of the last entry among the first `n` of `entries` whose key
/// is `key`: a later entry for a key overrides an earlier one.
pub open spec fn last_match<T>(entries: Seq<(String, T)>, key: Seq<char>, n: int) -> Option<int>
    decreases n,
{
    if n <= 0 || n > entries.len() {
        None
    } else if entries[n - 1].0@ == key {
        Some(n - 1)
    } else {
        last_match(entries, key, n - 1)
    }
}

/// The entry that stands for `key` in `entries`.
pub open spec fn lookup<T>(entries: Seq<(String, T)>, key: Seq<char>) -> Option<int> {
    last_match(entries, key, entries.len() as int)
}

pub proof fn lemma_last_match<T>(entries: Seq<(String, T)>, key: Seq<char>, n: int)
    requires
        0 <= n <= entries.len(),
    ensures
        match last_match(entries, key, n) {
            Some(k) => 0 <= k < n && entries[k].0@ == key && forall|m: int| k < m < n ==> entries[m].0@ != key,
            None => forall|m: int| 0 <= m < n ==> entries[m].0@ != key,
        },
    decreases n,
{
    if n > 0 && entries[n - 1].0@ != key {
        lemma_last_match(entries, key, n - 1);
    }
}

/// The position of the entry that stands for `key`.
pub fn find_entry<T>(entries: &Vec<(String, T)>, key: &String) -> (r: Option<usize>)
    ensures
        match r {
            Some(k) => lookup(entries@, key@) == Some(k as int) && k < entries@.len(),
            None => lookup(entries@, key@) is None,
        },
{
    let mut n: usize = entries.len();
    while n > 0
        invariant
            n <= entries@.len(),
            lookup(entries@, key@) == last_match(entries@, key@, n as int),
        decreases n,
    {
        if entries[n - 1].0 == *key {
            return Some(n - 1);
        }
        n = n - 1;
    }
    None
}

/// `new` is `old` with `value` set for `key`: the entry that stands for `key`
/// is replaced in place, or a new one is added at the end.
pub open spec fn is_upsert<T>(old: Seq<(String, T)>, new: Seq<(String, T)>, key: Seq<char>, value: T) -> bool {
    match lookup(old, key) {
        Some(k) => {
            &&& new.len() == old.len()
            &&& new[k].0@ == key
            &&& new[k].1 == value
            &&& forall|j: int| 0 <= j < old.len() && j != k ==> new[j] == old[j]
        },
        None => {
            &&& new.len() == old.len() + 1
            &&& new.last().0@ == key
            &&& new.last().1 == value
            &&& forall|j: int| 0 <= j < old.len() ==> new[j] == old[j]
        },
    }
}

fn upsert<T>(entries: &mut Vec<(String, T)>, key: String, value: T)
    ensures
        is_upsert(old(entries)@, final(entries)@, key@, value),
        lookup(final(entries)@, key@) is Some,
        final(entries)@[lookup(final(entries)@, key@)->0].1 == value,
{
    let ghost k = key@;
    match find_entry(entries, &key) {
        Some(i) => {
            entries.set(i, (key, value));
            proof {
                lemma_last_match(old(entries)@, k, old(entries)@.len() as int);
                lemma_last_match(entries@, k, entries@.len() as int);
                assert(entries@[i as int].0@ == k);
                let j = lookup(entries@, k)->0;
                if j > i {
                    assert(entries@[j] == old(entries)@[j]);
                }
                assert(j == i);
            }
        },
        None => {
            entries.push((key, value));
            proof {
                lemma_last_match(entries@, k, entries@.len() as int);
            }
        },
    }
}

/// Named values bound into a statement's placeholders, in placeholder order.
#[derive(Debug, Clone, PartialEq)]
pub struct Params {
    pub values: Vec<(String, Value)>,
}

/// The names and values of a sequence of bindings.
pub open spec fn bindings(s: Seq<(String, Value)>) -> Seq<(Seq<char>, ValueModel)> {
    s.map_values(|p: (String, Value)| (p.0@, p.1@))
}

impl View for Params {
    type V = Seq<(Seq<char>, ValueModel)>;

    open spec fn view(&self) -> Seq<(Seq<char>, ValueModel)> {
        bindings(self.values@)
    }
}

impl Params {
    pub fn new() -> (r: Params)
        ensures
            r.values@.len() == 0,
    {
        Params { values: Vec::new() }
    }

    /// These parameters with `value` bound to `name`; a value already bound
    /// to `name` is replaced in place.
    pub fn with_value(self, name: &str, value: Value) -> (r: Params)
        ensures
            is_upsert(self.values@, r.values@, name@, value),
            lookup(r.values@, name@) is Some,
            r.values@[lookup(r.values@, name@)->0].1 == value,
    {
        let mut values = self.values;
        let key = String::from_str(name);
        upsert(&mut values, key, value);
        Params { values }
    }
}

/// A statement with `?` placeholders and the values bound to them.
#[derive(Debug, Clone, PartialEq)]
pub struct SqlQuery {
    pub statement: String,
    pub params: Params,
}

impl SqlQuery {
    /// A statement with no parameters.
    pub fn new(statement: &str) -> (r: SqlQuery)
        ensures
            r.statement@ == statement@,
            r.params.values@.len() == 0,
    {
        SqlQuery { statement: String::from_str(statement), params: Params::new() }
    }

    /// The same statement with `params` bound.
    pub fn with_params(self, params: Params) -> (r: SqlQuery)
        ensures
            r.statement == self.statement,
            r.params == params,
    {
        SqlQuery { statement: self.statement, params }
    }
}

/// The comparison that a condition makes on one field.
#[derive(Debug, Clone, PartialEq)]
pub enum QueryOperator {
    Equal(Value),
    NotEqual(Value),
    GreaterThan(Value),
    GreaterThanOrEqual(Value),
    LessThan(Value),
    LessThanOrEqual(Value),
    Like(String),
    In(Vec<Value>),
}

/// A conjunction of conditions, at most one per field: a later condition on
/// a field overrides an earlier one.
#[derive(Debug, Clone, PartialEq)]
pub struct Query {
    pub conditions: Vec<(String, QueryOperator)>,
}

impl Query {
    pub fn new() -> (r: Query)
        ensures
            r.conditions@.len() == 0,
    {
        Query { conditions: Vec::new() }
    }

    /// This query with `op` as the condition on `field`, in place of any
    /// condition that `field` had.
    pub fn with_condition(self, field: &str, op: QueryOperator) -> (r: Query)
        ensures
            is_upsert(self.conditions@, r.conditions@, field@, op),
            lookup(r.conditions@, field@) is Some,
            r.conditions@[lookup(r.conditions@, field@)->0].1 == op,
    {
        let mut conditions = self.conditions;
        upsert(&mut conditions, String::from_str(field), op);
        Query { conditions }
    }
}

/// Insert one row; a later entry for a field overrides an earlier one.
#[derive(Debug, Clone, PartialEq)]
pub struct CreateOperation {
    pub table: String,
    pub data: Vec<(String, Value)>,
}

/// Select rows, with an optional projection, order, limit and offset.
/// Each entry of `order_by` is a field and whether it sorts ascending.
#[derive(Debug, Clone, PartialEq)]
pub struct ReadOperation {
    pub table: String,
    pub query: Query,
    pub fields: Option<Vec<String>>,
    pub limit: Option<u32>,
    pub offset: Option<u32>,
    pub order_by: Option<Vec<(String, bool)>>,
}

/// Set fields on the rows that match; with no conditions, on every row.
#[derive(Debug, Clone, PartialEq)]
pub struct UpdateOperation {
    pub table: String,
    pub query: Query,
    pub updates: Vec<(String, Value)>,
}

/// Remove the rows that match; with no conditions, every row.
#[derive(Debug, Clone, PartialEq)]
pub struct DeleteOperation {
    pub table: String,
    pub query: Query,
}

#[derive(Debug, Clone, PartialEq)]
pub enum CrudOperation {
    Create(CreateOperation),
    Read(ReadOperation),
    Update(UpdateOperation),
    Delete(DeleteOperation),
}

} // verus!
