use vstd::prelude::*;

verus! {

/// One database cell.
///
/// A real number is carried as the bit pattern of an IEEE-754 binary64
/// value, so that it passes through the library unchanged and compares
/// exactly.
#[derive(Debug, Clone, PartialEq)]
pub enum Value {
    Null,
    Integer(i64),
    Real(u64),
    Text(String),
    Blob(Vec<u8>),
    Boolean(bool),
}

/// The mathematical content of a [`Value`].
pub enum ValueModel {
    Null,
    Integer(int),
    Real(u64),
    Text(Seq<char>),
    Blob(Seq<u8>),
    Boolean(bool),
}

impl View for Value {
    type V = ValueModel;

    open spec fn view(&self) -> ValueModel {
        match self {
            Value::Null => ValueModel::Null,
            Value::Integer(i) => ValueModel::Integer(*i as int),
            Value::Real(b) => ValueModel::Real(*b),
            Value::Text(s) => ValueModel::Text(s@),
            Value::Blob(b) => ValueModel::Blob(b@),
            Value::Boolean(b) => ValueModel::Boolean(*b),
        }
    }
}

impl Value {
    /// A copy of the value with the same content.
    pub fn duplicate(&self) -> (r: Value)
        ensures
            r@ == self@,
    {
        match self {
            Value::Null => Value::Null,
            Value::Integer(i) => Value::Integer(*i),
            Value::Real(b) => Value::Real(*b),
            Value::Text(s) => Value::Text(s.clone()),
            Value::Blob(b) => {
                let c = b.clone();
                assert(c@ =~= b@);
                Value::Blob(c)
            },
            Value::Boolean(b) => Value::Boolean(*b),
        }
    }
}

} // verus!
