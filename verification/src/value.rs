//! The plain values that flow between the library and a database: column
//! contents, bound statement parameters and entity identifiers.

use vstd::prelude::*;

verus! {

/// A single database value, as bound to a statement parameter or read from a
/// result column.
///
/// Entity identifiers are values too: any of these variants may key a record.
#[derive(Debug, Clone, PartialEq, Eq)]
pub enum Value {
    /// A signed integer column value.
    Int(i64),
    /// A text column value.
    Text(String),
    /// A boolean column value.
    Bool(bool),
}

impl Value {
    /// An exact copy of the value; unlike a derived `Clone`, the contract
    /// states that the copy equals the original.
    pub fn duplicate(&self) -> (r: Value)
        ensures
            r == self,
    {
        match self {
            Value::Int(i) => Value::Int(*i),
            Value::Text(s) => Value::Text(s.clone()),
            Value::Bool(b) => Value::Bool(*b),
        }
    }
}

} // verus!
