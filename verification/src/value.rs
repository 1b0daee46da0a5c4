//! Logical values: what a property holds and what a write request carries.

use crate::number::Number;
use vstd::prelude::*;

verus! {

/// A logical value in the shape of a JSON value.
#[derive(Debug, PartialEq, Eq)]
pub enum Value {
    Null,
    Bool(bool),
    Number(Number),
    Text(String),
    Array(Vec<Value>),
    /// The members of an object, in the order in which they were given.
    Object(Vec<(String, Value)>),
}

impl Value {
    /// The number that `self` holds, if it is numeric.
    pub open spec fn number(self) -> Option<Number> {
        match self {
            Value::Number(n) => Some(n),
            _ => None,
        }
    }

    /// Whether `self` is numeric.
    pub open spec fn is_number(self) -> bool {
        self is Number
    }

    /// The number that `self` holds, if it is numeric.
    pub fn as_number(&self) -> (r: Option<Number>)
        ensures
            r == self.number(),
    {
        match self {
            Value::Number(n) => Some(*n),
            _ => None,
        }
    }
}

} // verus!
