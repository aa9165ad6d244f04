use vstd::prelude::*;

verus! {

/// The payload of a [`super::Value`]: one of the scalar kinds a store holds.
#[derive(Debug, PartialEq, Eq, PartialOrd)]
pub enum Value {
    String(String),
    Integer(i64),
    Bool(bool),
}

/// The mathematical model of a [`Value`] payload.
pub enum ValueData {
    Str(Seq<char>),
    Integer(i64),
    Bool(bool),
}

impl View for Value {
    type V = ValueData;

    open spec fn view(&self) -> ValueData {
        match self {
            Value::String(s) => ValueData::Str(s@),
            Value::Integer(i) => ValueData::Integer(*i),
            Value::Bool(b) => ValueData::Bool(*b),
        }
    }
}

impl Clone for Value {
    fn clone(&self) -> (r: Self)
        ensures
            r == *self,
    {
        match self {
            Value::String(s) => Value::String(s.clone()),
            Value::Integer(i) => Value::Integer(*i),
            Value::Bool(b) => Value::Bool(*b),
        }
    }
}

} // verus!
