use vstd::prelude::*;

verus! {

/// A structured data value exchanged over the wire.
///
/// This is the library's model of a JSON-like payload: the transport boundary
/// turns raw text into this shape before a call reaches the dispatcher, and
/// turns the response envelope back into text afterwards. Numbers are
/// integers; object fields keep their insertion order.
#[derive(Debug, PartialEq)]
pub enum Value {
    Null,
    Bool(bool),
    Int(i64),
    Str(String),
    Arr(Vec<Value>),
    Obj(Vec<(String, Value)>),
}

impl Value {
    /// An object with no fields.
    pub open spec fn is_empty_object(self) -> bool {
        self matches Value::Obj(fields) && fields@.len() == 0
    }

    pub fn check_empty_object(&self) -> (r: bool)
        ensures
            r == self.is_empty_object(),
    {
        match self {
            Value::Obj(fields) => fields.len() == 0,
            _ => false,
        }
    }

    pub fn check_null(&self) -> (r: bool)
        ensures
            r == (*self is Null),
    {
        match self {
            Value::Null => true,
            _ => false,
        }
    }
}

} // verus!
