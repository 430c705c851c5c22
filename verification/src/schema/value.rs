//! A JSON value, as far as the inference of a schema reads it.

use vstd::prelude::*;

verus! {

/// What a JSON number is: a whole number that is not negative, a negative
/// whole number, or a number with a fraction or an exponent.
#[derive(Debug, Clone, Copy, PartialEq, Eq, Structural)]
pub enum Number {
    /// A whole number that is not negative.
    PosInt(u64),
    /// A negative whole number.
    NegInt(i64),
    /// Any other number.
    Float,
}

/// A JSON value.
#[derive(Debug, PartialEq, Eq)]
pub enum Value {
    /// The value `null`.
    Null,
    /// A truth value.
    Bool(bool),
    /// A number.
    Number(Number),
    /// A string.
    String(String),
    /// An array with its items.
    Array(Vec<Value>),
    /// An object with its fields, by name. Of two fields of one name the
    /// later one counts.
    Object(Vec<(String, Value)>),
}

/// A JSON value as plain mathematics.
pub enum ValueM {
    /// The value `null`.
    Null,
    /// A truth value.
    Bool(bool),
    /// A number.
    Number(Number),
    /// A string.
    String(Seq<char>),
    /// An array with its items.
    Array(Seq<ValueM>),
    /// An object with its fields, by name.
    Object(Seq<(Seq<char>, ValueM)>),
}

impl Value {
    /// This value as plain mathematics.
    pub open spec fn model(&self) -> ValueM
        decreases self,
    {
        match self {
            Value::Null => ValueM::Null,
            Value::Bool(b) => ValueM::Bool(*b),
            Value::Number(n) => ValueM::Number(*n),
            Value::String(s) => ValueM::String(s@),
            Value::Array(items) => ValueM::Array(
                Seq::new(
                    items@.len(),
                    |i: int|
                        if 0 <= i < items@.len() {
                            items@[i].model()
                        } else {
                            ValueM::Null
                        },
                ),
            ),
            Value::Object(fields) => ValueM::Object(
                Seq::new(
                    fields@.len(),
                    |i: int|
                        if 0 <= i < fields@.len() {
                            (fields@[i].0@, fields@[i].1.model())
                        } else {
                            (Seq::empty(), ValueM::Null)
                        },
                ),
            ),
        }
    }
}

/// The values of a list as plain mathematics.
pub open spec fn values(items: Seq<Value>) -> Seq<ValueM> {
    Seq::new(items.len(), |i: int| items[i].model())
}

/// The fields of a list as plain mathematics.
pub open spec fn named_values(fields: Seq<(String, Value)>) -> Seq<(Seq<char>, ValueM)> {
    Seq::new(fields.len(), |i: int| (fields[i].0@, fields[i].1.model()))
}

/// An array is its items, an object its fields.
pub proof fn lemma_value_model(v: Value)
    ensures
        match v {
            Value::Array(items) => v.model() == ValueM::Array(values(items@)),
            Value::Object(fields) => v.model() == ValueM::Object(named_values(fields@)),
            _ => true,
        },
{
    match v {
        Value::Array(items) => {
            assert(v.model()->Array_0 =~= values(items@));
        },
        Value::Object(fields) => {
            assert(v.model()->Object_0 =~= named_values(fields@));
        },
        _ => {},
    }
}

impl View for Value {
    type V = ValueM;

    open spec fn view(&self) -> ValueM {
        self.model()
    }
}

} // verus!
