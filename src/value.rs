use vstd::prelude::*;

verus! {

/// What an input value is, as a mathematical object: structural equality of
/// two inputs is equality of their views.
pub enum Json {
    Null,
    Bool(bool),
    Integer(int),
    Float(u64),
    Str(Seq<char>),
    Array(Seq<char>),
    Object(Seq<char>),
}

/// A dynamically typed value sent by the client or held by the server.
///
/// Numbers keep the distinction that JSON text makes: an integer and a
/// floating-point number are never equal. A floating-point number is held as
/// its IEEE-754 bit pattern, with negative zero stored as positive zero.
/// Arrays and objects are held as their compact JSON text with object keys in
/// sorted order, so that two of them are structurally equal exactly when
/// their texts are.
pub enum InputValue {
    Null,
    Bool(bool),
    Integer(i128),
    Float(u64),
    Str(String),
    Array(String),
    Object(String),
}

impl View for InputValue {
    type V = Json;

    open spec fn view(&self) -> Json {
        match self {
            InputValue::Null => Json::Null,
            InputValue::Bool(b) => Json::Bool(*b),
            InputValue::Integer(n) => Json::Integer(*n as int),
            InputValue::Float(bits) => Json::Float(*bits),
            InputValue::Str(s) => Json::Str(s@),
            InputValue::Array(t) => Json::Array(t@),
            InputValue::Object(t) => Json::Object(t@),
        }
    }
}

impl InputValue {
    pub fn is_null(&self) -> (r: bool)
        ensures
            r == (self@ is Null),
    {
        match self {
            InputValue::Null => true,
            _ => false,
        }
    }

    /// Structural equality.
    pub fn same_as(&self, other: &InputValue) -> (r: bool)
        ensures
            r == (self@ == other@),
    {
        match (self, other) {
            (InputValue::Null, InputValue::Null) => true,
            (InputValue::Bool(a), InputValue::Bool(b)) => *a == *b,
            (InputValue::Integer(a), InputValue::Integer(b)) => *a == *b,
            (InputValue::Float(a), InputValue::Float(b)) => *a == *b,
            (InputValue::Str(a), InputValue::Str(b)) => *a == *b,
            (InputValue::Array(a), InputValue::Array(b)) => *a == *b,
            (InputValue::Object(a), InputValue::Object(b)) => *a == *b,
            _ => false,
        }
    }

    /// A copy whose view is the same.
    pub fn duplicate(&self) -> (r: InputValue)
        ensures
            r@ == self@,
    {
        match self {
            InputValue::Null => InputValue::Null,
            InputValue::Bool(b) => InputValue::Bool(*b),
            InputValue::Integer(n) => InputValue::Integer(*n),
            InputValue::Float(bits) => InputValue::Float(*bits),
            InputValue::Str(s) => InputValue::Str(s.clone()),
            InputValue::Array(t) => InputValue::Array(t.clone()),
            InputValue::Object(t) => InputValue::Object(t.clone()),
        }
    }
}

} // verus!
