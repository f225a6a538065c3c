use vstd::prelude::*;

verus! {

/// A JSON value as it appears inside a wire frame.
///
/// Integers that fit in `u64` are `UInt`; only negative integers use `Int`.
/// A non-integral number is kept as the IEEE-754 bit pattern of its `f64`.
/// An object keeps its members in the order they were given.
#[derive(Debug, PartialEq, Eq)]
pub enum Json {
    Null,
    Bool(bool),
    UInt(u64),
    Int(i64),
    Float(u64),
    Str(String),
    Array(Vec<Json>),
    Object(Vec<(String, Json)>),
}

/// Map-shaped: a JSON object.
pub open spec fn is_map_spec(v: Json) -> bool {
    v is Object
}

/// Array-or-null-shaped: what an `args` position may hold.
pub open spec fn is_args_spec(v: Json) -> bool {
    v is Array || v is Null
}

/// Map-or-null-shaped: what a `kwargs` position may hold.
pub open spec fn is_kwargs_spec(v: Json) -> bool {
    v is Object || v is Null
}

/// Whether `v` is map-shaped.
pub fn is_map(v: &Json) -> (r: bool)
    ensures
        r == is_map_spec(*v),
{
    match v {
        Json::Object(_) => true,
        _ => false,
    }
}

/// Whether `v` is array-shaped or null.
pub fn is_args(v: &Json) -> (r: bool)
    ensures
        r == is_args_spec(*v),
{
    match v {
        Json::Array(_) | Json::Null => true,
        _ => false,
    }
}

/// Whether `v` is map-shaped or null.
pub fn is_kwargs(v: &Json) -> (r: bool)
    ensures
        r == is_kwargs_spec(*v),
{
    match v {
        Json::Object(_) | Json::Null => true,
        _ => false,
    }
}

} // verus!
