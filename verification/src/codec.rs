//! The value codec: the bidirectional, loss-free mapping between the tagged
//! boundary value and the library's model of the native database value
//! domain. Both directions are total and exact, so a parameter survives a
//! round trip with its tag and payload untouched.

use vstd::prelude::*;

use crate::models::{NativeValue, Value};

verus! {

/// What converting a boundary value to the native domain yields: the same
/// tag with the same payload, kind by kind.
pub open spec fn boundary_to_native(v: Value) -> NativeValue {
    match v {
        Value::Null => NativeValue::Null,
        Value::Integer(n) => NativeValue::Integer(n),
        Value::Real(bits) => NativeValue::Real(bits),
        Value::Text(s) => NativeValue::Text(s),
        Value::Blob(b) => NativeValue::Blob(b),
    }
}

/// What converting a native value back to the boundary yields; this
/// direction presents trusted backend output and never fails.
pub open spec fn native_to_boundary(n: NativeValue) -> Value {
    match n {
        NativeValue::Null => Value::Null,
        NativeValue::Integer(v) => Value::Integer(v),
        NativeValue::Real(bits) => Value::Real(bits),
        NativeValue::Text(s) => Value::Text(s),
        NativeValue::Blob(b) => Value::Blob(b),
    }
}

impl Value {
    /// Converts this boundary value into its native counterpart.
    pub fn into_native(self) -> (r: NativeValue)
        ensures
            r == boundary_to_native(self),
    {
        match self {
            Value::Null => NativeValue::Null,
            Value::Integer(n) => NativeValue::Integer(n),
            Value::Real(bits) => NativeValue::Real(bits),
            Value::Text(s) => NativeValue::Text(s),
            Value::Blob(b) => NativeValue::Blob(b),
        }
    }
}

impl NativeValue {
    /// Converts this native value into its boundary counterpart.
    pub fn into_boundary(self) -> (r: Value)
        ensures
            r == native_to_boundary(self),
    {
        match self {
            NativeValue::Null => Value::Null,
            NativeValue::Integer(v) => Value::Integer(v),
            NativeValue::Real(bits) => Value::Real(bits),
            NativeValue::Text(s) => Value::Text(s),
            NativeValue::Blob(b) => Value::Blob(b),
        }
    }
}

impl From<NativeValue> for Value {
    /// Presents a native value at the boundary, never failing.
    fn from(n: NativeValue) -> (r: Value) {
        n.into_boundary()
    }
}

impl vstd::std_specs::convert::FromSpecImpl<NativeValue> for Value {
    open spec fn obeys_from_spec() -> bool {
        true
    }

    open spec fn from_spec(n: NativeValue) -> Value {
        native_to_boundary(n)
    }
}

/// Round-trip law: a boundary value sent to the native domain and read back
/// is returned unchanged, with its tag preserved exactly.
pub proof fn lemma_boundary_round_trip(v: Value)
    ensures
        native_to_boundary(boundary_to_native(v)) == v,
{
}

/// Round-trip law in the other direction: a native value presented at the
/// boundary and converted back is returned unchanged.
pub proof fn lemma_native_round_trip(n: NativeValue)
    ensures
        boundary_to_native(native_to_boundary(n)) == n,
{
}

} // verus!
