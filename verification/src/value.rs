//! Option values that travel from a caller to a muxer.

use vstd::prelude::*;
use vstd::std_specs::convert::FromSpecImpl;

verus! {

/// A value of one of the few kinds that an option can have.
///
/// A floating-point number travels as the 64 bits of its IEEE 754 binary64
/// form, so that it is carried exactly.
#[derive(Clone, Copy, Debug, PartialEq)]
pub enum Value<'a> {
    /// A boolean.
    Bool(bool),
    /// A signed integer.
    I64(i64),
    /// An unsigned integer.
    U64(u64),
    /// A floating-point number, as its binary64 bits.
    Float(u64),
    /// A string.
    Str(&'a str),
    /// A pair of integers.
    Pair(i64, i64),
    /// Bytes whose meaning only the muxer knows.
    Blob(&'a [u8]),
}

impl<'a> From<bool> for Value<'a> {
    fn from(v: bool) -> (value: Value<'a>) {
        Value::Bool(v)
    }
}

impl<'a> FromSpecImpl<bool> for Value<'a> {
    open spec fn obeys_from_spec() -> bool {
        true
    }

    open spec fn from_spec(v: bool) -> Value<'a> {
        Value::Bool(v)
    }
}

impl<'a> From<i64> for Value<'a> {
    fn from(v: i64) -> (value: Value<'a>) {
        Value::I64(v)
    }
}

impl<'a> FromSpecImpl<i64> for Value<'a> {
    open spec fn obeys_from_spec() -> bool {
        true
    }

    open spec fn from_spec(v: i64) -> Value<'a> {
        Value::I64(v)
    }
}

impl<'a> From<u64> for Value<'a> {
    fn from(v: u64) -> (value: Value<'a>) {
        Value::U64(v)
    }
}

impl<'a> FromSpecImpl<u64> for Value<'a> {
    open spec fn obeys_from_spec() -> bool {
        true
    }

    open spec fn from_spec(v: u64) -> Value<'a> {
        Value::U64(v)
    }
}

impl<'a> From<&'a str> for Value<'a> {
    fn from(v: &'a str) -> (value: Value<'a>) {
        Value::Str(v)
    }
}

impl<'a> FromSpecImpl<&'a str> for Value<'a> {
    open spec fn obeys_from_spec() -> bool {
        true
    }

    open spec fn from_spec(v: &'a str) -> Value<'a> {
        Value::Str(v)
    }
}

impl<'a> From<(i64, i64)> for Value<'a> {
    fn from(v: (i64, i64)) -> (value: Value<'a>) {
        Value::Pair(v.0, v.1)
    }
}

impl<'a> FromSpecImpl<(i64, i64)> for Value<'a> {
    open spec fn obeys_from_spec() -> bool {
        true
    }

    open spec fn from_spec(v: (i64, i64)) -> Value<'a> {
        Value::Pair(v.0, v.1)
    }
}

impl<'a> From<&'a [u8]> for Value<'a> {
    fn from(v: &'a [u8]) -> (value: Value<'a>) {
        Value::Blob(v)
    }
}

impl<'a> FromSpecImpl<&'a [u8]> for Value<'a> {
    open spec fn obeys_from_spec() -> bool {
        true
    }

    open spec fn from_spec(v: &'a [u8]) -> Value<'a> {
        Value::Blob(v)
    }
}

} // verus!
