//! JSON values as far as the library reads them.

use vstd::prelude::*;

verus! {

/// A JSON number: the integer and the floating-point number that it can be
/// read as.
#[derive(Debug, Clone, Copy, PartialEq, Eq, Structural)]
pub struct JsonNumber {
    /// The number as a signed integer of 64 bits, where it is one.
    pub as_i64: Option<i64>,
    /// The number as a floating-point number, by its bits as `f64::to_bits`
    /// gives them, where it can be read as one.
    pub as_f64_bits: Option<u64>,
}

/// A JSON value. Scalars stand as they are; an array or an object stands as
/// its JSON text.
#[derive(Debug, Clone, PartialEq, Eq)]
pub enum JsonValue {
    Null,
    Bool(bool),
    Number(JsonNumber),
    String(String),
    /// An array, as JSON text.
    Array(String),
    /// An object, as JSON text.
    Object(String),
}

} // verus!
