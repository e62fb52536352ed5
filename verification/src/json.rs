//! The mathematical model of a JSON document, which the contracts of this
//! library speak of.

use vstd::prelude::*;

verus! {

/// A JSON number, in the three forms in which `serde_json` holds one.
#[derive(Clone, Copy, Debug, PartialEq, Eq, Structural)]
pub enum Number {
    /// A non-negative integer up to `u64::MAX`.
    PosInt(u64),
    /// A negative integer down to `i64::MIN`.
    NegInt(i64),
    /// Any other number: the IEEE 754 bit pattern of the finite double that
    /// stands for it.
    Float(u64),
}

/// Whether a bit pattern is that of a finite double: the exponent field is
/// not all ones, so it is neither an infinity nor a NaN.
pub open spec fn is_finite_bits(bits: u64) -> bool {
    bits & 0x7ff0_0000_0000_0000u64 != 0x7ff0_0000_0000_0000u64
}

impl Number {
    /// Whether the number is finite. An integer always is.
    pub open spec fn is_finite(self) -> bool {
        match self {
            Number::Float(bits) => is_finite_bits(bits),
            _ => true,
        }
    }
}

/// The mathematical model of a JSON document.
pub enum Json {
    Null,
    Bool(bool),
    Number(Number),
    Text(Seq<char>),
    Array(Seq<Json>),
    /// The members of an object, in order.
    Object(Seq<(Seq<char>, Json)>),
}

/// The value of the first member named `key`, if there is one.
pub open spec fn lookup(members: Seq<(Seq<char>, Json)>, key: Seq<char>) -> Option<Json>
    decreases members.len(),
{
    if members.len() == 0 {
        None
    } else if members[0].0 == key {
        Some(members[0].1)
    } else {
        lookup(members.drop_first(), key)
    }
}

impl Json {
    /// The value of the member `key` of an object; `None` for a document
    /// that is not an object or has no such member.
    pub open spec fn member(self, key: Seq<char>) -> Option<Json> {
        match self {
            Json::Object(members) => lookup(members, key),
            _ => None,
        }
    }
}

} // verus!
