//! Signal values: a tagged union over the four ground types, with the
//! defined cross-type coercions.

use crate::binary64;
use vstd::prelude::*;

verus! {

/// The mathematical shape of a signal value, with strings abstracted to
/// character sequences. Floating-point values are carried as their IEEE-754
/// binary64 bit patterns.
pub enum ValueModel {
    Bool(bool),
    Int(i32),
    Float(u64),
    Str(Seq<char>),
}

/// A live signal value: one of the four ground types.
///
/// The `Float` variant holds the IEEE-754 binary64 encoding of the value;
/// the core compares and converts such values by their encodings (see
/// `binary64`) and never performs native floating-point arithmetic.
#[derive(Debug, Clone)]
pub enum SignalValue {
    Bool(bool),
    Int(i32),
    Float(u64),
    Str(String),
}

impl View for SignalValue {
    type V = ValueModel;

    open spec fn view(&self) -> ValueModel {
        match self {
            SignalValue::Bool(b) => ValueModel::Bool(*b),
            SignalValue::Int(i) => ValueModel::Int(*i),
            SignalValue::Float(bits) => ValueModel::Float(*bits),
            SignalValue::Str(s) => ValueModel::Str(s@),
        }
    }
}

/// The boolean a value coerces to: identity from `Bool`, non-zero test from
/// `Int`, undefined otherwise.
pub open spec fn spec_as_bool(v: ValueModel) -> Option<bool> {
    match v {
        ValueModel::Bool(b) => Some(b),
        ValueModel::Int(i) => Some(i != 0),
        _ => None,
    }
}

/// The integer a value coerces to: identity from `Int`, `1`/`0` from `Bool`,
/// truncation toward zero from `Float`, undefined from `Str`.
pub open spec fn spec_as_int(v: ValueModel) -> Option<i32> {
    match v {
        ValueModel::Int(i) => Some(i),
        ValueModel::Bool(b) => Some(
            if b {
                1
            } else {
                0
            },
        ),
        ValueModel::Float(bits) => Some(binary64::spec_trunc_i32(bits)),
        ValueModel::Str(_) => None,
    }
}

/// The binary64 encoding a value coerces to: identity from `Float`, the
/// exact widening from `Int`, undefined otherwise.
pub open spec fn spec_as_float(v: ValueModel) -> Option<u64> {
    match v {
        ValueModel::Float(bits) => Some(bits),
        ValueModel::Int(i) => Some(binary64::spec_bits_of_i32(i)),
        _ => None,
    }
}

/// The character sequence `type_label` reports for a value of this shape.
pub open spec fn spec_type_label(v: ValueModel) -> Seq<char> {
    match v {
        ValueModel::Bool(_) => "bool"@,
        ValueModel::Int(_) => "int"@,
        ValueModel::Float(_) => "float"@,
        ValueModel::Str(_) => "string"@,
    }
}

impl SignalValue {
    /// An equal copy of the value.
    pub fn duplicate(&self) -> (r: SignalValue)
        ensures
            r == *self,
    {
        match self {
            SignalValue::Bool(b) => SignalValue::Bool(*b),
            SignalValue::Int(i) => SignalValue::Int(*i),
            SignalValue::Float(bits) => SignalValue::Float(*bits),
            SignalValue::Str(s) => SignalValue::Str(s.clone()),
        }
    }

    /// Coerces to a boolean: identity from `Bool`, non-zero test from `Int`.
    pub fn as_bool(&self) -> (r: Option<bool>)
        ensures
            r == spec_as_bool(self@),
    {
        match self {
            SignalValue::Bool(b) => Some(*b),
            SignalValue::Int(i) => Some(*i != 0),
            _ => None,
        }
    }

    /// Coerces to an integer: identity from `Int`, `1`/`0` from `Bool`,
    /// truncation toward zero from `Float`.
    pub fn as_int(&self) -> (r: Option<i32>)
        ensures
            r == spec_as_int(self@),
    {
        match self {
            SignalValue::Int(i) => Some(*i),
            SignalValue::Bool(b) => Some(
                if *b {
                    1
                } else {
                    0
                },
            ),
            SignalValue::Float(bits) => Some(binary64::trunc_i32_bits(*bits)),
            SignalValue::Str(_) => None,
        }
    }

    /// Coerces to a binary64 encoding: identity from `Float`, exact
    /// widening from `Int`.
    pub fn as_float(&self) -> (r: Option<u64>)
        ensures
            r == spec_as_float(self@),
    {
        match self {
            SignalValue::Float(bits) => Some(*bits),
            SignalValue::Int(i) => Some(binary64::bits_of_i32(*i)),
            _ => None,
        }
    }

    /// The name of the value's ground type.
    pub fn type_label(&self) -> (r: &'static str)
        ensures
            r@ == spec_type_label(self@),
    {
        match self {
            SignalValue::Bool(_) => "bool",
            SignalValue::Int(_) => "int",
            SignalValue::Float(_) => "float",
            SignalValue::Str(_) => "string",
        }
    }
}

} // verus!
