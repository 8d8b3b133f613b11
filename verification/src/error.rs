//! The error taxonomy of the PLC core.

use vstd::prelude::*;

verus! {

/// The mathematical shape of an error: which variant it is and the text it
/// carries, with strings abstracted to character sequences.
pub enum ErrorModel {
    SignalNotFound(Seq<char>),
    TypeMismatch { expected: Seq<char>, actual: Seq<char> },
    ConfigError(Seq<char>),
    ExecutionError(Seq<char>),
}

/// An error raised by the PLC core.
///
/// `SignalNotFound` comes from a read of an unknown key; `TypeMismatch` from a
/// typed read whose coercion is undefined, or a numeric comparison with
/// non-numeric operands; `ConfigError` from a malformed configuration at
/// construction time; `ExecutionError` is reserved for block-specific runtime
/// failures.
#[derive(Debug, Clone, PartialEq)]
pub enum PlcError {
    SignalNotFound(String),
    TypeMismatch { expected: String, actual: String },
    ConfigError(String),
    ExecutionError(String),
}

impl View for PlcError {
    type V = ErrorModel;

    open spec fn view(&self) -> ErrorModel {
        match self {
            PlcError::SignalNotFound(name) => ErrorModel::SignalNotFound(name@),
            PlcError::TypeMismatch { expected, actual } => ErrorModel::TypeMismatch {
                expected: expected@,
                actual: actual@,
            },
            PlcError::ConfigError(msg) => ErrorModel::ConfigError(msg@),
            PlcError::ExecutionError(msg) => ErrorModel::ExecutionError(msg@),
        }
    }
}

impl PlcError {
    /// A human-readable description of the error.
    pub fn message(&self) -> (r: String)
        ensures
            match self@ {
                ErrorModel::SignalNotFound(name) => r@ == "Signal not found: "@ + name,
                ErrorModel::TypeMismatch { expected, actual } => r@ == "Invalid signal type: expected "@
                    + expected + ", got "@ + actual,
                ErrorModel::ConfigError(msg) => r@ == "Configuration error: "@ + msg,
                ErrorModel::ExecutionError(msg) => r@ == "Block execution error: "@ + msg,
            },
    {
        match self {
            PlcError::SignalNotFound(name) => {
                let mut r = "Signal not found: ".to_owned();
                r.append(name.as_str());
                r
            },
            PlcError::TypeMismatch { expected, actual } => {
                let mut r = "Invalid signal type: expected ".to_owned();
                r.append(expected.as_str());
                r.append(", got ");
                r.append(actual.as_str());
                r
            },
            PlcError::ConfigError(msg) => {
                let mut r = "Configuration error: ".to_owned();
                r.append(msg.as_str());
                r
            },
            PlcError::ExecutionError(msg) => {
                let mut r = "Block execution error: ".to_owned();
                r.append(msg.as_str());
                r
            },
        }
    }
}

} // verus!
