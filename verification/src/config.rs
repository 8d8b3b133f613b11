//! The program configuration: signal declarations, block declarations and
//! the scan cadence. This is the data model an external loader (whatever its
//! textual encoding) must produce to construct an engine.

use crate::error::{ErrorModel, PlcError};
use crate::table::{str_eq, Table};
use crate::value::{SignalValue, ValueModel};
use vstd::prelude::*;
use vstd::string::StringExecFns;

verus! {

/// The mathematical shape of a configuration scalar.
pub enum ParamModel {
    Bool(bool),
    Int(i64),
    Float(u64),
    Str(Seq<char>),
}

/// A configuration scalar: a parameter value or an initial signal value.
/// The tag mirrors the shape the textual encoding carries; floats are held
/// as their binary64 encodings.
#[derive(Debug, Clone)]
pub enum ParamValue {
    Bool(bool),
    Int(i64),
    Float(u64),
    Str(String),
}

impl View for ParamValue {
    type V = ParamModel;

    open spec fn view(&self) -> ParamModel {
        match self {
            ParamValue::Bool(b) => ParamModel::Bool(*b),
            ParamValue::Int(i) => ParamModel::Int(*i),
            ParamValue::Float(bits) => ParamModel::Float(*bits),
            ParamValue::Str(s) => ParamModel::Str(s@),
        }
    }
}

/// The unsigned integer a parameter yields: defined only for a non-negative
/// integer scalar.
pub open spec fn spec_param_as_u64(p: ParamModel) -> Option<u64> {
    match p {
        ParamModel::Int(i) => if i >= 0 {
            Some(i as u64)
        } else {
            None
        },
        _ => None,
    }
}

/// The signed integer a parameter yields: defined only for an integer scalar.
pub open spec fn spec_param_as_i64(p: ParamModel) -> Option<i64> {
    match p {
        ParamModel::Int(i) => Some(i),
        _ => None,
    }
}

impl ParamValue {
    /// The non-negative integer this scalar holds, if any.
    pub fn as_u64(&self) -> (r: Option<u64>)
        ensures
            r == spec_param_as_u64(self@),
    {
        match self {
            ParamValue::Int(i) => if *i >= 0 {
                Some(*i as u64)
            } else {
                None
            },
            _ => None,
        }
    }

    /// The integer this scalar holds, if any.
    pub fn as_i64(&self) -> (r: Option<i64>)
        ensures
            r == spec_param_as_i64(self@),
    {
        match self {
            ParamValue::Int(i) => Some(*i),
            _ => None,
        }
    }
}

/// The mathematical shape of one signal declaration.
pub struct SignalConfigModel {
    pub name: Seq<char>,
    pub signal_type: Seq<char>,
    pub initial: Option<ParamModel>,
}

/// One signal declaration: a name, a declared type (`"bool"`, `"int"`,
/// `"float"` or `"string"`) and an optional initial value.
pub struct SignalConfig {
    pub name: String,
    pub signal_type: String,
    pub initial: Option<ParamValue>,
}

impl View for SignalConfig {
    type V = SignalConfigModel;

    open spec fn view(&self) -> SignalConfigModel {
        SignalConfigModel {
            name: self.name@,
            signal_type: self.signal_type@,
            initial: match &self.initial {
                Some(p) => Some(p@),
                None => None,
            },
        }
    }
}

/// The initial value a signal declaration denotes: the declared default of
/// its type when no initial value of that type is given, and an error for an
/// unknown declared type. An initial value of another shape than the declared
/// type falls back to the default.
pub open spec fn spec_initial_value(c: SignalConfigModel) -> Result<ValueModel, ErrorModel> {
    if c.signal_type == "bool"@ {
        Ok(
            ValueModel::Bool(
                match c.initial {
                    Some(ParamModel::Bool(b)) => b,
                    _ => false,
                },
            ),
        )
    } else if c.signal_type == "int"@ {
        Ok(
            ValueModel::Int(
                match c.initial {
                    Some(ParamModel::Int(i)) => i as i32,
                    _ => 0,
                },
            ),
        )
    } else if c.signal_type == "float"@ {
        Ok(
            ValueModel::Float(
                match c.initial {
                    Some(ParamModel::Float(bits)) => bits,
                    _ => 0,
                },
            ),
        )
    } else if c.signal_type == "string"@ {
        Ok(
            ValueModel::Str(
                match c.initial {
                    Some(ParamModel::Str(s)) => s,
                    _ => Seq::empty(),
                },
            ),
        )
    } else {
        Err(ErrorModel::ConfigError("Unknown signal type: "@ + c.signal_type))
    }
}

impl SignalConfig {
    /// Converts the declaration into the signal's initial value.
    ///
    /// A numeric initial for a float-typed signal must be given as a float
    /// scalar; the loader normalizes integer literals before handing the
    /// configuration over.
    pub fn to_signal_value(&self) -> (r: Result<SignalValue, PlcError>)
        ensures
            crate::bus::models_result(r, spec_initial_value(self@)),
    {
        if str_eq(self.signal_type.as_str(), "bool") {
            Ok(
                SignalValue::Bool(
                    match &self.initial {
                        Some(ParamValue::Bool(b)) => *b,
                        _ => false,
                    },
                ),
            )
        } else if str_eq(self.signal_type.as_str(), "int") {
            Ok(
                SignalValue::Int(
                    match &self.initial {
                        Some(ParamValue::Int(i)) => #[verifier::truncate] (*i as i32),
                        _ => 0,
                    },
                ),
            )
        } else if str_eq(self.signal_type.as_str(), "float") {
            Ok(
                SignalValue::Float(
                    match &self.initial {
                        Some(ParamValue::Float(bits)) => *bits,
                        _ => 0,
                    },
                ),
            )
        } else if str_eq(self.signal_type.as_str(), "string") {
            Ok(
                SignalValue::Str(
                    match &self.initial {
                        Some(ParamValue::Str(s)) => s.clone(),
                        _ => String::new(),
                    },
                ),
            )
        } else {
            let mut msg = "Unknown signal type: ".to_owned();
            msg.append(self.signal_type.as_str());
            Err(PlcError::ConfigError(msg))
        }
    }
}

/// The mathematical shape of one block declaration.
pub struct BlockConfigModel {
    pub name: Seq<char>,
    pub block_type: Seq<char>,
    pub inputs: Seq<(Seq<char>, Seq<char>)>,
    pub outputs: Seq<(Seq<char>, Seq<char>)>,
    pub params: Seq<(Seq<char>, ParamModel)>,
}

/// One block declaration: a name, a block type tag, the input and output
/// port bindings (formal port name to signal name) and the parameters.
pub struct BlockConfig {
    pub name: String,
    pub block_type: String,
    pub inputs: Table<String>,
    pub outputs: Table<String>,
    pub params: Table<ParamValue>,
}

impl View for BlockConfig {
    type V = BlockConfigModel;

    open spec fn view(&self) -> BlockConfigModel {
        BlockConfigModel {
            name: self.name@,
            block_type: self.block_type@,
            inputs: self.inputs@,
            outputs: self.outputs@,
            params: self.params@,
        }
    }
}

/// The mathematical shape of a whole program configuration.
pub struct PlcConfigModel {
    pub signals: Seq<SignalConfigModel>,
    pub blocks: Seq<BlockConfigModel>,
    pub scan_time_ms: u64,
}

/// A whole program configuration: the declared signals, the blocks in their
/// execution order, and the scan cadence in milliseconds.
pub struct PlcConfig {
    pub signals: Vec<SignalConfig>,
    pub blocks: Vec<BlockConfig>,
    pub scan_time_ms: u64,
}

impl View for PlcConfig {
    type V = PlcConfigModel;

    open spec fn view(&self) -> PlcConfigModel {
        PlcConfigModel {
            signals: self.signals@.map_values(|c: SignalConfig| c@),
            blocks: self.blocks@.map_values(|c: BlockConfig| c@),
            scan_time_ms: self.scan_time_ms,
        }
    }
}

impl Default for PlcConfig {
    /// An empty program with the conventional 100 ms scan cadence.
    fn default() -> (r: PlcConfig)
        ensures
            r@.signals.len() == 0,
            r@.blocks.len() == 0,
            r@.scan_time_ms == 100,
    {
        PlcConfig { signals: Vec::new(), blocks: Vec::new(), scan_time_ms: 100 }
    }
}

} // verus!
