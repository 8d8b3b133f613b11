//! The `CONST` block: drives its output with a configured literal every
//! scan.

use crate::blocks::step::{step_matches, StepOutcome};
use crate::bus::SignalBus;
use crate::config::{ParamModel, ParamValue};
use crate::error::{ErrorModel, PlcError};
use crate::table::{spec_table_lookup, Table};
use crate::value::{SignalValue, ValueModel};
use vstd::prelude::*;

verus! {

/// The signal value a configuration scalar denotes: the integer case
/// narrows to 32 bits by truncation.
pub open spec fn param_to_value(p: ParamModel) -> ValueModel {
    match p {
        ParamModel::Bool(b) => ValueModel::Bool(b),
        ParamModel::Int(i) => ValueModel::Int(i as i32),
        ParamModel::Float(bits) => ValueModel::Float(bits),
        ParamModel::Str(s) => ValueModel::Str(s),
    }
}

/// The mathematical shape of a `CONST` block.
pub struct ConstModel {
    pub name: Seq<char>,
    pub output: Seq<char>,
    pub value: ValueModel,
}

/// What one scan of a `CONST` block does on a bus holding `m`: it writes
/// its literal, and never fails.
pub open spec fn const_step(b: ConstModel, m: Map<Seq<char>, ValueModel>) -> StepOutcome<
    ConstModel,
> {
    StepOutcome { state: b, bus: m.insert(b.output, b.value), err: None }
}

/// The `CONST` block: drives its output with the configured literal every
/// scan. The literal's ground type is the shape of the `value` parameter.
pub struct ConstBlock {
    name: String,
    output: String,
    value: SignalValue,
}

impl View for ConstBlock {
    type V = ConstModel;

    closed spec fn view(&self) -> ConstModel {
        ConstModel { name: self.name@, output: self.output@, value: self.value@ }
    }
}

impl ConstBlock {
    /// The block's configured name.
    pub fn name(&self) -> (r: &str)
        ensures
            r@ == self@.name,
    {
        self.name.as_str()
    }

    /// Builds the block from its bindings and parameters: an `out` binding
    /// and a `value` parameter are mandatory.
    pub fn new(name: String, outputs: &Table<String>, params: &Table<ParamValue>) -> (r: Result<
        ConstBlock,
        PlcError,
    >)
        ensures
            match (spec_table_lookup(outputs@, "out"@), spec_table_lookup(params@, "value"@)) {
                (Some(o), Some(p)) => r matches Ok(b) && b@ == (ConstModel {
                    name: name@,
                    output: o,
                    value: param_to_value(p),
                }),
                (None, _) => r matches Err(e) && e@ == ErrorModel::ConfigError(
                    "CONST requires 'out' output"@,
                ),
                (Some(_), None) => r matches Err(e) && e@ == ErrorModel::ConfigError(
                    "CONST requires 'value' parameter"@,
                ),
            },
    {
        let output = match outputs.get("out") {
            Some(s) => s.clone(),
            None => {
                return Err(PlcError::ConfigError("CONST requires 'out' output".to_owned()));
            },
        };
        let value = match params.get("value") {
            Some(ParamValue::Bool(b)) => SignalValue::Bool(*b),
            Some(ParamValue::Int(i)) => SignalValue::Int(#[verifier::truncate] (*i as i32)),
            Some(ParamValue::Float(bits)) => SignalValue::Float(*bits),
            Some(ParamValue::Str(s)) => SignalValue::Str(s.clone()),
            None => {
                return Err(PlcError::ConfigError("CONST requires 'value' parameter".to_owned()));
            },
        };
        Ok(ConstBlock { name, output, value })
    }

    /// One scan: drives the output with the literal.
    pub fn execute(&mut self, bus: &mut SignalBus) -> (r: Result<(), PlcError>)
        ensures
            step_matches(const_step(old(self)@, old(bus)@), final(self)@, final(bus)@, r),
    {
        let res = bus.set(self.output.as_str(), self.value.duplicate());
        match res {
            Ok(_) => Ok(()),
            Err(e) => Err(e),
        }
    }
}

} // verus!
