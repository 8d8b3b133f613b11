//! The comparison blocks `EQ`, `GT` and `LT`: two operands, one boolean
//! output.

use crate::binary64;
use crate::blocks::step::{step_matches, StepOutcome};
use crate::bus::{spec_read, SignalBus};
use crate::error::{ErrorModel, PlcError};
use crate::table::{spec_table_lookup, Table};
use crate::value::{SignalValue, ValueModel};
use vstd::prelude::*;

verus! {

/// Whether two signal values are equal: exact equality within `Bool`, `Int`
/// and `Str`; equality of the denoted numbers within `Float` (so NaN equals
/// nothing and the two zeros are equal); operands of different ground types
/// are never equal (and never an error).
pub open spec fn eq_values(a: ValueModel, b: ValueModel) -> bool {
    match (a, b) {
        (ValueModel::Bool(x), ValueModel::Bool(y)) => x == y,
        (ValueModel::Int(x), ValueModel::Int(y)) => x == y,
        (ValueModel::Float(x), ValueModel::Float(y)) => binary64::spec_eq(x, y),
        (ValueModel::Str(x), ValueModel::Str(y)) => x == y,
        _ => false,
    }
}

/// Whether `a > b`, defined only for like-numeric pairs.
pub open spec fn gt_values(a: ValueModel, b: ValueModel) -> Option<bool> {
    match (a, b) {
        (ValueModel::Int(x), ValueModel::Int(y)) => Some(x > y),
        (ValueModel::Float(x), ValueModel::Float(y)) => Some(binary64::spec_lt(y, x)),
        _ => None,
    }
}

/// Whether `a < b`, defined only for like-numeric pairs.
pub open spec fn lt_values(a: ValueModel, b: ValueModel) -> Option<bool> {
    match (a, b) {
        (ValueModel::Int(x), ValueModel::Int(y)) => Some(x < y),
        (ValueModel::Float(x), ValueModel::Float(y)) => Some(binary64::spec_lt(x, y)),
        _ => None,
    }
}

/// The mathematical shape of a comparison block: its two operand signals
/// and its output signal.
pub struct CmpModel {
    pub name: Seq<char>,
    pub input1: Seq<char>,
    pub input2: Seq<char>,
    pub output: Seq<char>,
}

/// What one scan of an `EQ` block does on a bus holding `m`.
pub open spec fn eq_step(b: CmpModel, m: Map<Seq<char>, ValueModel>) -> StepOutcome<CmpModel> {
    match spec_read(m, b.input1) {
        Err(e) => StepOutcome { state: b, bus: m, err: Some(e) },
        Ok(v1) => match spec_read(m, b.input2) {
            Err(e) => StepOutcome { state: b, bus: m, err: Some(e) },
            Ok(v2) => StepOutcome {
                state: b,
                bus: m.insert(b.output, ValueModel::Bool(eq_values(v1, v2))),
                err: None,
            },
        },
    }
}

/// What one scan of a `GT` or `LT` block does on a bus holding `m`, given
/// the ordering `cmp` it applies to the two operand values.
pub open spec fn ord_step(
    b: CmpModel,
    m: Map<Seq<char>, ValueModel>,
    cmp: spec_fn(ValueModel, ValueModel) -> Option<bool>,
) -> StepOutcome<CmpModel> {
    match spec_read(m, b.input1) {
        Err(e) => StepOutcome { state: b, bus: m, err: Some(e) },
        Ok(v1) => match spec_read(m, b.input2) {
            Err(e) => StepOutcome { state: b, bus: m, err: Some(e) },
            Ok(v2) => match cmp(v1, v2) {
                Some(v) => StepOutcome {
                    state: b,
                    bus: m.insert(b.output, ValueModel::Bool(v)),
                    err: None,
                },
                None => StepOutcome {
                    state: b,
                    bus: m,
                    err: Some(
                        ErrorModel::TypeMismatch {
                            expected: "numeric"@,
                            actual: "non-numeric"@,
                        },
                    ),
                },
            },
        },
    }
}

/// The `EQ` block: drives its output with whether the two operands are
/// equal. Operands of different ground types compare unequal, never in
/// error.
pub struct EqBlock {
    name: String,
    input1: String,
    input2: String,
    output: String,
}

impl View for EqBlock {
    type V = CmpModel;

    closed spec fn view(&self) -> CmpModel {
        CmpModel {
            name: self.name@,
            input1: self.input1@,
            input2: self.input2@,
            output: self.output@,
        }
    }
}

impl EqBlock {
    /// The block's configured name.
    pub fn name(&self) -> (r: &str)
        ensures
            r@ == self@.name,
    {
        self.name.as_str()
    }

    /// Builds the block from its bindings: `in1`, `in2` and `out` are
    /// mandatory.
    pub fn new(name: String, inputs: &Table<String>, outputs: &Table<String>) -> (r: Result<
        EqBlock,
        PlcError,
    >)
        ensures
            match (
                spec_table_lookup(inputs@, "in1"@),
                spec_table_lookup(inputs@, "in2"@),
                spec_table_lookup(outputs@, "out"@),
            ) {
                (Some(i1), Some(i2), Some(o)) => r matches Ok(b) && b@ == (CmpModel {
                    name: name@,
                    input1: i1,
                    input2: i2,
                    output: o,
                }),
                (None, _, _) => r matches Err(e) && e@ == ErrorModel::ConfigError(
                    "EQ requires 'in1' input"@,
                ),
                (Some(_), None, _) => r matches Err(e) && e@ == ErrorModel::ConfigError(
                    "EQ requires 'in2' input"@,
                ),
                (Some(_), Some(_), None) => r matches Err(e) && e@ == ErrorModel::ConfigError(
                    "EQ requires 'out' output"@,
                ),
            },
    {
        let input1 = match inputs.get("in1") {
            Some(s) => s.clone(),
            None => {
                return Err(PlcError::ConfigError("EQ requires 'in1' input".to_owned()));
            },
        };
        let input2 = match inputs.get("in2") {
            Some(s) => s.clone(),
            None => {
                return Err(PlcError::ConfigError("EQ requires 'in2' input".to_owned()));
            },
        };
        let output = match outputs.get("out") {
            Some(s) => s.clone(),
            None => {
                return Err(PlcError::ConfigError("EQ requires 'out' output".to_owned()));
            },
        };
        Ok(EqBlock { name, input1, input2, output })
    }

    /// One scan: reads both operands and drives the output with their
    /// equality.
    pub fn execute(&mut self, bus: &mut SignalBus) -> (r: Result<(), PlcError>)
        ensures
            step_matches(eq_step(old(self)@, old(bus)@), final(self)@, final(bus)@, r),
    {
        let v1 = match bus.get(self.input1.as_str()) {
            Ok(v) => v,
            Err(e) => {
                return Err(e);
            },
        };
        let v2 = match bus.get(self.input2.as_str()) {
            Ok(v) => v,
            Err(e) => {
                return Err(e);
            },
        };
        let result = match (&v1, &v2) {
            (SignalValue::Bool(a), SignalValue::Bool(b)) => *a == *b,
            (SignalValue::Int(a), SignalValue::Int(b)) => *a == *b,
            (SignalValue::Float(a), SignalValue::Float(b)) => binary64::eq_bits(*a, *b),
            (SignalValue::Str(a), SignalValue::Str(b)) => crate::table::str_eq(
                a.as_str(),
                b.as_str(),
            ),
            _ => false,
        };
        let res = bus.set(self.output.as_str(), SignalValue::Bool(result));
        match res {
            Ok(_) => Ok(()),
            Err(e) => Err(e),
        }
    }
}

/// The `GT` block: drives its output with whether the first operand is
/// strictly above the second; defined only for like-numeric operands.
pub struct GtBlock {
    name: String,
    input1: String,
    input2: String,
    output: String,
}

impl View for GtBlock {
    type V = CmpModel;

    closed spec fn view(&self) -> CmpModel {
        CmpModel {
            name: self.name@,
            input1: self.input1@,
            input2: self.input2@,
            output: self.output@,
        }
    }
}

impl GtBlock {
    /// The block's configured name.
    pub fn name(&self) -> (r: &str)
        ensures
            r@ == self@.name,
    {
        self.name.as_str()
    }

    /// Builds the block from its bindings: `in1`, `in2` and `out` are
    /// mandatory.
    pub fn new(name: String, inputs: &Table<String>, outputs: &Table<String>) -> (r: Result<
        GtBlock,
        PlcError,
    >)
        ensures
            match (
                spec_table_lookup(inputs@, "in1"@),
                spec_table_lookup(inputs@, "in2"@),
                spec_table_lookup(outputs@, "out"@),
            ) {
                (Some(i1), Some(i2), Some(o)) => r matches Ok(b) && b@ == (CmpModel {
                    name: name@,
                    input1: i1,
                    input2: i2,
                    output: o,
                }),
                (None, _, _) => r matches Err(e) && e@ == ErrorModel::ConfigError(
                    "GT requires 'in1' input"@,
                ),
                (Some(_), None, _) => r matches Err(e) && e@ == ErrorModel::ConfigError(
                    "GT requires 'in2' input"@,
                ),
                (Some(_), Some(_), None) => r matches Err(e) && e@ == ErrorModel::ConfigError(
                    "GT requires 'out' output"@,
                ),
            },
    {
        let input1 = match inputs.get("in1") {
            Some(s) => s.clone(),
            None => {
                return Err(PlcError::ConfigError("GT requires 'in1' input".to_owned()));
            },
        };
        let input2 = match inputs.get("in2") {
            Some(s) => s.clone(),
            None => {
                return Err(PlcError::ConfigError("GT requires 'in2' input".to_owned()));
            },
        };
        let output = match outputs.get("out") {
            Some(s) => s.clone(),
            None => {
                return Err(PlcError::ConfigError("GT requires 'out' output".to_owned()));
            },
        };
        Ok(GtBlock { name, input1, input2, output })
    }

    /// One scan: reads both operands and drives the output with the strict
    /// ordering; non-numeric operands fail with `TypeMismatch`.
    pub fn execute(&mut self, bus: &mut SignalBus) -> (r: Result<(), PlcError>)
        ensures
            step_matches(
                ord_step(old(self)@, old(bus)@, |a: ValueModel, b: ValueModel| gt_values(a, b)),
                final(self)@,
                final(bus)@,
                r,
            ),
    {
        let v1 = match bus.get(self.input1.as_str()) {
            Ok(v) => v,
            Err(e) => {
                return Err(e);
            },
        };
        let v2 = match bus.get(self.input2.as_str()) {
            Ok(v) => v,
            Err(e) => {
                return Err(e);
            },
        };
        let result = match (&v1, &v2) {
            (SignalValue::Int(a), SignalValue::Int(b)) => *a > *b,
            (SignalValue::Float(a), SignalValue::Float(b)) => binary64::lt_bits(*b, *a),
            _ => {
                return Err(
                    PlcError::TypeMismatch {
                        expected: "numeric".to_owned(),
                        actual: "non-numeric".to_owned(),
                    },
                );
            },
        };
        let res = bus.set(self.output.as_str(), SignalValue::Bool(result));
        match res {
            Ok(_) => Ok(()),
            Err(e) => Err(e),
        }
    }
}

/// The `LT` block: drives its output with whether the first operand is
/// strictly below the second; defined only for like-numeric operands.
pub struct LtBlock {
    name: String,
    input1: String,
    input2: String,
    output: String,
}

impl View for LtBlock {
    type V = CmpModel;

    closed spec fn view(&self) -> CmpModel {
        CmpModel {
            name: self.name@,
            input1: self.input1@,
            input2: self.input2@,
            output: self.output@,
        }
    }
}

impl LtBlock {
    /// The block's configured name.
    pub fn name(&self) -> (r: &str)
        ensures
            r@ == self@.name,
    {
        self.name.as_str()
    }

    /// Builds the block from its bindings: `in1`, `in2` and `out` are
    /// mandatory.
    pub fn new(name: String, inputs: &Table<String>, outputs: &Table<String>) -> (r: Result<
        LtBlock,
        PlcError,
    >)
        ensures
            match (
                spec_table_lookup(inputs@, "in1"@),
                spec_table_lookup(inputs@, "in2"@),
                spec_table_lookup(outputs@, "out"@),
            ) {
                (Some(i1), Some(i2), Some(o)) => r matches Ok(b) && b@ == (CmpModel {
                    name: name@,
                    input1: i1,
                    input2: i2,
                    output: o,
                }),
                (None, _, _) => r matches Err(e) && e@ == ErrorModel::ConfigError(
                    "LT requires 'in1' input"@,
                ),
                (Some(_), None, _) => r matches Err(e) && e@ == ErrorModel::ConfigError(
                    "LT requires 'in2' input"@,
                ),
                (Some(_), Some(_), None) => r matches Err(e) && e@ == ErrorModel::ConfigError(
                    "LT requires 'out' output"@,
                ),
            },
    {
        let input1 = match inputs.get("in1") {
            Some(s) => s.clone(),
            None => {
                return Err(PlcError::ConfigError("LT requires 'in1' input".to_owned()));
            },
        };
        let input2 = match inputs.get("in2") {
            Some(s) => s.clone(),
            None => {
                return Err(PlcError::ConfigError("LT requires 'in2' input".to_owned()));
            },
        };
        let output = match outputs.get("out") {
            Some(s) => s.clone(),
            None => {
                return Err(PlcError::ConfigError("LT requires 'out' output".to_owned()));
            },
        };
        Ok(LtBlock { name, input1, input2, output })
    }

    /// One scan: reads both operands and drives the output with the strict
    /// ordering; non-numeric operands fail with `TypeMismatch`.
    pub fn execute(&mut self, bus: &mut SignalBus) -> (r: Result<(), PlcError>)
        ensures
            step_matches(
                ord_step(old(self)@, old(bus)@, |a: ValueModel, b: ValueModel| lt_values(a, b)),
                final(self)@,
                final(bus)@,
                r,
            ),
    {
        let v1 = match bus.get(self.input1.as_str()) {
            Ok(v) => v,
            Err(e) => {
                return Err(e);
            },
        };
        let v2 = match bus.get(self.input2.as_str()) {
            Ok(v) => v,
            Err(e) => {
                return Err(e);
            },
        };
        let result = match (&v1, &v2) {
            (SignalValue::Int(a), SignalValue::Int(b)) => *a < *b,
            (SignalValue::Float(a), SignalValue::Float(b)) => binary64::lt_bits(*a, *b),
            _ => {
                return Err(
                    PlcError::TypeMismatch {
                        expected: "numeric".to_owned(),
                        actual: "non-numeric".to_owned(),
                    },
                );
            },
        };
        let res = bus.set(self.output.as_str(), SignalValue::Bool(result));
        match res {
            Ok(_) => Ok(()),
            Err(e) => Err(e),
        }
    }
}

} // verus!
