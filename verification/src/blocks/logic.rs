//! The variadic logic gates `AND` and `OR`, and the single-input `NOT`.

use crate::blocks::step::{step_matches, StepOutcome};
use crate::bus::{spec_read_bool, SignalBus};
use crate::error::{ErrorModel, PlcError};
use crate::table::{spec_table_lookup, str_starts_with, Table};
use crate::value::{SignalValue, ValueModel};
use vstd::prelude::*;

verus! {

/// Whether a formal port name begins with `"in"`, which marks it as an
/// input operand of a variadic gate.
pub open spec fn is_in_port(k: Seq<char>) -> bool {
    "in"@.len() <= k.len() && k.subrange(0, "in"@.len() as int) == "in"@
}

/// The signals bound to the input ports among the first `n` bindings, in
/// binding order.
pub open spec fn in_ports_prefix(entries: Seq<(Seq<char>, Seq<char>)>, n: int) -> Seq<Seq<char>>
    decreases n,
{
    if n <= 0 {
        Seq::empty()
    } else {
        let pre = in_ports_prefix(entries, n - 1);
        if is_in_port(entries[n - 1].0) {
            pre.push(entries[n - 1].1)
        } else {
            pre
        }
    }
}

/// The signals bound to the input ports of a variadic gate, in binding
/// order.
pub open spec fn in_port_signals(entries: Seq<(Seq<char>, Seq<char>)>) -> Seq<Seq<char>> {
    in_ports_prefix(entries, entries.len() as int)
}

/// Collects the signals bound to ports whose names begin with `"in"`.
fn collect_in_signals(inputs: &Table<String>) -> (r: Vec<String>)
    ensures
        r@.map_values(|s: String| s@) == in_port_signals(inputs@),
{
    let n = inputs.len();
    let mut r: Vec<String> = Vec::new();
    let mut i: usize = 0;
    proof {
        assert(r@.map_values(|s: String| s@) =~= in_ports_prefix(inputs@, 0));
    }
    while i < n
        invariant
            n == inputs@.len(),
            i <= n,
            r@.map_values(|s: String| s@) == in_ports_prefix(inputs@, i as int),
        decreases n - i,
    {
        let (key, value) = inputs.entry_at(i);
        let ghost before = r@;
        if str_starts_with(key.as_str(), "in") {
            r.push(value.clone());
            proof {
                assert(r@.map_values(|s: String| s@) =~= before.map_values(|s: String| s@).push(
                    inputs@[i as int].1,
                ));
            }
        }
        i = i + 1;
    }
    r
}

/// The value a conjunction of boolean reads yields: the reads happen in
/// order and stop at the first `false` (the remaining signals are not read,
/// so an error there is not raised); the empty conjunction is `true`.
pub open spec fn and_eval(m: Map<Seq<char>, ValueModel>, sigs: Seq<Seq<char>>) -> Result<
    bool,
    ErrorModel,
>
    decreases sigs.len(),
{
    if sigs.len() == 0 {
        Ok(true)
    } else {
        match spec_read_bool(m, sigs[0]) {
            Ok(b) => if b {
                and_eval(m, sigs.skip(1))
            } else {
                Ok(false)
            },
            Err(e) => Err(e),
        }
    }
}

/// The value a disjunction of boolean reads yields: the reads happen in
/// order and stop at the first `true`; the empty disjunction is `false`.
pub open spec fn or_eval(m: Map<Seq<char>, ValueModel>, sigs: Seq<Seq<char>>) -> Result<
    bool,
    ErrorModel,
>
    decreases sigs.len(),
{
    if sigs.len() == 0 {
        Ok(false)
    } else {
        match spec_read_bool(m, sigs[0]) {
            Ok(b) => if b {
                Ok(true)
            } else {
                or_eval(m, sigs.skip(1))
            },
            Err(e) => Err(e),
        }
    }
}

/// The mathematical shape of an `AND` gate.
pub struct AndModel {
    pub name: Seq<char>,
    pub inputs: Seq<Seq<char>>,
    pub output: Seq<char>,
}

/// What one scan of an `AND` gate does on a bus holding `m`.
pub open spec fn and_step(b: AndModel, m: Map<Seq<char>, ValueModel>) -> StepOutcome<AndModel> {
    match and_eval(m, b.inputs) {
        Ok(v) => StepOutcome { state: b, bus: m.insert(b.output, ValueModel::Bool(v)), err: None },
        Err(e) => StepOutcome { state: b, bus: m, err: Some(e) },
    }
}

/// The variadic `AND` gate: drives its output with the conjunction of all
/// bound inputs. With no inputs the output is `true`, the identity element.
pub struct AndBlock {
    name: String,
    inputs: Vec<String>,
    output: String,
}

impl View for AndBlock {
    type V = AndModel;

    closed spec fn view(&self) -> AndModel {
        AndModel {
            name: self.name@,
            inputs: self.inputs@.map_values(|s: String| s@),
            output: self.output@,
        }
    }
}

impl AndBlock {
    /// The block's configured name.
    pub fn name(&self) -> (r: &str)
        ensures
            r@ == self@.name,
    {
        self.name.as_str()
    }

    /// Builds the block from its bindings: every port whose name begins with
    /// `"in"` is an operand, and an `out` binding is mandatory.
    pub fn new(name: String, inputs: &Table<String>, outputs: &Table<String>) -> (r: Result<
        AndBlock,
        PlcError,
    >)
        ensures
            match spec_table_lookup(outputs@, "out"@) {
                Some(out) => r matches Ok(b) && b@ == (AndModel {
                    name: name@,
                    inputs: in_port_signals(inputs@),
                    output: out,
                }),
                None => r matches Err(e) && e@ == ErrorModel::ConfigError(
                    "AND block requires 'out' output"@,
                ),
            },
    {
        let sigs = collect_in_signals(inputs);
        match outputs.get("out") {
            Some(out) => Ok(AndBlock { name, inputs: sigs, output: out.clone() }),
            None => Err(PlcError::ConfigError("AND block requires 'out' output".to_owned())),
        }
    }

    /// One scan: reads the operands in order, stopping at the first `false`,
    /// and drives the output with the conjunction.
    pub fn execute(&mut self, bus: &mut SignalBus) -> (r: Result<(), PlcError>)
        ensures
            step_matches(and_step(old(self)@, old(bus)@), final(self)@, final(bus)@, r),
    {
        let ghost m = bus@;
        let ghost sigs = self@.inputs;
        let mut result = true;
        let n = self.inputs.len();
        let mut i: usize = 0;
        proof {
            assert(sigs.skip(0) =~= sigs);
        }
        while i < n
            invariant
                *self == *old(self),
                bus@ == m,
                n == self.inputs.len(),
                i <= n,
                sigs == self@.inputs,
                result ==> and_eval(m, sigs.skip(i as int)) == and_eval(m, sigs),
                !result ==> and_eval(m, sigs) == Ok::<bool, ErrorModel>(false),
            decreases n - i,
        {
            if result {
                proof {
                    assert(sigs.skip(i as int)[0] == sigs[i as int]);
                    assert(sigs.skip(i as int).skip(1) =~= sigs.skip(i as int + 1));
                }
                match bus.get_bool(self.inputs[i].as_str()) {
                    Ok(b) => {
                        result = b;
                    },
                    Err(e) => {
                        return Err(e);
                    },
                }
            } else {
                proof {
                    assert(sigs.skip(i as int).skip(1) =~= sigs.skip(i as int + 1));
                }
            }
            i = i + 1;
        }
        proof {
            if result {
                assert(sigs.skip(n as int) =~= Seq::<Seq<char>>::empty());
            }
        }
        let res = bus.set(self.output.as_str(), SignalValue::Bool(result));
        match res {
            Ok(_) => Ok(()),
            Err(e) => Err(e),
        }
    }
}

/// The mathematical shape of an `OR` gate.
pub struct OrModel {
    pub name: Seq<char>,
    pub inputs: Seq<Seq<char>>,
    pub output: Seq<char>,
}

/// What one scan of an `OR` gate does on a bus holding `m`.
pub open spec fn or_step(b: OrModel, m: Map<Seq<char>, ValueModel>) -> StepOutcome<OrModel> {
    match or_eval(m, b.inputs) {
        Ok(v) => StepOutcome { state: b, bus: m.insert(b.output, ValueModel::Bool(v)), err: None },
        Err(e) => StepOutcome { state: b, bus: m, err: Some(e) },
    }
}

/// The variadic `OR` gate: drives its output with the disjunction of all
/// bound inputs. With no inputs the output is `false`, the identity element.
pub struct OrBlock {
    name: String,
    inputs: Vec<String>,
    output: String,
}

impl View for OrBlock {
    type V = OrModel;

    closed spec fn view(&self) -> OrModel {
        OrModel {
            name: self.name@,
            inputs: self.inputs@.map_values(|s: String| s@),
            output: self.output@,
        }
    }
}

impl OrBlock {
    /// The block's configured name.
    pub fn name(&self) -> (r: &str)
        ensures
            r@ == self@.name,
    {
        self.name.as_str()
    }

    /// Builds the block from its bindings: every port whose name begins with
    /// `"in"` is an operand, and an `out` binding is mandatory.
    pub fn new(name: String, inputs: &Table<String>, outputs: &Table<String>) -> (r: Result<
        OrBlock,
        PlcError,
    >)
        ensures
            match spec_table_lookup(outputs@, "out"@) {
                Some(out) => r matches Ok(b) && b@ == (OrModel {
                    name: name@,
                    inputs: in_port_signals(inputs@),
                    output: out,
                }),
                None => r matches Err(e) && e@ == ErrorModel::ConfigError(
                    "OR block requires 'out' output"@,
                ),
            },
    {
        let sigs = collect_in_signals(inputs);
        match outputs.get("out") {
            Some(out) => Ok(OrBlock { name, inputs: sigs, output: out.clone() }),
            None => Err(PlcError::ConfigError("OR block requires 'out' output".to_owned())),
        }
    }

    /// One scan: reads the operands in order, stopping at the first `true`,
    /// and drives the output with the disjunction.
    pub fn execute(&mut self, bus: &mut SignalBus) -> (r: Result<(), PlcError>)
        ensures
            step_matches(or_step(old(self)@, old(bus)@), final(self)@, final(bus)@, r),
    {
        let ghost m = bus@;
        let ghost sigs = self@.inputs;
        let mut result = false;
        let n = self.inputs.len();
        let mut i: usize = 0;
        proof {
            assert(sigs.skip(0) =~= sigs);
        }
        while i < n
            invariant
                *self == *old(self),
                bus@ == m,
                n == self.inputs.len(),
                i <= n,
                sigs == self@.inputs,
                !result ==> or_eval(m, sigs.skip(i as int)) == or_eval(m, sigs),
                result ==> or_eval(m, sigs) == Ok::<bool, ErrorModel>(true),
            decreases n - i,
        {
            if !result {
                proof {
                    assert(sigs.skip(i as int)[0] == sigs[i as int]);
                    assert(sigs.skip(i as int).skip(1) =~= sigs.skip(i as int + 1));
                }
                match bus.get_bool(self.inputs[i].as_str()) {
                    Ok(b) => {
                        result = b;
                    },
                    Err(e) => {
                        return Err(e);
                    },
                }
            } else {
                proof {
                    assert(sigs.skip(i as int).skip(1) =~= sigs.skip(i as int + 1));
                }
            }
            i = i + 1;
        }
        proof {
            if !result {
                assert(sigs.skip(n as int) =~= Seq::<Seq<char>>::empty());
            }
        }
        let res = bus.set(self.output.as_str(), SignalValue::Bool(result));
        match res {
            Ok(_) => Ok(()),
            Err(e) => Err(e),
        }
    }
}

/// The mathematical shape of a `NOT` gate.
pub struct NotModel {
    pub name: Seq<char>,
    pub input: Seq<char>,
    pub output: Seq<char>,
}

/// What one scan of a `NOT` gate does on a bus holding `m`.
pub open spec fn not_step(b: NotModel, m: Map<Seq<char>, ValueModel>) -> StepOutcome<NotModel> {
    match spec_read_bool(m, b.input) {
        Ok(v) => StepOutcome { state: b, bus: m.insert(b.output, ValueModel::Bool(!v)), err: None },
        Err(e) => StepOutcome { state: b, bus: m, err: Some(e) },
    }
}

/// The `NOT` gate: drives its output with the negation of its input.
pub struct NotBlock {
    name: String,
    input: String,
    output: String,
}

impl View for NotBlock {
    type V = NotModel;

    closed spec fn view(&self) -> NotModel {
        NotModel { name: self.name@, input: self.input@, output: self.output@ }
    }
}

impl NotBlock {
    /// The block's configured name.
    pub fn name(&self) -> (r: &str)
        ensures
            r@ == self@.name,
    {
        self.name.as_str()
    }

    /// Builds the block from its bindings: an `in` input and an `out` output
    /// are mandatory.
    pub fn new(name: String, inputs: &Table<String>, outputs: &Table<String>) -> (r: Result<
        NotBlock,
        PlcError,
    >)
        ensures
            match (spec_table_lookup(inputs@, "in"@), spec_table_lookup(outputs@, "out"@)) {
                (Some(i), Some(o)) => r matches Ok(b) && b@ == (NotModel {
                    name: name@,
                    input: i,
                    output: o,
                }),
                (None, _) => r matches Err(e) && e@ == ErrorModel::ConfigError(
                    "NOT block requires 'in' input"@,
                ),
                (Some(_), None) => r matches Err(e) && e@ == ErrorModel::ConfigError(
                    "NOT block requires 'out' output"@,
                ),
            },
    {
        let input = match inputs.get("in") {
            Some(s) => s.clone(),
            None => {
                return Err(PlcError::ConfigError("NOT block requires 'in' input".to_owned()));
            },
        };
        let output = match outputs.get("out") {
            Some(s) => s.clone(),
            None => {
                return Err(PlcError::ConfigError("NOT block requires 'out' output".to_owned()));
            },
        };
        Ok(NotBlock { name, input, output })
    }

    /// One scan: reads the input and drives the output with its negation.
    pub fn execute(&mut self, bus: &mut SignalBus) -> (r: Result<(), PlcError>)
        ensures
            step_matches(not_step(old(self)@, old(bus)@), final(self)@, final(bus)@, r),
    {
        let value = match bus.get_bool(self.input.as_str()) {
            Ok(b) => b,
            Err(e) => {
                return Err(e);
            },
        };
        let res = bus.set(self.output.as_str(), SignalValue::Bool(!value));
        match res {
            Ok(_) => Ok(()),
            Err(e) => Err(e),
        }
    }
}

} // verus!
