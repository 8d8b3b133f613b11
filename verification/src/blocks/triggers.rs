//! The edge triggers `R_TRIG` and `F_TRIG`, and the `SR_LATCH`.

use crate::blocks::step::{step_matches, StepOutcome};
use crate::bus::{spec_read_bool, SignalBus};
use crate::error::{ErrorModel, PlcError};
use crate::table::{spec_table_lookup, Table};
use crate::value::{SignalValue, ValueModel};
use vstd::prelude::*;

verus! {

/// The mathematical shape of an edge trigger: its clock input, its pulse
/// output, and the clock level it saw in the previous scan.
pub struct TrigModel {
    pub name: Seq<char>,
    pub input: Seq<char>,
    pub output: Seq<char>,
    pub prev: bool,
}

/// What one scan of an `R_TRIG` does on a bus holding `m`: the output
/// pulses for the one scan where the clock is high and was low before.
pub open spec fn r_trig_step(b: TrigModel, m: Map<Seq<char>, ValueModel>) -> StepOutcome<
    TrigModel,
> {
    match spec_read_bool(m, b.input) {
        Ok(clk) => StepOutcome {
            state: TrigModel { prev: clk, ..b },
            bus: m.insert(b.output, ValueModel::Bool(clk && !b.prev)),
            err: None,
        },
        Err(e) => StepOutcome { state: b, bus: m, err: Some(e) },
    }
}

/// What one scan of an `F_TRIG` does on a bus holding `m`: the output
/// pulses for the one scan where the clock is low and was high before.
pub open spec fn f_trig_step(b: TrigModel, m: Map<Seq<char>, ValueModel>) -> StepOutcome<
    TrigModel,
> {
    match spec_read_bool(m, b.input) {
        Ok(clk) => StepOutcome {
            state: TrigModel { prev: clk, ..b },
            bus: m.insert(b.output, ValueModel::Bool(!clk && b.prev)),
            err: None,
        },
        Err(e) => StepOutcome { state: b, bus: m, err: Some(e) },
    }
}

/// Law: over two consecutive scans of an `R_TRIG` whose clock reads yield
/// `clk1` then `clk2`, the second scan drives the output with
/// `clk2 && !clk1`: the pulse marks exactly the rising edge.
pub proof fn lemma_r_trig_edge(
    b: TrigModel,
    m1: Map<Seq<char>, ValueModel>,
    m2: Map<Seq<char>, ValueModel>,
)
    requires
        spec_read_bool(m1, b.input) is Ok,
        spec_read_bool(m2, b.input) is Ok,
    ensures
        ({
            let first = r_trig_step(b, m1);
            let second = r_trig_step(first.state, m2);
            let clk1 = spec_read_bool(m1, b.input)->Ok_0;
            let clk2 = spec_read_bool(m2, b.input)->Ok_0;
            second.bus[b.output] == ValueModel::Bool(clk2 && !clk1)
        }),
{
}

/// Law: over two consecutive scans of an `F_TRIG` whose clock reads yield
/// `clk1` then `clk2`, the second scan drives the output with
/// `!clk2 && clk1`: the pulse marks exactly the falling edge.
pub proof fn lemma_f_trig_edge(
    b: TrigModel,
    m1: Map<Seq<char>, ValueModel>,
    m2: Map<Seq<char>, ValueModel>,
)
    requires
        spec_read_bool(m1, b.input) is Ok,
        spec_read_bool(m2, b.input) is Ok,
    ensures
        ({
            let first = f_trig_step(b, m1);
            let second = f_trig_step(first.state, m2);
            let clk1 = spec_read_bool(m1, b.input)->Ok_0;
            let clk2 = spec_read_bool(m2, b.input)->Ok_0;
            second.bus[b.output] == ValueModel::Bool(!clk2 && clk1)
        }),
{
}

/// The rising-edge trigger: its output is true for exactly the one scan in
/// which the clock input turned from false to true.
pub struct RTrig {
    name: String,
    input: String,
    output: String,
    prev_state: bool,
}

impl View for RTrig {
    type V = TrigModel;

    closed spec fn view(&self) -> TrigModel {
        TrigModel {
            name: self.name@,
            input: self.input@,
            output: self.output@,
            prev: self.prev_state,
        }
    }
}

impl RTrig {
    /// The block's configured name.
    pub fn name(&self) -> (r: &str)
        ensures
            r@ == self@.name,
    {
        self.name.as_str()
    }

    /// Builds the trigger from its bindings: a `clk` input and a `q` output
    /// are mandatory; the remembered clock level starts false.
    pub fn new(name: String, inputs: &Table<String>, outputs: &Table<String>) -> (r: Result<
        RTrig,
        PlcError,
    >)
        ensures
            match (spec_table_lookup(inputs@, "clk"@), spec_table_lookup(outputs@, "q"@)) {
                (Some(i), Some(o)) => r matches Ok(b) && b@ == (TrigModel {
                    name: name@,
                    input: i,
                    output: o,
                    prev: false,
                }),
                (None, _) => r matches Err(e) && e@ == ErrorModel::ConfigError(
                    "R_TRIG requires 'clk' input"@,
                ),
                (Some(_), None) => r matches Err(e) && e@ == ErrorModel::ConfigError(
                    "R_TRIG requires 'q' output"@,
                ),
            },
    {
        let input = match inputs.get("clk") {
            Some(s) => s.clone(),
            None => {
                return Err(PlcError::ConfigError("R_TRIG requires 'clk' input".to_owned()));
            },
        };
        let output = match outputs.get("q") {
            Some(s) => s.clone(),
            None => {
                return Err(PlcError::ConfigError("R_TRIG requires 'q' output".to_owned()));
            },
        };
        Ok(RTrig { name, input, output, prev_state: false })
    }

    /// One scan: reads the clock, drives the output with the rising-edge
    /// pulse, and remembers the clock level.
    pub fn execute(&mut self, bus: &mut SignalBus) -> (r: Result<(), PlcError>)
        ensures
            step_matches(r_trig_step(old(self)@, old(bus)@), final(self)@, final(bus)@, r),
    {
        let current = match bus.get_bool(self.input.as_str()) {
            Ok(b) => b,
            Err(e) => {
                return Err(e);
            },
        };
        let rising_edge = current && !self.prev_state;
        self.prev_state = current;
        let res = bus.set(self.output.as_str(), SignalValue::Bool(rising_edge));
        match res {
            Ok(_) => Ok(()),
            Err(e) => Err(e),
        }
    }
}

/// The falling-edge trigger: its output is true for exactly the one scan in
/// which the clock input turned from true to false.
pub struct FTrig {
    name: String,
    input: String,
    output: String,
    prev_state: bool,
}

impl View for FTrig {
    type V = TrigModel;

    closed spec fn view(&self) -> TrigModel {
        TrigModel {
            name: self.name@,
            input: self.input@,
            output: self.output@,
            prev: self.prev_state,
        }
    }
}

impl FTrig {
    /// The block's configured name.
    pub fn name(&self) -> (r: &str)
        ensures
            r@ == self@.name,
    {
        self.name.as_str()
    }

    /// Builds the trigger from its bindings: a `clk` input and a `q` output
    /// are mandatory; the remembered clock level starts false.
    pub fn new(name: String, inputs: &Table<String>, outputs: &Table<String>) -> (r: Result<
        FTrig,
        PlcError,
    >)
        ensures
            match (spec_table_lookup(inputs@, "clk"@), spec_table_lookup(outputs@, "q"@)) {
                (Some(i), Some(o)) => r matches Ok(b) && b@ == (TrigModel {
                    name: name@,
                    input: i,
                    output: o,
                    prev: false,
                }),
                (None, _) => r matches Err(e) && e@ == ErrorModel::ConfigError(
                    "F_TRIG requires 'clk' input"@,
                ),
                (Some(_), None) => r matches Err(e) && e@ == ErrorModel::ConfigError(
                    "F_TRIG requires 'q' output"@,
                ),
            },
    {
        let input = match inputs.get("clk") {
            Some(s) => s.clone(),
            None => {
                return Err(PlcError::ConfigError("F_TRIG requires 'clk' input".to_owned()));
            },
        };
        let output = match outputs.get("q") {
            Some(s) => s.clone(),
            None => {
                return Err(PlcError::ConfigError("F_TRIG requires 'q' output".to_owned()));
            },
        };
        Ok(FTrig { name, input, output, prev_state: false })
    }

    /// One scan: reads the clock, drives the output with the falling-edge
    /// pulse, and remembers the clock level.
    pub fn execute(&mut self, bus: &mut SignalBus) -> (r: Result<(), PlcError>)
        ensures
            step_matches(f_trig_step(old(self)@, old(bus)@), final(self)@, final(bus)@, r),
    {
        let current = match bus.get_bool(self.input.as_str()) {
            Ok(b) => b,
            Err(e) => {
                return Err(e);
            },
        };
        let falling_edge = !current && self.prev_state;
        self.prev_state = current;
        let res = bus.set(self.output.as_str(), SignalValue::Bool(falling_edge));
        match res {
            Ok(_) => Ok(()),
            Err(e) => Err(e),
        }
    }
}

/// The mathematical shape of an `SR_LATCH`: its set and reset inputs, its
/// output, and the latched state.
pub struct LatchModel {
    pub name: Seq<char>,
    pub set_input: Seq<char>,
    pub reset_input: Seq<char>,
    pub output: Seq<char>,
    pub state: bool,
}

/// The state an `SR_LATCH` latches given its two inputs: reset wins over
/// set, and with neither the state holds.
pub open spec fn latch_next(state: bool, set: bool, reset: bool) -> bool {
    if reset {
        false
    } else if set {
        true
    } else {
        state
    }
}

/// What one scan of an `SR_LATCH` does on a bus holding `m`.
pub open spec fn sr_latch_step(b: LatchModel, m: Map<Seq<char>, ValueModel>) -> StepOutcome<
    LatchModel,
> {
    match spec_read_bool(m, b.set_input) {
        Err(e) => StepOutcome { state: b, bus: m, err: Some(e) },
        Ok(set) => match spec_read_bool(m, b.reset_input) {
            Err(e) => StepOutcome { state: b, bus: m, err: Some(e) },
            Ok(reset) => {
                let next = latch_next(b.state, set, reset);
                StepOutcome {
                    state: LatchModel { state: next, ..b },
                    bus: m.insert(b.output, ValueModel::Bool(next)),
                    err: None,
                }
            },
        },
    }
}

/// Law: reset has priority. Whenever both inputs read true in the same
/// scan, the latch clears and drives its output false.
pub proof fn lemma_sr_latch_reset_priority(b: LatchModel, m: Map<Seq<char>, ValueModel>)
    requires
        spec_read_bool(m, b.set_input) == Ok::<bool, ErrorModel>(true),
        spec_read_bool(m, b.reset_input) == Ok::<bool, ErrorModel>(true),
    ensures
        sr_latch_step(b, m).state.state == false,
        sr_latch_step(b, m).bus[b.output] == ValueModel::Bool(false),
{
}

/// The `SR_LATCH`: latches true on `set`, clears on `reset`, and reset has
/// priority when both are asserted.
pub struct SRLatch {
    name: String,
    set_input: String,
    reset_input: String,
    output: String,
    state: bool,
}

impl View for SRLatch {
    type V = LatchModel;

    closed spec fn view(&self) -> LatchModel {
        LatchModel {
            name: self.name@,
            set_input: self.set_input@,
            reset_input: self.reset_input@,
            output: self.output@,
            state: self.state,
        }
    }
}

impl SRLatch {
    /// The block's configured name.
    pub fn name(&self) -> (r: &str)
        ensures
            r@ == self@.name,
    {
        self.name.as_str()
    }

    /// Builds the latch from its bindings: `set` and `reset` inputs and a
    /// `q` output are mandatory; the latched state starts false.
    pub fn new(name: String, inputs: &Table<String>, outputs: &Table<String>) -> (r: Result<
        SRLatch,
        PlcError,
    >)
        ensures
            match (
                spec_table_lookup(inputs@, "set"@),
                spec_table_lookup(inputs@, "reset"@),
                spec_table_lookup(outputs@, "q"@),
            ) {
                (Some(s), Some(rst), Some(o)) => r matches Ok(b) && b@ == (LatchModel {
                    name: name@,
                    set_input: s,
                    reset_input: rst,
                    output: o,
                    state: false,
                }),
                (None, _, _) => r matches Err(e) && e@ == ErrorModel::ConfigError(
                    "SR_LATCH requires 'set' input"@,
                ),
                (Some(_), None, _) => r matches Err(e) && e@ == ErrorModel::ConfigError(
                    "SR_LATCH requires 'reset' input"@,
                ),
                (Some(_), Some(_), None) => r matches Err(e) && e@ == ErrorModel::ConfigError(
                    "SR_LATCH requires 'q' output"@,
                ),
            },
    {
        let set_input = match inputs.get("set") {
            Some(s) => s.clone(),
            None => {
                return Err(PlcError::ConfigError("SR_LATCH requires 'set' input".to_owned()));
            },
        };
        let reset_input = match inputs.get("reset") {
            Some(s) => s.clone(),
            None => {
                return Err(PlcError::ConfigError("SR_LATCH requires 'reset' input".to_owned()));
            },
        };
        let output = match outputs.get("q") {
            Some(s) => s.clone(),
            None => {
                return Err(PlcError::ConfigError("SR_LATCH requires 'q' output".to_owned()));
            },
        };
        Ok(SRLatch { name, set_input, reset_input, output, state: false })
    }

    /// One scan: reads `set` and `reset`, updates the latched state with
    /// reset priority, and drives the output with it.
    pub fn execute(&mut self, bus: &mut SignalBus) -> (r: Result<(), PlcError>)
        ensures
            step_matches(sr_latch_step(old(self)@, old(bus)@), final(self)@, final(bus)@, r),
    {
        let set = match bus.get_bool(self.set_input.as_str()) {
            Ok(b) => b,
            Err(e) => {
                return Err(e);
            },
        };
        let reset = match bus.get_bool(self.reset_input.as_str()) {
            Ok(b) => b,
            Err(e) => {
                return Err(e);
            },
        };
        if reset {
            self.state = false;
        } else if set {
            self.state = true;
        }
        let res = bus.set(self.output.as_str(), SignalValue::Bool(self.state));
        match res {
            Ok(_) => Ok(()),
            Err(e) => Err(e),
        }
    }
}

} // verus!
