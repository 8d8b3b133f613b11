//! The `COUNTER` (up/down counter with preset) and the `SEQUENCER`
//! (wrap-around index for rotating equipment).

use crate::blocks::step::{step_matches, StepOutcome};
use crate::bus::{spec_read_bool, spec_read_int, SignalBus};
use crate::config::{spec_param_as_i64, ParamValue};
use crate::error::{ErrorModel, PlcError};
use crate::table::{spec_table_lookup, Table};
use crate::value::{SignalValue, ValueModel};
use vstd::arithmetic::div_mod::{lemma_add_mod_noop, lemma_mod_bound, lemma_mod_self_0, lemma_small_mod};
use vstd::prelude::*;

verus! {

/// A count incremented with two's-complement wrap-around. The counter's
/// range behaviour at the bounds of `Int32` is chosen to wrap, and is
/// documented as such.
pub open spec fn wrap_inc(c: i32) -> i32 {
    if c == i32::MAX {
        i32::MIN
    } else {
        (c + 1) as i32
    }
}

/// A count decremented with two's-complement wrap-around.
pub open spec fn wrap_dec(c: i32) -> i32 {
    if c == i32::MIN {
        i32::MAX
    } else {
        (c - 1) as i32
    }
}

/// The mathematical shape of a `COUNTER`.
pub struct CounterModel {
    pub name: Seq<char>,
    pub count_up: Seq<char>,
    pub count_down: Seq<char>,
    pub reset: Seq<char>,
    pub preset_input: Option<Seq<char>>,
    pub output: Seq<char>,
    pub done_output: Option<Seq<char>>,
    pub preset: i32,
    pub count: i32,
    pub prev_up: bool,
    pub prev_down: bool,
}

/// Writes a counter's outputs: the current count, and the done bit when a
/// `q` output is bound.
pub open spec fn counter_outputs(
    m: Map<Seq<char>, ValueModel>,
    s: CounterModel,
) -> Map<Seq<char>, ValueModel> {
    let m1 = m.insert(s.output, ValueModel::Int(s.count));
    match s.done_output {
        Some(q) => m1.insert(q, ValueModel::Bool(s.count >= s.preset)),
        None => m1,
    }
}

/// The preset after the optional dynamic-preset read: a readable `pv`
/// input replaces the configured preset, and a failing read is ignored.
pub open spec fn counter_dyn_preset(b: CounterModel, m: Map<Seq<char>, ValueModel>) -> i32 {
    match b.preset_input {
        Some(pv) => match spec_read_int(m, pv) {
            Ok(v) => v,
            Err(_) => b.preset,
        },
        None => b.preset,
    }
}

/// What one scan of a `COUNTER` does on a bus holding `m`: reset clears
/// the count and skips counting; otherwise the preset may be replaced from
/// `pv`, then a rising edge of `cu` counts up and a rising edge of `cd`
/// counts down, both with wrap-around.
pub open spec fn counter_step(b: CounterModel, m: Map<Seq<char>, ValueModel>) -> StepOutcome<
    CounterModel,
> {
    match spec_read_bool(m, b.reset) {
        Err(e) => StepOutcome { state: b, bus: m, err: Some(e) },
        Ok(rst) => if rst {
            let s = CounterModel { count: 0, ..b };
            StepOutcome { state: s, bus: counter_outputs(m, s), err: None }
        } else {
            let s1 = CounterModel { preset: counter_dyn_preset(b, m), ..b };
            match spec_read_bool(m, b.count_up) {
                Err(e) => StepOutcome { state: s1, bus: m, err: Some(e) },
                Ok(up) => {
                    let s2 = CounterModel {
                        count: if up && !s1.prev_up {
                            wrap_inc(s1.count)
                        } else {
                            s1.count
                        },
                        prev_up: up,
                        ..s1
                    };
                    match spec_read_bool(m, b.count_down) {
                        Err(e) => StepOutcome { state: s2, bus: m, err: Some(e) },
                        Ok(down) => {
                            let s3 = CounterModel {
                                count: if down && !s2.prev_down {
                                    wrap_dec(s2.count)
                                } else {
                                    s2.count
                                },
                                prev_down: down,
                                ..s2
                            };
                            StepOutcome { state: s3, bus: counter_outputs(m, s3), err: None }
                        },
                    }
                },
            }
        },
    }
}

/// The up/down counter: rising edges of `cu` and `cd` move the count,
/// `r` clears it, an optional `pv` input replaces the preset, and the
/// optional `q` output reports `count >= preset`. The count wraps at the
/// bounds of `Int32`.
pub struct Counter {
    name: String,
    count_up: String,
    count_down: String,
    reset: String,
    preset_input: Option<String>,
    output: String,
    done_output: Option<String>,
    preset: i32,
    count: i32,
    prev_up: bool,
    prev_down: bool,
}

impl View for Counter {
    type V = CounterModel;

    closed spec fn view(&self) -> CounterModel {
        CounterModel {
            name: self.name@,
            count_up: self.count_up@,
            count_down: self.count_down@,
            reset: self.reset@,
            preset_input: match &self.preset_input {
                Some(s) => Some(s@),
                None => None,
            },
            output: self.output@,
            done_output: match &self.done_output {
                Some(s) => Some(s@),
                None => None,
            },
            preset: self.preset,
            count: self.count,
            prev_up: self.prev_up,
            prev_down: self.prev_down,
        }
    }
}

/// The configured preset among the parameters: an integer `preset`
/// narrowed to 32 bits by truncation, `0` when absent or of another shape.
pub open spec fn counter_preset_of(params: Seq<(Seq<char>, crate::config::ParamModel)>) -> i32 {
    match spec_table_lookup(params, "preset"@) {
        Some(p) => match spec_param_as_i64(p) {
            Some(i) => i as i32,
            None => 0,
        },
        None => 0,
    }
}

impl Counter {
    /// The block's configured name.
    pub fn name(&self) -> (r: &str)
        ensures
            r@ == self@.name,
    {
        self.name.as_str()
    }

    /// Builds the counter from its bindings and parameters: `cu`, `cd` and
    /// `r` inputs and a `cv` output are mandatory; a `pv` input, a `q`
    /// output and an integer `preset` parameter (default `0`) are optional.
    pub fn new(
        name: String,
        inputs: &Table<String>,
        outputs: &Table<String>,
        params: &Table<ParamValue>,
    ) -> (r: Result<Counter, PlcError>)
        ensures
            match (
                spec_table_lookup(inputs@, "cu"@),
                spec_table_lookup(inputs@, "cd"@),
                spec_table_lookup(inputs@, "r"@),
                spec_table_lookup(outputs@, "cv"@),
            ) {
                (Some(cu), Some(cd), Some(rst), Some(cv)) => r matches Ok(b) && b@ == (CounterModel {
                    name: name@,
                    count_up: cu,
                    count_down: cd,
                    reset: rst,
                    preset_input: spec_table_lookup(inputs@, "pv"@),
                    output: cv,
                    done_output: spec_table_lookup(outputs@, "q"@),
                    preset: counter_preset_of(params@),
                    count: 0,
                    prev_up: false,
                    prev_down: false,
                }),
                (None, _, _, _) => r matches Err(e) && e@ == ErrorModel::ConfigError(
                    "COUNTER requires 'cu' input"@,
                ),
                (Some(_), None, _, _) => r matches Err(e) && e@ == ErrorModel::ConfigError(
                    "COUNTER requires 'cd' input"@,
                ),
                (Some(_), Some(_), None, _) => r matches Err(e) && e@ == ErrorModel::ConfigError(
                    "COUNTER requires 'r' input"@,
                ),
                (Some(_), Some(_), Some(_), None) => r matches Err(e) && e@
                    == ErrorModel::ConfigError("COUNTER requires 'cv' output"@),
            },
    {
        let count_up = match inputs.get("cu") {
            Some(s) => s.clone(),
            None => {
                return Err(PlcError::ConfigError("COUNTER requires 'cu' input".to_owned()));
            },
        };
        let count_down = match inputs.get("cd") {
            Some(s) => s.clone(),
            None => {
                return Err(PlcError::ConfigError("COUNTER requires 'cd' input".to_owned()));
            },
        };
        let reset = match inputs.get("r") {
            Some(s) => s.clone(),
            None => {
                return Err(PlcError::ConfigError("COUNTER requires 'r' input".to_owned()));
            },
        };
        let preset_input = match inputs.get("pv") {
            Some(s) => Some(s.clone()),
            None => None,
        };
        let output = match outputs.get("cv") {
            Some(s) => s.clone(),
            None => {
                return Err(PlcError::ConfigError("COUNTER requires 'cv' output".to_owned()));
            },
        };
        let done_output = match outputs.get("q") {
            Some(s) => Some(s.clone()),
            None => None,
        };
        let preset = match params.get("preset") {
            Some(p) => match p.as_i64() {
                Some(i) => #[verifier::truncate] (i as i32),
                None => 0,
            },
            None => 0,
        };
        Ok(
            Counter {
                name,
                count_up,
                count_down,
                reset,
                preset_input,
                output,
                done_output,
                preset,
                count: 0,
                prev_up: false,
                prev_down: false,
            },
        )
    }

    /// One scan: see `counter_step`.
    pub fn execute(&mut self, bus: &mut SignalBus) -> (r: Result<(), PlcError>)
        ensures
            step_matches(counter_step(old(self)@, old(bus)@), final(self)@, final(bus)@, r),
    {
        let rst = match bus.get_bool(self.reset.as_str()) {
            Ok(b) => b,
            Err(e) => {
                return Err(e);
            },
        };
        if rst {
            self.count = 0;
        } else {
            match &self.preset_input {
                Some(pv) => {
                    match bus.get_int(pv.as_str()) {
                        Ok(v) => {
                            self.preset = v;
                        },
                        Err(_) => {},
                    }
                },
                None => {},
            }
            let current_up = match bus.get_bool(self.count_up.as_str()) {
                Ok(b) => b,
                Err(e) => {
                    return Err(e);
                },
            };
            if current_up && !self.prev_up {
                self.count = if self.count == i32::MAX {
                    i32::MIN
                } else {
                    self.count + 1
                };
            }
            self.prev_up = current_up;
            let current_down = match bus.get_bool(self.count_down.as_str()) {
                Ok(b) => b,
                Err(e) => {
                    return Err(e);
                },
            };
            if current_down && !self.prev_down {
                self.count = if self.count == i32::MIN {
                    i32::MAX
                } else {
                    self.count - 1
                };
            }
            self.prev_down = current_down;
        }
        let res = bus.set(self.output.as_str(), SignalValue::Int(self.count));
        match res {
            Ok(_) => {},
            Err(e) => {
                return Err(e);
            },
        }
        match &self.done_output {
            Some(done) => {
                let res = bus.set(done.as_str(), SignalValue::Bool(self.count >= self.preset));
                match res {
                    Ok(_) => Ok(()),
                    Err(e) => Err(e),
                }
            },
            None => Ok(()),
        }
    }
}

/// The mathematical shape of a `SEQUENCER`.
pub struct SeqModel {
    pub name: Seq<char>,
    pub trigger: Seq<char>,
    pub reset: Seq<char>,
    pub index_output: Seq<char>,
    pub max: i32,
    pub current_index: i32,
    pub prev_trigger: bool,
}

/// A reachable sequencer state: the bound is positive and the index lies
/// within `[0, max)`.
pub open spec fn seq_wf(b: SeqModel) -> bool {
    0 < b.max && 0 <= b.current_index < b.max
}

/// The sequencer state after one scan that read `rst` and `trig`.
pub open spec fn seq_next(b: SeqModel, rst: bool, trig: bool) -> SeqModel {
    if rst {
        SeqModel { current_index: 0, prev_trigger: false, ..b }
    } else {
        SeqModel {
            current_index: if trig && !b.prev_trigger {
                ((b.current_index + 1) % (b.max as int)) as i32
            } else {
                b.current_index
            },
            prev_trigger: trig,
            ..b
        }
    }
}

/// What one scan of a `SEQUENCER` does on a bus holding `m`: reset clears
/// the index, a rising edge of the trigger advances it modulo `max`, and
/// the index is always written out.
pub open spec fn seq_step(b: SeqModel, m: Map<Seq<char>, ValueModel>) -> StepOutcome<SeqModel> {
    match spec_read_bool(m, b.reset) {
        Err(e) => StepOutcome { state: b, bus: m, err: Some(e) },
        Ok(rst) => if rst {
            let s = seq_next(b, true, false);
            StepOutcome {
                state: s,
                bus: m.insert(b.index_output, ValueModel::Int(s.current_index)),
                err: None,
            }
        } else {
            match spec_read_bool(m, b.trigger) {
                Err(e) => StepOutcome { state: b, bus: m, err: Some(e) },
                Ok(trig) => {
                    let s = seq_next(b, false, trig);
                    StepOutcome {
                        state: s,
                        bus: m.insert(b.index_output, ValueModel::Int(s.current_index)),
                        err: None,
                    }
                },
            }
        },
    }
}

/// The sequencer state after a run of scans, each described by the booleans
/// its reset and trigger reads yielded.
pub open spec fn seq_run(b: SeqModel, scans: Seq<(bool, bool)>) -> SeqModel
    decreases scans.len(),
{
    if scans.len() == 0 {
        b
    } else {
        seq_next(seq_run(b, scans.drop_last()), scans.last().0, scans.last().1)
    }
}

/// How many rising edges of the trigger a run has counted since its last
/// reset scan (or since the start, if no scan reset).
pub open spec fn edges_since_reset(b: SeqModel, scans: Seq<(bool, bool)>) -> nat
    decreases scans.len(),
{
    if scans.len() == 0 {
        0
    } else if scans.last().0 {
        0
    } else {
        edges_since_reset(b, scans.drop_last()) + if scans.last().1 && !seq_run(
            b,
            scans.drop_last(),
        ).prev_trigger {
            1nat
        } else {
            0nat
        }
    }
}

/// Law: starting from a freshly built sequencer, after any run of scans
/// the index lies in `[0, max)` and equals the number of rising edges seen
/// since the last reset, modulo `max`.
pub proof fn lemma_sequencer_counts_edges(b: SeqModel, scans: Seq<(bool, bool)>)
    requires
        seq_wf(b),
        b.current_index == 0,
    ensures
        seq_wf(seq_run(b, scans)),
        seq_run(b, scans).max == b.max,
        seq_run(b, scans).current_index == (edges_since_reset(b, scans) as int) % (b.max as int),
    decreases scans.len(),
{
    let m = b.max as int;
    if scans.len() == 0 {
        lemma_small_mod(0, m as nat);
    } else {
        lemma_sequencer_counts_edges(b, scans.drop_last());
        let prev = seq_run(b, scans.drop_last());
        let e = edges_since_reset(b, scans.drop_last()) as int;
        let i = prev.current_index as int;
        let (rst, trig) = scans.last();
        assert(seq_run(b, scans) == seq_next(prev, rst, trig));
        if rst {
            lemma_small_mod(0, m as nat);
        } else if trig && !prev.prev_trigger {
            assert(seq_run(b, scans).current_index == ((i + 1) % m) as i32);
            // ((e % m) + (1 % m)) % m == (e + 1) % m
            lemma_add_mod_noop(e, 1, m);
            lemma_mod_bound(e + 1, m);
            lemma_mod_bound(i + 1, m);
            if m == 1 {
                lemma_mod_self_0(m);
                lemma_small_mod(0, 1);
            } else {
                lemma_small_mod(1, m as nat);
                if i + 1 < m {
                    lemma_small_mod((i + 1) as nat, m as nat);
                } else {
                    lemma_mod_self_0(m);
                }
            }
            assert((e + 1) % m == (i + 1) % m);
        }
    }
}

/// The sequencer: a wrap-around index for rotating equipment. A rising
/// edge of `trigger` advances the index modulo `max`; `reset` clears it.
pub struct Sequencer {
    name: String,
    trigger: String,
    reset: String,
    index_output: String,
    max: i32,
    current_index: i32,
    prev_trigger: bool,
}

impl View for Sequencer {
    type V = SeqModel;

    closed spec fn view(&self) -> SeqModel {
        SeqModel {
            name: self.name@,
            trigger: self.trigger@,
            reset: self.reset@,
            index_output: self.index_output@,
            max: self.max,
            current_index: self.current_index,
            prev_trigger: self.prev_trigger,
        }
    }
}

/// The configured bound among the parameters, if an integer one is given
/// (narrowed to 32 bits by truncation).
pub open spec fn seq_max_of(params: Seq<(Seq<char>, crate::config::ParamModel)>) -> Option<i32> {
    match spec_table_lookup(params, "max"@) {
        Some(p) => match spec_param_as_i64(p) {
            Some(i) => Some(i as i32),
            None => None,
        },
        None => None,
    }
}

impl Sequencer {
    /// The block's configured name.
    pub fn name(&self) -> (r: &str)
        ensures
            r@ == self@.name,
    {
        self.name.as_str()
    }

    /// Builds the sequencer from its bindings and parameters: `trigger` and
    /// `reset` inputs, an `index` output and a strictly positive integer
    /// `max` parameter are mandatory.
    pub fn new(
        name: String,
        inputs: &Table<String>,
        outputs: &Table<String>,
        params: &Table<ParamValue>,
    ) -> (r: Result<Sequencer, PlcError>)
        ensures
            match (
                spec_table_lookup(inputs@, "trigger"@),
                spec_table_lookup(inputs@, "reset"@),
                spec_table_lookup(outputs@, "index"@),
            ) {
                (Some(trig), Some(rst), Some(idx)) => match seq_max_of(params@) {
                    Some(mx) => if mx <= 0 {
                        r matches Err(e) && e@ == ErrorModel::ConfigError(
                            "SEQUENCER 'max' must be positive"@,
                        )
                    } else {
                        r matches Ok(b) && b@ == (SeqModel {
                            name: name@,
                            trigger: trig,
                            reset: rst,
                            index_output: idx,
                            max: mx,
                            current_index: 0,
                            prev_trigger: false,
                        }) && seq_wf(b@)
                    },
                    None => r matches Err(e) && e@ == ErrorModel::ConfigError(
                        "SEQUENCER requires 'max' parameter"@,
                    ),
                },
                (None, _, _) => r matches Err(e) && e@ == ErrorModel::ConfigError(
                    "SEQUENCER requires 'trigger' input"@,
                ),
                (Some(_), None, _) => r matches Err(e) && e@ == ErrorModel::ConfigError(
                    "SEQUENCER requires 'reset' input"@,
                ),
                (Some(_), Some(_), None) => r matches Err(e) && e@ == ErrorModel::ConfigError(
                    "SEQUENCER requires 'index' output"@,
                ),
            },
    {
        let trigger = match inputs.get("trigger") {
            Some(s) => s.clone(),
            None => {
                return Err(PlcError::ConfigError("SEQUENCER requires 'trigger' input".to_owned()));
            },
        };
        let reset = match inputs.get("reset") {
            Some(s) => s.clone(),
            None => {
                return Err(PlcError::ConfigError("SEQUENCER requires 'reset' input".to_owned()));
            },
        };
        let index_output = match outputs.get("index") {
            Some(s) => s.clone(),
            None => {
                return Err(PlcError::ConfigError("SEQUENCER requires 'index' output".to_owned()));
            },
        };
        let max = match params.get("max") {
            Some(p) => match p.as_i64() {
                Some(i) => #[verifier::truncate] (i as i32),
                None => {
                    return Err(
                        PlcError::ConfigError("SEQUENCER requires 'max' parameter".to_owned()),
                    );
                },
            },
            None => {
                return Err(PlcError::ConfigError("SEQUENCER requires 'max' parameter".to_owned()));
            },
        };
        if max <= 0 {
            return Err(PlcError::ConfigError("SEQUENCER 'max' must be positive".to_owned()));
        }
        Ok(Sequencer { name, trigger, reset, index_output, max, current_index: 0, prev_trigger: false })
    }

    /// One scan: see `seq_step`. The index stays within `[0, max)`.
    pub fn execute(&mut self, bus: &mut SignalBus) -> (r: Result<(), PlcError>)
        requires
            seq_wf(old(self)@),
        ensures
            step_matches(seq_step(old(self)@, old(bus)@), final(self)@, final(bus)@, r),
            seq_wf(final(self)@),
    {
        let rst = match bus.get_bool(self.reset.as_str()) {
            Ok(b) => b,
            Err(e) => {
                return Err(e);
            },
        };
        if rst {
            self.current_index = 0;
            self.prev_trigger = false;
        } else {
            let current_trigger = match bus.get_bool(self.trigger.as_str()) {
                Ok(b) => b,
                Err(e) => {
                    return Err(e);
                },
            };
            if current_trigger && !self.prev_trigger {
                self.current_index = (self.current_index + 1) % self.max;
            }
            self.prev_trigger = current_trigger;
        }
        let res = bus.set(self.index_output.as_str(), SignalValue::Int(self.current_index));
        match res {
            Ok(_) => Ok(()),
            Err(e) => Err(e),
        }
    }
}

} // verus!
