//! The IEC-style timers `TON` (on-delay), `TOF` (off-delay) and `TP`
//! (pulse).
//!
//! Durations are measured from a remembered start instant against the
//! current reading of a monotonic millisecond clock, which `execute` takes
//! as an argument; they are never summed across scans, so accuracy depends
//! only on the clock, not on scan jitter.

use crate::blocks::step::{step_matches, StepOutcome};
use crate::bus::{spec_read_bool, SignalBus};
use crate::config::{spec_param_as_u64, ParamValue};
use crate::error::{ErrorModel, PlcError};
use crate::table::{spec_table_lookup, Table};
use crate::value::{SignalValue, ValueModel};
use vstd::prelude::*;

verus! {

/// Milliseconds from `start` to `now` on the monotonic clock (zero when
/// `now` is before `start`, which a monotonic clock does not produce).
pub open spec fn elapsed_since(start: u64, now: u64) -> u64 {
    if now >= start {
        (now - start) as u64
    } else {
        0
    }
}

/// Computes the elapsed milliseconds since `start`.
fn elapsed_ms_since(start: u64, now: u64) -> (r: u64)
    ensures
        r == elapsed_since(start, now),
{
    if now >= start {
        now - start
    } else {
        0
    }
}

/// The mathematical shape of a `TON` or `TOF` timer.
pub struct TimerModel {
    pub name: Seq<char>,
    pub input: Seq<char>,
    pub output: Seq<char>,
    pub elapsed_output: Option<Seq<char>>,
    pub preset_ms: u64,
    pub start_time: Option<u64>,
    pub elapsed_ms: u64,
    pub prev_input: bool,
}

/// Writes a timer's outputs: the done bit, and the elapsed time when an
/// `et` output is bound (narrowed to 32 bits by truncation).
pub open spec fn timer_outputs(
    m: Map<Seq<char>, ValueModel>,
    output: Seq<char>,
    elapsed_output: Option<Seq<char>>,
    q: bool,
    elapsed: u64,
) -> Map<Seq<char>, ValueModel> {
    let m1 = m.insert(output, ValueModel::Bool(q));
    match elapsed_output {
        Some(et) => m1.insert(et, ValueModel::Int(elapsed as i32)),
        None => m1,
    }
}

/// What one scan of a `TON` does on a bus holding `m` at clock reading
/// `now`: a rising edge starts timing, a false input resets, a held-true
/// input refreshes the elapsed time; the output is true while the input is
/// true and the preset has elapsed.
pub open spec fn ton_step(b: TimerModel, m: Map<Seq<char>, ValueModel>, now: u64) -> StepOutcome<
    TimerModel,
> {
    match spec_read_bool(m, b.input) {
        Err(e) => StepOutcome { state: b, bus: m, err: Some(e) },
        Ok(cur) => {
            let state = ton_next(b, cur, now);
            StepOutcome {
                state,
                bus: timer_outputs(m, b.output, b.elapsed_output, ton_q(b, cur, now), state.elapsed_ms),
                err: None,
            }
        },
    }
}

/// The `TON` state after one scan whose input read yielded `cur` at clock
/// reading `now`.
pub open spec fn ton_next(b: TimerModel, cur: bool, now: u64) -> TimerModel {
    let (start, elapsed) = if cur && !b.prev_input {
        (Some(now), 0u64)
    } else if !cur {
        (None, 0u64)
    } else {
        match b.start_time {
            Some(s) => (b.start_time, elapsed_since(s, now)),
            None => (b.start_time, b.elapsed_ms),
        }
    };
    TimerModel { start_time: start, elapsed_ms: elapsed, prev_input: cur, ..b }
}

/// The output a `TON` drives in that scan.
pub open spec fn ton_q(b: TimerModel, cur: bool, now: u64) -> bool {
    cur && ton_next(b, cur, now).elapsed_ms >= b.preset_ms
}

/// What one scan of a `TOF` does on a bus holding `m` at clock reading
/// `now`: a falling edge starts timing, a true input resets, a held-false
/// input refreshes the elapsed time; the output is true while the input is
/// true or the preset has not yet elapsed.
pub open spec fn tof_step(b: TimerModel, m: Map<Seq<char>, ValueModel>, now: u64) -> StepOutcome<
    TimerModel,
> {
    match spec_read_bool(m, b.input) {
        Err(e) => StepOutcome { state: b, bus: m, err: Some(e) },
        Ok(cur) => {
            let (start, elapsed) = if !cur && b.prev_input {
                (Some(now), 0u64)
            } else if cur {
                (None, 0u64)
            } else {
                match b.start_time {
                    Some(s) => (b.start_time, elapsed_since(s, now)),
                    None => (b.start_time, b.elapsed_ms),
                }
            };
            let q = cur || elapsed < b.preset_ms;
            StepOutcome {
                state: TimerModel {
                    start_time: start,
                    elapsed_ms: elapsed,
                    prev_input: cur,
                    ..b
                },
                bus: timer_outputs(m, b.output, b.elapsed_output, q, elapsed),
                err: None,
            }
        },
    }
}

/// A reachable timer state of a `TON`: whenever the input was high in the
/// previous scan, timing is active.
pub open spec fn ton_wf(b: TimerModel) -> bool {
    b.prev_input ==> b.start_time is Some
}

/// Law: the on-delay timing discipline of `TON`. The output can only turn
/// true when at least `preset_ms` have elapsed since the start instant;
/// that instant is set exactly at a rising edge of the input and kept
/// while the input holds, so the delay is measured from the most recent
/// rising edge. A false input drives the output false at once.
pub proof fn lemma_ton_timing(b: TimerModel, m: Map<Seq<char>, ValueModel>, now: u64)
    requires
        spec_read_bool(m, b.input) is Ok,
        ton_wf(b),
        b.elapsed_output matches Some(et) ==> et != b.output,
        // the clock is monotonic: the remembered start is not in the future
        b.start_time matches Some(s) ==> s <= now,
    ensures
        ton_wf(ton_step(b, m, now).state),
        ({
            let o = ton_step(b, m, now);
            let cur = spec_read_bool(m, b.input)->Ok_0;
            // the output is exact:
            &&& o.bus[b.output] == ValueModel::Bool(cur && o.state.elapsed_ms >= b.preset_ms)
            // a false input resets at once:
            &&& !cur ==> o.bus[b.output] == ValueModel::Bool(false) && o.state.start_time is None
            // the start instant marks the most recent rising edge:
            &&& (cur && !b.prev_input) ==> o.state.start_time == Some(now)
            &&& (cur && b.prev_input) ==> o.state.start_time == b.start_time
            // the output turns true no earlier than the preset after it:
            &&& o.bus[b.output] == ValueModel::Bool(true) ==> (o.state.start_time matches Some(s)
                && now >= s && now - s >= b.preset_ms)
        }),
{
}

/// The `TON` state after a run of scans, each described by the boolean its
/// input read yielded and the clock reading of that scan.
pub open spec fn ton_run(b: TimerModel, scans: Seq<(bool, u64)>) -> TimerModel
    decreases scans.len(),
{
    if scans.len() == 0 {
        b
    } else {
        ton_next(ton_run(b, scans.drop_last()), scans.last().0, scans.last().1)
    }
}

/// The clock reading of the most recent rising edge of the input over a
/// run, if the input has been held true since it.
pub open spec fn last_rising_time(b: TimerModel, scans: Seq<(bool, u64)>) -> Option<u64>
    decreases scans.len(),
{
    if scans.len() == 0 {
        None
    } else {
        let prev = ton_run(b, scans.drop_last());
        if scans.last().0 && !prev.prev_input {
            Some(scans.last().1)
        } else if !scans.last().0 {
            None
        } else {
            last_rising_time(b, scans.drop_last())
        }
    }
}

/// Whether the clock readings of a run never go backwards, as a monotonic
/// clock guarantees.
pub open spec fn times_nondecreasing(scans: Seq<(bool, u64)>) -> bool {
    forall|j: int| 0 <= j < scans.len() - 1 ==> (#[trigger] scans[j].1) <= scans[j + 1].1
}

/// Over a run from a freshly built `TON`, the remembered start instant is
/// exactly the clock reading of the most recent rising edge.
proof fn lemma_ton_run_tracks_edges(b: TimerModel, scans: Seq<(bool, u64)>)
    requires
        b.prev_input == false,
        b.start_time is None,
        times_nondecreasing(scans),
    ensures
        ton_wf(ton_run(b, scans)),
        ton_run(b, scans).preset_ms == b.preset_ms,
        ton_run(b, scans).start_time == last_rising_time(b, scans),
        ton_run(b, scans).start_time matches Some(t) ==> scans.len() > 0 && t <= scans.last().1,
    decreases scans.len(),
{
    if scans.len() > 0 {
        assert(forall|j: int|
            0 <= j < scans.drop_last().len() - 1 ==> (#[trigger] scans.drop_last()[j].1)
                <= scans.drop_last()[j + 1].1);
        lemma_ton_run_tracks_edges(b, scans.drop_last());
        let prev = ton_run(b, scans.drop_last());
        if scans.last().0 && prev.prev_input {
            assert(scans.drop_last().len() > 0);
            assert(scans.drop_last().last().1 <= scans.last().1);
        }
    }
}

/// Law: the on-delay holds over any run. Starting from a freshly built
/// `TON` and scanning under a monotonic clock, the output can be true in a
/// scan only when at least `preset_ms` have passed since the most recent
/// rising edge of the input; and any scan that reads the input false
/// drives the output false at once.
pub proof fn lemma_ton_no_early_turn_on(
    b: TimerModel,
    scans: Seq<(bool, u64)>,
    cur: bool,
    now: u64,
)
    requires
        b.prev_input == false,
        b.start_time is None,
        times_nondecreasing(scans.push((cur, now))),
    ensures
        ton_q(ton_run(b, scans), cur, now) ==> (last_rising_time(
            b,
            scans.push((cur, now)),
        ) matches Some(t) && t <= now && now - t >= b.preset_ms),
        !cur ==> !ton_q(ton_run(b, scans), cur, now),
{
    let full = scans.push((cur, now));
    assert(full.drop_last() =~= scans);
    assert(forall|j: int|
        0 <= j < scans.len() - 1 ==> (#[trigger] scans[j].1) <= scans[j + 1].1);
    lemma_ton_run_tracks_edges(b, scans);
    let prev = ton_run(b, scans);
    if ton_q(prev, cur, now) {
        if cur && !prev.prev_input {
            assert(last_rising_time(b, full) == Some(now));
        } else {
            assert(cur && prev.prev_input);
            assert(prev.start_time is Some);
            let t0 = prev.start_time->0;
            assert(scans.len() > 0);
            assert(scans[scans.len() - 1].1 <= now);
            assert(t0 <= now);
            assert(ton_next(prev, cur, now).elapsed_ms == now - t0);
            assert(last_rising_time(b, full) == last_rising_time(b, scans));
            assert(last_rising_time(b, scans) == Some(t0));
        }
    }
}

/// The mathematical shape of a `TP` pulse timer.
pub struct TpModel {
    pub name: Seq<char>,
    pub input: Seq<char>,
    pub output: Seq<char>,
    pub elapsed_output: Option<Seq<char>>,
    pub preset_ms: u64,
    pub start_time: Option<u64>,
    pub elapsed_ms: u64,
    pub prev_input: bool,
    pub pulse_active: bool,
}

/// What one scan of a `TP` does on a bus holding `m` at clock reading
/// `now`: a rising edge while idle starts a pulse of `preset_ms`; the pulse
/// runs to completion whatever the input does, and further rising edges are
/// ignored until it ends.
pub open spec fn tp_step(b: TpModel, m: Map<Seq<char>, ValueModel>, now: u64) -> StepOutcome<
    TpModel,
> {
    match spec_read_bool(m, b.input) {
        Err(e) => StepOutcome { state: b, bus: m, err: Some(e) },
        Ok(cur) => {
            let (start1, elapsed1, pulse1) = if cur && !b.prev_input && !b.pulse_active {
                (Some(now), 0u64, true)
            } else {
                (b.start_time, b.elapsed_ms, b.pulse_active)
            };
            let (start2, elapsed2, pulse2) = match (pulse1, start1) {
                (true, Some(s)) => {
                    let e = elapsed_since(s, now);
                    if e >= b.preset_ms {
                        (None::<u64>, e, false)
                    } else {
                        (start1, e, true)
                    }
                },
                _ => (start1, elapsed1, pulse1),
            };
            StepOutcome {
                state: TpModel {
                    start_time: start2,
                    elapsed_ms: elapsed2,
                    prev_input: cur,
                    pulse_active: pulse2,
                    ..b
                },
                bus: timer_outputs(m, b.output, b.elapsed_output, pulse2, elapsed2),
                err: None,
            }
        },
    }
}

/// A reachable timer state of a `TP`: while a pulse is active, timing is
/// active.
pub open spec fn tp_wf(b: TpModel) -> bool {
    b.pulse_active ==> b.start_time is Some
}

/// Law: a retrigger during an active pulse is ignored. While a pulse is
/// running, the start instant is never moved: either the pulse continues
/// from the same instant, or it ends because the preset has elapsed since
/// that same instant; a rising edge of the input changes nothing about the
/// timing.
pub proof fn lemma_tp_retrigger_ignored(b: TpModel, m: Map<Seq<char>, ValueModel>, now: u64)
    requires
        spec_read_bool(m, b.input) is Ok,
        tp_wf(b),
        b.pulse_active,
    ensures
        tp_wf(tp_step(b, m, now).state),
        ({
            let o = tp_step(b, m, now);
            let s = b.start_time->0;
            // the pulse keeps timing from its original start, or ends on time:
            &&& (elapsed_since(s, now) < b.preset_ms ==> o.state.pulse_active
                && o.state.start_time == b.start_time)
            &&& (elapsed_since(s, now) >= b.preset_ms ==> !o.state.pulse_active
                && o.state.start_time is None)
        }),
{
}

/// The required preset duration among the parameters, if a well-shaped one
/// is given.
pub open spec fn preset_of(params: Seq<(Seq<char>, crate::config::ParamModel)>) -> Option<u64> {
    match spec_table_lookup(params, "preset_ms"@) {
        Some(p) => spec_param_as_u64(p),
        None => None,
    }
}

/// The on-delay timer `TON`: its output turns true once its input has been
/// held true for `preset_ms`, and false at once when the input drops.
pub struct TON {
    name: String,
    input: String,
    output: String,
    elapsed_output: Option<String>,
    preset_ms: u64,
    start_time: Option<u64>,
    elapsed_ms: u64,
    prev_input: bool,
}

impl View for TON {
    type V = TimerModel;

    closed spec fn view(&self) -> TimerModel {
        TimerModel {
            name: self.name@,
            input: self.input@,
            output: self.output@,
            elapsed_output: match &self.elapsed_output {
                Some(s) => Some(s@),
                None => None,
            },
            preset_ms: self.preset_ms,
            start_time: self.start_time,
            elapsed_ms: self.elapsed_ms,
            prev_input: self.prev_input,
        }
    }
}

impl TON {
    /// The block's configured name.
    pub fn name(&self) -> (r: &str)
        ensures
            r@ == self@.name,
    {
        self.name.as_str()
    }

    /// Builds the timer from its bindings and parameters: an `in` input, a
    /// `q` output and a non-negative integer `preset_ms` parameter are
    /// mandatory; an `et` output is optional.
    pub fn new(
        name: String,
        inputs: &Table<String>,
        outputs: &Table<String>,
        params: &Table<ParamValue>,
    ) -> (r: Result<TON, PlcError>)
        ensures
            match (spec_table_lookup(inputs@, "in"@), spec_table_lookup(outputs@, "q"@)) {
                (Some(i), Some(o)) => match preset_of(params@) {
                    Some(p) => r matches Ok(b) && b@ == (TimerModel {
                        name: name@,
                        input: i,
                        output: o,
                        elapsed_output: spec_table_lookup(outputs@, "et"@),
                        preset_ms: p,
                        start_time: None,
                        elapsed_ms: 0,
                        prev_input: false,
                    }),
                    None => r matches Err(e) && e@ == ErrorModel::ConfigError(
                        "TON requires 'preset_ms' parameter"@,
                    ),
                },
                (None, _) => r matches Err(e) && e@ == ErrorModel::ConfigError(
                    "TON requires 'in' input"@,
                ),
                (Some(_), None) => r matches Err(e) && e@ == ErrorModel::ConfigError(
                    "TON requires 'q' output"@,
                ),
            },
    {
        let input = match inputs.get("in") {
            Some(s) => s.clone(),
            None => {
                return Err(PlcError::ConfigError("TON requires 'in' input".to_owned()));
            },
        };
        let output = match outputs.get("q") {
            Some(s) => s.clone(),
            None => {
                return Err(PlcError::ConfigError("TON requires 'q' output".to_owned()));
            },
        };
        let elapsed_output = match outputs.get("et") {
            Some(s) => Some(s.clone()),
            None => None,
        };
        let preset_ms = match params.get("preset_ms") {
            Some(p) => match p.as_u64() {
                Some(v) => v,
                None => {
                    return Err(
                        PlcError::ConfigError("TON requires 'preset_ms' parameter".to_owned()),
                    );
                },
            },
            None => {
                return Err(PlcError::ConfigError("TON requires 'preset_ms' parameter".to_owned()));
            },
        };
        Ok(
            TON {
                name,
                input,
                output,
                elapsed_output,
                preset_ms,
                start_time: None,
                elapsed_ms: 0,
                prev_input: false,
            },
        )
    }

    /// One scan at clock reading `now_ms`: see `ton_step`.
    pub fn execute(&mut self, bus: &mut SignalBus, now_ms: u64) -> (r: Result<(), PlcError>)
        ensures
            step_matches(ton_step(old(self)@, old(bus)@, now_ms), final(self)@, final(bus)@, r),
    {
        let current_input = match bus.get_bool(self.input.as_str()) {
            Ok(b) => b,
            Err(e) => {
                return Err(e);
            },
        };
        if current_input && !self.prev_input {
            // rising edge: start timing
            self.start_time = Some(now_ms);
            self.elapsed_ms = 0;
        } else if !current_input {
            // input is false: reset
            self.start_time = None;
            self.elapsed_ms = 0;
        } else {
            // input remains true: refresh the elapsed time
            match self.start_time {
                Some(s) => {
                    self.elapsed_ms = elapsed_ms_since(s, now_ms);
                },
                None => {},
            }
        }
        self.prev_input = current_input;
        let done = current_input && self.elapsed_ms >= self.preset_ms;
        let res = bus.set(self.output.as_str(), SignalValue::Bool(done));
        match res {
            Ok(_) => {},
            Err(e) => {
                return Err(e);
            },
        }
        match &self.elapsed_output {
            Some(et) => {
                let res = bus.set(
                    et.as_str(),
                    SignalValue::Int(#[verifier::truncate] (self.elapsed_ms as i32)),
                );
                match res {
                    Ok(_) => Ok(()),
                    Err(e) => Err(e),
                }
            },
            None => Ok(()),
        }
    }
}

/// The off-delay timer `TOF`: its output stays true while the input is
/// true and for `preset_ms` after it drops.
pub struct TOF {
    name: String,
    input: String,
    output: String,
    elapsed_output: Option<String>,
    preset_ms: u64,
    start_time: Option<u64>,
    elapsed_ms: u64,
    prev_input: bool,
}

impl View for TOF {
    type V = TimerModel;

    closed spec fn view(&self) -> TimerModel {
        TimerModel {
            name: self.name@,
            input: self.input@,
            output: self.output@,
            elapsed_output: match &self.elapsed_output {
                Some(s) => Some(s@),
                None => None,
            },
            preset_ms: self.preset_ms,
            start_time: self.start_time,
            elapsed_ms: self.elapsed_ms,
            prev_input: self.prev_input,
        }
    }
}

impl TOF {
    /// The block's configured name.
    pub fn name(&self) -> (r: &str)
        ensures
            r@ == self@.name,
    {
        self.name.as_str()
    }

    /// Builds the timer from its bindings and parameters: an `in` input, a
    /// `q` output and a non-negative integer `preset_ms` parameter are
    /// mandatory; an `et` output is optional. The remembered input level
    /// starts true, so a first scan with a false input is not an edge.
    pub fn new(
        name: String,
        inputs: &Table<String>,
        outputs: &Table<String>,
        params: &Table<ParamValue>,
    ) -> (r: Result<TOF, PlcError>)
        ensures
            match (spec_table_lookup(inputs@, "in"@), spec_table_lookup(outputs@, "q"@)) {
                (Some(i), Some(o)) => match preset_of(params@) {
                    Some(p) => r matches Ok(b) && b@ == (TimerModel {
                        name: name@,
                        input: i,
                        output: o,
                        elapsed_output: spec_table_lookup(outputs@, "et"@),
                        preset_ms: p,
                        start_time: None,
                        elapsed_ms: 0,
                        prev_input: true,
                    }),
                    None => r matches Err(e) && e@ == ErrorModel::ConfigError(
                        "TOF requires 'preset_ms' parameter"@,
                    ),
                },
                (None, _) => r matches Err(e) && e@ == ErrorModel::ConfigError(
                    "TOF requires 'in' input"@,
                ),
                (Some(_), None) => r matches Err(e) && e@ == ErrorModel::ConfigError(
                    "TOF requires 'q' output"@,
                ),
            },
    {
        let input = match inputs.get("in") {
            Some(s) => s.clone(),
            None => {
                return Err(PlcError::ConfigError("TOF requires 'in' input".to_owned()));
            },
        };
        let output = match outputs.get("q") {
            Some(s) => s.clone(),
            None => {
                return Err(PlcError::ConfigError("TOF requires 'q' output".to_owned()));
            },
        };
        let elapsed_output = match outputs.get("et") {
            Some(s) => Some(s.clone()),
            None => None,
        };
        let preset_ms = match params.get("preset_ms") {
            Some(p) => match p.as_u64() {
                Some(v) => v,
                None => {
                    return Err(
                        PlcError::ConfigError("TOF requires 'preset_ms' parameter".to_owned()),
                    );
                },
            },
            None => {
                return Err(PlcError::ConfigError("TOF requires 'preset_ms' parameter".to_owned()));
            },
        };
        Ok(
            TOF {
                name,
                input,
                output,
                elapsed_output,
                preset_ms,
                start_time: None,
                elapsed_ms: 0,
                prev_input: true,
            },
        )
    }

    /// One scan at clock reading `now_ms`: see `tof_step`.
    pub fn execute(&mut self, bus: &mut SignalBus, now_ms: u64) -> (r: Result<(), PlcError>)
        ensures
            step_matches(tof_step(old(self)@, old(bus)@, now_ms), final(self)@, final(bus)@, r),
    {
        let current_input = match bus.get_bool(self.input.as_str()) {
            Ok(b) => b,
            Err(e) => {
                return Err(e);
            },
        };
        if !current_input && self.prev_input {
            // falling edge: start timing
            self.start_time = Some(now_ms);
            self.elapsed_ms = 0;
        } else if current_input {
            // input is true: reset
            self.start_time = None;
            self.elapsed_ms = 0;
        } else {
            // input remains false: refresh the elapsed time
            match self.start_time {
                Some(s) => {
                    self.elapsed_ms = elapsed_ms_since(s, now_ms);
                },
                None => {},
            }
        }
        self.prev_input = current_input;
        let done = current_input || self.elapsed_ms < self.preset_ms;
        let res = bus.set(self.output.as_str(), SignalValue::Bool(done));
        match res {
            Ok(_) => {},
            Err(e) => {
                return Err(e);
            },
        }
        match &self.elapsed_output {
            Some(et) => {
                let res = bus.set(
                    et.as_str(),
                    SignalValue::Int(#[verifier::truncate] (self.elapsed_ms as i32)),
                );
                match res {
                    Ok(_) => Ok(()),
                    Err(e) => Err(e),
                }
            },
            None => Ok(()),
        }
    }
}

/// The pulse timer `TP`: a rising edge of the input while idle produces a
/// pulse of exactly `preset_ms` on the output; retriggers during the pulse
/// are ignored.
pub struct TP {
    name: String,
    input: String,
    output: String,
    elapsed_output: Option<String>,
    preset_ms: u64,
    start_time: Option<u64>,
    elapsed_ms: u64,
    prev_input: bool,
    pulse_active: bool,
}

impl View for TP {
    type V = TpModel;

    closed spec fn view(&self) -> TpModel {
        TpModel {
            name: self.name@,
            input: self.input@,
            output: self.output@,
            elapsed_output: match &self.elapsed_output {
                Some(s) => Some(s@),
                None => None,
            },
            preset_ms: self.preset_ms,
            start_time: self.start_time,
            elapsed_ms: self.elapsed_ms,
            prev_input: self.prev_input,
            pulse_active: self.pulse_active,
        }
    }
}

impl TP {
    /// The block's configured name.
    pub fn name(&self) -> (r: &str)
        ensures
            r@ == self@.name,
    {
        self.name.as_str()
    }

    /// Builds the timer from its bindings and parameters: an `in` input, a
    /// `q` output and a non-negative integer `preset_ms` parameter are
    /// mandatory; an `et` output is optional.
    pub fn new(
        name: String,
        inputs: &Table<String>,
        outputs: &Table<String>,
        params: &Table<ParamValue>,
    ) -> (r: Result<TP, PlcError>)
        ensures
            match (spec_table_lookup(inputs@, "in"@), spec_table_lookup(outputs@, "q"@)) {
                (Some(i), Some(o)) => match preset_of(params@) {
                    Some(p) => r matches Ok(b) && b@ == (TpModel {
                        name: name@,
                        input: i,
                        output: o,
                        elapsed_output: spec_table_lookup(outputs@, "et"@),
                        preset_ms: p,
                        start_time: None,
                        elapsed_ms: 0,
                        prev_input: false,
                        pulse_active: false,
                    }),
                    None => r matches Err(e) && e@ == ErrorModel::ConfigError(
                        "TP requires 'preset_ms' parameter"@,
                    ),
                },
                (None, _) => r matches Err(e) && e@ == ErrorModel::ConfigError(
                    "TP requires 'in' input"@,
                ),
                (Some(_), None) => r matches Err(e) && e@ == ErrorModel::ConfigError(
                    "TP requires 'q' output"@,
                ),
            },
    {
        let input = match inputs.get("in") {
            Some(s) => s.clone(),
            None => {
                return Err(PlcError::ConfigError("TP requires 'in' input".to_owned()));
            },
        };
        let output = match outputs.get("q") {
            Some(s) => s.clone(),
            None => {
                return Err(PlcError::ConfigError("TP requires 'q' output".to_owned()));
            },
        };
        let elapsed_output = match outputs.get("et") {
            Some(s) => Some(s.clone()),
            None => None,
        };
        let preset_ms = match params.get("preset_ms") {
            Some(p) => match p.as_u64() {
                Some(v) => v,
                None => {
                    return Err(
                        PlcError::ConfigError("TP requires 'preset_ms' parameter".to_owned()),
                    );
                },
            },
            None => {
                return Err(PlcError::ConfigError("TP requires 'preset_ms' parameter".to_owned()));
            },
        };
        Ok(
            TP {
                name,
                input,
                output,
                elapsed_output,
                preset_ms,
                start_time: None,
                elapsed_ms: 0,
                prev_input: false,
                pulse_active: false,
            },
        )
    }

    /// One scan at clock reading `now_ms`: see `tp_step`.
    pub fn execute(&mut self, bus: &mut SignalBus, now_ms: u64) -> (r: Result<(), PlcError>)
        ensures
            step_matches(tp_step(old(self)@, old(bus)@, now_ms), final(self)@, final(bus)@, r),
    {
        let current_input = match bus.get_bool(self.input.as_str()) {
            Ok(b) => b,
            Err(e) => {
                return Err(e);
            },
        };
        if current_input && !self.prev_input && !self.pulse_active {
            // rising edge while idle: start the pulse
            self.start_time = Some(now_ms);
            self.elapsed_ms = 0;
            self.pulse_active = true;
        }
        if self.pulse_active {
            match self.start_time {
                Some(s) => {
                    self.elapsed_ms = elapsed_ms_since(s, now_ms);
                    if self.elapsed_ms >= self.preset_ms {
                        // the pulse has run its course
                        self.pulse_active = false;
                        self.start_time = None;
                    }
                },
                None => {},
            }
        }
        self.prev_input = current_input;
        let res = bus.set(self.output.as_str(), SignalValue::Bool(self.pulse_active));
        match res {
            Ok(_) => {},
            Err(e) => {
                return Err(e);
            },
        }
        match &self.elapsed_output {
            Some(et) => {
                let res = bus.set(
                    et.as_str(),
                    SignalValue::Int(#[verifier::truncate] (self.elapsed_ms as i32)),
                );
                match res {
                    Ok(_) => Ok(()),
                    Err(e) => Err(e),
                }
            },
            None => Ok(()),
        }
    }
}

} // verus!
