//! The block factory: the single dispatch point from a block type tag to a
//! constructed block, and the tagged union over every block variant.

use crate::blocks::comparison::{
    eq_step, gt_values, lt_values, ord_step, CmpModel, EqBlock, GtBlock, LtBlock,
};
use crate::blocks::const_block::{const_step, param_to_value, ConstBlock, ConstModel};
use crate::blocks::counters::{
    counter_preset_of, counter_step, seq_max_of, seq_step, seq_wf, Counter, CounterModel, SeqModel,
    Sequencer,
};
use crate::blocks::logic::{
    and_step, in_port_signals, not_step, or_step, AndBlock, AndModel, NotBlock, NotModel, OrBlock,
    OrModel,
};
use crate::blocks::step::{step_matches, StepOutcome};
use crate::blocks::timers::{
    preset_of, tof_step, ton_step, tp_step, TimerModel, TpModel, TOF, TON, TP,
};
use crate::blocks::triggers::{
    f_trig_step, r_trig_step, sr_latch_step, FTrig, LatchModel, RTrig, SRLatch, TrigModel,
};
use crate::bus::{models_result, SignalBus};
use crate::config::BlockConfig;
use crate::error::{ErrorModel, PlcError};
use crate::table::{spec_table_lookup, str_eq};
use crate::value::ValueModel;
use vstd::prelude::*;
use vstd::string::StringExecFns;

verus! {

/// The mathematical shape of a block: one variant per block type.
pub enum BlockModel {
    And(AndModel),
    Or(OrModel),
    Not(NotModel),
    Eq(CmpModel),
    Gt(CmpModel),
    Lt(CmpModel),
    RTrig(TrigModel),
    FTrig(TrigModel),
    SrLatch(LatchModel),
    Ton(TimerModel),
    Tof(TimerModel),
    Tp(TpModel),
    Counter(CounterModel),
    Sequencer(SeqModel),
    Const(ConstModel),
}

/// A stateful function block: the tagged union over every variant the
/// factory can construct.
pub enum Block {
    And(AndBlock),
    Or(OrBlock),
    Not(NotBlock),
    Eq(EqBlock),
    Gt(GtBlock),
    Lt(LtBlock),
    RTrig(RTrig),
    FTrig(FTrig),
    SrLatch(SRLatch),
    Ton(TON),
    Tof(TOF),
    Tp(TP),
    Counter(Counter),
    Sequencer(Sequencer),
    Const(ConstBlock),
}

impl View for Block {
    type V = BlockModel;

    open spec fn view(&self) -> BlockModel {
        match self {
            Block::And(b) => BlockModel::And(b@),
            Block::Or(b) => BlockModel::Or(b@),
            Block::Not(b) => BlockModel::Not(b@),
            Block::Eq(b) => BlockModel::Eq(b@),
            Block::Gt(b) => BlockModel::Gt(b@),
            Block::Lt(b) => BlockModel::Lt(b@),
            Block::RTrig(b) => BlockModel::RTrig(b@),
            Block::FTrig(b) => BlockModel::FTrig(b@),
            Block::SrLatch(b) => BlockModel::SrLatch(b@),
            Block::Ton(b) => BlockModel::Ton(b@),
            Block::Tof(b) => BlockModel::Tof(b@),
            Block::Tp(b) => BlockModel::Tp(b@),
            Block::Counter(b) => BlockModel::Counter(b@),
            Block::Sequencer(b) => BlockModel::Sequencer(b@),
            Block::Const(b) => BlockModel::Const(b@),
        }
    }
}

/// A reachable block state: every variant is unconstrained except the
/// sequencer, whose index stays within its bound.
pub open spec fn block_wf(b: BlockModel) -> bool {
    match b {
        BlockModel::Sequencer(s) => seq_wf(s),
        _ => true,
    }
}

/// The name the block was configured with.
pub open spec fn block_name(b: BlockModel) -> Seq<char> {
    match b {
        BlockModel::And(x) => x.name,
        BlockModel::Or(x) => x.name,
        BlockModel::Not(x) => x.name,
        BlockModel::Eq(x) => x.name,
        BlockModel::Gt(x) => x.name,
        BlockModel::Lt(x) => x.name,
        BlockModel::RTrig(x) => x.name,
        BlockModel::FTrig(x) => x.name,
        BlockModel::SrLatch(x) => x.name,
        BlockModel::Ton(x) => x.name,
        BlockModel::Tof(x) => x.name,
        BlockModel::Tp(x) => x.name,
        BlockModel::Counter(x) => x.name,
        BlockModel::Sequencer(x) => x.name,
        BlockModel::Const(x) => x.name,
    }
}

/// The block type tag of a block.
pub open spec fn block_kind(b: BlockModel) -> Seq<char> {
    match b {
        BlockModel::And(_) => "AND"@,
        BlockModel::Or(_) => "OR"@,
        BlockModel::Not(_) => "NOT"@,
        BlockModel::Eq(_) => "EQ"@,
        BlockModel::Gt(_) => "GT"@,
        BlockModel::Lt(_) => "LT"@,
        BlockModel::RTrig(_) => "R_TRIG"@,
        BlockModel::FTrig(_) => "F_TRIG"@,
        BlockModel::SrLatch(_) => "SR_LATCH"@,
        BlockModel::Ton(_) => "TON"@,
        BlockModel::Tof(_) => "TOF"@,
        BlockModel::Tp(_) => "TP"@,
        BlockModel::Counter(_) => "COUNTER"@,
        BlockModel::Sequencer(_) => "SEQUENCER"@,
        BlockModel::Const(_) => "CONST"@,
    }
}

/// What one scan of a block does on a bus holding `m` at clock reading
/// `now`: the step of its variant.
pub open spec fn block_step(b: BlockModel, m: Map<Seq<char>, ValueModel>, now: u64) -> StepOutcome<
    BlockModel,
> {
    match b {
        BlockModel::And(x) => {
            let o = and_step(x, m);
            StepOutcome { state: BlockModel::And(o.state), bus: o.bus, err: o.err }
        },
        BlockModel::Or(x) => {
            let o = or_step(x, m);
            StepOutcome { state: BlockModel::Or(o.state), bus: o.bus, err: o.err }
        },
        BlockModel::Not(x) => {
            let o = not_step(x, m);
            StepOutcome { state: BlockModel::Not(o.state), bus: o.bus, err: o.err }
        },
        BlockModel::Eq(x) => {
            let o = eq_step(x, m);
            StepOutcome { state: BlockModel::Eq(o.state), bus: o.bus, err: o.err }
        },
        BlockModel::Gt(x) => {
            let o = ord_step(x, m, |a: ValueModel, b: ValueModel| gt_values(a, b));
            StepOutcome { state: BlockModel::Gt(o.state), bus: o.bus, err: o.err }
        },
        BlockModel::Lt(x) => {
            let o = ord_step(x, m, |a: ValueModel, b: ValueModel| lt_values(a, b));
            StepOutcome { state: BlockModel::Lt(o.state), bus: o.bus, err: o.err }
        },
        BlockModel::RTrig(x) => {
            let o = r_trig_step(x, m);
            StepOutcome { state: BlockModel::RTrig(o.state), bus: o.bus, err: o.err }
        },
        BlockModel::FTrig(x) => {
            let o = f_trig_step(x, m);
            StepOutcome { state: BlockModel::FTrig(o.state), bus: o.bus, err: o.err }
        },
        BlockModel::SrLatch(x) => {
            let o = sr_latch_step(x, m);
            StepOutcome { state: BlockModel::SrLatch(o.state), bus: o.bus, err: o.err }
        },
        BlockModel::Ton(x) => {
            let o = ton_step(x, m, now);
            StepOutcome { state: BlockModel::Ton(o.state), bus: o.bus, err: o.err }
        },
        BlockModel::Tof(x) => {
            let o = tof_step(x, m, now);
            StepOutcome { state: BlockModel::Tof(o.state), bus: o.bus, err: o.err }
        },
        BlockModel::Tp(x) => {
            let o = tp_step(x, m, now);
            StepOutcome { state: BlockModel::Tp(o.state), bus: o.bus, err: o.err }
        },
        BlockModel::Counter(x) => {
            let o = counter_step(x, m);
            StepOutcome { state: BlockModel::Counter(o.state), bus: o.bus, err: o.err }
        },
        BlockModel::Sequencer(x) => {
            let o = seq_step(x, m);
            StepOutcome { state: BlockModel::Sequencer(o.state), bus: o.bus, err: o.err }
        },
        BlockModel::Const(x) => {
            let o = const_step(x, m);
            StepOutcome { state: BlockModel::Const(o.state), bus: o.bus, err: o.err }
        },
    }
}

impl Block {
    /// The block's configured name.
    pub fn name(&self) -> (r: &str)
        ensures
            r@ == block_name(self@),
    {
        match self {
            Block::And(b) => b.name(),
            Block::Or(b) => b.name(),
            Block::Not(b) => b.name(),
            Block::Eq(b) => b.name(),
            Block::Gt(b) => b.name(),
            Block::Lt(b) => b.name(),
            Block::RTrig(b) => b.name(),
            Block::FTrig(b) => b.name(),
            Block::SrLatch(b) => b.name(),
            Block::Ton(b) => b.name(),
            Block::Tof(b) => b.name(),
            Block::Tp(b) => b.name(),
            Block::Counter(b) => b.name(),
            Block::Sequencer(b) => b.name(),
            Block::Const(b) => b.name(),
        }
    }

    /// The block's type tag.
    pub fn block_type(&self) -> (r: &str)
        ensures
            r@ == block_kind(self@),
    {
        match self {
            Block::And(_) => "AND",
            Block::Or(_) => "OR",
            Block::Not(_) => "NOT",
            Block::Eq(_) => "EQ",
            Block::Gt(_) => "GT",
            Block::Lt(_) => "LT",
            Block::RTrig(_) => "R_TRIG",
            Block::FTrig(_) => "F_TRIG",
            Block::SrLatch(_) => "SR_LATCH",
            Block::Ton(_) => "TON",
            Block::Tof(_) => "TOF",
            Block::Tp(_) => "TP",
            Block::Counter(_) => "COUNTER",
            Block::Sequencer(_) => "SEQUENCER",
            Block::Const(_) => "CONST",
        }
    }

    /// One scan of the block at clock reading `now_ms`: the step of its
    /// variant. Blocks that do not measure time ignore the clock.
    pub fn execute(&mut self, bus: &mut SignalBus, now_ms: u64) -> (r: Result<(), PlcError>)
        requires
            block_wf(old(self)@),
        ensures
            step_matches(block_step(old(self)@, old(bus)@, now_ms), final(self)@, final(bus)@, r),
            block_wf(final(self)@),
    {
        match self {
            Block::And(b) => b.execute(bus),
            Block::Or(b) => b.execute(bus),
            Block::Not(b) => b.execute(bus),
            Block::Eq(b) => b.execute(bus),
            Block::Gt(b) => b.execute(bus),
            Block::Lt(b) => b.execute(bus),
            Block::RTrig(b) => b.execute(bus),
            Block::FTrig(b) => b.execute(bus),
            Block::SrLatch(b) => b.execute(bus),
            Block::Ton(b) => b.execute(bus, now_ms),
            Block::Tof(b) => b.execute(bus, now_ms),
            Block::Tp(b) => b.execute(bus, now_ms),
            Block::Counter(b) => b.execute(bus),
            Block::Sequencer(b) => b.execute(bus),
            Block::Const(b) => b.execute(bus),
        }
    }
}

/// The block a declaration denotes, or the configuration error its
/// construction fails with: the factory's dispatch on the block type tag.
pub open spec fn spec_create_block(c: crate::config::BlockConfigModel) -> Result<
    BlockModel,
    ErrorModel,
> {
    if c.block_type == "AND"@ {
        match spec_table_lookup(c.outputs, "out"@) {
            Some(out) => Ok(
                BlockModel::And(
                    AndModel { name: c.name, inputs: in_port_signals(c.inputs), output: out },
                ),
            ),
            None => Err(ErrorModel::ConfigError("AND block requires 'out' output"@)),
        }
    } else if c.block_type == "OR"@ {
        match spec_table_lookup(c.outputs, "out"@) {
            Some(out) => Ok(
                BlockModel::Or(
                    OrModel { name: c.name, inputs: in_port_signals(c.inputs), output: out },
                ),
            ),
            None => Err(ErrorModel::ConfigError("OR block requires 'out' output"@)),
        }
    } else if c.block_type == "NOT"@ {
        match (spec_table_lookup(c.inputs, "in"@), spec_table_lookup(c.outputs, "out"@)) {
            (Some(i), Some(o)) => Ok(
                BlockModel::Not(NotModel { name: c.name, input: i, output: o }),
            ),
            (None, _) => Err(ErrorModel::ConfigError("NOT block requires 'in' input"@)),
            (Some(_), None) => Err(ErrorModel::ConfigError("NOT block requires 'out' output"@)),
        }
    } else if c.block_type == "EQ"@ {
        match (
            spec_table_lookup(c.inputs, "in1"@),
            spec_table_lookup(c.inputs, "in2"@),
            spec_table_lookup(c.outputs, "out"@),
        ) {
            (Some(i1), Some(i2), Some(o)) => Ok(
                BlockModel::Eq(CmpModel { name: c.name, input1: i1, input2: i2, output: o }),
            ),
            (None, _, _) => Err(ErrorModel::ConfigError("EQ requires 'in1' input"@)),
            (Some(_), None, _) => Err(ErrorModel::ConfigError("EQ requires 'in2' input"@)),
            (Some(_), Some(_), None) => Err(ErrorModel::ConfigError("EQ requires 'out' output"@)),
        }
    } else if c.block_type == "GT"@ {
        match (
            spec_table_lookup(c.inputs, "in1"@),
            spec_table_lookup(c.inputs, "in2"@),
            spec_table_lookup(c.outputs, "out"@),
        ) {
            (Some(i1), Some(i2), Some(o)) => Ok(
                BlockModel::Gt(CmpModel { name: c.name, input1: i1, input2: i2, output: o }),
            ),
            (None, _, _) => Err(ErrorModel::ConfigError("GT requires 'in1' input"@)),
            (Some(_), None, _) => Err(ErrorModel::ConfigError("GT requires 'in2' input"@)),
            (Some(_), Some(_), None) => Err(ErrorModel::ConfigError("GT requires 'out' output"@)),
        }
    } else if c.block_type == "LT"@ {
        match (
            spec_table_lookup(c.inputs, "in1"@),
            spec_table_lookup(c.inputs, "in2"@),
            spec_table_lookup(c.outputs, "out"@),
        ) {
            (Some(i1), Some(i2), Some(o)) => Ok(
                BlockModel::Lt(CmpModel { name: c.name, input1: i1, input2: i2, output: o }),
            ),
            (None, _, _) => Err(ErrorModel::ConfigError("LT requires 'in1' input"@)),
            (Some(_), None, _) => Err(ErrorModel::ConfigError("LT requires 'in2' input"@)),
            (Some(_), Some(_), None) => Err(ErrorModel::ConfigError("LT requires 'out' output"@)),
        }
    } else if c.block_type == "R_TRIG"@ {
        match (spec_table_lookup(c.inputs, "clk"@), spec_table_lookup(c.outputs, "q"@)) {
            (Some(i), Some(o)) => Ok(
                BlockModel::RTrig(TrigModel { name: c.name, input: i, output: o, prev: false }),
            ),
            (None, _) => Err(ErrorModel::ConfigError("R_TRIG requires 'clk' input"@)),
            (Some(_), None) => Err(ErrorModel::ConfigError("R_TRIG requires 'q' output"@)),
        }
    } else if c.block_type == "F_TRIG"@ {
        match (spec_table_lookup(c.inputs, "clk"@), spec_table_lookup(c.outputs, "q"@)) {
            (Some(i), Some(o)) => Ok(
                BlockModel::FTrig(TrigModel { name: c.name, input: i, output: o, prev: false }),
            ),
            (None, _) => Err(ErrorModel::ConfigError("F_TRIG requires 'clk' input"@)),
            (Some(_), None) => Err(ErrorModel::ConfigError("F_TRIG requires 'q' output"@)),
        }
    } else if c.block_type == "SR_LATCH"@ {
        match (
            spec_table_lookup(c.inputs, "set"@),
            spec_table_lookup(c.inputs, "reset"@),
            spec_table_lookup(c.outputs, "q"@),
        ) {
            (Some(s), Some(rst), Some(o)) => Ok(
                BlockModel::SrLatch(
                    LatchModel {
                        name: c.name,
                        set_input: s,
                        reset_input: rst,
                        output: o,
                        state: false,
                    },
                ),
            ),
            (None, _, _) => Err(ErrorModel::ConfigError("SR_LATCH requires 'set' input"@)),
            (Some(_), None, _) => Err(ErrorModel::ConfigError("SR_LATCH requires 'reset' input"@)),
            (Some(_), Some(_), None) => Err(
                ErrorModel::ConfigError("SR_LATCH requires 'q' output"@),
            ),
        }
    } else if c.block_type == "TON"@ {
        match (spec_table_lookup(c.inputs, "in"@), spec_table_lookup(c.outputs, "q"@)) {
            (Some(i), Some(o)) => match preset_of(c.params) {
                Some(p) => Ok(
                    BlockModel::Ton(
                        TimerModel {
                            name: c.name,
                            input: i,
                            output: o,
                            elapsed_output: spec_table_lookup(c.outputs, "et"@),
                            preset_ms: p,
                            start_time: None,
                            elapsed_ms: 0,
                            prev_input: false,
                        },
                    ),
                ),
                None => Err(ErrorModel::ConfigError("TON requires 'preset_ms' parameter"@)),
            },
            (None, _) => Err(ErrorModel::ConfigError("TON requires 'in' input"@)),
            (Some(_), None) => Err(ErrorModel::ConfigError("TON requires 'q' output"@)),
        }
    } else if c.block_type == "TOF"@ {
        match (spec_table_lookup(c.inputs, "in"@), spec_table_lookup(c.outputs, "q"@)) {
            (Some(i), Some(o)) => match preset_of(c.params) {
                Some(p) => Ok(
                    BlockModel::Tof(
                        TimerModel {
                            name: c.name,
                            input: i,
                            output: o,
                            elapsed_output: spec_table_lookup(c.outputs, "et"@),
                            preset_ms: p,
                            start_time: None,
                            elapsed_ms: 0,
                            prev_input: true,
                        },
                    ),
                ),
                None => Err(ErrorModel::ConfigError("TOF requires 'preset_ms' parameter"@)),
            },
            (None, _) => Err(ErrorModel::ConfigError("TOF requires 'in' input"@)),
            (Some(_), None) => Err(ErrorModel::ConfigError("TOF requires 'q' output"@)),
        }
    } else if c.block_type == "TP"@ {
        match (spec_table_lookup(c.inputs, "in"@), spec_table_lookup(c.outputs, "q"@)) {
            (Some(i), Some(o)) => match preset_of(c.params) {
                Some(p) => Ok(
                    BlockModel::Tp(
                        TpModel {
                            name: c.name,
                            input: i,
                            output: o,
                            elapsed_output: spec_table_lookup(c.outputs, "et"@),
                            preset_ms: p,
                            start_time: None,
                            elapsed_ms: 0,
                            prev_input: false,
                            pulse_active: false,
                        },
                    ),
                ),
                None => Err(ErrorModel::ConfigError("TP requires 'preset_ms' parameter"@)),
            },
            (None, _) => Err(ErrorModel::ConfigError("TP requires 'in' input"@)),
            (Some(_), None) => Err(ErrorModel::ConfigError("TP requires 'q' output"@)),
        }
    } else if c.block_type == "COUNTER"@ {
        match (
            spec_table_lookup(c.inputs, "cu"@),
            spec_table_lookup(c.inputs, "cd"@),
            spec_table_lookup(c.inputs, "r"@),
            spec_table_lookup(c.outputs, "cv"@),
        ) {
            (Some(cu), Some(cd), Some(rst), Some(cv)) => Ok(
                BlockModel::Counter(
                    CounterModel {
                        name: c.name,
                        count_up: cu,
                        count_down: cd,
                        reset: rst,
                        preset_input: spec_table_lookup(c.inputs, "pv"@),
                        output: cv,
                        done_output: spec_table_lookup(c.outputs, "q"@),
                        preset: counter_preset_of(c.params),
                        count: 0,
                        prev_up: false,
                        prev_down: false,
                    },
                ),
            ),
            (None, _, _, _) => Err(ErrorModel::ConfigError("COUNTER requires 'cu' input"@)),
            (Some(_), None, _, _) => Err(ErrorModel::ConfigError("COUNTER requires 'cd' input"@)),
            (Some(_), Some(_), None, _) => Err(
                ErrorModel::ConfigError("COUNTER requires 'r' input"@),
            ),
            (Some(_), Some(_), Some(_), None) => Err(
                ErrorModel::ConfigError("COUNTER requires 'cv' output"@),
            ),
        }
    } else if c.block_type == "SEQUENCER"@ {
        match (
            spec_table_lookup(c.inputs, "trigger"@),
            spec_table_lookup(c.inputs, "reset"@),
            spec_table_lookup(c.outputs, "index"@),
        ) {
            (Some(trig), Some(rst), Some(idx)) => match seq_max_of(c.params) {
                Some(mx) => if mx <= 0 {
                    Err(ErrorModel::ConfigError("SEQUENCER 'max' must be positive"@))
                } else {
                    Ok(
                        BlockModel::Sequencer(
                            SeqModel {
                                name: c.name,
                                trigger: trig,
                                reset: rst,
                                index_output: idx,
                                max: mx,
                                current_index: 0,
                                prev_trigger: false,
                            },
                        ),
                    )
                },
                None => Err(ErrorModel::ConfigError("SEQUENCER requires 'max' parameter"@)),
            },
            (None, _, _) => Err(ErrorModel::ConfigError("SEQUENCER requires 'trigger' input"@)),
            (Some(_), None, _) => Err(ErrorModel::ConfigError("SEQUENCER requires 'reset' input"@)),
            (Some(_), Some(_), None) => Err(
                ErrorModel::ConfigError("SEQUENCER requires 'index' output"@),
            ),
        }
    } else if c.block_type == "CONST"@ {
        match (spec_table_lookup(c.outputs, "out"@), spec_table_lookup(c.params, "value"@)) {
            (Some(o), Some(p)) => Ok(
                BlockModel::Const(
                    ConstModel { name: c.name, output: o, value: param_to_value(p) },
                ),
            ),
            (None, _) => Err(ErrorModel::ConfigError("CONST requires 'out' output"@)),
            (Some(_), None) => Err(ErrorModel::ConfigError("CONST requires 'value' parameter"@)),
        }
    } else {
        Err(ErrorModel::ConfigError("Unknown block type: "@ + c.block_type))
    }
}

/// Constructs a block from its declaration: the factory, keyed on the
/// block type tag. A freshly built block is well-formed.
pub fn create_block(config: &BlockConfig) -> (r: Result<Block, PlcError>)
    ensures
        models_result(r, spec_create_block(config@)),
        r matches Ok(b) ==> block_wf(b@),
{
    let bt = config.block_type.as_str();
    if str_eq(bt, "AND") {
        match AndBlock::new(config.name.clone(), &config.inputs, &config.outputs) {
            Ok(b) => Ok(Block::And(b)),
            Err(e) => Err(e),
        }
    } else if str_eq(bt, "OR") {
        match OrBlock::new(config.name.clone(), &config.inputs, &config.outputs) {
            Ok(b) => Ok(Block::Or(b)),
            Err(e) => Err(e),
        }
    } else if str_eq(bt, "NOT") {
        match NotBlock::new(config.name.clone(), &config.inputs, &config.outputs) {
            Ok(b) => Ok(Block::Not(b)),
            Err(e) => Err(e),
        }
    } else if str_eq(bt, "EQ") {
        match EqBlock::new(config.name.clone(), &config.inputs, &config.outputs) {
            Ok(b) => Ok(Block::Eq(b)),
            Err(e) => Err(e),
        }
    } else if str_eq(bt, "GT") {
        match GtBlock::new(config.name.clone(), &config.inputs, &config.outputs) {
            Ok(b) => Ok(Block::Gt(b)),
            Err(e) => Err(e),
        }
    } else if str_eq(bt, "LT") {
        match LtBlock::new(config.name.clone(), &config.inputs, &config.outputs) {
            Ok(b) => Ok(Block::Lt(b)),
            Err(e) => Err(e),
        }
    } else if str_eq(bt, "R_TRIG") {
        match RTrig::new(config.name.clone(), &config.inputs, &config.outputs) {
            Ok(b) => Ok(Block::RTrig(b)),
            Err(e) => Err(e),
        }
    } else if str_eq(bt, "F_TRIG") {
        match FTrig::new(config.name.clone(), &config.inputs, &config.outputs) {
            Ok(b) => Ok(Block::FTrig(b)),
            Err(e) => Err(e),
        }
    } else if str_eq(bt, "SR_LATCH") {
        match SRLatch::new(config.name.clone(), &config.inputs, &config.outputs) {
            Ok(b) => Ok(Block::SrLatch(b)),
            Err(e) => Err(e),
        }
    } else if str_eq(bt, "TON") {
        match TON::new(config.name.clone(), &config.inputs, &config.outputs, &config.params) {
            Ok(b) => Ok(Block::Ton(b)),
            Err(e) => Err(e),
        }
    } else if str_eq(bt, "TOF") {
        match TOF::new(config.name.clone(), &config.inputs, &config.outputs, &config.params) {
            Ok(b) => Ok(Block::Tof(b)),
            Err(e) => Err(e),
        }
    } else if str_eq(bt, "TP") {
        match TP::new(config.name.clone(), &config.inputs, &config.outputs, &config.params) {
            Ok(b) => Ok(Block::Tp(b)),
            Err(e) => Err(e),
        }
    } else if str_eq(bt, "COUNTER") {
        match Counter::new(config.name.clone(), &config.inputs, &config.outputs, &config.params) {
            Ok(b) => Ok(Block::Counter(b)),
            Err(e) => Err(e),
        }
    } else if str_eq(bt, "SEQUENCER") {
        match Sequencer::new(config.name.clone(), &config.inputs, &config.outputs, &config.params) {
            Ok(b) => Ok(Block::Sequencer(b)),
            Err(e) => Err(e),
        }
    } else if str_eq(bt, "CONST") {
        match ConstBlock::new(config.name.clone(), &config.outputs, &config.params) {
            Ok(b) => Ok(Block::Const(b)),
            Err(e) => Err(e),
        }
    } else {
        let mut msg = "Unknown block type: ".to_owned();
        msg.append(config.block_type.as_str());
        Err(PlcError::ConfigError(msg))
    }
}

} // verus!
