//! Program-wide laws of the block library and the scan engine: which
//! signals a block may touch, and what a completed scan guarantees about
//! the types of the written outputs.

use crate::blocks::factory::{block_step, BlockModel};
use crate::blocks::logic::{and_eval, or_eval};
use crate::value::{spec_as_bool, spec_as_int, spec_type_label, ValueModel};
use vstd::prelude::*;
use vstd::set::Set;

verus! {

/// Whether two bus contents agree on the signal `k`: both hold it or
/// neither, and with the same value.
pub open spec fn agrees_on(
    m1: Map<Seq<char>, ValueModel>,
    m2: Map<Seq<char>, ValueModel>,
    k: Seq<char>,
) -> bool {
    &&& m1.contains_key(k) == m2.contains_key(k)
    &&& m1.contains_key(k) ==> m1[k] == m2[k]
}

/// The signals a block reads: the signals named in its input bindings.
pub open spec fn block_inputs(b: BlockModel) -> Set<Seq<char>> {
    match b {
        BlockModel::And(x) => x.inputs.to_set(),
        BlockModel::Or(x) => x.inputs.to_set(),
        BlockModel::Not(x) => set![x.input],
        BlockModel::Eq(x) => set![x.input1, x.input2],
        BlockModel::Gt(x) => set![x.input1, x.input2],
        BlockModel::Lt(x) => set![x.input1, x.input2],
        BlockModel::RTrig(x) => set![x.input],
        BlockModel::FTrig(x) => set![x.input],
        BlockModel::SrLatch(x) => set![x.set_input, x.reset_input],
        BlockModel::Ton(x) => set![x.input],
        BlockModel::Tof(x) => set![x.input],
        BlockModel::Tp(x) => set![x.input],
        BlockModel::Counter(x) => {
            let base = set![x.count_up, x.count_down, x.reset];
            match x.preset_input {
                Some(pv) => base.insert(pv),
                None => base,
            }
        },
        BlockModel::Sequencer(x) => set![x.trigger, x.reset],
        BlockModel::Const(_) => Set::empty(),
    }
}

/// The signals a block writes: the signals named in its output bindings.
pub open spec fn block_outputs(b: BlockModel) -> Set<Seq<char>> {
    match b {
        BlockModel::And(x) => set![x.output],
        BlockModel::Or(x) => set![x.output],
        BlockModel::Not(x) => set![x.output],
        BlockModel::Eq(x) => set![x.output],
        BlockModel::Gt(x) => set![x.output],
        BlockModel::Lt(x) => set![x.output],
        BlockModel::RTrig(x) => set![x.output],
        BlockModel::FTrig(x) => set![x.output],
        BlockModel::SrLatch(x) => set![x.output],
        BlockModel::Ton(x) => match x.elapsed_output {
            Some(et) => set![x.output, et],
            None => set![x.output],
        },
        BlockModel::Tof(x) => match x.elapsed_output {
            Some(et) => set![x.output, et],
            None => set![x.output],
        },
        BlockModel::Tp(x) => match x.elapsed_output {
            Some(et) => set![x.output, et],
            None => set![x.output],
        },
        BlockModel::Counter(x) => match x.done_output {
            Some(q) => set![x.output, q],
            None => set![x.output],
        },
        BlockModel::Sequencer(x) => set![x.index_output],
        BlockModel::Const(x) => set![x.output],
    }
}

/// Law: a block writes only the signals named in its output bindings.
/// Every other signal of the bus is left exactly as it was, present or
/// absent alike, whether the scan of the block succeeds or fails.
#[verifier::rlimit(60)]
pub proof fn lemma_block_writes_only_outputs(
    b: BlockModel,
    m: Map<Seq<char>, ValueModel>,
    now: u64,
)
    ensures
        forall|k: Seq<char>|
            !block_outputs(b).contains(k) ==> agrees_on(block_step(b, m, now).bus, m, k),
{
    let o = block_step(b, m, now);
    match b {
        BlockModel::And(x) => {
            assert(forall|k: Seq<char>|
                !block_outputs(b).contains(k) ==> #[trigger] agrees_on(o.bus, m, k));
        },
        BlockModel::Or(x) => {
            assert(forall|k: Seq<char>|
                !block_outputs(b).contains(k) ==> #[trigger] agrees_on(o.bus, m, k));
        },
        BlockModel::Not(x) => {
            assert(forall|k: Seq<char>|
                !block_outputs(b).contains(k) ==> #[trigger] agrees_on(o.bus, m, k));
        },
        BlockModel::Eq(x) => {
            assert(forall|k: Seq<char>|
                !block_outputs(b).contains(k) ==> #[trigger] agrees_on(o.bus, m, k));
        },
        BlockModel::Gt(x) => {
            assert(forall|k: Seq<char>|
                !block_outputs(b).contains(k) ==> #[trigger] agrees_on(o.bus, m, k));
        },
        BlockModel::Lt(x) => {
            assert(forall|k: Seq<char>|
                !block_outputs(b).contains(k) ==> #[trigger] agrees_on(o.bus, m, k));
        },
        BlockModel::RTrig(x) => {
            assert(forall|k: Seq<char>|
                !block_outputs(b).contains(k) ==> #[trigger] agrees_on(o.bus, m, k));
        },
        BlockModel::FTrig(x) => {
            assert(forall|k: Seq<char>|
                !block_outputs(b).contains(k) ==> #[trigger] agrees_on(o.bus, m, k));
        },
        BlockModel::SrLatch(x) => {
            assert(forall|k: Seq<char>|
                !block_outputs(b).contains(k) ==> #[trigger] agrees_on(o.bus, m, k));
        },
        BlockModel::Ton(x) => {
            assert(forall|k: Seq<char>|
                !block_outputs(b).contains(k) ==> #[trigger] agrees_on(o.bus, m, k));
        },
        BlockModel::Tof(x) => {
            assert(forall|k: Seq<char>|
                !block_outputs(b).contains(k) ==> #[trigger] agrees_on(o.bus, m, k));
        },
        BlockModel::Tp(x) => {
            assert(forall|k: Seq<char>|
                !block_outputs(b).contains(k) ==> #[trigger] agrees_on(o.bus, m, k));
        },
        BlockModel::Counter(x) => {
            assert(forall|k: Seq<char>|
                !block_outputs(b).contains(k) ==> #[trigger] agrees_on(o.bus, m, k));
        },
        BlockModel::Sequencer(x) => {
            assert(forall|k: Seq<char>|
                !block_outputs(b).contains(k) ==> #[trigger] agrees_on(o.bus, m, k));
        },
        BlockModel::Const(x) => {
            assert(forall|k: Seq<char>|
                !block_outputs(b).contains(k) ==> #[trigger] agrees_on(o.bus, m, k));
        },
    }
}

/// The reads of a conjunction depend only on the named signals.
proof fn lemma_and_eval_agrees(
    m1: Map<Seq<char>, ValueModel>,
    m2: Map<Seq<char>, ValueModel>,
    sigs: Seq<Seq<char>>,
)
    requires
        forall|j: int| 0 <= j < sigs.len() ==> agrees_on(m1, m2, #[trigger] sigs[j]),
    ensures
        and_eval(m1, sigs) == and_eval(m2, sigs),
    decreases sigs.len(),
{
    if sigs.len() > 0 {
        assert(agrees_on(m1, m2, sigs[0]));
        assert(forall|j: int|
            0 <= j < sigs.skip(1).len() ==> agrees_on(m1, m2, #[trigger] sigs.skip(1)[j]));
        lemma_and_eval_agrees(m1, m2, sigs.skip(1));
    }
}

/// The reads of a disjunction depend only on the named signals.
proof fn lemma_or_eval_agrees(
    m1: Map<Seq<char>, ValueModel>,
    m2: Map<Seq<char>, ValueModel>,
    sigs: Seq<Seq<char>>,
)
    requires
        forall|j: int| 0 <= j < sigs.len() ==> agrees_on(m1, m2, #[trigger] sigs[j]),
    ensures
        or_eval(m1, sigs) == or_eval(m2, sigs),
    decreases sigs.len(),
{
    if sigs.len() > 0 {
        assert(agrees_on(m1, m2, sigs[0]));
        assert(forall|j: int|
            0 <= j < sigs.skip(1).len() ==> agrees_on(m1, m2, #[trigger] sigs.skip(1)[j]));
        lemma_or_eval_agrees(m1, m2, sigs.skip(1));
    }
}

/// Law: a block reads only the signals named in its input bindings. Two
/// buses that agree on those signals give the same next state, the same
/// outcome, and the same written output values; when the block fails, both
/// buses are left untouched.
pub proof fn lemma_block_reads_only_inputs(
    b: BlockModel,
    m1: Map<Seq<char>, ValueModel>,
    m2: Map<Seq<char>, ValueModel>,
    now: u64,
)
    requires
        forall|k: Seq<char>| block_inputs(b).contains(k) ==> #[trigger] agrees_on(m1, m2, k),
    ensures
        ({
            let o1 = block_step(b, m1, now);
            let o2 = block_step(b, m2, now);
            &&& o1.state == o2.state
            &&& o1.err == o2.err
            &&& o1.err is Some ==> o1.bus == m1 && o2.bus == m2
            &&& o1.err is None ==> forall|k: Seq<char>|
                block_outputs(b).contains(k) ==> o1.bus.contains_key(k) && o2.bus.contains_key(k)
                    && o1.bus[k] == o2.bus[k]
        }),
{
    match b {
        BlockModel::And(x) => {
            assert(forall|j: int|
                0 <= j < x.inputs.len() ==> block_inputs(b).contains(#[trigger] x.inputs[j]));
            lemma_and_eval_agrees(m1, m2, x.inputs);
        },
        BlockModel::Or(x) => {
            assert(forall|j: int|
                0 <= j < x.inputs.len() ==> block_inputs(b).contains(#[trigger] x.inputs[j]));
            lemma_or_eval_agrees(m1, m2, x.inputs);
        },
        BlockModel::Not(x) => {
            assert(agrees_on(m1, m2, x.input));
        },
        BlockModel::Eq(x) => {
            assert(agrees_on(m1, m2, x.input1));
            assert(agrees_on(m1, m2, x.input2));
        },
        BlockModel::Gt(x) => {
            assert(agrees_on(m1, m2, x.input1));
            assert(agrees_on(m1, m2, x.input2));
        },
        BlockModel::Lt(x) => {
            assert(agrees_on(m1, m2, x.input1));
            assert(agrees_on(m1, m2, x.input2));
        },
        BlockModel::RTrig(x) => {
            assert(agrees_on(m1, m2, x.input));
        },
        BlockModel::FTrig(x) => {
            assert(agrees_on(m1, m2, x.input));
        },
        BlockModel::SrLatch(x) => {
            assert(agrees_on(m1, m2, x.set_input));
            assert(agrees_on(m1, m2, x.reset_input));
        },
        BlockModel::Ton(x) => {
            assert(agrees_on(m1, m2, x.input));
        },
        BlockModel::Tof(x) => {
            assert(agrees_on(m1, m2, x.input));
        },
        BlockModel::Tp(x) => {
            assert(agrees_on(m1, m2, x.input));
        },
        BlockModel::Counter(x) => {
            assert(agrees_on(m1, m2, x.count_up));
            assert(agrees_on(m1, m2, x.count_down));
            assert(agrees_on(m1, m2, x.reset));
            match x.preset_input {
                Some(pv) => {
                    assert(agrees_on(m1, m2, pv));
                },
                None => {},
            }
        },
        BlockModel::Sequencer(x) => {
            assert(agrees_on(m1, m2, x.trigger));
            assert(agrees_on(m1, m2, x.reset));
        },
        BlockModel::Const(_) => {},
    }
}

/// Whether the bus holds, for every output binding of the block, a value
/// of the ground type that port drives: boolean for gate, comparison,
/// trigger, latch and timer-done outputs, integer for counts, indices and
/// elapsed times, and the literal's own type for a constant block.
pub open spec fn outputs_typed(b: BlockModel, m: Map<Seq<char>, ValueModel>) -> bool {
    match b {
        BlockModel::And(x) => m.contains_key(x.output) && m[x.output] is Bool,
        BlockModel::Or(x) => m.contains_key(x.output) && m[x.output] is Bool,
        BlockModel::Not(x) => m.contains_key(x.output) && m[x.output] is Bool,
        BlockModel::Eq(x) => m.contains_key(x.output) && m[x.output] is Bool,
        BlockModel::Gt(x) => m.contains_key(x.output) && m[x.output] is Bool,
        BlockModel::Lt(x) => m.contains_key(x.output) && m[x.output] is Bool,
        BlockModel::RTrig(x) => m.contains_key(x.output) && m[x.output] is Bool,
        BlockModel::FTrig(x) => m.contains_key(x.output) && m[x.output] is Bool,
        BlockModel::SrLatch(x) => m.contains_key(x.output) && m[x.output] is Bool,
        BlockModel::Ton(x) => m.contains_key(x.output) && m[x.output] is Bool && (
        x.elapsed_output matches Some(et) ==> m.contains_key(et) && m[et] is Int),
        BlockModel::Tof(x) => m.contains_key(x.output) && m[x.output] is Bool && (
        x.elapsed_output matches Some(et) ==> m.contains_key(et) && m[et] is Int),
        BlockModel::Tp(x) => m.contains_key(x.output) && m[x.output] is Bool && (
        x.elapsed_output matches Some(et) ==> m.contains_key(et) && m[et] is Int),
        BlockModel::Counter(x) => m.contains_key(x.output) && m[x.output] is Int && (
        x.done_output matches Some(q) ==> m.contains_key(q) && m[q] is Bool),
        BlockModel::Sequencer(x) => m.contains_key(x.index_output) && m[x.index_output] is Int,
        BlockModel::Const(x) => m.contains_key(x.output) && spec_type_label(m[x.output])
            == spec_type_label(x.value),
    }
}

/// Whether the block's own output ports bind pairwise distinct signals
/// (an elapsed-time or done output must not alias the main output).
pub open spec fn block_outputs_separated(b: BlockModel) -> bool {
    match b {
        BlockModel::Ton(x) => x.elapsed_output matches Some(et) ==> et != x.output,
        BlockModel::Tof(x) => x.elapsed_output matches Some(et) ==> et != x.output,
        BlockModel::Tp(x) => x.elapsed_output matches Some(et) ==> et != x.output,
        BlockModel::Counter(x) => x.done_output matches Some(q) ==> q != x.output,
        _ => true,
    }
}

/// Whether two block states are the same block in possibly different
/// internal states: same variant, same name, same bindings and parameters.
pub open spec fn same_io(a: BlockModel, b: BlockModel) -> bool {
    match (a, b) {
        (BlockModel::And(x), BlockModel::And(y)) => x == y,
        (BlockModel::Or(x), BlockModel::Or(y)) => x == y,
        (BlockModel::Not(x), BlockModel::Not(y)) => x == y,
        (BlockModel::Eq(x), BlockModel::Eq(y)) => x == y,
        (BlockModel::Gt(x), BlockModel::Gt(y)) => x == y,
        (BlockModel::Lt(x), BlockModel::Lt(y)) => x == y,
        (BlockModel::RTrig(x), BlockModel::RTrig(y)) => x.name == y.name && x.input == y.input
            && x.output == y.output,
        (BlockModel::FTrig(x), BlockModel::FTrig(y)) => x.name == y.name && x.input == y.input
            && x.output == y.output,
        (BlockModel::SrLatch(x), BlockModel::SrLatch(y)) => x.name == y.name && x.set_input
            == y.set_input && x.reset_input == y.reset_input && x.output == y.output,
        (BlockModel::Ton(x), BlockModel::Ton(y)) => x.name == y.name && x.input == y.input
            && x.output == y.output && x.elapsed_output == y.elapsed_output && x.preset_ms
            == y.preset_ms,
        (BlockModel::Tof(x), BlockModel::Tof(y)) => x.name == y.name && x.input == y.input
            && x.output == y.output && x.elapsed_output == y.elapsed_output && x.preset_ms
            == y.preset_ms,
        (BlockModel::Tp(x), BlockModel::Tp(y)) => x.name == y.name && x.input == y.input
            && x.output == y.output && x.elapsed_output == y.elapsed_output && x.preset_ms
            == y.preset_ms,
        (BlockModel::Counter(x), BlockModel::Counter(y)) => x.name == y.name && x.count_up
            == y.count_up && x.count_down == y.count_down && x.reset == y.reset && x.preset_input
            == y.preset_input && x.output == y.output && x.done_output == y.done_output,
        (BlockModel::Sequencer(x), BlockModel::Sequencer(y)) => x.name == y.name && x.trigger
            == y.trigger && x.reset == y.reset && x.index_output == y.index_output && x.max
            == y.max,
        (BlockModel::Const(x), BlockModel::Const(y)) => x == y,
        _ => false,
    }
}

/// A scan step leaves the block the same block: only internal state moves.
proof fn lemma_step_same_io(b: BlockModel, m: Map<Seq<char>, ValueModel>, now: u64)
    ensures
        same_io(block_step(b, m, now).state, b),
{
}

/// Two states of the same block name the same signals and are typed alike.
proof fn lemma_same_io_transfer(a: BlockModel, b: BlockModel, m: Map<Seq<char>, ValueModel>)
    requires
        same_io(a, b),
    ensures
        block_outputs(a) == block_outputs(b),
        block_inputs(a) == block_inputs(b),
        block_outputs_separated(a) == block_outputs_separated(b),
        outputs_typed(a, m) == outputs_typed(b, m),
{
    assert(block_outputs(a) =~= block_outputs(b));
    assert(block_inputs(a) =~= block_inputs(b));
}

/// A block's typed outputs survive any bus change that leaves its output
/// signals alone.
proof fn lemma_outputs_typed_stable(
    b: BlockModel,
    m1: Map<Seq<char>, ValueModel>,
    m2: Map<Seq<char>, ValueModel>,
)
    requires
        outputs_typed(b, m1),
        forall|k: Seq<char>| block_outputs(b).contains(k) ==> #[trigger] agrees_on(m2, m1, k),
    ensures
        outputs_typed(b, m2),
{
    match b {
        BlockModel::And(x) => {
            assert(agrees_on(m2, m1, x.output));
        },
        BlockModel::Or(x) => {
            assert(agrees_on(m2, m1, x.output));
        },
        BlockModel::Not(x) => {
            assert(agrees_on(m2, m1, x.output));
        },
        BlockModel::Eq(x) => {
            assert(agrees_on(m2, m1, x.output));
        },
        BlockModel::Gt(x) => {
            assert(agrees_on(m2, m1, x.output));
        },
        BlockModel::Lt(x) => {
            assert(agrees_on(m2, m1, x.output));
        },
        BlockModel::RTrig(x) => {
            assert(agrees_on(m2, m1, x.output));
        },
        BlockModel::FTrig(x) => {
            assert(agrees_on(m2, m1, x.output));
        },
        BlockModel::SrLatch(x) => {
            assert(agrees_on(m2, m1, x.output));
        },
        BlockModel::Ton(x) => {
            assert(agrees_on(m2, m1, x.output));
            match x.elapsed_output {
                Some(et) => {
                    assert(agrees_on(m2, m1, et));
                },
                None => {},
            }
        },
        BlockModel::Tof(x) => {
            assert(agrees_on(m2, m1, x.output));
            match x.elapsed_output {
                Some(et) => {
                    assert(agrees_on(m2, m1, et));
                },
                None => {},
            }
        },
        BlockModel::Tp(x) => {
            assert(agrees_on(m2, m1, x.output));
            match x.elapsed_output {
                Some(et) => {
                    assert(agrees_on(m2, m1, et));
                },
                None => {},
            }
        },
        BlockModel::Counter(x) => {
            assert(agrees_on(m2, m1, x.output));
            match x.done_output {
                Some(q) => {
                    assert(agrees_on(m2, m1, q));
                },
                None => {},
            }
        },
        BlockModel::Sequencer(x) => {
            assert(agrees_on(m2, m1, x.index_output));
        },
        BlockModel::Const(x) => {
            assert(agrees_on(m2, m1, x.output));
        },
    }
}

/// A successful scan of one block leaves its own outputs typed.
proof fn lemma_block_step_outputs_typed(b: BlockModel, m: Map<Seq<char>, ValueModel>, now: u64)
    requires
        block_outputs_separated(b),
    ensures
        block_step(b, m, now).err is None ==> outputs_typed(b, block_step(b, m, now).bus),
{
}

/// Law: after a scan that succeeds, every output signal referenced by any
/// block holds a value of the ground type its port drives — provided no
/// two blocks (and no two ports of one block) drive the same signal.
pub proof fn lemma_scan_outputs_typed(
    blocks: Seq<BlockModel>,
    m: Map<Seq<char>, ValueModel>,
    now: u64,
)
    requires
        forall|i: int| 0 <= i < blocks.len() ==> block_outputs_separated(#[trigger] blocks[i]),
        forall|i: int, j: int|
            0 <= i < blocks.len() && 0 <= j < blocks.len() && i != j ==> block_outputs(
                #[trigger] blocks[i],
            ).disjoint(block_outputs(#[trigger] blocks[j])),
    ensures
        crate::engine::spec_scan(blocks, m, now).err is None ==> forall|i: int|
            0 <= i < blocks.len() ==> outputs_typed(
                #[trigger] blocks[i],
                crate::engine::spec_scan(blocks, m, now).bus,
            ),
{
    lemma_scan_prefix_outputs_typed(blocks, m, now, blocks.len() as int);
}

/// The inductive core of `lemma_scan_outputs_typed`, over scan prefixes.
proof fn lemma_scan_prefix_outputs_typed(
    blocks: Seq<BlockModel>,
    m: Map<Seq<char>, ValueModel>,
    now: u64,
    n: int,
)
    requires
        0 <= n <= blocks.len(),
        forall|i: int| 0 <= i < blocks.len() ==> block_outputs_separated(#[trigger] blocks[i]),
        forall|i: int, j: int|
            0 <= i < blocks.len() && 0 <= j < blocks.len() && i != j ==> block_outputs(
                #[trigger] blocks[i],
            ).disjoint(block_outputs(#[trigger] blocks[j])),
    ensures
        ({
            let p = crate::engine::scan_prefix(blocks, m, now, n);
            &&& p.blocks.len() == blocks.len()
            &&& forall|i: int| 0 <= i < blocks.len() ==> same_io(#[trigger] p.blocks[i], blocks[i])
            &&& p.err is None ==> forall|i: int|
                0 <= i < n ==> outputs_typed(#[trigger] blocks[i], p.bus)
        }),
    decreases n,
{
    if n > 0 {
        lemma_scan_prefix_outputs_typed(blocks, m, now, n - 1);
        let p = crate::engine::scan_prefix(blocks, m, now, n - 1);
        let p2 = crate::engine::scan_prefix(blocks, m, now, n);
        if p.err is None {
            let o = block_step(p.blocks[n - 1], p.bus, now);
            lemma_step_same_io(p.blocks[n - 1], p.bus, now);
            lemma_same_io_transfer(p.blocks[n - 1], blocks[n - 1], p.bus);
            assert(forall|i: int|
                0 <= i < blocks.len() ==> same_io(#[trigger] p2.blocks[i], blocks[i]));
            if o.err is None {
                // the block just scanned leaves its outputs typed
                lemma_block_step_outputs_typed(p.blocks[n - 1], p.bus, now);
                lemma_same_io_transfer(p.blocks[n - 1], blocks[n - 1], o.bus);
                assert(outputs_typed(blocks[n - 1], p2.bus));
                // the earlier blocks' outputs are untouched: their output
                // signals are disjoint from the scanned block's
                lemma_block_writes_only_outputs(p.blocks[n - 1], p.bus, now);
                assert forall|i: int| 0 <= i < n - 1 implies outputs_typed(
                    #[trigger] blocks[i],
                    p2.bus,
                ) by {
                    assert(outputs_typed(blocks[i], p.bus));
                    assert(block_outputs(blocks[i]).disjoint(block_outputs(blocks[n - 1])));
                    assert(forall|k: Seq<char>|
                        block_outputs(blocks[i]).contains(k) ==> !block_outputs(
                            blocks[n - 1],
                        ).contains(k)) by {
                        assert(forall|k: Seq<char>|
                            block_outputs(blocks[i]).contains(k) ==> !(block_outputs(
                                blocks[i],
                            ).intersect(block_outputs(blocks[n - 1]))).contains(k));
                    }
                    assert(forall|k: Seq<char>|
                        block_outputs(blocks[i]).contains(k) ==> #[trigger] agrees_on(
                            p2.bus,
                            p.bus,
                            k,
                        ));
                    lemma_outputs_typed_stable(blocks[i], p.bus, p2.bus);
                }
            }
        }
    }
}

/// Law: the coercions compose as expected. A boolean pushed through the
/// integer coercion and read back as a boolean is itself, and an integer
/// read as a boolean remembers exactly whether it was non-zero.
pub proof fn lemma_coercions_compose(b: bool, i: i32)
    ensures
        spec_as_int(ValueModel::Bool(b)) == Some(
            if b {
                1i32
            } else {
                0i32
            },
        ),
        spec_as_bool(ValueModel::Int(i)) == Some(i != 0),
        spec_as_bool(ValueModel::Int(spec_as_int(ValueModel::Bool(b))->0)) == Some(b),
        spec_as_int(ValueModel::Bool(spec_as_bool(ValueModel::Int(i))->0)) == Some(
            if i != 0 {
                1i32
            } else {
                0i32
            },
        ),
{
}

} // verus!
