//! The scan engine: owns the configuration, the signal bus and the ordered
//! block list, and drives one scan at a time.
//!
//! The periodic loop itself (the interval timer, the stop flag, the
//! logging) is host plumbing around this type: each tick it reads the
//! clock, calls one scan, and checks for overruns.

use crate::blocks::factory::{block_step, block_wf, Block, BlockModel};
use crate::bus::SignalBus;
use crate::config::{spec_initial_value, PlcConfig, PlcConfigModel, SignalConfigModel};
use crate::error::{ErrorModel, PlcError};
use crate::value::{SignalValue, ValueModel};
use std::time::Instant;
use vstd::prelude::*;

verus! {

#[verifier::external_type_specification]
#[verifier::external_body]
pub struct ExInstant(Instant);

/// Relies on `std::time::Instant::now`: a reference reading of the
/// monotonic clock. What it returns depends on the moment of the call, so
/// nothing is promised of it.
#[verifier::external_body]
fn monotonic_epoch() -> Instant {
    Instant::now()
}

/// Relies on `std::time::Instant::elapsed`: the milliseconds the monotonic
/// clock has advanced since the epoch was taken. What it returns depends on
/// the moment of the call, so nothing is promised of it.
#[verifier::external_body]
fn elapsed_millis(epoch: &Instant) -> u64 {
    #[verifier::truncate] (epoch.elapsed().as_millis() as u64)
}

/// The mathematical shape of an engine: its configuration, the bus
/// contents, the block states in execution order, and the scan counter.
pub struct EngineModel {
    pub config: PlcConfigModel,
    pub bus: Map<Seq<char>, ValueModel>,
    pub blocks: Seq<BlockModel>,
    pub scan_count: u64,
}

/// A reachable engine: every block state is well-formed.
pub open spec fn engine_wf(e: EngineModel) -> bool {
    forall|i: int| 0 <= i < e.blocks.len() ==> block_wf(#[trigger] e.blocks[i])
}

/// What executing the first `n` blocks in order does: each block steps on
/// the bus the previous ones left; the first error stops the pass and
/// leaves the remaining blocks untouched.
pub struct ScanOutcome {
    pub blocks: Seq<BlockModel>,
    pub bus: Map<Seq<char>, ValueModel>,
    pub err: Option<ErrorModel>,
}

/// The outcome of executing the first `n` blocks at clock reading `now`.
pub open spec fn scan_prefix(
    blocks: Seq<BlockModel>,
    m: Map<Seq<char>, ValueModel>,
    now: u64,
    n: int,
) -> ScanOutcome
    decreases n,
{
    if n <= 0 {
        ScanOutcome { blocks, bus: m, err: None }
    } else {
        let prev = scan_prefix(blocks, m, now, n - 1);
        if prev.err is Some {
            prev
        } else {
            let o = block_step(prev.blocks[n - 1], prev.bus, now);
            ScanOutcome { blocks: prev.blocks.update(n - 1, o.state), bus: o.bus, err: o.err }
        }
    }
}

/// The outcome of one whole scan at clock reading `now`.
pub open spec fn spec_scan(
    blocks: Seq<BlockModel>,
    m: Map<Seq<char>, ValueModel>,
    now: u64,
) -> ScanOutcome {
    scan_prefix(blocks, m, now, blocks.len() as int)
}

/// The bus contents after initializing the first `n` declared signals, or
/// the first error.
pub open spec fn init_signals(signals: Seq<SignalConfigModel>, n: int) -> Result<
    Map<Seq<char>, ValueModel>,
    ErrorModel,
>
    decreases n,
{
    if n <= 0 {
        Ok(Map::empty())
    } else {
        match init_signals(signals, n - 1) {
            Err(e) => Err(e),
            Ok(m) => match spec_initial_value(signals[n - 1]) {
                Ok(v) => Ok(m.insert(signals[n - 1].name, v)),
                Err(e) => Err(e),
            },
        }
    }
}

/// The block list after constructing the first `n` declared blocks, or the
/// first error.
pub open spec fn build_blocks(blocks: Seq<crate::config::BlockConfigModel>, n: int) -> Result<
    Seq<BlockModel>,
    ErrorModel,
>
    decreases n,
{
    if n <= 0 {
        Ok(Seq::empty())
    } else {
        match build_blocks(blocks, n - 1) {
            Err(e) => Err(e),
            Ok(bs) => match crate::blocks::factory::spec_create_block(blocks[n - 1]) {
                Ok(b) => Ok(bs.push(b)),
                Err(e) => Err(e),
            },
        }
    }
}

/// What engine construction yields from a configuration: the initial bus
/// and block list, or the first configuration error.
pub open spec fn spec_engine_init(c: PlcConfigModel) -> Result<
    (Map<Seq<char>, ValueModel>, Seq<BlockModel>),
    ErrorModel,
> {
    match init_signals(c.signals, c.signals.len() as int) {
        Err(e) => Err(e),
        Ok(m) => match build_blocks(c.blocks, c.blocks.len() as int) {
            Err(e) => Err(e),
            Ok(bs) => Ok((m, bs)),
        },
    }
}

/// The scan engine: the constructed program and its live state.
pub struct ScanEngine {
    config: PlcConfig,
    signal_bus: SignalBus,
    blocks: Vec<Block>,
    scan_count: u64,
    epoch: Instant,
}

impl View for ScanEngine {
    type V = EngineModel;

    closed spec fn view(&self) -> EngineModel {
        EngineModel {
            config: self.config@,
            bus: self.signal_bus@,
            blocks: self.blocks@.map_values(|b: Block| b@),
            scan_count: self.scan_count,
        }
    }
}

/// Whether one scan that was given the clock reading `now` relates the
/// engine states and result as `spec_scan` describes.
pub open spec fn scan_result_matches(
    pre: EngineModel,
    post: EngineModel,
    now: u64,
    r: Result<(), PlcError>,
) -> bool {
    let o = spec_scan(pre.blocks, pre.bus, now);
    &&& post.blocks == o.blocks
    &&& post.bus == o.bus
    &&& post.config == pre.config
    &&& post.scan_count == pre.scan_count
    &&& match r {
        Ok(_) => o.err is None,
        Err(e) => o.err == Some(e@),
    }
}

impl ScanEngine {
    /// Builds an engine from a configuration: every declared signal is set
    /// to its initial value, then every block is constructed in declared
    /// order. The first failure aborts construction.
    pub fn new(config: PlcConfig) -> (r: Result<ScanEngine, PlcError>)
        ensures
            match spec_engine_init(config@) {
                Ok(init) => r matches Ok(e) && e@ == (EngineModel {
                    config: config@,
                    bus: init.0,
                    blocks: init.1,
                    scan_count: 0,
                }) && engine_wf(e@),
                Err(err) => r matches Err(e2) && e2@ == err,
            },
    {
        let ghost c = config@;
        let mut signal_bus = SignalBus::new();
        proof {
            assert(signal_bus@ =~= Map::<Seq<char>, ValueModel>::empty());
        }
        let n = config.signals.len();
        let mut i: usize = 0;
        while i < n
            invariant
                n == config.signals.len(),
                c == config@,
                i <= n,
                init_signals(c.signals, i as int) == Ok::<Map<Seq<char>, ValueModel>, ErrorModel>(
                    signal_bus@,
                ),
            decreases n - i,
        {
            let sc = &config.signals[i];
            proof {
                assert(sc@ == c.signals[i as int]);
            }
            let value = match sc.to_signal_value() {
                Ok(v) => v,
                Err(e) => {
                    proof {
                        assert(init_signals(c.signals, i as int + 1) == Err::<
                            Map<Seq<char>, ValueModel>,
                            ErrorModel,
                        >(e@));
                        lemma_init_signals_error_stable(
                            c.signals,
                            i as int + 1,
                            c.signals.len() as int,
                        );
                    }
                    return Err(e);
                },
            };
            let res = signal_bus.set(sc.name.as_str(), value);
            match res {
                Ok(_) => {},
                Err(e) => {
                    return Err(e);
                },
            }
            i = i + 1;
        }
        let nb = config.blocks.len();
        let mut blocks: Vec<Block> = Vec::new();
        proof {
            assert(blocks@.map_values(|b: Block| b@) =~= Seq::<BlockModel>::empty());
        }
        let mut j: usize = 0;
        while j < nb
            invariant
                nb == config.blocks.len(),
                c == config@,
                j <= nb,
                init_signals(c.signals, c.signals.len() as int) == Ok::<
                    Map<Seq<char>, ValueModel>,
                    ErrorModel,
                >(signal_bus@),
                build_blocks(c.blocks, j as int) == Ok::<Seq<BlockModel>, ErrorModel>(
                    blocks@.map_values(|b: Block| b@),
                ),
                forall|k: int| 0 <= k < blocks@.len() ==> block_wf(#[trigger] blocks@[k]@),
            decreases nb - j,
        {
            let ghost before = blocks@;
            proof {
                assert(config.blocks[j as int]@ == c.blocks[j as int]);
            }
            let block = match crate::blocks::factory::create_block(&config.blocks[j]) {
                Ok(b) => b,
                Err(e) => {
                    proof {
                        assert(build_blocks(c.blocks, j as int + 1) == Err::<
                            Seq<BlockModel>,
                            ErrorModel,
                        >(e@));
                        lemma_build_blocks_error_stable(
                            c.blocks,
                            j as int + 1,
                            c.blocks.len() as int,
                        );
                    }
                    return Err(e);
                },
            };
            blocks.push(block);
            proof {
                assert(blocks@.map_values(|b: Block| b@) =~= before.map_values(|b: Block| b@).push(
                    blocks@[before.len() as int]@,
                ));
            }
            j = j + 1;
        }
        proof {
            assert(forall|k: int|
                0 <= k < blocks@.len() ==> blocks@.map_values(|b: Block| b@)[k] == #[trigger] blocks@[
                    k
                ]@);
        }
        let engine = ScanEngine {
            config,
            signal_bus,
            blocks,
            scan_count: 0,
            epoch: monotonic_epoch(),
        };
        Ok(engine)
    }

    /// The live signal bus.
    pub fn signal_bus(&self) -> (r: &SignalBus)
        ensures
            r@ == self@.bus,
    {
        &self.signal_bus
    }

    /// Writes a signal on the bus, as an external agent does between scans.
    pub fn set_signal(&mut self, name: &str, value: SignalValue) -> (r: Result<(), PlcError>)
        ensures
            r is Ok,
            final(self)@ == (EngineModel {
                bus: old(self)@.bus.insert(name@, value@),
                ..old(self)@
            }),
    {
        self.signal_bus.set(name, value)
    }

    /// One synchronous pass over all blocks in configured order at the
    /// given clock reading: the first error aborts the scan, leaving the
    /// remaining blocks unexecuted and the bus as the earlier blocks left
    /// it. Driving this entry point with a chosen clock makes a scan fully
    /// deterministic.
    pub fn execute_blocks_at(&mut self, now_ms: u64) -> (r: Result<(), PlcError>)
        requires
            engine_wf(old(self)@),
        ensures
            scan_result_matches(old(self)@, final(self)@, now_ms, r),
            engine_wf(final(self)@),
    {
        let ghost blocks0 = self@.blocks;
        let ghost m0 = self@.bus;
        let n = self.blocks.len();
        let mut i: usize = 0;
        proof {
            assert(self@.blocks =~= scan_prefix(blocks0, m0, now_ms, 0).blocks);
        }
        while i < n
            invariant
                engine_wf(old(self)@),
                blocks0 == old(self)@.blocks,
                m0 == old(self)@.bus,
                n == self.blocks.len(),
                i <= n,
                blocks0.len() == n,
                self.config == old(self).config,
                self.scan_count == old(self).scan_count,
                scan_prefix(blocks0, m0, now_ms, i as int) == (ScanOutcome {
                    blocks: self@.blocks,
                    bus: self@.bus,
                    err: None,
                }),
                forall|k: int| 0 <= k < n ==> block_wf(#[trigger] self@.blocks[k]),
            decreases n - i,
        {
            let ghost pre_blocks = self@.blocks;
            let ghost pre_bus = self@.bus;
            let mut block = self.blocks.remove(i);
            let res = block.execute(&mut self.signal_bus, now_ms);
            self.blocks.insert(i, block);
            proof {
                assert(self.blocks@.map_values(|b: Block| b@) =~= pre_blocks.update(
                    i as int,
                    block@,
                ));
            }
            match res {
                Ok(_) => {},
                Err(e) => {
                    proof {
                        assert(scan_prefix(blocks0, m0, now_ms, i as int + 1).err == Some(e@));
                        lemma_scan_prefix_error_stable(blocks0, m0, now_ms, i as int + 1, n as int);
                        assert(self.blocks@.map_values(|b: Block| b@) == scan_prefix(
                            blocks0,
                            m0,
                            now_ms,
                            n as int,
                        ).blocks);
                    }
                    return Err(e);
                },
            }
            i = i + 1;
        }
        Ok(())
    }

    /// One synchronous pass over all blocks at the current reading of the
    /// engine's own monotonic clock.
    pub fn execute_blocks(&mut self) -> (r: Result<(), PlcError>)
        requires
            engine_wf(old(self)@),
        ensures
            exists|now_ms: u64| scan_result_matches(old(self)@, final(self)@, now_ms, r),
            engine_wf(final(self)@),
    {
        let now_ms = elapsed_millis(&self.epoch);
        let r = self.execute_blocks_at(now_ms);
        proof {
            assert(scan_result_matches(old(self)@, final(self)@, now_ms, r));
        }
        r
    }

    /// The number of completed scans.
    pub fn scan_count(&self) -> (r: u64)
        ensures
            r == self@.scan_count,
    {
        self.scan_count
    }

    /// Records one completed scan of the periodic loop: the counter wraps
    /// at the top of its range.
    pub fn record_scan(&mut self)
        ensures
            final(self)@ == (EngineModel {
                scan_count: if old(self)@.scan_count == u64::MAX {
                    0u64
                } else {
                    (old(self)@.scan_count + 1) as u64
                },
                ..old(self)@
            }),
    {
        self.scan_count = if self.scan_count == u64::MAX {
            0
        } else {
            self.scan_count + 1
        };
    }

    /// The configured scan cadence in milliseconds.
    pub fn scan_time_ms(&self) -> (r: u64)
        ensures
            r == self@.config.scan_time_ms,
    {
        self.config.scan_time_ms
    }

    /// The milliseconds the engine's monotonic clock has advanced since
    /// construction.
    pub fn now_ms(&self) -> u64 {
        elapsed_millis(&self.epoch)
    }

    /// A point-in-time snapshot of every signal on the bus.
    pub fn dump_signals(&self) -> (r: Vec<(String, SignalValue)>)
        ensures
            forall|i: int, j: int|
                0 <= i < j < r@.len() ==> #[trigger] r@[i].0@ != #[trigger] r@[j].0@,
            forall|i: int|
                0 <= i < r@.len() ==> self@.bus.contains_key(#[trigger] r@[i].0@) && r@[i].1@
                    == self@.bus[r@[i].0@],
            forall|k: Seq<char>|
                #[trigger] self@.bus.contains_key(k) ==> exists|i: int|
                    0 <= i < r@.len() && #[trigger] r@[i].0@ == k,
    {
        self.signal_bus.iter()
    }
}

/// Once a signal-initialization prefix has failed, the longer prefixes
/// fail the same way.
proof fn lemma_init_signals_error_stable(signals: Seq<SignalConfigModel>, i: int, n: int)
    requires
        0 <= i <= n,
        init_signals(signals, i) is Err,
    ensures
        init_signals(signals, n) == init_signals(signals, i),
    decreases n - i,
{
    if i < n {
        lemma_init_signals_error_stable(signals, i + 1, n);
    }
}

/// Once a block-construction prefix has failed, the longer prefixes fail
/// the same way.
proof fn lemma_build_blocks_error_stable(blocks: Seq<crate::config::BlockConfigModel>, i: int, n: int)
    requires
        0 <= i <= n,
        build_blocks(blocks, i) is Err,
    ensures
        build_blocks(blocks, n) == build_blocks(blocks, i),
    decreases n - i,
{
    if i < n {
        lemma_build_blocks_error_stable(blocks, i + 1, n);
    }
}

/// Once a scan prefix has failed, the longer prefixes are the same
/// outcome: the scan stopped there.
proof fn lemma_scan_prefix_error_stable(
    blocks: Seq<BlockModel>,
    m: Map<Seq<char>, ValueModel>,
    now: u64,
    i: int,
    n: int,
)
    requires
        0 <= i <= n,
        scan_prefix(blocks, m, now, i).err is Some,
    ensures
        scan_prefix(blocks, m, now, n) == scan_prefix(blocks, m, now, i),
    decreases n - i,
{
    if i < n {
        lemma_scan_prefix_error_stable(blocks, m, now, i + 1, n);
    }
}

/// Law: a scan is deterministic. Two engines holding equal block states
/// and equal bus contents, scanned at the same clock reading, end in equal
/// states with the same outcome: the whole scan is a function of the
/// starting state and the clock.
pub proof fn lemma_scan_deterministic(
    blocks1: Seq<BlockModel>,
    m1: Map<Seq<char>, ValueModel>,
    blocks2: Seq<BlockModel>,
    m2: Map<Seq<char>, ValueModel>,
    now: u64,
)
    requires
        blocks1 == blocks2,
        m1 == m2,
    ensures
        spec_scan(blocks1, m1, now) == spec_scan(blocks2, m2, now),
{
}

} // verus!
