//! A soft-PLC execution core: a deterministic, cyclic engine that emulates the
//! scan-based execution model of an industrial programmable logic controller.
//!
//! A program is a set of typed signals on a shared bus plus an ordered list of
//! function blocks (logic gates, comparisons, edge triggers, latches, timers,
//! counters, sequencers). Each scan executes every block in configured order;
//! each block reads its bound input signals, updates its internal state, and
//! writes its bound output signals.

pub mod binary64;
pub mod blocks;
pub mod bus;
pub mod config;
pub mod engine;
pub mod error;
pub mod laws;
pub mod table;
pub mod value;
