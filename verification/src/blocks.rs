//! The function-block library.
//!
//! Each block variant is a stateful object constructed from a
//! [`crate::config::BlockConfig`]; per scan, its `execute` reads the bound
//! input signals from the bus, updates the internal state, and writes the
//! bound output signals. Every variant's cycle-by-cycle behaviour is pinned
//! by a mathematical step function that its `execute` is proved to follow.

pub mod comparison;
pub mod const_block;
pub mod counters;
pub mod factory;
pub mod logic;
pub mod step;
pub mod timers;
pub mod triggers;

pub use crate::config::BlockConfig;
pub use factory::create_block;
pub use factory::Block;
