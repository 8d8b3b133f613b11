//! The common shape of a block's per-scan step.

use crate::error::{ErrorModel, PlcError};
use crate::value::ValueModel;
use vstd::prelude::*;

verus! {

/// What one execution of a block does: the state it leaves, the bus
/// contents it leaves, and the error it fails with, if any.
pub struct StepOutcome<S> {
    pub state: S,
    pub bus: Map<Seq<char>, ValueModel>,
    pub err: Option<ErrorModel>,
}

/// Whether an execution that left state `state`, bus `bus` and returned `r`
/// is the one the step function `o` describes.
pub open spec fn step_matches<S>(
    o: StepOutcome<S>,
    state: S,
    bus: Map<Seq<char>, ValueModel>,
    r: Result<(), PlcError>,
) -> bool {
    &&& o.state == state
    &&& o.bus == bus
    &&& match r {
        Ok(_) => o.err is None,
        Err(e) => o.err == Some(e@),
    }
}

} // verus!
