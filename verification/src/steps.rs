//! Step modes: the four piecewise-constant progress quantizations.

use vstd::prelude::*;

verus! {

/// How a stepping remap places its plateaus: jumping at the start of each
/// step, at its end, at neither boundary, or at both.
#[derive(Debug, Clone, Copy, PartialEq, Eq, Structural)]
pub enum EStepMode {
    JumpStart,
    JumpEnd,
    JumpNone,
    JumpBoth,
}

} // verus!
