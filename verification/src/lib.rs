//! Animation keyframe curves: keyframe containers with sorted frame storage,
//! binary-search bracketing of a target frame, and the mode descriptors for
//! progress remapping (easing, stepping, cubic Bézier timing).
//!
//! The containers and the bracket search are verified; the floating-point
//! interpolation formulas that consume the bracketed indices live with the
//! callers of this crate.

pub mod curves;
pub mod easing;
pub mod frame;
pub mod steps;

pub use curves::curve_frame_index;
pub use curves::get_pre_next_frame_index;
pub use curves::EFrameCurveType;
pub use curves::FrameCurve;
pub use easing::EEasingMode;
pub use frame::CurveFrameValue;
pub use frame::ErrorCurve;
pub use frame::FrameIndex;
pub use frame::FramePerSecond;
pub use frame::KeyFrameDataType;
pub use frame::KeyFrameDataTypeAllocator;
pub use steps::EStepMode;

use vstd::prelude::*;

verus! {

/// Parameters for a progress remap: the step count for a stepping remap
/// (slot 0), or the four cubic Bézier control coordinates `(x1, y1, x2, y2)`.
/// The scalar type is chosen by the caller; the remap modes that need no
/// parameters ignore the contents.
pub struct AmountParam<S>(pub S, pub S, pub S, pub S);

/// The progress-remap mode: raw progress is passed through unchanged, shaped
/// by an easing function, quantized into steps, or driven through a cubic
/// Bézier timing curve.
#[derive(Debug, Clone, Copy, PartialEq, Eq, Structural)]
pub enum EAmountMode {
    Identity,
    Easing(EEasingMode),
    Steps(EStepMode),
    CubicBezier,
}

impl EAmountMode {
    /// The remap mode a stepping calculator is built with: a step count below
    /// one silently degrades to the identity remap instead of setting up a
    /// division by zero.
    pub fn for_steps(step: FrameIndex, mode: EStepMode) -> (r: EAmountMode)
        ensures
            step < 1 ==> r == EAmountMode::Identity,
            step >= 1 ==> r == EAmountMode::Steps(mode),
    {
        if step < 1 {
            EAmountMode::Identity
        } else {
            EAmountMode::Steps(mode)
        }
    }
}

} // verus!
