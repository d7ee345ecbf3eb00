//! Easing modes: the catalogue of closed-form progress-remap curves.

use vstd::prelude::*;

verus! {

/// The easing families (https://easings.net/#), each with In, Out and InOut
/// variants; `Linear` is the identity remap.
#[derive(Debug, Clone, Copy, PartialEq, Eq, Structural)]
pub enum EEasingMode {
    Linear,
    BackIn,
    BackOut,
    BackInOut,
    CircleIn,
    CircleOut,
    CircleInOut,
    CubicIn,
    CubicOut,
    CubicInOut,
    SineIn,
    SineOut,
    SineInOut,
    QuadIn,
    QuadOut,
    QuadInOut,
    QuartIn,
    QuartOut,
    QuartInOut,
    QuintIn,
    QuintOut,
    QuintInOut,
    ExpoIn,
    ExpoOut,
    ExpoInOut,
    ElasticIn,
    ElasticOut,
    ElasticInOut,
    BounceIn,
    BounceOut,
    BounceInOut,
}

} // verus!
