//! The keyframe curve container and its bracket search.
//!
//! A curve stores its keyframes as a frame-index sequence sorted ascending,
//! with one parallel value array per curve kind. Evaluation brackets a target
//! frame between two stored indices by binary search; the clamping policy at
//! the ends (before the first keyframe, past the last) is part of the
//! contract, since it decides what out-of-range time values produce.

use crate::easing::EEasingMode;
use crate::frame::{CurveFrameValue, FrameIndex, FramePerSecond};
use vstd::prelude::*;

verus! {

/// The curve kinds: how the stored keyframe data is turned into a value.
#[derive(Debug, Clone, Copy, PartialEq, Eq, Structural)]
pub enum EFrameCurveType {
    /// Linear interpolation between plain keyframe values.
    FrameValues,
    /// Nearest-keyframe selection between plain keyframe values.
    FrameValuesStep,
    /// Base value plus scaled easing of the global time fraction.
    EasingCurve,
    /// Base value plus scaled Hermite blend of scalar samples.
    MinMaxCurve,
    /// Base value plus scaled cubic Bézier timing of the global fraction.
    CubicBezierCurve,
    /// Hermite blend of keyframe values with stored in/out tangents.
    GLTFCubicSpline,
}

/// The frame indices are in ascending order.
pub open spec fn sorted_frames(s: Seq<FrameIndex>) -> bool {
    forall|i: int, j: int| 0 <= i <= j < s.len() ==> s[i] <= s[j]
}

/// The frame indices are in strictly ascending order: sorted and unique.
pub open spec fn strictly_sorted_frames(s: Seq<FrameIndex>) -> bool {
    forall|i: int, j: int| 0 <= i < j < s.len() ==> s[i] < s[j]
}

/// The position where `target` sits in the sorted sequence: every earlier
/// index holds a smaller frame, every index from the result on holds one at
/// least as large.
fn lower_bound(frames: &Vec<FrameIndex>, target: FrameIndex) -> (r: usize)
    requires
        sorted_frames(frames@),
    ensures
        r <= frames@.len(),
        forall|j: int| 0 <= j < r ==> frames@[j] < target,
        forall|j: int| r <= j < frames@.len() ==> target <= frames@[j],
{
    let mut lo: usize = 0;
    let mut hi: usize = frames.len();
    while lo < hi
        invariant
            lo <= hi <= frames@.len(),
            sorted_frames(frames@),
            forall|j: int| 0 <= j < lo ==> frames@[j] < target,
            forall|j: int| hi <= j < frames@.len() ==> target <= frames@[j],
        decreases hi - lo,
    {
        let mid = lo + (hi - lo) / 2;
        if frames[mid] < target {
            lo = mid + 1;
        } else {
            hi = mid;
        }
    }
    lo
}

/// Brackets a target frame between the two neighbouring stored indices.
///
/// An exact hit or a target at or before the first keyframe clamps to the
/// start; a target past the last keyframe clamps to a zero-width bracket on
/// the last keyframe; anything else returns the two indices surrounding the
/// target.
pub fn get_pre_next_frame_index(frames: &Vec<FrameIndex>, target_frame: FrameIndex) -> (r: (
    usize,
    usize,
))
    requires
        sorted_frames(frames@),
    ensures
        r.0 <= r.1,
        frames@.len() > 0 ==> r.1 < frames@.len(),
        frames@.len() == 0 ==> r == (0usize, 0usize),
        frames@.len() > 0 && target_frame <= frames@[0] ==> r == (0usize, 0usize),
        frames@.len() > 0 && frames@[frames@.len() - 1] < target_frame ==> (
            r.0 == frames@.len() - 1
            && r.1 == frames@.len() - 1
        ),
        frames@.len() > 0 && frames@[0] < target_frame && target_frame <= frames@[frames@.len()
            - 1] ==> (
            r.1 == r.0 + 1
            && frames@[r.0 as int] < target_frame
            && target_frame <= frames@[r.1 as int]
        ),
        forall|i: int|
            strictly_sorted_frames(frames@) && 0 < i < frames@.len() && frames@[i] == target_frame
                ==> r == (((i - 1) as usize, i as usize)),
{
    let total_num = frames.len();
    let index = lower_bound(frames, target_frame);
    let r = if index == 0 {
        (index, index)
    } else if index <= total_num - 1 {
        (index - 1, index)
    } else {
        (index - 1, index - 1)
    };
    proof {
        if strictly_sorted_frames(frames@) {
            assert forall|i: int|
                0 < i < frames@.len() && frames@[i] == target_frame implies r == (((i - 1) as usize,
            i as usize)) by {
                assert(index <= i);
                if (index as int) < i {
                    assert(frames@[index as int] < frames@[i]);
                    assert(target_frame <= frames@[index as int]);
                }
            }
        }
    }
    r
}

/// Inserts a frame index at its sorted position in a bare frame sequence and
/// reports the position together with the new first and last entries.
pub fn curve_frame_index(frames: &mut Vec<FrameIndex>, frame: FrameIndex) -> (r: (
    usize,
    FrameIndex,
    FrameIndex,
))
    requires
        sorted_frames(old(frames)@),
    ensures
        sorted_frames(final(frames)@),
        final(frames)@ == old(frames)@.insert(r.0 as int, frame),
        r.0 <= old(frames)@.len(),
        forall|j: int| 0 <= j < r.0 ==> old(frames)@[j] < frame,
        forall|j: int| r.0 <= j < old(frames)@.len() ==> frame <= old(frames)@[j],
        r.1 == final(frames)@[0],
        r.2 == final(frames)@[final(frames)@.len() - 1],
{
    let index = lower_bound(frames, frame);
    let ghost pre = frames@;
    frames.insert(index, frame);
    proof {
        pre.insert_ensures(index as int, frame);
        assert forall|i: int, j: int| 0 <= i <= j < frames@.len() implies frames@[i]
            <= frames@[j] by {
            if j < index {
                assert(frames@[i] == pre[i] && frames@[j] == pre[j]);
            } else if index < i {
                assert(frames@[i] == pre[i - 1] && frames@[j] == pre[j - 1]);
            } else if i < index && j == index {
                assert(frames@[i] == pre[i]);
            } else if i == index && index < j {
                assert(frames@[j] == pre[j - 1]);
            } else if i < index && index < j {
                assert(frames@[i] == pre[i] && frames@[j] == pre[j - 1]);
            }
        }
    }
    let len = frames.len();
    let min = frames[0];
    let max = frames[len - 1];
    (index, min, max)
}

/// A keyframe curve: a kind tag, the design frame rate, the sorted frame
/// indices, and the per-kind payload arrays. `T` is the animated value type;
/// `S` is the progress-domain scalar type used for scalar samples and Bézier
/// control coordinates.
#[derive(Debug)]
pub struct FrameCurve<T, S> {
    /// The curve kind; decides which payload array is in use.
    pub kind: EFrameCurveType,
    /// Frames per second the frame indices are expressed in.
    pub design_frame_per_second: FramePerSecond,
    /// The base value of range-style curves (easing, Bézier, min-max).
    pub value_offset: Option<T>,
    /// The value span of range-style curves.
    pub value_scalar: Option<T>,
    /// The easing shape of an easing curve.
    pub easing_mode: EEasingMode,
    /// The `(x1, y1, x2, y2)` control coordinates of a cubic Bézier curve.
    pub cubic_bezier_args: Option<[S; 4]>,
    /// The frame indices, sorted ascending.
    pub frames: Vec<FrameIndex>,
    /// Scalar samples with tangents, for a min-max curve.
    pub minmax_curve_values: Vec<CurveFrameValue<S>>,
    /// Plain values, for the linear and stepped kinds.
    pub values: Vec<T>,
    /// Values with tangents, for a cubic-spline curve.
    pub cubic_spline_values: Vec<CurveFrameValue<T>>,
    /// First stored frame; `FrameIndex::MAX` while no keyframe is stored.
    pub min_frame: FrameIndex,
    /// Last stored frame; zero while no keyframe is stored.
    pub max_frame: FrameIndex,
    /// Frame span of the curve: `max_frame - min_frame`, or the fixed frame
    /// count of a range-style curve.
    pub frame_number: FrameIndex,
}

impl<T, S> FrameCurve<T, S> {
    /// The kind stores its keyframes in the frame-index sequence (rather
    /// than spanning a fixed frame count).
    pub open spec fn keyframed(&self) -> bool {
        match self.kind {
            EFrameCurveType::FrameValues => true,
            EFrameCurveType::FrameValuesStep => true,
            EFrameCurveType::MinMaxCurve => true,
            EFrameCurveType::GLTFCubicSpline => true,
            EFrameCurveType::EasingCurve => false,
            EFrameCurveType::CubicBezierCurve => false,
        }
    }

    /// The payload array the kind evaluates from is parallel to the frame
    /// indices, and the other payload arrays are unused.
    pub open spec fn payload_consistent(&self) -> bool {
        match self.kind {
            EFrameCurveType::FrameValues => {
                &&& self.values@.len() == self.frames@.len()
                &&& self.minmax_curve_values@.len() == 0
                &&& self.cubic_spline_values@.len() == 0
            },
            EFrameCurveType::FrameValuesStep => {
                &&& self.values@.len() == self.frames@.len()
                &&& self.minmax_curve_values@.len() == 0
                &&& self.cubic_spline_values@.len() == 0
            },
            EFrameCurveType::GLTFCubicSpline => {
                &&& self.cubic_spline_values@.len() == self.frames@.len()
                &&& self.values@.len() == 0
                &&& self.minmax_curve_values@.len() == 0
            },
            EFrameCurveType::MinMaxCurve => {
                &&& self.minmax_curve_values@.len() == self.frames@.len()
                &&& self.values@.len() == 0
                &&& self.cubic_spline_values@.len() == 0
                &&& self.value_offset is Some
                &&& self.value_scalar is Some
            },
            EFrameCurveType::EasingCurve => {
                &&& self.frames@.len() == 0
                &&& self.values@.len() == 0
                &&& self.minmax_curve_values@.len() == 0
                &&& self.cubic_spline_values@.len() == 0
                &&& self.value_offset is Some
                &&& self.value_scalar is Some
            },
            EFrameCurveType::CubicBezierCurve => {
                &&& self.frames@.len() == 0
                &&& self.values@.len() == 0
                &&& self.minmax_curve_values@.len() == 0
                &&& self.cubic_spline_values@.len() == 0
                &&& self.value_offset is Some
                &&& self.value_scalar is Some
                &&& self.cubic_bezier_args is Some
            },
        }
    }

    /// The cached frame bounds agree with the frame-index sequence: for a
    /// keyframed kind they are its first and last entries (with
    /// `min_frame > max_frame` as the empty sentinel), for a range-style kind
    /// the span starts at zero.
    pub open spec fn bounds_consistent(&self) -> bool {
        if self.keyframed() {
            if self.frames@.len() == 0 {
                &&& self.min_frame == FrameIndex::MAX
                &&& self.max_frame == 0
                &&& self.frame_number == 0
            } else {
                &&& self.min_frame == self.frames@[0]
                &&& self.max_frame == self.frames@[self.frames@.len() - 1]
                &&& self.frame_number == self.max_frame - self.min_frame
            }
        } else {
            &&& self.min_frame == 0
            &&& self.max_frame == self.frame_number
        }
    }

    /// Well-formedness: sorted unique frame indices, the payload array of the
    /// kind parallel to them, and consistent cached bounds. Constructors
    /// establish it and keyframe insertion preserves it.
    pub open spec fn wf(&self) -> bool {
        &&& strictly_sorted_frames(self.frames@)
        &&& self.payload_consistent()
        &&& self.bounds_consistent()
    }

    /// An empty linear curve: plain keyframe values, interpolated linearly.
    pub fn curve_frame_values(design_frame_per_second: FramePerSecond) -> (r: FrameCurve<T, S>)
        ensures
            r.wf(),
            r.kind == EFrameCurveType::FrameValues,
            r.design_frame_per_second == design_frame_per_second,
            r.value_offset is None,
            r.value_scalar is None,
            r.easing_mode == EEasingMode::Linear,
            r.cubic_bezier_args is None,
            r.frames@.len() == 0,
            r.min_frame == FrameIndex::MAX,
            r.max_frame == 0,
            r.frame_number == 0,
    {
        FrameCurve {
            kind: EFrameCurveType::FrameValues,
            design_frame_per_second,
            value_offset: None,
            value_scalar: None,
            easing_mode: EEasingMode::Linear,
            cubic_bezier_args: None,
            frames: Vec::new(),
            minmax_curve_values: Vec::new(),
            values: Vec::new(),
            cubic_spline_values: Vec::new(),
            min_frame: FrameIndex::MAX,
            max_frame: 0,
            frame_number: 0,
        }
    }

    /// Inserts a keyframe of a linear or stepped curve at its sorted
    /// position; a frame index already stored keeps its position and takes
    /// the new value.
    pub fn curve_frame_values_frame(&mut self, frame: FrameIndex, value: T)
        requires
            old(self).wf(),
            old(self).kind == EFrameCurveType::FrameValues || old(self).kind
                == EFrameCurveType::FrameValuesStep,
        ensures
            final(self).wf(),
            final(self).kind == old(self).kind,
            final(self).design_frame_per_second == old(self).design_frame_per_second,
            final(self).value_offset == old(self).value_offset,
            final(self).value_scalar == old(self).value_scalar,
            final(self).easing_mode == old(self).easing_mode,
            final(self).cubic_bezier_args == old(self).cubic_bezier_args,
            final(self).minmax_curve_values@ == old(self).minmax_curve_values@,
            final(self).cubic_spline_values@ == old(self).cubic_spline_values@,
            old(self).frames@.contains(frame) ==> (exists|i: int|
                {
                    &&& 0 <= i < old(self).frames@.len()
                    &&& old(self).frames@[i] == frame
                    &&& final(self).frames@ == old(self).frames@
                    &&& final(self).values@ == old(self).values@.update(i, value)
                }),
            !old(self).frames@.contains(frame) ==> (exists|i: int|
                {
                    &&& 0 <= i <= old(self).frames@.len()
                    &&& (forall|j: int| 0 <= j < i ==> old(self).frames@[j] < frame)
                    &&& (forall|j: int|
                        i <= j < old(self).frames@.len() ==> frame < old(self).frames@[j])
                    &&& final(self).frames@ == old(self).frames@.insert(i, frame)
                    &&& final(self).values@ == old(self).values@.insert(i, value)
                }),
    {
        let index = self.keyframe_position(frame);
        if index < self.frames.len() && self.frames[index] == frame {
            self.values.set(index, value);
        } else {
            let ghost pre = self.frames@;
            proof {
                assert(!pre.contains(frame));
                assert forall|j: int| index <= j < pre.len() implies frame < pre[j] by {
                    if pre[j] == frame {
                        assert(pre.contains(frame));
                    }
                }
            }
            self.frames.insert(index, frame);
            self.values.insert(index, value);
            proof {
                lemma_sorted_insert(pre, index as int, frame, self.frames@);
            }
        }
        self.refresh_bounds();
    }

    /// An empty cubic-spline curve: keyframe values with in/out tangents,
    /// blended with the Hermite basis.
    pub fn curve_cubic_spline(design_frame_per_second: FramePerSecond) -> (r: FrameCurve<T, S>)
        ensures
            r.wf(),
            r.kind == EFrameCurveType::GLTFCubicSpline,
            r.design_frame_per_second == design_frame_per_second,
            r.value_offset is None,
            r.value_scalar is None,
            r.easing_mode == EEasingMode::Linear,
            r.cubic_bezier_args is None,
            r.frames@.len() == 0,
            r.min_frame == FrameIndex::MAX,
            r.max_frame == 0,
            r.frame_number == 0,
    {
        FrameCurve {
            kind: EFrameCurveType::GLTFCubicSpline,
            design_frame_per_second,
            value_offset: None,
            value_scalar: None,
            easing_mode: EEasingMode::Linear,
            cubic_bezier_args: None,
            frames: Vec::new(),
            minmax_curve_values: Vec::new(),
            values: Vec::new(),
            cubic_spline_values: Vec::new(),
            min_frame: FrameIndex::MAX,
            max_frame: 0,
            frame_number: 0,
        }
    }

    /// Inserts a keyframe of a cubic-spline curve at its sorted position; a
    /// frame index already stored keeps its position and takes the new record.
    pub fn curve_cubic_splice_frame(&mut self, frame: FrameIndex, value: T, intangent: T, outtangent: T)
        requires
            old(self).wf(),
            old(self).kind == EFrameCurveType::GLTFCubicSpline,
        ensures
            final(self).wf(),
            final(self).kind == old(self).kind,
            final(self).design_frame_per_second == old(self).design_frame_per_second,
            final(self).value_offset == old(self).value_offset,
            final(self).value_scalar == old(self).value_scalar,
            final(self).easing_mode == old(self).easing_mode,
            final(self).cubic_bezier_args == old(self).cubic_bezier_args,
            final(self).minmax_curve_values@ == old(self).minmax_curve_values@,
            final(self).values@ == old(self).values@,
            old(self).frames@.contains(frame) ==> (exists|i: int|
                {
                    &&& 0 <= i < old(self).frames@.len()
                    &&& old(self).frames@[i] == frame
                    &&& final(self).frames@ == old(self).frames@
                    &&& final(self).cubic_spline_values@ == old(self).cubic_spline_values@.update(
                        i,
                        (CurveFrameValue { value, args: [intangent, outtangent] }),
                    )
                }),
            !old(self).frames@.contains(frame) ==> (exists|i: int|
                {
                    &&& 0 <= i <= old(self).frames@.len()
                    &&& (forall|j: int| 0 <= j < i ==> old(self).frames@[j] < frame)
                    &&& (forall|j: int|
                        i <= j < old(self).frames@.len() ==> frame < old(self).frames@[j])
                    &&& final(self).frames@ == old(self).frames@.insert(i, frame)
                    &&& final(self).cubic_spline_values@ == old(self).cubic_spline_values@.insert(
                        i,
                        (CurveFrameValue { value, args: [intangent, outtangent] }),
                    )
                }),
    {
        let keyframe = CurveFrameValue::new(value, [intangent, outtangent]);
        let index = self.keyframe_position(frame);
        if index < self.frames.len() && self.frames[index] == frame {
            self.cubic_spline_values.set(index, keyframe);
        } else {
            let ghost pre = self.frames@;
            proof {
                assert(!pre.contains(frame));
                assert forall|j: int| index <= j < pre.len() implies frame < pre[j] by {
                    if pre[j] == frame {
                        assert(pre.contains(frame));
                    }
                }
            }
            self.frames.insert(index, frame);
            self.cubic_spline_values.insert(index, keyframe);
            proof {
                lemma_sorted_insert(pre, index as int, frame, self.frames@);
            }
        }
        self.refresh_bounds();
    }

    /// An empty min-max curve: scalar Hermite samples applied to a base value
    /// and value span.
    pub fn curve_minmax_curve(
        from: T,
        scalar: T,
        design_frame_per_second: FramePerSecond,
    ) -> (r: FrameCurve<T, S>)
        ensures
            r.wf(),
            r.kind == EFrameCurveType::MinMaxCurve,
            r.design_frame_per_second == design_frame_per_second,
            r.value_offset == Some(from),
            r.value_scalar == Some(scalar),
            r.easing_mode == EEasingMode::Linear,
            r.cubic_bezier_args is None,
            r.frames@.len() == 0,
            r.min_frame == FrameIndex::MAX,
            r.max_frame == 0,
            r.frame_number == 0,
    {
        FrameCurve {
            kind: EFrameCurveType::MinMaxCurve,
            design_frame_per_second,
            value_offset: Some(from),
            value_scalar: Some(scalar),
            easing_mode: EEasingMode::Linear,
            cubic_bezier_args: None,
            frames: Vec::new(),
            minmax_curve_values: Vec::new(),
            values: Vec::new(),
            cubic_spline_values: Vec::new(),
            min_frame: FrameIndex::MAX,
            max_frame: 0,
            frame_number: 0,
        }
    }

    /// Inserts a scalar keyframe of a min-max curve at its sorted position; a
    /// frame index already stored keeps its position and takes the new record.
    pub fn curve_minmax_curve_frame(&mut self, frame: FrameIndex, value: S, intangent: S, outtangent: S)
        requires
            old(self).wf(),
            old(self).kind == EFrameCurveType::MinMaxCurve,
        ensures
            final(self).wf(),
            final(self).kind == old(self).kind,
            final(self).design_frame_per_second == old(self).design_frame_per_second,
            final(self).value_offset == old(self).value_offset,
            final(self).value_scalar == old(self).value_scalar,
            final(self).easing_mode == old(self).easing_mode,
            final(self).cubic_bezier_args == old(self).cubic_bezier_args,
            final(self).cubic_spline_values@ == old(self).cubic_spline_values@,
            final(self).values@ == old(self).values@,
            old(self).frames@.contains(frame) ==> (exists|i: int|
                {
                    &&& 0 <= i < old(self).frames@.len()
                    &&& old(self).frames@[i] == frame
                    &&& final(self).frames@ == old(self).frames@
                    &&& final(self).minmax_curve_values@ == old(self).minmax_curve_values@.update(
                        i,
                        (CurveFrameValue { value, args: [intangent, outtangent] }),
                    )
                }),
            !old(self).frames@.contains(frame) ==> (exists|i: int|
                {
                    &&& 0 <= i <= old(self).frames@.len()
                    &&& (forall|j: int| 0 <= j < i ==> old(self).frames@[j] < frame)
                    &&& (forall|j: int|
                        i <= j < old(self).frames@.len() ==> frame < old(self).frames@[j])
                    &&& final(self).frames@ == old(self).frames@.insert(i, frame)
                    &&& final(self).minmax_curve_values@ == old(self).minmax_curve_values@.insert(
                        i,
                        (CurveFrameValue { value, args: [intangent, outtangent] }),
                    )
                }),
    {
        let keyframe = CurveFrameValue::new(value, [intangent, outtangent]);
        let index = self.keyframe_position(frame);
        if index < self.frames.len() && self.frames[index] == frame {
            self.minmax_curve_values.set(index, keyframe);
        } else {
            let ghost pre = self.frames@;
            proof {
                assert(!pre.contains(frame));
                assert forall|j: int| index <= j < pre.len() implies frame < pre[j] by {
                    if pre[j] == frame {
                        assert(pre.contains(frame));
                    }
                }
            }
            self.frames.insert(index, frame);
            self.minmax_curve_values.insert(index, keyframe);
            proof {
                lemma_sorted_insert(pre, index as int, frame, self.frames@);
            }
        }
        self.refresh_bounds();
    }

    /// An easing curve spanning `frame_count` frames:
    /// `from + scalar * easing(t)` over the global time fraction.
    pub fn curve_easing(
        from: T,
        scalar: T,
        frame_count: FrameIndex,
        design_frame_per_second: FramePerSecond,
        easing_mode: EEasingMode,
    ) -> (r: FrameCurve<T, S>)
        ensures
            r.wf(),
            r.kind == EFrameCurveType::EasingCurve,
            r.design_frame_per_second == design_frame_per_second,
            r.value_offset == Some(from),
            r.value_scalar == Some(scalar),
            r.easing_mode == easing_mode,
            r.cubic_bezier_args is None,
            r.frames@.len() == 0,
            r.min_frame == 0,
            r.max_frame == frame_count,
            r.frame_number == frame_count,
    {
        FrameCurve {
            kind: EFrameCurveType::EasingCurve,
            design_frame_per_second,
            value_offset: Some(from),
            value_scalar: Some(scalar),
            easing_mode,
            cubic_bezier_args: None,
            frames: Vec::new(),
            minmax_curve_values: Vec::new(),
            values: Vec::new(),
            cubic_spline_values: Vec::new(),
            min_frame: 0,
            max_frame: frame_count,
            frame_number: frame_count,
        }
    }

    /// A cubic Bézier curve spanning `frame_count` frames:
    /// `from + scalar * bezier(t)` over the global time fraction, with the
    /// control coordinates `(x1, y1, x2, y2)`.
    pub fn curve_cubic_bezier(
        from: T,
        scalar: T,
        frame_count: FrameIndex,
        design_frame_per_second: FramePerSecond,
        x1: S,
        y1: S,
        x2: S,
        y2: S,
    ) -> (r: FrameCurve<T, S>)
        ensures
            r.wf(),
            r.kind == EFrameCurveType::CubicBezierCurve,
            r.design_frame_per_second == design_frame_per_second,
            r.value_offset == Some(from),
            r.value_scalar == Some(scalar),
            r.easing_mode == EEasingMode::Linear,
            r.cubic_bezier_args == Some([x1, y1, x2, y2]),
            r.frames@.len() == 0,
            r.min_frame == 0,
            r.max_frame == frame_count,
            r.frame_number == frame_count,
    {
        FrameCurve {
            kind: EFrameCurveType::CubicBezierCurve,
            design_frame_per_second,
            value_offset: Some(from),
            value_scalar: Some(scalar),
            easing_mode: EEasingMode::Linear,
            cubic_bezier_args: Some([x1, y1, x2, y2]),
            frames: Vec::new(),
            minmax_curve_values: Vec::new(),
            values: Vec::new(),
            cubic_spline_values: Vec::new(),
            min_frame: 0,
            max_frame: frame_count,
            frame_number: frame_count,
        }
    }

    /// The approximate memory footprint of the curve in bytes: a fixed
    /// header plus the storage of the frame indices and payload records.
    pub fn size(&self) -> (r: usize)
        requires
            vstd::layout::size_of::<T>() * 3 <= usize::MAX,
            vstd::layout::size_of::<S>() * 3 <= usize::MAX,
            42 + vstd::layout::size_of::<FrameIndex>() * self.frames@.len()
                + vstd::layout::size_of::<T>() * self.values@.len()
                + vstd::layout::size_of::<T>() * 3 * self.cubic_spline_values@.len()
                + vstd::layout::size_of::<S>() * 3 * self.minmax_curve_values@.len()
                <= usize::MAX,
        ensures
            r == 42 + vstd::layout::size_of::<FrameIndex>() * self.frames@.len()
                + vstd::layout::size_of::<T>() * self.values@.len()
                + vstd::layout::size_of::<T>() * 3 * self.cubic_spline_values@.len()
                + vstd::layout::size_of::<S>() * 3 * self.minmax_curve_values@.len(),
    {
        1 + 1 + 4 * 4 + 2 + 2 + 2 + 2 + 8 + 8
            + core::mem::size_of::<FrameIndex>() * self.frames.len()
            + core::mem::size_of::<T>() * self.values.len()
            + core::mem::size_of::<T>() * 3 * self.cubic_spline_values.len()
            + core::mem::size_of::<S>() * 3 * self.minmax_curve_values.len()
    }

    /// Brackets a target frame against a frame sequence; see the free
    /// function of the same name.
    pub fn get_pre_next_frame_index(frames: &Vec<FrameIndex>, target_frame: FrameIndex) -> (r: (
        usize,
        usize,
    ))
        requires
            sorted_frames(frames@),
        ensures
            r.0 <= r.1,
            frames@.len() > 0 ==> r.1 < frames@.len(),
            frames@.len() == 0 ==> r == (0usize, 0usize),
            frames@.len() > 0 && target_frame <= frames@[0] ==> r == (0usize, 0usize),
            frames@.len() > 0 && frames@[frames@.len() - 1] < target_frame ==> (
                r.0 == frames@.len() - 1
                && r.1 == frames@.len() - 1
            ),
            frames@.len() > 0 && frames@[0] < target_frame && target_frame <= frames@[
                frames@.len() - 1] ==> (
                r.1 == r.0 + 1
                && frames@[r.0 as int] < target_frame
                && target_frame <= frames@[r.1 as int]
            ),
            forall|i: int|
                strictly_sorted_frames(frames@) && 0 < i < frames@.len() && frames@[i]
                    == target_frame ==> r == (((i - 1) as usize, i as usize)),
    {
        get_pre_next_frame_index(frames, target_frame)
    }

    /// The sorted position of a frame index: the index of its record when it
    /// is stored, the insertion point when it is not.
    fn keyframe_position(&self, frame: FrameIndex) -> (r: usize)
        requires
            strictly_sorted_frames(self.frames@),
        ensures
            r <= self.frames@.len(),
            forall|j: int| 0 <= j < r ==> self.frames@[j] < frame,
            forall|j: int| r <= j < self.frames@.len() ==> frame <= self.frames@[j],
            self.frames@.contains(frame) <==> (r < self.frames@.len() && self.frames@[r as int]
                == frame),
    {
        let r = lower_bound(&self.frames, frame);
        proof {
            if self.frames@.contains(frame) {
                let w = choose|w: int| 0 <= w < self.frames@.len() && self.frames@[w] == frame;
                assert(r <= w);
                assert(self.frames@[r as int] <= self.frames@[w]);
                assert(self.frames@[r as int] == frame);
            }
            if r < self.frames@.len() && self.frames@[r as int] == frame {
                assert(self.frames@.contains(frame));
            }
        }
        r
    }

    /// Recomputes the cached bounds of a keyframed curve from the ends of
    /// the (non-empty) frame sequence.
    fn refresh_bounds(&mut self)
        requires
            strictly_sorted_frames(old(self).frames@),
            old(self).frames@.len() > 0,
        ensures
            final(self).min_frame == old(self).frames@[0],
            final(self).max_frame == old(self).frames@[old(self).frames@.len() - 1],
            final(self).frame_number == final(self).max_frame - final(self).min_frame,
            final(self).kind == old(self).kind,
            final(self).design_frame_per_second == old(self).design_frame_per_second,
            final(self).value_offset == old(self).value_offset,
            final(self).value_scalar == old(self).value_scalar,
            final(self).easing_mode == old(self).easing_mode,
            final(self).cubic_bezier_args == old(self).cubic_bezier_args,
            final(self).frames == old(self).frames,
            final(self).minmax_curve_values == old(self).minmax_curve_values,
            final(self).values == old(self).values,
            final(self).cubic_spline_values == old(self).cubic_spline_values,
    {
        let len = self.frames.len();
        proof {
            if self.frames@.len() > 1 {
                assert(self.frames@[0] < self.frames@[self.frames@.len() - 1]);
            }
        }
        let min = self.frames[0];
        let max = self.frames[len - 1];
        self.min_frame = min;
        self.max_frame = max;
        self.frame_number = max - min;
    }
}

/// Inserting `v` at the position that splits `pre` into entries strictly
/// below and strictly above `v` keeps the sequence strictly sorted.
proof fn lemma_sorted_insert(
    pre: Seq<FrameIndex>,
    i: int,
    v: FrameIndex,
    post: Seq<FrameIndex>,
)
    requires
        strictly_sorted_frames(pre),
        0 <= i <= pre.len(),
        forall|j: int| 0 <= j < i ==> pre[j] < v,
        forall|j: int| i <= j < pre.len() ==> v < pre[j],
        post == pre.insert(i, v),
    ensures
        strictly_sorted_frames(post),
{
    pre.insert_ensures(i, v);
    assert forall|a: int, b: int| 0 <= a < b < post.len() implies post[a] < post[b] by {
        if b < i {
            assert(post[a] == pre[a] && post[b] == pre[b]);
        } else if i < a {
            assert(post[a] == pre[a - 1] && post[b] == pre[b - 1]);
        } else if a < i && b == i {
            assert(post[a] == pre[a]);
        } else if a == i && i < b {
            assert(post[b] == pre[b - 1]);
        } else if a < i && i < b {
            assert(post[a] == pre[a] && post[b] == pre[b - 1]);
        }
    }
}

} // verus!
