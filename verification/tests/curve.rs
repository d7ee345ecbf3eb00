use anim_curve::{
    curve_frame_index, get_pre_next_frame_index, CurveFrameValue, EAmountMode, EEasingMode,
    EFrameCurveType, EStepMode, FrameCurve, FrameIndex, KeyFrameDataTypeAllocator,
};

#[test]
fn steps_mode_fallback() {
    assert_eq!(
        EAmountMode::for_steps(0, EStepMode::JumpStart),
        EAmountMode::Identity
    );
    assert_eq!(
        EAmountMode::for_steps(1, EStepMode::JumpStart),
        EAmountMode::Steps(EStepMode::JumpStart)
    );
    assert_eq!(
        EAmountMode::for_steps(4, EStepMode::JumpEnd),
        EAmountMode::Steps(EStepMode::JumpEnd)
    );
}

#[test]
fn bracket_search_scenarios() {
    let frames: Vec<FrameIndex> = vec![0, 15, 30, 60];
    assert_eq!(get_pre_next_frame_index(&frames, 0), (0, 0));
    assert_eq!(get_pre_next_frame_index(&frames, 15), (0, 1));
    assert_eq!(get_pre_next_frame_index(&frames, 45), (2, 3));
    assert_eq!(get_pre_next_frame_index(&frames, 90), (3, 3));
}

#[test]
fn bracket_search_edges() {
    let empty: Vec<FrameIndex> = vec![];
    assert_eq!(get_pre_next_frame_index(&empty, 10), (0, 0));

    let single: Vec<FrameIndex> = vec![20];
    assert_eq!(get_pre_next_frame_index(&single, 5), (0, 0));
    assert_eq!(get_pre_next_frame_index(&single, 20), (0, 0));
    assert_eq!(get_pre_next_frame_index(&single, 25), (0, 0));

    let frames: Vec<FrameIndex> = vec![0, 15, 30, 60];
    assert_eq!(get_pre_next_frame_index(&frames, 1), (0, 1));
    assert_eq!(get_pre_next_frame_index(&frames, 30), (1, 2));
    assert_eq!(get_pre_next_frame_index(&frames, 60), (2, 3));
    assert_eq!(get_pre_next_frame_index(&frames, 61), (3, 3));
}

#[test]
fn bracket_search_method_matches_free_function() {
    let frames: Vec<FrameIndex> = vec![0, 15, 30, 60];
    assert_eq!(
        FrameCurve::<f32, f32>::get_pre_next_frame_index(&frames, 45),
        get_pre_next_frame_index(&frames, 45)
    );
}

#[test]
fn frame_index_insertion_keeps_order() {
    let mut frames: Vec<FrameIndex> = Vec::new();
    assert_eq!(curve_frame_index(&mut frames, 30), (0, 30, 30));
    assert_eq!(curve_frame_index(&mut frames, 0), (0, 0, 30));
    assert_eq!(curve_frame_index(&mut frames, 60), (2, 0, 60));
    assert_eq!(curve_frame_index(&mut frames, 15), (1, 0, 60));
    assert_eq!(frames, vec![0, 15, 30, 60]);
}

#[test]
fn frame_index_insertion_duplicate() {
    let mut frames: Vec<FrameIndex> = vec![0, 15, 30];
    let (index, min, max) = curve_frame_index(&mut frames, 15);
    assert_eq!(index, 1);
    assert_eq!((min, max), (0, 30));
    assert_eq!(frames, vec![0, 15, 15, 30]);
}

#[test]
fn allocator_counts_upward() {
    let mut allocator = KeyFrameDataTypeAllocator::default();
    assert_eq!(allocator.allocate().unwrap(), 0);
    assert_eq!(allocator.allocate().unwrap(), 1);
    assert_eq!(allocator.allocate().unwrap(), 2);
}

#[test]
fn frame_values_curve_construction() {
    let curve = FrameCurve::<f32, f32>::curve_frame_values(60);
    assert_eq!(curve.kind, EFrameCurveType::FrameValues);
    assert_eq!(curve.design_frame_per_second, 60);
    assert!(curve.value_offset.is_none());
    assert!(curve.value_scalar.is_none());
    assert_eq!(curve.easing_mode, EEasingMode::Linear);
    assert!(curve.cubic_bezier_args.is_none());
    assert!(curve.frames.is_empty());
    assert_eq!(curve.min_frame, FrameIndex::MAX);
    assert_eq!(curve.max_frame, 0);
    assert_eq!(curve.frame_number, 0);
}

#[test]
fn frame_values_keyframes_sorted() {
    let mut curve = FrameCurve::<f32, f32>::curve_frame_values(60);
    curve.curve_frame_values_frame(30, 3.0);
    curve.curve_frame_values_frame(0, 0.0);
    curve.curve_frame_values_frame(60, 4.0);
    curve.curve_frame_values_frame(15, 1.0);
    assert_eq!(curve.frames, vec![0, 15, 30, 60]);
    assert_eq!(curve.values, vec![0.0, 1.0, 3.0, 4.0]);
    assert_eq!(curve.min_frame, 0);
    assert_eq!(curve.max_frame, 60);
    assert_eq!(curve.frame_number, 60);
}

#[test]
fn frame_values_keyframe_replaces_duplicate() {
    let mut curve = FrameCurve::<f32, f32>::curve_frame_values(60);
    curve.curve_frame_values_frame(0, 0.0);
    curve.curve_frame_values_frame(30, 3.0);
    curve.curve_frame_values_frame(30, 5.0);
    assert_eq!(curve.frames, vec![0, 30]);
    assert_eq!(curve.values, vec![0.0, 5.0]);
    assert_eq!(curve.frame_number, 30);
}

#[test]
fn cubic_spline_curve_keyframes() {
    let mut curve = FrameCurve::<f32, f32>::curve_cubic_spline(60);
    assert_eq!(curve.kind, EFrameCurveType::GLTFCubicSpline);
    curve.curve_cubic_splice_frame(60, 1.0, 2.0, 3.0);
    curve.curve_cubic_splice_frame(0, 0.0, -1.0, -2.0);
    assert_eq!(curve.frames, vec![0, 60]);
    assert_eq!(*curve.cubic_spline_values[0].value(), 0.0);
    assert_eq!(*curve.cubic_spline_values[0].intangent(), -1.0);
    assert_eq!(*curve.cubic_spline_values[0].outtangent(), -2.0);
    assert_eq!(*curve.cubic_spline_values[1].value(), 1.0);
    assert_eq!(curve.min_frame, 0);
    assert_eq!(curve.max_frame, 60);
    assert_eq!(curve.frame_number, 60);
}

#[test]
fn minmax_curve_keyframes() {
    let mut curve = FrameCurve::<f32, f32>::curve_minmax_curve(0.0, 1.0, 60);
    assert_eq!(curve.kind, EFrameCurveType::MinMaxCurve);
    assert_eq!(curve.value_offset, Some(0.0));
    assert_eq!(curve.value_scalar, Some(1.0));
    curve.curve_minmax_curve_frame(0, 0.0, 2.0, 2.0);
    curve.curve_minmax_curve_frame(30, 0.5, 0.0, 0.0);
    curve.curve_minmax_curve_frame(60, 1.0, 2.0, 2.0);
    assert_eq!(curve.frames, vec![0, 30, 60]);
    assert_eq!(*curve.minmax_curve_values[1].value(), 0.5);
    assert_eq!(*curve.minmax_curve_values[2].intangent(), 2.0);
    assert_eq!(curve.frame_number, 60);
}

#[test]
fn easing_curve_construction() {
    let curve = FrameCurve::<f32, f32>::curve_easing(0.0, 1.0, 60, 60, EEasingMode::CubicInOut);
    assert_eq!(curve.kind, EFrameCurveType::EasingCurve);
    assert_eq!(curve.value_offset, Some(0.0));
    assert_eq!(curve.value_scalar, Some(1.0));
    assert_eq!(curve.easing_mode, EEasingMode::CubicInOut);
    assert_eq!(curve.min_frame, 0);
    assert_eq!(curve.max_frame, 60);
    assert_eq!(curve.frame_number, 60);
    assert!(curve.frames.is_empty());
}

#[test]
fn cubic_bezier_curve_construction() {
    let curve = FrameCurve::<f32, f32>::curve_cubic_bezier(0.0, 1.0, 60, 60, 0.42, 0.0, 1.0, 1.0);
    assert_eq!(curve.kind, EFrameCurveType::CubicBezierCurve);
    assert_eq!(curve.cubic_bezier_args, Some([0.42, 0.0, 1.0, 1.0]));
    assert_eq!(curve.min_frame, 0);
    assert_eq!(curve.max_frame, 60);
    assert_eq!(curve.frame_number, 60);
}

#[test]
fn curve_frame_value_accessors() {
    let record = CurveFrameValue::new(1.5f32, [2.5, 3.5]);
    assert_eq!(*record.value(), 1.5);
    assert_eq!(*record.intangent(), 2.5);
    assert_eq!(*record.outtangent(), 3.5);
}

#[test]
fn frame_values_curve_with_unsigned_values() {
    let mut curve = FrameCurve::<u32, f32>::curve_frame_values(24);
    curve.curve_frame_values_frame(10, 100);
    curve.curve_frame_values_frame(5, 50);
    assert_eq!(curve.frames, vec![5, 10]);
    assert_eq!(curve.values, vec![50, 100]);
    assert_eq!(curve.frame_number, 5);
}

#[test]
fn spline_curve_size_counts_records() {
    let mut curve = FrameCurve::<f32, f32>::curve_cubic_spline(60);
    curve.curve_cubic_splice_frame(0, 0.0, 0.0, 0.0);
    curve.curve_cubic_splice_frame(60, 1.0, 0.0, 0.0);
    assert_eq!(curve.size(), 42 + 2 * 4 + 2 * 3 * 4);
}

#[test]
fn curve_size_counts_storage() {
    let mut curve = FrameCurve::<f32, f32>::curve_frame_values(60);
    assert_eq!(curve.size(), 42);
    curve.curve_frame_values_frame(0, 0.0);
    curve.curve_frame_values_frame(60, 4.0);
    assert_eq!(curve.size(), 42 + 2 * 4 + 2 * 4);
}
