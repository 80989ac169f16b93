//! Tests for the drawing plan built from a segment list.

use day_chart::plan::demo_segments;
use day_chart::plan::make_plan;
use day_chart::plan::try_make_plan;
use day_chart::plan::RenderError;
use day_chart::segments::reconstruct_segments;
use day_chart::segments::TimeSegment;

#[test]
fn demo_dataset_is_the_fixed_day() {
    let segs = demo_segments();
    assert_eq!(segs.len(), 4);
    assert_eq!(segs[0].label, "睡眠");
    assert_eq!((segs[0].start_hour, segs[0].end_hour), (2, 9));
    assert_eq!(segs[1].label, "お仕事");
    assert_eq!((segs[1].start_hour, segs[1].end_hour), (9, 18));
    assert_eq!(segs[2].label, "Rust");
    assert_eq!((segs[2].start_hour, segs[2].end_hour), (18, 20));
    assert_eq!(segs[3].label, "生活");
    assert_eq!((segs[3].start_hour, segs[3].end_hour), (20, 26));
}

#[test]
fn background_spans_the_whole_circle_in_color_zero() {
    let plan = make_plan(&demo_segments(), false);
    assert_eq!(plan.background.color_index, 0);
    assert_eq!(plan.background.from_twelfths, -6);
    assert_eq!(plan.background.to_twelfths, 18);
}

#[test]
fn wedges_follow_the_segments_and_the_color_rule() {
    let plan = make_plan(&demo_segments(), false);
    assert_eq!(plan.wedges.len(), 4);
    let colors: Vec<usize> = plan.wedges.iter().map(|w| w.color_index).collect();
    assert_eq!(colors, vec![1, 2, 3, 0]);
    assert_eq!(plan.wedges[0].from_twelfths, -4);
    assert_eq!(plan.wedges[0].to_twelfths, 3);
    assert_eq!(plan.wedges[3].from_twelfths, 14);
    assert_eq!(plan.wedges[3].to_twelfths, 20);
}

#[test]
fn labels_carry_the_segment_texts_at_their_anchors() {
    let plan = make_plan(&demo_segments(), false);
    assert_eq!(plan.labels.len(), 4);
    assert_eq!(plan.labels[1].text, "お仕事");
    assert_eq!(plan.labels[1].x4, 400 + 25 + 250 + 190);
    assert_eq!(plan.labels[1].y4, 400 + 254 + 250 + 460);
}

#[test]
fn ticks_are_the_full_scale_with_quarter_hours_emphasized() {
    let plan = make_plan(&demo_segments(), false);
    assert_eq!(plan.ticks.len(), 24);
    for (j, t) in plan.ticks.iter().enumerate() {
        assert_eq!(t.label, format!("{}", j));
        assert_eq!(t.large_font, j % 6 == 0);
    }
    assert_eq!((plan.ticks[12].x, plan.ticks[12].y), (243, 470));
}

#[test]
fn signature_is_fixed_and_axis_cross_is_a_flag() {
    let plan = make_plan(&demo_segments(), false);
    assert_eq!(plan.signature.text, "#今日の一日ぐらふ");
    assert_eq!((plan.signature.x, plan.signature.y), (390, 460));
    assert!(!plan.axis_cross);
    let plan = make_plan(&demo_segments(), true);
    assert!(plan.axis_cross);
}

#[test]
fn empty_segment_list_still_draws_background_scale_and_signature() {
    let plan = try_make_plan(&Vec::new(), false).unwrap();
    assert_eq!(plan.wedges.len(), 0);
    assert_eq!(plan.labels.len(), 0);
    assert_eq!(plan.ticks.len(), 24);
    assert_eq!(plan.background.color_index, 0);
    assert_eq!(plan.signature.text, "#今日の一日ぐらふ");
}

#[test]
fn malformed_segments_are_refused_as_geometry_errors() {
    let zero_length = vec![TimeSegment { label: "x".to_string(), start_hour: 5, end_hour: 5 }];
    assert_eq!(try_make_plan(&zero_length, false).err(), Some(RenderError::GeometryPrecondition));
    let starts_too_late = vec![TimeSegment { label: "x".to_string(), start_hour: 24, end_hour: 30 }];
    assert_eq!(
        try_make_plan(&starts_too_late, false).err(),
        Some(RenderError::GeometryPrecondition)
    );
    let wraps_twice = vec![TimeSegment { label: "x".to_string(), start_hour: 1, end_hour: 49 }];
    assert_eq!(try_make_plan(&wraps_twice, false).err(), Some(RenderError::GeometryPrecondition));
}

#[test]
fn reconstructed_wedges_tile_one_full_turn() {
    let mut inputs: Vec<String> = (0..24).map(|_| String::new()).collect();
    inputs[0] = "A".to_string();
    inputs[3] = "B".to_string();
    inputs[5] = "C".to_string();
    let segs = reconstruct_segments(&inputs);
    let plan = make_plan(&segs, false);
    assert_eq!(plan.background.to_twelfths - plan.background.from_twelfths, 24);
    for j in 0..plan.wedges.len() - 1 {
        assert_eq!(plan.wedges[j].to_twelfths, plan.wedges[j + 1].from_twelfths);
    }
    let first = &plan.wedges[0];
    let last = &plan.wedges[plan.wedges.len() - 1];
    assert_eq!(last.to_twelfths, first.from_twelfths + 24);
    let total: i64 = plan.wedges.iter().map(|w| w.to_twelfths - w.from_twelfths).sum();
    assert_eq!(total, 24);
}
