//! Tests for rebuilding the segment list from the 24 per-hour inputs.

use day_chart::segments::reconstruct_segments;

fn slots(filled: &[(usize, &str)]) -> Vec<String> {
    let mut v: Vec<String> = (0..24).map(|_| String::new()).collect();
    for (hour, label) in filled {
        v[*hour] = label.to_string();
    }
    v
}

#[test]
fn all_empty_yields_no_segments() {
    let segs = reconstruct_segments(&slots(&[]));
    assert_eq!(segs.len(), 0);
}

#[test]
fn single_slot_wraps_the_full_day() {
    let segs = reconstruct_segments(&slots(&[(5, "nap")]));
    assert_eq!(segs.len(), 1);
    assert_eq!(segs[0].label, "nap");
    assert_eq!(segs[0].start_hour, 5);
    assert_eq!(segs[0].end_hour, 29);
}

#[test]
fn single_slot_at_hour_zero() {
    let segs = reconstruct_segments(&slots(&[(0, "all day")]));
    assert_eq!(segs.len(), 1);
    assert_eq!(segs[0].label, "all day");
    assert_eq!(segs[0].start_hour, 0);
    assert_eq!(segs[0].end_hour, 24);
}

#[test]
fn single_slot_at_last_hour() {
    let segs = reconstruct_segments(&slots(&[(23, "late")]));
    assert_eq!(segs.len(), 1);
    assert_eq!(segs[0].start_hour, 23);
    assert_eq!(segs[0].end_hour, 47);
}

#[test]
fn sparse_slots_close_on_the_next_entry() {
    let segs = reconstruct_segments(&slots(&[(0, "A"), (3, "B"), (5, "C")]));
    assert_eq!(segs.len(), 3);
    assert_eq!(segs[0].label, "A");
    assert_eq!(segs[0].start_hour, 0);
    assert_eq!(segs[0].end_hour, 3);
    assert_eq!(segs[1].label, "B");
    assert_eq!(segs[1].start_hour, 3);
    assert_eq!(segs[1].end_hour, 5);
    assert_eq!(segs[2].label, "C");
    assert_eq!(segs[2].start_hour, 5);
    assert_eq!(segs[2].end_hour, 24);
}

#[test]
fn leading_and_trailing_emptiness_wraps_to_first_entry() {
    let segs = reconstruct_segments(&slots(&[(7, "work"), (12, "rest")]));
    assert_eq!(segs.len(), 2);
    assert_eq!(segs[0].label, "work");
    assert_eq!(segs[0].start_hour, 7);
    assert_eq!(segs[0].end_hour, 12);
    assert_eq!(segs[1].label, "rest");
    assert_eq!(segs[1].start_hour, 12);
    assert_eq!(segs[1].end_hour, 31);
}

#[test]
fn every_slot_filled_gives_24_one_hour_segments() {
    let filled: Vec<(usize, String)> = (0..24).map(|h| (h, format!("h{}", h))).collect();
    let pairs: Vec<(usize, &str)> = filled.iter().map(|(h, s)| (*h, s.as_str())).collect();
    let segs = reconstruct_segments(&slots(&pairs));
    assert_eq!(segs.len(), 24);
    for (j, seg) in segs.iter().enumerate() {
        assert_eq!(seg.label, format!("h{}", j));
        assert_eq!(seg.start_hour, j);
        assert_eq!(seg.end_hour, j + 1);
    }
}
