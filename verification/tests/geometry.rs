//! Tests for the angle mapping, the palette rule, the fixed scale and the
//! label anchor geometry.

use day_chart::angle::angle_of;
use day_chart::palette::color_index;
use day_chart::palette::palette;
use day_chart::scale::label_anchor;
use day_chart::scale::scale_table;

#[test]
fn hour_six_sits_at_angle_zero() {
    assert_eq!(angle_of(6), 0);
}

#[test]
fn one_full_day_adds_one_full_turn() {
    // 24 twelfths of pi is 2 pi: one full turn.
    for h in 0..24 {
        assert_eq!(angle_of(h + 24), angle_of(h) + 24);
    }
}

#[test]
fn angles_of_the_day_boundaries() {
    assert_eq!(angle_of(0), -6);
    assert_eq!(angle_of(24), 18);
}

#[test]
fn palette_is_the_fixed_six_colors() {
    let colors = palette();
    assert_eq!(colors.len(), 6);
    assert_eq!(colors[0], "#9AD3BC");
    assert_eq!(colors[1], "#EDF6E5");
    assert_eq!(colors[2], "#FFBCBC");
    assert_eq!(colors[3], "#F38BA0");
    assert_eq!(colors[4], "#B5EAEA");
    assert_eq!(colors[5], "#87A8A4");
}

#[test]
fn non_final_segments_take_their_position_modulo_six() {
    assert_eq!(color_index(0, 4), 1);
    assert_eq!(color_index(1, 4), 2);
    assert_eq!(color_index(2, 4), 3);
    assert_eq!(color_index(6, 8), 1);
}

#[test]
fn the_final_segment_takes_the_background_color() {
    assert_eq!(color_index(0, 1), 0);
    assert_eq!(color_index(3, 4), 0);
    assert_eq!(color_index(23, 24), 0);
}

#[test]
fn scale_has_24_ticks_at_the_fixed_positions() {
    let table = scale_table();
    assert_eq!(table.len(), 24);
    for (j, e) in table.iter().enumerate() {
        assert_eq!(e.hour, j);
        assert_eq!(e.label, format!("{}", j));
    }
    assert_eq!((table[0].x, table[0].y), (244, 42));
    assert_eq!((table[6].x, table[6].y), (457, 254));
    assert_eq!((table[9].x, table[9].y), (400, 400));
    assert_eq!((table[18].x, table[18].y), (25, 254));
    assert_eq!((table[23].x, table[23].y), (190, 48));
}

#[test]
fn label_anchor_averages_four_points() {
    let table = scale_table();
    // Span 9..18: ticks at 9, 18 and the midpoint hour 13, plus the center.
    let p = label_anchor(&table, 9, 18);
    assert_eq!(p.x4, 400 + 25 + 250 + 190);
    assert_eq!(p.y4, 400 + 254 + 250 + 460);
}

#[test]
fn label_anchor_for_work_hours_lies_between_its_ticks() {
    let table = scale_table();
    let p = label_anchor(&table, 9, 18);
    // Strictly between the ticks for hours 9 and 18, in quarter-pixels.
    assert!(4 * table[18].x < p.x4 && p.x4 < 4 * table[9].x);
    assert!(4 * table[18].y < p.y4 && p.y4 < 4 * table[9].y);
}

#[test]
fn label_anchor_reduces_wraparound_hours_modulo_24() {
    let table = scale_table();
    // Span 20..26: end hour 26 is tick 2, midpoint hour 23.
    let p = label_anchor(&table, 20, 26);
    assert_eq!(p.x4, 57 + 352 + 250 + 190);
    assert_eq!(p.y4, 145 + 73 + 250 + 48);
}
