//! The fixed scale of 24 hour ticks around the circle, and label anchors.
//!
//! The tick positions are static configuration: pixel coordinates of the
//! 24 hour labels, evenly spaced on a circle of fixed radius around the
//! canvas midpoint of (250, 250), precomputed once and immutable.  Segment
//! labels are anchored at the average of four points: the ticks at the
//! segment's start, end and midpoint hours (each reduced modulo 24) plus
//! the canvas center, which biases the anchor toward the wedge's middle.

use vstd::prelude::*;

verus! {

/// X pixel of the canvas midpoint.
pub const CENTER_X: i64 = 250;

/// Y pixel of the canvas midpoint.
pub const CENTER_Y: i64 = 250;

/// One fixed tick of the hour scale: the hour it marks and the pixel
/// position where its label is drawn.
pub struct ScaleEntry {
    pub label: String,
    pub hour: usize,
    pub x: i64,
    pub y: i64,
}

/// X pixel of the tick for hour `h` of the fixed scale.
pub open spec fn spec_scale_x(h: int) -> int {
    if h == 0 {
        244
    } else if h == 1 {
        299
    } else if h == 2 {
        352
    } else if h == 3 {
        401
    } else if h == 4 {
        432
    } else if h == 5 {
        451
    } else if h == 6 {
        457
    } else if h == 7 {
        451
    } else if h == 8 {
        432
    } else if h == 9 {
        400
    } else if h == 10 {
        355
    } else if h == 11 {
        300
    } else if h == 12 {
        243
    } else if h == 13 {
        190
    } else if h == 14 {
        138
    } else if h == 15 {
        94
    } else if h == 16 {
        57
    } else if h == 17 {
        36
    } else if h == 18 {
        25
    } else if h == 19 {
        36
    } else if h == 20 {
        57
    } else if h == 21 {
        92
    } else if h == 22 {
        133
    } else {
        190
    }
}

/// Y pixel of the tick for hour `h` of the fixed scale.
pub open spec fn spec_scale_y(h: int) -> int {
    if h == 0 {
        42
    } else if h == 1 {
        50
    } else if h == 2 {
        73
    } else if h == 3 {
        111
    } else if h == 4 {
        155
    } else if h == 5 {
        204
    } else if h == 6 {
        254
    } else if h == 7 {
        305
    } else if h == 8 {
        355
    } else if h == 9 {
        400
    } else if h == 10 {
        431
    } else if h == 11 {
        458
    } else if h == 12 {
        470
    } else if h == 13 {
        460
    } else if h == 14 {
        440
    } else if h == 15 {
        410
    } else if h == 16 {
        370
    } else if h == 17 {
        312
    } else if h == 18 {
        254
    } else if h == 19 {
        198
    } else if h == 20 {
        145
    } else if h == 21 {
        100
    } else if h == 22 {
        68
    } else {
        48
    }
}

/// Label text of the tick for hour `h` of the fixed scale: the hour
/// written in decimal.
pub open spec fn spec_scale_label(h: int) -> Seq<char> {
    if h == 0 {
        "0"@
    } else if h == 1 {
        "1"@
    } else if h == 2 {
        "2"@
    } else if h == 3 {
        "3"@
    } else if h == 4 {
        "4"@
    } else if h == 5 {
        "5"@
    } else if h == 6 {
        "6"@
    } else if h == 7 {
        "7"@
    } else if h == 8 {
        "8"@
    } else if h == 9 {
        "9"@
    } else if h == 10 {
        "10"@
    } else if h == 11 {
        "11"@
    } else if h == 12 {
        "12"@
    } else if h == 13 {
        "13"@
    } else if h == 14 {
        "14"@
    } else if h == 15 {
        "15"@
    } else if h == 16 {
        "16"@
    } else if h == 17 {
        "17"@
    } else if h == 18 {
        "18"@
    } else if h == 19 {
        "19"@
    } else if h == 20 {
        "20"@
    } else if h == 21 {
        "21"@
    } else if h == 22 {
        "22"@
    } else {
        "23"@
    }
}

/// One entry of the scale matches the fixed configuration for its hour.
pub open spec fn scale_entry_wf(e: ScaleEntry, h: int) -> bool {
    &&& e.hour == h
    &&& e.label@ == spec_scale_label(h)
    &&& e.x == spec_scale_x(h)
    &&& e.y == spec_scale_y(h)
}

/// A full well-formed scale: 24 ticks, hour `j` at position `j`.
pub open spec fn is_scale_table(s: Seq<ScaleEntry>) -> bool {
    &&& s.len() == 24
    &&& forall|j: int| 0 <= j < 24 ==> scale_entry_wf(#[trigger] s[j], j)
}

/// Every tick of the fixed scale sits inside the 500 by 500 canvas.
pub proof fn lemma_scale_in_canvas(h: int)
    requires
        0 <= h < 24,
    ensures
        0 <= spec_scale_x(h) <= 500,
        0 <= spec_scale_y(h) <= 500,
{
}

/// The tick label for hour `h` of the fixed scale.
fn scale_label(h: usize) -> (label: String)
    requires
        h < 24,
    ensures
        label@ == spec_scale_label(h as int),
{
    let text: &str = if h == 0 {
        "0"
    } else if h == 1 {
        "1"
    } else if h == 2 {
        "2"
    } else if h == 3 {
        "3"
    } else if h == 4 {
        "4"
    } else if h == 5 {
        "5"
    } else if h == 6 {
        "6"
    } else if h == 7 {
        "7"
    } else if h == 8 {
        "8"
    } else if h == 9 {
        "9"
    } else if h == 10 {
        "10"
    } else if h == 11 {
        "11"
    } else if h == 12 {
        "12"
    } else if h == 13 {
        "13"
    } else if h == 14 {
        "14"
    } else if h == 15 {
        "15"
    } else if h == 16 {
        "16"
    } else if h == 17 {
        "17"
    } else if h == 18 {
        "18"
    } else if h == 19 {
        "19"
    } else if h == 20 {
        "20"
    } else if h == 21 {
        "21"
    } else if h == 22 {
        "22"
    } else {
        "23"
    };
    String::from_str(text)
}

/// The tick of the fixed scale for hour `h`.
pub fn scale_entry(h: usize) -> (e: ScaleEntry)
    requires
        h < 24,
    ensures
        scale_entry_wf(e, h as int),
{
    let label = scale_label(h);
    let x: i64 = if h == 0 {
        244
    } else if h == 1 {
        299
    } else if h == 2 {
        352
    } else if h == 3 {
        401
    } else if h == 4 {
        432
    } else if h == 5 {
        451
    } else if h == 6 {
        457
    } else if h == 7 {
        451
    } else if h == 8 {
        432
    } else if h == 9 {
        400
    } else if h == 10 {
        355
    } else if h == 11 {
        300
    } else if h == 12 {
        243
    } else if h == 13 {
        190
    } else if h == 14 {
        138
    } else if h == 15 {
        94
    } else if h == 16 {
        57
    } else if h == 17 {
        36
    } else if h == 18 {
        25
    } else if h == 19 {
        36
    } else if h == 20 {
        57
    } else if h == 21 {
        92
    } else if h == 22 {
        133
    } else {
        190
    };
    let y: i64 = if h == 0 {
        42
    } else if h == 1 {
        50
    } else if h == 2 {
        73
    } else if h == 3 {
        111
    } else if h == 4 {
        155
    } else if h == 5 {
        204
    } else if h == 6 {
        254
    } else if h == 7 {
        305
    } else if h == 8 {
        355
    } else if h == 9 {
        400
    } else if h == 10 {
        431
    } else if h == 11 {
        458
    } else if h == 12 {
        470
    } else if h == 13 {
        460
    } else if h == 14 {
        440
    } else if h == 15 {
        410
    } else if h == 16 {
        370
    } else if h == 17 {
        312
    } else if h == 18 {
        254
    } else if h == 19 {
        198
    } else if h == 20 {
        145
    } else if h == 21 {
        100
    } else if h == 22 {
        68
    } else {
        48
    };
    ScaleEntry { label, hour: h, x, y }
}

/// The full fixed scale, hour 0 through hour 23 in order.
pub fn scale_table() -> (table: Vec<ScaleEntry>)
    ensures
        is_scale_table(table@),
{
    let mut table: Vec<ScaleEntry> = Vec::new();
    let mut h: usize = 0;
    while h < 24
        invariant
            h <= 24,
            table@.len() == h,
            forall|j: int| 0 <= j < h ==> scale_entry_wf(#[trigger] table@[j], j),
        decreases 24 - h,
    {
        let e = scale_entry(h);
        table.push(e);
        h = h + 1;
    }
    table
}

/// Anchor point of a segment label, kept exact in quarter-pixel units:
/// the pixel position is `(x4 / 4, y4 / 4)`.
pub struct AnchorPoint {
    pub x4: i64,
    pub y4: i64,
}

/// Four times the anchor x of a label for the span `start..end`: the sum
/// of the tick x at `start mod 24`, the tick x at `end mod 24`, the canvas
/// center x, and the tick x at the span's midpoint hour modulo 24.
pub open spec fn spec_anchor_x4(start: int, end: int) -> int {
    spec_scale_x(start % 24) + spec_scale_x(end % 24) + CENTER_X + spec_scale_x(
        ((start + end) / 2) % 24,
    )
}

/// Four times the anchor y of a label for the span `start..end`.
pub open spec fn spec_anchor_y4(start: int, end: int) -> int {
    spec_scale_y(start % 24) + spec_scale_y(end % 24) + CENTER_Y + spec_scale_y(
        ((start + end) / 2) % 24,
    )
}

/// Anchor point for the label of a span of hours: the average of the
/// ticks at the span's start, end and midpoint hours with the canvas
/// center, in exact quarter-pixel units.
pub fn label_anchor(scale: &Vec<ScaleEntry>, start: usize, end: usize) -> (p: AnchorPoint)
    requires
        is_scale_table(scale@),
        start + end <= usize::MAX,
    ensures
        p.x4 == spec_anchor_x4(start as int, end as int),
        p.y4 == spec_anchor_y4(start as int, end as int),
{
    let mid: usize = ((start + end) / 2) % 24;
    let from: usize = start % 24;
    let to: usize = end % 24;
    proof {
        lemma_scale_in_canvas(from as int);
        lemma_scale_in_canvas(to as int);
        lemma_scale_in_canvas(mid as int);
    }
    let x4: i64 = scale[from].x + scale[to].x + CENTER_X + scale[mid].x;
    let y4: i64 = scale[from].y + scale[to].y + CENTER_Y + scale[mid].y;
    AnchorPoint { x4, y4 }
}

} // verus!
