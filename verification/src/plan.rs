//! The chart renderer: turns a segment list into an exact drawing plan.
//!
//! A plan lists everything one render pass puts on the surface, in draw
//! order: the full background wedge, one colored wedge and one label per
//! segment, the 24 scale ticks, a small signature watermark, and an
//! optional axis cross through the center (a capability that is off by
//! default).  Angles are integer twelfths of pi and label anchors integer
//! quarter-pixels, so the plan is exact; the caller that owns the drawing
//! surface converts them at its edge.

use crate::angle::{angle_of, angle_twelfths};
use crate::palette::{color_index, spec_color_index, BACKGROUND_COLOR_INDEX};
use crate::scale::{
    is_scale_table,
    label_anchor,
    scale_table,
    spec_anchor_x4,
    spec_anchor_y4,
    spec_scale_label,
    spec_scale_x,
    spec_scale_y,
};
use crate::segments::{seg_wf, TimeSegment};
use vstd::prelude::*;

verus! {

/// Why a render pass was refused.  All three are unrecoverable for the
/// pass: the previous frame stays on screen and nothing is redrawn.
#[derive(Clone, Copy, Debug, PartialEq, Eq, Structural)]
pub enum RenderError {
    /// A required surface, input or button is absent from the host.
    MissingElement,
    /// An internal geometry invariant does not hold of the input.
    GeometryPrecondition,
    /// Exporting the finished raster failed.
    EncodingFailure,
}

/// One filled pie slice: a path from the center through the arc between
/// the two angles, filled with the palette entry at `color_index`.
pub struct WedgeCmd {
    pub color_index: usize,
    pub from_twelfths: i64,
    pub to_twelfths: i64,
}

/// One segment label, drawn at its anchor point in quarter-pixel units.
pub struct LabelCmd {
    pub text: String,
    pub x4: i64,
    pub y4: i64,
}

/// One tick of the hour scale; the quarter hours 0, 6, 12 and 18 are
/// drawn with a visually larger font.
pub struct TickCmd {
    pub label: String,
    pub x: i64,
    pub y: i64,
    pub large_font: bool,
}

/// The fixed signature watermark, drawn after the scale so that it is
/// never occluded.
pub struct SignatureCmd {
    pub text: String,
    pub x: i64,
    pub y: i64,
}

/// Everything one render pass draws, in order: background wedge, segment
/// wedges, segment labels, scale ticks, signature, and — only when
/// `axis_cross` is set — a cross through the center.
pub struct RenderPlan {
    pub background: WedgeCmd,
    pub wedges: Vec<WedgeCmd>,
    pub labels: Vec<LabelCmd>,
    pub ticks: Vec<TickCmd>,
    pub signature: SignatureCmd,
    pub axis_cross: bool,
}

/// The wedge for the segment at position `j` of `segs`: its angles are
/// the segment's hours mapped through the angle function, and its color
/// follows the positional rule, the final segment reusing the background
/// entry.
pub open spec fn wedge_matches(w: WedgeCmd, segs: Seq<TimeSegment>, j: int) -> bool {
    &&& w.color_index == spec_color_index(j, segs.len() as int)
    &&& w.from_twelfths == angle_twelfths(segs[j].start_hour as int)
    &&& w.to_twelfths == angle_twelfths(segs[j].end_hour as int)
}

/// The label command for one segment: its text, anchored at the four-point
/// average for its span.
pub open spec fn label_matches(l: LabelCmd, s: TimeSegment) -> bool {
    &&& l.text@ == s.label@
    &&& l.x4 == spec_anchor_x4(s.start_hour as int, s.end_hour as int)
    &&& l.y4 == spec_anchor_y4(s.start_hour as int, s.end_hour as int)
}

/// The tick commands are the full fixed scale in hour order, with the
/// larger font exactly on hours 0, 6, 12 and 18.
pub open spec fn ticks_match(ticks: Seq<TickCmd>) -> bool {
    &&& ticks.len() == 24
    &&& forall|j: int|
        0 <= j < 24 ==> {
            &&& (#[trigger] ticks[j]).label@ == spec_scale_label(j)
            &&& ticks[j].x == spec_scale_x(j)
            &&& ticks[j].y == spec_scale_y(j)
            &&& ticks[j].large_font == (j % 6 == 0)
        }
}

/// The whole drawing plan for `segs`: background over the full circle in
/// the background color, one wedge and one label per segment, the fixed
/// scale, the fixed signature, and the axis cross exactly as requested.
pub open spec fn plan_matches(plan: RenderPlan, segs: Seq<TimeSegment>, axis_cross: bool) -> bool {
    &&& plan.background.color_index == BACKGROUND_COLOR_INDEX
    &&& plan.background.from_twelfths == angle_twelfths(0)
    &&& plan.background.to_twelfths == angle_twelfths(24)
    &&& plan.wedges.len() == segs.len()
    &&& forall|j: int| 0 <= j < segs.len() ==> wedge_matches(#[trigger] plan.wedges[j], segs, j)
    &&& plan.labels.len() == segs.len()
    &&& forall|j: int| 0 <= j < segs.len() ==> label_matches(#[trigger] plan.labels[j], segs[j])
    &&& ticks_match(plan.ticks@)
    &&& plan.signature.text@ == "#今日の一日ぐらふ"@
    &&& plan.signature.x == 390
    &&& plan.signature.y == 460
    &&& plan.axis_cross == axis_cross
}

/// Builds the drawing plan for a list of well-formed segments.  An empty
/// list still yields the background wedge, the scale and the signature.
pub fn make_plan(segments: &Vec<TimeSegment>, axis_cross: bool) -> (plan: RenderPlan)
    requires
        forall|j: int| 0 <= j < segments@.len() ==> seg_wf(#[trigger] segments@[j]),
    ensures
        plan_matches(plan, segments@, axis_cross),
{
    let scale = scale_table();
    let n = segments.len();
    let background = WedgeCmd {
        color_index: BACKGROUND_COLOR_INDEX,
        from_twelfths: angle_of(0),
        to_twelfths: angle_of(24),
    };
    let mut wedges: Vec<WedgeCmd> = Vec::new();
    let mut j: usize = 0;
    while j < n
        invariant
            n == segments@.len(),
            forall|k: int| 0 <= k < n ==> seg_wf(#[trigger] segments@[k]),
            j <= n,
            wedges@.len() == j,
            forall|k: int| 0 <= k < j ==> wedge_matches(#[trigger] wedges@[k], segments@, k),
        decreases n - j,
    {
        let s = &segments[j];
        let w = WedgeCmd {
            color_index: color_index(j, n),
            from_twelfths: angle_of(s.start_hour),
            to_twelfths: angle_of(s.end_hour),
        };
        wedges.push(w);
        j = j + 1;
    }
    let mut labels: Vec<LabelCmd> = Vec::new();
    let mut j: usize = 0;
    while j < n
        invariant
            n == segments@.len(),
            forall|k: int| 0 <= k < n ==> seg_wf(#[trigger] segments@[k]),
            is_scale_table(scale@),
            j <= n,
            labels@.len() == j,
            forall|k: int| 0 <= k < j ==> label_matches(#[trigger] labels@[k], segments@[k]),
        decreases n - j,
    {
        let s = &segments[j];
        let anchor = label_anchor(&scale, s.start_hour, s.end_hour);
        let l = LabelCmd { text: s.label.clone(), x4: anchor.x4, y4: anchor.y4 };
        labels.push(l);
        j = j + 1;
    }
    let mut ticks: Vec<TickCmd> = Vec::new();
    let mut h: usize = 0;
    while h < 24
        invariant
            is_scale_table(scale@),
            h <= 24,
            ticks@.len() == h,
            forall|k: int|
                0 <= k < h ==> {
                    &&& (#[trigger] ticks@[k]).label@ == spec_scale_label(k)
                    &&& ticks@[k].x == spec_scale_x(k)
                    &&& ticks@[k].y == spec_scale_y(k)
                    &&& ticks@[k].large_font == (k % 6 == 0)
                },
        decreases 24 - h,
    {
        let e = &scale[h];
        let t = TickCmd { label: e.label.clone(), x: e.x, y: e.y, large_font: h % 6 == 0 };
        ticks.push(t);
        h = h + 1;
    }
    let signature = SignatureCmd { text: String::from_str("#今日の一日ぐらふ"), x: 390, y: 460 };
    RenderPlan { background, wedges, labels, ticks, signature, axis_cross }
}

/// Builds the drawing plan after validating the segment list, as a render
/// pass triggered from outside must: a list with any malformed segment is
/// refused whole with `GeometryPrecondition`, and nothing is drawn for it.
/// The plan is returned exactly when every segment is well-formed.
pub fn try_make_plan(segments: &Vec<TimeSegment>, axis_cross: bool) -> (r: Result<
    RenderPlan,
    RenderError,
>)
    ensures
        r is Ok <==> (forall|j: int| 0 <= j < segments@.len() ==> seg_wf(#[trigger] segments@[j])),
        (r matches Ok(plan) ==> plan_matches(plan, segments@, axis_cross)),
        (r matches Err(e) ==> e == RenderError::GeometryPrecondition),
{
    let mut j: usize = 0;
    while j < segments.len()
        invariant
            j <= segments@.len(),
            forall|k: int| 0 <= k < j ==> seg_wf(#[trigger] segments@[k]),
        decreases segments@.len() - j,
    {
        let s = &segments[j];
        if !(s.start_hour < 24 && s.start_hour < s.end_hour && s.end_hour <= 48) {
            return Err(RenderError::GeometryPrecondition);
        }
        j = j + 1;
    }
    Ok(make_plan(segments, axis_cross))
}

/// The fixed dataset rendered once on load: sleep from 2 to 9, work from
/// 9 to 18, Rust from 18 to 20, and the rest of life wrapping from 20
/// around to 2 of the next day.
pub fn demo_segments() -> (segs: Vec<TimeSegment>)
    ensures
        segs@.len() == 4,
        segs@[0].label@ == "睡眠"@ && segs@[0].start_hour == 2 && segs@[0].end_hour == 9,
        segs@[1].label@ == "お仕事"@ && segs@[1].start_hour == 9 && segs@[1].end_hour == 18,
        segs@[2].label@ == "Rust"@ && segs@[2].start_hour == 18 && segs@[2].end_hour == 20,
        segs@[3].label@ == "生活"@ && segs@[3].start_hour == 20 && segs@[3].end_hour == 26,
        forall|j: int| 0 <= j < segs@.len() ==> seg_wf(#[trigger] segs@[j]),
{
    let mut segs: Vec<TimeSegment> = Vec::new();
    segs.push(TimeSegment { label: String::from_str("睡眠"), start_hour: 2, end_hour: 9 });
    segs.push(TimeSegment { label: String::from_str("お仕事"), start_hour: 9, end_hour: 18 });
    segs.push(TimeSegment { label: String::from_str("Rust"), start_hour: 18, end_hour: 20 });
    segs.push(TimeSegment { label: String::from_str("生活"), start_hour: 20, end_hour: 26 });
    segs
}

/// In angle terms the wedges of a plan for contiguous segments exactly
/// tile one full turn, with no gaps and no overlaps: the background spans
/// `angle(0)` to `angle(24)` — 24 twelfths of pi, one full 2-pi turn —
/// each segment wedge begins at the angle where the previous one ends,
/// and the last wedge ends one full turn after the first begins, so the
/// segment wedges cover exactly the same angular extent as the background.
pub proof fn lemma_wedges_tile(segs: Seq<TimeSegment>)
    requires
        segs.len() >= 1,
        forall|j: int|
            0 <= j < segs.len() - 1 ==> (#[trigger] segs[j + 1]).start_hour == segs[j].end_hour,
        segs[segs.len() - 1].end_hour == segs[0].start_hour + 24,
    ensures
        angle_twelfths(24) - angle_twelfths(0) == 24,
        forall|j: int|
            0 <= j < segs.len() - 1 ==> angle_twelfths(
                (#[trigger] segs[j + 1]).start_hour as int,
            ) == angle_twelfths(segs[j].end_hour as int),
        angle_twelfths(segs[segs.len() - 1].end_hour as int) == angle_twelfths(
            segs[0].start_hour as int,
        ) + 24,
{
}

} // verus!
