//! Labeled time segments and their reconstruction from per-hour inputs.
//!
//! The chart is edited through 24 text slots, one per hour.  A non-empty
//! slot opens a segment at its hour; the segment runs until the next
//! non-empty slot, and the last segment wraps around midnight to the first
//! non-empty hour of the next day, so its end hour exceeds 24.

use vstd::prelude::*;

verus! {

/// A labeled span of hours, rendered as one wedge of the chart.
///
/// `end_hour` may exceed 24 to express a span that wraps past midnight:
/// a segment from hour 20 to hour 26 ends at 2 o'clock of the next day.
#[derive(Clone, Debug)]
pub struct TimeSegment {
    pub label: String,
    pub start_hour: usize,
    pub end_hour: usize,
}

/// Well-formedness of one segment as reconstruction produces it: it starts
/// inside the day, lasts at least one hour, and wraps at most once.
pub open spec fn seg_wf(s: TimeSegment) -> bool {
    &&& s.start_hour < 24
    &&& s.start_hour < s.end_hour
    &&& s.end_hour <= 48
}

/// The hours whose input slot is non-empty, in increasing order.
pub open spec fn nonempty_hours(inputs: Seq<Seq<char>>) -> Seq<int>
    decreases inputs.len(),
{
    if inputs.len() == 0 {
        Seq::empty()
    } else if inputs.last().len() > 0 {
        nonempty_hours(inputs.drop_last()).push(inputs.len() - 1)
    } else {
        nonempty_hours(inputs.drop_last())
    }
}

/// The segments that a slate of input slots describes, each as a triple of
/// label, start hour and end hour: one segment per non-empty slot, running
/// to the next non-empty hour, the last one wrapping to the first
/// non-empty hour plus 24.
pub open spec fn reconstructed(inputs: Seq<Seq<char>>) -> Seq<(Seq<char>, int, int)> {
    let ks = nonempty_hours(inputs);
    Seq::new(
        ks.len(),
        |j: int|
            (
                inputs[ks[j]],
                ks[j],
                if j == ks.len() - 1 {
                    ks[0] + 24
                } else {
                    ks[j + 1]
                },
            ),
    )
}

/// The non-empty hours are in range, strictly increasing, and each really
/// names a non-empty slot.
pub proof fn lemma_nonempty_hours_props(inputs: Seq<Seq<char>>)
    ensures
        forall|j: int|
            0 <= j < nonempty_hours(inputs).len() ==> 0 <= #[trigger] nonempty_hours(inputs)[j]
                < inputs.len(),
        forall|j: int|
            0 <= j < nonempty_hours(inputs).len() - 1 ==> #[trigger] nonempty_hours(inputs)[j]
                < nonempty_hours(inputs)[j + 1],
        forall|j: int|
            0 <= j < nonempty_hours(inputs).len() ==> inputs[#[trigger] nonempty_hours(
                inputs,
            )[j]].len() > 0,
    decreases inputs.len(),
{
    if inputs.len() > 0 {
        let pre = inputs.drop_last();
        let kpre = nonempty_hours(pre);
        let ks = nonempty_hours(inputs);
        lemma_nonempty_hours_props(pre);
        assert(forall|i: int| 0 <= i < pre.len() ==> pre[i] == inputs[i]);
        if inputs.last().len() > 0 {
            assert(ks == kpre.push(inputs.len() - 1));
            assert forall|j: int| 0 <= j < ks.len() implies 0 <= ks[j] < inputs.len()
                && inputs[ks[j]].len() > 0 by {
                if j < kpre.len() {
                    assert(ks[j] == kpre[j]);
                    assert(inputs[kpre[j]] == pre[kpre[j]]);
                } else {
                    assert(ks[j] == inputs.len() - 1);
                    assert(inputs[inputs.len() - 1] == inputs.last());
                }
            }
            assert forall|j: int| 0 <= j < ks.len() - 1 implies #[trigger] ks[j] < ks[j + 1] by {
                if j + 1 < kpre.len() {
                    assert(ks[j] == kpre[j] && ks[j + 1] == kpre[j + 1]);
                } else {
                    assert(ks[j] == kpre[j] && kpre[j] < pre.len());
                    assert(ks[j + 1] == inputs.len() - 1);
                }
            }
        } else {
            assert(ks == kpre);
            assert forall|j: int| 0 <= j < ks.len() implies 0 <= ks[j] < inputs.len()
                && inputs[ks[j]].len() > 0 by {
                assert(inputs[kpre[j]] == pre[kpre[j]]);
            }
        }
    }
}

/// Reconstructing from a slate of all-empty slots yields no non-empty
/// hours, hence no segments.
pub proof fn lemma_reconstruct_all_empty(inputs: Seq<Seq<char>>)
    requires
        forall|i: int| 0 <= i < inputs.len() ==> #[trigger] inputs[i].len() == 0,
    ensures
        reconstructed(inputs).len() == 0,
{
    lemma_all_slots_empty_no_hours(inputs);
}

proof fn lemma_single_nonempty_hour(inputs: Seq<Seq<char>>, k: int)
    requires
        0 <= k < inputs.len(),
        inputs[k].len() > 0,
        forall|i: int| 0 <= i < inputs.len() && i != k ==> #[trigger] inputs[i].len() == 0,
    ensures
        nonempty_hours(inputs) =~= seq![k],
    decreases inputs.len(),
{
    let pre = inputs.drop_last();
    assert(forall|i: int| 0 <= i < pre.len() ==> pre[i] == inputs[i]);
    if k == inputs.len() - 1 {
        assert(forall|i: int| 0 <= i < pre.len() ==> #[trigger] pre[i].len() == 0);
        lemma_all_slots_empty_no_hours(pre);
    } else {
        assert(inputs[inputs.len() - 1].len() == 0);
        lemma_single_nonempty_hour(pre, k);
    }
}

proof fn lemma_all_slots_empty_no_hours(inputs: Seq<Seq<char>>)
    requires
        forall|i: int| 0 <= i < inputs.len() ==> #[trigger] inputs[i].len() == 0,
    ensures
        nonempty_hours(inputs).len() == 0,
    decreases inputs.len(),
{
    if inputs.len() > 0 {
        let pre = inputs.drop_last();
        assert(inputs[inputs.len() - 1].len() == 0);
        assert(forall|i: int| 0 <= i < pre.len() ==> pre[i] == inputs[i]);
        lemma_all_slots_empty_no_hours(pre);
    }
}

/// With exactly one non-empty slot, at hour `k` with label `l`,
/// reconstruction yields exactly one segment: label `l`, start `k`, and
/// end `k + 24` — a wraparound span covering the whole day.
pub proof fn lemma_reconstruct_single_slot(inputs: Seq<Seq<char>>, k: int)
    requires
        0 <= k < inputs.len(),
        inputs[k].len() > 0,
        forall|i: int| 0 <= i < inputs.len() && i != k ==> #[trigger] inputs[i].len() == 0,
    ensures
        reconstructed(inputs).len() == 1,
        reconstructed(inputs)[0] == (inputs[k], k, k + 24),
{
    lemma_single_nonempty_hour(inputs, k);
    assert(nonempty_hours(inputs) == seq![k]);
}

/// Consecutive reconstructed segments meet exactly: each segment starts at
/// the hour where the previous one ends, and the last segment ends at the
/// first segment's start hour plus one full day.
pub proof fn lemma_reconstructed_contiguous(inputs: Seq<Seq<char>>)
    ensures
        forall|j: int|
            0 <= j < reconstructed(inputs).len() - 1 ==> (#[trigger] reconstructed(inputs)[j
                + 1]).1 == reconstructed(inputs)[j].2,
        reconstructed(inputs).len() >= 1 ==> reconstructed(inputs)[reconstructed(
            inputs,
        ).len() - 1].2 == reconstructed(inputs)[0].1 + 24,
{
}

/// Builds the segment list from the 24 per-hour input slots, scanned in
/// order.  Each non-empty slot opens a segment that runs to the next
/// non-empty hour; the last one wraps to the first non-empty hour plus 24.
/// All-empty input yields the empty list.
pub fn reconstruct_segments(inputs: &Vec<String>) -> (segs: Vec<TimeSegment>)
    requires
        inputs@.len() == 24,
    ensures
        ({
            let models = reconstructed(inputs.deep_view());
            &&& segs@.len() == models.len()
            &&& forall|j: int|
                0 <= j < segs@.len() ==> {
                    &&& (#[trigger] segs@[j]).label@ == models[j].0
                    &&& segs@[j].start_hour == models[j].1
                    &&& segs@[j].end_hour == models[j].2
                }
            &&& forall|j: int| 0 <= j < segs@.len() ==> seg_wf(#[trigger] segs@[j])
        }),
{
    let ghost dv = inputs.deep_view();
    proof {
        assert(dv.len() == 24);
    }
    let mut segs: Vec<TimeSegment> = Vec::new();
    let mut pending_label: String = String::new();
    let mut pending_hour: usize = 0;
    let mut first_hour: usize = 0;
    let mut first: bool = true;
    let mut i: usize = 0;
    while i < 24
        invariant
            inputs@.len() == 24,
            dv == inputs.deep_view(),
            dv.len() == 24,
            i <= 24,
            first <==> nonempty_hours(dv.take(i as int)).len() == 0,
            first ==> pending_label@.len() == 0 && segs@.len() == 0,
            !first ==> ({
                let ks = nonempty_hours(dv.take(i as int));
                &&& first_hour == ks[0]
                &&& pending_hour == ks.last()
                &&& pending_hour < i
                &&& pending_label@ == dv[ks.last()]
                &&& pending_label@.len() > 0
                &&& segs@.len() == ks.len() - 1
            }),
            forall|j: int|
                0 <= j < segs@.len() ==> ({
                    let ks = nonempty_hours(dv.take(i as int));
                    &&& (#[trigger] segs@[j]).label@ == dv[ks[j]]
                    &&& segs@[j].start_hour == ks[j]
                    &&& segs@[j].end_hour == ks[j + 1]
                }),
        decreases 24 - i,
    {
        proof {
            assert(dv.take(i + 1).drop_last() =~= dv.take(i as int));
            assert(dv.take(i + 1).last() == dv[i as int]);
        }
        let slot_filled = !inputs[i].as_str().is_empty();
        proof {
            assert(inputs@[i as int].deep_view() == dv[i as int]);
        }
        if slot_filled {
            if !first {
                let seg = TimeSegment {
                    label: pending_label.clone(),
                    start_hour: pending_hour,
                    end_hour: i,
                };
                segs.push(seg);
            } else {
                first_hour = i;
                first = false;
            }
            pending_hour = i;
            pending_label = inputs[i].clone();
        }
        i = i + 1;
    }
    proof {
        assert(dv.take(24) =~= dv);
        lemma_nonempty_hours_props(dv);
    }
    if !first {
        let seg = TimeSegment {
            label: pending_label,
            start_hour: pending_hour,
            end_hour: first_hour + 24,
        };
        segs.push(seg);
    }
    segs
}

} // verus!
