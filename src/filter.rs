//! Class and confidence filtering of detections.
//!
//! A detection is kept when its class is retained (every class is, when the
//! retain list is empty), is not excluded, and its confidence reaches the
//! threshold of its class. Thresholds are given per class; when fewer are
//! given than there are classes, the last one applies to the rest.
use vstd::prelude::*;
use crate::geometry::Rect;

verus! {

/// A labelled region found in one frame.
#[derive(Clone, Copy, Debug, PartialEq, Eq, Structural)]
pub struct Detection {
    pub bbox: Rect,
    pub class_id: usize,
    /// Confidence, in millionths.
    pub conf: u32,
}

/// The class filters and per-class thresholds of a run.
pub struct ClassFilter {
    /// Classes to keep; empty keeps every class.
    pub retain: Vec<usize>,
    /// Classes to drop.
    pub exclude: Vec<usize>,
    /// Per-class thresholds, in millionths; the last applies to the classes
    /// beyond the list. Empty means no threshold.
    pub confs: Vec<u32>,
}

/// The threshold of entry `k`: its own, else the last one given, else zero.
pub open spec fn threshold_for(confs: Seq<u32>, k: int) -> u32 {
    if confs.len() == 0 {
        0
    } else if k < confs.len() {
        confs[k]
    } else {
        confs.last()
    }
}

/// Whether a detection of class `k` with confidence `c` passes the filters.
pub open spec fn passes(retain: Seq<usize>, exclude: Seq<usize>, confs: Seq<u32>, k: usize, c: u32) -> bool {
    &&& (retain.len() == 0 || retain.contains(k))
    &&& !exclude.contains(k)
    &&& c >= threshold_for(confs, k as int)
}

impl ClassFilter {
    pub open spec fn keeps(&self, d: Detection) -> bool {
        passes(self.retain@, self.exclude@, self.confs@, d.class_id, d.conf)
    }
}

/// The detections of `s` that `f` keeps, in their order.
pub open spec fn filtered(s: Seq<Detection>, f: ClassFilter) -> Seq<Detection>
    decreases s.len(),
{
    if s.len() == 0 {
        s
    } else if f.keeps(s.last()) {
        filtered(s.drop_last(), f).push(s.last())
    } else {
        filtered(s.drop_last(), f)
    }
}

fn holds_class(v: &Vec<usize>, k: usize) -> (r: bool)
    ensures
        r == v@.contains(k),
{
    let mut i: usize = 0;
    while i < v.len()
        invariant
            0 <= i <= v@.len(),
            forall|t: int| 0 <= t < i ==> v@[t] != k,
        decreases v.len() - i,
    {
        if v[i] == k {
            return true;
        }
        i = i + 1;
    }
    false
}

/// The threshold of entry `k` under the fill rule: its own when given, else
/// the last one given; zero when none is given. Serves class and keypoint
/// thresholds alike.
pub fn conf_threshold(confs: &Vec<u32>, k: usize) -> (r: u32)
    ensures
        r == threshold_for(confs@, k as int),
{
    if confs.len() == 0 {
        0
    } else if k < confs.len() {
        confs[k]
    } else {
        confs[confs.len() - 1]
    }
}

/// Whether a keypoint at index `k` with confidence `c` is shown.
pub fn keypoint_visible(keypoint_confs: &Vec<u32>, k: usize, c: u32) -> (r: bool)
    ensures
        r == (c >= threshold_for(keypoint_confs@, k as int)),
{
    c >= conf_threshold(keypoint_confs, k)
}

impl ClassFilter {
    /// Whether the detection passes the filters.
    pub fn keep(&self, d: &Detection) -> (r: bool)
        ensures
            r == self.keeps(*d),
    {
        let k = d.class_id;
        (self.retain.len() == 0 || holds_class(&self.retain, k)) && !holds_class(&self.exclude, k)
            && d.conf >= conf_threshold(&self.confs, k)
    }

    /// The detections that pass the filters, in their order.
    pub fn filter_detections(&self, dets: &Vec<Detection>) -> (r: Vec<Detection>)
        ensures
            r@ == filtered(dets@, *self),
    {
        let mut out: Vec<Detection> = Vec::new();
        let mut i: usize = 0;
        while i < dets.len()
            invariant
                0 <= i <= dets@.len(),
                out@ == filtered(dets@.take(i as int), *self),
            decreases dets.len() - i,
        {
            let d = dets[i];
            proof {
                let s = dets@.take(i as int + 1);
                assert(s.drop_last() =~= dets@.take(i as int));
                assert(s.last() == d);
            }
            if self.keep(&d) {
                out.push(d);
            }
            i = i + 1;
        }
        assert(dets@.take(i as int) =~= dets@);
        out
    }
}

/// A detection is in the filtered output exactly when it is in the input and
/// passes the filters: its class is retained (or nothing is retained), not
/// excluded, and its confidence reaches its class's threshold.
pub proof fn lemma_filter_exact(dets: Seq<Detection>, f: ClassFilter)
    ensures
        forall|d: Detection| #[trigger] filtered(dets, f).contains(d) <==> (dets.contains(d) && f.keeps(d)),
    decreases dets.len(),
{
    if dets.len() > 0 {
        let p = dets.drop_last();
        lemma_filter_exact(p, f);
        assert forall|d: Detection| #[trigger] filtered(dets, f).contains(d) <==> (dets.contains(d) && f.keeps(d)) by {
            assert(dets =~= p.push(dets.last()));
            if dets.contains(d) && d != dets.last() {
                let j = choose|j: int| 0 <= j < dets.len() && dets[j] == d;
                assert(p[j] == d);
            }
            if p.contains(d) {
                let j = choose|j: int| 0 <= j < p.len() && p[j] == d;
                assert(dets[j] == d);
            }
            let q = filtered(p, f);
            if f.keeps(dets.last()) {
                assert(filtered(dets, f) == q.push(dets.last()));
                if q.push(dets.last()).contains(d) && d != dets.last() {
                    let j = choose|j: int| 0 <= j < q.len() + 1 && q.push(dets.last())[j] == d;
                    assert(q[j] == d);
                }
                if q.contains(d) {
                    let j = choose|j: int| 0 <= j < q.len() && q[j] == d;
                    assert(q.push(dets.last())[j] == d);
                }
                assert(q.push(dets.last())[q.len() as int] == dets.last());
            }
            assert(dets[dets.len() - 1] == dets.last());
        }
    }
}

} // verus!
