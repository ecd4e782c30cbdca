//! Per-vertex skin weights.
//!
//! A vertex can be driven by at most four joints. The builder records
//! (joint, weight-index) contributions in encounter order and ignores
//! anything past the fourth, so a fifth contribution can never disturb
//! the four already stored. The accumulator mirrors the importer's
//! grow-or-append pass over the bind data's vertex-weight list: a
//! contribution for a fresh vertex opens a new entry, any other
//! contribution lands on the latest entry.

use vstd::prelude::*;

verus! {

/// The skin weights of one vertex: parallel joint and weight-index
/// slots, and how many of them are in use.
#[derive(Clone, Copy, Debug)]
pub struct VertexWeights {
    pub joint_i: [u8; 4],
    pub weights: [usize; 4],
    pub joint_c: usize,
}

/// The mathematical view of a weight record: both slot arrays as
/// sequences, and the used count.
pub ghost struct VwView {
    pub joints: Seq<u8>,
    pub weights: Seq<usize>,
    pub count: int,
}

impl View for VertexWeights {
    type V = VwView;

    open spec fn view(&self) -> VwView {
        VwView { joints: self.joint_i@, weights: self.weights@, count: self.joint_c as int }
    }
}

/// Four slots, a count within them.
pub open spec fn vw_wf(v: VwView) -> bool {
    v.joints.len() == 4 && v.weights.len() == 4 && 0 <= v.count <= 4
}

/// A fresh record holding one contribution.
pub open spec fn vw_init(joint: u8, weight: usize) -> VwView {
    VwView { joints: seq![joint, 0, 0, 0], weights: seq![weight, 0, 0, 0], count: 1 }
}

/// One more contribution: appended in encounter order while a slot is
/// free, ignored once all four are taken.
pub open spec fn vw_push(v: VwView, joint: u8, weight: usize) -> VwView {
    if v.count < 4 {
        VwView {
            joints: v.joints.update(v.count, joint),
            weights: v.weights.update(v.count, weight),
            count: v.count + 1,
        }
    } else {
        v
    }
}

impl VertexWeights {
    /// A record opened by its first contribution.
    pub fn first(joint: u8, weight: usize) -> (r: VertexWeights)
        ensures
            r@ == vw_init(joint, weight),
            vw_wf(r@),
    {
        let r = VertexWeights { joint_i: [joint, 0, 0, 0], weights: [weight, 0, 0, 0], joint_c: 1 };
        proof {
            assert(r@.joints =~= seq![joint, 0u8, 0u8, 0u8]);
            assert(r@.weights =~= seq![weight, 0usize, 0usize, 0usize]);
        }
        r
    }

    /// Record one more contribution. While fewer than four slots are
    /// used it lands in the next slot and the earlier slots keep their
    /// values; from the fifth contribution on, the record is unchanged.
    pub fn push_entry(&mut self, joint: u8, weight: usize)
        requires
            vw_wf(old(self)@),
        ensures
            final(self)@ == vw_push(old(self)@, joint, weight),
            vw_wf(final(self)@),
    {
        let c = self.joint_c;
        if c < 4 {
            let ji = self.joint_i;
            let ws = self.weights;
            let nji: [u8; 4] = if c == 0 {
                [joint, ji[1], ji[2], ji[3]]
            } else if c == 1 {
                [ji[0], joint, ji[2], ji[3]]
            } else if c == 2 {
                [ji[0], ji[1], joint, ji[3]]
            } else {
                [ji[0], ji[1], ji[2], joint]
            };
            let nws: [usize; 4] = if c == 0 {
                [weight, ws[1], ws[2], ws[3]]
            } else if c == 1 {
                [ws[0], weight, ws[2], ws[3]]
            } else if c == 2 {
                [ws[0], ws[1], weight, ws[3]]
            } else {
                [ws[0], ws[1], ws[2], weight]
            };
            self.joint_i = nji;
            self.weights = nws;
            self.joint_c = c + 1;
            proof {
                assert(final(self)@.joints =~= vw_push(old(self)@, joint, weight).joints);
                assert(final(self)@.weights =~= vw_push(old(self)@, joint, weight).weights);
            }
        }
    }
}

/// One line of the importer's bind data: a vertex, a joint, and an
/// index into the weight-value table.
#[derive(Clone, Copy, Debug, PartialEq, Eq, Structural)]
pub struct WeightEntry {
    pub vertex: usize,
    pub joint: u8,
    pub weight: usize,
}

/// The accumulated records after a run of contributions: a contribution
/// for a vertex at or past the current length opens a new record,
/// anything else lands on the latest record.
pub open spec fn accum_val(entries: Seq<WeightEntry>) -> Seq<VwView>
    decreases entries.len(),
{
    if entries.len() == 0 {
        Seq::empty()
    } else {
        let prev = accum_val(entries.drop_last());
        let e = entries.last();
        if e.vertex >= prev.len() || prev.len() == 0 {
            prev.push(vw_init(e.joint, e.weight))
        } else {
            prev.update(prev.len() - 1, vw_push(prev[prev.len() - 1], e.joint, e.weight))
        }
    }
}

/// The views of a vector of weight records.
pub open spec fn vw_views(vs: Seq<VertexWeights>) -> Seq<VwView> {
    vs.map_values(|v: VertexWeights| v@)
}

/// Accumulate the importer's vertex-weight list into per-vertex
/// records, capped at four contributions each.
pub fn accumulate_weights(entries: &Vec<WeightEntry>) -> (r: Vec<VertexWeights>)
    ensures
        vw_views(r@) == accum_val(entries@),
        forall|i: int| 0 <= i < r.len() ==> vw_wf(#[trigger] r@[i]@),
{
    let mut out: Vec<VertexWeights> = Vec::new();
    let n = entries.len();
    for i in 0..n
        invariant
            n == entries.len(),
            vw_views(out@) == accum_val(entries@.take(i as int)),
            forall|k: int| 0 <= k < out.len() ==> vw_wf(#[trigger] out@[k]@),
    {
        let e = entries[i];
        proof {
            assert(entries@.take(i + 1).drop_last() =~= entries@.take(i as int));
            assert(entries@.take(i + 1).last() == entries@[i as int]);
        }
        if e.vertex >= out.len() || out.len() == 0 {
            out.push(VertexWeights::first(e.joint, e.weight));
            proof {
                assert(vw_views(out@) =~= accum_val(entries@.take(i + 1)));
            }
        } else {
            let last = out.len() - 1;
            let mut v = out[last];
            v.push_entry(e.joint, e.weight);
            out.set(last, v);
            proof {
                assert(vw_views(out@) =~= accum_val(entries@.take(i + 1)));
            }
        }
    }
    proof {
        assert(entries@.take(n as int) =~= entries@);
    }
    out
}

} // verus!
