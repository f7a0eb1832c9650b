//! The root node of the window tree: it holds the outputs and its extents
//! are their bounding box.

use vstd::prelude::*;

use crate::backend::ConnectorId;
use crate::rect::Rect;

verus! {

/// Bound on output coordinates, generous enough for any real layout.
pub const OUTPUT_LIMIT: i32 = 0x1000_0000;

/// The root node: its extents and the position of every output.
#[derive(Clone, Debug)]
pub struct DisplayNode {
    pub id: u64,
    pub extents: Rect,
    /// The outputs and their global positions.
    pub outputs: Vec<(ConnectorId, Rect)>,
}

/// The least left edge among the outputs, starting from `i32::MAX`.
pub open spec fn spec_min_x1(outputs: Seq<(ConnectorId, Rect)>) -> int
    decreases outputs.len(),
{
    if outputs.len() == 0 {
        i32::MAX as int
    } else {
        let rest = spec_min_x1(outputs.drop_last());
        let v = outputs.last().1.spec_x1() as int;
        if v < rest {
            v
        } else {
            rest
        }
    }
}

/// The least top edge among the outputs.
pub open spec fn spec_min_y1(outputs: Seq<(ConnectorId, Rect)>) -> int
    decreases outputs.len(),
{
    if outputs.len() == 0 {
        i32::MAX as int
    } else {
        let rest = spec_min_y1(outputs.drop_last());
        let v = outputs.last().1.spec_y1() as int;
        if v < rest {
            v
        } else {
            rest
        }
    }
}

/// The greatest right edge among the outputs, starting from `i32::MIN`.
pub open spec fn spec_max_x2(outputs: Seq<(ConnectorId, Rect)>) -> int
    decreases outputs.len(),
{
    if outputs.len() == 0 {
        i32::MIN as int
    } else {
        let rest = spec_max_x2(outputs.drop_last());
        let v = outputs.last().1.spec_x2() as int;
        if v > rest {
            v
        } else {
            rest
        }
    }
}

/// The greatest bottom edge among the outputs.
pub open spec fn spec_max_y2(outputs: Seq<(ConnectorId, Rect)>) -> int
    decreases outputs.len(),
{
    if outputs.len() == 0 {
        i32::MIN as int
    } else {
        let rest = spec_max_y2(outputs.drop_last());
        let v = outputs.last().1.spec_y2() as int;
        if v > rest {
            v
        } else {
            rest
        }
    }
}

/// Every output position is well formed and bounded.
pub open spec fn spec_outputs_bounded(outputs: Seq<(ConnectorId, Rect)>) -> bool {
    forall|j: int|
        0 <= j < outputs.len() ==> {
            let p = (#[trigger] outputs[j]).1;
            &&& p.wf()
            &&& -OUTPUT_LIMIT <= p.spec_x1()
            &&& p.spec_x2() <= OUTPUT_LIMIT
            &&& -OUTPUT_LIMIT <= p.spec_y1()
            &&& p.spec_y2() <= OUTPUT_LIMIT
        }
}

impl DisplayNode {
    /// An empty root node.
    pub fn new(id: u64) -> (r: DisplayNode)
        ensures
            r.id == id,
            r.outputs@.len() == 0,
            r.extents.wf(),
    {
        DisplayNode { id, extents: Rect::zero(), outputs: Vec::new() }
    }

    /// Forgets every output.
    pub fn clear(&mut self)
        ensures
            final(self).outputs@.len() == 0,
            final(self).id == old(self).id,
            final(self).extents == old(self).extents,
    {
        self.outputs = Vec::new();
    }

    /// Recomputes the extents as the bounding box of the outputs; an axis
    /// with no extent collapses to zero.
    pub fn update_extents(&mut self)
        requires
            spec_outputs_bounded(old(self).outputs@),
        ensures
            final(self).outputs@ == old(self).outputs@,
            final(self).id == old(self).id,
            final(self).extents.wf(),
            ({
                let x1 = spec_min_x1(old(self).outputs@);
                let x2 = spec_max_x2(old(self).outputs@);
                let y1 = spec_min_y1(old(self).outputs@);
                let y2 = spec_max_y2(old(self).outputs@);
                &&& (x1 < x2 ==> final(self).extents.spec_x1() == x1 && final(self).extents.spec_x2() == x2)
                &&& (x1 >= x2 ==> final(self).extents.spec_x1() == 0 && final(self).extents.spec_x2() == 0)
                &&& (y1 < y2 ==> final(self).extents.spec_y1() == y1 && final(self).extents.spec_y2() == y2)
                &&& (y1 >= y2 ==> final(self).extents.spec_y1() == 0 && final(self).extents.spec_y2() == 0)
            }),
    {
        let mut x1: i32 = i32::MAX;
        let mut y1: i32 = i32::MAX;
        let mut x2: i32 = i32::MIN;
        let mut y2: i32 = i32::MIN;
        let n = self.outputs.len();
        for i in 0..n
            invariant
                n == self.outputs@.len(),
                spec_outputs_bounded(self.outputs@),
                x1 == spec_min_x1(self.outputs@.take(i as int)),
                y1 == spec_min_y1(self.outputs@.take(i as int)),
                x2 == spec_max_x2(self.outputs@.take(i as int)),
                y2 == spec_max_y2(self.outputs@.take(i as int)),
        {
            proof {
                assert(self.outputs@.take(i + 1).drop_last() =~= self.outputs@.take(i as int));
                assert(self.outputs@.take(i + 1).last() == self.outputs@[i as int]);
            }
            let pos = self.outputs[i].1;
            if pos.x1() < x1 {
                x1 = pos.x1();
            }
            if pos.y1() < y1 {
                y1 = pos.y1();
            }
            if pos.x2() > x2 {
                x2 = pos.x2();
            }
            if pos.y2() > y2 {
                y2 = pos.y2();
            }
        }
        proof {
            assert(self.outputs@.take(n as int) =~= self.outputs@);
        }
        if x1 >= x2 {
            x1 = 0;
            x2 = 0;
        }
        if y1 >= y2 {
            y1 = 0;
            y2 = 0;
        }
        proof {
            lemma_min_x1_bounded(self.outputs@);
            lemma_extents_bounded(self.outputs@);
        }
        self.extents = Rect::new(x1, y1, x2, y2).unwrap();
    }
}

/// The fold results stay within the output bound or at their neutral
/// values.
proof fn lemma_min_x1_bounded(outputs: Seq<(ConnectorId, Rect)>)
    requires
        spec_outputs_bounded(outputs),
    ensures
        spec_min_x1(outputs) == i32::MAX || -OUTPUT_LIMIT <= spec_min_x1(outputs) <= OUTPUT_LIMIT,
    decreases outputs.len(),
{
    if outputs.len() > 0 {
        assert(spec_outputs_bounded(outputs.drop_last()));
        lemma_min_x1_bounded(outputs.drop_last());
    }
}

/// All four folds stay within the output bound or at their neutral values.
proof fn lemma_extents_bounded(outputs: Seq<(ConnectorId, Rect)>)
    requires
        spec_outputs_bounded(outputs),
    ensures
        spec_min_x1(outputs) == i32::MAX || -OUTPUT_LIMIT <= spec_min_x1(outputs) <= OUTPUT_LIMIT,
        spec_min_y1(outputs) == i32::MAX || -OUTPUT_LIMIT <= spec_min_y1(outputs) <= OUTPUT_LIMIT,
        spec_max_x2(outputs) == i32::MIN || -OUTPUT_LIMIT <= spec_max_x2(outputs) <= OUTPUT_LIMIT,
        spec_max_y2(outputs) == i32::MIN || -OUTPUT_LIMIT <= spec_max_y2(outputs) <= OUTPUT_LIMIT,
    decreases outputs.len(),
{
    if outputs.len() > 0 {
        assert(spec_outputs_bounded(outputs.drop_last()));
        lemma_extents_bounded(outputs.drop_last());
    }
}

} // verus!
