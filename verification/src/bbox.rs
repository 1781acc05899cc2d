//! Pixel bounding boxes of rasterized glyphs.

use vstd::prelude::*;

verus! {

/// An axis-aligned box in device pixels. The minimum edges are inclusive,
/// the maximum edges exclusive; `y` grows upwards from the baseline.
#[derive(Clone, Copy, Debug, PartialEq, Eq, Structural)]
pub struct BBox {
    pub x_min: i64,
    pub y_min: i64,
    pub x_max: i64,
    pub y_max: i64,
}

impl BBox {
    /// Neither extent is negative.
    pub open spec fn well_formed(self) -> bool {
        self.x_min <= self.x_max && self.y_min <= self.y_max
    }

    /// The number of pixel columns.
    pub open spec fn width(self) -> int {
        self.x_max - self.x_min
    }

    /// The number of pixel rows.
    pub open spec fn height(self) -> int {
        self.y_max - self.y_min
    }

    /// `self` lies inside `outer`.
    pub open spec fn within(self, outer: BBox) -> bool {
        outer.x_min <= self.x_min && self.x_max <= outer.x_max && outer.y_min <= self.y_min
            && self.y_max <= outer.y_max
    }

    /// The box that every union starts from: it holds nothing, and its union
    /// with any box is that box.
    pub open spec fn spec_nothing() -> BBox {
        BBox { x_min: i64::MAX, y_min: i64::MAX, x_max: i64::MIN, y_max: i64::MIN }
    }

    /// Component-wise minimum of the lower edges and maximum of the upper edges.
    pub open spec fn spec_union(a: BBox, b: BBox) -> BBox {
        BBox {
            x_min: if a.x_min <= b.x_min { a.x_min } else { b.x_min },
            y_min: if a.y_min <= b.y_min { a.y_min } else { b.y_min },
            x_max: if a.x_max >= b.x_max { a.x_max } else { b.x_max },
            y_max: if a.y_max >= b.y_max { a.y_max } else { b.y_max },
        }
    }

    /// The union of a list of boxes, taken from the first to the last.
    pub open spec fn spec_union_all(boxes: Seq<BBox>) -> BBox
        decreases boxes.len(),
    {
        if boxes.len() == 0 {
            BBox::spec_nothing()
        } else {
            BBox::spec_union(BBox::spec_union_all(boxes.drop_last()), boxes.last())
        }
    }

    /// The box that holds nothing.
    pub fn nothing() -> (r: BBox)
        ensures
            r == BBox::spec_nothing(),
    {
        BBox { x_min: i64::MAX, y_min: i64::MAX, x_max: i64::MIN, y_max: i64::MIN }
    }

    /// The smallest box that holds both `a` and `b`.
    pub fn union(a: &BBox, b: &BBox) -> (r: BBox)
        ensures
            r == BBox::spec_union(*a, *b),
    {
        BBox {
            x_min: if a.x_min <= b.x_min { a.x_min } else { b.x_min },
            y_min: if a.y_min <= b.y_min { a.y_min } else { b.y_min },
            x_max: if a.x_max >= b.x_max { a.x_max } else { b.x_max },
            y_max: if a.y_max >= b.y_max { a.y_max } else { b.y_max },
        }
    }

    /// The smallest box that holds every box of the list.
    pub fn union_all(boxes: &Vec<BBox>) -> (r: BBox)
        ensures
            r == BBox::spec_union_all(boxes@),
    {
        let mut acc = BBox::nothing();
        let mut i: usize = 0;
        while i < boxes.len()
            invariant
                i <= boxes.len(),
                acc == BBox::spec_union_all(boxes@.subrange(0, i as int)),
            decreases boxes.len() - i,
        {
            assert(boxes@.subrange(0, i + 1).drop_last() =~= boxes@.subrange(0, i as int));
            acc = BBox::union(&acc, &boxes[i]);
            i += 1;
        }
        assert(boxes@.subrange(0, i as int) =~= boxes@);
        acc
    }
}

/// The union of a list that is not empty holds each of its boxes, and each of
/// its edges is the edge of one of them: the least lower edge and the greatest
/// upper edge on either axis.
pub proof fn lemma_union_all_is_tight(boxes: Seq<BBox>)
    requires
        boxes.len() > 0,
    ensures
        forall|i: int| 0 <= i < boxes.len() ==> (#[trigger] boxes[i]).within(BBox::spec_union_all(boxes)),
        exists|i: int| 0 <= i < boxes.len() && (#[trigger] boxes[i]).x_min == BBox::spec_union_all(boxes).x_min,
        exists|i: int| 0 <= i < boxes.len() && (#[trigger] boxes[i]).y_min == BBox::spec_union_all(boxes).y_min,
        exists|i: int| 0 <= i < boxes.len() && (#[trigger] boxes[i]).x_max == BBox::spec_union_all(boxes).x_max,
        exists|i: int| 0 <= i < boxes.len() && (#[trigger] boxes[i]).y_max == BBox::spec_union_all(boxes).y_max,
    decreases boxes.len(),
{
    let all = BBox::spec_union_all(boxes);
    let last = boxes.len() - 1;
    if boxes.len() == 1 {
        assert(boxes.drop_last().len() == 0);
        assert(BBox::spec_union_all(boxes.drop_last()) == BBox::spec_nothing());
        assert(boxes.last() == boxes[0]);
        assert(all == boxes[0]);
        assert(boxes[0].x_min == all.x_min && boxes[0].y_min == all.y_min);
        assert(boxes[0].x_max == all.x_max && boxes[0].y_max == all.y_max);
    } else {
        let front = boxes.drop_last();
        lemma_union_all_is_tight(front);
        let part = BBox::spec_union_all(front);
        assert forall|i: int| 0 <= i < boxes.len() implies (#[trigger] boxes[i]).within(all) by {
            if i < last {
                assert(front[i].within(part));
            }
        }
        let a = choose|i: int| 0 <= i < front.len() && (#[trigger] front[i]).x_min == part.x_min;
        let b = choose|i: int| 0 <= i < front.len() && (#[trigger] front[i]).y_min == part.y_min;
        let c = choose|i: int| 0 <= i < front.len() && (#[trigger] front[i]).x_max == part.x_max;
        let d = choose|i: int| 0 <= i < front.len() && (#[trigger] front[i]).y_max == part.y_max;
        assert(boxes[a] == front[a] && boxes[b] == front[b] && boxes[c] == front[c] && boxes[d] == front[d]);
        let ka = if part.x_min <= boxes[last].x_min { a } else { last };
        let kb = if part.y_min <= boxes[last].y_min { b } else { last };
        let kc = if part.x_max >= boxes[last].x_max { c } else { last };
        let kd = if part.y_max >= boxes[last].y_max { d } else { last };
        assert(boxes[ka].x_min == all.x_min);
        assert(boxes[kb].y_min == all.y_min);
        assert(boxes[kc].x_max == all.x_max);
        assert(boxes[kd].y_max == all.y_max);
    }
}

/// If every box of a list that is not empty is well formed, so is the union.
pub proof fn lemma_union_all_well_formed(boxes: Seq<BBox>)
    requires
        boxes.len() > 0,
        forall|i: int| 0 <= i < boxes.len() ==> (#[trigger] boxes[i]).well_formed(),
    ensures
        BBox::spec_union_all(boxes).well_formed(),
{
    lemma_union_all_is_tight(boxes);
    assert(boxes[0].within(BBox::spec_union_all(boxes)));
}

} // verus!
