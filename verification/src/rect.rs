//! Axis-aligned rectangles with verified construction: a rectangle always
//! has ordered corners and a width and height that fit in 32 bits.

use vstd::prelude::*;

verus! {

/// A rectangle given by its corners, `x1 <= x2` and `y1 <= y2`, with both
/// extents representable.
#[derive(Copy, Clone, Debug, PartialEq, Eq, Structural)]
pub struct Rect {
    x1: i32,
    y1: i32,
    x2: i32,
    y2: i32,
}

impl Rect {
    /// Corner order and representable extents.
    pub open spec fn wf(&self) -> bool {
        &&& self.spec_x1() <= self.spec_x2()
        &&& self.spec_y1() <= self.spec_y2()
        &&& self.spec_x2() - self.spec_x1() <= i32::MAX
        &&& self.spec_y2() - self.spec_y1() <= i32::MAX
    }

    /// The left edge.
    pub closed spec fn spec_x1(&self) -> i32 {
        self.x1
    }

    /// The top edge.
    pub closed spec fn spec_y1(&self) -> i32 {
        self.y1
    }

    /// The right edge.
    pub closed spec fn spec_x2(&self) -> i32 {
        self.x2
    }

    /// The bottom edge.
    pub closed spec fn spec_y2(&self) -> i32 {
        self.y2
    }

    /// The zero rectangle at the origin.
    pub fn zero() -> (r: Rect)
        ensures
            r.wf(),
            r.spec_x1() == 0 && r.spec_y1() == 0 && r.spec_x2() == 0 && r.spec_y2() == 0,
    {
        Rect { x1: 0, y1: 0, x2: 0, y2: 0 }
    }

    /// Builds a rectangle from its corners; nothing when they are not
    /// ordered or an extent does not fit.
    pub fn new(x1: i32, y1: i32, x2: i32, y2: i32) -> (r: Option<Rect>)
        ensures
            r is Some <==> (x1 <= x2 && y1 <= y2 && x2 - x1 <= i32::MAX && y2 - y1 <= i32::MAX),
            r matches Some(rect) ==> rect.wf() && rect.spec_x1() == x1 && rect.spec_y1() == y1
                && rect.spec_x2() == x2 && rect.spec_y2() == y2,
    {
        if x1 <= x2 && y1 <= y2 && x2 as i64 - x1 as i64 <= i32::MAX as i64 && y2 as i64
            - y1 as i64 <= i32::MAX as i64 {
            Some(Rect { x1, y1, x2, y2 })
        } else {
            None
        }
    }

    /// Builds a rectangle from its top-left corner and size; nothing when
    /// the size is negative or the far corner does not fit.
    pub fn new_sized(x: i32, y: i32, width: i32, height: i32) -> (r: Option<Rect>)
        ensures
            r is Some <==> (width >= 0 && height >= 0 && x + width <= i32::MAX && y + height
                <= i32::MAX),
            r matches Some(rect) ==> rect.wf() && rect.spec_x1() == x && rect.spec_y1() == y
                && rect.spec_x2() == x + width && rect.spec_y2() == y + height,
    {
        if width >= 0 && height >= 0 && x as i64 + width as i64 <= i32::MAX as i64 && y as i64
            + height as i64 <= i32::MAX as i64 {
            Some(Rect { x1: x, y1: y, x2: x + width, y2: y + height })
        } else {
            None
        }
    }

    /// The left edge.
    pub fn x1(&self) -> (r: i32)
        ensures
            r == self.spec_x1(),
    {
        self.x1
    }

    /// The top edge.
    pub fn y1(&self) -> (r: i32)
        ensures
            r == self.spec_y1(),
    {
        self.y1
    }

    /// The right edge.
    pub fn x2(&self) -> (r: i32)
        ensures
            r == self.spec_x2(),
    {
        self.x2
    }

    /// The bottom edge.
    pub fn y2(&self) -> (r: i32)
        ensures
            r == self.spec_y2(),
    {
        self.y2
    }

    /// The width.
    pub fn width(&self) -> (r: i32)
        requires
            self.wf(),
        ensures
            r == self.spec_x2() - self.spec_x1(),
    {
        self.x2 - self.x1
    }

    /// The height.
    pub fn height(&self) -> (r: i32)
        requires
            self.wf(),
        ensures
            r == self.spec_y2() - self.spec_y1(),
    {
        self.y2 - self.y1
    }

    /// True iff the point lies inside.
    pub fn contains(&self, x: i32, y: i32) -> (r: bool)
        ensures
            r == (self.spec_x1() <= x < self.spec_x2() && self.spec_y1() <= y < self.spec_y2()),
    {
        self.x1 <= x && x < self.x2 && self.y1 <= y && y < self.y2
    }

    /// The rectangle translated by the given deltas; nothing when a corner
    /// leaves the representable range.
    pub fn move_(&self, dx: i32, dy: i32) -> (r: Option<Rect>)
        requires
            self.wf(),
        ensures
            r is Some <==> (i32::MIN <= self.spec_x1() + dx && self.spec_x2() + dx <= i32::MAX
                && i32::MIN <= self.spec_y1() + dy && self.spec_y2() + dy <= i32::MAX),
            r matches Some(rect) ==> rect.wf() && rect.spec_x1() == self.spec_x1() + dx
                && rect.spec_y1() == self.spec_y1() + dy && rect.spec_x2() == self.spec_x2() + dx
                && rect.spec_y2() == self.spec_y2() + dy,
    {
        let nx1 = self.x1 as i64 + dx as i64;
        let ny1 = self.y1 as i64 + dy as i64;
        let nx2 = self.x2 as i64 + dx as i64;
        let ny2 = self.y2 as i64 + dy as i64;
        if i32::MIN as i64 <= nx1 && nx2 <= i32::MAX as i64 && i32::MIN as i64 <= ny1 && ny2
            <= i32::MAX as i64 {
            Some(Rect { x1: nx1 as i32, y1: ny1 as i32, x2: nx2 as i32, y2: ny2 as i32 })
        } else {
            None
        }
    }
}

impl Default for Rect {
    /// The zero rectangle.
    fn default() -> (r: Rect)
        ensures
            r.wf(),
            r.spec_x1() == 0 && r.spec_y1() == 0 && r.spec_x2() == 0 && r.spec_y2() == 0,
    {
        Rect::zero()
    }
}

} // verus!
