//! Popup positioners: the anchor/gravity rules that place a popup
//! rectangle relative to an anchor rectangle, with the requested
//! constraint adjustments.

use vstd::prelude::*;

use crate::rect::Rect;

verus! {

/// Wire encoding of the positioner anchor and gravity values.
pub const ANCHOR_NONE: u32 = 0;

pub const ANCHOR_TOP: u32 = 1;

pub const ANCHOR_BOTTOM: u32 = 2;

pub const ANCHOR_LEFT: u32 = 3;

pub const ANCHOR_RIGHT: u32 = 4;

pub const ANCHOR_TOP_LEFT: u32 = 5;

pub const ANCHOR_BOTTOM_LEFT: u32 = 6;

pub const ANCHOR_TOP_RIGHT: u32 = 7;

pub const ANCHOR_BOTTOM_RIGHT: u32 = 8;

/// A set of rectangle edges.
#[derive(Copy, Clone, Debug, PartialEq, Eq, Structural)]
pub struct Edge {
    pub top: bool,
    pub bottom: bool,
    pub left: bool,
    pub right: bool,
}

impl Edge {
    /// No edge.
    pub fn none() -> (r: Edge)
        ensures
            r == (Edge { top: false, bottom: false, left: false, right: false }),
    {
        Edge { top: false, bottom: false, left: false, right: false }
    }

    /// Decodes a wire anchor or gravity value; nothing for an unknown one.
    pub fn from_enum(e: u32) -> (r: Option<Edge>)
        ensures
            e > 8 ==> r is None,
            e <= 8 ==> (r matches Some(edge) && edge == (Edge {
                top: e == ANCHOR_TOP || e == ANCHOR_TOP_LEFT || e == ANCHOR_TOP_RIGHT,
                bottom: e == ANCHOR_BOTTOM || e == ANCHOR_BOTTOM_LEFT || e == ANCHOR_BOTTOM_RIGHT,
                left: e == ANCHOR_LEFT || e == ANCHOR_TOP_LEFT || e == ANCHOR_BOTTOM_LEFT,
                right: e == ANCHOR_RIGHT || e == ANCHOR_TOP_RIGHT || e == ANCHOR_BOTTOM_RIGHT,
            })),
    {
        if e > 8 {
            return None;
        }
        Some(
            Edge {
                top: e == ANCHOR_TOP || e == ANCHOR_TOP_LEFT || e == ANCHOR_TOP_RIGHT,
                bottom: e == ANCHOR_BOTTOM || e == ANCHOR_BOTTOM_LEFT || e == ANCHOR_BOTTOM_RIGHT,
                left: e == ANCHOR_LEFT || e == ANCHOR_TOP_LEFT || e == ANCHOR_BOTTOM_LEFT,
                right: e == ANCHOR_RIGHT || e == ANCHOR_TOP_RIGHT || e == ANCHOR_BOTTOM_RIGHT,
            },
        )
    }
}

/// Flips the horizontal edges when `fx` and the vertical ones when `fy`.
pub open spec fn spec_flip_edges(e: Edge, fx: bool, fy: bool) -> Edge {
    Edge {
        top: if fy {
            !e.top
        } else {
            e.top
        },
        bottom: if fy {
            !e.bottom
        } else {
            e.bottom
        },
        left: if fx {
            !e.left
        } else {
            e.left
        },
        right: if fx {
            !e.right
        } else {
            e.right
        },
    }
}

/// The requested constraint adjustments.
#[derive(Copy, Clone, Debug, PartialEq, Eq, Structural)]
pub struct ConstraintAdjustment {
    pub slide_x: bool,
    pub slide_y: bool,
    pub flip_x: bool,
    pub flip_y: bool,
    pub resize_x: bool,
    pub resize_y: bool,
}

impl ConstraintAdjustment {
    /// No adjustment.
    pub fn none() -> (r: ConstraintAdjustment)
        ensures
            r == (ConstraintAdjustment {
                slide_x: false,
                slide_y: false,
                flip_x: false,
                flip_y: false,
                resize_x: false,
                resize_y: false,
            }),
    {
        ConstraintAdjustment {
            slide_x: false,
            slide_y: false,
            flip_x: false,
            flip_y: false,
            resize_x: false,
            resize_y: false,
        }
    }

    /// Decodes the wire bitfield; nothing when an unknown bit is set.
    pub fn from_bits(v: u32) -> (r: Option<ConstraintAdjustment>)
        ensures
            r is Some <==> v < 64,
            r matches Some(ca) ==> ca == (ConstraintAdjustment {
                slide_x: v & 1 != 0,
                slide_y: v & 2 != 0,
                flip_x: v & 4 != 0,
                flip_y: v & 8 != 0,
                resize_x: v & 16 != 0,
                resize_y: v & 32 != 0,
            }),
    {
        if v >= 64 {
            return None;
        }
        Some(
            ConstraintAdjustment {
                slide_x: v & 1 != 0,
                slide_y: v & 2 != 0,
                flip_x: v & 4 != 0,
                flip_y: v & 8 != 0,
                resize_x: v & 16 != 0,
                resize_y: v & 32 != 0,
            },
        )
    }
}

/// The accumulated positioner state: the popup size, the anchor rectangle
/// in the parent, the anchor and gravity edges, the adjustments, the
/// offset, and the parent's announced geometry.
#[derive(Copy, Clone, Debug, PartialEq, Eq, Structural)]
pub struct XdgPositioned {
    pub size_width: i32,
    pub size_height: i32,
    pub ar: Rect,
    pub anchor: Edge,
    pub gravity: Edge,
    pub ca: ConstraintAdjustment,
    pub off_x: i32,
    pub off_y: i32,
    pub reactive: bool,
    pub parent_width: i32,
    pub parent_height: i32,
    pub parent_serial: u32,
}

/// Magnitude bound under which the placement arithmetic cannot overflow.
pub const POSITION_LIMIT: i32 = 0x1000_0000;

/// Half of a non-negative coordinate, rounded down.
fn half_nonneg(v: i32) -> (r: i32)
    requires
        v >= 0,
    ensures
        r == v as int / 2,
{
    v / 2
}

impl XdgPositioned {
    /// A blank positioner state.
    pub fn new_empty() -> (r: XdgPositioned)
        ensures
            r.size_width == 0 && r.size_height == 0,
            r.ar.spec_x1() == 0 && r.ar.spec_y1() == 0 && r.ar.spec_x2() == 0 && r.ar.spec_y2()
                == 0,
            r.anchor == (Edge { top: false, bottom: false, left: false, right: false }),
            r.gravity == (Edge { top: false, bottom: false, left: false, right: false }),
            r.ca == (ConstraintAdjustment {
                slide_x: false,
                slide_y: false,
                flip_x: false,
                flip_y: false,
                resize_x: false,
                resize_y: false,
            }),
            r.off_x == 0 && r.off_y == 0,
            !r.reactive,
            r.parent_width == 0 && r.parent_height == 0,
            r.parent_serial == 0,
    {
        XdgPositioned {
            size_width: 0,
            size_height: 0,
            ar: Rect::zero(),
            anchor: Edge::none(),
            gravity: Edge::none(),
            ca: ConstraintAdjustment::none(),
            off_x: 0,
            off_y: 0,
            reactive: false,
            parent_width: 0,
            parent_height: 0,
            parent_serial: 0,
        }
    }

    /// All coordinates small enough for the placement arithmetic.
    pub open spec fn bounded(&self) -> bool {
        &&& self.ar.wf()
        &&& -POSITION_LIMIT <= self.off_x <= POSITION_LIMIT
        &&& -POSITION_LIMIT <= self.off_y <= POSITION_LIMIT
        &&& -POSITION_LIMIT <= self.ar.spec_x1() <= POSITION_LIMIT
        &&& -POSITION_LIMIT <= self.ar.spec_x2() <= POSITION_LIMIT
        &&& -POSITION_LIMIT <= self.ar.spec_y1() <= POSITION_LIMIT
        &&& -POSITION_LIMIT <= self.ar.spec_y2() <= POSITION_LIMIT
        &&& 0 <= self.size_width <= POSITION_LIMIT
        &&& 0 <= self.size_height <= POSITION_LIMIT
    }

    /// A positioner is complete once it has a size.
    pub fn is_complete(&self) -> (r: bool)
        ensures
            r == (self.size_height != 0 && self.size_width != 0),
    {
        self.size_height != 0 && self.size_width != 0
    }

    /// The horizontal anchor coordinate under the given (already flipped)
    /// anchor edges: the anchor rectangle's left edge, right edge, or
    /// horizontal middle.
    pub open spec fn spec_anchor_x(&self, anchor: Edge) -> int {
        if anchor.left {
            self.ar.spec_x1() as int
        } else if anchor.right {
            self.ar.spec_x2() as int
        } else {
            self.ar.spec_x1() + (self.ar.spec_x2() - self.ar.spec_x1()) / 2
        }
    }

    /// The vertical anchor coordinate under the given edges.
    pub open spec fn spec_anchor_y(&self, anchor: Edge) -> int {
        if anchor.top {
            self.ar.spec_y1() as int
        } else if anchor.bottom {
            self.ar.spec_y2() as int
        } else {
            self.ar.spec_y1() + (self.ar.spec_y2() - self.ar.spec_y1()) / 2
        }
    }

    /// How far the popup is pulled left under the given gravity.
    pub open spec fn spec_gravity_pull_x(&self, gravity: Edge) -> int {
        if gravity.left {
            self.size_width as int
        } else if !gravity.right {
            self.size_width as int / 2
        } else {
            0
        }
    }

    /// How far the popup is pulled up under the given gravity.
    pub open spec fn spec_gravity_pull_y(&self, gravity: Edge) -> int {
        if gravity.top {
            self.size_height as int
        } else if !gravity.bottom {
            self.size_height as int / 2
        } else {
            0
        }
    }

    /// Places the popup rectangle relative to the anchor rectangle: the
    /// anchor point is picked by the anchor edges (optionally flipped),
    /// the popup is pulled by its gravity, and each axis starts from its
    /// offset.
    pub fn get_position(&self, flip_x: bool, flip_y: bool) -> (r: Rect)
        requires
            self.bounded(),
            self.size_width > 0,
            self.size_height > 0,
        ensures
            r.wf(),
            ({
                let anchor = spec_flip_edges(self.anchor, flip_x, flip_y);
                let gravity = spec_flip_edges(self.gravity, flip_x, flip_y);
                &&& r.spec_x1() == self.off_x + self.spec_anchor_x(anchor)
                    - self.spec_gravity_pull_x(gravity)
                &&& r.spec_y1() == self.off_y + self.spec_anchor_y(anchor)
                    - self.spec_gravity_pull_y(gravity)
                &&& r.spec_x2() - r.spec_x1() == self.size_width
                &&& r.spec_y2() - r.spec_y1() == self.size_height
            }),
    {
        let mut anchor = self.anchor;
        let mut gravity = self.gravity;
        if flip_x {
            anchor.left = !anchor.left;
            anchor.right = !anchor.right;
            gravity.left = !gravity.left;
            gravity.right = !gravity.right;
        }
        if flip_y {
            anchor.top = !anchor.top;
            anchor.bottom = !anchor.bottom;
            gravity.top = !gravity.top;
            gravity.bottom = !gravity.bottom;
        }
        let mut x1 = self.off_x;
        let mut y1 = self.off_y;
        if anchor.left {
            x1 = x1 + self.ar.x1();
        } else if anchor.right {
            x1 = x1 + self.ar.x2();
        } else {
            let half: i32 = half_nonneg(self.ar.width());
            x1 = x1 + self.ar.x1() + half;
        }
        if anchor.top {
            y1 = y1 + self.ar.y1();
        } else if anchor.bottom {
            y1 = y1 + self.ar.y2();
        } else {
            let half: i32 = half_nonneg(self.ar.height());
            y1 = y1 + self.ar.y1() + half;
        }
        if gravity.left {
            x1 = x1 - self.size_width;
        } else if !gravity.right {
            let half: i32 = half_nonneg(self.size_width);
            x1 = x1 - half;
        }
        if gravity.top {
            y1 = y1 - self.size_height;
        } else if !gravity.bottom {
            let half: i32 = half_nonneg(self.size_height);
            y1 = y1 - half;
        }
        let r = Rect::new_sized(x1, y1, self.size_width, self.size_height);
        r.unwrap()
    }
}

/// Errors of the positioner requests.
#[derive(Clone, Debug)]
pub enum XdgPositionerError {
    /// The requested popup size is not positive.
    NonPositiveSize,
    /// The requested anchor rectangle has a negative size.
    NegativeAnchorRect,
    /// An unknown anchor value.
    UnknownAnchor(u32),
    /// An unknown gravity value.
    UnknownGravity(u32),
    /// An unknown constraint-adjustment bit.
    UnknownCa(u32),
    /// The requested parent size is negative.
    NegativeParentSize,
}

/// A positioner object: its id and the state its requests accumulated.
#[derive(Clone, Debug)]
pub struct XdgPositioner {
    pub id: u64,
    pub position: XdgPositioned,
}

impl XdgPositioner {
    /// A fresh positioner with blank state.
    pub fn new(id: u64) -> (r: XdgPositioner)
        ensures
            r.id == id,
            r.spec_value().size_width == 0,
            r.spec_value().size_height == 0,
            r.spec_value().ar.spec_x1() == 0 && r.spec_value().ar.spec_y1() == 0
                && r.spec_value().ar.spec_x2() == 0 && r.spec_value().ar.spec_y2() == 0,
            r.spec_value().anchor == (Edge { top: false, bottom: false, left: false, right: false }),
            r.spec_value().gravity == (Edge {
                top: false,
                bottom: false,
                left: false,
                right: false,
            }),
            r.spec_value().ca == (ConstraintAdjustment {
                slide_x: false,
                slide_y: false,
                flip_x: false,
                flip_y: false,
                resize_x: false,
                resize_y: false,
            }),
            r.spec_value().off_x == 0,
            r.spec_value().off_y == 0,
            !r.spec_value().reactive,
            r.spec_value().parent_width == 0 && r.spec_value().parent_height == 0,
            r.spec_value().parent_serial == 0,
    {
        XdgPositioner { id, position: XdgPositioned::new_empty() }
    }

    /// The accumulated state.
    pub closed spec fn spec_value(&self) -> XdgPositioned {
        self.position
    }

    /// The accumulated state.
    pub fn value(&self) -> (r: XdgPositioned)
        ensures
            r == self.spec_value(),
    {
        self.position
    }

    /// Sets the popup size; a non-positive size is rejected.
    pub fn set_size(&mut self, width: i32, height: i32) -> (r: Result<(), XdgPositionerError>)
        ensures
            (width <= 0 || height <= 0) ==> (r matches Err(e) && e is NonPositiveSize
                && *final(self) == *old(self)),
            (width > 0 && height > 0) ==> (r is Ok && final(self).spec_value() == (XdgPositioned {
                size_width: width,
                size_height: height,
                ..old(self).spec_value()
            }) && final(self).id == old(self).id),
    {
        if width <= 0 || height <= 0 {
            return Err(XdgPositionerError::NonPositiveSize);
        }
        self.position.size_width = width;
        self.position.size_height = height;
        Ok(())
    }

    /// Sets the anchor rectangle; a negative size or an unrepresentable
    /// corner is rejected.
    pub fn set_anchor_rect(&mut self, x: i32, y: i32, width: i32, height: i32) -> (r: Result<
        (),
        XdgPositionerError,
    >)
        ensures
            (width < 0 || height < 0 || !(x + width <= i32::MAX && y + height <= i32::MAX)) ==> (
            r matches Err(e) && e is NegativeAnchorRect && *final(self) == *old(self)),
            (width >= 0 && height >= 0 && x + width <= i32::MAX && y + height <= i32::MAX) ==> (r
                is Ok && final(self).spec_value().ar.spec_x1() == x
                && final(self).spec_value().ar.spec_y1() == y
                && final(self).spec_value().ar.spec_x2() == x + width
                && final(self).spec_value().ar.spec_y2() == y + height && final(self).spec_value()
                == (XdgPositioned { ar: final(self).spec_value().ar, ..old(self).spec_value() })
                && final(self).id == old(self).id),
    {
        if width < 0 || height < 0 {
            return Err(XdgPositionerError::NegativeAnchorRect);
        }
        match Rect::new_sized(x, y, width, height) {
            Some(ar) => {
                self.position.ar = ar;
                Ok(())
            },
            None => Err(XdgPositionerError::NegativeAnchorRect),
        }
    }

    /// Sets the anchor edges; an unknown wire value is rejected.
    pub fn set_anchor(&mut self, anchor: u32) -> (r: Result<(), XdgPositionerError>)
        ensures
            anchor > 8 ==> (r matches Err(e) && (e matches XdgPositionerError::UnknownAnchor(v)
                && v == anchor) && *final(self) == *old(self)),
            anchor <= 8 ==> (r is Ok && final(self).spec_value() == (XdgPositioned {
                anchor: final(self).spec_value().anchor,
                ..old(self).spec_value()
            }) && final(self).id == old(self).id),
    {
        match Edge::from_enum(anchor) {
            Some(a) => {
                self.position.anchor = a;
                Ok(())
            },
            None => Err(XdgPositionerError::UnknownAnchor(anchor)),
        }
    }

    /// Sets the gravity edges; an unknown wire value is rejected.
    pub fn set_gravity(&mut self, gravity: u32) -> (r: Result<(), XdgPositionerError>)
        ensures
            gravity > 8 ==> (r matches Err(e) && (e matches XdgPositionerError::UnknownGravity(v)
                && v == gravity) && *final(self) == *old(self)),
            gravity <= 8 ==> (r is Ok && final(self).spec_value() == (XdgPositioned {
                gravity: final(self).spec_value().gravity,
                ..old(self).spec_value()
            }) && final(self).id == old(self).id),
    {
        match Edge::from_enum(gravity) {
            Some(g) => {
                self.position.gravity = g;
                Ok(())
            },
            None => Err(XdgPositionerError::UnknownGravity(gravity)),
        }
    }

    /// Sets the constraint adjustments; an unknown bit is rejected.
    pub fn set_constraint_adjustment(&mut self, ca: u32) -> (r: Result<(), XdgPositionerError>)
        ensures
            ca >= 64 ==> (r matches Err(e) && (e matches XdgPositionerError::UnknownCa(v) && v
                == ca) && *final(self) == *old(self)),
            ca < 64 ==> (r is Ok && final(self).spec_value() == (XdgPositioned {
                ca: final(self).spec_value().ca,
                ..old(self).spec_value()
            }) && final(self).id == old(self).id),
    {
        match ConstraintAdjustment::from_bits(ca) {
            Some(c) => {
                self.position.ca = c;
                Ok(())
            },
            None => Err(XdgPositionerError::UnknownCa(ca)),
        }
    }

    /// Sets the placement offset.
    pub fn set_offset(&mut self, x: i32, y: i32)
        ensures
            final(self).spec_value() == (XdgPositioned {
                off_x: x,
                off_y: y,
                ..old(self).spec_value()
            }),
            final(self).id == old(self).id,
    {
        self.position.off_x = x;
        self.position.off_y = y;
    }

    /// Marks the positioner reactive.
    pub fn set_reactive(&mut self)
        ensures
            final(self).spec_value() == (XdgPositioned { reactive: true, ..old(self).spec_value() }),
            final(self).id == old(self).id,
    {
        self.position.reactive = true;
    }

    /// Records the parent size; a negative one is rejected.
    pub fn set_parent_size(&mut self, parent_width: i32, parent_height: i32) -> (r: Result<
        (),
        XdgPositionerError,
    >)
        ensures
            (parent_width < 0 || parent_height < 0) ==> (r matches Err(e) && e
                is NegativeParentSize && *final(self) == *old(self)),
            (parent_width >= 0 && parent_height >= 0) ==> (r is Ok && final(self).spec_value() == (
            XdgPositioned { parent_width, parent_height, ..old(self).spec_value() }) && final(self).id == old(self).id),
    {
        if parent_width < 0 || parent_height < 0 {
            return Err(XdgPositionerError::NegativeParentSize);
        }
        self.position.parent_width = parent_width;
        self.position.parent_height = parent_height;
        Ok(())
    }

    /// Records the parent configure serial.
    pub fn set_parent_configure(&mut self, serial: u32)
        ensures
            final(self).spec_value() == (XdgPositioned {
                parent_serial: serial,
                ..old(self).spec_value()
            }),
            final(self).id == old(self).id,
    {
        self.position.parent_serial = serial;
    }
}

} // verus!
