//! Geometry primitives: cell positions and rectangles of character cells.

use vstd::prelude::*;

verus! {

/// A cell coordinate inside the terminal grid. `row` counts lines from the
/// top edge of the screen, `col` counts columns from the left edge.
#[derive(Clone, Copy, PartialEq, Eq, Structural, Debug)]
pub struct Position {
    pub row: u16,
    pub col: u16,
}

/// An axis-aligned rectangle of character cells. The cells covered are
/// `[x, x + width) x [y, y + height)`; a zero `width` or `height` makes the
/// rectangle empty.
#[derive(Clone, Copy, PartialEq, Eq, Structural, Debug)]
pub struct Rect {
    pub x: u16,
    pub y: u16,
    pub width: u16,
    pub height: u16,
}

impl Rect {
    /// One past the rightmost column covered, as a mathematical integer.
    pub open spec fn spec_right(self) -> int {
        self.x + self.width
    }

    /// One past the bottommost row covered, as a mathematical integer.
    pub open spec fn spec_bottom(self) -> int {
        self.y + self.height
    }

    /// The rectangle's corners stay representable in cell coordinates.
    pub open spec fn wf(self) -> bool {
        self.spec_right() <= u16::MAX && self.spec_bottom() <= u16::MAX
    }

    /// Whether the cell at column `col`, row `row` lies inside the rectangle.
    pub open spec fn spec_contains(self, col: int, row: int) -> bool {
        &&& self.x <= col < self.spec_right()
        &&& self.y <= row < self.spec_bottom()
    }

    /// Whether every cell of `self` also lies in `outer`. An empty rectangle
    /// is within every rectangle, wherever it sits.
    pub open spec fn spec_within(self, outer: Rect) -> bool {
        self.width == 0 || self.height == 0 || {
            &&& outer.x <= self.x
            &&& self.spec_right() <= outer.spec_right()
            &&& outer.y <= self.y
            &&& self.spec_bottom() <= outer.spec_bottom()
        }
    }

    pub fn new(x: u16, y: u16, width: u16, height: u16) -> (r: Rect)
        ensures
            r == (Rect { x, y, width, height }),
    {
        Rect { x, y, width, height }
    }

    pub fn left(&self) -> (r: u16)
        ensures
            r == self.x,
    {
        self.x
    }

    pub fn top(&self) -> (r: u16)
        ensures
            r == self.y,
    {
        self.y
    }

    /// One past the rightmost column, saturating at the largest cell index.
    pub fn right(&self) -> (r: u16)
        ensures
            self.wf() ==> r == self.spec_right(),
            r <= self.spec_right(),
    {
        self.x.saturating_add(self.width)
    }

    /// One past the bottommost row, saturating at the largest cell index.
    pub fn bottom(&self) -> (r: u16)
        ensures
            self.wf() ==> r == self.spec_bottom(),
            r <= self.spec_bottom(),
    {
        self.y.saturating_add(self.height)
    }

    /// The rectangle left after reserving a one-cell border on every side;
    /// empty when there is no room for the border.
    pub open spec fn spec_inner(self) -> Rect {
        if self.width >= 2 && self.height >= 2 && self.wf() {
            Rect {
                x: (self.x + 1) as u16,
                y: (self.y + 1) as u16,
                width: (self.width - 2) as u16,
                height: (self.height - 2) as u16,
            }
        } else {
            Rect { x: self.x, y: self.y, width: 0, height: 0 }
        }
    }

    /// Shrinks the rectangle by a one-cell margin on every side.
    pub fn inner(&self) -> (r: Rect)
        ensures
            r == self.spec_inner(),
            r.spec_within(*self),
            self.wf() ==> r.wf(),
    {
        if self.width >= 2 && self.height >= 2 && self.x <= u16::MAX - self.width && self.y
            <= u16::MAX - self.height {
            Rect { x: self.x + 1, y: self.y + 1, width: self.width - 2, height: self.height - 2 }
        } else {
            Rect { x: self.x, y: self.y, width: 0, height: 0 }
        }
    }

    /// The largest rectangle covered by both arguments; empty (and anchored
    /// at `other`'s clamped corner) when they do not overlap.
    pub open spec fn spec_intersect(self, other: Rect) -> Rect {
        let x1 = if self.x >= other.x { self.x as int } else { other.x as int };
        let y1 = if self.y >= other.y { self.y as int } else { other.y as int };
        let x2 = if self.spec_right() <= other.spec_right() {
            self.spec_right()
        } else {
            other.spec_right()
        };
        let y2 = if self.spec_bottom() <= other.spec_bottom() {
            self.spec_bottom()
        } else {
            other.spec_bottom()
        };
        Rect {
            x: x1 as u16,
            y: y1 as u16,
            width: (if x2 >= x1 { x2 - x1 } else { 0 }) as u16,
            height: (if y2 >= y1 { y2 - y1 } else { 0 }) as u16,
        }
    }

    /// Clips the rectangle to `other`.
    pub fn intersect(&self, other: &Rect) -> (r: Rect)
        requires
            self.wf(),
            other.wf(),
        ensures
            r == self.spec_intersect(*other),
            r.spec_within(*other),
            r.spec_within(*self),
            r.wf(),
    {
        let x1: u16 = if self.x >= other.x {
            self.x
        } else {
            other.x
        };
        let y1: u16 = if self.y >= other.y {
            self.y
        } else {
            other.y
        };
        let sr = self.x + self.width;
        let or = other.x + other.width;
        let sb = self.y + self.height;
        let ob = other.y + other.height;
        let x2: u16 = if sr <= or {
            sr
        } else {
            or
        };
        let y2: u16 = if sb <= ob {
            sb
        } else {
            ob
        };
        Rect {
            x: x1,
            y: y1,
            width: if x2 >= x1 {
                x2 - x1
            } else {
                0
            },
            height: if y2 >= y1 {
                y2 - y1
            } else {
                0
            },
        }
    }
}

/// A rectangle within another covers only cells the outer one covers.
pub proof fn lemma_within_contains(inner: Rect, outer: Rect)
    requires
        inner.spec_within(outer),
    ensures
        forall|x: int, y: int| inner.spec_contains(x, y) ==> outer.spec_contains(x, y),
{
}

/// Containment of rectangles is transitive.
pub proof fn lemma_within_trans(a: Rect, b: Rect, c: Rect)
    requires
        a.spec_within(b),
        b.spec_within(c),
    ensures
        a.spec_within(c),
{
}

} // verus!
