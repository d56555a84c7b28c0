use vstd::prelude::*;

verus! {

/// An axis-aligned rectangle in atlas pixel coordinates, half-open:
/// it covers the pixels with `x0 <= x < x1` and `y0 <= y < y1`.
#[derive(Clone, Copy, Debug, PartialEq, Eq, Structural)]
pub struct Rect {
    pub x0: u32,
    pub y0: u32,
    pub x1: u32,
    pub y1: u32,
}

impl Rect {
    /// A rectangle is well-formed when its corners are ordered.
    pub open spec fn wf(self) -> bool {
        self.x0 <= self.x1 && self.y0 <= self.y1
    }

    /// Whether the pixel `(x, y)` lies inside the rectangle.
    pub open spec fn contains(self, x: int, y: int) -> bool {
        self.x0 <= x < self.x1 && self.y0 <= y < self.y1
    }

    /// Whether two rectangles share at least one pixel.
    pub open spec fn overlaps(self, other: Rect) -> bool {
        exists|x: int, y: int| self.contains(x, y) && other.contains(x, y)
    }

    /// Whether the rectangle lies fully within a `width` by `height` canvas.
    pub open spec fn within(self, width: int, height: int) -> bool {
        self.x1 <= width && self.y1 <= height
    }

    /// A rectangle with no pixels (zero width or zero height).
    pub open spec fn is_empty(self) -> bool {
        self.x0 >= self.x1 || self.y0 >= self.y1
    }
}

/// Disjointness of two rectangles follows from separation along either axis.
pub proof fn lemma_separated_implies_disjoint(a: Rect, b: Rect)
    requires
        a.x1 <= b.x0 || b.x1 <= a.x0 || a.y1 <= b.y0 || b.y1 <= a.y0,
    ensures
        !a.overlaps(b),
{
}

/// An empty rectangle overlaps nothing.
pub proof fn lemma_empty_overlaps_nothing(a: Rect, b: Rect)
    requires
        a.is_empty() || b.is_empty(),
    ensures
        !a.overlaps(b),
{
}

} // verus!
