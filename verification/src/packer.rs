use crate::rect::Rect;
use vstd::prelude::*;

verus! {

/// Mathematical model of the packer: the cursor, the current shelf
/// height, the canvas bounds, and every rectangle handed out so far.
pub struct PackerModel {
    pub cursor_x: int,
    pub cursor_y: int,
    pub row_height: int,
    pub canvas_width: int,
    pub canvas_height: int,
    pub placed: Seq<Rect>,
}

impl PackerModel {
    /// A rectangle handed out earlier never moves again. It lies either in a
    /// finished shelf (fully above the cursor line) or in the current shelf,
    /// left of the cursor and no taller than the shelf.
    pub open spec fn settled(self, r: Rect) -> bool {
        ||| r.y1 <= self.cursor_y
        ||| (r.y0 == self.cursor_y && r.x1 <= self.cursor_x && r.y1 <= self.cursor_y
            + self.row_height)
    }

    pub open spec fn wf(self) -> bool {
        &&& 0 <= self.cursor_x <= self.canvas_width
        &&& 0 <= self.cursor_y
        &&& 0 <= self.row_height
        &&& self.cursor_y + self.row_height <= self.canvas_height
        &&& forall|i: int| 0 <= i < self.placed.len() ==> (#[trigger] self.placed[i]).wf()
        &&& forall|i: int|
            0 <= i < self.placed.len() ==> (#[trigger] self.placed[i]).within(
                self.canvas_width,
                self.canvas_height,
            )
        &&& forall|i: int| 0 <= i < self.placed.len() ==> self.settled(#[trigger] self.placed[i])
        &&& forall|i: int, j: int|
            0 <= i < j < self.placed.len() ==> !(#[trigger] self.placed[i]).overlaps(
                #[trigger] self.placed[j],
            )
    }

    /// A request for zero pixels in both directions leaves the packer alone.
    pub open spec fn degenerate(width: u32, height: u32) -> bool {
        width == 0 && height == 0
    }

    /// Whether the request starts a new shelf first.
    pub open spec fn starts_new_row(self, width: u32) -> bool {
        self.cursor_x + width > self.canvas_width
    }

    /// The x coordinate at which the next rectangle is placed.
    pub open spec fn place_x(self, width: u32) -> int {
        if self.starts_new_row(width) {
            0
        } else {
            self.cursor_x
        }
    }

    /// The y coordinate at which the next rectangle is placed.
    pub open spec fn place_y(self, width: u32) -> int {
        if self.starts_new_row(width) {
            self.cursor_y + self.row_height
        } else {
            self.cursor_y
        }
    }

    /// The shelf height the placement starts from.
    pub open spec fn row_height_before(self, width: u32) -> int {
        if self.starts_new_row(width) {
            0
        } else {
            self.row_height
        }
    }

    /// Whether the canvas still has room for the request.
    pub open spec fn can_place(self, width: u32, height: u32) -> bool {
        ||| Self::degenerate(width, height)
        ||| (self.place_x(width) + width <= self.canvas_width && self.place_y(width) + height
            <= self.canvas_height)
    }
}

/// A shelf packer over a fixed pixel canvas. Rectangles are placed left to
/// right along the current shelf; when a request does not fit in the
/// remaining width, the packer moves down by the shelf height and starts a
/// new shelf. Nothing is ever freed or reused.
pub struct AtlasPacker {
    cursor_x: u32,
    cursor_y: u32,
    row_height: u32,
    canvas_width: u32,
    canvas_height: u32,
    placed: Ghost<Seq<Rect>>,
}

impl View for AtlasPacker {
    type V = PackerModel;

    closed spec fn view(&self) -> PackerModel {
        PackerModel {
            cursor_x: self.cursor_x as int,
            cursor_y: self.cursor_y as int,
            row_height: self.row_height as int,
            canvas_width: self.canvas_width as int,
            canvas_height: self.canvas_height as int,
            placed: self.placed@,
        }
    }
}

impl AtlasPacker {
    pub fn new(canvas_width: u32, canvas_height: u32) -> (r: AtlasPacker)
        ensures
            r@.wf(),
            r@.cursor_x == 0,
            r@.cursor_y == 0,
            r@.row_height == 0,
            r@.canvas_width == canvas_width,
            r@.canvas_height == canvas_height,
            r@.placed == Seq::<Rect>::empty(),
    {
        AtlasPacker {
            cursor_x: 0,
            cursor_y: 0,
            row_height: 0,
            canvas_width,
            canvas_height,
            placed: Ghost(Seq::empty()),
        }
    }

    /// Place a `width` by `height` rectangle. Returns `None`, leaving the
    /// packer untouched, exactly when the canvas is exhausted for this
    /// request. The cursor only ever moves down (never up), and the new
    /// rectangle overlaps nothing handed out before.
    pub fn allocate(&mut self, width: u32, height: u32) -> (r: Option<Rect>)
        requires
            old(self)@.wf(),
        ensures
            final(self)@.wf(),
            final(self)@.canvas_width == old(self)@.canvas_width,
            final(self)@.canvas_height == old(self)@.canvas_height,
            final(self)@.cursor_y >= old(self)@.cursor_y,
            r is Some <==> old(self)@.can_place(width, height),
            match r {
                Some(rect) => {
                    &&& rect.wf()
                    &&& rect.within(old(self)@.canvas_width, old(self)@.canvas_height)
                    &&& rect.x0 == old(self)@.place_x(width)
                    &&& rect.y0 == old(self)@.place_y(width)
                    &&& rect.x1 == rect.x0 + width
                    &&& rect.y1 == rect.y0 + height
                    &&& forall|q: Rect|
                        old(self)@.settled(q) ==> !rect.overlaps(q)
                            && #[trigger] final(self)@.settled(q)
                    &&& final(self)@.settled(rect)
                    &&& if PackerModel::degenerate(width, height) {
                        final(self)@ == old(self)@
                    } else {
                        &&& final(self)@.placed == old(self)@.placed.push(rect)
                        &&& final(self)@.cursor_x == rect.x1
                        &&& final(self)@.cursor_y == rect.y0
                        &&& final(self)@.row_height == (if old(self)@.row_height_before(width)
                            >= height {
                            old(self)@.row_height_before(width)
                        } else {
                            height as int
                        })
                    }
                },
                None => final(self)@ == old(self)@,
            },
    {
        if width == 0 && height == 0 {
            let rect = Rect {
                x0: self.cursor_x,
                y0: self.cursor_y,
                x1: self.cursor_x,
                y1: self.cursor_y,
            };
            proof {
                assert forall|q: Rect| old(self)@.settled(q) implies !rect.overlaps(q)
                    && final(self)@.settled(q) by {
                    crate::rect::lemma_empty_overlaps_nothing(rect, q);
                }
            }
            return Some(rect);
        }
        if width > self.canvas_width - self.cursor_x {
            // The request does not fit in the remaining shelf width:
            // a new shelf would start at the line below the current one.
            let new_y = self.cursor_y + self.row_height;
            if width > self.canvas_width || height > self.canvas_height - new_y {
                return None;
            }
            self.cursor_x = 0;
            self.cursor_y = new_y;
            self.row_height = 0;
        } else {
            if height > self.canvas_height - self.cursor_y {
                return None;
            }
        }
        let x0 = self.cursor_x;
        let y0 = self.cursor_y;
        let rect = Rect { x0, y0, x1: x0 + width, y1: y0 + height };
        self.cursor_x = x0 + width;
        if height > self.row_height {
            self.row_height = height;
        }
        proof {
            let ghost p0 = old(self)@;
            self.placed = Ghost(self.placed@.push(rect));
            let ghost p1 = self@;
            assert(p1.placed == p0.placed.push(rect));
            assert forall|q: Rect| p0.settled(q) implies !rect.overlaps(q) && p1.settled(q) by {
                crate::rect::lemma_separated_implies_disjoint(rect, q);
            }
            assert forall|i: int|
                0 <= i < p1.placed.len() implies (#[trigger] p1.placed[i]).wf()
                    && p1.placed[i].within(p1.canvas_width, p1.canvas_height) && p1.settled(
                p1.placed[i],
            ) by {
                if i < p0.placed.len() {
                    assert(p1.placed[i] == p0.placed[i]);
                    assert(p0.settled(p0.placed[i]));
                } else {
                    assert(p1.placed[i] == rect);
                }
            }
            assert forall|i: int, j: int|
                0 <= i < j < p1.placed.len() implies !(#[trigger] p1.placed[i]).overlaps(
                #[trigger] p1.placed[j],
            ) by {
                assert(p1.placed[i] == p0.placed[i]);
                if j == p1.placed.len() - 1 {
                    assert(p1.placed[j] == rect);
                    assert(p0.settled(p0.placed[i]));
                    assert(!rect.overlaps(p0.placed[i]));
                    lemma_overlaps_symmetric(p0.placed[i], rect);
                } else {
                    assert(p1.placed[j] == p0.placed[j]);
                }
            }
        }
        Some(rect)
    }
}

/// Overlap does not depend on the order of the two rectangles.
pub proof fn lemma_overlaps_symmetric(a: Rect, b: Rect)
    ensures
        a.overlaps(b) == b.overlaps(a),
{
}

/// Every pair of rectangles the packer has handed out is non-overlapping,
/// and each lies fully within the canvas.
pub proof fn lemma_placed_regions_disjoint(p: PackerModel, i: int, j: int)
    requires
        p.wf(),
        0 <= i < p.placed.len(),
        0 <= j < p.placed.len(),
        i != j,
    ensures
        !p.placed[i].overlaps(p.placed[j]),
        p.placed[i].within(p.canvas_width, p.canvas_height),
{
    if j < i {
        lemma_overlaps_symmetric(p.placed[i], p.placed[j]);
    }
}

} // verus!
