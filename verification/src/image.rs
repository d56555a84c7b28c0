use vstd::prelude::*;

verus! {

/// Mathematical model of a single-channel pixel buffer: a row-major
/// byte sequence of `width * height` coverage values.
pub struct ImageModel {
    pub width: int,
    pub height: int,
    pub data: Seq<u8>,
}

impl ImageModel {
    pub open spec fn wf(self) -> bool {
        &&& 0 <= self.width
        &&& 0 <= self.height
        &&& self.data.len() == self.width * self.height
    }

    pub open spec fn in_bounds(self, x: int, y: int) -> bool {
        0 <= x < self.width && 0 <= y < self.height
    }

    pub open spec fn pixel(self, x: int, y: int) -> u8 {
        self.data[y * self.width + x]
    }
}

/// The value of pixel `(x, y)` after a `sw` by `sh` source bitmap has been
/// copied into `img` with its top-left corner at `(x0, y0)`.
pub open spec fn blit_pixel(
    img: ImageModel,
    src: Seq<u8>,
    sw: int,
    sh: int,
    x0: int,
    y0: int,
    x: int,
    y: int,
) -> u8 {
    if x0 <= x < x0 + sw && y0 <= y < y0 + sh {
        src[(y - y0) * sw + (x - x0)]
    } else {
        img.pixel(x, y)
    }
}

/// A row-major index stays within a `w` by `h` buffer.
pub proof fn lemma_row_major_index(x: int, y: int, w: int, h: int)
    by (nonlinear_arith)
    requires
        0 <= x < w,
        0 <= y < h,
    ensures
        0 <= y * w + x,
        y * w + x < h * w,
        y * w + x < w * h,
{
}

/// Distinct in-bounds pixel coordinates have distinct row-major indices.
pub proof fn lemma_row_major_injective(w: int, x1: int, y1: int, x2: int, y2: int)
    by (nonlinear_arith)
    requires
        0 <= x1 < w,
        0 <= x2 < w,
        0 <= y1,
        0 <= y2,
        y1 * w + x1 == y2 * w + x2,
    ensures
        x1 == x2,
        y1 == y2,
{
}

/// A mutable single-channel (coverage) pixel buffer sized to the atlas
/// canvas. Glyph bitmaps are copied into it at the regions the packer
/// hands out.
pub struct AtlasImage {
    width: u32,
    height: u32,
    data: Vec<u8>,
}

impl View for AtlasImage {
    type V = ImageModel;

    closed spec fn view(&self) -> ImageModel {
        ImageModel { width: self.width as int, height: self.height as int, data: self.data@ }
    }
}

impl AtlasImage {
    /// An all-zero (fully transparent) canvas.
    pub fn new(width: u32, height: u32) -> (r: AtlasImage)
        requires
            width as int * height as int <= usize::MAX as int,
        ensures
            r@.wf(),
            r@.width == width,
            r@.height == height,
            forall|x: int, y: int| r@.in_bounds(x, y) ==> r@.pixel(x, y) == 0u8,
    {
        let n: usize = (width as usize) * (height as usize);
        let mut data: Vec<u8> = Vec::new();
        while data.len() < n
            invariant
                data@.len() <= n,
                forall|i: int| 0 <= i < data@.len() ==> data@[i] == 0u8,
            decreases n - data@.len(),
        {
            data.push(0);
        }
        let r = AtlasImage { width, height, data };
        proof {
            assert forall|x: int, y: int| r@.in_bounds(x, y) implies r@.pixel(x, y) == 0u8 by {
                lemma_row_major_index(x, y, r@.width, r@.height);
            }
        }
        r
    }

    pub fn width(&self) -> (r: u32)
        ensures
            r == self@.width,
    {
        self.width
    }

    pub fn height(&self) -> (r: u32)
        ensures
            r == self@.height,
    {
        self.height
    }

    /// Read-only access to the raw row-major bytes, for handing the whole
    /// canvas to a GPU transfer.
    pub fn as_bytes(&self) -> (r: &Vec<u8>)
        ensures
            r@ == self@.data,
    {
        &self.data
    }

    /// Copy a `src_width` by `src_height` row-major bitmap into the canvas
    /// with its top-left corner at `(x0, y0)`. Pixels outside the target
    /// region keep their old values.
    pub fn blit(&mut self, src: &Vec<u8>, src_width: usize, src_height: usize, x0: u32, y0: u32)
        requires
            old(self)@.wf(),
            src@.len() == src_width * src_height,
            x0 + src_width <= old(self)@.width,
            y0 + src_height <= old(self)@.height,
        ensures
            final(self)@.wf(),
            final(self)@.width == old(self)@.width,
            final(self)@.height == old(self)@.height,
            forall|x: int, y: int|
                old(self)@.in_bounds(x, y) ==> final(self)@.pixel(x, y) == blit_pixel(
                    old(self)@,
                    src@,
                    src_width as int,
                    src_height as int,
                    x0 as int,
                    y0 as int,
                    x,
                    y,
                ),
    {
        let ghost orig = self@;
        let src_total: usize = src.len();
        let canvas_total: usize = self.data.len();
        let mut col: usize = 0;
        while col < src_width
            invariant
                src_total == src@.len(),
                canvas_total == self@.data.len(),
                orig.wf(),
                self@.wf(),
                self@.width == orig.width,
                self@.height == orig.height,
                src@.len() == src_width * src_height,
                x0 + src_width <= orig.width,
                y0 + src_height <= orig.height,
                col <= src_width,
                forall|x: int, y: int|
                    orig.in_bounds(x, y) ==> self@.pixel(x, y) == (if x0 <= x < x0 + col && y0 <= y
                        < y0 + src_height {
                        src@[(y - y0) * src_width + (x - x0)]
                    } else {
                        orig.pixel(x, y)
                    }),
            decreases src_width - col,
        {
            let mut row: usize = 0;
            while row < src_height
                invariant
                    src_total == src@.len(),
                    canvas_total == self@.data.len(),
                    orig.wf(),
                    self@.wf(),
                    self@.width == orig.width,
                    self@.height == orig.height,
                    src@.len() == src_width * src_height,
                    x0 + src_width <= orig.width,
                    y0 + src_height <= orig.height,
                    col < src_width,
                    row <= src_height,
                    forall|x: int, y: int|
                        orig.in_bounds(x, y) ==> self@.pixel(x, y) == (if x0 <= x < x0 + col && y0
                            <= y < y0 + src_height {
                            src@[(y - y0) * src_width + (x - x0)]
                        } else if x == x0 + col && y0 <= y < y0 + row {
                            src@[(y - y0) * src_width + (x - x0)]
                        } else {
                            orig.pixel(x, y)
                        }),
                decreases src_height - row,
            {
                proof {
                    lemma_row_major_index(col as int, row as int, src_width as int,
                        src_height as int);
                    lemma_row_major_index(x0 + col, y0 + row, orig.width, orig.height);
                }
                let v = src[row * src_width + col];
                let px: usize = (x0 as usize) + col;
                let py: usize = (y0 as usize) + row;
                let idx: usize = py * (self.width as usize) + px;
                let ghost before = self@;
                self.data[idx] = v;
                proof {
                    assert forall|x: int, y: int| orig.in_bounds(x, y) implies self@.pixel(x, y)
                        == (if x0 <= x < x0 + col && y0 <= y < y0 + src_height {
                        src@[(y - y0) * src_width + (x - x0)]
                    } else if x == x0 + col && y0 <= y < y0 + row + 1 {
                        src@[(y - y0) * src_width + (x - x0)]
                    } else {
                        orig.pixel(x, y)
                    }) by {
                        lemma_row_major_index(x, y, orig.width, orig.height);
                        if y * orig.width + x == idx {
                            lemma_row_major_injective(orig.width, x, y, px as int, py as int);
                        }
                    }
                }
                row += 1;
            }
            col += 1;
        }
    }
}

} // verus!
