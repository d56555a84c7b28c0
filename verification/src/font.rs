use crate::glyph::FontError;
use crate::glyph::Glyph;
use crate::glyph::LayoutRect;
use crate::image::blit_pixel;
use crate::image::AtlasImage;
use crate::image::ImageModel;
use crate::packer::lemma_overlaps_symmetric;
use crate::packer::AtlasPacker;
use crate::packer::PackerModel;
use crate::raster::font_parses;
use crate::raster::RasterGlyph;
use crate::raster::Rasterizer;
use crate::shape::face_parses;
use crate::shape::shape_of;
use crate::shape::shape_text;
use std::collections::HashMap;
use vstd::prelude::*;

verus! {

broadcast use vstd::std_specs::hash::group_hash_axioms;

/// Width and height, in pixels, of the square atlas canvas.
pub const FONT_ATLAS_SIZE: u32 = 2096;

/// Pixel size at which every glyph of a font is rasterized.
pub const FONT_PIXEL_SIZE: u32 = 24;

/// Mathematical model of a dynamic font: the loaded font bytes, the fixed
/// pixel size, the packer and atlas image, the glyph cache, the dirty flag,
/// and the number of glyphs the loaded font holds.
pub struct FontModel {
    pub font_data: Seq<u8>,
    pub size: u32,
    pub packer: PackerModel,
    pub image: ImageModel,
    pub cache: Map<u16, Glyph>,
    pub dirty: bool,
    pub glyph_limit: u16,
}

impl FontModel {
    pub open spec fn wf(self) -> bool {
        &&& self.packer.wf()
        &&& self.image.wf()
        &&& self.packer.canvas_width == self.image.width
        &&& self.packer.canvas_height == self.image.height
        &&& self.size <= u16::MAX
        &&& forall|k: u16|
            #[trigger] self.cache.contains_key(k) ==> self.cache[k].index == k
                && self.cache[k].region.wf() && self.cache[k].region.within(
                self.packer.canvas_width,
                self.packer.canvas_height,
            ) && self.packer.settled(self.cache[k].region)
        &&& forall|k1: u16, k2: u16|
            #![trigger self.cache[k1], self.cache[k2]]
            self.cache.contains_key(k1) && self.cache.contains_key(k2) && k1 != k2
                ==> !self.cache[k1].region.overlaps(self.cache[k2].region)
    }
}

/// Whether a raster's metrics fit the integer ranges a `Glyph` stores: its
/// bitmap dimensions fit the packer's coordinates and its layout corners
/// fit signed 32-bit pixels.
pub open spec fn representable(r: RasterGlyph) -> bool {
    &&& r.width <= u32::MAX
    &&& r.height <= u32::MAX
    &&& r.xmin + r.width <= i32::MAX
    &&& r.ymin + r.height <= i32::MAX
}

/// Every entry of the old cache survives, unchanged, into the new one.
pub open spec fn cache_extends(pre: Map<u16, Glyph>, post: Map<u16, Glyph>) -> bool {
    forall|k: u16| #[trigger] pre.contains_key(k) ==> post.contains_key(k) && post[k] == pre[k]
}

/// How one `get_glyphs` call relates the font before (`pre`) and after
/// (`post`): the result lists, in order, the cache entry of each shaped
/// glyph identity; the cache only grows, with every fresh key one of the
/// shaped identities; and a call whose identities were all already cached
/// changes nothing at all.
pub open spec fn get_glyphs_post(
    pre: FontModel,
    post: FontModel,
    ids: Seq<u16>,
    glyphs: Seq<Glyph>,
) -> bool {
    &&& glyphs.len() == ids.len()
    &&& cache_extends(pre.cache, post.cache)
    &&& forall|i: int| 0 <= i < ids.len() ==> post.cache.contains_key(#[trigger] ids[i])
    &&& forall|i: int|
        0 <= i < ids.len() ==> #[trigger] glyphs[i] == post.cache[ids[i]] && glyphs[i].index
            == ids[i]
    &&& forall|k: u16|
        #[trigger] post.cache.contains_key(k) ==> pre.cache.contains_key(k) || ids.contains(k)
    &&& ((forall|i: int| 0 <= i < ids.len() ==> pre.cache.contains_key(#[trigger] ids[i]))
        ==> post == pre)
}

/// Whether pixel `(x, y)` lies in the atlas region of a glyph that entered
/// the cache between the two states.
pub open spec fn covered_by_new_glyph(pre: FontModel, post: FontModel, x: int, y: int) -> bool {
    exists|k: u16|
        #[trigger] post.cache.contains_key(k) && !pre.cache.contains_key(k)
            && post.cache[k].region.contains(x, y)
}

/// What any glyph request preserves, however it ends: well-formedness, the
/// font identity and atlas geometry, every existing cache entry, the
/// downward-only cursor; atlas writes stay confined to the regions of
/// freshly cached glyphs; an untouched cache means an untouched font, and a
/// grown cache leaves the atlas dirty.
pub open spec fn font_evolves(pre: FontModel, post: FontModel) -> bool {
    &&& post.wf()
    &&& post.font_data == pre.font_data
    &&& post.size == pre.size
    &&& post.glyph_limit == pre.glyph_limit
    &&& post.packer.canvas_width == pre.packer.canvas_width
    &&& post.packer.canvas_height == pre.packer.canvas_height
    &&& post.image.width == pre.image.width
    &&& post.image.height == pre.image.height
    &&& post.packer.cursor_y >= pre.packer.cursor_y
    &&& cache_extends(pre.cache, post.cache)
    &&& forall|x: int, y: int|
        pre.image.in_bounds(x, y) && !covered_by_new_glyph(pre, post, x, y) ==> post.image.pixel(
            x,
            y,
        ) == #[trigger] pre.image.pixel(x, y)
    &&& (post.cache == pre.cache ==> post == pre)
    &&& (post.cache != pre.cache ==> post.dirty)
}

/// Turns Unicode strings into positioned glyph images packed into one
/// shared coverage atlas. Glyphs are shaped, rasterized once each, placed
/// by the shelf packer, written into the atlas image, and remembered in the
/// cache; the dirty flag says whether the CPU-side atlas has changed since
/// it was last handed off for upload.
pub struct DynamicFont {
    rasterizer: Rasterizer,
    font_data: Vec<u8>,
    size: u32,
    packer: AtlasPacker,
    image: AtlasImage,
    cache: HashMap<u16, Glyph>,
    dirty: bool,
}

impl View for DynamicFont {
    type V = FontModel;

    closed spec fn view(&self) -> FontModel {
        FontModel {
            font_data: self.font_data@,
            size: self.size,
            packer: self.packer@,
            image: self.image@,
            cache: self.cache@,
            dirty: self.dirty,
            glyph_limit: self.rasterizer.spec_glyph_count(),
        }
    }
}

impl DynamicFont {
    /// Parse the font bytes and set up an empty atlas: a zeroed canvas, a
    /// packer at the origin, an empty cache, and a clean dirty flag.
    pub fn load(font_data: Vec<u8>) -> (r: Result<DynamicFont, FontError>)
        ensures
            r is Ok <==> font_parses(font_data@),
            r matches Err(e) ==> e == FontError::LoadFailed,
            r matches Ok(f) ==> {
                &&& f@.wf()
                &&& f@.font_data == font_data@
                &&& f@.size == FONT_PIXEL_SIZE
                &&& f@.packer.canvas_width == FONT_ATLAS_SIZE
                &&& f@.packer.canvas_height == FONT_ATLAS_SIZE
                &&& f@.packer.cursor_x == 0
                &&& f@.packer.cursor_y == 0
                &&& f@.packer.row_height == 0
                &&& f@.cache == Map::<u16, Glyph>::empty()
                &&& !f@.dirty
                &&& forall|x: int, y: int|
                    f@.image.in_bounds(x, y) ==> f@.image.pixel(x, y) == 0u8
            },
    {
        let rasterizer = match Rasterizer::from_bytes(&font_data) {
            Some(r) => r,
            None => {
                return Err(FontError::LoadFailed);
            },
        };
        let packer = AtlasPacker::new(FONT_ATLAS_SIZE, FONT_ATLAS_SIZE);
        let image = AtlasImage::new(FONT_ATLAS_SIZE, FONT_ATLAS_SIZE);
        Ok(
            DynamicFont {
                rasterizer,
                font_data,
                size: FONT_PIXEL_SIZE,
                packer,
                image,
                cache: HashMap::new(),
                dirty: false,
            },
        )
    }

    /// The fixed pixel size glyphs are rasterized at.
    pub fn size(&self) -> (r: u32)
        ensures
            r == self@.size,
    {
        self.size
    }

    /// Whether the CPU-side atlas has changed since the last upload.
    pub fn is_dirty(&self) -> (r: bool)
        ensures
            r == self@.dirty,
    {
        self.dirty
    }

    /// How many distinct glyph identities the cache holds.
    pub fn cache_len(&self) -> (r: usize)
        ensures
            r == self@.cache.dom().len(),
    {
        self.cache.len()
    }

    /// The cached record for one glyph identity, if that identity has been
    /// placed in the atlas before.
    pub fn cached_glyph(&self, index: u16) -> (r: Option<Glyph>)
        ensures
            r is Some <==> self@.cache.contains_key(index),
            r matches Some(g) ==> g == self@.cache[index],
    {
        match self.cache.get(&index) {
            Some(g) => Some(*g),
            None => None,
        }
    }

    /// The raw row-major bytes of the atlas canvas, for a whole-atlas GPU
    /// transfer.
    pub fn atlas_bytes(&self) -> (r: &Vec<u8>)
        ensures
            r@ == self@.image.data,
    {
        self.image.as_bytes()
    }

    /// Rasterizer output in hand, give one uncached glyph its place: put the
    /// bitmap in the atlas at a region from the packer, record the glyph in
    /// the cache, and mark the atlas dirty. Exactly which error comes back,
    /// and that failure leaves the font untouched, is pinned down for every
    /// possible raster.
    pub fn place_glyph(&mut self, index: u16, raster: &RasterGlyph) -> (r: Result<
        Glyph,
        FontError,
    >)
        requires
            old(self)@.wf(),
            !old(self)@.cache.contains_key(index),
            raster.wf(),
        ensures
            final(self)@.wf(),
            final(self)@.font_data == old(self)@.font_data,
            final(self)@.size == old(self)@.size,
            final(self)@.glyph_limit == old(self)@.glyph_limit,
            final(self)@.packer.canvas_width == old(self)@.packer.canvas_width,
            final(self)@.packer.canvas_height == old(self)@.packer.canvas_height,
            final(self)@.packer.cursor_y >= old(self)@.packer.cursor_y,
            cache_extends(old(self)@.cache, final(self)@.cache),
            !representable(*raster) ==> r == Err::<Glyph, FontError>(FontError::GlyphTooLarge)
                && final(self)@ == old(self)@,
            representable(*raster) && !old(self)@.packer.can_place(
                raster.width as u32,
                raster.height as u32,
            ) ==> r == Err::<Glyph, FontError>(FontError::AtlasFull) && final(self)@ == old(self)@,
            representable(*raster) && old(self)@.packer.can_place(
                raster.width as u32,
                raster.height as u32,
            ) ==> (r matches Ok(g) && {
                &&& g.index == index
                &&& g.region.wf()
                &&& g.region.within(old(self)@.packer.canvas_width, old(self)@.packer.canvas_height)
                &&& g.region.x0 == old(self)@.packer.place_x(raster.width as u32)
                &&& g.region.y0 == old(self)@.packer.place_y(raster.width as u32)
                &&& g.region.x1 == g.region.x0 + raster.width
                &&& g.region.y1 == g.region.y0 + raster.height
                &&& g.layout == (LayoutRect {
                    xmin: raster.xmin,
                    ymin: raster.ymin,
                    xmax: (raster.xmin + raster.width) as i32,
                    ymax: (raster.ymin + raster.height) as i32,
                })
                &&& g.bounds == raster.bounds
                &&& final(self)@.cache == old(self)@.cache.insert(index, g)
                &&& final(self)@.dirty
                &&& forall|x: int, y: int|
                    old(self)@.image.in_bounds(x, y) ==> final(self)@.image.pixel(x, y)
                        == blit_pixel(
                        old(self)@.image,
                        raster.bitmap@,
                        raster.width as int,
                        raster.height as int,
                        g.region.x0 as int,
                        g.region.y0 as int,
                        x,
                        y,
                    )
            }),
    {
        if raster.width > u32::MAX as usize || raster.height > u32::MAX as usize {
            return Err(FontError::GlyphTooLarge);
        }
        let w = raster.width as u32;
        let h = raster.height as u32;
        let xmax_wide: i64 = raster.xmin as i64 + raster.width as i64;
        let ymax_wide: i64 = raster.ymin as i64 + raster.height as i64;
        if xmax_wide > i32::MAX as i64 || ymax_wide > i32::MAX as i64 {
            return Err(FontError::GlyphTooLarge);
        }
        let rect = match self.packer.allocate(w, h) {
            Some(rect) => rect,
            None => {
                return Err(FontError::AtlasFull);
            },
        };
        self.image.blit(&raster.bitmap, raster.width, raster.height, rect.x0, rect.y0);
        let glyph = Glyph {
            index,
            layout: LayoutRect {
                xmin: raster.xmin,
                ymin: raster.ymin,
                xmax: xmax_wide as i32,
                ymax: ymax_wide as i32,
            },
            bounds: raster.bounds,
            region: rect,
        };
        self.cache.insert(index, glyph);
        self.dirty = true;
        proof {
            let pre = old(self)@;
            let post = self@;
            assert(post.cache == pre.cache.insert(index, glyph));
            assert forall|k: u16| #[trigger] post.cache.contains_key(k) implies post.cache[k].index
                == k && post.cache[k].region.wf() && post.cache[k].region.within(
                post.packer.canvas_width,
                post.packer.canvas_height,
            ) && post.packer.settled(post.cache[k].region) by {
                if k == index {
                    assert(post.cache[k] == glyph);
                } else {
                    assert(pre.cache.contains_key(k));
                    assert(post.cache[k] == pre.cache[k]);
                    assert(pre.packer.settled(pre.cache[k].region));
                }
            }
            assert forall|k1: u16, k2: u16|
                #![trigger post.cache[k1], post.cache[k2]]
                post.cache.contains_key(k1) && post.cache.contains_key(k2) && k1
                    != k2 implies !post.cache[k1].region.overlaps(post.cache[k2].region) by {
                if k1 == index {
                    assert(pre.cache.contains_key(k2));
                    assert(pre.packer.settled(pre.cache[k2].region));
                    assert(!rect.overlaps(pre.cache[k2].region));
                } else if k2 == index {
                    assert(pre.cache.contains_key(k1));
                    assert(pre.packer.settled(pre.cache[k1].region));
                    assert(!rect.overlaps(pre.cache[k1].region));
                    lemma_overlaps_symmetric(pre.cache[k1].region, rect);
                } else {
                    assert(pre.cache.contains_key(k1));
                    assert(pre.cache.contains_key(k2));
                    assert(pre.cache[k1] == post.cache[k1]);
                    assert(pre.cache[k2] == post.cache[k2]);
                }
            }
        }
        Ok(glyph)
    }

    /// The single public text entry point: shape `text` into glyph
    /// identities, then return each identity's glyph record in shaping
    /// (render) order. Identities already in the cache are returned as
    /// stored, touching nothing; each fresh identity is rasterized at the
    /// font's fixed size, placed in the atlas, cached, and the atlas is
    /// marked dirty. Repeating a call with the same text returns the same
    /// records and mutates nothing.
    #[verifier::loop_isolation(false)]
    pub fn get_glyphs(&mut self, text: String) -> (r: Result<Vec<Glyph>, FontError>)
        requires
            old(self)@.wf(),
        ensures
            font_evolves(old(self)@, final(self)@),
            ({
                let ids = shape_of(old(self)@.font_data, text@);
                &&& (!face_parses(old(self)@.font_data) ==> r == Err::<Vec<Glyph>, FontError>(
                    FontError::ShapeFailed,
                ) && final(self)@ == old(self)@)
                &&& ((face_parses(old(self)@.font_data) && (exists|i: int|
                    0 <= i < ids.len() && #[trigger] ids[i] >= old(self)@.glyph_limit)) ==> r
                    == Err::<Vec<Glyph>, FontError>(FontError::GlyphOutOfRange) && final(self)@
                    == old(self)@)
                &&& ((face_parses(old(self)@.font_data) && (forall|i: int|
                    0 <= i < ids.len() ==> #[trigger] ids[i] < old(self)@.glyph_limit)) ==> {
                    &&& (r matches Ok(gs) ==> get_glyphs_post(old(self)@, final(self)@, ids, gs@))
                    &&& (r matches Err(e) ==> (e == FontError::AtlasFull || e
                        == FontError::GlyphTooLarge) && (exists|i: int|
                        0 <= i < ids.len() && !old(self)@.cache.contains_key(#[trigger] ids[i])))
                    &&& ((forall|i: int|
                        0 <= i < ids.len() ==> old(self)@.cache.contains_key(#[trigger] ids[i]))
                        ==> r is Ok)
                })
            }),
    {
        let ids = match shape_text(&self.font_data, &text) {
            Some(ids) => ids,
            None => {
                return Err(FontError::ShapeFailed);
            },
        };
        let limit = self.rasterizer.glyph_count();
        let mut i: usize = 0;
        while i < ids.len()
            invariant
                i <= ids@.len(),
                forall|j: int| 0 <= j < i ==> #[trigger] ids@[j] < limit,
            decreases ids@.len() - i,
        {
            if ids[i] >= limit {
                return Err(FontError::GlyphOutOfRange);
            }
            i += 1;
        }
        let ghost pre = self@;
        let mut glyphs: Vec<Glyph> = Vec::new();
        let mut i: usize = 0;
        while i < ids.len()
            invariant
                pre == old(self)@,
                self@.wf(),
                font_evolves(pre, self@),
                limit == pre.glyph_limit,
                pre.size <= u16::MAX,
                i <= ids@.len(),
                glyphs@.len() == i,
                forall|j: int| 0 <= j < ids@.len() ==> #[trigger] ids@[j] < limit,
                forall|j: int| 0 <= j < i ==> self@.cache.contains_key(#[trigger] ids@[j]),
                forall|j: int|
                    0 <= j < i ==> #[trigger] glyphs@[j] == self@.cache[ids@[j]] && glyphs@[j].index
                        == ids@[j],
                forall|k: u16|
                    #[trigger] self@.cache.contains_key(k) ==> pre.cache.contains_key(k)
                        || ids@.subrange(0, i as int).contains(k),
                (forall|j: int| 0 <= j < i ==> pre.cache.contains_key(#[trigger] ids@[j]))
                    ==> self@ == pre,
            decreases ids@.len() - i,
        {
            let id = ids[i];
            let ghost mid = self@;
            let cached = self.cache.get(&id);
            match cached {
                Some(g) => {
                    let g = *g;
                    glyphs.push(g);
                },
                None => {
                    let raster = self.rasterizer.rasterize(id, self.size);
                    match self.place_glyph(id, &raster) {
                        Ok(g) => {
                            glyphs.push(g);
                            proof {
                                assert(!pre.cache.contains_key(id));
                                assert forall|x: int, y: int|
                                    pre.image.in_bounds(x, y) && !covered_by_new_glyph(
                                        pre,
                                        self@,
                                        x,
                                        y,
                                    ) implies self@.image.pixel(x, y) == #[trigger] pre.image.pixel(
                                    x,
                                    y,
                                ) by {
                                    if g.region.contains(x, y) {
                                        assert(self@.cache.contains_key(id)
                                            && !pre.cache.contains_key(id)
                                            && self@.cache[id].region.contains(x, y));
                                        assert(false);
                                    }
                                    assert(self@.image.pixel(x, y) == mid.image.pixel(x, y));
                                    if covered_by_new_glyph(pre, mid, x, y) {
                                        let k = choose|k: u16|
                                            #[trigger] mid.cache.contains_key(k)
                                                && !pre.cache.contains_key(k)
                                                && mid.cache[k].region.contains(x, y);
                                        assert(self@.cache.contains_key(k)
                                            && !pre.cache.contains_key(k)
                                            && self@.cache[k].region.contains(x, y));
                                        assert(false);
                                    }
                                    assert(mid.image.pixel(x, y) == pre.image.pixel(x, y));
                                }
                            }
                        },
                        Err(e) => {
                            proof {
                                assert(!pre.cache.contains_key(id));
                                assert(ids@[i as int] == id);
                            }
                            return Err(e);
                        },
                    }
                },
            }
            proof {
                assert(ids@.subrange(0, i + 1 as int) =~= ids@.subrange(0, i as int).push(id));
                assert forall|k: u16| #[trigger] self@.cache.contains_key(k) implies
                    pre.cache.contains_key(k) || ids@.subrange(0, i + 1 as int).contains(k) by {
                    if !pre.cache.contains_key(k) {
                        if mid.cache.contains_key(k) {
                            assert(ids@.subrange(0, i as int).contains(k));
                            let w = choose|w: int|
                                0 <= w < i && ids@.subrange(0, i as int)[w] == k;
                            assert(ids@.subrange(0, i + 1 as int)[w] == k);
                        } else {
                            assert(ids@.subrange(0, i + 1 as int)[i as int] == k);
                        }
                    }
                }
            }
            i += 1;
        }
        Ok(glyphs)
    }

    /// Per-frame synchronization point. Reports whether the atlas image
    /// changed since the last call and marks it clean; the caller must push
    /// `atlas_bytes` to the GPU texture exactly when this returns true.
    /// When the flag is clear this changes nothing and no transfer is owed.
    pub fn upload(&mut self) -> (r: bool)
        requires
            old(self)@.wf(),
        ensures
            final(self)@.wf(),
            r == old(self)@.dirty,
            !final(self)@.dirty,
            final(self)@ == (FontModel { dirty: false, ..old(self)@ }),
    {
        let r = self.dirty;
        self.dirty = false;
        r
    }
}

/// Requesting glyphs for the same text twice in a row is idempotent: the
/// glyph identities are a function of the font bytes and the text alone, so
/// after the first call every identity is cached, the second call changes
/// nothing in the font, and both calls return identical glyph sequences.
pub proof fn lemma_get_glyphs_idempotent(
    pre: FontModel,
    mid: FontModel,
    r1: Seq<Glyph>,
    post: FontModel,
    r2: Seq<Glyph>,
    text: Seq<char>,
)
    requires
        mid.font_data == pre.font_data,
        get_glyphs_post(pre, mid, shape_of(pre.font_data, text), r1),
        get_glyphs_post(mid, post, shape_of(mid.font_data, text), r2),
    ensures
        post == mid,
        r2 == r1,
{
    let ids = shape_of(pre.font_data, text);
    assert forall|i: int| 0 <= i < ids.len() implies mid.cache.contains_key(#[trigger] ids[i]) by {
    }
    assert(post == mid);
    assert forall|i: int| 0 <= i < ids.len() implies r2[i] == r1[i] by {
        assert(r1[i] == mid.cache[ids[i]]);
        assert(r2[i] == post.cache[ids[i]]);
    }
    assert(r2 =~= r1);
}

/// The regions of two distinct cached glyphs never overlap, and every
/// cached region lies fully within the atlas canvas.
pub proof fn lemma_cached_regions_disjoint(m: FontModel, k1: u16, k2: u16)
    requires
        m.wf(),
        m.cache.contains_key(k1),
        m.cache.contains_key(k2),
        k1 != k2,
    ensures
        !m.cache[k1].region.overlaps(m.cache[k2].region),
        m.cache[k1].region.within(m.packer.canvas_width, m.packer.canvas_height),
{
}

} // verus!
