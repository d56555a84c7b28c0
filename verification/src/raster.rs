use crate::glyph::SubpixelBounds;
use vstd::prelude::*;

verus! {

#[verifier::external_type_specification]
#[verifier::external_body]
pub struct ExFontdueFont(fontdue::Font);

/// Whether the rasterization engine accepts these bytes as a font.
/// `fontdue::Font::from_bytes` is a pure function of the bytes, so success
/// depends on the bytes alone.
pub uninterp spec fn font_parses(data: Seq<u8>) -> bool;

/// One glyph as the rasterizer returns it: whole-pixel placement metrics,
/// sub-pixel outline bounds, and a row-major coverage bitmap (top to
/// bottom), one byte per pixel.
pub struct RasterGlyph {
    pub xmin: i32,
    pub ymin: i32,
    pub width: usize,
    pub height: usize,
    pub bounds: SubpixelBounds,
    pub bitmap: Vec<u8>,
}

impl RasterGlyph {
    pub open spec fn wf(self) -> bool {
        self.bitmap@.len() == self.width * self.height
    }
}

/// The rasterization engine for one loaded font at a fixed pixel size is
/// driven through this adapter. The glyph count is read from the parsed
/// font once, at construction, so that glyph indices can be bounds-checked
/// before each rasterization call.
pub(crate) struct Rasterizer {
    font: fontdue::Font,
    glyph_count: u16,
}

impl Rasterizer {
    /// The number of glyphs in the loaded font.
    pub(crate) closed spec fn spec_glyph_count(self) -> u16 {
        self.glyph_count
    }

    pub(crate) fn glyph_count(&self) -> (r: u16)
        ensures
            r == self.spec_glyph_count(),
    {
        self.glyph_count
    }

    /// Relies on `fontdue::Font::from_bytes`: parsing either fails or yields
    /// a font, and depends on the bytes alone; `fontdue::Font::glyph_count`
    /// reports how many glyphs the parsed font holds.
    #[verifier::external_body]
    pub(crate) fn from_bytes(data: &Vec<u8>) -> (r: Option<Rasterizer>)
        ensures
            r is Some <==> font_parses(data@),
    {
        match fontdue::Font::from_bytes(data.as_slice(), fontdue::FontSettings::default()) {
            Ok(font) => {
                let glyph_count = font.glyph_count();
                Some(Rasterizer { font, glyph_count })
            },
            Err(_) => None,
        }
    }

    /// Relies on `fontdue::Font::rasterize_indexed`: the returned coverage
    /// bitmap holds exactly `width * height` bytes, row-major from the top
    /// left. The index must be in range, since the engine would panic on an
    /// unknown glyph index. The pixel size is converted losslessly to the
    /// floating-point size the engine expects, hence the bound on `px`.
    #[verifier::external_body]
    pub(crate) fn rasterize(&self, index: u16, px: u32) -> (r: RasterGlyph)
        requires
            index < self.spec_glyph_count(),
            px <= u16::MAX,
        ensures
            r.wf(),
    {
        let (metrics, bitmap) = self.font.rasterize_indexed(index, (px as u16).into());
        RasterGlyph {
            xmin: metrics.xmin,
            ymin: metrics.ymin,
            width: metrics.width,
            height: metrics.height,
            bounds: SubpixelBounds {
                xmin_bits: metrics.bounds.xmin.to_bits(),
                ymin_bits: metrics.bounds.ymin.to_bits(),
                width_bits: metrics.bounds.width.to_bits(),
                height_bits: metrics.bounds.height.to_bits(),
            },
            bitmap,
        }
    }
}

} // verus!
