use crate::rect::Rect;
use vstd::prelude::*;

verus! {

/// Whole-pixel bounding box of a rasterized glyph relative to the text
/// baseline, used to position the glyph's quad.
#[derive(Clone, Copy, Debug, PartialEq, Eq, Structural)]
pub struct LayoutRect {
    pub xmin: i32,
    pub ymin: i32,
    pub xmax: i32,
    pub ymax: i32,
}

/// Sub-pixel outline bounds as the rasterizer reports them: an offset and a
/// size, each an IEEE-754 single-precision bit pattern, kept verbatim so a
/// consumer can recover the exact values for precise quad sizing.
#[derive(Clone, Copy, Debug, PartialEq, Eq, Structural)]
pub struct SubpixelBounds {
    pub xmin_bits: u32,
    pub ymin_bits: u32,
    pub width_bits: u32,
    pub height_bits: u32,
}

/// Shaped and rasterized metadata for one glyph identity, immutable once it
/// enters the cache. `index` is the font-scoped glyph index (not a Unicode
/// codepoint), and `region` is where the glyph's coverage bitmap lives in
/// the shared atlas.
#[derive(Clone, Copy, Debug, PartialEq, Eq, Structural)]
pub struct Glyph {
    /// Unique ID specific to a font.
    pub index: u16,
    /// Local rect w.r.t. the baseline.
    pub layout: LayoutRect,
    /// Local bbox w.r.t. the baseline.
    pub bounds: SubpixelBounds,
    /// Region in the font atlas.
    pub region: Rect,
}

/// Everything that can go wrong while loading a font or requesting glyphs.
#[derive(Clone, Copy, Debug, PartialEq, Eq, Structural)]
pub enum FontError {
    /// The font bytes could not be parsed by the rasterization engine.
    LoadFailed,
    /// The font bytes could not be parsed by the shaping engine.
    ShapeFailed,
    /// Shaping produced a glyph index the loaded font does not contain.
    GlyphOutOfRange,
    /// A rasterized bitmap is too large to describe in glyph metrics.
    GlyphTooLarge,
    /// The atlas canvas has no room left for a new glyph bitmap.
    AtlasFull,
}

} // verus!
