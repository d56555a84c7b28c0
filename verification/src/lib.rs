//! A text-rendering library: Unicode strings are shaped into glyph
//! sequences, each glyph is rasterized once and packed into a shared
//! coverage atlas, and the atlas is synchronized to a GPU texture on
//! demand.

mod font;
mod glyph;
mod image;
mod packer;
mod raster;
mod rect;
mod shape;
mod vector_server;

pub use font::cache_extends;
pub use font::covered_by_new_glyph;
pub use font::font_evolves;
pub use font::get_glyphs_post;
pub use font::lemma_cached_regions_disjoint;
pub use font::lemma_get_glyphs_idempotent;
pub use font::representable;
pub use font::DynamicFont;
pub use font::FontModel;
pub use font::FONT_ATLAS_SIZE;
pub use font::FONT_PIXEL_SIZE;
pub use glyph::FontError;
pub use glyph::Glyph;
pub use glyph::LayoutRect;
pub use glyph::SubpixelBounds;
pub use image::blit_pixel;
pub use image::AtlasImage;
pub use image::ImageModel;
pub use packer::lemma_overlaps_symmetric;
pub use packer::lemma_placed_regions_disjoint;
pub use packer::AtlasPacker;
pub use packer::PackerModel;
pub use raster::font_parses;
pub use raster::RasterGlyph;
pub use rect::lemma_empty_overlaps_nothing;
pub use rect::lemma_separated_implies_disjoint;
pub use rect::Rect;
pub use shape::face_parses;
pub use shape::shape_of;
pub use vector_server::VectorServer;
