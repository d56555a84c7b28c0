use vstd::prelude::*;

verus! {

/// Whether the shaping engine accepts these bytes as a font face.
/// `rustybuzz::Face::from_slice` is a pure function of the bytes, so
/// success depends on the bytes alone.
pub uninterp spec fn face_parses(data: Seq<u8>) -> bool;

/// The glyph-index sequence that shaping this text with this font produces,
/// in render order. `rustybuzz::shape` is deterministic in the font bytes
/// and the text, so the sequence is a function of the two alone.
pub uninterp spec fn shape_of(data: Seq<u8>, text: Seq<char>) -> Seq<u16>;

/// Relies on `rustybuzz::Face::from_slice` (parsing depends on the bytes
/// alone) and `rustybuzz::shape` (the glyph sequence, in render order, is
/// deterministic in the face and the text; ligatures and clustering may make
/// it shorter or longer than the text).
#[verifier::external_body]
pub(crate) fn shape_text(data: &Vec<u8>, text: &String) -> (r: Option<Vec<u16>>)
    ensures
        r is Some <==> face_parses(data@),
        r matches Some(ids) ==> ids@ == shape_of(data@, text@),
{
    let mut face = match rustybuzz::Face::from_slice(data.as_slice(), 0) {
        Some(face) => face,
        None => {
            return None;
        },
    };
    face.set_points_per_em(Some((32u16).into()));
    let mut buffer = rustybuzz::UnicodeBuffer::new();
    buffer.push_str(text.as_str());
    let glyphs = rustybuzz::shape(&face, &[], buffer);
    Some(glyphs.glyph_infos().iter().map(|info| info.glyph_id as u16).collect())
}

} // verus!
