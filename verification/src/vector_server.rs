use vstd::prelude::*;

verus! {

/// Server for drawing vector textures. Tessellated vector meshes live in
/// GPU buffers owned by the render loop, and their draw calls are recorded
/// there; the server itself keeps no state.
pub struct VectorServer {}

impl VectorServer {
    /// Draw a vector texture.
    pub fn draw_texture() {
    }
}

} // verus!
