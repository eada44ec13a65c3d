use vstd::prelude::*;

verus! {

/// What a ray that leaves the scene sees.
///
/// With a texture, the sky is an equirectangular RGB8 picture: its pixel buffer, width,
/// height and the path it was read from. Without one, it is the white to sky-blue gradient.
#[derive(Debug)]
pub struct Sky {
    pub texture: Option<(Vec<u8>, usize, usize, String)>,
}

impl Sky {
    /// The gradient sky, with no texture.
    pub fn new_default_sky() -> (r: Sky)
        ensures
            r.texture is None,
    {
        Sky { texture: None }
    }
}

} // verus!
