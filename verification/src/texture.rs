//! Texture update payloads.
//!
//! A texture update carries an optional image payload; the device-facing
//! parameters that accompany it (filters, wrap modes, anisotropy) belong to
//! the device layer. What the library states is the payload's shape.

use vstd::prelude::*;

verus! {

/// One texture image payload: its pixel dimensions and, optionally, the
/// bytes to upload (absent bytes reserve storage without filling it).
#[derive(Debug, Copy, Clone)]
pub struct TextureUpdateData<'a> {
    pub width: i32,
    pub height: i32,
    pub bytes: Option<&'a [u8]>,
}

impl<'a> TextureUpdateData<'a> {
    /// A payload carrying `bytes` to upload at the given dimensions.
    pub fn new(width: i32, height: i32, bytes: Option<&'a [u8]>) -> (r: TextureUpdateData<'a>)
        ensures
            r.width == width,
            r.height == height,
            bytes is Some ==> (r.bytes matches Some(b) && b@ == bytes->0@),
            bytes is None ==> r.bytes is None,
    {
        TextureUpdateData { width, height, bytes }
    }
}

} // verus!
