//! The texture resource model: one GPU-resident image, known by an opaque
//! backend handle and its native pixel dimensions.
//!
//! Decoding an image file and uploading its pixels is the image decoder's and
//! graphics backend's work; the unverified shell performs it and constructs a
//! `Texture` from the handle and the decoded dimensions. The shell also bears
//! the release duty: the handle is valid between creation and an explicit
//! release, and the session replaces a texture only by releasing the old one
//! first.

use vstd::prelude::*;

verus! {

/// One GPU-resident image: an opaque handle plus the decoded image's native
/// pixel dimensions.
pub struct Texture {
    id: u32,
    width: u32,
    height: u32,
}

impl Texture {
    /// The backend handle.
    pub closed spec fn spec_id(&self) -> u32 {
        self.id
    }

    /// The native pixel width of the decoded image.
    pub closed spec fn spec_width(&self) -> u32 {
        self.width
    }

    /// The native pixel height of the decoded image.
    pub closed spec fn spec_height(&self) -> u32 {
        self.height
    }

    /// Wrap a freshly uploaded image: the backend handle and the decoded
    /// native dimensions.
    pub fn new(id: u32, width: u32, height: u32) -> (t: Texture)
        ensures
            t.spec_id() == id,
            t.spec_width() == width,
            t.spec_height() == height,
    {
        Texture { id, width, height }
    }

    /// The backend handle, for bind and release calls.
    pub fn id(&self) -> (r: u32)
        ensures
            r == self.spec_id(),
    {
        self.id
    }

    /// The decoded image's native pixel dimensions.
    pub fn get_texture_size(&self) -> (size: (u32, u32))
        ensures
            size == (self.spec_width(), self.spec_height()),
    {
        (self.width, self.height)
    }
}

} // verus!
