//! The depth render buffer that accompanies the G-buffer.

use vstd::prelude::*;
use crate::glenum;

verus! {

/// A depth-only render buffer.
#[derive(Clone, Copy, Debug, PartialEq, Eq, Structural)]
pub struct RenderBuffer {
    pub rbo: u32,
}

impl RenderBuffer {
    /// The render buffer around the object `rbo`.
    pub fn new(rbo: u32) -> (buf: RenderBuffer)
        ensures
            buf.rbo == rbo,
    {
        RenderBuffer { rbo }
    }

    /// The attachment point at which the buffer joins the bound frame
    /// buffer, and the object to attach: always the depth attachment.
    pub fn framebuffer_renderbuffer(&self) -> (r: (u32, u32))
        ensures
            r.0 == glenum::DEPTH_ATTACHMENT,
            r.1 == self.rbo,
    {
        (glenum::DEPTH_ATTACHMENT, self.rbo)
    }
}

} // verus!
