//! The G-buffer: an off-screen render target that is built from named
//! attachments, validated once, and then bound and unbound every frame.

use vstd::prelude::*;
use vstd::string::*;
use crate::glenum;
use crate::name_table::NameTable;
use crate::texture::Texture;

verus! {

/// A texture to allocate and attach to a frame buffer.
#[derive(Debug, PartialEq, Eq)]
pub struct TextureBuffer {
    pub name: String,
    pub width: u32,
    pub height: u32,
    pub type_: u32,
    pub internal_format: u32,
    pub format: u32,
    pub attachment: u32,
}

/// Where a frame buffer stands in its life.
#[derive(Clone, Copy, Debug, PartialEq, Eq, Structural)]
pub enum FrameBufferState {
    /// Attachments are being added; the frame buffer is the render target.
    Building,
    /// Validated, and the render target.
    Bound,
    /// Validated; the default target is the render target.
    Unbound,
}

/// A frame buffer object with its attachments.
#[derive(Debug)]
pub struct FrameBuffer {
    pub fbo: u32,
    /// The backing texture of each semantic buffer name.
    pub buffers: NameTable<u32>,
    /// The colour attachment points in the order of declaration, which is
    /// the order of the shader's output locations.
    pub attachments: Vec<u32>,
    pub state: FrameBufferState,
}

impl FrameBuffer {
    /// A frame buffer around the object `fbo`, without attachments and
    /// ready to take them.
    pub fn new(fbo: u32) -> (frame: FrameBuffer)
        ensures
            frame.fbo == fbo,
            frame.buffers@ == Map::<Seq<char>, u32>::empty(),
            frame.attachments@ == Seq::<u32>::empty(),
            frame.state == FrameBufferState::Building,
    {
        FrameBuffer { fbo, buffers: NameTable::new(), attachments: Vec::new(), state: FrameBufferState::Building }
    }

    /// Makes the frame buffer the render target and gives the object to
    /// bind. A validated frame buffer becomes bound.
    pub fn bind(&mut self) -> (target: u32)
        ensures
            target == old(self).fbo,
            final(self).fbo == old(self).fbo,
            final(self).buffers == old(self).buffers,
            final(self).attachments == old(self).attachments,
            final(self).state == if old(self).state == FrameBufferState::Building {
                FrameBufferState::Building
            } else {
                FrameBufferState::Bound
            },
    {
        match self.state {
            FrameBufferState::Building => {},
            _ => {
                self.state = FrameBufferState::Bound;
            },
        }
        self.fbo
    }

    /// Judges the completeness status that the GPU reported for the frame
    /// buffer. A complete one is validated and left unbound; any other
    /// status is an error and changes nothing.
    pub fn finish(&mut self, status: u32) -> (r: Result<(), &'static str>)
        ensures
            r is Ok <==> status == glenum::FRAMEBUFFER_COMPLETE,
            r is Err ==> r->Err_0@ == "Framebuffer not complete!"@ && *final(self) == *old(self),
            r is Ok ==> final(self).state == FrameBufferState::Unbound,
            final(self).fbo == old(self).fbo,
            final(self).buffers == old(self).buffers,
            final(self).attachments == old(self).attachments,
    {
        if status != glenum::FRAMEBUFFER_COMPLETE {
            return Err("Framebuffer not complete!");
        }
        self.state = FrameBufferState::Unbound;
        Ok(())
    }

    /// Makes the default target the render target and gives the object to
    /// bind, which is zero. A validated frame buffer becomes unbound.
    pub fn unbind(&mut self) -> (target: u32)
        ensures
            target == 0,
            final(self).fbo == old(self).fbo,
            final(self).buffers == old(self).buffers,
            final(self).attachments == old(self).attachments,
            final(self).state == if old(self).state == FrameBufferState::Building {
                FrameBufferState::Building
            } else {
                FrameBufferState::Unbound
            },
    {
        match self.state {
            FrameBufferState::Building => {},
            _ => {
                self.state = FrameBufferState::Unbound;
            },
        }
        0
    }

    /// Records the texture `buf` that was allocated for `tex_buf`: under its
    /// name, and with its attachment point declared after those before.
    pub fn gen_texture_buffer(&mut self, tex_buf: TextureBuffer, buf: u32)
        requires
            old(self).state == FrameBufferState::Building,
        ensures
            final(self).fbo == old(self).fbo,
            final(self).state == old(self).state,
            final(self).buffers@ == old(self).buffers@.insert(tex_buf.name@, buf),
            final(self).attachments@ == old(self).attachments@.push(tex_buf.attachment),
    {
        self.buffers.insert(tex_buf.name.as_str(), buf);
        self.attachments.push(tex_buf.attachment);
    }

    /// Records a texture made for the frame buffer: under its label, and
    /// with the colour attachment point of its index declared after those
    /// before.
    pub fn add_texture(&mut self, texture: Texture)
        requires
            old(self).state == FrameBufferState::Building,
            glenum::COLOR_ATTACHMENT0 + texture.index <= u32::MAX,
        ensures
            final(self).fbo == old(self).fbo,
            final(self).state == old(self).state,
            final(self).buffers@ == old(self).buffers@.insert(texture.type_label@, texture.id),
            final(self).attachments@ == old(self).attachments@.push(
                (glenum::COLOR_ATTACHMENT0 + texture.index) as u32,
            ),
    {
        self.buffers.insert(texture.type_label.as_str(), texture.id);
        self.attachments.push(texture.attachment());
    }

    /// The list of draw buffers to declare: output location `i` of the
    /// shader writes to the attachment that was declared as the `i`-th.
    pub fn draw_buffers(&self) -> (list: Vec<u32>)
        ensures
            list@ == self.attachments@,
    {
        self.attachments.clone()
    }

    /// Declares further attachment points, in their order, and empties the
    /// list they came in.
    pub fn add_attachments(&mut self, attachments: &mut Vec<u32>)
        ensures
            final(self).fbo == old(self).fbo,
            final(self).state == old(self).state,
            final(self).buffers == old(self).buffers,
            final(self).attachments@ == old(self).attachments@ + old(attachments)@,
            final(attachments)@ == Seq::<u32>::empty(),
    {
        self.attachments.append(attachments);
    }

    /// The backing texture of the buffer called `name`.
    pub fn get_buffer(&self, name: &str) -> (id: &u32)
        requires
            self.buffers@.contains_key(name@),
        ensures
            *id == self.buffers@[name@],
    {
        self.buffers.get(name).unwrap()
    }

    /// Whether a buffer called `name` was recorded.
    pub fn has_buffer(&self, name: &str) -> (found: bool)
        ensures
            found == self.buffers@.contains_key(name@),
    {
        self.buffers.get(name).is_some()
    }
}

/// The shader output location of an attachment is its place in the order of
/// declaration: of two attachments declared after `before`, the one declared
/// first takes the lower location, so that declaring them the other way
/// round exchanges the textures that the two outputs are written to.
pub proof fn lemma_declaration_order(before: Seq<u32>, first: u32, second: u32)
    ensures
        before.push(first).push(second)[before.len() as int] == first,
        before.push(first).push(second)[before.len() as int + 1] == second,
        before.push(second).push(first)[before.len() as int] == second,
        before.push(second).push(first)[before.len() as int + 1] == first,
        forall|i: int|
            0 <= i < before.len() ==> before.push(first).push(second)[i] == before.push(second).push(
                first,
            )[i],
{
}

} // verus!
