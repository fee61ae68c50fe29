use render_core::framebuffer::{FrameBuffer, FrameBufferState, TextureBuffer};
use render_core::renderbuffer::RenderBuffer;
use render_core::texture::Texture;

fn buffer(name: &str, attachment: u32) -> TextureBuffer {
    TextureBuffer {
        name: name.to_string(),
        width: 800,
        height: 800,
        type_: gl::FLOAT,
        internal_format: gl::RGBA16F,
        format: gl::RGBA,
        attachment,
    }
}

#[test]
fn a_new_frame_buffer_is_building() {
    let frame = FrameBuffer::new(7);
    assert_eq!(frame.fbo, 7);
    assert_eq!(frame.state, FrameBufferState::Building);
    assert!(frame.attachments.is_empty());
    assert!(!frame.has_buffer("position"));
    assert_eq!(frame.draw_buffers(), Vec::<u32>::new());
}

#[test]
fn attachments_are_declared_in_the_order_added() {
    let mut frame = FrameBuffer::new(1);
    frame.gen_texture_buffer(buffer("position", gl::COLOR_ATTACHMENT0), 11);
    frame.gen_texture_buffer(buffer("normal", gl::COLOR_ATTACHMENT1), 12);
    frame.gen_texture_buffer(buffer("albedo_spec", gl::COLOR_ATTACHMENT2), 13);
    assert_eq!(frame.draw_buffers(), vec![gl::COLOR_ATTACHMENT0, gl::COLOR_ATTACHMENT1, gl::COLOR_ATTACHMENT2]);
    assert_eq!(*frame.get_buffer("position"), 11);
    assert_eq!(*frame.get_buffer("normal"), 12);
    assert_eq!(*frame.get_buffer("albedo_spec"), 13);
    assert!(!frame.has_buffer("depth"));
}

#[test]
fn swapping_the_declarations_swaps_the_outputs() {
    let mut one = FrameBuffer::new(1);
    one.gen_texture_buffer(buffer("position", gl::COLOR_ATTACHMENT0), 11);
    one.gen_texture_buffer(buffer("normal", gl::COLOR_ATTACHMENT1), 12);
    let mut other = FrameBuffer::new(1);
    other.gen_texture_buffer(buffer("normal", gl::COLOR_ATTACHMENT1), 12);
    other.gen_texture_buffer(buffer("position", gl::COLOR_ATTACHMENT0), 11);
    assert_eq!(one.draw_buffers(), vec![gl::COLOR_ATTACHMENT0, gl::COLOR_ATTACHMENT1]);
    assert_eq!(other.draw_buffers(), vec![gl::COLOR_ATTACHMENT1, gl::COLOR_ATTACHMENT0]);
    assert_eq!(*one.get_buffer("normal"), *other.get_buffer("normal"));
}

#[test]
fn textures_attach_at_their_index() {
    let mut frame = FrameBuffer::new(1);
    frame.add_texture(Texture::for_framebuffer("position", 0, 21));
    frame.add_texture(Texture::for_framebuffer("material", 3, 24));
    assert_eq!(frame.draw_buffers(), vec![gl::COLOR_ATTACHMENT0, gl::COLOR_ATTACHMENT3]);
    assert_eq!(*frame.get_buffer("material"), 24);
}

#[test]
fn a_name_used_twice_keeps_the_later_texture() {
    let mut frame = FrameBuffer::new(1);
    frame.gen_texture_buffer(buffer("albedo", gl::COLOR_ATTACHMENT0), 5);
    frame.gen_texture_buffer(buffer("albedo", gl::COLOR_ATTACHMENT1), 6);
    assert_eq!(*frame.get_buffer("albedo"), 6);
    assert_eq!(frame.draw_buffers().len(), 2);
}

#[test]
fn further_attachments_are_appended() {
    let mut frame = FrameBuffer::new(1);
    frame.gen_texture_buffer(buffer("position", gl::COLOR_ATTACHMENT0), 11);
    let mut more = vec![gl::COLOR_ATTACHMENT4, gl::COLOR_ATTACHMENT2];
    frame.add_attachments(&mut more);
    assert!(more.is_empty());
    assert_eq!(frame.draw_buffers(), vec![gl::COLOR_ATTACHMENT0, gl::COLOR_ATTACHMENT4, gl::COLOR_ATTACHMENT2]);
}

#[test]
fn an_incomplete_frame_buffer_is_refused() {
    let mut frame = FrameBuffer::new(3);
    frame.gen_texture_buffer(buffer("position", gl::COLOR_ATTACHMENT0), 11);
    for status in [
        gl::FRAMEBUFFER_INCOMPLETE_ATTACHMENT,
        gl::FRAMEBUFFER_INCOMPLETE_MISSING_ATTACHMENT,
        gl::FRAMEBUFFER_UNSUPPORTED,
        gl::FRAMEBUFFER_UNDEFINED,
        0,
    ] {
        assert_eq!(frame.finish(status), Err("Framebuffer not complete!"));
        assert_eq!(frame.state, FrameBufferState::Building);
    }
    assert_eq!(frame.draw_buffers(), vec![gl::COLOR_ATTACHMENT0]);
}

#[test]
fn a_complete_frame_buffer_is_left_unbound() {
    let mut frame = FrameBuffer::new(3);
    assert_eq!(frame.finish(gl::FRAMEBUFFER_COMPLETE), Ok(()));
    assert_eq!(frame.state, FrameBufferState::Unbound);
}

#[test]
fn binding_alternates_between_the_two_targets() {
    let mut frame = FrameBuffer::new(3);
    assert_eq!(frame.bind(), 3);
    assert_eq!(frame.state, FrameBufferState::Building);
    assert_eq!(frame.unbind(), 0);
    assert_eq!(frame.state, FrameBufferState::Building);
    frame.finish(gl::FRAMEBUFFER_COMPLETE).unwrap();
    assert_eq!(frame.bind(), 3);
    assert_eq!(frame.state, FrameBufferState::Bound);
    assert_eq!(frame.unbind(), 0);
    assert_eq!(frame.state, FrameBufferState::Unbound);
    assert_eq!(frame.unbind(), 0);
    assert_eq!(frame.state, FrameBufferState::Unbound);
}

#[test]
fn the_depth_buffer_joins_at_the_depth_attachment() {
    let depth = RenderBuffer::new(9);
    assert_eq!(depth.framebuffer_renderbuffer(), (gl::DEPTH_ATTACHMENT, 9));
}
