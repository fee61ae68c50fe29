//! The built-in shapes: a full-screen quad for the lighting pass and a unit
//! cube. Their vertex tables are held as the words that are uploaded.

use vstd::prelude::*;
use crate::glenum;
use crate::mesh::VertexAttribute;

verus! {

/// The quad: two triangles over the whole screen, four words a vertex
/// (position x, y and texture coordinates u, v).
pub const QUAD_VERTICES: [u32; 24] = [
    0xBF800000, 0x3F800000, 0x00000000, 0x3F800000,
    0xBF800000, 0xBF800000, 0x00000000, 0x00000000,
    0x3F800000, 0xBF800000, 0x3F800000, 0x00000000,
    0xBF800000, 0x3F800000, 0x00000000, 0x3F800000,
    0x3F800000, 0xBF800000, 0x3F800000, 0x00000000,
    0x3F800000, 0x3F800000, 0x3F800000, 0x3F800000,
];

/// The cube: twelve triangles, eight words a vertex (position, normal,
/// texture coordinates).
pub const CUBE_VERTICES: [u32; 288] = [
    0xBF800000, 0xBF800000, 0xBF800000, 0x00000000, 0x00000000, 0xBF800000, 0x00000000, 0x00000000,
    0x3F800000, 0x3F800000, 0xBF800000, 0x00000000, 0x00000000, 0xBF800000, 0x3F800000, 0x3F800000,
    0x3F800000, 0xBF800000, 0xBF800000, 0x00000000, 0x00000000, 0xBF800000, 0x3F800000, 0x00000000,
    0x3F800000, 0x3F800000, 0xBF800000, 0x00000000, 0x00000000, 0xBF800000, 0x3F800000, 0x3F800000,
    0xBF800000, 0xBF800000, 0xBF800000, 0x00000000, 0x00000000, 0xBF800000, 0x00000000, 0x00000000,
    0xBF800000, 0x3F800000, 0xBF800000, 0x00000000, 0x00000000, 0xBF800000, 0x00000000, 0x3F800000,
    0xBF800000, 0xBF800000, 0x3F800000, 0x00000000, 0x00000000, 0x3F800000, 0x00000000, 0x00000000,
    0x3F800000, 0xBF800000, 0x3F800000, 0x00000000, 0x00000000, 0x3F800000, 0x3F800000, 0x00000000,
    0x3F800000, 0x3F800000, 0x3F800000, 0x00000000, 0x00000000, 0x3F800000, 0x3F800000, 0x3F800000,
    0x3F800000, 0x3F800000, 0x3F800000, 0x00000000, 0x00000000, 0x3F800000, 0x3F800000, 0x3F800000,
    0xBF800000, 0x3F800000, 0x3F800000, 0x00000000, 0x00000000, 0x3F800000, 0x00000000, 0x3F800000,
    0xBF800000, 0xBF800000, 0x3F800000, 0x00000000, 0x00000000, 0x3F800000, 0x00000000, 0x00000000,
    0xBF800000, 0x3F800000, 0x3F800000, 0xBF800000, 0x00000000, 0x00000000, 0x3F800000, 0x00000000,
    0xBF800000, 0x3F800000, 0xBF800000, 0xBF800000, 0x00000000, 0x00000000, 0x3F800000, 0x3F800000,
    0xBF800000, 0xBF800000, 0xBF800000, 0xBF800000, 0x00000000, 0x00000000, 0x00000000, 0x3F800000,
    0xBF800000, 0xBF800000, 0xBF800000, 0xBF800000, 0x00000000, 0x00000000, 0x00000000, 0x3F800000,
    0xBF800000, 0xBF800000, 0x3F800000, 0xBF800000, 0x00000000, 0x00000000, 0x00000000, 0x00000000,
    0xBF800000, 0x3F800000, 0x3F800000, 0xBF800000, 0x00000000, 0x00000000, 0x3F800000, 0x00000000,
    0x3F800000, 0x3F800000, 0x3F800000, 0x3F800000, 0x00000000, 0x00000000, 0x3F800000, 0x00000000,
    0x3F800000, 0xBF800000, 0xBF800000, 0x3F800000, 0x00000000, 0x00000000, 0x00000000, 0x3F800000,
    0x3F800000, 0x3F800000, 0xBF800000, 0x3F800000, 0x00000000, 0x00000000, 0x3F800000, 0x3F800000,
    0x3F800000, 0xBF800000, 0xBF800000, 0x3F800000, 0x00000000, 0x00000000, 0x00000000, 0x3F800000,
    0x3F800000, 0x3F800000, 0x3F800000, 0x3F800000, 0x00000000, 0x00000000, 0x3F800000, 0x00000000,
    0x3F800000, 0xBF800000, 0x3F800000, 0x3F800000, 0x00000000, 0x00000000, 0x00000000, 0x00000000,
    0xBF800000, 0xBF800000, 0xBF800000, 0x00000000, 0xBF800000, 0x00000000, 0x00000000, 0x3F800000,
    0x3F800000, 0xBF800000, 0xBF800000, 0x00000000, 0xBF800000, 0x00000000, 0x3F800000, 0x3F800000,
    0x3F800000, 0xBF800000, 0x3F800000, 0x00000000, 0xBF800000, 0x00000000, 0x3F800000, 0x00000000,
    0x3F800000, 0xBF800000, 0x3F800000, 0x00000000, 0xBF800000, 0x00000000, 0x3F800000, 0x00000000,
    0xBF800000, 0xBF800000, 0x3F800000, 0x00000000, 0xBF800000, 0x00000000, 0x00000000, 0x00000000,
    0xBF800000, 0xBF800000, 0xBF800000, 0x00000000, 0xBF800000, 0x00000000, 0x00000000, 0x3F800000,
    0xBF800000, 0x3F800000, 0xBF800000, 0x00000000, 0x3F800000, 0x00000000, 0x00000000, 0x3F800000,
    0x3F800000, 0x3F800000, 0x3F800000, 0x00000000, 0x3F800000, 0x00000000, 0x3F800000, 0x00000000,
    0x3F800000, 0x3F800000, 0xBF800000, 0x00000000, 0x3F800000, 0x00000000, 0x3F800000, 0x3F800000,
    0x3F800000, 0x3F800000, 0x3F800000, 0x00000000, 0x3F800000, 0x00000000, 0x3F800000, 0x00000000,
    0xBF800000, 0x3F800000, 0xBF800000, 0x00000000, 0x3F800000, 0x00000000, 0x00000000, 0x3F800000,
    0xBF800000, 0x3F800000, 0x3F800000, 0x00000000, 0x3F800000, 0x00000000, 0x00000000, 0x00000000,
];

/// A draw of consecutive vertices of a vertex array.
#[derive(Clone, Copy, Debug, PartialEq, Eq, Structural)]
pub struct ArrayDraw {
    pub vao: u32,
    pub mode: u32,
    pub first: i32,
    pub count: i32,
}

/// A built-in shape.
pub trait Primitive: Sized {
    /// The handles of the vertex array and of the vertex buffer.
    spec fn handles(&self) -> (u32, u32);

    /// How many vertices a draw of the shape takes.
    spec fn vertex_count() -> int;

    /// The shape around the vertex array `vao` and the vertex buffer `vbo`.
    fn new(vao: u32, vbo: u32) -> (shape: Self)
        ensures
            shape.handles() == (vao, vbo),
    ;

    /// The draw of the shape: all its vertices, as triangles.
    fn draw(&self) -> (call: ArrayDraw)
        ensures
            call.vao == self.handles().0,
            call.mode == glenum::TRIANGLES,
            call.first == 0,
            call.count == Self::vertex_count(),
    ;
}

/// The full-screen quad.
#[derive(Clone, Copy, Debug, PartialEq, Eq, Structural)]
pub struct Quad {
    pub vao: u32,
    pub vbo: u32,
}

/// The cube.
#[derive(Clone, Copy, Debug, PartialEq, Eq, Structural)]
pub struct Cube {
    pub vao: u32,
    pub vbo: u32,
}

impl Primitive for Quad {
    open spec fn handles(&self) -> (u32, u32) {
        (self.vao, self.vbo)
    }

    open spec fn vertex_count() -> int {
        6
    }

    fn new(vao: u32, vbo: u32) -> (shape: Quad) {
        Quad { vao, vbo }
    }

    fn draw(&self) -> (call: ArrayDraw) {
        ArrayDraw { vao: self.vao, mode: glenum::TRIANGLES, first: 0, count: 6 }
    }
}

impl Primitive for Cube {
    open spec fn handles(&self) -> (u32, u32) {
        (self.vao, self.vbo)
    }

    open spec fn vertex_count() -> int {
        36
    }

    fn new(vao: u32, vbo: u32) -> (shape: Cube) {
        Cube { vao, vbo }
    }

    fn draw(&self) -> (call: ArrayDraw) {
        ArrayDraw { vao: self.vao, mode: glenum::TRIANGLES, first: 0, count: 36 }
    }
}

/// Attribute `location` of a table of `stride_words` words a vertex whose
/// attribute starts `offset_words` words into the vertex: two components.
pub open spec fn table_attribute(location: int, stride_words: int, offset_words: int) -> VertexAttribute {
    VertexAttribute {
        location: location as u32,
        components: 2,
        stride: (4 * stride_words) as i32,
        offset: (4 * offset_words) as usize,
    }
}

impl Quad {
    /// The bytes of the quad's table to upload, and the layout of its
    /// vertices: position at location 0, texture coordinates at location 1.
    pub fn upload() -> (r: (usize, Vec<VertexAttribute>))
        ensures
            r.0 == 96,
            r.1@.len() == 2,
            r.1@[0] == table_attribute(0, 4, 0),
            r.1@[1] == table_attribute(1, 4, 2),
    {
        let mut layout: Vec<VertexAttribute> = Vec::new();
        layout.push(VertexAttribute { location: 0, components: 2, stride: 16, offset: 0 });
        layout.push(VertexAttribute { location: 1, components: 2, stride: 16, offset: 8 });
        (96, layout)
    }
}

impl Cube {
    /// The bytes of the cube's table to upload, and the layout of its
    /// vertices: position at location 0, normal at location 1, texture
    /// coordinates at location 2.
    pub fn upload() -> (r: (usize, Vec<VertexAttribute>))
        ensures
            r.0 == 96,
            r.1@.len() == 3,
            r.1@[0] == table_attribute(0, 8, 0),
            r.1@[1] == table_attribute(1, 8, 3),
            r.1@[2] == table_attribute(2, 8, 6),
    {
        let mut layout: Vec<VertexAttribute> = Vec::new();
        layout.push(VertexAttribute { location: 0, components: 2, stride: 32, offset: 0 });
        layout.push(VertexAttribute { location: 1, components: 2, stride: 32, offset: 12 });
        layout.push(VertexAttribute { location: 2, components: 2, stride: 32, offset: 24 });
        (96, layout)
    }
}

} // verus!
