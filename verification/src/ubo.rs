//! The uniform buffer that holds the camera block: the projection matrix at
//! offset zero and the view matrix behind it.

use vstd::prelude::*;
use vstd::string::*;
use crate::error::GLError;
use crate::value::{Matrix4, Vector3};

verus! {

/// Bytes in one matrix of the block.
pub const MATRIX_BYTES: usize = 64;

/// Bytes in the camera block.
pub const CAMERA_BLOCK_BYTES: usize = 128;

/// A uniform buffer object.
#[derive(Clone, Copy, Debug, PartialEq, Eq, Structural)]
pub struct Ubo {
    pub id: u32,
}

/// A partial update of a buffer: `size` bytes at byte `offset`, taken from
/// the start of `words`.
#[derive(Debug, PartialEq, Eq)]
pub struct BufferWrite {
    pub buffer: u32,
    pub offset: usize,
    pub size: usize,
    pub words: Vec<u32>,
}

impl Ubo {
    /// Judges the allocation of the buffer `id` by the error that the API
    /// reported after it: with an error the allocation failed with that
    /// error, without one the buffer stands.
    pub fn create_buffer(id: u32, error: Option<GLError>) -> (r: Result<Ubo, GLError>)
        ensures
            r == match error {
                Some(e) => Err::<Ubo, GLError>(e),
                None => Ok::<Ubo, GLError>(Ubo { id }),
            },
    {
        match error {
            Some(e) => Err(e),
            None => Ok(Ubo { id }),
        }
    }

    /// Judges the binding of a uniform block by the error that the API
    /// reported after it: the block index stands either way, and an error
    /// is only a line to log, since a shader need not declare the block.
    pub fn set_uniform_block(idx: u32, error: Option<GLError>) -> (r: (u32, Option<String>))
        ensures
            r.0 == idx,
            match error {
                Some(e) => r.1 is Some && r.1.unwrap()@ == "uniform: "@ + e.name_spec(),
                None => r.1 is None,
            },
    {
        match error {
            Some(e) => {
                let mut line = String::from_str("uniform: ");
                let name = e.name();
                line.append(name.as_str());
                (idx, Some(line))
            },
            None => (idx, None),
        }
    }

    /// The update that writes a matrix into the buffer, column by column.
    pub fn set_data_mat4(&self, offset: usize, size: usize, data: Matrix4) -> (w: BufferWrite)
        ensures
            w.buffer == self.id,
            w.offset == offset,
            w.size == size,
            w.words@ == data.cells@,
    {
        let mut words: Vec<u32> = Vec::new();
        let mut i: usize = 0;
        while i < 16
            invariant
                i <= 16,
                words@.len() == i,
                forall|j: int| 0 <= j < i ==> words@[j] == data.cells@[j],
            decreases 16 - i,
        {
            words.push(data.cells[i]);
            i += 1;
        }
        assert(words@ =~= data.cells@);
        BufferWrite { buffer: self.id, offset, size, words }
    }

    /// The update that writes a vector into the buffer.
    pub fn set_data_vec3(&self, offset: usize, size: usize, data: Vector3) -> (w: BufferWrite)
        ensures
            w.buffer == self.id,
            w.offset == offset,
            w.size == size,
            w.words@ == seq![data.x, data.y, data.z],
    {
        let mut words: Vec<u32> = Vec::new();
        words.push(data.x);
        words.push(data.y);
        words.push(data.z);
        assert(words@ =~= seq![data.x, data.y, data.z]);
        BufferWrite { buffer: self.id, offset, size, words }
    }
}

/// The two updates that bring the camera block up to date: the projection
/// at offset zero, the view one matrix further, each one matrix long.
pub fn update_camera(ubo_mat: &Ubo, projection: Matrix4, view: Matrix4) -> (writes: (BufferWrite, BufferWrite))
    ensures
        writes.0.buffer == ubo_mat.id,
        writes.0.offset == 0,
        writes.0.size == MATRIX_BYTES,
        writes.0.words@ == projection.cells@,
        writes.1.buffer == ubo_mat.id,
        writes.1.offset == MATRIX_BYTES,
        writes.1.size == MATRIX_BYTES,
        writes.1.words@ == view.cells@,
        writes.1.offset + writes.1.size == CAMERA_BLOCK_BYTES,
{
    let first = ubo_mat.set_data_mat4(0, MATRIX_BYTES, projection);
    let second = ubo_mat.set_data_mat4(MATRIX_BYTES, MATRIX_BYTES, view);
    (first, second)
}

} // verus!
