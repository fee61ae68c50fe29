//! Texture handles, the pixel format of decoded images, and the binding of
//! textures to sampler uniforms and texture units.

use vstd::prelude::*;
use vstd::string::*;
use crate::glenum;
use crate::shader::Shader;

verus! {

/// Size and formats of a texture's storage.
#[derive(Clone, Copy, Debug, PartialEq, Eq, Structural)]
pub struct TextureOptions {
    pub width: u32,
    pub height: u32,
    pub type_: u32,
    pub internal_format: u32,
    pub format: u32,
}

/// A texture object on the GPU. Clones share the object.
#[derive(Debug, PartialEq, Eq)]
pub struct Texture {
    pub id: u32,
    /// The sampler family that the texture belongs to, such as
    /// `texture_diffuse`, or its semantic name in a frame buffer.
    pub type_label: String,
    pub path: String,
    pub index: u32,
}

/// How the pixels of a decoded image are laid out.
#[derive(Clone, Copy, Debug, PartialEq, Eq, Structural)]
pub enum PixelLayout {
    Luma8,
    LumaA8,
    Rgb8,
    Rgba8,
    Other,
}

/// One sampler uniform to point at a texture unit, and the texture to bind
/// on that unit.
#[derive(Clone, Debug, PartialEq, Eq)]
pub struct SamplerBinding {
    pub program: u32,
    pub sampler: String,
    pub unit: u32,
    pub texture: u32,
}

/// The upload format for a pixel layout: one channel is red, two are
/// red-green, three RGB, four RGBA; any other layout has none (zero).
pub open spec fn pixel_format_spec(layout: PixelLayout) -> u32 {
    match layout {
        PixelLayout::Luma8 => glenum::RED,
        PixelLayout::LumaA8 => glenum::RG,
        PixelLayout::Rgb8 => glenum::RGB,
        PixelLayout::Rgba8 => glenum::RGBA,
        PixelLayout::Other => 0,
    }
}

/// The upload format for a pixel layout.
pub fn pixel_format(layout: PixelLayout) -> (format: u32)
    ensures
        format == pixel_format_spec(layout),
{
    match layout {
        PixelLayout::Luma8 => glenum::RED,
        PixelLayout::LumaA8 => glenum::RG,
        PixelLayout::Rgb8 => glenum::RGB,
        PixelLayout::Rgba8 => glenum::RGBA,
        PixelLayout::Other => 0,
    }
}

/// The bytes of an image of `rows` rows of `row_bytes` bytes each with the
/// order of its rows reversed: row `y` of the result is row `rows - 1 - y`
/// of `bytes`.
pub open spec fn rows_reversed(bytes: Seq<u8>, row_bytes: int, rows: int) -> Seq<u8> {
    Seq::new(bytes.len(), |i: int| bytes[(rows - 1 - i / row_bytes) * row_bytes + i % row_bytes])
}

/// Calls `image::imageops::flip_vertical`, the routine behind
/// `DynamicImage::flipv`, on `bytes` taken as an image of `rows` rows of
/// `row_bytes` one-byte pixels. Taken on trust, not proved: the result has
/// the same size, and its pixel at column `x` of row `y` is the pixel of
/// `bytes` at column `x` of row `rows - 1 - y`. With the length asked of
/// `bytes`, `ImageBuffer::from_raw` accepts the buffer.
#[verifier::external_body]
fn flip_vertical(row_bytes: u32, rows: u32, bytes: Vec<u8>) -> (out: Vec<u8>)
    requires
        bytes@.len() == row_bytes * rows,
    ensures
        out@ == rows_reversed(bytes@, row_bytes as int, rows as int),
{
    let img: image::GrayImage = image::ImageBuffer::from_raw(row_bytes, rows, bytes).unwrap();
    image::imageops::flip_vertical(&img).into_raw()
}

/// What is uploaded for an image decoded from a file.
#[derive(Debug, PartialEq, Eq)]
pub struct ImageUpload {
    pub options: TextureOptions,
    pub pixels: Vec<u8>,
}

/// Prepares a decoded image for upload: the storage options follow from
/// its size and layout, and its rows are put bottom row first, as the GPU
/// reads them.
pub fn image_upload(
    width: u32,
    height: u32,
    layout: PixelLayout,
    row_bytes: u32,
    bytes: Vec<u8>,
) -> (upload: ImageUpload)
    requires
        bytes@.len() == row_bytes * height,
    ensures
        upload.options == (TextureOptions {
            width,
            height,
            type_: glenum::UNSIGNED_BYTE,
            internal_format: pixel_format_spec(layout),
            format: pixel_format_spec(layout),
        }),
        upload.pixels@ == rows_reversed(bytes@, row_bytes as int, height as int),
        upload.pixels@.len() == bytes@.len(),
{
    let options = TextureOptions::for_image(width, height, layout);
    let pixels = flip_vertical(row_bytes, height, bytes);
    ImageUpload { options, pixels }
}

/// Reversing the rows twice gives the image back.
pub proof fn lemma_rows_reversed_twice(bytes: Seq<u8>, row_bytes: int, rows: int)
    requires
        0 <= row_bytes,
        0 <= rows,
        bytes.len() == row_bytes * rows,
    ensures
        rows_reversed(rows_reversed(bytes, row_bytes, rows), row_bytes, rows) == bytes,
{
    let once = rows_reversed(bytes, row_bytes, rows);
    let twice = rows_reversed(once, row_bytes, rows);
    assert forall|i: int| 0 <= i < bytes.len() implies twice[i] == bytes[i] by {
        lemma_row_index(i, row_bytes, rows);
        let q = i / row_bytes;
        let r = i % row_bytes;
        let j = (rows - 1 - q) * row_bytes + r;
        vstd::arithmetic::div_mod::lemma_fundamental_div_mod_converse(j, row_bytes, rows - 1 - q, r);
        vstd::arithmetic::div_mod::lemma_fundamental_div_mod(i, row_bytes);
        assert((rows - 1 - j / row_bytes) * row_bytes + j % row_bytes == i) by (nonlinear_arith)
            requires
                j / row_bytes == rows - 1 - q,
                j % row_bytes == r,
                i == row_bytes * q + r,
        ;
        assert(twice[i] == once[j]);
        assert(once[j] == bytes[i]);
    }
    assert(twice =~= bytes);
}

/// A byte of the image lies in one of its rows, and so does the byte at the
/// same column of the mirrored row.
proof fn lemma_row_index(i: int, row_bytes: int, rows: int)
    requires
        0 <= i < row_bytes * rows,
        0 <= row_bytes,
        0 <= rows,
    ensures
        row_bytes > 0,
        0 <= i / row_bytes < rows,
        0 <= i % row_bytes < row_bytes,
        0 <= (rows - 1 - i / row_bytes) * row_bytes + i % row_bytes < row_bytes * rows,
{
    assert(row_bytes > 0) by (nonlinear_arith)
        requires
            0 <= i < row_bytes * rows,
            0 <= row_bytes,
    ;
    vstd::arithmetic::div_mod::lemma_fundamental_div_mod(i, row_bytes);
    vstd::arithmetic::div_mod::lemma_mod_bound(i, row_bytes);
    let q = i / row_bytes;
    let r = i % row_bytes;
    assert(0 <= q < rows) by (nonlinear_arith)
        requires
            i == row_bytes * q + r,
            0 <= r < row_bytes,
            0 <= i < row_bytes * rows,
    ;
    assert(0 <= (rows - 1 - q) * row_bytes + r < row_bytes * rows) by (nonlinear_arith)
        requires
            0 <= q < rows,
            0 <= r < row_bytes,
    ;
}

/// The channel values of a white image of `width` by `height` pixels: three
/// channels a pixel, each at full intensity.
pub fn blank_pixels(width: u32, height: u32) -> (data: Vec<u32>)
    requires
        width * height * 3 <= usize::MAX,
    ensures
        data@.len() == width * height * 3,
        forall|i: int| 0 <= i < data@.len() ==> data@[i] == 255,
{
    let ghost total: int = width * height * 3;
    assert(width * height <= width * height * 3) by (nonlinear_arith);
    let capacity: usize = (width as usize) * (height as usize);
    let len: usize = capacity * 3;
    let mut data: Vec<u32> = Vec::new();
    let mut i: usize = 0;
    while i < len
        invariant
            i <= len,
            data@.len() == i,
            forall|j: int| 0 <= j < i ==> data@[j] == 255,
        decreases len - i,
    {
        data.push(255);
        i += 1;
    }
    data
}

impl TextureOptions {
    /// The storage options of an image decoded from a file: its size, and
    /// the format of its layout for both the storage and the upload.
    pub fn for_image(width: u32, height: u32, layout: PixelLayout) -> (o: TextureOptions)
        ensures
            o == (TextureOptions {
                width,
                height,
                type_: glenum::UNSIGNED_BYTE,
                internal_format: pixel_format_spec(layout),
                format: pixel_format_spec(layout),
            }),
    {
        let format = pixel_format(layout);
        TextureOptions { width, height, type_: glenum::UNSIGNED_BYTE, internal_format: format, format }
    }
}

impl Clone for Texture {
    fn clone(&self) -> (t: Texture)
        ensures
            t == *self,
    {
        Texture { id: self.id, type_label: self.type_label.clone(), path: self.path.clone(), index: self.index }
    }
}

impl Texture {
    /// The texture `id` that holds the image read from `path`.
    pub fn from_file(label: &str, path: &str, id: u32) -> (t: Texture)
        ensures
            t.id == id,
            t.type_label@ == label@,
            t.path@ == path@,
            t.index == 0,
    {
        Texture { id, type_label: label.to_owned(), path: path.to_owned(), index: 0 }
    }

    /// The texture `id` that backs colour attachment `index` of a frame
    /// buffer.
    pub fn for_framebuffer(label: &str, index: u32, id: u32) -> (t: Texture)
        ensures
            t.id == id,
            t.type_label@ == label@,
            t.path@ == Seq::<char>::empty(),
            t.index == index,
    {
        Texture { id, type_label: label.to_owned(), path: String::new(), index }
    }

    /// The placeholder texture `id` for a mesh without material textures.
    pub fn blank_texture(label: &str, id: u32) -> (t: Texture)
        ensures
            t.id == id,
            t.type_label@ == label@,
            t.path@ == Seq::<char>::empty(),
            t.index == 0,
    {
        Texture { id, type_label: label.to_owned(), path: String::new(), index: 0 }
    }

    /// The colour attachment point that the texture backs.
    pub fn attachment(&self) -> (point: u32)
        requires
            glenum::COLOR_ATTACHMENT0 + self.index <= u32::MAX,
        ensures
            point == glenum::COLOR_ATTACHMENT0 + self.index,
    {
        glenum::COLOR_ATTACHMENT0 + self.index
    }

    /// Binds the texture to unit `index` under the sampler named by its
    /// label.
    pub fn bind(&self, shader: &Shader, index: u32) -> (b: SamplerBinding)
        ensures
            b.program == shader.id,
            b.sampler@ == self.type_label@,
            b.unit == index,
            b.texture == self.id,
    {
        SamplerBinding { program: shader.id, sampler: self.type_label.clone(), unit: index, texture: self.id }
    }

    /// The texture unit to activate and the texture to bind on it: the unit
    /// of the texture's own index.
    pub fn activate(&self) -> (r: (u32, u32))
        requires
            glenum::TEXTURE0 + self.index <= u32::MAX,
        ensures
            r.0 == glenum::TEXTURE0 + self.index,
            r.1 == self.id,
    {
        (glenum::TEXTURE0 + self.index, self.id)
    }
}

} // verus!
