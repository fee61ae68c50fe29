//! Meshes: the vertex data as it is uploaded, the attribute layout, and the
//! plan of a draw with its sampler bindings.

use vstd::prelude::*;
use vstd::string::*;
use crate::error::GLError;
use crate::glenum;
use crate::shader::Shader;
use crate::text::{decimal_string, decimal_text, lemma_decimal_text_injective};
use crate::texture::{SamplerBinding, Texture};
use crate::value::{Vector2, Vector3};

verus! {

/// One vertex, laid out as uploaded: position, normal, texture coordinates.
#[derive(Clone, Copy, Debug, PartialEq, Eq, Structural)]
pub struct Vertex {
    pub position: Vector3,
    pub normal: Vector3,
    pub tex_coords: Vector2,
}

impl Default for Vertex {
    fn default() -> (v: Vertex)
        ensures
            v == (Vertex {
                position: Vector3 { x: 0, y: 0, z: 0 },
                normal: Vector3 { x: 0, y: 0, z: 0 },
                tex_coords: Vector2 { x: 0, y: 0 },
            }),
    {
        Vertex {
            position: Vector3 { x: 0, y: 0, z: 0 },
            normal: Vector3 { x: 0, y: 0, z: 0 },
            tex_coords: Vector2 { x: 0, y: 0 },
        }
    }
}

/// Words in one uploaded vertex.
pub const VERTEX_WORDS: usize = 8;

/// Bytes in one uploaded vertex.
pub const VERTEX_BYTES: usize = 32;

/// Bytes in one index.
pub const INDEX_BYTES: usize = 4;

/// Word `k` of an uploaded vertex.
pub open spec fn vertex_word(v: Vertex, k: int) -> u32 {
    if k == 0 {
        v.position.x
    } else if k == 1 {
        v.position.y
    } else if k == 2 {
        v.position.z
    } else if k == 3 {
        v.normal.x
    } else if k == 4 {
        v.normal.y
    } else if k == 5 {
        v.normal.z
    } else if k == 6 {
        v.tex_coords.x
    } else {
        v.tex_coords.y
    }
}

/// The vertex buffer contents: the vertices one after another, eight words
/// each.
pub open spec fn vertex_words(vertices: Seq<Vertex>) -> Seq<u32> {
    Seq::new(8 * vertices.len(), |k: int| vertex_word(vertices[k / 8], k % 8))
}

/// Where one vertex attribute lies inside the vertex buffer.
#[derive(Clone, Copy, Debug, PartialEq, Eq, Structural)]
pub struct VertexAttribute {
    pub location: u32,
    pub components: i32,
    pub stride: i32,
    pub offset: usize,
}

/// Attribute `location` of the fixed layout: three components, a stride of
/// one vertex, and the byte offset of the field inside the vertex.
pub open spec fn layout_attribute(location: int) -> VertexAttribute {
    VertexAttribute {
        location: location as u32,
        components: 3,
        stride: 32,
        offset: if location == 0 {
            0usize
        } else if location == 1 {
            12usize
        } else {
            24usize
        },
    }
}

/// The fixed attribute layout: position at location 0, normal at 1, texture
/// coordinates at 2.
pub fn vertex_layout() -> (layout: Vec<VertexAttribute>)
    ensures
        layout@.len() == 3,
        forall|i: int| 0 <= i < 3 ==> layout@[i] == layout_attribute(i),
{
    let mut layout: Vec<VertexAttribute> = Vec::new();
    layout.push(VertexAttribute { location: 0, components: 3, stride: 32, offset: 0 });
    layout.push(VertexAttribute { location: 1, components: 3, stride: 32, offset: 12 });
    layout.push(VertexAttribute { location: 2, components: 3, stride: 32, offset: 24 });
    layout
}

/// What is uploaded when a mesh is set up.
#[derive(Debug, PartialEq, Eq)]
pub struct MeshUpload {
    pub vertex_words: Vec<u32>,
    pub vertex_bytes: usize,
    pub index_bytes: usize,
    pub attributes: Vec<VertexAttribute>,
}

/// An indexed draw of triangles with the sampler bindings to make before it.
#[derive(Debug, PartialEq, Eq)]
pub struct DrawCall {
    pub bindings: Vec<SamplerBinding>,
    pub vao: u32,
    pub mode: u32,
    pub count: usize,
    pub index_type: u32,
}

/// Geometry and textures together with the handles of their GPU objects.
#[derive(Debug, PartialEq, Eq)]
pub struct Mesh {
    pub vertices: Vec<Vertex>,
    pub indices: Vec<u32>,
    pub textures: Vec<Texture>,
    pub vao: u32,
    pub vbo: u32,
    pub ebo: u32,
}

/// Whether `label` is one of the four sampler families that a mesh can draw
/// with.
pub open spec fn known_label(label: Seq<char>) -> bool {
    label == "texture_diffuse"@ || label == "texture_specular"@ || label == "texture_normal"@ || label
        == "texture_height"@
}

/// How many of the first `upto` textures carry `label`.
pub open spec fn occurrences(textures: Seq<Texture>, upto: int, label: Seq<char>) -> nat
    decreases upto,
{
    if upto <= 0 {
        0
    } else {
        occurrences(textures, upto - 1, label) + if textures[upto - 1].type_label@ == label {
            1nat
        } else {
            0nat
        }
    }
}

/// The sampler uniform of texture `i`: its label followed by its rank, from
/// one, among the textures of the same label.
pub open spec fn sampler_text(textures: Seq<Texture>, i: int) -> Seq<char> {
    textures[i].type_label@ + decimal_text(occurrences(textures, i + 1, textures[i].type_label@))
}

proof fn lemma_labels_distinct()
    ensures
        "texture_diffuse"@ != "texture_specular"@,
        "texture_diffuse"@ != "texture_normal"@,
        "texture_diffuse"@ != "texture_height"@,
        "texture_specular"@ != "texture_normal"@,
        "texture_specular"@ != "texture_height"@,
        "texture_normal"@ != "texture_height"@,
{
    reveal_strlit("texture_diffuse");
    reveal_strlit("texture_specular");
    reveal_strlit("texture_normal");
    reveal_strlit("texture_height");
    assert("texture_diffuse"@.len() == 15);
    assert("texture_specular"@.len() == 16);
    assert("texture_normal"@.len() == 14);
    assert("texture_height"@.len() == 14);
    assert("texture_normal"@[8] == 'n');
    assert("texture_height"@[8] == 'h');
}

proof fn lemma_occurrences_bound(textures: Seq<Texture>, upto: int, label: Seq<char>)
    requires
        0 <= upto,
    ensures
        occurrences(textures, upto, label) <= upto,
    decreases upto,
{
    if upto > 0 {
        lemma_occurrences_bound(textures, upto - 1, label);
    }
}

proof fn lemma_occurrences_grow(textures: Seq<Texture>, from: int, upto: int, label: Seq<char>)
    requires
        0 <= from <= upto,
    ensures
        occurrences(textures, from, label) <= occurrences(textures, upto, label),
    decreases upto - from,
{
    if from < upto {
        lemma_occurrences_grow(textures, from, upto - 1, label);
    }
}

/// No two textures of a mesh get the same sampler uniform.
pub proof fn lemma_samplers_distinct(textures: Seq<Texture>, i: int, j: int)
    requires
        0 <= i < j < textures.len(),
        known_label(textures[i].type_label@),
        known_label(textures[j].type_label@),
    ensures
        sampler_text(textures, i) != sampler_text(textures, j),
{
    let li = textures[i].type_label@;
    let lj = textures[j].type_label@;
    let di = decimal_text(occurrences(textures, i + 1, li));
    let dj = decimal_text(occurrences(textures, j + 1, lj));
    if li == lj {
        lemma_occurrences_grow(textures, i + 1, j, li);
        if di == dj {
            lemma_decimal_text_injective(occurrences(textures, i + 1, li), occurrences(textures, j + 1, lj));
        }
        if li + di == lj + dj {
            assert((li + di).subrange(li.len() as int, (li + di).len() as int) =~= di);
            assert((lj + dj).subrange(lj.len() as int, (lj + dj).len() as int) =~= dj);
        }
    } else {
        reveal_strlit("texture_diffuse");
        reveal_strlit("texture_specular");
        reveal_strlit("texture_normal");
        reveal_strlit("texture_height");
        assert(li.len() > 8 && lj.len() > 8);
        assert(li[8] != lj[8]);
        assert((li + di)[8] == li[8]);
        assert((lj + dj)[8] == lj[8]);
    }
}

impl Texture {
    /// Whether the texture's label is one that a mesh can draw with.
    pub fn has_known_label(&self) -> (known: bool)
        ensures
            known == known_label(self.type_label@),
    {
        let diffuse = String::from_str("texture_diffuse");
        let specular = String::from_str("texture_specular");
        let normal = String::from_str("texture_normal");
        let height = String::from_str("texture_height");
        self.type_label == diffuse || self.type_label == specular || self.type_label == normal
            || self.type_label == height
    }
}

impl Mesh {
    /// A mesh of the given geometry and textures that is not set up yet: its
    /// handles are zero.
    pub fn new(vertices: Vec<Vertex>, indices: Vec<u32>, textures: Vec<Texture>) -> (r: Result<Mesh, GLError>)
        ensures
            r is Ok,
            r->Ok_0.vertices == vertices,
            r->Ok_0.indices == indices,
            r->Ok_0.textures == textures,
            r->Ok_0.vao == 0,
            r->Ok_0.vbo == 0,
            r->Ok_0.ebo == 0,
    {
        Ok(Mesh { vertices, indices, textures, vao: 0, vbo: 0, ebo: 0 })
    }

    /// Whether every texture of the mesh has a label that `draw` knows.
    pub fn has_known_labels(&self) -> (known: bool)
        ensures
            known == forall|i: int| 0 <= i < self.textures@.len() ==> known_label(
                (#[trigger] self.textures@[i]).type_label@,
            ),
    {
        let mut i: usize = 0;
        while i < self.textures.len()
            invariant
                i <= self.textures@.len(),
                forall|j: int| 0 <= j < i ==> known_label((#[trigger] self.textures@[j]).type_label@),
            decreases self.textures@.len() - i,
        {
            if !self.textures[i].has_known_label() {
                return false;
            }
            i += 1;
        }
        true
    }

    /// Records the handles of the GPU objects made for the mesh and lays out
    /// what to upload into them: the vertices as words, the sizes in bytes of
    /// the vertex and the index data, and the attribute layout.
    pub fn setup(&mut self, vao: u32, vbo: u32, ebo: u32) -> (upload: MeshUpload)
        requires
            old(self).vertices@.len() > 0,
            old(self).indices@.len() > 0,
            old(self).vertices@.len() * 32 <= isize::MAX,
            old(self).indices@.len() * 4 <= isize::MAX,
        ensures
            final(self).vertices == old(self).vertices,
            final(self).indices == old(self).indices,
            final(self).textures == old(self).textures,
            final(self).vao == vao,
            final(self).vbo == vbo,
            final(self).ebo == ebo,
            upload.vertex_words@ == vertex_words(old(self).vertices@),
            upload.vertex_bytes == old(self).vertices@.len() * 32,
            upload.index_bytes == old(self).indices@.len() * 4,
            upload.attributes@.len() == 3,
            forall|i: int| 0 <= i < 3 ==> upload.attributes@[i] == layout_attribute(i),
    {
        self.vao = vao;
        self.vbo = vbo;
        self.ebo = ebo;
        let n = self.vertices.len();
        let mut words: Vec<u32> = Vec::new();
        let mut i: usize = 0;
        while i < n
            invariant
                n == self.vertices@.len(),
                i <= n,
                words@.len() == 8 * i,
                forall|k: int| 0 <= k < 8 * i ==> words@[k] == vertex_word(self.vertices@[k / 8], k % 8),
            decreases n - i,
        {
            let v = self.vertices[i];
            words.push(v.position.x);
            words.push(v.position.y);
            words.push(v.position.z);
            words.push(v.normal.x);
            words.push(v.normal.y);
            words.push(v.normal.z);
            words.push(v.tex_coords.x);
            words.push(v.tex_coords.y);
            i += 1;
        }
        assert(words@ =~= vertex_words(self.vertices@));
        MeshUpload {
            vertex_words: words,
            vertex_bytes: n * VERTEX_BYTES,
            index_bytes: self.indices.len() * INDEX_BYTES,
            attributes: vertex_layout(),
        }
    }

    /// Plans the draw of the mesh with `shader`: texture `i` goes to unit `i`
    /// under the sampler named by its label and its rank among the textures
    /// of that label, then the indexed triangles of the vertex array are
    /// drawn.
    pub fn draw(&self, shader: &Shader) -> (call: DrawCall)
        requires
            self.textures@.len() <= u32::MAX - glenum::TEXTURE0,
            forall|i: int| 0 <= i < self.textures@.len() ==> known_label(
                (#[trigger] self.textures@[i]).type_label@,
            ),
        ensures
            call.vao == self.vao,
            call.mode == glenum::TRIANGLES,
            call.count == self.indices@.len(),
            call.index_type == glenum::UNSIGNED_INT,
            call.bindings@.len() == self.textures@.len(),
            forall|i: int|
                0 <= i < self.textures@.len() ==> {
                    &&& (#[trigger] call.bindings@[i]).program == shader.id
                    &&& call.bindings@[i].unit == i
                    &&& call.bindings@[i].texture == self.textures@[i].id
                    &&& call.bindings@[i].sampler@ == sampler_text(self.textures@, i)
                },
    {
        let diffuse = String::from_str("texture_diffuse");
        let specular = String::from_str("texture_specular");
        let normal = String::from_str("texture_normal");
        let mut diffuse_nr: u32 = 0;
        let mut specular_nr: u32 = 0;
        let mut normal_nr: u32 = 0;
        let mut height_nr: u32 = 0;
        let mut bindings: Vec<SamplerBinding> = Vec::new();
        let mut i: usize = 0;
        proof {
            lemma_labels_distinct();
        }
        while i < self.textures.len()
            invariant
                i <= self.textures@.len(),
                self.textures@.len() <= u32::MAX - glenum::TEXTURE0,
                forall|j: int| 0 <= j < self.textures@.len() ==> known_label(
                    (#[trigger] self.textures@[j]).type_label@,
                ),
                diffuse@ == "texture_diffuse"@,
                specular@ == "texture_specular"@,
                normal@ == "texture_normal"@,
                "texture_diffuse"@ != "texture_specular"@,
                "texture_diffuse"@ != "texture_normal"@,
                "texture_diffuse"@ != "texture_height"@,
                "texture_specular"@ != "texture_normal"@,
                "texture_specular"@ != "texture_height"@,
                "texture_normal"@ != "texture_height"@,
                diffuse_nr == occurrences(self.textures@, i as int, "texture_diffuse"@),
                specular_nr == occurrences(self.textures@, i as int, "texture_specular"@),
                normal_nr == occurrences(self.textures@, i as int, "texture_normal"@),
                height_nr == occurrences(self.textures@, i as int, "texture_height"@),
                bindings@.len() == i,
                forall|j: int|
                    0 <= j < i ==> {
                        &&& (#[trigger] bindings@[j]).program == shader.id
                        &&& bindings@[j].unit == j
                        &&& bindings@[j].texture == self.textures@[j].id
                        &&& bindings@[j].sampler@ == sampler_text(self.textures@, j)
                    },
            decreases self.textures@.len() - i,
        {
            let texture = &self.textures[i];
            proof {
                lemma_occurrences_bound(self.textures@, i as int, "texture_diffuse"@);
                lemma_occurrences_bound(self.textures@, i as int, "texture_specular"@);
                lemma_occurrences_bound(self.textures@, i as int, "texture_normal"@);
                lemma_occurrences_bound(self.textures@, i as int, "texture_height"@);
                assert(known_label(self.textures@[i as int].type_label@));
            }
            let number: u32 = if texture.type_label == diffuse {
                diffuse_nr += 1;
                diffuse_nr
            } else if texture.type_label == specular {
                specular_nr += 1;
                specular_nr
            } else if texture.type_label == normal {
                normal_nr += 1;
                normal_nr
            } else {
                height_nr += 1;
                height_nr
            };
            assert(number == occurrences(self.textures@, i + 1, texture.type_label@));
            let mut sampler = texture.type_label.clone();
            let digits = decimal_string(number);
            sampler.append(digits.as_str());
            bindings.push(SamplerBinding { program: shader.id, sampler, unit: i as u32, texture: texture.id });
            i += 1;
        }
        DrawCall {
            bindings,
            vao: self.vao,
            mode: glenum::TRIANGLES,
            count: self.indices.len(),
            index_type: glenum::UNSIGNED_INT,
        }
    }
}

} // verus!
