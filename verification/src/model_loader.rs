//! Turning the models of a parsed geometry file into meshes: grouping the
//! flat coordinate arrays, choosing the textures, and sharing textures that
//! were loaded before.

use vstd::prelude::*;
use vstd::string::*;
use crate::glenum;
use crate::mesh::Vertex;
use crate::texture::{Texture, TextureOptions};
use crate::value::{Vector2, Vector3};

verus! {

/// One model of a geometry file: coordinates three to a vertex, and the
/// index of its material, if it has one.
#[derive(Debug, PartialEq, Eq)]
pub struct ModelData {
    pub positions: Vec<u32>,
    pub normals: Vec<u32>,
    pub indices: Vec<u32>,
    pub material_id: Option<usize>,
}

/// The texture paths of one material; an empty path means no such map.
#[derive(Debug, PartialEq, Eq)]
pub struct MaterialData {
    pub diffuse_texture: String,
    pub specular_texture: String,
    pub normal_texture: String,
}

/// Where a texture of a mesh comes from.
#[derive(Debug, PartialEq, Eq)]
pub enum TextureSource {
    /// An image file, to be bound under the given label.
    File { path: String, label: String },
    /// A white placeholder of the given storage.
    Blank { label: String, options: TextureOptions },
}

/// A texture source with its texts as character sequences.
pub enum TextureSourceView {
    File { path: Seq<char>, label: Seq<char> },
    Blank { label: Seq<char>, options: TextureOptions },
}

impl View for TextureSource {
    type V = TextureSourceView;

    open spec fn view(&self) -> TextureSourceView {
        match *self {
            TextureSource::File { path, label } => TextureSourceView::File { path: path@, label: label@ },
            TextureSource::Blank { label, options } => TextureSourceView::Blank { label: label@, options },
        }
    }
}

/// What is known of a mesh before anything is uploaded.
#[derive(Debug, PartialEq, Eq)]
pub struct ModelPlan {
    pub positions: Vec<Vector3>,
    /// The normals that the file gave; `None` where it gave none for every
    /// vertex, so that they have to be computed from the faces.
    pub normals: Option<Vec<Vector3>>,
    pub indices: Vec<u32>,
    pub textures: Vec<TextureSource>,
}

/// Loads models and remembers the textures loaded so far.
#[derive(Debug, PartialEq, Eq)]
pub struct Loader {
    pub textures_loaded: Vec<Texture>,
}

/// The views of a list of texture sources.
pub open spec fn source_views(sources: Seq<TextureSource>) -> Seq<TextureSourceView> {
    sources.map_values(|s: TextureSource| s@)
}

/// The coordinates grouped three to a vector.
pub open spec fn grouped(flat: Seq<u32>) -> Seq<Vector3> {
    Seq::new(
        (flat.len() / 3) as nat,
        |k: int| Vector3 { x: flat[3 * k], y: flat[3 * k + 1], z: flat[3 * k + 2] },
    )
}

/// The source for one texture path under `label`: none for an empty path.
pub open spec fn path_request(path: Seq<char>, label: Seq<char>) -> Seq<TextureSourceView> {
    if path.len() == 0 {
        Seq::empty()
    } else {
        seq![TextureSourceView::File { path, label }]
    }
}

/// The textures that a material asks for: its diffuse, specular and normal
/// maps, in this order, each only if it has a path.
pub open spec fn material_requests(material: MaterialData) -> Seq<TextureSourceView> {
    path_request(material.diffuse_texture@, "texture_diffuse"@) + path_request(
        material.specular_texture@,
        "texture_specular"@,
    ) + path_request(material.normal_texture@, "texture_normal"@)
}

/// The storage of the placeholder texture.
pub open spec fn blank_options() -> TextureOptions {
    TextureOptions {
        width: 128,
        height: 128,
        internal_format: glenum::RGB,
        format: glenum::RGB,
        type_: glenum::UNSIGNED_BYTE,
    }
}

/// The textures of a model: with materials, those that the model's material
/// asks for (none without a material); with an empty material list, one
/// white diffuse placeholder; with no readable material list, none.
pub open spec fn model_textures(
    materials: Option<Seq<MaterialData>>,
    material_id: Option<usize>,
) -> Seq<TextureSourceView> {
    match materials {
        Some(mat) => if mat.len() > 0 {
            match material_id {
                Some(id) => material_requests(mat[id as int]),
                None => Seq::empty(),
            }
        } else {
            seq![TextureSourceView::Blank { label: "texture_diffuse"@, options: blank_options() }]
        },
        None => Seq::empty(),
    }
}

/// The material list as a sequence, where there is one.
pub open spec fn material_list(materials: Option<Vec<MaterialData>>) -> Option<Seq<MaterialData>> {
    match materials {
        Some(m) => Some(m@),
        None => None,
    }
}

/// Whether `load` can plan the model: its coordinates come three to a
/// vertex, and its material, if any, is in the list.
pub open spec fn plannable(model: ModelData, materials: Option<Seq<MaterialData>>) -> bool {
    &&& model.positions@.len() % 3 == 0
    &&& (materials is Some && materials.unwrap().len() > 0 && model.material_id is Some
        ==> model.material_id.unwrap() < materials.unwrap().len())
}

/// Whether `plan` is the plan of `model`.
pub open spec fn plan_of(plan: ModelPlan, model: ModelData, materials: Option<Seq<MaterialData>>) -> bool {
    &&& plan.positions@ == grouped(model.positions@)
    &&& plan.indices@ == model.indices@
    &&& plan.normals is Some <==> model.normals@.len() == model.positions@.len()
    &&& plan.normals is Some ==> plan.normals.unwrap()@ == grouped(model.normals@)
    &&& source_views(plan.textures@) == model_textures(materials, model.material_id)
}

/// Index of the first texture loaded from `path`, or the length if none was.
pub open spec fn first_loaded(textures: Seq<Texture>, path: Seq<char>) -> int
    decreases textures.len(),
{
    if textures.len() == 0 {
        0
    } else if textures[0].path@ == path {
        0
    } else {
        1 + first_loaded(textures.drop_first(), path)
    }
}

/// No two textures of the list come from one path.
pub open spec fn distinct_paths(textures: Seq<Texture>) -> bool {
    forall|i: int, j: int| 0 <= i < j < textures.len() ==> textures[i].path@ != textures[j].path@
}

proof fn lemma_first_loaded(textures: Seq<Texture>, path: Seq<char>, k: int)
    requires
        0 <= k <= textures.len(),
        forall|i: int| 0 <= i < k ==> (#[trigger] textures[i]).path@ != path,
        k < textures.len() ==> textures[k].path@ == path,
    ensures
        first_loaded(textures, path) == k,
    decreases textures.len(),
{
    if textures.len() > 0 && k > 0 {
        let rest = textures.drop_first();
        assert forall|i: int| 0 <= i < k - 1 implies (#[trigger] rest[i]).path@ != path by {
            assert(rest[i] == textures[i + 1]);
        }
        if k < textures.len() {
            assert(rest[k - 1] == textures[k]);
        }
        lemma_first_loaded(rest, path, k - 1);
    }
}

/// Groups a flat coordinate array three to a vector.
pub fn group_vectors(flat: &Vec<u32>) -> (out: Vec<Vector3>)
    requires
        flat@.len() % 3 == 0,
    ensures
        out@ == grouped(flat@),
{
    let n = flat.len();
    let mut out: Vec<Vector3> = Vec::new();
    let mut i: usize = 0;
    while i < n
        invariant
            n == flat@.len(),
            n % 3 == 0,
            i % 3 == 0,
            i <= n,
            out@.len() == i / 3,
            forall|k: int|
                0 <= k < out@.len() ==> out@[k] == (Vector3 {
                    x: flat@[3 * k],
                    y: flat@[3 * k + 1],
                    z: flat@[3 * k + 2],
                }),
        decreases n - i,
    {
        out.push(Vector3 { x: flat[i], y: flat[i + 1], z: flat[i + 2] });
        i += 3;
    }
    assert(out@ =~= grouped(flat@));
    out
}

/// Pairs positions with normals into vertices without texture coordinates.
pub fn assemble_vertices(positions: &Vec<Vector3>, normals: &Vec<Vector3>) -> (vertices: Vec<Vertex>)
    requires
        positions@.len() <= normals@.len(),
    ensures
        vertices@.len() == positions@.len(),
        forall|i: int|
            0 <= i < positions@.len() ==> vertices@[i] == (Vertex {
                position: positions@[i],
                normal: normals@[i],
                tex_coords: Vector2 { x: 0, y: 0 },
            }),
{
    let mut vertices: Vec<Vertex> = Vec::new();
    let mut i: usize = 0;
    while i < positions.len()
        invariant
            i <= positions@.len(),
            positions@.len() <= normals@.len(),
            vertices@.len() == i,
            forall|j: int|
                0 <= j < i ==> vertices@[j] == (Vertex {
                    position: positions@[j],
                    normal: normals@[j],
                    tex_coords: Vector2 { x: 0, y: 0 },
                }),
        decreases positions@.len() - i,
    {
        vertices.push(
            Vertex { position: positions[i], normal: normals[i], tex_coords: Vector2 { x: 0, y: 0 } },
        );
        i += 1;
    }
    vertices
}

fn push_request(path: &String, label: &str, t: &mut Vec<TextureSource>)
    ensures
        source_views(final(t)@) == source_views(old(t)@) + path_request(path@, label@),
{
    if !path.as_str().is_empty() {
        let source = TextureSource::File { path: path.clone(), label: label.to_owned() };
        t.push(source);
        assert(source_views(t@) =~= source_views(old(t)@) + path_request(path@, label@));
    } else {
        assert(source_views(t@) =~= source_views(old(t)@) + path_request(path@, label@));
    }
}

impl Loader {
    /// Whether the loader holds at most one texture for each path.
    pub open spec fn wf(&self) -> bool {
        distinct_paths(self.textures_loaded@)
    }

    /// A loader that has loaded nothing yet.
    pub fn new() -> (loader: Loader)
        ensures
            loader.textures_loaded@.len() == 0,
            loader.wf(),
    {
        Loader { textures_loaded: Vec::new() }
    }

    /// Whether `load` can plan every model of the list.
    pub fn can_load(models: &Vec<ModelData>, materials: &Option<Vec<MaterialData>>) -> (ok: bool)
        ensures
            ok == forall|i: int|
                0 <= i < models@.len() ==> plannable(
                    #[trigger] models@[i],
                    material_list(*materials),
                ),
    {
        let ghost mats: Option<Seq<MaterialData>> = material_list(*materials);
        let count: usize = match materials {
            Some(m) => m.len(),
            None => 0,
        };
        let mut i: usize = 0;
        while i < models.len()
            invariant
                i <= models@.len(),
                mats == material_list(*materials),
                count == match *materials {
                    Some(m) => m@.len(),
                    None => 0,
                },
                forall|j: int| 0 <= j < i ==> plannable(#[trigger] models@[j], mats),
            decreases models@.len() - i,
        {
            let model = &models[i];
            if model.positions.len() % 3 != 0 {
                assert(!plannable(models@[i as int], mats));
                return false;
            }
            if count > 0 {
                if let Some(id) = model.material_id {
                    if id >= count {
                        assert(!plannable(models@[i as int], mats));
                        return false;
                    }
                }
            }
            assert(plannable(models@[i as int], mats));
            i += 1;
        }
        true
    }

    /// Plans the meshes of the models of one file, in order: the grouped
    /// positions, the normals where the file has one for every vertex, the
    /// indices, and the textures to load.
    pub fn load(models: &Vec<ModelData>, materials: &Option<Vec<MaterialData>>) -> (plans: Vec<ModelPlan>)
        requires
            forall|i: int|
                0 <= i < models@.len() ==> plannable(
                    #[trigger] models@[i],
                    material_list(*materials),
                ),
        ensures
            plans@.len() == models@.len(),
            forall|i: int|
                0 <= i < models@.len() ==> plan_of(
                    #[trigger] plans@[i],
                    models@[i],
                    material_list(*materials),
                ),
    {
        let ghost mats: Option<Seq<MaterialData>> = material_list(*materials);
        let mut plans: Vec<ModelPlan> = Vec::new();
        let mut i: usize = 0;
        while i < models.len()
            invariant
                i <= models@.len(),
                mats == material_list(*materials),
                forall|j: int| 0 <= j < models@.len() ==> plannable(#[trigger] models@[j], mats),
                plans@.len() == i,
                forall|j: int| 0 <= j < i ==> plan_of(#[trigger] plans@[j], models@[j], mats),
            decreases models@.len() - i,
        {
            let model = &models[i];
            assert(plannable(models@[i as int], mats));
            let positions = group_vectors(&model.positions);
            let normals = if model.normals.len() != model.positions.len() {
                None
            } else {
                Some(group_vectors(&model.normals))
            };
            let mut textures: Vec<TextureSource> = Vec::new();
            assert(source_views(textures@) =~= Seq::<TextureSourceView>::empty());
            match materials {
                Some(mat) => {
                    if mat.len() > 0 {
                        Self::get_textures(mat, model.material_id, &mut textures);
                        assert(source_views(textures@) =~= model_textures(mats, model.material_id));
                    } else {
                        textures.push(
                            TextureSource::Blank {
                                label: String::from_str("texture_diffuse"),
                                options: TextureOptions {
                                    width: 128,
                                    height: 128,
                                    internal_format: glenum::RGB,
                                    format: glenum::RGB,
                                    type_: glenum::UNSIGNED_BYTE,
                                },
                            },
                        );
                        assert(source_views(textures@) =~= model_textures(mats, model.material_id));
                    }
                },
                None => {},
            }
            let indices = model.indices.clone();
            plans.push(ModelPlan { positions, normals, indices, textures });
            i += 1;
        }
        plans
    }

    /// Appends to `t` the textures that material `mat_id` asks for; nothing
    /// for a model without a material.
    pub fn get_textures(mat: &Vec<MaterialData>, mat_id: Option<usize>, t: &mut Vec<TextureSource>)
        requires
            mat_id is Some ==> mat_id.unwrap() < mat@.len(),
        ensures
            source_views(final(t)@) == source_views(old(t)@) + match mat_id {
                Some(id) => material_requests(mat@[id as int]),
                None => Seq::empty(),
            },
    {
        if let Some(id) = mat_id {
            let material = &mat[id];
            push_request(&material.diffuse_texture, "texture_diffuse", t);
            push_request(&material.specular_texture, "texture_specular", t);
            push_request(&material.normal_texture, "texture_normal", t);
            assert(source_views(t@) =~= source_views(old(t)@) + material_requests(mat@[id as int]));
        } else {
            assert(source_views(t@) =~= source_views(old(t)@) + Seq::<TextureSourceView>::empty());
        }
    }

    /// The texture that was loaded from `path` first, if any was.
    pub fn cached_texture(&self, path: &str) -> (r: Option<Texture>)
        ensures
            0 <= first_loaded(self.textures_loaded@, path@) <= self.textures_loaded@.len(),
            r is Some <==> first_loaded(self.textures_loaded@, path@) < self.textures_loaded@.len(),
            r is Some ==> r.unwrap() == self.textures_loaded@[first_loaded(self.textures_loaded@, path@)],
            r is None ==> forall|i: int|
                0 <= i < self.textures_loaded@.len() ==> (#[trigger] self.textures_loaded@[i]).path@ != path@,
    {
        let key = path.to_owned();
        let mut i: usize = 0;
        while i < self.textures_loaded.len()
            invariant
                i <= self.textures_loaded@.len(),
                key@ == path@,
                forall|j: int| 0 <= j < i ==> (#[trigger] self.textures_loaded@[j]).path@ != path@,
            decreases self.textures_loaded@.len() - i,
        {
            if self.textures_loaded[i].path == key {
                proof {
                    lemma_first_loaded(self.textures_loaded@, path@, i as int);
                }
                return Some(self.textures_loaded[i].clone());
            }
            i += 1;
        }
        proof {
            lemma_first_loaded(self.textures_loaded@, path@, i as int);
        }
        None
    }

    /// The texture for `path`: the one loaded from it before, if any, and
    /// else a new one with handle `id`, which is remembered.
    pub fn load_material_texture(&mut self, path: &str, label: &str, id: u32) -> (texture: Texture)
        ensures
            first_loaded(old(self).textures_loaded@, path@) < old(self).textures_loaded@.len() ==> {
                &&& final(self).textures_loaded@ == old(self).textures_loaded@
                &&& texture == old(self).textures_loaded@[first_loaded(old(self).textures_loaded@, path@)]
            },
            first_loaded(old(self).textures_loaded@, path@) >= old(self).textures_loaded@.len() ==> {
                &&& final(self).textures_loaded@ == old(self).textures_loaded@.push(texture)
                &&& texture.id == id
                &&& texture.type_label@ == label@
                &&& texture.path@ == path@
                &&& texture.index == 0
            },
            old(self).wf() ==> final(self).wf(),
    {
        match self.cached_texture(path) {
            Some(texture) => texture,
            None => {
                let texture = Texture::from_file(label, path, id);
                self.textures_loaded.push(texture.clone());
                texture
            },
        }
    }
}

} // verus!
