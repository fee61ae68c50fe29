use render_core::mesh::Vertex;
use render_core::model_loader::{
    assemble_vertices, group_vectors, Loader, MaterialData, ModelData, ModelPlan, TextureSource,
};
use render_core::texture::{Texture, TextureOptions};
use render_core::value::{Vector2, Vector3};

fn v(x: u32, y: u32, z: u32) -> Vector3 {
    Vector3 { x, y, z }
}

fn material(diffuse: &str, specular: &str, normal: &str) -> MaterialData {
    MaterialData {
        diffuse_texture: diffuse.to_string(),
        specular_texture: specular.to_string(),
        normal_texture: normal.to_string(),
    }
}

fn file(path: &str, label: &str) -> TextureSource {
    TextureSource::File { path: path.to_string(), label: label.to_string() }
}

fn model(material_id: Option<usize>) -> ModelData {
    ModelData { positions: vec![1, 2, 3, 4, 5, 6], normals: vec![7, 8, 9, 10, 11, 12], indices: vec![0, 1, 1], material_id }
}

#[test]
fn coordinates_are_grouped_in_threes() {
    assert_eq!(group_vectors(&vec![1, 2, 3, 4, 5, 6]), vec![v(1, 2, 3), v(4, 5, 6)]);
    assert_eq!(group_vectors(&vec![]), Vec::<Vector3>::new());
}

#[test]
fn vertices_pair_positions_with_normals() {
    let vertices = assemble_vertices(&vec![v(1, 2, 3), v(4, 5, 6)], &vec![v(7, 8, 9), v(10, 11, 12), v(0, 0, 0)]);
    assert_eq!(
        vertices,
        vec![
            Vertex { position: v(1, 2, 3), normal: v(7, 8, 9), tex_coords: Vector2 { x: 0, y: 0 } },
            Vertex { position: v(4, 5, 6), normal: v(10, 11, 12), tex_coords: Vector2 { x: 0, y: 0 } },
        ]
    );
}

#[test]
fn a_material_asks_for_its_maps_in_order() {
    let materials = vec![material("d.png", "s.png", "n.png"), material("", "only_s.png", "")];
    let mut t = vec![file("before.png", "texture_height")];
    Loader::get_textures(&materials, Some(0), &mut t);
    assert_eq!(
        t,
        vec![
            file("before.png", "texture_height"),
            file("d.png", "texture_diffuse"),
            file("s.png", "texture_specular"),
            file("n.png", "texture_normal"),
        ]
    );
    let mut t = Vec::new();
    Loader::get_textures(&materials, Some(1), &mut t);
    assert_eq!(t, vec![file("only_s.png", "texture_specular")]);
    let mut t = Vec::new();
    Loader::get_textures(&materials, None, &mut t);
    assert_eq!(t, Vec::<TextureSource>::new());
}

#[test]
fn a_model_with_normals_keeps_them() {
    let plans = Loader::load(&vec![model(Some(0))], &Some(vec![material("d.png", "", "")]));
    assert_eq!(
        plans,
        vec![ModelPlan {
            positions: vec![v(1, 2, 3), v(4, 5, 6)],
            normals: Some(vec![v(7, 8, 9), v(10, 11, 12)]),
            indices: vec![0, 1, 1],
            textures: vec![file("d.png", "texture_diffuse")],
        }]
    );
}

#[test]
fn a_model_without_normals_asks_for_them() {
    let mut m = model(None);
    m.normals = vec![];
    let plans = Loader::load(&vec![m], &None);
    assert_eq!(plans.len(), 1);
    assert_eq!(plans[0].normals, None);
    assert_eq!(plans[0].textures, Vec::<TextureSource>::new());
    let mut m = model(None);
    m.normals = vec![1, 2, 3];
    assert_eq!(Loader::load(&vec![m], &None)[0].normals, None);
}

#[test]
fn an_empty_material_list_gives_a_blank_texture() {
    let plans = Loader::load(&vec![model(None), model(Some(3))], &Some(vec![]));
    let blank = TextureSource::Blank {
        label: "texture_diffuse".to_string(),
        options: TextureOptions {
            width: 128,
            height: 128,
            internal_format: gl::RGB,
            format: gl::RGB,
            type_: gl::UNSIGNED_BYTE,
        },
    };
    assert_eq!(plans.len(), 2);
    assert_eq!(plans[0].textures, vec![blank]);
    assert_eq!(plans[1].textures.len(), 1);
}

#[test]
fn a_model_without_material_has_no_textures() {
    let plans = Loader::load(&vec![model(None)], &Some(vec![material("d.png", "s.png", "n.png")]));
    assert_eq!(plans[0].textures, Vec::<TextureSource>::new());
}

#[test]
fn models_that_cannot_be_planned_are_recognised() {
    let materials = Some(vec![material("d.png", "", "")]);
    assert!(Loader::can_load(&vec![model(Some(0)), model(None)], &materials));
    assert!(!Loader::can_load(&vec![model(Some(0)), model(Some(1))], &materials));
    assert!(Loader::can_load(&vec![model(Some(5))], &Some(vec![])));
    assert!(Loader::can_load(&vec![model(Some(5))], &None));
    let mut ragged = model(None);
    ragged.positions.push(1);
    assert!(!Loader::can_load(&vec![ragged], &None));
    assert!(Loader::can_load(&vec![], &None));
}

#[test]
fn a_texture_is_loaded_once_per_path() {
    let mut loader = Loader::new();
    assert_eq!(loader.cached_texture("a.png"), None);
    let a = loader.load_material_texture("a.png", "texture_diffuse", 1);
    assert_eq!(a, Texture::from_file("texture_diffuse", "a.png", 1));
    let b = loader.load_material_texture("b.png", "texture_normal", 2);
    assert_eq!(b.id, 2);
    let again = loader.load_material_texture("a.png", "texture_specular", 3);
    assert_eq!(again, a);
    assert_eq!(loader.textures_loaded, vec![a.clone(), b]);
    assert_eq!(loader.cached_texture("a.png"), Some(a));
    assert_eq!(loader.cached_texture("c.png"), None);
}

#[test]
fn the_loader_never_holds_a_path_twice() {
    let mut loader = Loader::new();
    for (id, path) in ["a.png", "b.png", "a.png", "c.png", "b.png", "a.png"].into_iter().enumerate() {
        loader.load_material_texture(path, "texture_diffuse", id as u32);
    }
    let paths: Vec<&str> = loader.textures_loaded.iter().map(|t| t.path.as_str()).collect();
    assert_eq!(paths, vec!["a.png", "b.png", "c.png"]);
    let ids: Vec<u32> = loader.textures_loaded.iter().map(|t| t.id).collect();
    assert_eq!(ids, vec![0, 1, 3]);
}
