//! The material of the deferred pipeline: a shader and a fixed set of
//! surface parameters that are pushed before every draw.

use vstd::prelude::*;
use vstd::string::*;
use crate::shader::Shader;
use crate::value::{UniformUpload, UniformValue, Vector3};

verus! {

/// A shader with the surface parameters to draw with. The shader is shared:
/// several materials may use one program.
#[derive(Clone, Copy, Debug, PartialEq, Eq, Structural)]
pub struct Material {
    pub shader: Shader,
    pub albedo: Vector3,
    pub metallic: u32,
    pub roughness: u32,
    pub ao: u32,
}

impl Material {
    pub fn new(shader: Shader, albedo: Vector3, metallic: u32, roughness: u32, ao: u32) -> (m: Material)
        ensures
            m == (Material { shader, albedo, metallic, roughness, ao }),
    {
        Material { shader, albedo, metallic, roughness, ao }
    }

    /// The uploads that set the material on its shader: all four
    /// parameters, in the order albedo, metallic, roughness, ambient
    /// occlusion, whatever their values.
    pub fn use_material(&self) -> (uploads: Vec<UniformUpload>)
        ensures
            uploads@.len() == 4,
            forall|i: int| 0 <= i < 4 ==> (#[trigger] uploads@[i]).program == self.shader.id,
            uploads@[0].name@ == "material_albedo"@,
            uploads@[0].value == UniformValue::Vector3(self.albedo),
            uploads@[1].name@ == "material_metallic"@,
            uploads@[1].value == UniformValue::Float(self.metallic),
            uploads@[2].name@ == "material_roughness"@,
            uploads@[2].value == UniformValue::Float(self.roughness),
            uploads@[3].name@ == "material_ao"@,
            uploads@[3].value == UniformValue::Float(self.ao),
    {
        let mut uploads: Vec<UniformUpload> = Vec::new();
        uploads.push(self.shader.set_vector3("material_albedo", &self.albedo));
        uploads.push(self.shader.set_float("material_metallic", self.metallic));
        uploads.push(self.shader.set_float("material_roughness", self.roughness));
        uploads.push(self.shader.set_float("material_ao", self.ao));
        uploads
    }
}

} // verus!
