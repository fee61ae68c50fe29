//! The per-frame passes of the deferred pipeline: what the geometry pass
//! pushes and draws for one renderable, what the lighting pass pushes for
//! one light, and the order of the steps of a frame.

use vstd::prelude::*;
use vstd::string::*;
use crate::glenum;
use crate::material::Material;
use crate::mesh::{known_label, sampler_text, DrawCall, Mesh};
use crate::shader::Shader;
use crate::value::{Matrix4, UniformUpload, UniformValue, Vector3};

verus! {

/// A mesh with the material to draw it with.
#[derive(Debug, PartialEq, Eq)]
pub struct Renderable {
    pub material: Material,
    pub mesh: Mesh,
}

/// What the geometry pass does for one renderable: the program to use, the
/// uniforms to push to it, and the draw.
#[derive(Debug, PartialEq, Eq)]
pub struct RenderStep {
    pub program: u32,
    pub uploads: Vec<UniformUpload>,
    pub call: DrawCall,
}

/// One step of a frame.
#[derive(Clone, Copy, Debug, PartialEq, Eq, Structural)]
pub enum FrameStep {
    /// Make the G-buffer the render target.
    BindGBuffer,
    /// Clear the buffers of the mask on the current target.
    Clear(u32),
    /// Draw every renderable into the G-buffer.
    GeometryPass,
    /// Make the default target the render target.
    UnbindGBuffer,
    /// Add what is drawn to what is there (blend factors one and one).
    EnableAdditiveBlending,
    /// Pass fragments that are no farther than what is there.
    DepthTestLessOrEqual,
    /// Draw one full-screen quad for every light.
    LightingPass,
    DisableBlending,
    /// Pass only fragments that are nearer than what is there.
    DepthTestLess,
    /// Copy the G-buffer's depth to the default target.
    BlitDepth,
}

/// The steps of one frame, in order.
pub open spec fn frame_sequence() -> Seq<FrameStep> {
    seq![
        FrameStep::BindGBuffer,
        FrameStep::Clear((glenum::COLOR_BUFFER_BIT | glenum::DEPTH_BUFFER_BIT) as u32),
        FrameStep::GeometryPass,
        FrameStep::UnbindGBuffer,
        FrameStep::Clear(glenum::COLOR_BUFFER_BIT),
        FrameStep::EnableAdditiveBlending,
        FrameStep::DepthTestLessOrEqual,
        FrameStep::LightingPass,
        FrameStep::DisableBlending,
        FrameStep::DepthTestLess,
        FrameStep::BlitDepth,
    ]
}

/// The steps of one frame, in order.
pub fn frame_steps() -> (steps: Vec<FrameStep>)
    ensures
        steps@ == frame_sequence(),
{
    let mut steps: Vec<FrameStep> = Vec::new();
    steps.push(FrameStep::BindGBuffer);
    steps.push(FrameStep::Clear(glenum::COLOR_BUFFER_BIT | glenum::DEPTH_BUFFER_BIT));
    steps.push(FrameStep::GeometryPass);
    steps.push(FrameStep::UnbindGBuffer);
    steps.push(FrameStep::Clear(glenum::COLOR_BUFFER_BIT));
    steps.push(FrameStep::EnableAdditiveBlending);
    steps.push(FrameStep::DepthTestLessOrEqual);
    steps.push(FrameStep::LightingPass);
    steps.push(FrameStep::DisableBlending);
    steps.push(FrameStep::DepthTestLess);
    steps.push(FrameStep::BlitDepth);
    assert(steps@ =~= frame_sequence());
    steps
}

/// Plans the geometry pass for one renderable with the given model matrix
/// and normal matrix: its shader is used, the two matrices are pushed as
/// `model` and `normal_mat`, then the material's parameters, and the mesh is
/// drawn.
pub fn render_model(rend: &Renderable, model: &Matrix4, normal_mat: &Matrix4) -> (step: RenderStep)
    requires
        rend.mesh.textures@.len() <= u32::MAX - glenum::TEXTURE0,
        forall|i: int| 0 <= i < rend.mesh.textures@.len() ==> known_label(
            (#[trigger] rend.mesh.textures@[i]).type_label@,
        ),
    ensures
        step.program == rend.material.shader.id,
        step.uploads@.len() == 6,
        forall|i: int| 0 <= i < 6 ==> (#[trigger] step.uploads@[i]).program == rend.material.shader.id,
        step.uploads@[0].name@ == "model"@,
        step.uploads@[0].value == UniformValue::Matrix4(*model),
        step.uploads@[1].name@ == "normal_mat"@,
        step.uploads@[1].value == UniformValue::Matrix4(*normal_mat),
        step.uploads@[2].name@ == "material_albedo"@,
        step.uploads@[2].value == UniformValue::Vector3(rend.material.albedo),
        step.uploads@[3].name@ == "material_metallic"@,
        step.uploads@[3].value == UniformValue::Float(rend.material.metallic),
        step.uploads@[4].name@ == "material_roughness"@,
        step.uploads@[4].value == UniformValue::Float(rend.material.roughness),
        step.uploads@[5].name@ == "material_ao"@,
        step.uploads@[5].value == UniformValue::Float(rend.material.ao),
        step.call.vao == rend.mesh.vao,
        step.call.mode == glenum::TRIANGLES,
        step.call.count == rend.mesh.indices@.len(),
        step.call.index_type == glenum::UNSIGNED_INT,
        step.call.bindings@.len() == rend.mesh.textures@.len(),
        forall|i: int|
            0 <= i < rend.mesh.textures@.len() ==> {
                &&& (#[trigger] step.call.bindings@[i]).program == rend.material.shader.id
                &&& step.call.bindings@[i].unit == i
                &&& step.call.bindings@[i].texture == rend.mesh.textures@[i].id
                &&& step.call.bindings@[i].sampler@ == sampler_text(rend.mesh.textures@, i)
            },
{
    let shader = &rend.material.shader;
    let mut uploads: Vec<UniformUpload> = Vec::new();
    uploads.push(shader.set_mat4("model", model));
    uploads.push(shader.set_mat4("normal_mat", normal_mat));
    let mut material = rend.material.use_material();
    uploads.append(&mut material);
    let call = rend.mesh.draw(shader);
    RenderStep { program: shader.id, uploads, call }
}

/// The sampler uniforms that point the lighting shader at the G-buffer:
/// position, normal, albedo and material on units 0 to 3.
pub fn gbuffer_samplers(light_pass: &Shader) -> (uploads: Vec<UniformUpload>)
    ensures
        uploads@.len() == 4,
        forall|i: int|
            0 <= i < 4 ==> (#[trigger] uploads@[i]).program == light_pass.id && uploads@[i].value
                == UniformValue::Int(i as i32),
        uploads@[0].name@ == "g_position"@,
        uploads@[1].name@ == "g_normal"@,
        uploads@[2].name@ == "g_albedo"@,
        uploads@[3].name@ == "g_material"@,
{
    let mut uploads: Vec<UniformUpload> = Vec::new();
    uploads.push(light_pass.set_int("g_position", 0));
    uploads.push(light_pass.set_int("g_normal", 1));
    uploads.push(light_pass.set_int("g_albedo", 2));
    uploads.push(light_pass.set_int("g_material", 3));
    uploads
}

/// What the lighting pass pushes before the quad of one light: the light's
/// position and colour, and the position of the camera.
pub fn light_uniforms(
    light_pass: &Shader,
    light_pos: &Vector3,
    light_color: &Vector3,
    camera_pos: &Vector3,
) -> (uploads: Vec<UniformUpload>)
    ensures
        uploads@.len() == 3,
        forall|i: int| 0 <= i < 3 ==> (#[trigger] uploads@[i]).program == light_pass.id,
        uploads@[0].name@ == "light_pos"@,
        uploads@[0].value == UniformValue::Vector3(*light_pos),
        uploads@[1].name@ == "light_color"@,
        uploads@[1].value == UniformValue::Vector3(*light_color),
        uploads@[2].name@ == "camera_pos"@,
        uploads@[2].value == UniformValue::Vector3(*camera_pos),
{
    let mut uploads: Vec<UniformUpload> = Vec::new();
    uploads.push(light_pass.set_vector3("light_pos", light_pos));
    uploads.push(light_pass.set_vector3("light_color", light_color));
    uploads.push(light_pass.set_vector3("camera_pos", camera_pos));
    uploads
}

} // verus!
