use render_core::shader::{Shader, ShaderError, ShaderType};
use render_core::value::{Matrix4, UniformValue, Vector3};

#[test]
fn a_stage_with_true_status_passes() {
    assert_eq!(Shader::check_compiler_errors(ShaderType::Vertex, 1, 0, "ignored"), Ok(()));
    assert_eq!(Shader::check_compiler_errors(ShaderType::Fragment, 1, 0, "ignored"), Ok(()));
    assert_eq!(Shader::check_compiler_errors(ShaderType::Program, 0, 1, "ignored"), Ok(()));
}

#[test]
fn a_failed_vertex_stage_is_a_compile_error() {
    assert_eq!(
        Shader::check_compiler_errors(ShaderType::Vertex, 0, 1, "0:1 syntax error"),
        Err(ShaderError::Compile("Vertex shader compilation error: 0:1 syntax error".to_string()))
    );
}

#[test]
fn a_failed_fragment_stage_is_a_compile_error() {
    assert_eq!(
        Shader::check_compiler_errors(ShaderType::Fragment, 0, 1, "oops"),
        Err(ShaderError::Compile("Fragment shader compilation error: oops".to_string()))
    );
}

#[test]
fn a_failed_link_is_a_linking_error() {
    let r = Shader::check_compiler_errors(ShaderType::Program, 1, 0, "unresolved");
    assert_eq!(r, Err(ShaderError::Linking("Program linking error: 'unresolved'".to_string())));
    assert_eq!(r.unwrap_err().message(), "Program linking error: 'unresolved'");
}

#[test]
fn any_status_but_true_fails() {
    assert!(Shader::check_compiler_errors(ShaderType::Vertex, 2, 1, "").is_err());
    assert!(Shader::check_compiler_errors(ShaderType::Vertex, -1, 1, "").is_err());
    assert!(Shader::stage_failed(ShaderType::Vertex, 0, 1));
    assert!(!Shader::stage_failed(ShaderType::Vertex, 1, 0));
    assert!(Shader::stage_failed(ShaderType::Program, 1, 0));
    assert!(!Shader::stage_failed(ShaderType::Program, 0, 1));
}

#[test]
fn log_capacity_is_the_larger_status() {
    assert_eq!(Shader::log_capacity(0, 1), 1);
    assert_eq!(Shader::log_capacity(1, 0), 1);
    assert_eq!(Shader::log_capacity(-3, -5), -3);
    assert_eq!(Shader::log_capacity(4, 4), 4);
}

#[test]
fn the_first_failed_stage_gives_the_error() {
    let s = |t: &str| Some(t.to_string());
    assert_eq!(Shader::new(s("v"), s("f"), s("p"), 3), Err("v".to_string()));
    assert_eq!(Shader::new(None, s("f"), s("p"), 3), Err("f".to_string()));
    assert_eq!(Shader::new(None, None, s("p"), 3), Err("p".to_string()));
    assert_eq!(Shader::new(None, None, None, 3), Ok(Shader { id: 3 }));
}

#[test]
fn a_zero_status_turns_the_log_into_an_error() {
    assert_eq!(Shader::check_shader_errors(0, "log".to_string()), Some("log".to_string()));
    assert_eq!(Shader::check_shader_errors(1, "log".to_string()), None);
    assert_eq!(Shader::check_program_errors(0, "log".to_string()), Some("log".to_string()));
    assert_eq!(Shader::check_program_errors(5, "log".to_string()), None);
}

#[test]
fn setters_address_the_program_by_name() {
    let shader = Shader { id: 9 };
    let u = shader.set_int("g_normal", 1);
    assert_eq!((u.program, u.name.as_str(), u.value), (9, "g_normal", UniformValue::Int(1)));
    let u = shader.set_float("material_ao", 1.0f32.to_bits());
    assert_eq!((u.program, u.name.as_str(), u.value), (9, "material_ao", UniformValue::Float(0x3F80_0000)));
    let u = shader.set_vec3("c", 1, 2, 3);
    assert_eq!(u.value, UniformValue::Vector3(Vector3 { x: 1, y: 2, z: 3 }));
    let v = Vector3 { x: 4, y: 5, z: 6 };
    let u = shader.set_vector3("light_pos", &v);
    assert_eq!((u.program, u.name.as_str(), u.value), (9, "light_pos", UniformValue::Vector3(v)));
    let m = Matrix4 { cells: [7; 16] };
    let u = shader.set_mat4("model", &m);
    assert_eq!((u.program, u.name.as_str(), u.value), (9, "model", UniformValue::Matrix4(m)));
}

#[test]
fn copies_of_a_shader_share_the_program() {
    let shader = Shader { id: 12 };
    let copy = shader;
    assert_eq!(shader, copy);
    assert_eq!(shader.clone().id, 12);
}
