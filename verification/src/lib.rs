//! Data model and decision logic of a deferred renderer: the typed uniform
//! cache, materials, mesh draw planning, the G-buffer state machine and the
//! camera uniform block. Every value that reaches the GPU is held as the raw
//! 32-bit words that are uploaded; the caller issues the graphics calls.

pub mod glenum;
pub mod text;
pub mod value;
pub mod name_table;
pub mod error;
pub mod shader;
pub mod texture;
pub mod mesh;
pub mod model_loader;
pub mod uniform_manager;
pub mod framebuffer;
pub mod renderbuffer;
pub mod ubo;
pub mod window;
pub mod material;
pub mod shared_material;
pub mod primitive_object;
pub mod pipeline;
