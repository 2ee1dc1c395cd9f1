//! Models of the device objects the renderer works with.

pub mod buffer;
pub mod shader_program_creation;
pub mod vao;
