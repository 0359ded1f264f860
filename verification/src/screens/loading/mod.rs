//! Loading screens.
pub mod shader_compilation;
