//! Iridescence (thin-film interference) extension of the standard PBR material.
//!
//! The library decides which optional shader code paths a material instance
//! needs: a material records which iridescence textures it binds in a
//! [`GltfPbrExtensionKey`], and the key selects the matching [`ShaderDef`]s.
mod key;
mod plugin;
mod shader;

pub use key::{lemma_shader_defs_determine_key, GltfPbrExtensionKey};
pub use plugin::GltfPbrExtrasPlugin;
pub use shader::{ShaderDef, SHADER_HANDLE_ID};
