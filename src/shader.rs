use vstd::prelude::*;

verus! {

/// Identifier of the weak handle under which the iridescence fragment shader
/// is registered. The forward and the deferred fragment stages both use it.
pub const SHADER_HANDLE_ID: u128 = 11427442657628709095;

/// A preprocessor definition that switches on an optional code path of the
/// iridescence shader.
#[derive(Clone, Copy, Debug, PartialEq, Eq, Hash, Structural)]
pub enum ShaderDef {
    /// The material samples an iridescence intensity texture.
    IridescenceTexture,
    /// The material samples an iridescence thickness texture.
    IridescenceThicknessTexture,
}

impl ShaderDef {
    /// The name under which the shader source tests this definition.
    pub open spec fn spec_name(self) -> Seq<char> {
        match self {
            ShaderDef::IridescenceTexture => "HAS_IRIDESCENCE_TEXTURE"@,
            ShaderDef::IridescenceThicknessTexture => "HAS_IRIDESCENCE_THICKNESS_TEXTURE"@,
        }
    }

    /// The name under which the shader source tests this definition.
    pub fn name(&self) -> (r: &'static str)
        ensures
            r@ == self.spec_name(),
    {
        match self {
            ShaderDef::IridescenceTexture => "HAS_IRIDESCENCE_TEXTURE",
            ShaderDef::IridescenceThicknessTexture => "HAS_IRIDESCENCE_THICKNESS_TEXTURE",
        }
    }
}

} // verus!
