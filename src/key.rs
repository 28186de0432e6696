use vstd::prelude::*;

use crate::shader::ShaderDef;

verus! {

/// What selects a shader variant of the iridescence material: which of its
/// optional textures a material instance binds.
#[derive(Clone, Copy, Debug, PartialEq, Eq, Hash, Structural)]
pub struct GltfPbrExtensionKey {
    has_iridescence_texture: bool,
    has_iridescence_thickness_texture: bool,
}

impl GltfPbrExtensionKey {
    /// Whether the material binds an iridescence intensity texture.
    pub closed spec fn binds_iridescence_texture(self) -> bool {
        self.has_iridescence_texture
    }

    /// Whether the material binds an iridescence thickness texture.
    pub closed spec fn binds_iridescence_thickness_texture(self) -> bool {
        self.has_iridescence_thickness_texture
    }

    /// The key of a material whose two iridescence texture slots hold
    /// `iridescence_texture` and `iridescence_thickness_texture`.
    pub fn from_textures<T>(
        iridescence_texture: &Option<T>,
        iridescence_thickness_texture: &Option<T>,
    ) -> (r: Self)
        ensures
            r.binds_iridescence_texture() == iridescence_texture.is_some(),
            r.binds_iridescence_thickness_texture() == iridescence_thickness_texture.is_some(),
    {
        GltfPbrExtensionKey {
            has_iridescence_texture: iridescence_texture.is_some(),
            has_iridescence_thickness_texture: iridescence_thickness_texture.is_some(),
        }
    }

    /// Whether the material binds an iridescence intensity texture.
    pub fn has_iridescence_texture(&self) -> (r: bool)
        ensures
            r == self.binds_iridescence_texture(),
    {
        self.has_iridescence_texture
    }

    /// Whether the material binds an iridescence thickness texture.
    pub fn has_iridescence_thickness_texture(&self) -> (r: bool)
        ensures
            r == self.binds_iridescence_thickness_texture(),
    {
        self.has_iridescence_thickness_texture
    }

    /// The shader definitions that a material with this key needs, in the
    /// order the shader variant is specialized with them: the intensity
    /// texture's first, then the thickness texture's, each only where the
    /// texture is bound.
    pub open spec fn spec_shader_defs(self) -> Seq<ShaderDef> {
        (if self.binds_iridescence_texture() {
            seq![ShaderDef::IridescenceTexture]
        } else {
            Seq::empty()
        }) + (if self.binds_iridescence_thickness_texture() {
            seq![ShaderDef::IridescenceThicknessTexture]
        } else {
            Seq::empty()
        })
    }

    /// Selects the shader definitions with which the fragment stage of this
    /// key's pipeline is specialized.
    pub fn shader_defs(&self) -> (r: Vec<ShaderDef>)
        ensures
            r@ == self.spec_shader_defs(),
    {
        let mut defs: Vec<ShaderDef> = Vec::new();
        if self.has_iridescence_texture {
            defs.push(ShaderDef::IridescenceTexture);
        }
        if self.has_iridescence_thickness_texture {
            defs.push(ShaderDef::IridescenceThicknessTexture);
        }
        proof {
            assert(defs@ =~= self.spec_shader_defs());
        }
        defs
    }
}

/// Distinct keys select distinct shader variants: two keys whose shader
/// definitions agree are the same key.
pub proof fn lemma_shader_defs_determine_key(a: GltfPbrExtensionKey, b: GltfPbrExtensionKey)
    requires
        a.spec_shader_defs() == b.spec_shader_defs(),
    ensures
        a == b,
{
    let (da, db) = (a.spec_shader_defs(), b.spec_shader_defs());
    assert(da.len() == db.len());
    if da.len() == 1 {
        assert(da[0] == db[0]);
    }
}

} // verus!
