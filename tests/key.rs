use bevy_gltf_pbr_extras::{GltfPbrExtensionKey, ShaderDef};

fn key(iridescence: bool, thickness: bool) -> GltfPbrExtensionKey {
    let texture = |bound: bool| if bound { Some("texture.png") } else { None };
    GltfPbrExtensionKey::from_textures(&texture(iridescence), &texture(thickness))
}

#[test]
fn key_records_bound_textures() {
    let k = GltfPbrExtensionKey::from_textures(&Some(7u32), &None);
    assert!(k.has_iridescence_texture());
    assert!(!k.has_iridescence_thickness_texture());
    let k = GltfPbrExtensionKey::from_textures::<u32>(&None, &Some(9));
    assert!(!k.has_iridescence_texture());
    assert!(k.has_iridescence_thickness_texture());
}

#[test]
fn no_textures_select_no_defs() {
    assert_eq!(key(false, false).shader_defs(), Vec::<ShaderDef>::new());
}

#[test]
fn iridescence_texture_selects_its_def() {
    assert_eq!(key(true, false).shader_defs(), vec![ShaderDef::IridescenceTexture]);
}

#[test]
fn thickness_texture_selects_its_def() {
    assert_eq!(
        key(false, true).shader_defs(),
        vec![ShaderDef::IridescenceThicknessTexture]
    );
}

#[test]
fn both_textures_select_both_defs_in_order() {
    assert_eq!(
        key(true, true).shader_defs(),
        vec![ShaderDef::IridescenceTexture, ShaderDef::IridescenceThicknessTexture]
    );
}

#[test]
fn distinct_keys_select_distinct_defs() {
    let keys = [key(false, false), key(true, false), key(false, true), key(true, true)];
    for (i, a) in keys.iter().enumerate() {
        for (j, b) in keys.iter().enumerate() {
            assert_eq!(i == j, a == b);
            assert_eq!(a == b, a.shader_defs() == b.shader_defs());
        }
    }
}
