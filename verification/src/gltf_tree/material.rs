use vstd::prelude::*;
use crate::document::GltfMaterial;
use crate::gltf_tree::root::Root;
use crate::shader::ShaderFlags;

verus! {

/// A material of the scene graph.
#[derive(Clone, Copy, Debug, PartialEq, Eq, Structural)]
pub struct Material {
    /// The glTF index the material was created for.
    pub index: Option<usize>,
    /// The glTF index of the base color texture.
    pub base_color_texture: Option<usize>,
}

/// The shader flags a material calls for: the base color map when it has a
/// base color texture.
pub open spec fn material_flags(m: Material) -> u16 {
    let f0: u16 = 0;
    if m.base_color_texture is Some {
        f0 | ShaderFlags::HAS_BASECOLORMAP
    } else {
        f0
    }
}

/// A material of the scene graph calls for the base color map exactly where
/// it has a base color texture, and for no other flag.
pub proof fn lemma_tree_material_maps(m: Material)
    ensures
        (material_flags(m) & ShaderFlags::HAS_BASECOLORMAP == ShaderFlags::HAS_BASECOLORMAP) == (
        m.base_color_texture is Some),
        material_flags(m) & !32u16 == 0,
{
    let a = m.base_color_texture is Some;
    let f: u16 = if a { 0u16 | 32u16 } else { 0u16 };
    assert(material_flags(m) == f);
    assert((f & 32u16 == 32u16) == a && f & !32u16 == 0) by (bit_vector)
        requires
            f == (if a { 0u16 | 32u16 } else { 0u16 }),
    ;
}

/// The shader flags that `material` calls for.
pub fn shader_flags(material: &Material) -> (res: ShaderFlags)
    ensures
        res.bits == material_flags(*material),
        (res.bits & ShaderFlags::HAS_BASECOLORMAP == ShaderFlags::HAS_BASECOLORMAP) == (
        material.base_color_texture is Some),
        res.bits & !32u16 == 0,
{
    let mut flags = ShaderFlags::empty();
    if material.base_color_texture.is_some() {
        flags.insert(ShaderFlags { bits: ShaderFlags::HAS_BASECOLORMAP });
    }
    proof {
        lemma_tree_material_maps(*material);
    }
    flags
}

/// The material that `create_material` makes, whatever the glTF material.
pub open spec fn created_material() -> Material {
    Material { index: Some(0), base_color_texture: None }
}

/// Creates the material for a glTF material. Whatever the glTF material, the
/// result has index 0 and no base color texture.
pub fn create_material(g_material: &GltfMaterial, root: &Root) -> (res: Material)
    ensures
        res == created_material(),
{
    Material { index: Some(0), base_color_texture: None }
}

} // verus!
