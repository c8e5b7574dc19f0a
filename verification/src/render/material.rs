use vstd::prelude::*;
use crate::document::{GltfMaterial, GltfTextureInfo};
use crate::render::root::Root;
use crate::shader::ShaderFlags;

verus! {

/// A material of the scene graph. Textures are named by their glTF index,
/// which is also their key in the root's texture cache; scales, strengths and
/// factors are bits of `f32`s.
#[derive(Clone, Debug)]
pub struct Material {
    /// The glTF index; `None` for the default material.
    pub index: Option<usize>,
    pub name: Option<String>,
    pub base_color_texture: Option<usize>,
    pub metallic_roughness_texture: Option<usize>,
    pub normal_texture: Option<usize>,
    pub normal_scale: Option<u32>,
    pub occlusion_texture: Option<usize>,
    pub occlusion_strength: u32,
    pub emissive_factor: [u32; 3],
    pub emissive_texture: Option<usize>,
}

/// The texture cache after texture `texture` is loaded: unchanged where it is
/// cached, else with it appended.
pub open spec fn textures_with(textures: Seq<usize>, texture: usize) -> Seq<usize> {
    if textures.contains(texture) {
        textures
    } else {
        textures.push(texture)
    }
}

/// The texture cache after the optional texture `info` is loaded.
pub open spec fn textures_with_info(textures: Seq<usize>, info: Option<GltfTextureInfo>) -> Seq<usize> {
    match info {
        Some(i) => textures_with(textures, i.texture),
        None => textures,
    }
}

/// The texture cache after the textures of material `g` are loaded, in the
/// order base color, metallic-roughness, normal, occlusion, emissive.
pub open spec fn textures_after_material(textures: Seq<usize>, g: GltfMaterial) -> Seq<usize> {
    let t1 = textures_with_info(textures, g.base_color_texture);
    let t2 = textures_with_info(t1, g.metallic_roughness_texture);
    let t3 = match g.normal_texture {
        Some(n) => textures_with(t2, n.texture),
        None => t2,
    };
    let t4 = match g.occlusion_texture {
        Some(o) => textures_with(t3, o.texture),
        None => t3,
    };
    textures_with_info(t4, g.emissive_texture)
}

/// The material made from glTF material `g`.
pub open spec fn material_from(g: GltfMaterial) -> Material {
    Material {
        index: g.index,
        name: g.name,
        base_color_texture: match g.base_color_texture {
            Some(i) => Some(i.texture),
            None => None,
        },
        metallic_roughness_texture: match g.metallic_roughness_texture {
            Some(i) => Some(i.texture),
            None => None,
        },
        normal_texture: match g.normal_texture {
            Some(n) => Some(n.texture),
            None => None,
        },
        normal_scale: match g.normal_texture {
            Some(n) => Some(n.scale),
            None => None,
        },
        occlusion_texture: match g.occlusion_texture {
            Some(o) => Some(o.texture),
            None => None,
        },
        occlusion_strength: match g.occlusion_texture {
            Some(o) => o.strength,
            None => 0,
        },
        emissive_factor: g.emissive_factor,
        emissive_texture: match g.emissive_texture {
            Some(i) => Some(i.texture),
            None => None,
        },
    }
}

/// Every texture of material `g` is sampled with texture coordinate set 0,
/// the only set supported.
pub open spec fn material_loadable(g: GltfMaterial) -> bool {
    &&& g.base_color_texture matches Some(i) ==> i.tex_coord == 0
    &&& g.metallic_roughness_texture matches Some(i) ==> i.tex_coord == 0
    &&& g.normal_texture matches Some(n) ==> n.tex_coord == 0
    &&& g.occlusion_texture matches Some(o) ==> o.tex_coord == 0
    &&& g.emissive_texture matches Some(i) ==> i.tex_coord == 0
}

/// Whether every texture of material `g` uses texture coordinate set 0.
pub fn check_material_loadable(g: &GltfMaterial) -> (res: bool)
    ensures
        res == material_loadable(*g),
{
    let base = match g.base_color_texture {
        Some(i) => i.tex_coord == 0,
        None => true,
    };
    let mr = match g.metallic_roughness_texture {
        Some(i) => i.tex_coord == 0,
        None => true,
    };
    let normal = match g.normal_texture {
        Some(n) => n.tex_coord == 0,
        None => true,
    };
    let occlusion = match g.occlusion_texture {
        Some(o) => o.tex_coord == 0,
        None => true,
    };
    let emissive = match g.emissive_texture {
        Some(i) => i.tex_coord == 0,
        None => true,
    };
    base && mr && normal && occlusion && emissive
}

/// The shader flags a material calls for: one map per texture it has.
pub open spec fn material_flags(m: Material) -> u16 {
    let f0: u16 = 0;
    let f1 = if m.base_color_texture is Some {
        f0 | ShaderFlags::HAS_BASECOLORMAP
    } else {
        f0
    };
    let f2 = if m.normal_texture is Some {
        f1 | ShaderFlags::HAS_NORMALMAP
    } else {
        f1
    };
    let f3 = if m.emissive_texture is Some {
        f2 | ShaderFlags::HAS_EMISSIVEMAP
    } else {
        f2
    };
    let f4 = if m.metallic_roughness_texture is Some {
        f3 | ShaderFlags::HAS_METALROUGHNESSMAP
    } else {
        f3
    };
    if m.occlusion_texture is Some {
        f4 | ShaderFlags::HAS_OCCLUSIONMAP
    } else {
        f4
    }
}

/// For a single map bit, the bit is set exactly where masking with it gives
/// the bit, exactly where masking with it gives something other than zero.
pub proof fn lemma_single_bit_set(x: u16)
    ensures
        (x & 32u16 != 0) == (x & 32u16 == 32u16),
        (x & 64u16 != 0) == (x & 64u16 == 64u16),
        (x & 128u16 != 0) == (x & 128u16 == 128u16),
        (x & 256u16 != 0) == (x & 256u16 == 256u16),
        (x & 512u16 != 0) == (x & 512u16 == 512u16),
{
    assert({
        &&& (x & 32u16 != 0) == (x & 32u16 == 32u16)
        &&& (x & 64u16 != 0) == (x & 64u16 == 64u16)
        &&& (x & 128u16 != 0) == (x & 128u16 == 128u16)
        &&& (x & 256u16 != 0) == (x & 256u16 == 256u16)
        &&& (x & 512u16 != 0) == (x & 512u16 == 512u16)
    }) by (bit_vector);
}

/// Each texture of a material calls for its own map and for no other: the
/// base color, normal, emissive, metallic-roughness and occlusion map flags
/// are set exactly where the material has that texture, and no flag outside
/// the maps is set.
pub proof fn lemma_material_maps(m: Material)
    ensures
        ({
            let f = material_flags(m);
            &&& (f & ShaderFlags::HAS_BASECOLORMAP == ShaderFlags::HAS_BASECOLORMAP) == (
            m.base_color_texture is Some)
            &&& (f & ShaderFlags::HAS_NORMALMAP == ShaderFlags::HAS_NORMALMAP) == (
            m.normal_texture is Some)
            &&& (f & ShaderFlags::HAS_EMISSIVEMAP == ShaderFlags::HAS_EMISSIVEMAP) == (
            m.emissive_texture is Some)
            &&& (f & ShaderFlags::HAS_METALROUGHNESSMAP == ShaderFlags::HAS_METALROUGHNESSMAP) == (
            m.metallic_roughness_texture is Some)
            &&& (f & ShaderFlags::HAS_OCCLUSIONMAP == ShaderFlags::HAS_OCCLUSIONMAP) == (
            m.occlusion_texture is Some)
            &&& f & !992u16 == 0
        }),
{
    let a = m.base_color_texture is Some;
    let b = m.normal_texture is Some;
    let c = m.emissive_texture is Some;
    let d = m.metallic_roughness_texture is Some;
    let e = m.occlusion_texture is Some;
    let f0: u16 = 0;
    let f1: u16 = if a { f0 | 32u16 } else { f0 };
    let f2: u16 = if b { f1 | 64u16 } else { f1 };
    let f3: u16 = if c { f2 | 128u16 } else { f2 };
    let f4: u16 = if d { f3 | 256u16 } else { f3 };
    let f5: u16 = if e { f4 | 512u16 } else { f4 };
    assert(material_flags(m) == f5);
    assert({
        &&& (f5 & 32u16 == 32u16) == a
        &&& (f5 & 64u16 == 64u16) == b
        &&& (f5 & 128u16 == 128u16) == c
        &&& (f5 & 256u16 == 256u16) == d
        &&& (f5 & 512u16 == 512u16) == e
        &&& f5 & !992u16 == 0
    }) by (bit_vector)
        requires
            f0 == 0u16,
            f1 == (if a { f0 | 32u16 } else { f0 }),
            f2 == (if b { f1 | 64u16 } else { f1 }),
            f3 == (if c { f2 | 128u16 } else { f2 }),
            f4 == (if d { f3 | 256u16 } else { f3 }),
            f5 == (if e { f4 | 512u16 } else { f4 }),
    ;
}

/// Loads the texture with glTF index `texture` into the root's texture cache,
/// where it is not cached yet, and names it. Only texture coordinate set 0 is
/// supported.
pub fn load_texture(texture: usize, tex_coord: u32, root: &mut Root) -> (res: usize)
    requires
        tex_coord == 0,
    ensures
        res == texture,
        final(root).textures@ == textures_with(old(root).textures@, texture),
        final(root).nodes == old(root).nodes,
        final(root).meshes == old(root).meshes,
        final(root).materials == old(root).materials,
        final(root).shaders == old(root).shaders,
        final(root).camera_nodes == old(root).camera_nodes,
{
    let mut k: usize = 0;
    while k < root.textures.len()
        invariant
            k <= root.textures@.len(),
            forall|j: int| 0 <= j < k ==> #[trigger] root.textures@[j] != texture,
        decreases root.textures@.len() - k,
    {
        if root.textures[k] == texture {
            assert(root.textures@.contains(texture));
            return root.textures[k];
        }
        k = k + 1;
    }
    root.textures.push(texture);
    texture
}

impl Material {
    /// The material for glTF material `g_material`; its textures are loaded
    /// into the root's texture cache.
    pub fn from_gltf(g_material: &GltfMaterial, root: &mut Root) -> (res: Material)
        requires
            material_loadable(*g_material),
        ensures
            res == material_from(*g_material),
            final(root).textures@ == textures_after_material(old(root).textures@, *g_material),
            final(root).nodes == old(root).nodes,
            final(root).meshes == old(root).meshes,
            final(root).materials == old(root).materials,
            final(root).shaders == old(root).shaders,
            final(root).camera_nodes == old(root).camera_nodes,
    {
        let mut material = Material {
            index: g_material.index,
            name: match &g_material.name {
                Some(s) => Some(s.clone()),
                None => None,
            },
            base_color_texture: None,
            metallic_roughness_texture: None,
            normal_texture: None,
            normal_scale: None,
            occlusion_texture: None,
            occlusion_strength: 0,
            emissive_factor: g_material.emissive_factor,
            emissive_texture: None,
        };
        if let Some(color_info) = g_material.base_color_texture {
            material.base_color_texture = Some(
                load_texture(color_info.texture, color_info.tex_coord, root),
            );
        }
        if let Some(mr_info) = g_material.metallic_roughness_texture {
            material.metallic_roughness_texture = Some(
                load_texture(mr_info.texture, mr_info.tex_coord, root),
            );
        }
        if let Some(normal_texture) = g_material.normal_texture {
            material.normal_texture = Some(
                load_texture(normal_texture.texture, normal_texture.tex_coord, root),
            );
            material.normal_scale = Some(normal_texture.scale);
        }
        if let Some(occ_texture) = g_material.occlusion_texture {
            material.occlusion_texture = Some(
                load_texture(occ_texture.texture, occ_texture.tex_coord, root),
            );
            material.occlusion_strength = occ_texture.strength;
        }
        if let Some(em_info) = g_material.emissive_texture {
            material.emissive_texture = Some(load_texture(em_info.texture, em_info.tex_coord, root));
        }
        material
    }

    /// The shader flags this material calls for: one map per texture.
    pub fn shader_flags(&self) -> (res: ShaderFlags)
        ensures
            res.bits == material_flags(*self),
            (res.bits & ShaderFlags::HAS_BASECOLORMAP != 0) == self.base_color_texture is Some,
            (res.bits & ShaderFlags::HAS_NORMALMAP != 0) == self.normal_texture is Some,
            (res.bits & ShaderFlags::HAS_EMISSIVEMAP != 0) == self.emissive_texture is Some,
            (res.bits & ShaderFlags::HAS_METALROUGHNESSMAP != 0) == self.metallic_roughness_texture is Some,
            (res.bits & ShaderFlags::HAS_OCCLUSIONMAP != 0) == self.occlusion_texture is Some,
    {
        let mut flags = ShaderFlags::empty();
        if self.base_color_texture.is_some() {
            flags.insert(ShaderFlags { bits: ShaderFlags::HAS_BASECOLORMAP });
        }
        if self.normal_texture.is_some() {
            flags.insert(ShaderFlags { bits: ShaderFlags::HAS_NORMALMAP });
        }
        if self.emissive_texture.is_some() {
            flags.insert(ShaderFlags { bits: ShaderFlags::HAS_EMISSIVEMAP });
        }
        if self.metallic_roughness_texture.is_some() {
            flags.insert(ShaderFlags { bits: ShaderFlags::HAS_METALROUGHNESSMAP });
        }
        if self.occlusion_texture.is_some() {
            flags.insert(ShaderFlags { bits: ShaderFlags::HAS_OCCLUSIONMAP });
        }
        proof {
            lemma_material_maps(*self);
            lemma_single_bit_set(flags.bits);
        }
        flags
    }
}

} // verus!
