//! Properties that relate several operations of the scene graph.
use vstd::prelude::*;
use crate::cache::{first_index, lemma_first_index, lemma_first_index_at};
use crate::document::{GltfDocument, GltfNode, GltfPrimitive};
use crate::gltf_tree::material::created_material;
use crate::gltf_tree::primitive::{
    has_match, is_first_match, lemma_first_match_unique, lemma_slot_is_first_match, material_slot,
    materials_after, primitive_flags, shaders_with, state_after_primitive, TreeState,
};
use crate::render::material::material_from;
use crate::render::mesh::{lemma_primitives_step_extends, mesh_step};
use crate::render::node::{mesh_keys, node_step, Node};
use crate::render::primitive::{material_keys, primitive_step};
use crate::render::root::{camera_indices, RenderState};
use crate::shader::{PbrShader, ShaderFlags};

verus! {

/// Every cached shader variant is stored under the bits of its own flags.
pub open spec fn shaders_keyed_by_flags(shaders: Map<u16, PbrShader>) -> bool {
    forall|k: u16| #[trigger] shaders.contains_key(k) ==> shaders[k].flags.bits == k
}

/// The shader cache keeps every entry it has, and afterwards holds a variant
/// for the given flags; a cache whose variants are stored under their own
/// flags stays so.
pub proof fn lemma_shader_cache(shaders: Map<u16, PbrShader>, flags: u16)
    ensures
        shaders_with(shaders, flags).contains_key(flags),
        forall|k: u16|
            #[trigger] shaders.contains_key(k) ==> shaders_with(shaders, flags).contains_key(k)
                && shaders_with(shaders, flags)[k] == shaders[k],
        shaders_keyed_by_flags(shaders) ==> shaders_keyed_by_flags(shaders_with(shaders, flags)),
        shaders_keyed_by_flags(shaders) ==> shaders_with(shaders, flags)[flags].flags.bits == flags,
{
}

/// Building a primitive of the scene graph caches the shader variant for the
/// primitive's flags, keeps every cached variant and every cached material,
/// and the primitive's material is the cached one at its slot.
pub proof fn lemma_tree_primitive_caches(st: TreeState, g: GltfPrimitive)
    ensures
        ({
            let after = state_after_primitive(st, g);
            let slot = material_slot(st.0, g.material.index);
            &&& after.1.contains_key(primitive_flags(st, g))
            &&& forall|k: u16| #[trigger] st.1.contains_key(k) ==> after.1[k] == st.1[k]
            &&& after.0.len() >= st.0.len()
            &&& forall|j: int| 0 <= j < st.0.len() ==> #[trigger] after.0[j] == st.0[j]
            &&& 0 <= slot < after.0.len()
            &&& has_match(st.0, g.material.index) ==> after.0[slot].index == g.material.index
            &&& !has_match(st.0, g.material.index) ==> after.0[slot] == created_material()
        }),
{
    lemma_shader_cache(st.1, primitive_flags(st, g));
    if has_match(st.0, g.material.index) {
        lemma_slot_is_first_match(st.0, g.material.index);
    }
}

/// Building the same primitive again, where its material was cached or has
/// glTF index 0, changes nothing and gives the same material and flags.
pub proof fn lemma_tree_primitive_repeat(st: TreeState, g: GltfPrimitive)
    requires
        has_match(st.0, g.material.index) || g.material.index == Some(0usize),
    ensures
        ({
            let s1 = state_after_primitive(st, g);
            &&& state_after_primitive(s1, g) == s1
            &&& material_slot(s1.0, g.material.index) == material_slot(st.0, g.material.index)
            &&& primitive_flags(s1, g) == primitive_flags(st, g)
        }),
{
    let index = g.material.index;
    let s1 = state_after_primitive(st, g);
    if has_match(st.0, index) {
        lemma_slot_is_first_match(st.0, index);
        assert(s1.0 == st.0);
    } else {
        let k = st.0.len() as int;
        assert(s1.0 == st.0.push(created_material()));
        assert(s1.0[k].index == index);
        assert forall|j: int| 0 <= j < k implies #[trigger] s1.0[j].index != index by {
            assert(s1.0[j] == st.0[j]);
        }
        assert(is_first_match(s1.0, index, k));
        lemma_first_match_unique(s1.0, index, k);
    }
    lemma_shader_cache(st.1, primitive_flags(st, g));
}

/// Building the same primitive twice in the scene graph whose root owns every
/// node changes nothing the second time: the material, once cached, is found
/// again, and so is the shader variant.
pub proof fn lemma_render_primitive_repeat(st: RenderState, g: GltfPrimitive)
    ensures
        ({
            let (s1, p1) = primitive_step(st, g);
            primitive_step(s1, g) == (s1, p1)
        }),
{
    let (s1, p1) = primitive_step(st, g);
    let keys = material_keys(st.1);
    let index = g.material.index;
    lemma_first_index(keys, index);
    let slot = first_index(keys, index);
    let keys1 = material_keys(s1.1);
    if slot < keys.len() {
        assert(s1.1 == st.1);
    } else {
        assert(s1.1 == st.1.push(material_from(g.material)));
        assert forall|j: int| 0 <= j < slot implies keys1[j] != index by {
            assert(keys1[j] == keys[j]);
        }
        assert(keys1[slot] == index);
        lemma_first_index_at(keys1, index, slot);
    }
    lemma_shader_cache(st.2, p1.pbr_shader.bits);
    let (s2, p2) = primitive_step(s1, g);
    assert(s2.1 =~= s1.1);
}

/// Two nodes of the same mesh share it: building the second after the first
/// finds the mesh the first built or found, and changes nothing.
pub proof fn lemma_render_mesh_shared(st: RenderState, doc: GltfDocument, g1: GltfNode, g2: GltfNode)
    requires
        g1.mesh is Some,
        g2.mesh == g1.mesh,
    ensures
        ({
            let (s1, slot1) = node_step(st, doc, g1);
            node_step(s1, doc, g2) == (s1, slot1)
        }),
{
    let m = g1.mesh.unwrap();
    let g_mesh = doc.meshes@[m as int];
    let keys = mesh_keys(st.3);
    lemma_first_index(keys, g_mesh.index);
    let slot = first_index(keys, g_mesh.index);
    if slot == st.3.len() {
        let (s, mesh) = mesh_step(st, g_mesh);
        lemma_primitives_step_extends(st, g_mesh.primitives@, g_mesh.primitives@.len() as int);
        let (s1, slot1) = node_step(st, doc, g1);
        assert(s1.3 == st.3.push(mesh));
        let keys1 = mesh_keys(s1.3);
        assert forall|j: int| 0 <= j < slot implies keys1[j] != g_mesh.index by {
            assert(keys1[j] == keys[j]);
        }
        assert(keys1[slot] == g_mesh.index);
        lemma_first_index_at(keys1, g_mesh.index, slot);
    }
}

/// Building a primitive in the scene graph whose root owns every node keeps
/// the glTF indices of the cached materials distinct, and the primitive
/// points into the caches: its material is a cached one with the glTF
/// material's index, and its shader variant is cached under its flags.
pub proof fn lemma_render_primitive_in_caches(st: RenderState, g: GltfPrimitive)
    requires
        material_keys(st.1).no_duplicates(),
        st.1.len() < usize::MAX,
    ensures
        ({
            let (after, p) = primitive_step(st, g);
            &&& material_keys(after.1).no_duplicates()
            &&& p.material < after.1.len()
            &&& after.1[p.material as int].index == g.material.index
            &&& after.2.contains_key(p.pbr_shader.bits)
        }),
{
    let keys = material_keys(st.1);
    let index = g.material.index;
    lemma_first_index(keys, index);
    let (after, p) = primitive_step(st, g);
    let slot = first_index(keys, index);
    assert(p.material as int == slot);
    if slot == keys.len() {
        assert(after.1 == st.1.push(material_from(g.material)));
        assert(after.1[slot].index == index);
        assert(material_keys(after.1) =~= keys.push(index));
        assert forall|i: int, j: int|
            0 <= i < j < keys.len() + 1 implies keys.push(index)[i] != keys.push(index)[j] by {
            if j == keys.len() {
                assert(keys.contains(keys[i]));
            }
        }
    } else {
        assert(material_keys(after.1) =~= keys);
        assert(keys[slot] == st.1[slot].index);
    }
    lemma_shader_cache(st.2, p.pbr_shader.bits);
}

/// Where every node's glTF index is its position, every entry of the camera
/// list names a node that holds a camera.
pub proof fn lemma_camera_nodes_hold_cameras(nodes: Seq<Node>, n: int, k: int)
    requires
        0 <= n <= nodes.len(),
        forall|j: int| 0 <= j < nodes.len() ==> #[trigger] nodes[j].index == j,
        0 <= k < camera_indices(nodes, n).len(),
    ensures
        camera_indices(nodes, n)[k] < n,
        nodes[camera_indices(nodes, n)[k] as int].camera is Some,
    decreases n,
{
    if n > 0 {
        let prev = camera_indices(nodes, n - 1);
        if nodes[n - 1].camera is Some && k == prev.len() {
            assert(camera_indices(nodes, n)[k] == nodes[n - 1].index);
        } else {
            lemma_camera_nodes_hold_cameras(nodes, n - 1, k);
        }
    }
}

/// The flags are distinct single bits, and together they make every bit
/// that names a flag.
pub proof fn lemma_flag_bits()
    ensures
        ShaderFlags::HAS_NORMALS | ShaderFlags::HAS_TANGENTS | ShaderFlags::HAS_UV
            | ShaderFlags::HAS_COLORS | ShaderFlags::USE_IBL | ShaderFlags::HAS_BASECOLORMAP
            | ShaderFlags::HAS_NORMALMAP | ShaderFlags::HAS_EMISSIVEMAP
            | ShaderFlags::HAS_METALROUGHNESSMAP | ShaderFlags::HAS_OCCLUSIONMAP
            | ShaderFlags::USE_TEX_LOD == ShaderFlags::ALL_BITS,
        forall|a: u16, b: u16|
            crate::shader::is_flag(a) && crate::shader::is_flag(b) && a != b ==> #[trigger] (a & b)
                == 0,
{
    assert(1u16 | 2u16 | 4u16 | 8u16 | 16u16 | 32u16 | 64u16 | 128u16 | 256u16 | 512u16 | 1024u16
        == 2047u16) by (bit_vector);
    assert forall|a: u16, b: u16|
        crate::shader::is_flag(a) && crate::shader::is_flag(b) && a != b implies #[trigger] (a & b)
            == 0 by {
        assert((a == 1u16 || a == 2u16 || a == 4u16 || a == 8u16 || a == 16u16 || a == 32u16 || a
            == 64u16 || a == 128u16 || a == 256u16 || a == 512u16 || a == 1024u16) && (b == 1u16
            || b == 2u16 || b == 4u16 || b == 8u16 || b == 16u16 || b == 32u16 || b == 64u16 || b
            == 128u16 || b == 256u16 || b == 512u16 || b == 1024u16) && a != b ==> a & b == 0u16)
            by (bit_vector);
    }
}

} // verus!
