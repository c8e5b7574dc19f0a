use vstd::prelude::*;
use crate::vertex::Mat4Bits;
use crate::assembly::{assemble_vertices, assembled_vertex, attribute_flags};
use crate::document::GltfPrimitive;
use crate::gltf_tree::material::{create_material, created_material, material_flags, shader_flags, Material};
use crate::gltf_tree::root::Root;
use crate::shader::{PbrShader, PbrUniformLocations, ShaderFlags};
use crate::vertex::Vertex;

verus! {

broadcast use vstd::std_specs::hash::group_hash_axioms;

/// What the scene graph knows of the state that building primitives changes:
/// the cached materials and the cached shader variants, by their flags' bits.
pub type TreeState = (Seq<Material>, Map<u16, PbrShader>);

/// The contents of the vertex, normal and index buffers of a primitive.
#[derive(Clone, Debug)]
pub struct DrawBuffers {
    /// The positions, three components per vertex.
    pub positions: Vec<u32>,
    /// The normals, three components per vertex.
    pub normals: Vec<u32>,
    pub indices: Vec<u32>,
}

/// A primitive of the scene graph.
#[derive(Clone, Debug)]
pub struct Primitive {
    pub num_vertices: u32,
    pub num_indices: u32,
    /// The position of the material in the root's materials.
    pub material: usize,
    /// The flags of the shader variant, its key in the root's shaders.
    pub pbr_shader: ShaderFlags,
    /// The buffer contents the primitive is drawn from.
    pub buffers: DrawBuffers,
}

/// The positions of `vertices`, three components per vertex.
pub open spec fn flat_positions(vertices: Seq<Vertex>) -> Seq<u32> {
    Seq::new(3 * vertices.len(), |j: int| vertices[j / 3].position@[j % 3])
}

/// The normals of `vertices`, three components per vertex.
pub open spec fn flat_normals(vertices: Seq<Vertex>) -> Seq<u32> {
    Seq::new(3 * vertices.len(), |j: int| vertices[j / 3].normal@[j % 3])
}

/// The buffer contents for `vertices` and `indices`: positions and normals
/// laid out three components per vertex.
pub fn prepare_draw(vertices: &[Vertex], indices: Option<Vec<u32>>) -> (res: DrawBuffers)
    requires
        indices is Some,
        3 * vertices@.len() <= usize::MAX,
    ensures
        res.positions@ == flat_positions(vertices@),
        res.normals@ == flat_normals(vertices@),
        res.indices@ == indices.unwrap()@,
{
    let mut vertices_positions: Vec<u32> = Vec::new();
    let mut normals: Vec<u32> = Vec::new();
    let mut i: usize = 0;
    while i < vertices.len()
        invariant
            i <= vertices@.len(),
            3 * vertices@.len() <= usize::MAX,
            vertices_positions@.len() == 3 * i,
            normals@.len() == 3 * i,
            forall|j: int|
                0 <= j < 3 * i ==> #[trigger] vertices_positions@[j] == vertices@[j / 3].position@[j
                    % 3],
            forall|j: int|
                0 <= j < 3 * i ==> #[trigger] normals@[j] == vertices@[j / 3].normal@[j % 3],
        decreases vertices@.len() - i,
    {
        let vertex = vertices[i];
        vertices_positions.push(vertex.position[0]);
        vertices_positions.push(vertex.position[1]);
        vertices_positions.push(vertex.position[2]);
        normals.push(vertex.normal[0]);
        normals.push(vertex.normal[1]);
        normals.push(vertex.normal[2]);
        i = i + 1;
    }
    assert(vertices_positions@ =~= flat_positions(vertices@));
    assert(normals@ =~= flat_normals(vertices@));
    DrawBuffers { positions: vertices_positions, normals, indices: indices.unwrap() }
}

/// Position `k` of `materials` is the first material with glTF index `index`.
pub open spec fn is_first_match(materials: Seq<Material>, index: Option<usize>, k: int) -> bool {
    &&& 0 <= k < materials.len()
    &&& materials[k].index == index
    &&& forall|j: int| 0 <= j < k ==> #[trigger] materials[j].index != index
}

/// Some material of `materials` has glTF index `index`.
pub open spec fn has_match(materials: Seq<Material>, index: Option<usize>) -> bool {
    exists|k: int| 0 <= k < materials.len() && #[trigger] materials[k].index == index
}

/// The position of the first material with glTF index `index`, or the length
/// of `materials` where there is none (where a new material is appended).
pub open spec fn material_slot(materials: Seq<Material>, index: Option<usize>) -> int {
    if has_match(materials, index) {
        choose|k: int| is_first_match(materials, index, k)
    } else {
        materials.len() as int
    }
}

/// The first match is unique.
pub proof fn lemma_first_match_unique(materials: Seq<Material>, index: Option<usize>, k: int)
    requires
        is_first_match(materials, index, k),
    ensures
        has_match(materials, index),
        material_slot(materials, index) == k,
{
    assert(materials[k].index == index);
    let c = choose|c: int| is_first_match(materials, index, c);
    assert(is_first_match(materials, index, c));
    if c < k {
        assert(materials[c].index != index);
    }
    if k < c {
        assert(materials[k].index != index);
    }
}

/// A material with glTF index `index` at or before position `w` makes a
/// first match.
pub proof fn lemma_first_match_exists(materials: Seq<Material>, index: Option<usize>, w: int)
    requires
        0 <= w < materials.len(),
        materials[w].index == index,
    ensures
        exists|k: int| is_first_match(materials, index, k),
    decreases w,
{
    if exists|j: int| 0 <= j < w && #[trigger] materials[j].index == index {
        let j = choose|j: int| 0 <= j < w && #[trigger] materials[j].index == index;
        lemma_first_match_exists(materials, index, j);
    } else {
        assert(is_first_match(materials, index, w));
    }
}

/// Where there is a match, the slot is the first match.
pub proof fn lemma_slot_is_first_match(materials: Seq<Material>, index: Option<usize>)
    requires
        has_match(materials, index),
    ensures
        is_first_match(materials, index, material_slot(materials, index)),
{
    let w = choose|w: int| 0 <= w < materials.len() && #[trigger] materials[w].index == index;
    lemma_first_match_exists(materials, index, w);
}

/// The materials after a primitive with material index `index` is built:
/// unchanged where a material with that index is cached, else with the
/// created material appended.
pub open spec fn materials_after(materials: Seq<Material>, index: Option<usize>) -> Seq<Material> {
    if has_match(materials, index) {
        materials
    } else {
        materials.push(created_material())
    }
}

/// The shader flags of primitive `g` built in state `st`: those of its
/// attributes and those of its material.
pub open spec fn primitive_flags(st: TreeState, g: GltfPrimitive) -> u16 {
    let materials = materials_after(st.0, g.material.index);
    attribute_flags(g, false) | material_flags(
        materials[material_slot(st.0, g.material.index)],
    )
}

/// The shader cache with the variant for `flags` added where it is missing.
pub open spec fn shaders_with(shaders: Map<u16, PbrShader>, flags: u16) -> Map<u16, PbrShader> {
    if shaders.contains_key(flags) {
        shaders
    } else {
        shaders.insert(
            flags,
            PbrShader { flags: ShaderFlags { bits: flags }, uniform_locations: PbrUniformLocations {  } },
        )
    }
}

/// The state after primitive `g` is built in state `st`.
pub open spec fn state_after_primitive(st: TreeState, g: GltfPrimitive) -> TreeState {
    (materials_after(st.0, g.material.index), shaders_with(st.1, primitive_flags(st, g)))
}

/// The vertices of primitive `g` (normals are not copied).
pub open spec fn primitive_vertices(g: GltfPrimitive) -> Seq<Vertex> {
    Seq::new(g.vertex_count() as nat, |i: int| assembled_vertex(g, i, false))
}

/// `p` is the primitive built from `g` in state `st`.
pub open spec fn primitive_matches(st: TreeState, g: GltfPrimitive, p: Primitive) -> bool {
    &&& p.num_vertices == 10
    &&& p.num_indices == 10
    &&& p.material == material_slot(st.0, g.material.index)
    &&& p.pbr_shader.bits == primitive_flags(st, g)
    &&& p.buffers.positions@ == flat_positions(primitive_vertices(g))
    &&& p.buffers.normals@ == flat_normals(primitive_vertices(g))
    &&& p.buffers.indices@ == g.indices.unwrap()@
}

/// A primitive can be built: it has positions, every attribute that is copied
/// fits in the vertices, it has indices, and its buffers fit in memory.
pub open spec fn primitive_buildable(g: GltfPrimitive) -> bool {
    &&& g.attributes_fit(false)
    &&& g.indices is Some
    &&& 3 * g.vertex_count() <= usize::MAX
}

/// Whether primitive `g` can be built.
pub fn check_primitive_buildable(g: &GltfPrimitive) -> (res: bool)
    ensures
        res == primitive_buildable(*g),
{
    g.check_attributes_fit(false) && g.indices.is_some() && g.positions.as_ref().unwrap().len()
        <= usize::MAX / 3
}

/// A copy of `indices`.
fn copy_indices(indices: &Vec<u32>) -> (res: Vec<u32>)
    ensures
        res@ == indices@,
{
    let res = indices.clone();
    assert(res@ =~= indices@);
    res
}

/// Whether two optional glTF indices are equal.
fn same_index(a: Option<usize>, b: Option<usize>) -> (res: bool)
    ensures
        res == (a == b),
{
    match (a, b) {
        (Some(x), Some(y)) => x == y,
        (None, None) => true,
        _ => false,
    }
}

/// The position of the first material of `materials` with glTF index `index`.
pub fn find_material(materials: &Vec<Material>, index: Option<usize>) -> (res: Option<usize>)
    ensures
        match res {
            Some(k) => is_first_match(materials@, index, k as int),
            None => !has_match(materials@, index),
        },
{
    let mut k: usize = 0;
    while k < materials.len()
        invariant
            k <= materials@.len(),
            forall|j: int| 0 <= j < k ==> #[trigger] materials@[j].index != index,
        decreases materials@.len() - k,
    {
        if same_index(materials[k].index, index) {
            return Some(k);
        }
        k = k + 1;
    }
    None
}

/// Builds the primitive for `g_primitive`, the `i`-th primitive of mesh
/// `idx`: assembles its vertices (normals are not copied) and buffers, finds
/// its material among the root's materials or creates and caches one, and
/// finds the shader variant for its flags or caches a new one.
pub fn create_primitive(root: &mut Root, g_primitive: &GltfPrimitive, i: usize, idx: usize) -> (res:
    Primitive)
    requires
        primitive_buildable(*g_primitive),
    ensures
        primitive_matches(old(root).state(), *g_primitive, res),
        final(root).state() == state_after_primitive(old(root).state(), *g_primitive),
        final(root).nodes == old(root).nodes,
        final(root).meshes == old(root).meshes,
{
    let ghost st = old(root).state();
    let (vertices, mut flags) = assemble_vertices(g_primitive, false);
    let g_material = &g_primitive.material;

    let material_index = match find_material(&root.materials, g_material.index) {
        Some(k) => {
            proof {
                lemma_first_match_unique(st.0, g_material.index, k as int);
            }
            k
        },
        None => {
            let created = create_material(g_material, root);
            root.materials.push(created);
            root.materials.len() - 1
        },
    };
    assert(root.materials@ == materials_after(st.0, g_material.index));
    let material_flags = shader_flags(&root.materials[material_index]);
    flags.insert(material_flags);

    if !root.shaders.contains_key(&flags.bits) {
        root.shaders.insert(flags.bits, PbrShader::new(flags));
    }
    assert(root.shaders@ == shaders_with(st.1, primitive_flags(st, *g_primitive)));

    let buffers = prepare_draw(vertices.as_slice(), Some(copy_indices(g_primitive.indices.as_ref().unwrap())));
    assert(vertices@ =~= primitive_vertices(*g_primitive));
    Primitive { num_vertices: 10, num_indices: 10, material: material_index, pbr_shader: flags, buffers }
}

/// One primitive to draw: its material, its shader variant and the model
/// matrix (bits, column-major) of the node it belongs to.
#[derive(Clone, Copy, Debug)]
pub struct DrawCommand {
    pub material: usize,
    pub pbr_shader: ShaderFlags,
    pub model_matrix: Mat4Bits,
}

/// The command that draws `p` with `model_matrix`.
pub open spec fn primitive_command(p: Primitive, model_matrix: Mat4Bits) -> DrawCommand {
    DrawCommand { material: p.material, pbr_shader: p.pbr_shader, model_matrix }
}

/// The command that draws `primitive` with `model_matrix`.
pub fn draw_primitive(primitive: &Primitive, model_matrix: Mat4Bits) -> (res: DrawCommand)
    ensures
        res == primitive_command(*primitive, model_matrix),
{
    DrawCommand { material: primitive.material, pbr_shader: primitive.pbr_shader, model_matrix }
}

} // verus!
