use vstd::prelude::*;
use crate::vertex::Mat4Bits;
use crate::assembly::{assemble_vertices, attribute_flags};
use crate::cache::{first_index, lemma_first_index, lemma_first_index_at};
use crate::document::GltfPrimitive;
use crate::gltf_tree::primitive::shaders_with;
use crate::render::material::{material_flags, material_from, material_loadable, textures_after_material, Material};
use crate::render::root::{RenderState, Root};
use crate::shader::{PbrShader, ShaderFlags};
use crate::vertex::Vertex;

verus! {

broadcast use vstd::std_specs::hash::group_hash_axioms;

/// A texture record: its GL id, its kind and the path it was loaded from.
#[derive(Clone, Debug)]
pub struct Texture {
    pub id: u32,
    pub type_: String,
    pub path: String,
}

/// A primitive of the scene graph.
#[derive(Clone, Copy, Debug, PartialEq, Eq, Structural)]
pub struct Primitive {
    /// The number of vertices, truncated to `u32`.
    pub num_vertices: u32,
    /// Whether the primitive is drawn from indices.
    pub indexed: bool,
    /// The number of indices, 0 where the primitive has none.
    pub num_indices: u32,
    /// The position of the material in the root's materials.
    pub material: usize,
    /// The flags of the shader variant, its key in the root's shaders.
    pub pbr_shader: ShaderFlags,
}

/// The draw call that renders a primitive as triangles.
#[derive(Clone, Copy, Debug, PartialEq, Eq, Structural)]
pub enum DrawCall {
    /// Draw `count` indices from the index buffer.
    Elements { count: u32 },
    /// Draw `count` vertices in order.
    Arrays { count: u32 },
}

/// What drawing a primitive does: the shader variant to link, the uniform
/// array that holds the model matrix (bits, column-major), padded with
/// zeros, and the draw call.
#[derive(Clone, Copy, Debug)]
pub struct ShaderSetup {
    pub program: ShaderFlags,
    pub model_matrix: [u32; 30],
    pub draw: DrawCall,
}

/// The draw call for a primitive: an indexed draw of its index count when it
/// has indices, else an array draw of its vertex count.
pub open spec fn draw_call(p: Primitive) -> DrawCall {
    if p.indexed {
        DrawCall::Elements { count: p.num_indices }
    } else {
        DrawCall::Arrays { count: p.num_vertices }
    }
}

/// The glTF indices of the cached materials, in order.
pub open spec fn material_keys(materials: Seq<Material>) -> Seq<Option<usize>> {
    materials.map_values(|m: Material| m.index)
}

/// The number of indices, truncated to `u32`, or 0 where there are none.
pub open spec fn indices_count(indices: Option<Vec<u32>>) -> u32 {
    match indices {
        Some(v) => v@.len() as u32,
        None => 0,
    }
}

/// The state after primitive `g` is built in state `st`, and the primitive:
/// its material is the first cached one with the same glTF index, or a new
/// one (whose textures are loaded) appended; its flags are those of its
/// attributes (normals included) and of its material; its shader variant is
/// cached where it is missing.
pub open spec fn primitive_step(st: RenderState, g: GltfPrimitive) -> (RenderState, Primitive) {
    let keys = material_keys(st.1);
    let slot = first_index(keys, g.material.index);
    let created = slot == keys.len();
    let textures = if created {
        textures_after_material(st.0, g.material)
    } else {
        st.0
    };
    let materials = if created {
        st.1.push(material_from(g.material))
    } else {
        st.1
    };
    let flags = attribute_flags(g, true) | material_flags(materials[slot]);
    (
        (textures, materials, shaders_with(st.2, flags), st.3),
        Primitive {
            num_vertices: g.positions.unwrap()@.len() as u32,
            indexed: g.indices is Some,
            num_indices: indices_count(g.indices),
            material: slot as usize,
            pbr_shader: ShaderFlags { bits: flags },
        },
    )
}

/// A primitive can be built in a state whose materials are `materials`: it
/// has positions and its copied attributes fit in the vertices, and its
/// material is cached or has only textures of coordinate set 0.
pub open spec fn primitive_loadable(g: GltfPrimitive, materials: Seq<Material>) -> bool {
    &&& g.attributes_fit(true)
    &&& material_keys(materials).contains(g.material.index) || material_loadable(g.material)
}

/// The uniform array for a model matrix: its 16 components, column by
/// column, then zeros.
pub open spec fn uniform_array(model_matrix: Mat4Bits) -> Seq<u32> {
    Seq::new(
        30,
        |k: int|
            if k < 16 {
                model_matrix@[k / 4]@[k % 4]
            } else {
                0u32
            },
    )
}

/// The position of the first cached material with glTF index `index`.
fn find_material(materials: &Vec<Material>, index: Option<usize>) -> (res: Option<usize>)
    ensures
        match res {
            Some(k) => k == first_index(material_keys(materials@), index) && k < materials@.len(),
            None => first_index(material_keys(materials@), index) == materials@.len(),
        },
{
    let ghost keys = material_keys(materials@);
    let mut k: usize = 0;
    while k < materials.len()
        invariant
            k <= materials@.len(),
            keys == material_keys(materials@),
            forall|j: int| 0 <= j < k ==> keys[j] != index,
        decreases materials@.len() - k,
    {
        let same = match (materials[k].index, index) {
            (Some(x), Some(y)) => x == y,
            (None, None) => true,
            _ => false,
        };
        if same {
            proof {
                lemma_first_index_at(keys, index, k as int);
            }
            return Some(k);
        }
        k = k + 1;
    }
    proof {
        lemma_first_index(keys, index);
        if keys.contains(index) {
            let w = choose|w: int| 0 <= w < keys.len() && keys[w] == index;
            assert(keys[w] != index);
        }
    }
    None
}

/// A copy of optional indices.
fn copy_indices(indices: &Option<Vec<u32>>) -> (res: Option<Vec<u32>>)
    ensures
        indices_count(res) == indices_count(*indices),
        res is Some <==> indices is Some,
        res matches Some(v) ==> v@ == indices.unwrap()@,
{
    match indices {
        Some(v) => {
            let c = v.clone();
            assert(c@ =~= v@);
            Some(c)
        },
        None => None,
    }
}

impl Primitive {
    /// The primitive drawn from `vertices` and `indices` with `material` and
    /// `shader`.
    pub fn new(vertices: &[Vertex], indices: Option<Vec<u32>>, material: usize, shader: ShaderFlags) -> (res: Primitive)
        ensures
            res == (Primitive {
                num_vertices: vertices@.len() as u32,
                indexed: indices is Some,
                num_indices: indices_count(indices),
                material,
                pbr_shader: shader,
            }),
    {
        let num_indices: usize = match &indices {
            Some(i) => i.len(),
            None => 0,
        };
        Primitive {
            num_vertices: vertices.len() as u32,
            indexed: indices.is_some(),
            num_indices: num_indices as u32,
            material,
            pbr_shader: shader,
        }
    }

    /// Builds the primitive for `g_primitive`, the `primitive_index`-th
    /// primitive of mesh `mesh_index`.
    pub fn from_gltf(g_primitive: &GltfPrimitive, primitive_index: usize, mesh_index: usize, root: &mut Root) -> (res: Primitive)
        requires
            primitive_loadable(*g_primitive, old(root).materials@),
        ensures
            (final(root).state(), res) == primitive_step(old(root).state(), *g_primitive),
            final(root).nodes == old(root).nodes,
            final(root).camera_nodes == old(root).camera_nodes,
    {
        let ghost st = old(root).state();
        let ghost keys = material_keys(st.1);
        let (vertices, mut shader_flags) = assemble_vertices(g_primitive, true);
        let indices = copy_indices(&g_primitive.indices);
        let g_material = &g_primitive.material;

        let material = match find_material(&root.materials, g_material.index) {
            Some(k) => k,
            None => {
                proof {
                    lemma_first_index(keys, g_material.index);
                }
                let mat = Material::from_gltf(g_material, root);
                root.materials.push(mat);
                root.materials.len() - 1
            },
        };
        let ghost materials = root.materials@;
        shader_flags.insert(root.materials[material].shader_flags());

        if !root.shaders.contains_key(&shader_flags.bits) {
            root.shaders.insert(shader_flags.bits, PbrShader::new(shader_flags));
        }
        let res = Primitive::new(vertices.as_slice(), indices, material, shader_flags);
        assert(root.state().1 =~= primitive_step(st, *g_primitive).0.1);
        assert(root.state().3 =~= st.3);
        res
    }

    /// Renders the primitive with `model_matrix`: the shader variant to link,
    /// the uniform array of the model matrix, and an indexed draw of the
    /// index count when the primitive has indices, else an array draw of its
    /// vertex count.
    pub fn draw(&self, model_matrix: Mat4Bits) -> (res: ShaderSetup)
        ensures
            res.program == self.pbr_shader,
            res.model_matrix@ == uniform_array(model_matrix),
            res.draw == draw_call(*self),
    {
        let setup = self.configure_shader(model_matrix);
        let draw = if self.indexed {
            DrawCall::Elements { count: self.num_indices }
        } else {
            DrawCall::Arrays { count: self.num_vertices }
        };
        ShaderSetup { program: setup.0, model_matrix: setup.1, draw }
    }

    fn configure_shader(&self, model_matrix: Mat4Bits) -> (res: (ShaderFlags, [u32; 30]))
        ensures
            res.0 == self.pbr_shader,
            res.1@ == uniform_array(model_matrix),
    {
        let mut arr: [u32; 30] = [0; 30];
        let mut kdx: usize = 0;
        let mut idx: usize = 0;
        while idx < 4
            invariant
                idx <= 4,
                kdx == 4 * idx,
                forall|k: int| 0 <= k < kdx ==> arr@[k] == model_matrix@[k / 4]@[k % 4],
                forall|k: int| kdx <= k < 30 ==> arr@[k] == 0,
            decreases 4 - idx,
        {
            let mut jdx: usize = 0;
            while jdx < 4
                invariant
                    idx < 4,
                    jdx <= 4,
                    kdx == 4 * idx + jdx,
                    forall|k: int| 0 <= k < kdx ==> arr@[k] == model_matrix@[k / 4]@[k % 4],
                    forall|k: int| kdx <= k < 30 ==> arr@[k] == 0,
                decreases 4 - jdx,
            {
                arr[kdx] = model_matrix[idx][jdx];
                kdx = kdx + 1;
                jdx = jdx + 1;
            }
            idx = idx + 1;
        }
        assert(arr@ =~= uniform_array(model_matrix));
        (self.pbr_shader, arr)
    }
}

} // verus!
