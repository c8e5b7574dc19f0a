use vstd::prelude::*;
use crate::document::{GltfMesh, GltfPrimitive};
use crate::render::material::Material;
use crate::render::primitive::{material_keys, primitive_loadable, primitive_step, Primitive};
use crate::render::root::{RenderState, Root};

verus! {

/// A mesh of the scene graph: its glTF index and its primitives.
#[derive(Clone, Debug)]
pub struct Mesh {
    pub index: usize,
    pub primitives: Vec<Primitive>,
}

/// What the scene graph knows of a mesh: its glTF index and its primitives.
pub type MeshView = (usize, Seq<Primitive>);

impl View for Mesh {
    type V = MeshView;

    open spec fn view(&self) -> MeshView {
        (self.index, self.primitives@)
    }
}

/// What the scene graph knows of each mesh of `meshes`.
pub open spec fn mesh_views(meshes: Seq<Mesh>) -> Seq<MeshView> {
    meshes.map_values(|m: Mesh| m@)
}

/// The state after the first `k` primitives of `prims` are built, in order,
/// from state `st`, and those primitives.
pub open spec fn primitives_step(st: RenderState, prims: Seq<GltfPrimitive>, k: int) -> (
    RenderState,
    Seq<Primitive>,
)
    decreases k,
{
    if k <= 0 {
        (st, Seq::empty())
    } else {
        let (s1, built) = primitives_step(st, prims, k - 1);
        let (s2, p) = primitive_step(s1, prims[k - 1]);
        (s2, built.push(p))
    }
}

/// The state after mesh `g` is built in state `st`, and the mesh.
pub open spec fn mesh_step(st: RenderState, g: GltfMesh) -> (RenderState, MeshView) {
    let (s, built) = primitives_step(st, g.primitives@, g.primitives@.len() as int);
    (s, (g.index, built))
}

/// Every primitive of the mesh can be built where the cached materials are
/// `materials`.
pub open spec fn mesh_loadable(g: GltfMesh, materials: Seq<Material>) -> bool {
    forall|k: int|
        0 <= k < g.primitives@.len() ==> primitive_loadable(#[trigger] g.primitives@[k], materials)
}

/// Building primitives only appends materials, and leaves the meshes alone.
pub proof fn lemma_primitives_step_extends(st: RenderState, prims: Seq<GltfPrimitive>, k: int)
    ensures
        primitives_step(st, prims, k).0.3 == st.3,
        primitives_step(st, prims, k).0.1.len() >= st.1.len(),
        forall|j: int| 0 <= j < st.1.len() ==> primitives_step(st, prims, k).0.1[j] == st.1[j],
    decreases k,
{
    if k > 0 {
        lemma_primitives_step_extends(st, prims, k - 1);
    }
}

/// A material that is cached stays cached.
pub proof fn lemma_keys_kept(before: Seq<Material>, after: Seq<Material>, key: Option<usize>)
    requires
        after.len() >= before.len(),
        forall|j: int| 0 <= j < before.len() ==> after[j] == before[j],
        material_keys(before).contains(key),
    ensures
        material_keys(after).contains(key),
{
    let w = choose|w: int| 0 <= w < material_keys(before).len() && material_keys(before)[w] == key;
    assert(material_keys(after)[w] == key);
}

impl Mesh {
    /// Builds the mesh for `g_mesh`: each of its primitives in order.
    pub fn from_gltf(g_mesh: &GltfMesh, root: &mut Root) -> (res: Mesh)
        requires
            mesh_loadable(*g_mesh, old(root).materials@),
        ensures
            (final(root).state(), res@) == mesh_step(old(root).state(), *g_mesh),
            final(root).nodes == old(root).nodes,
            final(root).camera_nodes == old(root).camera_nodes,
    {
        let ghost st = old(root).state();
        let mut primitives: Vec<Primitive> = Vec::new();
        let mut i: usize = 0;
        while i < g_mesh.primitives.len()
            invariant
                mesh_loadable(*g_mesh, st.1),
                i <= g_mesh.primitives@.len(),
                (root.state(), primitives@) == primitives_step(st, g_mesh.primitives@, i as int),
                root.nodes == old(root).nodes,
                root.camera_nodes == old(root).camera_nodes,
            decreases g_mesh.primitives@.len() - i,
        {
            proof {
                lemma_primitives_step_extends(st, g_mesh.primitives@, i as int);
                let g = g_mesh.primitives@[i as int];
                assert(primitive_loadable(g, st.1));
                if material_keys(st.1).contains(g.material.index) {
                    lemma_keys_kept(st.1, root.materials@, g.material.index);
                }
            }
            let primitive = Primitive::from_gltf(&g_mesh.primitives[i], i, g_mesh.index, root);
            primitives.push(primitive);
            i = i + 1;
        }
        Mesh { index: g_mesh.index, primitives }
    }
}

} // verus!
