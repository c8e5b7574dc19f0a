use vstd::prelude::*;
use crate::vertex::Mat4Bits;
use crate::document::{GltfMesh, GltfPrimitive};
use crate::gltf_tree::primitive::{
    check_primitive_buildable, create_primitive, draw_primitive, primitive_buildable, primitive_command, primitive_matches,
    state_after_primitive, DrawCommand, Primitive, TreeState,
};
use crate::gltf_tree::root::Root;

verus! {

/// A mesh of the scene graph.
#[derive(Clone, Debug)]
pub struct Mesh {
    pub index: usize,
    pub primitives: Vec<Primitive>,
}

/// The state after the first `k` primitives of `prims` are built, in order,
/// from state `st`.
pub open spec fn state_after_primitives(st: TreeState, prims: Seq<GltfPrimitive>, k: int) -> TreeState
    decreases k,
{
    if k <= 0 {
        st
    } else {
        state_after_primitive(state_after_primitives(st, prims, k - 1), prims[k - 1])
    }
}

/// Every primitive of the mesh can be built.
pub open spec fn mesh_buildable(g: GltfMesh) -> bool {
    forall|k: int| 0 <= k < g.primitives@.len() ==> primitive_buildable(#[trigger] g.primitives@[k])
}

/// Whether every primitive of mesh `g` can be built.
pub fn check_mesh_buildable(g: &GltfMesh) -> (res: bool)
    ensures
        res == mesh_buildable(*g),
{
    let mut k: usize = 0;
    while k < g.primitives.len()
        invariant
            k <= g.primitives@.len(),
            forall|j: int| 0 <= j < k ==> primitive_buildable(#[trigger] g.primitives@[j]),
        decreases g.primitives@.len() - k,
    {
        if !check_primitive_buildable(&g.primitives[k]) {
            return false;
        }
        k = k + 1;
    }
    true
}

/// `m` is the mesh built from `g` in state `st`: its index is 0, and its
/// primitives are built in order, each in the state the previous ones left.
pub open spec fn mesh_matches(st: TreeState, g: GltfMesh, m: Mesh) -> bool {
    &&& m.index == 0
    &&& m.primitives@.len() == g.primitives@.len()
    &&& forall|k: int|
        0 <= k < g.primitives@.len() ==> primitive_matches(
            state_after_primitives(st, g.primitives@, k),
            g.primitives@[k],
            #[trigger] m.primitives@[k],
        )
}

/// The state after mesh `g` is built in state `st`.
pub open spec fn state_after_mesh(st: TreeState, g: GltfMesh) -> TreeState {
    state_after_primitives(st, g.primitives@, g.primitives@.len() as int)
}

/// Builds the mesh for `g_mesh`: each of its primitives in order.
pub fn create_mesh(root: &mut Root, g_mesh: &GltfMesh) -> (res: Mesh)
    requires
        mesh_buildable(*g_mesh),
    ensures
        mesh_matches(old(root).state(), *g_mesh, res),
        final(root).state() == state_after_mesh(old(root).state(), *g_mesh),
        final(root).nodes == old(root).nodes,
        final(root).meshes == old(root).meshes,
{
    let ghost st = old(root).state();
    let mut primitives: Vec<Primitive> = Vec::new();
    let mut i: usize = 0;
    while i < g_mesh.primitives.len()
        invariant
            mesh_buildable(*g_mesh),
            i <= g_mesh.primitives@.len(),
            primitives@.len() == i,
            root.state() == state_after_primitives(st, g_mesh.primitives@, i as int),
            root.nodes == old(root).nodes,
            root.meshes == old(root).meshes,
            forall|k: int|
                0 <= k < i ==> primitive_matches(
                    state_after_primitives(st, g_mesh.primitives@, k),
                    g_mesh.primitives@[k],
                    #[trigger] primitives@[k],
                ),
        decreases g_mesh.primitives@.len() - i,
    {
        let primitive = create_primitive(root, &g_mesh.primitives[i], i, g_mesh.index);
        primitives.push(primitive);
        i = i + 1;
    }
    Mesh { index: 0, primitives }
}

/// The commands that draw each primitive of `mesh`, in order, with
/// `model_matrix`.
pub open spec fn mesh_commands(mesh: Mesh, model_matrix: Mat4Bits) -> Seq<DrawCommand> {
    Seq::new(
        mesh.primitives@.len(),
        |k: int| primitive_command(mesh.primitives@[k], model_matrix),
    )
}

/// The commands that draw each primitive of `mesh`, in order, with
/// `model_matrix`.
pub fn draw_mesh(mesh: &Mesh, model_matrix: Mat4Bits) -> (res: Vec<DrawCommand>)
    ensures
        res@ == mesh_commands(*mesh, model_matrix),
{
    let mut res: Vec<DrawCommand> = Vec::new();
    let mut k: usize = 0;
    while k < mesh.primitives.len()
        invariant
            k <= mesh.primitives@.len(),
            res@ =~= mesh_commands(*mesh, model_matrix).take(k as int),
        decreases mesh.primitives@.len() - k,
    {
        res.push(draw_primitive(&mesh.primitives[k], model_matrix));
        k = k + 1;
    }
    assert(res@ =~= mesh_commands(*mesh, model_matrix));
    res
}

} // verus!
