use vstd::prelude::*;
use crate::document::GltfDocument;
use crate::gltf_tree::mesh::{
    check_mesh_buildable, create_mesh, draw_mesh, mesh_buildable, mesh_commands, mesh_matches, state_after_mesh, Mesh,
};
use crate::gltf_tree::primitive::DrawCommand;
use crate::gltf_tree::primitive::TreeState;
use crate::gltf_tree::root::Root;
use crate::vertex::{identity_bits, identity_matrix, Mat4Bits};

verus! {

/// A node of the scene graph, owning its children.
#[derive(Debug)]
pub struct Node {
    /// The glTF index.
    pub index: usize,
    pub children: Vec<Node>,
    /// The local transform, column-major.
    pub matrix: Mat4Bits,
    pub mesh: Option<Mesh>,
    /// The rotation quaternion in the order `w, x, y, z`.
    pub rotation: [u32; 4],
    pub translation: [u32; 3],
    /// The glTF index of the camera.
    pub camera: Option<usize>,
    pub name: Option<String>,
    /// The transform including the parents' transforms, column-major.
    pub final_transform: Mat4Bits,
}

/// A glTF rotation `x, y, z, w` reordered to `w, x, y, z`.
pub open spec fn wxyz(r: [u32; 4]) -> [u32; 4] {
    [r@[3], r@[0], r@[1], r@[2]]
}

/// Node `i` and every node below it can be built: each is in bounds, has
/// valid references and a mesh whose primitives can be built, and no path
/// down the children visits `fuel` nodes (so the nodes below form a tree).
pub open spec fn node_buildable(doc: GltfDocument, i: int, fuel: nat) -> bool
    decreases fuel,
{
    &&& fuel > 0
    &&& 0 <= i < doc.nodes@.len()
    &&& doc.node_refs_valid(i)
    &&& doc.nodes@[i].mesh matches Some(m) ==> mesh_buildable(doc.meshes@[m as int])
    &&& forall|k: int|
        0 <= k < doc.nodes@[i].children@.len() ==> node_buildable(
            doc,
            #[trigger] doc.nodes@[i].children@[k] as int,
            (fuel - 1) as nat,
        )
}

/// Whether node `i` and every node below it can be built within `fuel`
/// levels.
pub fn check_node_buildable(doc: &GltfDocument, i: usize, fuel: usize) -> (res: bool)
    ensures
        res == node_buildable(*doc, i as int, fuel as nat),
    decreases fuel,
{
    if fuel == 0 || i >= doc.nodes.len() {
        return false;
    }
    let node = &doc.nodes[i];
    let mut k: usize = 0;
    while k < node.children.len()
        invariant
            k <= node.children@.len(),
            *node == doc.nodes@[i as int],
            forall|j: int| 0 <= j < k ==> #[trigger] node.children@[j] < doc.nodes@.len(),
        decreases node.children@.len() - k,
    {
        if node.children[k] >= doc.nodes.len() {
            return false;
        }
        k = k + 1;
    }
    if let Some(m) = node.mesh {
        if m >= doc.meshes.len() || !check_mesh_buildable(&doc.meshes[m]) {
            return false;
        }
    }
    let mut k: usize = 0;
    while k < node.children.len()
        invariant
            0 < fuel,
            i < doc.nodes@.len(),
            k <= node.children@.len(),
            *node == doc.nodes@[i as int],
            forall|j: int|
                0 <= j < k ==> node_buildable(
                    *doc,
                    #[trigger] node.children@[j] as int,
                    (fuel - 1) as nat,
                ),
        decreases node.children@.len() - k,
    {
        if !check_node_buildable(doc, node.children[k], fuel - 1) {
            return false;
        }
        k = k + 1;
    }
    true
}

/// The state after the mesh of node `i`, if any, is built in state `st`.
pub open spec fn state_after_own_mesh(doc: GltfDocument, i: int, st: TreeState) -> TreeState {
    match doc.nodes@[i].mesh {
        Some(m) => state_after_mesh(st, doc.meshes@[m as int]),
        None => st,
    }
}

/// The state after node `i` is built in state `st`: its mesh first, then its
/// children in order.
pub open spec fn state_after_node(doc: GltfDocument, i: int, fuel: nat, st: TreeState) -> TreeState
    decreases fuel, 1int, 0int,
{
    if fuel == 0 || !(0 <= i < doc.nodes@.len()) {
        st
    } else {
        state_after_children(
            doc,
            doc.nodes@[i].children@,
            doc.nodes@[i].children@.len() as int,
            fuel,
            state_after_own_mesh(doc, i, st),
        )
    }
}

/// The state after the first `k` of the children `cs` of a node built with
/// `fuel` are built, in order, from state `st`.
pub open spec fn state_after_children(
    doc: GltfDocument,
    cs: Seq<usize>,
    k: int,
    fuel: nat,
    st: TreeState,
) -> TreeState
    decreases fuel, 0int, k,
{
    if k <= 0 || fuel == 0 {
        st
    } else {
        state_after_node(
            doc,
            cs[k - 1] as int,
            (fuel - 1) as nat,
            state_after_children(doc, cs, k - 1, fuel, st),
        )
    }
}

/// `n` is the node built from glTF node `i` in state `st`: its fields come
/// from the glTF node (the rotation reordered to `w, x, y, z`), its final
/// transform is the identity, its mesh is built first, then its children in
/// order, each in the state the previous ones left.
pub open spec fn node_matches(doc: GltfDocument, i: int, fuel: nat, st: TreeState, n: Node) -> bool
    decreases fuel,
{
    let g = doc.nodes@[i];
    &&& fuel > 0
    &&& 0 <= i < doc.nodes@.len()
    &&& n.index == g.index
    &&& n.matrix == g.matrix
    &&& n.rotation == wxyz(g.rotation)
    &&& n.translation == g.translation
    &&& n.camera == g.camera
    &&& n.name == g.name
    &&& n.final_transform == identity_bits()
    &&& match g.mesh {
        Some(m) => n.mesh matches Some(mesh) && mesh_matches(st, doc.meshes@[m as int], mesh),
        None => n.mesh is None,
    }
    &&& n.children@.len() == g.children@.len()
    &&& forall|k: int|
        0 <= k < g.children@.len() ==> node_matches(
            doc,
            g.children@[k] as int,
            (fuel - 1) as nat,
            state_after_children(doc, g.children@, k, fuel, state_after_own_mesh(doc, i, st)),
            #[trigger] n.children@[k],
        )
}

/// A node of the scene graph keeps what the glTF node gives it: its index,
/// its local matrix element by element (column `c`, row `r`, column-major as
/// given), its translation, its rotation reordered from `x, y, z, w` to
/// `w, x, y, z`, its camera and name, one child per glTF child, a mesh exactly
/// where the glTF node has one, and the identity as final transform.
pub proof fn lemma_tree_node_keeps_gltf_fields(
    doc: GltfDocument,
    i: int,
    fuel: nat,
    st: TreeState,
    n: Node,
)
    requires
        node_matches(doc, i, fuel, st, n),
    ensures
        0 <= i < doc.nodes@.len(),
        n.index == doc.nodes@[i].index,
        forall|c: int, r: int|
            0 <= c < 4 && 0 <= r < 4 ==> #[trigger] n.matrix@[c]@[r] == doc.nodes@[i].matrix@[c]@[r],
        n.translation == doc.nodes@[i].translation,
        n.rotation@[0] == doc.nodes@[i].rotation@[3],
        n.rotation@[1] == doc.nodes@[i].rotation@[0],
        n.rotation@[2] == doc.nodes@[i].rotation@[1],
        n.rotation@[3] == doc.nodes@[i].rotation@[2],
        n.camera == doc.nodes@[i].camera,
        n.name == doc.nodes@[i].name,
        n.children@.len() == doc.nodes@[i].children@.len(),
        (n.mesh is Some) == (doc.nodes@[i].mesh is Some),
        forall|c: int, r: int|
            0 <= c < 4 && 0 <= r < 4 ==> #[trigger] n.final_transform@[c]@[r] == (if c == r {
                crate::vertex::ONE_BITS
            } else {
                0u32
            }),
{
}

/// A copy of an optional name.
pub fn copy_name(name: &Option<String>) -> (res: Option<String>)
    ensures
        res == *name,
{
    match name {
        Some(s) => Some(s.clone()),
        None => None,
    }
}

/// Builds node `i` with at most `fuel` levels below it.
fn build_node(doc: &GltfDocument, i: usize, fuel: usize, root: &mut Root) -> (res: Node)
    requires
        node_buildable(*doc, i as int, fuel as nat),
    ensures
        node_matches(*doc, i as int, fuel as nat, old(root).state(), res),
        final(root).state() == state_after_node(*doc, i as int, fuel as nat, old(root).state()),
        final(root).nodes == old(root).nodes,
        final(root).meshes == old(root).meshes,
    decreases fuel,
{
    let ghost st = old(root).state();
    let g_node = &doc.nodes[i];
    let matrix = g_node.matrix;
    let r = g_node.rotation;
    let rotation: [u32; 4] = [r[3], r[0], r[1], r[2]];
    let mut mesh: Option<Mesh> = None;
    if let Some(m) = g_node.mesh {
        mesh = Some(create_mesh(root, &doc.meshes[m]));
    }
    let ghost after_mesh = root.state();
    assert(after_mesh == state_after_own_mesh(*doc, i as int, st));

    let mut children: Vec<Node> = Vec::new();
    let mut k: usize = 0;
    while k < g_node.children.len()
        invariant
            node_buildable(*doc, i as int, fuel as nat),
            g_node == doc.nodes@[i as int],
            k <= g_node.children@.len(),
            children@.len() == k,
            root.state() == state_after_children(
                *doc,
                g_node.children@,
                k as int,
                fuel as nat,
                after_mesh,
            ),
            root.nodes == old(root).nodes,
            root.meshes == old(root).meshes,
            forall|j: int|
                0 <= j < k ==> node_matches(
                    *doc,
                    g_node.children@[j] as int,
                    (fuel - 1) as nat,
                    state_after_children(*doc, g_node.children@, j, fuel as nat, after_mesh),
                    #[trigger] children@[j],
                ),
        decreases g_node.children@.len() - k,
    {
        let child = build_node(doc, g_node.children[k], fuel - 1, root);
        children.push(child);
        k = k + 1;
    }
    Node {
        index: g_node.index,
        children,
        matrix,
        mesh,
        rotation,
        translation: g_node.translation,
        camera: g_node.camera,
        final_transform: identity_matrix(),
        name: copy_name(&g_node.name),
    }
}

/// Builds the node for glTF node `index`: its mesh (always a new one) and,
/// recursively, its children.
pub fn create_node(doc: &GltfDocument, index: usize, root: &mut Root) -> (res: Node)
    requires
        node_buildable(*doc, index as int, doc.nodes@.len()),
    ensures
        node_matches(*doc, index as int, doc.nodes@.len(), old(root).state(), res),
        final(root).state() == state_after_node(
            *doc,
            index as int,
            doc.nodes@.len(),
            old(root).state(),
        ),
        final(root).nodes == old(root).nodes,
        final(root).meshes == old(root).meshes,
        res.index == doc.nodes@[index as int].index,
        res.matrix == doc.nodes@[index as int].matrix,
        res.translation == doc.nodes@[index as int].translation,
        res.children@.len() == doc.nodes@[index as int].children@.len(),
{
    let res = build_node(doc, index, doc.nodes.len(), root);
    proof {
        lemma_tree_node_keeps_gltf_fields(*doc, index as int, doc.nodes@.len(), old(root).state(), res);
        assert(res.matrix =~= doc.nodes@[index as int].matrix) by {
            assert forall|c: int| 0 <= c < 4 implies res.matrix@[c] =~= doc.nodes@[index as int].matrix@[c] by {
                assert forall|r: int| 0 <= r < 4 implies res.matrix@[c]@[r] == doc.nodes@[index as int].matrix@[c]@[r] by {}
            }
        }
    }
    res
}

/// The commands that draw the node and everything below it: the primitives
/// of its mesh with its final transform, then those of each child in order.
pub open spec fn node_commands(node: Node) -> Seq<DrawCommand>
    decreases node, 1int,
{
    let own = match node.mesh {
        Some(mesh) => mesh_commands(mesh, node.final_transform),
        None => Seq::empty(),
    };
    own + children_commands(node.children@, node.children@.len() as int)
}

/// The commands that draw the first `k` nodes of `children` and everything
/// below them.
pub open spec fn children_commands(children: Seq<Node>, k: int) -> Seq<DrawCommand>
    decreases children, k,
{
    if k <= 0 || k > children.len() {
        Seq::empty()
    } else {
        children_commands(children, k - 1) + node_commands(children[k - 1])
    }
}


/// The number of primitives in the meshes of `node` and of every node below
/// it.
pub open spec fn subtree_primitives(node: Node) -> nat
    decreases node, 1int,
{
    let own: nat = match node.mesh {
        Some(mesh) => mesh.primitives@.len(),
        None => 0,
    };
    own + children_primitives(node.children@, node.children@.len() as int)
}

/// The number of primitives below the first `k` nodes of `children`, each
/// with its whole subtree.
pub open spec fn children_primitives(children: Seq<Node>, k: int) -> nat
    decreases children, k,
{
    if k <= 0 || k > children.len() {
        0
    } else {
        children_primitives(children, k - 1) + subtree_primitives(children[k - 1])
    }
}

/// The number of primitives of the node's own mesh.
pub open spec fn own_primitives(node: Node) -> nat {
    match node.mesh {
        Some(mesh) => mesh.primitives@.len(),
        None => 0,
    }
}

/// Drawing a node draws its whole subtree: there is one command per
/// primitive of every mesh in the subtree, the node's own mesh comes first,
/// and then, for each child in order, exactly the commands that drawing that
/// child gives, at the position after the primitives of the earlier
/// children's subtrees.
pub proof fn lemma_node_commands_cover_subtree(node: Node)
    ensures
        node_commands(node).len() == subtree_primitives(node),
        forall|k: int|
            0 <= k < node.children@.len() ==> node_commands(node).subrange(
                (own_primitives(node) + children_primitives(node.children@, k)) as int,
                (own_primitives(node) + children_primitives(node.children@, k + 1)) as int,
            ) == node_commands(#[trigger] node.children@[k]),
    decreases node, 1int,
{
    let own = match node.mesh {
        Some(mesh) => mesh_commands(mesh, node.final_transform),
        None => Seq::<DrawCommand>::empty(),
    };
    assert(own.len() == own_primitives(node));
    let cs = node.children@;
    lemma_children_commands_cover(cs, cs.len() as int);
    let all = node_commands(node);
    assert(all == own + children_commands(cs, cs.len() as int));
    assert forall|k: int| 0 <= k < cs.len() implies all.subrange(
        (own_primitives(node) + children_primitives(cs, k)) as int,
        (own_primitives(node) + children_primitives(cs, k + 1)) as int,
    ) == node_commands(#[trigger] cs[k]) by {
        let rest = children_commands(cs, cs.len() as int);
        assert(all.subrange(
            (own_primitives(node) + children_primitives(cs, k)) as int,
            (own_primitives(node) + children_primitives(cs, k + 1)) as int,
        ) =~= rest.subrange(children_primitives(cs, k) as int, children_primitives(cs, k + 1) as int));
    }
}

/// The commands of the first `k` children are their subtrees' commands one
/// after another.
pub proof fn lemma_children_commands_cover(children: Seq<Node>, k: int)
    requires
        0 <= k <= children.len(),
    ensures
        children_commands(children, k).len() == children_primitives(children, k),
        forall|j: int|
            0 <= j <= k ==> #[trigger] children_primitives(children, j) <= children_primitives(
                children,
                k,
            ),
        forall|j: int|
            0 <= j < k ==> children_commands(children, k).subrange(
                children_primitives(children, j) as int,
                children_primitives(children, j + 1) as int,
            ) == node_commands(#[trigger] children[j]),
    decreases children, k,
{
    if k > 0 {
        lemma_children_commands_cover(children, k - 1);
        lemma_node_commands_cover_subtree(children[k - 1]);
        let before = children_commands(children, k - 1);
        let last = node_commands(children[k - 1]);
        let all = children_commands(children, k);
        assert(all == before + last);
        assert forall|j: int| 0 <= j < k implies all.subrange(
            children_primitives(children, j) as int,
            children_primitives(children, j + 1) as int,
        ) == node_commands(#[trigger] children[j]) by {
            if j < k - 1 {
                assert(children_primitives(children, j + 1) <= children_primitives(children, k - 1));
                assert(all.subrange(children_primitives(children, j) as int, children_primitives(children, j + 1) as int)
                    =~= before.subrange(children_primitives(children, j) as int, children_primitives(children, j + 1) as int));
            } else {
                assert(all.subrange(children_primitives(children, j) as int, children_primitives(children, j + 1) as int)
                    =~= last);
            }
        }
    }
}

/// The commands that draw `node` and everything below it (one per primitive
/// of every mesh in its subtree: `lemma_node_commands_cover_subtree`).
pub fn draw_node(node: &Node) -> (res: Vec<DrawCommand>)
    ensures
        res@ == node_commands(*node),
    decreases node,
{
    let mut res: Vec<DrawCommand> = Vec::new();
    let final_transform = node.final_transform;
    if let Some(mesh) = &node.mesh {
        res = draw_mesh(mesh, final_transform);
    }
    let ghost own = res@;
    let mut k: usize = 0;
    while k < node.children.len()
        invariant
            k <= node.children@.len(),
            res@ == own + children_commands(node.children@, k as int),
        decreases node.children@.len() - k,
    {
        let mut child = draw_node(&node.children[k]);
        res.append(&mut child);
        k = k + 1;
    }
    res
}

} // verus!
