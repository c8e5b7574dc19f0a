use vstd::prelude::*;
use crate::cache::{first_index, lemma_first_index, lemma_first_index_at};
use crate::document::{GltfDocument, GltfNode};
use crate::gltf_tree::node::{copy_name, wxyz};
use crate::render::mesh::{lemma_primitives_step_extends, mesh_loadable, mesh_step, mesh_views, Mesh, MeshView};
use crate::render::root::{RenderState, Root};
use crate::vertex::{identity_bits, identity_matrix, Mat4Bits};

verus! {

/// A node of the scene graph; its children are named by their position among
/// the root's nodes.
#[derive(Clone, Debug)]
pub struct Node {
    /// The glTF index.
    pub index: usize,
    /// The glTF indices of the children.
    pub children: Vec<usize>,
    /// The local transform, column-major.
    pub matrix: Mat4Bits,
    /// The position of the mesh among the root's meshes.
    pub mesh: Option<usize>,
    /// The rotation quaternion in the order `w, x, y, z`.
    pub rotation: [u32; 4],
    pub scale: [u32; 3],
    pub translation: [u32; 3],
    /// The glTF index of the camera.
    pub camera: Option<usize>,
    pub name: Option<String>,
    /// The transform including the parents' transforms, column-major.
    pub final_transform: Mat4Bits,
}

/// The glTF indices of the cached meshes, in order.
pub open spec fn mesh_keys(meshes: Seq<MeshView>) -> Seq<usize> {
    meshes.map_values(|m: MeshView| m.0)
}

/// The state after glTF node `g` is built in state `st`, and the position of
/// its mesh: the first cached mesh with the same glTF index, or a new one,
/// built and appended.
pub open spec fn node_step(st: RenderState, doc: GltfDocument, g: GltfNode) -> (RenderState, Option<usize>) {
    match g.mesh {
        None => (st, None),
        Some(m) => {
            let g_mesh = doc.meshes@[m as int];
            let slot = first_index(mesh_keys(st.3), g_mesh.index);
            if slot < st.3.len() {
                (st, Some(slot as usize))
            } else {
                let (s, mesh) = mesh_step(st, g_mesh);
                ((s.0, s.1, s.2, s.3.push(mesh)), Some(st.3.len() as usize))
            }
        },
    }
}

/// `n` is the node built from glTF node `g` with its mesh at `mesh`: the
/// other fields come from the glTF node (the rotation reordered to
/// `w, x, y, z`), and the final transform is the identity.
pub open spec fn node_matches(g: GltfNode, mesh: Option<usize>, n: Node) -> bool {
    &&& n.index == g.index
    &&& n.children@ == g.children@
    &&& n.matrix == g.matrix
    &&& n.mesh == mesh
    &&& n.rotation == wxyz(g.rotation)
    &&& n.scale == g.scale
    &&& n.translation == g.translation
    &&& n.camera == g.camera
    &&& n.name == g.name
    &&& n.final_transform == identity_bits()
}

/// A node of the scene graph whose root owns every node keeps what the glTF
/// node gives it: its index and children, its local matrix element by
/// element (column `c`, row `r`, column-major as given), its translation
/// and scale, its rotation reordered from `x, y, z, w` to `w, x, y, z`, its
/// camera and name, and the identity as final transform.
pub proof fn lemma_render_node_keeps_gltf_fields(g: GltfNode, mesh: Option<usize>, n: Node)
    requires
        node_matches(g, mesh, n),
    ensures
        n.index == g.index,
        n.children@ == g.children@,
        forall|c: int, r: int|
            0 <= c < 4 && 0 <= r < 4 ==> #[trigger] n.matrix@[c]@[r] == g.matrix@[c]@[r],
        forall|k: int| 0 <= k < 3 ==> #[trigger] n.translation@[k] == g.translation@[k],
        forall|k: int| 0 <= k < 3 ==> #[trigger] n.scale@[k] == g.scale@[k],
        n.rotation@[0] == g.rotation@[3],
        n.rotation@[1] == g.rotation@[0],
        n.rotation@[2] == g.rotation@[1],
        n.rotation@[3] == g.rotation@[2],
        n.camera == g.camera,
        n.name == g.name,
        n.mesh == mesh,
        forall|c: int, r: int|
            0 <= c < 4 && 0 <= r < 4 ==> #[trigger] n.final_transform@[c]@[r] == (if c == r {
                crate::vertex::ONE_BITS
            } else {
                0u32
            }),
{
}

/// The mesh of glTF node `g` is in bounds and, unless a mesh with its glTF
/// index is cached, can be built.
pub open spec fn node_loadable(st: RenderState, doc: GltfDocument, g: GltfNode) -> bool {
    g.mesh matches Some(m) ==> {
        &&& m < doc.meshes@.len()
        &&& mesh_keys(st.3).contains(doc.meshes@[m as int].index) || mesh_loadable(
            doc.meshes@[m as int],
            st.1,
        )
    }
}

/// One mesh to draw and the model matrix (bits, column-major) to draw it with.
#[derive(Clone, Copy, Debug)]
pub struct DrawCommand {
    pub mesh: usize,
    pub model_matrix: Mat4Bits,
}

/// The command that draws the node's own mesh, if any.
pub open spec fn own_commands(n: Node) -> Seq<DrawCommand> {
    match n.mesh {
        Some(m) => seq![DrawCommand { mesh: m, model_matrix: n.final_transform }],
        None => Seq::empty(),
    }
}

/// From node `i`, every child index is in bounds and no path down the
/// children visits `fuel` nodes: the nodes below form a tree.
pub open spec fn tree_below(nodes: Seq<Node>, i: int, fuel: nat) -> bool
    decreases fuel,
{
    &&& fuel > 0
    &&& 0 <= i < nodes.len()
    &&& forall|k: int|
        0 <= k < nodes[i].children@.len() ==> tree_below(
            nodes,
            #[trigger] nodes[i].children@[k] as int,
            (fuel - 1) as nat,
        )
}

/// The commands that draw node `i` and everything below it: its mesh, then
/// each child in order.
pub open spec fn subtree_commands(nodes: Seq<Node>, i: int, fuel: nat) -> Seq<DrawCommand>
    decreases fuel, 1int, 0int,
{
    if fuel == 0 || !(0 <= i < nodes.len()) {
        Seq::empty()
    } else {
        own_commands(nodes[i]) + children_commands(
            nodes,
            nodes[i].children@,
            nodes[i].children@.len() as int,
            fuel,
        )
    }
}

/// The commands that draw the first `k` children `cs` of a node drawn with
/// `fuel`, and everything below them.
pub open spec fn children_commands(nodes: Seq<Node>, cs: Seq<usize>, k: int, fuel: nat) -> Seq<
    DrawCommand,
>
    decreases fuel, 0int, k,
{
    if k <= 0 || fuel == 0 {
        Seq::empty()
    } else {
        children_commands(nodes, cs, k - 1, fuel) + subtree_commands(
            nodes,
            cs[k - 1] as int,
            (fuel - 1) as nat,
        )
    }
}

/// The number of nodes with a mesh at node `i` and below it, down `fuel`
/// levels.
pub open spec fn subtree_meshes(nodes: Seq<Node>, i: int, fuel: nat) -> nat
    decreases fuel, 1int, 0int,
{
    if fuel == 0 || !(0 <= i < nodes.len()) {
        0
    } else {
        (if nodes[i].mesh is Some {
            1nat
        } else {
            0nat
        }) + children_meshes(nodes, nodes[i].children@, nodes[i].children@.len() as int, fuel)
    }
}

/// The number of nodes with a mesh among the first `k` children `cs` of a
/// node at `fuel` and below them.
pub open spec fn children_meshes(nodes: Seq<Node>, cs: Seq<usize>, k: int, fuel: nat) -> nat
    decreases fuel, 0int, k,
{
    if k <= 0 || fuel == 0 {
        0
    } else {
        children_meshes(nodes, cs, k - 1, fuel) + subtree_meshes(nodes, cs[k - 1] as int, (fuel - 1) as nat)
    }
}

/// Drawing a node draws its whole subtree: one command per node with a mesh
/// at or below it, the node's own command first.
pub proof fn lemma_subtree_commands_cover(nodes: Seq<Node>, i: int, fuel: nat)
    ensures
        subtree_commands(nodes, i, fuel).len() == subtree_meshes(nodes, i, fuel),
        fuel > 0 && 0 <= i < nodes.len() && nodes[i].mesh is Some ==> subtree_commands(
            nodes,
            i,
            fuel,
        )[0] == (DrawCommand { mesh: nodes[i].mesh.unwrap(), model_matrix: nodes[i].final_transform }),
    decreases fuel, 1int, 0int,
{
    if fuel > 0 && 0 <= i < nodes.len() {
        lemma_children_commands_cover(nodes, nodes[i].children@, nodes[i].children@.len() as int, fuel);
    }
}

/// The commands of the first `k` children are as many as the nodes with a
/// mesh below them.
pub proof fn lemma_children_commands_cover(nodes: Seq<Node>, cs: Seq<usize>, k: int, fuel: nat)
    ensures
        children_commands(nodes, cs, k, fuel).len() == children_meshes(nodes, cs, k, fuel),
    decreases fuel, 0int, k,
{
    if k > 0 && fuel > 0 {
        lemma_children_commands_cover(nodes, cs, k - 1, fuel);
        lemma_subtree_commands_cover(nodes, cs[k - 1] as int, (fuel - 1) as nat);
    }
}

/// The position of the first cached mesh with glTF index `index`.
fn find_mesh(meshes: &Vec<Mesh>, index: usize) -> (res: Option<usize>)
    ensures
        ({
            let keys = mesh_keys(mesh_views(meshes@));
            match res {
                Some(k) => k == first_index(keys, index) && k < meshes@.len(),
                None => first_index(keys, index) == meshes@.len(),
            }
        }),
{
    let ghost keys = mesh_keys(mesh_views(meshes@));
    let mut k: usize = 0;
    while k < meshes.len()
        invariant
            k <= meshes@.len(),
            keys == mesh_keys(mesh_views(meshes@)),
            forall|j: int| 0 <= j < k ==> keys[j] != index,
        decreases meshes@.len() - k,
    {
        if meshes[k].index == index {
            proof {
                lemma_first_index_at(keys, index, k as int);
            }
            return Some(k);
        }
        k = k + 1;
    }
    proof {
        lemma_first_index(keys, index);
        if keys.contains(index) {
            let w = choose|w: int| 0 <= w < keys.len() && keys[w] == index;
            assert(keys[w] != index);
        }
    }
    None
}

/// Draws node `i` of `nodes` and everything below it.
fn draw_subtree(nodes: &Vec<Node>, i: usize, fuel: usize) -> (res: Vec<DrawCommand>)
    requires
        tree_below(nodes@, i as int, fuel as nat),
    ensures
        res@ == subtree_commands(nodes@, i as int, fuel as nat),
    decreases fuel,
{
    let node = &nodes[i];
    let mut res: Vec<DrawCommand> = Vec::new();
    if let Some(mesh) = node.mesh {
        res.push(DrawCommand { mesh, model_matrix: node.final_transform });
    }
    assert(res@ =~= own_commands(*node));
    let mut k: usize = 0;
    while k < node.children.len()
        invariant
            tree_below(nodes@, i as int, fuel as nat),
            *node == nodes@[i as int],
            k <= node.children@.len(),
            res@ == own_commands(*node) + children_commands(
                nodes@,
                node.children@,
                k as int,
                fuel as nat,
            ),
        decreases node.children@.len() - k,
    {
        let mut below = draw_subtree(nodes, node.children[k], fuel - 1);
        res.append(&mut below);
        assert(res@ =~= own_commands(*node) + children_commands(
            nodes@,
            node.children@,
            k + 1,
            fuel as nat,
        ));
        k = k + 1;
    }
    res
}

/// Whether the nodes below node `i` form a tree of height below `fuel`, with
/// every child index in bounds.
pub fn tree_below_exec(nodes: &Vec<Node>, i: usize, fuel: usize) -> (res: bool)
    ensures
        res == tree_below(nodes@, i as int, fuel as nat),
    decreases fuel,
{
    if fuel == 0 || i >= nodes.len() {
        return false;
    }
    let node = &nodes[i];
    let mut k: usize = 0;
    while k < node.children.len()
        invariant
            0 < fuel,
            i < nodes@.len(),
            *node == nodes@[i as int],
            k <= node.children@.len(),
            forall|j: int|
                0 <= j < k ==> tree_below(
                    nodes@,
                    #[trigger] node.children@[j] as int,
                    (fuel - 1) as nat,
                ),
        decreases node.children@.len() - k,
    {
        if !tree_below_exec(nodes, node.children[k], fuel - 1) {
            return false;
        }
        k = k + 1;
    }
    true
}

impl Node {
    /// Builds the node for glTF node `g_node` of `imp`: finds its mesh among
    /// the root's meshes by glTF index, or builds and caches it.
    pub fn from_gltf(g_node: &GltfNode, root: &mut Root, imp: &GltfDocument) -> (res: Node)
        requires
            node_loadable(old(root).state(), *imp, *g_node),
        ensures
            final(root).state() == node_step(old(root).state(), *imp, *g_node).0,
            node_matches(*g_node, node_step(old(root).state(), *imp, *g_node).1, res),
            final(root).nodes == old(root).nodes,
            final(root).camera_nodes == old(root).camera_nodes,
            res.index == g_node.index,
            res.matrix == g_node.matrix,
            res.translation == g_node.translation,
            res.scale == g_node.scale,
            res.rotation == [g_node.rotation[3], g_node.rotation[0], g_node.rotation[1], g_node.rotation[2]],
    {
        let ghost st = old(root).state();
        let matrix = g_node.matrix;
        let (trans, rot, scale) = (g_node.translation, g_node.rotation, g_node.scale);
        let r = rot;
        let rotation: [u32; 4] = [r[3], r[0], r[1], r[2]];
        let mut mesh: Option<usize> = None;
        if let Some(m) = g_node.mesh {
            let g_mesh = &imp.meshes[m];
            assert(mesh_views(root.meshes@) =~= st.3);
            if let Some(existing) = find_mesh(&root.meshes, g_mesh.index) {
                mesh = Some(existing);
            }
            if mesh.is_none() {
                proof {
                    lemma_first_index(mesh_keys(st.3), g_mesh.index);
                    lemma_primitives_step_extends(st, g_mesh.primitives@, g_mesh.primitives@.len() as int);
                }
                let built = Mesh::from_gltf(g_mesh, root);
                root.meshes.push(built);
                mesh = Some(root.meshes.len() - 1);
                assert(mesh_views(root.meshes@) =~= node_step(st, *imp, *g_node).0.3);
            }
        }
        let children = copy_children(&g_node.children);
        let res = Node {
            index: g_node.index,
            children,
            matrix,
            mesh,
            rotation,
            scale,
            translation: trans,
            camera: g_node.camera,
            name: copy_name(&g_node.name),
            final_transform: identity_matrix(),
        };
        res
    }

    /// The commands that draw this node's mesh, then, in order, each child
    /// (found among the root's nodes) and everything below it.
    pub fn draw(&self, root: &Root) -> (res: Vec<DrawCommand>)
        requires
            forall|k: int|
                0 <= k < self.children@.len() ==> tree_below(
                    root.nodes@,
                    #[trigger] self.children@[k] as int,
                    root.nodes@.len(),
                ),
        ensures
            res@ == own_commands(*self) + children_commands(
                root.nodes@,
                self.children@,
                self.children@.len() as int,
                root.nodes@.len() + 1,
            ),
    {
        let mut res: Vec<DrawCommand> = Vec::new();
        if let Some(mesh) = self.mesh {
            res.push(DrawCommand { mesh, model_matrix: self.final_transform });
        }
        assert(res@ =~= own_commands(*self));
        let mut k: usize = 0;
        while k < self.children.len()
            invariant
                forall|j: int|
                    0 <= j < self.children@.len() ==> tree_below(
                        root.nodes@,
                        #[trigger] self.children@[j] as int,
                        root.nodes@.len(),
                    ),
                k <= self.children@.len(),
                res@ == own_commands(*self) + children_commands(
                    root.nodes@,
                    self.children@,
                    k as int,
                    root.nodes@.len() + 1,
                ),
            decreases self.children@.len() - k,
        {
            let mut below = draw_subtree(&root.nodes, self.children[k], root.nodes.len());
            res.append(&mut below);
            assert(res@ =~= own_commands(*self) + children_commands(
                root.nodes@,
                self.children@,
                k + 1,
                root.nodes@.len() + 1,
            ));
            k = k + 1;
        }
        res
    }
}

/// A copy of a list of child indices.
fn copy_children(children: &Vec<usize>) -> (res: Vec<usize>)
    ensures
        res@ == children@,
{
    let res = children.clone();
    assert(res@ =~= children@);
    res
}

} // verus!
