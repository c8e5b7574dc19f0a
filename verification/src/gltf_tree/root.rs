use vstd::prelude::*;
use std::collections::HashMap;
use crate::gltf_tree::material::Material;
use crate::gltf_tree::mesh::Mesh;
use crate::document::GltfDocument;
use crate::gltf_tree::node::{
    check_node_buildable, create_node, lemma_tree_node_keeps_gltf_fields, node_buildable, node_matches,
    state_after_node, Node,
};
use crate::gltf_tree::primitive::TreeState;
use crate::shader::PbrShader;

verus! {

/// The root of the scene graph: the nodes, and the caches of meshes,
/// materials and shader variants (keyed by the bits of their flags).
pub struct Root {
    pub nodes: Vec<Node>,
    pub meshes: Vec<Mesh>,
    pub materials: Vec<Material>,
    pub shaders: HashMap<u16, PbrShader>,
}

impl Root {
    /// The cached materials and shader variants.
    pub open spec fn state(&self) -> TreeState {
        (self.materials@, self.shaders@)
    }
}

/// The state of a new root: no material and no shader variant cached.
pub open spec fn empty_state() -> TreeState {
    (Seq::empty(), Map::empty())
}

/// The state after the first `k` nodes of the document are built, in order,
/// from state `st`.
pub open spec fn state_after_nodes(doc: GltfDocument, k: int, st: TreeState) -> TreeState
    decreases k,
{
    if k <= 0 {
        st
    } else {
        state_after_node(doc, k - 1, doc.nodes@.len(), state_after_nodes(doc, k - 1, st))
    }
}

/// Every node of the document can be built.
pub open spec fn all_nodes_buildable(doc: GltfDocument) -> bool {
    forall|i: int| 0 <= i < doc.nodes@.len() ==> node_buildable(doc, i, doc.nodes@.len())
}

/// Whether every node of the document can be built: every reference is in
/// bounds, every primitive reached can be built, and the nodes below every
/// node form a tree.
pub fn check_all_nodes_buildable(doc: &GltfDocument) -> (res: bool)
    ensures
        res == all_nodes_buildable(*doc),
{
    let mut i: usize = 0;
    while i < doc.nodes.len()
        invariant
            i <= doc.nodes@.len(),
            forall|j: int| 0 <= j < i ==> node_buildable(*doc, j, doc.nodes@.len()),
        decreases doc.nodes@.len() - i,
    {
        if !check_node_buildable(doc, i, doc.nodes.len()) {
            return false;
        }
        i = i + 1;
    }
    true
}

/// Builds the root for a document: one node per glTF node, in order, each
/// built with its whole subtree; the mesh cache stays empty.
pub fn create_root(doc: &GltfDocument) -> (res: Root)
    requires
        all_nodes_buildable(*doc),
    ensures
        res.meshes@.len() == 0,
        res.nodes@.len() == doc.nodes@.len(),
        forall|i: int|
            0 <= i < doc.nodes@.len() ==> node_matches(
                *doc,
                i,
                doc.nodes@.len(),
                state_after_nodes(*doc, i, empty_state()),
                #[trigger] res.nodes@[i],
            ),
        res.state() == state_after_nodes(*doc, doc.nodes@.len() as int, empty_state()),
        doc.indices_are_positions() ==> forall|i: int|
            0 <= i < res.nodes@.len() ==> #[trigger] res.nodes@[i].index == i,
        forall|i: int|
            0 <= i < res.nodes@.len() ==> {
                &&& (#[trigger] res.nodes@[i]).matrix == doc.nodes@[i].matrix
                &&& res.nodes@[i].translation == doc.nodes@[i].translation
            },
{
    let mut root = Root {
        nodes: Vec::new(),
        meshes: Vec::new(),
        materials: Vec::new(),
        shaders: HashMap::new(),
    };
    assert(root.state() == empty_state());
    let mut nodes: Vec<Node> = Vec::new();
    let mut i: usize = 0;
    while i < doc.nodes.len()
        invariant
            all_nodes_buildable(*doc),
            i <= doc.nodes@.len(),
            nodes@.len() == i,
            root.meshes@.len() == 0,
            root.state() == state_after_nodes(*doc, i as int, empty_state()),
            forall|j: int|
                0 <= j < i ==> node_matches(
                    *doc,
                    j,
                    doc.nodes@.len(),
                    state_after_nodes(*doc, j, empty_state()),
                    #[trigger] nodes@[j],
                ),
        decreases doc.nodes@.len() - i,
    {
        let node = create_node(doc, i, &mut root);
        nodes.push(node);
        i = i + 1;
    }
    root.nodes = nodes;
    proof {
        assert forall|i: int| 0 <= i < root.nodes@.len() implies {
            &&& (#[trigger] root.nodes@[i]).matrix == doc.nodes@[i].matrix
            &&& root.nodes@[i].translation == doc.nodes@[i].translation
        } by {
            let n = root.nodes@[i];
            lemma_tree_node_keeps_gltf_fields(
                *doc,
                i,
                doc.nodes@.len(),
                state_after_nodes(*doc, i, empty_state()),
                n,
            );
            assert(n.matrix =~= doc.nodes@[i].matrix) by {
                assert forall|c: int| 0 <= c < 4 implies n.matrix@[c] =~= doc.nodes@[i].matrix@[c] by {
                    assert forall|r: int| 0 <= r < 4 implies n.matrix@[c]@[r] == doc.nodes@[i].matrix@[c]@[r] by {}
                }
            }
        }
        if doc.indices_are_positions() {
            assert forall|i: int| 0 <= i < root.nodes@.len() implies #[trigger] root.nodes@[i].index == i by {
                assert(node_matches(
                    *doc,
                    i,
                    doc.nodes@.len(),
                    state_after_nodes(*doc, i, empty_state()),
                    root.nodes@[i],
                ));
            }
        }
    }
    root
}

} // verus!
