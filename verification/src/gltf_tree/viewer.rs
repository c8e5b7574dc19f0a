use vstd::prelude::*;
use crate::document::GltfDocument;
use crate::gltf_tree::node::node_matches;
use crate::gltf_tree::root::{all_nodes_buildable, create_root, empty_state, state_after_nodes, Root};
use crate::gltf_tree::scene::{create_scene, Scene};

verus! {

/// Builds the scene graph of a document and its first scene, the one that is
/// drawn.
pub fn prepare_gltf(doc: &GltfDocument) -> (res: (Root, Scene))
    requires
        all_nodes_buildable(*doc),
        doc.scenes@.len() > 0,
    ensures
        res.0.meshes@.len() == 0,
        res.0.nodes@.len() == doc.nodes@.len(),
        forall|i: int|
            0 <= i < doc.nodes@.len() ==> node_matches(
                *doc,
                i,
                doc.nodes@.len(),
                state_after_nodes(*doc, i, empty_state()),
                #[trigger] res.0.nodes@[i],
            ),
        res.0.state() == state_after_nodes(*doc, doc.nodes@.len() as int, empty_state()),
        res.1.name == doc.scenes@[0].name,
        res.1.nodes@ == doc.scenes@[0].nodes@,
{
    let root = create_root(doc);
    // Only one scene is drawn: the first.
    let scene_index: usize = 0;
    let scene = create_scene(&doc.scenes[scene_index], &root);
    (root, scene)
}

} // verus!
