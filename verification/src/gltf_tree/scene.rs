use vstd::prelude::*;
use crate::document::GltfScene;
use crate::gltf_tree::node::{draw_node, node_commands};
use crate::gltf_tree::primitive::DrawCommand;
use crate::gltf_tree::root::Root;

verus! {

/// A scene: the positions of its root nodes among the root's nodes.
#[derive(Clone, Debug)]
pub struct Scene {
    pub name: Option<String>,
    pub nodes: Vec<usize>,
}

impl Default for Scene {
    fn default() -> (res: Self)
        ensures
            res.name is None,
            res.nodes@.len() == 0,
    {
        Self { name: None, nodes: Vec::new() }
    }
}

/// A copy of a list of indices.
fn copy_indices(indices: &Vec<usize>) -> (res: Vec<usize>)
    ensures
        res@ == indices@,
{
    let mut res: Vec<usize> = Vec::new();
    let mut k: usize = 0;
    while k < indices.len()
        invariant
            k <= indices@.len(),
            res@ == indices@.take(k as int),
        decreases indices@.len() - k,
    {
        res.push(indices[k]);
        k = k + 1;
        assert(res@ =~= indices@.take(k as int));
    }
    assert(indices@.take(indices@.len() as int) =~= indices@);
    res
}

/// The scene for a glTF scene: its name and the indices of its root nodes.
pub fn create_scene(g_scene: &GltfScene, root: &Root) -> (res: Scene)
    ensures
        res.name == g_scene.name,
        res.nodes@ == g_scene.nodes@,
{
    let name = match &g_scene.name {
        Some(s) => Some(s.clone()),
        None => None,
    };
    let mut scene = Scene { name, ..Default::default() };
    scene.nodes = copy_indices(&g_scene.nodes);
    scene
}

/// The commands that draw the first `k` root nodes `ids` of a scene.
pub open spec fn scene_commands(root: Root, ids: Seq<usize>, k: int) -> Seq<DrawCommand>
    decreases k,
{
    if k <= 0 {
        Seq::empty()
    } else {
        scene_commands(root, ids, k - 1) + node_commands(root.nodes@[ids[k - 1] as int])
    }
}

/// The commands that draw the scene: each of its root nodes in order, with
/// everything below it.
pub fn draw_scene(root: &Root, scene: &Scene) -> (res: Vec<DrawCommand>)
    requires
        forall|k: int| 0 <= k < scene.nodes@.len() ==> #[trigger] scene.nodes@[k] < root.nodes@.len(),
    ensures
        res@ == scene_commands(*root, scene.nodes@, scene.nodes@.len() as int),
{
    let mut res: Vec<DrawCommand> = Vec::new();
    let mut k: usize = 0;
    while k < scene.nodes.len()
        invariant
            k <= scene.nodes@.len(),
            forall|j: int| 0 <= j < scene.nodes@.len() ==> #[trigger] scene.nodes@[j] < root.nodes@.len(),
            res@ == scene_commands(*root, scene.nodes@, k as int),
        decreases scene.nodes@.len() - k,
    {
        let node_id = scene.nodes[k];
        let mut drawn = draw_node(&root.nodes[node_id]);
        res.append(&mut drawn);
        k = k + 1;
    }
    res
}

} // verus!
