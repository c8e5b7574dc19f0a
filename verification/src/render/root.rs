use vstd::prelude::*;
use std::collections::HashMap;
use crate::document::{GltfDocument, GltfNode};
use crate::render::material::{check_material_loadable, material_loadable, Material};
use crate::render::mesh::{mesh_views, Mesh, MeshView};
use crate::render::node::{lemma_render_node_keeps_gltf_fields, node_matches, node_step, Node};
use crate::shader::PbrShader;
use crate::laws::lemma_camera_nodes_hold_cameras;

verus! {

broadcast use vstd::std_specs::hash::group_hash_axioms;

/// What the scene graph knows of the state that building nodes changes: the
/// cached textures (by glTF index), materials, shader variants (by the bits
/// of their flags) and meshes.
pub type RenderState = (Seq<usize>, Seq<Material>, Map<u16, PbrShader>, Seq<MeshView>);

/// The root of the scene graph: every node, the caches, and the positions of
/// the nodes that hold a camera.
pub struct Root {
    pub nodes: Vec<Node>,
    pub meshes: Vec<Mesh>,
    pub textures: Vec<usize>,
    pub materials: Vec<Material>,
    pub shaders: HashMap<u16, PbrShader>,
    pub camera_nodes: Vec<usize>,
}

impl Root {
    /// The caches of the root.
    pub open spec fn state(&self) -> RenderState {
        (self.textures@, self.materials@, self.shaders@, mesh_views(self.meshes@))
    }
}

/// The state of a new root: every cache empty.
pub open spec fn empty_render_state() -> RenderState {
    (Seq::empty(), Seq::empty(), Map::empty(), Seq::empty())
}

/// The state after the first `k` nodes of the document are built, in order,
/// from a new root, and the position of each one's mesh.
pub open spec fn nodes_step(doc: GltfDocument, k: int) -> (RenderState, Seq<Option<usize>>)
    decreases k,
{
    if k <= 0 {
        (empty_render_state(), Seq::empty())
    } else {
        let (s, slots) = nodes_step(doc, k - 1);
        let (s2, slot) = node_step(s, doc, doc.nodes@[k - 1]);
        (s2, slots.push(slot))
    }
}

/// The glTF indices of the first `k` nodes that hold a camera, in order.
pub open spec fn camera_indices(nodes: Seq<Node>, k: int) -> Seq<usize>
    decreases k,
{
    if k <= 0 {
        Seq::empty()
    } else if nodes[k - 1].camera is Some {
        camera_indices(nodes, k - 1).push(nodes[k - 1].index)
    } else {
        camera_indices(nodes, k - 1)
    }
}

/// Every node's mesh is in bounds, and every primitive of such a mesh has
/// positions, attributes that fit, and a material whose textures use texture
/// coordinate set 0.
pub open spec fn root_loadable(doc: GltfDocument) -> bool {
    forall|i: int| 0 <= i < doc.nodes@.len() ==> node_mesh_loadable(doc, #[trigger] doc.nodes@[i])
}

/// The mesh of `g`, if any, is in bounds, and each of its primitives has
/// positions, attributes that fit, and a material whose textures use texture
/// coordinate set 0.
pub open spec fn node_mesh_loadable(doc: GltfDocument, g: GltfNode) -> bool {
    g.mesh matches Some(m) ==> {
        &&& m < doc.meshes@.len()
        &&& forall|k: int|
            0 <= k < doc.meshes@[m as int].primitives@.len() ==> {
                let p = #[trigger] doc.meshes@[m as int].primitives@[k];
                p.attributes_fit(true) && material_loadable(p.material)
            }
    }
}

/// Whether the mesh of `g`, if any, is in bounds and each of its primitives
/// can be built with its material.
pub fn check_node_mesh_loadable(doc: &GltfDocument, g: &GltfNode) -> (res: bool)
    ensures
        res == node_mesh_loadable(*doc, *g),
{
    match g.mesh {
        None => true,
        Some(m) => {
            if m >= doc.meshes.len() {
                return false;
            }
            let mesh = &doc.meshes[m];
            let mut k: usize = 0;
            while k < mesh.primitives.len()
                invariant
                    g.mesh == Some(m),
                    m < doc.meshes@.len(),
                    *mesh == doc.meshes@[m as int],
                    k <= mesh.primitives@.len(),
                    forall|j: int|
                        0 <= j < k ==> {
                            let p = #[trigger] mesh.primitives@[j];
                            p.attributes_fit(true) && material_loadable(p.material)
                        },
                decreases mesh.primitives@.len() - k,
            {
                let p = &mesh.primitives[k];
                if !p.check_attributes_fit(true) || !check_material_loadable(&p.material) {
                    assert(doc.meshes@[m as int].primitives@[k as int] == *p);
                    return false;
                }
                k = k + 1;
            }
            true
        },
    }
}

/// Whether a root can be built for the document.
pub fn check_root_loadable(doc: &GltfDocument) -> (res: bool)
    ensures
        res == root_loadable(*doc),
{
    let mut i: usize = 0;
    while i < doc.nodes.len()
        invariant
            i <= doc.nodes@.len(),
            forall|j: int| 0 <= j < i ==> node_mesh_loadable(*doc, #[trigger] doc.nodes@[j]),
        decreases doc.nodes@.len() - i,
    {
        if !check_node_mesh_loadable(doc, &doc.nodes[i]) {
            return false;
        }
        i = i + 1;
    }
    true
}

impl Root {
    /// Builds the root for a document: every node in order, sharing meshes,
    /// materials, textures and shader variants through the caches, and the
    /// list of the nodes that hold a camera.
    pub fn from_gltf(imp: &GltfDocument) -> (res: Root)
        requires
            root_loadable(*imp),
        ensures
            res.nodes@.len() == imp.nodes@.len(),
            forall|i: int|
                0 <= i < imp.nodes@.len() ==> node_matches(
                    imp.nodes@[i],
                    nodes_step(*imp, imp.nodes@.len() as int).1[i],
                    #[trigger] res.nodes@[i],
                ),
            res.state() == nodes_step(*imp, imp.nodes@.len() as int).0,
            res.camera_nodes@ == camera_indices(res.nodes@, res.nodes@.len() as int),
            imp.indices_are_positions() ==> forall|i: int|
                0 <= i < res.nodes@.len() ==> #[trigger] res.nodes@[i].index == i,
            forall|i: int|
                0 <= i < res.nodes@.len() ==> {
                    &&& (#[trigger] res.nodes@[i]).translation == imp.nodes@[i].translation
                    &&& res.nodes@[i].matrix == imp.nodes@[i].matrix
                    &&& res.nodes@[i].scale == imp.nodes@[i].scale
                    &&& res.nodes@[i].rotation == [
                        imp.nodes@[i].rotation[3],
                        imp.nodes@[i].rotation[0],
                        imp.nodes@[i].rotation[1],
                        imp.nodes@[i].rotation[2],
                    ]
                },
            imp.indices_are_positions() ==> forall|k: int|
                0 <= k < res.camera_nodes@.len() ==> {
                    &&& #[trigger] res.camera_nodes@[k] < res.nodes@.len()
                    &&& res.nodes@[res.camera_nodes@[k] as int].camera is Some
                },
    {
        let mut root = Root {
            nodes: Vec::new(),
            meshes: Vec::new(),
            textures: Vec::new(),
            materials: Vec::new(),
            shaders: HashMap::new(),
            camera_nodes: Vec::new(),
        };
        assert(root.state() =~= empty_render_state());
        let mut nodes: Vec<Node> = Vec::new();
        let mut i: usize = 0;
        while i < imp.nodes.len()
            invariant
                root_loadable(*imp),
                i <= imp.nodes@.len(),
                nodes@.len() == i,
                root.state() == nodes_step(*imp, i as int).0,
                nodes_step(*imp, i as int).1.len() == i,
                forall|j: int|
                    0 <= j < i ==> node_matches(
                        imp.nodes@[j],
                        nodes_step(*imp, i as int).1[j],
                        #[trigger] nodes@[j],
                    ),
            decreases imp.nodes@.len() - i,
        {
            let node = Node::from_gltf(&imp.nodes[i], &mut root, imp);
            nodes.push(node);
            i = i + 1;
        }
        root.nodes = nodes;
        let mut camera_nodes: Vec<usize> = Vec::new();
        let mut k: usize = 0;
        while k < root.nodes.len()
            invariant
                k <= root.nodes@.len(),
                camera_nodes@ == camera_indices(root.nodes@, k as int),
            decreases root.nodes@.len() - k,
        {
            if root.nodes[k].camera.is_some() {
                camera_nodes.push(root.nodes[k].index);
            }
            k = k + 1;
        }
        root.camera_nodes = camera_nodes;
        proof {
            assert forall|i: int| 0 <= i < root.nodes@.len() implies {
                &&& (#[trigger] root.nodes@[i]).translation == imp.nodes@[i].translation
                &&& root.nodes@[i].matrix == imp.nodes@[i].matrix
                &&& root.nodes@[i].scale == imp.nodes@[i].scale
                &&& root.nodes@[i].rotation == [
                    imp.nodes@[i].rotation[3],
                    imp.nodes@[i].rotation[0],
                    imp.nodes@[i].rotation[1],
                    imp.nodes@[i].rotation[2],
                ]
            } by {
                let n = root.nodes@[i];
                let g = imp.nodes@[i];
                lemma_render_node_keeps_gltf_fields(g, nodes_step(*imp, imp.nodes@.len() as int).1[i], n);
                assert(n.translation =~= g.translation);
                assert(n.scale =~= g.scale);
                assert(n.rotation =~= [g.rotation[3], g.rotation[0], g.rotation[1], g.rotation[2]]);
                assert(n.matrix =~= g.matrix) by {
                    assert forall|c: int| 0 <= c < 4 implies n.matrix@[c] =~= g.matrix@[c] by {
                        assert forall|r: int| 0 <= r < 4 implies n.matrix@[c]@[r] == g.matrix@[c]@[r] by {}
                    }
                }
            }
            if imp.indices_are_positions() {
                assert forall|i: int| 0 <= i < root.nodes@.len() implies #[trigger] root.nodes@[i].index == i by {
                    assert(node_matches(imp.nodes@[i], nodes_step(*imp, imp.nodes@.len() as int).1[i], root.nodes@[i]));
                }
                assert forall|k: int| 0 <= k < root.camera_nodes@.len() implies {
                    &&& #[trigger] root.camera_nodes@[k] < root.nodes@.len()
                    &&& root.nodes@[root.camera_nodes@[k] as int].camera is Some
                } by {
                    lemma_camera_nodes_hold_cameras(root.nodes@, root.nodes@.len() as int, k);
                }
            }
        }
        root
    }

    /// Mutable access to node `index`.
    pub fn unsafe_get_node_mut(&mut self, index: usize) -> (res: &mut Node)
        requires
            index < old(self).nodes@.len(),
        ensures
            *res == old(self).nodes@[index as int],
            final(self).nodes@ == old(self).nodes@.update(index as int, *final(res)),
            final(self).meshes == old(self).meshes,
            final(self).textures == old(self).textures,
            final(self).materials == old(self).materials,
            final(self).shaders == old(self).shaders,
            final(self).camera_nodes == old(self).camera_nodes,
    {
        &mut self.nodes[index]
    }

    /// The `index`-th node that holds a camera. The index is a position in
    /// the list of camera nodes.
    pub fn get_camera_node(&self, index: usize) -> (res: &Node)
        requires
            index < self.camera_nodes@.len(),
            self.camera_nodes@[index as int] < self.nodes@.len(),
        ensures
            *res == self.nodes@[self.camera_nodes@[index as int] as int],
    {
        &self.nodes[self.camera_nodes[index]]
    }
}

} // verus!
