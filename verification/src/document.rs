//! The parts of a glTF document that the scene graph is built from, as plain
//! values. Floating-point components are kept as their IEEE-754 bit patterns.
use vstd::prelude::*;
use crate::vertex::Mat4Bits;

verus! {

/// A reference from a material to a texture.
#[derive(Clone, Copy, Debug, PartialEq, Eq, Structural)]
pub struct GltfTextureInfo {
    /// The glTF index of the texture.
    pub texture: usize,
    /// The set of texture coordinates the texture is sampled with.
    pub tex_coord: u32,
}

/// A material's normal texture, with its scale (bits of an `f32`).
#[derive(Clone, Copy, Debug, PartialEq, Eq, Structural)]
pub struct GltfNormalTexture {
    pub texture: usize,
    pub tex_coord: u32,
    pub scale: u32,
}

/// A material's occlusion texture, with its strength (bits of an `f32`).
#[derive(Clone, Copy, Debug, PartialEq, Eq, Structural)]
pub struct GltfOcclusionTexture {
    pub texture: usize,
    pub tex_coord: u32,
    pub strength: u32,
}

/// A glTF material.
#[derive(Clone, Debug)]
pub struct GltfMaterial {
    /// The glTF index; `None` for the default material.
    pub index: Option<usize>,
    pub name: Option<String>,
    pub base_color_texture: Option<GltfTextureInfo>,
    pub metallic_roughness_texture: Option<GltfTextureInfo>,
    pub normal_texture: Option<GltfNormalTexture>,
    pub occlusion_texture: Option<GltfOcclusionTexture>,
    pub emissive_texture: Option<GltfTextureInfo>,
    pub emissive_factor: [u32; 3],
}

/// A glTF primitive: its vertex attributes as read from the buffers, its
/// indices and its material.
#[derive(Clone, Debug)]
pub struct GltfPrimitive {
    pub positions: Option<Vec<[u32; 3]>>,
    pub normals: Option<Vec<[u32; 3]>>,
    pub tangents: Option<Vec<[u32; 4]>>,
    /// The sets of texture coordinates `TEXCOORD_0`, `TEXCOORD_1`, ..., up to
    /// the first set that is missing.
    pub tex_coords: Vec<Vec<[u32; 2]>>,
    pub colors_0: Option<Vec<[u32; 4]>>,
    pub joints_0: Option<Vec<[u16; 4]>>,
    pub weights_0: Option<Vec<[u32; 4]>>,
    pub indices: Option<Vec<u32>>,
    pub material: GltfMaterial,
}

/// A glTF mesh.
#[derive(Clone, Debug)]
pub struct GltfMesh {
    pub index: usize,
    pub primitives: Vec<GltfPrimitive>,
}

/// A glTF node.
#[derive(Clone, Debug)]
pub struct GltfNode {
    pub index: usize,
    /// The glTF indices of the children.
    pub children: Vec<usize>,
    /// The glTF index of the mesh.
    pub mesh: Option<usize>,
    /// The glTF index of the camera.
    pub camera: Option<usize>,
    pub name: Option<String>,
    /// The local transform, column by column.
    pub matrix: Mat4Bits,
    pub translation: [u32; 3],
    /// The rotation quaternion in glTF order: `x, y, z, w`.
    pub rotation: [u32; 4],
    pub scale: [u32; 3],
}

/// A glTF scene.
#[derive(Clone, Debug)]
pub struct GltfScene {
    pub name: Option<String>,
    /// The glTF indices of the root nodes.
    pub nodes: Vec<usize>,
}

/// A glTF document.
#[derive(Clone, Debug)]
pub struct GltfDocument {
    pub nodes: Vec<GltfNode>,
    pub meshes: Vec<GltfMesh>,
    pub scenes: Vec<GltfScene>,
}

/// Whether an optional attribute has at most `n` elements.
pub open spec fn fits<T>(attr: Option<Vec<T>>, n: int) -> bool {
    match attr {
        Some(v) => v@.len() <= n,
        None => true,
    }
}

impl GltfPrimitive {
    /// The number of vertices: the number of positions.
    pub open spec fn vertex_count(self) -> int {
        self.positions.unwrap()@.len() as int
    }

    /// The primitive has positions, and every attribute that is copied into
    /// the vertices has no more elements than there are positions (normals
    /// too when `with_normals`).
    pub open spec fn attributes_fit(self, with_normals: bool) -> bool {
        &&& self.positions is Some
        &&& with_normals ==> fits(self.normals, self.vertex_count())
        &&& fits(self.tangents, self.vertex_count())
        &&& self.tex_coords@.len() > 0 ==> self.tex_coords@[0]@.len() <= self.vertex_count()
        &&& self.tex_coords@.len() > 1 ==> self.tex_coords@[1]@.len() <= self.vertex_count()
        &&& fits(self.colors_0, self.vertex_count())
        &&& fits(self.joints_0, self.vertex_count())
        &&& fits(self.weights_0, self.vertex_count())
    }
}

impl GltfDocument {
    /// Every node carries its own position in the document as its glTF
    /// index, as the nodes of an imported document do.
    pub open spec fn indices_are_positions(self) -> bool {
        forall|i: int| 0 <= i < self.nodes@.len() ==> #[trigger] self.nodes@[i].index == i
    }

    /// Every child and mesh index of node `i` is in bounds.
    pub open spec fn node_refs_valid(self, i: int) -> bool {
        let node = self.nodes@[i];
        &&& forall|k: int|
            0 <= k < node.children@.len() ==> #[trigger] node.children@[k] < self.nodes@.len()
        &&& node.mesh matches Some(m) ==> m < self.meshes@.len()
    }

    /// From node `i`, every path down the children is shorter than `fuel`
    /// nodes, and every node on the way has valid references. In particular
    /// the nodes below `i` form a tree of height below `fuel`, not a cycle.
    pub open spec fn tree_below(self, i: int, fuel: nat) -> bool
        decreases fuel,
    {
        &&& fuel > 0
        &&& 0 <= i < self.nodes@.len()
        &&& self.node_refs_valid(i)
        &&& forall|k: int|
            0 <= k < self.nodes@[i].children@.len() ==> self.tree_below(
                #[trigger] self.nodes@[i].children@[k] as int,
                (fuel - 1) as nat,
            )
    }

    /// The nodes below `i` form a tree: no path down the children visits more
    /// nodes than the document has.
    pub open spec fn is_tree_from(self, i: int) -> bool {
        self.tree_below(i, self.nodes@.len())
    }
}

/// Whether an optional attribute has at most `n` elements.
pub fn fits_exec<T>(attr: &Option<Vec<T>>, n: usize) -> (res: bool)
    ensures
        res == fits(*attr, n as int),
{
    match attr {
        Some(v) => v.len() <= n,
        None => true,
    }
}

impl GltfPrimitive {
    /// Whether the primitive has positions and every copied attribute fits
    /// in the vertices (normals too when `with_normals`).
    pub fn check_attributes_fit(&self, with_normals: bool) -> (res: bool)
        ensures
            res == self.attributes_fit(with_normals),
    {
        match &self.positions {
            None => false,
            Some(positions) => {
                let n = positions.len();
                (!with_normals || fits_exec(&self.normals, n)) && fits_exec(&self.tangents, n) && (
                self.tex_coords.len() == 0 || self.tex_coords[0].len() <= n) && (
                self.tex_coords.len() <= 1 || self.tex_coords[1].len() <= n) && fits_exec(
                    &self.colors_0,
                    n,
                ) && fits_exec(&self.joints_0, n) && fits_exec(&self.weights_0, n)
            },
        }
    }
}

} // verus!
