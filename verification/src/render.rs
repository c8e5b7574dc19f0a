//! The scene graph in which the root owns every node, nodes name their
//! children by index, and meshes, materials, textures and shader variants
//! are shared through the root's caches.

pub mod material;
pub mod primitive;
pub mod mesh;
pub mod node;
pub mod root;
