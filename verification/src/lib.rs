//! Scene-graph construction and traversal for a glTF viewer.

pub mod shader;
pub mod vertex;
pub mod document;
pub mod assembly;
pub mod cache;
pub mod gltf_tree;
pub mod render;
pub mod laws;
pub mod glb;
pub mod import;
