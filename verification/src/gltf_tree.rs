//! The scene graph built from a glTF document: nodes own their children, and
//! the root caches materials and shader variants.

pub mod material;
pub mod primitive;
pub mod mesh;
pub mod node;
pub mod root;
pub mod scene;
pub mod viewer;
