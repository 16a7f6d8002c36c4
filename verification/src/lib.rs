//! Builds renderer-ready scenes from parsed Wavefront OBJ mesh and material
//! records.

pub mod geometry;
pub mod material;
pub mod mesh;
pub mod scene;
pub mod texture;
