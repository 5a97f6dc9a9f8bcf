//! Shader generation, render-pass planning and asset-preparation logic of
//! the Syrillian engine, with contracts checked by Verus.
pub mod animation;
pub mod engine_args;
pub mod prefabs;
pub mod render;
pub mod scene;
pub mod shadergen;
pub mod text;
