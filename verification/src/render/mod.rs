//! Decisions of the renderer that do not touch the GPU: post-process
//! routing, shadow-map layer assignment, mesh chunking and draw ranges,
//! per-material draw plans and compute dispatch sizes.
pub mod draw_plan;
pub mod lighting;
pub mod message;
pub mod mesh;
pub mod particles;
pub mod post_passes;
pub mod routing;
pub mod shader;
pub mod sky;
pub mod texture_layout;
pub mod uniforms;
