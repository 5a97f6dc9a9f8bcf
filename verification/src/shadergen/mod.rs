//! Material node graphs and their translation to WGSL source text.
pub mod chunks;
pub mod compiler;
pub mod equivalence;
pub mod function;
pub mod generator;
pub mod pbr_graph;
pub mod topo;
pub mod value;
pub mod wgsl;

pub use chunks::NodeId;
pub use compiler::{MaterialCompiler, PostProcessCompiler};
pub use generator::ShaderGenerator;
