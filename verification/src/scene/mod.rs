//! Turning a loaded glTF scene into engine data: the bone hierarchy of a
//! skin, the vertex ranges of a mesh's primitives, and texture pixels in a
//! format the GPU takes.
pub mod bones;
pub mod meshes;
pub mod textures;
