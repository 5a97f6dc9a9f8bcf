//! The GPU layout of the engine's texture assets: layers, mip levels,
//! samples and how they are viewed.
use vstd::prelude::*;

verus! {

/// How a texture is viewed by shaders.
#[derive(Debug, Copy, Clone, PartialEq, Eq, Structural)]
pub enum ViewDimension {
    D2,
    D2Array,
    Cube,
}

/// The kinds of texture asset, with what their layout depends on.
#[derive(Debug, Copy, Clone, PartialEq, Eq, Structural)]
pub enum TextureAssetKind {
    /// A single image.
    Texture2D,
    /// A stack of `array_layers` images.
    Texture2DArray { array_layers: u32 },
    /// Six faces with `mip_level_count` mip levels.
    Cubemap { mip_level_count: u32 },
}

/// The layout of a texture on the GPU.
#[derive(Debug, Copy, Clone, PartialEq, Eq, Structural)]
pub struct TextureLayout {
    pub layer_count: u32,
    pub mip_level_count: u32,
    pub sample_count: u32,
    pub view_dimension: ViewDimension,
}

/// The layout of a texture asset: one layer for an image, its layers for
/// an array, six for a cubemap; one mip level except for cubemaps, which
/// keep theirs (at least one); always one sample, and all two-dimensional.
pub open spec fn layout_spec(kind: TextureAssetKind) -> TextureLayout {
    match kind {
        TextureAssetKind::Texture2D => TextureLayout {
            layer_count: 1,
            mip_level_count: 1,
            sample_count: 1,
            view_dimension: ViewDimension::D2,
        },
        TextureAssetKind::Texture2DArray { array_layers } => TextureLayout {
            layer_count: array_layers,
            mip_level_count: 1,
            sample_count: 1,
            view_dimension: ViewDimension::D2Array,
        },
        TextureAssetKind::Cubemap { mip_level_count } => TextureLayout {
            layer_count: 6,
            mip_level_count: if mip_level_count >= 1 {
                mip_level_count
            } else {
                1
            },
            sample_count: 1,
            view_dimension: ViewDimension::Cube,
        },
    }
}

/// The layout of a texture asset (see [`layout_spec`]).
pub fn texture_layout(kind: TextureAssetKind) -> (r: TextureLayout)
    ensures
        r == layout_spec(kind),
{
    match kind {
        TextureAssetKind::Texture2D => TextureLayout {
            layer_count: 1,
            mip_level_count: 1,
            sample_count: 1,
            view_dimension: ViewDimension::D2,
        },
        TextureAssetKind::Texture2DArray { array_layers } => TextureLayout {
            layer_count: array_layers,
            mip_level_count: 1,
            sample_count: 1,
            view_dimension: ViewDimension::D2Array,
        },
        TextureAssetKind::Cubemap { mip_level_count } => TextureLayout {
            layer_count: 6,
            mip_level_count: if mip_level_count >= 1 {
                mip_level_count
            } else {
                1
            },
            sample_count: 1,
            view_dimension: ViewDimension::Cube,
        },
    }
}

} // verus!
