//! Texture pixels of a glTF image in a format the GPU takes.
use vstd::prelude::*;

verus! {

/// The pixel formats a glTF image can have.
#[derive(Debug, Copy, Clone, PartialEq, Eq, Structural)]
pub enum ImageFormat {
    R8,
    R8G8,
    R8G8B8,
    R8G8B8A8,
    R16,
    R16G16,
    R16G16B16,
    R16G16B16A16,
    R32G32B32Float,
    R32G32B32A32Float,
}

/// The texture formats images are uploaded as.
#[derive(Debug, Copy, Clone, PartialEq, Eq, Structural)]
pub enum TextureFormat {
    R8Unorm,
    Rg8Unorm,
    Rgba8UnormSrgb,
    R16Unorm,
    Rg16Snorm,
    Rgba16Unorm,
    Rgba32Float,
}

/// The texture format an image format is uploaded as; `None` for the
/// three-channel formats of more than eight bits, which have no matching
/// texture format.
pub open spec fn texture_format_spec(f: ImageFormat) -> Option<TextureFormat> {
    match f {
        ImageFormat::R8 => Some(TextureFormat::R8Unorm),
        ImageFormat::R8G8 => Some(TextureFormat::Rg8Unorm),
        ImageFormat::R8G8B8 => Some(TextureFormat::Rgba8UnormSrgb),
        ImageFormat::R8G8B8A8 => Some(TextureFormat::Rgba8UnormSrgb),
        ImageFormat::R16 => Some(TextureFormat::R16Unorm),
        ImageFormat::R16G16 => Some(TextureFormat::Rg16Snorm),
        ImageFormat::R16G16B16 => None,
        ImageFormat::R16G16B16A16 => Some(TextureFormat::Rgba16Unorm),
        ImageFormat::R32G32B32Float => None,
        ImageFormat::R32G32B32A32Float => Some(TextureFormat::Rgba32Float),
    }
}

/// The texture format an image format is uploaded as (see
/// [`texture_format_spec`]).
pub fn texture_format_for(f: ImageFormat) -> (r: Option<TextureFormat>)
    ensures
        r == texture_format_spec(f),
{
    match f {
        ImageFormat::R8 => Some(TextureFormat::R8Unorm),
        ImageFormat::R8G8 => Some(TextureFormat::Rg8Unorm),
        ImageFormat::R8G8B8 => Some(TextureFormat::Rgba8UnormSrgb),
        ImageFormat::R8G8B8A8 => Some(TextureFormat::Rgba8UnormSrgb),
        ImageFormat::R16 => Some(TextureFormat::R16Unorm),
        ImageFormat::R16G16 => Some(TextureFormat::Rg16Snorm),
        ImageFormat::R16G16B16 => None,
        ImageFormat::R16G16B16A16 => Some(TextureFormat::Rgba16Unorm),
        ImageFormat::R32G32B32Float => None,
        ImageFormat::R32G32B32A32Float => Some(TextureFormat::Rgba32Float),
    }
}

/// The channels of an image format.
pub open spec fn image_channels(f: ImageFormat) -> nat {
    match f {
        ImageFormat::R8 | ImageFormat::R16 => 1,
        ImageFormat::R8G8 | ImageFormat::R16G16 => 2,
        ImageFormat::R8G8B8 | ImageFormat::R16G16B16 | ImageFormat::R32G32B32Float => 3,
        ImageFormat::R8G8B8A8 | ImageFormat::R16G16B16A16 | ImageFormat::R32G32B32A32Float => 4,
    }
}

/// The bits of one channel of an image format.
pub open spec fn image_bits(f: ImageFormat) -> nat {
    match f {
        ImageFormat::R8 | ImageFormat::R8G8 | ImageFormat::R8G8B8 | ImageFormat::R8G8B8A8 => 8,
        ImageFormat::R16 | ImageFormat::R16G16 | ImageFormat::R16G16B16 | ImageFormat::R16G16B16A16 => 16,
        ImageFormat::R32G32B32Float | ImageFormat::R32G32B32A32Float => 32,
    }
}

/// The channels of a texture format.
pub open spec fn texture_channels(t: TextureFormat) -> nat {
    match t {
        TextureFormat::R8Unorm | TextureFormat::R16Unorm => 1,
        TextureFormat::Rg8Unorm | TextureFormat::Rg16Snorm => 2,
        TextureFormat::Rgba8UnormSrgb | TextureFormat::Rgba16Unorm | TextureFormat::Rgba32Float => 4,
    }
}

/// The bits of one channel of a texture format.
pub open spec fn texture_bits(t: TextureFormat) -> nat {
    match t {
        TextureFormat::R8Unorm | TextureFormat::Rg8Unorm | TextureFormat::Rgba8UnormSrgb => 8,
        TextureFormat::R16Unorm | TextureFormat::Rg16Snorm | TextureFormat::Rgba16Unorm => 16,
        TextureFormat::Rgba32Float => 32,
    }
}

/// An image is refused exactly when it has three channels of more than
/// eight bits. Any other image is uploaded as a texture of the same channel
/// width and channel count, an eight-bit RGB image gaining an alpha
/// channel; and an image with four eight-bit channels, like one with three,
/// becomes an sRGB RGBA texture.
pub proof fn lemma_texture_formats(f: ImageFormat)
    ensures
        texture_format_spec(f) is None <==> (image_channels(f) == 3 && image_bits(f) > 8),
        texture_format_spec(f) matches Some(t) ==> texture_bits(t) == image_bits(f) && texture_channels(t) == if image_channels(
            f,
        ) == 3 {
            4
        } else {
            image_channels(f)
        },
        (image_bits(f) == 8 && image_channels(f) >= 3) ==> texture_format_spec(f) == Some(TextureFormat::Rgba8UnormSrgb),
{
}

/// Pixel groups of three bytes in `n` bytes, the last one possibly short.
pub open spec fn rgb_groups(n: nat) -> nat {
    (n + 2) / 3
}

/// The bytes of the first `k` three-byte groups of `p`, each followed by
/// an opaque alpha byte.
pub open spec fn rgba_prefix(p: Seq<u8>, k: nat) -> Seq<u8>
    decreases k,
{
    if k == 0 {
        seq![]
    } else {
        let start = 3 * (k - 1);
        let end: int = if 3 * k <= p.len() {
            3 * k as int
        } else {
            p.len() as int
        };
        rgba_prefix(p, (k - 1) as nat) + p.subrange(start, end) + seq![255u8]
    }
}

/// RGB bytes with an opaque alpha byte after each group of three (and
/// after a short last group).
pub fn expand_rgb_to_rgba(pixels: &Vec<u8>) -> (r: Vec<u8>)
    ensures
        r@ == rgba_prefix(pixels@, rgb_groups(pixels@.len())),
{
    let mut out: Vec<u8> = Vec::new();
    let mut i: usize = 0;
    let ghost mut k: nat = 0;
    while i < pixels.len()
        invariant
            i <= pixels.len(),
            i < pixels.len() ==> i == 3 * k,
            i == pixels.len() ==> k == rgb_groups(pixels@.len()),
            out@ == rgba_prefix(pixels@, k),
        decreases pixels.len() - i,
    {
        let end = if pixels.len() - i >= 3 {
            i + 3
        } else {
            pixels.len()
        };
        let mut j = i;
        let ghost before = out@;
        while j < end
            invariant
                i <= j <= end <= pixels.len(),
                out@ == before + pixels@.subrange(i as int, j as int),
            decreases end - j,
        {
            out.push(pixels[j]);
            assert(pixels@.subrange(i as int, j + 1) =~= pixels@.subrange(i as int, j as int).push(pixels@[j as int]));
            j += 1;
        }
        out.push(255);
        proof {
            k = k + 1;
        }
        i = end;
    }
    out
}

/// Every full group of three bytes keeps its place, four bytes apart, with
/// an opaque alpha byte after it; an image of whole RGB pixels grows by a
/// third.
pub proof fn lemma_rgba_layout(p: Seq<u8>, k: nat)
    requires
        3 * k <= p.len(),
    ensures
        rgba_prefix(p, k).len() == 4 * k,
        forall|g: int, c: int|
            0 <= g < k && 0 <= c < 3 ==> #[trigger] rgba_prefix(p, k)[4 * g + c] == p[3 * g + c],
        forall|g: int| 0 <= g < k ==> #[trigger] rgba_prefix(p, k)[4 * g + 3] == 255u8,
    decreases k,
{
    if k > 0 {
        lemma_rgba_layout(p, (k - 1) as nat);
        let prev = rgba_prefix(p, (k - 1) as nat);
        let cur = rgba_prefix(p, k);
        assert forall|g: int, c: int| 0 <= g < k && 0 <= c < 3 implies #[trigger] cur[4 * g + c] == p[3 * g
            + c] by {
            if g < k - 1 {
                assert(cur[4 * g + c] == prev[4 * g + c]);
            }
        }
        assert forall|g: int| 0 <= g < k implies #[trigger] cur[4 * g + 3] == 255u8 by {
            if g < k - 1 {
                assert(cur[4 * g + 3] == prev[4 * g + 3]);
            }
        }
    }
}

/// The texture an image is uploaded as: its format, and its pixels with
/// an alpha byte added to RGB images; `None` for a format that has no
/// texture format.
pub fn texture_pixels(format: ImageFormat, pixels: &Vec<u8>) -> (r: Option<(TextureFormat, Vec<u8>)>)
    ensures
        match texture_format_spec(format) {
            None => r is None,
            Some(t) => r matches Some((tf, data)) && tf == t && data@ == if format == ImageFormat::R8G8B8 {
                rgba_prefix(pixels@, rgb_groups(pixels@.len()))
            } else {
                pixels@
            },
        },
{
    let tf = match texture_format_for(format) {
        Some(tf) => tf,
        None => return None,
    };
    let data = match format {
        ImageFormat::R8G8B8 => expand_rgb_to_rgba(pixels),
        _ => {
            let mut copy: Vec<u8> = Vec::new();
            let mut i: usize = 0;
            while i < pixels.len()
                invariant
                    i <= pixels.len(),
                    copy@ =~= pixels@.take(i as int),
                decreases pixels.len() - i,
            {
                copy.push(pixels[i]);
                i += 1;
            }
            assert(pixels@.take(pixels@.len() as int) =~= pixels@);
            copy
        },
    };
    Some((tf, data))
}

} // verus!
