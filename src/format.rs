//! Pixel and vertex formats the renderer works with, and the two facts about
//! them that come from wgpu: the gamma-corrected view of a color format and
//! the byte size of a vertex attribute.

use vstd::prelude::*;
use wgpu::{TextureFormat, VertexFormat};

verus! {

/// Color formats a presentable surface may be configured with.
#[derive(Clone, Copy, Debug, PartialEq, Eq, Structural)]
pub enum ColorFormat {
    Bgra8Unorm,
    Bgra8UnormSrgb,
    Rgba8Unorm,
    Rgba8UnormSrgb,
}

/// Format of the depth/stencil attachment; fixed for the process lifetime.
#[derive(Clone, Copy, Debug, PartialEq, Eq, Structural)]
pub enum DepthFormat {
    Depth24PlusStencil8,
}

/// Formats of a single vertex attribute.
#[derive(Clone, Copy, Debug, PartialEq, Eq, Structural)]
pub enum AttributeFormat {
    Float32,
    Float32x2,
    Float32x3,
    Float32x4,
}

/// The sRGB counterpart of a linear format; sRGB formats map to themselves.
pub open spec fn srgb_view_of(f: ColorFormat) -> ColorFormat {
    match f {
        ColorFormat::Bgra8Unorm => ColorFormat::Bgra8UnormSrgb,
        ColorFormat::Rgba8Unorm => ColorFormat::Rgba8UnormSrgb,
        _ => f,
    }
}

/// Byte size of one attribute of the given format.
pub open spec fn attribute_size_of(f: AttributeFormat) -> nat {
    match f {
        AttributeFormat::Float32 => 4,
        AttributeFormat::Float32x2 => 8,
        AttributeFormat::Float32x3 => 12,
        AttributeFormat::Float32x4 => 16,
    }
}

/// Relies on wgpu's `TextureFormat::add_srgb_suffix`: `Bgra8Unorm` and
/// `Rgba8Unorm` gain the sRGB suffix, every other format is returned as is.
#[verifier::external_body]
fn add_srgb_suffix(f: ColorFormat) -> (r: Option<ColorFormat>)
    ensures
        r == Some(srgb_view_of(f)),
{
    let t = match f {
        ColorFormat::Bgra8Unorm => TextureFormat::Bgra8Unorm,
        ColorFormat::Bgra8UnormSrgb => TextureFormat::Bgra8UnormSrgb,
        ColorFormat::Rgba8Unorm => TextureFormat::Rgba8Unorm,
        ColorFormat::Rgba8UnormSrgb => TextureFormat::Rgba8UnormSrgb,
    };
    match t.add_srgb_suffix() {
        TextureFormat::Bgra8UnormSrgb => Some(ColorFormat::Bgra8UnormSrgb),
        TextureFormat::Rgba8UnormSrgb => Some(ColorFormat::Rgba8UnormSrgb),
        _ => None,
    }
}

/// Relies on wgpu's `VertexFormat::size`: 4 bytes per 32-bit float component.
#[verifier::external_body]
fn vertex_format_size(f: AttributeFormat) -> (r: u64)
    ensures
        r == attribute_size_of(f),
{
    match f {
        AttributeFormat::Float32 => VertexFormat::Float32,
        AttributeFormat::Float32x2 => VertexFormat::Float32x2,
        AttributeFormat::Float32x3 => VertexFormat::Float32x3,
        AttributeFormat::Float32x4 => VertexFormat::Float32x4,
    }.size()
}

/// The format through which a surface image of format `f` is viewed when
/// rendering, so that written colors are gamma corrected.
pub fn srgb_view_format(f: ColorFormat) -> (r: ColorFormat)
    ensures
        r == srgb_view_of(f),
{
    match add_srgb_suffix(f) {
        Some(v) => v,
        None => f,
    }
}

/// Byte size of one vertex attribute of format `f`.
pub fn attribute_size(f: AttributeFormat) -> (r: u64)
    ensures
        r == attribute_size_of(f),
        4 <= r <= 16,
{
    vertex_format_size(f)
}

} // verus!
