//! Texel formats on the two sides of the bridge and the mapping between them.
use vstd::prelude::*;

verus! {

/// Texel format as the scheduler names it.
#[derive(Clone, Copy, Debug, PartialEq, Eq, Structural)]
pub enum Format {
    Unknown,
    B8G8R8A8UnormSrgb,
    R8G8B8A8UnormSrgb,
    R16G16B16A16Float,
    R32G32B32A32Float,
    D32Float,
    R32Float,
    R16Float,
    R16G16Float,
    R9G9B9E5SharedExp,
    /// A format that the bridge has no mapping for.
    Other,
}

/// Texel format as the backend names it.
#[derive(Clone, Copy, Debug, PartialEq, Eq, Structural)]
pub enum TextureFormat {
    Bgra8UnormSrgb,
    Rgba8UnormSrgb,
    Rgba8Unorm,
    Rgba16Float,
    Rgba32Float,
    Depth32Float,
    R32Float,
    R16Float,
    Rg16Float,
    Rgb9e5Ufloat,
    /// A format that the bridge has no mapping for.
    Other,
}

/// A format for which no mapping exists.
#[derive(Clone, Copy, Debug, PartialEq, Eq, Structural)]
pub struct UnmappedFormat;

/// The scheduler's name of a presentable backend format.
pub open spec fn spec_map_wgpu_format_to_rps(format: TextureFormat) -> Option<Format> {
    match format {
        TextureFormat::Bgra8UnormSrgb => Some(Format::B8G8R8A8UnormSrgb),
        TextureFormat::Rgba8UnormSrgb => Some(Format::R8G8B8A8UnormSrgb),
        _ => None,
    }
}

/// The backend's name of a scheduler format. The unknown format maps to no
/// format at all, which is no failure.
pub open spec fn spec_map_rps_format_to_wgpu(format: Format) -> Result<
    Option<TextureFormat>,
    UnmappedFormat,
> {
    match format {
        Format::B8G8R8A8UnormSrgb => Ok(Some(TextureFormat::Bgra8UnormSrgb)),
        Format::R16G16B16A16Float => Ok(Some(TextureFormat::Rgba16Float)),
        Format::R32G32B32A32Float => Ok(Some(TextureFormat::Rgba32Float)),
        Format::D32Float => Ok(Some(TextureFormat::Depth32Float)),
        Format::Unknown => Ok(None),
        Format::R32Float => Ok(Some(TextureFormat::R32Float)),
        Format::R16Float => Ok(Some(TextureFormat::R16Float)),
        Format::R16G16Float => Ok(Some(TextureFormat::Rg16Float)),
        Format::R9G9B9E5SharedExp => Ok(Some(TextureFormat::Rgb9e5Ufloat)),
        Format::R8G8B8A8UnormSrgb | Format::Other => Err(UnmappedFormat),
    }
}

/// The scheduler's name of a presentable backend format; `None` for a format
/// that cannot be presented.
pub fn map_wgpu_format_to_rps(format: TextureFormat) -> (mapped: Option<Format>)
    ensures
        mapped == spec_map_wgpu_format_to_rps(format),
{
    match format {
        TextureFormat::Bgra8UnormSrgb => Some(Format::B8G8R8A8UnormSrgb),
        TextureFormat::Rgba8UnormSrgb => Some(Format::R8G8B8A8UnormSrgb),
        _ => None,
    }
}

/// The backend's name of a scheduler format.
pub fn map_rps_format_to_wgpu(format: Format) -> (mapped: Result<Option<TextureFormat>, UnmappedFormat>)
    ensures
        mapped == spec_map_rps_format_to_wgpu(format),
{
    match format {
        Format::B8G8R8A8UnormSrgb => Ok(Some(TextureFormat::Bgra8UnormSrgb)),
        Format::R16G16B16A16Float => Ok(Some(TextureFormat::Rgba16Float)),
        Format::R32G32B32A32Float => Ok(Some(TextureFormat::Rgba32Float)),
        Format::D32Float => Ok(Some(TextureFormat::Depth32Float)),
        Format::Unknown => Ok(None),
        Format::R32Float => Ok(Some(TextureFormat::R32Float)),
        Format::R16Float => Ok(Some(TextureFormat::R16Float)),
        Format::R16G16Float => Ok(Some(TextureFormat::Rg16Float)),
        Format::R9G9B9E5SharedExp => Ok(Some(TextureFormat::Rgb9e5Ufloat)),
        Format::R8G8B8A8UnormSrgb | Format::Other => Err(UnmappedFormat),
    }
}

} // verus!
