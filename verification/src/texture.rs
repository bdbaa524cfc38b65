//! Texture upload layout.

use vstd::prelude::*;

use crate::types::TextureFormat;

verus! {

/// Bytes per pixel of the formats that can be uploaded: 4 for the RGBA8
/// formats, 1 for R8; the compressed formats cannot.
pub open spec fn spec_bytes_per_pixel(format: TextureFormat) -> Option<u32> {
    match format {
        TextureFormat::RGBA8 => Some(4u32),
        TextureFormat::RGBA8Srgb => Some(4u32),
        TextureFormat::R8 => Some(1u32),
        _ => None,
    }
}

pub fn bytes_per_pixel(format: TextureFormat) -> (r: Option<u32>)
    ensures
        r == spec_bytes_per_pixel(format),
{
    match format {
        TextureFormat::RGBA8 => Some(4),
        TextureFormat::RGBA8Srgb => Some(4),
        TextureFormat::R8 => Some(1),
        _ => None,
    }
}

/// Row pitch in bytes of an upload: `None` (nothing is uploaded) when the
/// format cannot be uploaded, there are no pixels, or a dimension is 0.
pub fn upload_row_bytes(format: TextureFormat, width: u32, height: u32, has_pixels: bool) -> (r: Option<usize>)
    requires
        (width as int) * 4 <= usize::MAX,
    ensures
        r == match spec_bytes_per_pixel(format) {
            Some(bpp) => if has_pixels && width != 0 && height != 0 {
                Some((width * bpp) as usize)
            } else {
                None
            },
            None => None,
        },
{
    let bpp = match bytes_per_pixel(format) {
        Some(b) => b,
        None => return None,
    };
    if !has_pixels || width == 0 || height == 0 {
        return None;
    }
    Some(width as usize * bpp as usize)
}

} // verus!
