//! Renderer core logic: validated indices, packed material and triangle
//! encodings, resource slot maps, texture remapping for alpha cutout, and the
//! per-frame bookkeeping of the raytracing backend.

use vstd::prelude::*;

pub mod color;
pub mod frame;
pub mod gpu_buffer;
pub mod indices;
pub mod instance;
pub mod material;
pub mod raster;
pub mod remap;
pub mod resolve;
pub mod scene;
pub mod slotmap;
pub mod texture;
pub mod triangle_ref;
pub mod types;

verus! {

/// Maximum number of level segments.
pub const RT_MAX_SEGMENTS: usize = 9000;

/// Sides per level segment.
pub const RT_SIDES_PER_SEGMENT: usize = 6;

/// Number of entries in the material edge table (one per segment side).
pub const RT_MAX_MATERIAL_EDGES: usize = RT_MAX_SEGMENTS * RT_SIDES_PER_SEGMENT;

/// Maximum number of bitmap files.
pub const RT_MAX_BITMAP_FILES: usize = 1800;

/// Maximum number of object bitmaps.
pub const RT_MAX_OBJ_BITMAPS: usize = 210;

/// Extra bitmap slots.
pub const RT_EXTRA_BITMAP_COUNT: usize = 100;

/// Number of entries in the material table.
pub const RT_MAX_MATERIALS: usize = RT_MAX_BITMAP_FILES + RT_MAX_OBJ_BITMAPS + RT_EXTRA_BITMAP_COUNT;

/// Number of entries in the bindless texture table.
pub const RT_MAX_TEXTURES: usize = 3 * 2010;

/// Maximum number of lights accepted per frame.
pub const RT_MAX_LIGHTS: usize = 100;

} // verus!
