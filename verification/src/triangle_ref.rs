//! Parsed triangle material reference.
//!
//! A triangle's material word packs flags in its top bits and a material edge
//! index in its low 29 bits. The special value `0xFFFF` means "use the
//! instance's material override".

use vstd::prelude::*;

use crate::indices::MaterialEdgeIndex;
use crate::RT_MAX_MATERIAL_EDGES;

verus! {

/// What a triangle takes its material from.
#[derive(Clone, Copy, Debug, PartialEq, Eq, Structural)]
pub enum TriangleMaterialRef {
    /// Level geometry: an entry of the material edge table.
    MaterialEdge { index: MaterialEdgeIndex, alpha_cutout: bool },
    /// Billboard/rod: the instance's material override.
    InstanceOverride,
}

/// Material word meaning "use the instance override".
pub const RT_TRIANGLE_MATERIAL_INSTANCE_OVERRIDE: u32 = 0xFFFF;

/// Alpha cutout flag (bit 29).
pub const RT_TRIANGLE_ALPHA_CUTOUT: u32 = 0x2000_0000;

/// Mask of the material edge index (bits 0-28).
pub const RT_TRIANGLE_MEI_MASK: u32 = 0x1FFF_FFFF;

/// What the material word `raw` refers to: the instance override for
/// `0xFFFF` or for an edge index outside the table, else the masked edge
/// index with the cutout flag.
pub open spec fn material_ref_of(raw: u32) -> Option<(u32, bool)> {
    if raw == RT_TRIANGLE_MATERIAL_INSTANCE_OVERRIDE {
        None
    } else if ((raw & RT_TRIANGLE_MEI_MASK) as int) < RT_MAX_MATERIAL_EDGES {
        Some((raw & RT_TRIANGLE_MEI_MASK, raw & RT_TRIANGLE_ALPHA_CUTOUT != 0))
    } else {
        None
    }
}

impl TriangleMaterialRef {
    /// Parse a triangle's material word.
    pub fn parse(raw: u32) -> (r: TriangleMaterialRef)
        ensures
            match material_ref_of(raw) {
                None => r is InstanceOverride,
                Some((e, cut)) => r matches TriangleMaterialRef::MaterialEdge { index, alpha_cutout }
                    && index@ == e && alpha_cutout == cut,
            },
    {
        if raw == RT_TRIANGLE_MATERIAL_INSTANCE_OVERRIDE {
            return TriangleMaterialRef::InstanceOverride;
        }

        let masked = raw & RT_TRIANGLE_MEI_MASK;
        let alpha_cutout = (raw & RT_TRIANGLE_ALPHA_CUTOUT) != 0;

        match MaterialEdgeIndex::new(masked) {
            Some(index) => TriangleMaterialRef::MaterialEdge { index, alpha_cutout },
            // Out-of-range index: treat as instance override to avoid reading
            // outside the edge table.
            None => TriangleMaterialRef::InstanceOverride,
        }
    }
}

} // verus!
