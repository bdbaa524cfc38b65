//! Parsed material edges.
//!
//! A material edge carries two packed words: `mat1`, the base texture map
//! number, and `mat2`, which packs the overlay texture map number (bits 0-9),
//! the door openness (bits 10-13) and the UV orientation (bits 14-15). An
//! overlay number of 0 means the edge has no overlay.

use vstd::prelude::*;

use crate::indices::TmapNum;
use crate::RT_MAX_MATERIALS;

verus! {

/// Overlay material: texture map number plus animation state.
#[derive(Clone, Copy, Debug, PartialEq, Eq, Structural)]
pub struct OverlayMaterial {
    pub tmap_num: TmapNum,
    /// Door openness, bits 10-13 of `mat2` (0-15).
    pub door_openness: u8,
    /// UV orientation, bits 14-15 of `mat2` (0-3).
    pub orientation: u8,
}

/// A material edge with its base texture and optional overlay.
#[derive(Clone, Copy, Debug, PartialEq, Eq, Structural)]
pub struct ParsedMaterialEdge {
    pub base: TmapNum,
    pub overlay: Option<OverlayMaterial>,
}

/// Base texture map number of `mat1`: itself when in range, else 0.
pub open spec fn base_tmap_of(mat1: u16) -> u16 {
    if (mat1 as int) < RT_MAX_MATERIALS {
        mat1
    } else {
        0
    }
}

/// Overlay texture map number packed in `mat2` (bits 0-9).
pub open spec fn overlay_tmap_of(mat2: u16) -> u16 {
    mat2 & 0x03FF
}

/// Door openness packed in `mat2` (bits 10-13).
pub open spec fn door_openness_of(mat2: u16) -> u16 {
    (mat2 >> 10u16) & 0x0F
}

/// UV orientation packed in `mat2` (bits 14-15).
pub open spec fn orientation_of(mat2: u16) -> u16 {
    (mat2 >> 14u16) & 0x03
}

/// Every base texture map number that names a material table entry is kept
/// as it is; only numbers past the table fall back to texture map 0.
pub proof fn lemma_base_tmap_kept_in_range(mat1: u16)
    ensures
        (mat1 as int) < RT_MAX_MATERIALS ==> base_tmap_of(mat1) == mat1,
        (mat1 as int) >= RT_MAX_MATERIALS ==> base_tmap_of(mat1) == 0,
{
}

/// `mat2` packed from an overlay number, a door openness and an orientation.
pub open spec fn pack_mat2(overlay: u16, door_openness: u16, orientation: u16) -> u16 {
    overlay | (door_openness << 10u16) | (orientation << 14u16)
}

/// The three fields of `mat2` cover all of its bits: packing them again
/// gives the word back.
pub proof fn lemma_mat2_fields_repack(mat2: u16)
    ensures
        overlay_tmap_of(mat2) < 1024,
        door_openness_of(mat2) < 16,
        orientation_of(mat2) < 4,
        pack_mat2(overlay_tmap_of(mat2), door_openness_of(mat2), orientation_of(mat2)) == mat2,
{
    assert(mat2 & 0x03FF < 1024) by (bit_vector);
    assert((mat2 >> 10u16) & 0x0F < 16) by (bit_vector);
    assert((mat2 >> 14u16) & 0x03 < 4) by (bit_vector);
    assert((mat2 & 0x03FF) | ((((mat2 >> 10u16) & 0x0F) as u16) << 10u16) | ((((mat2 >> 14u16) & 0x03) as u16) << 14u16) == mat2) by (bit_vector);
}

/// Fields that fit their bit widths come back unchanged from a packed word.
pub proof fn lemma_mat2_pack_then_unpack(overlay: u16, door_openness: u16, orientation: u16)
    requires
        overlay < 1024,
        door_openness < 16,
        orientation < 4,
    ensures
        overlay_tmap_of(pack_mat2(overlay, door_openness, orientation)) == overlay,
        door_openness_of(pack_mat2(overlay, door_openness, orientation)) == door_openness,
        orientation_of(pack_mat2(overlay, door_openness, orientation)) == orientation,
{
    assert(((overlay | (door_openness << 10u16) | (orientation << 14u16)) & 0x03FF) == overlay) by (bit_vector)
        requires overlay < 1024, door_openness < 16, orientation < 4;
    assert((((overlay | (door_openness << 10u16) | (orientation << 14u16)) >> 10u16) & 0x0F) == door_openness) by (bit_vector)
        requires overlay < 1024, door_openness < 16, orientation < 4;
    assert((((overlay | (door_openness << 10u16) | (orientation << 14u16)) >> 14u16) & 0x03) == orientation) by (bit_vector)
        requires overlay < 1024, door_openness < 16, orientation < 4;
}

impl ParsedMaterialEdge {
    /// Parse the two words of a material edge. An out-of-range base number
    /// falls back to 0; an overlay is present exactly when its number is
    /// nonzero.
    pub fn from_raw(mat1: u16, mat2: u16) -> (r: ParsedMaterialEdge)
        ensures
            r.base@ == base_tmap_of(mat1),
            (mat1 as int) < RT_MAX_MATERIALS ==> r.base@ == mat1,
            (mat1 as int) >= RT_MAX_MATERIALS ==> r.base@ == 0,
            mat2 & 0x03FF == 0 ==> r.overlay is None,
            r.overlay is Some <==> overlay_tmap_of(mat2) != 0,
            r.overlay matches Some(o) ==> {
                &&& o.tmap_num@ == overlay_tmap_of(mat2)
                &&& o.door_openness == door_openness_of(mat2)
                &&& o.orientation == orientation_of(mat2)
            },
    {
        let base = match TmapNum::new(mat1) {
            Some(t) => t,
            None => {
                // Out-of-range base: fall back to texture map 0.
                let zero = TmapNum::new(0);
                zero.unwrap()
            },
        };

        let overlay_tmap_raw: u16 = mat2 & 0x03FF;
        let overlay = if overlay_tmap_raw > 0 {
            assert(mat2 & 0x03FF <= 0x03FF) by (bit_vector);
            match TmapNum::new(overlay_tmap_raw) {
                Some(tmap_num) => {
                    let door_openness = ((mat2 >> 10u16) & 0x0F) as u8;
                    let orientation = ((mat2 >> 14u16) & 0x03) as u8;
                    assert((mat2 >> 10u16) & 0x0F <= 0x0F) by (bit_vector);
                    assert((mat2 >> 14u16) & 0x03 <= 0x03) by (bit_vector);
                    Some(OverlayMaterial { tmap_num, door_openness, orientation })
                },
                None => None,
            }
        } else {
            None
        };

        ParsedMaterialEdge { base, overlay }
    }

    /// The texture in effect: the overlay's when there is one, else the base.
    pub fn active_tmap(&self) -> (t: TmapNum)
        ensures
            t == match self.overlay {
                Some(o) => o.tmap_num,
                None => self.base,
            },
    {
        match &self.overlay {
            Some(o) => o.tmap_num,
            None => self.base,
        }
    }
}

} // verus!
