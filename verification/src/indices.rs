//! Index newtypes that are validated when they are made: a value of one of
//! these types is known to lie inside the table it indexes.

use vstd::prelude::*;

use crate::{RT_MAX_MATERIALS, RT_MAX_MATERIAL_EDGES};

verus! {

/// Index into the material table, below `RT_MAX_MATERIALS`.
/// Value 0 is a valid index.
#[derive(Clone, Copy, Debug, PartialEq, Eq, Hash, Structural)]
pub struct BitmapIndex(u16);

impl View for BitmapIndex {
    type V = u16;

    closed spec fn view(&self) -> u16 {
        self.0
    }
}

impl BitmapIndex {
    #[verifier::type_invariant]
    closed spec fn in_range(self) -> bool {
        (self.0 as int) < RT_MAX_MATERIALS
    }

    /// The index `raw`, when it lies below `RT_MAX_MATERIALS`.
    pub fn new(raw: u16) -> (r: Option<BitmapIndex>)
        ensures
            r is Some <==> (raw as int) < RT_MAX_MATERIALS,
            r matches Some(i) ==> i@ == raw,
    {
        if (raw as usize) < RT_MAX_MATERIALS {
            Some(BitmapIndex(raw))
        } else {
            None
        }
    }

    pub fn as_usize(self) -> (r: usize)
        ensures
            r == self@,
            r < RT_MAX_MATERIALS,
    {
        proof {
            use_type_invariant(&self);
        }
        self.0 as usize
    }

    pub fn as_u16(self) -> (r: u16)
        ensures
            r == self@,
            (r as int) < RT_MAX_MATERIALS,
    {
        proof {
            use_type_invariant(&self);
        }
        self.0
    }

    pub fn as_u32(self) -> (r: u32)
        ensures
            r == self@,
            (r as int) < RT_MAX_MATERIALS,
    {
        proof {
            use_type_invariant(&self);
        }
        self.0 as u32
    }
}

/// Texture map number: index into the material index table, below
/// `RT_MAX_MATERIALS`.
#[derive(Clone, Copy, Debug, PartialEq, Eq, Hash, Structural)]
pub struct TmapNum(u16);

impl View for TmapNum {
    type V = u16;

    closed spec fn view(&self) -> u16 {
        self.0
    }
}

impl TmapNum {
    #[verifier::type_invariant]
    closed spec fn in_range(self) -> bool {
        (self.0 as int) < RT_MAX_MATERIALS
    }

    /// The texture map number `raw`, when it lies below `RT_MAX_MATERIALS`.
    pub fn new(raw: u16) -> (r: Option<TmapNum>)
        ensures
            r is Some <==> (raw as int) < RT_MAX_MATERIALS,
            r matches Some(t) ==> t@ == raw,
    {
        if (raw as usize) < RT_MAX_MATERIALS {
            Some(TmapNum(raw))
        } else {
            None
        }
    }

    pub fn as_usize(self) -> (r: usize)
        ensures
            r == self@,
            r < RT_MAX_MATERIALS,
    {
        proof {
            use_type_invariant(&self);
        }
        self.0 as usize
    }

    pub fn as_u16(self) -> (r: u16)
        ensures
            r == self@,
            (r as int) < RT_MAX_MATERIALS,
    {
        proof {
            use_type_invariant(&self);
        }
        self.0
    }
}

/// Index into the material edge table, below `RT_MAX_MATERIAL_EDGES`.
#[derive(Clone, Copy, Debug, PartialEq, Eq, Hash, Structural)]
pub struct MaterialEdgeIndex(u32);

impl View for MaterialEdgeIndex {
    type V = u32;

    closed spec fn view(&self) -> u32 {
        self.0
    }
}

impl MaterialEdgeIndex {
    #[verifier::type_invariant]
    closed spec fn in_range(self) -> bool {
        (self.0 as int) < RT_MAX_MATERIAL_EDGES
    }

    /// The edge index `raw`, when it lies below `RT_MAX_MATERIAL_EDGES`.
    pub fn new(raw: u32) -> (r: Option<MaterialEdgeIndex>)
        ensures
            r is Some <==> (raw as int) < RT_MAX_MATERIAL_EDGES,
            r matches Some(e) ==> e@ == raw,
    {
        if (raw as usize) < RT_MAX_MATERIAL_EDGES {
            Some(MaterialEdgeIndex(raw))
        } else {
            None
        }
    }

    pub fn as_usize(self) -> (r: usize)
        ensures
            r == self@,
            r < RT_MAX_MATERIAL_EDGES,
    {
        proof {
            use_type_invariant(&self);
        }
        self.0 as usize
    }

    pub fn as_u32(self) -> (r: u32)
        ensures
            r == self@,
            (r as int) < RT_MAX_MATERIAL_EDGES,
    {
        proof {
            use_type_invariant(&self);
        }
        self.0
    }
}

/// Slot of a texture in the texture slot map; 0 means no texture.
#[derive(Clone, Copy, Debug, PartialEq, Eq, Hash, Structural)]
pub struct TextureSlotId(u32);

impl View for TextureSlotId {
    type V = u32;

    closed spec fn view(&self) -> u32 {
        self.0
    }
}

impl TextureSlotId {
    /// The empty slot id, 0.
    pub fn none() -> (r: TextureSlotId)
        ensures
            r@ == 0,
    {
        TextureSlotId(0)
    }

    pub fn new(raw: u32) -> (r: TextureSlotId)
        ensures
            r@ == raw,
    {
        TextureSlotId(raw)
    }

    /// True when the id names a texture (is nonzero).
    pub fn is_some(self) -> (r: bool)
        ensures
            r == (self@ != 0),
    {
        self.0 != 0
    }

    pub fn as_u32(self) -> (r: u32)
        ensures
            r == self@,
    {
        self.0
    }

    pub fn as_usize(self) -> (r: usize)
        ensures
            r == self@,
    {
        self.0 as usize
    }
}

} // verus!
