//! Plain data types shared with the C side of the renderer: resource handles,
//! flag words, object and surface kinds, material table entries.

use vstd::prelude::*;

verus! {

/// Handle to a renderer resource: slot `index` plus the `generation` that
/// slot had when the resource was stored. Index 0 is the null handle.
#[derive(Clone, Copy, Debug, PartialEq, Eq, Structural)]
pub struct ResourceHandle {
    pub index: u32,
    pub generation: u32,
}

impl ResourceHandle {
    /// The null handle: index 0, generation 0.
    pub fn null() -> (r: ResourceHandle)
        ensures
            r.index == 0,
            r.generation == 0,
    {
        ResourceHandle { index: 0, generation: 0 }
    }

    /// A handle refers to something exactly when its index is nonzero.
    pub fn is_valid(&self) -> (r: bool)
        ensures
            r == (self.index != 0),
    {
        self.index != 0
    }
}

impl Default for ResourceHandle {
    fn default() -> (r: Self)
        ensures
            r.index == 0,
            r.generation == 0,
    {
        ResourceHandle::null()
    }
}

/// Pixel formats a texture upload may carry.
#[derive(Clone, Copy, Debug, Default, PartialEq, Eq, Structural)]
pub enum TextureFormat {
    #[default]
    RGBA8,
    RGBA8Srgb,
    R8,
    BC1,
    BC1Srgb,
    BC2,
    BC2Srgb,
    BC3,
    BC3Srgb,
    BC4,
    BC5,
    BC7,
    BC7Srgb,
}

/// Shape of an area light.
#[derive(Clone, Copy, Debug, Default, PartialEq, Eq, Structural)]
pub enum LightKind {
    #[default]
    AreaSphere,
    AreaRect,
}

/// One entry of the material edge table: two packed texture map words.
#[derive(Clone, Copy, Debug, PartialEq, Eq, Structural)]
pub struct MaterialEdge {
    pub mat1: u16,
    pub mat2: u16,
}

/// Flags attached to a mesh submission.
#[derive(Clone, Copy, Debug, Default, PartialEq, Eq, Structural)]
pub struct RenderMeshFlags(pub u32);

impl RenderMeshFlags {
    pub fn none() -> (r: RenderMeshFlags)
        ensures
            r.0 == 0,
    {
        RenderMeshFlags(0)
    }

    pub fn reverse_culling() -> (r: RenderMeshFlags)
        ensures
            r.0 == 1,
    {
        RenderMeshFlags(1)
    }

    pub fn teleport() -> (r: RenderMeshFlags)
        ensures
            r.0 == 2,
    {
        RenderMeshFlags(2)
    }

    /// True when the two flag words share at least one set bit.
    pub fn contains(self, flag: RenderMeshFlags) -> (r: bool)
        ensures
            r == (self.0 & flag.0 != 0),
    {
        (self.0 & flag.0) != 0
    }
}

/// Kind of game object a mesh belongs to.
#[derive(Clone, Copy, Debug, Default, PartialEq, Eq, Structural)]
pub enum ObjectType {
    #[default]
    Wall,
    Fireball,
    Robot,
    Hostage,
    Player,
    Weapon,
    Camera,
    Powerup,
    NoObject,
}

/// The object type a raw byte stands for: codes 0 through 7 name the object
/// kinds in order, any other code means no object (`NoObject`).
pub open spec fn object_type_of(v: u8) -> ObjectType {
    if v == 0 {
        ObjectType::Wall
    } else if v == 1 {
        ObjectType::Fireball
    } else if v == 2 {
        ObjectType::Robot
    } else if v == 3 {
        ObjectType::Hostage
    } else if v == 4 {
        ObjectType::Player
    } else if v == 5 {
        ObjectType::Weapon
    } else if v == 6 {
        ObjectType::Camera
    } else if v == 7 {
        ObjectType::Powerup
    } else {
        ObjectType::NoObject
    }
}

impl ObjectType {
    /// Decode an object type byte.
    pub fn from_u8(v: u8) -> (r: ObjectType)
        ensures
            r == object_type_of(v),
    {
        match v {
            0 => ObjectType::Wall,
            1 => ObjectType::Fireball,
            2 => ObjectType::Robot,
            3 => ObjectType::Hostage,
            4 => ObjectType::Player,
            5 => ObjectType::Weapon,
            6 => ObjectType::Camera,
            7 => ObjectType::Powerup,
            _ => ObjectType::NoObject,
        }
    }
}

/// Parameters of the renderer's debug menu pass.
#[derive(Clone, Copy, Debug, PartialEq, Eq, Structural)]
pub struct DoRendererDebugMenuParams {
    pub ui_has_cursor_focus: bool,
}

/// Shadow ray strategy of the raytrace shader.
#[derive(Clone, Copy, Debug, Default, PartialEq, Eq, Structural)]
pub enum ShadowMode {
    Hard,
    MultiSample,
    #[default]
    Analytic,
}

/// Debug visualisation selected for the frame.
#[derive(Clone, Copy, Debug, Default, PartialEq, Eq, Structural)]
pub enum DebugRenderMode {
    #[default]
    Off,
    Normals,
    Depth,
    Albedo,
    Emissive,
    Diffuse,
    Specular,
    Motion,
    MetallicRoughness,
    HistoryLength,
    Materials,
    FirstMoment,
    SecondMoment,
    Variance,
    Bloom0,
    Bloom1,
    Bloom2,
    Bloom3,
    Bloom4,
    Bloom5,
    Bloom6,
    Bloom7,
}

/// Surface class that selects roughness and metalness on the GPU.
#[derive(Clone, Copy, Debug, Default, PartialEq, Eq, Structural)]
pub enum SurfaceType {
    #[default]
    Rock,
    Metal,
    Steel,
    Plastic,
    Rubber,
    Emissive,
}

/// Material flag word.
#[derive(Clone, Copy, Debug, Default, PartialEq, Eq, Structural)]
pub struct MaterialFlags(pub u32);

impl MaterialFlags {
    pub fn none() -> (r: MaterialFlags)
        ensures
            r.0 == 0,
    {
        MaterialFlags(0)
    }

    pub fn blackbody_radiator() -> (r: MaterialFlags)
        ensures
            r.0 == 1,
    {
        MaterialFlags(1)
    }

    pub fn no_casting_shadow() -> (r: MaterialFlags)
        ensures
            r.0 == 2,
    {
        MaterialFlags(2)
    }

    pub fn light() -> (r: MaterialFlags)
        ensures
            r.0 == 4,
    {
        MaterialFlags(4)
    }

    pub fn fsr2_reactive_mask() -> (r: MaterialFlags)
        ensures
            r.0 == 8,
    {
        MaterialFlags(8)
    }

    pub fn alpha_cutout() -> (r: MaterialFlags)
        ensures
            r.0 == 16,
    {
        MaterialFlags(16)
    }

    /// True when the two flag words share at least one set bit.
    pub fn contains(self, flag: MaterialFlags) -> (r: bool)
        ensures
            r == (self.0 & flag.0 != 0),
    {
        (self.0 & flag.0) != 0
    }

    /// True when the blackbody radiator bit (bit 0) is set.
    pub fn is_blackbody(self) -> (r: bool)
        ensures
            r == (self.0 & 1 != 0),
    {
        self.contains(MaterialFlags::blackbody_radiator())
    }
}

/// Per-material data the raytrace shader reads: the slot index of the albedo
/// texture (0 = none), the flags, and the emissive factor.
#[derive(Clone, Copy, Debug, Default, PartialEq, Eq, Structural)]
pub struct GPUMaterial {
    pub albedo_index: u32,
    pub flags: MaterialFlags,
    pub emissive_factor: u32,
    pub surface_type: SurfaceType,
}

} // verus!
