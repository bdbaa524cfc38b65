//! Scene instances: the objects submitted for raytracing in a frame (level
//! geometry, camera-facing billboards, rods).
//!
//! Instances are generic over the transform type `M`: the library records and
//! reads everything about an instance except its transform matrices, which it
//! only carries.

use vstd::prelude::*;

use crate::color::RGBA8;
use crate::indices::BitmapIndex;
use crate::types::{ObjectType, ResourceHandle};

verus! {

/// A mesh handle that is not null (its index is nonzero).
#[derive(Clone, Copy, Debug, PartialEq, Eq, Structural)]
pub struct MeshHandle(ResourceHandle);

impl View for MeshHandle {
    type V = ResourceHandle;

    closed spec fn view(&self) -> ResourceHandle {
        self.0
    }
}

impl MeshHandle {
    #[verifier::type_invariant]
    closed spec fn non_null(self) -> bool {
        self.0.index != 0
    }

    /// Wrap a handle already checked against the mesh slot map. Such a
    /// handle is never null.
    pub fn from_validated(handle: ResourceHandle) -> (m: MeshHandle)
        requires
            handle.index != 0,
        ensures
            m@ == handle,
    {
        MeshHandle(handle)
    }

    /// Wrap `handle` unless it is null.
    pub fn try_new(handle: ResourceHandle) -> (m: Option<MeshHandle>)
        ensures
            m is Some <==> handle.index != 0,
            m matches Some(h) ==> h@ == handle,
    {
        if handle.is_valid() {
            Some(MeshHandle(handle))
        } else {
            None
        }
    }

    pub fn raw(self) -> (h: ResourceHandle)
        ensures
            h == self@,
            h.index != 0,
    {
        proof {
            use_type_invariant(&self);
        }
        self.0
    }
}

/// A scene instance queued for rendering this frame.
#[derive(Clone, Debug)]
pub enum SceneInstance<M> {
    /// Level mesh: materials come from the triangles unless overridden.
    LevelMesh {
        mesh: MeshHandle,
        transform: M,
        color: RGBA8,
        material_override: Option<BitmapIndex>,
        object_type: ObjectType,
    },
    /// Camera-facing billboard sprite.
    Billboard { mesh: MeshHandle, transform: M, prev_transform: M, color: RGBA8, material: BitmapIndex },
    /// Rod between two points (laser beams and the like).
    Rod { mesh: MeshHandle, transform: M, color: RGBA8, material: BitmapIndex },
}

impl<M> SceneInstance<M> {
    /// The instance's mesh.
    pub open spec fn spec_mesh(&self) -> MeshHandle {
        match self {
            SceneInstance::LevelMesh { mesh, .. } => *mesh,
            SceneInstance::Billboard { mesh, .. } => *mesh,
            SceneInstance::Rod { mesh, .. } => *mesh,
        }
    }

    /// The instance's colour.
    pub open spec fn spec_color(&self) -> RGBA8 {
        match self {
            SceneInstance::LevelMesh { color, .. } => *color,
            SceneInstance::Billboard { color, .. } => *color,
            SceneInstance::Rod { color, .. } => *color,
        }
    }

    /// The material that overrides the triangles' own: always the material of
    /// a billboard or rod, the optional override of a level mesh.
    pub open spec fn spec_material_override(&self) -> Option<BitmapIndex> {
        match self {
            SceneInstance::LevelMesh { material_override, .. } => *material_override,
            SceneInstance::Billboard { material, .. } => Some(*material),
            SceneInstance::Rod { material, .. } => Some(*material),
        }
    }

    pub fn mesh(&self) -> (m: MeshHandle)
        ensures
            m == self.spec_mesh(),
    {
        match self {
            SceneInstance::LevelMesh { mesh, .. } => *mesh,
            SceneInstance::Billboard { mesh, .. } => *mesh,
            SceneInstance::Rod { mesh, .. } => *mesh,
        }
    }

    pub fn transform(&self) -> (t: &M)
        ensures
            *t == match self {
                SceneInstance::LevelMesh { transform, .. } => *transform,
                SceneInstance::Billboard { transform, .. } => *transform,
                SceneInstance::Rod { transform, .. } => *transform,
            },
    {
        match self {
            SceneInstance::LevelMesh { transform, .. } => transform,
            SceneInstance::Billboard { transform, .. } => transform,
            SceneInstance::Rod { transform, .. } => transform,
        }
    }

    pub fn color(&self) -> (c: RGBA8)
        ensures
            c == self.spec_color(),
    {
        match self {
            SceneInstance::LevelMesh { color, .. } => *color,
            SceneInstance::Billboard { color, .. } => *color,
            SceneInstance::Rod { color, .. } => *color,
        }
    }

    pub fn material_override(&self) -> (m: Option<BitmapIndex>)
        ensures
            m == self.spec_material_override(),
            *self matches SceneInstance::Billboard { material, .. } ==> m == Some(material),
            *self matches SceneInstance::Rod { material, .. } ==> m == Some(material),
            *self matches SceneInstance::LevelMesh { material_override, .. } ==> m == material_override,
    {
        match self {
            SceneInstance::LevelMesh { material_override, .. } => *material_override,
            SceneInstance::Billboard { material, .. } => Some(*material),
            SceneInstance::Rod { material, .. } => Some(*material),
        }
    }

    /// The object type of a level mesh; billboards and rods have none.
    pub fn object_type(&self) -> (t: ObjectType)
        ensures
            t == match self {
                SceneInstance::LevelMesh { object_type, .. } => *object_type,
                _ => ObjectType::NoObject,
            },
    {
        match self {
            SceneInstance::LevelMesh { object_type, .. } => *object_type,
            SceneInstance::Billboard { .. } | SceneInstance::Rod { .. } => ObjectType::NoObject,
        }
    }

    /// A billboard or rod always draws with its own material; a level mesh
    /// only with the override it was given, if any.
    pub proof fn lemma_material_override_kinds(self)
        ensures
            self matches SceneInstance::Billboard { material, .. } ==> self.spec_material_override() == Some(material),
            self matches SceneInstance::Rod { material, .. } ==> self.spec_material_override() == Some(material),
            self matches SceneInstance::LevelMesh { material_override, .. } ==> self.spec_material_override() == material_override,
            self.spec_material_override() is None ==> self is LevelMesh,
    {
    }
}

} // verus!
