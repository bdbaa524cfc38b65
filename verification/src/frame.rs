//! Frame lifecycle and per-frame submissions: the begin/present state
//! machine, light submission, material table updates, level mesh queueing.

use vstd::prelude::*;

use crate::color::RGBA8;
use crate::indices::BitmapIndex;
use crate::instance::{MeshHandle, SceneInstance};
use crate::slotmap::{spec_find, spec_insert, spec_remove, MeshSlotMap, SlotMap};
use crate::types::{GPUMaterial, MaterialFlags, ObjectType, ResourceHandle};
use crate::{RT_MAX_LIGHTS, RT_MAX_MATERIALS};

verus! {

/// Where the renderer stands in its frame cycle.
#[derive(Clone, Copy, Debug, PartialEq, Eq, Structural)]
pub struct FrameState {
    /// A frame has begun and not yet been presented.
    pub frame_begun: bool,
    /// Number of frames presented.
    pub frame_index: u64,
}

/// Beginning a frame: whether to wait for a free back buffer (only when no
/// frame was begun) and the state after.
pub open spec fn spec_begin_frame(f: FrameState) -> (bool, FrameState) {
    (!f.frame_begun, FrameState { frame_begun: true, ..f })
}

/// Swapping buffers: whether to present (only when a frame was begun) and
/// the state after, with the presented frame counted.
pub open spec fn spec_swap_buffers(f: FrameState) -> (bool, FrameState) {
    if f.frame_begun {
        (true, FrameState { frame_begun: false, frame_index: (f.frame_index + 1) as u64 })
    } else {
        (false, f)
    }
}

impl FrameState {
    /// No frame begun, none presented.
    pub fn new() -> (f: FrameState)
        ensures
            !f.frame_begun,
            f.frame_index == 0,
    {
        FrameState { frame_begun: false, frame_index: 0 }
    }

    /// Begin a frame; see `spec_begin_frame`.
    pub fn begin_frame(&mut self) -> (wait: bool)
        ensures
            (wait, *final(self)) == spec_begin_frame(*old(self)),
    {
        if self.frame_begun {
            return false;
        }
        self.frame_begun = true;
        true
    }

    /// End the begun frame; see `spec_swap_buffers`.
    pub fn swap_buffers(&mut self) -> (present: bool)
        requires
            old(self).frame_begun ==> old(self).frame_index < u64::MAX,
        ensures
            (present, *final(self)) == spec_swap_buffers(*old(self)),
    {
        if !self.frame_begun {
            return false;
        }
        self.frame_begun = false;
        self.frame_index += 1;
        true
    }
}

/// One begin/swap cycle waits once, presents once and counts one frame; a
/// second begin within the cycle does not wait again; a swap outside a frame
/// presents nothing and changes nothing.
pub proof fn lemma_frame_cycle(f: FrameState)
    requires
        f.frame_index < u64::MAX,
    ensures
        ({
            let (wait, began) = spec_begin_frame(f);
            let (wait_again, began_again) = spec_begin_frame(began);
            let (present, after) = spec_swap_buffers(began_again);
            &&& wait == !f.frame_begun
            &&& !wait_again
            &&& present
            &&& !after.frame_begun
            &&& after.frame_index == f.frame_index + 1
        }),
        !f.frame_begun ==> spec_swap_buffers(f) == (false, f),
{
}

/// How many of `count` new lights fit next to `current` ones under the cap.
pub open spec fn lights_accepted(current: nat, count: nat) -> nat {
    if current >= RT_MAX_LIGHTS {
        0
    } else if count < RT_MAX_LIGHTS - current {
        count
    } else {
        (RT_MAX_LIGHTS - current) as nat
    }
}

/// Append the submitted lights, keeping at most `RT_MAX_LIGHTS` per frame:
/// the first ones that fit are kept, the rest dropped.
pub fn submit_lights<L: Copy>(lights: &mut Vec<L>, new_lights: &[L])
    ensures
        final(lights)@ == old(lights)@ + new_lights@.take(
            lights_accepted(old(lights)@.len(), new_lights@.len()) as int,
        ),
{
    let remaining = RT_MAX_LIGHTS.saturating_sub(lights.len());
    let to_copy = if new_lights.len() < remaining {
        new_lights.len()
    } else {
        remaining
    };
    let ghost start = lights@;
    let mut i: usize = 0;
    while i < to_copy
        invariant
            0 <= i <= to_copy,
            to_copy <= new_lights@.len(),
            lights@ == start + new_lights@.take(i as int),
        decreases to_copy - i,
    {
        lights.push(new_lights[i]);
        proof {
            assert(new_lights@.take(i + 1) =~= new_lights@.take(i as int).push(new_lights@[i as int]));
            assert(lights@ =~= start + new_lights@.take(i + 1));
        }
        i += 1;
    }
}

/// Light submissions never push a frame past the cap.
pub proof fn lemma_lights_capped(current: nat, count: nat)
    requires
        current <= RT_MAX_LIGHTS,
    ensures
        current + lights_accepted(current, count) <= RT_MAX_LIGHTS,
        lights_accepted(current, count) <= count,
        current + count <= RT_MAX_LIGHTS ==> lights_accepted(current, count) == count,
{
}

/// New values for one material table entry.
#[derive(Clone, Copy, Debug, PartialEq, Eq, Structural)]
pub struct MaterialUpdate {
    pub albedo_index: u32,
    pub flags: MaterialFlags,
    pub emissive_factor: u32,
}

/// The material table after an update of entry `index`, when the index is in
/// range and there is something to write; the surface type stays.
pub open spec fn updated_materials(
    table: Seq<GPUMaterial>,
    index: u16,
    update: Option<MaterialUpdate>,
) -> Seq<GPUMaterial> {
    if (index as int) < RT_MAX_MATERIALS && update is Some {
        let u = update.unwrap();
        table.update(
            index as int,
            GPUMaterial {
                albedo_index: u.albedo_index,
                flags: u.flags,
                emissive_factor: u.emissive_factor,
                ..table[index as int]
            },
        )
    } else {
        table
    }
}

/// An update writes exactly entry `index`: that entry takes the update's
/// albedo index, flags and emissive factor whatever it held before, keeps
/// its surface type, and every other entry stays. Without an update, or with
/// an index outside the table, nothing changes. (The table always has
/// `RT_MAX_MATERIALS` entries.)
pub proof fn lemma_material_update_writes_entry(table: Seq<GPUMaterial>, index: u16, update: Option<MaterialUpdate>)
    requires
        table.len() == RT_MAX_MATERIALS,
    ensures
        updated_materials(table, index, update).len() == table.len(),
        forall|j: int| 0 <= j < table.len() && j != index ==> #[trigger] updated_materials(table, index, update)[j] == table[j],
        (update is None || (index as int) >= RT_MAX_MATERIALS) ==> updated_materials(table, index, update) == table,
        (index as int) < RT_MAX_MATERIALS && update is Some ==> {
            let e = updated_materials(table, index, update)[index as int];
            let u = update.unwrap();
            &&& e.albedo_index == u.albedo_index
            &&& e.flags == u.flags
            &&& e.emissive_factor == u.emissive_factor
            &&& e.surface_type == table[index as int].surface_type
        },
{
}

/// Update entry `material_index` of the material table. Returns the index,
/// or `u16::MAX` when it lies outside the table (nothing is written then).
pub fn apply_material_update(
    gpu_materials: &mut Vec<GPUMaterial>,
    material_index: u16,
    update: Option<MaterialUpdate>,
) -> (r: u16)
    requires
        old(gpu_materials)@.len() == RT_MAX_MATERIALS,
    ensures
        r == if (material_index as int) < RT_MAX_MATERIALS {
            material_index
        } else {
            u16::MAX
        },
        final(gpu_materials)@ == updated_materials(old(gpu_materials)@, material_index, update),
        final(gpu_materials)@.len() == old(gpu_materials)@.len(),
        forall|j: int| 0 <= j < old(gpu_materials)@.len() && j != material_index ==>
            #[trigger] final(gpu_materials)@[j] == old(gpu_materials)@[j],
        update is None ==> final(gpu_materials)@ == old(gpu_materials)@,
        (material_index as int) < RT_MAX_MATERIALS && update is Some ==> {
            let e = final(gpu_materials)@[material_index as int];
            let u = update.unwrap();
            &&& e.albedo_index == u.albedo_index
            &&& e.flags == u.flags
            &&& e.emissive_factor == u.emissive_factor
            &&& e.surface_type == old(gpu_materials)@[material_index as int].surface_type
        },
{
    proof {
        lemma_material_update_writes_entry(old(gpu_materials)@, material_index, update);
    }
    let idx = match BitmapIndex::new(material_index) {
        Some(idx) => idx,
        None => return u16::MAX,
    };
    if let Some(u) = update {
        let i = idx.as_usize();
        let old_entry = gpu_materials[i];
        let entry = GPUMaterial {
            albedo_index: u.albedo_index,
            flags: u.flags,
            emissive_factor: u.emissive_factor,
            ..old_entry
        };
        gpu_materials.set(i, entry);
    }
    material_index
}

/// Queue a level mesh for this frame. It is queued only when its handle
/// resolves in the mesh slot map; returns whether it was.
pub fn queue_level_mesh<M, B>(
    instances: &mut Vec<SceneInstance<M>>,
    mesh_slotmap: &MeshSlotMap<B>,
    handle: ResourceHandle,
    transform: M,
    color: RGBA8,
    material_override: Option<BitmapIndex>,
    object_type: ObjectType,
) -> (queued: bool)
    requires
        mesh_slotmap.wf(),
    ensures
        queued == spec_find(mesh_slotmap@, handle) is Some,
        queued ==> {
            &&& final(instances)@.len() == old(instances)@.len() + 1
            &&& final(instances)@.drop_last() == old(instances)@
            &&& final(instances)@.last() matches SceneInstance::LevelMesh {
                mesh: m,
                transform: t,
                color: c,
                material_override: o,
                object_type: k,
            } && m@ == handle && t == transform && c == color && o == material_override && k == object_type
        },
        !queued ==> final(instances)@ == old(instances)@,
{
    if mesh_slotmap.find(handle).is_none() {
        return false;
    }
    let mesh = MeshHandle::from_validated(handle);
    instances.push(SceneInstance::LevelMesh { mesh, transform, color, material_override, object_type });
    proof {
        assert(instances@.drop_last() =~= old(instances)@);
    }
    true
}

/// Store `item` under a fresh handle, first removing what `handle` names
/// when `handle` is not null. Used to re-register a texture that is replaced
/// every frame under a handle that stays in use.
pub fn reinsert<T>(slotmap: &mut SlotMap<T>, handle: ResourceHandle, item: T) -> (h: ResourceHandle)
    requires
        old(slotmap).wf(),
        old(slotmap)@.len() <= u32::MAX,
    ensures
        final(slotmap).wf(),
        ({
            let cleared = if handle.index != 0 {
                spec_remove(old(slotmap)@, handle)
            } else {
                old(slotmap)@
            };
            &&& final(slotmap)@ == spec_insert(cleared, item, h.generation)
            &&& h.generation == old(slotmap).next_gen()
            &&& spec_find(final(slotmap)@, h) == Some(item)
        }),
{
    if handle.is_valid() {
        slotmap.remove(handle);
    }
    let ghost cleared = slotmap@;
    let h = slotmap.insert(item);
    proof {
        crate::slotmap::lemma_insert_then_find(cleared, item, h.generation);
    }
    h
}

} // verus!
