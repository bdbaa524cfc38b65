//! Per-frame resolution of scene instances against the mesh slot map, the
//! layout of the combined triangle buffer, and the grouping of instances by
//! bottom-level acceleration structure.

use vstd::prelude::*;

use crate::instance::SceneInstance;
use crate::slotmap::{spec_find, MeshSlot, MeshSlotMap, SlotsView};
use crate::types::ResourceHandle;

verus! {

/// An instance whose mesh was found: everything the GPU instance record needs
/// except the transforms, which stay with instance `source` of the input.
#[derive(Clone, Copy, Debug, PartialEq, Eq, Structural)]
pub struct ResolvedInstance {
    /// Position of the instance in the submitted list.
    pub source: usize,
    pub mesh_handle: ResourceHandle,
    pub triangle_buffer_idx: u32,
    pub triangle_count: u32,
    pub color: u32,
    pub material_override: u32,
    /// First triangle of this instance in the combined triangle buffer.
    pub triangle_offset: u32,
}

/// Counts gathered while resolving instances.
#[derive(Clone, Copy, Debug, PartialEq, Eq, Structural)]
pub struct ResolveDiagnostics {
    pub level_meshes: u32,
    pub billboards: u32,
    pub rods: u32,
    pub failed: u32,
}

/// Whether the mesh of `inst` is in the slot map.
pub open spec fn mesh_found<M, B>(inst: SceneInstance<M>, s: SlotsView<MeshSlot<B>>) -> bool {
    spec_find(s, inst.spec_mesh()@) is Some
}

/// The record an instance at position `i` resolves to.
pub open spec fn resolved_record<M, B>(inst: SceneInstance<M>, i: int, s: SlotsView<MeshSlot<B>>) -> ResolvedInstance {
    let h = inst.spec_mesh()@;
    ResolvedInstance {
        source: i as usize,
        mesh_handle: h,
        triangle_buffer_idx: h.index,
        triangle_count: spec_find(s, h).unwrap().triangle_count as u32,
        color: inst.spec_color().0,
        material_override: match inst.spec_material_override() {
            Some(m) => m@ as u32,
            None => 0,
        },
        triangle_offset: 0,
    }
}

/// Records of the instances whose mesh is found, in submission order.
pub open spec fn resolved_records<M, B>(insts: Seq<SceneInstance<M>>, s: SlotsView<MeshSlot<B>>) -> Seq<ResolvedInstance>
    decreases insts.len(),
{
    if insts.len() == 0 {
        Seq::empty()
    } else {
        let prev = resolved_records(insts.drop_last(), s);
        if mesh_found(insts.last(), s) {
            prev.push(resolved_record(insts.last(), insts.len() - 1, s))
        } else {
            prev
        }
    }
}

/// `r` is what the GPU needs of instance `r.source` of `insts`: that
/// instance's mesh handle, its colour word and its material (a billboard's or
/// rod's own material, a level mesh's override or 0), the found mesh's
/// triangle count, the mesh's slot index as triangle buffer index, and
/// offset 0 (the offset is laid out later).
pub open spec fn record_matches<M, B>(r: ResolvedInstance, insts: Seq<SceneInstance<M>>, s: SlotsView<MeshSlot<B>>) -> bool {
    let j = r.source as int;
    &&& 0 <= j < insts.len()
    &&& match insts[j] {
        SceneInstance::LevelMesh { mesh, color, material_override, .. } => {
            &&& r.mesh_handle == mesh@
            &&& r.color == color.0
            &&& r.material_override == match material_override {
                Some(m) => m@ as u32,
                None => 0u32,
            }
        },
        SceneInstance::Billboard { mesh, color, material, .. } => {
            &&& r.mesh_handle == mesh@
            &&& r.color == color.0
            &&& r.material_override == material@ as u32
        },
        SceneInstance::Rod { mesh, color, material, .. } => {
            &&& r.mesh_handle == mesh@
            &&& r.color == color.0
            &&& r.material_override == material@ as u32
        },
    }
    &&& spec_find(s, r.mesh_handle) is Some
    &&& r.triangle_count == spec_find(s, r.mesh_handle).unwrap().triangle_count as u32
    &&& r.triangle_buffer_idx == r.mesh_handle.index
    &&& r.triangle_offset == 0
}

/// Resolving keeps exactly the instances whose mesh is found, in submission
/// order, and each record carries what its instance says: see
/// `record_matches`. In particular a record's triangle buffer index is its
/// mesh's slot index, and a billboard or rod always carries its material.
pub proof fn lemma_resolved_records_faithful<M, B>(insts: Seq<SceneInstance<M>>, s: SlotsView<MeshSlot<B>>)
    requires
        insts.len() <= usize::MAX,
    ensures
        forall|k: int| 0 <= k < resolved_records(insts, s).len() ==>
            #[trigger] record_matches(resolved_records(insts, s)[k], insts, s),
        forall|k1: int, k2: int| 0 <= k1 < k2 < resolved_records(insts, s).len() ==>
            resolved_records(insts, s)[k1].source < resolved_records(insts, s)[k2].source,
        forall|j: int| 0 <= j < insts.len() && spec_find(s, (#[trigger] insts[j]).spec_mesh()@) is Some ==>
            exists|k: int| 0 <= k < resolved_records(insts, s).len() && resolved_records(insts, s)[k].source == j,
    decreases insts.len(),
{
    if insts.len() > 0 {
        let pre = insts.drop_last();
        let n = insts.len() - 1;
        lemma_resolved_records_faithful(pre, s);
        let prev = resolved_records(pre, s);
        let recs = resolved_records(insts, s);
        assert forall|k: int| 0 <= k < prev.len() implies record_matches(prev[k], insts, s) by {
            assert(record_matches(prev[k], pre, s));
            let j = prev[k].source as int;
            assert(insts[j] == pre[j]);
        }
        if mesh_found(insts.last(), s) {
            let rec = resolved_record(insts.last(), n, s);
            assert(recs == prev.push(rec));
            assert(insts[n] == insts.last());
            assert(record_matches(rec, insts, s));
            assert forall|k: int| 0 <= k < recs.len() implies #[trigger] record_matches(recs[k], insts, s) by {
                if k < prev.len() {
                    assert(recs[k] == prev[k]);
                }
            }
            assert forall|k1: int, k2: int| 0 <= k1 < k2 < recs.len() implies recs[k1].source < recs[k2].source by {
                assert(recs[k1] == prev[k1]);
                assert(record_matches(prev[k1], pre, s));
                if k2 < prev.len() {
                    assert(recs[k2] == prev[k2]);
                }
            }
            assert forall|j: int| 0 <= j < insts.len() && spec_find(s, (#[trigger] insts[j]).spec_mesh()@) is Some implies
                exists|k: int| 0 <= k < recs.len() && recs[k].source == j by {
                if j < n {
                    assert(pre[j] == insts[j]);
                    let k = choose|k: int| 0 <= k < prev.len() && prev[k].source == j;
                    assert(recs[k] == prev[k]);
                } else {
                    assert(recs[prev.len() as int] == rec);
                }
            }
        } else {
            assert(recs == prev);
            assert forall|j: int| 0 <= j < insts.len() && spec_find(s, (#[trigger] insts[j]).spec_mesh()@) is Some implies
                exists|k: int| 0 <= k < recs.len() && recs[k].source == j by {
                if j < n {
                    assert(pre[j] == insts[j]);
                } else {
                    assert(insts[j] == insts.last());
                }
            }
        }
    }
}

/// How many instances satisfy `p` among those whose mesh is found (or, with
/// `found == false`, among those whose mesh is missing).
pub open spec fn count_instances<M, B>(
    insts: Seq<SceneInstance<M>>,
    s: SlotsView<MeshSlot<B>>,
    found: bool,
    p: spec_fn(SceneInstance<M>) -> bool,
) -> nat
    decreases insts.len(),
{
    if insts.len() == 0 {
        0
    } else {
        let prev = count_instances(insts.drop_last(), s, found, p);
        if mesh_found(insts.last(), s) == found && p(insts.last()) {
            prev + 1
        } else {
            prev
        }
    }
}

proof fn lemma_count_bound<M, B>(
    insts: Seq<SceneInstance<M>>,
    s: SlotsView<MeshSlot<B>>,
    found: bool,
    p: spec_fn(SceneInstance<M>) -> bool,
)
    ensures
        count_instances(insts, s, found, p) <= insts.len(),
    decreases insts.len(),
{
    if insts.len() > 0 {
        lemma_count_bound(insts.drop_last(), s, found, p);
    }
}

/// Resolve the frame's instances against the mesh slot map. Instances whose
/// mesh is missing are dropped and counted as failed; the others become
/// records in submission order and are counted by kind.
pub fn resolve_instances<M, B>(
    instances: &[SceneInstance<M>],
    mesh_slotmap: &MeshSlotMap<B>,
) -> (r: (Vec<ResolvedInstance>, ResolveDiagnostics))
    requires
        mesh_slotmap.wf(),
        instances.len() <= u32::MAX,
    ensures
        r.0@ == resolved_records(instances@, mesh_slotmap@),
        forall|k: int| 0 <= k < r.0@.len() ==> #[trigger] record_matches(r.0@[k], instances@, mesh_slotmap@),
        r.1.level_meshes == count_instances(instances@, mesh_slotmap@, true, |i: SceneInstance<M>| i is LevelMesh),
        r.1.billboards == count_instances(instances@, mesh_slotmap@, true, |i: SceneInstance<M>| i is Billboard),
        r.1.rods == count_instances(instances@, mesh_slotmap@, true, |i: SceneInstance<M>| i is Rod),
        r.1.failed == count_instances(instances@, mesh_slotmap@, false, |i: SceneInstance<M>| true),
{
    let ghost s = mesh_slotmap@;
    let ghost is_level = |i: SceneInstance<M>| i is LevelMesh;
    let ghost is_billboard = |i: SceneInstance<M>| i is Billboard;
    let ghost is_rod = |i: SceneInstance<M>| i is Rod;
    let ghost any = |i: SceneInstance<M>| true;
    let mut diag = ResolveDiagnostics { level_meshes: 0, billboards: 0, rods: 0, failed: 0 };
    let mut out: Vec<ResolvedInstance> = Vec::new();
    let n = instances.len();
    let mut i: usize = 0;
    while i < n
        invariant
            0 <= i <= n,
            n == instances@.len(),
            n <= u32::MAX,
            s == mesh_slotmap@,
            mesh_slotmap.wf(),
            out@ == resolved_records(instances@.take(i as int), s),
            diag.level_meshes == count_instances(instances@.take(i as int), s, true, is_level),
            diag.billboards == count_instances(instances@.take(i as int), s, true, is_billboard),
            diag.rods == count_instances(instances@.take(i as int), s, true, is_rod),
            diag.failed == count_instances(instances@.take(i as int), s, false, any),
            is_level == (|i: SceneInstance<M>| i is LevelMesh),
            is_billboard == (|i: SceneInstance<M>| i is Billboard),
            is_rod == (|i: SceneInstance<M>| i is Rod),
            any == (|i: SceneInstance<M>| true),
        decreases n - i,
    {
        let ghost pre = instances@.take(i as int);
        proof {
            assert(instances@.take(i + 1).drop_last() =~= pre);
            assert(instances@.take(i + 1).last() == instances@[i as int]);
            lemma_count_bound(pre, s, true, is_level);
            lemma_count_bound(pre, s, true, is_billboard);
            lemma_count_bound(pre, s, true, is_rod);
            lemma_count_bound(pre, s, false, any);
        }
        let si = &instances[i];
        let handle = si.mesh().raw();
        match mesh_slotmap.find(handle) {
            None => {
                diag.failed += 1;
            },
            Some(mesh) => {
                match si {
                    SceneInstance::LevelMesh { .. } => diag.level_meshes += 1,
                    SceneInstance::Billboard { .. } => diag.billboards += 1,
                    SceneInstance::Rod { .. } => diag.rods += 1,
                }
                let material_override: u32 = match si.material_override() {
                    Some(m) => m.as_u16() as u32,
                    None => 0,
                };
                out.push(ResolvedInstance {
                    source: i,
                    mesh_handle: handle,
                    triangle_buffer_idx: handle.index,
                    triangle_count: mesh.triangle_count as u32,
                    color: si.color().packed(),
                    material_override,
                    triangle_offset: 0,
                });
            },
        }
        i += 1;
    }
    proof {
        assert(instances@.take(n as int) =~= instances@);
        lemma_resolved_records_faithful(instances@, s);
    }
    (out, diag)
}

/// Total triangle count of the records whose mesh is found.
pub open spec fn triangle_total<B>(recs: Seq<ResolvedInstance>, s: SlotsView<MeshSlot<B>>) -> nat
    decreases recs.len(),
{
    if recs.len() == 0 {
        0
    } else {
        let prev = triangle_total(recs.drop_last(), s);
        match spec_find(s, recs.last().mesh_handle) {
            Some(m) => prev + (m.triangle_count as nat),
            None => prev,
        }
    }
}

proof fn lemma_triangle_total_mono<B>(recs: Seq<ResolvedInstance>, s: SlotsView<MeshSlot<B>>, k: int)
    requires
        0 <= k <= recs.len(),
    ensures
        triangle_total(recs.take(k), s) <= triangle_total(recs, s),
    decreases recs.len() - k,
{
    if k < recs.len() {
        lemma_triangle_total_mono(recs, s, k + 1);
        assert(recs.take(k + 1).drop_last() =~= recs.take(k));
    } else {
        assert(recs.take(k) =~= recs);
    }
}

/// In the combined triangle buffer the found records' triangle ranges follow
/// one another without overlap and end within the total: a found record at
/// position `k1` ends no later than where any later record `k2` starts.
pub proof fn lemma_triangle_ranges_disjoint<B>(recs: Seq<ResolvedInstance>, s: SlotsView<MeshSlot<B>>, k1: int, k2: int)
    requires
        0 <= k1 < k2 <= recs.len(),
        spec_find(s, recs[k1].mesh_handle) is Some,
    ensures
        triangle_total(recs.take(k1), s) + spec_find(s, recs[k1].mesh_handle).unwrap().triangle_count
            <= triangle_total(recs.take(k2), s),
        triangle_total(recs.take(k2), s) <= triangle_total(recs, s),
{
    assert(recs.take(k1 + 1).drop_last() =~= recs.take(k1));
    assert(recs.take(k1 + 1).last() == recs[k1]);
    lemma_triangle_total_mono(recs.take(k2), s, k1 + 1);
    assert(recs.take(k2).take(k1 + 1) =~= recs.take(k1 + 1));
    lemma_triangle_total_mono(recs, s, k2);
}


/// Lay the instances' triangles out back to back in one buffer. When there
/// are none, nothing changes and the result is `None`. Otherwise each record
/// whose mesh is found gets as triangle offset the number of triangles of the
/// found records before it, and the result is the total (both truncated to
/// 32 bits, as the GPU records hold them).
pub fn plan_combined_triangles<B>(
    instances: &mut Vec<ResolvedInstance>,
    mesh_slotmap: &MeshSlotMap<B>,
) -> (r: Option<u32>)
    requires
        mesh_slotmap.wf(),
        triangle_total(old(instances)@, mesh_slotmap@) <= usize::MAX,
    ensures
        triangle_total(old(instances)@, mesh_slotmap@) == 0 ==> r is None && final(instances)@ == old(instances)@,
        triangle_total(old(instances)@, mesh_slotmap@) > 0 ==> {
            &&& r == Some(triangle_total(old(instances)@, mesh_slotmap@) as u32)
            &&& final(instances)@.len() == old(instances)@.len()
            &&& forall|k: int| 0 <= k < old(instances)@.len() ==> #[trigger] final(instances)@[k] == {
                let rec = old(instances)@[k];
                if spec_find(mesh_slotmap@, rec.mesh_handle) is Some {
                    ResolvedInstance {
                        triangle_offset: triangle_total(old(instances)@.take(k), mesh_slotmap@) as u32,
                        ..rec
                    }
                } else {
                    rec
                }
            }
        },
{
    let ghost s = mesh_slotmap@;
    let ghost orig = instances@;
    let n = instances.len();
    let mut total: usize = 0;
    let mut i: usize = 0;
    while i < n
        invariant
            0 <= i <= n,
            n == instances@.len(),
            instances@ == orig,
            s == mesh_slotmap@,
            mesh_slotmap.wf(),
            triangle_total(orig, s) <= usize::MAX,
            total == triangle_total(orig.take(i as int), s),
        decreases n - i,
    {
        proof {
            assert(orig.take(i + 1).drop_last() =~= orig.take(i as int));
            lemma_triangle_total_mono(orig, s, i + 1);
        }
        if let Some(mesh) = mesh_slotmap.find(instances[i].mesh_handle) {
            total += mesh.triangle_count;
        }
        i += 1;
    }
    proof {
        assert(orig.take(n as int) =~= orig);
    }
    if total == 0 {
        return None;
    }

    let mut offset: usize = 0;
    let mut j: usize = 0;
    while j < n
        invariant
            0 <= j <= n,
            n == orig.len(),
            instances@.len() == n,
            s == mesh_slotmap@,
            mesh_slotmap.wf(),
            triangle_total(orig, s) <= usize::MAX,
            offset == triangle_total(orig.take(j as int), s),
            forall|k: int| j <= k < n ==> instances@[k] == orig[k],
            forall|k: int| 0 <= k < j ==> #[trigger] instances@[k] == {
                let rec = orig[k];
                if spec_find(s, rec.mesh_handle) is Some {
                    ResolvedInstance { triangle_offset: triangle_total(orig.take(k), s) as u32, ..rec }
                } else {
                    rec
                }
            },
        decreases n - j,
    {
        proof {
            assert(orig.take(j + 1).drop_last() =~= orig.take(j as int));
            lemma_triangle_total_mono(orig, s, j + 1);
        }
        let rec = instances[j];
        if let Some(mesh) = mesh_slotmap.find(rec.mesh_handle) {
            let updated = ResolvedInstance { triangle_offset: offset as u32, ..rec };
            instances.set(j, updated);
            offset += mesh.triangle_count;
        }
        j += 1;
    }
    Some(total as u32)
}

/// Mesh slot indices in first-occurrence order over the records whose mesh
/// is found: one acceleration structure per distinct mesh.
pub open spec fn blas_keys<B>(recs: Seq<ResolvedInstance>, s: SlotsView<MeshSlot<B>>) -> Seq<u32>
    decreases recs.len(),
{
    if recs.len() == 0 {
        Seq::empty()
    } else {
        let prev = blas_keys(recs.drop_last(), s);
        let h = recs.last().mesh_handle;
        if spec_find(s, h) is Some && !prev.contains(h.index) {
            prev.push(h.index)
        } else {
            prev
        }
    }
}

/// Group the instances by mesh for the top-level acceleration structure.
/// Returns the distinct meshes in first-occurrence order (the handle of each
/// mesh's first instance) and, per instance, the position of its mesh in
/// that list (`None` when its mesh is missing).
pub fn assign_blas_indices<B>(
    instances: &[ResolvedInstance],
    mesh_slotmap: &MeshSlotMap<B>,
) -> (r: (Vec<ResourceHandle>, Vec<Option<u32>>))
    requires
        mesh_slotmap.wf(),
        instances.len() <= u32::MAX,
    ensures
        r.0@.map_values(|h: ResourceHandle| h.index) == blas_keys(instances@, mesh_slotmap@),
        blas_keys(instances@, mesh_slotmap@).no_duplicates(),
        forall|j: int| 0 <= j < r.0@.len() ==> spec_find(mesh_slotmap@, #[trigger] r.0@[j]) is Some,
        r.1@.len() == instances@.len(),
        forall|k: int| 0 <= k < instances@.len() ==> {
            &&& (#[trigger] r.1@[k] is Some <==> spec_find(mesh_slotmap@, instances@[k].mesh_handle) is Some)
            &&& (r.1@[k] matches Some(j) ==> j < r.0@.len() && r.0@[j as int].index == instances@[k].mesh_handle.index)
        },
{
    let ghost s = mesh_slotmap@;
    let mut keys: Vec<ResourceHandle> = Vec::new();
    let mut assigned: Vec<Option<u32>> = Vec::new();
    let n = instances.len();
    let mut i: usize = 0;
    while i < n
        invariant
            0 <= i <= n,
            n == instances@.len(),
            n <= u32::MAX,
            s == mesh_slotmap@,
            mesh_slotmap.wf(),
            keys@.map_values(|h: ResourceHandle| h.index) == blas_keys(instances@.take(i as int), s),
            keys@.len() <= i,
            blas_keys(instances@.take(i as int), s).no_duplicates(),
            forall|j: int| 0 <= j < keys@.len() ==> spec_find(s, #[trigger] keys@[j]) is Some,
            assigned@.len() == i,
            forall|k: int| 0 <= k < i ==> {
                &&& (#[trigger] assigned@[k] is Some <==> spec_find(s, instances@[k].mesh_handle) is Some)
                &&& (assigned@[k] matches Some(j) ==> j < keys@.len() && keys@[j as int].index == instances@[k].mesh_handle.index)
            },
        decreases n - i,
    {
        let ghost pre = instances@.take(i as int);
        let ghost prev_keys = keys@;
        proof {
            assert(instances@.take(i + 1).drop_last() =~= pre);
            assert(instances@.take(i + 1).last() == instances@[i as int]);
        }
        let h = instances[i].mesh_handle;
        if mesh_slotmap.find(h).is_some() {
            // Position of this mesh among the keys so far, if it is there.
            let mut pos: usize = 0;
            let mut found = false;
            while pos < keys.len()
                invariant_except_break
                    !found,
                    forall|q: int| 0 <= q < pos ==> keys@[q].index != h.index,
                invariant
                    0 <= pos <= keys@.len(),
                    keys@ == prev_keys,
                ensures
                    found ==> pos < keys@.len() && keys@[pos as int].index == h.index,
                    !found ==> forall|q: int| 0 <= q < keys@.len() ==> keys@[q].index != h.index,
                decreases keys@.len() - pos,
            {
                if keys[pos].index == h.index {
                    found = true;
                    break;
                }
                pos += 1;
            }
            proof {
                let kv = keys@.map_values(|x: ResourceHandle| x.index);
                if found {
                    assert(kv[pos as int] == h.index);
                    assert(kv.contains(h.index));
                } else {
                    assert forall|q: int| 0 <= q < kv.len() implies kv[q] != h.index by {
                        assert(kv[q] == keys@[q].index);
                    }
                    assert(!kv.contains(h.index));
                }
            }
            if found {
                assigned.push(Some(pos as u32));
            } else {
                let idx = keys.len() as u32;
                keys.push(h);
                assigned.push(Some(idx));
                proof {
                    assert(keys@.map_values(|x: ResourceHandle| x.index) =~= prev_keys.map_values(|x: ResourceHandle| x.index).push(h.index));
                }
            }
        } else {
            assigned.push(None);
        }
        proof {
            assert forall|k: int| 0 <= k < i + 1 implies {
                &&& (#[trigger] assigned@[k] is Some <==> spec_find(s, instances@[k].mesh_handle) is Some)
                &&& (assigned@[k] matches Some(j) ==> j < keys@.len() && keys@[j as int].index == instances@[k].mesh_handle.index)
            } by {
                if k < i {
                    if assigned@[k] is Some {
                        let j = assigned@[k]->0;
                        assert(keys@[j as int] == prev_keys[j as int]);
                    }
                }
            }
        }
        i += 1;
    }
    proof {
        assert(instances@.take(n as int) =~= instances@);
    }
    (keys, assigned)
}

/// The top-level structure can be refitted in place, instead of rebuilt,
/// when the instances name the same meshes in the same order as last time
/// and a structure exists.
pub fn can_refit(current_keys: &[u32], prev_keys: &[u32], has_tlas: bool) -> (r: bool)
    ensures
        r == (current_keys@ == prev_keys@ && has_tlas),
{
    if current_keys.len() != prev_keys.len() {
        return false;
    }
    let mut i: usize = 0;
    while i < current_keys.len()
        invariant
            0 <= i <= current_keys@.len(),
            current_keys@.len() == prev_keys@.len(),
            forall|k: int| 0 <= k < i ==> current_keys@[k] == prev_keys@[k],
        decreases current_keys@.len() - i,
    {
        if current_keys[i] != prev_keys[i] {
            return false;
        }
        i += 1;
    }
    assert(current_keys@ =~= prev_keys@);
    has_tlas
}

} // verus!
