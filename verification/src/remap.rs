//! Texture remapping for alpha-cutout shading.
//!
//! The raytrace shader binds at most a few cutout textures directly. This
//! module picks them: it scans the triangles flagged alpha-cutout and the
//! material overrides of billboard/rod instances, resolves each to the slot of
//! its albedo texture, and assigns the distinct slots that hold a texture
//! compact shader slots 1, 2, ... in first-seen order, up to the limit. The
//! result is a sparse table `albedo slot -> shader slot` (0 = unmapped) and the
//! textures to bind, in shader-slot order.

use vstd::prelude::*;

use crate::slotmap::{spec_find_by_index, SlotMap, SlotsView};
use crate::triangle_ref::{RT_TRIANGLE_ALPHA_CUTOUT, RT_TRIANGLE_MEI_MASK};
use crate::types::{GPUMaterial, MaterialEdge};

verus! {

/// Shader texture slots reserved for cutout textures (slot 0 = no texture).
pub const MAX_ALPHA_TEXTURE_SLOTS: usize = 31;

/// Mask of the overlay texture map number inside `mat2` (bits 0-9).
pub const OVERLAY_TMAP_MASK: u16 = 0x03FF;

/// Counts gathered while building a remap, for logging.
#[derive(Clone, Copy, Debug, Default, PartialEq, Eq, Structural)]
pub struct RemapDiagnostics {
    /// Cutout textures that got a shader slot.
    pub cutout_mapped: u32,
    /// Override textures that got a shader slot.
    pub override_mapped: u32,
    /// Overrides whose material has no albedo texture (albedo index 0).
    pub override_no_albedo: u32,
    /// Overrides whose albedo slot holds no texture.
    pub override_tex_missing: u32,
    /// Overrides whose albedo texture already had a shader slot.
    pub override_already_mapped: u32,
    /// Shader slots used.
    pub slots_used: u32,
}

/// The remap: sparse table, textures to bind, diagnostics.
pub struct TextureRemap<'a, T> {
    /// `remap_table[albedo] = shader slot (1..)`, 0 = unmapped.
    pub remap_table: Vec<u32>,
    /// `(albedo slot, texture)` for shader slots 1, 2, ... in order.
    pub textures: Vec<(u32, &'a T)>,
    pub diagnostics: RemapDiagnostics,
}

/// The albedo slot a triangle's material word leads to, when the triangle is
/// flagged alpha-cutout: material word -> edge (29-bit index) -> texture map
/// number (the overlay's when it has one, else the base) -> material index ->
/// GPU material -> albedo slot. Nothing when a step falls outside its table
/// or the albedo slot is 0.
pub open spec fn cutout_albedo(
    mei: u32,
    edges: Seq<MaterialEdge>,
    indices: Seq<u16>,
    gpu: Seq<GPUMaterial>,
) -> Option<u32> {
    if mei & RT_TRIANGLE_ALPHA_CUTOUT == 0 {
        None
    } else {
        let e = (mei & RT_TRIANGLE_MEI_MASK) as int;
        if e >= edges.len() {
            None
        } else {
            let overlay = edges[e].mat2 & OVERLAY_TMAP_MASK;
            let t = if overlay > 0 {
                overlay as int
            } else {
                edges[e].mat1 as int
            };
            if t >= indices.len() {
                None
            } else {
                let m = indices[t] as int;
                if m >= gpu.len() || gpu[m].albedo_index == 0 {
                    None
                } else {
                    Some(gpu[m].albedo_index)
                }
            }
        }
    }
}

/// The albedo slot of an instance's material override (0 = no override).
pub open spec fn override_albedo(o: u32, gpu: Seq<GPUMaterial>) -> Option<u32> {
    if o == 0 || o >= gpu.len() || gpu[o as int].albedo_index == 0 {
        None
    } else {
        Some(gpu[o as int].albedo_index)
    }
}

/// Whether slot `a` of the texture map holds a texture.
pub open spec fn present<T>(s: SlotsView<T>, a: u32) -> bool {
    spec_find_by_index(s, a) is Some
}

/// A candidate gets the next shader slot when it names a texture that is
/// present, not yet mapped, and a slot is still free.
pub open spec fn admits<T>(mapped: Seq<u32>, c: Option<u32>, s: SlotsView<T>) -> bool {
    &&& c is Some
    &&& !mapped.contains(c.unwrap())
    &&& present(s, c.unwrap())
    &&& mapped.len() + 1 < MAX_ALPHA_TEXTURE_SLOTS
}

pub open spec fn grow<T>(mapped: Seq<u32>, c: Option<u32>, s: SlotsView<T>) -> Seq<u32> {
    if admits(mapped, c, s) {
        mapped.push(c.unwrap())
    } else {
        mapped
    }
}

/// The mapped albedo slots after offering `cands` in order, starting from `init`.
pub open spec fn fold_mapped<T>(init: Seq<u32>, cands: Seq<Option<u32>>, s: SlotsView<T>) -> Seq<u32>
    decreases cands.len(),
{
    if cands.len() == 0 {
        init
    } else {
        grow(fold_mapped(init, cands.drop_last(), s), cands.last(), s)
    }
}

/// Over the overrides: how many named a texture that was already mapped when
/// offered, and how many named a slot holding no texture.
pub open spec fn override_counts<T>(init: Seq<u32>, cands: Seq<Option<u32>>, s: SlotsView<T>) -> (nat, nat)
    decreases cands.len(),
{
    if cands.len() == 0 {
        (0, 0)
    } else {
        let prev = override_counts(init, cands.drop_last(), s);
        let m = fold_mapped(init, cands.drop_last(), s);
        let c = cands.last();
        let already = if c is Some && m.contains(c.unwrap()) {
            prev.0 + 1
        } else {
            prev.0
        };
        let missing = if c is Some && !m.contains(c.unwrap()) && !present(s, c.unwrap()) {
            prev.1 + 1
        } else {
            prev.1
        };
        (already as nat, missing as nat)
    }
}

/// How many overrides point at a material without an albedo texture.
pub open spec fn count_no_albedo(ovr: Seq<u32>, gpu: Seq<GPUMaterial>) -> nat
    decreases ovr.len(),
{
    if ovr.len() == 0 {
        0
    } else {
        let o = ovr.last();
        let prev = count_no_albedo(ovr.drop_last(), gpu);
        if o != 0 && o < gpu.len() && gpu[o as int].albedo_index == 0 {
            prev + 1
        } else {
            prev
        }
    }
}

/// Candidates from the triangles' material words.
pub open spec fn triangle_candidates(
    meis: Seq<u32>,
    edges: Seq<MaterialEdge>,
    indices: Seq<u16>,
    gpu: Seq<GPUMaterial>,
) -> Seq<Option<u32>> {
    meis.map_values(|m: u32| cutout_albedo(m, edges, indices, gpu))
}

/// Candidates from the instances' material overrides.
pub open spec fn override_candidates(ovr: Seq<u32>, gpu: Seq<GPUMaterial>) -> Seq<Option<u32>> {
    ovr.map_values(|o: u32| override_albedo(o, gpu))
}

/// Largest element (0 for the empty sequence).
pub open spec fn seq_max(s: Seq<u32>) -> nat
    decreases s.len(),
{
    if s.len() == 0 {
        0
    } else {
        let m = seq_max(s.drop_last());
        if s.last() > m {
            s.last() as nat
        } else {
            m
        }
    }
}

/// `table` is the sparse remap of `mapped`: one past the largest mapped slot
/// long, `mapped[k]` maps to shader slot `k + 1`, all else to 0.
pub open spec fn is_remap_table(table: Seq<u32>, mapped: Seq<u32>) -> bool {
    &&& table.len() == seq_max(mapped) + 1
    &&& forall|k: int| 0 <= k < mapped.len() ==> table[mapped[k] as int] == k + 1
    &&& forall|i: int| 0 <= i < table.len() && !mapped.contains(i as u32) ==> table[i] == 0
}

proof fn lemma_seq_max_bounds(s: Seq<u32>)
    ensures
        forall|k: int| 0 <= k < s.len() ==> s[k] <= seq_max(s),
        s.len() > 0 ==> exists|k: int| 0 <= k < s.len() && s[k] == seq_max(s),
    decreases s.len(),
{
    if s.len() > 0 {
        lemma_seq_max_bounds(s.drop_last());
        let m = seq_max(s.drop_last());
        assert forall|k: int| 0 <= k < s.len() implies s[k] <= seq_max(s) by {
            if k < s.len() - 1 {
                assert(s.drop_last()[k] == s[k]);
            }
        }
        if s.len() > 1 && s.last() <= m {
            let k = choose|k: int| 0 <= k < s.drop_last().len() && s.drop_last()[k] == m;
            assert(s[k] == seq_max(s));
        } else {
            assert(s[s.len() - 1] == seq_max(s));
        }
    }
}

/// A triangle whose material word does not carry the alpha-cutout bit
/// (bit 29) never offers a texture, whatever its edge and material lead to.
pub proof fn lemma_unflagged_word_no_candidate(
    mei: u32,
    edges: Seq<MaterialEdge>,
    indices: Seq<u16>,
    gpu: Seq<GPUMaterial>,
)
    requires
        mei & 0x2000_0000u32 == 0,
    ensures
        cutout_albedo(mei, edges, indices, gpu) is None,
{
}

/// A flagged triangle looks its texture up through the edge its low 29 bits
/// name, using the edge's overlay texture map when bits 0-9 of `mat2` are
/// nonzero and its base (`mat1`) otherwise; it offers that material's albedo
/// slot unless the slot is 0.
pub proof fn lemma_flagged_word_candidate(
    mei: u32,
    edges: Seq<MaterialEdge>,
    indices: Seq<u16>,
    gpu: Seq<GPUMaterial>,
)
    requires
        mei & 0x2000_0000u32 != 0,
        ((mei & 0x1FFF_FFFFu32) as int) < edges.len(),
    ensures
        ({
            let edge = edges[(mei & 0x1FFF_FFFFu32) as int];
            let t: int = if edge.mat2 & 0x03FFu16 != 0 { (edge.mat2 & 0x03FFu16) as int } else { edge.mat1 as int };
            &&& t >= indices.len() ==> cutout_albedo(mei, edges, indices, gpu) is None
            &&& t < indices.len() && (indices[t] as int) >= gpu.len() ==> cutout_albedo(mei, edges, indices, gpu) is None
            &&& t < indices.len() && (indices[t] as int) < gpu.len() ==> cutout_albedo(mei, edges, indices, gpu) == if gpu[indices[t] as int].albedo_index == 0 {
                None
            } else {
                Some(gpu[indices[t] as int].albedo_index)
            }
        }),
{
}

/// An instance without an override (0) offers nothing; one whose material
/// has an albedo texture offers that texture's slot.
pub proof fn lemma_override_candidate(o: u32, gpu: Seq<GPUMaterial>)
    ensures
        o == 0 ==> override_albedo(o, gpu) is None,
        o != 0 && (o as int) < gpu.len() && gpu[o as int].albedo_index != 0 ==> override_albedo(o, gpu) == Some(gpu[o as int].albedo_index),
        override_albedo(o, gpu) matches Some(a) ==> a != 0,
{
}

/// Offering only empty candidates maps nothing new.
proof fn lemma_fold_mapped_all_none<T>(init: Seq<u32>, cands: Seq<Option<u32>>, s: SlotsView<T>)
    requires
        forall|k: int| 0 <= k < cands.len() ==> (#[trigger] cands[k]) is None,
    ensures
        fold_mapped(init, cands, s) == init,
    decreases cands.len(),
{
    if cands.len() > 0 {
        assert forall|k: int| 0 <= k < cands.drop_last().len() implies (#[trigger] cands.drop_last()[k]) is None by {
            assert(cands.drop_last()[k] == cands[k]);
        }
        lemma_fold_mapped_all_none(init, cands.drop_last(), s);
        assert(cands.last() == cands[cands.len() - 1]);
    }
}

/// When no triangle of the frame is flagged alpha-cutout, the triangles map
/// no texture at all.
pub proof fn lemma_unflagged_triangles_map_nothing<T>(
    meis: Seq<u32>,
    edges: Seq<MaterialEdge>,
    indices: Seq<u16>,
    gpu: Seq<GPUMaterial>,
    s: SlotsView<T>,
)
    requires
        forall|k: int| 0 <= k < meis.len() ==> (#[trigger] meis[k]) & 0x2000_0000u32 == 0,
    ensures
        fold_mapped(Seq::empty(), triangle_candidates(meis, edges, indices, gpu), s) == Seq::<u32>::empty(),
{
    let cands = triangle_candidates(meis, edges, indices, gpu);
    assert forall|k: int| 0 <= k < cands.len() implies (#[trigger] cands[k]) is None by {
        lemma_unflagged_word_no_candidate(meis[k], edges, indices, gpu);
    }
    lemma_fold_mapped_all_none(Seq::empty(), cands, s);
}

/// Every mapped slot is one that holds a texture, mapped slots are distinct,
/// and there are fewer than `MAX_ALPHA_TEXTURE_SLOTS` of them.
pub open spec fn mapped_ok<T>(mapped: Seq<u32>, s: SlotsView<T>) -> bool {
    &&& forall|k: int| 0 <= k < mapped.len() ==> present(s, #[trigger] mapped[k])
    &&& mapped.no_duplicates()
    &&& mapped.len() + 1 <= MAX_ALPHA_TEXTURE_SLOTS
}

proof fn lemma_grow_ok<T>(mapped: Seq<u32>, c: Option<u32>, s: SlotsView<T>)
    requires
        mapped_ok(mapped, s),
    ensures
        mapped_ok(grow(mapped, c, s), s),
{
    if admits(mapped, c, s) {
        let g = mapped.push(c.unwrap());
        assert forall|k: int| 0 <= k < g.len() implies present(s, #[trigger] g[k]) by {
            if k < mapped.len() {
                assert(g[k] == mapped[k]);
            }
        }
        assert forall|i: int, j: int| 0 <= i < g.len() && 0 <= j < g.len() && i != j implies g[i] != g[j] by {
            if i < mapped.len() && j < mapped.len() {
                assert(g[i] == mapped[i] && g[j] == mapped[j]);
            } else if i == mapped.len() {
                assert(g[j] == mapped[j]);
                assert(mapped.contains(g[j]));
            } else {
                assert(g[i] == mapped[i]);
                assert(mapped.contains(g[i]));
            }
        }
    }
}

/// Offering candidates keeps the mapped list well shaped: distinct slots,
/// each holding a texture, fewer than `MAX_ALPHA_TEXTURE_SLOTS`.
pub proof fn lemma_fold_mapped_ok<T>(init: Seq<u32>, cands: Seq<Option<u32>>, s: SlotsView<T>)
    requires
        mapped_ok(init, s),
    ensures
        mapped_ok(fold_mapped(init, cands, s), s),
    decreases cands.len(),
{
    if cands.len() > 0 {
        lemma_fold_mapped_ok(init, cands.drop_last(), s);
        lemma_grow_ok(fold_mapped(init, cands.drop_last(), s), cands.last(), s);
    }
}

/// Every mapped slot was named by some candidate (or was there from the
/// start), and the mapped list only grows, keeping its order.
pub proof fn lemma_fold_mapped_from_candidates<T>(init: Seq<u32>, cands: Seq<Option<u32>>, s: SlotsView<T>)
    ensures
        init.len() <= fold_mapped(init, cands, s).len(),
        fold_mapped(init, cands, s).take(init.len() as int) == init,
        forall|k: int| init.len() <= k < fold_mapped(init, cands, s).len() ==>
            exists|j: int| 0 <= j < cands.len() && cands[j] == Some(#[trigger] fold_mapped(init, cands, s)[k]),
    decreases cands.len(),
{
    if cands.len() > 0 {
        let prev = fold_mapped(init, cands.drop_last(), s);
        lemma_fold_mapped_from_candidates(init, cands.drop_last(), s);
        let cur = fold_mapped(init, cands, s);
        assert(cur.take(prev.len() as int) == prev);
        assert(cur.take(init.len() as int) =~= prev.take(init.len() as int));
        assert forall|k: int| init.len() <= k < cur.len() implies
            exists|j: int| 0 <= j < cands.len() && cands[j] == Some(#[trigger] cur[k]) by {
            if k < prev.len() {
                assert(cur[k] == prev[k]);
                let j = choose|j: int| 0 <= j < cands.drop_last().len() && cands.drop_last()[j] == Some(prev[k]);
                assert(cands[j] == cands.drop_last()[j]);
            } else {
                assert(cands[cands.len() - 1] == Some(cur[k]));
            }
        }
    }
}

/// A remap table sends each albedo slot to 0 or to the shader slot `k + 1`
/// of the mapped entry `k` it equals; shader slots run from 1 to the number
/// of mapped textures.
pub proof fn lemma_table_slots(table: Seq<u32>, mapped: Seq<u32>)
    requires
        is_remap_table(table, mapped),
        mapped.no_duplicates(),
    ensures
        forall|i: int| 0 <= i < table.len() ==> #[trigger] table[i] == 0 || {
            &&& 1 <= table[i] <= mapped.len()
            &&& mapped[table[i] - 1] == i
        },
{
    lemma_seq_max_bounds(mapped);
    assert forall|i: int| 0 <= i < table.len() implies #[trigger] table[i] == 0 || {
        &&& 1 <= table[i] <= mapped.len()
        &&& mapped[table[i] - 1] == i
    } by {
        assert(i <= u32::MAX);
        if mapped.contains(i as u32) {
            let k = choose|k: int| 0 <= k < mapped.len() && mapped[k] == i as u32;
            assert(table[mapped[k] as int] == k + 1);
        }
    }
}


/// Whether `xs` contains `x`.
fn vec_contains(xs: &Vec<u32>, x: u32) -> (r: bool)
    ensures
        r == xs@.contains(x),
{
    let mut i: usize = 0;
    while i < xs.len()
        invariant
            0 <= i <= xs.len(),
            forall|k: int| 0 <= k < i ==> xs@[k] != x,
        decreases xs.len() - i,
    {
        if xs[i] == x {
            assert(xs@[i as int] == x);
            return true;
        }
        i += 1;
    }
    false
}

/// The albedo slot a cutout triangle leads to; see `cutout_albedo`.
fn cutout_albedo_of(
    mei: u32,
    edges: &[MaterialEdge],
    indices: &[u16],
    gpu: &[GPUMaterial],
) -> (r: Option<u32>)
    ensures
        r == cutout_albedo(mei, edges@, indices@, gpu@),
{
    if (mei & RT_TRIANGLE_ALPHA_CUTOUT) == 0 {
        return None;
    }
    let e = (mei & RT_TRIANGLE_MEI_MASK) as usize;
    if e >= edges.len() {
        return None;
    }
    let edge = edges[e];
    let overlay = edge.mat2 & OVERLAY_TMAP_MASK;
    let t = if overlay > 0 {
        overlay as usize
    } else {
        edge.mat1 as usize
    };
    if t >= indices.len() {
        return None;
    }
    let m = indices[t] as usize;
    if m >= gpu.len() {
        return None;
    }
    let albedo = gpu[m].albedo_index;
    if albedo == 0 {
        return None;
    }
    Some(albedo)
}

/// Build the texture remap for one frame.
///
/// `triangle_materials` are the material words of all triangles in the frame,
/// `instance_overrides` the material override of each instance (0 = none).
/// Triangle candidates are offered first, then override candidates.
pub fn build_texture_remap<'a, T>(
    triangle_materials: &[u32],
    instance_overrides: &[u32],
    material_edges: &[MaterialEdge],
    material_indices: &[u16],
    gpu_materials: &[GPUMaterial],
    texture_slotmap: &'a SlotMap<T>,
) -> (r: TextureRemap<'a, T>)
    requires
        texture_slotmap.wf(),
        instance_overrides.len() <= u32::MAX,
    ensures
        ({
            let s = texture_slotmap@;
            let tri = triangle_candidates(triangle_materials@, material_edges@, material_indices@, gpu_materials@);
            let ovr = override_candidates(instance_overrides@, gpu_materials@);
            let after_tri = fold_mapped(Seq::empty(), tri, s);
            let mapped = fold_mapped(after_tri, ovr, s);
            let counts = override_counts(after_tri, ovr, s);
            &&& r.textures@.len() == mapped.len()
            &&& forall|k: int| 0 <= k < mapped.len() ==> r.textures@[k].0 == mapped[k]
                && spec_find_by_index(s, mapped[k]) == Some(*r.textures@[k].1)
            &&& is_remap_table(r.remap_table@, mapped)
            &&& r.diagnostics.cutout_mapped == after_tri.len()
            &&& r.diagnostics.override_mapped == mapped.len() - after_tri.len()
            &&& r.diagnostics.slots_used == mapped.len()
            &&& r.diagnostics.override_already_mapped == counts.0
            &&& r.diagnostics.override_tex_missing == counts.1
            &&& r.diagnostics.override_no_albedo == count_no_albedo(instance_overrides@, gpu_materials@)
        }),
        (forall|k: int| 0 <= k < triangle_materials@.len() ==> (#[trigger] triangle_materials@[k]) & 0x2000_0000u32 == 0)
            && instance_overrides@.len() == 0 ==> r.textures@.len() == 0 && r.remap_table@ == seq![0u32],
{
    let ghost s = texture_slotmap@;
    let ghost tri = triangle_candidates(triangle_materials@, material_edges@, material_indices@, gpu_materials@);
    let ghost ovr = override_candidates(instance_overrides@, gpu_materials@);

    let mut mapped: Vec<u32> = Vec::new();
    let mut textures: Vec<(u32, &'a T)> = Vec::new();
    let mut next_slot: u32 = 1;
    let mut diag = RemapDiagnostics {
        cutout_mapped: 0,
        override_mapped: 0,
        override_no_albedo: 0,
        override_tex_missing: 0,
        override_already_mapped: 0,
        slots_used: 0,
    };

    // Triangles flagged alpha-cutout.
    let n_tri = triangle_materials.len();
    let mut i: usize = 0;
    while i < n_tri
        invariant
            0 <= i <= n_tri,
            n_tri == triangle_materials@.len(),
            tri == triangle_candidates(triangle_materials@, material_edges@, material_indices@, gpu_materials@),
            s == texture_slotmap@,
            texture_slotmap.wf(),
            mapped@ == fold_mapped(Seq::empty(), tri.take(i as int), s),
            mapped_ok(mapped@, s),
            next_slot == mapped@.len() + 1,
            textures@.len() == mapped@.len(),
            forall|k: int| 0 <= k < mapped@.len() ==> textures@[k].0 == mapped@[k]
                && spec_find_by_index(s, mapped@[k]) == Some(*textures@[k].1),
            diag.cutout_mapped == mapped@.len(),
            diag.override_mapped == 0,
            diag.override_no_albedo == 0,
            diag.override_tex_missing == 0,
            diag.override_already_mapped == 0,
        decreases n_tri - i,
    {
        let ghost before = mapped@;
        proof {
            assert(tri.take(i + 1).drop_last() =~= tri.take(i as int));
            assert(tri.take(i + 1).last() == tri[i as int]);
            lemma_grow_ok(before, tri[i as int], s);
        }
        let c = cutout_albedo_of(triangle_materials[i], material_edges, material_indices, gpu_materials);
        if let Some(albedo) = c {
            if !vec_contains(&mapped, albedo) {
                if let Some(tex) = texture_slotmap.find_by_index(albedo) {
                    if next_slot < MAX_ALPHA_TEXTURE_SLOTS as u32 {
                        mapped.push(albedo);
                        textures.push((albedo, tex));
                        next_slot += 1;
                        diag.cutout_mapped += 1;
                    }
                }
            }
        }
        proof {
            assert(mapped@ == grow(before, tri[i as int], s));
        }
        i += 1;
    }
    proof {
        assert(tri.take(n_tri as int) =~= tri);
    }
    let ghost after_tri = mapped@;

    // Material overrides of billboard/rod instances.
    let n_inst = instance_overrides.len();
    let mut j: usize = 0;
    while j < n_inst
        invariant
            0 <= j <= n_inst,
            n_inst == instance_overrides@.len(),
            n_inst <= u32::MAX,
            ovr == override_candidates(instance_overrides@, gpu_materials@),
            s == texture_slotmap@,
            texture_slotmap.wf(),
            after_tri == fold_mapped(Seq::empty(), tri, s),
            mapped_ok(after_tri, s),
            mapped@ == fold_mapped(after_tri, ovr.take(j as int), s),
            mapped_ok(mapped@, s),
            after_tri.len() <= mapped@.len(),
            next_slot == mapped@.len() + 1,
            textures@.len() == mapped@.len(),
            forall|k: int| 0 <= k < mapped@.len() ==> textures@[k].0 == mapped@[k]
                && spec_find_by_index(s, mapped@[k]) == Some(*textures@[k].1),
            diag.cutout_mapped == after_tri.len(),
            diag.override_mapped == mapped@.len() - after_tri.len(),
            diag.override_no_albedo == count_no_albedo(instance_overrides@.take(j as int), gpu_materials@),
            diag.override_already_mapped == override_counts(after_tri, ovr.take(j as int), s).0,
            diag.override_tex_missing == override_counts(after_tri, ovr.take(j as int), s).1,
            diag.override_no_albedo <= j,
            diag.override_already_mapped <= j,
            diag.override_tex_missing <= j,
        decreases n_inst - j,
    {
        let ghost before = mapped@;
        proof {
            assert(ovr.take(j + 1).drop_last() =~= ovr.take(j as int));
            assert(ovr.take(j + 1).last() == ovr[j as int]);
            assert(instance_overrides@.take(j + 1).drop_last() =~= instance_overrides@.take(j as int));
            assert(instance_overrides@.take(j + 1).last() == instance_overrides@[j as int]);
            lemma_grow_ok(before, ovr[j as int], s);
        }
        let mat_override = instance_overrides[j];
        if mat_override != 0 && (mat_override as usize) < gpu_materials.len() {
            let albedo = gpu_materials[mat_override as usize].albedo_index;
            if albedo == 0 {
                diag.override_no_albedo += 1;
            } else if vec_contains(&mapped, albedo) {
                diag.override_already_mapped += 1;
            } else if let Some(tex) = texture_slotmap.find_by_index(albedo) {
                if next_slot < MAX_ALPHA_TEXTURE_SLOTS as u32 {
                    mapped.push(albedo);
                    textures.push((albedo, tex));
                    next_slot += 1;
                    diag.override_mapped += 1;
                }
            } else {
                diag.override_tex_missing += 1;
            }
        }
        proof {
            assert(mapped@ == grow(before, ovr[j as int], s));
        }
        j += 1;
    }
    proof {
        assert(ovr.take(n_inst as int) =~= ovr);
        assert(instance_overrides@.take(n_inst as int) =~= instance_overrides@);
    }

    // Sparse table: one past the largest mapped albedo slot.
    let mut max_idx: u32 = 0;
    let mut k: usize = 0;
    while k < mapped.len()
        invariant
            0 <= k <= mapped@.len(),
            max_idx == seq_max(mapped@.take(k as int)),
        decreases mapped@.len() - k,
    {
        proof {
            assert(mapped@.take(k + 1).drop_last() =~= mapped@.take(k as int));
        }
        if mapped[k] > max_idx {
            max_idx = mapped[k];
        }
        k += 1;
    }
    proof {
        assert(mapped@.take(mapped@.len() as int) =~= mapped@);
        lemma_seq_max_bounds(mapped@);
        if mapped@.len() > 0 {
            let w = choose|w: int| 0 <= w < mapped@.len() && mapped@[w] == seq_max(mapped@);
            assert(present(s, mapped@[w]));
            assert((max_idx as int) < s.len());
        }
    }
    let size: usize = max_idx as usize + 1;
    let mut remap_table: Vec<u32> = Vec::new();
    let mut z: usize = 0;
    while z < size
        invariant
            0 <= z <= size,
            remap_table@.len() == z,
            forall|q: int| 0 <= q < z ==> remap_table@[q] == 0,
        decreases size - z,
    {
        remap_table.push(0);
        z += 1;
    }
    let mut w: usize = 0;
    while w < mapped.len()
        invariant
            0 <= w <= mapped@.len(),
            mapped@.len() + 1 <= MAX_ALPHA_TEXTURE_SLOTS,
            mapped@.no_duplicates(),
            remap_table@.len() == size,
            size == seq_max(mapped@) + 1,
            forall|q: int| 0 <= q < mapped@.len() ==> mapped@[q] <= seq_max(mapped@),
            forall|q: int| 0 <= q < w ==> remap_table@[mapped@[q] as int] == q + 1,
            forall|q: int| 0 <= q < remap_table@.len() && !mapped@.take(w as int).contains(q as u32) ==> remap_table@[q] == 0,
        decreases mapped@.len() - w,
    {
        let a = mapped[w];
        remap_table.set(a as usize, (w + 1) as u32);
        proof {
            assert forall|q: int| 0 <= q < w + 1 implies remap_table@[mapped@[q] as int] == q + 1 by {
                if q < w {
                    assert(mapped@[q] != mapped@[w as int]);
                }
            }
            assert forall|q: int| 0 <= q < remap_table@.len() && !mapped@.take(w + 1).contains(q as u32) implies remap_table@[q] == 0 by {
                assert(mapped@.take(w + 1)[w as int] == a);
                if q == a {
                    assert(mapped@.take(w + 1).contains(q as u32));
                }
                if mapped@.take(w as int).contains(q as u32) {
                    let t = choose|t: int| 0 <= t < w && mapped@.take(w as int)[t] == q as u32;
                    assert(mapped@.take(w + 1)[t] == q as u32);
                }
            }
        }
        w += 1;
    }
    proof {
        assert(mapped@.take(mapped@.len() as int) =~= mapped@);
    }
    diag.slots_used = next_slot - 1;
    proof {
        if (forall|k: int| 0 <= k < triangle_materials@.len() ==> (#[trigger] triangle_materials@[k]) & 0x2000_0000u32 == 0)
            && instance_overrides@.len() == 0 {
            lemma_unflagged_triangles_map_nothing(triangle_materials@, material_edges@, material_indices@, gpu_materials@, s);
            assert(ovr.len() == 0);
            assert(fold_mapped(Seq::<u32>::empty(), ovr, s) == Seq::<u32>::empty());
            assert(mapped@ =~= Seq::<u32>::empty());
            assert(!mapped@.contains(0u32));
            assert(remap_table@ =~= seq![0u32]);
        }
    }

    TextureRemap { remap_table, textures, diagnostics: diag }
}

} // verus!
