use rt_renderer::color::RGBA8;
use rt_renderer::frame::{
    apply_material_update, queue_level_mesh, reinsert, submit_lights, FrameState, MaterialUpdate,
};
use rt_renderer::gpu_buffer::{buffer_byte_len, GpuBuffer};
use rt_renderer::indices::{BitmapIndex, MaterialEdgeIndex, TmapNum};
use rt_renderer::instance::{MeshHandle, SceneInstance};
use rt_renderer::material::ParsedMaterialEdge;
use rt_renderer::raster::{batch_texture, push_lines, push_tri_batch, RasterBatch};
use rt_renderer::remap::build_texture_remap;
use rt_renderer::resolve::{
    assign_blas_indices, can_refit, plan_combined_triangles, resolve_instances, ResolvedInstance,
};
use rt_renderer::slotmap::{MeshSlot, SlotMap};
use rt_renderer::texture::{bytes_per_pixel, upload_row_bytes};
use rt_renderer::triangle_ref::TriangleMaterialRef;
use rt_renderer::types::{
    GPUMaterial, MaterialEdge, MaterialFlags, ObjectType, RenderMeshFlags, ResourceHandle,
    SurfaceType, TextureFormat,
};
use rt_renderer::{RT_MAX_LIGHTS, RT_MAX_MATERIALS, RT_MAX_MATERIAL_EDGES, RT_MAX_TEXTURES};

fn material(albedo: u32) -> GPUMaterial {
    GPUMaterial {
        albedo_index: albedo,
        flags: MaterialFlags(0),
        emissive_factor: 0,
        surface_type: SurfaceType::Rock,
    }
}

#[test]
fn table_sizes() {
    assert_eq!(RT_MAX_MATERIAL_EDGES, 54000);
    assert_eq!(RT_MAX_MATERIALS, 2110);
    assert_eq!(RT_MAX_TEXTURES, 6030);
    assert_eq!(RT_MAX_LIGHTS, 100);
}

#[test]
fn channels_pack_red_low_alpha_high() {
    let c = RGBA8::from_channels(0x11, 0x22, 0x33, 0x44);
    assert_eq!(c.packed(), 0x4433_2211);
    let c = RGBA8::from_channels(255, 0, 0, 255);
    assert_eq!(c.packed(), 0xFF0000FF);
}

#[test]
fn index_accessors() {
    let b = BitmapIndex::new(2109).unwrap();
    assert_eq!(b.as_usize(), 2109);
    assert_eq!(b.as_u32(), 2109);
    let t = TmapNum::new(7).unwrap();
    assert_eq!(t.as_usize(), 7);
    let e = MaterialEdgeIndex::new(53999).unwrap();
    assert_eq!(e.as_usize(), 53999);
}

#[test]
fn overlay_bits_all_set() {
    // tmap 1023, door 15, orientation 3
    let edge = ParsedMaterialEdge::from_raw(5, 0xFFFF);
    let o = edge.overlay.unwrap();
    assert_eq!(o.tmap_num.as_u16(), 1023);
    assert_eq!(o.door_openness, 15);
    assert_eq!(o.orientation, 3);
    // No overlay number: door and orientation bits alone give no overlay.
    let edge = ParsedMaterialEdge::from_raw(5, 0xFC00);
    assert!(edge.overlay.is_none());
    assert_eq!(edge.active_tmap().as_u16(), 5);
}

#[test]
fn mat2_fields_repack() {
    let mat2: u16 = 0xB7A5;
    let o = ParsedMaterialEdge::from_raw(0, mat2).overlay.unwrap();
    assert_eq!(o.tmap_num.as_u16(), 933);
    assert_eq!(o.door_openness, 13);
    assert_eq!(o.orientation, 2);
    let repacked = o.tmap_num.as_u16() | ((o.door_openness as u16) << 10) | ((o.orientation as u16) << 14);
    assert_eq!(repacked, mat2);
}

#[test]
fn triangle_ref_edge_cases() {
    // Largest in-range edge index keeps its cutout flag.
    match TriangleMaterialRef::parse(53999 | (1 << 29)) {
        TriangleMaterialRef::MaterialEdge { index, alpha_cutout } => {
            assert_eq!(index.as_u32(), 53999);
            assert!(alpha_cutout);
        }
        _ => panic!("expected an edge"),
    }
    assert_eq!(TriangleMaterialRef::parse(54000), TriangleMaterialRef::InstanceOverride);
    // Bits above 29 are ignored for the index.
    match TriangleMaterialRef::parse(0xC000_0000 | 7) {
        TriangleMaterialRef::MaterialEdge { index, alpha_cutout } => {
            assert_eq!(index.as_u32(), 7);
            assert!(!alpha_cutout);
        }
        _ => panic!("expected an edge"),
    }
}

#[test]
fn object_type_codes() {
    assert_eq!(ObjectType::from_u8(0), ObjectType::Wall);
    assert_eq!(ObjectType::from_u8(2), ObjectType::Robot);
    assert_eq!(ObjectType::from_u8(7), ObjectType::Powerup);
    assert_eq!(ObjectType::from_u8(8), ObjectType::NoObject);
    assert_eq!(ObjectType::from_u8(255), ObjectType::NoObject);
}

#[test]
fn flag_words() {
    assert!(RenderMeshFlags(3).contains(RenderMeshFlags::teleport()));
    assert!(!RenderMeshFlags(1).contains(RenderMeshFlags::teleport()));
    assert!(!RenderMeshFlags(1).contains(RenderMeshFlags::none()));
    assert!(MaterialFlags(0x11).is_blackbody());
    assert!(MaterialFlags(0x11).contains(MaterialFlags::alpha_cutout()));
    assert!(!MaterialFlags(0x10).is_blackbody());
    assert_eq!(ResourceHandle::default(), ResourceHandle::null());
}

#[test]
fn slotmap_insert_find_remove() {
    let mut m: SlotMap<&str> = SlotMap::new();
    let a = m.insert("a");
    let b = m.insert("b");
    assert_eq!(a, ResourceHandle { index: 1, generation: 1 });
    assert_eq!(b, ResourceHandle { index: 2, generation: 2 });
    assert_eq!(m.find(a), Some(&"a"));
    assert_eq!(m.find(b), Some(&"b"));
    // Wrong generation or null handle: nothing.
    assert_eq!(m.find(ResourceHandle { index: 1, generation: 2 }), None);
    assert_eq!(m.find(ResourceHandle::null()), None);
    assert_eq!(m.find(ResourceHandle { index: 9, generation: 1 }), None);
    // Remove with a stale generation does nothing.
    m.remove(ResourceHandle { index: 1, generation: 7 });
    assert_eq!(m.find(a), Some(&"a"));
    m.remove(a);
    assert_eq!(m.find(a), None);
    assert_eq!(m.find_by_index(1), None);
    assert_eq!(m.find(b), Some(&"b"));
    // The freed slot is reused under a new generation; the old handle stays dead.
    let c = m.insert("c");
    assert_eq!(c, ResourceHandle { index: 1, generation: 3 });
    assert_eq!(m.find(a), None);
    assert_eq!(m.find(c), Some(&"c"));
    assert_eq!(m.find_by_index(1), Some(&"c"));
    assert_eq!(m.active_indices(), vec![1, 2]);
    m.remove(b);
    assert_eq!(m.active_indices(), vec![1]);
}

#[test]
fn reinsert_replaces_and_keeps_handle_fresh() {
    let mut m: SlotMap<u32> = SlotMap::new();
    let h0 = reinsert(&mut m, ResourceHandle::null(), 10);
    assert_eq!(m.find(h0), Some(&10));
    let h1 = reinsert(&mut m, h0, 11);
    assert_eq!(m.find(h0), None);
    assert_eq!(m.find(h1), Some(&11));
    assert_eq!(h1.index, h0.index);
    assert_ne!(h1.generation, h0.generation);
}

fn slotmap_with(count: u32) -> (SlotMap<u32>, Vec<ResourceHandle>) {
    let mut m: SlotMap<u32> = SlotMap::new();
    let mut hs = Vec::new();
    for i in 0..count {
        hs.push(m.insert(100 + i));
    }
    (m, hs)
}

#[test]
fn remap_assigns_slots_in_first_seen_order() {
    let (textures, _) = slotmap_with(5); // slots 1..5 hold textures
    let cut = 1u32 << 29;
    // edge 0: base tmap 2; edge 1: overlay tmap 3 over base 1; edge 2: base 0 -> material without albedo
    let edges = vec![
        MaterialEdge { mat1: 2, mat2: 0 },
        MaterialEdge { mat1: 1, mat2: 3 },
        MaterialEdge { mat1: 0, mat2: 0 },
    ];
    let indices: Vec<u16> = vec![0, 1, 2, 3];
    let gpu = vec![material(0), material(4), material(2), material(5)];
    // Triangles: edge 1 (-> tmap 3 -> material 3 -> albedo 5), edge 0 (-> albedo 2),
    // edge 1 again, a non-cutout triangle, edge 2 (no albedo).
    let tris = vec![cut | 1, cut | 0, cut | 1, 0, cut | 2];
    // Overrides: 0 = none, 1 -> albedo 4, 2 -> albedo 2 (already mapped), 0.
    let overrides = vec![0, 1, 2, 0];
    let remap = build_texture_remap(&tris, &overrides, &edges, &indices, &gpu, &textures);
    let mapped: Vec<u32> = remap.textures.iter().map(|t| t.0).collect();
    assert_eq!(mapped, vec![5, 2, 4]);
    assert_eq!(*remap.textures[0].1, 104); // slot 5 holds the fifth texture
    assert_eq!(remap.remap_table, vec![0, 0, 2, 0, 3, 1]);
    let d = remap.diagnostics;
    assert_eq!(d.cutout_mapped, 2);
    assert_eq!(d.override_mapped, 1);
    assert_eq!(d.override_already_mapped, 1);
    assert_eq!(d.override_no_albedo, 0);
    assert_eq!(d.override_tex_missing, 0);
    assert_eq!(d.slots_used, 3);
}

#[test]
fn remap_override_diagnostics() {
    let (textures, _) = slotmap_with(1); // only slot 1 holds a texture
    let gpu = vec![material(0), material(0), material(7), material(1)];
    // 1: no albedo, 2: albedo slot 7 missing, 3: albedo 1 mapped, 3 again: already, 9: out of table
    let overrides = vec![1, 2, 3, 3, 9];
    let remap = build_texture_remap(&[], &overrides, &[], &[], &gpu, &textures);
    let d = remap.diagnostics;
    assert_eq!(d.override_no_albedo, 1);
    assert_eq!(d.override_tex_missing, 1);
    assert_eq!(d.override_mapped, 1);
    assert_eq!(d.override_already_mapped, 1);
    assert_eq!(d.cutout_mapped, 0);
    assert_eq!(remap.remap_table, vec![0, 1]);
}

#[test]
fn remap_caps_at_thirty_textures() {
    let (textures, _) = slotmap_with(40);
    let cut = 1u32 << 29;
    let mut tris = Vec::new();
    let mut edges = Vec::new();
    let mut indices = Vec::new();
    let mut gpu = Vec::new();
    for i in 0..35u32 {
        tris.push(cut | i);
        edges.push(MaterialEdge { mat1: i as u16, mat2: 0 });
        indices.push(i as u16);
        gpu.push(material(i + 1));
    }
    let remap = build_texture_remap(&tris, &[], &edges, &indices, &gpu, &textures);
    assert_eq!(remap.textures.len(), 30);
    assert_eq!(remap.diagnostics.slots_used, 30);
    assert_eq!(remap.remap_table.len(), 31);
    assert_eq!(remap.remap_table[30], 30);
    assert_eq!(remap.remap_table[1], 1);
    assert_eq!(remap.remap_table[0], 0);
}

fn mesh_map() -> (SlotMap<MeshSlot<()>>, ResourceHandle, ResourceHandle) {
    let mut m: SlotMap<MeshSlot<()>> = SlotMap::new();
    let a = m.insert(MeshSlot { gpu: (), triangle_count: 4 });
    let b = m.insert(MeshSlot { gpu: (), triangle_count: 10 });
    (m, a, b)
}

#[test]
fn resolve_drops_missing_meshes_and_counts_kinds() {
    let (meshes, a, b) = mesh_map();
    let missing = ResourceHandle { index: 1, generation: 9 };
    let insts: Vec<SceneInstance<u8>> = vec![
        SceneInstance::LevelMesh {
            mesh: MeshHandle::from_validated(a),
            transform: 0,
            color: RGBA8(0x1234),
            material_override: None,
            object_type: ObjectType::Wall,
        },
        SceneInstance::Billboard {
            mesh: MeshHandle::from_validated(missing),
            transform: 1,
            prev_transform: 1,
            color: RGBA8::white(),
            material: BitmapIndex::new(3).unwrap(),
        },
        SceneInstance::Rod {
            mesh: MeshHandle::from_validated(b),
            transform: 2,
            color: RGBA8::white(),
            material: BitmapIndex::new(8).unwrap(),
        },
    ];
    let (resolved, diag) = resolve_instances(&insts, &meshes);
    assert_eq!(resolved.len(), 2);
    assert_eq!(resolved[0].source, 0);
    assert_eq!(resolved[0].triangle_count, 4);
    assert_eq!(resolved[0].color, 0x1234);
    assert_eq!(resolved[0].material_override, 0);
    assert_eq!(resolved[1].source, 2);
    assert_eq!(resolved[1].triangle_buffer_idx, 2);
    assert_eq!(resolved[1].material_override, 8);
    assert_eq!(diag.level_meshes, 1);
    assert_eq!(diag.billboards, 0);
    assert_eq!(diag.rods, 1);
    assert_eq!(diag.failed, 1);
    assert_eq!(insts[2].object_type(), ObjectType::NoObject);
    assert_eq!(*insts[2].transform(), 2);
}

fn record(h: ResourceHandle) -> ResolvedInstance {
    ResolvedInstance {
        source: 0,
        mesh_handle: h,
        triangle_buffer_idx: h.index,
        triangle_count: 0,
        color: 0,
        material_override: 0,
        triangle_offset: 99,
    }
}

#[test]
fn combined_triangle_offsets() {
    let (meshes, a, b) = mesh_map();
    let gone = ResourceHandle { index: 2, generation: 1 };
    let mut recs = vec![record(b), record(gone), record(a), record(b)];
    let total = plan_combined_triangles(&mut recs, &meshes);
    assert_eq!(total, Some(24));
    assert_eq!(recs[0].triangle_offset, 0);
    assert_eq!(recs[1].triangle_offset, 99); // mesh missing: untouched
    assert_eq!(recs[2].triangle_offset, 10);
    assert_eq!(recs[3].triangle_offset, 14);

    let mut none = vec![record(gone)];
    assert_eq!(plan_combined_triangles(&mut none, &meshes), None);
    assert_eq!(none[0].triangle_offset, 99);
}

#[test]
fn blas_grouping() {
    let (meshes, a, b) = mesh_map();
    let gone = ResourceHandle { index: 2, generation: 1 };
    let recs = vec![record(b), record(a), record(gone), record(b), record(a)];
    let (keys, assigned) = assign_blas_indices(&recs, &meshes);
    assert_eq!(keys, vec![b, a]);
    assert_eq!(assigned, vec![Some(0), Some(1), None, Some(0), Some(1)]);
}

#[test]
fn refit_needs_same_keys_and_a_structure() {
    assert!(can_refit(&[1, 2, 2], &[1, 2, 2], true));
    assert!(!can_refit(&[1, 2, 2], &[1, 2, 2], false));
    assert!(!can_refit(&[1, 2], &[1, 2, 2], true));
    assert!(!can_refit(&[2, 1], &[1, 2], true));
}

#[test]
fn frame_cycle() {
    let mut f = FrameState::new();
    assert!(!f.swap_buffers()); // nothing begun: nothing presented
    assert_eq!(f.frame_index, 0);
    assert!(f.begin_frame());
    assert!(!f.begin_frame()); // already begun: no second wait
    assert!(f.swap_buffers());
    assert_eq!(f.frame_index, 1);
    assert!(!f.frame_begun);
}

#[test]
fn lights_capped_at_one_hundred() {
    let mut lights: Vec<u32> = (0..95).collect();
    let more: Vec<u32> = (1000..1010).collect();
    submit_lights(&mut lights, &more);
    assert_eq!(lights.len(), RT_MAX_LIGHTS);
    assert_eq!(lights[95], 1000);
    assert_eq!(lights[99], 1004);
    submit_lights(&mut lights, &more);
    assert_eq!(lights.len(), RT_MAX_LIGHTS);
    let mut few: Vec<u32> = Vec::new();
    submit_lights(&mut few, &[7, 8]);
    assert_eq!(few, vec![7, 8]);
}

#[test]
fn material_updates() {
    let mut table = vec![GPUMaterial::default(); RT_MAX_MATERIALS];
    table[3].surface_type = SurfaceType::Steel;
    let u = MaterialUpdate { albedo_index: 12, flags: MaterialFlags(1), emissive_factor: 200 };
    assert_eq!(apply_material_update(&mut table, 3, Some(u)), 3);
    assert_eq!(table[3].albedo_index, 12);
    assert_eq!(table[3].flags, MaterialFlags(1));
    assert_eq!(table[3].emissive_factor, 200);
    assert_eq!(table[3].surface_type, SurfaceType::Steel);
    assert_eq!(apply_material_update(&mut table, 2110, Some(u)), u16::MAX);
    assert_eq!(apply_material_update(&mut table, 4, None), 4);
    assert_eq!(table[4], GPUMaterial::default());
}

#[test]
fn level_meshes_queue_only_when_found() {
    let (meshes, a, _) = mesh_map();
    let mut insts: Vec<SceneInstance<u8>> = Vec::new();
    let over = BitmapIndex::new(5);
    assert!(queue_level_mesh(&mut insts, &meshes, a, 7, RGBA8(1), over, ObjectType::Robot));
    assert!(!queue_level_mesh(&mut insts, &meshes, ResourceHandle::null(), 8, RGBA8(1), None, ObjectType::Robot));
    assert!(!queue_level_mesh(&mut insts, &meshes, ResourceHandle { index: 1, generation: 5 }, 8, RGBA8(1), None, ObjectType::Robot));
    assert_eq!(insts.len(), 1);
    assert_eq!(insts[0].mesh().raw(), a);
    assert_eq!(insts[0].material_override().unwrap().as_u16(), 5);
    assert_eq!(insts[0].object_type(), ObjectType::Robot);
}

#[test]
fn raster_batches_and_textures() {
    let mut batches: Vec<RasterBatch<u16>> = Vec::new();
    let h = ResourceHandle { index: 1, generation: 1 };
    push_tri_batch(&mut batches, h, &[1, 2, 3]);
    assert_eq!(batches.len(), 1);
    assert_eq!(batches[0].vertices, vec![1, 2, 3]);
    assert_eq!(batches[0].texture, h);
    let mut lines = vec![9u16];
    push_lines(&mut lines, &[4, 5]);
    assert_eq!(lines, vec![9, 4, 5]);

    let mut textures: SlotMap<&str> = SlotMap::new();
    let t = textures.insert("tex");
    let white = "white";
    assert_eq!(*batch_texture(&textures, t, &white), "tex");
    assert_eq!(*batch_texture(&textures, ResourceHandle::null(), &white), "white");
    assert_eq!(*batch_texture(&textures, ResourceHandle { index: 1, generation: 4 }, &white), "white");
}

#[test]
fn upload_layouts() {
    assert_eq!(bytes_per_pixel(TextureFormat::RGBA8), Some(4));
    assert_eq!(bytes_per_pixel(TextureFormat::R8), Some(1));
    assert_eq!(bytes_per_pixel(TextureFormat::BC7), None);
    assert_eq!(upload_row_bytes(TextureFormat::RGBA8Srgb, 64, 32, true), Some(256));
    assert_eq!(upload_row_bytes(TextureFormat::R8, 64, 32, true), Some(64));
    assert_eq!(upload_row_bytes(TextureFormat::RGBA8, 0, 32, true), None);
    assert_eq!(upload_row_bytes(TextureFormat::RGBA8, 64, 32, false), None);
    assert_eq!(upload_row_bytes(TextureFormat::BC1, 64, 32, true), None);
}

#[test]
fn gpu_buffer_capacity() {
    assert_eq!(buffer_byte_len(10, 16), Some(160));
    assert_eq!(buffer_byte_len(0, 16), None);
    assert_eq!(buffer_byte_len(usize::MAX, 2), None);
    let mut buf = GpuBuffer::from_allocation("buf", 8);
    assert!(buf.fits(0, 8));
    assert!(buf.fits(3, 5));
    assert!(!buf.fits(3, 6));
    assert!(!buf.fits(usize::MAX, 2));
    assert_eq!(buf.write_range(3, 5, 4), (12, 20));
    assert_eq!(buf.growth_request(8, 4), None);
    assert_eq!(buf.growth_request(9, 4), Some(36));
    buf.replace("bigger", 9);
    assert_eq!(buf.capacity(), 9);
    assert_eq!(*buf.metal_buffer(), "bigger");
}
