use rt_renderer::color::RGBA8;
use rt_renderer::indices::{BitmapIndex, MaterialEdgeIndex, TextureSlotId, TmapNum};
use rt_renderer::instance::{MeshHandle, SceneInstance};
use rt_renderer::material::ParsedMaterialEdge;
use rt_renderer::remap::build_texture_remap;
use rt_renderer::scene::select_render_size;
use rt_renderer::slotmap::SlotMap;
use rt_renderer::triangle_ref::TriangleMaterialRef;
use rt_renderer::types::{
    GPUMaterial, MaterialEdge, MaterialFlags, ObjectType, ResourceHandle, SurfaceType,
};

#[test]
fn white_is_0xffffffff() {
    assert_eq!(RGBA8::white().packed(), 0xFFFFFFFF);
}

#[test]
fn transparent_is_0() {
    assert_eq!(RGBA8::transparent().packed(), 0);
}

#[test]
fn bitmap_index_valid_range() {
    assert!(BitmapIndex::new(0).is_some());
    assert!(BitmapIndex::new(100).is_some());
    assert!(BitmapIndex::new(2109).is_some()); // RT_MAX_MATERIALS - 1
    assert!(BitmapIndex::new(2110).is_none()); // RT_MAX_MATERIALS
    assert!(BitmapIndex::new(u16::MAX).is_none());
}

#[test]
fn tmap_num_valid_range() {
    assert!(TmapNum::new(0).is_some());
    assert!(TmapNum::new(2109).is_some());
    assert!(TmapNum::new(2110).is_none());
}

#[test]
fn material_edge_index_valid_range() {
    assert!(MaterialEdgeIndex::new(0).is_some());
    assert!(MaterialEdgeIndex::new(53999).is_some()); // RT_MAX_MATERIAL_EDGES - 1
    assert!(MaterialEdgeIndex::new(54000).is_none()); // RT_MAX_MATERIAL_EDGES
}

#[test]
fn texture_slot_id_none() {
    let slot = TextureSlotId::none();
    assert!(!slot.is_some());
    assert_eq!(slot.as_u32(), 0);
}

#[test]
fn texture_slot_id_some() {
    let slot = TextureSlotId::new(5);
    assert!(slot.is_some());
    assert_eq!(slot.as_u32(), 5);
}

#[test]
fn level_mesh_no_override() {
    let mesh = MeshHandle::from_validated(ResourceHandle { index: 1, generation: 1 });
    let inst: SceneInstance<[[f32; 4]; 4]> = SceneInstance::LevelMesh {
        mesh,
        transform: [[1.0, 0.0, 0.0, 0.0], [0.0, 1.0, 0.0, 0.0], [0.0, 0.0, 1.0, 0.0], [0.0, 0.0, 0.0, 1.0]],
        color: RGBA8::white(),
        material_override: None,
        object_type: ObjectType::NoObject,
    };
    assert!(inst.material_override().is_none());
}

#[test]
fn level_mesh_with_override() {
    let mesh = MeshHandle::from_validated(ResourceHandle { index: 1, generation: 1 });
    let mat = BitmapIndex::new(99).unwrap();
    let inst: SceneInstance<[[f32; 4]; 4]> = SceneInstance::LevelMesh {
        mesh,
        transform: [[1.0, 0.0, 0.0, 0.0], [0.0, 1.0, 0.0, 0.0], [0.0, 0.0, 1.0, 0.0], [0.0, 0.0, 0.0, 1.0]],
        color: RGBA8::white(),
        material_override: Some(mat),
        object_type: ObjectType::NoObject,
    };
    assert_eq!(inst.material_override().unwrap().as_u16(), 99);
}

#[test]
fn base_only() {
    let edge = ParsedMaterialEdge::from_raw(42, 0);
    assert_eq!(edge.base.as_u16(), 42);
    assert!(edge.overlay.is_none());
    assert_eq!(edge.active_tmap().as_u16(), 42);
}

#[test]
fn with_overlay() {
    // mat2: tmap=100 (bits 0-9), door_openness=5 (bits 10-13), orientation=2 (bits 14-15)
    let mat2 = 100 | (5 << 10) | (2 << 14);
    let edge = ParsedMaterialEdge::from_raw(42, mat2);
    assert_eq!(edge.base.as_u16(), 42);
    let overlay = edge.overlay.as_ref().unwrap();
    assert_eq!(overlay.tmap_num.as_u16(), 100);
    assert_eq!(overlay.door_openness, 5);
    assert_eq!(overlay.orientation, 2);
    assert_eq!(edge.active_tmap().as_u16(), 100);
}

#[test]
fn out_of_range_base_clamps_to_zero() {
    let edge = ParsedMaterialEdge::from_raw(u16::MAX, 0);
    assert_eq!(edge.base.as_u16(), 0);
}

#[test]
fn override_dimensions_used() {
    let (w, h) = select_render_size(1920, 1080, 640, 480);
    assert_eq!(w, 1920);
    assert_eq!(h, 1080);
}

#[test]
fn zero_override_falls_back_to_current() {
    let (w, h) = select_render_size(0, 0, 640, 480);
    assert_eq!(w, 640);
    assert_eq!(h, 480);
}

#[test]
fn instance_override() {
    let r = TriangleMaterialRef::parse(0xFFFF);
    assert_eq!(r, TriangleMaterialRef::InstanceOverride);
}

#[test]
fn material_edge_no_cutout() {
    let r = TriangleMaterialRef::parse(42);
    match r {
        TriangleMaterialRef::MaterialEdge { index, alpha_cutout } => {
            assert_eq!(index.as_u32(), 42);
            assert!(!alpha_cutout);
        }
        _ => panic!("Expected MaterialEdge"),
    }
}

#[test]
fn material_edge_with_cutout() {
    let raw = 42 | (1 << 29);
    let r = TriangleMaterialRef::parse(raw);
    match r {
        TriangleMaterialRef::MaterialEdge { index, alpha_cutout } => {
            assert_eq!(index.as_u32(), 42);
            assert!(alpha_cutout);
        }
        _ => panic!("Expected MaterialEdge"),
    }
}

#[test]
fn out_of_range_becomes_instance_override() {
    // An index >= RT_MAX_MATERIAL_EDGES (54000) should be treated as override
    let raw = 0x1FFFFFFF; // max 29-bit value, way above 54000
    let r = TriangleMaterialRef::parse(raw);
    assert_eq!(r, TriangleMaterialRef::InstanceOverride);
}

#[test]
fn resource_handle_null_is_invalid() {
    assert!(!ResourceHandle::null().is_valid());
}

#[test]
fn resource_handle_nonzero_is_valid() {
    let h = ResourceHandle { index: 1, generation: 0 };
    assert!(h.is_valid());
}

#[test]
fn empty_triangles_produces_empty_remap() {
    let slotmap: SlotMap<u32> = SlotMap::new();
    let remap = build_texture_remap(&[], &[], &[], &[], &[], &slotmap);
    assert!(remap.textures.is_empty());
    assert_eq!(remap.remap_table.len(), 1); // at least 1 element
    assert_eq!(remap.remap_table[0], 0);
}

#[test]
fn non_cutout_triangles_ignored() {
    let tri: u32 = 0; // no alpha cutout flag
    let slotmap: SlotMap<u32> = SlotMap::new();
    let remap = build_texture_remap(&[tri], &[], &[], &[], &[], &slotmap);
    assert!(remap.textures.is_empty());
}

#[test]
fn cutout_triangle_with_invalid_mei_ignored() {
    let alpha_flag = 1u32 << 29;
    let tri = alpha_flag | 99999; // MEI out of range
    let edges = vec![MaterialEdge { mat1: 0, mat2: 0 }; 10];
    let slotmap: SlotMap<u32> = SlotMap::new();
    let remap = build_texture_remap(&[tri], &[], &edges, &[], &[], &slotmap);
    assert!(remap.textures.is_empty());
}

#[test]
fn max_slots_respected() {
    let alpha_flag = 1u32 << 29;
    // Create 35 triangles with distinct materials to exceed 31-slot limit
    let mut triangles = Vec::new();
    let mut edges = Vec::new();
    let mut mat_indices = Vec::new();
    let mut gpu_mats = Vec::new();

    for i in 0..35u32 {
        triangles.push(alpha_flag | i);
        edges.push(MaterialEdge { mat1: i as u16, mat2: 0 });
        mat_indices.push(i as u16);
        gpu_mats.push(GPUMaterial {
            albedo_index: i + 1, // nonzero
            flags: MaterialFlags(0),
            emissive_factor: 0,
            surface_type: SurfaceType::Rock,
        });
    }

    // No textures are stored, so every lookup finds nothing and nothing is remapped.
    let slotmap: SlotMap<u32> = SlotMap::new();
    let remap = build_texture_remap(&triangles, &[], &edges, &mat_indices, &gpu_mats, &slotmap);
    assert!(remap.textures.is_empty());
}
