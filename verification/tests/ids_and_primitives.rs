use demo_engine::error::EngineError;
use demo_engine::config::WindowConfig;
use demo_engine::ids::{u64_decimal_bytes, ObjectId, ObjectIdAllocator, ResourceId, SceneId};
use demo_engine::mesh::indices_to_le_bytes;
use demo_engine::primitives::{Cube, Quad, Sphere, Triangle};

#[test]
fn resource_id_is_deterministic() {
    let a = ResourceId::new("basic_pipeline");
    let b = ResourceId::new("basic_pipeline");
    assert_eq!(a, b);
    let owned = String::from("basic_pipeline");
    let c = ResourceId::new(&owned);
    assert_eq!(a, c);
}

#[test]
fn scene_id_is_deterministic() {
    assert_eq!(SceneId::new("Demo_Scene"), SceneId::new("Demo_Scene"));
}

#[test]
fn sub_id_matches_formatted_name() {
    let id = ResourceId::new("quad_mesh_0");
    let by_format = ResourceId::new(&format!("{}_vertex", id.0));
    assert_eq!(id.sub_id("_vertex"), by_format);
    let by_format_index = ResourceId::new(&format!("{}_index", id.0));
    assert_eq!(id.sub_id("_index"), by_format_index);
}

#[test]
fn indexed_id_matches_formatted_name() {
    let by_format = ResourceId::new(&format!("quad_mesh_{}", 12u64));
    assert_eq!(ResourceId::indexed("quad_mesh_", 12), by_format);
}

#[test]
fn object_ids_start_at_one_and_increase() {
    let mut ids = ObjectIdAllocator::new();
    let a = ObjectId::generate(&mut ids);
    let b = ObjectId::generate(&mut ids);
    let c = ObjectId::generate(&mut ids);
    assert_eq!(a.as_u32(), 1);
    assert_eq!(b.as_u32(), 2);
    assert_eq!(c.as_u32(), 3);
    assert_ne!(a, b);
    assert_ne!(b, c);
}

#[test]
fn error_message_carries_description() {
    let e = EngineError::ResourceNotFound(String::from("shader not found"));
    assert_eq!(e.message(), "shader not found");
    assert!(matches!(e, EngineError::ResourceNotFound(_)));
    let e = EngineError::SceneNotFound(String::from("scene is not registered"));
    assert_eq!(e.message(), "scene is not registered");
}

#[test]
fn default_window_config() {
    let config = WindowConfig::default();
    assert_eq!(config.width, 800);
    assert_eq!(config.height, 600);
    assert_eq!(config.title, "Demo Engine");
    assert!(config.resizable);
    let aspect = config.width as f32 / config.height as f32;
    assert!((aspect - 800.0 / 600.0).abs() < f32::EPSILON);
    assert!((aspect - 1.333).abs() < 0.001);
}

#[test]
fn quad_indices_are_two_triangles() {
    let indices = Quad::create_indices().unwrap();
    assert_eq!(indices, vec![0u16, 1, 2, 0, 2, 3]);
    assert_eq!(Quad::vertex_count(), 4);
}

#[test]
fn triangle_has_no_indices() {
    assert!(Triangle::create_indices().is_none());
    assert_eq!(Triangle::vertex_count(), 3);
}

#[test]
fn cube_indices_cover_six_faces() {
    let indices = Cube::create_indices().unwrap();
    assert_eq!(indices.len(), 36);
    assert_eq!(&indices[0..6], &[0u16, 1, 2, 2, 3, 0]);
    assert_eq!(&indices[30..36], &[20u16, 21, 22, 22, 23, 20]);
    assert_eq!(Cube::vertex_count(), 24);
}

#[test]
fn sphere_indices_have_expected_shape() {
    let indices = Sphere::create_indices().unwrap();
    // Top and bottom stacks give one triangle per sector, the 30 middle
    // stacks two: (3 + 3) * 32 + 30 * 6 * 32 indices.
    assert_eq!(indices.len(), 5952);
    // The first cell (stack 0, sector 0) emits only its lower triangle.
    assert_eq!(&indices[0..3], &[1u16, 33, 34]);
    // Every index addresses a vertex of the sphere.
    let vertex_count = Sphere::vertex_count() as u16;
    assert!(indices.iter().all(|&i| i < vertex_count));
    assert_eq!(Sphere::vertex_count(), 33 * 33);
}

#[test]
fn index_bytes_are_little_endian() {
    let bytes = indices_to_le_bytes(&vec![0x1234u16, 7]);
    assert_eq!(bytes, vec![0x34u8, 0x12, 7, 0]);
    assert_eq!(indices_to_le_bytes(&vec![]), Vec::<u8>::new());
}

#[test]
fn decimal_bytes_spell_the_number() {
    assert_eq!(u64_decimal_bytes(0), b"0".to_vec());
    assert_eq!(u64_decimal_bytes(7), b"7".to_vec());
    assert_eq!(u64_decimal_bytes(1230), b"1230".to_vec());
    assert_eq!(u64_decimal_bytes(u64::MAX), b"18446744073709551615".to_vec());
}
