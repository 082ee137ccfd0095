use demo_engine::demo_scene::DemoScene;
use demo_engine::error::EngineError;
use demo_engine::gpu::{color_vertex_layout, BufferUsage, GpuBackend, VertexBufferLayout, VertexFormat};
use demo_engine::ids::{ObjectId, ResourceId};
use demo_engine::manager::ResourceManager;
use demo_engine::mesh::{Mesh, MeshVertexData};
use demo_engine::primitives::ObjectType;
use demo_engine::render_object::RenderObject;
use demo_engine::renderer::render_scene;
use demo_engine::transform::Transform;

/// A stub graphics device: every handle is a fresh number.
struct StubGpu {
    handles: u32,
}

impl StubGpu {
    fn new() -> StubGpu {
        StubGpu { handles: 0 }
    }

    fn next(&mut self) -> u32 {
        self.handles += 1;
        self.handles
    }
}

impl GpuBackend for StubGpu {
    type Buffer = u32;
    type Shader = u32;
    type Pipeline = u32;
    type BindGroup = u32;
    type BindGroupLayout = u32;
    type TextureFormat = u32;

    fn create_buffer_init(&mut self, _contents: &[u8], _usage: BufferUsage, _label: Option<&str>) -> u32 {
        self.next()
    }

    fn create_shader_module(&mut self, _source: &str, _label: Option<&str>) -> u32 {
        self.next()
    }

    fn create_uniform_bind_group_layout(&mut self, _label: Option<&str>) -> u32 {
        self.next()
    }

    fn create_render_pipeline(
        &mut self,
        _shader: &u32,
        _vertex_layout: &VertexBufferLayout,
        _target_format: &u32,
        _bind_group_layout: &u32,
        _label: Option<&str>,
    ) -> u32 {
        self.next()
    }

    fn create_bind_group(&mut self, _layout: &u32, _buffer: &u32, _label: Option<&str>) -> u32 {
        self.next()
    }

    fn write_buffer(&mut self, _buffer: &u32, _data: &[u8]) {}
}

type Vec3 = (i64, i64, i64);
type Scene = DemoScene<StubGpu, Vec3, i64>;

fn test_scene() -> Scene {
    let mut scene: Scene = DemoScene::new(
        String::from("shader source"),
        MeshVertexData { bytes: vec![0; 96], vertex_count: 4 },
        MeshVertexData { bytes: vec![0; 72], vertex_count: 3 },
        vec![0; 64],
        0,
        (1, 1, 1),
    );
    let manager = ResourceManager::new(StubGpu::new(), 7u32);
    scene.initialize(manager);
    scene
}

#[test]
fn create_pipeline_without_shader_is_resource_not_found() {
    let mut manager: ResourceManager<StubGpu> = ResourceManager::new(StubGpu::new(), 7u32);
    let layout = color_vertex_layout();
    let result = manager.create_pipeline(
        ResourceId::new("pipeline"),
        ResourceId::new("never_created_shader"),
        &layout,
        &7u32,
        &1u32,
    );
    assert!(matches!(result, Err(EngineError::ResourceNotFound(_))));
    assert!(manager.get_pipeline(&ResourceId::new("pipeline")).is_none());
}

#[test]
fn create_pipeline_after_shader_succeeds() {
    let mut manager: ResourceManager<StubGpu> = ResourceManager::new(StubGpu::new(), 7u32);
    let shader_id = ResourceId::new("shader");
    let pipeline_id = ResourceId::new("pipeline");
    manager.create_shader(shader_id, "source", Some("shader")).unwrap();
    assert!(manager.get_shader(&shader_id).is_some());
    let layout = color_vertex_layout();
    let result = manager.create_pipeline(pipeline_id, shader_id, &layout, &7u32, &1u32);
    assert!(result.is_ok());
    assert!(manager.get_pipeline(&pipeline_id).is_some());
}

#[test]
fn registered_mesh_is_indexed_under_sub_ids() {
    let mut device = StubGpu::new();
    let mut manager: ResourceManager<StubGpu> = ResourceManager::new(StubGpu::new(), 7u32);
    let mesh = Mesh::new(&mut device, &[0u8; 96], 4, Some(&vec![0u16, 1, 2, 0, 2, 3]));
    let id = ResourceId::new("quad_mesh_0");
    manager.register_mesh(id, mesh);
    let stored = manager.get_mesh(&id).unwrap();
    assert_eq!(stored.vertex_count, 4);
    assert_eq!(stored.index_count, 6);
    assert!(manager.get_buffer(&id.sub_id("_vertex")).is_some());
    assert!(manager.get_buffer(&id.sub_id("_index")).is_some());
    assert!(manager.get_buffer(&ResourceId::new("absent")).is_none());
}

#[test]
fn uniform_buffer_is_stored_and_updatable() {
    let mut manager: ResourceManager<StubGpu> = ResourceManager::new(StubGpu::new(), 7u32);
    let id = ResourceId::new("camera_buffer");
    let buffer = manager.create_uniform_buffer(id, &[0u8; 64]).unwrap();
    let stored = manager.get_buffer(&id).unwrap();
    assert_eq!(*stored, *buffer);
    manager.update_uniform_buffer(&buffer, &[1u8; 64]);
    assert_eq!(*manager.get_surface_format(), 7u32);
}

#[test]
fn initialize_creates_shared_resources() {
    let scene = test_scene();
    assert!(scene.get_camera_bind_group().is_some());
    assert!(scene.get_camera_buffer().is_some());
    let manager = scene.get_resource_manager();
    assert!(manager.get_shader(&ResourceId::new("basic_shader")).is_some());
    assert!(manager.get_pipeline(&ResourceId::new("basic_pipeline")).is_some());
    assert!(manager.get_buffer(&ResourceId::new("camera_buffer")).is_some());
    assert!(manager.get_bind_group(&ResourceId::new("camera_bind_group")).is_some());
}

#[test]
fn initialize_twice_is_a_no_op() {
    let mut scene = test_scene();
    let id = scene.add_object(ObjectType::Quad, (0, 0, 0));
    scene.initialize(ResourceManager::new(StubGpu::new(), 9u32));
    assert_eq!(scene.get_render_objects().len(), 1);
    assert_eq!(scene.get_render_objects()[0].id, id);
    assert_eq!(*scene.get_resource_manager().get_surface_format(), 7u32);
}

#[test]
fn added_objects_are_visible_with_fresh_ids() {
    let mut scene = test_scene();
    let a = scene.add_object(ObjectType::Quad, (1, 2, 3));
    let b = scene.add_object(ObjectType::Triangle, (4, 5, 6));
    assert_ne!(a, b);
    assert_eq!(a.as_u32(), 1);
    assert_eq!(b.as_u32(), 2);
    let objects = scene.get_render_objects();
    assert_eq!(objects.len(), 2);
    assert!(objects[0].visible);
    assert_eq!(objects[0].transform.position, (1, 2, 3));
    assert_eq!(objects[0].transform.scale, (1, 1, 1));
    assert_eq!(objects[1].transform.position, (4, 5, 6));
    assert_eq!(objects[0].pipeline_id, ResourceId::new("basic_pipeline"));
    assert_eq!(objects[0].mesh_id, ResourceId::new("quad_mesh_0"));
    assert_eq!(objects[1].mesh_id, ResourceId::new("triangle_mesh_1"));
}

#[test]
fn remove_object_of_unknown_id_changes_nothing() {
    let mut scene = test_scene();
    scene.add_object(ObjectType::Quad, (0, 0, 0));
    scene.add_object(ObjectType::Triangle, (1, 1, 1));
    assert_eq!(scene.get_render_objects().len(), 2);
    assert!(!scene.remove_object(ObjectId(999)));
    assert_eq!(scene.get_render_objects().len(), 2);
}

#[test]
fn remove_object_drops_exactly_the_named_object() {
    let mut scene = test_scene();
    let a = scene.add_object(ObjectType::Quad, (0, 0, 0));
    let b = scene.add_object(ObjectType::Triangle, (1, 1, 1));
    assert!(scene.remove_object(a));
    let objects = scene.get_render_objects();
    assert_eq!(objects.len(), 1);
    assert_eq!(objects[0].id, b);
    assert!(!scene.remove_object(a));
}

#[test]
fn move_object_updates_only_the_position() {
    let mut scene = test_scene();
    let a = scene.add_object(ObjectType::Quad, (0, 0, 0));
    assert!(scene.move_object(a, (9, 9, 9)));
    let objects = scene.get_render_objects();
    assert_eq!(objects[0].transform.position, (9, 9, 9));
    assert_eq!(objects[0].transform.scale, (1, 1, 1));
    assert!(!scene.move_object(ObjectId(42), (0, 0, 0)));
}

#[test]
fn set_object_visible_flips_the_flag() {
    let mut scene = test_scene();
    let a = scene.add_object(ObjectType::Quad, (0, 0, 0));
    assert!(scene.set_object_visible(a, false));
    assert!(!scene.get_render_objects()[0].visible);
    assert!(scene.set_object_visible(a, true));
    assert!(scene.get_render_objects()[0].visible);
    assert!(!scene.set_object_visible(ObjectId(42), false));
}

#[test]
fn camera_uniform_bytes_are_stored() {
    let mut scene = test_scene();
    let bytes: Vec<u8> = (0..64).collect();
    scene.update_camera_uniform(&bytes);
    assert_eq!(*scene.get_camera_uniform(), bytes);
}

#[test]
fn render_plan_draws_every_known_object_in_order() {
    let mut scene = test_scene();
    scene.add_object(ObjectType::Quad, (0, 0, 0));
    scene.add_object(ObjectType::Triangle, (1, 1, 1));
    let plan = render_scene(
        scene.get_render_objects(),
        scene.get_camera_bind_group(),
        scene.get_resource_manager(),
    );
    assert!(plan.camera_bind_group.is_some());
    assert_eq!(plan.draws.len(), 2);
    assert!(plan.draws[0].index_buffer.is_some());
    assert_eq!(plan.draws[0].index_count, 6);
    assert_eq!(plan.draws[0].vertex_count, 4);
    assert!(plan.draws[1].index_buffer.is_none());
    assert_eq!(plan.draws[1].vertex_count, 3);
}

#[test]
fn render_plan_skips_objects_with_missing_resources() {
    let scene = test_scene();
    let stray: RenderObject<(i64, i64, i64), i64> = RenderObject::new(
        ResourceId::new("no_such_mesh"),
        ResourceId::new("no_such_pipeline"),
        ObjectId(77),
        Transform::new((0, 0, 0), 0, (1, 1, 1)),
    );
    let objects = vec![stray];
    let plan = render_scene(&objects, None, scene.get_resource_manager());
    assert!(plan.camera_bind_group.is_none());
    assert_eq!(plan.draws.len(), 0);
}

#[test]
fn color_vertex_layout_matches_shader_inputs() {
    let layout = color_vertex_layout();
    assert_eq!(layout.array_stride, 24);
    assert_eq!(layout.attributes.len(), 2);
    assert_eq!(layout.attributes[0].offset, 0);
    assert_eq!(layout.attributes[0].shader_location, 0);
    assert!(matches!(layout.attributes[0].format, VertexFormat::Float32x3));
    assert_eq!(layout.attributes[1].offset, 12);
    assert_eq!(layout.attributes[1].shader_location, 1);
}

#[test]
fn creating_under_an_existing_id_overwrites() {
    let mut manager: ResourceManager<StubGpu> = ResourceManager::new(StubGpu::new(), 7u32);
    let id = ResourceId::new("shader");
    let first = manager.create_shader(id, "one", None).unwrap();
    let second = manager.create_shader(id, "two", None).unwrap();
    assert_ne!(*first, *second);
    assert_eq!(*manager.get_shader(&id).unwrap(), *second);
}

#[test]
fn transform_builders_replace_one_field_each() {
    let t: Transform<(i64, i64, i64), i64> = Transform::new((0, 0, 0), 5, (1, 1, 1));
    let t = t.with_position((7, 8, 9));
    assert_eq!(t.position, (7, 8, 9));
    assert_eq!(t.rotation, 5);
    let t = t.with_rotation(6);
    assert_eq!(t.rotation, 6);
    assert_eq!(t.position, (7, 8, 9));
    let mut t = t.with_scale((2, 2, 2));
    assert_eq!(t.scale, (2, 2, 2));
    t.set_position((3, 3, 3));
    assert_eq!(t.position, (3, 3, 3));
    assert_eq!(t.rotation, 6);
    assert_eq!(t.scale, (2, 2, 2));
}

#[test]
fn render_object_starts_visible_and_flips() {
    let t: Transform<(i64, i64, i64), i64> = Transform::new((0, 0, 0), 0, (1, 1, 1));
    let mut o = RenderObject::new(
        ResourceId::new("mesh"),
        ResourceId::new("pipeline"),
        ObjectId(3),
        t,
    );
    assert!(o.visible);
    assert_eq!(o.id.as_u32(), 3);
    o.set_visible(false);
    assert!(!o.visible);
    let o2 = o.with_transform(t.with_position((1, 1, 1)));
    assert_eq!(o2.transform.position, (1, 1, 1));
    assert_eq!(o2.mesh_id, ResourceId::new("mesh"));
}

#[test]
fn buffer_usage_constructors_set_their_flags() {
    let v = BufferUsage::vertex();
    assert!(v.vertex && !v.index && !v.uniform && !v.copy_dst);
    let i = BufferUsage::index();
    assert!(!i.vertex && i.index && !i.uniform && !i.copy_dst);
    let u = BufferUsage::uniform();
    assert!(!u.vertex && !u.index && u.uniform && u.copy_dst);
}
