use demo_engine::demo_scene::DemoScene;
use demo_engine::gpu::{BufferUsage, GpuBackend, VertexBufferLayout};
use demo_engine::ids::SceneId;
use demo_engine::input::{CameraMotion, InputSnapshot};
use demo_engine::error::EngineError;
use demo_engine::mesh::MeshVertexData;
use demo_engine::scene_manager::SceneManager;
use demo_engine::surface::{FormatOption, PresentMode, SurfaceManager};

struct NullGpu;

impl GpuBackend for NullGpu {
    type Buffer = ();
    type Shader = ();
    type Pipeline = ();
    type BindGroup = ();
    type BindGroupLayout = ();
    type TextureFormat = u8;

    fn create_buffer_init(&mut self, _contents: &[u8], _usage: BufferUsage, _label: Option<&str>) {}

    fn create_shader_module(&mut self, _source: &str, _label: Option<&str>) {}

    fn create_uniform_bind_group_layout(&mut self, _label: Option<&str>) {}

    fn create_render_pipeline(
        &mut self,
        _shader: &(),
        _vertex_layout: &VertexBufferLayout,
        _target_format: &u8,
        _bind_group_layout: &(),
        _label: Option<&str>,
    ) {
    }

    fn create_bind_group(&mut self, _layout: &(), _buffer: &(), _label: Option<&str>) {}

    fn write_buffer(&mut self, _buffer: &(), _data: &[u8]) {}
}

fn formats() -> Vec<FormatOption<u8>> {
    vec![
        FormatOption { format: 1, is_srgb: false },
        FormatOption { format: 2, is_srgb: true },
        FormatOption { format: 3, is_srgb: true },
    ]
}

#[test]
fn surface_prefers_first_srgb_format() {
    let manager = SurfaceManager::new(&formats(), 800, 600, true);
    assert_eq!(manager.format(), 2);
    assert_eq!(manager.config().width, 800);
    assert_eq!(manager.config().height, 600);
    assert_eq!(manager.config().present_mode, PresentMode::Fifo);
}

#[test]
fn surface_falls_back_to_first_format() {
    let options = vec![
        FormatOption { format: 5u8, is_srgb: false },
        FormatOption { format: 6u8, is_srgb: false },
    ];
    let manager = SurfaceManager::new(&options, 640, 480, false);
    assert_eq!(manager.format(), 5);
    assert_eq!(manager.config().present_mode, PresentMode::Immediate);
}

#[test]
fn resize_to_zero_is_ignored() {
    let mut manager = SurfaceManager::new(&formats(), 800, 600, true);
    assert!(!manager.resize(0, 1080));
    assert_eq!(manager.config().width, 800);
    assert_eq!(manager.config().height, 600);
    assert!(!manager.resize(1920, 0));
    assert_eq!(manager.config().width, 800);
    assert_eq!(manager.config().height, 600);
    assert!(!manager.resize(0, 0));
    assert_eq!(manager.config().width, 800);
    assert_eq!(manager.config().height, 600);
    assert_eq!(manager.format(), 2);
}

#[test]
fn resize_to_real_dimensions_takes_effect() {
    let mut manager = SurfaceManager::new(&formats(), 800, 600, true);
    assert!(manager.resize(1920, 1080));
    assert_eq!(manager.config().width, 1920);
    assert_eq!(manager.config().height, 1080);
    assert_eq!(manager.config().present_mode, PresentMode::Fifo);
}

#[test]
fn forward_key_commands_forward_motion() {
    let mut scene: DemoScene<NullGpu, i32, i32> = DemoScene::new(
        String::from("shader"),
        MeshVertexData { bytes: vec![], vertex_count: 4 },
        MeshVertexData { bytes: vec![], vertex_count: 3 },
        vec![0; 64],
        0,
        1,
    );
    let input = InputSnapshot { key_w: true, ..InputSnapshot::default() };
    let motion = scene.update(&input);
    assert_eq!(
        motion,
        CameraMotion { forward: 1, right: 0, up: 0, yaw: 0, pitch: 0 }
    );
}

#[test]
fn opposing_keys_cancel_and_axes_combine() {
    let mut scene: DemoScene<NullGpu, i32, i32> = DemoScene::new(
        String::from("shader"),
        MeshVertexData { bytes: vec![], vertex_count: 4 },
        MeshVertexData { bytes: vec![], vertex_count: 3 },
        vec![0; 64],
        0,
        1,
    );
    let input = InputSnapshot {
        key_w: true,
        key_s: true,
        key_a: true,
        key_q: true,
        arrow_right: true,
        arrow_up: true,
        ..InputSnapshot::default()
    };
    let motion = scene.update(&input);
    assert_eq!(
        motion,
        CameraMotion { forward: 0, right: -1, up: -1, yaw: -1, pitch: 1 }
    );
    let still = scene.update(&InputSnapshot::default());
    assert_eq!(still, CameraMotion { forward: 0, right: 0, up: 0, yaw: 0, pitch: 0 });
}

#[test]
fn scene_manager_tracks_and_hands_out_the_current_scene() {
    let mut manager: SceneManager<&'static str> = SceneManager::new();
    let id = SceneId::new("Demo_Scene");
    manager.register_scene(id, "the scene");
    assert!(manager.set_current_scene(id).is_ok());
    assert_eq!(manager.take_current_scene(), Some("the scene"));
    assert_eq!(manager.take_current_scene(), None);
}

#[test]
fn selecting_an_unregistered_scene_fails() {
    let mut manager: SceneManager<&'static str> = SceneManager::new();
    let result = manager.set_current_scene(SceneId::new("missing"));
    assert!(matches!(result, Err(EngineError::SceneNotFound(_))));
    assert_eq!(manager.take_current_scene(), None);
}

#[test]
fn scene_manager_update_drives_the_current_scene() {
    let scene: DemoScene<NullGpu, i32, i32> = DemoScene::new(
        String::from("shader"),
        MeshVertexData { bytes: vec![], vertex_count: 4 },
        MeshVertexData { bytes: vec![], vertex_count: 3 },
        vec![0; 64],
        0,
        1,
    );
    let mut manager: SceneManager<DemoScene<NullGpu, i32, i32>> = SceneManager::new();
    let id = SceneId::new("Demo_Scene");

    let input = InputSnapshot { key_d: true, ..InputSnapshot::default() };
    assert_eq!(manager.update(&input), None);

    manager.register_scene(id, scene);
    manager.set_current_scene(id).unwrap();
    let motion = manager.update(&input).unwrap();
    assert_eq!(motion, CameraMotion { forward: 0, right: 1, up: 0, yaw: 0, pitch: 0 });
    assert!(manager.take_current_scene().is_some());
}
