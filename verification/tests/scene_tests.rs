use vrm_layer_mate::builder::build_scene;
use vrm_layer_mate::document::{Document, ImageData, Mesh, PixelFormat, Primitive};
use vrm_layer_mate::errors::{DrawError, GpuBuildError, LoadError};
use vrm_layer_mate::geometry::Vec3;
use vrm_layer_mate::render::scaled_framebuffer_size;
use vrm_layer_mate::scene::{SceneModel, SceneState, SurfaceState};

fn one_triangle_model() -> SceneModel {
    let prim = Primitive {
        positions: Some(vec![
            Vec3 { x: 0, y: 0, z: 0 },
            Vec3 { x: 0, y: 0, z: 0 },
            Vec3 { x: 0, y: 0, z: 0 },
        ]),
        normals: None,
        uvs: None,
        indices: Some(vec![0, 1, 2]),
        base_color_image: Some(0),
    };
    let doc = Document {
        meshes: vec![Mesh { primitives: vec![prim] }],
        images: vec![ImageData::new(2, 2, PixelFormat::Rgba8, vec![255; 16]).unwrap()],
    };
    build_scene(doc).unwrap()
}

#[test]
fn fresh_surface_renders_nothing() {
    let mut state = SurfaceState::new();
    assert_eq!(state.frame_counter, 0);
    let plan = state.render(100, 100);
    assert!(plan.is_none());
    assert_eq!(state.frame_counter, 1);
}

#[test]
fn realized_surface_renders_one_draw_per_mesh() {
    let mut state = SurfaceState::new();
    state.realize(Ok(one_triangle_model()));
    let plan = state.render(100, 100).unwrap();
    assert_eq!(plan.viewport.width, 100);
    assert_eq!(plan.viewport.height, 100);
    assert!(plan.state.depth_test);
    assert!(plan.state.depth_write);
    assert!(plan.state.cull_ccw_backfaces);
    assert_eq!(plan.draws.len(), 1);
    assert_eq!(plan.draws[0].mesh, 0);
    // The drawn frame completes: it counts as presented.
    assert!(state.frame_outcome(Ok(())));
}

#[test]
fn draw_commands_follow_load_order() {
    let prim = || Primitive {
        positions: Some(vec![
            Vec3 { x: 0, y: 0, z: 0 },
            Vec3 { x: 0, y: 0, z: 0 },
            Vec3 { x: 0, y: 0, z: 0 },
        ]),
        normals: None,
        uvs: None,
        indices: None,
        base_color_image: Some(0),
    };
    let doc = Document {
        meshes: vec![Mesh { primitives: vec![prim(), prim()] }, Mesh { primitives: vec![prim()] }],
        images: vec![ImageData::new(1, 1, PixelFormat::Rgba8, vec![255; 4]).unwrap()],
    };
    let model = build_scene(doc).unwrap();
    let mut state = SurfaceState::new();
    state.realize(Ok(model));
    let plan = state.render(200, 100).unwrap();
    assert_eq!(plan.draws.len(), 3);
    for (i, command) in plan.draws.iter().enumerate() {
        assert_eq!(command.mesh, i);
    }
}

#[test]
fn failed_load_leaves_surface_unrealized() {
    let mut state = SurfaceState::new();
    state.realize(Err(LoadError::Gpu(GpuBuildError::ShaderCompileError)));
    assert!(matches!(state.scene, SceneState::Unrealized));
    assert!(state.render(100, 100).is_none());
}

#[test]
fn unrealize_tears_the_scene_down() {
    let mut state = SurfaceState::new();
    state.realize(Ok(one_triangle_model()));
    assert!(state.render(64, 64).is_some());
    state.unrealize();
    assert!(matches!(state.scene, SceneState::Unrealized));
    assert!(state.render(64, 64).is_none());
}

#[test]
fn failed_frame_is_not_presented_and_stops_further_draws() {
    let mut state = SurfaceState::new();
    state.realize(Ok(one_triangle_model()));
    assert!(state.render(100, 100).is_some());
    let presented = state.frame_outcome(Err(DrawError::DrawCallFailed { mesh: 0 }));
    assert!(!presented);
    assert!(state.render(100, 100).is_none());
}

#[test]
fn not_current_context_frame_is_not_presented() {
    let mut state = SurfaceState::new();
    state.realize(Ok(one_triangle_model()));
    assert!(!state.frame_outcome(Err(DrawError::ContextNotCurrent)));
}

#[test]
fn every_redraw_request_is_counted() {
    let mut state = SurfaceState::new();
    state.render(10, 10);
    state.render(10, 10);
    state.realize(Ok(one_triangle_model()));
    state.render(10, 10);
    assert_eq!(state.frame_counter, 3);
}

#[test]
fn frame_counter_wraps_at_limit() {
    let mut state = SurfaceState::new();
    state.frame_counter = u32::MAX;
    state.render(10, 10);
    assert_eq!(state.frame_counter, 0);
}

#[test]
fn framebuffer_size_scales_logical_size() {
    assert_eq!(scaled_framebuffer_size(1920, 1080, 2), (3840, 2160));
    assert_eq!(scaled_framebuffer_size(0, 0, 1), (0, 0));
}
