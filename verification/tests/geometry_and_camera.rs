use learnwgpu::{
    surface_error_action, CameraModel, ErrorAction, KeyCode, RenderState, ShapeState, Shapes,
    State, SurfaceErrorKind, WindowEvent,
};

#[test]
fn draw_ranges_inside_index_buffer() {
    let mut shapes = ShapeState::new();
    let len = shapes.index_data().len() as u32;
    let pentagon = shapes.index_buffer_indices();
    assert_eq!((pentagon.start, pentagon.end), (0, 9));
    assert!(pentagon.end <= len);
    shapes.swap();
    let arrow = shapes.index_buffer_indices();
    assert_eq!((arrow.start, arrow.end), (9, 33));
    assert!(arrow.end <= len);
}

#[test]
fn indices_reference_real_vertices() {
    let shapes = ShapeState::new();
    let data = shapes.index_data();
    assert_eq!(data.len(), 33);
    for &i in data.iter() {
        assert!(i < 13);
    }
    // the pentagon's range touches only pentagon vertices, the arrow's only
    // arrow vertices
    for &i in &data[0..9] {
        assert!(i <= 4);
    }
    for &i in &data[9..33] {
        assert!((5..=12).contains(&i));
    }
}

#[test]
fn base_vertex_is_zero_for_both_shapes() {
    let mut shapes = ShapeState::new();
    assert_eq!(shapes.base_vertex(), 0);
    shapes.swap();
    assert_eq!(shapes.base_vertex(), 0);
}

#[test]
fn swap_is_a_two_cycle() {
    let mut shapes = ShapeState::new();
    assert_eq!(shapes.state, Shapes::Pentagon);
    shapes.swap();
    assert_eq!(shapes.state, Shapes::Arrow);
    shapes.swap();
    assert_eq!(shapes.state, Shapes::Pentagon);
}

#[test]
fn render_plan_follows_selections() {
    let mut s = State::new(800, 600);
    let p = s.render_plan();
    assert_eq!(p.pipeline, RenderState::Standard);
    assert_eq!((p.index_start, p.index_end), (0, 9));
    assert_eq!(p.base_vertex, 0);
    assert_eq!(p.clear, s.clear);
    s.input(&WindowEvent::KeyboardInput { key: KeyCode::Space, pressed: true, repeat: false });
    s.input(&WindowEvent::KeyboardInput { key: KeyCode::KeyZ, pressed: true, repeat: false });
    let p2 = s.render_plan();
    assert_eq!(p2.pipeline, RenderState::PositionColor);
    assert_eq!((p2.index_start, p2.index_end), (9, 33));
    assert_eq!(p2.base_vertex, 0);
}

#[test]
fn camera_starts_at_defaults() {
    let c = CameraModel::new();
    assert_eq!(c.dist, 2236);
    assert_eq!(c.speed, 200);
    assert_eq!(c.fovy_mdeg, 45000);
    assert_eq!(c.znear, 100);
    assert_eq!(c.zfar, 100000);
}

#[test]
fn camera_forward_never_overshoots() {
    let mut c = CameraModel::new();
    // walk forward far longer than the distance allows
    for _ in 0..100 {
        c.move_forward();
        assert!(c.dist > 0);
    }
    // the eye parks just short of the target: 2236 = 11 * 200 + 36
    assert_eq!(c.dist, 36);
    // one more step larger than the remaining distance: no move at all
    c.move_forward();
    assert_eq!(c.dist, 36);
}

#[test]
fn camera_backward_steps_away() {
    let mut c = CameraModel::new();
    c.move_backward();
    assert_eq!(c.dist, 2436);
    c.move_forward();
    assert_eq!(c.dist, 2236);
}

#[test]
fn surface_error_policy() {
    assert_eq!(surface_error_action(SurfaceErrorKind::Lost), ErrorAction::Reconfigure);
    assert_eq!(surface_error_action(SurfaceErrorKind::Outdated), ErrorAction::Reconfigure);
    assert_eq!(surface_error_action(SurfaceErrorKind::OutOfMemory), ErrorAction::Exit);
    assert_eq!(surface_error_action(SurfaceErrorKind::Timeout), ErrorAction::SkipFrame);
}
