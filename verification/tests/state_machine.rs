use learnwgpu::{KeyCode, LoopAction, MouseButton, RenderState, Shapes, State, WindowEvent};

fn space(pressed: bool, repeat: bool) -> WindowEvent {
    WindowEvent::KeyboardInput { key: KeyCode::Space, pressed, repeat }
}

fn zkey(pressed: bool, repeat: bool) -> WindowEvent {
    WindowEvent::KeyboardInput { key: KeyCode::KeyZ, pressed, repeat }
}

fn left_click() -> WindowEvent {
    WindowEvent::MouseInput { button: MouseButton::Left, pressed: true }
}

#[test]
fn initial_state() {
    let s = State::new(800, 600);
    assert_eq!(s.render_state.state, RenderState::Standard);
    assert_eq!(s.shape_state.state, Shapes::Pentagon);
    assert_eq!(s.clear.r, 100);
    assert_eq!(s.clear.g, 200);
    assert_eq!(s.clear.b, 200);
    assert_eq!(s.clear.a, 1000);
    assert_eq!(s.size_width, 800);
    assert_eq!(s.size_height, 600);
    assert_eq!(s.config_width, 800);
    assert_eq!(s.config_height, 600);
    assert!(!s.space_held);
    assert!(!s.z_held);
}

#[test]
fn input_never_consumes() {
    let mut s = State::new(800, 600);
    assert!(!s.input(&left_click()));
    assert!(!s.input(&space(true, false)));
    assert!(!s.input(&WindowEvent::Other));
    assert!(!s.input(&WindowEvent::CloseRequested));
}

#[test]
fn mode_two_cycle_even_and_odd() {
    let mut s = State::new(800, 600);
    let initial = s.render_state.state;
    for n in 1..=6u32 {
        s.input(&space(true, false));
        s.input(&space(false, false));
        let expect = if n % 2 == 0 { initial } else { RenderState::PositionColor };
        assert_eq!(s.render_state.state, expect);
        // independent of shape: the shape selection never moves
        assert_eq!(s.shape_state.state, Shapes::Pentagon);
    }
}

#[test]
fn shape_two_cycle_even_and_odd() {
    let mut s = State::new(800, 600);
    // flip the mode first: the shape cycle must be independent of it
    s.input(&space(true, false));
    s.input(&space(false, false));
    for n in 1..=5u32 {
        s.input(&zkey(true, false));
        s.input(&zkey(false, false));
        let expect = if n % 2 == 0 { Shapes::Pentagon } else { Shapes::Arrow };
        assert_eq!(s.shape_state.state, expect);
        assert_eq!(s.render_state.state, RenderState::PositionColor);
    }
}

#[test]
fn repeat_never_advances_mode() {
    let mut s = State::new(800, 600);
    // a genuine press flips the mode
    s.input(&space(true, false));
    assert_eq!(s.render_state.state, RenderState::PositionColor);
    // synthetic repeats while held do not flip it again
    s.input(&space(true, true));
    s.input(&space(true, true));
    s.input(&space(true, true));
    assert_eq!(s.render_state.state, RenderState::PositionColor);
    // release, then a fresh press flips again
    s.input(&space(false, false));
    s.input(&space(true, false));
    assert_eq!(s.render_state.state, RenderState::Standard);
}

#[test]
fn held_key_never_advances_even_without_repeat_flag() {
    let mut s = State::new(800, 600);
    s.input(&zkey(true, false));
    assert_eq!(s.shape_state.state, Shapes::Arrow);
    // the source misreports a held key as a fresh press: still no advance
    s.input(&zkey(true, false));
    assert_eq!(s.shape_state.state, Shapes::Arrow);
    s.input(&zkey(false, false));
    s.input(&zkey(true, false));
    assert_eq!(s.shape_state.state, Shapes::Pentagon);
}

#[test]
fn repeat_press_on_released_key_never_advances() {
    let mut s = State::new(800, 600);
    // a repeat-flagged press arriving while the machine holds nothing
    s.input(&space(true, true));
    assert_eq!(s.render_state.state, RenderState::Standard);
}

#[test]
fn clear_color_three_presses() {
    let mut s = State::new(800, 600);
    s.input(&left_click());
    s.input(&left_click());
    s.input(&left_click());
    assert_eq!(s.clear.r, 550);
    assert_eq!(s.clear.g, 500);
    assert_eq!(s.clear.b, 800);
    assert_eq!(s.clear.a, 1000);
    // as display-unit floats: exactly the accumulated values
    assert_eq!(s.clear.r as f64 / 1000.0, 0.55);
    assert_eq!(s.clear.g as f64 / 1000.0, 0.5);
    assert_eq!(s.clear.b as f64 / 1000.0, 0.8);
    assert_eq!(s.clear.a as f64 / 1000.0, 1.0);
}

#[test]
fn alter_clear_matches_input_path() {
    let mut s = State::new(800, 600);
    s.alter_clear();
    assert_eq!((s.clear.r, s.clear.g, s.clear.b, s.clear.a), (250, 300, 400, 1000));
    // only the left button shifts the color
    s.input(&WindowEvent::MouseInput { button: MouseButton::Right, pressed: true });
    s.input(&WindowEvent::MouseInput { button: MouseButton::Left, pressed: false });
    assert_eq!((s.clear.r, s.clear.g, s.clear.b, s.clear.a), (250, 300, 400, 1000));
}

#[test]
fn resize_zero_dimension_ignored() {
    let mut s = State::new(800, 600);
    assert!(!s.resize(0, 600));
    assert_eq!((s.size_width, s.size_height), (800, 600));
    assert_eq!((s.config_width, s.config_height), (800, 600));
    assert!(!s.resize(800, 0));
    assert_eq!((s.size_width, s.size_height), (800, 600));
    assert_eq!((s.config_width, s.config_height), (800, 600));
    assert!(!s.resize(0, 0));
    assert_eq!((s.size_width, s.size_height), (800, 600));
}

#[test]
fn resize_valid_reconfigures_exactly_once() {
    let mut s = State::new(640, 480);
    let mut reconfigurations: u32 = 0;
    if s.resize(800, 600) {
        reconfigurations += 1;
    }
    assert_eq!(reconfigurations, 1);
    assert_eq!((s.size_width, s.size_height), (800, 600));
    assert_eq!((s.config_width, s.config_height), (800, 600));
}

#[test]
fn update_changes_nothing() {
    let mut s = State::new(800, 600);
    s.input(&space(true, false));
    s.input(&left_click());
    let before = (
        s.render_state.state,
        s.shape_state.state,
        s.clear,
        s.size_width,
        s.size_height,
        s.space_held,
        s.z_held,
    );
    s.update();
    let after = (
        s.render_state.state,
        s.shape_state.state,
        s.clear,
        s.size_width,
        s.size_height,
        s.space_held,
        s.z_held,
    );
    assert_eq!(before, after);
}

#[test]
fn loop_actions() {
    let mut s = State::new(800, 600);
    assert_eq!(s.handle_window_event(&WindowEvent::CloseRequested), LoopAction::Exit);
    let esc = WindowEvent::KeyboardInput { key: KeyCode::Escape, pressed: true, repeat: true };
    assert_eq!(s.handle_window_event(&esc), LoopAction::Exit);
    let esc_release = WindowEvent::KeyboardInput {
        key: KeyCode::Escape,
        pressed: false,
        repeat: false,
    };
    assert_eq!(s.handle_window_event(&esc_release), LoopAction::Ignore);
    assert_eq!(s.handle_window_event(&WindowEvent::RedrawRequested), LoopAction::Redraw);
    assert_eq!(s.handle_window_event(&WindowEvent::Other), LoopAction::Ignore);
    assert_eq!(
        s.handle_window_event(&WindowEvent::Resized { width: 1024, height: 768 }),
        LoopAction::Reconfigure
    );
    assert_eq!((s.size_width, s.size_height), (1024, 768));
    assert_eq!(
        s.handle_window_event(&WindowEvent::Resized { width: 0, height: 768 }),
        LoopAction::Ignore
    );
    assert_eq!((s.size_width, s.size_height), (1024, 768));
}

#[test]
fn loop_feeds_the_machine_too() {
    let mut s = State::new(800, 600);
    assert_eq!(s.handle_window_event(&space(true, false)), LoopAction::Ignore);
    assert_eq!(s.render_state.state, RenderState::PositionColor);
    assert_eq!(s.handle_window_event(&left_click()), LoopAction::Ignore);
    assert_eq!(s.clear.r, 250);
}
