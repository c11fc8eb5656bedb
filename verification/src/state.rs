use crate::camera::CameraModel;
use crate::color::{
    shifted, spec_default_color, ClearColor, ColorModel, CLEAR_B_DELTA, CLEAR_G_DELTA,
    CLEAR_R_DELTA,
};
use crate::events::{KeyCode, LoopAction, MouseButton, WindowEvent};
use crate::geometry::{spec_index_range, spec_indices, toggled_shape, ShapeState, Shapes};
use crate::pipeline::{toggled_mode, RenderPipelineState, RenderState};
use vstd::prelude::*;

verus! {

/// The per-frame configuration of the host: the current shape and pipeline
/// selections, the accumulated clear color, the stored surface size (kept
/// twice, as the window size and as the surface configuration, which move
/// together), the camera, and which of the two machine keys are held.
///
/// One event-loop thread owns a `State` exclusively; every transition is a
/// synchronous call on it.
pub struct State {
    pub size_width: u32,
    pub size_height: u32,
    pub config_width: u32,
    pub config_height: u32,
    pub clear: ClearColor,
    pub render_state: RenderPipelineState,
    pub shape_state: ShapeState,
    pub camera: CameraModel,
    /// Whether the mode-toggle key is currently held. Tracked here, rather
    /// than trusted from the event source's repeat flag, so that a held key
    /// can never re-fire a transition.
    pub space_held: bool,
    /// Whether the shape-toggle key is currently held.
    pub z_held: bool,
}

/// Mathematical model of a `State`: what every contract of the state machine
/// speaks about.
#[verifier::ext_equal]
pub ghost struct StateModel {
    pub mode: RenderState,
    pub shape: Shapes,
    pub clear: ColorModel,
    pub space_held: bool,
    pub z_held: bool,
    pub width: int,
    pub height: int,
    pub config_width: int,
    pub config_height: int,
    pub cam: CameraModel,
    pub indices: Seq<u16>,
}

impl View for State {
    type V = StateModel;

    open spec fn view(&self) -> StateModel {
        StateModel {
            mode: self.render_state.state,
            shape: self.shape_state.state,
            clear: self.clear@,
            space_held: self.space_held,
            z_held: self.z_held,
            width: self.size_width as int,
            height: self.size_height as int,
            config_width: self.config_width as int,
            config_height: self.config_height as int,
            cam: self.camera,
            indices: self.shape_state.indices@,
        }
    }
}

/// The state a fresh machine starts in: first shape, first mode, the default
/// clear color, no key held, the given surface size stored on both the size
/// and the configuration.
pub open spec fn spec_init(width: u32, height: u32) -> StateModel {
    StateModel {
        mode: RenderState::Standard,
        shape: Shapes::Pentagon,
        clear: spec_default_color(),
        space_held: false,
        z_held: false,
        width: width as int,
        height: height as int,
        config_width: width as int,
        config_height: height as int,
        cam: CameraModel { dist: 2236, speed: 200, fovy_mdeg: 45000, znear: 100, zfar: 100000 },
        indices: spec_indices(),
    }
}

/// How one input event moves the machine.
///
/// A primary-pointer press shifts the clear color. A press of a machine key
/// fires its toggle only on a released-to-pressed edge: the event must not be
/// a repeat, and the key must not already be held by the machine's own
/// account. Presses mark the key held, releases clear it; everything else
/// leaves the machine alone.
pub open spec fn input_step(m: StateModel, e: WindowEvent) -> StateModel {
    match e {
        WindowEvent::MouseInput { button, pressed } => {
            if button is Left && pressed {
                StateModel { clear: shifted(m.clear), ..m }
            } else {
                m
            }
        },
        WindowEvent::KeyboardInput { key, pressed, repeat } => {
            match key {
                KeyCode::Space => {
                    if pressed {
                        StateModel {
                            mode: if !repeat && !m.space_held {
                                toggled_mode(m.mode)
                            } else {
                                m.mode
                            },
                            space_held: true,
                            ..m
                        }
                    } else {
                        StateModel { space_held: false, ..m }
                    }
                },
                KeyCode::KeyZ => {
                    if pressed {
                        StateModel {
                            shape: if !repeat && !m.z_held {
                                toggled_shape(m.shape)
                            } else {
                                m.shape
                            },
                            z_held: true,
                            ..m
                        }
                    } else {
                        StateModel { z_held: false, ..m }
                    }
                },
                _ => m,
            }
        },
        _ => m,
    }
}

/// How a resize request moves the machine: a size with a zero dimension is
/// ignored silently; any other size is stored on both the window size and
/// the surface configuration.
pub open spec fn resize_step(m: StateModel, width: u32, height: u32) -> StateModel {
    if width > 0 && height > 0 {
        StateModel {
            width: width as int,
            height: height as int,
            config_width: width as int,
            config_height: height as int,
            ..m
        }
    } else {
        m
    }
}

/// How one window event moves the machine, input and resize taken together.
pub open spec fn loop_step(m: StateModel, e: WindowEvent) -> StateModel {
    match e {
        WindowEvent::Resized { width, height } => resize_step(m, width, height),
        _ => input_step(m, e),
    }
}

/// What the event loop must do after one window event: exit on a close
/// request or a pressed escape key, reconfigure the surface after a resize
/// that was not ignored, redraw on a redraw request.
pub open spec fn spec_loop_action(e: WindowEvent) -> LoopAction {
    match e {
        WindowEvent::KeyboardInput { key, pressed, .. } => {
            if key is Escape && pressed {
                LoopAction::Exit
            } else {
                LoopAction::Ignore
            }
        },
        WindowEvent::CloseRequested => LoopAction::Exit,
        WindowEvent::Resized { width, height } => {
            if width > 0 && height > 0 {
                LoopAction::Reconfigure
            } else {
                LoopAction::Ignore
            }
        },
        WindowEvent::RedrawRequested => LoopAction::Redraw,
        _ => LoopAction::Ignore,
    }
}

/// Everything the presenter needs to issue one frame: which pipeline to
/// bind, the slice of the index buffer to draw, the base vertex, and the
/// color to clear to.
pub struct FrameDraw {
    pub pipeline: RenderState,
    pub index_start: u32,
    pub index_end: u32,
    pub base_vertex: i32,
    pub clear: ClearColor,
}

impl State {
    /// The stored geometry is the shared buffers' data.
    pub open spec fn wf(self) -> bool {
        self.shape_state.wf()
    }

    /// A fresh machine bound to a surface of the given size.
    pub fn new(width: u32, height: u32) -> (s: State)
        ensures
            s.wf(),
            s@ == spec_init(width, height),
    {
        State {
            size_width: width,
            size_height: height,
            config_width: width,
            config_height: height,
            clear: ClearColor::start(),
            render_state: RenderPipelineState::new(),
            shape_state: ShapeState::new(),
            camera: CameraModel::new(),
            space_held: false,
            z_held: false,
        }
    }

    /// Shifts the clear color by the fixed per-press deltas. The channels
    /// are unclamped, so the caller must leave them room in `i64`.
    pub fn alter_clear(&mut self)
        requires
            old(self)@.clear.has_room(),
        ensures
            final(self)@ == (StateModel { clear: shifted(old(self)@.clear), ..old(self)@ }),
    {
        self.clear.r = self.clear.r + CLEAR_R_DELTA;
        self.clear.b = self.clear.b + CLEAR_B_DELTA;
        self.clear.g = self.clear.g + CLEAR_G_DELTA;
    }

    /// Stores a new surface size, ignoring any size with a zero dimension.
    /// Returns whether the surface must be reconfigured, which is exactly
    /// when the size was stored.
    pub fn resize(&mut self, width: u32, height: u32) -> (reconfigure: bool)
        ensures
            reconfigure == (width > 0 && height > 0),
            final(self)@ == resize_step(old(self)@, width, height),
    {
        if width > 0 && height > 0 {
            self.size_width = width;
            self.size_height = height;
            self.config_width = width;
            self.config_height = height;
            true
        } else {
            false
        }
    }

    /// Feeds one event to the state machine. Returns whether the event was
    /// consumed; the machine observes events without consuming them, so this
    /// is always false and the loop goes on to its own handling.
    pub fn input(&mut self, event: &WindowEvent) -> (consumed: bool)
        requires
            (*event matches WindowEvent::MouseInput {
                button: MouseButton::Left,
                pressed: true,
            }) ==> old(self)@.clear.has_room(),
        ensures
            !consumed,
            final(self)@ == input_step(old(self)@, *event),
    {
        match event {
            WindowEvent::MouseInput { button: MouseButton::Left, pressed: true } => {
                self.alter_clear();
            },
            WindowEvent::KeyboardInput { key: KeyCode::Space, pressed, repeat } => {
                if *pressed {
                    if !*repeat && !self.space_held {
                        self.render_state.state = self.render_state.next();
                    }
                    self.space_held = true;
                } else {
                    self.space_held = false;
                }
            },
            WindowEvent::KeyboardInput { key: KeyCode::KeyZ, pressed, repeat } => {
                if *pressed {
                    if !*repeat && !self.z_held {
                        self.shape_state.swap();
                    }
                    self.z_held = true;
                } else {
                    self.z_held = false;
                }
            },
            _ => {},
        }
        false
    }

    /// The per-frame update. The camera's uniform upload happens in the
    /// renderer; the machine's own state does not move between frames.
    pub fn update(&mut self)
        ensures
            final(self)@ == old(self)@,
    {
    }

    /// Describes the one render pass of the current frame from the current
    /// selections.
    pub fn render_plan(&self) -> (p: FrameDraw)
        ensures
            p.pipeline == self@.mode,
            p.index_start == spec_index_range(self@.shape).0,
            p.index_end == spec_index_range(self@.shape).1,
            p.base_vertex == 0,
            p.clear@ == self@.clear,
    {
        let range = self.shape_state.index_buffer_indices();
        FrameDraw {
            pipeline: self.render_state.pipeline(),
            index_start: range.start,
            index_end: range.end,
            base_vertex: self.shape_state.base_vertex(),
            clear: self.clear,
        }
    }

    /// Runs one full event-loop iteration's worth of state handling: the
    /// event is offered to the state machine first, then the loop-level
    /// decisions (exit, reconfigure, redraw) are taken.
    pub fn handle_window_event(&mut self, event: &WindowEvent) -> (action: LoopAction)
        requires
            (*event matches WindowEvent::MouseInput {
                button: MouseButton::Left,
                pressed: true,
            }) ==> old(self)@.clear.has_room(),
        ensures
            final(self)@ == loop_step(old(self)@, *event),
            action == spec_loop_action(*event),
    {
        let consumed = self.input(event);
        if !consumed {
            match event {
                WindowEvent::CloseRequested => LoopAction::Exit,
                WindowEvent::KeyboardInput { key: KeyCode::Escape, pressed: true, .. } => {
                    LoopAction::Exit
                },
                WindowEvent::Resized { width, height } => {
                    if self.resize(*width, *height) {
                        LoopAction::Reconfigure
                    } else {
                        LoopAction::Ignore
                    }
                },
                WindowEvent::RedrawRequested => LoopAction::Redraw,
                _ => LoopAction::Ignore,
            }
        } else {
            LoopAction::Ignore
        }
    }
}

/// The selections survive surface reconfiguration: a resize request, stored
/// or ignored, leaves the mode, the shape, the clear color, the held-key
/// accounting, the camera and the geometry exactly as they were.
pub proof fn lemma_resize_preserves_selections(m: StateModel, width: u32, height: u32)
    ensures
        resize_step(m, width, height).mode == m.mode,
        resize_step(m, width, height).shape == m.shape,
        resize_step(m, width, height).clear == m.clear,
        resize_step(m, width, height).space_held == m.space_held,
        resize_step(m, width, height).z_held == m.z_held,
        resize_step(m, width, height).cam == m.cam,
        resize_step(m, width, height).indices == m.indices,
{
}

/// The machine after a whole sequence of input events, first event first.
pub open spec fn input_steps(m: StateModel, evs: Seq<WindowEvent>) -> StateModel
    decreases evs.len(),
{
    if evs.len() == 0 {
        m
    } else {
        input_steps(input_step(m, evs[0]), evs.drop_first())
    }
}

/// One full press edge of a key: a genuine (non-repeat) press, then the
/// release.
pub open spec fn press_edge(key: KeyCode) -> Seq<WindowEvent> {
    seq![
        WindowEvent::KeyboardInput { key, pressed: true, repeat: false },
        WindowEvent::KeyboardInput { key, pressed: false, repeat: false },
    ]
}

/// `n` press edges of a key, one after the other.
pub open spec fn press_edges(key: KeyCode, n: nat) -> Seq<WindowEvent>
    decreases n,
{
    if n == 0 {
        Seq::empty()
    } else {
        press_edge(key) + press_edges(key, (n - 1) as nat)
    }
}

/// The render mode is a 2-cycle under mode-toggle press edges: after `n`
/// edges the machine is exactly as it started except that the mode is the
/// initial mode for even `n` and the other mode for odd `n` — independent of
/// the shape, the clear color and everything else.
pub proof fn lemma_mode_two_cycle(m: StateModel, n: nat)
    requires
        !m.space_held,
    ensures
        input_steps(m, press_edges(KeyCode::Space, n)) == (StateModel {
            mode: if n % 2 == 0 {
                m.mode
            } else {
                toggled_mode(m.mode)
            },
            ..m
        }),
    decreases n,
{
    if n == 0 {
        assert(input_steps(m, press_edges(KeyCode::Space, 0)) =~= m);
    } else {
        let p = WindowEvent::KeyboardInput { key: KeyCode::Space, pressed: true, repeat: false };
        let r = WindowEvent::KeyboardInput { key: KeyCode::Space, pressed: false, repeat: false };
        let rest = press_edges(KeyCode::Space, (n - 1) as nat);
        let evs = press_edges(KeyCode::Space, n);
        assert(evs == press_edge(KeyCode::Space) + rest);
        assert(evs[0] == p);
        let m1 = input_step(m, p);
        let m2 = input_step(m1, r);
        assert(input_steps(m, evs) == input_steps(m1, evs.drop_first()));
        assert(evs.drop_first() == seq![r] + rest) by {
            assert(evs.drop_first() =~= seq![r] + rest);
        }
        assert((seq![r] + rest)[0] == r);
        assert(input_steps(m1, seq![r] + rest) == input_steps(m2, (seq![r] + rest).drop_first()));
        assert((seq![r] + rest).drop_first() == rest) by {
            assert((seq![r] + rest).drop_first() =~= rest);
        }
        assert(input_steps(m, evs) == input_steps(m2, rest));
        assert(m2 == (StateModel { mode: toggled_mode(m.mode), ..m }));
        lemma_mode_two_cycle(m2, (n - 1) as nat);
    }
}

/// The shape selection obeys the same 2-cycle under shape-toggle press
/// edges, independent of the render mode and everything else.
pub proof fn lemma_shape_two_cycle(m: StateModel, n: nat)
    requires
        !m.z_held,
    ensures
        input_steps(m, press_edges(KeyCode::KeyZ, n)) == (StateModel {
            shape: if n % 2 == 0 {
                m.shape
            } else {
                toggled_shape(m.shape)
            },
            ..m
        }),
    decreases n,
{
    if n == 0 {
        assert(input_steps(m, press_edges(KeyCode::KeyZ, 0)) =~= m);
    } else {
        let p = WindowEvent::KeyboardInput { key: KeyCode::KeyZ, pressed: true, repeat: false };
        let r = WindowEvent::KeyboardInput { key: KeyCode::KeyZ, pressed: false, repeat: false };
        let rest = press_edges(KeyCode::KeyZ, (n - 1) as nat);
        let evs = press_edges(KeyCode::KeyZ, n);
        assert(evs == press_edge(KeyCode::KeyZ) + rest);
        assert(evs[0] == p);
        let m1 = input_step(m, p);
        let m2 = input_step(m1, r);
        assert(input_steps(m, evs) == input_steps(m1, evs.drop_first()));
        assert(evs.drop_first() == seq![r] + rest) by {
            assert(evs.drop_first() =~= seq![r] + rest);
        }
        assert((seq![r] + rest)[0] == r);
        assert(input_steps(m1, seq![r] + rest) == input_steps(m2, (seq![r] + rest).drop_first()));
        assert((seq![r] + rest).drop_first() == rest) by {
            assert((seq![r] + rest).drop_first() =~= rest);
        }
        assert(input_steps(m, evs) == input_steps(m2, rest));
        assert(m2 == (StateModel { shape: toggled_shape(m.shape), ..m }));
        lemma_shape_two_cycle(m2, (n - 1) as nat);
    }
}

/// A key event never advances the selections unless it is a genuine
/// released-to-pressed edge: an event with the repeat flag set, and likewise
/// any press of a key the machine already holds, leaves mode, shape and
/// clear color exactly as they were.
pub proof fn lemma_held_or_repeat_never_advances(
    m: StateModel,
    key: KeyCode,
    pressed: bool,
    repeat: bool,
)
    requires
        repeat || (key is Space ==> m.space_held) && (key is KeyZ ==> m.z_held),
    ensures
        input_step(m, WindowEvent::KeyboardInput { key, pressed, repeat }).mode == m.mode,
        input_step(m, WindowEvent::KeyboardInput { key, pressed, repeat }).shape == m.shape,
        input_step(m, WindowEvent::KeyboardInput { key, pressed, repeat }).clear == m.clear,
{
}

} // verus!
