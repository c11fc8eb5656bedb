//! A verified render-state machine for a small interactive renderer.
//!
//! The library owns the per-frame configuration of the host: which shape is
//! drawn, which shader pipeline draws it, the clear color, the stored surface
//! size, and the camera's distance to its look-at target. Input handling,
//! resizing and the per-frame draw plan are verified state transitions; the
//! window, the GPU device and the event loop live with the unverified host
//! around the library.

pub mod camera;
pub mod color;
pub mod events;
pub mod geometry;
pub mod pipeline;
pub mod state;

pub use camera::CameraModel;
pub use color::ClearColor;
pub use events::ErrorAction;
pub use events::KeyCode;
pub use events::LoopAction;
pub use events::MouseButton;
pub use events::SurfaceErrorKind;
pub use events::WindowEvent;
pub use events::surface_error_action;
pub use geometry::ShapeState;
pub use geometry::Shapes;
pub use pipeline::RenderPipelineState;
pub use pipeline::RenderState;
pub use state::FrameDraw;
pub use state::State;
