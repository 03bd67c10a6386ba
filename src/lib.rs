//! Input, viewport and frame decisions of an orbit-camera wgpu viewer.
//!
//! The window, the GPU and all floating-point camera math live with the
//! application; this library holds the decisions those parts act upon.

pub mod controls;
pub mod events;
pub mod frame;
pub mod grid;
pub mod surface;
pub mod viewport;

pub use controls::{ButtonState, CameraControlls, Direction, Key, Movement};
pub use events::{InputEvent, InputState, Reaction};
pub use frame::{acquire_outcome, recovery_for, Recovery, SurfaceFault};
pub use grid::{instance_grid, GridCell, NUM_INSTANCES_PER_ROW};
pub use surface::{choose_surface_format, preferred_format_index};
pub use viewport::Viewport;
