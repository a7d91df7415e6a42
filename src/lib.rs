//! Shared store of named coordinate frames and the decision logic of a live
//! 3D frame viewer: draw order, input handling, viewport and grid geometry.

pub mod error;
pub mod geometry;
pub mod input;
pub mod render;
pub mod store;
pub mod transform;
pub mod viewer;

pub use error::ViewerError;
pub use geometry::{axis_triad, grid_segments, GridPoint, Segment};
pub use input::{Action, InputEvent, InputState, MouseButton};
pub use render::{render_plan, DrawCall, Viewport};
pub use store::{Frame, FrameStore};
pub use transform::Transform;
pub use viewer::Viewer;
