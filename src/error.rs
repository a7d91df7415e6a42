use vstd::prelude::*;

verus! {

/// What can go wrong when the viewer is set up or fed a transform.
#[derive(Debug, Clone, PartialEq, Eq)]
pub enum ViewerError {
    /// The window could not be created; holds the windowing system's cause.
    WindowCreationError(String),
    /// The graphics context could not be created; holds the cause.
    ContextCreationError(String),
    /// A transform payload was not a 4x4 matrix.
    InvalidTransform,
}

} // verus!
