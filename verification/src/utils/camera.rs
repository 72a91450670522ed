use vstd::prelude::*;

verus! {

/// Why no photo could be had.
#[derive(Clone, Copy, Debug, PartialEq, Eq, Structural)]
pub enum CameraError {
    /// The camera driver failed.
    Rascam,
    /// No camera is attached.
    NotFound,
}

} // verus!
