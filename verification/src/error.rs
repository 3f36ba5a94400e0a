//! What makes the engine refuse an event.

use vstd::prelude::*;

verus! {

/// Every refusal is fatal for the session: the engine's state is left as it
/// was, and the caller is expected to end the process with a failure status.
#[derive(Clone, Copy, Debug, PartialEq, Eq, Structural)]
pub enum Error {
    /// A pointer event named a surface that no registered output owns.
    UnknownSurface,
    /// A configure event named a layer surface that no registered output owns.
    UnknownLayerSurface,
    /// An output event named an output that was never registered.
    UnknownOutput,
    /// A geometry event named a description object that no registered output
    /// owns.
    UnknownXdgOutput,
    /// An output was advertised before the capabilities that its overlay
    /// surface is made with.
    MissingCapability,
    /// A configured width or height is beyond what a buffer can have.
    DimensionTooLarge,
    /// The drawing surface gave no row stride for the configured width.
    StrideUnavailable,
    /// The row stride is too short for one row of pixels.
    StrideTooSmall,
    /// The buffer's size in bytes is beyond what a memory pool can have.
    SizeTooLarge,
}

} // verus!
