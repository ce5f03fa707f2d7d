use vstd::prelude::*;

verus! {

/// A broken scene setup, found before any depth is computed.
#[derive(Debug, Clone, Copy, PartialEq, Eq, Structural)]
pub enum ConfigurationError {
    /// No active camera is present.
    NoCamera,
    /// More than one active camera is present.
    MultipleCameras,
    /// The render surface reports a height of zero.
    ZeroViewportHeight,
}

} // verus!
