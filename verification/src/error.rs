//! What can go wrong while lights are configured, composed and bound.

use vstd::prelude::*;

verus! {

/// A failure of the lighting pipeline.
#[derive(Clone, Copy, Debug, PartialEq, Eq, Structural)]
pub enum LightingError {
    /// A lighting model was selected by an id that the table does not hold.
    UnknownLightingModel { id: u32 },
    /// The light in this slot could not produce its shader fragment.
    ShaderSource { slot: u32 },
    /// The light in this slot could not bind its uniforms to the program.
    Binding { slot: u32 },
}

} // verus!
