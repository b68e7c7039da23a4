//! Display rotation.

use vstd::prelude::*;

verus! {

/// Rotation of the panel contents, in 90 degree steps.
///
/// At `Rotate90` and `Rotate270` the logical width and height of the display
/// are swapped.
#[derive(Clone, Copy, Debug, PartialEq, Eq, Structural)]
pub enum DisplayRotation {
    /// No rotation.
    Rotate0,
    /// Rotated by 90 degrees clockwise.
    Rotate90,
    /// Rotated by 180 degrees.
    Rotate180,
    /// Rotated by 270 degrees clockwise.
    Rotate270,
}

impl DisplayRotation {
    /// True when the rotation swaps the logical width and height.
    pub open spec fn spec_swaps_axes(self) -> bool {
        self is Rotate90 || self is Rotate270
    }

    /// Whether drawing coordinates are transposed for this rotation.
    pub fn swaps_axes(self) -> (r: bool)
        ensures
            r == self.spec_swaps_axes(),
    {
        match self {
            DisplayRotation::Rotate0 | DisplayRotation::Rotate180 => false,
            DisplayRotation::Rotate90 | DisplayRotation::Rotate270 => true,
        }
    }
}

} // verus!
