//! Display rotation.
//!
//! The panel can be mounted in four orientations. The controller supports them through its
//! remap register (two mirror flags and the direction in which its address counter runs);
//! the driver on its side exchanges width and height for the two sideways orientations.

use vstd::prelude::*;

use crate::command::{AddressIncrementMode, ColorMode, Command};
use crate::{DISPLAY_HEIGHT, DISPLAY_WIDTH};

verus! {

/// Display rotation
#[derive(Clone, Copy, Debug, PartialEq, Eq, Structural)]
pub enum DisplayRotation {
    /// No rotation, normal display
    Rotate0,
    /// Rotate by 90 degrees clockwise
    Rotate90,
    /// Rotate by 180 degrees clockwise
    Rotate180,
    /// Rotate 270 degrees clockwise
    Rotate270,
}

impl DisplayRotation {
    /// Whether the panel lies on its side, so that width and height change places.
    pub open spec fn is_sideways(self) -> bool {
        self == DisplayRotation::Rotate90 || self == DisplayRotation::Rotate270
    }

    /// Width and height as the caller sees them in this orientation.
    pub open spec fn spec_dimensions(self) -> (u8, u8) {
        if self.is_sideways() {
            (DISPLAY_HEIGHT, DISPLAY_WIDTH)
        } else {
            (DISPLAY_WIDTH, DISPLAY_HEIGHT)
        }
    }

    /// The remap command that puts the controller into this orientation. Always 65k colours.
    pub open spec fn spec_remap(self) -> Command {
        match self {
            DisplayRotation::Rotate0 => Command::RemapAndColorDepth(
                false,
                false,
                ColorMode::CM65k,
                AddressIncrementMode::Horizontal,
            ),
            DisplayRotation::Rotate90 => Command::RemapAndColorDepth(
                true,
                false,
                ColorMode::CM65k,
                AddressIncrementMode::Vertical,
            ),
            DisplayRotation::Rotate180 => Command::RemapAndColorDepth(
                true,
                true,
                ColorMode::CM65k,
                AddressIncrementMode::Horizontal,
            ),
            DisplayRotation::Rotate270 => Command::RemapAndColorDepth(
                false,
                true,
                ColorMode::CM65k,
                AddressIncrementMode::Vertical,
            ),
        }
    }

    /// Width and height as the caller sees them in this orientation.
    #[verifier::when_used_as_spec(spec_dimensions)]
    pub fn dimensions(self) -> (size: (u8, u8))
        ensures
            size == self.spec_dimensions(),
    {
        match self {
            DisplayRotation::Rotate0 | DisplayRotation::Rotate180 => (
                DISPLAY_WIDTH,
                DISPLAY_HEIGHT,
            ),
            DisplayRotation::Rotate90 | DisplayRotation::Rotate270 => (
                DISPLAY_HEIGHT,
                DISPLAY_WIDTH,
            ),
        }
    }

    /// The remap command that puts the controller into this orientation.
    #[verifier::when_used_as_spec(spec_remap)]
    pub fn remap(self) -> (command: Command)
        ensures
            command == self.spec_remap(),
    {
        match self {
            DisplayRotation::Rotate0 => Command::RemapAndColorDepth(
                false,
                false,
                ColorMode::CM65k,
                AddressIncrementMode::Horizontal,
            ),
            DisplayRotation::Rotate90 => Command::RemapAndColorDepth(
                true,
                false,
                ColorMode::CM65k,
                AddressIncrementMode::Vertical,
            ),
            DisplayRotation::Rotate180 => Command::RemapAndColorDepth(
                true,
                true,
                ColorMode::CM65k,
                AddressIncrementMode::Horizontal,
            ),
            DisplayRotation::Rotate270 => Command::RemapAndColorDepth(
                false,
                true,
                ColorMode::CM65k,
                AddressIncrementMode::Vertical,
            ),
        }
    }
}

} // verus!
