//! Step-by-step construction of a driver.

use vstd::prelude::*;

use crate::display::{DisplayState, Ssd1331};
use crate::displayrotation::DisplayRotation;
use crate::framebuffer::blank;
use crate::interface::DisplayInterface;

verus! {

/// SSD1331 factory
///
/// This is the easiest way to create a driver instance. Configuration parameters such as
/// display rotation can be set. The builder will be consumed and will return an instance of
/// the [`Ssd1331`] struct bound to the given connection when `.connect_spi()` is called.
#[derive(Clone, Copy)]
pub struct Builder {
    rotation: DisplayRotation,
}

impl View for Builder {
    type V = DisplayRotation;

    /// A builder is the rotation it will give to the driver.
    closed spec fn view(&self) -> DisplayRotation {
        self.rotation
    }
}

impl Builder {
    /// Create new builder with no rotation.
    pub fn new() -> (builder: Self)
        ensures
            builder@ == DisplayRotation::Rotate0,
    {
        Self { rotation: DisplayRotation::Rotate0 }
    }

    /// Set the rotation of the display to one of four values. Defaults to no rotation.
    pub fn rotation(&self, rotation: DisplayRotation) -> (builder: Self)
        ensures
            builder@ == rotation,
    {
        Self { rotation }
    }

    /// Finish the builder and use the given connection to communicate with the display
    pub fn connect_spi<DI: DisplayInterface>(&self, interface: DI) -> (display: Ssd1331<DI>)
        ensures
            display@ == (DisplayState {
                buffer: blank(),
                rotation: self@,
                interface,
                trace: Seq::empty(),
            }),
    {
        Ssd1331::new(interface, self.rotation)
    }
}

} // verus!
