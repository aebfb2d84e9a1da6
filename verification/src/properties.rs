//! Container to store and set display properties

use vstd::prelude::*;

use crate::command::{commands, send_all, Command};
use crate::displayrotation::DisplayRotation;
use crate::error::Error;
use crate::interface::{carried_out, Bus, BusEvent, DisplayInterface, Transfer};
use crate::sequencer::{init_commands, initialise};
use crate::{DISPLAY_HEIGHT, DISPLAY_WIDTH};

verus! {

/// Frequency setting of the display clock that `init_column_mode` programs: mid-range.
pub const COLUMN_MODE_OSCILLATOR: u8 = 0x8;

/// Display properties struct
///
/// Holds the connection to the controller and the rotation, and talks to the controller
/// about everything but the picture itself.
pub struct Properties<DI> {
    bus: Bus<DI>,
    display_rotation: DisplayRotation,
}

/// What a `Properties` is, to its callers.
pub ghost struct PropertiesState<DI> {
    /// The orientation that the picture is drawn in.
    pub rotation: DisplayRotation,
    /// What carries the traffic to the controller.
    pub interface: DI,
    /// Every call that the driver has made on the connection, oldest first.
    pub trace: Seq<BusEvent>,
}

impl<DI: DisplayInterface> View for Properties<DI> {
    type V = PropertiesState<DI>;

    closed spec fn view(&self) -> PropertiesState<DI> {
        PropertiesState {
            rotation: self.display_rotation,
            interface: self.bus.interface(),
            trace: self.bus.trace(),
        }
    }
}

/// The two commands that set the draw window from its top left corner `start` to the
/// corner `end`, where `end` lies just outside the window.
pub open spec fn window_before(start: (u8, u8), end: (u8, u8)) -> Seq<Command> {
    seq![
        Command::ColumnAddress(start.0, (end.0 - 1) as u8),
        Command::RowAddress(start.1, (end.1 - 1) as u8),
    ]
}

impl<DI: DisplayInterface> Properties<DI> {
    /// Create new Properties instance
    pub fn new(interface: DI, display_rotation: DisplayRotation) -> (properties: Self)
        ensures
            properties@ == (PropertiesState {
                rotation: display_rotation,
                interface,
                trace: Seq::empty(),
            }),
    {
        Properties { bus: Bus::new(interface), display_rotation }
    }

    /// Release the connection for reuse in other code
    pub fn release(self) -> (interface: DI)
        ensures
            interface == self@.interface,
    {
        self.bus.release()
    }

    /// Initialise the display in column mode with column 0 on the left and column
    /// _(display_width - 1)_ on the right.
    pub fn init_column_mode(&mut self) -> (r: Result<(), Error<DI::CommError, DI::PinError>>)
        ensures
            final(self)@.rotation == old(self)@.rotation,
            carried_out(
                old(self)@.trace,
                final(self)@.trace,
                commands(init_commands(COLUMN_MODE_OSCILLATOR, old(self)@.rotation)),
                r,
            ),
    {
        initialise(&mut self.bus, COLUMN_MODE_OSCILLATOR, self.display_rotation)
    }

    /// Set the position in the framebuffer of the display where any sent data should be
    /// drawn. This method can be used for changing the affected area on the screen as well
    /// as (re-)setting the start point of the next `draw` call.
    ///
    /// `end` is the corner just outside the area, so neither of its coordinates can be 0.
    pub fn set_draw_area(&mut self, start: (u8, u8), end: (u8, u8)) -> (r: Result<
        (),
        Error<DI::CommError, DI::PinError>,
    >)
        requires
            end.0 >= 1,
            end.1 >= 1,
        ensures
            final(self)@.rotation == old(self)@.rotation,
            carried_out(
                old(self)@.trace,
                final(self)@.trace,
                commands(window_before(start, end)),
                r,
            ),
    {
        let window = [
            Command::ColumnAddress(start.0, end.0 - 1),
            Command::RowAddress(start.1, end.1 - 1),
        ];
        assert(window@ =~= window_before(start, end));
        send_all(window.as_slice(), &mut self.bus)
    }

    /// Send the data to the display for drawing at the current position in the framebuffer
    /// and advance the position accordingly. Cf. `set_draw_area` to modify the affected area
    /// by this method.
    pub fn draw(&mut self, buffer: &[u8]) -> (r: Result<(), Error<DI::CommError, DI::PinError>>)
        ensures
            final(self)@.rotation == old(self)@.rotation,
            carried_out(
                old(self)@.trace,
                final(self)@.trace,
                seq![Transfer::Data(buffer@)],
                r,
            ),
    {
        self.bus.send_data(buffer)
    }

    /// Get display dimensions, taking into account the current rotation of the display
    pub fn dimensions(&self) -> (size: (u8, u8))
        ensures
            size == self@.rotation.spec_dimensions(),
    {
        match self.display_rotation {
            DisplayRotation::Rotate0 | DisplayRotation::Rotate180 => (
                DISPLAY_WIDTH,
                DISPLAY_HEIGHT,
            ),
            DisplayRotation::Rotate90 | DisplayRotation::Rotate270 => (
                DISPLAY_HEIGHT,
                DISPLAY_WIDTH,
            ),
        }
    }

    /// Get the display rotation
    pub fn rotation(&self) -> (rotation: DisplayRotation)
        ensures
            rotation == self@.rotation,
    {
        self.display_rotation
    }

    /// Set the display rotation
    ///
    /// The new rotation is stored first and the controller is told at once. Should telling
    /// it fail, the new rotation is kept; call again to bring the controller in line.
    pub fn set_rotation(&mut self, display_rotation: DisplayRotation) -> (r: Result<
        (),
        Error<DI::CommError, DI::PinError>,
    >)
        ensures
            final(self)@.rotation == display_rotation,
            carried_out(
                old(self)@.trace,
                final(self)@.trace,
                seq![display_rotation.spec_remap().transfer()],
                r,
            ),
    {
        self.display_rotation = display_rotation;
        display_rotation.remap().send(&mut self.bus)
    }
}

} // verus!
