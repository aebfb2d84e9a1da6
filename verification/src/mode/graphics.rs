//! Buffered display module
//!
//! The picture is kept in a buffer; `flush` sends it to the display.

use vstd::prelude::*;

use crate::command::commands;
use crate::display::{full_window, DisplayState};
use crate::displayrotation::DisplayRotation;
use crate::error::Error;
use crate::framebuffer::{
    blank, pixel_in_bounds, unsigned_points, with_pixel, with_pixels, BUF_SIZE,
};
use crate::interface::{carried_out, lemma_continued, lemma_failed_early, DisplayInterface, Transfer};
use crate::properties::{window_before, Properties, PropertiesState, COLUMN_MODE_OSCILLATOR};
use crate::sequencer::init_commands;
use crate::{DISPLAY_HEIGHT, DISPLAY_WIDTH};

verus! {

/// Graphics mode handler
pub struct GraphicsMode<DI> {
    properties: Properties<DI>,
    buffer: [u8; BUF_SIZE],
}

impl<DI: DisplayInterface> View for GraphicsMode<DI> {
    type V = DisplayState<DI>;

    closed spec fn view(&self) -> DisplayState<DI> {
        DisplayState {
            buffer: self.buffer@,
            rotation: self.properties@.rotation,
            interface: self.properties@.interface,
            trace: self.properties@.trace,
        }
    }
}

impl<DI: DisplayInterface> GraphicsMode<DI> {
    /// Create new GraphicsMode instance
    ///
    /// Allocates a buffer of 96px * 64px * 16bits = 12,288 bytes. This may be too large for
    /// your hardware, so check your datasheet!
    pub fn new(properties: Properties<DI>) -> (mode: Self)
        ensures
            mode@ == (DisplayState {
                buffer: blank(),
                rotation: properties@.rotation,
                interface: properties@.interface,
                trace: properties@.trace,
            }),
    {
        let mode = GraphicsMode { properties, buffer: [0;BUF_SIZE] };
        assert(mode.buffer@ =~= blank());
        mode
    }

    /// Release all resources used by GraphicsMode
    pub fn release(self) -> (properties: Properties<DI>)
        ensures
            properties@ == (PropertiesState {
                rotation: self@.rotation,
                interface: self@.interface,
                trace: self@.trace,
            }),
    {
        self.properties
    }

    /// Clear the display buffer. You need to call `disp.flush()` for any effect on the screen
    pub fn clear(&mut self)
        ensures
            final(self)@ == (DisplayState { buffer: blank(), ..old(self)@ }),
            forall|i: int| 0 <= i < BUF_SIZE ==> final(self)@.buffer[i] == 0,
    {
        crate::framebuffer::clear(&mut self.buffer);
    }

    /// Write out data to display
    ///
    /// The draw area is first set to the whole panel, whatever it was before.
    pub fn flush(&mut self) -> (r: Result<(), Error<DI::CommError, DI::PinError>>)
        ensures
            final(self)@.buffer == old(self)@.buffer,
            final(self)@.rotation == old(self)@.rotation,
            carried_out(
                old(self)@.trace,
                final(self)@.trace,
                commands(full_window()).push(Transfer::Data(old(self)@.buffer)),
                r,
            ),
    {
        let ghost before = self@.trace;
        let ghost window = commands(full_window());
        let ghost frame = seq![Transfer::Data(self@.buffer)];
        // Ensure the display buffer is at the origin of the display before we send the full
        // frame to prevent accidental offsets
        let windowed = self.properties.set_draw_area((0, 0), (DISPLAY_WIDTH, DISPLAY_HEIGHT));
        proof {
            assert(window_before((0, 0), (DISPLAY_WIDTH, DISPLAY_HEIGHT)) =~= full_window());
            assert(window.push(Transfer::Data(self@.buffer)) =~= window + frame);
            if windowed is Err {
                lemma_failed_early(before, self@.trace, window, frame, windowed);
            }
        }
        match windowed {
            Ok(_) => {},
            Err(e) => {
                return Err(e);
            },
        }
        let ghost between = self@.trace;
        let r = self.properties.draw(self.buffer.as_slice());
        proof {
            lemma_continued(before, between, self@.trace, window, frame, r);
        }
        r
    }

    /// Set the value of a pixel. If the X and Y coordinates are out of the bounds of the
    /// display, this method call is a noop.
    pub fn set_pixel(&mut self, x: u32, y: u32, value: u16)
        ensures
            final(self)@ == (DisplayState {
                buffer: with_pixel(
                    old(self)@.buffer,
                    old(self)@.rotation,
                    x as int,
                    y as int,
                    value,
                ),
                ..old(self)@
            }),
            !pixel_in_bounds(old(self)@.rotation, x as int, y as int) ==> final(self)@ == old(self)@,
    {
        let display_rotation = self.properties.rotation();
        crate::framebuffer::set_pixel(&mut self.buffer, display_rotation, x, y, value);
    }

    /// Draw individual pixels into the buffer, in the order given. A pixel outside the
    /// picture in the current orientation is skipped.
    pub fn draw(&mut self, pixels: &[(u32, u32, u16)])
        ensures
            final(self)@ == (DisplayState {
                buffer: with_pixels(
                    old(self)@.buffer,
                    old(self)@.rotation,
                    unsigned_points(pixels@),
                ),
                ..old(self)@
            }),
    {
        let display_rotation = self.properties.rotation();
        crate::framebuffer::draw_unsigned(&mut self.buffer, display_rotation, pixels);
    }

    /// Send the initialisation to the display.
    pub fn init(&mut self) -> (r: Result<(), Error<DI::CommError, DI::PinError>>)
        ensures
            final(self)@.buffer == old(self)@.buffer,
            final(self)@.rotation == old(self)@.rotation,
            carried_out(
                old(self)@.trace,
                final(self)@.trace,
                commands(init_commands(COLUMN_MODE_OSCILLATOR, old(self)@.rotation)),
                r,
            ),
    {
        self.properties.init_column_mode()
    }

    /// Get display dimensions, taking into account the current rotation of the display
    pub fn get_dimensions(&self) -> (size: (u8, u8))
        ensures
            size == self@.rotation.spec_dimensions(),
    {
        self.properties.dimensions()
    }

    /// Set the display rotation
    pub fn set_rotation(&mut self, rot: DisplayRotation) -> (r: Result<
        (),
        Error<DI::CommError, DI::PinError>,
    >)
        ensures
            final(self)@.buffer == old(self)@.buffer,
            final(self)@.rotation == rot,
            carried_out(
                old(self)@.trace,
                final(self)@.trace,
                seq![rot.spec_remap().transfer()],
                r,
            ),
    {
        self.properties.set_rotation(rot)
    }
}

} // verus!
