//! The display driver.

use vstd::prelude::*;

use crate::command::{commands, send_all, Command};
use crate::displayrotation::DisplayRotation;
use crate::error::Error;
use crate::framebuffer::{
    blank, high_byte, lemma_pixel_stored, low_byte, pixel_in_bounds, pixel_offset, points,
    with_pixel, with_pixels, Pixel, BUF_SIZE,
};
use crate::interface::{
    carried_out, done, lemma_continued, lemma_failed_early, run, script, Bus, BusEvent, BusOp,
    DisplayInterface, Transfer,
};
use crate::sequencer::{init_commands, initialise};
use crate::{DISPLAY_HEIGHT, DISPLAY_WIDTH};

verus! {

/// Frequency setting of the display clock that `init` programs: the highest.
pub const INIT_OSCILLATOR: u8 = 0xF;

/// SSD1331 display interface
///
/// The driver keeps the picture in a buffer of its own. Drawing changes the buffer only;
/// [`Ssd1331::flush`] sends it to the display.
pub struct Ssd1331<DI> {
    /// Pixel buffer
    ///
    /// The display is 16BPP RGB565, so two `u8`s are used for each pixel value
    buffer: [u8; BUF_SIZE],
    /// Which display rotation to use
    display_rotation: DisplayRotation,
    /// Connection to the controller
    bus: Bus<DI>,
}

/// What a driver is, to its callers.
pub ghost struct DisplayState<DI> {
    /// The picture: `BUF_SIZE` bytes, two for each pixel.
    pub buffer: Seq<u8>,
    /// The orientation that the picture is drawn in.
    pub rotation: DisplayRotation,
    /// What carries the traffic to the controller.
    pub interface: DI,
    /// Every call that the driver has made on the connection, oldest first.
    pub trace: Seq<BusEvent>,
}

impl<DI: DisplayInterface> View for Ssd1331<DI> {
    type V = DisplayState<DI>;

    closed spec fn view(&self) -> DisplayState<DI> {
        DisplayState {
            buffer: self.buffer@,
            rotation: self.display_rotation,
            interface: self.bus.interface(),
            trace: self.bus.trace(),
        }
    }
}

/// The window that covers the whole panel, as the two commands that set it.
pub open spec fn full_window() -> Seq<Command> {
    seq![
        Command::ColumnAddress(0, (DISPLAY_WIDTH - 1) as u8),
        Command::RowAddress(0, (DISPLAY_HEIGHT - 1) as u8),
    ]
}

/// What a flush of `buffer` that went through leaves in the history.
pub open spec fn flush_events(buffer: Seq<u8>) -> Seq<BusEvent> {
    seq![
        done(BusOp::DcLow),
        done(BusOp::Write(seq![0x15u8, 0u8, 95u8])),
        done(BusOp::DcLow),
        done(BusOp::Write(seq![0x75u8, 0u8, 63u8])),
        done(BusOp::DcHigh),
        done(BusOp::Write(buffer)),
    ]
}

/// A flush that went through ends the connection's history with these six calls, all of
/// them done: the column window is set to 0..=95 and the row window to 0..=63, both as
/// commands, and right after them the buffer is written as data. What the connection
/// carried before, a draw area set earlier included, makes no difference.
pub proof fn lemma_flush_resets_window(
    before: Seq<BusEvent>,
    after: Seq<BusEvent>,
    buffer: Seq<u8>,
)
    requires
        after == before + run(commands(full_window()).push(Transfer::Data(buffer)), None),
    ensures
        after == before + flush_events(buffer),
        after.len() >= 6,
        after.skip(after.len() - 6) == flush_events(buffer),
{
    let transfers = commands(full_window()).push(Transfer::Data(buffer));
    let calls = script(transfers);
    let events = run(transfers, None);
    assert(events.len() == 6);
    assert(transfers[0].payload() =~= seq![0x15u8, 0u8, 95u8]);
    assert(transfers[1].payload() =~= seq![0x75u8, 0u8, 63u8]);
    assert(events =~= flush_events(buffer)) by {
        assert(calls[0] == transfers[0].select());
        assert(calls[1] == BusOp::Write(transfers[0].payload()));
        assert(calls[2] == transfers[1].select());
        assert(calls[3] == BusOp::Write(transfers[1].payload()));
        assert(calls[4] == transfers[2].select());
        assert(calls[5] == BusOp::Write(transfers[2].payload()));
    }
    assert(after.skip(after.len() - 6) =~= flush_events(buffer));
}

/// A pixel that was set inside the picture is what the next flush sends for it: the last
/// block written is the buffer, and in it the colour's high byte stands at the pixel's
/// offset and its low byte behind it.
pub proof fn lemma_pixel_reaches_display(
    before: Seq<BusEvent>,
    after: Seq<BusEvent>,
    buffer: Seq<u8>,
    rotation: DisplayRotation,
    x: int,
    y: int,
    value: u16,
)
    requires
        buffer.len() == BUF_SIZE,
        pixel_in_bounds(rotation, x, y),
        after == before + run(
            commands(full_window()).push(
                Transfer::Data(with_pixel(buffer, rotation, x, y, value)),
            ),
            None,
        ),
    ensures
        after.last().done,
        after.last().op matches BusOp::Write(sent) && sent.len() == BUF_SIZE && sent[pixel_offset(
            rotation,
            x,
            y,
        )] == high_byte(value) && sent[pixel_offset(rotation, x, y) + 1] == low_byte(value),
{
    let drawn = with_pixel(buffer, rotation, x, y, value);
    lemma_pixel_stored(buffer, rotation, x, y, value);
    lemma_flush_resets_window(before, after, drawn);
    assert(after.last() == flush_events(drawn)[5]);
}

impl<DI: DisplayInterface> Ssd1331<DI> {
    /// Every call made on the connection so far, oldest first, with its outcome.
    pub open spec fn trace(&self) -> Seq<BusEvent> {
        self@.trace
    }

    /// Create new display instance
    ///
    /// Ensure `display.init()` is called before sending data otherwise nothing will be shown.
    ///
    /// The driver allocates a buffer of 96px * 64px * 16bits = 12,288 bytes. This may be too
    /// large for some target hardware.
    pub fn new(interface: DI, display_rotation: DisplayRotation) -> (display: Self)
        ensures
            display@ == (DisplayState {
                buffer: blank(),
                rotation: display_rotation,
                interface,
                trace: Seq::empty(),
            }),
    {
        let display = Self { bus: Bus::new(interface), display_rotation, buffer: [0;BUF_SIZE] };
        assert(display.buffer@ =~= blank());
        display
    }

    /// Release the connection for reuse in other code
    pub fn release(self) -> (interface: DI)
        ensures
            interface == self@.interface,
    {
        self.bus.release()
    }

    /// Clear the display buffer
    ///
    /// `display.flush()` must be called to update the display
    pub fn clear(&mut self)
        ensures
            final(self)@ == (DisplayState { buffer: blank(), ..old(self)@ }),
            forall|i: int| 0 <= i < BUF_SIZE ==> final(self)@.buffer[i] == 0,
    {
        crate::framebuffer::clear(&mut self.buffer);
    }

    /// Send the full framebuffer to the display
    ///
    /// This resets the draw area the full size of the display
    pub fn flush(&mut self) -> (r: Result<(), Error<DI::CommError, DI::PinError>>)
        ensures
            final(self)@.buffer == old(self)@.buffer,
            final(self)@.rotation == old(self)@.rotation,
            carried_out(
                old(self).trace(),
                final(self).trace(),
                commands(full_window()).push(Transfer::Data(old(self)@.buffer)),
                r,
            ),
    {
        let ghost before = self.trace();
        let ghost window = commands(full_window());
        let ghost frame = seq![Transfer::Data(self@.buffer)];
        // Ensure the display buffer is at the origin of the display before we send the full
        // frame to prevent accidental offsets
        let windowed = self.set_draw_area((0, 0), (DISPLAY_WIDTH - 1, DISPLAY_HEIGHT - 1));
        proof {
            assert(window.push(Transfer::Data(self@.buffer)) =~= window + frame);
            if windowed is Err {
                lemma_failed_early(before, self.trace(), window, frame, windowed);
            }
        }
        match windowed {
            Ok(_) => {},
            Err(e) => {
                return Err(e);
            },
        }
        let ghost between = self.trace();
        let r = self.bus.send_data(self.buffer.as_slice());
        proof {
            lemma_continued(before, between, self.trace(), window, frame, r);
        }
        r
    }

    /// What a flush sends, for a caller that does the sending itself: the commands that set
    /// the draw area to the whole panel, to be sent first and in this order, and then the
    /// buffer, to be sent as data.
    pub fn flush_plan(&self) -> (plan: ([Command; 2], &[u8; BUF_SIZE]))
        ensures
            plan.0@ == full_window(),
            plan.1@ == self@.buffer,
    {
        let window = [
            Command::ColumnAddress(0, DISPLAY_WIDTH - 1),
            Command::RowAddress(0, DISPLAY_HEIGHT - 1),
        ];
        assert(window@ =~= full_window());
        (window, &self.buffer)
    }

    /// Set the top left and bottom right corners of a bounding box to draw to
    pub fn set_draw_area(&mut self, start: (u8, u8), end: (u8, u8)) -> (r: Result<
        (),
        Error<DI::CommError, DI::PinError>,
    >)
        ensures
            final(self)@.buffer == old(self)@.buffer,
            final(self)@.rotation == old(self)@.rotation,
            carried_out(
                old(self).trace(),
                final(self).trace(),
                commands(
                    seq![
                        Command::ColumnAddress(start.0, end.0),
                        Command::RowAddress(start.1, end.1),
                    ],
                ),
                r,
            ),
    {
        let window = [Command::ColumnAddress(start.0, end.0), Command::RowAddress(start.1, end.1)];
        assert(window@ =~= seq![
            Command::ColumnAddress(start.0, end.0),
            Command::RowAddress(start.1, end.1),
        ]);
        send_all(window.as_slice(), &mut self.bus)
    }

    /// Set the value for an individual pixel.
    ///
    /// A position outside the picture in the current orientation is ignored.
    pub fn set_pixel(&mut self, x: u32, y: u32, value: u16)
        ensures
            final(self)@ == (DisplayState {
                buffer: with_pixel(
                    old(self)@.buffer,
                    old(self)@.rotation,
                    x as int,
                    y as int,
                    value,
                ),
                ..old(self)@
            }),
            !pixel_in_bounds(old(self)@.rotation, x as int, y as int) ==> final(self)@ == old(self)@,
    {
        crate::framebuffer::set_pixel(&mut self.buffer, self.display_rotation, x, y, value);
    }

    /// Draw individual pixels into the buffer, in the order given. A pixel outside the
    /// picture in the current orientation is skipped.
    pub fn draw_iter(&mut self, pixels: &[Pixel])
        ensures
            final(self)@ == (DisplayState {
                buffer: with_pixels(old(self)@.buffer, old(self)@.rotation, points(pixels@)),
                ..old(self)@
            }),
    {
        crate::framebuffer::draw_pixels(&mut self.buffer, self.display_rotation, pixels);
    }

    /// Initialise display, setting sensible defaults and rotation
    pub fn init(&mut self) -> (r: Result<(), Error<DI::CommError, DI::PinError>>)
        ensures
            final(self)@.buffer == old(self)@.buffer,
            final(self)@.rotation == old(self)@.rotation,
            carried_out(
                old(self).trace(),
                final(self).trace(),
                commands(init_commands(INIT_OSCILLATOR, old(self)@.rotation)),
                r,
            ),
    {
        initialise(&mut self.bus, INIT_OSCILLATOR, self.display_rotation)
    }

    /// Get display dimensions, taking into account the current rotation of the display
    pub fn dimensions(&self) -> (size: (u8, u8))
        ensures
            size == self@.rotation.spec_dimensions(),
    {
        match self.display_rotation {
            DisplayRotation::Rotate0 | DisplayRotation::Rotate180 => (
                DISPLAY_WIDTH,
                DISPLAY_HEIGHT,
            ),
            DisplayRotation::Rotate90 | DisplayRotation::Rotate270 => (
                DISPLAY_HEIGHT,
                DISPLAY_WIDTH,
            ),
        }
    }

    /// Set the display rotation
    ///
    /// The new rotation is stored first and the controller is told at once. Should telling
    /// it fail, the driver keeps the new rotation; call again to bring the controller in
    /// line.
    pub fn set_rotation(&mut self, rot: DisplayRotation) -> (r: Result<
        (),
        Error<DI::CommError, DI::PinError>,
    >)
        ensures
            final(self)@.buffer == old(self)@.buffer,
            final(self)@.rotation == rot,
            carried_out(
                old(self).trace(),
                final(self).trace(),
                seq![rot.spec_remap().transfer()],
                r,
            ),
    {
        self.display_rotation = rot;
        rot.remap().send(&mut self.bus)
    }

    /// Get the current rotation of the display
    pub fn rotation(&self) -> (rotation: DisplayRotation)
        ensures
            rotation == self@.rotation,
    {
        self.display_rotation
    }

    /// Turn the display on (eg exiting sleep mode)
    pub fn turn_on(&mut self) -> (r: Result<(), Error<DI::CommError, DI::PinError>>)
        ensures
            final(self)@.buffer == old(self)@.buffer,
            final(self)@.rotation == old(self)@.rotation,
            carried_out(
                old(self).trace(),
                final(self).trace(),
                seq![Command::DisplayOn(true).transfer()],
                r,
            ),
    {
        Command::DisplayOn(true).send(&mut self.bus)
    }

    /// Turn the display off (enter sleep mode)
    pub fn turn_off(&mut self) -> (r: Result<(), Error<DI::CommError, DI::PinError>>)
        ensures
            final(self)@.buffer == old(self)@.buffer,
            final(self)@.rotation == old(self)@.rotation,
            carried_out(
                old(self).trace(),
                final(self).trace(),
                seq![Command::DisplayOn(false).transfer()],
                r,
            ),
    {
        Command::DisplayOn(false).send(&mut self.bus)
    }
}

} // verus!
