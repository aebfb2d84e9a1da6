//! The controller's command set and its wire format.
//!
//! Every command is an opcode byte followed by zero to ten parameter bytes. What a command
//! looks like on the wire is given by [`Command::bytes`]; [`Command::encode`] computes it and
//! [`Command::send`] puts it on the bus.

use vstd::prelude::*;

use crate::error::Error;
use crate::interface::{
    carried_out, lemma_continued, lemma_failed_early, run, Bus, BusEvent, DisplayInterface,
    Transfer,
};

verus! {

/// Longest command on the wire, in bytes.
pub const MAX_COMMAND_LEN: usize = 11;

/// SSD1331 Commands
#[derive(Debug, Clone, Copy)]
pub enum Command {
    /// Set (r, g, b) contrast. Higher number is higher contrast.
    Contrast(u8, u8, u8),
    /// Turn entire display on. If set, all pixels will
    /// be set to on, if not, the value in memory will be used.
    AllOn(bool),
    /// Invert display.
    Invert(bool),
    /// Turn display on or off.
    DisplayOn(bool),
    /// Setup column start and end address
    /// values range from 0-127
    /// This is only for horizontal or vertical addressing mode
    ColumnAddress(u8, u8),
    /// Setup row start and end address
    RowAddress(u8, u8),
    /// Set display start line from 0-63
    StartLine(u8),
    /// Set horizontal or vertical direction swap, color format/depth and address increment mode
    RemapAndColorDepth(bool, bool, ColorMode, AddressIncrementMode),
    /// Set multipex ratio from 15-63 (MUX-1)
    Multiplex(u8),
    /// Scan from COM[n-1] to COM0 (where N is mux ratio)
    ReverseComDir(bool),
    /// Set vertical shift
    DisplayOffset(u8),
    /// Setup com hardware configuration
    /// First value indicates sequential (false) or alternative (true)
    /// pin configuration. Second value disables (false) or enables (true)
    /// left/right remap.
    ComPinConfig(bool, bool),
    /// Set up display clock.
    /// First value is oscillator frequency, increasing with higher value
    /// Second value is divide ratio - 1
    DisplayClockDiv(u8, u8),
    /// Set up phase 1 and 2 of precharge period. Each value is a 4-bit register field.
    PreChargePeriod(u8, u8),
    /// Set Vcomh Deselect level
    VcomhDeselect(VcomhLevel),
    /// NOOP
    Noop,
    /// Draw a line (col start, row start, col end, row end, 16-bit color)
    DrawLine(u8, u8, u8, u8, u16),
    /// Draw a rectangle (col start, row start, col end, row end, line color, fill color)
    /// Note: fill color will have no use if EnableFill was sent with false
    DrawRect(u8, u8, u8, u8, u16, u16),
    /// Enable filling of drawn rectangles
    EnableFill(bool),
}

/// Horizontal Scroll Direction
#[derive(Debug, Clone, Copy)]
pub enum HScrollDir {
    /// Left to right
    LeftToRight,
    /// Right to left
    RightToLeft,
}

/// Vertical and horizontal scroll dir
#[derive(Debug, Clone, Copy)]
pub enum VHScrollDir {
    /// Vertical and right horizontal
    VerticalRight,
    /// Vertical and left horizontal
    VerticalLeft,
}

/// Frame interval
#[derive(Debug, Clone, Copy)]
pub enum NFrames {
    /// 2 Frames
    F2,
    /// 3 Frames
    F3,
    /// 4 Frames
    F4,
    /// 5 Frames
    F5,
    /// 25 Frames
    F25,
    /// 64 Frames
    F64,
    /// 128 Frames
    F128,
    /// 256 Frames
    F256,
}

/// Vcomh Deselect level
#[derive(Debug, Clone, Copy)]
pub enum VcomhLevel {
    /// 0.44 * Vcc
    V044,
    /// 0.52 * Vcc
    V052,
    /// 0.61 * Vcc
    V061,
    /// 0.71 * Vcc
    V071,
    /// 0.83 * Vcc
    V083,
}

/// Color mode
#[derive(Debug, Clone, Copy)]
pub enum ColorMode {
    /// 256 colors per pixel
    CM256,
    /// 65k colors per pixel
    CM65k,
}

/// Address increment mode
#[derive(Debug, Clone, Copy)]
pub enum AddressIncrementMode {
    /// Horizontal address increment
    Horizontal,
    /// Vertical address increment
    Vertical,
}

impl HScrollDir {
    /// The register value of this direction.
    pub open spec fn spec_bits(self) -> u8 {
        match self {
            HScrollDir::LeftToRight => 0,
            HScrollDir::RightToLeft => 1,
        }
    }

    /// The register value of this direction.
    #[verifier::when_used_as_spec(spec_bits)]
    pub fn bits(self) -> (b: u8)
        ensures
            b == self.spec_bits(),
    {
        match self {
            HScrollDir::LeftToRight => 0,
            HScrollDir::RightToLeft => 1,
        }
    }
}

impl VHScrollDir {
    /// The register value of this direction.
    pub open spec fn spec_bits(self) -> u8 {
        match self {
            VHScrollDir::VerticalRight => 0b01,
            VHScrollDir::VerticalLeft => 0b10,
        }
    }

    /// The register value of this direction.
    #[verifier::when_used_as_spec(spec_bits)]
    pub fn bits(self) -> (b: u8)
        ensures
            b == self.spec_bits(),
    {
        match self {
            VHScrollDir::VerticalRight => 0b01,
            VHScrollDir::VerticalLeft => 0b10,
        }
    }
}

impl NFrames {
    /// The register value of this frame interval.
    pub open spec fn spec_bits(self) -> u8 {
        match self {
            NFrames::F2 => 0b111,
            NFrames::F3 => 0b100,
            NFrames::F4 => 0b101,
            NFrames::F5 => 0b000,
            NFrames::F25 => 0b110,
            NFrames::F64 => 0b001,
            NFrames::F128 => 0b010,
            NFrames::F256 => 0b011,
        }
    }

    /// The register value of this frame interval.
    #[verifier::when_used_as_spec(spec_bits)]
    pub fn bits(self) -> (b: u8)
        ensures
            b == self.spec_bits(),
    {
        match self {
            NFrames::F2 => 0b111,
            NFrames::F3 => 0b100,
            NFrames::F4 => 0b101,
            NFrames::F5 => 0b000,
            NFrames::F25 => 0b110,
            NFrames::F64 => 0b001,
            NFrames::F128 => 0b010,
            NFrames::F256 => 0b011,
        }
    }
}

impl VcomhLevel {
    /// The register value of this level, before it is shifted into place.
    pub open spec fn spec_bits(self) -> u8 {
        match self {
            VcomhLevel::V044 => 0b00000,
            VcomhLevel::V052 => 0b01000,
            VcomhLevel::V061 => 0b10000,
            VcomhLevel::V071 => 0b11000,
            VcomhLevel::V083 => 0b11111,
        }
    }

    /// The register value of this level, before it is shifted into place.
    #[verifier::when_used_as_spec(spec_bits)]
    pub fn bits(self) -> (b: u8)
        ensures
            b == self.spec_bits(),
    {
        match self {
            VcomhLevel::V044 => 0b00000,
            VcomhLevel::V052 => 0b01000,
            VcomhLevel::V061 => 0b10000,
            VcomhLevel::V071 => 0b11000,
            VcomhLevel::V083 => 0b11111,
        }
    }
}

impl ColorMode {
    /// The register value of this mode.
    pub open spec fn spec_bits(self) -> u8 {
        match self {
            ColorMode::CM256 => 0,
            ColorMode::CM65k => 1,
        }
    }

    /// The register value of this mode.
    #[verifier::when_used_as_spec(spec_bits)]
    pub fn bits(self) -> (b: u8)
        ensures
            b == self.spec_bits(),
    {
        match self {
            ColorMode::CM256 => 0,
            ColorMode::CM65k => 1,
        }
    }
}

impl AddressIncrementMode {
    /// The register value of this mode.
    pub open spec fn spec_bits(self) -> u8 {
        match self {
            AddressIncrementMode::Horizontal => 0,
            AddressIncrementMode::Vertical => 1,
        }
    }

    /// The register value of this mode.
    #[verifier::when_used_as_spec(spec_bits)]
    pub fn bits(self) -> (b: u8)
        ensures
            b == self.spec_bits(),
    {
        match self {
            AddressIncrementMode::Horizontal => 0,
            AddressIncrementMode::Vertical => 1,
        }
    }
}

/// A flag as a number: 1 when set, 0 when clear.
pub open spec fn flag(set: bool) -> int {
    if set {
        1
    } else {
        0
    }
}

/// The configuration byte of the remap command: bit 0 is the address increment mode, bit 1
/// the horizontal mirror, bit 4 the vertical mirror, bit 6 the colour mode, and bit 5 is
/// always set.
pub open spec fn remap_config(
    h_mirror: bool,
    v_mirror: bool,
    color_mode: ColorMode,
    increment: AddressIncrementMode,
) -> int {
    0x20 + increment.spec_bits() + 2 * flag(h_mirror) + 16 * flag(v_mirror) + 64
        * color_mode.spec_bits()
}

/// Two 4-bit fields in one byte. Each field keeps its low four bits only.
pub open spec fn nibbles(high: u8, low: u8) -> int {
    16 * (high % 16) + low % 16
}

/// The three channel bytes that the drawing commands carry for an RGB565 colour, in the
/// order (blue, green, red). Red and blue are five bits wide and are scaled to six by
/// doubling; green is six bits wide already.
pub open spec fn accel_channels(raw: u16) -> (int, int, int) {
    (2 * (raw % 32), ((raw / 32) % 64) as int, 2 * (raw / 2048))
}

fn flag_bit(set: bool) -> (b: u8)
    ensures
        b == flag(set),
{
    if set {
        1
    } else {
        0
    }
}

fn pack_remap(
    h_mirror: bool,
    v_mirror: bool,
    color_mode: ColorMode,
    increment: AddressIncrementMode,
) -> (config: u8)
    ensures
        config == remap_config(h_mirror, v_mirror, color_mode, increment),
{
    let h: u8 = flag_bit(h_mirror);
    let v: u8 = flag_bit(v_mirror);
    let c: u8 = color_mode.bits();
    let a: u8 = increment.bits();
    assert(0x20u8 | (v << 4 | h << 1 | c << 6 | a) == 0x20 + a + 2 * h + 16 * v + 64 * c)
        by (bit_vector)
        requires
            h <= 1,
            v <= 1,
            c <= 1,
            a <= 1,
    ;
    0x20 | (v << 4 | h << 1 | c << 6 | a)
}

fn pack_nibbles(high: u8, low: u8) -> (packed: u8)
    ensures
        packed == nibbles(high, low),
{
    assert(((0xFu8 & high) << 4) | (0xFu8 & low) == 16 * (high % 16) + low % 16) by (bit_vector);
    ((0xF & high) << 4) | (0xF & low)
}

/// This is a raw converter from Rgb565 u16 to the bytes that
/// ssd1331 expects for rgb in accelerated graphics commands.
///
/// The result is in the order (blue, green, red).
pub fn raw16_to_ssd1331_accel(raw: u16) -> (channels: (u8, u8, u8))
    ensures
        channels.0 == accel_channels(raw).0,
        channels.1 == accel_channels(raw).1,
        channels.2 == accel_channels(raw).2,
{
    let red_mask: u16 = 0b11111_000000_00000;
    let green_mask: u16 = 0b00000_111111_00000;
    let blue_mask: u16 = 0b00000_000000_11111;
    assert((raw & 0b11111u16) << 1 == 2 * (raw % 32)) by (bit_vector);
    assert((raw & 0b00000_111111_00000u16) >> 5 == (raw / 32) % 64) by (bit_vector);
    assert((raw & 0b11111_000000_00000u16) >> 10 == 2 * (raw / 2048)) by (bit_vector);
    let a = ((raw & blue_mask) << 1) as u8;
    let b = ((raw & green_mask) >> 5) as u8;
    let c = ((raw & red_mask) >> 10) as u8;
    (a, b, c)
}

impl Command {
    /// The command on the wire: the opcode, then the parameters.
    pub open spec fn bytes(self) -> Seq<u8> {
        match self {
            Command::Contrast(r, g, b) => seq![0x81u8, r, 0x82u8, g, 0x83u8, b],
            Command::AllOn(on) => seq![if on { 0xA5u8 } else { 0xA6u8 }],
            Command::Invert(inv) => seq![if inv { 0xA7u8 } else { 0xA4u8 }],
            Command::DisplayOn(on) => seq![if on { 0xAFu8 } else { 0xAEu8 }],
            Command::ColumnAddress(start, end) => seq![0x15u8, start, end],
            Command::RowAddress(start, end) => seq![0x75u8, start, end],
            Command::StartLine(line) => seq![0xA1u8, (line % 64) as u8],
            Command::RemapAndColorDepth(h_mirror, v_mirror, color_mode, increment) => seq![
                0xA0u8,
                remap_config(h_mirror, v_mirror, color_mode, increment) as u8,
            ],
            Command::Multiplex(ratio) => seq![0xA8u8, ratio],
            Command::ReverseComDir(rev) => seq![if rev { 0xC8u8 } else { 0xC0u8 }],
            Command::DisplayOffset(offset) => seq![0xA2u8, offset],
            Command::ComPinConfig(alt, lr) => seq![
                0xDAu8,
                (2 + 16 * flag(alt) + 32 * flag(lr)) as u8,
            ],
            Command::DisplayClockDiv(fosc, div) => seq![0xB3u8, nibbles(fosc, div) as u8],
            Command::PreChargePeriod(phase1, phase2) => seq![
                0x3Eu8,
                nibbles(phase2, phase1) as u8,
            ],
            Command::VcomhDeselect(level) => seq![0xBEu8, (2 * level.spec_bits()) as u8],
            Command::Noop => seq![0xE3u8],
            Command::DrawLine(c1, r1, c2, r2, color) => seq![
                0x21u8,
                c1,
                r1,
                c2,
                r2,
                accel_channels(color).2 as u8,
                accel_channels(color).1 as u8,
                accel_channels(color).0 as u8,
            ],
            Command::DrawRect(c1, r1, c2, r2, line, fill) => seq![
                0x22u8,
                c1,
                r1,
                c2,
                r2,
                accel_channels(line).2 as u8,
                accel_channels(line).1 as u8,
                accel_channels(line).0 as u8,
                accel_channels(fill).2 as u8,
                accel_channels(fill).1 as u8,
                accel_channels(fill).0 as u8,
            ],
            Command::EnableFill(on) => seq![0x26u8, if on { 0x01u8 } else { 0x00u8 }],
        }
    }

    /// How many bytes the command takes on the wire.
    pub open spec fn wire_len(self) -> nat {
        match self {
            Command::Contrast(..) => 6,
            Command::AllOn(_) => 1,
            Command::Invert(_) => 1,
            Command::DisplayOn(_) => 1,
            Command::ColumnAddress(..) => 3,
            Command::RowAddress(..) => 3,
            Command::StartLine(_) => 2,
            Command::RemapAndColorDepth(..) => 2,
            Command::Multiplex(_) => 2,
            Command::ReverseComDir(_) => 1,
            Command::DisplayOffset(_) => 2,
            Command::ComPinConfig(..) => 2,
            Command::DisplayClockDiv(..) => 2,
            Command::PreChargePeriod(..) => 2,
            Command::VcomhDeselect(_) => 2,
            Command::Noop => 1,
            Command::DrawLine(..) => 8,
            Command::DrawRect(..) => 11,
            Command::EnableFill(_) => 2,
        }
    }

    /// Every command has the length that its kind fixes, between one byte and
    /// `MAX_COMMAND_LEN`, whatever its parameters are.
    pub proof fn lemma_wire_len(self)
        ensures
            self.bytes().len() == self.wire_len(),
            1 <= self.bytes().len() <= MAX_COMMAND_LEN,
    {
    }

    /// The first byte on the wire, which tells the controller which command follows.
    pub open spec fn opcode(self) -> u8 {
        self.bytes()[0]
    }

    /// The command as a transfer: its bytes, marked as a command.
    pub open spec fn transfer(self) -> Transfer {
        Transfer::Command(self.bytes())
    }

    /// Encode the command into a fixed-size frame and the number of bytes of it that go on
    /// the wire. The rest of the frame is zero.
    pub fn encode(&self) -> (frame: ([u8; MAX_COMMAND_LEN], usize))
        ensures
            frame.1 == self.bytes().len(),
            frame.0@.take(frame.1 as int) == self.bytes(),
            forall|i: int| frame.1 <= i < MAX_COMMAND_LEN ==> frame.0@[i] == 0,
    {
        let (data, len): ([u8; MAX_COMMAND_LEN], usize) = match *self {
            Command::Contrast(a, b, c) => ([0x81, a, 0x82, b, 0x83, c, 0, 0, 0, 0, 0], 6),
            Command::AllOn(on) => ([if on { 0xA5 } else { 0xA6 }, 0, 0, 0, 0, 0, 0, 0, 0, 0, 0], 1),
            Command::Invert(inv) => (
                [if inv { 0xA7 } else { 0xA4 }, 0, 0, 0, 0, 0, 0, 0, 0, 0, 0],
                1,
            ),
            Command::DisplayOn(on) => {
                let bit: u8 = flag_bit(on);
                assert(0xAEu8 | bit == 0xAE + bit) by (bit_vector)
                    requires
                        bit <= 1,
                ;
                ([0xAE | bit, 0, 0, 0, 0, 0, 0, 0, 0, 0, 0], 1)
            },
            Command::ColumnAddress(start, end) => ([0x15, start, end, 0, 0, 0, 0, 0, 0, 0, 0], 3),
            Command::RowAddress(start, end) => ([0x75, start, end, 0, 0, 0, 0, 0, 0, 0, 0], 3),
            Command::StartLine(line) => {
                assert(0x3Fu8 & line == line % 64) by (bit_vector);
                ([0xA1, 0x3F & line, 0, 0, 0, 0, 0, 0, 0, 0, 0], 2)
            },
            Command::RemapAndColorDepth(hremap, vremap, cmode, addr_inc_mode) => (
                [0xA0, pack_remap(hremap, vremap, cmode, addr_inc_mode), 0, 0, 0, 0, 0, 0, 0, 0, 0],
                2,
            ),
            Command::Multiplex(ratio) => ([0xA8, ratio, 0, 0, 0, 0, 0, 0, 0, 0, 0], 2),
            Command::ReverseComDir(rev) => {
                let bit: u8 = flag_bit(rev);
                assert(0xC0u8 | (bit << 3) == 0xC0 + 8 * bit) by (bit_vector)
                    requires
                        bit <= 1,
                ;
                ([0xC0 | (bit << 3), 0, 0, 0, 0, 0, 0, 0, 0, 0, 0], 1)
            },
            Command::DisplayOffset(offset) => ([0xA2, offset, 0, 0, 0, 0, 0, 0, 0, 0, 0], 2),
            Command::ComPinConfig(alt, lr) => {
                let a: u8 = flag_bit(alt);
                let l: u8 = flag_bit(lr);
                assert(0x2u8 | (a << 4) | (l << 5) == 2 + 16 * a + 32 * l) by (bit_vector)
                    requires
                        a <= 1,
                        l <= 1,
                ;
                ([0xDA, 0x2 | (a << 4) | (l << 5), 0, 0, 0, 0, 0, 0, 0, 0, 0], 2)
            },
            Command::DisplayClockDiv(fosc, div) => (
                [0xB3, pack_nibbles(fosc, div), 0, 0, 0, 0, 0, 0, 0, 0, 0],
                2,
            ),
            Command::PreChargePeriod(phase1, phase2) => (
                [0x3E, pack_nibbles(phase2, phase1), 0, 0, 0, 0, 0, 0, 0, 0, 0],
                2,
            ),
            Command::VcomhDeselect(level) => {
                let bits: u8 = level.bits();
                assert(bits << 1 == 2 * bits) by (bit_vector)
                    requires
                        bits <= 31,
                ;
                ([0xBE, bits << 1, 0, 0, 0, 0, 0, 0, 0, 0, 0], 2)
            },
            Command::Noop => ([0xE3, 0, 0, 0, 0, 0, 0, 0, 0, 0, 0], 1),
            Command::DrawLine(c1, r1, c2, r2, color_raw16) => {
                let (a, b, c) = raw16_to_ssd1331_accel(color_raw16);
                ([0x21, c1, r1, c2, r2, c, b, a, 0, 0, 0], 8)
            },
            Command::DrawRect(c1, r1, c2, r2, line_raw16, fill_raw16) => {
                let (al, bl, cl) = raw16_to_ssd1331_accel(line_raw16);
                let (af, bf, cf) = raw16_to_ssd1331_accel(fill_raw16);
                ([0x22, c1, r1, c2, r2, cl, bl, al, cf, bf, af], 11)
            },
            Command::EnableFill(on) => (
                [0x26, if on { 0x01 } else { 0x00 }, 0, 0, 0, 0, 0, 0, 0, 0, 0],
                2,
            ),
        };
        assert(data@.take(len as int) =~= self.bytes());
        (data, len)
    }

    /// Send command to SSD1331
    ///
    /// The data/command line is driven low first, then the command's bytes are written. The
    /// first failure ends the attempt: with `Error::Pin` nothing has been written, with
    /// `Error::Comm` the line is low and the write did not complete.
    pub fn send<DI: DisplayInterface>(self, bus: &mut Bus<DI>) -> (r: Result<
        (),
        Error<DI::CommError, DI::PinError>,
    >)
        ensures
            carried_out(old(bus).trace(), final(bus).trace(), seq![self.transfer()], r),
    {
        let (data, len) = self.encode();
        let wire = vstd::slice::slice_subrange(data.as_slice(), 0, len);
        assert(wire@ =~= self.bytes());
        bus.send_commands(wire)
    }
}

/// A list of commands as transfers, in the same order.
pub open spec fn commands(cmds: Seq<Command>) -> Seq<Transfer> {
    cmds.map_values(|c: Command| c.transfer())
}

/// Send the commands in order, stopping at the first failure.
pub fn send_all<DI: DisplayInterface>(cmds: &[Command], bus: &mut Bus<DI>) -> (r: Result<
    (),
    Error<DI::CommError, DI::PinError>,
>)
    ensures
        carried_out(old(bus).trace(), final(bus).trace(), commands(cmds@), r),
{
    let ghost before = bus.trace();
    let ghost all = commands(cmds@);
    let mut i: usize = 0;
    proof {
        assert(all.take(0) =~= Seq::<Transfer>::empty());
        assert(run(all.take(0), None) =~= Seq::<BusEvent>::empty());
        assert(before + run(all.take(0), None) =~= before);
    }
    while i < cmds.len()
        invariant
            0 <= i <= cmds.len(),
            before == old(bus).trace(),
            all == commands(cmds@),
            bus.trace() == before + run(all.take(i as int), None),
        decreases cmds.len() - i,
    {
        let ghost sent = all.take(i as int);
        let ghost between = bus.trace();
        let r = cmds[i].send(bus);
        proof {
            let one = seq![cmds@[i as int].transfer()];
            assert(all.take(i as int + 1) =~= sent + one);
            lemma_continued(before, between, bus.trace(), sent, one, r);
            if r is Err {
                lemma_failed_early(
                    before,
                    bus.trace(),
                    all.take(i as int + 1),
                    all.skip(i as int + 1),
                    r,
                );
                assert(all.take(i as int + 1) + all.skip(i as int + 1) =~= all);
            }
        }
        match r {
            Ok(_) => {},
            Err(e) => {
                return Err(e);
            },
        }
        i += 1;
    }
    assert(all.take(i as int) =~= all);
    Ok(())
}

} // verus!
