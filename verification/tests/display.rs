use ssd1331::display::Ssd1331;
use ssd1331::error::{comm_result, pin_result};
use ssd1331::framebuffer::{Pixel, BUF_SIZE};
use ssd1331::interface::DisplayInterface;
use ssd1331::sequencer::{init_sequence, reset_sequence, ResetStep};
use ssd1331::{Builder, Command, DisplayRotation, Error, DISPLAY_HEIGHT, DISPLAY_WIDTH};

#[derive(Debug, Clone, PartialEq, Eq)]
enum Op {
    Low,
    High,
    Write(Vec<u8>),
}

#[derive(Debug, PartialEq, Eq)]
struct BusFault(usize);

#[derive(Debug, PartialEq, Eq)]
struct PinFault(usize);

/// Records what it is asked to do. The call numbered `fail_at`, counted from zero over all
/// three operations, fails and is not recorded.
struct Capture {
    ops: Vec<Op>,
    calls: usize,
    fail_at: Option<usize>,
}

impl Capture {
    fn new() -> Self {
        Capture { ops: Vec::new(), calls: 0, fail_at: None }
    }

    fn failing_at(call: usize) -> Self {
        Capture { ops: Vec::new(), calls: 0, fail_at: Some(call) }
    }

    fn refuses(&mut self) -> Option<usize> {
        let call = self.calls;
        self.calls += 1;
        if self.fail_at == Some(call) {
            Some(call)
        } else {
            None
        }
    }
}

impl DisplayInterface for Capture {
    type CommError = BusFault;
    type PinError = PinFault;

    fn write(&mut self, bytes: &[u8]) -> Result<(), BusFault> {
        match self.refuses() {
            Some(call) => Err(BusFault(call)),
            None => {
                self.ops.push(Op::Write(bytes.to_vec()));
                Ok(())
            }
        }
    }

    fn set_high(&mut self) -> Result<(), PinFault> {
        match self.refuses() {
            Some(call) => Err(PinFault(call)),
            None => {
                self.ops.push(Op::High);
                Ok(())
            }
        }
    }

    fn set_low(&mut self) -> Result<(), PinFault> {
        match self.refuses() {
            Some(call) => Err(PinFault(call)),
            None => {
                self.ops.push(Op::Low);
                Ok(())
            }
        }
    }
}


const ROTATIONS: [DisplayRotation; 4] = [
    DisplayRotation::Rotate0,
    DisplayRotation::Rotate90,
    DisplayRotation::Rotate180,
    DisplayRotation::Rotate270,
];

fn remap_byte(rotation: DisplayRotation) -> u8 {
    match rotation {
        DisplayRotation::Rotate0 => 0x60,
        DisplayRotation::Rotate90 => 0x63,
        DisplayRotation::Rotate180 => 0x72,
        DisplayRotation::Rotate270 => 0x71,
    }
}

/// What an initialisation in the given orientation puts on the connection.
fn init_ops(rotation: DisplayRotation) -> Vec<Op> {
    let blocks: Vec<Vec<u8>> = vec![
        vec![0xAE],
        vec![0xB3, 0xF0],
        vec![0xA8, 63],
        vec![0xA1, 0],
        vec![0xA2, 0],
        vec![0xA0, remap_byte(rotation)],
        vec![0x81, 0x91, 0x82, 0x50, 0x83, 0x7D],
        vec![0x3E, 0xF1],
        vec![0xBE, 0x30],
        vec![0xA6],
        vec![0xA4],
        vec![0xAF],
    ];
    let mut ops = Vec::new();
    for block in blocks {
        ops.push(Op::Low);
        ops.push(Op::Write(block));
    }
    ops
}

/// The buffer as the driver would send it.
fn buffer_of(display: &Ssd1331<Capture>) -> Vec<u8> {
    display.flush_plan().1.to_vec()
}

#[test]
fn panel_is_96_by_64() {
    assert_eq!(DISPLAY_WIDTH, 96);
    assert_eq!(DISPLAY_HEIGHT, 64);
    assert_eq!(BUF_SIZE, 96 * 64 * 2);
}

#[test]
fn dimensions_follow_rotation() {
    let display = Ssd1331::new(Capture::new(), DisplayRotation::Rotate0);
    assert_eq!(display.dimensions(), (96, 64));
    let display = Ssd1331::new(Capture::new(), DisplayRotation::Rotate90);
    assert_eq!(display.dimensions(), (64, 96));
    let display = Ssd1331::new(Capture::new(), DisplayRotation::Rotate180);
    assert_eq!(display.dimensions(), (96, 64));
    let display = Ssd1331::new(Capture::new(), DisplayRotation::Rotate270);
    assert_eq!(display.dimensions(), (64, 96));
}

#[test]
fn rotation_dimensions_and_remap() {
    assert_eq!(DisplayRotation::Rotate0.dimensions(), (96, 64));
    assert_eq!(DisplayRotation::Rotate270.dimensions(), (64, 96));
    for rotation in ROTATIONS {
        let (frame, len) = rotation.remap().encode();
        assert_eq!(len, 2);
        assert_eq!(frame[0], 0xA0);
        assert_eq!(frame[1], remap_byte(rotation));
    }
}

#[test]
fn new_display_is_blank_and_silent() {
    let display = Ssd1331::new(Capture::new(), DisplayRotation::Rotate180);
    assert_eq!(display.rotation(), DisplayRotation::Rotate180);
    assert_eq!(buffer_of(&display), vec![0u8; 12288]);
    let capture = display.release();
    assert_eq!(capture.calls, 0);
    assert_eq!(capture.ops, vec![]);
}

#[test]
fn init_sends_the_twelve_commands_in_order() {
    for rotation in ROTATIONS {
        let mut display = Ssd1331::new(Capture::new(), rotation);
        assert!(display.init().is_ok());
        assert_eq!(display.rotation(), rotation);
        let capture = display.release();
        assert_eq!(capture.ops, init_ops(rotation));
    }
}

#[test]
fn init_opcodes_do_not_depend_on_rotation() {
    let expected: Vec<u8> =
        vec![0xAE, 0xB3, 0xA8, 0xA1, 0xA2, 0xA0, 0x81, 0x3E, 0xBE, 0xA6, 0xA4, 0xAF];
    for rotation in ROTATIONS {
        let mut display = Ssd1331::new(Capture::new(), rotation);
        assert!(display.init().is_ok());
        let capture = display.release();
        let mut opcodes = Vec::new();
        for op in &capture.ops {
            match op {
                Op::Write(bytes) => opcodes.push(bytes[0]),
                Op::Low => {}
                Op::High => panic!("data/command line went high during init"),
            }
        }
        assert_eq!(opcodes, expected);
    }
}

#[test]
fn init_sequence_lists_twelve_commands() {
    let sequence = init_sequence(0x8, DisplayRotation::Rotate90);
    let mut opcodes = Vec::new();
    for command in sequence {
        let (frame, len) = command.encode();
        assert!(len >= 1);
        opcodes.push(frame[0]);
    }
    assert_eq!(
        opcodes,
        vec![0xAE, 0xB3, 0xA8, 0xA1, 0xA2, 0xA0, 0x81, 0x3E, 0xBE, 0xA6, 0xA4, 0xAF]
    );
    assert_eq!(sequence[1].encode().0[1], 0x80);
    assert_eq!(sequence[5].encode().0[1], 0x63);
}

#[test]
fn init_stops_at_the_first_failure() {
    for failing in 0..24 {
        let mut display = Ssd1331::new(Capture::failing_at(failing), DisplayRotation::Rotate0);
        let r = display.init();
        if failing % 2 == 0 {
            assert!(matches!(r, Err(Error::Pin(PinFault(n))) if n == failing));
        } else {
            assert!(matches!(r, Err(Error::Comm(BusFault(n))) if n == failing));
        }
        let capture = display.release();
        assert_eq!(capture.calls, failing + 1);
        assert_eq!(capture.ops, init_ops(DisplayRotation::Rotate0)[..failing].to_vec());
    }
}

#[test]
fn init_can_be_repeated_after_a_failure() {
    let mut display = Ssd1331::new(Capture::failing_at(5), DisplayRotation::Rotate270);
    assert!(display.init().is_err());
    assert!(display.init().is_ok());
    let capture = display.release();
    let mut expected = init_ops(DisplayRotation::Rotate270)[..5].to_vec();
    expected.extend(init_ops(DisplayRotation::Rotate270));
    assert_eq!(capture.ops, expected);
}

#[test]
fn set_rotation_tells_the_controller() {
    let mut display = Ssd1331::new(Capture::new(), DisplayRotation::Rotate0);
    for rotation in ROTATIONS {
        assert!(display.set_rotation(rotation).is_ok());
        assert_eq!(display.rotation(), rotation);
    }
    assert_eq!(display.dimensions(), (64, 96));
    let capture = display.release();
    assert_eq!(
        capture.ops,
        vec![
            Op::Low,
            Op::Write(vec![0xA0, 0x60]),
            Op::Low,
            Op::Write(vec![0xA0, 0x63]),
            Op::Low,
            Op::Write(vec![0xA0, 0x72]),
            Op::Low,
            Op::Write(vec![0xA0, 0x71]),
        ]
    );
}

#[test]
fn set_rotation_keeps_new_rotation_when_sending_fails() {
    let mut display = Ssd1331::new(Capture::failing_at(0), DisplayRotation::Rotate0);
    assert!(matches!(display.set_rotation(DisplayRotation::Rotate90), Err(Error::Pin(_))));
    assert_eq!(display.rotation(), DisplayRotation::Rotate90);
    assert_eq!(display.dimensions(), (64, 96));

    let mut display = Ssd1331::new(Capture::failing_at(1), DisplayRotation::Rotate0);
    assert!(matches!(display.set_rotation(DisplayRotation::Rotate180), Err(Error::Comm(_))));
    assert_eq!(display.rotation(), DisplayRotation::Rotate180);
}

#[test]
fn set_pixel_stores_high_byte_first() {
    let mut display = Ssd1331::new(Capture::new(), DisplayRotation::Rotate0);
    display.set_pixel(0, 0, 0xF800);
    let buffer = buffer_of(&display);
    assert_eq!(buffer[0], 0xF8);
    assert_eq!(buffer[1], 0x00);
    assert!(buffer[2..].iter().all(|b| *b == 0));
}

#[test]
fn set_pixel_offsets_upright() {
    for rotation in [DisplayRotation::Rotate0, DisplayRotation::Rotate180] {
        let mut display = Ssd1331::new(Capture::new(), rotation);
        display.set_pixel(1, 1, 0x1234);
        display.set_pixel(95, 63, 0xABCD);
        display.set_pixel(10, 20, 0x0F00);
        let buffer = buffer_of(&display);
        let mut expected = vec![0u8; 12288];
        expected[194] = 0x12;
        expected[195] = 0x34;
        expected[12286] = 0xAB;
        expected[12287] = 0xCD;
        expected[(20 * 96 + 10) * 2] = 0x0F;
        expected[(20 * 96 + 10) * 2 + 1] = 0x00;
        assert_eq!(buffer, expected);
    }
}

#[test]
fn set_pixel_offsets_sideways() {
    for rotation in [DisplayRotation::Rotate90, DisplayRotation::Rotate270] {
        let mut display = Ssd1331::new(Capture::new(), rotation);
        display.set_pixel(1, 1, 0x1234);
        display.set_pixel(63, 95, 0xABCD);
        display.set_pixel(10, 20, 0x0F00);
        let buffer = buffer_of(&display);
        let mut expected = vec![0u8; 12288];
        expected[130] = 0x12;
        expected[131] = 0x34;
        expected[12286] = 0xAB;
        expected[12287] = 0xCD;
        expected[(20 * 64 + 10) * 2] = 0x0F;
        expected[(20 * 64 + 10) * 2 + 1] = 0x00;
        assert_eq!(buffer, expected);
    }
}

#[test]
fn set_pixel_outside_is_a_no_op() {
    let mut display = Ssd1331::new(Capture::new(), DisplayRotation::Rotate0);
    display.set_pixel(5, 5, 0xBEEF);
    let before = buffer_of(&display);
    display.set_pixel(96, 0, 0xFFFF);
    display.set_pixel(0, 64, 0xFFFF);
    display.set_pixel(96, 64, 0xFFFF);
    display.set_pixel(200, 3, 0xFFFF);
    display.set_pixel(u32::MAX, 0, 0xFFFF);
    display.set_pixel(0, u32::MAX, 0xFFFF);
    display.set_pixel(u32::MAX, u32::MAX, 0xFFFF);
    assert_eq!(buffer_of(&display), before);

    let mut display = Ssd1331::new(Capture::new(), DisplayRotation::Rotate90);
    display.set_pixel(5, 5, 0xBEEF);
    let before = buffer_of(&display);
    display.set_pixel(64, 0, 0xFFFF);
    display.set_pixel(95, 0, 0xFFFF);
    display.set_pixel(0, 96, 0xFFFF);
    display.set_pixel(100, 0, 0xFFFF);
    display.set_pixel(u32::MAX, 95, 0xFFFF);
    assert_eq!(buffer_of(&display), before);
    let capture = display.release();
    assert_eq!(capture.calls, 0);
}

#[test]
fn set_pixel_twice_keeps_the_later_colour() {
    let mut display = Ssd1331::new(Capture::new(), DisplayRotation::Rotate0);
    display.set_pixel(3, 0, 0x1111);
    display.set_pixel(3, 0, 0x2233);
    let buffer = buffer_of(&display);
    assert_eq!(&buffer[6..8], &[0x22, 0x33]);
}

#[test]
fn clear_zeroes_every_byte() {
    let mut display = Ssd1331::new(Capture::new(), DisplayRotation::Rotate0);
    for y in 0..64 {
        for x in 0..96 {
            display.set_pixel(x, y, 0xFFFF);
        }
    }
    assert!(buffer_of(&display).iter().all(|b| *b == 0xFF));
    display.clear();
    let buffer = buffer_of(&display);
    assert_eq!(buffer.len(), 12288);
    assert!(buffer.iter().all(|b| *b == 0));
    assert_eq!(display.rotation(), DisplayRotation::Rotate0);
    let capture = display.release();
    assert_eq!(capture.calls, 0);
}

#[test]
fn flush_sets_full_window_then_sends_buffer() {
    let mut display = Ssd1331::new(Capture::new(), DisplayRotation::Rotate0);
    display.set_pixel(0, 0, 0xF800);
    assert!(display.flush().is_ok());
    let capture = display.release();
    assert_eq!(capture.ops.len(), 6);
    assert_eq!(capture.ops[0], Op::Low);
    assert_eq!(capture.ops[1], Op::Write(vec![0x15, 0, 95]));
    assert_eq!(capture.ops[2], Op::Low);
    assert_eq!(capture.ops[3], Op::Write(vec![0x75, 0, 63]));
    assert_eq!(capture.ops[4], Op::High);
    match &capture.ops[5] {
        Op::Write(data) => {
            assert_eq!(data.len(), 12288);
            assert_eq!(data[0], 0xF8);
            assert_eq!(data[1], 0x00);
            assert!(data[2..].iter().all(|b| *b == 0));
        }
        other => panic!("expected the buffer, got {:?}", other),
    }
}

#[test]
fn flush_window_does_not_depend_on_rotation() {
    for rotation in ROTATIONS {
        let mut display = Ssd1331::new(Capture::new(), rotation);
        assert!(display.flush().is_ok());
        let capture = display.release();
        assert_eq!(capture.ops[1], Op::Write(vec![0x15, 0, 95]));
        assert_eq!(capture.ops[3], Op::Write(vec![0x75, 0, 63]));
        assert_eq!(capture.ops[5], Op::Write(vec![0u8; 12288]));
    }
}

#[test]
fn flush_resets_a_window_set_before() {
    let mut display = Ssd1331::new(Capture::new(), DisplayRotation::Rotate0);
    assert!(display.set_draw_area((10, 20), (30, 40)).is_ok());
    display.set_pixel(2, 0, 0x0102);
    assert!(display.flush().is_ok());
    let capture = display.release();
    assert_eq!(capture.ops.len(), 10);
    assert_eq!(
        capture.ops[..4].to_vec(),
        vec![
            Op::Low,
            Op::Write(vec![0x15, 10, 30]),
            Op::Low,
            Op::Write(vec![0x75, 20, 40]),
        ]
    );
    assert_eq!(
        capture.ops[4..9].to_vec(),
        vec![
            Op::Low,
            Op::Write(vec![0x15, 0, 95]),
            Op::Low,
            Op::Write(vec![0x75, 0, 63]),
            Op::High,
        ]
    );
    let mut expected = vec![0u8; 12288];
    expected[4] = 0x01;
    expected[5] = 0x02;
    assert_eq!(capture.ops[9], Op::Write(expected));
}

#[test]
fn flush_stops_at_the_first_failure() {
    let full: Vec<Op> = vec![
        Op::Low,
        Op::Write(vec![0x15, 0, 95]),
        Op::Low,
        Op::Write(vec![0x75, 0, 63]),
        Op::High,
        Op::Write(vec![0u8; 12288]),
    ];
    for failing in 0..6 {
        let mut display = Ssd1331::new(Capture::failing_at(failing), DisplayRotation::Rotate0);
        let r = display.flush();
        if failing % 2 == 0 {
            assert!(matches!(r, Err(Error::Pin(PinFault(n))) if n == failing));
        } else {
            assert!(matches!(r, Err(Error::Comm(BusFault(n))) if n == failing));
        }
        let capture = display.release();
        assert_eq!(capture.calls, failing + 1);
        assert_eq!(capture.ops, full[..failing].to_vec());
    }
}

#[test]
fn flush_leaves_the_buffer_alone() {
    let mut display = Ssd1331::new(Capture::new(), DisplayRotation::Rotate90);
    display.set_pixel(7, 9, 0x4242);
    let before = buffer_of(&display);
    assert!(display.flush().is_ok());
    assert!(display.flush().is_ok());
    assert_eq!(buffer_of(&display), before);
    assert_eq!(display.rotation(), DisplayRotation::Rotate90);
}

#[test]
fn flush_plan_names_the_window_and_the_buffer() {
    let mut display = Ssd1331::new(Capture::new(), DisplayRotation::Rotate180);
    display.set_pixel(0, 0, 0xF800);
    let (window, frame) = display.flush_plan();
    assert_eq!(window[0].encode(), Command::ColumnAddress(0, 95).encode());
    assert_eq!(window[1].encode(), Command::RowAddress(0, 63).encode());
    assert_eq!(frame.len(), 12288);
    assert_eq!(frame[0], 0xF8);
    assert_eq!(frame[1], 0x00);
}

#[test]
fn set_draw_area_sends_columns_then_rows() {
    let mut display = Ssd1331::new(Capture::new(), DisplayRotation::Rotate0);
    assert!(display.set_draw_area((1, 2), (3, 4)).is_ok());
    let capture = display.release();
    assert_eq!(
        capture.ops,
        vec![Op::Low, Op::Write(vec![0x15, 1, 3]), Op::Low, Op::Write(vec![0x75, 2, 4])]
    );
}

#[test]
fn set_draw_area_stops_at_the_first_failure() {
    let mut display = Ssd1331::new(Capture::failing_at(2), DisplayRotation::Rotate0);
    let r = display.set_draw_area((1, 2), (3, 4));
    assert!(matches!(r, Err(Error::Pin(PinFault(2)))));
    let capture = display.release();
    assert_eq!(capture.ops, vec![Op::Low, Op::Write(vec![0x15, 1, 3])]);
}

#[test]
fn turn_on_and_off() {
    let mut display = Ssd1331::new(Capture::new(), DisplayRotation::Rotate0);
    assert!(display.turn_off().is_ok());
    assert!(display.turn_on().is_ok());
    let capture = display.release();
    assert_eq!(
        capture.ops,
        vec![Op::Low, Op::Write(vec![0xAE]), Op::Low, Op::Write(vec![0xAF])]
    );
}

#[test]
fn turn_on_reports_both_kinds_of_failure() {
    let mut display = Ssd1331::new(Capture::failing_at(0), DisplayRotation::Rotate0);
    assert!(matches!(display.turn_on(), Err(Error::Pin(PinFault(0)))));
    let mut display = Ssd1331::new(Capture::failing_at(1), DisplayRotation::Rotate0);
    assert!(matches!(display.turn_off(), Err(Error::Comm(BusFault(1)))));
}

#[test]
fn draw_iter_skips_pixels_outside_the_picture() {
    let mut display = Ssd1331::new(Capture::new(), DisplayRotation::Rotate0);
    display.draw_iter(&[
        Pixel { x: 0, y: 0, color: 0xF800 },
        Pixel { x: -1, y: 0, color: 0xFFFF },
        Pixel { x: 0, y: -1, color: 0xFFFF },
        Pixel { x: 96, y: 0, color: 0xFFFF },
        Pixel { x: 0, y: 64, color: 0xFFFF },
        Pixel { x: i32::MIN, y: i32::MAX, color: 0xFFFF },
        Pixel { x: 95, y: 63, color: 0x07E0 },
        Pixel { x: 1, y: 0, color: 0x1111 },
        Pixel { x: 1, y: 0, color: 0x001F },
    ]);
    let mut expected = vec![0u8; 12288];
    expected[0] = 0xF8;
    expected[2] = 0x00;
    expected[3] = 0x1F;
    expected[12286] = 0x07;
    expected[12287] = 0xE0;
    assert_eq!(buffer_of(&display), expected);
}

#[test]
fn draw_iter_uses_the_rotated_bounds() {
    let mut display = Ssd1331::new(Capture::new(), DisplayRotation::Rotate90);
    display.draw_iter(&[
        Pixel { x: 64, y: 0, color: 0xFFFF },
        Pixel { x: 95, y: 10, color: 0xFFFF },
        Pixel { x: 0, y: 96, color: 0xFFFF },
        Pixel { x: 63, y: 95, color: 0xA1B2 },
        Pixel { x: 0, y: 64, color: 0x0304 },
    ]);
    let mut expected = vec![0u8; 12288];
    expected[12286] = 0xA1;
    expected[12287] = 0xB2;
    expected[64 * 64 * 2] = 0x03;
    expected[64 * 64 * 2 + 1] = 0x04;
    assert_eq!(buffer_of(&display), expected);
}

#[test]
fn draw_iter_of_nothing_changes_nothing() {
    let mut display = Ssd1331::new(Capture::new(), DisplayRotation::Rotate0);
    display.set_pixel(4, 4, 0x5555);
    let before = buffer_of(&display);
    display.draw_iter(&[]);
    assert_eq!(buffer_of(&display), before);
}

#[test]
fn builder_defaults_to_no_rotation() {
    let display = Builder::new().connect_spi(Capture::new());
    assert_eq!(display.rotation(), DisplayRotation::Rotate0);
    assert_eq!(display.dimensions(), (96, 64));
    assert_eq!(buffer_of(&display), vec![0u8; 12288]);
}

#[test]
fn builder_passes_rotation_on() {
    let builder = Builder::new();
    let display = builder.rotation(DisplayRotation::Rotate90).connect_spi(Capture::new());
    assert_eq!(display.rotation(), DisplayRotation::Rotate90);
    assert_eq!(display.dimensions(), (64, 96));
    let display = builder
        .rotation(DisplayRotation::Rotate90)
        .rotation(DisplayRotation::Rotate180)
        .connect_spi(Capture::new());
    assert_eq!(display.rotation(), DisplayRotation::Rotate180);
    let display = builder.connect_spi(Capture::new());
    assert_eq!(display.rotation(), DisplayRotation::Rotate0);
}

#[test]
fn release_returns_the_interface() {
    let mut display = Ssd1331::new(Capture::failing_at(7), DisplayRotation::Rotate0);
    assert!(display.turn_on().is_ok());
    let capture = display.release();
    assert_eq!(capture.fail_at, Some(7));
    assert_eq!(capture.calls, 2);
}

#[test]
fn reset_pulse_steps() {
    assert_eq!(
        reset_sequence(1),
        [ResetStep::High, ResetStep::Wait(1), ResetStep::Low, ResetStep::Wait(1), ResetStep::High]
    );
    assert_eq!(
        reset_sequence(10),
        [ResetStep::High, ResetStep::Wait(1), ResetStep::Low, ResetStep::Wait(10), ResetStep::High]
    );
}

#[test]
fn results_are_mapped_to_their_kind() {
    let ok: Result<(), Error<u8, char>> = comm_result(Ok(()));
    assert!(matches!(ok, Ok(())));
    let failed: Result<(), Error<u8, char>> = comm_result(Err(7));
    assert!(matches!(failed, Err(Error::Comm(7))));
    let ok: Result<(), Error<u8, char>> = pin_result(Ok(()));
    assert!(matches!(ok, Ok(())));
    let failed: Result<(), Error<u8, char>> = pin_result(Err('x'));
    assert!(matches!(failed, Err(Error::Pin('x'))));
}
