//! Bringing the controller up.
//!
//! After power-on the controller is first reset through its reset line and then configured
//! by a fixed list of commands. The order of that list is the controller's power sequence
//! and may not be changed.

use vstd::prelude::*;

use crate::command::{commands, send_all, Command, VcomhLevel};
use crate::displayrotation::DisplayRotation;
use crate::error::Error;
use crate::interface::{carried_out, done, run, script, Bus, BusEvent, BusOp, DisplayInterface};
use crate::DISPLAY_HEIGHT;

verus! {

/// The commands that bring the controller from reset to a running display, in the order in
/// which the controller needs them: display off, clock, multiplex ratio, start line,
/// display offset, orientation, contrast, pre-charge, VCOMH level, picture from memory,
/// not inverted, display on.
///
/// `oscillator` is the frequency setting of the display clock; the orientation is that of
/// `rotation`.
pub open spec fn init_commands(oscillator: u8, rotation: DisplayRotation) -> Seq<Command> {
    seq![
        Command::DisplayOn(false),
        Command::DisplayClockDiv(oscillator, 0x0),
        Command::Multiplex((DISPLAY_HEIGHT - 1) as u8),
        Command::StartLine(0),
        Command::DisplayOffset(0),
        rotation.spec_remap(),
        Command::Contrast(0x91, 0x50, 0x7D),
        Command::PreChargePeriod(0x1, 0xF),
        Command::VcomhDeselect(VcomhLevel::V071),
        Command::AllOn(false),
        Command::Invert(false),
        Command::DisplayOn(true),
    ]
}

/// The opcodes of the initialisation, in the order in which they are sent.
pub open spec fn init_opcodes() -> Seq<u8> {
    seq![0xAEu8, 0xB3, 0xA8, 0xA1, 0xA2, 0xA0, 0x81, 0x3E, 0xBE, 0xA6, 0xA4, 0xAF]
}

/// Whatever the orientation and the clock setting, the initialisation is the same twelve
/// opcodes in the same order.
pub proof fn lemma_init_order(oscillator: u8, rotation: DisplayRotation)
    ensures
        init_commands(oscillator, rotation).len() == 12,
        init_commands(oscillator, rotation).map_values(|c: Command| c.opcode())
            == init_opcodes(),
{
    let cmds = init_commands(oscillator, rotation);
    assert(cmds[5].opcode() == 0xA0);
    assert(cmds.map_values(|c: Command| c.opcode()) =~= init_opcodes());
}

/// An initialisation that went through shows in the history as twelve commands and
/// nothing else: twelve times the data/command line is driven low and a block is written,
/// every call is done, and the blocks begin with the twelve opcodes in their order. This
/// holds for every orientation and clock setting and whatever the connection carried
/// before.
pub proof fn lemma_init_trace(
    before: Seq<BusEvent>,
    after: Seq<BusEvent>,
    oscillator: u8,
    rotation: DisplayRotation,
)
    requires
        after == before + run(commands(init_commands(oscillator, rotation)), None),
    ensures
        after.len() == before.len() + 24,
        after.take(before.len() as int) == before,
        forall|k: int|
            0 <= k < 12 ==> #[trigger] after[before.len() + 2 * k] == done(BusOp::DcLow),
        forall|k: int|
            0 <= k < 12 ==> #[trigger] after[before.len() + 2 * k + 1] == done(
                BusOp::Write(init_commands(oscillator, rotation)[k].bytes()),
            ),
        forall|k: int|
            0 <= k < 12 ==> #[trigger] init_commands(oscillator, rotation)[k].bytes()[0]
                == init_opcodes()[k],
{
    let cmds = init_commands(oscillator, rotation);
    let calls = script(commands(cmds));
    let events = run(commands(cmds), None);
    lemma_init_order(oscillator, rotation);
    assert(after.take(before.len() as int) =~= before);
    assert forall|k: int| 0 <= k < 12 implies #[trigger] after[before.len() + 2 * k] == done(
        BusOp::DcLow,
    ) by {
        assert(after[before.len() + 2 * k] == events[2 * k]);
        assert(events[2 * k] == done(calls[2 * k]));
        assert((2 * k) / 2 == k);
    }
    assert forall|k: int| 0 <= k < 12 implies #[trigger] after[before.len() + 2 * k + 1] == done(
        BusOp::Write(cmds[k].bytes()),
    ) by {
        assert(after[before.len() + 2 * k + 1] == events[2 * k + 1]);
        assert(events[2 * k + 1] == done(calls[2 * k + 1]));
        assert((2 * k + 1) / 2 == k);
    }
    assert forall|k: int| 0 <= k < 12 implies #[trigger] cmds[k].bytes()[0] == init_opcodes()[k] by {
        assert(cmds.map_values(|c: Command| c.opcode())[k] == cmds[k].opcode());
    }
}

/// The initialisation as a list of commands.
pub fn init_sequence(oscillator: u8, rotation: DisplayRotation) -> (sequence: [Command; 12])
    ensures
        sequence@ == init_commands(oscillator, rotation),
{
    let sequence = [
        Command::DisplayOn(false),
        Command::DisplayClockDiv(oscillator, 0x0),
        Command::Multiplex(DISPLAY_HEIGHT - 1),
        Command::StartLine(0),
        Command::DisplayOffset(0),
        rotation.remap(),
        // Contrast and timing as the panel's maker recommends them
        Command::Contrast(0x91, 0x50, 0x7D),
        Command::PreChargePeriod(0x1, 0xF),
        Command::VcomhDeselect(VcomhLevel::V071),
        Command::AllOn(false),
        Command::Invert(false),
        Command::DisplayOn(true),
    ];
    assert(sequence@ =~= init_commands(oscillator, rotation));
    sequence
}

/// Send the initialisation, stopping at the first failure.
pub fn initialise<DI: DisplayInterface>(
    bus: &mut Bus<DI>,
    oscillator: u8,
    rotation: DisplayRotation,
) -> (r: Result<(), Error<DI::CommError, DI::PinError>>)
    ensures
        carried_out(
            old(bus).trace(),
            final(bus).trace(),
            commands(init_commands(oscillator, rotation)),
            r,
        ),
{
    let sequence = init_sequence(oscillator, rotation);
    send_all(sequence.as_slice(), bus)
}

/// One step of the reset pulse.
#[derive(Clone, Copy, Debug, PartialEq, Eq, Structural)]
pub enum ResetStep {
    /// Drive the reset line high.
    High,
    /// Drive the reset line low.
    Low,
    /// Wait for this many milliseconds.
    Wait(u8),
}

/// The reset pulse with a low phase of the given length.
pub open spec fn reset_pulse(low_ms: u8) -> Seq<ResetStep> {
    seq![
        ResetStep::High,
        ResetStep::Wait(1),
        ResetStep::Low,
        ResetStep::Wait(low_ms),
        ResetStep::High,
    ]
}

/// The steps that reset the controller, to be carried out in order before the
/// initialisation: reset line high, wait 1 ms, low, wait `low_ms`, high again.
///
/// The controller needs every wait to last at least a millisecond.
pub fn reset_sequence(low_ms: u8) -> (steps: [ResetStep; 5])
    requires
        low_ms >= 1,
    ensures
        steps@ == reset_pulse(low_ms),
{
    let steps = [
        ResetStep::High,
        ResetStep::Wait(1),
        ResetStep::Low,
        ResetStep::Wait(low_ms),
        ResetStep::High,
    ];
    assert(steps@ =~= reset_pulse(low_ms));
    steps
}

} // verus!
