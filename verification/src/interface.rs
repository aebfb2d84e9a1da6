//! The connection to the display controller.
//!
//! The controller hangs on a write-only serial bus plus one extra line, data/command select,
//! which tells it whether the bytes on the bus are a command (line low) or pixel data (line
//! high). The driver is generic over anything that offers these three operations.

use vstd::prelude::*;

use crate::error::{comm_result, pin_result, Error};

verus! {

/// An operation on the connection to the controller.
pub enum BusOp {
    /// Drive the data/command line low: what follows is a command.
    DcLow,
    /// Drive the data/command line high: what follows is pixel data.
    DcHigh,
    /// Send a block of bytes over the serial bus.
    Write(Seq<u8>),
}

/// One call on the connection: what was asked of it, and whether it was done.
pub struct BusEvent {
    /// The operation that was asked for.
    pub op: BusOp,
    /// Whether the interface reported success.
    pub done: bool,
}

/// An operation that the interface completed.
pub open spec fn done(op: BusOp) -> BusEvent {
    BusEvent { op, done: true }
}

/// An operation that the interface refused.
pub open spec fn refused(op: BusOp) -> BusEvent {
    BusEvent { op, done: false }
}

/// A method of communicating with the SSD1331.
///
/// Implement this for whatever drives the serial bus and the data/command line. Each
/// operation either completes and returns `Ok`, or fails with the implementation's own
/// error.
pub trait DisplayInterface {
    /// What a failed bus write reports.
    type CommError;

    /// What a failed change of the data/command line reports.
    type PinError;

    /// Send a block of bytes over the serial bus.
    fn write(&mut self, bytes: &[u8]) -> Result<(), Self::CommError>;

    /// Drive the data/command line high: data follows.
    fn set_high(&mut self) -> Result<(), Self::PinError>;

    /// Drive the data/command line low: a command follows.
    fn set_low(&mut self) -> Result<(), Self::PinError>;
}

/// A connection together with its history.
///
/// All traffic to the controller goes through a `Bus`. It hands each operation on to the
/// interface it holds and keeps account of every call and of how it ended: `trace` is that
/// account, oldest first. Nothing else can change it, so what the driver's functions
/// promise about the trace is a promise about the calls they make and about the results
/// they got.
pub struct Bus<DI> {
    interface: DI,
    trace: Ghost<Seq<BusEvent>>,
}

impl<DI: DisplayInterface> Bus<DI> {
    /// Every call made on the interface through this bus, oldest first.
    pub closed spec fn trace(&self) -> Seq<BusEvent> {
        self.trace@
    }

    /// The interface that carries the traffic.
    pub closed spec fn interface(&self) -> DI {
        self.interface
    }

    /// Take charge of an interface. The history starts empty.
    pub fn new(interface: DI) -> (bus: Self)
        ensures
            bus.trace() == Seq::<BusEvent>::empty(),
            bus.interface() == interface,
    {
        Bus { interface, trace: Ghost(Seq::empty()) }
    }

    /// Give the interface back.
    pub fn release(self) -> (interface: DI)
        ensures
            interface == self.interface(),
    {
        self.interface
    }

    /// Send a block of bytes over the serial bus.
    pub fn write(&mut self, bytes: &[u8]) -> (r: Result<(), DI::CommError>)
        ensures
            final(self).trace() == old(self).trace().push(
                BusEvent { op: BusOp::Write(bytes@), done: r is Ok },
            ),
    {
        let r = self.interface.write(bytes);
        proof {
            self.trace@ = self.trace@.push(BusEvent { op: BusOp::Write(bytes@), done: r is Ok });
        }
        r
    }

    /// Drive the data/command line high: data follows.
    pub fn set_high(&mut self) -> (r: Result<(), DI::PinError>)
        ensures
            final(self).trace() == old(self).trace().push(
                BusEvent { op: BusOp::DcHigh, done: r is Ok },
            ),
    {
        let r = self.interface.set_high();
        proof {
            self.trace@ = self.trace@.push(BusEvent { op: BusOp::DcHigh, done: r is Ok });
        }
        r
    }

    /// Drive the data/command line low: a command follows.
    pub fn set_low(&mut self) -> (r: Result<(), DI::PinError>)
        ensures
            final(self).trace() == old(self).trace().push(
                BusEvent { op: BusOp::DcLow, done: r is Ok },
            ),
    {
        let r = self.interface.set_low();
        proof {
            self.trace@ = self.trace@.push(BusEvent { op: BusOp::DcLow, done: r is Ok });
        }
        r
    }

    /// Send the bytes of a command to the display: the data/command line is driven low,
    /// then the bytes are written. Gives up at the first failure.
    pub fn send_commands(&mut self, cmd: &[u8]) -> (r: Result<
        (),
        Error<DI::CommError, DI::PinError>,
    >)
        ensures
            carried_out(
                old(self).trace(),
                final(self).trace(),
                seq![Transfer::Command(cmd@)],
                r,
            ),
    {
        // 1 = data, 0 = command
        self.transfer(false, cmd)
    }

    /// Send data to the display: the data/command line is driven high, then the bytes are
    /// written. Gives up at the first failure.
    pub fn send_data(&mut self, buf: &[u8]) -> (r: Result<(), Error<DI::CommError, DI::PinError>>)
        ensures
            carried_out(old(self).trace(), final(self).trace(), seq![Transfer::Data(buf@)], r),
    {
        // 1 = data, 0 = command
        self.transfer(true, buf)
    }

    /// Carry out one transfer: drive the data/command line to the level that `data` asks
    /// for (high for pixel data, low for a command), then write `bytes`.
    fn transfer(&mut self, data: bool, bytes: &[u8]) -> (r: Result<
        (),
        Error<DI::CommError, DI::PinError>,
    >)
        ensures
            carried_out(
                old(self).trace(),
                final(self).trace(),
                seq![if data { Transfer::Data(bytes@) } else { Transfer::Command(bytes@) }],
                r,
            ),
    {
        let ghost unit = if data {
            Transfer::Data(bytes@)
        } else {
            Transfer::Command(bytes@)
        };
        let ghost before = self.trace();
        let selected = if data {
            self.set_high()
        } else {
            self.set_low()
        };
        proof {
            let calls = script(seq![unit]);
            assert(calls[0] == unit.select());
            assert(calls[1] == BusOp::Write(bytes@));
            assert(before.push(refused(calls[0])) =~= before + run(seq![unit], Some(0int)));
        }
        match pin_result(selected) {
            Ok(_) => {},
            Err(e) => {
                return Err(e);
            },
        }
        let written = self.write(bytes);
        proof {
            let calls = script(seq![unit]);
            let sent = before.push(done(calls[0]));
            assert(sent.push(refused(calls[1])) =~= before + run(seq![unit], Some(1int)));
            assert(sent.push(done(calls[1])) =~= before + run(seq![unit], None));
        }
        comm_result(written)
    }
}

/// One block of bytes handed to the controller, together with what it is.
pub enum Transfer {
    /// The bytes of a command: sent with the data/command line low.
    Command(Seq<u8>),
    /// Pixel data: sent with the data/command line high.
    Data(Seq<u8>),
}

impl Transfer {
    /// The change of the data/command line that goes before the bytes.
    pub open spec fn select(self) -> BusOp {
        match self {
            Transfer::Command(_) => BusOp::DcLow,
            Transfer::Data(_) => BusOp::DcHigh,
        }
    }

    /// The bytes that go out.
    pub open spec fn payload(self) -> Seq<u8> {
        match self {
            Transfer::Command(bytes) => bytes,
            Transfer::Data(bytes) => bytes,
        }
    }
}

/// The calls that carry out a list of transfers: for each transfer in turn, the line is
/// driven to its level and then its bytes are written.
pub open spec fn script(transfers: Seq<Transfer>) -> Seq<BusOp> {
    Seq::new(
        2 * transfers.len(),
        |k: int|
            if k % 2 == 0 {
                transfers[k / 2].select()
            } else {
                BusOp::Write(transfers[k / 2].payload())
            },
    )
}

/// What an attempt to carry out `transfers` leaves in the history. With `failing` at
/// `None` every call of the script is made and done. With `Some(k)` the calls before the
/// one numbered `k` (counted from zero) are made and done, that one is made and refused,
/// and no further call is made.
pub open spec fn run(transfers: Seq<Transfer>, failing: Option<int>) -> Seq<BusEvent> {
    match failing {
        None => Seq::new(2 * transfers.len(), |k: int| done(script(transfers)[k])),
        Some(f) => Seq::new(
            (f + 1) as nat,
            |k: int|
                if k == f {
                    refused(script(transfers)[k])
                } else {
                    done(script(transfers)[k])
                },
        ),
    }
}

/// How an attempt to carry out `transfers` in order, giving up at the first failure, ends,
/// in terms of the connection's history `before` and `after` it.
///
/// * `Ok`: every call was made and done.
/// * `Error::Pin`: a change of the data/command line was refused, and that was the last
///   call made. Line changes are the calls with even numbers.
/// * `Error::Comm`: a write was refused, and that was the last call made. Writes are the
///   calls with odd numbers.
pub open spec fn carried_out<CommE, PinE>(
    before: Seq<BusEvent>,
    after: Seq<BusEvent>,
    transfers: Seq<Transfer>,
    r: Result<(), Error<CommE, PinE>>,
) -> bool {
    match r {
        Ok(_) => after == before + run(transfers, None),
        Err(Error::Pin(_)) => exists|k: int|
            0 <= k < 2 * transfers.len() && k % 2 == 0 && after == before + #[trigger] run(
                transfers,
                Some(k),
            ),
        Err(Error::Comm(_)) => exists|k: int|
            0 <= k < 2 * transfers.len() && k % 2 == 1 && after == before + #[trigger] run(
                transfers,
                Some(k),
            ),
    }
}

/// The history tells how an attempt ended. It went through exactly if every call of the
/// script was made and done. It failed exactly if the last call made was refused, and then
/// the kind of that call is the kind of the error: a line change for `Error::Pin`, a write
/// for `Error::Comm`. Whatever the outcome, no call but the last was refused, and the
/// history from before the attempt is kept.
pub proof fn lemma_outcome_shows<CommE, PinE>(
    before: Seq<BusEvent>,
    after: Seq<BusEvent>,
    transfers: Seq<Transfer>,
    r: Result<(), Error<CommE, PinE>>,
)
    requires
        carried_out(before, after, transfers, r),
    ensures
        before.len() <= after.len() <= before.len() + 2 * transfers.len(),
        after.take(before.len() as int) == before,
        r is Ok <==> after == before + run(transfers, None),
        r is Err <==> after.len() > before.len() && !after.last().done,
        r matches Err(Error::Pin(_)) ==> !(after.last().op is Write),
        r matches Err(Error::Comm(_)) ==> after.last().op is Write,
        forall|j: int| before.len() <= j < after.len() - 1 ==> (#[trigger] after[j]).done,
        forall|j: int|
            before.len() <= j < after.len() ==> (#[trigger] after[j]).op == script(
                transfers,
            )[j - before.len()],
{
    assert(after.take(before.len() as int) =~= before);
    match r {
        Ok(_) => {
            if after.len() > before.len() {
                assert(after.last() == run(transfers, None).last());
            }
        },
        Err(Error::Pin(_)) => {
            let k = choose|k: int|
                0 <= k < 2 * transfers.len() && k % 2 == 0 && after == before + #[trigger] run(
                    transfers,
                    Some(k),
                );
            assert(after.last() == run(transfers, Some(k))[k]);
            if after == before + run(transfers, None) {
                assert(after.last() == run(transfers, None)[2 * transfers.len() - 1]);
            }
        },
        Err(Error::Comm(_)) => {
            let k = choose|k: int|
                0 <= k < 2 * transfers.len() && k % 2 == 1 && after == before + #[trigger] run(
                    transfers,
                    Some(k),
                );
            assert(after.last() == run(transfers, Some(k))[k]);
            if after == before + run(transfers, None) {
                assert(after.last() == run(transfers, None)[2 * transfers.len() - 1]);
            }
        },
    }
}

/// The script of two lists joined is their scripts joined.
pub proof fn lemma_script_concat(first: Seq<Transfer>, second: Seq<Transfer>)
    ensures
        script(first + second) == script(first) + script(second),
{
    let joined = script(first + second);
    let parts = script(first) + script(second);
    assert(joined.len() == parts.len());
    assert forall|k: int| 0 <= k < joined.len() implies joined[k] == parts[k] by {
        if k < 2 * first.len() {
            assert((first + second)[k / 2] == first[k / 2]);
        } else {
            let j = k - 2 * first.len();
            assert(parts[k] == script(second)[j]);
            assert(k / 2 == first.len() + j / 2);
            assert(k % 2 == j % 2);
            assert((first + second)[k / 2] == second[j / 2]);
        }
    }
    assert(joined =~= parts);
}

/// An attempt that failed within the first part of a list failed in the same way within the
/// whole list.
pub proof fn lemma_failed_early<CommE, PinE>(
    before: Seq<BusEvent>,
    after: Seq<BusEvent>,
    first: Seq<Transfer>,
    rest: Seq<Transfer>,
    r: Result<(), Error<CommE, PinE>>,
)
    requires
        r is Err,
        carried_out(before, after, first, r),
    ensures
        carried_out(before, after, first + rest, r),
{
    lemma_script_concat(first, rest);
    let k = choose|k: int|
        0 <= k < 2 * first.len() && after == before + #[trigger] run(first, Some(k)) && (k % 2
            == 0 <==> r matches Err(Error::Pin(_)));
    assert(run(first + rest, Some(k)) =~= run(first, Some(k)));
}

/// An attempt on the first part of a list that went through, followed by an attempt on the
/// rest, is an attempt on the whole list with the outcome of the second.
pub proof fn lemma_continued<CommE, PinE>(
    before: Seq<BusEvent>,
    between: Seq<BusEvent>,
    after: Seq<BusEvent>,
    first: Seq<Transfer>,
    rest: Seq<Transfer>,
    r: Result<(), Error<CommE, PinE>>,
)
    requires
        between == before + run(first, None),
        carried_out(between, after, rest, r),
    ensures
        carried_out(before, after, first + rest, r),
{
    lemma_script_concat(first, rest);
    let whole = first + rest;
    if r is Ok {
        assert(run(whole, None) =~= run(first, None) + run(rest, None));
        assert(before + run(first, None) + run(rest, None) =~= before + (run(first, None) + run(
            rest,
            None,
        )));
    } else {
        let k = choose|k: int|
            0 <= k < 2 * rest.len() && after == between + #[trigger] run(rest, Some(k)) && (k % 2
                == 0 <==> r matches Err(Error::Pin(_)));
        let m = 2 * first.len() + k;
        assert(run(whole, Some(m)) =~= run(first, None) + run(rest, Some(k)));
        assert(before + run(first, None) + run(rest, Some(k)) =~= before + (run(first, None)
            + run(rest, Some(k))));
        assert(m % 2 == k % 2);
    }
}

} // verus!
