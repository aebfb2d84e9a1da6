//! Errors reported by the driver.

use vstd::prelude::*;

verus! {

/// The two ways an operation on the display can fail.
///
/// Both error types `CommE` and `PinE` default to `()`.
#[derive(Debug)]
pub enum Error<CommE = (), PinE = ()> {
    /// Communication error: the serial bus refused a write.
    Comm(CommE),
    /// Pin setting error: the data/command line could not be driven.
    Pin(PinE),
}

/// Turns the outcome of a bus write into the driver's result type.
pub fn comm_result<CommE, PinE>(outcome: Result<(), CommE>) -> (r: Result<(), Error<CommE, PinE>>)
    ensures
        r == (match outcome {
            Ok(_) => Ok::<(), Error<CommE, PinE>>(()),
            Err(e) => Err(Error::Comm(e)),
        }),
{
    match outcome {
        Ok(_) => Ok(()),
        Err(e) => Err(Error::Comm(e)),
    }
}

/// Turns the outcome of driving the data/command line into the driver's result type.
pub fn pin_result<CommE, PinE>(outcome: Result<(), PinE>) -> (r: Result<(), Error<CommE, PinE>>)
    ensures
        r == (match outcome {
            Ok(_) => Ok::<(), Error<CommE, PinE>>(()),
            Err(e) => Err(Error::Pin(e)),
        }),
{
    match outcome {
        Ok(_) => Ok(()),
        Err(e) => Err(Error::Pin(e)),
    }
}

} // verus!
