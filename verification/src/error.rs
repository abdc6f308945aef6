//! Failures of the driver.

use vstd::prelude::*;

verus! {

/// Why the USB layer gave up on a request.
#[derive(Clone, Copy, Debug, PartialEq, Eq, Structural)]
pub enum UsbFault {
    /// Input/output error.
    Io,
    /// Invalid parameter.
    InvalidParam,
    /// Access denied.
    Access,
    /// The device is gone.
    NoDevice,
    /// Entity not found.
    NotFound,
    /// Resource busy.
    Busy,
    /// The transfer timed out.
    Timeout,
    /// The device offered more data than was asked for.
    Overflow,
    /// The endpoint stalled.
    Pipe,
    /// A system call was interrupted.
    Interrupted,
    /// Out of memory.
    NoMem,
    /// Not supported on this platform.
    NotSupported,
    /// Malformed descriptor.
    BadDescriptor,
    /// Anything else, including a reply that does not answer the request
    /// that was pending.
    Other,
}

/// Everything that can go wrong between the caller and the display.
#[derive(Clone, Copy, Debug, PartialEq, Eq, Structural)]
pub enum AX206Error {
    /// A USB request failed. The handle must be discarded.
    UsbError(UsbFault),
    /// No device with the wanted vendor and product id is on the bus.
    DeviceNotFound,
    /// The brightness is outside `0..=7`. Nothing was sent; the handle
    /// stays valid.
    InvalidBrightness(u8),
    /// The display answered with a non-zero status byte. Its state is
    /// unknown; the handle must be discarded.
    ScsiCommandFailed(u8),
}

/// What a completed command amounts to, given the status byte of its
/// status wrapper: success exactly for status zero.
pub open spec fn status_result(status: u8) -> Result<(), AX206Error> {
    if status == 0 {
        Ok(())
    } else {
        Err(AX206Error::ScsiCommandFailed(status))
    }
}

/// Turns a status byte into the result of the command it closes.
pub fn check_status(status: u8) -> (r: Result<(), AX206Error>)
    ensures
        r == status_result(status),
{
    if status == 0 {
        Ok(())
    } else {
        Err(AX206Error::ScsiCommandFailed(status))
    }
}

/// What a finished exchange amounts to: a fault of the USB layer is passed
/// on, a non-zero status byte is a failed command, status zero is success.
pub open spec fn outcome_result(outcome: Result<u8, UsbFault>) -> Result<(), AX206Error> {
    match outcome {
        Ok(status) => status_result(status),
        Err(fault) => Err(AX206Error::UsbError(fault)),
    }
}

/// Turns the outcome of an exchange into the result of the command.
pub fn command_result(outcome: Result<u8, UsbFault>) -> (r: Result<(), AX206Error>)
    ensures
        r == outcome_result(outcome),
{
    match outcome {
        Ok(status) => check_status(status),
        Err(fault) => Err(AX206Error::UsbError(fault)),
    }
}

} // verus!
