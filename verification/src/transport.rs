//! Behaviour every role driver shares: the byte pipe to the caller, the
//! cancel pipe, and the interpretation of guest return codes.
//!
//! A driver holds at most one host-side byte-pipe end (`caller_io`) and at
//! most one host-side cancel-pipe end (`cancel_io`), both as plain
//! descriptors.  The pipes themselves, and every guest call, live outside
//! this crate; the driver records which descriptors exist and says which
//! one each operation uses.

use vstd::prelude::*;

use crate::error::WaterError;
use crate::runtime::H2O;

verus! {

/// How a session-level guest entry point reports failure: any negative
/// return is fatal for the session.
pub open spec fn guest_call_result(status: i32) -> Result<(), WaterError> {
    if status >= 0 {
        Ok(())
    } else {
        Err(WaterError::GuestError(status))
    }
}

/// How the cancel-pipe handshake reports failure: any nonzero return is
/// fatal.
pub open spec fn cancel_call_result(status: i32) -> Result<(), WaterError> {
    if status == 0 {
        Ok(())
    } else {
        Err(WaterError::GuestError(status))
    }
}

/// Interpret a session-level guest return code.
pub fn interpret_guest_status(status: i32) -> (r: Result<(), WaterError>)
    ensures
        r == guest_call_result(status),
{
    if status >= 0 {
        Ok(())
    } else {
        Err(WaterError::GuestError(status))
    }
}

pub trait WATERTransportTrait: Sized {
    /// The host-side end of the byte pipe, once one is set up.
    spec fn caller_io_of(&self) -> Option<i32>;

    /// The host-side end of the cancel pipe, once one is set up.
    spec fn cancel_io_of(&self) -> Option<i32>;

    /// The core instance this driver drives.
    spec fn core_of(&self) -> H2O;

    fn get_caller_io(&self) -> (r: Option<i32>)
        ensures
            r == self.caller_io_of(),
    ;

    fn get_cancel_io(&self) -> (r: Option<i32>)
        ensures
            r == self.cancel_io_of(),
    ;

    fn set_caller_io(&mut self, io: Option<i32>)
        ensures
            final(self).caller_io_of() == io,
            final(self).cancel_io_of() == old(self).cancel_io_of(),
            final(self).core_of() == old(self).core_of(),
    ;

    fn set_cancel_io(&mut self, io: Option<i32>)
        ensures
            final(self).cancel_io_of() == io,
            final(self).caller_io_of() == old(self).caller_io_of(),
            final(self).core_of() == old(self).core_of(),
    ;

    /// Where the caller's next read comes from: the host-side byte-pipe
    /// end, which must have been set up by connect or accept.
    fn read(&self) -> (r: Result<i32, WaterError>)
        ensures
            r == (match self.caller_io_of() {
                Some(fd) => Ok::<i32, WaterError>(fd),
                None => Err::<i32, WaterError>(WaterError::NoCallerIo),
            }),
    {
        match self.get_caller_io() {
            Some(fd) => Ok(fd),
            None => Err(WaterError::NoCallerIo),
        }
    }

    /// Where the caller's next write goes: the same byte-pipe end.
    fn write(&self) -> (r: Result<i32, WaterError>)
        ensures
            r == (match self.caller_io_of() {
                Some(fd) => Ok::<i32, WaterError>(fd),
                None => Err::<i32, WaterError>(WaterError::NoCallerIo),
            }),
    {
        match self.get_caller_io() {
            Some(fd) => Ok(fd),
            None => Err(WaterError::NoCallerIo),
        }
    }

    /// Arm cancellation: record the host-side cancel-pipe end after its
    /// guest-side end was handed to the module, and interpret the guest's
    /// answer.  The cancel pipe is recorded even when the guest refuses,
    /// mirroring that the handshake happens after the hand-off.
    fn cancel_with(&mut self, cancel_io: i32, guest_status: i32) -> (r: Result<(), WaterError>)
        ensures
            final(self).cancel_io_of() == Some(cancel_io),
            final(self).caller_io_of() == old(self).caller_io_of(),
            final(self).core_of() == old(self).core_of(),
            r == cancel_call_result(guest_status),
    {
        self.set_cancel_io(Some(cancel_io));
        if guest_status == 0 {
            Ok(())
        } else {
            Err(WaterError::GuestError(guest_status))
        }
    }

    /// Where the cancellation byte goes: the host-side cancel-pipe end.
    /// Cancellation is possible exactly when `cancel_with` has armed it.
    fn cancel(&self) -> (r: Result<i32, WaterError>)
        ensures
            r == (match self.cancel_io_of() {
                Some(fd) => Ok::<i32, WaterError>(fd),
                None => Err::<i32, WaterError>(WaterError::NoCancelIo),
            }),
    {
        match self.get_cancel_io() {
            Some(fd) => Ok(fd),
            None => Err(WaterError::NoCancelIo),
        }
    }
}

} // verus!
