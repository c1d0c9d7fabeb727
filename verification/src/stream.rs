//! The dialer driver: one outbound session through the module.

use vstd::prelude::*;

use crate::config::WATERConfig;
use crate::error::WaterError;
use crate::runtime::H2O;
use crate::transport::{guest_call_result, interpret_guest_status, WATERTransportTrait};

verus! {

pub trait WATERStreamTrait: WATERTransportTrait {
    /// Record the outcome of dialing through the module: the host-side
    /// byte-pipe end is kept (its guest side was handed to the module
    /// before the guest's dial entry ran), and the guest's return code
    /// decides whether the session is usable.
    fn connect(&mut self, caller_io: i32, guest_status: i32) -> (r: Result<(), WaterError>)
        ensures
            final(self).caller_io_of() == Some(caller_io),
            final(self).cancel_io_of() == old(self).cancel_io_of(),
            final(self).core_of() == old(self).core_of(),
            r == guest_call_result(guest_status),
    {
        self.set_caller_io(Some(caller_io));
        interpret_guest_status(guest_status)
    }
}

/// A dialer: a core instance plus the session pipes.
#[derive(Debug)]
pub struct WATERStream {
    /// Host-side end of the byte pipe between caller and module.
    pub caller_io: Option<i32>,
    /// Host-side end of the cancel pipe.
    pub cancel_io: Option<i32>,
    /// The module instance this dialer drives.
    pub core: H2O,
}

impl WATERTransportTrait for WATERStream {
    open spec fn caller_io_of(&self) -> Option<i32> {
        self.caller_io
    }

    open spec fn cancel_io_of(&self) -> Option<i32> {
        self.cancel_io
    }

    open spec fn core_of(&self) -> H2O {
        self.core
    }

    fn get_caller_io(&self) -> (r: Option<i32>) {
        self.caller_io
    }

    fn get_cancel_io(&self) -> (r: Option<i32>) {
        self.cancel_io
    }

    fn set_caller_io(&mut self, io: Option<i32>) {
        self.caller_io = io;
    }

    fn set_cancel_io(&mut self, io: Option<i32>) {
        self.cancel_io = io;
    }
}

impl WATERStreamTrait for WATERStream {
}

impl WATERStream {
    /// A fresh dialer around a prepared core: no session pipes yet.
    pub fn init(_conf: &WATERConfig, core: H2O) -> (r: Result<Self, WaterError>)
        ensures
            (r matches Ok(s) && s == (WATERStream {
                caller_io: None,
                cancel_io: None,
                core: core,
            })),
    {
        Ok(WATERStream { caller_io: None, cancel_io: None, core })
    }
}

} // verus!
