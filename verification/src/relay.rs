//! The relay driver: an inbound and an outbound leg joined inside the
//! module, one pair per core instance.

use vstd::prelude::*;

use crate::config::WATERConfig;
use crate::error::WaterError;
use crate::listener::listen_result;
use crate::runtime::H2O;
use crate::transport::{guest_call_result, interpret_guest_status, WATERTransportTrait};
use crate::v0::V0Config;
use crate::version::Version;

verus! {

pub trait WATERRelayTrait: WATERTransportTrait {
    /// Clear a v0 core for binding the relay's listening socket.
    fn listen(&self) -> (r: Result<(), WaterError>)
        ensures
            r == listen_result(self.core_of()),
    ;

    /// Record the outcome of the module's associate step, which accepts
    /// the inbound leg and dials the outbound one.  A relay exchanges
    /// bytes between its two legs itself, so no byte pipe is set up.
    fn associate(&mut self, guest_status: i32) -> (r: Result<(), WaterError>)
        ensures
            final(self).caller_io_of() == old(self).caller_io_of(),
            final(self).cancel_io_of() == old(self).cancel_io_of(),
            final(self).core_of() == old(self).core_of(),
            r == guest_call_result(guest_status),
    {
        interpret_guest_status(guest_status)
    }
}

/// A relay: a core instance plus the session pipes of the one session it
/// serves before migration.
#[derive(Debug)]
pub struct WATERRelay {
    /// Host-side end of the byte pipe between caller and module.
    pub caller_io: Option<i32>,
    /// Host-side end of the cancel pipe.
    pub cancel_io: Option<i32>,
    /// The module instance this relay drives.
    pub core: H2O,
}

impl WATERTransportTrait for WATERRelay {
    open spec fn caller_io_of(&self) -> Option<i32> {
        self.caller_io
    }

    open spec fn cancel_io_of(&self) -> Option<i32> {
        self.cancel_io
    }

    open spec fn core_of(&self) -> H2O {
        self.core
    }

    fn get_caller_io(&self) -> (r: Option<i32>) {
        self.caller_io
    }

    fn get_cancel_io(&self) -> (r: Option<i32>) {
        self.cancel_io
    }

    fn set_caller_io(&mut self, io: Option<i32>) {
        self.caller_io = io;
    }

    fn set_cancel_io(&mut self, io: Option<i32>) {
        self.cancel_io = io;
    }
}

impl WATERRelayTrait for WATERRelay {
    fn listen(&self) -> (r: Result<(), WaterError>) {
        match &self.core.version {
            Version::V0(oc) => match oc {
                Some(_) => Ok(()),
                None => Err(WaterError::ConfigUnavailable),
            },
            _ => Ok(()),
        }
    }
}

impl WATERRelay {
    /// A fresh relay around a prepared core: no session pipes yet.
    pub fn init(_conf: &WATERConfig, core: H2O) -> (r: Result<Self, WaterError>)
        ensures
            (r matches Ok(s) && s == (WATERRelay {
                caller_io: None,
                cancel_io: None,
                core: core,
            })),
    {
        Ok(WATERRelay { caller_io: None, cancel_io: None, core })
    }

    /// The relay for the next session: a fresh core that takes over the
    /// current role configuration with its session slots unset and the
    /// listening socket kept.
    pub fn migrate_listener(conf: &WATERConfig, core: &H2O, current: &V0Config) -> (r: Result<
        Self,
        WaterError,
    >)
        ensures
            (core.version matches Version::V0(oc) && oc is Some) ==> (r matches Ok(s)
                && s.caller_io is None && s.cancel_io is None && s.core.version == Version::V0(
                Some(current.resetted()),
            )),
            (core.version matches Version::V0(oc) && oc is None) ==> r == Err::<
                Self,
                WaterError,
            >(WaterError::ConfigUnavailable),
            !(core.version is V0) ==> r == Err::<Self, WaterError>(WaterError::InvalidVersion),
    {
        let new_core = H2O::v0_migrate_core(conf, core, current)?;
        WATERRelay::init(conf, new_core)
    }
}

} // verus!
