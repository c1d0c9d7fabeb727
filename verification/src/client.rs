//! The client facade: one object dispatching the caller's requests to the
//! role driver behind it, refusing a request the current role cannot take.

use vstd::prelude::*;

use crate::config::{WATERConfig, WaterBinType};
use crate::error::WaterError;
use crate::listener::{listen_result, WATERListener, WATERListenerTrait};
use crate::relay::{WATERRelay, WATERRelayTrait};
use crate::runner::WATERRunner;
use crate::runtime::H2O;
use crate::stream::{WATERStream, WATERStreamTrait};
use crate::transport::{cancel_call_result, guest_call_result, WATERTransportTrait};
use crate::v0::V0Config;
use crate::version::Version;

verus! {

/// The concrete driver behind a client, one variant per role.
#[derive(Debug)]
pub enum WATERClientType {
    Dialer(WATERStream),
    Listener(WATERListener),
    Relay(WATERRelay),
    Runner(WATERRunner),
}

/// The client a caller holds: the loaded configuration and the driver for
/// the role it asked for.
#[derive(Debug)]
pub struct WATERClient {
    pub debug: bool,
    pub config: WATERConfig,
    pub stream: WATERClientType,
}

/// The client built for a configuration and a prepared core: a dialer or
/// listener for a v0 or v1 module, a relay only for v0, a runner for any
/// accepted module.  Wrapper and unknown client types are refused.
pub open spec fn new_client(conf: WATERConfig, core: H2O) -> Result<WATERClient, WaterError> {
    match conf.client_type {
        WaterBinType::Dial => match core.version {
            Version::V0(_) | Version::V1 => Ok(
                WATERClient {
                    debug: false,
                    config: conf,
                    stream: WATERClientType::Dialer(
                        WATERStream { caller_io: None, cancel_io: None, core: core },
                    ),
                },
            ),
            _ => Err(WaterError::InvalidVersion),
        },
        WaterBinType::Listen => match core.version {
            Version::V0(_) | Version::V1 => Ok(
                WATERClient {
                    debug: false,
                    config: conf,
                    stream: WATERClientType::Listener(
                        WATERListener { caller_io: None, cancel_io: None, core: core },
                    ),
                },
            ),
            _ => Err(WaterError::InvalidVersion),
        },
        WaterBinType::Relay => match core.version {
            Version::V0(_) => Ok(
                WATERClient {
                    debug: false,
                    config: conf,
                    stream: WATERClientType::Relay(
                        WATERRelay { caller_io: None, cancel_io: None, core: core },
                    ),
                },
            ),
            _ => Err(WaterError::InvalidVersion),
        },
        WaterBinType::Runner => Ok(
            WATERClient {
                debug: false,
                config: conf,
                stream: WATERClientType::Runner(WATERRunner { core: core }),
            },
        ),
        _ => Err(WaterError::InvalidClientType),
    }
}

impl WATERClient {
    /// Build the client for a prepared core, picking the driver that fits
    /// the requested role and the module's version.
    pub fn new(conf: WATERConfig, core: H2O) -> (r: Result<Self, WaterError>)
        ensures
            r == new_client(conf, core),
    {
        match conf.client_type {
            WaterBinType::Dial => match &core.version {
                Version::V0(_) | Version::V1 => {
                    let stream = WATERStream::init(&conf, core)?;
                    Ok(WATERClient {
                        debug: false,
                        config: conf,
                        stream: WATERClientType::Dialer(stream),
                    })
                },
                _ => Err(WaterError::InvalidVersion),
            },
            WaterBinType::Listen => match &core.version {
                Version::V0(_) | Version::V1 => {
                    let listener = WATERListener::init(&conf, core)?;
                    Ok(WATERClient {
                        debug: false,
                        config: conf,
                        stream: WATERClientType::Listener(listener),
                    })
                },
                _ => Err(WaterError::InvalidVersion),
            },
            WaterBinType::Relay => match &core.version {
                Version::V0(_) => {
                    let relay = WATERRelay::init(&conf, core)?;
                    Ok(WATERClient {
                        debug: false,
                        config: conf,
                        stream: WATERClientType::Relay(relay),
                    })
                },
                _ => Err(WaterError::InvalidVersion),
            },
            WaterBinType::Runner => {
                let runner = WATERRunner::init(&conf, core)?;
                Ok(WATERClient {
                    debug: false,
                    config: conf,
                    stream: WATERClientType::Runner(runner),
                })
            },
            _ => Err(WaterError::InvalidClientType),
        }
    }

    /// A client for the next inbound session: only a listener or relay
    /// can keep listening; its fresh driver takes over the current role
    /// configuration with the session slots unset and the listening
    /// socket kept, so every session meets a sandbox without leftover
    /// state.
    pub fn keep_listen(&self, current: &V0Config) -> (r: Result<WATERClient, WaterError>)
        ensures
            self.stream matches WATERClientType::Listener(l) ==> (match l.core.version {
                Version::V0(Some(_)) => (r matches Ok(c) && c.debug == self.debug
                    && c.config == self.config && (c.stream matches WATERClientType::Listener(nl)
                    && nl.caller_io is None && nl.cancel_io is None && nl.core.version
                    == Version::V0(Some(current.resetted())))),
                Version::V0(None) => r == Err::<WATERClient, WaterError>(
                    WaterError::ConfigUnavailable,
                ),
                _ => r == Err::<WATERClient, WaterError>(WaterError::InvalidVersion),
            }),
            self.stream matches WATERClientType::Relay(rl) ==> (match rl.core.version {
                Version::V0(Some(_)) => (r matches Ok(c) && c.debug == self.debug
                    && c.config == self.config && (c.stream matches WATERClientType::Relay(nr)
                    && nr.caller_io is None && nr.cancel_io is None && nr.core.version
                    == Version::V0(Some(current.resetted())))),
                Version::V0(None) => r == Err::<WATERClient, WaterError>(
                    WaterError::ConfigUnavailable,
                ),
                _ => r == Err::<WATERClient, WaterError>(WaterError::InvalidVersion),
            }),
            (self.stream is Dialer || self.stream is Runner) ==> r == Err::<
                WATERClient,
                WaterError,
            >(WaterError::NotListener),
    {
        match &self.stream {
            WATERClientType::Listener(listener) => {
                let migrated = WATERListener::migrate_listener(&self.config, &listener.core, current)?;
                Ok(WATERClient {
                    debug: self.debug,
                    config: self.config.clone(),
                    stream: WATERClientType::Listener(migrated),
                })
            },
            WATERClientType::Relay(relay) => {
                let migrated = WATERRelay::migrate_listener(&self.config, &relay.core, current)?;
                Ok(WATERClient {
                    debug: self.debug,
                    config: self.config.clone(),
                    stream: WATERClientType::Relay(migrated),
                })
            },
            _ => Err(WaterError::NotListener),
        }
    }

    /// Switch debug mode; nothing else changes.
    pub fn set_debug(&mut self, debug: bool)
        ensures
            final(self).debug == debug,
            final(self).config == old(self).config,
            final(self).stream == old(self).stream,
    {
        self.debug = debug;
    }

    /// Record the outcome of dialing: only a dialer connects.
    pub fn connect(&mut self, caller_io: i32, guest_status: i32) -> (r: Result<(), WaterError>)
        ensures
            old(self).stream matches WATERClientType::Dialer(d) ==> (final(self).stream
                matches WATERClientType::Dialer(nd) && nd.caller_io == Some(caller_io)
                && nd.cancel_io == d.cancel_io && nd.core == d.core && r == guest_call_result(
                guest_status,
            )),
            !(old(self).stream is Dialer) ==> *final(self) == *old(self) && r == Err::<
                (),
                WaterError,
            >(WaterError::NotDialer),
            final(self).debug == old(self).debug,
            final(self).config == old(self).config,
    {
        match &mut self.stream {
            WATERClientType::Dialer(dialer) => dialer.connect(caller_io, guest_status),
            _ => Err(WaterError::NotDialer),
        }
    }

    /// Clear the driver for binding its listening socket: only a listener
    /// or relay listens, and a v0 one must carry its role configuration.
    pub fn listen(&mut self) -> (r: Result<(), WaterError>)
        ensures
            *final(self) == *old(self),
            old(self).stream matches WATERClientType::Listener(l) ==> r == listen_result(l.core),
            old(self).stream matches WATERClientType::Relay(rl) ==> r == listen_result(rl.core),
            (old(self).stream is Dialer || old(self).stream is Runner) ==> r == Err::<
                (),
                WaterError,
            >(WaterError::NotListener),
    {
        match &mut self.stream {
            WATERClientType::Listener(listener) => listener.listen(),
            WATERClientType::Relay(relay) => relay.listen(),
            _ => Err(WaterError::NotListener),
        }
    }

    /// Record the outcome of the module's associate step: only a relay
    /// associates.
    pub fn associate(&mut self, guest_status: i32) -> (r: Result<(), WaterError>)
        ensures
            *final(self) == *old(self),
            old(self).stream is Relay ==> r == guest_call_result(guest_status),
            !(old(self).stream is Relay) ==> r == Err::<(), WaterError>(WaterError::NotRelay),
    {
        match &mut self.stream {
            WATERClientType::Relay(relay) => relay.associate(guest_status),
            _ => Err(WaterError::NotRelay),
        }
    }

    /// Record the outcome of accepting: only a listener accepts.
    pub fn accept(&mut self, caller_io: i32, guest_status: i32) -> (r: Result<(), WaterError>)
        ensures
            old(self).stream matches WATERClientType::Listener(l) ==> (final(self).stream
                matches WATERClientType::Listener(nl) && nl.caller_io == Some(caller_io)
                && nl.cancel_io == l.cancel_io && nl.core == l.core && r == guest_call_result(
                guest_status,
            )),
            !(old(self).stream is Listener) ==> *final(self) == *old(self) && r == Err::<
                (),
                WaterError,
            >(WaterError::NotListener),
            final(self).debug == old(self).debug,
            final(self).config == old(self).config,
    {
        match &mut self.stream {
            WATERClientType::Listener(listener) => listener.accept(caller_io, guest_status),
            _ => Err(WaterError::NotListener),
        }
    }

    /// Clear the client for spawning the worker thread: every role but a
    /// runner runs the worker entry through this call.
    pub fn run_worker(&self) -> (r: Result<(), WaterError>)
        ensures
            !(self.stream is Runner) ==> r == Ok::<(), WaterError>(()),
            self.stream is Runner ==> r == Err::<(), WaterError>(WaterError::UnsupportedClient),
    {
        match &self.stream {
            WATERClientType::Runner(_) => Err(WaterError::UnsupportedClient),
            _ => Ok(()),
        }
    }

    /// Arm cancellation on the active driver; a runner has no cancel
    /// pipe.
    pub fn cancel_with(&mut self, cancel_io: i32, guest_status: i32) -> (r: Result<
        (),
        WaterError,
    >)
        ensures
            old(self).stream matches WATERClientType::Dialer(d) ==> (final(self).stream
                matches WATERClientType::Dialer(nd) && nd.cancel_io == Some(cancel_io)
                && nd.caller_io == d.caller_io && nd.core == d.core && r == cancel_call_result(
                guest_status,
            )),
            old(self).stream matches WATERClientType::Listener(l) ==> (final(self).stream
                matches WATERClientType::Listener(nl) && nl.cancel_io == Some(cancel_io)
                && nl.caller_io == l.caller_io && nl.core == l.core && r == cancel_call_result(
                guest_status,
            )),
            old(self).stream matches WATERClientType::Relay(rl) ==> (final(self).stream
                matches WATERClientType::Relay(nr) && nr.cancel_io == Some(cancel_io)
                && nr.caller_io == rl.caller_io && nr.core == rl.core && r == cancel_call_result(
                guest_status,
            )),
            old(self).stream is Runner ==> *final(self) == *old(self) && r == Err::<
                (),
                WaterError,
            >(WaterError::UnsupportedClient),
            final(self).debug == old(self).debug,
            final(self).config == old(self).config,
    {
        match &mut self.stream {
            WATERClientType::Dialer(dialer) => dialer.cancel_with(cancel_io, guest_status),
            WATERClientType::Listener(listener) => listener.cancel_with(cancel_io, guest_status),
            WATERClientType::Relay(relay) => relay.cancel_with(cancel_io, guest_status),
            _ => Err(WaterError::UnsupportedClient),
        }
    }

    /// Where the cancellation byte goes.  Cancellation reaches the worker
    /// exactly when `cancel_with` armed the cancel pipe earlier.
    pub fn cancel(&self) -> (r: Result<i32, WaterError>)
        ensures
            self.stream matches WATERClientType::Dialer(d) ==> r == (match d.cancel_io {
                Some(fd) => Ok::<i32, WaterError>(fd),
                None => Err::<i32, WaterError>(WaterError::NoCancelIo),
            }),
            self.stream matches WATERClientType::Listener(l) ==> r == (match l.cancel_io {
                Some(fd) => Ok::<i32, WaterError>(fd),
                None => Err::<i32, WaterError>(WaterError::NoCancelIo),
            }),
            self.stream matches WATERClientType::Relay(rl) ==> r == (match rl.cancel_io {
                Some(fd) => Ok::<i32, WaterError>(fd),
                None => Err::<i32, WaterError>(WaterError::NoCancelIo),
            }),
            self.stream is Runner ==> r == Err::<i32, WaterError>(WaterError::UnsupportedClient),
    {
        match &self.stream {
            WATERClientType::Dialer(dialer) => dialer.cancel(),
            WATERClientType::Listener(listener) => listener.cancel(),
            WATERClientType::Relay(relay) => relay.cancel(),
            _ => Err(WaterError::UnsupportedClient),
        }
    }

    /// Where the caller's next read comes from: the byte pipe of a dialer
    /// or listener session.
    pub fn read(&self) -> (r: Result<i32, WaterError>)
        ensures
            self.stream matches WATERClientType::Dialer(d) ==> r == (match d.caller_io {
                Some(fd) => Ok::<i32, WaterError>(fd),
                None => Err::<i32, WaterError>(WaterError::NoCallerIo),
            }),
            self.stream matches WATERClientType::Listener(l) ==> r == (match l.caller_io {
                Some(fd) => Ok::<i32, WaterError>(fd),
                None => Err::<i32, WaterError>(WaterError::NoCallerIo),
            }),
            (self.stream is Relay || self.stream is Runner) ==> r == Err::<i32, WaterError>(
                WaterError::UnsupportedClient,
            ),
    {
        match &self.stream {
            WATERClientType::Dialer(dialer) => dialer.read(),
            WATERClientType::Listener(listener) => listener.read(),
            _ => Err(WaterError::UnsupportedClient),
        }
    }

    /// Where the caller's next write goes: the byte pipe of a dialer or
    /// listener session.
    pub fn write(&self) -> (r: Result<i32, WaterError>)
        ensures
            self.stream matches WATERClientType::Dialer(d) ==> r == (match d.caller_io {
                Some(fd) => Ok::<i32, WaterError>(fd),
                None => Err::<i32, WaterError>(WaterError::NoCallerIo),
            }),
            self.stream matches WATERClientType::Listener(l) ==> r == (match l.caller_io {
                Some(fd) => Ok::<i32, WaterError>(fd),
                None => Err::<i32, WaterError>(WaterError::NoCallerIo),
            }),
            (self.stream is Relay || self.stream is Runner) ==> r == Err::<i32, WaterError>(
                WaterError::UnsupportedClient,
            ),
    {
        match &self.stream {
            WATERClientType::Dialer(dialer) => dialer.write(),
            WATERClientType::Listener(listener) => listener.write(),
            _ => Err(WaterError::UnsupportedClient),
        }
    }
}

} // verus!
