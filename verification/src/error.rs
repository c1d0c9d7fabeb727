//! Errors the host runtime reports to its caller.

use vstd::prelude::*;

verus! {

/// Every failure the runtime distinguishes.
///
/// The kinds fall into the groups the design recognises: module rejection
/// (`ModuleVersionNotFound`, `InvalidVersion`, `ConfigUnavailable`), role
/// misuse (`InvalidClientType`, `NotDialer`, `NotListener`, `NotRelay`,
/// `NotRunner`, `RelayAlreadyConnected`, `ListenerAlreadyAccepted`,
/// `InvalidFd`), a guest function returning a failure code (`GuestError`),
/// missing session plumbing (`NoCallerIo`, `NoCancelIo`), and a malformed
/// wire record (`MalformedRecord`) or file name (`InvalidFileName`).
#[derive(Debug, Clone, Copy, PartialEq, Eq, Structural)]
pub enum WaterError {
    /// The module exports no recognised version tag.
    ModuleVersionNotFound,
    /// The module's version does not support the requested role.
    InvalidVersion,
    /// The requested client type is not supported.
    InvalidClientType,
    /// A v0 core was built without its role configuration.
    ConfigUnavailable,
    /// The method is only valid on a dialer.
    NotDialer,
    /// The method is only valid on a listener.
    NotListener,
    /// The method is only valid on a relay.
    NotRelay,
    /// The current client type does not support the method.
    UnsupportedClient,
    /// A relay session already holds a dialed connection.
    RelayAlreadyConnected,
    /// A listener or relay session already holds an accepted connection.
    ListenerAlreadyAccepted,
    /// A guest entry point returned this failure code.
    GuestError(i32),
    /// No byte pipe to the sandbox has been set up.
    NoCallerIo,
    /// No cancel pipe to the sandbox has been set up.
    NoCancelIo,
    /// A descriptor handed to the runtime is negative.
    InvalidFd,
    /// A tunnel endpoint has no connection attached.
    NoConnection,
    /// A tunnel has no encoder set.
    NoEncoder,
    /// A tunnel has no decoder set.
    NoDecoder,
    /// A serialized address record does not follow the wire layout.
    MalformedRecord,
    /// A descriptor name contains a reserved character.
    InvalidFileName,
}

} // verus!
