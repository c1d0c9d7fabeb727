//! Host-side runtime for pluggable, sandboxed transport modules.
//!
//! A transport module (TM) is an opaque sandboxed binary that implements an
//! application-layer network transport.  This crate verifies the host-side
//! logic that binds such a module to host I/O: the version selector that picks
//! the host-export set from the module's exported symbols, the per-role
//! lifecycle state machines (dialer, listener, relay, runner), the shared
//! role configuration that the host-export functions mutate, migration of a
//! listener to a fresh sandbox instance per session, and the byte-level
//! codecs shared with the module.
//!
//! Everything that touches the operating system or the sandbox engine
//! itself (sockets, pipes, threads, module instantiation, guest calls)
//! lives outside this crate; callers feed the outcomes of those actions
//! into the state machines here as plain values.

pub mod cli;
pub mod client;
pub mod config;
pub mod error;
pub mod listener;
pub mod net;
pub mod relay;
pub mod runner;
pub mod runtime;
pub mod stream;
pub mod transport;
pub mod tunnel;
pub mod v0;
pub mod version;
pub mod watm;
pub mod wire;
