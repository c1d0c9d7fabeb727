//! The core instance: one loaded module bound to one version and, for v0,
//! one role configuration.
//!
//! The sandbox engine itself (module loading, linking, instantiation,
//! guest calls) lives outside this crate.  The caller lists the module's
//! export names, parses the configuration file, and builds the core model
//! here; the contracts pin down which modules are accepted, which host
//! exports must be bound, and what a migrated core looks like.

use vstd::prelude::*;

use crate::config::{WATERConfig, WaterBinType};
use crate::error::WaterError;
use crate::v0;
use crate::v0::V0Config;
use crate::version::{find_tag, find_version, seeded_v0, Version};

verus! {

/// One core instance: the version the selector chose, carrying the
/// seeded v0 role configuration where there is one.
#[derive(Debug)]
pub struct H2O {
    pub version: Version,
}

impl Clone for H2O {
    fn clone(&self) -> (r: Self)
        ensures
            r == *self,
    {
        H2O { version: self.version.clone() }
    }
}

/// The names of the host functions a module of version `v` may import,
/// all in the `env` namespace.  Every version may pull its configuration
/// file; v0 adds the host-driven socket operations, v1 the guest-driven
/// ones.
pub open spec fn export_name_seq(v: &Version) -> Seq<Seq<char>> {
    match v {
        Version::V0(_) => seq!["pull_config"@, "host_dial"@, "host_accept"@, "host_defer"@],
        Version::V1 => seq!["pull_config"@, "connect_tcp"@, "create_listen"@],
        _ => seq!["pull_config"@],
    }
}

/// The host-export set to bind before instantiating a module of version
/// `v`.  A module importing anything outside this set fails instantiation.
pub fn host_export_names(v: &Version) -> (r: Vec<String>)
    ensures
        r.deep_view() == export_name_seq(v),
{
    let mut names: Vec<String> = Vec::new();
    names.push(String::from_str("pull_config"));
    match v {
        Version::V0(_) => {
            names.push(String::from_str("host_dial"));
            names.push(String::from_str("host_accept"));
            names.push(String::from_str("host_defer"));
        },
        Version::V1 => {
            names.push(String::from_str("connect_tcp"));
            names.push(String::from_str("create_listen"));
        },
        _ => {},
    }
    proof {
        assert(names.deep_view() =~= export_name_seq(v));
    }
    names
}

/// The uniform result policy of every host export: a host function never
/// fails into the guest; it hands back the fresh guest descriptor on
/// success and a negative value otherwise.
pub fn host_export_result(pushed: Option<i32>) -> (r: i32)
    ensures
        r == (match pushed {
            Some(fd) => if fd >= 0 {
                fd
            } else {
                -1i32
            },
            None => -1i32,
        }),
{
    match pushed {
        Some(fd) => if fd >= 0 {
            fd
        } else {
            -1
        },
        None => -1,
    }
}

impl H2O {
    /// Accept or reject the version selection and build the core.
    ///
    /// A core is built exactly for a v1 module or a v0 module whose role
    /// configuration was seeded.  A module without a tag, a v0 module
    /// without wiring, and a generation the runtime does not drive are
    /// rejected.
    pub fn create_core(_conf: &WATERConfig, version: Option<Version>) -> (r: Result<
        H2O,
        WaterError,
    >)
        ensures
            r == (match version {
                None => Err::<H2O, WaterError>(WaterError::ModuleVersionNotFound),
                Some(Version::V0(None)) => Err::<H2O, WaterError>(WaterError::ConfigUnavailable),
                Some(Version::V0(Some(vc))) => Ok::<H2O, WaterError>(
                    H2O { version: Version::V0(Some(vc)) },
                ),
                Some(Version::V1) => Ok::<H2O, WaterError>(H2O { version: Version::V1 }),
                Some(_) => Err::<H2O, WaterError>(WaterError::InvalidVersion),
            }),
    {
        match version {
            Some(v) => match v {
                Version::V0(oc) => match oc {
                    Some(vc) => Ok(H2O { version: Version::V0(Some(vc)) }),
                    None => Err(WaterError::ConfigUnavailable),
                },
                Version::V1 => Ok(H2O { version: Version::V1 }),
                _ => Err(WaterError::InvalidVersion),
            },
            None => Err(WaterError::ModuleVersionNotFound),
        }
    }

    /// Run the whole selection: find the version tag among the module's export
    /// names, seed the v0 wiring from the configuration file where the
    /// module is v0, and build the core.
    pub fn init_core(conf: &WATERConfig, exports: &Vec<String>, wasm_config: &v0::Config) -> (r:
        Result<H2O, WaterError>)
        ensures
            find_tag(exports.deep_view()) is None ==> r == Err::<H2O, WaterError>(
                WaterError::ModuleVersionNotFound,
            ),
            (find_tag(exports.deep_view()) matches Some(t) && t is V0) ==> {
                &&& conf.client_type == WaterBinType::Dial ==> (r matches Ok(c) && seeded_v0(
                    &c.version,
                    "CONNECT"@,
                    wasm_config,
                ))
                &&& conf.client_type == WaterBinType::Listen ==> (r matches Ok(c) && seeded_v0(
                    &c.version,
                    "LISTEN"@,
                    wasm_config,
                ))
                &&& conf.client_type == WaterBinType::Relay ==> (r matches Ok(c) && seeded_v0(
                    &c.version,
                    "RELAY"@,
                    wasm_config,
                ))
                &&& conf.client_type == WaterBinType::Unknown ==> r == Err::<H2O, WaterError>(
                    WaterError::InvalidVersion,
                )
                &&& (conf.client_type == WaterBinType::Runner || conf.client_type
                    == WaterBinType::Wrap) ==> r == Err::<H2O, WaterError>(
                    WaterError::InvalidClientType,
                )
            },
            (find_tag(exports.deep_view()) matches Some(t) && t is V1) ==> (r matches Ok(c)
                && c.version is V1),
            (find_tag(exports.deep_view()) matches Some(t) && t is V2) ==> r == Err::<
                H2O,
                WaterError,
            >(WaterError::InvalidVersion),
    {
        let found = find_version(exports);
        match found {
            Some(v) => match v {
                Version::V0(_) => {
                    let configured = v.config_v0(conf, wasm_config)?;
                    Self::create_core(conf, Some(configured))
                },
                other => Self::create_core(conf, Some(other)),
            },
            None => Err(WaterError::ModuleVersionNotFound),
        }
    }

    /// Build the core for the next session of a v0 listener or relay.
    ///
    /// The fresh core takes over the current role configuration with its
    /// accepted and dialed slots unset, so the next session starts in a
    /// sandbox with no session state, while the listening socket is kept.
    pub fn v0_migrate_core(_conf: &WATERConfig, core: &H2O, current: &V0Config) -> (r: Result<
        H2O,
        WaterError,
    >)
        ensures
            (core.version matches Version::V0(oc) && oc is Some) ==> (r matches Ok(c) && c.version
                == Version::V0(Some(current.resetted()))),
            (core.version matches Version::V0(oc) && oc is None) ==> r == Err::<H2O, WaterError>(
                WaterError::ConfigUnavailable,
            ),
            !(core.version is V0) ==> r == Err::<H2O, WaterError>(WaterError::InvalidVersion),
    {
        match &core.version {
            Version::V0(oc) => match oc {
                Some(_) => {
                    let mut fresh = current.clone();
                    fresh.reset_listener_or_relay();
                    Ok(H2O { version: Version::V0(Some(fresh)) })
                },
                None => Err(WaterError::ConfigUnavailable),
            },
            _ => Err(WaterError::InvalidVersion),
        }
    }
}

} // verus!
