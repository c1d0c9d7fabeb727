//! Configuration for loading a transport module.

use vstd::prelude::*;

use crate::error::WaterError;

verus! {

/// What the loaded module is asked to be.
#[derive(Clone, Copy, Debug, PartialEq, Eq, Hash, Structural)]
pub enum WaterBinType {
    Dial,
    Listen,
    Relay,
    Runner,
    Wrap,
    Unknown,
}

impl vstd::std_specs::convert::FromSpecImpl<u32> for WaterBinType {
    open spec fn obeys_from_spec() -> bool {
        true
    }

    open spec fn from_spec(num: u32) -> Self {
        if num == 0 {
            WaterBinType::Dial
        } else if num == 1 {
            WaterBinType::Listen
        } else if num == 2 {
            WaterBinType::Relay
        } else if num == 3 {
            WaterBinType::Runner
        } else if num == 4 {
            WaterBinType::Wrap
        } else {
            WaterBinType::Unknown
        }
    }
}

impl From<u32> for WaterBinType {
    /// The numeric encoding used on the command line: dial 0, listen 1,
    /// relay 2, runner 3, wrap 4; anything else is unknown.
    fn from(num: u32) -> (r: Self) {
        match num {
            0 => WaterBinType::Dial,
            1 => WaterBinType::Listen,
            2 => WaterBinType::Relay,
            3 => WaterBinType::Runner,
            4 => WaterBinType::Wrap,
            _ => WaterBinType::Unknown,
        }
    }
}

/// Everything the runtime needs to know to load and drive one module.
#[derive(Debug)]
pub struct WATERConfig {
    /// Path to the module binary.
    pub filepath: String,
    /// Name of the worker entry function inside the module.
    pub entry_fn: String,
    /// Path to the configuration file handed to the module.
    pub config_wasm: String,
    /// The role the module is asked to play.
    pub client_type: WaterBinType,
    /// Whether the module is initialised with its debug flag set.
    pub debug: bool,
}

impl WATERConfig {
    pub fn init(
        filepath: String,
        entry_fn: String,
        config_wasm: String,
        client_type: WaterBinType,
        debug: bool,
    ) -> (r: Result<Self, WaterError>)
        ensures
            (r matches Ok(c) && c == (WATERConfig {
                filepath: filepath,
                entry_fn: entry_fn,
                config_wasm: config_wasm,
                client_type: client_type,
                debug: debug,
            })),
    {
        Ok(WATERConfig { filepath, entry_fn, config_wasm, client_type, debug })
    }
}

impl Clone for WATERConfig {
    fn clone(&self) -> (r: Self)
        ensures
            r == *self,
    {
        WATERConfig {
            filepath: self.filepath.clone(),
            entry_fn: self.entry_fn.clone(),
            config_wasm: self.config_wasm.clone(),
            client_type: self.client_type,
            debug: self.debug,
        }
    }
}

} // verus!
