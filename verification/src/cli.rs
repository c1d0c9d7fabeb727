//! The command-line surface of the host program, as plain values: which
//! module to load, which entry to run, which configuration file to hand
//! over, and which role to play.  Argument parsing itself stays outside
//! this crate.

use vstd::prelude::*;

use crate::error::WaterError;

verus! {

/// What the host program was started with.
#[derive(Debug)]
pub struct Config {
    /// Path to the module binary to load.
    pub filepath: String,
    /// Name of the entry function in the module.
    pub entry_fn: String,
    /// Path to the module's configuration file.
    pub config_wasm: String,
    /// The client type, in its numeric command-line form.
    pub client_type: u32,
}

impl Config {
    pub fn init(wasm_path: String, entry_fn: String, config_wasm: String, client_type: u32) -> (r:
        Result<Self, WaterError>)
        ensures
            (r matches Ok(c) && c == (Config {
                filepath: wasm_path,
                entry_fn: entry_fn,
                config_wasm: config_wasm,
                client_type: client_type,
            })),
    {
        Ok(Config { filepath: wasm_path, entry_fn, config_wasm, client_type })
    }
}

impl Clone for Config {
    fn clone(&self) -> (r: Self)
        ensures
            r == *self,
    {
        Config {
            filepath: self.filepath.clone(),
            entry_fn: self.entry_fn.clone(),
            config_wasm: self.config_wasm.clone(),
            client_type: self.client_type,
        }
    }
}

} // verus!
