//! The runner driver: the module runs its own session loop; the host only
//! starts the configured entry function.

use vstd::prelude::*;

use crate::config::WATERConfig;
use crate::error::WaterError;
use crate::runtime::H2O;

verus! {

/// A runner: just a core instance.  The entry function named in the
/// configuration is invoked on it by the caller; the module does its own
/// dialing and listening through the v1 host exports.
#[derive(Debug)]
pub struct WATERRunner {
    pub core: H2O,
}

impl WATERRunner {
    /// A fresh runner around a prepared core.
    pub fn init(_conf: &WATERConfig, core: H2O) -> (r: Result<Self, WaterError>)
        ensures
            (r matches Ok(s) && s == (WATERRunner { core: core })),
    {
        Ok(WATERRunner { core })
    }
}

} // verus!
