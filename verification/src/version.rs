//! Version selection: which ABI generation a module speaks.
//!
//! A module announces its generation through an exported symbol named
//! `_water_v0`, `_water_v1` or `_water_v2`.  The runtime scans the module's
//! export names, selects the generation of the first tag it finds, and for
//! v0 seeds the role configuration from the loaded configuration file.

use vstd::prelude::*;

use crate::config::{WATERConfig, WaterBinType};
use crate::error::WaterError;
use crate::v0;
use crate::v0::{V0CRole, V0Config};

verus! {

/// The ABI generation of a module, with the seeded role configuration for
/// v0 once the selection has produced it.
#[derive(Debug)]
pub enum Version {
    /// No generation selected yet.
    Unknown,
    /// Host-driven sessions; the host dials, listens and accepts.
    V0(Option<V0Config>),
    /// Guest-driven connections; the guest supplies addresses.
    V1,
    /// Reserved for the next generation.
    V2,
}

/// What a single export name says: the version it tags, if any.
pub open spec fn parse_tag(s: Seq<char>) -> Option<Version> {
    if s == "_water_v0"@ {
        Some(Version::V0(None))
    } else if s == "_water_v1"@ {
        Some(Version::V1)
    } else if s == "_water_v2"@ {
        Some(Version::V2)
    } else {
        None
    }
}

/// Whether an export name is a version tag.
pub open spec fn is_version_tag(s: Seq<char>) -> bool {
    parse_tag(s) is Some
}

/// The version selected from a list of export names: that of the first
/// name that is a tag.
pub open spec fn find_tag(names: Seq<Seq<char>>) -> Option<Version>
    decreases names.len(),
{
    if names.len() == 0 {
        None
    } else if is_version_tag(names[0]) {
        parse_tag(names[0])
    } else {
        find_tag(names.drop_first())
    }
}

/// The symbol name a version announces itself with.
pub open spec fn version_symbol(v: &Version) -> Seq<char> {
    match v {
        Version::Unknown => "_water_setting_up"@,
        Version::V0(_) => "_water_v0"@,
        Version::V1 => "_water_v1"@,
        Version::V2 => "_water_v2"@,
    }
}

/// String equality by content.
fn str_eq(a: &str, b: &str) -> (r: bool)
    ensures
        r == (a@ == b@),
{
    let left: String = a.to_owned();
    let right: String = b.to_owned();
    left == right
}

impl Clone for Version {
    fn clone(&self) -> (r: Self)
        ensures
            r == *self,
    {
        match self {
            Version::Unknown => Version::Unknown,
            Version::V0(c) => match c {
                Some(conf) => Version::V0(Some(conf.clone())),
                None => Version::V0(None),
            },
            Version::V1 => Version::V1,
            Version::V2 => Version::V2,
        }
    }
}

impl Version {
    /// Read one export name as a version tag.
    pub fn parse(s: &str) -> (r: Option<Version>)
        ensures
            r == parse_tag(s@),
    {
        if str_eq(s, "_water_v0") {
            Some(Version::V0(None))
        } else if str_eq(s, "_water_v1") {
            Some(Version::V1)
        } else if str_eq(s, "_water_v2") {
            Some(Version::V2)
        } else {
            None
        }
    }

    /// The symbol name of this version.
    pub fn as_str(&self) -> (r: &'static str)
        ensures
            r@ == version_symbol(self),
    {
        match self {
            Version::Unknown => "_water_setting_up",
            Version::V0(_) => "_water_v0",
            Version::V1 => "_water_v1",
            Version::V2 => "_water_v2",
        }
    }

    /// Seed the v0 role configuration from the module's configuration
    /// file: a dialer is wired to the remote endpoint, a listener to the
    /// local one, a relay to both.  A runner or wrapper has no v0 wiring,
    /// and a client of unknown type leaves the version unselected.
    pub fn config_v0(&self, conf: &WATERConfig, wasm_config: &v0::Config) -> (r: Result<
        Version,
        WaterError,
    >)
        ensures
            conf.client_type == WaterBinType::Dial ==> (r matches Ok(v) && seeded_v0(
                &v,
                "CONNECT"@,
                wasm_config,
            )),
            conf.client_type == WaterBinType::Listen ==> (r matches Ok(v) && seeded_v0(
                &v,
                "LISTEN"@,
                wasm_config,
            )),
            conf.client_type == WaterBinType::Relay ==> (r matches Ok(v) && seeded_v0(
                &v,
                "RELAY"@,
                wasm_config,
            )),
            conf.client_type == WaterBinType::Unknown ==> (r matches Ok(v) && v is Unknown),
            conf.client_type == WaterBinType::Runner || conf.client_type == WaterBinType::Wrap
                ==> r == Err::<Version, WaterError>(WaterError::InvalidClientType),
    {
        match conf.client_type {
            WaterBinType::Dial => {
                let v0_conf = V0Config::init(
                    String::from_str("CONNECT"),
                    wasm_config.local_address.clone(),
                    wasm_config.local_port,
                    wasm_config.remote_address.clone(),
                    wasm_config.remote_port,
                )?;
                Ok(Version::V0(Some(v0_conf)))
            },
            WaterBinType::Listen => {
                let v0_conf = V0Config::init(
                    String::from_str("LISTEN"),
                    wasm_config.local_address.clone(),
                    wasm_config.local_port,
                    wasm_config.remote_address.clone(),
                    wasm_config.remote_port,
                )?;
                Ok(Version::V0(Some(v0_conf)))
            },
            WaterBinType::Relay => {
                let v0_conf = V0Config::init(
                    String::from_str("RELAY"),
                    wasm_config.local_address.clone(),
                    wasm_config.local_port,
                    wasm_config.remote_address.clone(),
                    wasm_config.remote_port,
                )?;
                Ok(Version::V0(Some(v0_conf)))
            },
            WaterBinType::Unknown => Ok(Version::Unknown),
            _ => Err(WaterError::InvalidClientType),
        }
    }
}

/// A v0 version carrying a role configuration seeded with the given
/// session name and the file's addresses, and no session state.
pub open spec fn seeded_v0(v: &Version, name: Seq<char>, c: &v0::Config) -> bool {
    match v {
        Version::V0(Some(vc)) => {
            &&& vc.name@ == name
            &&& vc.loc_addr@ == c.local_address@
            &&& vc.loc_port == c.local_port
            &&& vc.remote_addr@ == c.remote_address@
            &&& vc.remote_port == c.remote_port
            &&& vc.conn == V0CRole::Unknown
        },
        _ => false,
    }
}

/// Scan a module's export names and select the version of the first tag.
pub fn find_version(exports: &Vec<String>) -> (r: Option<Version>)
    ensures
        r == find_tag(exports.deep_view()),
{
    let ghost all: Seq<Seq<char>> = exports.deep_view();
    proof {
        assert(all.skip(0) =~= all);
    }
    let mut i: usize = 0;
    while i < exports.len()
        invariant
            0 <= i <= exports.len(),
            all == exports.deep_view(),
            all.len() == exports.len(),
            forall|j: int| 0 <= j < i ==> !is_version_tag(all[j]),
            find_tag(all) == find_tag(all.skip(i as int)),
        decreases exports.len() - i,
    {
        assert(all[i as int] == exports[i as int]@);
        let parsed = Version::parse(exports[i].as_str());
        if let Some(v) = parsed {
            assert(all.skip(i as int)[0] == all[i as int]);
            assert(find_tag(all.skip(i as int)) == parse_tag(all[i as int]));
            return Some(v);
        }
        proof {
            assert(all.skip(i as int)[0] == all[i as int]);
            assert(all.skip(i as int).drop_first() =~= all.skip(i + 1));
        }
        i = i + 1;
    }
    proof {
        assert(all.skip(i as int).len() == 0);
    }
    None
}

/// Version exclusivity: a module that exports exactly one version tag is
/// given exactly that tag's version, wherever the tag stands
/// among the exports.
pub proof fn lemma_version_selection_exclusive(names: Seq<Seq<char>>, i: int)
    requires
        0 <= i < names.len(),
        is_version_tag(names[i]),
        forall|j: int| 0 <= j < names.len() && j != i ==> !is_version_tag(names[j]),
    ensures
        find_tag(names) == parse_tag(names[i]),
    decreases names.len(),
{
    if i == 0 {
    } else {
        assert(!is_version_tag(names[0]));
        assert(names.drop_first()[i - 1] == names[i]);
        assert(forall|j: int|
            0 <= j < names.drop_first().len() && j != i - 1 ==> names.drop_first()[j] == names[j
                + 1] && !is_version_tag(names.drop_first()[j]));
        lemma_version_selection_exclusive(names.drop_first(), i - 1);
    }
}

} // verus!
