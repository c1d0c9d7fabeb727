use water::config::{WATERConfig, WaterBinType};
use water::error::WaterError;
use water::runtime::{host_export_names, host_export_result, H2O};
use water::v0;
use water::v0::{V0CRole, V0Config};
use water::version::Version;

fn water_conf(client_type: WaterBinType) -> WATERConfig {
    WATERConfig::init(
        "plain.wasm".to_string(),
        "_water_worker".to_string(),
        "config.json".to_string(),
        client_type,
        false,
    )
    .unwrap()
}

fn wasm_config() -> v0::Config {
    v0::Config {
        local_address: "127.0.0.1".to_string(),
        local_port: 8082,
        remote_address: "10.0.0.1".to_string(),
        remote_port: 9090,
    }
}

fn seeded() -> V0Config {
    V0Config::init(
        "LISTEN".to_string(),
        "127.0.0.1".to_string(),
        8082,
        "10.0.0.1".to_string(),
        9090,
    )
    .unwrap()
}

#[test]
fn water_runtime_test() {
    assert_eq!(1, 1);
}

#[test]
fn export_set_follows_the_version() {
    assert_eq!(
        host_export_names(&Version::V0(None)),
        vec!["pull_config", "host_dial", "host_accept", "host_defer"]
    );
    assert_eq!(
        host_export_names(&Version::V1),
        vec!["pull_config", "connect_tcp", "create_listen"]
    );
    assert_eq!(host_export_names(&Version::Unknown), vec!["pull_config"]);
}

#[test]
fn host_exports_never_fail_into_the_guest() {
    assert_eq!(host_export_result(Some(5)), 5);
    assert_eq!(host_export_result(Some(0)), 0);
    assert_eq!(host_export_result(Some(-7)), -1);
    assert_eq!(host_export_result(None), -1);
}

#[test]
fn create_core_accepts_only_wired_versions() {
    let conf = water_conf(WaterBinType::Dial);
    let ok = H2O::create_core(&conf, Some(Version::V0(Some(seeded())))).unwrap();
    assert!(matches!(ok.version, Version::V0(Some(_))));

    let ok = H2O::create_core(&conf, Some(Version::V1)).unwrap();
    assert!(matches!(ok.version, Version::V1));

    let r = H2O::create_core(&conf, Some(Version::V0(None)));
    assert!(matches!(r, Err(WaterError::ConfigUnavailable)));
    let r = H2O::create_core(&conf, Some(Version::V2));
    assert!(matches!(r, Err(WaterError::InvalidVersion)));
    let r = H2O::create_core(&conf, Some(Version::Unknown));
    assert!(matches!(r, Err(WaterError::InvalidVersion)));
    let r = H2O::create_core(&conf, None);
    assert!(matches!(r, Err(WaterError::ModuleVersionNotFound)));
}

#[test]
fn init_core_runs_the_whole_selection() {
    let exports = vec!["memory".to_string(), "_water_v0".to_string()];
    let core = H2O::init_core(&water_conf(WaterBinType::Dial), &exports, &wasm_config()).unwrap();
    match core.version {
        Version::V0(Some(vc)) => {
            assert_eq!(vc.name, "CONNECT");
            assert_eq!(vc.remote_addr, "10.0.0.1");
            assert_eq!(vc.remote_port, 9090);
        }
        _ => panic!("expected a seeded v0 core"),
    }

    let exports = vec!["v1_entry".to_string(), "_water_v1".to_string()];
    let core = H2O::init_core(&water_conf(WaterBinType::Runner), &exports, &wasm_config()).unwrap();
    assert!(matches!(core.version, Version::V1));

    let exports = vec!["memory".to_string()];
    let r = H2O::init_core(&water_conf(WaterBinType::Dial), &exports, &wasm_config());
    assert!(matches!(r, Err(WaterError::ModuleVersionNotFound)));

    let exports = vec!["_water_v0".to_string()];
    let r = H2O::init_core(&water_conf(WaterBinType::Runner), &exports, &wasm_config());
    assert!(matches!(r, Err(WaterError::InvalidClientType)));
}

#[test]
fn migration_resets_the_session_and_keeps_the_listener() {
    let conf = water_conf(WaterBinType::Listen);
    let mut live = seeded();
    live.create_listener(3, false);
    live.accept(7).unwrap();

    let core = H2O { version: Version::V0(Some(live.clone())) };
    let fresh = H2O::v0_migrate_core(&conf, &core, &live).unwrap();
    match fresh.version {
        Version::V0(Some(vc)) => {
            assert_eq!(vc.conn, V0CRole::Listener(3, -1));
            assert_eq!(vc.loc_addr, "127.0.0.1");
        }
        _ => panic!("expected a migrated v0 core"),
    }

    let bare = H2O { version: Version::V1 };
    let r = H2O::v0_migrate_core(&conf, &bare, &live);
    assert!(matches!(r, Err(WaterError::InvalidVersion)));

    let unconfigured = H2O { version: Version::V0(None) };
    let r = H2O::v0_migrate_core(&conf, &unconfigured, &live);
    assert!(matches!(r, Err(WaterError::ConfigUnavailable)));
}
