use water::config::{WATERConfig, WaterBinType};
use water::v0;
use water::version::{find_version, Version};

fn wasm_config() -> v0::Config {
    v0::Config {
        local_address: "127.0.0.1".to_string(),
        local_port: 8082,
        remote_address: "10.0.0.1".to_string(),
        remote_port: 9090,
    }
}

fn water_conf(client_type: WaterBinType) -> WATERConfig {
    WATERConfig::init(
        "plain.wasm".to_string(),
        "_water_worker".to_string(),
        "config.json".to_string(),
        client_type,
        false,
    )
    .unwrap()
}

#[test]
fn parse_recognises_each_tag() {
    assert!(matches!(Version::parse("_water_v0"), Some(Version::V0(None))));
    assert!(matches!(Version::parse("_water_v1"), Some(Version::V1)));
    assert!(matches!(Version::parse("_water_v2"), Some(Version::V2)));
    assert!(Version::parse("_water_v3").is_none());
    assert!(Version::parse("memory").is_none());
    assert!(Version::parse("").is_none());
}

#[test]
fn as_str_names_each_version() {
    assert_eq!(Version::Unknown.as_str(), "_water_setting_up");
    assert_eq!(Version::V0(None).as_str(), "_water_v0");
    assert_eq!(Version::V1.as_str(), "_water_v1");
    assert_eq!(Version::V2.as_str(), "_water_v2");
}

#[test]
fn find_version_selects_the_single_tag() {
    let exports = vec![
        "memory".to_string(),
        "_water_init".to_string(),
        "_water_v0".to_string(),
        "_water_worker".to_string(),
    ];
    assert!(matches!(find_version(&exports), Some(Version::V0(None))));
}

#[test]
fn find_version_selects_the_first_tag() {
    let exports = vec!["_water_v1".to_string(), "_water_v0".to_string()];
    assert!(matches!(find_version(&exports), Some(Version::V1)));
}

#[test]
fn find_version_needs_a_tag() {
    let exports = vec!["memory".to_string(), "_water_init".to_string()];
    assert!(find_version(&exports).is_none());
}

#[test]
fn config_v0_wires_a_dialer_to_the_remote() {
    let v = Version::V0(None);
    let configured = v.config_v0(&water_conf(WaterBinType::Dial), &wasm_config()).unwrap();
    match configured {
        Version::V0(Some(vc)) => {
            assert_eq!(vc.name, "CONNECT");
            assert_eq!(vc.remote_addr, "10.0.0.1");
            assert_eq!(vc.remote_port, 9090);
            assert_eq!(vc.loc_addr, "127.0.0.1");
            assert_eq!(vc.loc_port, 8082);
            assert_eq!(vc.conn, water::v0::V0CRole::Unknown);
        }
        _ => panic!("expected a seeded v0 configuration"),
    }
}

#[test]
fn config_v0_wires_a_listener_to_the_local() {
    let v = Version::V0(None);
    let configured = v.config_v0(&water_conf(WaterBinType::Listen), &wasm_config()).unwrap();
    match configured {
        Version::V0(Some(vc)) => {
            assert_eq!(vc.name, "LISTEN");
            assert_eq!(vc.loc_addr, "127.0.0.1");
            assert_eq!(vc.loc_port, 8082);
        }
        _ => panic!("expected a seeded v0 configuration"),
    }
}

#[test]
fn config_v0_wires_a_relay_to_both() {
    let v = Version::V0(None);
    let configured = v.config_v0(&water_conf(WaterBinType::Relay), &wasm_config()).unwrap();
    match configured {
        Version::V0(Some(vc)) => {
            assert_eq!(vc.name, "RELAY");
            assert_eq!(vc.loc_addr, "127.0.0.1");
            assert_eq!(vc.remote_addr, "10.0.0.1");
        }
        _ => panic!("expected a seeded v0 configuration"),
    }
}

#[test]
fn config_v0_refuses_a_runner() {
    let v = Version::V0(None);
    let r = v.config_v0(&water_conf(WaterBinType::Runner), &wasm_config());
    assert!(matches!(r, Err(water::error::WaterError::InvalidClientType)));
    let r = v.config_v0(&water_conf(WaterBinType::Wrap), &wasm_config());
    assert!(matches!(r, Err(water::error::WaterError::InvalidClientType)));
}

#[test]
fn config_v0_leaves_an_unknown_client_unselected() {
    let v = Version::V0(None);
    let r = v.config_v0(&water_conf(WaterBinType::Unknown), &wasm_config()).unwrap();
    assert!(matches!(r, Version::Unknown));
}
