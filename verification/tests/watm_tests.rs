use water::cli;
use water::config::WaterBinType;
use water::watm::{Config, Error, Role, StreamConfigV1};

#[test]
fn error_codes_cross_the_abi_as_documented() {
    assert_eq!(Error::Success.i32(), 0);
    assert_eq!(Error::Unknown.i32(), -1);
    assert_eq!(Error::InvalidArgument.i32(), -2);
    assert_eq!(Error::InvalidConfig.i32(), -3);
    assert_eq!(Error::InvalidFd.i32(), -4);
    assert_eq!(Error::InvalidFunction.i32(), -5);
    assert_eq!(Error::DoubleInit.i32(), -6);
    assert_eq!(Error::FailedIO.i32(), -7);
    assert_eq!(Error::NotInitialized.i32(), -8);
}

#[test]
fn role_codes_cross_the_abi_as_documented() {
    assert_eq!(Role::Unknown.i32(), 0);
    assert_eq!(Role::Dialer.i32(), 1);
    assert_eq!(Role::Listener.i32(), 2);
    assert_eq!(Role::Relay.i32(), 3);
}

#[test]
fn watm_config_defaults() {
    let c = Config::new();
    assert_eq!(c.remote_address, "example.com");
    assert_eq!(c.remote_port, 8082);
    assert_eq!(c.local_address, "127.0.0.1");
    assert_eq!(c.local_port, 8080);
}

#[test]
fn stream_config_init_keeps_its_fields() {
    let s = StreamConfigV1::init("10.1.2.3".to_string(), 443, "CONNECT_REMOTE".to_string());
    assert_eq!(s.addr, "10.1.2.3");
    assert_eq!(s.port, 443);
    assert_eq!(s.name, "CONNECT_REMOTE");
}

#[test]
fn client_types_follow_the_numeric_encoding() {
    assert_eq!(WaterBinType::from(0), WaterBinType::Dial);
    assert_eq!(WaterBinType::from(1), WaterBinType::Listen);
    assert_eq!(WaterBinType::from(2), WaterBinType::Relay);
    assert_eq!(WaterBinType::from(3), WaterBinType::Runner);
    assert_eq!(WaterBinType::from(4), WaterBinType::Wrap);
    assert_eq!(WaterBinType::from(5), WaterBinType::Unknown);
    assert_eq!(WaterBinType::from(u32::MAX), WaterBinType::Unknown);
}

#[test]
fn cli_config_holds_what_it_was_given() {
    let c = cli::Config::init(
        "proxy.wasm".to_string(),
        "main".to_string(),
        "conf.json".to_string(),
        2,
    )
    .unwrap();
    assert_eq!(c.filepath, "proxy.wasm");
    assert_eq!(c.entry_fn, "main");
    assert_eq!(c.config_wasm, "conf.json");
    assert_eq!(c.client_type, 2);
}
