use water::error::WaterError;
use water::v0::{V0CRole, V0Config};

fn fresh(name: &str) -> V0Config {
    V0Config::init(
        name.to_string(),
        "127.0.0.1".to_string(),
        8080,
        "example.com".to_string(),
        8082,
    )
    .unwrap()
}

#[test]
fn init_starts_unset() {
    let c = fresh("CONNECT");
    assert_eq!(c.name, "CONNECT");
    assert_eq!(c.loc_addr, "127.0.0.1");
    assert_eq!(c.loc_port, 8080);
    assert_eq!(c.remote_addr, "example.com");
    assert_eq!(c.remote_port, 8082);
    assert_eq!(c.conn, V0CRole::Unknown);
}

#[test]
fn connect_promotes_unknown_to_dialer() {
    let mut c = fresh("CONNECT");
    assert!(c.connect(5).is_ok());
    assert_eq!(c.conn, V0CRole::Dialer(5));
}

#[test]
fn connect_fills_a_relay_dial_slot_once() {
    let mut c = fresh("RELAY");
    c.create_listener(3, true);
    assert!(c.connect(6).is_ok());
    assert_eq!(c.conn, V0CRole::Relay(3, -1, 6));
    let again = c.connect(7);
    assert!(matches!(again, Err(WaterError::RelayAlreadyConnected)));
    assert_eq!(c.conn, V0CRole::Relay(3, -1, 6));
}

#[test]
fn connect_refuses_other_roles() {
    let mut c = fresh("CONNECT");
    assert!(c.connect(5).is_ok());
    assert!(matches!(c.connect(6), Err(WaterError::NotDialer)));

    let mut l = fresh("LISTEN");
    l.create_listener(3, false);
    assert!(matches!(l.connect(6), Err(WaterError::NotDialer)));
}

#[test]
fn create_listener_sets_the_role() {
    let mut l = fresh("LISTEN");
    l.create_listener(3, false);
    assert_eq!(l.conn, V0CRole::Listener(3, -1));

    let mut r = fresh("RELAY");
    r.create_listener(4, true);
    assert_eq!(r.conn, V0CRole::Relay(4, -1, -1));
}

#[test]
fn accept_fills_the_slot_once() {
    let mut l = fresh("LISTEN");
    l.create_listener(3, false);
    assert!(l.accept(7).is_ok());
    assert_eq!(l.conn, V0CRole::Listener(3, 7));
    assert!(matches!(l.accept(8), Err(WaterError::ListenerAlreadyAccepted)));
    assert_eq!(l.conn, V0CRole::Listener(3, 7));
}

#[test]
fn accept_refuses_a_dialer() {
    let mut c = fresh("CONNECT");
    assert!(matches!(c.accept(7), Err(WaterError::NotListener)));
    assert!(c.connect(5).is_ok());
    assert!(matches!(c.accept(7), Err(WaterError::NotListener)));
}

#[test]
fn defer_closes_session_sockets_only() {
    let mut l = fresh("LISTEN");
    l.create_listener(3, false);
    l.accept(7).unwrap();
    let closed = l.defer();
    assert_eq!(closed, vec![7]);
    assert_eq!(l.conn, V0CRole::Listener(3, -1));

    let mut r = fresh("RELAY");
    r.create_listener(4, true);
    r.accept(8).unwrap();
    r.connect(9).unwrap();
    let closed = r.defer();
    assert_eq!(closed, vec![8, 9]);
    assert_eq!(r.conn, V0CRole::Relay(4, -1, -1));

    let mut d = fresh("CONNECT");
    d.connect(5).unwrap();
    let closed = d.defer();
    assert_eq!(closed, vec![5]);
}

#[test]
fn defer_never_closes_twice() {
    let mut r = fresh("RELAY");
    r.create_listener(4, true);
    r.accept(8).unwrap();
    r.connect(9).unwrap();
    assert_eq!(r.defer(), vec![8, 9]);
    assert_eq!(r.defer(), Vec::<i32>::new());

    let mut d = fresh("CONNECT");
    d.connect(5).unwrap();
    assert_eq!(d.defer(), vec![5]);
    assert_eq!(d.defer(), Vec::<i32>::new());
}

#[test]
fn reset_unsets_the_session_and_keeps_the_listener() {
    let mut l = fresh("LISTEN");
    l.create_listener(3, false);
    l.accept(7).unwrap();
    l.reset_listener_or_relay();
    assert_eq!(l.conn, V0CRole::Listener(3, -1));

    let mut r = fresh("RELAY");
    r.create_listener(4, true);
    r.accept(8).unwrap();
    r.connect(9).unwrap();
    r.reset_listener_or_relay();
    assert_eq!(r.conn, V0CRole::Relay(4, -1, -1));

    let mut d = fresh("CONNECT");
    d.connect(5).unwrap();
    d.reset_listener_or_relay();
    assert_eq!(d.conn, V0CRole::Dialer(5));
}

#[test]
fn prechecks_match_the_transitions() {
    let mut c = fresh("CONNECT");
    assert!(c.can_connect());
    c.connect(5).unwrap();
    assert!(!c.can_connect());

    let mut r = fresh("RELAY");
    r.create_listener(4, true);
    assert!(r.can_connect());
    assert_eq!(r.accept_source().unwrap(), 4);
    r.accept(8).unwrap();
    assert!(matches!(r.accept_source(), Err(WaterError::ListenerAlreadyAccepted)));
    r.connect(9).unwrap();
    assert!(!r.can_connect());

    let d = fresh("CONNECT");
    assert!(matches!(d.accept_source(), Err(WaterError::NotListener)));
}

#[test]
fn endpoints_read_back_the_wiring() {
    let c = fresh("CONNECT");
    assert_eq!(c.remote_endpoint(), ("example.com".to_string(), 8082));
    assert_eq!(c.local_endpoint(), ("127.0.0.1".to_string(), 8080));
}
