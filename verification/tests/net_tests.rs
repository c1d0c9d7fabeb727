use water::error::WaterError;
use water::net::{
    default_addr, default_tcp_port, default_tls_port, ConnectFile, File, FileName, ListenFile,
};

#[test]
fn file_names_must_not_contain_a_colon() {
    let ok = FileName::try_from("plain".to_string()).unwrap();
    assert_eq!(ok.0, "plain");

    let empty = FileName::try_from(String::new()).unwrap();
    assert_eq!(empty.0, "");

    let r = FileName::try_from("a:b".to_string());
    assert!(matches!(r, Err(WaterError::InvalidFileName)));
    let r = FileName::try_from(":".to_string());
    assert!(matches!(r, Err(WaterError::InvalidFileName)));
}

#[test]
fn named_descriptors_use_their_name() {
    let listen = File::Listen(ListenFile::Tcp {
        name: FileName::try_from("front".to_string()).unwrap(),
        addr: default_addr(),
        port: default_tcp_port(),
    });
    assert_eq!(listen.name(), "front");

    let tls = File::Listen(ListenFile::Tls {
        name: FileName::try_from("secure".to_string()).unwrap(),
        addr: default_addr(),
        port: default_tls_port(),
    });
    assert_eq!(tls.name(), "secure");

    let named = File::Connect(ConnectFile::Tcp {
        name: Some(FileName::try_from("upstream".to_string()).unwrap()),
        host: "example.com".to_string(),
        port: default_tcp_port(),
    });
    assert_eq!(named.name(), "upstream");
}

#[test]
fn unnamed_connections_fall_back_to_the_host() {
    let unnamed = File::Connect(ConnectFile::Tcp {
        name: None,
        host: "example.com".to_string(),
        port: default_tcp_port(),
    });
    assert_eq!(unnamed.name(), "example.com");

    let unnamed_tls = File::Connect(ConnectFile::Tls {
        name: None,
        host: "tls.example.com".to_string(),
        port: default_tls_port(),
    });
    assert_eq!(unnamed_tls.name(), "tls.example.com");
}

#[test]
fn defaults_match_the_protocols() {
    assert_eq!(default_tcp_port(), 80);
    assert_eq!(default_tls_port(), 443);
    assert_eq!(default_addr(), "::");
}
