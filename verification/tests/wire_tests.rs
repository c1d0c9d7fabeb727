use water::error::WaterError;
use water::wire::{encode_record, parse_record, slice_bounds_ok, StreamConfig};

#[test]
fn encode_lays_out_the_exact_bytes() {
    let addr = b"ab".to_vec();
    let name = b"n".to_vec();
    let bytes = encode_record(&addr, 80, &name);
    let expected: Vec<u8> = vec![
        2, 0, 0, 0, 0, 0, 0, 0, // address length
        b'a', b'b', // address
        80, 0, 0, 0, // port
        1, 0, 0, 0, 0, 0, 0, 0, // name length
        b'n', // name
    ];
    assert_eq!(bytes, expected);
}

#[test]
fn parse_inverts_encode() {
    let addr = b"127.0.0.1".to_vec();
    let name = b"CONNECT_REMOTE".to_vec();
    let bytes = encode_record(&addr, 8080, &name);
    let (a, p, n) = parse_record(&bytes).unwrap();
    assert_eq!(a, addr);
    assert_eq!(p, 8080);
    assert_eq!(n, name);
}

#[test]
fn parse_handles_empty_fields() {
    let bytes = encode_record(&Vec::new(), 0, &Vec::new());
    assert_eq!(bytes.len(), 20);
    let (a, p, n) = parse_record(&bytes).unwrap();
    assert!(a.is_empty());
    assert_eq!(p, 0);
    assert!(n.is_empty());
}

#[test]
fn parse_refuses_malformed_records() {
    // too short for the leading length
    let r = parse_record(&b"1234".to_vec());
    assert!(matches!(r, Err(WaterError::MalformedRecord)));

    // an address length pointing past the end
    let mut bytes = encode_record(&b"ab".to_vec(), 80, &b"n".to_vec());
    bytes[0] = 200;
    assert!(matches!(parse_record(&bytes), Err(WaterError::MalformedRecord)));

    // a trailing byte the lengths do not claim
    let mut bytes = encode_record(&b"ab".to_vec(), 80, &b"n".to_vec());
    bytes.push(0);
    assert!(matches!(parse_record(&bytes), Err(WaterError::MalformedRecord)));
}

#[test]
fn stream_config_serializes_like_the_record() {
    let sc = StreamConfig {
        addr: "127.0.0.1".to_string(),
        port: 8080,
        name: "CONNECT_REMOTE".to_string(),
    };
    let bytes = sc.to_bytes().unwrap();
    let (a, p, n) = parse_record(&bytes).unwrap();
    assert_eq!(a, b"127.0.0.1".to_vec());
    assert_eq!(p, 8080);
    assert_eq!(n, b"CONNECT_REMOTE".to_vec());
}

#[test]
fn bounds_check_guards_guest_memory() {
    assert!(slice_bounds_ok(0, 10, 10));
    assert!(slice_bounds_ok(5, 5, 10));
    assert!(!slice_bounds_ok(5, 6, 10));
    assert!(!slice_bounds_ok(u32::MAX, u32::MAX, 65536));
    assert!(slice_bounds_ok(u32::MAX, u32::MAX, u64::MAX));
}
