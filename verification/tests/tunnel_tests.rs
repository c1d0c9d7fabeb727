use water::error::WaterError;
use water::tunnel::{Config, DefaultDecoder, DefaultEncoder, Decoder, Encoder, Tunnel};

#[test]
fn basic_operation() {
    let fd1: i32 = 3;
    let fd2: i32 = 4;

    let mut t: Tunnel<DefaultEncoder, DefaultDecoder> = Tunnel::new()
        .set_inbound(fd1)
        .unwrap()
        .set_outbound(fd2)
        .unwrap()
        .set_encoder(DefaultEncoder)
        .set_decoder(DefaultDecoder);

    let msg = b"hello world".to_vec();
    let n_written = msg.len();
    let encoded = t._write_to_outbound(&msg).unwrap();
    let n_encoded = encoded.len();
    let decoded = t._read_from_outbound(&encoded).unwrap();
    let n_decoded = decoded.len();
    let n_read = decoded.len();
    let out_msg = &decoded[..n_read];

    assert_eq!(n_written, n_decoded); // because IdentityEncoder
    assert_eq!(n_read, n_encoded); // because IdentityEncoder
    assert_eq!(msg, out_msg);
    assert_eq!(n_read, n_written);
}

#[test]
fn read_write() {
    assert!(1 == 1)
}

#[test]
fn large_read_write() {
    assert!(1 == 1)
}

#[test]
fn error_handling() {
    assert!(1 == 1)
}

#[test]
fn identity_encoder_copies_exactly() {
    let input = b"hello".to_vec();
    let mut output = Vec::new();
    let n = DefaultEncoder.encode(&input, &mut output).unwrap();
    assert_eq!(n, 5);
    assert_eq!(output, b"hello".to_vec());

    let mut decoded = Vec::new();
    let n = DefaultDecoder.decode(&output, &mut decoded).unwrap();
    assert_eq!(n, 5);
    assert_eq!(decoded, input);
}

#[test]
fn set_inbound_refuses_negative_fd() {
    let t: Tunnel<DefaultEncoder, DefaultDecoder> = Tunnel::new();
    let r = t.set_inbound(-1);
    assert!(matches!(r, Err(WaterError::InvalidFd)));
}

#[test]
fn set_outbound_tolerates_negative_fd() {
    let t: Tunnel<DefaultEncoder, DefaultDecoder> = Tunnel::new();
    let t = t.set_outbound(-1).unwrap();
    assert!(t.ciphertext_conn.is_none());
}

#[test]
fn transfer_without_decoder_fails() {
    let t: Tunnel<DefaultEncoder, DefaultDecoder> = Tunnel::new();
    let mut t = t.set_inbound(3).unwrap().set_outbound(4).unwrap();
    let r = t._read_from_outbound(&b"x".to_vec());
    assert!(matches!(r, Err(WaterError::NoDecoder)));
    let r = t._write_to_outbound(&b"x".to_vec());
    assert!(matches!(r, Err(WaterError::NoEncoder)));
}

#[test]
fn transfer_without_connection_fails() {
    let t: Tunnel<DefaultEncoder, DefaultDecoder> =
        Tunnel::new().set_encoder(DefaultEncoder).set_decoder(DefaultDecoder);
    let mut t = t;
    let r = t._read_from_outbound(&b"x".to_vec());
    assert!(matches!(r, Err(WaterError::NoConnection)));
    let r = t._write_to_outbound(&b"x".to_vec());
    assert!(matches!(r, Err(WaterError::NoConnection)));
}

#[test]
fn tunnel_config_defaults() {
    let c = Config::new();
    assert_eq!(c.remote_address, "example.com");
    assert_eq!(c.remote_port, 8082);
    assert_eq!(c.local_address, "127.0.0.1");
    assert_eq!(c.local_port, 8080);
    assert!(!c.bypass);
}
