use cormorant::network_handler::protocol::{
    decode, encode, DecodeError, EncodeError, PingCommand, PongResponse, Protocol,
};

#[test]
fn ping_round_trip() {
    let ping = Protocol::Ping(PingCommand::new(1234567890, String::from("0.0.1")));
    let bytes = encode(&ping).unwrap();
    let back = decode(&bytes).unwrap();
    assert_eq!(back, Protocol::Ping(PingCommand::new(1234567890, String::from("0.0.1"))));
}

#[test]
fn pong_round_trip() {
    let pong = Protocol::Pong(PongResponse::new(-7, String::from("12.34.56")));
    let bytes = encode(&pong).unwrap();
    let back = decode(&bytes).unwrap();
    assert_eq!(back, Protocol::Pong(PongResponse::new(-7, String::from("12.34.56"))));
}

#[test]
fn multibyte_version_round_trip() {
    let ping = Protocol::Ping(PingCommand::new(0, String::from("0.1.0-ému")));
    let bytes = encode(&ping).unwrap();
    let back = decode(&bytes).unwrap();
    match back {
        Protocol::Ping(c) => {
            assert_eq!(c.time, 0);
            assert_eq!(c.version, "0.1.0-ému");
        }
        _ => panic!("expected a ping"),
    }
}

#[test]
fn ping_exact_wire_bytes() {
    let ping = Protocol::Ping(PingCommand::new(1, String::from("AB")));
    let bytes = encode(&ping).unwrap();
    assert_eq!(bytes, vec![0u8, 1, 0, 0, 0, 0, 0, 0, 0, 2, 65, 66]);
}

#[test]
fn pong_exact_wire_bytes() {
    let pong = Protocol::Pong(PongResponse::new(-1, String::new()));
    let bytes = encode(&pong).unwrap();
    assert_eq!(bytes, vec![1u8, 255, 255, 255, 255, 255, 255, 255, 255, 0]);
}

#[test]
fn encode_rejects_oversized_version() {
    let long = "v".repeat(119);
    let ping = Protocol::Ping(PingCommand::new(0, long));
    assert_eq!(encode(&ping).unwrap_err(), EncodeError::Oversized);
}

#[test]
fn encode_accepts_largest_version() {
    let long = "v".repeat(118);
    let ping = Protocol::Ping(PingCommand::new(0, long));
    let bytes = encode(&ping).unwrap();
    assert_eq!(bytes.len(), 128);
    assert!(decode(&bytes).is_ok());
}

#[test]
fn decode_rejects_unknown_tag() {
    let mut bytes = vec![2u8];
    bytes.extend_from_slice(&[0; 9]);
    assert_eq!(decode(&bytes).unwrap_err(), DecodeError::UnknownTag);
}

#[test]
fn decode_rejects_truncated_header() {
    assert_eq!(decode(&[]).unwrap_err(), DecodeError::Truncated);
    assert_eq!(decode(&[0u8, 1, 2]).unwrap_err(), DecodeError::Truncated);
}

#[test]
fn decode_rejects_truncated_payload() {
    let ping = Protocol::Ping(PingCommand::new(5, String::from("0.0.1")));
    let bytes = encode(&ping).unwrap();
    let cut = &bytes[..bytes.len() - 2];
    assert_eq!(decode(cut).unwrap_err(), DecodeError::LengthMismatch);
}

#[test]
fn decode_rejects_trailing_garbage() {
    let ping = Protocol::Ping(PingCommand::new(5, String::from("0.0.1")));
    let mut bytes = encode(&ping).unwrap();
    bytes.push(0);
    assert_eq!(decode(&bytes).unwrap_err(), DecodeError::LengthMismatch);
}

#[test]
fn decode_rejects_invalid_version_bytes() {
    // a frame whose version bytes are not UTF-8
    let bytes = vec![0u8, 0, 0, 0, 0, 0, 0, 0, 0, 2, 0xff, 0xfe];
    assert_eq!(decode(&bytes).unwrap_err(), DecodeError::InvalidVersion);
}

#[test]
fn decode_rejects_over_budget_input() {
    let bytes = vec![0u8; 129];
    assert_eq!(decode(&bytes).unwrap_err(), DecodeError::TooLong);
}

#[test]
fn encoding_is_deterministic() {
    let a = Protocol::Ping(PingCommand::new(42, String::from("1.2.3")));
    let b = Protocol::Ping(PingCommand::new(42, String::from("1.2.3")));
    assert_eq!(encode(&a).unwrap(), encode(&b).unwrap());
}
