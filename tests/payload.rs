use btc_p2p::{
    BTCP2PError, Command, IpAddress, Payload, ServiceFlags, SocketAddress, VersionPayload,
    PROTOCOL_VERSION, USER_AGENT,
};

fn mapped_localhost() -> [u8; 16] {
    [0, 0, 0, 0, 0, 0, 0, 0, 0, 0, 0xff, 0xff, 127, 0, 0, 1]
}

fn sample_version() -> VersionPayload {
    VersionPayload {
        version: 70015,
        services: 1,
        timestamp: 1_700_000_000,
        addr_recv_serv: 1,
        addr_recv: mapped_localhost(),
        addr_recv_port: 8333,
        addr_trans_serv: 0x0409,
        addr_trans: [
            0x20, 0x01, 0x0d, 0xb8, 0, 0, 0, 0, 0, 0, 0, 0, 0, 0, 0, 0x42,
        ],
        addr_trans_port: 18333,
        nonce: 0x0102_0304_0506_0708,
        user_agent: "/Satoshi:25.0.0/".to_string(),
        start_height: 800_000,
        relay: true,
    }
}

fn sample_version_bytes() -> Vec<u8> {
    let mut b = vec![0x7f, 0x11, 0x01, 0x00];
    b.extend_from_slice(&[1, 0, 0, 0, 0, 0, 0, 0]);
    b.extend_from_slice(&[0x00, 0xf1, 0x53, 0x65, 0, 0, 0, 0]);
    b.extend_from_slice(&[1, 0, 0, 0, 0, 0, 0, 0]);
    b.extend_from_slice(&mapped_localhost());
    b.extend_from_slice(&[0x20, 0x8d]);
    b.extend_from_slice(&[0x09, 0x04, 0, 0, 0, 0, 0, 0]);
    b.extend_from_slice(&[
        0x20, 0x01, 0x0d, 0xb8, 0, 0, 0, 0, 0, 0, 0, 0, 0, 0, 0, 0x42,
    ]);
    b.extend_from_slice(&[0x47, 0x9d]);
    b.extend_from_slice(&[0x08, 0x07, 0x06, 0x05, 0x04, 0x03, 0x02, 0x01]);
    b.push(16);
    b.extend_from_slice(b"/Satoshi:25.0.0/");
    b.extend_from_slice(&[0x00, 0x35, 0x0c, 0x00]);
    b.push(1);
    b
}

#[test]
fn version_payload_exact_bytes() {
    let bytes = sample_version().to_bytes().unwrap();
    assert_eq!(bytes.len(), 86 + 16);
    assert_eq!(bytes, sample_version_bytes());
}

#[test]
fn version_payload_round_trip() {
    let v = sample_version();
    let bytes = v.to_bytes().unwrap();
    assert_eq!(VersionPayload::from_bytes(&bytes).unwrap(), v);
}

#[test]
fn version_payload_negative_fields_round_trip() {
    let mut v = sample_version();
    v.version = -1;
    v.timestamp = -2;
    v.start_height = i32::MIN;
    v.relay = false;
    v.user_agent = String::new();
    let bytes = v.to_bytes().unwrap();
    assert_eq!(&bytes[0..4], &[0xff, 0xff, 0xff, 0xff]);
    assert_eq!(&bytes[12..20], &[0xfe, 0xff, 0xff, 0xff, 0xff, 0xff, 0xff, 0xff]);
    assert_eq!(bytes[80], 0);
    assert_eq!(&bytes[81..85], &[0x00, 0x00, 0x00, 0x80]);
    assert_eq!(bytes[85], 0);
    assert_eq!(bytes.len(), 86);
    assert_eq!(VersionPayload::from_bytes(&bytes).unwrap(), v);
}

#[test]
fn version_payload_multibyte_user_agent_round_trip() {
    let mut v = sample_version();
    v.user_agent = "/nœud:1.0/€".to_string();
    let bytes = v.to_bytes().unwrap();
    assert_eq!(bytes[80] as usize, v.user_agent.len());
    assert_eq!(VersionPayload::from_bytes(&bytes).unwrap(), v);
}

#[test]
fn version_payload_longest_user_agent() {
    let mut v = sample_version();
    v.user_agent = "a".repeat(255);
    let bytes = v.to_bytes().unwrap();
    assert_eq!(bytes[80], 255);
    assert_eq!(bytes.len(), 86 + 255);
    assert_eq!(VersionPayload::from_bytes(&bytes).unwrap(), v);
}

#[test]
fn version_payload_user_agent_too_long() {
    let mut v = sample_version();
    v.user_agent = "a".repeat(256);
    assert_eq!(v.to_bytes(), Err(BTCP2PError::UserAgentTooLong));
    assert_eq!(
        Payload::Version(v).to_bytes(),
        Err(BTCP2PError::UserAgentTooLong)
    );
}

#[test]
fn version_payload_truncated() {
    let bytes = sample_version_bytes();
    for cut in [0, 1, 40, 80, 81, 96, 97, 100, 101] {
        assert_eq!(
            VersionPayload::from_bytes(&bytes[..cut]),
            Err(BTCP2PError::DecodeTruncated),
            "cut at {}",
            cut
        );
    }
    assert!(VersionPayload::from_bytes(&bytes[..102]).is_ok());
}

#[test]
fn version_payload_trailing_bytes_ignored() {
    let mut bytes = sample_version_bytes();
    bytes.extend_from_slice(&[9, 9, 9]);
    assert_eq!(VersionPayload::from_bytes(&bytes).unwrap(), sample_version());
}

#[test]
fn version_payload_invalid_utf8() {
    let mut bytes = sample_version_bytes();
    bytes[81] = 0xff;
    assert_eq!(
        VersionPayload::from_bytes(&bytes),
        Err(BTCP2PError::InvalidUtf8)
    );
    // a slice that ends before the fields after the user agent is truncated,
    // whatever the user agent holds
    assert_eq!(
        VersionPayload::from_bytes(&bytes[..97]),
        Err(BTCP2PError::DecodeTruncated)
    );
    assert_eq!(
        VersionPayload::from_bytes(&bytes[..101]),
        Err(BTCP2PError::DecodeTruncated)
    );
    let mut short = vec![0u8; 82];
    short[80] = 1;
    short[81] = 0xff;
    assert_eq!(
        VersionPayload::from_bytes(&short),
        Err(BTCP2PError::DecodeTruncated)
    );
    short.extend_from_slice(&[0, 0, 0, 0, 0]);
    assert_eq!(
        VersionPayload::from_bytes(&short),
        Err(BTCP2PError::InvalidUtf8)
    );
}

#[test]
fn payload_ping_pong_encoding() {
    assert_eq!(
        Payload::Pong(0x0102030405060708).to_bytes().unwrap(),
        vec![8, 7, 6, 5, 4, 3, 2, 1]
    );
    assert_eq!(Payload::Ping(0).to_bytes().unwrap(), vec![0; 8]);
    assert_eq!(Payload::Ping(u64::MAX).to_bytes().unwrap(), vec![0xff; 8]);
    assert_eq!(Payload::VerAck.to_bytes().unwrap(), Vec::<u8>::new());
    assert_eq!(Payload::Empty.to_bytes().unwrap(), Vec::<u8>::new());
}

#[test]
fn payload_round_trip_each_command() {
    let cases = [
        (Command::Version, Payload::Version(sample_version())),
        (Command::VerAck, Payload::VerAck),
        (Command::Ping, Payload::Ping(256)),
        (Command::Pong, Payload::Pong(u64::MAX)),
    ];
    for (c, p) in cases {
        let bytes = p.to_bytes().unwrap();
        assert_eq!(Payload::from_bytes(&c, &bytes).unwrap(), p);
    }
}

#[test]
fn payload_decode_is_directed_by_command() {
    let bytes = [0, 1, 0, 0, 0, 0, 0, 0];
    assert_eq!(
        Payload::from_bytes(&Command::Ping, &bytes).unwrap(),
        Payload::Ping(256)
    );
    assert_eq!(
        Payload::from_bytes(&Command::Pong, &bytes).unwrap(),
        Payload::Pong(256)
    );
    assert_eq!(
        Payload::from_bytes(&Command::VerAck, &bytes).unwrap(),
        Payload::VerAck
    );
    assert_eq!(
        Payload::from_bytes(&Command::Version, &bytes),
        Err(BTCP2PError::DecodeTruncated)
    );
}

#[test]
fn payload_ping_needs_eight_bytes() {
    assert_eq!(
        Payload::from_bytes(&Command::Ping, &[0; 7]),
        Err(BTCP2PError::DecodeTruncated)
    );
    assert_eq!(
        Payload::from_bytes(&Command::Pong, &[0; 9]),
        Err(BTCP2PError::DecodeTruncated)
    );
    assert_eq!(
        Payload::from_bytes(&Command::Ping, &[]),
        Err(BTCP2PError::DecodeTruncated)
    );
}

#[test]
fn service_flags_round_trip() {
    assert_eq!(ServiceFlags::from_u64(0x0409).to_u64(), 0x0409);
    assert_eq!(ServiceFlags::from(7u64).to_u64(), 7);
    assert_eq!(
        ServiceFlags::from_u64(ServiceFlags::NODE_NETWORK | ServiceFlags::NODE_WITNESS).to_u64(),
        9
    );
    assert_eq!(ServiceFlags::NODE_NETWORK_LIMITED, 0x0400);
    assert_eq!(ServiceFlags::UNNAMED, 0);
}

#[test]
fn build_maps_addresses_and_fills_fields() {
    let recv = SocketAddress {
        ip: IpAddress::V4([10, 0, 0, 7]),
        port: 8333,
    };
    let v6 = [0x20, 0x01, 0x0d, 0xb8, 1, 2, 3, 4, 5, 6, 7, 8, 9, 10, 11, 12];
    let trans = SocketAddress {
        ip: IpAddress::V6(v6),
        port: 18444,
    };
    let p = VersionPayload::build(
        ServiceFlags::from_u64(ServiceFlags::NODE_NETWORK),
        ServiceFlags::from_u64(ServiceFlags::UNNAMED),
        recv,
        ServiceFlags::from_u64(ServiceFlags::NODE_BLOOM),
        trans,
        42,
        -5,
        true,
        1_600_000_000,
    );
    let v = match p {
        Payload::Version(v) => v,
        other => panic!("expected a version payload, got {:?}", other),
    };
    assert_eq!(v.version, PROTOCOL_VERSION);
    assert_eq!(v.version, 70015);
    assert_eq!(v.services, 1);
    assert_eq!(v.addr_recv_serv, 0);
    assert_eq!(v.addr_trans_serv, 4);
    assert_eq!(v.timestamp, 1_600_000_000);
    assert_eq!(
        v.addr_recv,
        [0, 0, 0, 0, 0, 0, 0, 0, 0, 0, 0xff, 0xff, 10, 0, 0, 7]
    );
    assert_eq!(v.addr_recv_port, 8333);
    assert_eq!(v.addr_trans, v6);
    assert_eq!(v.addr_trans_port, 18444);
    assert_eq!(v.nonce, 42);
    assert_eq!(v.user_agent, USER_AGENT);
    assert_eq!(v.start_height, -5);
    assert!(v.relay);
}
