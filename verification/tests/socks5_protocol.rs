use quictor::socks5::{
    client_greeting, decode_greeting, decode_request, encode_connect_request, greeting_reply,
    parse_connect_reply_header, parse_method_reply, reply_trailer_len, success_reply,
    EngineStep, GreetingStep, HandshakeEngine, HandshakePhase, HandshakeError, ReplyAddrTag,
    RequestStep, TargetAddr,
};

fn v4_target(octets: [u8; 4], port: u16) -> TargetAddr {
    TargetAddr::V4 { octets: octets.to_vec(), port }
}

fn v6_target(octets: [u8; 16], port: u16) -> TargetAddr {
    TargetAddr::V6 { octets: octets.to_vec(), port }
}

#[test]
fn greeting_decodes_with_methods() {
    let buf = vec![0x05, 0x02, 0x00, 0x01];
    match decode_greeting(&buf) {
        GreetingStep::Accept { consumed } => assert_eq!(consumed, 4),
        _ => panic!("expected accept"),
    }
}

#[test]
fn greeting_incomplete_waits() {
    assert!(matches!(decode_greeting(&vec![0x05]), GreetingStep::Incomplete));
    assert!(matches!(decode_greeting(&vec![0x05, 0x02, 0x00]), GreetingStep::Incomplete));
}

#[test]
fn greeting_wrong_version_rejected() {
    match decode_greeting(&vec![0x04, 0x01, 0x00]) {
        GreetingStep::Reject(e) => assert_eq!(e, HandshakeError::UnsupportedVersion),
        _ => panic!("expected reject"),
    }
}

#[test]
fn request_ipv4_decodes() {
    let buf = vec![0x05, 0x01, 0x00, 0x01, 127, 0, 0, 1, 0x01, 0xBB];
    match decode_request(&buf) {
        RequestStep::Accept { target, consumed } => {
            assert_eq!(consumed, 10);
            match target {
                TargetAddr::V4 { octets, port } => {
                    assert_eq!(octets, vec![127, 0, 0, 1]);
                    assert_eq!(port, 443);
                },
                _ => panic!("expected an IPv4 target"),
            }
        },
        _ => panic!("expected accept"),
    }
}

#[test]
fn request_domain_decodes() {
    let mut buf = vec![0x05, 0x01, 0x00, 0x03, 11];
    buf.extend_from_slice(b"example.com");
    buf.extend_from_slice(&[0x00, 0x50]);
    match decode_request(&buf) {
        RequestStep::Accept { target, consumed } => {
            assert_eq!(consumed, 18);
            match target {
                TargetAddr::Domain { name, port } => {
                    assert_eq!(name, b"example.com".to_vec());
                    assert_eq!(port, 80);
                },
                _ => panic!("expected a domain target"),
            }
        },
        _ => panic!("expected accept"),
    }
}

#[test]
fn request_ipv6_decodes() {
    let mut buf = vec![0x05, 0x01, 0x00, 0x04];
    let addr = [0u8, 0, 0, 0, 0, 0, 0, 0, 0, 0, 0, 0, 0, 0, 0, 1];
    buf.extend_from_slice(&addr);
    buf.extend_from_slice(&[0x1F, 0x90]);
    match decode_request(&buf) {
        RequestStep::Accept { target, consumed } => {
            assert_eq!(consumed, 22);
            match target {
                TargetAddr::V6 { octets, port } => {
                    assert_eq!(octets, addr.to_vec());
                    assert_eq!(port, 8080);
                },
                _ => panic!("expected an IPv6 target"),
            }
        },
        _ => panic!("expected accept"),
    }
}

#[test]
fn request_trailing_payload_left_alone() {
    let mut buf = vec![0x05, 0x01, 0x00, 0x01, 10, 0, 0, 5, 0x11, 0x51];
    buf.extend_from_slice(&[0x48, 0x49]);
    match decode_request(&buf) {
        RequestStep::Accept { consumed, .. } => assert_eq!(consumed, 10),
        _ => panic!("expected accept"),
    }
}

#[test]
fn request_wrong_version_rejected() {
    match decode_request(&vec![0x04, 0x01, 0x00, 0x01, 1, 2, 3, 4, 0, 80]) {
        RequestStep::Reject(e) => assert_eq!(e, HandshakeError::UnsupportedVersion),
        _ => panic!("expected reject"),
    }
}

#[test]
fn request_wrong_command_rejected() {
    match decode_request(&vec![0x05, 0x02, 0x00, 0x01, 1, 2, 3, 4, 0, 80]) {
        RequestStep::Reject(e) => assert_eq!(e, HandshakeError::UnsupportedCommand),
        _ => panic!("expected reject"),
    }
}

#[test]
fn request_wrong_address_type_rejected() {
    match decode_request(&vec![0x05, 0x01, 0x00, 0x02, 1, 2, 3, 4, 0, 80]) {
        RequestStep::Reject(e) => assert_eq!(e, HandshakeError::UnsupportedAddressType),
        _ => panic!("expected reject"),
    }
}

#[test]
fn request_incomplete_waits() {
    assert!(matches!(decode_request(&vec![0x05, 0x01, 0x00]), RequestStep::Incomplete));
    assert!(matches!(
        decode_request(&vec![0x05, 0x01, 0x00, 0x01, 127, 0]),
        RequestStep::Incomplete
    ));
    assert!(matches!(
        decode_request(&vec![0x05, 0x01, 0x00, 0x03, 5, b'a']),
        RequestStep::Incomplete
    ));
}

#[test]
fn replies_have_fixed_bytes() {
    assert_eq!(greeting_reply(), vec![0x05, 0x00]);
    assert_eq!(success_reply(), vec![0x05, 0x00, 0x00, 0x01, 0, 0, 0, 0, 0, 0]);
    assert_eq!(client_greeting(), vec![0x05, 0x01, 0x00]);
}

#[test]
fn engine_full_handshake() {
    let mut engine = HandshakeEngine::new();
    assert_eq!(engine.phase, HandshakePhase::AwaitingGreeting);

    let (consumed, step) = engine.advance(&vec![0x05, 0x01, 0x00]);
    assert_eq!(consumed, 3);
    match step {
        EngineStep::SendGreetingReply { reply } => assert_eq!(reply, vec![0x05, 0x00]),
        _ => panic!("expected the greeting reply"),
    }
    assert_eq!(engine.phase, HandshakePhase::AwaitingRequest);

    let request = vec![0x05, 0x01, 0x00, 0x01, 0x7F, 0x00, 0x00, 0x01, 0x01, 0xBB];
    let (consumed, step) = engine.advance(&request);
    assert_eq!(consumed, 10);
    match step {
        EngineStep::SendSuccess { reply, target } => {
            assert_eq!(reply, vec![0x05, 0x00, 0x00, 0x01, 0, 0, 0, 0, 0, 0]);
            match target {
                TargetAddr::V4 { octets, port } => {
                    assert_eq!(octets, vec![127, 0, 0, 1]);
                    assert_eq!(port, 443);
                },
                _ => panic!("expected an IPv4 target"),
            }
        },
        _ => panic!("expected the success reply"),
    }
    assert_eq!(engine.phase, HandshakePhase::Established);
}

#[test]
fn engine_needs_more_on_partial_input() {
    let mut engine = HandshakeEngine::new();
    let (consumed, step) = engine.advance(&vec![0x05]);
    assert_eq!(consumed, 0);
    assert!(matches!(step, EngineStep::NeedMore));
    assert_eq!(engine.phase, HandshakePhase::AwaitingGreeting);
}

#[test]
fn engine_fails_on_bad_version_without_reply() {
    let mut engine = HandshakeEngine::new();
    let (consumed, step) = engine.advance(&vec![0x04, 0x01, 0x00]);
    assert_eq!(consumed, 0);
    match step {
        EngineStep::Fail { error } => assert_eq!(error, HandshakeError::UnsupportedVersion),
        _ => panic!("expected failure"),
    }
    assert_eq!(engine.phase, HandshakePhase::Failed);
}

#[test]
fn engine_fails_on_bad_request_without_success_reply() {
    let mut engine = HandshakeEngine::new();
    let (_, step) = engine.advance(&vec![0x05, 0x01, 0x00]);
    assert!(matches!(step, EngineStep::SendGreetingReply { .. }));
    let (consumed, step) = engine.advance(&vec![0x05, 0x03, 0x00, 0x01, 1, 2, 3, 4, 0, 80]);
    assert_eq!(consumed, 0);
    match step {
        EngineStep::Fail { error } => assert_eq!(error, HandshakeError::UnsupportedCommand),
        _ => panic!("expected failure"),
    }
    assert_eq!(engine.phase, HandshakePhase::Failed);
}

#[test]
fn engine_is_inert_once_done() {
    let mut engine = HandshakeEngine::new();
    engine.advance(&vec![0x04]);
    assert_eq!(engine.phase, HandshakePhase::AwaitingGreeting);
    engine.advance(&vec![0x04, 0x00]);
    assert_eq!(engine.phase, HandshakePhase::Failed);
    let (consumed, step) = engine.advance(&vec![0x05, 0x01, 0x00]);
    assert_eq!(consumed, 0);
    assert!(matches!(step, EngineStep::NeedMore));
    assert_eq!(engine.phase, HandshakePhase::Failed);
}

#[test]
fn encode_round_trips_ipv4() {
    let target = v4_target([198, 51, 100, 5], 4433);
    let encoded = encode_connect_request(&target);
    assert_eq!(encoded, vec![0x05, 0x01, 0x00, 0x01, 198, 51, 100, 5, 0x11, 0x51]);
    match decode_request(&encoded) {
        RequestStep::Accept { target, consumed } => {
            assert_eq!(consumed, 10);
            match target {
                TargetAddr::V4 { octets, port } => {
                    assert_eq!(octets, vec![198, 51, 100, 5]);
                    assert_eq!(port, 4433);
                },
                _ => panic!("expected an IPv4 target"),
            }
        },
        _ => panic!("expected accept"),
    }
}

#[test]
fn encode_round_trips_ipv6() {
    let addr = [0x20, 0x01, 0x0d, 0xb8, 0, 0, 0, 0, 0, 0, 0, 0, 0, 0, 0, 0x42];
    let target = v6_target(addr, 443);
    let encoded = encode_connect_request(&target);
    assert_eq!(encoded.len(), 22);
    assert_eq!(encoded[3], 0x04);
    match decode_request(&encoded) {
        RequestStep::Accept { target, consumed } => {
            assert_eq!(consumed, 22);
            match target {
                TargetAddr::V6 { octets, port } => {
                    assert_eq!(octets, addr.to_vec());
                    assert_eq!(port, 443);
                },
                _ => panic!("expected an IPv6 target"),
            }
        },
        _ => panic!("expected accept"),
    }
}

#[test]
fn encode_round_trips_domain() {
    let target = TargetAddr::Domain { name: b"example.com".to_vec(), port: 80 };
    let encoded = encode_connect_request(&target);
    match decode_request(&encoded) {
        RequestStep::Accept { target, consumed } => {
            assert_eq!(consumed, encoded.len());
            match target {
                TargetAddr::Domain { name, port } => {
                    assert_eq!(name, b"example.com".to_vec());
                    assert_eq!(port, 80);
                },
                _ => panic!("expected a domain target"),
            }
        },
        _ => panic!("expected accept"),
    }
}

#[test]
fn method_reply_judged() {
    assert!(parse_method_reply(0x05, 0x00).is_ok());
    assert_eq!(parse_method_reply(0x04, 0x00), Err(HandshakeError::UnsupportedVersion));
    assert_eq!(parse_method_reply(0x05, 0x02), Err(HandshakeError::BadReply));
}

#[test]
fn connect_reply_header_judged() {
    assert_eq!(parse_connect_reply_header(0x05, 0x00, 0x01), Ok(ReplyAddrTag::V4));
    assert_eq!(parse_connect_reply_header(0x05, 0x00, 0x03), Ok(ReplyAddrTag::Domain));
    assert_eq!(parse_connect_reply_header(0x05, 0x00, 0x04), Ok(ReplyAddrTag::V6));
    assert_eq!(
        parse_connect_reply_header(0x04, 0x00, 0x01),
        Err(HandshakeError::UnsupportedVersion)
    );
    assert_eq!(parse_connect_reply_header(0x05, 0x01, 0x01), Err(HandshakeError::BadReply));
    assert_eq!(
        parse_connect_reply_header(0x05, 0x00, 0x05),
        Err(HandshakeError::UnsupportedAddressType)
    );
}

#[test]
fn reply_trailer_lengths() {
    assert_eq!(reply_trailer_len(ReplyAddrTag::V4, 0), 6);
    assert_eq!(reply_trailer_len(ReplyAddrTag::V6, 0), 18);
    assert_eq!(reply_trailer_len(ReplyAddrTag::Domain, 11), 13);
}
