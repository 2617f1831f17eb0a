//! The whole client-side path over the verified core: handshake bytes in,
//! replies out, then payload bridged unchanged.

use quictor::bridge::{first_read_action, BridgeSession, CopyAction, CopyEvent, FirstReadAction, FirstReadEvent};
use quictor::socks5::{EngineStep, HandshakeEngine, HandshakePhase, TargetAddr};

#[test]
fn client_session_scenario() {
    let mut engine = HandshakeEngine::new();

    // Local client sends the greeting `05 01 00` and is answered `05 00`.
    let (consumed, step) = engine.advance(&vec![0x05, 0x01, 0x00]);
    assert_eq!(consumed, 3);
    match step {
        EngineStep::SendGreetingReply { reply } => assert_eq!(reply, vec![0x05, 0x00]),
        _ => panic!("expected the greeting reply"),
    }

    // It then asks to connect to 127.0.0.1:443 and gets the fixed reply.
    let (consumed, step) = engine.advance(&vec![
        0x05, 0x01, 0x00, 0x01, 0x7F, 0x00, 0x00, 0x01, 0x01, 0xBB,
    ]);
    assert_eq!(consumed, 10);
    let target = match step {
        EngineStep::SendSuccess { reply, target } => {
            assert_eq!(reply, vec![0x05, 0x00, 0x00, 0x01, 0, 0, 0, 0, 0, 0]);
            target
        },
        _ => panic!("expected the success reply"),
    };
    match target {
        TargetAddr::V4 { octets, port } => {
            assert_eq!(octets, vec![0x7F, 0, 0, 1]);
            assert_eq!(port, 443);
        },
        _ => panic!("expected an IPv4 target"),
    }
    assert_eq!(engine.phase, HandshakePhase::Established);

    // The payload `48 49` arrives first and is forwarded unchanged, then
    // the session copies it and closes with the right counts.
    let first = match first_read_action(FirstReadEvent::Data(vec![0x48, 0x49])) {
        FirstReadAction::Forward(bytes) => bytes,
        _ => panic!("expected a forward"),
    };
    assert_eq!(first, vec![0x48, 0x49]);

    let mut session = BridgeSession::new();
    let written = match session.on_local_read(CopyEvent::Data(first)) {
        CopyAction::Write(bytes) => bytes,
        _ => panic!("expected a write"),
    };
    assert_eq!(written, vec![0x48, 0x49]);
    session.on_local_read(CopyEvent::Eof);
    session.on_remote_read(CopyEvent::Eof);
    assert!(session.is_complete());
    assert_eq!(session.counts(), (2, 0));
}
