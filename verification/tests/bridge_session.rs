use quictor::bridge::{
    first_read_action, BridgeError, BridgeSession, CopyAction, CopyEvent, FirstReadAction,
    FirstReadEvent, FIRST_BYTE_TIMEOUT_SECS, FIRST_READ_BUFFER_LEN,
};

#[test]
fn first_read_forwards_data_unchanged() {
    let payload = vec![0x48, 0x49];
    match first_read_action(FirstReadEvent::Data(payload.clone())) {
        FirstReadAction::Forward(bytes) => assert_eq!(bytes, payload),
        _ => panic!("expected a forward"),
    }
}

#[test]
fn first_read_close_ends_cleanly() {
    assert!(matches!(first_read_action(FirstReadEvent::Closed), FirstReadAction::FinishEmpty));
}

#[test]
fn first_read_timeout_aborts_without_data() {
    match first_read_action(FirstReadEvent::TimedOut) {
        FirstReadAction::Abort(e) => assert_eq!(e, BridgeError::Timeout),
        _ => panic!("expected an abort"),
    }
}

#[test]
fn first_read_error_aborts_with_io() {
    match first_read_action(FirstReadEvent::Failed) {
        FirstReadAction::Abort(e) => assert_eq!(e, BridgeError::Io),
        _ => panic!("expected an abort"),
    }
}

#[test]
fn bridge_constants_match_design() {
    assert_eq!(FIRST_READ_BUFFER_LEN, 1024);
    assert_eq!(FIRST_BYTE_TIMEOUT_SECS, 5);
}

fn expect_write(action: CopyAction) -> Vec<u8> {
    match action {
        CopyAction::Write(bytes) => bytes,
        _ => panic!("expected a write"),
    }
}

#[test]
fn session_copies_both_directions_unmodified() {
    let mut s = BridgeSession::new();
    let up = vec![0x48, 0x49];
    let down = vec![1, 2, 3, 4, 5];

    let w = expect_write(s.on_local_read(CopyEvent::Data(up.clone())));
    assert_eq!(w, up);
    let w = expect_write(s.on_remote_read(CopyEvent::Data(down.clone())));
    assert_eq!(w, down);

    assert!(matches!(s.on_local_read(CopyEvent::Eof), CopyAction::CloseDirection));
    assert!(!s.is_complete());
    assert!(matches!(s.on_remote_read(CopyEvent::Eof), CopyAction::CloseDirection));
    assert!(s.is_complete());
    assert_eq!(s.counts(), (2, 5));
}

#[test]
fn session_counts_accumulate_in_order() {
    let mut s = BridgeSession::new();
    let mut sent = Vec::new();
    for chunk in [vec![1u8, 2], vec![3u8], vec![4u8, 5, 6]] {
        let w = expect_write(s.on_local_read(CopyEvent::Data(chunk.clone())));
        assert_eq!(w, chunk);
        sent.extend_from_slice(&chunk);
    }
    assert_eq!(s.counts(), (6, 0));
    assert_eq!(sent, vec![1, 2, 3, 4, 5, 6]);
}

#[test]
fn session_empty_is_complete_after_both_eofs() {
    let mut s = BridgeSession::new();
    s.on_local_read(CopyEvent::Eof);
    s.on_remote_read(CopyEvent::Eof);
    assert!(s.is_complete());
    assert_eq!(s.counts(), (0, 0));
}

#[test]
fn session_read_error_fails() {
    let mut s = BridgeSession::new();
    assert!(matches!(s.on_local_read(CopyEvent::Failed), CopyAction::Fail));
    assert!(s.failed);
    assert_eq!(s.counts(), (0, 0));
}

#[test]
fn sessions_do_not_share_bytes() {
    let payloads: Vec<Vec<u8>> = vec![
        vec![0x10, 0x11, 0x12],
        vec![0x20],
        vec![0x30, 0x31, 0x32, 0x33],
    ];
    let mut sessions: Vec<BridgeSession> = (0..payloads.len()).map(|_| BridgeSession::new()).collect();
    let mut outputs: Vec<Vec<u8>> = vec![Vec::new(); payloads.len()];

    for byte_index in 0..4 {
        for (i, payload) in payloads.iter().enumerate() {
            if byte_index < payload.len() {
                let chunk = vec![payload[byte_index]];
                let w = expect_write(sessions[i].on_local_read(CopyEvent::Data(chunk)));
                outputs[i].extend_from_slice(&w);
            }
        }
    }
    for (i, payload) in payloads.iter().enumerate() {
        assert_eq!(&outputs[i], payload);
        assert_eq!(sessions[i].counts(), (payload.len() as u64, 0));
    }
}
