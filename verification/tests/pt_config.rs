use quictor::config::{
    client_transport_config, server_transport_config, transport_tuning, PeerVerification,
    CONNECTION_RECEIVE_WINDOW, IDLE_TIMEOUT_SECS, MAX_BIDI_STREAMS, MAX_EARLY_DATA_SIZE,
    MAX_UNI_STREAMS, STREAM_RECEIVE_WINDOW,
};
use quictor::pt::{
    cmethod_line, cmethods_done_line, detect_mode, parse_bind_spec, parse_transport_list,
    smethod_line, smethods_done_line, version_line, ClientEnv, EnvError, PtMode, ServerEnv,
};
use quictor::session::{
    stream_accept_disposition, StreamAcceptDisposition, StreamAcceptEvent,
};
use quictor::{DEFAULT_PORT, VERSION};

#[test]
fn crate_constants() {
    assert_eq!(VERSION, "0.1.0");
    assert_eq!(DEFAULT_PORT, 4433);
}

#[test]
fn mode_detection() {
    assert_eq!(detect_mode(true, false), Ok(PtMode::Client));
    assert_eq!(detect_mode(true, true), Ok(PtMode::Client));
    assert_eq!(detect_mode(false, true), Ok(PtMode::Server));
    assert_eq!(detect_mode(false, false), Err(EnvError::ModeUnset));
}

#[test]
fn transport_list_parsing() {
    assert_eq!(parse_transport_list("quictor"), vec!["quictor".to_string()]);
    assert_eq!(
        parse_transport_list(" quictor , obfs4 "),
        vec!["quictor".to_string(), "obfs4".to_string()]
    );
    assert_eq!(
        parse_transport_list("a,,b,  ,c"),
        vec!["a".to_string(), "b".to_string(), "c".to_string()]
    );
    assert_eq!(parse_transport_list(""), Vec::<String>::new());
    assert_eq!(parse_transport_list(" , "), Vec::<String>::new());
}

#[test]
fn bind_spec_parsing() {
    let spec = parse_bind_spec("quictor-127.0.0.1:4433").unwrap();
    assert_eq!(spec.transport, "quictor");
    assert_eq!(spec.address, "127.0.0.1:4433");

    let spec = parse_bind_spec("quictor-[::1]:4433").unwrap();
    assert_eq!(spec.transport, "quictor");
    assert_eq!(spec.address, "[::1]:4433");

    assert_eq!(parse_bind_spec("no separator").unwrap_err(), EnvError::InvalidBindSpec);
}

#[test]
fn client_env_from_settings() {
    let env = ClientEnv::from_settings(
        "quictor,meek",
        "/var/lib/pt".to_string(),
        Some("socks5://127.0.0.1:9050".to_string()),
    );
    assert_eq!(env.transports, vec!["quictor".to_string(), "meek".to_string()]);
    assert_eq!(env.state_location, "/var/lib/pt");
    assert_eq!(env.proxy.as_deref(), Some("socks5://127.0.0.1:9050"));
}

#[test]
fn server_env_from_settings() {
    let env = ServerEnv::from_settings(
        "quictor",
        "quictor-0.0.0.0:4433",
        "127.0.0.1:9001".to_string(),
        "/var/lib/pt".to_string(),
    )
    .unwrap();
    assert_eq!(env.transports, vec!["quictor".to_string()]);
    assert_eq!(env.orport, "127.0.0.1:9001");
    assert_eq!(env.state_location, "/var/lib/pt");
    assert_eq!(
        env.bind_address_for(&"quictor".to_string()),
        Some("0.0.0.0:4433".to_string())
    );
    assert_eq!(env.bind_address_for(&"obfs4".to_string()), None);

    assert_eq!(
        ServerEnv::from_settings("quictor", "bad", "o".to_string(), "s".to_string()).unwrap_err(),
        EnvError::InvalidBindSpec
    );
}

#[test]
fn readiness_lines() {
    assert_eq!(version_line(), "VERSION 1");
    assert_eq!(cmethod_line("127.0.0.1:35000"), "CMETHOD quictor socks5 127.0.0.1:35000");
    assert_eq!(cmethods_done_line(), "CMETHODS DONE");
    assert_eq!(smethod_line("0.0.0.0:4433"), "SMETHOD quictor 0.0.0.0:4433");
    assert_eq!(smethods_done_line(), "SMETHODS DONE");
}

#[test]
fn transport_tuning_values() {
    let t = transport_tuning();
    assert_eq!(t.max_bidi_streams, 100);
    assert_eq!(t.max_uni_streams, 100);
    assert_eq!(t.stream_receive_window, 2 * 1024 * 1024);
    assert_eq!(t.connection_receive_window, 8 * 1024 * 1024);
    assert_eq!(t.idle_timeout_secs, 60);
    assert_eq!(MAX_BIDI_STREAMS, 100);
    assert_eq!(MAX_UNI_STREAMS, 100);
    assert_eq!(STREAM_RECEIVE_WINDOW, 2 * 1024 * 1024);
    assert_eq!(CONNECTION_RECEIVE_WINDOW, 8 * 1024 * 1024);
    assert_eq!(IDLE_TIMEOUT_SECS, 60);
    assert_eq!(MAX_EARLY_DATA_SIZE, 0xffff_ffff);
}

#[test]
fn server_config_values() {
    let c = server_transport_config();
    assert_eq!(c.tuning, transport_tuning());
    assert!(!c.require_client_auth);
    assert_eq!(c.max_early_data_size, 0xffff_ffff);
}

#[test]
fn client_config_values() {
    let c = client_transport_config(PeerVerification::AcceptAny);
    assert_eq!(c.tuning, transport_tuning());
    assert!(c.enable_early_data);
    assert_eq!(c.verification, PeerVerification::AcceptAny);
    assert_eq!(PeerVerification::default(), PeerVerification::Strict);
}

#[test]
fn stream_accept_dispositions() {
    assert_eq!(
        stream_accept_disposition(StreamAcceptEvent::StreamReady),
        StreamAcceptDisposition::BridgeStream
    );
    assert_eq!(
        stream_accept_disposition(StreamAcceptEvent::ApplicationClosed),
        StreamAcceptDisposition::EndQuietly
    );
    assert_eq!(
        stream_accept_disposition(StreamAcceptEvent::TimedOut),
        StreamAcceptDisposition::EndQuietly
    );
    assert_eq!(
        stream_accept_disposition(StreamAcceptEvent::OtherError),
        StreamAcceptDisposition::EndWithError
    );
}
