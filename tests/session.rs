use tsclientlib_node::client::{ClientError, ConnectOptions, DisconnectParams, LogFlags, SessionHandle};
use tsclientlib_node::events::{should_report_decode_error, DisconnectReason, ErrorCode, NativeEvent};
use tsclientlib_node::identity::{decimal_string, identity_to_string};
use tsclientlib_node::session::{Action, LoopInput, LoopState, Phase};

fn emitted(acts: &[Action]) -> Vec<String> {
    acts.iter()
        .filter_map(|a| match a {
            Action::Emit(e) => Some(e.name().to_string()),
            _ => None,
        })
        .collect()
}

#[test]
fn odd_push_is_an_argument_error() {
    let mut h = SessionHandle::new();
    assert_eq!(h.push_frame(&[1, 2, 3]).unwrap_err(), ClientError::NotConnected);
    h.begin_connect(Ok("5Vqg==".to_string())).unwrap();
    let e = h.push_frame(&[1, 2, 3]).unwrap_err();
    assert_eq!(e, ClientError::OddLength);
    assert!(e.is_argument_error());
    assert_eq!(h.push_frame(&[1, 0, 2, 0]).unwrap(), vec![1, 2]);
}

#[test]
fn disconnect_without_session_is_a_no_op() {
    let h = SessionHandle::new();
    assert!(!h.begin_disconnect());
    let mut s = LoopState::new();
    s.step(LoopInput::StreamEnd);
    assert!(s.step(LoopInput::DisconnectRequested).is_empty());
}

#[test]
fn second_connect_is_refused() {
    let mut h = SessionHandle::new();
    h.begin_connect(Ok("5Vqg==".to_string())).unwrap();
    let e = h.begin_connect(Ok("7VAQID".to_string())).unwrap_err();
    assert_eq!(e, ClientError::AlreadyActive);
    assert_eq!(e.message(), "Already connected or connecting");
    assert!(h.is_active());
    assert_eq!(h.export_identity(), Some("5Vqg==".to_string()));
}

#[test]
fn bad_identity_leaves_handle_idle() {
    let mut h = SessionHandle::new();
    let e = h.begin_connect(Err("bad key".to_string())).unwrap_err();
    assert_eq!(e.message(), "Failed to parse identity: bad key");
    assert!(!h.is_active());
    assert_eq!(h.get_identity(), None);
}

#[test]
fn connect_answers_settle_the_handle() {
    let mut h = SessionHandle::new();
    h.begin_connect(Ok("1VAA==".to_string())).unwrap();
    assert_eq!(h.finish_connect(None).unwrap_err(), ClientError::WorkerExited);
    assert!(!h.is_active());
    h.begin_connect(Ok("1VAA==".to_string())).unwrap();
    assert_eq!(h.finish_connect(Some(Err("refused".to_string()))).unwrap_err(), ClientError::Failed("refused".to_string()));
    h.begin_connect(Ok("1VAA==".to_string())).unwrap();
    assert!(h.finish_connect(Some(Ok(()))).is_ok());
    assert!(h.is_active());
    assert!(h.begin_disconnect());
    assert!(h.finish_disconnect(true, Some(Ok(()))).is_ok());
    assert!(!h.is_active());
    h.begin_connect(Ok("1VAA==".to_string())).unwrap();
    assert_eq!(h.finish_disconnect(false, None).unwrap_err(), ClientError::WorkerNotRunning);
    assert!(!h.is_active());
}

#[test]
fn identity_text_has_counter_and_key() {
    assert_eq!(identity_to_string(5, &[0xaa]), "5Vqg==");
    assert_eq!(identity_to_string(1234, &[1, 2, 3]), "1234VAQID");
    assert_eq!(decimal_string(0), "0");
    assert_eq!(decimal_string(u64::MAX), "18446744073709551615");
    let mut h = SessionHandle::new();
    h.begin_connect(Ok(identity_to_string(5, &[0xaa]))).unwrap();
    assert_eq!(h.export_identity(), Some("5Vqg==".to_string()));
}

#[test]
fn liveness_follows_sync_and_disconnected() {
    let mut s = LoopState::new();
    assert!(!s.connected);
    let acts = s.step(LoopInput::Synced { server_name: "srv".to_string() });
    assert!(matches!(acts[0], Action::Ready(Ok(()))));
    match &acts[1] {
        Action::Emit(NativeEvent::Connected { server_name }) => assert_eq!(server_name, "srv"),
        _ => panic!("expected connected"),
    }
    assert!(s.connected);
    assert!(s.step(LoopInput::Synced { server_name: "srv".to_string() }).is_empty());
    let acts = s.step(LoopInput::Reconnecting { reason: "Timeout".to_string() });
    assert_eq!(emitted(&acts), vec!["reconnecting"]);
    assert!(!s.connected);
    s.step(LoopInput::Synced { server_name: "srv".to_string() });
    assert!(s.connected);
    let acts = s.step(LoopInput::StreamError { message: "boom".to_string() });
    assert_eq!(emitted(&acts), vec!["error", "disconnected"]);
    assert!(matches!(acts[1], Action::Emit(NativeEvent::Disconnected { reason: DisconnectReason::StreamError })));
    assert!(!s.connected);
    assert!(s.is_ended());
    assert!(s.step(LoopInput::Synced { server_name: "srv".to_string() }).is_empty());
    assert!(!s.connected);
}

#[test]
fn stream_failure_before_sync_fails_connect() {
    let mut s = LoopState::new();
    let acts = s.step(LoopInput::StreamError { message: "boom".to_string() });
    match &acts[0] {
        Action::Ready(Err(m)) => assert_eq!(m, "Connection failed: boom"),
        _ => panic!("expected failed readiness"),
    }
    let mut s = LoopState::new();
    let acts = s.step(LoopInput::StreamEnd);
    match &acts[0] {
        Action::Ready(Err(m)) => assert_eq!(m, "Disconnected before connected"),
        _ => panic!("expected failed readiness"),
    }
    match &acts[1] {
        Action::Emit(NativeEvent::Error { code, message }) => {
            assert_eq!(*code, ErrorCode::Stream);
            assert_eq!(message, "Session stream ended");
        }
        _ => panic!("expected error event"),
    }
    assert!(matches!(acts[2], Action::Emit(NativeEvent::Disconnected { reason: DisconnectReason::Eof })));
    assert_eq!(acts.len(), 3);
    let mut s = LoopState::new();
    let acts = s.step(LoopInput::ConnectFailed { message: "refused".to_string() });
    match &acts[1] {
        Action::Emit(NativeEvent::Error { code, message }) => {
            assert_eq!(*code, ErrorCode::Connect);
            assert_eq!(code.as_str(), "E_CONNECT");
            assert_eq!(message, "Failed to connect: refused");
        }
        _ => panic!("expected error event"),
    }
    assert!(matches!(acts[2], Action::Emit(NativeEvent::Disconnected { reason: DisconnectReason::StreamError })));
    assert!(s.is_ended());
    let mut s = LoopState::new();
    let acts = s.step(LoopInput::EncoderFailed { message: "no opus".to_string() });
    assert_eq!(emitted(&acts), vec!["error", "disconnected"]);
    match &acts[0] {
        Action::Ready(Err(m)) => assert_eq!(m, "Failed to create Opus encoder: no opus"),
        _ => panic!("expected failed readiness"),
    }
    let mut s = LoopState::new();
    let acts = s.step(LoopInput::SourcesClosed);
    match &acts[0] {
        Action::Ready(Err(m)) => assert_eq!(m, "Connection task exited unexpectedly"),
        _ => panic!("expected failed readiness"),
    }
    assert!(matches!(acts[1], Action::Emit(NativeEvent::Disconnected { reason: DisconnectReason::StreamError })));
    assert!(s.is_ended());
}

#[test]
fn disconnect_paths() {
    let mut s = LoopState::new();
    s.step(LoopInput::Synced { server_name: "srv".to_string() });
    assert!(s.step(LoopInput::DisconnectRequested).is_empty());
    assert_eq!(s.phase, Phase::Draining);
    assert!(s.connected);
    let acts = s.step(LoopInput::Reconnecting { reason: "x".to_string() });
    assert_eq!(emitted(&acts), vec!["reconnecting"]);
    assert!(!s.connected);
    let acts = s.step(LoopInput::DrainTimeout);
    match &acts[0] {
        Action::Done(Err(m)) => assert_eq!(m, "Timed out while waiting for graceful disconnect"),
        _ => panic!("expected timeout"),
    }
    assert!(matches!(acts[1], Action::Emit(NativeEvent::Error { code: ErrorCode::DisconnectTimeout, .. })));
    assert!(matches!(acts[2], Action::Emit(NativeEvent::Disconnected { reason: DisconnectReason::ClientDisconnect })));
    assert!(!s.connected);

    let mut s = LoopState::new();
    s.step(LoopInput::Synced { server_name: "srv".to_string() });
    s.step(LoopInput::DisconnectRequested);
    let acts = s.step(LoopInput::StreamEnd);
    assert!(matches!(acts[0], Action::Done(Ok(()))));
    assert_eq!(emitted(&acts), vec!["disconnected"]);

    let mut s = LoopState::new();
    s.step(LoopInput::Synced { server_name: "srv".to_string() });
    s.step(LoopInput::DisconnectRequested);
    let acts = s.step(LoopInput::DisconnectRejected { message: "no".to_string() });
    assert!(matches!(acts[2], Action::Emit(NativeEvent::Disconnected { reason: DisconnectReason::DisconnectError })));
    assert_eq!(DisconnectReason::DisconnectError.as_str(), "disconnect_error");
}

#[test]
fn runtime_failures_are_reported() {
    let mut s = LoopState::new();
    s.step(LoopInput::Synced { server_name: "srv".to_string() });
    let acts = s.step(LoopInput::EncodeFailed { message: "e".to_string() });
    assert!(matches!(acts[0], Action::Emit(NativeEvent::Error { code: ErrorCode::AudioEncode, .. })));
    let acts = s.step(LoopInput::SendFailed { message: "e".to_string() });
    assert!(matches!(acts[0], Action::Emit(NativeEvent::Error { code: ErrorCode::SendAudio, .. })));
    assert!(s.step(LoopInput::DecodeFailed { message: "packet arrived too late".to_string() }).is_empty());
    assert!(s.step(LoopInput::DecodeFailed { message: "the queue is full".to_string() }).is_empty());
    let acts = s.step(LoopInput::DecodeFailed { message: "corrupt".to_string() });
    assert!(matches!(acts[0], Action::Emit(NativeEvent::Error { code: ErrorCode::AudioDecode, .. })));
    assert!(s.connected);
}

#[test]
fn decode_error_filter() {
    assert!(!should_report_decode_error("too late"));
    assert!(!should_report_decode_error("Packet too late for buffer"));
    assert!(!should_report_decode_error("queue is full"));
    assert!(should_report_decode_error("queue is ful"));
    assert!(should_report_decode_error(""));
}

#[test]
fn verbosity_levels() {
    let mut o = ConnectOptions {
        address: "localhost".to_string(),
        password: None,
        nickname: None,
        channel: None,
        channel_password: None,
        identity: None,
        log_level: Some("packets".to_string()),
    };
    assert_eq!(o.log_flags(), LogFlags { commands: true, packets: true, udp: false });
    o.log_level = Some("udp".to_string());
    assert_eq!(o.log_flags(), LogFlags { commands: true, packets: true, udp: true });
    o.log_level = Some("commands".to_string());
    assert_eq!(o.log_flags(), LogFlags { commands: true, packets: false, udp: false });
    o.log_level = Some("verbose".to_string());
    assert_eq!(o.log_flags(), LogFlags { commands: false, packets: false, udp: false });
    o.log_level = None;
    assert_eq!(o.log_flags(), LogFlags { commands: false, packets: false, udp: false });
    let p = DisconnectParams { message: Some("bye".to_string()), reason_code: Some(3) };
    assert_eq!(p.message.as_deref(), Some("bye"));
}

#[test]
fn ticks_only_while_running() {
    let mut s = LoopState::new();
    assert!(s.accepts_ticks());
    s.step(LoopInput::DisconnectRequested);
    assert!(!s.accepts_ticks());
    s.step(LoopInput::StreamEnd);
    assert!(!s.accepts_ticks());
}
