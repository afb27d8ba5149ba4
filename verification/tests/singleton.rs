use bytes::BytesMut;
use overlay_engine::singleton::{
    decode_request, decode_response, encode_request, encode_response, handle_singleton_request,
    launcher_log_line, try_become_singleton, BecomeOutcome, MonitorWindowSnapshot, OsPipeState,
    SingletonFrameError, SingletonRequest, SingletonResponse, SingletonState, TryBecomeErr,
};

#[test]
fn try_become_singleton_decision_table() {
    assert_eq!(try_become_singleton(OsPipeState::NoPipe), Ok(BecomeOutcome::MonitorProcess));
    assert_eq!(
        try_become_singleton(OsPipeState::PipeExistsAcceptsInWindow),
        Ok(BecomeOutcome::Launcher)
    );
    assert_eq!(
        try_become_singleton(OsPipeState::PipeExistsStale),
        Ok(BecomeOutcome::MonitorProcess)
    );
    assert_eq!(try_become_singleton(OsPipeState::Race), Err(TryBecomeErr::Race));
}

#[test]
fn launcher_prints_exact_forwarded_log_line() {
    assert_eq!(
        launcher_log_line(42),
        "forwarded open-window request to existing monitor-process (pid 42), exiting"
    );
}

#[test]
fn request_and_response_roundtrip() {
    let req = SingletonRequest::OpenWindow { target_canvas_id: 7 };
    let mut buf = BytesMut::new();
    encode_request(req, &mut buf);
    assert_eq!(decode_request(&mut buf).unwrap(), req);

    let resp = SingletonResponse::Ack { pid: 11, new_monitor_id: 3 };
    let mut buf = BytesMut::new();
    encode_response(&resp, &mut buf);
    assert_eq!(decode_response(&mut buf).unwrap(), resp);
}

#[test]
fn singleton_open_window_returns_ack_with_correct_pid() {
    for pid in [0u32, 7, u32::MAX] {
        for target_canvas_id in [0u32, 3, u32::MAX] {
            for existing in [vec![], vec![9u32], vec![1, 2, 3, 4]] {
                let mut state = SingletonState {
                    monitor_process_pid: pid,
                    registered_windows: existing
                        .iter()
                        .enumerate()
                        .map(|(idx, target)| MonitorWindowSnapshot {
                            monitor_id: idx as u32 + 1,
                            target_canvas_id: *target,
                        })
                        .collect(),
                };
                let old_len = state.registered_windows.len();
                let response = handle_singleton_request(
                    SingletonRequest::OpenWindow { target_canvas_id },
                    &mut state,
                );
                assert_eq!(state.registered_windows.len(), old_len + 1);
                let last = state.registered_windows.last().unwrap();
                match response {
                    SingletonResponse::Ack { pid: ack_pid, new_monitor_id } => {
                        assert_eq!(ack_pid, pid);
                        assert_eq!(last.monitor_id, new_monitor_id);
                        assert_eq!(last.target_canvas_id, target_canvas_id);
                    }
                    _ => panic!("not acknowledged"),
                }
            }
        }
    }
}

#[test]
fn refusals_read_back() {
    let resp = SingletonResponse::Nack { reason: 513, message: "nö \u{1F600}".to_string() };
    let mut buf = BytesMut::new();
    encode_response(&resp, &mut buf);
    assert_eq!(decode_response(&mut buf).unwrap(), resp);
    assert!(buf.is_empty());
}

#[test]
fn frames_are_checked() {
    let mut empty = BytesMut::new();
    assert!(matches!(
        decode_request(&mut empty),
        Err(SingletonFrameError::BufferTooSmall { expected: 6, actual: 0 })
    ));
    let mut unknown = BytesMut::from(&[0x99, 0x99, 0, 0, 0, 0][..]);
    assert!(matches!(
        decode_request(&mut unknown),
        Err(SingletonFrameError::UnknownOpcode(0x9999))
    ));
    let mut long = BytesMut::from(&[0x01, 0x01, 5, 0, 0, 0, 1, 2, 3, 4, 5][..]);
    assert!(matches!(
        decode_request(&mut long),
        Err(SingletonFrameError::PayloadLengthMismatch { expected: 4, actual: 5 })
    ));
    let mut text = BytesMut::from(&[0x02, 0x02, 3, 0, 0, 0, 1, 0, 0xFF][..]);
    assert!(matches!(decode_response(&mut text), Err(SingletonFrameError::Utf8)));
}
