use bytes::BytesMut;
use std::collections::HashMap;

use overlay_engine::protocol::{
    AppDetachReason, ControlMessage, DesktopWindowMode, MessageHeader, MonitorKind,
    MonitorRequestStatus, MonitorStartPolicy, MonitorTypeEntry, ProtocolError,
    DESKTOP_WINDOW_FLAG_CLICK_THROUGH, DESKTOP_WINDOW_MODE_BORDERED,
    DESKTOP_WINDOW_MODE_BORDERLESS, HEADER_SIZE, MAGIC, OP_LOAD_BITMAP,
    OP_MONITOR_LOCAL_SURFACE_ATTACHED, OP_MONITOR_TYPES, OP_START_MONITOR_RESULT, VERSION,
};

fn known_messages() -> Vec<ControlMessage> {
    vec![
        ControlMessage::RegisterApp { pid: 1 },
        ControlMessage::RegisterMonitor { pid: 2 },
        ControlMessage::CreateCanvas {
            logical_w: 800,
            logical_h: 600,
            render_w: 800,
            render_h: 600,
        },
        ControlMessage::AttachMonitor { canvas_id: 3, monitor_id: 4 },
        ControlMessage::CanvasAttached {
            canvas_id: 5,
            surface_handle: 0x1234,
            logical_w: 1024,
            logical_h: 768,
            render_w: 1024,
            render_h: 768,
        },
        ControlMessage::SubmitFrame { canvas_id: 6, frame_id: 7, offset: 24, length: 128 },
        ControlMessage::MonitorLocalSurfaceAttached {
            canvas_id: 8,
            monitor_id: 9,
            surface_handle: 0x5678,
            logical_w: 1920,
            logical_h: 1080,
        },
        ControlMessage::AppDetached { app_id: 10, reason: AppDetachReason::IoError.to_wire() },
        ControlMessage::ListMonitorTypes { request_id: 11 },
        ControlMessage::StartMonitor {
            request_id: 12,
            kind: MonitorKind::DesktopWindow,
            count: 2,
            target_canvas_id: 13,
            mode: DesktopWindowMode::Borderless,
            flags: DESKTOP_WINDOW_FLAG_CLICK_THROUGH,
            x: -1,
            y: 2,
            w: 3,
            h: 4,
        },
        ControlMessage::StopMonitor { request_id: 14, monitor_id: 15 },
        ControlMessage::StopMonitorResult {
            request_id: 16,
            status: MonitorRequestStatus::NotCoreManaged,
        },
        ControlMessage::RegisterMonitorV2 {
            pid: 17,
            kind: MonitorKind::GameBar,
            owner_app_id: 0,
            request_id: 0,
            target_canvas_id: 0,
            mode: DesktopWindowMode::Bordered,
            flags: 0,
            manual_lifecycle: true,
        },
        ControlMessage::CloseMonitor { monitor_id: 18 },
    ]
}

fn known_payload_samples() -> Vec<(u16, Vec<u8>)> {
    known_messages()
        .into_iter()
        .map(|msg| {
            let mut buf = BytesMut::new();
            msg.encode(&mut buf);
            let header = MessageHeader::decode(&mut buf).unwrap();
            (header.opcode, buf.to_vec())
        })
        .collect()
}

fn roundtrip(msg: ControlMessage) {
    let mut buf = BytesMut::new();
    msg.encode(&mut buf);
    let header = MessageHeader::decode(&mut buf).unwrap();
    let decoded = ControlMessage::decode(header.opcode, header.payload_len, &mut buf)
        .unwrap()
        .unwrap();
    assert_eq!(decoded, msg);
    assert!(buf.is_empty());
}

#[test]
fn known_opcodes_decode_with_exact_payload_lengths() {
    for (opcode, payload) in known_payload_samples() {
        let mut buf = BytesMut::from(&payload[..]);
        let decoded = ControlMessage::decode(opcode, payload.len() as u32, &mut buf)
            .unwrap_or_else(|e| panic!("opcode {opcode:#06x} failed exact decode: {e:?}"));
        assert!(decoded.is_some());
        assert!(buf.is_empty(), "opcode {opcode:#06x} left bytes behind");
    }
}

#[test]
fn known_fixed_opcodes_reject_short_or_long_payload_lengths() {
    for (opcode, payload) in known_payload_samples() {
        if matches!(opcode, OP_LOAD_BITMAP | OP_MONITOR_TYPES | OP_START_MONITOR_RESULT) {
            continue;
        }
        let mut short_buf = BytesMut::from(&payload[..]);
        let short = ControlMessage::decode(opcode, payload.len() as u32 - 1, &mut short_buf);
        assert!(matches!(short, Err(ProtocolError::PayloadLengthMismatch)));

        let mut long_buf = BytesMut::from(&payload[..]);
        let long = ControlMessage::decode(opcode, payload.len() as u32 + 1, &mut long_buf);
        assert!(matches!(long, Err(ProtocolError::PayloadLengthMismatch)));
    }
}

#[test]
fn monitor_types_roundtrip() {
    roundtrip(ControlMessage::MonitorTypes {
        request_id: 21,
        entries: vec![
            MonitorTypeEntry {
                kind: MonitorKind::DesktopWindow,
                available: true,
                start_policy: MonitorStartPolicy::CoreOnDemand,
                core_startable: true,
                core_managed: true,
                max_instances: 16,
                window_modes: DESKTOP_WINDOW_MODE_BORDERED | DESKTOP_WINDOW_MODE_BORDERLESS,
                flags: DESKTOP_WINDOW_FLAG_CLICK_THROUGH,
            },
            MonitorTypeEntry {
                kind: MonitorKind::GameBar,
                available: true,
                start_policy: MonitorStartPolicy::UserManual,
                core_startable: false,
                core_managed: false,
                max_instances: 1,
                window_modes: 0,
                flags: 0,
            },
        ],
    });
}

#[test]
fn start_monitor_result_roundtrip() {
    roundtrip(ControlMessage::StartMonitorResult {
        request_id: 22,
        status: MonitorRequestStatus::Success,
        monitor_ids: vec![3, 4],
    });
}

#[test]
fn every_message_reads_back() {
    for msg in known_messages() {
        roundtrip(msg);
    }
    roundtrip(ControlMessage::LoadBitmap { bitmap_id: 9, bytes: vec![1, 2, 3, 0xFF] });
    roundtrip(ControlMessage::LoadBitmap { bitmap_id: 9, bytes: vec![] });
    roundtrip(ControlMessage::MonitorTypes { request_id: 1, entries: vec![] });
    roundtrip(ControlMessage::StartMonitorResult {
        request_id: 22,
        status: MonitorRequestStatus::Timeout,
        monitor_ids: vec![],
    });
}

#[test]
fn unknown_opcode_skips_full_advertised_payload() {
    let payload = [1, 2, 3, 4, 5];
    let mut buf = BytesMut::from(&payload[..]);
    let decoded = ControlMessage::decode(0x9000, payload.len() as u32, &mut buf).unwrap();
    assert!(decoded.is_none());
    assert!(buf.is_empty());
}

#[test]
fn unknown_opcode_rejects_truncated_payload() {
    let mut buf = BytesMut::from(&[1, 2][..]);
    let decoded = ControlMessage::decode(0x9000, 3, &mut buf);
    assert!(matches!(
        decoded,
        Err(ProtocolError::BufferTooSmall { expected: 3, actual: 2 })
    ));
}

#[test]
fn headers_are_checked() {
    let mut short = BytesMut::from(&[0u8; 11][..]);
    assert_eq!(
        MessageHeader::decode(&mut short),
        Err(ProtocolError::BufferTooSmall { expected: 12, actual: 11 })
    );

    let mut good = BytesMut::new();
    MessageHeader { opcode: 3, payload_len: 16 }.encode(&mut good);
    assert_eq!(
        good.to_vec(),
        vec![0x4c, 0x52, 0x56, 0x4f, 0x01, 0x00, 0x03, 0x00, 0x10, 0x00, 0x00, 0x00]
    );

    let mut bad_magic = BytesMut::from(&good[..]);
    bad_magic[0] = 0;
    assert_eq!(
        MessageHeader::decode(&mut bad_magic),
        Err(ProtocolError::InvalidMagic(0x4F56_5200))
    );

    let mut bad_version = BytesMut::from(&good[..]);
    bad_version[4] = 2;
    assert_eq!(
        MessageHeader::decode(&mut bad_version),
        Err(ProtocolError::UnsupportedVersion(2))
    );

    assert_eq!(
        MessageHeader::decode(&mut good),
        Ok(MessageHeader { opcode: 3, payload_len: 16 })
    );
    assert!(good.is_empty());
}

#[test]
fn values_without_a_meaning_are_rejected() {
    let msg = ControlMessage::StopMonitorResult {
        request_id: 16,
        status: MonitorRequestStatus::NotOwner,
    };
    let mut buf = BytesMut::new();
    msg.encode(&mut buf);
    let header = MessageHeader::decode(&mut buf).unwrap();
    let last = buf.len() - 1;
    buf[last] = 0xEE;
    assert_eq!(
        ControlMessage::decode(header.opcode, header.payload_len, &mut buf),
        Err(ProtocolError::InvalidEnum { field: "MonitorRequestStatus", value: 0xEE })
    );
    assert!(MonitorKind::from_wire(0).is_err());
    assert!(MonitorStartPolicy::from_wire(0xFF).is_err());
    assert!(DesktopWindowMode::from_wire(0xFF).is_err());
}

#[test]
fn lists_that_promise_too_much_are_rejected() {
    let mut payload = Vec::new();
    payload.extend_from_slice(&7u32.to_le_bytes());
    payload.push(0);
    payload.extend_from_slice(&9u32.to_le_bytes());
    payload.extend_from_slice(&[0; 4]);
    let mut buf = BytesMut::from(&payload[..]);
    let decoded =
        ControlMessage::decode(OP_START_MONITOR_RESULT, payload.len() as u32, &mut buf);
    assert!(decoded.is_err());
}

fn encode_one(msg: &ControlMessage) -> Vec<u8> {
    let mut buf = BytesMut::new();
    msg.encode(&mut buf);
    buf.to_vec()
}

fn decode_one(bytes: &[u8]) -> Result<ControlMessage, ProtocolError> {
    let mut buf = BytesMut::from(bytes);
    let header = MessageHeader::decode(&mut buf)?;
    ControlMessage::decode(header.opcode, header.payload_len, &mut buf)?
        .ok_or(ProtocolError::UnknownOpcode(header.opcode))
}

fn assert_roundtrip_bit_identical(msg: &ControlMessage) {
    let bytes = encode_one(msg);
    let decoded = decode_one(&bytes)
        .unwrap_or_else(|e| panic!("decoding failed for opcode {:#06x}: {e:?}", msg.opcode()));
    assert_eq!(bytes, encode_one(&decoded));
}

fn assert_standard_header(msg: &ControlMessage) {
    let bytes = encode_one(msg);
    assert!(bytes.len() >= HEADER_SIZE);
    let magic = u32::from_le_bytes(bytes[0..4].try_into().unwrap());
    let ver = u16::from_le_bytes(bytes[4..6].try_into().unwrap());
    let op = u16::from_le_bytes(bytes[6..8].try_into().unwrap());
    assert_eq!(magic, MAGIC);
    assert_eq!(ver, VERSION);
    assert_eq!(op, msg.opcode());
}

fn canonical_control_samples() -> Vec<ControlMessage> {
    vec![
        ControlMessage::RegisterApp { pid: 0 },
        ControlMessage::RegisterApp { pid: 42 },
        ControlMessage::RegisterApp { pid: u32::MAX },
        ControlMessage::RegisterMonitor { pid: 0 },
        ControlMessage::RegisterMonitor { pid: 7 },
        ControlMessage::RegisterMonitor { pid: u32::MAX },
        ControlMessage::CreateCanvas { logical_w: 0, logical_h: 0, render_w: 0, render_h: 0 },
        ControlMessage::CreateCanvas {
            logical_w: 1920,
            logical_h: 1080,
            render_w: 3840,
            render_h: 2160,
        },
        ControlMessage::CreateCanvas {
            logical_w: u32::MAX,
            logical_h: u32::MAX,
            render_w: u32::MAX,
            render_h: u32::MAX,
        },
        ControlMessage::AttachMonitor { canvas_id: 0, monitor_id: 0 },
        ControlMessage::AttachMonitor { canvas_id: 1, monitor_id: 2 },
        ControlMessage::AttachMonitor { canvas_id: u32::MAX, monitor_id: u32::MAX },
        ControlMessage::CanvasAttached {
            canvas_id: 0,
            surface_handle: 0,
            logical_w: 0,
            logical_h: 0,
            render_w: 0,
            render_h: 0,
        },
        ControlMessage::CanvasAttached {
            canvas_id: 1,
            surface_handle: 0x1234_5678_9ABC_DEF0,
            logical_w: 1920,
            logical_h: 1080,
            render_w: 1920,
            render_h: 1080,
        },
        ControlMessage::CanvasAttached {
            canvas_id: u32::MAX,
            surface_handle: u64::MAX,
            logical_w: u32::MAX,
            logical_h: u32::MAX,
            render_w: u32::MAX,
            render_h: u32::MAX,
        },
        ControlMessage::SubmitFrame { canvas_id: 0, frame_id: 0, offset: 0, length: 0 },
        ControlMessage::SubmitFrame { canvas_id: 1, frame_id: 60, offset: 128, length: 4096 },
        ControlMessage::SubmitFrame {
            canvas_id: u32::MAX,
            frame_id: u64::MAX,
            offset: u32::MAX,
            length: u32::MAX,
        },
    ]
}

#[test]
fn pbt_a_oracle_capture_control_plane_bytes() {
    for m in canonical_control_samples() {
        assert_standard_header(&m);
        assert_roundtrip_bit_identical(&m);
    }
}

#[test]
fn app_detached_oracle_sample_appended_byte_identical() {
    let msg = ControlMessage::AppDetached { app_id: 0x42, reason: 1 };
    let bytes = encode_one(&msg);
    let expected = vec![
        0x4c, 0x52, 0x56, 0x4f, 0x01, 0x00, 0x08, 0x00, 0x05, 0x00, 0x00, 0x00, 0x42, 0x00, 0x00,
        0x00, 0x01,
    ];
    assert_eq!(bytes, expected);
}

#[test]
fn pbt_a_prime_oracle_capture_monitor_local_surface_attached() {
    let samples = [
        ControlMessage::MonitorLocalSurfaceAttached {
            canvas_id: 0,
            monitor_id: 0,
            surface_handle: 0,
            logical_w: 0,
            logical_h: 0,
        },
        ControlMessage::MonitorLocalSurfaceAttached {
            canvas_id: 1,
            monitor_id: 2,
            surface_handle: 0x1234_5678_9ABC_DEF0,
            logical_w: 1920,
            logical_h: 1080,
        },
        ControlMessage::MonitorLocalSurfaceAttached {
            canvas_id: u32::MAX,
            monitor_id: u32::MAX,
            surface_handle: u64::MAX,
            logical_w: u32::MAX,
            logical_h: u32::MAX,
        },
    ];
    for m in samples {
        assert_standard_header(&m);
        assert_roundtrip_bit_identical(&m);
        assert_eq!(
            m.opcode(),
            OP_MONITOR_LOCAL_SURFACE_ATTACHED,
            "new variant must use opcode {:#06x}",
            OP_MONITOR_LOCAL_SURFACE_ATTACHED
        );
    }
}

#[test]
fn unit_preservation_opcode_table_is_consistent() {
    let mut by_op: HashMap<u16, usize> = HashMap::new();
    for m in &canonical_control_samples() {
        *by_op.entry(m.opcode()).or_insert(0) += 1;
    }
    for op in 0x0001..=0x0006u16 {
        assert!(
            by_op.contains_key(&op),
            "canonical control samples miss opcode {:#06x}",
            op
        );
    }
    let cmd_opcodes = [
        ("CLEAR", overlay_engine::cmd_decoder::CMD_CLEAR),
        ("FILL_RECT", overlay_engine::cmd_decoder::CMD_FILL_RECT),
        ("STROKE_RECT", overlay_engine::cmd_decoder::CMD_STROKE_RECT),
        ("FILL_ROUNDED_RECT", overlay_engine::cmd_decoder::CMD_FILL_ROUNDED_RECT),
        ("STROKE_ROUNDED_RECT", overlay_engine::cmd_decoder::CMD_STROKE_ROUNDED_RECT),
        ("FILL_ELLIPSE", overlay_engine::cmd_decoder::CMD_FILL_ELLIPSE),
        ("STROKE_ELLIPSE", overlay_engine::cmd_decoder::CMD_STROKE_ELLIPSE),
        ("DRAW_LINE", overlay_engine::cmd_decoder::CMD_DRAW_LINE),
    ];
    for (i, (name, op)) in cmd_opcodes.iter().enumerate() {
        let expected = 0x0101 + i as u16;
        assert_eq!(*op, expected, "cmd opcode {name} must be {expected:#06x}, found {op:#06x}");
    }
}
