//! Where each value lies in the bytes that go between processes.

use bytes::BytesMut;
use vstd::prelude::*;

use crate::buffer;
use crate::protocol;
use crate::protocol::{
    AppDetachReason, ControlMessage, DesktopWindowMode, MessageHeader, MessageView, MonitorKind,
    MonitorRequestStatus, MonitorStartPolicy, MonitorTypeEntry, ProtocolError,
};

verus! {

/// Numbers go least significant byte first, negative ones in two's complement.
pub proof fn numbers_go_low_byte_first(x: u16, y: u32, z: u64, n: i32)
    ensures
        buffer::le16(x).len() == 2,
        x == buffer::le16(x)[0] + 0x100 * buffer::le16(x)[1],
        buffer::le32(y).len() == 4,
        y == buffer::le32(y)[0] + 0x100 * buffer::le32(y)[1] + 0x1_0000 * buffer::le32(y)[2]
            + 0x100_0000 * buffer::le32(y)[3],
        buffer::le64(z).len() == 8,
        z == buffer::u32_at(buffer::le64(z), 0) + 0x1_0000_0000 * buffer::u32_at(
            buffer::le64(z),
            4,
        ),
        buffer::le_i32(n).len() == 4,
        n >= 0 ==> n == buffer::u32_at(buffer::le_i32(n), 0),
        n < 0 ==> n + 0x1_0000_0000 == buffer::u32_at(buffer::le_i32(n), 0),
{
    buffer::le16_reads_back(x);
    buffer::le32_reads_back(y);
    buffer::le64_reads_back(z);
    buffer::le_i32_reads_back(n);
    buffer::le32_reads_back(buffer::i32_bits(n));
}

/// Numbers are read from the bytes at their place, least significant byte first.
pub proof fn numbers_are_read_at_their_place(s: Seq<u8>, i: int)
    ensures
        buffer::u16_at(s, i) == s[i] + 0x100 * s[i + 1],
        buffer::u32_at(s, i) == s[i] + 0x100 * s[i + 1] + 0x1_0000 * s[i + 2] + 0x100_0000 * s[i
            + 3],
        buffer::u64_at(s, i) == buffer::u32_at(s, i) + 0x1_0000_0000 * buffer::u32_at(s, i + 4),
        buffer::u32_at(s, i) < 0x8000_0000 ==> buffer::i32_at(s, i) == buffer::u32_at(s, i),
        buffer::u32_at(s, i) >= 0x8000_0000 ==> buffer::i32_at(s, i) == buffer::u32_at(s, i)
            - 0x1_0000_0000,
{
}

/// A message begins with twelve bytes: the mark, the version, what the message is
/// and the length of the rest.
pub proof fn headers_are_laid_out(opcode: u16, payload_len: u32)
    ensures
        ({
            let h = protocol::header_bytes(opcode, payload_len);
            &&& h.len() == 12
            &&& buffer::u32_at(h, 0) == 0x4F56524C
            &&& buffer::u16_at(h, 4) == 1
            &&& buffer::u16_at(h, 6) == opcode
            &&& buffer::u32_at(h, 8) == payload_len
        }),
{
    let h = protocol::header_bytes(opcode, payload_len);
    protocol::header_reads_back(opcode, payload_len, seq![]);
    assert(h + seq![] =~= h);
}

/// A header is read just where twelve bytes are there with the mark and the version;
/// otherwise the first of these that fails is named.
pub proof fn headers_are_read_at_their_place(
    buf: &mut BytesMut,
    r: Result<MessageHeader, ProtocolError>,
)
    requires
        call_ensures(MessageHeader::decode, (buf,), r),
        buffer::buffered(*old(buf)).len() <= usize::MAX,
    ensures
        ({
            let s = buffer::buffered(*old(buf));
            let rest = buffer::buffered(*final(buf));
            &&& s.len() < 12 ==> (r matches Err(
                ProtocolError::BufferTooSmall { expected, actual },
            ) && expected == 12 && actual == s.len() && rest == s)
            &&& s.len() >= 12 && buffer::u32_at(s, 0) != 0x4F56524C ==> (r matches Err(
                ProtocolError::InvalidMagic(m),
            ) && m == buffer::u32_at(s, 0))
            &&& s.len() >= 12 && buffer::u32_at(s, 0) == 0x4F56524C && buffer::u16_at(s, 4) != 1
                ==> (r matches Err(ProtocolError::UnsupportedVersion(v)) && v == buffer::u16_at(
                s,
                4,
            ))
            &&& s.len() >= 12 && buffer::u32_at(s, 0) == 0x4F56524C && buffer::u16_at(s, 4) == 1
                ==> (r matches Ok(h) && h.opcode == buffer::u16_at(s, 6) && h.payload_len
                == buffer::u32_at(s, 8) && rest == s.skip(12))
        }),
{
    let s = buffer::buffered(*old(buf));
    assert(s.skip(0) =~= s);
}

/// A message goes behind what is there as its header and its payload; the header
/// has the message's number and the payload's length.
pub proof fn messages_are_a_header_and_a_payload(m: ControlMessage, buf: &mut BytesMut)
    requires
        call_ensures(ControlMessage::encode, (&m, buf), ()),
        m.payload_size() <= u32::MAX,
    ensures
        ({
            let before = buffer::buffered(*old(buf));
            let added = buffer::buffered(*final(buf)).skip(before.len() as int);
            &&& buffer::buffered(*final(buf)) == before + added
            &&& added.len() == 12 + m.payload().len()
            &&& buffer::u32_at(added, 0) == 0x4F56524C
            &&& buffer::u16_at(added, 4) == 1
            &&& buffer::u16_at(added, 6) == m.op()
            &&& buffer::u32_at(added, 8) == m.payload().len()
            &&& added.skip(12) == m.payload()
        }),
{
    let before = buffer::buffered(*old(buf));
    let after = buffer::buffered(*final(buf));
    let added = after.skip(before.len() as int);
    assert(added =~= m.frame());
    protocol::payload_reads_back(m, seq![]);
    let h = protocol::header_bytes(m.op(), m.payload_size() as u32);
    headers_are_laid_out(m.op(), m.payload_size() as u32);
    assert(added =~= h + m.payload());
    assert(added.skip(12) =~= m.payload());
    assert forall|i: int| 0 <= i < 12 implies #[trigger] added[i] == h[i] by {}
}

/// Each message has its number.
pub proof fn messages_have_their_numbers(m: ControlMessage, op: u16)
    requires
        call_ensures(ControlMessage::opcode, (&m,), op),
    ensures
        op == m.op(),
        op == match m {
            ControlMessage::RegisterApp { .. } => 1u16,
            ControlMessage::RegisterMonitor { .. } => 2u16,
            ControlMessage::CreateCanvas { .. } => 3u16,
            ControlMessage::AttachMonitor { .. } => 4u16,
            ControlMessage::CanvasAttached { .. } => 5u16,
            ControlMessage::SubmitFrame { .. } => 6u16,
            ControlMessage::MonitorLocalSurfaceAttached { .. } => 7u16,
            ControlMessage::AppDetached { .. } => 8u16,
            ControlMessage::LoadBitmap { .. } => 9u16,
            ControlMessage::ListMonitorTypes { .. } => 10u16,
            ControlMessage::MonitorTypes { .. } => 11u16,
            ControlMessage::StartMonitor { .. } => 12u16,
            ControlMessage::StartMonitorResult { .. } => 13u16,
            ControlMessage::StopMonitor { .. } => 14u16,
            ControlMessage::StopMonitorResult { .. } => 15u16,
            ControlMessage::RegisterMonitorV2 { .. } => 16u16,
            ControlMessage::CloseMonitor { .. } => 17u16,
        },
{
}

/// Each kind, policy, mode, status and reason has its byte, and each mode its bit.
pub proof fn choices_have_their_bytes(
    kind: MonitorKind,
    policy: MonitorStartPolicy,
    mode: DesktopWindowMode,
    status: MonitorRequestStatus,
    reason: AppDetachReason,
    k: u8,
    p: u8,
    m: u8,
    bit: u32,
    s: u8,
    d: u8,
)
    requires
        call_ensures(MonitorKind::to_wire, (kind,), k),
        call_ensures(MonitorStartPolicy::to_wire, (policy,), p),
        call_ensures(DesktopWindowMode::to_wire, (mode,), m),
        call_ensures(DesktopWindowMode::bit, (mode,), bit),
        call_ensures(MonitorRequestStatus::to_wire, (status,), s),
        call_ensures(AppDetachReason::to_wire, (reason,), d),
    ensures
        k == kind.wire() && p == policy.wire() && m == mode.wire() && s == status.wire() && d
            == reason.wire(),
        k == match kind {
            MonitorKind::DesktopWindow => 1u8,
            MonitorKind::GameBar => 2u8,
        },
        p == match policy {
            MonitorStartPolicy::CoreOnDemand => 1u8,
            MonitorStartPolicy::UserManual => 2u8,
        },
        m == match mode {
            DesktopWindowMode::Bordered => 1u8,
            DesktopWindowMode::Borderless => 2u8,
            DesktopWindowMode::BorderlessFullscreen => 3u8,
        },
        bit == match mode {
            DesktopWindowMode::Bordered => 1u32,
            DesktopWindowMode::Borderless => 2u32,
            DesktopWindowMode::BorderlessFullscreen => 4u32,
        },
        s == match status {
            MonitorRequestStatus::Success => 0u8,
            MonitorRequestStatus::Unavailable => 1u8,
            MonitorRequestStatus::ManualOpenRequired => 2u8,
            MonitorRequestStatus::LimitExceeded => 3u8,
            MonitorRequestStatus::InvalidCanvas => 4u8,
            MonitorRequestStatus::SpawnFailed => 5u8,
            MonitorRequestStatus::Timeout => 6u8,
            MonitorRequestStatus::NotOwner => 7u8,
            MonitorRequestStatus::NotFound => 8u8,
            MonitorRequestStatus::NotCoreManaged => 9u8,
        },
        d == match reason {
            AppDetachReason::GracefulExit => 0u8,
            AppDetachReason::IoError => 1u8,
            AppDetachReason::Other => 2u8,
        },
{
}

/// A byte that no kind, policy, mode or status has is an error that names it and
/// what it was for; any other byte is the choice that it stands for.
pub proof fn other_bytes_are_no_choices(
    b: u8,
    k: Result<MonitorKind, ProtocolError>,
    p: Result<MonitorStartPolicy, ProtocolError>,
    m: Result<DesktopWindowMode, ProtocolError>,
    s: Result<MonitorRequestStatus, ProtocolError>,
)
    requires
        call_ensures(MonitorKind::from_wire, (b,), k),
        call_ensures(MonitorStartPolicy::from_wire, (b,), p),
        call_ensures(DesktopWindowMode::from_wire, (b,), m),
        call_ensures(MonitorRequestStatus::from_wire, (b,), s),
    ensures
        k matches Ok(kind) ==> b == kind.wire(),
        k is Ok <==> b == 1 || b == 2,
        k matches Err(e) ==> e == (ProtocolError::InvalidEnum { field: "MonitorKind", value: b }),
        p matches Ok(policy) ==> b == policy.wire(),
        p is Ok <==> b == 1 || b == 2,
        p matches Err(e) ==> e == (ProtocolError::InvalidEnum {
            field: "MonitorStartPolicy",
            value: b,
        }),
        m matches Ok(mode) ==> b == mode.wire(),
        m is Ok <==> 1 <= b <= 3,
        m matches Err(e) ==> e == (ProtocolError::InvalidEnum {
            field: "DesktopWindowMode",
            value: b,
        }),
        s matches Ok(status) ==> b == status.wire(),
        s is Ok <==> b <= 9,
        s matches Err(e) ==> e == (ProtocolError::InvalidEnum {
            field: "MonitorRequestStatus",
            value: b,
        }),
{
}

/// Every message is what it is seen as: the lists of those that hold one are seen as
/// their items.
pub proof fn messages_are_seen_whole(m: ControlMessage)
    ensures
        m matches ControlMessage::LoadBitmap { bitmap_id, bytes } ==> m@ == (
        MessageView::LoadBitmap { bitmap_id, bytes: bytes@ }),
        m matches ControlMessage::MonitorTypes { request_id, entries } ==> m@ == (
        MessageView::MonitorTypes { request_id, entries: entries@ }),
        m matches ControlMessage::StartMonitorResult { request_id, status, monitor_ids } ==> m@ == (
        MessageView::StartMonitorResult { request_id, status, monitor_ids: monitor_ids@ }),
        !(m is LoadBitmap) && !(m is MonitorTypes) && !(m is StartMonitorResult) ==> m@
            == MessageView::Plain(m),
{
}

/// The messages about registering, canvases and monitors hold their values in this
/// order, four bytes for each, eight for a surface's handle or a frame's number, and
/// one for a reason.
pub proof fn small_messages_are_laid_out(m: ControlMessage)
    ensures
        ({
            let b = m.payload();
            &&& m matches ControlMessage::RegisterApp { pid } ==> b.len() == 4 && buffer::u32_at(
                b,
                0,
            ) == pid
            &&& m matches ControlMessage::RegisterMonitor { pid } ==> b.len() == 4
                && buffer::u32_at(b, 0) == pid
            &&& m matches ControlMessage::CreateCanvas { logical_w, logical_h, render_w, render_h }
                ==> {
                &&& b.len() == 16
                &&& buffer::u32_at(b, 0) == logical_w
                &&& buffer::u32_at(b, 4) == logical_h
                &&& buffer::u32_at(b, 8) == render_w
                &&& buffer::u32_at(b, 12) == render_h
            }
            &&& m matches ControlMessage::AttachMonitor { canvas_id, monitor_id } ==> {
                &&& b.len() == 8
                &&& buffer::u32_at(b, 0) == canvas_id
                &&& buffer::u32_at(b, 4) == monitor_id
            }
            &&& m matches ControlMessage::CanvasAttached {
                canvas_id,
                surface_handle,
                logical_w,
                logical_h,
                render_w,
                render_h,
            } ==> {
                &&& b.len() == 28
                &&& buffer::u32_at(b, 0) == canvas_id
                &&& buffer::u64_at(b, 4) == surface_handle
                &&& buffer::u32_at(b, 12) == logical_w
                &&& buffer::u32_at(b, 16) == logical_h
                &&& buffer::u32_at(b, 20) == render_w
                &&& buffer::u32_at(b, 24) == render_h
            }
            &&& m matches ControlMessage::SubmitFrame { canvas_id, frame_id, offset, length } ==> {
                &&& b.len() == 20
                &&& buffer::u32_at(b, 0) == canvas_id
                &&& buffer::u64_at(b, 4) == frame_id
                &&& buffer::u32_at(b, 12) == offset
                &&& buffer::u32_at(b, 16) == length
            }
            &&& m matches ControlMessage::MonitorLocalSurfaceAttached {
                canvas_id,
                monitor_id,
                surface_handle,
                logical_w,
                logical_h,
            } ==> {
                &&& b.len() == 24
                &&& buffer::u32_at(b, 0) == canvas_id
                &&& buffer::u32_at(b, 4) == monitor_id
                &&& buffer::u64_at(b, 8) == surface_handle
                &&& buffer::u32_at(b, 16) == logical_w
                &&& buffer::u32_at(b, 20) == logical_h
            }
            &&& m matches ControlMessage::AppDetached { app_id, reason } ==> b.len() == 5
                && buffer::u32_at(b, 0) == app_id && b[4] == reason
            &&& m matches ControlMessage::ListMonitorTypes { request_id } ==> b.len() == 4
                && buffer::u32_at(b, 0) == request_id
            &&& m matches ControlMessage::StopMonitor { request_id, monitor_id } ==> {
                &&& b.len() == 8
                &&& buffer::u32_at(b, 0) == request_id
                &&& buffer::u32_at(b, 4) == monitor_id
            }
            &&& m matches ControlMessage::CloseMonitor { monitor_id } ==> b.len() == 4
                && buffer::u32_at(b, 0) == monitor_id
        }),
{
    if !(m is LoadBitmap) && !(m is MonitorTypes) && !(m is StartMonitorResult) {
        protocol::payload_reads_back(m, seq![]);
        assert(m.payload() + seq![] =~= m.payload());
    }
}

/// The requests for monitors, their answers and a monitor's registration hold their
/// values in this order: one byte for a kind, a mode, a status or a flag, four for
/// any other. A list is preceded by its length.
pub proof fn monitor_messages_are_laid_out(m: ControlMessage, i: int)
    requires
        m.payload_size() <= u32::MAX,
    ensures
        ({
            let b = m.payload();
            &&& m matches ControlMessage::StartMonitor {
                request_id,
                kind,
                count,
                target_canvas_id,
                mode,
                flags,
                x,
                y,
                w,
                h,
            } ==> {
                &&& b.len() == 34
                &&& buffer::u32_at(b, 0) == request_id
                &&& b[4] == kind.wire()
                &&& buffer::u32_at(b, 5) == count
                &&& buffer::u32_at(b, 9) == target_canvas_id
                &&& b[13] == mode.wire()
                &&& buffer::u32_at(b, 14) == flags
                &&& buffer::i32_at(b, 18) == x
                &&& buffer::i32_at(b, 22) == y
                &&& buffer::u32_at(b, 26) == w
                &&& buffer::u32_at(b, 30) == h
            }
            &&& m matches ControlMessage::RegisterMonitorV2 {
                pid,
                kind,
                owner_app_id,
                request_id,
                target_canvas_id,
                mode,
                flags,
                manual_lifecycle,
            } ==> {
                &&& b.len() == 23
                &&& buffer::u32_at(b, 0) == pid
                &&& b[4] == kind.wire()
                &&& buffer::u32_at(b, 5) == owner_app_id
                &&& buffer::u32_at(b, 9) == request_id
                &&& buffer::u32_at(b, 13) == target_canvas_id
                &&& b[17] == mode.wire()
                &&& buffer::u32_at(b, 18) == flags
                &&& manual_lifecycle ==> b[22] == 1
                &&& !manual_lifecycle ==> b[22] == 0
            }
            &&& m matches ControlMessage::StopMonitorResult { request_id, status } ==> b.len() == 5
                && buffer::u32_at(b, 0) == request_id && b[4] == status.wire()
            &&& m matches ControlMessage::StartMonitorResult { request_id, status, monitor_ids }
                ==> {
                &&& b.len() == 9 + 4 * monitor_ids@.len()
                &&& buffer::u32_at(b, 0) == request_id
                &&& b[4] == status.wire()
                &&& buffer::u32_at(b, 5) == monitor_ids@.len()
                &&& 0 <= i < monitor_ids@.len() ==> buffer::u32_at(b, 9 + 4 * i) == monitor_ids@[i]
            }
            &&& m matches ControlMessage::LoadBitmap { bitmap_id, bytes } ==> {
                &&& b.len() == 8 + bytes@.len()
                &&& buffer::u32_at(b, 0) == bitmap_id
                &&& buffer::u32_at(b, 4) == bytes@.len()
                &&& b.skip(8) == bytes@
            }
        }),
{
    let b = m.payload();
    protocol::payload_reads_back(m, seq![]);
    assert(b + seq![] =~= b);
    match m {
        ControlMessage::StartMonitor { .. } => {},
        ControlMessage::LoadBitmap { bytes, .. } => {
            assert(b.subrange(8, b.len() as int) =~= b.skip(8));
        },
        ControlMessage::StartMonitorResult { monitor_ids, .. } => {
            let count = buffer::u32_at(b, 5);
            let ids = Seq::new(count as nat, |k: int| buffer::u32_at(b, 9 + 4 * k));
            assert(ids == monitor_ids@);
            if 0 <= i < monitor_ids@.len() {
                assert(ids[i] == buffer::u32_at(b, 9 + 4 * i));
            }
        },
        _ => {},
    }
}

/// A listed monitor type is twenty bytes: its kind, whether it is available, its
/// policy, whether the core starts and manages it, a gap of three, and its limit,
/// modes and flags. The list follows the request's number and its own length.
pub proof fn listed_types_are_laid_out(e: MonitorTypeEntry, m: ControlMessage)
    ensures
        ({
            let b = protocol::entry_bytes(e);
            &&& b.len() == 20
            &&& b[0] == e.kind.wire()
            &&& b[1] == if e.available {
                1u8
            } else {
                0u8
            }
            &&& b[2] == e.start_policy.wire()
            &&& b[3] == if e.core_startable {
                1u8
            } else {
                0u8
            }
            &&& b[4] == if e.core_managed {
                1u8
            } else {
                0u8
            }
            &&& b[5] == 0 && b[6] == 0 && b[7] == 0
            &&& buffer::u32_at(b, 8) == e.max_instances
            &&& buffer::u32_at(b, 12) == e.window_modes
            &&& buffer::u32_at(b, 16) == e.flags
        }),
        m matches ControlMessage::MonitorTypes { request_id, entries } ==> entries@.len()
            <= u32::MAX ==> {
            let b = m.payload();
            &&& buffer::u32_at(b, 0) == request_id
            &&& buffer::u32_at(b, 4) == entries@.len()
            &&& b.skip(8) == protocol::entries_bytes(entries@)
        },
{
    let b = protocol::entry_bytes(e);
    buffer::le32_reads_back(e.max_instances);
    buffer::le32_reads_back(e.window_modes);
    buffer::le32_reads_back(e.flags);
    assert(b.len() == 20);
    if let ControlMessage::MonitorTypes { request_id, entries } = m {
        if entries@.len() <= u32::MAX {
            let p = m.payload();
            buffer::le32_reads_back(request_id);
            buffer::le32_reads_back(entries@.len() as u32);
            assert(p.skip(8) =~= protocol::entries_bytes(entries@));
        }
    }
}

/// The entries of a list follow each other.
pub proof fn listed_types_follow_each_other(
    entries: Seq<MonitorTypeEntry>,
    e: MonitorTypeEntry,
)
    ensures
        protocol::entries_bytes(seq![]).len() == 0,
        protocol::entries_bytes(entries.push(e)) == protocol::entries_bytes(entries)
            + protocol::entry_bytes(e),
{
    assert(entries.push(e).drop_last() =~= entries);
}

/// A payload of the right length whose kind, mode or status is no choice is refused
/// with an error that names the byte; any byte but zero stands for yes.
pub proof fn unknown_choices_are_refused(s: Seq<u8>, len: u32)
    requires
        s.len() >= len,
    ensures
        len == 34 && s[4] != 1 && s[4] != 2 ==> protocol::parse_payload(12, len, s).0 == Err::<
            Option<MessageView>,
            ProtocolError,
        >(ProtocolError::InvalidEnum { field: "MonitorKind", value: s[4] }),
        len == 34 && (s[4] == 1 || s[4] == 2) && !(1 <= s[13] <= 3) ==> protocol::parse_payload(
            12,
            len,
            s,
        ).0 == Err::<Option<MessageView>, ProtocolError>(
            ProtocolError::InvalidEnum { field: "DesktopWindowMode", value: s[13] },
        ),
        len == 23 && s[4] != 1 && s[4] != 2 ==> protocol::parse_payload(16, len, s).0 == Err::<
            Option<MessageView>,
            ProtocolError,
        >(ProtocolError::InvalidEnum { field: "MonitorKind", value: s[4] }),
        len == 23 && (s[4] == 1 || s[4] == 2) && !(1 <= s[17] <= 3) ==> protocol::parse_payload(
            16,
            len,
            s,
        ).0 == Err::<Option<MessageView>, ProtocolError>(
            ProtocolError::InvalidEnum { field: "DesktopWindowMode", value: s[17] },
        ),
        len == 23 && (s[4] == 1 || s[4] == 2) && 1 <= s[17] <= 3 ==> {
            &&& protocol::parse_payload(16, len, s).0 matches Ok(Some(MessageView::Plain(
                ControlMessage::RegisterMonitorV2 { manual_lifecycle, .. },
            )))
            &&& manual_lifecycle <==> s[22] != 0
        },
        len == 5 && s[4] > 9 ==> protocol::parse_payload(15, len, s).0 == Err::<
            Option<MessageView>,
            ProtocolError,
        >(ProtocolError::InvalidEnum { field: "MonitorRequestStatus", value: s[4] }),
        len >= 9 && s[4] > 9 ==> protocol::parse_payload(13, len, s).0 == Err::<
            Option<MessageView>,
            ProtocolError,
        >(ProtocolError::InvalidEnum { field: "MonitorRequestStatus", value: s[4] }),
{
}

/// A list is read just where its own length is that of the payload: a bitmap's
/// bytes, the listed types and the started monitors.
pub proof fn lists_must_fill_their_payload(s: Seq<u8>, len: u32)
    requires
        s.len() >= len,
    ensures
        ({
            let mismatch = Err::<Option<MessageView>, ProtocolError>(
                ProtocolError::PayloadLengthMismatch,
            );
            &&& len < 8 || buffer::u32_at(s, 4) + 8 != len ==> protocol::parse_payload(
                9,
                len,
                s,
            ).0 == mismatch
            &&& len < 8 || buffer::u32_at(s, 4) * 20 + 8 != len ==> protocol::parse_payload(
                11,
                len,
                s,
            ).0 == mismatch
            &&& len < 9 || (s[4] <= 9 && buffer::u32_at(s, 5) * 4 + 9 != len)
                ==> protocol::parse_payload(13, len, s).0 == mismatch
            &&& len >= 8 && buffer::u32_at(s, 4) + 8 == len ==> {
                &&& protocol::parse_payload(9, len, s).0 matches Ok(
                    Some(MessageView::LoadBitmap { bitmap_id, bytes }),
                )
                &&& bitmap_id == buffer::u32_at(s, 0)
                &&& bytes == s.subrange(8, len as int)
            }
        }),
{
}

/// A payload that is not all there is refused, and says how much is.
pub proof fn short_payloads_are_refused(opcode: u16, payload_len: u32, s: Seq<u8>)
    requires
        s.len() < payload_len,
        payload_len <= usize::MAX,
    ensures
        protocol::parse_payload(opcode, payload_len, s).0 matches Err(e) && (e
            == ProtocolError::PayloadLengthMismatch || e == (ProtocolError::BufferTooSmall {
            expected: payload_len as usize,
            actual: s.len() as usize,
        })),
        opcode > 17 ==> protocol::parse_payload(opcode, payload_len, s).0 == Err::<
            Option<MessageView>,
            ProtocolError,
        >(
            ProtocolError::BufferTooSmall {
                expected: payload_len as usize,
                actual: s.len() as usize,
            },
        ),
{
}

} // verus!
