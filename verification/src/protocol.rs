//! The control protocol between the core server, its apps and its monitors:
//! a twelve byte header, then a payload whose layout the opcode selects.

use bytes::BytesMut;
use vstd::prelude::*;

use crate::buffer;

verus! {

/// Why a frame was not accepted.
#[derive(Debug, PartialEq, Eq)]
pub enum ProtocolError {
    /// Fewer bytes were buffered than the frame needs.
    BufferTooSmall { expected: usize, actual: usize },
    /// The frame does not start with [`MAGIC`].
    InvalidMagic(u32),
    /// The frame's version is not [`VERSION`].
    UnsupportedVersion(u16),
    /// The opcode names no message.
    UnknownOpcode(u16),
    /// The payload's length does not fit its opcode or its contents.
    PayloadLengthMismatch,
    /// A byte of the payload names no value of the enumeration `field`.
    InvalidEnum { field: &'static str, value: u8 },
}

pub const MAGIC: u32 = 0x4F56524C;

pub const VERSION: u16 = 1;

pub const HEADER_SIZE: usize = 12;

pub const OP_REGISTER_APP: u16 = 0x0001;

pub const OP_REGISTER_MONITOR: u16 = 0x0002;

pub const OP_CREATE_CANVAS: u16 = 0x0003;

pub const OP_ATTACH_MONITOR: u16 = 0x0004;

pub const OP_CANVAS_ATTACHED: u16 = 0x0005;

pub const OP_SUBMIT_FRAME: u16 = 0x0006;

pub const OP_MONITOR_LOCAL_SURFACE_ATTACHED: u16 = 0x0007;

pub const OP_APP_DETACHED: u16 = 0x0008;

pub const OP_LOAD_BITMAP: u16 = 0x0009;

pub const OP_LIST_MONITOR_TYPES: u16 = 0x000A;

pub const OP_MONITOR_TYPES: u16 = 0x000B;

pub const OP_START_MONITOR: u16 = 0x000C;

pub const OP_START_MONITOR_RESULT: u16 = 0x000D;

pub const OP_STOP_MONITOR: u16 = 0x000E;

pub const OP_STOP_MONITOR_RESULT: u16 = 0x000F;

pub const OP_REGISTER_MONITOR_V2: u16 = 0x0010;

pub const OP_CLOSE_MONITOR: u16 = 0x0011;

pub const DESKTOP_WINDOW_MODE_BORDERED: u32 = 1;

pub const DESKTOP_WINDOW_MODE_BORDERLESS: u32 = 2;

pub const DESKTOP_WINDOW_MODE_BORDERLESS_FULLSCREEN: u32 = 4;

pub const DESKTOP_WINDOW_FLAG_CLICK_THROUGH: u32 = 1;

/// The opcode and payload length that precede every payload.
#[derive(Debug, Clone, Copy, PartialEq, Eq, Structural)]
pub struct MessageHeader {
    pub opcode: u16,
    pub payload_len: u32,
}

/// The twelve bytes of a header.
pub open spec fn header_bytes(opcode: u16, payload_len: u32) -> Seq<u8> {
    buffer::le32(MAGIC) + buffer::le16(VERSION) + buffer::le16(opcode) + buffer::le32(payload_len)
}

/// What reading a header off the bytes `s` yields, and how many bytes it takes.
pub open spec fn parse_header(s: Seq<u8>) -> (Result<MessageHeader, ProtocolError>, int) {
    if s.len() < HEADER_SIZE {
        (
            Err(
                ProtocolError::BufferTooSmall { expected: HEADER_SIZE, actual: s.len() as usize },
            ),
            0,
        )
    } else if buffer::u32_at(s, 0) != MAGIC {
        (Err(ProtocolError::InvalidMagic(buffer::u32_at(s, 0))), 4)
    } else if buffer::u16_at(s, 4) != VERSION {
        (Err(ProtocolError::UnsupportedVersion(buffer::u16_at(s, 4))), 6)
    } else {
        (Ok(MessageHeader { opcode: buffer::u16_at(s, 6), payload_len: buffer::u32_at(s, 8) }), 12)
    }
}

impl MessageHeader {
    /// Reads a header off the front of `buf`.
    pub fn decode(buf: &mut BytesMut) -> (r: Result<Self, ProtocolError>)
        ensures
            r == parse_header(buffer::buffered(*old(buf))).0,
            buffer::buffered(*final(buf)) == buffer::buffered(*old(buf)).skip(
                parse_header(buffer::buffered(*old(buf))).1,
            ),
    {
        let available: usize = buffer::remaining(buf);
        if available < HEADER_SIZE {
            return Err(
                ProtocolError::BufferTooSmall { expected: HEADER_SIZE, actual: available },
            );
        }
        let magic: u32 = buffer::get_u32_le(buf);
        if magic != MAGIC {
            return Err(ProtocolError::InvalidMagic(magic));
        }
        let version: u16 = buffer::get_u16_le(buf);
        if version != VERSION {
            return Err(ProtocolError::UnsupportedVersion(version));
        }
        let opcode: u16 = buffer::get_u16_le(buf);
        let payload_len: u32 = buffer::get_u32_le(buf);
        Ok(MessageHeader { opcode, payload_len })
    }

    /// Appends the header to `buf`.
    pub fn encode(&self, buf: &mut BytesMut)
        requires
            buffer::buffered(*old(buf)).len() + 12 <= isize::MAX,
        ensures
            buffer::buffered(*final(buf)) == buffer::buffered(*old(buf)) + header_bytes(
                self.opcode,
                self.payload_len,
            ),
    {
        buffer::put_u32_le(buf, MAGIC);
        buffer::put_u16_le(buf, VERSION);
        buffer::put_u16_le(buf, self.opcode);
        buffer::put_u32_le(buf, self.payload_len);
    }
}

/// A header reads back as it was written, whatever bytes follow it.
pub proof fn header_reads_back(opcode: u16, payload_len: u32, rest: Seq<u8>)
    ensures
        parse_header(header_bytes(opcode, payload_len) + rest) == (
            Ok::<MessageHeader, ProtocolError>(MessageHeader { opcode, payload_len }),
            12int,
        ),
        (header_bytes(opcode, payload_len) + rest).skip(12) == rest,
{
    let s = header_bytes(opcode, payload_len) + rest;
    buffer::le32_reads_back(MAGIC);
    buffer::le16_reads_back(VERSION);
    buffer::le16_reads_back(opcode);
    buffer::le32_reads_back(payload_len);
    assert(buffer::u32_at(s, 0) == buffer::u32_at(buffer::le32(MAGIC), 0));
    assert(buffer::u16_at(s, 4) == buffer::u16_at(buffer::le16(VERSION), 0));
    assert(buffer::u16_at(s, 6) == buffer::u16_at(buffer::le16(opcode), 0));
    assert(buffer::u32_at(s, 8) == buffer::u32_at(buffer::le32(payload_len), 0));
    assert(s.skip(12) =~= rest);
}

/// Why an app left.
#[derive(Debug, Clone, Copy, PartialEq, Eq, Structural)]
pub enum AppDetachReason {
    GracefulExit,
    IoError,
    Other,
}

impl AppDetachReason {
    /// The byte that stands for the reason on the wire.
    pub open spec fn wire(self) -> u8 {
        match self {
            AppDetachReason::GracefulExit => 0,
            AppDetachReason::IoError => 1,
            AppDetachReason::Other => 2,
        }
    }

    /// The byte that stands for the reason on the wire.
    pub fn to_wire(self) -> (b: u8)
        ensures
            b == self.wire(),
    {
        match self {
            AppDetachReason::GracefulExit => 0,
            AppDetachReason::IoError => 1,
            AppDetachReason::Other => 2,
        }
    }
}

/// The kinds of monitor that can show canvases.
#[derive(Debug, Clone, Copy, PartialEq, Eq, Structural)]
pub enum MonitorKind {
    DesktopWindow,
    GameBar,
}

impl MonitorKind {
    /// The byte that stands for the kind on the wire.
    pub open spec fn wire(self) -> u8 {
        match self {
            MonitorKind::DesktopWindow => 1,
            MonitorKind::GameBar => 2,
        }
    }

    /// The kind that `value` stands for.
    pub open spec fn parse(value: u8) -> Result<Self, ProtocolError> {
        if value == 1 {
            Ok(MonitorKind::DesktopWindow)
        } else if value == 2 {
            Ok(MonitorKind::GameBar)
        } else {
            Err(ProtocolError::InvalidEnum { field: "MonitorKind", value })
        }
    }

    /// The byte that stands for the kind on the wire.
    pub fn to_wire(self) -> (b: u8)
        ensures
            b == self.wire(),
            Self::parse(b) == Ok::<Self, ProtocolError>(self),
    {
        match self {
            MonitorKind::DesktopWindow => 1,
            MonitorKind::GameBar => 2,
        }
    }

    /// The kind that `value` stands for on the wire.
    pub fn from_wire(value: u8) -> (r: Result<Self, ProtocolError>)
        ensures
            r == Self::parse(value),
    {
        match value {
            1 => Ok(MonitorKind::DesktopWindow),
            2 => Ok(MonitorKind::GameBar),
            _ => Err(ProtocolError::InvalidEnum { field: "MonitorKind", value }),
        }
    }
}

/// Who may start a monitor of some kind.
#[derive(Debug, Clone, Copy, PartialEq, Eq, Structural)]
pub enum MonitorStartPolicy {
    CoreOnDemand,
    UserManual,
}

impl MonitorStartPolicy {
    /// The byte that stands for the policy on the wire.
    pub open spec fn wire(self) -> u8 {
        match self {
            MonitorStartPolicy::CoreOnDemand => 1,
            MonitorStartPolicy::UserManual => 2,
        }
    }

    /// The policy that `value` stands for.
    pub open spec fn parse(value: u8) -> Result<Self, ProtocolError> {
        if value == 1 {
            Ok(MonitorStartPolicy::CoreOnDemand)
        } else if value == 2 {
            Ok(MonitorStartPolicy::UserManual)
        } else {
            Err(ProtocolError::InvalidEnum { field: "MonitorStartPolicy", value })
        }
    }

    /// The byte that stands for the policy on the wire.
    pub fn to_wire(self) -> (b: u8)
        ensures
            b == self.wire(),
            Self::parse(b) == Ok::<Self, ProtocolError>(self),
    {
        match self {
            MonitorStartPolicy::CoreOnDemand => 1,
            MonitorStartPolicy::UserManual => 2,
        }
    }

    /// The policy that `value` stands for on the wire.
    pub fn from_wire(value: u8) -> (r: Result<Self, ProtocolError>)
        ensures
            r == Self::parse(value),
    {
        match value {
            1 => Ok(MonitorStartPolicy::CoreOnDemand),
            2 => Ok(MonitorStartPolicy::UserManual),
            _ => Err(ProtocolError::InvalidEnum { field: "MonitorStartPolicy", value }),
        }
    }
}

/// How a desktop window is framed.
#[derive(Debug, Clone, Copy, PartialEq, Eq, Structural)]
pub enum DesktopWindowMode {
    Bordered,
    Borderless,
    BorderlessFullscreen,
}

impl DesktopWindowMode {
    /// The byte that stands for the mode on the wire.
    pub open spec fn wire(self) -> u8 {
        match self {
            DesktopWindowMode::Bordered => 1,
            DesktopWindowMode::Borderless => 2,
            DesktopWindowMode::BorderlessFullscreen => 3,
        }
    }

    /// The mode that `value` stands for.
    pub open spec fn parse(value: u8) -> Result<Self, ProtocolError> {
        if value == 1 {
            Ok(DesktopWindowMode::Bordered)
        } else if value == 2 {
            Ok(DesktopWindowMode::Borderless)
        } else if value == 3 {
            Ok(DesktopWindowMode::BorderlessFullscreen)
        } else {
            Err(ProtocolError::InvalidEnum { field: "DesktopWindowMode", value })
        }
    }

    /// The mode's bit in a set of window modes.
    pub open spec fn mode_bit(self) -> u32 {
        match self {
            DesktopWindowMode::Bordered => DESKTOP_WINDOW_MODE_BORDERED,
            DesktopWindowMode::Borderless => DESKTOP_WINDOW_MODE_BORDERLESS,
            DesktopWindowMode::BorderlessFullscreen => DESKTOP_WINDOW_MODE_BORDERLESS_FULLSCREEN,
        }
    }

    /// The mode's name on a command line.
    pub open spec fn name(self) -> Seq<char> {
        match self {
            DesktopWindowMode::Bordered => "bordered"@,
            DesktopWindowMode::Borderless => "borderless"@,
            DesktopWindowMode::BorderlessFullscreen => "borderless-fullscreen"@,
        }
    }

    /// The byte that stands for the mode on the wire.
    pub fn to_wire(self) -> (b: u8)
        ensures
            b == self.wire(),
            Self::parse(b) == Ok::<Self, ProtocolError>(self),
    {
        match self {
            DesktopWindowMode::Bordered => 1,
            DesktopWindowMode::Borderless => 2,
            DesktopWindowMode::BorderlessFullscreen => 3,
        }
    }

    /// The mode that `value` stands for on the wire.
    pub fn from_wire(value: u8) -> (r: Result<Self, ProtocolError>)
        ensures
            r == Self::parse(value),
    {
        match value {
            1 => Ok(DesktopWindowMode::Bordered),
            2 => Ok(DesktopWindowMode::Borderless),
            3 => Ok(DesktopWindowMode::BorderlessFullscreen),
            _ => Err(ProtocolError::InvalidEnum { field: "DesktopWindowMode", value }),
        }
    }

    /// The mode's bit in a set of window modes.
    pub fn bit(self) -> (b: u32)
        ensures
            b == self.mode_bit(),
    {
        match self {
            DesktopWindowMode::Bordered => DESKTOP_WINDOW_MODE_BORDERED,
            DesktopWindowMode::Borderless => DESKTOP_WINDOW_MODE_BORDERLESS,
            DesktopWindowMode::BorderlessFullscreen => DESKTOP_WINDOW_MODE_BORDERLESS_FULLSCREEN,
        }
    }

    /// The mode's name on a command line.
    pub fn cli_value(self) -> (s: &'static str)
        ensures
            s@ == self.name(),
    {
        match self {
            DesktopWindowMode::Bordered => "bordered",
            DesktopWindowMode::Borderless => "borderless",
            DesktopWindowMode::BorderlessFullscreen => "borderless-fullscreen",
        }
    }
}

/// The server's answer to a request to start or stop a monitor.
#[derive(Debug, Clone, Copy, PartialEq, Eq, Structural)]
pub enum MonitorRequestStatus {
    Success,
    Unavailable,
    ManualOpenRequired,
    LimitExceeded,
    InvalidCanvas,
    SpawnFailed,
    Timeout,
    NotOwner,
    NotFound,
    NotCoreManaged,
}

impl MonitorRequestStatus {
    /// The byte that stands for the status on the wire.
    pub open spec fn wire(self) -> u8 {
        match self {
            MonitorRequestStatus::Success => 0,
            MonitorRequestStatus::Unavailable => 1,
            MonitorRequestStatus::ManualOpenRequired => 2,
            MonitorRequestStatus::LimitExceeded => 3,
            MonitorRequestStatus::InvalidCanvas => 4,
            MonitorRequestStatus::SpawnFailed => 5,
            MonitorRequestStatus::Timeout => 6,
            MonitorRequestStatus::NotOwner => 7,
            MonitorRequestStatus::NotFound => 8,
            MonitorRequestStatus::NotCoreManaged => 9,
        }
    }

    /// The status that `value` stands for.
    pub open spec fn parse(value: u8) -> Result<Self, ProtocolError> {
        if value == 0 {
            Ok(MonitorRequestStatus::Success)
        } else if value == 1 {
            Ok(MonitorRequestStatus::Unavailable)
        } else if value == 2 {
            Ok(MonitorRequestStatus::ManualOpenRequired)
        } else if value == 3 {
            Ok(MonitorRequestStatus::LimitExceeded)
        } else if value == 4 {
            Ok(MonitorRequestStatus::InvalidCanvas)
        } else if value == 5 {
            Ok(MonitorRequestStatus::SpawnFailed)
        } else if value == 6 {
            Ok(MonitorRequestStatus::Timeout)
        } else if value == 7 {
            Ok(MonitorRequestStatus::NotOwner)
        } else if value == 8 {
            Ok(MonitorRequestStatus::NotFound)
        } else if value == 9 {
            Ok(MonitorRequestStatus::NotCoreManaged)
        } else {
            Err(ProtocolError::InvalidEnum { field: "MonitorRequestStatus", value })
        }
    }

    /// The byte that stands for the status on the wire.
    pub fn to_wire(self) -> (b: u8)
        ensures
            b == self.wire(),
            Self::parse(b) == Ok::<Self, ProtocolError>(self),
    {
        match self {
            MonitorRequestStatus::Success => 0,
            MonitorRequestStatus::Unavailable => 1,
            MonitorRequestStatus::ManualOpenRequired => 2,
            MonitorRequestStatus::LimitExceeded => 3,
            MonitorRequestStatus::InvalidCanvas => 4,
            MonitorRequestStatus::SpawnFailed => 5,
            MonitorRequestStatus::Timeout => 6,
            MonitorRequestStatus::NotOwner => 7,
            MonitorRequestStatus::NotFound => 8,
            MonitorRequestStatus::NotCoreManaged => 9,
        }
    }

    /// The status that `value` stands for on the wire.
    pub fn from_wire(value: u8) -> (r: Result<Self, ProtocolError>)
        ensures
            r == Self::parse(value),
    {
        match value {
            0 => Ok(MonitorRequestStatus::Success),
            1 => Ok(MonitorRequestStatus::Unavailable),
            2 => Ok(MonitorRequestStatus::ManualOpenRequired),
            3 => Ok(MonitorRequestStatus::LimitExceeded),
            4 => Ok(MonitorRequestStatus::InvalidCanvas),
            5 => Ok(MonitorRequestStatus::SpawnFailed),
            6 => Ok(MonitorRequestStatus::Timeout),
            7 => Ok(MonitorRequestStatus::NotOwner),
            8 => Ok(MonitorRequestStatus::NotFound),
            9 => Ok(MonitorRequestStatus::NotCoreManaged),
            _ => Err(ProtocolError::InvalidEnum { field: "MonitorRequestStatus", value }),
        }
    }
}

/// One kind of monitor, as the server lists it to an app.
#[derive(Debug, Clone, Copy, PartialEq, Eq, Structural)]
pub struct MonitorTypeEntry {
    pub kind: MonitorKind,
    pub available: bool,
    pub start_policy: MonitorStartPolicy,
    pub core_startable: bool,
    pub core_managed: bool,
    pub max_instances: u32,
    pub window_modes: u32,
    pub flags: u32,
}

/// A message of the control protocol.
#[derive(Debug, Clone, PartialEq)]
pub enum ControlMessage {
    RegisterApp { pid: u32 },
    RegisterMonitor { pid: u32 },
    CreateCanvas { logical_w: u32, logical_h: u32, render_w: u32, render_h: u32 },
    AttachMonitor { canvas_id: u32, monitor_id: u32 },
    CanvasAttached {
        canvas_id: u32,
        surface_handle: u64,
        logical_w: u32,
        logical_h: u32,
        render_w: u32,
        render_h: u32,
    },
    SubmitFrame { canvas_id: u32, frame_id: u64, offset: u32, length: u32 },
    MonitorLocalSurfaceAttached {
        canvas_id: u32,
        monitor_id: u32,
        surface_handle: u64,
        logical_w: u32,
        logical_h: u32,
    },
    AppDetached { app_id: u32, reason: u8 },
    LoadBitmap { bitmap_id: u32, bytes: Vec<u8> },
    ListMonitorTypes { request_id: u32 },
    MonitorTypes { request_id: u32, entries: Vec<MonitorTypeEntry> },
    StartMonitor {
        request_id: u32,
        kind: MonitorKind,
        count: u32,
        target_canvas_id: u32,
        mode: DesktopWindowMode,
        flags: u32,
        x: i32,
        y: i32,
        w: u32,
        h: u32,
    },
    StartMonitorResult { request_id: u32, status: MonitorRequestStatus, monitor_ids: Vec<u32> },
    StopMonitor { request_id: u32, monitor_id: u32 },
    StopMonitorResult { request_id: u32, status: MonitorRequestStatus },
    RegisterMonitorV2 {
        pid: u32,
        kind: MonitorKind,
        owner_app_id: u32,
        request_id: u32,
        target_canvas_id: u32,
        mode: DesktopWindowMode,
        flags: u32,
        manual_lifecycle: bool,
    },
    CloseMonitor { monitor_id: u32 },
}

/// A message as a mathematical value: the three messages that carry lists carry
/// sequences, and every other message stands for itself.
pub enum MessageView {
    Plain(ControlMessage),
    LoadBitmap { bitmap_id: u32, bytes: Seq<u8> },
    MonitorTypes { request_id: u32, entries: Seq<MonitorTypeEntry> },
    StartMonitorResult { request_id: u32, status: MonitorRequestStatus, monitor_ids: Seq<u32> },
}

impl View for ControlMessage {
    type V = MessageView;

    open spec fn view(&self) -> MessageView {
        match *self {
            ControlMessage::LoadBitmap { bitmap_id, bytes } => MessageView::LoadBitmap {
                bitmap_id,
                bytes: bytes@,
            },
            ControlMessage::MonitorTypes { request_id, entries } => MessageView::MonitorTypes {
                request_id,
                entries: entries@,
            },
            ControlMessage::StartMonitorResult { request_id, status, monitor_ids } =>
                MessageView::StartMonitorResult { request_id, status, monitor_ids: monitor_ids@ },
            _ => MessageView::Plain(*self),
        }
    }
}

/// The byte that stands for a flag.
pub open spec fn flag_byte(b: bool) -> u8 {
    if b {
        1
    } else {
        0
    }
}

/// The first eight bytes of a listed monitor type: five values and a gap.
pub open spec fn entry_flags(e: MonitorTypeEntry) -> Seq<u8> {
    seq![
        e.kind.wire(),
        flag_byte(e.available),
        e.start_policy.wire(),
        flag_byte(e.core_startable),
        flag_byte(e.core_managed),
        0,
        0,
        0,
    ]
}

/// The twenty bytes of a listed monitor type.
pub open spec fn entry_bytes(e: MonitorTypeEntry) -> Seq<u8> {
    entry_flags(e) + buffer::le32(e.max_instances) + buffer::le32(e.window_modes) + buffer::le32(
        e.flags,
    )
}

/// The bytes of a list of monitor types.
pub open spec fn entries_bytes(entries: Seq<MonitorTypeEntry>) -> Seq<u8>
    decreases entries.len(),
{
    if entries.len() == 0 {
        seq![]
    } else {
        entries_bytes(entries.drop_last()) + entry_bytes(entries.last())
    }
}

impl ControlMessage {
    /// The opcode of the message's frames.
    pub open spec fn op(self) -> u16 {
        match self {
            ControlMessage::RegisterApp { .. } => OP_REGISTER_APP,
            ControlMessage::RegisterMonitor { .. } => OP_REGISTER_MONITOR,
            ControlMessage::CreateCanvas { .. } => OP_CREATE_CANVAS,
            ControlMessage::AttachMonitor { .. } => OP_ATTACH_MONITOR,
            ControlMessage::CanvasAttached { .. } => OP_CANVAS_ATTACHED,
            ControlMessage::SubmitFrame { .. } => OP_SUBMIT_FRAME,
            ControlMessage::MonitorLocalSurfaceAttached { .. } => OP_MONITOR_LOCAL_SURFACE_ATTACHED,
            ControlMessage::AppDetached { .. } => OP_APP_DETACHED,
            ControlMessage::LoadBitmap { .. } => OP_LOAD_BITMAP,
            ControlMessage::ListMonitorTypes { .. } => OP_LIST_MONITOR_TYPES,
            ControlMessage::MonitorTypes { .. } => OP_MONITOR_TYPES,
            ControlMessage::StartMonitor { .. } => OP_START_MONITOR,
            ControlMessage::StartMonitorResult { .. } => OP_START_MONITOR_RESULT,
            ControlMessage::StopMonitor { .. } => OP_STOP_MONITOR,
            ControlMessage::StopMonitorResult { .. } => OP_STOP_MONITOR_RESULT,
            ControlMessage::RegisterMonitorV2 { .. } => OP_REGISTER_MONITOR_V2,
            ControlMessage::CloseMonitor { .. } => OP_CLOSE_MONITOR,
        }
    }

    /// The number of payload bytes that the message needs.
    pub open spec fn payload_size(self) -> nat {
        match self {
            ControlMessage::RegisterApp { .. } => 4,
            ControlMessage::RegisterMonitor { .. } => 4,
            ControlMessage::CreateCanvas { .. } => 16,
            ControlMessage::AttachMonitor { .. } => 8,
            ControlMessage::CanvasAttached { .. } => 28,
            ControlMessage::SubmitFrame { .. } => 20,
            ControlMessage::MonitorLocalSurfaceAttached { .. } => 24,
            ControlMessage::AppDetached { .. } => 5,
            ControlMessage::LoadBitmap { bytes, .. } => 8 + bytes@.len(),
            ControlMessage::ListMonitorTypes { .. } => 4,
            ControlMessage::MonitorTypes { entries, .. } => 8 + 20 * entries@.len(),
            ControlMessage::StartMonitor { .. } => 34,
            ControlMessage::StartMonitorResult { monitor_ids, .. } => 9 + 4 * monitor_ids@.len(),
            ControlMessage::StopMonitor { .. } => 8,
            ControlMessage::StopMonitorResult { .. } => 5,
            ControlMessage::RegisterMonitorV2 { .. } => 23,
            ControlMessage::CloseMonitor { .. } => 4,
        }
    }

    /// The message's payload.
    pub open spec fn payload(self) -> Seq<u8> {
        match self {
            ControlMessage::RegisterApp { pid } => buffer::le32(pid),
            ControlMessage::RegisterMonitor { pid } => buffer::le32(pid),
            ControlMessage::CreateCanvas { logical_w, logical_h, render_w, render_h } =>
                buffer::le32(logical_w) + buffer::le32(logical_h) + buffer::le32(render_w)
                    + buffer::le32(render_h),
            ControlMessage::AttachMonitor { canvas_id, monitor_id } => buffer::le32(canvas_id)
                + buffer::le32(monitor_id),
            ControlMessage::CanvasAttached {
                canvas_id,
                surface_handle,
                logical_w,
                logical_h,
                render_w,
                render_h,
            } => buffer::le32(canvas_id) + buffer::le64(surface_handle) + buffer::le32(logical_w)
                + buffer::le32(logical_h) + buffer::le32(render_w) + buffer::le32(render_h),
            ControlMessage::SubmitFrame { canvas_id, frame_id, offset, length } => buffer::le32(
                canvas_id,
            ) + buffer::le64(frame_id) + buffer::le32(offset) + buffer::le32(length),
            ControlMessage::MonitorLocalSurfaceAttached {
                canvas_id,
                monitor_id,
                surface_handle,
                logical_w,
                logical_h,
            } => buffer::le32(canvas_id) + buffer::le32(monitor_id) + buffer::le64(surface_handle)
                + buffer::le32(logical_w) + buffer::le32(logical_h),
            ControlMessage::AppDetached { app_id, reason } => buffer::le32(app_id) + seq![reason],
            ControlMessage::LoadBitmap { bitmap_id, bytes } => buffer::le32(bitmap_id)
                + buffer::le32(bytes.len() as u32) + bytes@,
            ControlMessage::ListMonitorTypes { request_id } => buffer::le32(request_id),
            ControlMessage::MonitorTypes { request_id, entries } => buffer::le32(request_id)
                + buffer::le32(entries.len() as u32) + entries_bytes(entries@),
            ControlMessage::StartMonitor {
                request_id,
                kind,
                count,
                target_canvas_id,
                mode,
                flags,
                x,
                y,
                w,
                h,
            } => buffer::le32(request_id) + seq![kind.wire()] + buffer::le32(count)
                + buffer::le32(target_canvas_id) + seq![mode.wire()] + buffer::le32(flags)
                + buffer::le_i32(x) + buffer::le_i32(y) + buffer::le32(w) + buffer::le32(h),
            ControlMessage::StartMonitorResult { request_id, status, monitor_ids } =>
                buffer::le32(request_id) + seq![status.wire()] + buffer::le32(
                    monitor_ids.len() as u32,
                ) + buffer::words_bytes(monitor_ids@),
            ControlMessage::StopMonitor { request_id, monitor_id } => buffer::le32(request_id)
                + buffer::le32(monitor_id),
            ControlMessage::StopMonitorResult { request_id, status } => buffer::le32(request_id)
                + seq![status.wire()],
            ControlMessage::RegisterMonitorV2 {
                pid,
                kind,
                owner_app_id,
                request_id,
                target_canvas_id,
                mode,
                flags,
                manual_lifecycle,
            } => buffer::le32(pid) + seq![kind.wire()] + buffer::le32(owner_app_id)
                + buffer::le32(request_id) + buffer::le32(target_canvas_id) + seq![mode.wire()]
                + buffer::le32(flags) + seq![flag_byte(manual_lifecycle)],
            ControlMessage::CloseMonitor { monitor_id } => buffer::le32(monitor_id),
        }
    }

    /// The frame that carries the message: its header, then its payload.
    pub open spec fn frame(self) -> Seq<u8> {
        header_bytes(self.op(), self.payload_size() as u32) + self.payload()
    }

    /// The opcode of the message's frames.
    pub fn opcode(&self) -> (op: u16)
        ensures
            op == self.op(),
    {
        match self {
            ControlMessage::RegisterApp { .. } => OP_REGISTER_APP,
            ControlMessage::RegisterMonitor { .. } => OP_REGISTER_MONITOR,
            ControlMessage::CreateCanvas { .. } => OP_CREATE_CANVAS,
            ControlMessage::AttachMonitor { .. } => OP_ATTACH_MONITOR,
            ControlMessage::CanvasAttached { .. } => OP_CANVAS_ATTACHED,
            ControlMessage::SubmitFrame { .. } => OP_SUBMIT_FRAME,
            ControlMessage::MonitorLocalSurfaceAttached { .. } => OP_MONITOR_LOCAL_SURFACE_ATTACHED,
            ControlMessage::AppDetached { .. } => OP_APP_DETACHED,
            ControlMessage::LoadBitmap { .. } => OP_LOAD_BITMAP,
            ControlMessage::ListMonitorTypes { .. } => OP_LIST_MONITOR_TYPES,
            ControlMessage::MonitorTypes { .. } => OP_MONITOR_TYPES,
            ControlMessage::StartMonitor { .. } => OP_START_MONITOR,
            ControlMessage::StartMonitorResult { .. } => OP_START_MONITOR_RESULT,
            ControlMessage::StopMonitor { .. } => OP_STOP_MONITOR,
            ControlMessage::StopMonitorResult { .. } => OP_STOP_MONITOR_RESULT,
            ControlMessage::RegisterMonitorV2 { .. } => OP_REGISTER_MONITOR_V2,
            ControlMessage::CloseMonitor { .. } => OP_CLOSE_MONITOR,
        }
    }

    /// Appends the message's frame to `buf`.
    #[verifier::rlimit(60)]
    pub fn encode(&self, buf: &mut BytesMut)
        requires
            self.payload_size() <= u32::MAX,
            buffer::buffered(*old(buf)).len() + 12 + self.payload_size() <= isize::MAX,
        ensures
            buffer::buffered(*final(buf)) == buffer::buffered(*old(buf)) + self.frame(),
    {
        proof {
            buffer::concat_assoc(
                buffer::buffered(*buf),
                header_bytes(self.op(), self.payload_size() as u32),
                self.payload(),
            );
        }
        match self {
            ControlMessage::RegisterApp { pid } => {
                encode_header(self.opcode(), 4, buf);
                buffer::append_u32(buf, *pid);
            },
            ControlMessage::RegisterMonitor { pid } => {
                encode_header(self.opcode(), 4, buf);
                buffer::append_u32(buf, *pid);
            },
            ControlMessage::CreateCanvas { logical_w, logical_h, render_w, render_h } => {
                encode_header(self.opcode(), 16, buf);
                buffer::append_u32(buf, *logical_w);
                buffer::append_u32(buf, *logical_h);
                buffer::append_u32(buf, *render_w);
                buffer::append_u32(buf, *render_h);
            },
            ControlMessage::AttachMonitor { canvas_id, monitor_id } => {
                encode_header(self.opcode(), 8, buf);
                buffer::append_u32(buf, *canvas_id);
                buffer::append_u32(buf, *monitor_id);
            },
            ControlMessage::CanvasAttached {
                canvas_id,
                surface_handle,
                logical_w,
                logical_h,
                render_w,
                render_h,
            } => {
                encode_header(self.opcode(), 28, buf);
                buffer::append_u32(buf, *canvas_id);
                buffer::append_u64(buf, *surface_handle);
                buffer::append_u32(buf, *logical_w);
                buffer::append_u32(buf, *logical_h);
                buffer::append_u32(buf, *render_w);
                buffer::append_u32(buf, *render_h);
            },
            ControlMessage::SubmitFrame { canvas_id, frame_id, offset, length } => {
                encode_header(self.opcode(), 20, buf);
                buffer::append_u32(buf, *canvas_id);
                buffer::append_u64(buf, *frame_id);
                buffer::append_u32(buf, *offset);
                buffer::append_u32(buf, *length);
            },
            ControlMessage::MonitorLocalSurfaceAttached {
                canvas_id,
                monitor_id,
                surface_handle,
                logical_w,
                logical_h,
            } => {
                encode_header(self.opcode(), 24, buf);
                buffer::append_u32(buf, *canvas_id);
                buffer::append_u32(buf, *monitor_id);
                buffer::append_u64(buf, *surface_handle);
                buffer::append_u32(buf, *logical_w);
                buffer::append_u32(buf, *logical_h);
            },
            ControlMessage::AppDetached { app_id, reason } => {
                encode_header(self.opcode(), 5, buf);
                buffer::append_u32(buf, *app_id);
                buffer::append_u8(buf, *reason);
            },
            ControlMessage::LoadBitmap { bitmap_id, bytes } => {
                encode_header(self.opcode(), 8 + bytes.len() as u32, buf);
                buffer::append_u32(buf, *bitmap_id);
                buffer::append_u32(buf, bytes.len() as u32);
                buffer::append_slice(buf, bytes.as_slice());
            },
            ControlMessage::ListMonitorTypes { request_id } => {
                encode_header(self.opcode(), 4, buf);
                buffer::append_u32(buf, *request_id);
            },
            ControlMessage::MonitorTypes { request_id, entries } => {
                encode_header(self.opcode(), 8 + (entries.len() as u32) * 20, buf);
                buffer::append_u32(buf, *request_id);
                buffer::append_u32(buf, entries.len() as u32);
                put_entries(entries, buf);
            },
            ControlMessage::StartMonitor {
                request_id,
                kind,
                count,
                target_canvas_id,
                mode,
                flags,
                x,
                y,
                w,
                h,
            } => {
                encode_header(self.opcode(), 34, buf);
                buffer::append_u32(buf, *request_id);
                buffer::append_u8(buf, kind.to_wire());
                buffer::append_u32(buf, *count);
                buffer::append_u32(buf, *target_canvas_id);
                buffer::append_u8(buf, mode.to_wire());
                buffer::append_u32(buf, *flags);
                buffer::append_i32(buf, *x);
                buffer::append_i32(buf, *y);
                buffer::append_u32(buf, *w);
                buffer::append_u32(buf, *h);
            },
            ControlMessage::StartMonitorResult { request_id, status, monitor_ids } => {
                encode_header(self.opcode(), 9 + (monitor_ids.len() as u32) * 4, buf);
                buffer::append_u32(buf, *request_id);
                buffer::append_u8(buf, status.to_wire());
                buffer::append_u32(buf, monitor_ids.len() as u32);
                put_ids(monitor_ids, buf);
            },
            ControlMessage::StopMonitor { request_id, monitor_id } => {
                encode_header(self.opcode(), 8, buf);
                buffer::append_u32(buf, *request_id);
                buffer::append_u32(buf, *monitor_id);
            },
            ControlMessage::StopMonitorResult { request_id, status } => {
                encode_header(self.opcode(), 5, buf);
                buffer::append_u32(buf, *request_id);
                buffer::append_u8(buf, status.to_wire());
            },
            ControlMessage::RegisterMonitorV2 {
                pid,
                kind,
                owner_app_id,
                request_id,
                target_canvas_id,
                mode,
                flags,
                manual_lifecycle,
            } => {
                encode_header(self.opcode(), 23, buf);
                buffer::append_u32(buf, *pid);
                buffer::append_u8(buf, kind.to_wire());
                buffer::append_u32(buf, *owner_app_id);
                buffer::append_u32(buf, *request_id);
                buffer::append_u32(buf, *target_canvas_id);
                buffer::append_u8(buf, mode.to_wire());
                buffer::append_u32(buf, *flags);
                buffer::append_u8(buf, flag_to_wire(*manual_lifecycle));
            },
            ControlMessage::CloseMonitor { monitor_id } => {
                encode_header(self.opcode(), 4, buf);
                buffer::append_u32(buf, *monitor_id);
            },
        }
    }
}

fn flag_to_wire(b: bool) -> (x: u8)
    ensures
        x == flag_byte(b),
{
    if b {
        1
    } else {
        0
    }
}

fn encode_header(opcode: u16, payload_len: u32, buf: &mut BytesMut)
    requires
        buffer::buffered(*old(buf)).len() + 12 <= isize::MAX,
    ensures
        buffer::buffered(*final(buf)) == buffer::buffered(*old(buf)) + header_bytes(
            opcode,
            payload_len,
        ),
{
    MessageHeader { opcode, payload_len }.encode(buf);
}

/// A list of monitor types takes twenty bytes for each.
pub proof fn entries_bytes_len(entries: Seq<MonitorTypeEntry>)
    ensures
        entries_bytes(entries).len() == 20 * entries.len(),
    decreases entries.len(),
{
    if entries.len() > 0 {
        entries_bytes_len(entries.drop_last());
    }
}

fn put_entry(entry: &MonitorTypeEntry, buf: &mut BytesMut)
    requires
        buffer::buffered(*old(buf)).len() + 20 <= isize::MAX,
    ensures
        buffer::buffered(*final(buf)) == buffer::buffered(*old(buf)) + entry_bytes(*entry),
{
    let ghost start = buffer::buffered(*buf);
    buffer::put_u8(buf, entry.kind.to_wire());
    buffer::put_u8(buf, flag_to_wire(entry.available));
    buffer::put_u8(buf, entry.start_policy.to_wire());
    buffer::put_u8(buf, flag_to_wire(entry.core_startable));
    buffer::put_u8(buf, flag_to_wire(entry.core_managed));
    buffer::put_slice(buf, [0u8, 0u8, 0u8].as_slice());
    assert(buffer::buffered(*buf) =~= start + entry_flags(*entry));
    buffer::append_u32(buf, entry.max_instances);
    buffer::append_u32(buf, entry.window_modes);
    buffer::append_u32(buf, entry.flags);
}

fn put_entries(entries: &Vec<MonitorTypeEntry>, buf: &mut BytesMut)
    requires
        buffer::buffered(*old(buf)).len() + 20 * entries@.len() <= isize::MAX,
    ensures
        buffer::buffered(*final(buf)) == buffer::buffered(*old(buf)) + entries_bytes(entries@),
{
    let ghost before = buffer::buffered(*buf);
    let mut i: usize = 0;
    assert(entries@.take(0) =~= seq![]);
    while i < entries.len()
        invariant
            i <= entries.len(),
            before.len() + 20 * entries@.len() <= isize::MAX,
            buffer::buffered(*buf) == before + entries_bytes(entries@.take(i as int)),
        decreases entries.len() - i,
    {
        proof {
            entries_bytes_len(entries@.take(i as int));
            assert(entries@.take(i + 1).drop_last() =~= entries@.take(i as int));
            buffer::concat_assoc(
                before,
                entries_bytes(entries@.take(i as int)),
                entry_bytes(entries@[i as int]),
            );
        }
        put_entry(&entries[i], buf);
        i = i + 1;
    }
    assert(entries@.take(i as int) =~= entries@);
}

fn put_ids(ids: &Vec<u32>, buf: &mut BytesMut)
    requires
        buffer::buffered(*old(buf)).len() + 4 * ids@.len() <= isize::MAX,
    ensures
        buffer::buffered(*final(buf)) == buffer::buffered(*old(buf)) + buffer::words_bytes(ids@),
{
    let ghost before = buffer::buffered(*buf);
    let mut i: usize = 0;
    assert(ids@.take(0) =~= seq![]);
    while i < ids.len()
        invariant
            i <= ids.len(),
            before.len() + 4 * ids@.len() <= isize::MAX,
            buffer::buffered(*buf) == before + buffer::words_bytes(ids@.take(i as int)),
        decreases ids.len() - i,
    {
        proof {
            buffer::words_bytes_len(ids@.take(i as int));
            assert(ids@.take(i + 1).drop_last() =~= ids@.take(i as int));
            buffer::concat_assoc(
                before,
                buffer::words_bytes(ids@.take(i as int)),
                buffer::le32(ids@[i as int]),
            );
        }
        buffer::append_u32(buf, ids[i]);
        i = i + 1;
    }
    assert(ids@.take(i as int) =~= ids@);
}

/// What reading a payload yields: the message, no message where the opcode is
/// unknown, or an error; and how many bytes were taken.
pub type Parsed = (Result<Option<MessageView>, ProtocolError>, int);

/// The payload length of the opcodes whose payloads all have one length.
pub open spec fn fixed_len(opcode: u16) -> Option<usize> {
    if opcode == OP_REGISTER_APP || opcode == OP_REGISTER_MONITOR || opcode
        == OP_LIST_MONITOR_TYPES || opcode == OP_CLOSE_MONITOR {
        Some(4)
    } else if opcode == OP_CREATE_CANVAS {
        Some(16)
    } else if opcode == OP_ATTACH_MONITOR || opcode == OP_STOP_MONITOR {
        Some(8)
    } else if opcode == OP_CANVAS_ATTACHED {
        Some(28)
    } else if opcode == OP_SUBMIT_FRAME {
        Some(20)
    } else if opcode == OP_MONITOR_LOCAL_SURFACE_ATTACHED {
        Some(24)
    } else if opcode == OP_APP_DETACHED || opcode == OP_STOP_MONITOR_RESULT {
        Some(5)
    } else if opcode == OP_START_MONITOR {
        Some(34)
    } else if opcode == OP_REGISTER_MONITOR_V2 {
        Some(23)
    } else {
        None
    }
}

/// A message without a list, read from `n` bytes.
pub open spec fn plain(m: ControlMessage, n: int) -> Parsed {
    (Ok(Some(MessageView::Plain(m))), n)
}

/// A monitor type read from the twenty bytes at offset `i`, or the error of its
/// first byte that names no value, with the bytes taken up to there.
pub open spec fn parse_entry(s: Seq<u8>, i: int) -> (Result<MonitorTypeEntry, ProtocolError>, int) {
    match MonitorKind::parse(s[i]) {
        Err(e) => (Err(e), 1),
        Ok(kind) => match MonitorStartPolicy::parse(s[i + 2]) {
            Err(e) => (Err(e), 3),
            Ok(start_policy) => (
                Ok(
                    MonitorTypeEntry {
                        kind,
                        available: s[i + 1] != 0,
                        start_policy,
                        core_startable: s[i + 3] != 0,
                        core_managed: s[i + 4] != 0,
                        max_instances: buffer::u32_at(s, i + 8),
                        window_modes: buffer::u32_at(s, i + 12),
                        flags: buffer::u32_at(s, i + 16),
                    },
                ),
                20,
            ),
        },
    }
}

/// The first `n` monitor types of a list that starts at offset eight.
pub open spec fn parse_entries(s: Seq<u8>, n: nat) -> (
    Result<Seq<MonitorTypeEntry>, ProtocolError>,
    int,
)
    decreases n,
{
    if n == 0 {
        (Ok(seq![]), 8)
    } else {
        match parse_entries(s, (n - 1) as nat).0 {
            Err(e) => (Err(e), parse_entries(s, (n - 1) as nat).1),
            Ok(entries) => {
                let at = 8 + 20 * (n - 1);
                match parse_entry(s, at).0 {
                    Err(e) => (Err(e), at + parse_entry(s, at).1),
                    Ok(entry) => (Ok(entries.push(entry)), at + 20),
                }
            },
        }
    }
}

/// A bitmap upload of `len` payload bytes.
pub open spec fn parse_load_bitmap(len: int, s: Seq<u8>) -> Parsed {
    if len < 8 {
        (Err(ProtocolError::PayloadLengthMismatch), 0)
    } else if buffer::u32_at(s, 4) != len - 8 {
        (Err(ProtocolError::PayloadLengthMismatch), 8)
    } else {
        (
            Ok(
                Some(
                    MessageView::LoadBitmap {
                        bitmap_id: buffer::u32_at(s, 0),
                        bytes: s.subrange(8, len),
                    },
                ),
            ),
            len,
        )
    }
}

/// A list of monitor types in `len` payload bytes.
pub open spec fn parse_monitor_types(len: int, s: Seq<u8>) -> Parsed {
    if len < 8 {
        (Err(ProtocolError::PayloadLengthMismatch), 0)
    } else if len != 8 + 20 * buffer::u32_at(s, 4) {
        (Err(ProtocolError::PayloadLengthMismatch), 8)
    } else {
        let list = parse_entries(s, buffer::u32_at(s, 4) as nat);
        match list.0 {
            Err(e) => (Err(e), list.1),
            Ok(entries) => (
                Ok(
                    Some(
                        MessageView::MonitorTypes { request_id: buffer::u32_at(s, 0), entries },
                    ),
                ),
                len,
            ),
        }
    }
}

/// A request to start monitors.
pub open spec fn parse_start_monitor(s: Seq<u8>) -> Parsed {
    match MonitorKind::parse(s[4]) {
        Err(e) => (Err(e), 5),
        Ok(kind) => match DesktopWindowMode::parse(s[13]) {
            Err(e) => (Err(e), 14),
            Ok(mode) => plain(
                ControlMessage::StartMonitor {
                    request_id: buffer::u32_at(s, 0),
                    kind,
                    count: buffer::u32_at(s, 5),
                    target_canvas_id: buffer::u32_at(s, 9),
                    mode,
                    flags: buffer::u32_at(s, 14),
                    x: buffer::i32_at(s, 18),
                    y: buffer::i32_at(s, 22),
                    w: buffer::u32_at(s, 26),
                    h: buffer::u32_at(s, 30),
                },
                34,
            ),
        },
    }
}

/// The answer to a request to start monitors, in `len` payload bytes.
pub open spec fn parse_start_result(len: int, s: Seq<u8>) -> Parsed {
    if len < 9 {
        (Err(ProtocolError::PayloadLengthMismatch), 0)
    } else {
        match MonitorRequestStatus::parse(s[4]) {
            Err(e) => (Err(e), 5),
            Ok(status) => {
                let count = buffer::u32_at(s, 5);
                if len != 9 + 4 * count {
                    (Err(ProtocolError::PayloadLengthMismatch), 9)
                } else {
                    (
                        Ok(
                            Some(
                                MessageView::StartMonitorResult {
                                    request_id: buffer::u32_at(s, 0),
                                    status,
                                    monitor_ids: Seq::new(
                                        count as nat,
                                        |i: int| buffer::u32_at(s, 9 + 4 * i),
                                    ),
                                },
                            ),
                        ),
                        len,
                    )
                }
            },
        }
    }
}

/// A monitor's registration with its launch options.
pub open spec fn parse_register_v2(s: Seq<u8>) -> Parsed {
    match MonitorKind::parse(s[4]) {
        Err(e) => (Err(e), 5),
        Ok(kind) => match DesktopWindowMode::parse(s[17]) {
            Err(e) => (Err(e), 18),
            Ok(mode) => plain(
                ControlMessage::RegisterMonitorV2 {
                    pid: buffer::u32_at(s, 0),
                    kind,
                    owner_app_id: buffer::u32_at(s, 5),
                    request_id: buffer::u32_at(s, 9),
                    target_canvas_id: buffer::u32_at(s, 13),
                    mode,
                    flags: buffer::u32_at(s, 18),
                    manual_lifecycle: s[22] != 0,
                },
                23,
            ),
        },
    }
}

/// What a payload of `len` bytes at the front of `s` holds, where `s` holds that
/// many bytes and `len` fits the opcode.
pub open spec fn parse_fields(opcode: u16, len: int, s: Seq<u8>) -> Parsed {
    if opcode == OP_REGISTER_APP {
        plain(ControlMessage::RegisterApp { pid: buffer::u32_at(s, 0) }, 4)
    } else if opcode == OP_REGISTER_MONITOR {
        plain(ControlMessage::RegisterMonitor { pid: buffer::u32_at(s, 0) }, 4)
    } else if opcode == OP_CREATE_CANVAS {
        plain(
            ControlMessage::CreateCanvas {
                logical_w: buffer::u32_at(s, 0),
                logical_h: buffer::u32_at(s, 4),
                render_w: buffer::u32_at(s, 8),
                render_h: buffer::u32_at(s, 12),
            },
            16,
        )
    } else if opcode == OP_ATTACH_MONITOR {
        plain(
            ControlMessage::AttachMonitor {
                canvas_id: buffer::u32_at(s, 0),
                monitor_id: buffer::u32_at(s, 4),
            },
            8,
        )
    } else if opcode == OP_CANVAS_ATTACHED {
        plain(
            ControlMessage::CanvasAttached {
                canvas_id: buffer::u32_at(s, 0),
                surface_handle: buffer::u64_at(s, 4),
                logical_w: buffer::u32_at(s, 12),
                logical_h: buffer::u32_at(s, 16),
                render_w: buffer::u32_at(s, 20),
                render_h: buffer::u32_at(s, 24),
            },
            28,
        )
    } else if opcode == OP_SUBMIT_FRAME {
        plain(
            ControlMessage::SubmitFrame {
                canvas_id: buffer::u32_at(s, 0),
                frame_id: buffer::u64_at(s, 4),
                offset: buffer::u32_at(s, 12),
                length: buffer::u32_at(s, 16),
            },
            20,
        )
    } else if opcode == OP_MONITOR_LOCAL_SURFACE_ATTACHED {
        plain(
            ControlMessage::MonitorLocalSurfaceAttached {
                canvas_id: buffer::u32_at(s, 0),
                monitor_id: buffer::u32_at(s, 4),
                surface_handle: buffer::u64_at(s, 8),
                logical_w: buffer::u32_at(s, 16),
                logical_h: buffer::u32_at(s, 20),
            },
            24,
        )
    } else if opcode == OP_APP_DETACHED {
        plain(ControlMessage::AppDetached { app_id: buffer::u32_at(s, 0), reason: s[4] }, 5)
    } else if opcode == OP_LOAD_BITMAP {
        parse_load_bitmap(len, s)
    } else if opcode == OP_LIST_MONITOR_TYPES {
        plain(ControlMessage::ListMonitorTypes { request_id: buffer::u32_at(s, 0) }, 4)
    } else if opcode == OP_MONITOR_TYPES {
        parse_monitor_types(len, s)
    } else if opcode == OP_START_MONITOR {
        parse_start_monitor(s)
    } else if opcode == OP_START_MONITOR_RESULT {
        parse_start_result(len, s)
    } else if opcode == OP_STOP_MONITOR {
        plain(
            ControlMessage::StopMonitor {
                request_id: buffer::u32_at(s, 0),
                monitor_id: buffer::u32_at(s, 4),
            },
            8,
        )
    } else if opcode == OP_STOP_MONITOR_RESULT {
        match MonitorRequestStatus::parse(s[4]) {
            Err(e) => (Err(e), 5),
            Ok(status) => plain(
                ControlMessage::StopMonitorResult { request_id: buffer::u32_at(s, 0), status },
                5,
            ),
        }
    } else if opcode == OP_REGISTER_MONITOR_V2 {
        parse_register_v2(s)
    } else if opcode == OP_CLOSE_MONITOR {
        plain(ControlMessage::CloseMonitor { monitor_id: buffer::u32_at(s, 0) }, 4)
    } else {
        (Ok(None), len)
    }
}

/// What reading a payload of `payload_len` bytes off the bytes `s` yields.
pub open spec fn parse_payload(opcode: u16, payload_len: u32, s: Seq<u8>) -> Parsed {
    if fixed_len(opcode) is Some && fixed_len(opcode)->0 != payload_len {
        (Err(ProtocolError::PayloadLengthMismatch), 0)
    } else if s.len() < payload_len {
        (
            Err(
                ProtocolError::BufferTooSmall {
                    expected: payload_len as usize,
                    actual: s.len() as usize,
                },
            ),
            0,
        )
    } else {
        parse_fields(opcode, payload_len as int, s)
    }
}

/// A decoded message as a mathematical value.
pub open spec fn decoded_view(r: Result<Option<ControlMessage>, ProtocolError>) -> Result<
    Option<MessageView>,
    ProtocolError,
> {
    match r {
        Ok(Some(m)) => Ok(Some(m@)),
        Ok(None) => Ok(None),
        Err(e) => Err(e),
    }
}

/// An error in a list of monitor types is the error of every longer list.
proof fn parse_entries_error_stays(s: Seq<u8>, i: nat, n: nat)
    requires
        i <= n,
        parse_entries(s, i).0 is Err,
    ensures
        parse_entries(s, n) == parse_entries(s, i),
    decreases n,
{
    if i < n {
        parse_entries_error_stays(s, i, (n - 1) as nat);
    }
}

fn fixed_payload_len(opcode: u16) -> (n: Option<usize>)
    ensures
        n == fixed_len(opcode),
{
    if opcode == OP_REGISTER_APP || opcode == OP_REGISTER_MONITOR || opcode
        == OP_LIST_MONITOR_TYPES || opcode == OP_CLOSE_MONITOR {
        Some(4)
    } else if opcode == OP_CREATE_CANVAS {
        Some(16)
    } else if opcode == OP_ATTACH_MONITOR || opcode == OP_STOP_MONITOR {
        Some(8)
    } else if opcode == OP_CANVAS_ATTACHED {
        Some(28)
    } else if opcode == OP_SUBMIT_FRAME {
        Some(20)
    } else if opcode == OP_MONITOR_LOCAL_SURFACE_ATTACHED {
        Some(24)
    } else if opcode == OP_APP_DETACHED || opcode == OP_STOP_MONITOR_RESULT {
        Some(5)
    } else if opcode == OP_START_MONITOR {
        Some(34)
    } else if opcode == OP_REGISTER_MONITOR_V2 {
        Some(23)
    } else {
        None
    }
}

fn get_entry(buf: &mut BytesMut) -> (r: Result<MonitorTypeEntry, ProtocolError>)
    requires
        buffer::buffered(*old(buf)).len() >= 20,
    ensures
        r == parse_entry(buffer::buffered(*old(buf)), 0).0,
        buffer::buffered(*final(buf)) == buffer::buffered(*old(buf)).skip(
            parse_entry(buffer::buffered(*old(buf)), 0).1,
        ),
{
    let kind: MonitorKind = match MonitorKind::from_wire(buffer::get_u8(buf)) {
        Ok(kind) => kind,
        Err(e) => {
            return Err(e);
        },
    };
    let available: bool = buffer::get_u8(buf) != 0;
    let start_policy: MonitorStartPolicy = match MonitorStartPolicy::from_wire(
        buffer::get_u8(buf),
    ) {
        Ok(policy) => policy,
        Err(e) => {
            return Err(e);
        },
    };
    let core_startable: bool = buffer::get_u8(buf) != 0;
    let core_managed: bool = buffer::get_u8(buf) != 0;
    buffer::advance(buf, 3);
    let max_instances: u32 = buffer::get_u32_le(buf);
    let window_modes: u32 = buffer::get_u32_le(buf);
    let flags: u32 = buffer::get_u32_le(buf);
    Ok(
        MonitorTypeEntry {
            kind,
            available,
            start_policy,
            core_startable,
            core_managed,
            max_instances,
            window_modes,
            flags,
        },
    )
}

fn decode_load_bitmap(payload_len: usize, buf: &mut BytesMut) -> (r: Result<
    Option<ControlMessage>,
    ProtocolError,
>)
    requires
        buffer::buffered(*old(buf)).len() >= payload_len,
    ensures
        decoded_view(r) == parse_load_bitmap(
            payload_len as int,
            buffer::buffered(*old(buf)),
        ).0,
        buffer::buffered(*final(buf)) == buffer::buffered(*old(buf)).skip(
            parse_load_bitmap(payload_len as int, buffer::buffered(*old(buf))).1,
        ),
{
    let ghost s = buffer::buffered(*buf);
    if payload_len < 8 {
        return Err(ProtocolError::PayloadLengthMismatch);
    }
    let bitmap_id: u32 = buffer::get_u32_le(buf);
    let byte_len: usize = buffer::get_u32_le(buf) as usize;
    if byte_len != payload_len - 8 {
        return Err(ProtocolError::PayloadLengthMismatch);
    }
    let bytes: Vec<u8> = buffer::copy_to_bytes(buf, byte_len);
    assert(bytes@ =~= s.subrange(8, payload_len as int));
    Ok(Some(ControlMessage::LoadBitmap { bitmap_id, bytes }))
}

fn decode_monitor_types(payload_len: usize, buf: &mut BytesMut) -> (r: Result<
    Option<ControlMessage>,
    ProtocolError,
>)
    requires
        buffer::buffered(*old(buf)).len() >= payload_len,
    ensures
        decoded_view(r) == parse_monitor_types(
            payload_len as int,
            buffer::buffered(*old(buf)),
        ).0,
        buffer::buffered(*final(buf)) == buffer::buffered(*old(buf)).skip(
            parse_monitor_types(payload_len as int, buffer::buffered(*old(buf))).1,
        ),
{
    let ghost s = buffer::buffered(*buf);
    if payload_len < 8 {
        return Err(ProtocolError::PayloadLengthMismatch);
    }
    let request_id: u32 = buffer::get_u32_le(buf);
    let count: u32 = buffer::get_u32_le(buf);
    assert(buffer::buffered(*buf) =~= s.skip(8));
    if payload_len as u64 != 8 + (count as u64) * 20 {
        return Err(ProtocolError::PayloadLengthMismatch);
    }
    let mut entries: Vec<MonitorTypeEntry> = Vec::with_capacity(count as usize);
    let mut i: u32 = 0;
    while i < count
        invariant
            i <= count,
            payload_len == 8 + 20 * count,
            s.len() >= payload_len,
            count == buffer::u32_at(s, 4),
            request_id == buffer::u32_at(s, 0),
            s == buffer::buffered(*old(buf)),
            buffer::buffered(*buf) == s.skip(8 + 20 * i),
            parse_entries(s, i as nat) == (
                Ok::<Seq<MonitorTypeEntry>, ProtocolError>(entries@),
                8 + 20 * i,
            ),
        decreases count - i,
    {
        let ghost rest = buffer::buffered(*buf);
        let ghost at = 8 + 20 * i;
        assert(parse_entry(rest, 0) == parse_entry(s, at));
        match get_entry(buf) {
            Ok(entry) => {
                assert(rest.skip(20) =~= s.skip(at + 20));
                entries.push(entry);
            },
            Err(e) => {
                proof {
                    assert(rest.skip(parse_entry(s, at).1) =~= s.skip(at + parse_entry(s, at).1));
                    parse_entries_error_stays(s, (i + 1) as nat, count as nat);
                }
                return Err(e);
            },
        }
        i = i + 1;
    }
    Ok(Some(ControlMessage::MonitorTypes { request_id, entries }))
}

fn decode_start_result(payload_len: usize, buf: &mut BytesMut) -> (r: Result<
    Option<ControlMessage>,
    ProtocolError,
>)
    requires
        buffer::buffered(*old(buf)).len() >= payload_len,
    ensures
        decoded_view(r) == parse_start_result(
            payload_len as int,
            buffer::buffered(*old(buf)),
        ).0,
        buffer::buffered(*final(buf)) == buffer::buffered(*old(buf)).skip(
            parse_start_result(payload_len as int, buffer::buffered(*old(buf))).1,
        ),
{
    let ghost s = buffer::buffered(*buf);
    if payload_len < 9 {
        return Err(ProtocolError::PayloadLengthMismatch);
    }
    let request_id: u32 = buffer::get_u32_le(buf);
    let status: MonitorRequestStatus = match MonitorRequestStatus::from_wire(buffer::get_u8(buf)) {
        Ok(status) => status,
        Err(e) => {
            return Err(e);
        },
    };
    let count: u32 = buffer::get_u32_le(buf);
    assert(buffer::buffered(*buf) =~= s.skip(9));
    if payload_len as u64 != 9 + (count as u64) * 4 {
        return Err(ProtocolError::PayloadLengthMismatch);
    }
    let mut monitor_ids: Vec<u32> = Vec::with_capacity(count as usize);
    let mut i: u32 = 0;
    while i < count
        invariant
            i <= count,
            payload_len == 9 + 4 * count,
            s.len() >= payload_len,
            monitor_ids@.len() == i,
            buffer::buffered(*buf) == s.skip(9 + 4 * i),
            forall|j: int| 0 <= j < i ==> monitor_ids@[j] == buffer::u32_at(s, 9 + 4 * j),
        decreases count - i,
    {
        let ghost rest = buffer::buffered(*buf);
        assert(buffer::u32_at(rest, 0) == buffer::u32_at(s, 9 + 4 * i));
        assert(rest.skip(4) =~= s.skip(9 + 4 * (i + 1)));
        monitor_ids.push(buffer::get_u32_le(buf));
        i = i + 1;
    }
    assert(monitor_ids@ =~= Seq::new(count as nat, |j: int| buffer::u32_at(s, 9 + 4 * j)));
    Ok(Some(ControlMessage::StartMonitorResult { request_id, status, monitor_ids }))
}

fn decode_start_monitor(buf: &mut BytesMut) -> (r: Result<Option<ControlMessage>, ProtocolError>)
    requires
        buffer::buffered(*old(buf)).len() >= 34,
    ensures
        decoded_view(r) == parse_start_monitor(buffer::buffered(*old(buf))).0,
        buffer::buffered(*final(buf)) == buffer::buffered(*old(buf)).skip(
            parse_start_monitor(buffer::buffered(*old(buf))).1,
        ),
{
    let request_id: u32 = buffer::get_u32_le(buf);
    let kind: MonitorKind = match MonitorKind::from_wire(buffer::get_u8(buf)) {
        Ok(kind) => kind,
        Err(e) => {
            return Err(e);
        },
    };
    let count: u32 = buffer::get_u32_le(buf);
    let target_canvas_id: u32 = buffer::get_u32_le(buf);
    let mode: DesktopWindowMode = match DesktopWindowMode::from_wire(buffer::get_u8(buf)) {
        Ok(mode) => mode,
        Err(e) => {
            return Err(e);
        },
    };
    let flags: u32 = buffer::get_u32_le(buf);
    let x: i32 = buffer::get_i32_le(buf);
    let y: i32 = buffer::get_i32_le(buf);
    let w: u32 = buffer::get_u32_le(buf);
    let h: u32 = buffer::get_u32_le(buf);
    Ok(
        Some(
            ControlMessage::StartMonitor {
                request_id,
                kind,
                count,
                target_canvas_id,
                mode,
                flags,
                x,
                y,
                w,
                h,
            },
        ),
    )
}

fn decode_register_v2(buf: &mut BytesMut) -> (r: Result<Option<ControlMessage>, ProtocolError>)
    requires
        buffer::buffered(*old(buf)).len() >= 23,
    ensures
        decoded_view(r) == parse_register_v2(buffer::buffered(*old(buf))).0,
        buffer::buffered(*final(buf)) == buffer::buffered(*old(buf)).skip(
            parse_register_v2(buffer::buffered(*old(buf))).1,
        ),
{
    let pid: u32 = buffer::get_u32_le(buf);
    let kind: MonitorKind = match MonitorKind::from_wire(buffer::get_u8(buf)) {
        Ok(kind) => kind,
        Err(e) => {
            return Err(e);
        },
    };
    let owner_app_id: u32 = buffer::get_u32_le(buf);
    let request_id: u32 = buffer::get_u32_le(buf);
    let target_canvas_id: u32 = buffer::get_u32_le(buf);
    let mode: DesktopWindowMode = match DesktopWindowMode::from_wire(buffer::get_u8(buf)) {
        Ok(mode) => mode,
        Err(e) => {
            return Err(e);
        },
    };
    let flags: u32 = buffer::get_u32_le(buf);
    let manual_lifecycle: bool = buffer::get_u8(buf) != 0;
    Ok(
        Some(
            ControlMessage::RegisterMonitorV2 {
                pid,
                kind,
                owner_app_id,
                request_id,
                target_canvas_id,
                mode,
                flags,
                manual_lifecycle,
            },
        ),
    )
}

fn decode_stop_result(buf: &mut BytesMut) -> (r: Result<Option<ControlMessage>, ProtocolError>)
    requires
        buffer::buffered(*old(buf)).len() >= 5,
    ensures
        decoded_view(r) == parse_fields(
            OP_STOP_MONITOR_RESULT,
            5,
            buffer::buffered(*old(buf)),
        ).0,
        buffer::buffered(*final(buf)) == buffer::buffered(*old(buf)).skip(5),
{
    let request_id: u32 = buffer::get_u32_le(buf);
    match MonitorRequestStatus::from_wire(buffer::get_u8(buf)) {
        Ok(status) => Ok(Some(ControlMessage::StopMonitorResult { request_id, status })),
        Err(e) => Err(e),
    }
}

impl ControlMessage {
    /// Reads the payload of a frame with the given header off the front of
    /// `buf`. A payload with an unknown opcode is skipped.
    pub fn decode(opcode: u16, payload_len: u32, buf: &mut BytesMut) -> (r: Result<
        Option<Self>,
        ProtocolError,
    >)
        ensures
            decoded_view(r) == parse_payload(
                opcode,
                payload_len,
                buffer::buffered(*old(buf)),
            ).0,
            buffer::buffered(*final(buf)) == buffer::buffered(*old(buf)).skip(
                parse_payload(opcode, payload_len, buffer::buffered(*old(buf))).1,
            ),
    {
        let payload_len: usize = payload_len as usize;
        if let Some(expected) = fixed_payload_len(opcode) {
            if payload_len != expected {
                return Err(ProtocolError::PayloadLengthMismatch);
            }
        }
        let available: usize = buffer::remaining(buf);
        if available < payload_len {
            return Err(ProtocolError::BufferTooSmall { expected: payload_len, actual: available });
        }
        if opcode == OP_REGISTER_APP {
            Ok(Some(ControlMessage::RegisterApp { pid: buffer::get_u32_le(buf) }))
        } else if opcode == OP_REGISTER_MONITOR {
            Ok(Some(ControlMessage::RegisterMonitor { pid: buffer::get_u32_le(buf) }))
        } else if opcode == OP_CREATE_CANVAS {
            let logical_w: u32 = buffer::get_u32_le(buf);
            let logical_h: u32 = buffer::get_u32_le(buf);
            let render_w: u32 = buffer::get_u32_le(buf);
            let render_h: u32 = buffer::get_u32_le(buf);
            Ok(Some(ControlMessage::CreateCanvas { logical_w, logical_h, render_w, render_h }))
        } else if opcode == OP_ATTACH_MONITOR {
            let canvas_id: u32 = buffer::get_u32_le(buf);
            let monitor_id: u32 = buffer::get_u32_le(buf);
            Ok(Some(ControlMessage::AttachMonitor { canvas_id, monitor_id }))
        } else if opcode == OP_CANVAS_ATTACHED {
            let canvas_id: u32 = buffer::get_u32_le(buf);
            let surface_handle: u64 = buffer::get_u64_le(buf);
            let logical_w: u32 = buffer::get_u32_le(buf);
            let logical_h: u32 = buffer::get_u32_le(buf);
            let render_w: u32 = buffer::get_u32_le(buf);
            let render_h: u32 = buffer::get_u32_le(buf);
            Ok(
                Some(
                    ControlMessage::CanvasAttached {
                        canvas_id,
                        surface_handle,
                        logical_w,
                        logical_h,
                        render_w,
                        render_h,
                    },
                ),
            )
        } else if opcode == OP_SUBMIT_FRAME {
            let canvas_id: u32 = buffer::get_u32_le(buf);
            let frame_id: u64 = buffer::get_u64_le(buf);
            let offset: u32 = buffer::get_u32_le(buf);
            let length: u32 = buffer::get_u32_le(buf);
            Ok(Some(ControlMessage::SubmitFrame { canvas_id, frame_id, offset, length }))
        } else if opcode == OP_MONITOR_LOCAL_SURFACE_ATTACHED {
            let canvas_id: u32 = buffer::get_u32_le(buf);
            let monitor_id: u32 = buffer::get_u32_le(buf);
            let surface_handle: u64 = buffer::get_u64_le(buf);
            let logical_w: u32 = buffer::get_u32_le(buf);
            let logical_h: u32 = buffer::get_u32_le(buf);
            Ok(
                Some(
                    ControlMessage::MonitorLocalSurfaceAttached {
                        canvas_id,
                        monitor_id,
                        surface_handle,
                        logical_w,
                        logical_h,
                    },
                ),
            )
        } else if opcode == OP_APP_DETACHED {
            let app_id: u32 = buffer::get_u32_le(buf);
            let reason: u8 = buffer::get_u8(buf);
            Ok(Some(ControlMessage::AppDetached { app_id, reason }))
        } else if opcode == OP_LOAD_BITMAP {
            decode_load_bitmap(payload_len, buf)
        } else if opcode == OP_LIST_MONITOR_TYPES {
            Ok(Some(ControlMessage::ListMonitorTypes { request_id: buffer::get_u32_le(buf) }))
        } else if opcode == OP_MONITOR_TYPES {
            decode_monitor_types(payload_len, buf)
        } else if opcode == OP_START_MONITOR {
            decode_start_monitor(buf)
        } else if opcode == OP_START_MONITOR_RESULT {
            decode_start_result(payload_len, buf)
        } else if opcode == OP_STOP_MONITOR {
            let request_id: u32 = buffer::get_u32_le(buf);
            let monitor_id: u32 = buffer::get_u32_le(buf);
            Ok(Some(ControlMessage::StopMonitor { request_id, monitor_id }))
        } else if opcode == OP_STOP_MONITOR_RESULT {
            decode_stop_result(buf)
        } else if opcode == OP_REGISTER_MONITOR_V2 {
            decode_register_v2(buf)
        } else if opcode == OP_CLOSE_MONITOR {
            Ok(Some(ControlMessage::CloseMonitor { monitor_id: buffer::get_u32_le(buf) }))
        } else {
            buffer::advance(buf, payload_len);
            Ok(None)
        }
    }
}

#[verifier::spinoff_prover]
proof fn create_canvas_reads_back(m: ControlMessage, rest: Seq<u8>)
    requires
        m is CreateCanvas,
    ensures
        m.payload().len() == m.payload_size(),
        parse_payload(m.op(), m.payload_size() as u32, m.payload() + rest) == plain(
            m,
            m.payload_size() as int,
        ),
{
    let s = m.payload() + rest;
    if let ControlMessage::CreateCanvas { logical_w, logical_h, render_w, render_h } = m {
        buffer::le32_reads_back(logical_w);
        assert(buffer::u32_at(s, 0) == buffer::u32_at(buffer::le32(logical_w), 0));
        buffer::le32_reads_back(logical_h);
        assert(buffer::u32_at(s, 4) == buffer::u32_at(buffer::le32(logical_h), 0));
        buffer::le32_reads_back(render_w);
        assert(buffer::u32_at(s, 8) == buffer::u32_at(buffer::le32(render_w), 0));
        buffer::le32_reads_back(render_h);
        assert(buffer::u32_at(s, 12) == buffer::u32_at(buffer::le32(render_h), 0));
    }
}

#[verifier::spinoff_prover]
proof fn canvas_attached_reads_back(m: ControlMessage, rest: Seq<u8>)
    requires
        m is CanvasAttached,
    ensures
        m.payload().len() == m.payload_size(),
        parse_payload(m.op(), m.payload_size() as u32, m.payload() + rest) == plain(
            m,
            m.payload_size() as int,
        ),
{
    let s = m.payload() + rest;
    if let ControlMessage::CanvasAttached {
        canvas_id,
        surface_handle,
        logical_w,
        logical_h,
        render_w,
        render_h,
    } = m {
        buffer::le32_reads_back(canvas_id);
        assert(buffer::u32_at(s, 0) == buffer::u32_at(buffer::le32(canvas_id), 0));
        buffer::le64_reads_back(surface_handle);
        assert(buffer::u64_at(s, 4) == buffer::u64_at(buffer::le64(surface_handle), 0));
        buffer::le32_reads_back(logical_w);
        assert(buffer::u32_at(s, 12) == buffer::u32_at(buffer::le32(logical_w), 0));
        buffer::le32_reads_back(logical_h);
        assert(buffer::u32_at(s, 16) == buffer::u32_at(buffer::le32(logical_h), 0));
        buffer::le32_reads_back(render_w);
        assert(buffer::u32_at(s, 20) == buffer::u32_at(buffer::le32(render_w), 0));
        buffer::le32_reads_back(render_h);
        assert(buffer::u32_at(s, 24) == buffer::u32_at(buffer::le32(render_h), 0));
    }
}

#[verifier::spinoff_prover]
proof fn submit_frame_reads_back(m: ControlMessage, rest: Seq<u8>)
    requires
        m is SubmitFrame,
    ensures
        m.payload().len() == m.payload_size(),
        parse_payload(m.op(), m.payload_size() as u32, m.payload() + rest) == plain(
            m,
            m.payload_size() as int,
        ),
{
    let s = m.payload() + rest;
    if let ControlMessage::SubmitFrame { canvas_id, frame_id, offset, length } = m {
        buffer::le32_reads_back(canvas_id);
        assert(buffer::u32_at(s, 0) == buffer::u32_at(buffer::le32(canvas_id), 0));
        buffer::le64_reads_back(frame_id);
        assert(buffer::u64_at(s, 4) == buffer::u64_at(buffer::le64(frame_id), 0));
        buffer::le32_reads_back(offset);
        assert(buffer::u32_at(s, 12) == buffer::u32_at(buffer::le32(offset), 0));
        buffer::le32_reads_back(length);
        assert(buffer::u32_at(s, 16) == buffer::u32_at(buffer::le32(length), 0));
    }
}

#[verifier::spinoff_prover]
proof fn local_surface_attached_reads_back(m: ControlMessage, rest: Seq<u8>)
    requires
        m is MonitorLocalSurfaceAttached,
    ensures
        m.payload().len() == m.payload_size(),
        parse_payload(m.op(), m.payload_size() as u32, m.payload() + rest) == plain(
            m,
            m.payload_size() as int,
        ),
{
    let s = m.payload() + rest;
    if let ControlMessage::MonitorLocalSurfaceAttached {
        canvas_id,
        monitor_id,
        surface_handle,
        logical_w,
        logical_h,
    } = m {
        buffer::le32_reads_back(canvas_id);
        assert(buffer::u32_at(s, 0) == buffer::u32_at(buffer::le32(canvas_id), 0));
        buffer::le32_reads_back(monitor_id);
        assert(buffer::u32_at(s, 4) == buffer::u32_at(buffer::le32(monitor_id), 0));
        buffer::le64_reads_back(surface_handle);
        assert(buffer::u64_at(s, 8) == buffer::u64_at(buffer::le64(surface_handle), 0));
        buffer::le32_reads_back(logical_w);
        assert(buffer::u32_at(s, 16) == buffer::u32_at(buffer::le32(logical_w), 0));
        buffer::le32_reads_back(logical_h);
        assert(buffer::u32_at(s, 20) == buffer::u32_at(buffer::le32(logical_h), 0));
    }
}

#[verifier::spinoff_prover]
proof fn start_monitor_reads_back(m: ControlMessage, rest: Seq<u8>)
    requires
        m is StartMonitor,
    ensures
        m.payload().len() == m.payload_size(),
        parse_payload(m.op(), m.payload_size() as u32, m.payload() + rest) == plain(
            m,
            m.payload_size() as int,
        ),
{
    let s = m.payload() + rest;
    if let ControlMessage::StartMonitor {
        request_id,
        kind,
        count,
        target_canvas_id,
        mode,
        flags,
        x,
        y,
        w,
        h,
    } = m {
        buffer::le32_reads_back(request_id);
        assert(buffer::u32_at(s, 0) == buffer::u32_at(buffer::le32(request_id), 0));
        assert(s[4] == kind.wire());
        buffer::le32_reads_back(count);
        assert(buffer::u32_at(s, 5) == buffer::u32_at(buffer::le32(count), 0));
        buffer::le32_reads_back(target_canvas_id);
        assert(buffer::u32_at(s, 9) == buffer::u32_at(buffer::le32(target_canvas_id), 0));
        assert(s[13] == mode.wire());
        buffer::le32_reads_back(flags);
        assert(buffer::u32_at(s, 14) == buffer::u32_at(buffer::le32(flags), 0));
        buffer::le_i32_reads_back(x);
        assert(buffer::i32_at(s, 18) == buffer::i32_at(buffer::le_i32(x), 0));
        buffer::le_i32_reads_back(y);
        assert(buffer::i32_at(s, 22) == buffer::i32_at(buffer::le_i32(y), 0));
        buffer::le32_reads_back(w);
        assert(buffer::u32_at(s, 26) == buffer::u32_at(buffer::le32(w), 0));
        buffer::le32_reads_back(h);
        assert(buffer::u32_at(s, 30) == buffer::u32_at(buffer::le32(h), 0));
    }
}

#[verifier::spinoff_prover]
proof fn register_v2_reads_back(m: ControlMessage, rest: Seq<u8>)
    requires
        m is RegisterMonitorV2,
    ensures
        m.payload().len() == m.payload_size(),
        parse_payload(m.op(), m.payload_size() as u32, m.payload() + rest) == plain(
            m,
            m.payload_size() as int,
        ),
{
    let s = m.payload() + rest;
    if let ControlMessage::RegisterMonitorV2 {
        pid,
        kind,
        owner_app_id,
        request_id,
        target_canvas_id,
        mode,
        flags,
        manual_lifecycle,
    } = m {
        buffer::le32_reads_back(pid);
        assert(buffer::u32_at(s, 0) == buffer::u32_at(buffer::le32(pid), 0));
        assert(s[4] == kind.wire());
        buffer::le32_reads_back(owner_app_id);
        assert(buffer::u32_at(s, 5) == buffer::u32_at(buffer::le32(owner_app_id), 0));
        buffer::le32_reads_back(request_id);
        assert(buffer::u32_at(s, 9) == buffer::u32_at(buffer::le32(request_id), 0));
        buffer::le32_reads_back(target_canvas_id);
        assert(buffer::u32_at(s, 13) == buffer::u32_at(buffer::le32(target_canvas_id), 0));
        assert(s[17] == mode.wire());
        buffer::le32_reads_back(flags);
        assert(buffer::u32_at(s, 18) == buffer::u32_at(buffer::le32(flags), 0));
        assert(s[22] == flag_byte(manual_lifecycle));
    }
}

/// The payload of a message without a list reads back as that message.
proof fn plain_reads_back(m: ControlMessage, rest: Seq<u8>)
    requires
        m@ is Plain,
    ensures
        m.payload().len() == m.payload_size(),
        parse_payload(m.op(), m.payload_size() as u32, m.payload() + rest) == plain(
            m,
            m.payload_size() as int,
        ),
{
    let s = m.payload() + rest;
    match m {
        ControlMessage::RegisterApp { pid } => {
            buffer::le32_reads_back(pid);
            assert(buffer::u32_at(s, 0) == buffer::u32_at(buffer::le32(pid), 0));
        },
        ControlMessage::RegisterMonitor { pid } => {
            buffer::le32_reads_back(pid);
            assert(buffer::u32_at(s, 0) == buffer::u32_at(buffer::le32(pid), 0));
        },
        ControlMessage::CreateCanvas { .. } => {
            create_canvas_reads_back(m, rest);
        },
        ControlMessage::AttachMonitor { canvas_id, monitor_id } => {
            buffer::le32_reads_back(canvas_id);
            assert(buffer::u32_at(s, 0) == buffer::u32_at(buffer::le32(canvas_id), 0));
            buffer::le32_reads_back(monitor_id);
            assert(buffer::u32_at(s, 4) == buffer::u32_at(buffer::le32(monitor_id), 0));
        },
        ControlMessage::CanvasAttached { .. } => {
            canvas_attached_reads_back(m, rest);
        },
        ControlMessage::SubmitFrame { .. } => {
            submit_frame_reads_back(m, rest);
        },
        ControlMessage::MonitorLocalSurfaceAttached { .. } => {
            local_surface_attached_reads_back(m, rest);
        },
        ControlMessage::AppDetached { app_id, reason } => {
            buffer::le32_reads_back(app_id);
            assert(buffer::u32_at(s, 0) == buffer::u32_at(buffer::le32(app_id), 0));
            assert(s[4] == reason);
        },
        ControlMessage::ListMonitorTypes { request_id } => {
            buffer::le32_reads_back(request_id);
            assert(buffer::u32_at(s, 0) == buffer::u32_at(buffer::le32(request_id), 0));
        },
        ControlMessage::StartMonitor { .. } => {
            start_monitor_reads_back(m, rest);
        },
        ControlMessage::StopMonitor { request_id, monitor_id } => {
            buffer::le32_reads_back(request_id);
            assert(buffer::u32_at(s, 0) == buffer::u32_at(buffer::le32(request_id), 0));
            buffer::le32_reads_back(monitor_id);
            assert(buffer::u32_at(s, 4) == buffer::u32_at(buffer::le32(monitor_id), 0));
        },
        ControlMessage::StopMonitorResult { request_id, status } => {
            buffer::le32_reads_back(request_id);
            assert(buffer::u32_at(s, 0) == buffer::u32_at(buffer::le32(request_id), 0));
            assert(s[4] == status.wire());
        },
        ControlMessage::RegisterMonitorV2 { .. } => {
            register_v2_reads_back(m, rest);
        },
        ControlMessage::CloseMonitor { monitor_id } => {
            buffer::le32_reads_back(monitor_id);
            assert(buffer::u32_at(s, 0) == buffer::u32_at(buffer::le32(monitor_id), 0));
        },
        _ => {},
    }
}

/// A monitor type reads back from wherever its bytes stand.
#[verifier::spinoff_prover]
proof fn entry_reads_back(s: Seq<u8>, at: int, e: MonitorTypeEntry)
    requires
        0 <= at,
        at + 20 <= s.len(),
        s.subrange(at, at + 20) == entry_bytes(e),
    ensures
        parse_entry(s, at) == (Ok::<MonitorTypeEntry, ProtocolError>(e), 20int),
{
    let b = entry_bytes(e);
    assert forall|j: int| 0 <= j < 20 implies s[at + j] == b[j] by {
        assert(s.subrange(at, at + 20)[j] == b[j]);
    }
    buffer::le32_reads_back(e.max_instances);
    buffer::le32_reads_back(e.window_modes);
    buffer::le32_reads_back(e.flags);
    assert(s[at + 0] == b[0] && s[at + 1] == b[1] && s[at + 2] == b[2] && s[at + 3] == b[3] && s[at
        + 4] == b[4]);
    assert(s[at + 8] == b[8] && s[at + 9] == b[9] && s[at + 10] == b[10] && s[at + 11] == b[11]);
    assert(s[at + 12] == b[12] && s[at + 13] == b[13] && s[at + 14] == b[14] && s[at + 15]
        == b[15]);
    assert(s[at + 16] == b[16] && s[at + 17] == b[17] && s[at + 18] == b[18] && s[at + 19]
        == b[19]);
    assert(buffer::u32_at(b, 8) == buffer::u32_at(buffer::le32(e.max_instances), 0));
    assert(buffer::u32_at(b, 12) == buffer::u32_at(buffer::le32(e.window_modes), 0));
    assert(buffer::u32_at(b, 16) == buffer::u32_at(buffer::le32(e.flags), 0));
}

/// A list of monitor types reads back as it was written.
proof fn entries_read_back(head: Seq<u8>, entries: Seq<MonitorTypeEntry>, n: nat, rest: Seq<u8>)
    requires
        head.len() == 8,
        n <= entries.len(),
    ensures
        parse_entries(head + entries_bytes(entries) + rest, n) == (
            Ok::<Seq<MonitorTypeEntry>, ProtocolError>(entries.take(n as int)),
            8 + 20 * (n as int),
        ),
    decreases n,
{
    let s = head + entries_bytes(entries) + rest;
    if n > 0 {
        entries_read_back(head, entries, (n - 1) as nat, rest);
        let e = entries[n - 1];
        let at = 8 + 20 * (n - 1);
        entries_bytes_at(entries, n - 1);
        entries_bytes_len(entries);
        assert(s.subrange(at, at + 20) =~= entries_bytes(entries).subrange(at - 8, at + 12));
        entry_reads_back(s, at, e);
        assert(entries.take(n - 1).push(e) =~= entries.take(n as int));
    } else {
        assert(entries.take(0) =~= seq![]);
    }
}

/// Entry `i` of a list stands at offset `20 * i`.
proof fn entries_bytes_at(entries: Seq<MonitorTypeEntry>, i: int)
    requires
        0 <= i < entries.len(),
    ensures
        entries_bytes(entries).subrange(20 * i, 20 * i + 20) == entry_bytes(entries[i]),
    decreases entries.len(),
{
    let before = entries.drop_last();
    entries_bytes_len(before);
    entries_bytes_len(entries);
    if i < entries.len() - 1 {
        entries_bytes_at(before, i);
        assert(entries_bytes(entries).subrange(20 * i, 20 * i + 20) =~= entries_bytes(
            before,
        ).subrange(20 * i, 20 * i + 20));
    } else {
        assert(entries_bytes(entries).subrange(20 * i, 20 * i + 20) =~= entry_bytes(entries[i]));
    }
}

/// A message's payload reads back as that message, whatever bytes follow it, and
/// reading takes exactly the payload.
pub proof fn payload_reads_back(m: ControlMessage, rest: Seq<u8>)
    requires
        m.payload_size() <= u32::MAX,
    ensures
        m.payload().len() == m.payload_size(),
        parse_payload(m.op(), m.payload_size() as u32, m.payload() + rest) == (
            Ok::<Option<MessageView>, ProtocolError>(Some(m@)),
            m.payload_size() as int,
        ),
{
    let s = m.payload() + rest;
    match m {
        ControlMessage::LoadBitmap { bitmap_id, bytes } => {
            buffer::le32_reads_back(bitmap_id);
            buffer::le32_reads_back(bytes.len() as u32);
            assert(buffer::u32_at(s, 0) == buffer::u32_at(buffer::le32(bitmap_id), 0));
            assert(buffer::u32_at(s, 4) == buffer::u32_at(buffer::le32(bytes.len() as u32), 0));
            assert(s.subrange(8, m.payload_size() as int) =~= bytes@);
        },
        ControlMessage::MonitorTypes { request_id, entries } => {
            let head = buffer::le32(request_id) + buffer::le32(entries.len() as u32);
            buffer::le32_reads_back(request_id);
            buffer::le32_reads_back(entries.len() as u32);
            entries_bytes_len(entries@);
            assert(buffer::u32_at(s, 0) == buffer::u32_at(buffer::le32(request_id), 0));
            assert(buffer::u32_at(s, 4) == buffer::u32_at(buffer::le32(entries.len() as u32), 0));
            entries_read_back(head, entries@, entries@.len(), rest);
            assert(entries@.take(entries@.len() as int) =~= entries@);
        },
        ControlMessage::StartMonitorResult { request_id, status, monitor_ids } => {
            let head = buffer::le32(request_id) + seq![status.wire()] + buffer::le32(
                monitor_ids.len() as u32,
            );
            buffer::le32_reads_back(request_id);
            buffer::le32_reads_back(monitor_ids.len() as u32);
            buffer::words_bytes_len(monitor_ids@);
            assert(buffer::u32_at(s, 0) == buffer::u32_at(buffer::le32(request_id), 0));
            assert(s[4] == status.wire());
            assert(buffer::u32_at(s, 5) == buffer::u32_at(
                buffer::le32(monitor_ids.len() as u32),
                0,
            ));
            let ids = Seq::new(
                monitor_ids@.len(),
                |i: int| buffer::u32_at(s, 9 + 4 * i),
            );
            assert forall|i: int| 0 <= i < monitor_ids@.len() implies ids[i] == monitor_ids@[i] by {
                buffer::words_read_back(monitor_ids@, i);
                assert(buffer::u32_at(s, 9 + 4 * i) == buffer::u32_at(
                    buffer::words_bytes(monitor_ids@),
                    4 * i,
                ));
            }
            assert(ids =~= monitor_ids@);
        },
        _ => {
            plain_reads_back(m, rest);
        },
    }
}

/// A message's frame reads back: its header first, then the message, and the
/// bytes behind the frame are left as they were.
pub proof fn frame_reads_back(m: ControlMessage, rest: Seq<u8>)
    requires
        m.payload_size() <= u32::MAX,
    ensures
        parse_header(m.frame() + rest) == (
            Ok::<MessageHeader, ProtocolError>(
                (MessageHeader { opcode: m.op(), payload_len: m.payload_size() as u32 }),
            ),
            12int,
        ),
        parse_payload(m.op(), m.payload_size() as u32, (m.frame() + rest).skip(12)) == (
            Ok::<Option<MessageView>, ProtocolError>(Some(m@)),
            m.payload_size() as int,
        ),
        (m.frame() + rest).skip(12).skip(m.payload_size() as int) == rest,
{
    let header = header_bytes(m.op(), m.payload_size() as u32);
    buffer::concat_assoc(header, m.payload(), rest);
    header_reads_back(m.op(), m.payload_size() as u32, m.payload() + rest);
    payload_reads_back(m, rest);
    assert((m.payload() + rest).skip(m.payload_size() as int) =~= rest);
}

/// An opcode whose payloads all have one length rejects every other length and
/// takes no byte.
pub proof fn fixed_lengths_are_enforced(opcode: u16, payload_len: u32, s: Seq<u8>)
    requires
        fixed_len(opcode) is Some,
        payload_len != fixed_len(opcode)->0,
    ensures
        parse_payload(opcode, payload_len, s) == (
            Err::<Option<MessageView>, ProtocolError>(ProtocolError::PayloadLengthMismatch),
            0int,
        ),
{
}

/// A frame with an unknown opcode is no message and no error: exactly its
/// payload is skipped, so the next frame is read from where it starts.
pub proof fn unknown_opcodes_are_skipped(opcode: u16, payload: Seq<u8>, rest: Seq<u8>)
    requires
        opcode == 0 || opcode > OP_CLOSE_MONITOR,
        payload.len() <= u32::MAX,
    ensures
        parse_payload(opcode, payload.len() as u32, payload + rest) == (
            Ok::<Option<MessageView>, ProtocolError>(None),
            payload.len() as int,
        ),
        (payload + rest).skip(payload.len() as int) == rest,
{
    assert((payload + rest).skip(payload.len() as int) =~= rest);
}

/// Reading a payload never takes bytes beyond it.
pub proof fn payloads_are_not_overrun(opcode: u16, payload_len: u32, s: Seq<u8>)
    ensures
        0 <= parse_payload(opcode, payload_len, s).1 <= payload_len,
        parse_payload(opcode, payload_len, s).1 <= s.len(),
        parse_payload(opcode, payload_len, s).0 is Ok ==> parse_payload(opcode, payload_len, s).1
            == payload_len,
{
    if opcode == OP_MONITOR_TYPES && payload_len <= s.len() && payload_len >= 8 && payload_len == 8
        + 20 * buffer::u32_at(s, 4) {
        parse_entries_bounded(s, buffer::u32_at(s, 4) as nat);
    }
}

proof fn parse_entries_bounded(s: Seq<u8>, n: nat)
    ensures
        8 <= parse_entries(s, n).1 <= 8 + 20 * n,
    decreases n,
{
    if n > 0 {
        parse_entries_bounded(s, (n - 1) as nat);
    }
}

} // verus!
