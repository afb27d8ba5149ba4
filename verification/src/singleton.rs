//! The desktop window monitor runs once: a second start hands its window to the
//! process that is there, over a pipe, and ends.

use bytes::BytesMut;
use vstd::prelude::*;

use crate::buffer;
use crate::buffer::{
    append_slice, append_u16, append_u32, copy_to_bytes, get_u16_le, get_u32_le, remaining,
};
use crate::cmd_decoder::utf8_text;
use crate::text;
use crate::text::append_decimal;

verus! {

/// The pipe of the process that is there.
pub const SINGLETON_PIPE_NAME: &'static str =
    "\\\\.\\pipe\\overlay-desktop-window-monitor-singleton";

pub const SINGLETON_OP_OPEN_WINDOW: u16 = 0x0101;

pub const SINGLETON_OP_ACK: u16 = 0x0201;

pub const SINGLETON_OP_NACK: u16 = 0x0202;

/// The bytes of a frame's opcode and payload length.
pub const SINGLETON_HEADER_SIZE: usize = 6;

/// Why a frame cannot be read.
#[derive(Debug, Clone, Copy, PartialEq, Eq, Structural)]
pub enum SingletonFrameError {
    BufferTooSmall { expected: usize, actual: usize },
    UnknownOpcode(u16),
    PayloadLengthMismatch { expected: u32, actual: u32 },
    Utf8,
}

/// A request to the process that is there.
#[derive(Debug, Clone, Copy, PartialEq, Eq, Structural)]
pub enum SingletonRequest {
    OpenWindow { target_canvas_id: u32 },
}

/// The answer to a request.
#[derive(Debug, Clone, PartialEq, Eq)]
pub enum SingletonResponse {
    Ack { pid: u32, new_monitor_id: u32 },
    Nack { reason: u16, message: String },
}

/// The answer to a request, as a mathematical value.
pub enum ResponseView {
    Ack { pid: u32, new_monitor_id: u32 },
    Nack { reason: u16, message: Seq<char> },
}

impl View for SingletonResponse {
    type V = ResponseView;

    open spec fn view(&self) -> ResponseView {
        match self {
            SingletonResponse::Ack { pid, new_monitor_id } => ResponseView::Ack {
                pid: *pid,
                new_monitor_id: *new_monitor_id,
            },
            SingletonResponse::Nack { reason, message } => ResponseView::Nack {
                reason: *reason,
                message: message@,
            },
        }
    }
}

/// A window that the process has opened.
#[derive(Debug, Clone, Copy, PartialEq, Eq, Structural)]
pub struct MonitorWindowSnapshot {
    pub monitor_id: u32,
    pub target_canvas_id: u32,
}

/// The process that is there.
#[derive(Debug, Clone, PartialEq, Eq)]
pub struct SingletonState {
    pub monitor_process_pid: u32,
    pub registered_windows: Vec<MonitorWindowSnapshot>,
}

/// What a start finds.
#[derive(Debug, Clone, Copy, PartialEq, Eq, Structural)]
pub enum OsPipeState {
    NoPipe,
    PipeExistsAcceptsInWindow,
    PipeExistsStale,
    /// Another start is under way.
    Race,
}

/// What a start becomes.
#[derive(Debug, Clone, Copy, PartialEq, Eq, Structural)]
pub enum BecomeOutcome {
    /// The process that opens windows.
    MonitorProcess,
    /// One that hands its window over.
    Launcher,
}

/// Why a start becomes nothing.
#[derive(Debug, Clone, Copy, PartialEq, Eq, Structural)]
pub enum TryBecomeErr {
    Race,
}

/// What a start becomes.
pub fn try_become_singleton(osr: OsPipeState) -> (r: Result<BecomeOutcome, TryBecomeErr>)
    ensures
        r == (match osr {
            OsPipeState::NoPipe => Ok::<BecomeOutcome, TryBecomeErr>(BecomeOutcome::MonitorProcess),
            OsPipeState::PipeExistsStale => Ok(BecomeOutcome::MonitorProcess),
            OsPipeState::PipeExistsAcceptsInWindow => Ok(BecomeOutcome::Launcher),
            OsPipeState::Race => Err(TryBecomeErr::Race),
        }),
{
    match osr {
        OsPipeState::NoPipe | OsPipeState::PipeExistsStale => Ok(BecomeOutcome::MonitorProcess),
        OsPipeState::PipeExistsAcceptsInWindow => Ok(BecomeOutcome::Launcher),
        OsPipeState::Race => Err(TryBecomeErr::Race),
    }
}

/// The largest identifier among the windows; zero where there is none.
pub open spec fn top_id(windows: Seq<MonitorWindowSnapshot>) -> u32
    decreases windows.len(),
{
    if windows.len() == 0 {
        0
    } else {
        let before = top_id(windows.drop_last());
        if windows.last().monitor_id > before {
            windows.last().monitor_id
        } else {
            before
        }
    }
}

/// The identifier of the next window. The largest number there is is given again
/// rather than none.
pub open spec fn next_id(windows: Seq<MonitorWindowSnapshot>) -> u32 {
    if top_id(windows) == u32::MAX {
        u32::MAX
    } else {
        (top_id(windows) + 1) as u32
    }
}

/// Enters the window that a request asks for, and answers the request.
pub fn handle_singleton_request(req: SingletonRequest, state: &mut SingletonState) -> (r:
    SingletonResponse)
    ensures
        final(state).monitor_process_pid == old(state).monitor_process_pid,
        r == (SingletonResponse::Ack {
            pid: old(state).monitor_process_pid,
            new_monitor_id: next_id(old(state).registered_windows@),
        }),
        final(state).registered_windows@ == old(state).registered_windows@.push(
            MonitorWindowSnapshot {
                monitor_id: next_id(old(state).registered_windows@),
                target_canvas_id: req->target_canvas_id,
            },
        ),
{
    match req {
        SingletonRequest::OpenWindow { target_canvas_id } => {
            let ghost windows = state.registered_windows@;
            let mut top: u32 = 0;
            let mut i: usize = 0;
            while i < state.registered_windows.len()
                invariant
                    i <= windows.len(),
                    windows == state.registered_windows@,
                    top == top_id(windows.take(i as int)),
                decreases windows.len() - i,
            {
                assert(windows.take(i + 1).drop_last() =~= windows.take(i as int));
                let id: u32 = state.registered_windows[i].monitor_id;
                if id > top {
                    top = id;
                }
                i = i + 1;
            }
            assert(windows.take(i as int) =~= windows);
            let new_monitor_id: u32 = top.saturating_add(1);
            state.registered_windows.push(
                MonitorWindowSnapshot { monitor_id: new_monitor_id, target_canvas_id },
            );
            SingletonResponse::Ack { pid: state.monitor_process_pid, new_monitor_id }
        },
    }
}

/// A new window's identifier is larger than every other's, as long as there are
/// larger ones.
pub proof fn new_windows_are_new(windows: Seq<MonitorWindowSnapshot>, i: int)
    requires
        0 <= i < windows.len(),
    ensures
        windows[i].monitor_id <= top_id(windows),
        top_id(windows) < u32::MAX ==> windows[i].monitor_id < next_id(windows),
    decreases windows.len(),
{
    if i < windows.len() - 1 {
        new_windows_are_new(windows.drop_last(), i);
    }
}

/// What a start that hands its window over says.
pub open spec fn log_line(pid: u32) -> Seq<char> {
    "forwarded open-window request to existing monitor-process (pid "@ + text::decimal(pid as nat)
        + "), exiting"@
}

/// What a start that hands its window over says.
pub fn launcher_log_line(pid: u32) -> (r: String)
    ensures
        r@ == log_line(pid),
{
    let mut out = String::from_str(
        "forwarded open-window request to existing monitor-process (pid ",
    );
    append_decimal(&mut out, pid as u64);
    out.append("), exiting");
    out
}

/// A frame: its opcode, its payload's length and its payload.
pub open spec fn framed(opcode: u16, payload: Seq<u8>) -> Seq<u8> {
    buffer::le16(opcode) + buffer::le32(payload.len() as u32) + payload
}

/// The frame of a request.
pub open spec fn request_frame(req: SingletonRequest) -> Seq<u8> {
    match req {
        SingletonRequest::OpenWindow { target_canvas_id } => framed(
            SINGLETON_OP_OPEN_WINDOW,
            buffer::le32(target_canvas_id),
        ),
    }
}

/// The payload of an answer.
pub open spec fn response_payload(resp: ResponseView) -> Seq<u8> {
    match resp {
        ResponseView::Ack { pid, new_monitor_id } => buffer::le32(pid) + buffer::le32(
            new_monitor_id,
        ),
        ResponseView::Nack { reason, message } => buffer::le16(reason) + vstd::utf8::encode_utf8(
            message,
        ),
    }
}

/// The frame of an answer.
pub open spec fn response_frame(resp: ResponseView) -> Seq<u8> {
    match resp {
        ResponseView::Ack { .. } => framed(SINGLETON_OP_ACK, response_payload(resp)),
        ResponseView::Nack { .. } => framed(SINGLETON_OP_NACK, response_payload(resp)),
    }
}

/// Appends a request's frame.
pub fn encode_request(req: SingletonRequest, buf: &mut BytesMut)
    requires
        buffer::buffered(*old(buf)).len() + 10 <= isize::MAX,
    ensures
        buffer::buffered(*final(buf)) == buffer::buffered(*old(buf)) + request_frame(req),
{
    let ghost before = buffer::buffered(*buf);
    match req {
        SingletonRequest::OpenWindow { target_canvas_id } => {
            append_u16(buf, SINGLETON_OP_OPEN_WINDOW);
            append_u32(buf, 4);
            append_u32(buf, target_canvas_id);
        },
    }
    assert(buffer::buffered(*buf) =~= before + request_frame(req));
}

/// Appends an answer's frame.
pub fn encode_response(resp: &SingletonResponse, buf: &mut BytesMut)
    requires
        response_payload(resp@).len() <= u32::MAX,
        buffer::buffered(*old(buf)).len() + response_payload(resp@).len() + 6 <= isize::MAX,
    ensures
        buffer::buffered(*final(buf)) == buffer::buffered(*old(buf)) + response_frame(resp@),
{
    let ghost before = buffer::buffered(*buf);
    match resp {
        SingletonResponse::Ack { pid, new_monitor_id } => {
            append_u16(buf, SINGLETON_OP_ACK);
            append_u32(buf, 8);
            append_u32(buf, *pid);
            append_u32(buf, *new_monitor_id);
        },
        SingletonResponse::Nack { reason, message } => {
            let bytes = message.as_str().as_bytes();
            append_u16(buf, SINGLETON_OP_NACK);
            append_u32(buf, 2 + bytes.len() as u32);
            append_u16(buf, *reason);
            append_slice(buf, bytes);
        },
    }
    assert(buffer::buffered(*buf) =~= before + response_frame(resp@));
}

/// The error of a buffer that holds fewer than `expected` bytes.
pub open spec fn too_small(s: Seq<u8>, expected: usize) -> SingletonFrameError {
    SingletonFrameError::BufferTooSmall { expected, actual: s.len() as usize }
}

/// What a request reads as, and what is left of the bytes.
pub open spec fn parse_request(s: Seq<u8>) -> (
    Result<SingletonRequest, SingletonFrameError>,
    Seq<u8>,
) {
    let opcode = buffer::u16_at(s, 0);
    let len = buffer::u32_at(s, 2);
    let rest = s.skip(6);
    if s.len() < 6 {
        (Err(too_small(s, 6)), s)
    } else if opcode != SINGLETON_OP_OPEN_WINDOW {
        (Err(SingletonFrameError::UnknownOpcode(opcode)), rest)
    } else if len != 4 {
        (Err(SingletonFrameError::PayloadLengthMismatch { expected: 4, actual: len }), rest)
    } else if rest.len() < 4 {
        (Err(too_small(rest, 4)), rest)
    } else {
        (
            Ok(SingletonRequest::OpenWindow { target_canvas_id: buffer::u32_at(rest, 0) }),
            rest.skip(4),
        )
    }
}

/// What an answer reads as, and what is left of the bytes.
pub open spec fn parse_response(s: Seq<u8>) -> (Result<ResponseView, SingletonFrameError>, Seq<u8>) {
    let opcode = buffer::u16_at(s, 0);
    let len = buffer::u32_at(s, 2);
    let rest = s.skip(6);
    if s.len() < 6 {
        (Err(too_small(s, 6)), s)
    } else if opcode == SINGLETON_OP_ACK {
        if len != 8 {
            (Err(SingletonFrameError::PayloadLengthMismatch { expected: 8, actual: len }), rest)
        } else if rest.len() < 8 {
            (Err(too_small(rest, 8)), rest)
        } else {
            (
                Ok(
                    ResponseView::Ack {
                        pid: buffer::u32_at(rest, 0),
                        new_monitor_id: buffer::u32_at(rest, 4),
                    },
                ),
                rest.skip(8),
            )
        }
    } else if opcode == SINGLETON_OP_NACK {
        if len < 2 {
            (Err(SingletonFrameError::PayloadLengthMismatch { expected: 2, actual: len }), rest)
        } else if rest.len() < len {
            (Err(too_small(rest, len as usize)), rest)
        } else {
            let bytes = rest.subrange(2, len as int);
            if vstd::utf8::valid_utf8(bytes) {
                (
                    Ok(
                        ResponseView::Nack {
                            reason: buffer::u16_at(rest, 0),
                            message: vstd::utf8::decode_utf8(bytes),
                        },
                    ),
                    rest.skip(len as int),
                )
            } else {
                (Err(SingletonFrameError::Utf8), rest.skip(len as int))
            }
        }
    } else {
        (Err(SingletonFrameError::UnknownOpcode(opcode)), rest)
    }
}

/// Takes a frame's opcode and payload length off the buffer.
fn decode_header(buf: &mut BytesMut) -> (r: Result<(u16, u32), SingletonFrameError>)
    ensures
        ({
            let s = buffer::buffered(*old(buf));
            if s.len() < 6 {
                &&& r == Err::<(u16, u32), SingletonFrameError>(too_small(s, 6))
                &&& buffer::buffered(*final(buf)) == s
            } else {
                &&& r == Ok::<(u16, u32), SingletonFrameError>(
                    (buffer::u16_at(s, 0), buffer::u32_at(s, 2)),
                )
                &&& buffer::buffered(*final(buf)) == s.skip(6)
            }
        }),
{
    let ghost s = buffer::buffered(*buf);
    require_remaining(buf, SINGLETON_HEADER_SIZE)?;
    let opcode: u16 = get_u16_le(buf);
    let len: u32 = get_u32_le(buf);
    assert(buffer::buffered(*buf) =~= s.skip(6));
    Ok((opcode, len))
}

fn require_len(actual: u32, expected: u32) -> (r: Result<(), SingletonFrameError>)
    ensures
        r == (if actual == expected {
            Ok(())
        } else {
            Err(SingletonFrameError::PayloadLengthMismatch { expected, actual })
        }),
{
    if actual == expected {
        Ok(())
    } else {
        Err(SingletonFrameError::PayloadLengthMismatch { expected, actual })
    }
}

fn require_remaining(buf: &BytesMut, expected: usize) -> (r: Result<(), SingletonFrameError>)
    ensures
        r == (if buffer::buffered(*buf).len() >= expected {
            Ok(())
        } else {
            Err(too_small(buffer::buffered(*buf), expected))
        }),
{
    let actual: usize = remaining(buf);
    if actual >= expected {
        Ok(())
    } else {
        Err(SingletonFrameError::BufferTooSmall { expected, actual })
    }
}

/// Takes a request off the buffer.
pub fn decode_request(buf: &mut BytesMut) -> (r: Result<SingletonRequest, SingletonFrameError>)
    ensures
        (r, buffer::buffered(*final(buf))) == parse_request(buffer::buffered(*old(buf))),
{
    let (opcode, len) = decode_header(buf)?;
    if opcode == SINGLETON_OP_OPEN_WINDOW {
        require_len(len, 4)?;
        require_remaining(buf, 4)?;
        let target_canvas_id: u32 = get_u32_le(buf);
        Ok(SingletonRequest::OpenWindow { target_canvas_id })
    } else {
        Err(SingletonFrameError::UnknownOpcode(opcode))
    }
}

/// What an answer or an error is as a mathematical value.
pub open spec fn response_view(r: Result<SingletonResponse, SingletonFrameError>) -> Result<
    ResponseView,
    SingletonFrameError,
> {
    match r {
        Ok(resp) => Ok(resp@),
        Err(e) => Err(e),
    }
}

/// Takes an answer off the buffer.
pub fn decode_response(buf: &mut BytesMut) -> (r: Result<SingletonResponse, SingletonFrameError>)
    ensures
        (response_view(r), buffer::buffered(*final(buf))) == parse_response(
            buffer::buffered(*old(buf)),
        ),
{
    let (opcode, len) = decode_header(buf)?;
    let ghost rest = buffer::buffered(*buf);
    if opcode == SINGLETON_OP_ACK {
        require_len(len, 8)?;
        require_remaining(buf, 8)?;
        let pid: u32 = get_u32_le(buf);
        let new_monitor_id: u32 = get_u32_le(buf);
        assert(buffer::buffered(*buf) =~= rest.skip(8));
        Ok(SingletonResponse::Ack { pid, new_monitor_id })
    } else if opcode == SINGLETON_OP_NACK {
        if len < 2 {
            return Err(SingletonFrameError::PayloadLengthMismatch { expected: 2, actual: len });
        }
        require_remaining(buf, len as usize)?;
        let reason: u16 = get_u16_le(buf);
        let bytes = copy_to_bytes(buf, (len - 2) as usize);
        assert(bytes@ =~= rest.subrange(2, len as int));
        assert(buffer::buffered(*buf) =~= rest.skip(len as int));
        match utf8_text(bytes.as_slice()) {
            Some(message) => Ok(SingletonResponse::Nack { reason, message }),
            None => Err(SingletonFrameError::Utf8),
        }
    } else {
        Err(SingletonFrameError::UnknownOpcode(opcode))
    }
}

/// The opcode and the payload of a frame stand where a reader looks for them.
proof fn frames_read_back(opcode: u16, payload: Seq<u8>, rest: Seq<u8>)
    requires
        payload.len() <= u32::MAX,
    ensures
        ({
            let s = framed(opcode, payload) + rest;
            &&& s.len() >= 6
            &&& buffer::u16_at(s, 0) == opcode
            &&& buffer::u32_at(s, 2) == payload.len()
            &&& s.skip(6) == payload + rest
        }),
{
    let s = framed(opcode, payload) + rest;
    buffer::le16_reads_back(opcode);
    buffer::le32_reads_back(payload.len() as u32);
    assert(buffer::u16_at(s, 0) == buffer::u16_at(buffer::le16(opcode), 0));
    assert(buffer::u32_at(s, 2) == buffer::u32_at(buffer::le32(payload.len() as u32), 0));
    assert(s.skip(6) =~= payload + rest);
}

/// A request reads back as it was written, and the bytes behind it are left.
pub proof fn requests_read_back(req: SingletonRequest, rest: Seq<u8>)
    ensures
        parse_request(request_frame(req) + rest) == (
            Ok::<SingletonRequest, SingletonFrameError>(req),
            rest,
        ),
{
    match req {
        SingletonRequest::OpenWindow { target_canvas_id } => {
            let payload = buffer::le32(target_canvas_id);
            frames_read_back(SINGLETON_OP_OPEN_WINDOW, payload, rest);
            buffer::le32_reads_back(target_canvas_id);
            let after = payload + rest;
            assert(buffer::u32_at(after, 0) == buffer::u32_at(payload, 0));
            assert(after.skip(4) =~= rest);
        },
    }
}

/// An answer reads back as it was written, and the bytes behind it are left.
pub proof fn responses_read_back(resp: ResponseView, rest: Seq<u8>)
    requires
        response_payload(resp).len() <= u32::MAX,
    ensures
        parse_response(response_frame(resp) + rest) == (
            Ok::<ResponseView, SingletonFrameError>(resp),
            rest,
        ),
{
    let payload = response_payload(resp);
    let after = payload + rest;
    match resp {
        ResponseView::Ack { pid, new_monitor_id } => {
            frames_read_back(SINGLETON_OP_ACK, payload, rest);
            buffer::le32_reads_back(pid);
            buffer::le32_reads_back(new_monitor_id);
            assert(buffer::u32_at(after, 0) == buffer::u32_at(buffer::le32(pid), 0));
            assert(buffer::u32_at(after, 4) == buffer::u32_at(buffer::le32(new_monitor_id), 0));
            assert(after.skip(8) =~= rest);
        },
        ResponseView::Nack { reason, message } => {
            frames_read_back(SINGLETON_OP_NACK, payload, rest);
            buffer::le16_reads_back(reason);
            assert(buffer::u16_at(after, 0) == buffer::u16_at(buffer::le16(reason), 0));
            assert(after.subrange(2, payload.len() as int) =~= vstd::utf8::encode_utf8(message));
            assert(after.skip(payload.len() as int) =~= rest);
            vstd::utf8::encode_utf8_valid_utf8(message);
            vstd::utf8::encode_utf8_decode_utf8(message);
        },
    }
}

} // verus!
