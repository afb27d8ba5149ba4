//! The render command stream: each command is an opcode, a payload length and a
//! payload. Malformed and unknown commands are skipped; the commands around them
//! are not affected.
//!
//! A stream carries 32-bit floats. They are held here by their bit patterns: the
//! decoder moves them, and only the painter gives them a value.

use bytes::BytesMut;
use vstd::prelude::*;

use crate::buffer;

verus! {

/// A 32-bit float, held by its bit pattern.
pub type F32Bits = u32;

pub const CMD_HEADER_SIZE: usize = 4;

pub const CMD_CLEAR: u16 = 0x0101;

pub const CMD_FILL_RECT: u16 = 0x0102;

pub const CMD_STROKE_RECT: u16 = 0x0103;

pub const CMD_FILL_ROUNDED_RECT: u16 = 0x0104;

pub const CMD_STROKE_ROUNDED_RECT: u16 = 0x0105;

pub const CMD_FILL_ELLIPSE: u16 = 0x0106;

pub const CMD_STROKE_ELLIPSE: u16 = 0x0107;

pub const CMD_DRAW_LINE: u16 = 0x0108;

/// Push a coordinate space on the frame's space stack. Payload: the space's
/// number, as 32 bits.
pub const CMD_PUSH_SPACE: u16 = 0x0109;

/// Pop the top of the frame's space stack. No payload.
pub const CMD_POP_SPACE: u16 = 0x010A;

pub const CMD_DRAW_TEXT: u16 = 0x010B;

pub const CMD_DRAW_BITMAP: u16 = 0x010C;

/// The bytes of a text command's payload before the text itself.
pub const CMD_DRAW_TEXT_FIXED_PAYLOAD: usize = 30;

/// The coordinate spaces that a stream can draw in.
#[derive(Debug, Clone, Copy, PartialEq, Eq, Structural)]
pub enum SpaceId {
    /// The canvas that all monitors share. The default.
    World,
    /// The client area of each attached monitor, drawn for each independently.
    MonitorLocal,
}

impl SpaceId {
    /// The space's number on the wire.
    pub open spec fn number(self) -> u32 {
        match self {
            SpaceId::World => 0,
            SpaceId::MonitorLocal => 1,
        }
    }

    /// The space with number `v`.
    pub open spec fn parse(v: u32) -> Option<SpaceId> {
        if v == 0 {
            Some(SpaceId::World)
        } else if v == 1 {
            Some(SpaceId::MonitorLocal)
        } else {
            None
        }
    }

    /// The space with number `v`, where there is one.
    pub fn from_u32(v: u32) -> (r: Option<Self>)
        ensures
            r == Self::parse(v),
    {
        match v {
            0 => Some(SpaceId::World),
            1 => Some(SpaceId::MonitorLocal),
            _ => None,
        }
    }
}

/// A colour: red, green, blue and alpha.
#[derive(Debug, Clone, Copy, PartialEq, Eq, Structural)]
pub struct Rgba {
    pub r: F32Bits,
    pub g: F32Bits,
    pub b: F32Bits,
    pub a: F32Bits,
}

/// A primitive that the painter draws.
#[derive(Debug, Clone, PartialEq, Eq)]
pub enum DrawCmd {
    FillRect { x: F32Bits, y: F32Bits, w: F32Bits, h: F32Bits, rgba: Rgba },
    StrokeRect {
        x: F32Bits,
        y: F32Bits,
        w: F32Bits,
        h: F32Bits,
        stroke_width: F32Bits,
        rgba: Rgba,
    },
    FillRoundedRect {
        x: F32Bits,
        y: F32Bits,
        w: F32Bits,
        h: F32Bits,
        radius_x: F32Bits,
        radius_y: F32Bits,
        rgba: Rgba,
    },
    StrokeRoundedRect {
        x: F32Bits,
        y: F32Bits,
        w: F32Bits,
        h: F32Bits,
        radius_x: F32Bits,
        radius_y: F32Bits,
        stroke_width: F32Bits,
        rgba: Rgba,
    },
    FillEllipse { cx: F32Bits, cy: F32Bits, rx: F32Bits, ry: F32Bits, rgba: Rgba },
    StrokeEllipse {
        cx: F32Bits,
        cy: F32Bits,
        rx: F32Bits,
        ry: F32Bits,
        stroke_width: F32Bits,
        rgba: Rgba,
    },
    DrawLine {
        x0: F32Bits,
        y0: F32Bits,
        x1: F32Bits,
        y1: F32Bits,
        stroke_width: F32Bits,
        rgba: Rgba,
        dash_style: i32,
    },
    DrawText { text: String, x: F32Bits, y: F32Bits, font_size: F32Bits, rgba: Rgba },
    DrawBitmap {
        bitmap: u32,
        src_x: F32Bits,
        src_y: F32Bits,
        src_w: F32Bits,
        src_h: F32Bits,
        dst_x: F32Bits,
        dst_y: F32Bits,
        dst_w: F32Bits,
        dst_h: F32Bits,
        opacity: F32Bits,
        interp_mode: i32,
    },
}

/// A bitmap to draw, by the number that its app gave it.
#[derive(Debug, Clone, Copy, PartialEq, Eq, Structural)]
pub struct BitmapDrawCommand {
    pub bitmap_id: u32,
    pub src_x: F32Bits,
    pub src_y: F32Bits,
    pub src_w: F32Bits,
    pub src_h: F32Bits,
    pub dst_x: F32Bits,
    pub dst_y: F32Bits,
    pub dst_w: F32Bits,
    pub dst_h: F32Bits,
    pub opacity: F32Bits,
    pub interp_mode: i32,
}

/// A command of a frame.
#[derive(Debug, Clone, PartialEq, Eq)]
pub enum RenderCommand {
    /// Fill the current target with a colour.
    Clear(Rgba),
    /// Draw a primitive on the current target.
    Draw(DrawCmd),
    /// Draw a bitmap of the app on the current target.
    DrawBitmap(BitmapDrawCommand),
    /// Make a space the current one.
    PushSpace(SpaceId),
    /// Go back to the space before the current one.
    PopSpace,
}

/// A command as a mathematical value: a text is a sequence of characters, and
/// every other command stands for itself.
pub enum CommandView {
    Plain(RenderCommand),
    Text { text: Seq<char>, x: F32Bits, y: F32Bits, font_size: F32Bits, rgba: Rgba },
}

impl View for RenderCommand {
    type V = CommandView;

    open spec fn view(&self) -> CommandView {
        match *self {
            RenderCommand::Draw(DrawCmd::DrawText { text, x, y, font_size, rgba }) =>
                CommandView::Text { text: text@, x, y, font_size, rgba },
            _ => CommandView::Plain(*self),
        }
    }
}

/// Commands as mathematical values.
pub open spec fn views(commands: Seq<RenderCommand>) -> Seq<CommandView> {
    commands.map_values(|c: RenderCommand| c@)
}

/// The payload length of the opcodes whose payloads all have one length.
pub open spec fn fixed_len(opcode: u16) -> Option<usize> {
    if opcode == CMD_CLEAR {
        Some(16)
    } else if opcode == CMD_FILL_RECT || opcode == CMD_FILL_ELLIPSE {
        Some(32)
    } else if opcode == CMD_STROKE_RECT || opcode == CMD_STROKE_ELLIPSE {
        Some(36)
    } else if opcode == CMD_FILL_ROUNDED_RECT || opcode == CMD_DRAW_LINE {
        Some(40)
    } else if opcode == CMD_STROKE_ROUNDED_RECT || opcode == CMD_DRAW_BITMAP {
        Some(44)
    } else if opcode == CMD_PUSH_SPACE {
        Some(4)
    } else if opcode == CMD_POP_SPACE {
        Some(0)
    } else {
        None
    }
}

/// The colour stored at offset `i`.
pub open spec fn rgba_at(p: Seq<u8>, i: int) -> Rgba {
    Rgba {
        r: buffer::u32_at(p, i),
        g: buffer::u32_at(p, i + 4),
        b: buffer::u32_at(p, i + 8),
        a: buffer::u32_at(p, i + 12),
    }
}

/// The primitive that a payload of the right length holds, for the opcodes whose
/// payloads hold one.
pub open spec fn parse_draw(opcode: u16, p: Seq<u8>) -> Option<DrawCmd> {
    if opcode == CMD_FILL_RECT {
        Some(
            DrawCmd::FillRect {
                x: buffer::u32_at(p, 0),
                y: buffer::u32_at(p, 4),
                w: buffer::u32_at(p, 8),
                h: buffer::u32_at(p, 12),
                rgba: rgba_at(p, 16),
            },
        )
    } else if opcode == CMD_STROKE_RECT {
        Some(
            DrawCmd::StrokeRect {
                x: buffer::u32_at(p, 0),
                y: buffer::u32_at(p, 4),
                w: buffer::u32_at(p, 8),
                h: buffer::u32_at(p, 12),
                stroke_width: buffer::u32_at(p, 16),
                rgba: rgba_at(p, 20),
            },
        )
    } else if opcode == CMD_FILL_ROUNDED_RECT {
        Some(
            DrawCmd::FillRoundedRect {
                x: buffer::u32_at(p, 0),
                y: buffer::u32_at(p, 4),
                w: buffer::u32_at(p, 8),
                h: buffer::u32_at(p, 12),
                radius_x: buffer::u32_at(p, 16),
                radius_y: buffer::u32_at(p, 20),
                rgba: rgba_at(p, 24),
            },
        )
    } else if opcode == CMD_STROKE_ROUNDED_RECT {
        Some(
            DrawCmd::StrokeRoundedRect {
                x: buffer::u32_at(p, 0),
                y: buffer::u32_at(p, 4),
                w: buffer::u32_at(p, 8),
                h: buffer::u32_at(p, 12),
                radius_x: buffer::u32_at(p, 16),
                radius_y: buffer::u32_at(p, 20),
                stroke_width: buffer::u32_at(p, 24),
                rgba: rgba_at(p, 28),
            },
        )
    } else if opcode == CMD_FILL_ELLIPSE {
        Some(
            DrawCmd::FillEllipse {
                cx: buffer::u32_at(p, 0),
                cy: buffer::u32_at(p, 4),
                rx: buffer::u32_at(p, 8),
                ry: buffer::u32_at(p, 12),
                rgba: rgba_at(p, 16),
            },
        )
    } else if opcode == CMD_STROKE_ELLIPSE {
        Some(
            DrawCmd::StrokeEllipse {
                cx: buffer::u32_at(p, 0),
                cy: buffer::u32_at(p, 4),
                rx: buffer::u32_at(p, 8),
                ry: buffer::u32_at(p, 12),
                stroke_width: buffer::u32_at(p, 16),
                rgba: rgba_at(p, 20),
            },
        )
    } else if opcode == CMD_DRAW_LINE {
        Some(
            DrawCmd::DrawLine {
                x0: buffer::u32_at(p, 0),
                y0: buffer::u32_at(p, 4),
                x1: buffer::u32_at(p, 8),
                y1: buffer::u32_at(p, 12),
                stroke_width: buffer::u32_at(p, 16),
                rgba: rgba_at(p, 20),
                dash_style: buffer::i32_at(p, 36),
            },
        )
    } else {
        None
    }
}

/// The bitmap command that a payload of the right length holds.
pub open spec fn parse_bitmap(p: Seq<u8>) -> BitmapDrawCommand {
    BitmapDrawCommand {
        bitmap_id: buffer::u32_at(p, 0),
        src_x: buffer::u32_at(p, 4),
        src_y: buffer::u32_at(p, 8),
        src_w: buffer::u32_at(p, 12),
        src_h: buffer::u32_at(p, 16),
        dst_x: buffer::u32_at(p, 20),
        dst_y: buffer::u32_at(p, 24),
        dst_w: buffer::u32_at(p, 28),
        dst_h: buffer::u32_at(p, 32),
        opacity: buffer::u32_at(p, 36),
        interp_mode: buffer::i32_at(p, 40),
    }
}

/// The text command that a payload holds, if its length is that of its text and
/// the text is valid UTF-8.
pub open spec fn parse_text(p: Seq<u8>) -> Option<CommandView> {
    let text = p.skip(30);
    if p.len() < CMD_DRAW_TEXT_FIXED_PAYLOAD || p.len() != 30 + buffer::u16_at(p, 28)
        || !vstd::utf8::valid_utf8(text) {
        None
    } else {
        Some(
            CommandView::Text {
                text: vstd::utf8::decode_utf8(text),
                x: buffer::u32_at(p, 0),
                y: buffer::u32_at(p, 4),
                font_size: buffer::u32_at(p, 8),
                rgba: rgba_at(p, 12),
            },
        )
    }
}

/// The command that a payload holds. There is none for an unknown opcode, a
/// length that does not fit the opcode, an unknown space or a malformed text.
pub open spec fn parse_command(opcode: u16, p: Seq<u8>) -> Option<CommandView> {
    if fixed_len(opcode) is Some && p.len() != fixed_len(opcode)->0 {
        None
    } else if opcode == CMD_CLEAR {
        Some(CommandView::Plain(RenderCommand::Clear(rgba_at(p, 0))))
    } else if opcode == CMD_DRAW_BITMAP {
        Some(CommandView::Plain(RenderCommand::DrawBitmap(parse_bitmap(p))))
    } else if opcode == CMD_DRAW_TEXT {
        parse_text(p)
    } else if opcode == CMD_PUSH_SPACE {
        match SpaceId::parse(buffer::u32_at(p, 0)) {
            Some(space) => Some(CommandView::Plain(RenderCommand::PushSpace(space))),
            None => None,
        }
    } else if opcode == CMD_POP_SPACE {
        Some(CommandView::Plain(RenderCommand::PopSpace))
    } else {
        match parse_draw(opcode, p) {
            Some(draw) => Some(CommandView::Plain(RenderCommand::Draw(draw))),
            None => None,
        }
    }
}

/// The sequence of the command, if there is one.
pub open spec fn at_most_one(c: Option<CommandView>) -> Seq<CommandView> {
    match c {
        Some(c) => seq![c],
        None => seq![],
    }
}

/// The commands of a stream, up to its end or to the first command whose payload
/// is cut short.
pub open spec fn parse_commands(s: Seq<u8>) -> Seq<CommandView>
    decreases s.len(),
{
    if s.len() < CMD_HEADER_SIZE || s.len() < 4 + buffer::u16_at(s, 2) {
        seq![]
    } else {
        let end = 4 + buffer::u16_at(s, 2);
        at_most_one(parse_command(buffer::u16_at(s, 0), s.subrange(4, end))) + parse_commands(
            s.skip(end),
        )
    }
}

/// `std::str::from_utf8`, with the text handed on as a `String`: the text that
/// the bytes encode, and no text exactly where they are not valid UTF-8.
#[verifier::external_body]
pub(crate) fn utf8_text(bytes: &[u8]) -> (text: Option<String>)
    ensures
        text is Some <==> vstd::utf8::valid_utf8(bytes@),
        text is Some ==> text->0@ == vstd::utf8::decode_utf8(bytes@),
{
    match std::str::from_utf8(bytes) {
        Ok(text) => Some(text.to_owned()),
        Err(_) => None,
    }
}

fn fixed_payload_len(opcode: u16) -> (n: Option<usize>)
    ensures
        n == fixed_len(opcode),
{
    if opcode == CMD_CLEAR {
        Some(16)
    } else if opcode == CMD_FILL_RECT || opcode == CMD_FILL_ELLIPSE {
        Some(32)
    } else if opcode == CMD_STROKE_RECT || opcode == CMD_STROKE_ELLIPSE {
        Some(36)
    } else if opcode == CMD_FILL_ROUNDED_RECT || opcode == CMD_DRAW_LINE {
        Some(40)
    } else if opcode == CMD_STROKE_ROUNDED_RECT || opcode == CMD_DRAW_BITMAP {
        Some(44)
    } else if opcode == CMD_PUSH_SPACE {
        Some(4)
    } else if opcode == CMD_POP_SPACE {
        Some(0)
    } else {
        None
    }
}

fn read_rgba(buf: &mut BytesMut) -> (rgba: Rgba)
    requires
        buffer::buffered(*old(buf)).len() >= 16,
    ensures
        rgba == rgba_at(buffer::buffered(*old(buf)), 0),
        buffer::buffered(*final(buf)) == buffer::buffered(*old(buf)).skip(16),
{
    let r: u32 = buffer::get_u32_le(buf);
    let g: u32 = buffer::get_u32_le(buf);
    let b: u32 = buffer::get_u32_le(buf);
    let a: u32 = buffer::get_u32_le(buf);
    Rgba { r, g, b, a }
}

/// The primitive of an opcode whose payloads hold one.
fn decode_draw(opcode: u16, payload: &mut BytesMut) -> (r: Option<DrawCmd>)
    requires
        fixed_len(opcode) is Some ==> buffer::buffered(*old(payload)).len() == fixed_len(opcode)->0,
    ensures
        r == parse_draw(opcode, buffer::buffered(*old(payload))),
{
    if opcode == CMD_FILL_RECT {
        let x: u32 = buffer::get_u32_le(payload);
        let y: u32 = buffer::get_u32_le(payload);
        let w: u32 = buffer::get_u32_le(payload);
        let h: u32 = buffer::get_u32_le(payload);
        let rgba: Rgba = read_rgba(payload);
        Some(DrawCmd::FillRect { x, y, w, h, rgba })
    } else if opcode == CMD_STROKE_RECT {
        let x: u32 = buffer::get_u32_le(payload);
        let y: u32 = buffer::get_u32_le(payload);
        let w: u32 = buffer::get_u32_le(payload);
        let h: u32 = buffer::get_u32_le(payload);
        let stroke_width: u32 = buffer::get_u32_le(payload);
        let rgba: Rgba = read_rgba(payload);
        Some(DrawCmd::StrokeRect { x, y, w, h, stroke_width, rgba })
    } else if opcode == CMD_FILL_ROUNDED_RECT {
        let x: u32 = buffer::get_u32_le(payload);
        let y: u32 = buffer::get_u32_le(payload);
        let w: u32 = buffer::get_u32_le(payload);
        let h: u32 = buffer::get_u32_le(payload);
        let radius_x: u32 = buffer::get_u32_le(payload);
        let radius_y: u32 = buffer::get_u32_le(payload);
        let rgba: Rgba = read_rgba(payload);
        Some(DrawCmd::FillRoundedRect { x, y, w, h, radius_x, radius_y, rgba })
    } else if opcode == CMD_STROKE_ROUNDED_RECT {
        let x: u32 = buffer::get_u32_le(payload);
        let y: u32 = buffer::get_u32_le(payload);
        let w: u32 = buffer::get_u32_le(payload);
        let h: u32 = buffer::get_u32_le(payload);
        let radius_x: u32 = buffer::get_u32_le(payload);
        let radius_y: u32 = buffer::get_u32_le(payload);
        let stroke_width: u32 = buffer::get_u32_le(payload);
        let rgba: Rgba = read_rgba(payload);
        Some(DrawCmd::StrokeRoundedRect { x, y, w, h, radius_x, radius_y, stroke_width, rgba })
    } else if opcode == CMD_FILL_ELLIPSE {
        let cx: u32 = buffer::get_u32_le(payload);
        let cy: u32 = buffer::get_u32_le(payload);
        let rx: u32 = buffer::get_u32_le(payload);
        let ry: u32 = buffer::get_u32_le(payload);
        let rgba: Rgba = read_rgba(payload);
        Some(DrawCmd::FillEllipse { cx, cy, rx, ry, rgba })
    } else if opcode == CMD_STROKE_ELLIPSE {
        let cx: u32 = buffer::get_u32_le(payload);
        let cy: u32 = buffer::get_u32_le(payload);
        let rx: u32 = buffer::get_u32_le(payload);
        let ry: u32 = buffer::get_u32_le(payload);
        let stroke_width: u32 = buffer::get_u32_le(payload);
        let rgba: Rgba = read_rgba(payload);
        Some(DrawCmd::StrokeEllipse { cx, cy, rx, ry, stroke_width, rgba })
    } else if opcode == CMD_DRAW_LINE {
        let x0: u32 = buffer::get_u32_le(payload);
        let y0: u32 = buffer::get_u32_le(payload);
        let x1: u32 = buffer::get_u32_le(payload);
        let y1: u32 = buffer::get_u32_le(payload);
        let stroke_width: u32 = buffer::get_u32_le(payload);
        let rgba: Rgba = read_rgba(payload);
        let dash_style: i32 = buffer::get_i32_le(payload);
        Some(DrawCmd::DrawLine { x0, y0, x1, y1, stroke_width, rgba, dash_style })
    } else {
        None
    }
}

fn decode_bitmap(payload: &mut BytesMut) -> (r: BitmapDrawCommand)
    requires
        buffer::buffered(*old(payload)).len() == 44,
    ensures
        r == parse_bitmap(buffer::buffered(*old(payload))),
{
    let bitmap_id: u32 = buffer::get_u32_le(payload);
    let src_x: u32 = buffer::get_u32_le(payload);
    let src_y: u32 = buffer::get_u32_le(payload);
    let src_w: u32 = buffer::get_u32_le(payload);
    let src_h: u32 = buffer::get_u32_le(payload);
    let dst_x: u32 = buffer::get_u32_le(payload);
    let dst_y: u32 = buffer::get_u32_le(payload);
    let dst_w: u32 = buffer::get_u32_le(payload);
    let dst_h: u32 = buffer::get_u32_le(payload);
    let opacity: u32 = buffer::get_u32_le(payload);
    let interp_mode: i32 = buffer::get_i32_le(payload);
    BitmapDrawCommand {
        bitmap_id,
        src_x,
        src_y,
        src_w,
        src_h,
        dst_x,
        dst_y,
        dst_w,
        dst_h,
        opacity,
        interp_mode,
    }
}

/// A decoded command as a mathematical value.
pub open spec fn command_view(c: Option<RenderCommand>) -> Option<CommandView> {
    match c {
        Some(c) => Some(c@),
        None => None,
    }
}

fn decode_text(payload: &mut BytesMut) -> (r: Option<RenderCommand>)
    ensures
        command_view(r) == parse_text(buffer::buffered(*old(payload))),
{
    let ghost p = buffer::buffered(*payload);
    let payload_len: usize = buffer::remaining(payload);
    if payload_len < CMD_DRAW_TEXT_FIXED_PAYLOAD {
        return None;
    }
    let x: u32 = buffer::get_u32_le(payload);
    let y: u32 = buffer::get_u32_le(payload);
    let font_size: u32 = buffer::get_u32_le(payload);
    let rgba: Rgba = read_rgba(payload);
    let text_len: usize = buffer::get_u16_le(payload) as usize;
    assert(buffer::buffered(*payload) =~= p.skip(30));
    if CMD_DRAW_TEXT_FIXED_PAYLOAD + text_len != payload_len {
        return None;
    }
    let text_bytes: Vec<u8> = buffer::copy_to_bytes(payload, text_len);
    assert(text_bytes@ =~= p.skip(30));
    match utf8_text(text_bytes.as_slice()) {
        Some(text) => Some(RenderCommand::Draw(DrawCmd::DrawText { text, x, y, font_size, rgba })),
        None => None,
    }
}

fn decode_command(opcode: u16, payload: &mut BytesMut) -> (r: Option<RenderCommand>)
    ensures
        command_view(r) == parse_command(opcode, buffer::buffered(*old(payload))),
{
    if let Some(expected) = fixed_payload_len(opcode) {
        if buffer::remaining(payload) != expected {
            return None;
        }
    }
    if opcode == CMD_CLEAR {
        Some(RenderCommand::Clear(read_rgba(payload)))
    } else if opcode == CMD_DRAW_BITMAP {
        Some(RenderCommand::DrawBitmap(decode_bitmap(payload)))
    } else if opcode == CMD_DRAW_TEXT {
        decode_text(payload)
    } else if opcode == CMD_PUSH_SPACE {
        match SpaceId::from_u32(buffer::get_u32_le(payload)) {
            Some(space) => Some(RenderCommand::PushSpace(space)),
            None => None,
        }
    } else if opcode == CMD_POP_SPACE {
        Some(RenderCommand::PopSpace)
    } else {
        match decode_draw(opcode, payload) {
            Some(draw) => Some(RenderCommand::Draw(draw)),
            None => None,
        }
    }
}

/// The commands of a stream, in order. Commands that cannot be read are left out,
/// and a command that is cut short ends the stream.
pub fn decode_commands(data: &[u8]) -> (commands: Vec<RenderCommand>)
    ensures
        views(commands@) == parse_commands(data@),
{
    let mut buf: BytesMut = buffer::from_slice(data);
    let mut commands: Vec<RenderCommand> = Vec::new();
    while buffer::remaining(&buf) >= CMD_HEADER_SIZE
        invariant_except_break
            views(commands@) + parse_commands(buffer::buffered(buf)) == parse_commands(data@),
        ensures
            views(commands@) == parse_commands(data@),
        decreases buffer::buffered(buf).len(),
    {
        let ghost s = buffer::buffered(buf);
        let ghost before = commands@;
        let opcode: u16 = buffer::get_u16_le(&mut buf);
        let payload_len: usize = buffer::get_u16_le(&mut buf) as usize;
        assert(buffer::buffered(buf) =~= s.skip(4));
        if buffer::remaining(&buf) < payload_len {
            assert(parse_commands(s) =~= seq![]);
            break;
        }
        let mut payload: BytesMut = buffer::split_to(&mut buf, payload_len);
        let ghost end = 4 + payload_len;
        assert(buffer::buffered(payload) =~= s.subrange(4, end));
        assert(buffer::buffered(buf) =~= s.skip(end));
        let decoded: Option<RenderCommand> = decode_command(opcode, &mut payload);
        if let Some(command) = decoded {
            commands.push(command);
            assert(views(commands@) =~= views(before) + seq![command@]);
        }
        assert(views(commands@) =~= views(before) + at_most_one(command_view(decoded)));
        assert(views(commands@) + parse_commands(s.skip(end)) =~= views(before) + parse_commands(
            s,
        ));
    }
    commands
}

} // verus!
