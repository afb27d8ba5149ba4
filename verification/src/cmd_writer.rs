//! Writing render commands into the shared command region, in the layout that
//! the decoder reads.

use vstd::prelude::*;

use crate::buffer;
use crate::cmd_decoder;
use crate::cmd_decoder::{
    BitmapDrawCommand, CommandView, DrawCmd, F32Bits, RenderCommand, Rgba, CMD_CLEAR,
    CMD_DRAW_BITMAP, CMD_DRAW_LINE, CMD_DRAW_TEXT, CMD_FILL_ELLIPSE, CMD_FILL_RECT,
    CMD_FILL_ROUNDED_RECT, CMD_POP_SPACE, CMD_PUSH_SPACE, CMD_STROKE_ELLIPSE, CMD_STROKE_RECT,
    CMD_STROKE_ROUNDED_RECT,
};

verus! {

/// The region `s` with the bytes `b` written over it from `pos` on.
pub open spec fn overwritten(s: Seq<u8>, pos: int, b: Seq<u8>) -> Seq<u8> {
    s.take(pos) + b + s.skip(pos + b.len())
}

/// A command of the stream: its opcode, its payload's length and its payload.
pub open spec fn framed(opcode: u16, payload: Seq<u8>) -> Seq<u8> {
    buffer::le16(opcode) + buffer::le16((payload.len() % 0x1_0000) as u16) + payload
}

/// The words of a colour.
pub open spec fn rgba_words(c: Rgba) -> Seq<u32> {
    seq![c.r, c.g, c.b, c.a]
}

/// The words of a primitive's payload.
pub open spec fn draw_words(d: DrawCmd) -> Seq<u32> {
    match d {
        DrawCmd::FillRect { x, y, w, h, rgba } => seq![x, y, w, h] + rgba_words(rgba),
        DrawCmd::StrokeRect { x, y, w, h, stroke_width, rgba } => seq![x, y, w, h, stroke_width]
            + rgba_words(rgba),
        DrawCmd::FillRoundedRect { x, y, w, h, radius_x, radius_y, rgba } => seq![
            x,
            y,
            w,
            h,
            radius_x,
            radius_y,
        ] + rgba_words(rgba),
        DrawCmd::StrokeRoundedRect { x, y, w, h, radius_x, radius_y, stroke_width, rgba } => seq![
            x,
            y,
            w,
            h,
            radius_x,
            radius_y,
            stroke_width,
        ] + rgba_words(rgba),
        DrawCmd::FillEllipse { cx, cy, rx, ry, rgba } => seq![cx, cy, rx, ry] + rgba_words(rgba),
        DrawCmd::StrokeEllipse { cx, cy, rx, ry, stroke_width, rgba } => seq![
            cx,
            cy,
            rx,
            ry,
            stroke_width,
        ] + rgba_words(rgba),
        DrawCmd::DrawLine { x0, y0, x1, y1, stroke_width, rgba, dash_style } => seq![
            x0,
            y0,
            x1,
            y1,
            stroke_width,
        ] + rgba_words(rgba) + seq![buffer::i32_bits(dash_style)],
        _ => seq![],
    }
}

/// The opcode of a primitive's command.
pub open spec fn draw_op(d: DrawCmd) -> u16 {
    match d {
        DrawCmd::FillRect { .. } => CMD_FILL_RECT,
        DrawCmd::StrokeRect { .. } => CMD_STROKE_RECT,
        DrawCmd::FillRoundedRect { .. } => CMD_FILL_ROUNDED_RECT,
        DrawCmd::StrokeRoundedRect { .. } => CMD_STROKE_ROUNDED_RECT,
        DrawCmd::FillEllipse { .. } => CMD_FILL_ELLIPSE,
        DrawCmd::StrokeEllipse { .. } => CMD_STROKE_ELLIPSE,
        DrawCmd::DrawLine { .. } => CMD_DRAW_LINE,
        DrawCmd::DrawText { .. } => CMD_DRAW_TEXT,
        DrawCmd::DrawBitmap { .. } => CMD_DRAW_BITMAP,
    }
}

/// The words of a bitmap command's payload.
pub open spec fn bitmap_words(d: BitmapDrawCommand) -> Seq<u32> {
    seq![
        d.bitmap_id,
        d.src_x,
        d.src_y,
        d.src_w,
        d.src_h,
        d.dst_x,
        d.dst_y,
        d.dst_w,
        d.dst_h,
        d.opacity,
        buffer::i32_bits(d.interp_mode),
    ]
}

/// The bytes of a text that a text command carries: at most as many as its
/// 16-bit length can count.
pub open spec fn carried(text: Seq<char>) -> Seq<u8> {
    let bytes = vstd::utf8::encode_utf8(text);
    bytes.take(vstd::math::min(bytes.len() as int, 0xFFFF))
}

/// The payload of a text command.
pub open spec fn text_payload(
    text: Seq<char>,
    x: F32Bits,
    y: F32Bits,
    font_size: F32Bits,
    rgba: Rgba,
) -> Seq<u8> {
    buffer::words_bytes(seq![x, y, font_size] + rgba_words(rgba)) + buffer::le16(
        carried(text).len() as u16,
    ) + carried(text)
}

/// The opcode of a command.
pub open spec fn command_op(c: CommandView) -> u16 {
    match c {
        CommandView::Text { .. } => CMD_DRAW_TEXT,
        CommandView::Plain(RenderCommand::Clear(_)) => CMD_CLEAR,
        CommandView::Plain(RenderCommand::Draw(d)) => draw_op(d),
        CommandView::Plain(RenderCommand::DrawBitmap(_)) => CMD_DRAW_BITMAP,
        CommandView::Plain(RenderCommand::PushSpace(_)) => CMD_PUSH_SPACE,
        CommandView::Plain(RenderCommand::PopSpace) => CMD_POP_SPACE,
    }
}

/// The payload of a command.
pub open spec fn command_payload(c: CommandView) -> Seq<u8> {
    match c {
        CommandView::Text { text, x, y, font_size, rgba } => text_payload(
            text,
            x,
            y,
            font_size,
            rgba,
        ),
        CommandView::Plain(RenderCommand::Clear(rgba)) => buffer::words_bytes(rgba_words(rgba)),
        CommandView::Plain(RenderCommand::Draw(d)) => buffer::words_bytes(draw_words(d)),
        CommandView::Plain(RenderCommand::DrawBitmap(d)) => buffer::words_bytes(bitmap_words(d)),
        CommandView::Plain(RenderCommand::PushSpace(space)) => buffer::words_bytes(
            seq![space.number()],
        ),
        CommandView::Plain(RenderCommand::PopSpace) => seq![],
    }
}

/// A command in the stream.
pub open spec fn command_bytes(c: CommandView) -> Seq<u8> {
    framed(command_op(c), command_payload(c))
}

/// Whether a command has a form in the stream: a bitmap is drawn by its app's
/// number for it, and a text must fit a payload.
pub open spec fn streamable(c: CommandView) -> bool {
    match c {
        CommandView::Text { text, .. } => vstd::utf8::encode_utf8(text).len() <= 65505,
        CommandView::Plain(RenderCommand::Draw(d)) => !(d is DrawText) && !(d is DrawBitmap),
        _ => true,
    }
}

/// Writing `b` and then, behind it, `c` is writing both at once.
proof fn overwritten_twice(s: Seq<u8>, pos: int, b: Seq<u8>, c: Seq<u8>)
    requires
        0 <= pos,
        pos + b.len() + c.len() <= s.len(),
    ensures
        overwritten(overwritten(s, pos, b), pos + b.len(), c) == overwritten(s, pos, b + c),
{
    assert(overwritten(overwritten(s, pos, b), pos + b.len(), c) =~= overwritten(s, pos, b + c));
}

fn write_u8(buf: &mut [u8], pos: &mut usize, v: u8)
    requires
        *old(pos) + 1 <= old(buf)@.len(),
    ensures
        *final(pos) == *old(pos) + 1,
        final(buf)@ == overwritten(old(buf)@, *old(pos) as int, seq![v]),
{
    buf[*pos] = v;
    *pos = *pos + 1;
}

pub fn write_u16(buf: &mut [u8], pos: &mut usize, v: u16)
    requires
        *old(pos) + 2 <= old(buf)@.len(),
    ensures
        *final(pos) == *old(pos) + 2,
        final(buf)@ == overwritten(old(buf)@, *old(pos) as int, buffer::le16(v)),
{
    write_u8(buf, pos, (v % 256) as u8);
    write_u8(buf, pos, (v / 256) as u8);
}

pub fn write_u32(buf: &mut [u8], pos: &mut usize, v: u32)
    requires
        *old(pos) + 4 <= old(buf)@.len(),
    ensures
        *final(pos) == *old(pos) + 4,
        final(buf)@ == overwritten(old(buf)@, *old(pos) as int, buffer::le32(v)),
{
    write_u8(buf, pos, (v % 256) as u8);
    write_u8(buf, pos, ((v / 0x100) % 256) as u8);
    write_u8(buf, pos, ((v / 0x1_0000) % 256) as u8);
    write_u8(buf, pos, (v / 0x100_0000) as u8);
}

/// Writes a float, given by its bit pattern.
pub fn write_f32(buf: &mut [u8], pos: &mut usize, v: F32Bits)
    requires
        *old(pos) + 4 <= old(buf)@.len(),
    ensures
        *final(pos) == *old(pos) + 4,
        final(buf)@ == overwritten(old(buf)@, *old(pos) as int, buffer::le32(v)),
{
    write_u32(buf, pos, v);
}

pub fn write_i32(buf: &mut [u8], pos: &mut usize, v: i32)
    requires
        *old(pos) + 4 <= old(buf)@.len(),
    ensures
        *final(pos) == *old(pos) + 4,
        final(buf)@ == overwritten(old(buf)@, *old(pos) as int, buffer::le_i32(v)),
{
    let bits: u32 = if v >= 0 {
        v as u32
    } else {
        (v as i64 + 0x1_0000_0000) as u32
    };
    write_u32(buf, pos, bits);
}

fn write_words(buf: &mut [u8], pos: &mut usize, words: &[u32])
    requires
        *old(pos) + 4 * words@.len() <= old(buf)@.len(),
    ensures
        *final(pos) == *old(pos) + 4 * words@.len(),
        final(buf)@ == overwritten(old(buf)@, *old(pos) as int, buffer::words_bytes(words@)),
{
    let ghost s = buf@;
    let ghost start = *pos as int;
    let mut i: usize = 0;
    assert(words@.take(0) =~= seq![]);
    assert(overwritten(s, start, seq![]) =~= s);
    while i < words.len()
        invariant
            i <= words@.len(),
            start + 4 * words@.len() <= s.len(),
            0 <= start,
            *pos == start + 4 * i,
            buf@ == overwritten(s, start, buffer::words_bytes(words@.take(i as int))),
        decreases words@.len() - i,
    {
        let ghost done = buffer::words_bytes(words@.take(i as int));
        proof {
            buffer::words_bytes_len(words@.take(i as int));
            assert(words@.take(i + 1).drop_last() =~= words@.take(i as int));
            overwritten_twice(s, start, done, buffer::le32(words@[i as int]));
        }
        write_u32(buf, pos, words[i]);
        i = i + 1;
    }
    assert(words@.take(i as int) =~= words@);
}

fn write_command(buf: &mut [u8], pos: &mut usize, opcode: u16, words: &[u32])
    requires
        words@.len() <= 16,
        *old(pos) + 4 + 4 * words@.len() <= old(buf)@.len(),
    ensures
        *final(pos) == *old(pos) + 4 + 4 * words@.len(),
        final(buf)@ == overwritten(
            old(buf)@,
            *old(pos) as int,
            framed(opcode, buffer::words_bytes(words@)),
        ),
{
    let ghost s = buf@;
    let ghost start = *pos as int;
    let payload_len: u16 = (4 * words.len()) as u16;
    proof {
        buffer::words_bytes_len(words@);
        let op = buffer::le16(opcode);
        let len = buffer::le16(payload_len);
        overwritten_twice(s, start, op, len);
        overwritten_twice(s, start, op + len, buffer::words_bytes(words@));
    }
    write_u16(buf, pos, opcode);
    write_u16(buf, pos, payload_len);
    write_words(buf, pos, words);
}

/// Makes the space with number `space_id` the current one.
pub fn write_cmd_push_space(buf: &mut [u8], pos: &mut usize, space_id: u32)
    requires
        *old(pos) + 8 <= old(buf)@.len(),
    ensures
        *final(pos) == *old(pos) + 8,
        final(buf)@ == overwritten(
            old(buf)@,
            *old(pos) as int,
            framed(CMD_PUSH_SPACE, buffer::words_bytes(seq![space_id])),
        ),
{
    let words: [u32; 1] = [space_id];
    assert(words@ =~= seq![space_id]);
    write_command(buf, pos, CMD_PUSH_SPACE, words.as_slice());
}

/// Goes back to the space before the current one.
pub fn write_cmd_pop_space(buf: &mut [u8], pos: &mut usize)
    requires
        *old(pos) + 4 <= old(buf)@.len(),
    ensures
        *final(pos) == *old(pos) + 4,
        final(buf)@ == overwritten(
            old(buf)@,
            *old(pos) as int,
            command_bytes(CommandView::Plain(RenderCommand::PopSpace)),
        ),
{
    let words: [u32; 0] = [];
    assert(words@ =~= seq![]);
    write_command(buf, pos, CMD_POP_SPACE, words.as_slice());
}

/// Fills the current target with a colour.
pub fn write_cmd_clear(
    buf: &mut [u8],
    pos: &mut usize,
    r: F32Bits,
    g: F32Bits,
    b: F32Bits,
    a: F32Bits,
)
    requires
        *old(pos) + 20 <= old(buf)@.len(),
    ensures
        *final(pos) == *old(pos) + 20,
        final(buf)@ == overwritten(
            old(buf)@,
            *old(pos) as int,
            command_bytes(CommandView::Plain(RenderCommand::Clear(Rgba { r, g, b, a }))),
        ),
{
    let words: [u32; 4] = [r, g, b, a];
    assert(words@ =~= rgba_words(Rgba { r, g, b, a }));
    write_command(buf, pos, CMD_CLEAR, words.as_slice());
}

/// Draws a filled rectangle.
pub fn write_cmd_fill_rect(
    buf: &mut [u8],
    pos: &mut usize,
    x: F32Bits,
    y: F32Bits,
    w: F32Bits,
    h: F32Bits,
    r: F32Bits,
    g: F32Bits,
    b: F32Bits,
    a: F32Bits,
)
    requires
        *old(pos) + 36 <= old(buf)@.len(),
    ensures
        *final(pos) == *old(pos) + 36,
        final(buf)@ == overwritten(
            old(buf)@,
            *old(pos) as int,
            command_bytes(
                CommandView::Plain(
                    RenderCommand::Draw(
                        DrawCmd::FillRect {
                            x,
                            y,
                            w,
                            h,
                            rgba: Rgba { r, g, b, a },
                        },
                    ),
                ),
            ),
        ),
{
    let words: [u32; 8] = [x, y, w, h, r, g, b, a];
    assert(words@ =~= draw_words(DrawCmd::FillRect { x, y, w, h, rgba: Rgba { r, g, b, a } }));
    write_command(buf, pos, CMD_FILL_RECT, words.as_slice());
}

/// Draws the outline of a rectangle.
pub fn write_cmd_stroke_rect(
    buf: &mut [u8],
    pos: &mut usize,
    x: F32Bits,
    y: F32Bits,
    w: F32Bits,
    h: F32Bits,
    stroke_width: F32Bits,
    r: F32Bits,
    g: F32Bits,
    b: F32Bits,
    a: F32Bits,
)
    requires
        *old(pos) + 40 <= old(buf)@.len(),
    ensures
        *final(pos) == *old(pos) + 40,
        final(buf)@ == overwritten(
            old(buf)@,
            *old(pos) as int,
            command_bytes(
                CommandView::Plain(
                    RenderCommand::Draw(
                        DrawCmd::StrokeRect {
                            x,
                            y,
                            w,
                            h,
                            stroke_width,
                            rgba: Rgba { r, g, b, a },
                        },
                    ),
                ),
            ),
        ),
{
    let words: [u32; 9] = [x, y, w, h, stroke_width, r, g, b, a];
    assert(words@ =~= draw_words(
        DrawCmd::StrokeRect {
            x,
            y,
            w,
            h,
            stroke_width,
            rgba: Rgba { r, g, b, a },
        },
    ));
    write_command(buf, pos, CMD_STROKE_RECT, words.as_slice());
}

/// Draws a filled rectangle with round corners.
pub fn write_cmd_fill_rounded_rect(
    buf: &mut [u8],
    pos: &mut usize,
    x: F32Bits,
    y: F32Bits,
    w: F32Bits,
    h: F32Bits,
    radius_x: F32Bits,
    radius_y: F32Bits,
    r: F32Bits,
    g: F32Bits,
    b: F32Bits,
    a: F32Bits,
)
    requires
        *old(pos) + 44 <= old(buf)@.len(),
    ensures
        *final(pos) == *old(pos) + 44,
        final(buf)@ == overwritten(
            old(buf)@,
            *old(pos) as int,
            command_bytes(
                CommandView::Plain(
                    RenderCommand::Draw(
                        DrawCmd::FillRoundedRect {
                            x,
                            y,
                            w,
                            h,
                            radius_x,
                            radius_y,
                            rgba: Rgba { r, g, b, a },
                        },
                    ),
                ),
            ),
        ),
{
    let words: [u32; 10] = [x, y, w, h, radius_x, radius_y, r, g, b, a];
    assert(words@ =~= draw_words(
        DrawCmd::FillRoundedRect {
            x,
            y,
            w,
            h,
            radius_x,
            radius_y,
            rgba: Rgba { r, g, b, a },
        },
    ));
    write_command(buf, pos, CMD_FILL_ROUNDED_RECT, words.as_slice());
}

/// Draws the outline of a rectangle with round corners.
pub fn write_cmd_stroke_rounded_rect(
    buf: &mut [u8],
    pos: &mut usize,
    x: F32Bits,
    y: F32Bits,
    w: F32Bits,
    h: F32Bits,
    radius_x: F32Bits,
    radius_y: F32Bits,
    stroke_width: F32Bits,
    r: F32Bits,
    g: F32Bits,
    b: F32Bits,
    a: F32Bits,
)
    requires
        *old(pos) + 48 <= old(buf)@.len(),
    ensures
        *final(pos) == *old(pos) + 48,
        final(buf)@ == overwritten(
            old(buf)@,
            *old(pos) as int,
            command_bytes(
                CommandView::Plain(
                    RenderCommand::Draw(
                        DrawCmd::StrokeRoundedRect {
                            x,
                            y,
                            w,
                            h,
                            radius_x,
                            radius_y,
                            stroke_width,
                            rgba: Rgba { r, g, b, a },
                        },
                    ),
                ),
            ),
        ),
{
    let words: [u32; 11] = [x, y, w, h, radius_x, radius_y, stroke_width, r, g, b, a];
    assert(words@ =~= draw_words(
        DrawCmd::StrokeRoundedRect {
            x,
            y,
            w,
            h,
            radius_x,
            radius_y,
            stroke_width,
            rgba: Rgba { r, g, b, a },
        },
    ));
    write_command(buf, pos, CMD_STROKE_ROUNDED_RECT, words.as_slice());
}

/// Draws a filled ellipse.
pub fn write_cmd_fill_ellipse(
    buf: &mut [u8],
    pos: &mut usize,
    cx: F32Bits,
    cy: F32Bits,
    rx: F32Bits,
    ry: F32Bits,
    r: F32Bits,
    g: F32Bits,
    b: F32Bits,
    a: F32Bits,
)
    requires
        *old(pos) + 36 <= old(buf)@.len(),
    ensures
        *final(pos) == *old(pos) + 36,
        final(buf)@ == overwritten(
            old(buf)@,
            *old(pos) as int,
            command_bytes(
                CommandView::Plain(
                    RenderCommand::Draw(
                        DrawCmd::FillEllipse {
                            cx,
                            cy,
                            rx,
                            ry,
                            rgba: Rgba { r, g, b, a },
                        },
                    ),
                ),
            ),
        ),
{
    let words: [u32; 8] = [cx, cy, rx, ry, r, g, b, a];
    assert(words@ =~= draw_words(
        DrawCmd::FillEllipse {
            cx,
            cy,
            rx,
            ry,
            rgba: Rgba { r, g, b, a },
        },
    ));
    write_command(buf, pos, CMD_FILL_ELLIPSE, words.as_slice());
}

/// Draws the outline of an ellipse.
pub fn write_cmd_stroke_ellipse(
    buf: &mut [u8],
    pos: &mut usize,
    cx: F32Bits,
    cy: F32Bits,
    rx: F32Bits,
    ry: F32Bits,
    stroke_width: F32Bits,
    r: F32Bits,
    g: F32Bits,
    b: F32Bits,
    a: F32Bits,
)
    requires
        *old(pos) + 40 <= old(buf)@.len(),
    ensures
        *final(pos) == *old(pos) + 40,
        final(buf)@ == overwritten(
            old(buf)@,
            *old(pos) as int,
            command_bytes(
                CommandView::Plain(
                    RenderCommand::Draw(
                        DrawCmd::StrokeEllipse {
                            cx,
                            cy,
                            rx,
                            ry,
                            stroke_width,
                            rgba: Rgba { r, g, b, a },
                        },
                    ),
                ),
            ),
        ),
{
    let words: [u32; 9] = [cx, cy, rx, ry, stroke_width, r, g, b, a];
    assert(words@ =~= draw_words(
        DrawCmd::StrokeEllipse {
            cx,
            cy,
            rx,
            ry,
            stroke_width,
            rgba: Rgba { r, g, b, a },
        },
    ));
    write_command(buf, pos, CMD_STROKE_ELLIPSE, words.as_slice());
}

/// Draws a solid line.
pub fn write_cmd_draw_line(
    buf: &mut [u8],
    pos: &mut usize,
    x0: F32Bits,
    y0: F32Bits,
    x1: F32Bits,
    y1: F32Bits,
    stroke_width: F32Bits,
    r: F32Bits,
    g: F32Bits,
    b: F32Bits,
    a: F32Bits,
)
    requires
        *old(pos) + 44 <= old(buf)@.len(),
    ensures
        *final(pos) == *old(pos) + 44,
        final(buf)@ == overwritten(
            old(buf)@,
            *old(pos) as int,
            command_bytes(
                CommandView::Plain(
                    RenderCommand::Draw(
                        DrawCmd::DrawLine {
                            x0,
                            y0,
                            x1,
                            y1,
                            stroke_width,
                            rgba: Rgba { r, g, b, a },
                            dash_style: 0,
                        },
                    ),
                ),
            ),
        ),
{
    let words: [u32; 10] = [x0, y0, x1, y1, stroke_width, r, g, b, a, 0];
    assert(words@ =~= draw_words(
        DrawCmd::DrawLine {
            x0,
            y0,
            x1,
            y1,
            stroke_width,
            rgba: Rgba { r, g, b, a },
            dash_style: 0,
        },
    ));
    write_command(buf, pos, CMD_DRAW_LINE, words.as_slice());
}

/// Draws a text. A text of more than 65535 bytes is cut there; a payload whose
/// length passes 16 bits is announced with the low 16 bits of its length.
pub fn write_cmd_draw_text(
    buf: &mut [u8],
    pos: &mut usize,
    text: &str,
    x: F32Bits,
    y: F32Bits,
    font_size: F32Bits,
    r: F32Bits,
    g: F32Bits,
    b: F32Bits,
    a: F32Bits,
)
    requires
        *old(pos) + 34 + carried(text@).len() <= old(buf)@.len(),
    ensures
        *final(pos) == *old(pos) + 34 + carried(text@).len(),
        final(buf)@ == overwritten(
            old(buf)@,
            *old(pos) as int,
            command_bytes(
                CommandView::Text { text: text@, x, y, font_size, rgba: Rgba { r, g, b, a } },
            ),
        ),
{
    let ghost s = buf@;
    let ghost start = *pos as int;
    let bytes: &[u8] = text.as_bytes();
    let text_len: usize = if bytes.len() < 0xFFFF {
        bytes.len()
    } else {
        0xFFFF
    };
    let words: [u32; 7] = [x, y, font_size, r, g, b, a];
    let ghost fixed = seq![x, y, font_size] + rgba_words(Rgba { r, g, b, a });
    assert(words@ =~= fixed);
    let payload_len: u16 = ((30 + text_len) % 0x1_0000) as u16;
    let ghost text_bytes = bytes@.take(text_len as int);
    proof {
        buffer::words_bytes_len(words@);
        assert(text_bytes == carried(text@));
        let op = buffer::le16(CMD_DRAW_TEXT);
        let len = buffer::le16(payload_len);
        let head = buffer::words_bytes(fixed);
        let count = buffer::le16(text_len as u16);
        overwritten_twice(s, start, op, len);
        overwritten_twice(s, start, op + len, head);
        overwritten_twice(s, start, op + len + head, count);
        overwritten_twice(s, start, op + len + head + count, text_bytes);
        assert(op + len + head + count + text_bytes =~= op + len + (head + count + text_bytes));
    }
    write_u16(buf, pos, CMD_DRAW_TEXT);
    write_u16(buf, pos, payload_len);
    write_words(buf, pos, words.as_slice());
    write_u16(buf, pos, text_len as u16);
    write_bytes(buf, pos, bytes, text_len);
}

fn write_bytes(buf: &mut [u8], pos: &mut usize, bytes: &[u8], n: usize)
    requires
        n <= bytes@.len(),
        *old(pos) + n <= old(buf)@.len(),
    ensures
        *final(pos) == *old(pos) + n,
        final(buf)@ == overwritten(old(buf)@, *old(pos) as int, bytes@.take(n as int)),
{
    let ghost s = buf@;
    let ghost start = *pos as int;
    let mut i: usize = 0;
    assert(overwritten(s, start, bytes@.take(0)) =~= s);
    while i < n
        invariant
            i <= n <= bytes@.len(),
            start + n <= s.len(),
            0 <= start,
            *pos == start + i,
            buf@ == overwritten(s, start, bytes@.take(i as int)),
        decreases n - i,
    {
        proof {
            assert(bytes@.take(i + 1) =~= bytes@.take(i as int) + seq![bytes@[i as int]]);
            overwritten_twice(s, start, bytes@.take(i as int), seq![bytes@[i as int]]);
        }
        write_u8(buf, pos, bytes[i]);
        i = i + 1;
    }
}

/// Draws a bitmap, or the part `src` of it, scaled to `dst`.
pub fn write_cmd_draw_bitmap(
    buf: &mut [u8],
    pos: &mut usize,
    bitmap_id: u32,
    src: (F32Bits, F32Bits, F32Bits, F32Bits),
    dst: (F32Bits, F32Bits, F32Bits, F32Bits),
    opacity: F32Bits,
    interp_mode: i32,
)
    requires
        *old(pos) + 48 <= old(buf)@.len(),
    ensures
        *final(pos) == *old(pos) + 48,
        final(buf)@ == overwritten(
            old(buf)@,
            *old(pos) as int,
            command_bytes(
                CommandView::Plain(
                    RenderCommand::DrawBitmap(
                        BitmapDrawCommand {
                            bitmap_id,
                            src_x: src.0,
                            src_y: src.1,
                            src_w: src.2,
                            src_h: src.3,
                            dst_x: dst.0,
                            dst_y: dst.1,
                            dst_w: dst.2,
                            dst_h: dst.3,
                            opacity,
                            interp_mode,
                        },
                    ),
                ),
            ),
        ),
{
    let mode_bits: u32 = if interp_mode >= 0 {
        interp_mode as u32
    } else {
        (interp_mode as i64 + 0x1_0000_0000) as u32
    };
    let words: [u32; 11] = [
        bitmap_id,
        src.0,
        src.1,
        src.2,
        src.3,
        dst.0,
        dst.1,
        dst.2,
        dst.3,
        opacity,
        mode_bits,
    ];
    let ghost draw = BitmapDrawCommand {
        bitmap_id,
        src_x: src.0,
        src_y: src.1,
        src_w: src.2,
        src_h: src.3,
        dst_x: dst.0,
        dst_y: dst.1,
        dst_w: dst.2,
        dst_h: dst.3,
        opacity,
        interp_mode,
    };
    assert(words@ =~= bitmap_words(draw));
    write_command(buf, pos, CMD_DRAW_BITMAP, words.as_slice());
}

/// Whatever a command's opcode and payload are, the decoder reads that command
/// or nothing from it, and then the rest of the stream from where it starts.
pub proof fn commands_do_not_desync(opcode: u16, payload: Seq<u8>, rest: Seq<u8>)
    requires
        payload.len() <= 0xFFFF,
    ensures
        cmd_decoder::parse_commands(framed(opcode, payload) + rest) == cmd_decoder::at_most_one(
            cmd_decoder::parse_command(opcode, payload),
        ) + cmd_decoder::parse_commands(rest),
{
    let s = framed(opcode, payload) + rest;
    let len = payload.len() as u16;
    buffer::le16_reads_back(opcode);
    buffer::le16_reads_back(len);
    assert(buffer::u16_at(s, 0) == buffer::u16_at(buffer::le16(opcode), 0));
    assert(buffer::u16_at(s, 2) == buffer::u16_at(buffer::le16(len), 0));
    assert(s.subrange(4, 4 + len) =~= payload);
    assert(s.skip(4 + len) =~= rest);
}

/// The words of a list read back wherever the list is the front of a payload.
proof fn front_word(words: Seq<u32>, tail: Seq<u8>, i: int)
    requires
        0 <= i < words.len(),
    ensures
        buffer::u32_at(buffer::words_bytes(words) + tail, 4 * i) == words[i],
{
    buffer::words_read_back(words, i);
    buffer::words_bytes_len(words);
    let s = buffer::words_bytes(words) + tail;
    assert(buffer::u32_at(s, 4 * i) == buffer::u32_at(buffer::words_bytes(words), 4 * i));
}

/// A colour reads back from four consecutive words.
proof fn colour_words(words: Seq<u32>, i: int, c: Rgba)
    requires
        0 <= i,
        i + 4 <= words.len(),
        words.subrange(i, i + 4) == rgba_words(c),
    ensures
        cmd_decoder::rgba_at(buffer::words_bytes(words), 4 * i) == c,
{
    let w = words.subrange(i, i + 4);
    assert(w[0] == words[i] && w[1] == words[i + 1] && w[2] == words[i + 2] && w[3] == words[i
        + 3]);
    buffer::words_read_back(words, i);
    buffer::words_read_back(words, i + 1);
    buffer::words_read_back(words, i + 2);
    buffer::words_read_back(words, i + 3);
}

/// A signed integer reads back from the word that holds its bits.
proof fn signed_word(words: Seq<u32>, i: int, x: i32)
    requires
        0 <= i < words.len(),
        words[i] == buffer::i32_bits(x),
    ensures
        buffer::i32_at(buffer::words_bytes(words), 4 * i) == x,
{
    buffer::words_read_back(words, i);
}

proof fn draw_reads_back(d: DrawCmd)
    requires
        !(d is DrawText),
        !(d is DrawBitmap),
    ensures
        cmd_decoder::parse_command(draw_op(d), buffer::words_bytes(draw_words(d))) == Some(
            CommandView::Plain(RenderCommand::Draw(d)),
        ),
{
    let words = draw_words(d);
    buffer::words_bytes_len(words);
    buffer::words_read_back(words, 0);
    buffer::words_read_back(words, 1);
    buffer::words_read_back(words, 2);
    buffer::words_read_back(words, 3);
    buffer::words_read_back(words, 4);
    buffer::words_read_back(words, 5);
    buffer::words_read_back(words, 6);
    match d {
        DrawCmd::FillRect { rgba, .. } => {
            assert(words.subrange(4, 8) =~= rgba_words(rgba));
            colour_words(words, 4, rgba);
        },
        DrawCmd::StrokeRect { rgba, .. } => {
            assert(words.subrange(5, 9) =~= rgba_words(rgba));
            colour_words(words, 5, rgba);
        },
        DrawCmd::FillRoundedRect { rgba, .. } => {
            assert(words.subrange(6, 10) =~= rgba_words(rgba));
            colour_words(words, 6, rgba);
        },
        DrawCmd::StrokeRoundedRect { rgba, .. } => {
            assert(words.subrange(7, 11) =~= rgba_words(rgba));
            colour_words(words, 7, rgba);
        },
        DrawCmd::FillEllipse { rgba, .. } => {
            assert(words.subrange(4, 8) =~= rgba_words(rgba));
            colour_words(words, 4, rgba);
        },
        DrawCmd::StrokeEllipse { rgba, .. } => {
            assert(words.subrange(5, 9) =~= rgba_words(rgba));
            colour_words(words, 5, rgba);
        },
        DrawCmd::DrawLine { rgba, dash_style, .. } => {
            assert(words.subrange(5, 9) =~= rgba_words(rgba));
            colour_words(words, 5, rgba);
            signed_word(words, 9, dash_style);
        },
        _ => {},
    }
}

proof fn bitmap_reads_back(d: BitmapDrawCommand)
    ensures
        cmd_decoder::parse_command(CMD_DRAW_BITMAP, buffer::words_bytes(bitmap_words(d))) == Some(
            CommandView::Plain(RenderCommand::DrawBitmap(d)),
        ),
{
    let words = bitmap_words(d);
    buffer::words_bytes_len(words);
    buffer::words_read_back(words, 0);
    buffer::words_read_back(words, 1);
    buffer::words_read_back(words, 2);
    buffer::words_read_back(words, 3);
    buffer::words_read_back(words, 4);
    buffer::words_read_back(words, 5);
    buffer::words_read_back(words, 6);
    buffer::words_read_back(words, 7);
    buffer::words_read_back(words, 8);
    buffer::words_read_back(words, 9);
    signed_word(words, 10, d.interp_mode);
}

proof fn text_reads_back(text: Seq<char>, x: F32Bits, y: F32Bits, font_size: F32Bits, rgba: Rgba)
    requires
        vstd::utf8::encode_utf8(text).len() <= 65505,
    ensures
        text_payload(text, x, y, font_size, rgba).len() <= 0xFFFF,
        cmd_decoder::parse_text(text_payload(text, x, y, font_size, rgba)) == Some(
            CommandView::Text { text, x, y, font_size, rgba },
        ),
{
    let bytes = vstd::utf8::encode_utf8(text);
    assert(carried(text) =~= bytes);
    let words = seq![x, y, font_size] + rgba_words(rgba);
    let count = buffer::le16(bytes.len() as u16);
    let p = text_payload(text, x, y, font_size, rgba);
    let tail = count + bytes;
    buffer::words_bytes_len(words);
    buffer::le16_reads_back(bytes.len() as u16);
    assert(p =~= buffer::words_bytes(words) + tail);
    front_word(words, tail, 0);
    front_word(words, tail, 1);
    front_word(words, tail, 2);
    front_word(words, tail, 3);
    front_word(words, tail, 4);
    front_word(words, tail, 5);
    front_word(words, tail, 6);
    assert(buffer::u16_at(p, 28) == buffer::u16_at(count, 0));
    assert(p.skip(30) =~= bytes);
    vstd::utf8::encode_utf8_valid_utf8(text);
    vstd::utf8::encode_utf8_decode_utf8(text);
}

/// A command's payload reads back as that command.
pub proof fn payload_reads_back(c: CommandView)
    requires
        streamable(c),
    ensures
        command_payload(c).len() <= 0xFFFF,
        cmd_decoder::parse_command(command_op(c), command_payload(c)) == Some(c),
{
    match c {
        CommandView::Text { text, x, y, font_size, rgba } => {
            text_reads_back(text, x, y, font_size, rgba);
        },
        CommandView::Plain(RenderCommand::Clear(rgba)) => {
            let words = rgba_words(rgba);
            buffer::words_bytes_len(words);
            assert(words.subrange(0, 4) =~= words);
            colour_words(words, 0, rgba);
        },
        CommandView::Plain(RenderCommand::Draw(d)) => {
            buffer::words_bytes_len(draw_words(d));
            draw_reads_back(d);
        },
        CommandView::Plain(RenderCommand::DrawBitmap(d)) => {
            buffer::words_bytes_len(bitmap_words(d));
            bitmap_reads_back(d);
        },
        CommandView::Plain(RenderCommand::PushSpace(space)) => {
            let words = seq![space.number()];
            buffer::words_bytes_len(words);
            buffer::words_read_back(words, 0);
        },
        CommandView::Plain(RenderCommand::PopSpace) => {},
    }
}

/// A written command reads back as that command, and the stream behind it is
/// read as if it stood alone.
pub proof fn command_reads_back(c: CommandView, rest: Seq<u8>)
    requires
        streamable(c),
    ensures
        cmd_decoder::parse_commands(command_bytes(c) + rest) == seq![c]
            + cmd_decoder::parse_commands(rest),
{
    payload_reads_back(c);
    commands_do_not_desync(command_op(c), command_payload(c), rest);
}

/// The stream of a sequence of commands.
pub open spec fn stream_bytes(commands: Seq<CommandView>) -> Seq<u8>
    decreases commands.len(),
{
    if commands.len() == 0 {
        seq![]
    } else {
        command_bytes(commands[0]) + stream_bytes(commands.skip(1))
    }
}

/// A written stream reads back command by command.
pub proof fn stream_reads_back(commands: Seq<CommandView>)
    requires
        forall|i: int| 0 <= i < commands.len() ==> streamable(#[trigger] commands[i]),
    ensures
        cmd_decoder::parse_commands(stream_bytes(commands)) == commands,
    decreases commands.len(),
{
    if commands.len() > 0 {
        assert forall|i: int| 0 <= i < commands.skip(1).len() implies streamable(
            #[trigger] commands.skip(1)[i],
        ) by {
            assert(commands.skip(1)[i] == commands[i + 1]);
        }
        stream_reads_back(commands.skip(1));
        command_reads_back(commands[0], stream_bytes(commands.skip(1)));
        assert(seq![commands[0]] + commands.skip(1) =~= commands);
    }
}

} // verus!
