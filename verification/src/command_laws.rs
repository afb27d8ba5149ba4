//! Where each value lies in the bytes of a frame's commands, and what is written for
//! each of them.

use vstd::prelude::*;

use crate::buffer;
use crate::cmd_decoder;
use crate::cmd_decoder::{BitmapDrawCommand, CommandView, DrawCmd, RenderCommand, Rgba, SpaceId};
use crate::cmd_writer;

verus! {

/// Every command is what it is seen as: a text is seen as its characters.
pub proof fn commands_are_seen_whole(c: RenderCommand, list: Seq<RenderCommand>, i: int)
    requires
        0 <= i < list.len(),
    ensures
        c matches RenderCommand::Draw(DrawCmd::DrawText { text, x, y, font_size, rgba }) ==> c@ == (
        CommandView::Text { text: text@, x, y, font_size, rgba }),
        !(c matches RenderCommand::Draw(d) && d is DrawText) ==> c@ == CommandView::Plain(c),
        cmd_decoder::views(list).len() == list.len(),
        cmd_decoder::views(list)[i] == list[i]@,
{
}

/// A command begins with two bytes for what it is and two for the length of what
/// follows.
pub proof fn commands_begin_with_a_header(c: CommandView)
    requires
        cmd_writer::streamable(c),
    ensures
        ({
            let b = cmd_writer::command_bytes(c);
            let p = cmd_writer::command_payload(c);
            &&& b.len() == 4 + p.len()
            &&& buffer::u16_at(b, 0) == match c {
                CommandView::Text { .. } => 0x010Bu16,
                CommandView::Plain(RenderCommand::Clear(_)) => 0x0101u16,
                CommandView::Plain(RenderCommand::Draw(DrawCmd::FillRect { .. })) => 0x0102u16,
                CommandView::Plain(RenderCommand::Draw(DrawCmd::StrokeRect { .. })) => 0x0103u16,
                CommandView::Plain(RenderCommand::Draw(DrawCmd::FillRoundedRect { .. })) =>
                    0x0104u16,
                CommandView::Plain(RenderCommand::Draw(DrawCmd::StrokeRoundedRect { .. })) =>
                    0x0105u16,
                CommandView::Plain(RenderCommand::Draw(DrawCmd::FillEllipse { .. })) => 0x0106u16,
                CommandView::Plain(RenderCommand::Draw(DrawCmd::StrokeEllipse { .. })) => 0x0107u16,
                CommandView::Plain(RenderCommand::Draw(DrawCmd::DrawLine { .. })) => 0x0108u16,
                CommandView::Plain(RenderCommand::Draw(DrawCmd::DrawText { .. })) => 0x010Bu16,
                CommandView::Plain(RenderCommand::Draw(DrawCmd::DrawBitmap { .. })) => 0x010Cu16,
                CommandView::Plain(RenderCommand::DrawBitmap(_)) => 0x010Cu16,
                CommandView::Plain(RenderCommand::PushSpace(_)) => 0x0109u16,
                CommandView::Plain(RenderCommand::PopSpace) => 0x010Au16,
            }
            &&& buffer::u16_at(b, 2) == p.len()
            &&& b.skip(4) == p
        }),
{
    cmd_writer::payload_reads_back(c);
    framing_reads_back(cmd_writer::command_op(c), cmd_writer::command_payload(c));
}

/// A header says what follows and how long it is.
proof fn framing_reads_back(opcode: u16, payload: Seq<u8>)
    requires
        payload.len() <= 0xFFFF,
    ensures
        ({
            let b = cmd_writer::framed(opcode, payload);
            &&& b.len() == 4 + payload.len()
            &&& buffer::u16_at(b, 0) == opcode
            &&& buffer::u16_at(b, 2) == payload.len()
            &&& b.skip(4) == payload
        }),
{
    let b = cmd_writer::framed(opcode, payload);
    buffer::le16_reads_back(opcode);
    buffer::le16_reads_back(payload.len() as u16);
    assert(b.skip(4) =~= payload);
}

/// The payload of a command holds its values in this order, four bytes for each: the
/// place and size, or the ends of a line, then radii and the width of the stroke
/// where it has them, then red, green, blue and alpha, and at the end of a line its
/// dashes.
pub proof fn commands_are_laid_out(c: RenderCommand)
    ensures
        ({
            let b = cmd_writer::command_payload(CommandView::Plain(c));
            &&& c matches RenderCommand::Clear(q) ==> b.len() == 16 && colour_lies_at(b, 0, q)
            &&& c matches RenderCommand::Draw(DrawCmd::FillRect { x, y, w, h, rgba }) ==> {
                &&& b.len() == 32
                &&& buffer::u32_at(b, 0) == x
                &&& buffer::u32_at(b, 4) == y
                &&& buffer::u32_at(b, 8) == w
                &&& buffer::u32_at(b, 12) == h
                &&& colour_lies_at(b, 16, rgba)
            }
            &&& c matches RenderCommand::Draw(
                DrawCmd::StrokeRect { x, y, w, h, stroke_width, rgba },
            ) ==> {
                &&& b.len() == 36
                &&& buffer::u32_at(b, 0) == x
                &&& buffer::u32_at(b, 4) == y
                &&& buffer::u32_at(b, 8) == w
                &&& buffer::u32_at(b, 12) == h
                &&& buffer::u32_at(b, 16) == stroke_width
                &&& colour_lies_at(b, 20, rgba)
            }
            &&& c matches RenderCommand::Draw(
                DrawCmd::FillRoundedRect { x, y, w, h, radius_x, radius_y, rgba },
            ) ==> {
                &&& b.len() == 40
                &&& buffer::u32_at(b, 0) == x
                &&& buffer::u32_at(b, 4) == y
                &&& buffer::u32_at(b, 8) == w
                &&& buffer::u32_at(b, 12) == h
                &&& buffer::u32_at(b, 16) == radius_x
                &&& buffer::u32_at(b, 20) == radius_y
                &&& colour_lies_at(b, 24, rgba)
            }
            &&& c matches RenderCommand::Draw(
                DrawCmd::StrokeRoundedRect { x, y, w, h, radius_x, radius_y, stroke_width, rgba },
            ) ==> {
                &&& b.len() == 44
                &&& buffer::u32_at(b, 0) == x
                &&& buffer::u32_at(b, 4) == y
                &&& buffer::u32_at(b, 8) == w
                &&& buffer::u32_at(b, 12) == h
                &&& buffer::u32_at(b, 16) == radius_x
                &&& buffer::u32_at(b, 20) == radius_y
                &&& buffer::u32_at(b, 24) == stroke_width
                &&& colour_lies_at(b, 28, rgba)
            }
            &&& c matches RenderCommand::Draw(DrawCmd::FillEllipse { cx, cy, rx, ry, rgba }) ==> {
                &&& b.len() == 32
                &&& buffer::u32_at(b, 0) == cx
                &&& buffer::u32_at(b, 4) == cy
                &&& buffer::u32_at(b, 8) == rx
                &&& buffer::u32_at(b, 12) == ry
                &&& colour_lies_at(b, 16, rgba)
            }
            &&& c matches RenderCommand::Draw(
                DrawCmd::StrokeEllipse { cx, cy, rx, ry, stroke_width, rgba },
            ) ==> {
                &&& b.len() == 36
                &&& buffer::u32_at(b, 0) == cx
                &&& buffer::u32_at(b, 4) == cy
                &&& buffer::u32_at(b, 8) == rx
                &&& buffer::u32_at(b, 12) == ry
                &&& buffer::u32_at(b, 16) == stroke_width
                &&& colour_lies_at(b, 20, rgba)
            }
            &&& c matches RenderCommand::Draw(
                DrawCmd::DrawLine { x0, y0, x1, y1, stroke_width, rgba, dash_style },
            ) ==> {
                &&& b.len() == 40
                &&& buffer::u32_at(b, 0) == x0
                &&& buffer::u32_at(b, 4) == y0
                &&& buffer::u32_at(b, 8) == x1
                &&& buffer::u32_at(b, 12) == y1
                &&& buffer::u32_at(b, 16) == stroke_width
                &&& colour_lies_at(b, 20, rgba)
                &&& buffer::i32_at(b, 36) == dash_style
            }
            &&& c matches RenderCommand::DrawBitmap(d) ==> {
                &&& b.len() == 44
                &&& buffer::u32_at(b, 0) == d.bitmap_id
                &&& buffer::u32_at(b, 4) == d.src_x
                &&& buffer::u32_at(b, 8) == d.src_y
                &&& buffer::u32_at(b, 12) == d.src_w
                &&& buffer::u32_at(b, 16) == d.src_h
                &&& buffer::u32_at(b, 20) == d.dst_x
                &&& buffer::u32_at(b, 24) == d.dst_y
                &&& buffer::u32_at(b, 28) == d.dst_w
                &&& buffer::u32_at(b, 32) == d.dst_h
                &&& buffer::u32_at(b, 36) == d.opacity
                &&& buffer::i32_at(b, 40) == d.interp_mode
            }
            &&& c matches RenderCommand::PushSpace(s) ==> {
                &&& b.len() == 4
                &&& s is World ==> buffer::u32_at(b, 0) == 0
                &&& s is MonitorLocal ==> buffer::u32_at(b, 0) == 1
            }
            &&& c is PopSpace ==> b.len() == 0
        }),
{
    let v = CommandView::Plain(c);
    if cmd_writer::streamable(v) {
        cmd_writer::payload_reads_back(v);
    }
}

/// Whether a colour lies at a place: red, green, blue and alpha in this order.
pub open spec fn colour_lies_at(b: Seq<u8>, i: int, c: Rgba) -> bool {
    &&& buffer::u32_at(b, i) == c.r
    &&& buffer::u32_at(b, i + 4) == c.g
    &&& buffer::u32_at(b, i + 8) == c.b
    &&& buffer::u32_at(b, i + 12) == c.a
}

/// A text holds its place, the size of its letters and its colour, then the number
/// of its bytes and those bytes: all of them, or the first sixty-five thousand five
/// hundred and thirty-five.
pub proof fn texts_are_laid_out(text: Seq<char>, x: u32, y: u32, font_size: u32, rgba: Rgba)
    ensures
        ({
            let b = cmd_writer::text_payload(text, x, y, font_size, rgba);
            let all = vstd::utf8::encode_utf8(text);
            let n = if all.len() < 0xFFFF {
                all.len() as int
            } else {
                0xFFFFint
            };
            &&& b.len() == 30 + n
            &&& buffer::u32_at(b, 0) == x
            &&& buffer::u32_at(b, 4) == y
            &&& buffer::u32_at(b, 8) == font_size
            &&& buffer::u32_at(b, 12) == rgba.r
            &&& buffer::u32_at(b, 16) == rgba.g
            &&& buffer::u32_at(b, 20) == rgba.b
            &&& buffer::u32_at(b, 24) == rgba.a
            &&& buffer::u16_at(b, 28) == n
            &&& b.skip(30) == all.take(n)
        }),
{
    let b = cmd_writer::text_payload(text, x, y, font_size, rgba);
    let words = seq![x, y, font_size] + cmd_writer::rgba_words(rgba);
    let front = buffer::words_bytes(words);
    let carried = cmd_writer::carried(text);
    buffer::words_bytes_len(words);
    assert(words.len() == 7);
    assert(words[0] == x && words[1] == y && words[2] == font_size);
    assert(words[3] == rgba.r && words[4] == rgba.g && words[5] == rgba.b && words[6] == rgba.a);
    buffer::words_read_back(words, 0);
    buffer::words_read_back(words, 1);
    buffer::words_read_back(words, 2);
    buffer::words_read_back(words, 3);
    buffer::words_read_back(words, 4);
    buffer::words_read_back(words, 5);
    buffer::words_read_back(words, 6);
    assert forall|i: int| 0 <= i < 28 implies #[trigger] b[i] == front[i] by {}
    buffer::le16_reads_back(carried.len() as u16);
    assert(b[28] == buffer::le16(carried.len() as u16)[0]);
    assert(b[29] == buffer::le16(carried.len() as u16)[1]);
    assert(b.skip(30) =~= carried);
}

/// The spaces have their numbers; any other number is no space.
pub proof fn spaces_have_their_numbers(v: u32, r: Option<SpaceId>)
    requires
        call_ensures(SpaceId::from_u32, (v,), r),
    ensures
        v == 0 ==> r == Some(SpaceId::World),
        v == 1 ==> r == Some(SpaceId::MonitorLocal),
        v > 1 ==> r is None,
        SpaceId::World.number() == 0,
        SpaceId::MonitorLocal.number() == 1,
{
}

/// A command whose payload has not the length that it should have, or whose space or
/// kind is not known, is passed over; so is a text that is cut off or is no text.
pub proof fn broken_commands_are_passed_over(opcode: u16, p: Seq<u8>)
    ensures
        opcode == 0x0101 && p.len() != 16 ==> cmd_decoder::parse_command(opcode, p) is None,
        (opcode == 0x0102 || opcode == 0x0106) && p.len() != 32 ==> cmd_decoder::parse_command(
            opcode,
            p,
        ) is None,
        (opcode == 0x0103 || opcode == 0x0107) && p.len() != 36 ==> cmd_decoder::parse_command(
            opcode,
            p,
        ) is None,
        (opcode == 0x0104 || opcode == 0x0108) && p.len() != 40 ==> cmd_decoder::parse_command(
            opcode,
            p,
        ) is None,
        (opcode == 0x0105 || opcode == 0x010C) && p.len() != 44 ==> cmd_decoder::parse_command(
            opcode,
            p,
        ) is None,
        opcode == 0x0109 && p.len() != 4 ==> cmd_decoder::parse_command(opcode, p) is None,
        opcode == 0x0109 && buffer::u32_at(p, 0) > 1 ==> cmd_decoder::parse_command(
            opcode,
            p,
        ) is None,
        opcode == 0x010A && p.len() != 0 ==> cmd_decoder::parse_command(opcode, p) is None,
        opcode == 0x010B && (p.len() < 30 || p.len() != 30 + buffer::u16_at(p, 28)
            || !vstd::utf8::valid_utf8(p.skip(30))) ==> cmd_decoder::parse_command(opcode, p)
            is None,
        opcode < 0x0101 || opcode > 0x010C ==> cmd_decoder::parse_command(opcode, p) is None,
{
}

/// A frame's bytes are read command by command: each header says how far the next
/// one is. They end where a header or what it announces is cut off.
pub proof fn frames_are_read_command_by_command(s: Seq<u8>)
    ensures
        s.len() < 4 ==> cmd_decoder::parse_commands(s).len() == 0,
        s.len() >= 4 && s.len() < 4 + buffer::u16_at(s, 2) ==> cmd_decoder::parse_commands(s).len()
            == 0,
        s.len() >= 4 + buffer::u16_at(s, 2) && s.len() >= 4 ==> {
            let end = 4 + buffer::u16_at(s, 2);
            let first = cmd_decoder::parse_command(buffer::u16_at(s, 0), s.subrange(4, end));
            &&& first matches Some(c) ==> cmd_decoder::parse_commands(s) == seq![c]
                + cmd_decoder::parse_commands(s.skip(end))
            &&& first is None ==> cmd_decoder::parse_commands(s) == cmd_decoder::parse_commands(
                s.skip(end),
            )
        },
{
    if s.len() >= 4 && s.len() >= 4 + buffer::u16_at(s, 2) {
        let end = 4 + buffer::u16_at(s, 2);
        let rest = cmd_decoder::parse_commands(s.skip(end));
        assert(Seq::<CommandView>::empty() + rest =~= rest);
    }
}

/// A number is written at its place, least significant byte first, and the place
/// moves behind it; the other bytes stay.
pub proof fn numbers_are_written_in_place(
    words: &mut [u8],
    at: &mut usize,
    v: u32,
    signed: &mut [u8],
    signed_at: &mut usize,
    n: i32,
    halves: &mut [u8],
    half_at: &mut usize,
    u: u16,
    bits: &mut [u8],
    bits_at: &mut usize,
    f: u32,
)
    requires
        call_ensures(cmd_writer::write_u32, (words, at, v), ()),
        *old(at) + 4 <= old(words)@.len(),
        call_ensures(cmd_writer::write_i32, (signed, signed_at, n), ()),
        *old(signed_at) + 4 <= old(signed)@.len(),
        call_ensures(cmd_writer::write_u16, (halves, half_at, u), ()),
        *old(half_at) + 2 <= old(halves)@.len(),
        call_ensures(cmd_writer::write_f32, (bits, bits_at, f), ()),
        *old(bits_at) + 4 <= old(bits)@.len(),
    ensures
        *final(at) == *old(at) + 4,
        final(words)@.len() == old(words)@.len(),
        buffer::u32_at(final(words)@, *old(at) as int) == v,
        final(words)@.take(*old(at) as int) == old(words)@.take(*old(at) as int),
        final(words)@.skip(*old(at) + 4) == old(words)@.skip(*old(at) + 4),
        *final(signed_at) == *old(signed_at) + 4,
        buffer::i32_at(final(signed)@, *old(signed_at) as int) == n,
        *final(half_at) == *old(half_at) + 2,
        buffer::u16_at(final(halves)@, *old(half_at) as int) == u,
        *final(bits_at) == *old(bits_at) + 4,
        buffer::u32_at(final(bits)@, *old(bits_at) as int) == f,
{
    buffer::le32_reads_back(v);
    buffer::le_i32_reads_back(n);
    buffer::le16_reads_back(u);
    buffer::le32_reads_back(f);
    assert(final(words)@.take(*old(at) as int) =~= old(words)@.take(*old(at) as int));
    assert(final(words)@.skip(*old(at) + 4) =~= old(words)@.skip(*old(at) + 4));
}

/// What is written over a part of a region reads back as that command, and the rest
/// of the region is as it was.
proof fn written_commands_read_back(before: Seq<u8>, at: int, c: CommandView)
    requires
        cmd_writer::streamable(c),
        0 <= at,
        at + cmd_writer::command_bytes(c).len() <= before.len(),
    ensures
        ({
            let after = cmd_writer::overwritten(before, at, cmd_writer::command_bytes(c));
            let end = at + cmd_writer::command_bytes(c).len();
            &&& after.len() == before.len()
            &&& after.take(at) == before.take(at)
            &&& after.skip(end) == before.skip(end)
            &&& cmd_decoder::parse_commands(after.subrange(at, end)) == seq![c]
        }),
{
    let b = cmd_writer::command_bytes(c);
    let after = cmd_writer::overwritten(before, at, b);
    let end = at + b.len();
    assert(after.take(at) =~= before.take(at));
    assert(after.skip(end) =~= before.skip(end));
    assert(after.subrange(at, end) =~= b + seq![]);
    cmd_writer::command_reads_back(c, seq![]);
    assert(cmd_decoder::parse_commands(seq![]) =~= seq![]);
    assert(seq![c] + cmd_decoder::parse_commands(seq![]) =~= seq![c]);
}

/// What a region holds once a command was written at a place: that command from
/// there to where the place is now, and all else as before.
pub open spec fn holds_the_command(
    before: Seq<u8>,
    from: int,
    after: Seq<u8>,
    to: int,
    c: CommandView,
) -> bool {
    &&& from < to <= after.len()
    &&& after.len() == before.len()
    &&& after.take(from) == before.take(from)
    &&& after.skip(to) == before.skip(to)
    &&& cmd_decoder::parse_commands(after.subrange(from, to)) == seq![c]
}

/// A clear, a push and a pop are written as what they are asked for, with each value
/// in its own place, behind what is there.
pub proof fn written_clears_and_spaces_read_back(
    buf: &mut [u8],
    pos: &mut usize,
    r: u32,
    g: u32,
    b: u32,
    a: u32,
    push_buf: &mut [u8],
    push_pos: &mut usize,
    space: SpaceId,
    pop_buf: &mut [u8],
    pop_pos: &mut usize,
)
    requires
        call_ensures(cmd_writer::write_cmd_clear, (buf, pos, r, g, b, a), ()),
        *old(pos) + 20 <= old(buf)@.len(),
        call_ensures(
            cmd_writer::write_cmd_push_space,
            (push_buf, push_pos, if space is World {
                0u32
            } else {
                1u32
            }),
            (),
        ),
        *old(push_pos) + 8 <= old(push_buf)@.len(),
        call_ensures(cmd_writer::write_cmd_pop_space, (pop_buf, pop_pos), ()),
        *old(pop_pos) + 4 <= old(pop_buf)@.len(),
    ensures
        holds_the_command(
            old(buf)@,
            *old(pos) as int,
            final(buf)@,
            *final(pos) as int,
            CommandView::Plain(RenderCommand::Clear(Rgba { r, g, b, a })),
        ),
        holds_the_command(
            old(push_buf)@,
            *old(push_pos) as int,
            final(push_buf)@,
            *final(push_pos) as int,
            CommandView::Plain(RenderCommand::PushSpace(space)),
        ),
        holds_the_command(
            old(pop_buf)@,
            *old(pop_pos) as int,
            final(pop_buf)@,
            *final(pop_pos) as int,
            CommandView::Plain(RenderCommand::PopSpace),
        ),
{
    let clear = CommandView::Plain(RenderCommand::Clear(Rgba { r, g, b, a }));
    let push = CommandView::Plain(RenderCommand::PushSpace(space));
    let pop = CommandView::Plain(RenderCommand::PopSpace);
    commands_are_laid_out(RenderCommand::Clear(Rgba { r, g, b, a }));
    commands_are_laid_out(RenderCommand::PushSpace(space));
    commands_begin_with_a_header(clear);
    commands_begin_with_a_header(push);
    commands_begin_with_a_header(pop);
    written_commands_read_back(old(buf)@, *old(pos) as int, clear);
    written_commands_read_back(old(push_buf)@, *old(push_pos) as int, push);
    written_commands_read_back(old(pop_buf)@, *old(pop_pos) as int, pop);
}

/// Rectangles are written as what they are asked for, with each value in its own
/// place.
pub proof fn written_rectangles_read_back(
    fill: &mut [u8],
    fill_pos: &mut usize,
    stroke: &mut [u8],
    stroke_pos: &mut usize,
    x: u32,
    y: u32,
    w: u32,
    h: u32,
    stroke_width: u32,
    r: u32,
    g: u32,
    b: u32,
    a: u32,
)
    requires
        call_ensures(
            cmd_writer::write_cmd_fill_rect,
            (fill, fill_pos, x, y, w, h, r, g, b, a),
            (),
        ),
        *old(fill_pos) + 36 <= old(fill)@.len(),
        call_ensures(
            cmd_writer::write_cmd_stroke_rect,
            (stroke, stroke_pos, x, y, w, h, stroke_width, r, g, b, a),
            (),
        ),
        *old(stroke_pos) + 40 <= old(stroke)@.len(),
    ensures
        holds_the_command(
            old(fill)@,
            *old(fill_pos) as int,
            final(fill)@,
            *final(fill_pos) as int,
            CommandView::Plain(
                RenderCommand::Draw(DrawCmd::FillRect { x, y, w, h, rgba: Rgba { r, g, b, a } }),
            ),
        ),
        holds_the_command(
            old(stroke)@,
            *old(stroke_pos) as int,
            final(stroke)@,
            *final(stroke_pos) as int,
            CommandView::Plain(
                RenderCommand::Draw(
                    DrawCmd::StrokeRect { x, y, w, h, stroke_width, rgba: Rgba { r, g, b, a } },
                ),
            ),
        ),
{
    let rgba = Rgba { r, g, b, a };
    let f = RenderCommand::Draw(DrawCmd::FillRect { x, y, w, h, rgba });
    let s = RenderCommand::Draw(DrawCmd::StrokeRect { x, y, w, h, stroke_width, rgba });
    commands_are_laid_out(f);
    commands_are_laid_out(s);
    commands_begin_with_a_header(CommandView::Plain(f));
    commands_begin_with_a_header(CommandView::Plain(s));
    written_commands_read_back(old(fill)@, *old(fill_pos) as int, CommandView::Plain(f));
    written_commands_read_back(old(stroke)@, *old(stroke_pos) as int, CommandView::Plain(s));
}

/// Rounded rectangles are written as what they are asked for, with each value in its
/// own place.
pub proof fn written_rounded_rectangles_read_back(
    fill: &mut [u8],
    fill_pos: &mut usize,
    stroke: &mut [u8],
    stroke_pos: &mut usize,
    x: u32,
    y: u32,
    w: u32,
    h: u32,
    radius_x: u32,
    radius_y: u32,
    stroke_width: u32,
    r: u32,
    g: u32,
    b: u32,
    a: u32,
)
    requires
        call_ensures(
            cmd_writer::write_cmd_fill_rounded_rect,
            (fill, fill_pos, x, y, w, h, radius_x, radius_y, r, g, b, a),
            (),
        ),
        *old(fill_pos) + 44 <= old(fill)@.len(),
        call_ensures(
            cmd_writer::write_cmd_stroke_rounded_rect,
            (stroke, stroke_pos, x, y, w, h, radius_x, radius_y, stroke_width, r, g, b, a),
            (),
        ),
        *old(stroke_pos) + 48 <= old(stroke)@.len(),
    ensures
        holds_the_command(
            old(fill)@,
            *old(fill_pos) as int,
            final(fill)@,
            *final(fill_pos) as int,
            CommandView::Plain(
                RenderCommand::Draw(
                    DrawCmd::FillRoundedRect {
                        x,
                        y,
                        w,
                        h,
                        radius_x,
                        radius_y,
                        rgba: Rgba { r, g, b, a },
                    },
                ),
            ),
        ),
        holds_the_command(
            old(stroke)@,
            *old(stroke_pos) as int,
            final(stroke)@,
            *final(stroke_pos) as int,
            CommandView::Plain(
                RenderCommand::Draw(
                    DrawCmd::StrokeRoundedRect {
                        x,
                        y,
                        w,
                        h,
                        radius_x,
                        radius_y,
                        stroke_width,
                        rgba: Rgba { r, g, b, a },
                    },
                ),
            ),
        ),
{
    let rgba = Rgba { r, g, b, a };
    let f = RenderCommand::Draw(DrawCmd::FillRoundedRect { x, y, w, h, radius_x, radius_y, rgba });
    let s = RenderCommand::Draw(
        DrawCmd::StrokeRoundedRect { x, y, w, h, radius_x, radius_y, stroke_width, rgba },
    );
    commands_are_laid_out(f);
    commands_are_laid_out(s);
    commands_begin_with_a_header(CommandView::Plain(f));
    commands_begin_with_a_header(CommandView::Plain(s));
    written_commands_read_back(old(fill)@, *old(fill_pos) as int, CommandView::Plain(f));
    written_commands_read_back(old(stroke)@, *old(stroke_pos) as int, CommandView::Plain(s));
}

/// Ellipses are written as what they are asked for, with each value in its own place.
pub proof fn written_ellipses_read_back(
    fill: &mut [u8],
    fill_pos: &mut usize,
    stroke: &mut [u8],
    stroke_pos: &mut usize,
    cx: u32,
    cy: u32,
    rx: u32,
    ry: u32,
    stroke_width: u32,
    r: u32,
    g: u32,
    b: u32,
    a: u32,
)
    requires
        call_ensures(
            cmd_writer::write_cmd_fill_ellipse,
            (fill, fill_pos, cx, cy, rx, ry, r, g, b, a),
            (),
        ),
        *old(fill_pos) + 36 <= old(fill)@.len(),
        call_ensures(
            cmd_writer::write_cmd_stroke_ellipse,
            (stroke, stroke_pos, cx, cy, rx, ry, stroke_width, r, g, b, a),
            (),
        ),
        *old(stroke_pos) + 40 <= old(stroke)@.len(),
    ensures
        holds_the_command(
            old(fill)@,
            *old(fill_pos) as int,
            final(fill)@,
            *final(fill_pos) as int,
            CommandView::Plain(
                RenderCommand::Draw(
                    DrawCmd::FillEllipse { cx, cy, rx, ry, rgba: Rgba { r, g, b, a } },
                ),
            ),
        ),
        holds_the_command(
            old(stroke)@,
            *old(stroke_pos) as int,
            final(stroke)@,
            *final(stroke_pos) as int,
            CommandView::Plain(
                RenderCommand::Draw(
                    DrawCmd::StrokeEllipse {
                        cx,
                        cy,
                        rx,
                        ry,
                        stroke_width,
                        rgba: Rgba { r, g, b, a },
                    },
                ),
            ),
        ),
{
    let rgba = Rgba { r, g, b, a };
    let f = RenderCommand::Draw(DrawCmd::FillEllipse { cx, cy, rx, ry, rgba });
    let s = RenderCommand::Draw(DrawCmd::StrokeEllipse { cx, cy, rx, ry, stroke_width, rgba });
    commands_are_laid_out(f);
    commands_are_laid_out(s);
    commands_begin_with_a_header(CommandView::Plain(f));
    commands_begin_with_a_header(CommandView::Plain(s));
    written_commands_read_back(old(fill)@, *old(fill_pos) as int, CommandView::Plain(f));
    written_commands_read_back(old(stroke)@, *old(stroke_pos) as int, CommandView::Plain(s));
}

/// Lines, which are written without dashes, and bitmaps are written as what they are
/// asked for, with each value in its own place.
pub proof fn written_lines_and_bitmaps_read_back(
    line: &mut [u8],
    line_pos: &mut usize,
    x0: u32,
    y0: u32,
    x1: u32,
    y1: u32,
    stroke_width: u32,
    r: u32,
    g: u32,
    b: u32,
    a: u32,
    bitmap: &mut [u8],
    bitmap_pos: &mut usize,
    bitmap_id: u32,
    src: (u32, u32, u32, u32),
    dst: (u32, u32, u32, u32),
    opacity: u32,
    interp_mode: i32,
)
    requires
        call_ensures(
            cmd_writer::write_cmd_draw_line,
            (line, line_pos, x0, y0, x1, y1, stroke_width, r, g, b, a),
            (),
        ),
        *old(line_pos) + 44 <= old(line)@.len(),
        call_ensures(
            cmd_writer::write_cmd_draw_bitmap,
            (bitmap, bitmap_pos, bitmap_id, src, dst, opacity, interp_mode),
            (),
        ),
        *old(bitmap_pos) + 48 <= old(bitmap)@.len(),
    ensures
        holds_the_command(
            old(line)@,
            *old(line_pos) as int,
            final(line)@,
            *final(line_pos) as int,
            CommandView::Plain(
                RenderCommand::Draw(
                    DrawCmd::DrawLine {
                        x0,
                        y0,
                        x1,
                        y1,
                        stroke_width,
                        rgba: Rgba { r, g, b, a },
                        dash_style: 0,
                    },
                ),
            ),
        ),
        ({
            let (src_x, src_y, src_w, src_h) = src;
            let (dst_x, dst_y, dst_w, dst_h) = dst;
            holds_the_command(
                old(bitmap)@,
                *old(bitmap_pos) as int,
                final(bitmap)@,
                *final(bitmap_pos) as int,
                CommandView::Plain(
                    RenderCommand::DrawBitmap(
                        BitmapDrawCommand {
                            bitmap_id,
                            src_x,
                            src_y,
                            src_w,
                            src_h,
                            dst_x,
                            dst_y,
                            dst_w,
                            dst_h,
                            opacity,
                            interp_mode,
                        },
                    ),
                ),
            )
        }),
{
    let rgba = Rgba { r, g, b, a };
    let l = RenderCommand::Draw(
        DrawCmd::DrawLine { x0, y0, x1, y1, stroke_width, rgba, dash_style: 0 },
    );
    let (src_x, src_y, src_w, src_h) = src;
    let (dst_x, dst_y, dst_w, dst_h) = dst;
    let d = RenderCommand::DrawBitmap(
        BitmapDrawCommand {
            bitmap_id,
            src_x,
            src_y,
            src_w,
            src_h,
            dst_x,
            dst_y,
            dst_w,
            dst_h,
            opacity,
            interp_mode,
        },
    );
    commands_are_laid_out(l);
    commands_are_laid_out(d);
    commands_begin_with_a_header(CommandView::Plain(l));
    commands_begin_with_a_header(CommandView::Plain(d));
    written_commands_read_back(old(line)@, *old(line_pos) as int, CommandView::Plain(l));
    written_commands_read_back(old(bitmap)@, *old(bitmap_pos) as int, CommandView::Plain(d));
}

/// A text is written as what it is asked for, with each value in its own place.
pub proof fn written_texts_read_back(
    buf: &mut [u8],
    pos: &mut usize,
    text: &str,
    x: u32,
    y: u32,
    font_size: u32,
    r: u32,
    g: u32,
    b: u32,
    a: u32,
)
    requires
        call_ensures(
            cmd_writer::write_cmd_draw_text,
            (buf, pos, text, x, y, font_size, r, g, b, a),
            (),
        ),
        vstd::utf8::encode_utf8(text@).len() <= 65505,
        *old(pos) + 34 + vstd::utf8::encode_utf8(text@).len() <= old(buf)@.len(),
    ensures
        holds_the_command(
            old(buf)@,
            *old(pos) as int,
            final(buf)@,
            *final(pos) as int,
            CommandView::Text { text: text@, x, y, font_size, rgba: Rgba { r, g, b, a } },
        ),
{
    let rgba = Rgba { r, g, b, a };
    let c = CommandView::Text { text: text@, x, y, font_size, rgba };
    texts_are_laid_out(text@, x, y, font_size, rgba);
    commands_begin_with_a_header(c);
    let all = vstd::utf8::encode_utf8(text@);
    assert(cmd_writer::carried(text@) =~= all);
    written_commands_read_back(old(buf)@, *old(pos) as int, c);
}

/// The commands that are read from a frame's bytes are those that the bytes hold.
pub proof fn read_commands_are_those_in_the_bytes(data: &[u8], r: Vec<RenderCommand>)
    requires
        call_ensures(cmd_decoder::decode_commands, (data,), r),
    ensures
        cmd_decoder::views(r@) == cmd_decoder::parse_commands(data@),
        data@.len() < 4 ==> r@.len() == 0,
{
    assert(cmd_decoder::views(r@).len() == r@.len());
}

} // verus!
