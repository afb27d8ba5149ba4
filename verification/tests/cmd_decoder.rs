use overlay_engine::cmd_decoder::{
    decode_commands, DrawCmd, RenderCommand, Rgba, SpaceId, CMD_CLEAR, CMD_DRAW_BITMAP,
    CMD_DRAW_LINE, CMD_DRAW_TEXT, CMD_DRAW_TEXT_FIXED_PAYLOAD, CMD_FILL_ELLIPSE, CMD_FILL_RECT,
    CMD_FILL_ROUNDED_RECT, CMD_POP_SPACE, CMD_PUSH_SPACE, CMD_STROKE_ELLIPSE, CMD_STROKE_RECT,
    CMD_STROKE_ROUNDED_RECT,
};

fn push_u16(buf: &mut Vec<u8>, v: u16) {
    buf.extend_from_slice(&v.to_le_bytes());
}

fn push_u32(buf: &mut Vec<u8>, v: u32) {
    buf.extend_from_slice(&v.to_le_bytes());
}

fn push_i32(buf: &mut Vec<u8>, v: i32) {
    buf.extend_from_slice(&v.to_le_bytes());
}

fn push_f32(buf: &mut Vec<u8>, v: f32) {
    buf.extend_from_slice(&v.to_le_bytes());
}

fn push_rgba(buf: &mut Vec<u8>, rgba: [f32; 4]) {
    for c in &rgba {
        push_f32(buf, *c);
    }
}

fn floats(rgba: &Rgba) -> [f32; 4] {
    [
        f32::from_bits(rgba.r),
        f32::from_bits(rgba.g),
        f32::from_bits(rgba.b),
        f32::from_bits(rgba.a),
    ]
}

fn f(bits: &u32) -> f32 {
    f32::from_bits(*bits)
}

fn emit_fill_rect(buf: &mut Vec<u8>, x: f32, y: f32, w: f32, h: f32, rgba: [f32; 4]) {
    push_u16(buf, CMD_FILL_RECT);
    push_u16(buf, 32);
    push_f32(buf, x);
    push_f32(buf, y);
    push_f32(buf, w);
    push_f32(buf, h);
    push_rgba(buf, rgba);
}

fn emit_clear(buf: &mut Vec<u8>, rgba: [f32; 4]) {
    push_u16(buf, CMD_CLEAR);
    push_u16(buf, 16);
    push_rgba(buf, rgba);
}

fn emit_push_space(buf: &mut Vec<u8>, space_id: u32) {
    push_u16(buf, CMD_PUSH_SPACE);
    push_u16(buf, 4);
    push_u32(buf, space_id);
}

fn emit_pop_space(buf: &mut Vec<u8>) {
    push_u16(buf, CMD_POP_SPACE);
    push_u16(buf, 0);
}

fn emit_draw_text(buf: &mut Vec<u8>, text: &str, x: f32, y: f32, font_size: f32, rgba: [f32; 4]) {
    let text_bytes = text.as_bytes();
    push_u16(buf, CMD_DRAW_TEXT);
    push_u16(buf, (CMD_DRAW_TEXT_FIXED_PAYLOAD + text_bytes.len()) as u16);
    push_f32(buf, x);
    push_f32(buf, y);
    push_f32(buf, font_size);
    push_rgba(buf, rgba);
    push_u16(buf, text_bytes.len() as u16);
    buf.extend_from_slice(text_bytes);
}

fn emit_draw_bitmap(buf: &mut Vec<u8>) {
    push_u16(buf, CMD_DRAW_BITMAP);
    push_u16(buf, 44);
    push_u32(buf, 7);
    for v in [1.0, 2.0, 32.0, 48.0, 10.0, 20.0, 64.0, 96.0, 0.75] {
        push_f32(buf, v);
    }
    push_i32(buf, 1);
}

#[test]
fn draw_text_decodes_to_drawcmd_text() {
    let mut buf = Vec::new();
    emit_draw_text(&mut buf, "144 FPS", 16.0, 11.0, 20.0, [0.2, 0.9, 0.2, 1.0]);

    let cmds = decode_commands(&buf);
    assert_eq!(cmds.len(), 1);
    match &cmds[0] {
        RenderCommand::Draw(DrawCmd::DrawText { text, x, y, font_size, rgba }) => {
            assert_eq!(text, "144 FPS");
            assert_eq!((f(x), f(y), f(font_size)), (16.0, 11.0, 20.0));
            assert_eq!(floats(rgba), [0.2, 0.9, 0.2, 1.0]);
        }
        other => panic!("expected DrawText, got {:?}", other),
    }
}

#[test]
fn draw_bitmap_decodes_to_bitmap_command() {
    let mut buf = Vec::new();
    emit_draw_bitmap(&mut buf);

    let cmds = decode_commands(&buf);
    assert_eq!(cmds.len(), 1);
    match &cmds[0] {
        RenderCommand::DrawBitmap(draw) => {
            assert_eq!(draw.bitmap_id, 7);
            assert_eq!(
                (f(&draw.src_x), f(&draw.src_y), f(&draw.src_w), f(&draw.src_h)),
                (1.0, 2.0, 32.0, 48.0)
            );
            assert_eq!(
                (f(&draw.dst_x), f(&draw.dst_y), f(&draw.dst_w), f(&draw.dst_h)),
                (10.0, 20.0, 64.0, 96.0)
            );
            assert_eq!(f(&draw.opacity), 0.75);
            assert_eq!(draw.interp_mode, 1);
        }
        other => panic!("expected DrawBitmap, got {:?}", other),
    }
}

#[test]
fn push_space_world_decodes_to_pushspace_world() {
    let mut buf = Vec::new();
    emit_push_space(&mut buf, 0);

    let cmds = decode_commands(&buf);
    assert_eq!(cmds.len(), 1);
    match &cmds[0] {
        RenderCommand::PushSpace(SpaceId::World) => {}
        other => panic!("expected PushSpace(World), got {:?}", other),
    }
}

#[test]
fn push_space_monitor_local_decodes_to_pushspace_monitor_local() {
    let mut buf = Vec::new();
    emit_push_space(&mut buf, 1);

    let cmds = decode_commands(&buf);
    assert_eq!(cmds.len(), 1);
    match &cmds[0] {
        RenderCommand::PushSpace(SpaceId::MonitorLocal) => {}
        other => panic!("expected PushSpace(MonitorLocal), got {:?}", other),
    }
}

#[test]
fn pop_space_decodes_to_popspace() {
    let mut buf = Vec::new();
    emit_pop_space(&mut buf);

    let cmds = decode_commands(&buf);
    assert_eq!(cmds.len(), 1);
    match &cmds[0] {
        RenderCommand::PopSpace => {}
        other => panic!("expected PopSpace, got {:?}", other),
    }
}

#[test]
fn push_space_with_unknown_space_id_is_skipped_not_fatal() {
    let mut buf = Vec::new();
    emit_push_space(&mut buf, 42);
    emit_fill_rect(&mut buf, 10.0, 10.0, 20.0, 4.0, [0.0, 1.0, 0.0, 1.0]);

    let cmds = decode_commands(&buf);
    assert_eq!(cmds.len(), 1, "unknown space_id should be skipped, not fatal");
    match &cmds[0] {
        RenderCommand::Draw(DrawCmd::FillRect { x, y, w, h, rgba }) => {
            assert_eq!((f(x), f(y), f(w), f(h)), (10.0, 10.0, 20.0, 4.0));
            assert_eq!(floats(rgba), [0.0, 1.0, 0.0, 1.0]);
        }
        other => panic!("expected FillRect, got {:?}", other),
    }
}

#[test]
fn mixed_push_fill_pop_stream_decodes_in_order() {
    let mut buf = Vec::new();
    emit_push_space(&mut buf, 1);
    emit_fill_rect(&mut buf, 10.0, 10.0, 20.0, 4.0, [0.0, 1.0, 0.0, 1.0]);
    emit_pop_space(&mut buf);

    let cmds = decode_commands(&buf);
    assert_eq!(cmds.len(), 3);
    assert!(matches!(cmds[0], RenderCommand::PushSpace(SpaceId::MonitorLocal)));
    assert!(matches!(cmds[1], RenderCommand::Draw(DrawCmd::FillRect { .. })));
    assert!(matches!(cmds[2], RenderCommand::PopSpace));
}

#[test]
fn stream_without_push_or_pop_decodes_exactly_as_before() {
    let mut buf = Vec::new();
    emit_fill_rect(&mut buf, 0.0, 0.0, 5.0, 5.0, [1.0, 0.0, 0.0, 1.0]);
    push_u16(&mut buf, CMD_CLEAR);
    push_u16(&mut buf, 16);
    for c in &[0.5f32, 0.5, 0.5, 1.0] {
        push_f32(&mut buf, *c);
    }

    let cmds = decode_commands(&buf);
    assert_eq!(cmds.len(), 2);
    assert!(matches!(cmds[0], RenderCommand::Draw(DrawCmd::FillRect { .. })));
    assert!(matches!(cmds[1], RenderCommand::Clear(_)));
}

#[test]
fn malformed_fixed_payload_short_skips_and_preserves_following_command() {
    let mut buf = Vec::new();
    push_u16(&mut buf, CMD_FILL_RECT);
    push_u16(&mut buf, 28);
    buf.extend_from_slice(&[0u8; 28]);
    emit_clear(&mut buf, [0.1, 0.2, 0.3, 0.4]);

    let cmds = decode_commands(&buf);
    assert_eq!(cmds.len(), 1);
    assert!(matches!(cmds[0], RenderCommand::Clear(_)));
}

#[test]
fn malformed_fixed_payload_long_skips_and_preserves_following_command() {
    let mut buf = Vec::new();
    push_u16(&mut buf, CMD_FILL_RECT);
    push_u16(&mut buf, 36);
    buf.extend_from_slice(&[0u8; 36]);
    emit_clear(&mut buf, [0.1, 0.2, 0.3, 0.4]);

    let cmds = decode_commands(&buf);
    assert_eq!(cmds.len(), 1);
    assert!(matches!(cmds[0], RenderCommand::Clear(_)));
}

#[test]
fn push_and_pop_reject_wrong_payload_lengths_without_desync() {
    let mut buf = Vec::new();
    push_u16(&mut buf, CMD_PUSH_SPACE);
    push_u16(&mut buf, 0);
    push_u16(&mut buf, CMD_POP_SPACE);
    push_u16(&mut buf, 4);
    buf.extend_from_slice(&[0u8; 4]);
    emit_clear(&mut buf, [0.1, 0.2, 0.3, 0.4]);

    let cmds = decode_commands(&buf);
    assert_eq!(cmds.len(), 1);
    assert!(matches!(cmds[0], RenderCommand::Clear(_)));
}

#[test]
fn draw_text_length_mismatch_skips_and_preserves_following_command() {
    let mut buf = Vec::new();
    push_u16(&mut buf, CMD_DRAW_TEXT);
    push_u16(&mut buf, 31);
    push_f32(&mut buf, 1.0);
    push_f32(&mut buf, 2.0);
    push_f32(&mut buf, 12.0);
    for c in &[1.0, 1.0, 1.0, 1.0] {
        push_f32(&mut buf, *c);
    }
    push_u16(&mut buf, 2);
    buf.push(b'a');
    emit_clear(&mut buf, [0.1, 0.2, 0.3, 0.4]);

    let cmds = decode_commands(&buf);
    assert_eq!(cmds.len(), 1);
    assert!(matches!(cmds[0], RenderCommand::Clear(_)));
}

#[test]
fn unknown_opcode_skips_payload_and_preserves_following_command() {
    let mut buf = Vec::new();
    push_u16(&mut buf, 0x9999);
    push_u16(&mut buf, 3);
    buf.extend_from_slice(&[1, 2, 3]);
    emit_clear(&mut buf, [0.1, 0.2, 0.3, 0.4]);

    let cmds = decode_commands(&buf);
    assert_eq!(cmds.len(), 1);
    assert!(matches!(cmds[0], RenderCommand::Clear(_)));
}

#[test]
fn space_id_from_u32_round_trip() {
    assert_eq!(SpaceId::from_u32(0), Some(SpaceId::World));
    assert_eq!(SpaceId::from_u32(1), Some(SpaceId::MonitorLocal));
    assert_eq!(SpaceId::from_u32(2), None);
    assert_eq!(SpaceId::from_u32(u32::MAX), None);
}

#[test]
fn unit_preservation_clear_decodes_unchanged() {
    let mut buf = Vec::new();
    push_u16(&mut buf, CMD_CLEAR);
    push_u16(&mut buf, 16);
    push_rgba(&mut buf, [0.25, 0.5, 0.75, 1.0]);

    let cmds = decode_commands(&buf);
    assert_eq!(cmds.len(), 1);
    match &cmds[0] {
        RenderCommand::Clear(c) => assert_eq!(floats(c), [0.25, 0.5, 0.75, 1.0]),
        other => panic!("expected Clear, got {:?}", other),
    }
}

#[test]
fn unit_preservation_fill_rect_decodes_unchanged() {
    let mut buf = Vec::new();
    push_u16(&mut buf, CMD_FILL_RECT);
    push_u16(&mut buf, 32);
    for v in [1.0, 2.0, 3.0, 4.0] {
        push_f32(&mut buf, v);
    }
    push_rgba(&mut buf, [0.1, 0.2, 0.3, 0.4]);

    let cmds = decode_commands(&buf);
    assert_eq!(cmds.len(), 1);
    match &cmds[0] {
        RenderCommand::Draw(DrawCmd::FillRect { x, y, w, h, rgba }) => {
            assert_eq!((f(x), f(y), f(w), f(h)), (1.0, 2.0, 3.0, 4.0));
            assert_eq!(floats(rgba), [0.1, 0.2, 0.3, 0.4]);
        }
        other => panic!("expected FillRect, got {:?}", other),
    }
}

#[test]
fn unit_preservation_stroke_rect_decodes_unchanged() {
    let mut buf = Vec::new();
    push_u16(&mut buf, CMD_STROKE_RECT);
    push_u16(&mut buf, 36);
    for v in [10.0, 20.0, 30.0, 40.0, 2.5] {
        push_f32(&mut buf, v);
    }
    push_rgba(&mut buf, [1.0, 0.0, 0.0, 1.0]);

    let cmds = decode_commands(&buf);
    assert_eq!(cmds.len(), 1);
    match &cmds[0] {
        RenderCommand::Draw(DrawCmd::StrokeRect { x, y, w, h, stroke_width, rgba }) => {
            assert_eq!((f(x), f(y), f(w), f(h)), (10.0, 20.0, 30.0, 40.0));
            assert_eq!(f(stroke_width), 2.5);
            assert_eq!(floats(rgba), [1.0, 0.0, 0.0, 1.0]);
        }
        other => panic!("expected StrokeRect, got {:?}", other),
    }
}

#[test]
fn unit_preservation_fill_rounded_rect_decodes_unchanged() {
    let mut buf = Vec::new();
    push_u16(&mut buf, CMD_FILL_ROUNDED_RECT);
    push_u16(&mut buf, 40);
    for v in [5.0, 6.0, 7.0, 8.0, 1.5, 2.5] {
        push_f32(&mut buf, v);
    }
    push_rgba(&mut buf, [0.9, 0.8, 0.7, 0.6]);

    let cmds = decode_commands(&buf);
    assert_eq!(cmds.len(), 1);
    match &cmds[0] {
        RenderCommand::Draw(DrawCmd::FillRoundedRect { x, y, w, h, radius_x, radius_y, rgba }) => {
            assert_eq!((f(x), f(y), f(w), f(h)), (5.0, 6.0, 7.0, 8.0));
            assert_eq!((f(radius_x), f(radius_y)), (1.5, 2.5));
            assert_eq!(floats(rgba), [0.9, 0.8, 0.7, 0.6]);
        }
        other => panic!("expected FillRoundedRect, got {:?}", other),
    }
}

#[test]
fn unit_preservation_stroke_rounded_rect_decodes_unchanged() {
    let mut buf = Vec::new();
    push_u16(&mut buf, CMD_STROKE_ROUNDED_RECT);
    push_u16(&mut buf, 44);
    for v in [1.0, 2.0, 3.0, 4.0, 0.5, 0.75, 1.25] {
        push_f32(&mut buf, v);
    }
    push_rgba(&mut buf, [0.1, 0.9, 0.5, 0.3]);

    let cmds = decode_commands(&buf);
    assert_eq!(cmds.len(), 1);
    match &cmds[0] {
        RenderCommand::Draw(DrawCmd::StrokeRoundedRect {
            x,
            y,
            w,
            h,
            radius_x,
            radius_y,
            stroke_width,
            rgba,
        }) => {
            assert_eq!((f(x), f(y), f(w), f(h)), (1.0, 2.0, 3.0, 4.0));
            assert_eq!((f(radius_x), f(radius_y)), (0.5, 0.75));
            assert_eq!(f(stroke_width), 1.25);
            assert_eq!(floats(rgba), [0.1, 0.9, 0.5, 0.3]);
        }
        other => panic!("expected StrokeRoundedRect, got {:?}", other),
    }
}

#[test]
fn unit_preservation_fill_ellipse_decodes_unchanged() {
    let mut buf = Vec::new();
    push_u16(&mut buf, CMD_FILL_ELLIPSE);
    push_u16(&mut buf, 32);
    for v in [100.0, 200.0, 30.0, 40.0] {
        push_f32(&mut buf, v);
    }
    push_rgba(&mut buf, [0.0, 1.0, 0.0, 0.5]);

    let cmds = decode_commands(&buf);
    assert_eq!(cmds.len(), 1);
    match &cmds[0] {
        RenderCommand::Draw(DrawCmd::FillEllipse { cx, cy, rx, ry, rgba }) => {
            assert_eq!((f(cx), f(cy), f(rx), f(ry)), (100.0, 200.0, 30.0, 40.0));
            assert_eq!(floats(rgba), [0.0, 1.0, 0.0, 0.5]);
        }
        other => panic!("expected FillEllipse, got {:?}", other),
    }
}

#[test]
fn unit_preservation_stroke_ellipse_decodes_unchanged() {
    let mut buf = Vec::new();
    push_u16(&mut buf, CMD_STROKE_ELLIPSE);
    push_u16(&mut buf, 36);
    for v in [50.0, 60.0, 10.0, 15.0, 3.0] {
        push_f32(&mut buf, v);
    }
    push_rgba(&mut buf, [0.2, 0.3, 0.4, 0.5]);

    let cmds = decode_commands(&buf);
    assert_eq!(cmds.len(), 1);
    match &cmds[0] {
        RenderCommand::Draw(DrawCmd::StrokeEllipse { cx, cy, rx, ry, stroke_width, rgba }) => {
            assert_eq!((f(cx), f(cy), f(rx), f(ry)), (50.0, 60.0, 10.0, 15.0));
            assert_eq!(f(stroke_width), 3.0);
            assert_eq!(floats(rgba), [0.2, 0.3, 0.4, 0.5]);
        }
        other => panic!("expected StrokeEllipse, got {:?}", other),
    }
}

#[test]
fn unit_preservation_draw_line_decodes_unchanged() {
    let mut buf = Vec::new();
    push_u16(&mut buf, CMD_DRAW_LINE);
    push_u16(&mut buf, 40);
    for v in [0.0, 10.0, 20.0, 30.0, 2.0] {
        push_f32(&mut buf, v);
    }
    push_rgba(&mut buf, [1.0, 1.0, 1.0, 1.0]);
    push_i32(&mut buf, 2);

    let cmds = decode_commands(&buf);
    assert_eq!(cmds.len(), 1);
    match &cmds[0] {
        RenderCommand::Draw(DrawCmd::DrawLine {
            x0,
            y0,
            x1,
            y1,
            stroke_width,
            rgba,
            dash_style,
        }) => {
            assert_eq!((f(x0), f(y0), f(x1), f(y1)), (0.0, 10.0, 20.0, 30.0));
            assert_eq!(f(stroke_width), 2.0);
            assert_eq!(floats(rgba), [1.0, 1.0, 1.0, 1.0]);
            assert_eq!(*dash_style, 2);
        }
        other => panic!("expected DrawLine, got {:?}", other),
    }
}

fn emit_words(buf: &mut Vec<u8>, opcode: u16, words: &[f32], rgba: [f32; 4]) {
    push_u16(buf, opcode);
    push_u16(buf, (4 * words.len() + 16) as u16);
    for w in words {
        push_f32(buf, *w);
    }
    push_rgba(buf, rgba);
}

#[test]
fn unit_preservation_all_8_opcodes_in_one_stream() {
    let mut buf = Vec::new();
    emit_clear(&mut buf, [0.0, 0.0, 0.0, 1.0]);
    emit_fill_rect(&mut buf, 5.0, 5.0, 10.0, 10.0, [1.0, 0.5, 0.0, 1.0]);
    emit_words(&mut buf, CMD_STROKE_RECT, &[20.0, 5.0, 10.0, 10.0, 1.0], [1.0, 1.0, 0.0, 1.0]);
    emit_words(
        &mut buf,
        CMD_FILL_ROUNDED_RECT,
        &[35.0, 5.0, 10.0, 10.0, 2.0, 2.0],
        [0.0, 1.0, 1.0, 1.0],
    );
    emit_words(
        &mut buf,
        CMD_STROKE_ROUNDED_RECT,
        &[50.0, 5.0, 10.0, 10.0, 2.0, 2.0, 1.0],
        [1.0, 0.0, 1.0, 1.0],
    );
    emit_words(&mut buf, CMD_FILL_ELLIPSE, &[70.0, 10.0, 5.0, 5.0], [0.0, 0.0, 1.0, 1.0]);
    emit_words(&mut buf, CMD_STROKE_ELLIPSE, &[85.0, 10.0, 5.0, 5.0, 1.0], [1.0, 1.0, 1.0, 1.0]);
    push_u16(&mut buf, CMD_DRAW_LINE);
    push_u16(&mut buf, 40);
    for v in [0.0, 0.0, 127.0, 63.0, 1.0] {
        push_f32(&mut buf, v);
    }
    push_rgba(&mut buf, [0.5, 0.5, 0.5, 1.0]);
    push_i32(&mut buf, 0);

    let cmds = decode_commands(&buf);
    assert_eq!(cmds.len(), 8, "all 8 opcodes must decode in order");
    let tags: Vec<&'static str> = cmds
        .iter()
        .map(|c| match c {
            RenderCommand::Clear(_) => "Clear",
            RenderCommand::Draw(d) => match d {
                DrawCmd::FillRect { .. } => "FillRect",
                DrawCmd::StrokeRect { .. } => "StrokeRect",
                DrawCmd::FillRoundedRect { .. } => "FillRoundedRect",
                DrawCmd::StrokeRoundedRect { .. } => "StrokeRoundedRect",
                DrawCmd::FillEllipse { .. } => "FillEllipse",
                DrawCmd::StrokeEllipse { .. } => "StrokeEllipse",
                DrawCmd::DrawLine { .. } => "DrawLine",
                _ => "unexpected",
            },
            RenderCommand::DrawBitmap(_) => "DrawBitmap",
            RenderCommand::PushSpace(_) => "PushSpace",
            RenderCommand::PopSpace => "PopSpace",
        })
        .collect();
    assert_eq!(
        tags,
        vec![
            "Clear",
            "FillRect",
            "StrokeRect",
            "FillRoundedRect",
            "StrokeRoundedRect",
            "FillEllipse",
            "StrokeEllipse",
            "DrawLine",
        ]
    );
}

#[test]
fn a_truncated_last_command_is_dropped() {
    let mut buf = Vec::new();
    emit_clear(&mut buf, [0.0, 0.0, 0.0, 1.0]);
    push_u16(&mut buf, CMD_FILL_RECT);
    push_u16(&mut buf, 32);
    buf.extend_from_slice(&[0u8; 31]);
    assert_eq!(decode_commands(&buf).len(), 1);
    assert_eq!(decode_commands(&buf[..3]).len(), 0);
    assert_eq!(decode_commands(&[]).len(), 0);
}

#[test]
fn text_that_is_not_utf8_is_skipped() {
    let mut buf = Vec::new();
    emit_draw_text(&mut buf, "ab", 0.0, 0.0, 1.0, [0.0; 4]);
    let n = buf.len();
    buf[n - 1] = 0xFF;
    emit_clear(&mut buf, [0.0; 4]);
    let cmds = decode_commands(&buf);
    assert_eq!(cmds.len(), 1);
    assert!(matches!(cmds[0], RenderCommand::Clear(_)));
}
