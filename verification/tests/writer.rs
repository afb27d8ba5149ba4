use overlay_engine::cmd_decoder::{decode_commands, DrawCmd, RenderCommand, SpaceId};
use overlay_engine::cmd_writer::{
    write_cmd_clear, write_cmd_draw_line, write_cmd_draw_text, write_cmd_fill_rect,
    write_cmd_pop_space, write_cmd_push_space, write_f32, write_i32, write_u16, write_u32,
};

#[test]
fn numbers_are_written_little_endian() {
    let mut buf = [0xEEu8; 16];
    let mut pos = 1usize;
    write_u16(&mut buf, &mut pos, 0x0102);
    write_u32(&mut buf, &mut pos, 0x0304_0506);
    write_f32(&mut buf, &mut pos, 1.0f32.to_bits());
    write_i32(&mut buf, &mut pos, -2);
    assert_eq!(pos, 15);
    assert_eq!(
        buf,
        [0xEE, 2, 1, 6, 5, 4, 3, 0, 0, 0x80, 0x3F, 0xFE, 0xFF, 0xFF, 0xFF, 0xEE]
    );
}

#[test]
fn written_commands_read_back() {
    let mut buf = [0u8; 512];
    let mut pos = 0usize;
    write_cmd_push_space(&mut buf, &mut pos, 1);
    write_cmd_clear(&mut buf, &mut pos, 1, 2, 3, 4);
    write_cmd_fill_rect(&mut buf, &mut pos, 1, 2, 3, 4, 5, 6, 7, 8);
    write_cmd_pop_space(&mut buf, &mut pos);
    write_cmd_draw_line(&mut buf, &mut pos, 1, 2, 3, 4, 5, 6, 7, 8, 9);
    let cmds = decode_commands(&buf[..pos]);
    assert_eq!(cmds.len(), 5);
    assert_eq!(cmds[0], RenderCommand::PushSpace(SpaceId::MonitorLocal));
    assert!(matches!(cmds[1], RenderCommand::Clear(c) if (c.r, c.g, c.b, c.a) == (1, 2, 3, 4)));
    assert!(matches!(
        cmds[2],
        RenderCommand::Draw(DrawCmd::FillRect { x: 1, y: 2, w: 3, h: 4, rgba })
            if (rgba.r, rgba.a) == (5, 8)
    ));
    assert_eq!(cmds[3], RenderCommand::PopSpace);
    assert!(matches!(cmds[4], RenderCommand::Draw(DrawCmd::DrawLine { .. })));
}

#[test]
fn written_text_reads_back() {
    let mut buf = [0u8; 128];
    let mut pos = 0usize;
    write_cmd_draw_text(&mut buf, &mut pos, "Größe \u{1F600}", 1, 2, 3, 4, 5, 6, 7);
    match &decode_commands(&buf[..pos])[..] {
        [RenderCommand::Draw(DrawCmd::DrawText { text, x, y, font_size, rgba })] => {
            assert_eq!(text, "Größe \u{1F600}");
            assert_eq!((*x, *y, *font_size), (1, 2, 3));
            assert_eq!((rgba.r, rgba.g, rgba.b, rgba.a), (4, 5, 6, 7));
        }
        other => panic!("read {other:?}"),
    }
}
