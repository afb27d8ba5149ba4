use std::collections::HashMap;

use overlay_engine::cmd_decoder::{
    decode_commands, BitmapDrawCommand, DrawCmd, RenderCommand, Rgba, SpaceId,
};
use overlay_engine::cmd_writer::{
    write_cmd_clear, write_cmd_draw_line, write_cmd_fill_ellipse, write_cmd_fill_rect,
    write_cmd_fill_rounded_rect, write_cmd_stroke_ellipse, write_cmd_stroke_rect,
    write_cmd_stroke_rounded_rect,
};
use overlay_engine::frame::{
    acquired_buffer, draw_bitmap_command, fill_box, fill_pixels, plan_frame, present_order,
    scan_targets, targets_to_acquire, Bgra, FillBox, Paint, PaintStep, PaintTarget, TargetUsage,
};
use overlay_engine::present::AcquireOutcome;
use overlay_engine::server::ServerState;

fn rgba(c: [f32; 4]) -> Rgba {
    Rgba { r: c[0].to_bits(), g: c[1].to_bits(), b: c[2].to_bits(), a: c[3].to_bits() }
}

fn clear() -> RenderCommand {
    RenderCommand::Clear(rgba([0.0, 0.0, 0.0, 1.0]))
}

fn fill_rect(x: f32, y: f32, w: f32, h: f32, c: [f32; 4]) -> RenderCommand {
    RenderCommand::Draw(DrawCmd::FillRect {
        x: x.to_bits(),
        y: y.to_bits(),
        w: w.to_bits(),
        h: h.to_bits(),
        rgba: rgba(c),
    })
}

#[test]
fn scan_targets_empty_stream_is_all_false() {
    let t = scan_targets(&[]);
    assert!(!t.world_used);
    assert!(!t.local_used);
}

#[test]
fn scan_targets_world_only_stream_sets_world_used() {
    let cmds = vec![clear(), fill_rect(1.0, 2.0, 3.0, 4.0, [1.0, 0.0, 0.0, 1.0])];
    let t = scan_targets(&cmds);
    assert!(t.world_used);
    assert!(!t.local_used);
}

#[test]
fn scan_targets_monitor_local_region_sets_local_used() {
    let cmds = vec![
        RenderCommand::PushSpace(SpaceId::MonitorLocal),
        fill_rect(10.0, 10.0, 20.0, 4.0, [0.0, 1.0, 0.0, 1.0]),
        RenderCommand::PopSpace,
    ];
    let t = scan_targets(&cmds);
    assert!(!t.world_used);
    assert!(t.local_used);
}

#[test]
fn scan_targets_mixed_stream_sets_both() {
    let cmds = vec![
        clear(),
        RenderCommand::PushSpace(SpaceId::MonitorLocal),
        fill_rect(10.0, 10.0, 20.0, 4.0, [0.0, 1.0, 0.0, 1.0]),
        RenderCommand::PopSpace,
        fill_rect(0.0, 0.0, 5.0, 5.0, [1.0, 0.0, 0.0, 1.0]),
    ];
    let t = scan_targets(&cmds);
    assert!(t.world_used);
    assert!(t.local_used);
}

#[test]
fn scan_targets_push_world_stays_world() {
    let cmds = vec![
        RenderCommand::PushSpace(SpaceId::World),
        clear(),
        RenderCommand::PopSpace,
    ];
    let t = scan_targets(&cmds);
    assert!(t.world_used);
    assert!(!t.local_used);
}

#[test]
fn scan_targets_nested_spaces_uses_top_of_stack() {
    let cmds = vec![
        RenderCommand::PushSpace(SpaceId::World),
        RenderCommand::PushSpace(SpaceId::MonitorLocal),
        fill_rect(0.0, 0.0, 1.0, 1.0, [0.0, 1.0, 0.0, 1.0]),
        RenderCommand::PopSpace,
        fill_rect(0.0, 0.0, 1.0, 1.0, [1.0, 0.0, 0.0, 1.0]),
        RenderCommand::PopSpace,
    ];
    let t = scan_targets(&cmds);
    assert!(t.world_used);
    assert!(t.local_used);
}

#[test]
fn scan_targets_pop_on_empty_stack_tolerates_misuse() {
    let cmds = vec![RenderCommand::PopSpace, clear()];
    let t = scan_targets(&cmds);
    assert!(t.world_used);
    assert!(!t.local_used);
}

fn bitmap(bitmap_id: u32) -> BitmapDrawCommand {
    BitmapDrawCommand {
        bitmap_id,
        src_x: 1,
        src_y: 2,
        src_w: 3,
        src_h: 4,
        dst_x: 5,
        dst_y: 6,
        dst_w: 7,
        dst_h: 8,
        opacity: 9,
        interp_mode: 1,
    }
}

fn sample_frame() -> Vec<RenderCommand> {
    vec![
        RenderCommand::PopSpace,
        clear(),
        RenderCommand::PushSpace(SpaceId::MonitorLocal),
        fill_rect(10.0, 10.0, 20.0, 4.0, [0.0, 1.0, 0.0, 1.0]),
        RenderCommand::Draw(DrawCmd::DrawText {
            text: "hi".to_string(),
            x: 0,
            y: 0,
            font_size: 0,
            rgba: rgba([0.0; 4]),
        }),
        RenderCommand::DrawBitmap(bitmap(7)),
        RenderCommand::DrawBitmap(bitmap(8)),
    ]
}

#[test]
fn commands_are_routed_to_the_targets_of_their_space() {
    let mut bitmaps = HashMap::new();
    bitmaps.insert(7u32, 70u32);
    let plan = plan_frame(&sample_frame(), true, &[4, 9], &bitmaps);
    let fill = Paint::FillRect {
        x: 10.0f32.to_bits(),
        y: 10.0f32.to_bits(),
        w: 20.0f32.to_bits(),
        h: 4.0f32.to_bits(),
        rgba: rgba([0.0, 1.0, 0.0, 1.0]),
    };
    let drawn = Paint::Bitmap { draw: bitmap(7), bitmap: 70 };
    let on = |m: u32, paint: Paint| PaintStep { target: PaintTarget::Monitor(m), paint };
    assert_eq!(
        plan.steps,
        vec![
            PaintStep {
                target: PaintTarget::World,
                paint: Paint::Clear(rgba([0.0, 0.0, 0.0, 1.0])),
            },
            on(4, fill),
            on(9, fill),
            on(4, Paint::Primitive(4)),
            on(9, Paint::Primitive(4)),
            on(4, drawn),
            on(9, drawn),
        ]
    );
    assert_eq!(plan.ignored_pops, 1);
    assert_eq!(plan.open_spaces, 1);
}

#[test]
fn a_target_that_is_missing_changes_no_other() {
    let bitmaps = HashMap::new();
    let whole = plan_frame(&sample_frame(), true, &[4, 9], &bitmaps);
    let without_four = plan_frame(&sample_frame(), true, &[9], &bitmaps);
    let without_world = plan_frame(&sample_frame(), false, &[4, 9], &bitmaps);
    let others = |gone: PaintTarget| -> Vec<PaintStep> {
        whole.steps.iter().filter(|s| s.target != gone).cloned().collect()
    };
    assert_eq!(without_four.steps, others(PaintTarget::Monitor(4)));
    assert_eq!(without_world.steps, others(PaintTarget::World));
}

#[test]
fn a_frame_without_spaces_paints_the_shared_target_alone() {
    let cmds = vec![clear(), RenderCommand::PopSpace, fill_rect(0.0, 0.0, 1.0, 1.0, [0.0; 4])];
    let plan = plan_frame(&cmds, true, &[1, 2, 3], &HashMap::new());
    assert_eq!(plan.steps.len(), 2);
    assert!(plan.steps.iter().all(|s| s.target == PaintTarget::World));
}

#[test]
fn every_target_is_presented_for_itself() {
    assert_eq!(
        present_order(true, &[3, 5]),
        vec![PaintTarget::World, PaintTarget::Monitor(3), PaintTarget::Monitor(5)]
    );
    assert_eq!(present_order(false, &[3]), vec![PaintTarget::Monitor(3)]);
    assert_eq!(present_order(false, &[]), vec![]);
}

#[test]
fn bitmaps_are_drawn_by_the_painters_handle() {
    assert_eq!(
        draw_bitmap_command(&bitmap(7), 70),
        DrawCmd::DrawBitmap {
            bitmap: 70,
            src_x: 1,
            src_y: 2,
            src_w: 3,
            src_h: 4,
            dst_x: 5,
            dst_y: 6,
            dst_w: 7,
            dst_h: 8,
            opacity: 9,
            interp_mode: 1,
        }
    );
}

#[test]
fn only_used_targets_are_acquired() {
    let mut state = ServerState::new();
    let app = state.register_app(1, true).unwrap();
    let canvas_id = state.create_canvas(app, 8, 8, 8, 8, Some(5)).unwrap();
    let canvas = state.canvases.get_mut(&canvas_id).unwrap();
    for m in [9u32, 4] {
        canvas.per_monitor_surfaces.insert(
            m,
            overlay_engine::server::MonitorSurface { handle: 1, logical_w: 8, logical_h: 8 },
        );
    }
    let canvas = &state.canvases[&canvas_id];
    let both = targets_to_acquire(TargetUsage { world_used: true, local_used: true }, canvas);
    assert!(both.world);
    assert_eq!(both.monitors, vec![4, 9]);
    let world = targets_to_acquire(TargetUsage { world_used: true, local_used: false }, canvas);
    assert!(world.world);
    assert!(world.monitors.is_empty());
}

#[test]
fn a_buffer_out_of_range_is_not_painted_on() {
    assert_eq!(acquired_buffer(AcquireOutcome::Acquired(2), 3), Some(2));
    assert_eq!(acquired_buffer(AcquireOutcome::Acquired(3), 3), None);
    assert_eq!(acquired_buffer(AcquireOutcome::TimedOut, 3), None);
    assert_eq!(acquired_buffer(AcquireOutcome::Failed, 3), None);
}

#[test]
fn boxes_are_clipped_to_the_target() {
    assert_eq!(
        fill_box(128, 64, 126, 62, 176, 112),
        Some(FillBox { left: 126, top: 62, right: 128, bottom: 64 })
    );
    assert_eq!(fill_box(128, 64, 10, 10, 10, 14), None);
    assert_eq!(fill_box(128, 64, 200, 10, 220, 14), None);
    assert_eq!(fill_box(0, 0, 0, 0, 5, 5), None);
}

#[test]
fn boxes_are_filled_in_blue_green_red_alpha() {
    let b = FillBox { left: 1, top: 1, right: 3, bottom: 2 };
    let filled = fill_pixels(b, Bgra { b: 1, g: 2, r: 3, a: 4 });
    assert_eq!(filled.bytes, vec![1, 2, 3, 4, 1, 2, 3, 4]);
    assert_eq!(filled.row_pitch, 8);
}

const RT_W: u32 = 128;
const RT_H: u32 = 64;

fn colour(c: &Rgba) -> Bgra {
    let byte = |bits: u32| (f32::from_bits(bits).clamp(0.0, 1.0) * 255.0) as u8;
    Bgra { b: byte(c.b), g: byte(c.g), r: byte(c.r), a: byte(c.a) }
}

fn render(cmds: &[RenderCommand]) -> Vec<u8> {
    let mut pixels = vec![0u8; (RT_W * RT_H * 4) as usize];
    for step in plan_frame(cmds, true, &[], &HashMap::new()).steps {
        match step.paint {
            Paint::Clear(c) => {
                let whole = FillBox { left: 0, top: 0, right: RT_W, bottom: RT_H };
                pixels = fill_pixels(whole, colour(&c)).bytes;
            }
            Paint::FillRect { x, y, w, h, rgba } => {
                let (x, y) = (f32::from_bits(x), f32::from_bits(y));
                let (w, h) = (f32::from_bits(w), f32::from_bits(h));
                let found =
                    fill_box(RT_W, RT_H, x as u32, y as u32, (x + w) as u32, (y + h) as u32);
                if let Some(b) = found {
                    let filled = fill_pixels(b, colour(&rgba));
                    let pitch = filled.row_pitch as usize;
                    for row in b.top..b.bottom {
                        let from = ((row - b.top) as usize) * pitch;
                        let to = ((row * RT_W + b.left) * 4) as usize;
                        pixels[to..to + pitch].copy_from_slice(&filled.bytes[from..from + pitch]);
                    }
                }
            }
            _ => {}
        }
    }
    pixels
}

fn pixel(pixels: &[u8], x: u32, y: u32) -> [u8; 4] {
    let at = ((y * RT_W + x) * 4) as usize;
    [pixels[at], pixels[at + 1], pixels[at + 2], pixels[at + 3]]
}

#[test]
fn pbt_b_oracle_capture_world_only_pixel_hashes() {
    let bits = |v: f32| v.to_bits();
    let mut buf = [0u8; 256];
    let mut pos = 0usize;
    write_cmd_clear(&mut buf, &mut pos, bits(0.0), bits(0.0), bits(0.0), bits(1.0));
    write_cmd_fill_rect(
        &mut buf,
        &mut pos,
        bits(10.0),
        bits(10.0),
        bits(20.0),
        bits(4.0),
        bits(0.0),
        bits(1.0),
        bits(0.0),
        bits(1.0),
    );
    let pixels = render(&decode_commands(&buf[..pos]));
    assert_eq!(pixel(&pixels, 0, 0), [0, 0, 0, 255]);
    assert_eq!(pixel(&pixels, 10, 10), [0, 255, 0, 255]);
    assert_eq!(pixel(&pixels, 29, 13), [0, 255, 0, 255]);
    assert_eq!(pixel(&pixels, 30, 13), [0, 0, 0, 255]);
    assert_eq!(pixel(&pixels, 29, 14), [0, 0, 0, 255]);

    pos = 0;
    write_cmd_clear(&mut buf, &mut pos, bits(1.0), bits(1.0), bits(1.0), bits(1.0));
    assert!(render(&decode_commands(&buf[..pos])).iter().all(|b| *b == 255));

    pos = 0;
    write_cmd_clear(&mut buf, &mut pos, bits(0.5), bits(0.5), bits(0.5), bits(1.0));
    write_cmd_fill_rect(
        &mut buf,
        &mut pos,
        bits((RT_W - 2) as f32),
        bits((RT_H - 2) as f32),
        bits(50.0),
        bits(50.0),
        bits(1.0),
        bits(0.0),
        bits(0.0),
        bits(1.0),
    );
    let clipped = render(&decode_commands(&buf[..pos]));
    assert_eq!(pixel(&clipped, RT_W - 1, RT_H - 1), [0, 0, 255, 255]);
    assert_eq!(pixel(&clipped, RT_W - 3, RT_H - 1), [127, 127, 127, 255]);

    let every = render(&every_opcode_once());
    for y in 0..RT_H {
        for x in 0..RT_W {
            let inside = (5..15).contains(&x) && (5..15).contains(&y);
            let expected = if inside { [0, 127, 255, 255] } else { [0, 0, 0, 255] };
            assert_eq!(pixel(&every, x, y), expected, "at {x},{y}");
        }
    }

    pos = 0;
    write_cmd_clear(&mut buf, &mut pos, bits(0.0), bits(0.0), bits(0.0), bits(0.0));
    assert!(render(&decode_commands(&buf[..pos])).iter().all(|b| *b == 0));
}

/// A stream with each of the eight geometry opcodes once.
fn every_opcode_once() -> Vec<RenderCommand> {
    let f = |v: f32| v.to_bits();
    let (o, i, half) = (f(0.0), f(1.0), f(0.5));
    let (five, ten) = (f(5.0), f(10.0));
    let mut b = [0u8; 512];
    let mut p = 0usize;
    write_cmd_clear(&mut b, &mut p, o, o, o, i);
    write_cmd_fill_rect(&mut b, &mut p, five, five, ten, ten, i, half, o, i);
    write_cmd_stroke_rect(&mut b, &mut p, f(20.0), five, ten, ten, i, i, i, o, i);
    write_cmd_fill_rounded_rect(
        &mut b, &mut p, f(35.0), five, ten, ten, f(2.0), f(2.0), o, i, i, i,
    );
    write_cmd_stroke_rounded_rect(
        &mut b, &mut p, f(50.0), five, ten, ten, f(2.0), f(2.0), i, i, o, i, i,
    );
    write_cmd_fill_ellipse(&mut b, &mut p, f(70.0), ten, five, five, o, o, i, i);
    write_cmd_stroke_ellipse(&mut b, &mut p, f(85.0), ten, five, five, i, i, i, i, i);
    write_cmd_draw_line(&mut b, &mut p, o, o, f(127.0), f(63.0), i, half, half, half, i);
    decode_commands(&b[..p])
}

#[test]
fn every_opcode_is_painted_once_and_in_order() {
    let cmds = every_opcode_once();
    assert_eq!(cmds.len(), 8);
    let steps = plan_frame(&cmds, true, &[], &HashMap::new()).steps;
    assert_eq!(steps.len(), 8);
    assert!(steps.iter().all(|s| s.target == PaintTarget::World));
    assert!(matches!(steps[0].paint, Paint::Clear(_)));
    assert!(matches!(steps[1].paint, Paint::FillRect { .. }));
    for (at, step) in steps.iter().enumerate().skip(2) {
        assert_eq!(step.paint, Paint::Primitive(at));
    }
}
