//! What a frame's plan paints for each of its commands, and where.

use std::collections::HashMap;
use vstd::prelude::*;

use crate::cmd_decoder::{BitmapDrawCommand, DrawCmd, RenderCommand, SpaceId};
use crate::frame;
use crate::frame::{
    AcquireTargets, Bgra, FillBox, FilledBox, FramePlan, Paint, PaintTarget, TargetUsage,
};
use crate::server::Canvas;

verus! {

/// The first commands of a frame are planned first, whatever follows.
proof fn plans_grow(
    cmds: Seq<RenderCommand>,
    n: int,
    world: bool,
    locals: Seq<u32>,
    bitmaps: Map<u32, u32>,
)
    requires
        0 <= n <= cmds.len(),
    ensures
        frame::plan(cmds.take(n), world, locals, bitmaps).len() <= frame::plan(
            cmds,
            world,
            locals,
            bitmaps,
        ).len(),
        frame::plan(cmds, world, locals, bitmaps).take(
            frame::plan(cmds.take(n), world, locals, bitmaps).len() as int,
        ) == frame::plan(cmds.take(n), world, locals, bitmaps),
    decreases cmds.len() - n,
{
    let whole = frame::plan(cmds, world, locals, bitmaps);
    if n == cmds.len() {
        assert(cmds.take(n) =~= cmds);
        assert(whole.take(whole.len() as int) =~= whole);
    } else {
        plans_grow(cmds, n + 1, world, locals, bitmaps);
        assert(cmds.take(n + 1).drop_last() =~= cmds.take(n));
        let upto = frame::plan(cmds.take(n + 1), world, locals, bitmaps);
        let before = frame::plan(cmds.take(n), world, locals, bitmaps);
        assert(upto.take(before.len() as int) =~= before);
        assert(whole.take(before.len() as int) =~= whole.take(upto.len() as int).take(
            before.len() as int,
        ));
    }
}

/// Each command that paints paints its own data, once on each target of the space
/// that it runs in and on no other: on the shared target where it is there, or on
/// the monitors' targets in their order. A clear paints its own colour, a filled
/// rectangle its own corner, size and colour, a bitmap its own source, destination,
/// opacity and mode with the handle that its number stands for, and any other
/// primitive the command itself, by its place in the frame. The steps of a command
/// follow those of the commands before it. A bitmap that is not known, and a
/// command that only changes the space, paint nothing.
pub proof fn commands_paint_their_own_data(
    cmds: &[RenderCommand],
    world: bool,
    locals: &[u32],
    bitmaps: &HashMap<u32, u32>,
    r: FramePlan,
    i: usize,
    k: int,
)
    requires
        call_ensures(frame::plan_frame, (cmds, world, locals, bitmaps), r),
        i < cmds@.len(),
    ensures
        ({
            let steps = r.steps@;
            let first = frame::plan(cmds@.take(i as int), world, locals@, bitmaps@).len() as int;
            let end = frame::plan(cmds@.take(i + 1), world, locals@, bitmaps@).len() as int;
            let shared = frame::space_at(cmds@, i as int) == SpaceId::World;
            let painting = match cmds@[i as int] {
                RenderCommand::Clear(_) => true,
                RenderCommand::Draw(_) => true,
                RenderCommand::DrawBitmap(d) => bitmaps@.contains_key(d.bitmap_id),
                _ => false,
            };
            &&& 0 <= first <= end <= steps.len()
            &&& i == 0 ==> first == 0
            &&& i + 1 == cmds@.len() ==> end == steps.len()
            &&& !painting ==> end == first
            &&& painting && shared && world ==> end - first == 1
            &&& painting && shared && !world ==> end == first
            &&& painting && !shared ==> end - first == locals@.len()
            &&& first <= k < end && shared ==> steps[k].target is World
            &&& first <= k < end && !shared ==> steps[k].target == PaintTarget::Monitor(
                locals@[k - first],
            )
            &&& first <= k < end ==> match cmds@[i as int] {
                RenderCommand::Clear(c) => {
                    &&& steps[k].paint matches Paint::Clear(p)
                    &&& p.r == c.r
                    &&& p.g == c.g
                    &&& p.b == c.b
                    &&& p.a == c.a
                },
                RenderCommand::Draw(DrawCmd::FillRect { x, y, w, h, rgba }) => {
                    &&& steps[k].paint matches Paint::FillRect {
                        x: left,
                        y: top,
                        w: width,
                        h: height,
                        rgba: p,
                    }
                    &&& left == x
                    &&& top == y
                    &&& width == w
                    &&& height == h
                    &&& p.r == rgba.r
                    &&& p.g == rgba.g
                    &&& p.b == rgba.b
                    &&& p.a == rgba.a
                },
                RenderCommand::Draw(_) => {
                    &&& steps[k].paint matches Paint::Primitive(place)
                    &&& place == i
                },
                RenderCommand::DrawBitmap(d) => {
                    &&& steps[k].paint matches Paint::Bitmap { draw: p, bitmap }
                    &&& bitmap == bitmaps@[d.bitmap_id]
                    &&& p.bitmap_id == d.bitmap_id
                    &&& p.src_x == d.src_x
                    &&& p.src_y == d.src_y
                    &&& p.src_w == d.src_w
                    &&& p.src_h == d.src_h
                    &&& p.dst_x == d.dst_x
                    &&& p.dst_y == d.dst_y
                    &&& p.dst_w == d.dst_w
                    &&& p.dst_h == d.dst_h
                    &&& p.opacity == d.opacity
                    &&& p.interp_mode == d.interp_mode
                },
                _ => false,
            }
        }),
{
    plans_grow(cmds@, i as int, world, locals@, bitmaps@);
    plans_grow(cmds@, i + 1, world, locals@, bitmaps@);
    assert(cmds@.take(i + 1).drop_last() =~= cmds@.take(i as int));
    assert(cmds@.take(cmds@.len() as int) =~= cmds@);
    assert(i == 0 ==> cmds@.take(i as int) =~= seq![]);
    let whole = frame::plan(cmds@, world, locals@, bitmaps@);
    let before = frame::plan(cmds@.take(i as int), world, locals@, bitmaps@);
    let upto = frame::plan(cmds@.take(i + 1), world, locals@, bitmaps@);
    if before.len() <= k < upto.len() {
        assert(whole.take(upto.len() as int)[k] == whole[k]);
    }
}

/// A frame starts in the shared space. A push makes its space the current one; a
/// pop goes back to the space below, and stays where there is none; any other
/// command leaves the spaces as they are.
pub proof fn spaces_nest(cmds: Seq<RenderCommand>, i: int)
    requires
        0 <= i < cmds.len(),
    ensures
        frame::space_at(cmds, 0) == SpaceId::World,
        ({
            let before = frame::stack_after(cmds.take(i));
            let after = frame::stack_after(cmds.take(i + 1));
            &&& before.len() == 0 ==> frame::space_at(cmds, i) == SpaceId::World
            &&& before.len() > 0 ==> frame::space_at(cmds, i) == before[before.len() - 1]
            &&& cmds[i] matches RenderCommand::PushSpace(s) ==> {
                &&& frame::space_at(cmds, i + 1) == s
                &&& after.len() == before.len() + 1
                &&& after.take(before.len() as int) == before
            }
            &&& cmds[i] is PopSpace && before.len() > 0 ==> after == before.take(before.len() - 1)
            &&& cmds[i] is PopSpace && before.len() == 0 ==> after == before
            &&& !(cmds[i] is PushSpace) && !(cmds[i] is PopSpace) ==> after == before
                && frame::space_at(cmds, i + 1) == frame::space_at(cmds, i)
        }),
{
    assert(cmds.take(0) =~= seq![]);
    assert(cmds.take(i + 1).drop_last() =~= cmds.take(i));
    let before = frame::stack_after(cmds.take(i));
    let after = frame::stack_after(cmds.take(i + 1));
    if cmds[i] is PushSpace {
        assert(after.take(before.len() as int) =~= before);
    }
    if cmds[i] is PopSpace && before.len() > 0 {
        assert(after =~= before.take(before.len() - 1));
    }
}

/// A space that is pushed and popped again leaves the stack as it was, whatever
/// was painted in it.
pub proof fn popped_spaces_leave_no_trace(
    cmds: Seq<RenderCommand>,
    space: SpaceId,
    inside: Seq<RenderCommand>,
)
    requires
        forall|i: int|
            0 <= i < inside.len() ==> !(#[trigger] inside[i] is PushSpace) && !(
            inside[i] is PopSpace),
    ensures
        ({
            let pushed = cmds.push(RenderCommand::PushSpace(space)) + inside;
            &&& frame::stack_after(pushed) == frame::stack_after(cmds).push(space)
            &&& frame::stack_after(pushed.push(RenderCommand::PopSpace)) == frame::stack_after(cmds)
        }),
    decreases inside.len(),
{
    let start = cmds.push(RenderCommand::PushSpace(space));
    let pushed = start + inside;
    assert(start.drop_last() =~= cmds);
    if inside.len() == 0 {
        assert(pushed =~= start);
        assert(frame::stack_after(start) == frame::stack_after(cmds).push(space));
    } else {
        popped_spaces_leave_no_trace(cmds, space, inside.drop_last());
        assert(pushed.drop_last() =~= start + inside.drop_last());
        assert(pushed.last() == inside[inside.len() - 1]);
        assert(frame::stack_after(pushed) == frame::stack_after(pushed.drop_last()));
    }
    assert(frame::stack_after(pushed) == frame::stack_after(cmds).push(space));
    let popped = pushed.push(RenderCommand::PopSpace);
    assert(popped.drop_last() =~= pushed);
    assert(popped.last() is PopSpace);
    assert(frame::stack_after(cmds).push(space).drop_last() =~= frame::stack_after(cmds));
    assert(frame::stack_after(popped) == frame::stack_after(pushed).drop_last());
}

/// A frame uses a space just where one of its commands that can paint runs in it.
pub proof fn used_spaces_are_painted_in(cmds: Seq<RenderCommand>, space: SpaceId)
    ensures
        frame::uses(cmds, space) <==> exists|i: int|
            0 <= i < cmds.len() && (#[trigger] cmds[i] is Clear || cmds[i] is Draw
                || cmds[i] is DrawBitmap) && frame::space_at(cmds, i) == space,
{
    if exists|i: int|
        0 <= i < cmds.len() && (#[trigger] cmds[i] is Clear || cmds[i] is Draw
            || cmds[i] is DrawBitmap) && frame::space_at(cmds, i) == space {
        let i = choose|i: int|
            0 <= i < cmds.len() && (#[trigger] cmds[i] is Clear || cmds[i] is Draw
                || cmds[i] is DrawBitmap) && frame::space_at(cmds, i) == space;
        assert(frame::paints(cmds[i]));
    }
    if frame::uses(cmds, space) {
        let i = choose|i: int|
            0 <= i < cmds.len() && frame::paints(#[trigger] cmds[i]) && frame::space_at(cmds, i)
                == space;
        assert(cmds[i] is Clear || cmds[i] is Draw || cmds[i] is DrawBitmap);
    }
}

/// What is acquired for a frame is what it uses: the shared target, and each
/// monitor's surface of the canvas.
pub proof fn used_targets_are_acquired(
    cmds: &[RenderCommand],
    canvas: &Canvas,
    usage: TargetUsage,
    r: AcquireTargets,
    monitor_id: u32,
)
    requires
        call_ensures(frame::scan_targets, (cmds,), usage),
        call_ensures(frame::targets_to_acquire, (usage, canvas), r),
    ensures
        r.world == frame::uses(cmds@, SpaceId::World),
        r.monitors@.contains(monitor_id) <==> frame::uses(cmds@, SpaceId::MonitorLocal)
            && canvas@.surfaces.contains_key(monitor_id),
{
}

/// The shared target is presented first, then each monitor's, in their order.
pub proof fn the_shared_target_is_presented_first(world: bool, locals: Seq<u32>, i: int)
    ensures
        ({
            let order = frame::presented(world, locals);
            &&& order.len() == locals.len() + if world {
                1int
            } else {
                0int
            }
            &&& world ==> order[0] is World
            &&& world && 0 <= i < locals.len() ==> order[i + 1] == PaintTarget::Monitor(locals[i])
            &&& !world && 0 <= i < locals.len() ==> order[i] == PaintTarget::Monitor(locals[i])
        }),
{
}

/// A bitmap is drawn from its own source rectangle to its own destination, with
/// its own opacity and mode and the handle that was given.
pub proof fn bitmaps_are_drawn_as_asked(draw: BitmapDrawCommand, bitmap: u32, r: DrawCmd)
    requires
        call_ensures(frame::draw_bitmap_command, (&draw, bitmap), r),
    ensures
        r matches DrawCmd::DrawBitmap {
            bitmap: handle,
            src_x,
            src_y,
            src_w,
            src_h,
            dst_x,
            dst_y,
            dst_w,
            dst_h,
            opacity,
            interp_mode,
        } && {
            &&& handle == bitmap
            &&& src_x == draw.src_x
            &&& src_y == draw.src_y
            &&& src_w == draw.src_w
            &&& src_h == draw.src_h
            &&& dst_x == draw.dst_x
            &&& dst_y == draw.dst_y
            &&& dst_w == draw.dst_w
            &&& dst_h == draw.dst_h
            &&& opacity == draw.opacity
            &&& interp_mode == draw.interp_mode
        },
{
}

/// A filled box has four bytes for each of its pixels, blue, green, red and alpha
/// in this order, and its rows lie one after the other.
pub proof fn filled_boxes_hold_their_colour(
    b: FillBox,
    colour: Bgra,
    r: FilledBox,
    x: int,
    y: int,
)
    requires
        call_ensures(frame::fill_pixels, (b, colour), r),
        0 <= x < b.right - b.left,
        0 <= y < b.bottom - b.top,
    ensures
        r.row_pitch == 4 * (b.right - b.left),
        r.bytes@.len() == 4 * ((b.right - b.left) * (b.bottom - b.top)),
        ({
            let at = y * r.row_pitch + 4 * x;
            &&& 0 <= at && at + 3 < r.bytes@.len()
            &&& r.bytes@[at] == colour.b
            &&& r.bytes@[at + 1] == colour.g
            &&& r.bytes@[at + 2] == colour.r
            &&& r.bytes@[at + 3] == colour.a
        }),
{
    let w = b.right - b.left;
    let h = b.bottom - b.top;
    let at = y * r.row_pitch + 4 * x;
    assert(r.row_pitch == 4 * w);
    assert(at == 4 * (y * w + x)) by (nonlinear_arith)
        requires
            at == y * r.row_pitch + 4 * x,
            r.row_pitch == 4 * w,
    ;
    assert(0 <= y * w + x < w * h) by (nonlinear_arith)
        requires
            0 <= x < w,
            0 <= y < h,
    ;
}

/// A pixel is filled just where it lies in the rectangle and on the target; where none
/// does there is no box.
pub proof fn filled_boxes_are_on_the_target(
    render_w: u32,
    render_h: u32,
    x0: u32,
    y0: u32,
    x1: u32,
    y1: u32,
    r: Option<FillBox>,
    x: u32,
    y: u32,
)
    requires
        call_ensures(frame::fill_box, (render_w, render_h, x0, y0, x1, y1), r),
    ensures
        r matches Some(b) ==> b.left < b.right <= render_w && b.top < b.bottom <= render_h,
        r matches Some(b) ==> (b.left <= x < b.right && b.top <= y < b.bottom <==> x0 <= x < x1 && y0
            <= y < y1 && x < render_w && y < render_h),
        r is None ==> !(x0 <= x < x1 && y0 <= y < y1 && x < render_w && y < render_h),
{
}

/// Each target that a frame was painted on is presented once: the shared one first,
/// then the monitors' in their order.
pub proof fn painted_targets_are_presented(
    world: bool,
    locals: &[u32],
    r: Vec<PaintTarget>,
    i: int,
)
    requires
        call_ensures(frame::present_order, (world, locals), r),
    ensures
        world ==> r@.len() == locals@.len() + 1 && r@[0] is World,
        !world ==> r@.len() == locals@.len(),
        world && 0 <= i < locals@.len() ==> r@[i + 1] == PaintTarget::Monitor(locals@[i]),
        !world && 0 <= i < locals@.len() ==> r@[i] == PaintTarget::Monitor(locals@[i]),
{
}

} // verus!
