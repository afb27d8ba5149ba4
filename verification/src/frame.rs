//! What a frame's commands paint, and on which targets.
//!
//! A frame has one target that all monitors share and one for each monitor. The
//! commands keep a stack of coordinate spaces, and each one that paints goes to
//! the targets of the space on top.

use std::collections::HashMap;
use vstd::prelude::*;

use crate::cmd_decoder::{BitmapDrawCommand, DrawCmd, F32Bits, RenderCommand, Rgba, SpaceId};
use crate::present::AcquireOutcome;
use crate::server::Canvas;
use crate::tables;
use crate::tables::sorted_keys;

verus! {

/// The space stack once the commands have run. A pop of the empty stack is ignored.
pub open spec fn stack_after(cmds: Seq<RenderCommand>) -> Seq<SpaceId>
    decreases cmds.len(),
{
    if cmds.len() == 0 {
        seq![]
    } else {
        let before = stack_after(cmds.drop_last());
        match cmds.last() {
            RenderCommand::PushSpace(s) => before.push(s),
            RenderCommand::PopSpace => if before.len() == 0 {
                before
            } else {
                before.drop_last()
            },
            _ => before,
        }
    }
}

/// The space on top of the stack: the shared one where the stack is empty.
pub open spec fn top_space(stack: Seq<SpaceId>) -> SpaceId {
    if stack.len() == 0 {
        SpaceId::World
    } else {
        stack.last()
    }
}

/// The space that command `i` runs in.
pub open spec fn space_at(cmds: Seq<RenderCommand>, i: int) -> SpaceId {
    top_space(stack_after(cmds.take(i)))
}

/// Whether a command paints.
pub open spec fn paints(cmd: RenderCommand) -> bool {
    cmd is Clear || cmd is Draw || cmd is DrawBitmap
}

/// Whether some command paints in a space.
pub open spec fn uses(cmds: Seq<RenderCommand>, space: SpaceId) -> bool {
    exists|i: int| 0 <= i < cmds.len() && paints(#[trigger] cmds[i]) && space_at(cmds, i) == space
}

/// Which targets a frame paints on.
#[derive(Debug, Clone, Copy, PartialEq, Eq, Structural)]
pub struct TargetUsage {
    pub world_used: bool,
    pub local_used: bool,
}

/// One command more: the spaces that were used before, and the one that it paints
/// in.
proof fn uses_grows(cmds: Seq<RenderCommand>, n: int, space: SpaceId)
    requires
        0 <= n < cmds.len(),
    ensures
        uses(cmds.take(n + 1), space) == (uses(cmds.take(n), space) || (paints(cmds[n])
            && space_at(cmds, n) == space)),
{
    let now = cmds.take(n + 1);
    let before = cmds.take(n);
    assert forall|i: int| 0 <= i <= n implies #[trigger] now.take(i) == cmds.take(i) by {
        assert(now.take(i) =~= cmds.take(i));
    }
    assert forall|i: int| 0 <= i < n implies #[trigger] before.take(i) == cmds.take(i) by {
        assert(before.take(i) =~= cmds.take(i));
    }
    assert forall|i: int| 0 <= i < n implies space_at(before, i) == #[trigger] space_at(now, i) by {
        assert(before.take(i) == now.take(i));
    }
    assert(space_at(now, n) == space_at(cmds, n)) by {
        assert(now.take(n) == cmds.take(n));
    }
    if uses(before, space) {
        let i = choose|i: int|
            0 <= i < before.len() && paints(#[trigger] before[i]) && space_at(before, i) == space;
        assert(now[i] == before[i]);
        assert(space_at(now, i) == space);
    }
    if paints(cmds[n]) && space_at(cmds, n) == space {
        assert(now[n] == cmds[n]);
    }
    if uses(now, space) {
        let i = choose|i: int|
            0 <= i < now.len() && paints(#[trigger] now[i]) && space_at(now, i) == space;
        if i < n {
            assert(before[i] == now[i]);
            assert(space_at(before, i) == space_at(now, i));
        }
    }
}

fn top(stack: &Vec<SpaceId>) -> (r: SpaceId)
    ensures
        r == top_space(stack@),
{
    if stack.len() == 0 {
        SpaceId::World
    } else {
        stack[stack.len() - 1]
    }
}

/// Runs a command on the space stack, and says whether it was a pop of the empty
/// one.
fn run_on_stack(stack: &mut Vec<SpaceId>, cmd: &RenderCommand) -> (ignored: bool)
    ensures
        final(stack)@ == match *cmd {
            RenderCommand::PushSpace(s) => old(stack)@.push(s),
            RenderCommand::PopSpace => if old(stack)@.len() == 0 {
                old(stack)@
            } else {
                old(stack)@.drop_last()
            },
            _ => old(stack)@,
        },
        ignored == (cmd is PopSpace && old(stack)@.len() == 0),
{
    match cmd {
        RenderCommand::PushSpace(s) => {
            stack.push(*s);
            false
        },
        RenderCommand::PopSpace => stack.pop().is_none(),
        _ => false,
    }
}

/// Which targets a frame's commands paint on, so that no buffer is acquired for one
/// that they do not.
pub fn scan_targets(cmds: &[RenderCommand]) -> (r: TargetUsage)
    ensures
        r.world_used == uses(cmds@, SpaceId::World),
        r.local_used == uses(cmds@, SpaceId::MonitorLocal),
{
    let mut stack: Vec<SpaceId> = Vec::new();
    let mut world_used = false;
    let mut local_used = false;
    let mut i: usize = 0;
    while i < cmds.len()
        invariant
            i <= cmds@.len(),
            stack@ == stack_after(cmds@.take(i as int)),
            world_used == uses(cmds@.take(i as int), SpaceId::World),
            local_used == uses(cmds@.take(i as int), SpaceId::MonitorLocal),
        decreases cmds@.len() - i,
    {
        proof {
            uses_grows(cmds@, i as int, SpaceId::World);
            uses_grows(cmds@, i as int, SpaceId::MonitorLocal);
            assert(cmds@.take(i + 1).drop_last() =~= cmds@.take(i as int));
        }
        let cmd = &cmds[i];
        match cmd {
            RenderCommand::Clear(_) | RenderCommand::Draw(_) | RenderCommand::DrawBitmap(_) => {
                match top(&stack) {
                    SpaceId::MonitorLocal => {
                        local_used = true;
                    },
                    SpaceId::World => {
                        world_used = true;
                    },
                }
            },
            _ => {},
        }
        let _ = run_on_stack(&mut stack, cmd);
        i = i + 1;
    }
    assert(cmds@.take(i as int) =~= cmds@);
    TargetUsage { world_used, local_used }
}

/// A target of a frame.
#[derive(Debug, Clone, Copy, PartialEq, Eq, Structural)]
pub enum PaintTarget {
    /// The one that all monitors share.
    World,
    /// That of one monitor.
    Monitor(u32),
}

/// What is painted on a target.
#[derive(Debug, Clone, Copy, PartialEq, Eq, Structural)]
pub enum Paint {
    /// The whole target, in one colour.
    Clear(Rgba),
    /// A rectangle, without the painter.
    FillRect { x: F32Bits, y: F32Bits, w: F32Bits, h: F32Bits, rgba: Rgba },
    /// The primitive that stands at this place in the frame.
    Primitive(usize),
    /// A bitmap, by the painter's handle.
    Bitmap { draw: BitmapDrawCommand, bitmap: u32 },
}

/// Something painted on a target.
#[derive(Debug, Clone, Copy, PartialEq, Eq, Structural)]
pub struct PaintStep {
    pub target: PaintTarget,
    pub paint: Paint,
}

/// The primitive that draws a bitmap by the painter's handle.
pub open spec fn bitmap_primitive(draw: BitmapDrawCommand, bitmap: u32) -> DrawCmd {
    DrawCmd::DrawBitmap {
        bitmap,
        src_x: draw.src_x,
        src_y: draw.src_y,
        src_w: draw.src_w,
        src_h: draw.src_h,
        dst_x: draw.dst_x,
        dst_y: draw.dst_y,
        dst_w: draw.dst_w,
        dst_h: draw.dst_h,
        opacity: draw.opacity,
        interp_mode: draw.interp_mode,
    }
}

/// The primitive that draws a bitmap by the painter's handle.
pub fn draw_bitmap_command(draw: &BitmapDrawCommand, bitmap: u32) -> (r: DrawCmd)
    ensures
        r == bitmap_primitive(*draw, bitmap),
{
    DrawCmd::DrawBitmap {
        bitmap,
        src_x: draw.src_x,
        src_y: draw.src_y,
        src_w: draw.src_w,
        src_h: draw.src_h,
        dst_x: draw.dst_x,
        dst_y: draw.dst_y,
        dst_w: draw.dst_w,
        dst_h: draw.dst_h,
        opacity: draw.opacity,
        interp_mode: draw.interp_mode,
    }
}

/// What the command at place `i` paints. A bitmap that was not loaded paints
/// nothing.
pub open spec fn paint_of(cmd: RenderCommand, i: usize, bitmaps: Map<u32, u32>) -> Option<Paint> {
    match cmd {
        RenderCommand::Clear(c) => Some(Paint::Clear(c)),
        RenderCommand::Draw(DrawCmd::FillRect { x, y, w, h, rgba }) => Some(
            Paint::FillRect { x, y, w, h, rgba },
        ),
        RenderCommand::Draw(_) => Some(Paint::Primitive(i)),
        RenderCommand::DrawBitmap(draw) => if bitmaps.contains_key(draw.bitmap_id) {
            Some(Paint::Bitmap { draw, bitmap: bitmaps[draw.bitmap_id] })
        } else {
            None
        },
        _ => None,
    }
}

/// The targets of the monitors.
pub open spec fn monitor_targets(locals: Seq<u32>) -> Seq<PaintTarget> {
    locals.map_values(|m: u32| PaintTarget::Monitor(m))
}

/// The targets of a space, of those that there are: `world` says whether the
/// shared one is there, `locals` which monitors have one.
pub open spec fn targets_of(space: SpaceId, world: bool, locals: Seq<u32>) -> Seq<PaintTarget> {
    match space {
        SpaceId::World => if world {
            seq![PaintTarget::World]
        } else {
            seq![]
        },
        SpaceId::MonitorLocal => monitor_targets(locals),
    }
}

/// The same thing painted on each target.
pub open spec fn painted_on(paint: Option<Paint>, targets: Seq<PaintTarget>) -> Seq<PaintStep> {
    match paint {
        Some(p) => targets.map_values(|t: PaintTarget| PaintStep { target: t, paint: p }),
        None => seq![],
    }
}

/// What a frame paints on the targets that there are, in order.
pub open spec fn plan(
    cmds: Seq<RenderCommand>,
    world: bool,
    locals: Seq<u32>,
    bitmaps: Map<u32, u32>,
) -> Seq<PaintStep>
    decreases cmds.len(),
{
    if cmds.len() == 0 {
        seq![]
    } else {
        let before = cmds.drop_last();
        plan(before, world, locals, bitmaps) + painted_on(
            paint_of(cmds.last(), before.len() as usize, bitmaps),
            targets_of(top_space(stack_after(before)), world, locals),
        )
    }
}

/// The pops of the empty stack among the commands.
pub open spec fn ignored_pops(cmds: Seq<RenderCommand>) -> nat
    decreases cmds.len(),
{
    if cmds.len() == 0 {
        0
    } else {
        let before = cmds.drop_last();
        ignored_pops(before) + if cmds.last() is PopSpace && stack_after(before).len() == 0 {
            1nat
        } else {
            0nat
        }
    }
}

/// What a frame paints, and how its commands misused the space stack.
#[derive(Debug)]
pub struct FramePlan {
    pub steps: Vec<PaintStep>,
    /// The pops of the empty stack.
    pub ignored_pops: usize,
    /// The spaces that were still on the stack at the end of the frame.
    pub open_spaces: usize,
}

/// Paints something on the targets of a space.
fn paint_on(
    steps: &mut Vec<PaintStep>,
    paint: Paint,
    space: SpaceId,
    world: bool,
    locals: &[u32],
)
    ensures
        final(steps)@ == old(steps)@ + painted_on(Some(paint), targets_of(space, world, locals@)),
{
    match space {
        SpaceId::World => {
            if world {
                steps.push(PaintStep { target: PaintTarget::World, paint });
            }
            assert(steps@ =~= old(steps)@ + painted_on(
                Some(paint),
                targets_of(space, world, locals@),
            ));
        },
        SpaceId::MonitorLocal => {
            let ghost all = painted_on(Some(paint), monitor_targets(locals@));
            let mut i: usize = 0;
            assert(all.take(0) =~= seq![]);
            while i < locals.len()
                invariant
                    i <= locals@.len(),
                    all == painted_on(Some(paint), monitor_targets(locals@)),
                    all.len() == locals@.len(),
                    steps@ == old(steps)@ + all.take(i as int),
                decreases locals@.len() - i,
            {
                steps.push(PaintStep { target: PaintTarget::Monitor(locals[i]), paint });
                assert(all.take(i + 1) =~= all.take(i as int).push(all[i as int]));
                i = i + 1;
            }
            assert(all.take(i as int) =~= all);
        },
    }
}

/// What a frame paints on the targets that there are: `world` says whether the
/// shared one is there, `locals` which monitors have one.
pub fn plan_frame(
    cmds: &[RenderCommand],
    world: bool,
    locals: &[u32],
    bitmaps: &HashMap<u32, u32>,
) -> (r: FramePlan)
    ensures
        r.steps@ == plan(cmds@, world, locals@, bitmaps@),
        r.ignored_pops == ignored_pops(cmds@),
        r.open_spaces == stack_after(cmds@).len(),
{
    let mut stack: Vec<SpaceId> = Vec::new();
    let mut steps: Vec<PaintStep> = Vec::new();
    let mut ignored: usize = 0;
    let mut i: usize = 0;
    while i < cmds.len()
        invariant
            i <= cmds@.len(),
            stack@ == stack_after(cmds@.take(i as int)),
            steps@ == plan(cmds@.take(i as int), world, locals@, bitmaps@),
            ignored == ignored_pops(cmds@.take(i as int)),
            ignored <= i,
        decreases cmds@.len() - i,
    {
        assert(cmds@.take(i + 1).drop_last() =~= cmds@.take(i as int));
        let ghost before = steps@;
        let cmd = &cmds[i];
        let space = top(&stack);
        match cmd {
            RenderCommand::Clear(c) => {
                paint_on(&mut steps, Paint::Clear(*c), space, world, locals);
            },
            RenderCommand::Draw(DrawCmd::FillRect { x, y, w, h, rgba }) => {
                let paint = Paint::FillRect { x: *x, y: *y, w: *w, h: *h, rgba: *rgba };
                paint_on(&mut steps, paint, space, world, locals);
            },
            RenderCommand::Draw(_) => {
                paint_on(&mut steps, Paint::Primitive(i), space, world, locals);
            },
            RenderCommand::DrawBitmap(draw) => {
                if let Some(bitmap) = bitmaps.get(&draw.bitmap_id) {
                    let paint = Paint::Bitmap { draw: *draw, bitmap: *bitmap };
                    paint_on(&mut steps, paint, space, world, locals);
                }
            },
            _ => {},
        }
        assert(steps@ =~= before + painted_on(
            paint_of(*cmd, i, bitmaps@),
            targets_of(space, world, locals@),
        ));
        if run_on_stack(&mut stack, cmd) {
            ignored = ignored + 1;
        }
        i = i + 1;
    }
    assert(cmds@.take(i as int) =~= cmds@);
    FramePlan { steps, ignored_pops: ignored, open_spaces: stack.len() }
}

/// The targets that are presented once a frame is painted, each for itself: the
/// shared one first.
pub open spec fn presented(world: bool, locals: Seq<u32>) -> Seq<PaintTarget> {
    targets_of(SpaceId::World, world, locals) + targets_of(SpaceId::MonitorLocal, world, locals)
}

/// The targets that are presented once a frame is painted.
pub fn present_order(world: bool, locals: &[u32]) -> (r: Vec<PaintTarget>)
    ensures
        r@ == presented(world, locals@),
{
    let mut order: Vec<PaintTarget> = Vec::new();
    if world {
        order.push(PaintTarget::World);
    }
    let ghost shared = order@;
    assert(shared =~= targets_of(SpaceId::World, world, locals@));
    let ghost all = monitor_targets(locals@);
    let mut i: usize = 0;
    assert(all.take(0) =~= seq![]);
    while i < locals.len()
        invariant
            i <= locals@.len(),
            all == monitor_targets(locals@),
            order@ == shared + all.take(i as int),
        decreases locals@.len() - i,
    {
        order.push(PaintTarget::Monitor(locals[i]));
        assert(all.take(i + 1) =~= all.take(i as int).push(all[i as int]));
        i = i + 1;
    }
    assert(all.take(i as int) =~= all);
    order
}

/// The targets for which a buffer is to be acquired.
#[derive(Debug)]
pub struct AcquireTargets {
    pub world: bool,
    pub monitors: Vec<u32>,
}

/// The targets of a canvas for which a frame needs a buffer.
pub fn targets_to_acquire(usage: TargetUsage, canvas: &Canvas) -> (r: AcquireTargets)
    ensures
        r.world == usage.world_used,
        r.monitors@ == if usage.local_used {
            tables::ascending_of(canvas@.surfaces.dom())
        } else {
            seq![]
        },
        usage.local_used ==> tables::lists(r.monitors@, canvas@.surfaces.dom()),
{
    let monitors = if usage.local_used {
        sorted_keys(&canvas.per_monitor_surfaces)
    } else {
        Vec::new()
    };
    AcquireTargets { world: usage.world_used, monitors }
}

/// The buffer that a frame may paint on, of a target with `buffers` of them. Where
/// there is none, this target alone is left out of the frame.
pub fn acquired_buffer(outcome: AcquireOutcome, buffers: usize) -> (r: Option<usize>)
    ensures
        r == (match outcome {
            AcquireOutcome::Acquired(i) if i < buffers => Some(i),
            _ => None::<usize>,
        }),
{
    match outcome {
        AcquireOutcome::Acquired(i) => if i < buffers {
            Some(i)
        } else {
            None
        },
        _ => None,
    }
}

/// The part of a target that a rectangle covers, in pixels.
#[derive(Debug, Clone, Copy, PartialEq, Eq, Structural)]
pub struct FillBox {
    pub left: u32,
    pub top: u32,
    pub right: u32,
    pub bottom: u32,
}

/// The smaller of two numbers.
pub open spec fn smaller(a: u32, b: u32) -> u32 {
    if a < b {
        a
    } else {
        b
    }
}

fn at_most(a: u32, b: u32) -> (r: u32)
    ensures
        r == smaller(a, b),
{
    if a < b {
        a
    } else {
        b
    }
}

/// The part of a target of `render_w` by `render_h` pixels that lies between two
/// corners, where there is any.
pub open spec fn clipped(render_w: u32, render_h: u32, x0: u32, y0: u32, x1: u32, y1: u32) -> Option<
    FillBox,
> {
    let left = smaller(x0, render_w);
    let top = smaller(y0, render_h);
    let right = smaller(x1, render_w);
    let bottom = smaller(y1, render_h);
    if left < right && top < bottom {
        Some(FillBox { left, top, right, bottom })
    } else {
        None
    }
}

/// The part of a target that lies between two corners, where there is any.
pub fn fill_box(render_w: u32, render_h: u32, x0: u32, y0: u32, x1: u32, y1: u32) -> (r: Option<
    FillBox,
>)
    ensures
        r == clipped(render_w, render_h, x0, y0, x1, y1),
{
    let left: u32 = at_most(x0, render_w);
    let top: u32 = at_most(y0, render_h);
    let right: u32 = at_most(x1, render_w);
    let bottom: u32 = at_most(y1, render_h);
    if right <= left || bottom <= top {
        return None;
    }
    Some(FillBox { left, top, right, bottom })
}

/// A pixel is filled where it lies in the target and in the rectangle, and nowhere
/// else.
pub proof fn filled_pixels_lie_in_both(
    render_w: u32,
    render_h: u32,
    x0: u32,
    y0: u32,
    x1: u32,
    y1: u32,
    x: u32,
    y: u32,
)
    ensures
        (clipped(render_w, render_h, x0, y0, x1, y1) matches Some(b) && b.left <= x < b.right && b.top
            <= y < b.bottom) <==> (x0 <= x < x1 && y0 <= y < y1 && x < render_w && y < render_h),
{
}

/// A colour as a pixel holds it.
#[derive(Debug, Clone, Copy, PartialEq, Eq, Structural)]
pub struct Bgra {
    pub b: u8,
    pub g: u8,
    pub r: u8,
    pub a: u8,
}

/// `count` pixels of one colour.
pub open spec fn solid(colour: Bgra, count: nat) -> Seq<u8> {
    Seq::new(
        4 * count,
        |i: int|
            if i % 4 == 0 {
                colour.b
            } else if i % 4 == 1 {
                colour.g
            } else if i % 4 == 2 {
                colour.r
            } else {
                colour.a
            },
    )
}

/// The pixels that a box of a target covers.
pub open spec fn box_pixels(b: FillBox) -> int {
    (b.right - b.left) * (b.bottom - b.top)
}

/// A box filled with a colour: its bytes and those of one of its rows.
#[derive(Debug)]
pub struct FilledBox {
    pub bytes: Vec<u8>,
    pub row_pitch: u32,
}

/// The bytes of a box that is filled with a colour, row by row.
pub fn fill_pixels(b: FillBox, colour: Bgra) -> (r: FilledBox)
    requires
        b.left < b.right,
        b.top < b.bottom,
        4 * box_pixels(b) <= u32::MAX,
    ensures
        r.bytes@ == solid(colour, box_pixels(b) as nat),
        r.row_pitch == 4 * (b.right - b.left),
{
    let width: u32 = b.right - b.left;
    let height: u32 = b.bottom - b.top;
    proof {
        assert(width * height >= width) by (nonlinear_arith)
            requires
                height >= 1,
                width >= 1,
        ;
    }
    let count: u32 = width * height;
    let mut bytes: Vec<u8> = Vec::new();
    let mut i: u32 = 0;
    while i < count
        invariant
            i <= count,
            bytes@ == solid(colour, i as nat),
        decreases count - i,
    {
        bytes.push(colour.b);
        bytes.push(colour.g);
        bytes.push(colour.r);
        bytes.push(colour.a);
        i = i + 1;
        assert(bytes@ =~= solid(colour, i as nat));
    }
    FilledBox { bytes, row_pitch: 4 * width }
}

/// Before the first push the shared space is the current one, however many pops
/// there are.
proof fn no_push_no_stack(cmds: Seq<RenderCommand>)
    requires
        forall|i: int| 0 <= i < cmds.len() ==> !(#[trigger] cmds[i] is PushSpace),
    ensures
        stack_after(cmds).len() == 0,
    decreases cmds.len(),
{
    if cmds.len() > 0 {
        assert forall|i: int| 0 <= i < cmds.drop_last().len() implies !(#[trigger] cmds.drop_last()[i]
            is PushSpace) by {
            assert(cmds.drop_last()[i] == cmds[i]);
        }
        no_push_no_stack(cmds.drop_last());
    }
}

/// A frame that pushes no space paints on the shared target alone.
pub proof fn plain_frames_paint_the_shared_target(cmds: Seq<RenderCommand>)
    requires
        forall|i: int| 0 <= i < cmds.len() ==> !(#[trigger] cmds[i] is PushSpace),
    ensures
        !uses(cmds, SpaceId::MonitorLocal),
{
    assert forall|i: int| 0 <= i < cmds.len() && paints(#[trigger] cmds[i]) implies space_at(cmds, i)
        == SpaceId::World by {
        let before = cmds.take(i);
        assert forall|j: int| 0 <= j < before.len() implies !(#[trigger] before[j] is PushSpace) by {
            assert(before[j] == cmds[j]);
        }
        no_push_no_stack(before);
    }
}

/// What is used by a frame's start is used by the frame.
proof fn unused_stays_unused(cmds: Seq<RenderCommand>, space: SpaceId)
    requires
        cmds.len() > 0,
        !uses(cmds, space),
    ensures
        !uses(cmds.drop_last(), space),
        paints(cmds.last()) ==> top_space(stack_after(cmds.drop_last())) != space,
{
    let n = cmds.len() - 1;
    uses_grows(cmds, n, space);
    assert(cmds.take(n + 1) =~= cmds);
    assert(cmds.take(n) =~= cmds.drop_last());
}

/// A frame that does not use the monitors' space paints the same whether or not
/// there are targets of monitors: none needs to be acquired.
pub proof fn unused_monitor_targets_are_not_missed(
    cmds: Seq<RenderCommand>,
    world: bool,
    locals: Seq<u32>,
    bitmaps: Map<u32, u32>,
)
    requires
        !uses(cmds, SpaceId::MonitorLocal),
    ensures
        plan(cmds, world, locals, bitmaps) == plan(cmds, world, seq![], bitmaps),
    decreases cmds.len(),
{
    if cmds.len() > 0 {
        unused_stays_unused(cmds, SpaceId::MonitorLocal);
        unused_monitor_targets_are_not_missed(cmds.drop_last(), world, locals, bitmaps);
    }
}

/// A frame that does not use the shared space paints the same whether or not the
/// shared target is there: it needs not be acquired.
pub proof fn unused_shared_target_is_not_missed(
    cmds: Seq<RenderCommand>,
    locals: Seq<u32>,
    bitmaps: Map<u32, u32>,
)
    requires
        !uses(cmds, SpaceId::World),
    ensures
        plan(cmds, true, locals, bitmaps) == plan(cmds, false, locals, bitmaps),
    decreases cmds.len(),
{
    if cmds.len() > 0 {
        unused_stays_unused(cmds, SpaceId::World);
        unused_shared_target_is_not_missed(cmds.drop_last(), locals, bitmaps);
    }
}

/// The steps on targets other than one.
pub open spec fn steps_elsewhere(steps: Seq<PaintStep>, target: PaintTarget) -> Seq<PaintStep> {
    steps.filter(|s: PaintStep| s.target != target)
}

/// Painting on all targets but one.
proof fn painting_elsewhere(paint: Option<Paint>, targets: Seq<PaintTarget>, gone: PaintTarget)
    ensures
        painted_on(paint, targets.filter(|t: PaintTarget| t != gone)) == steps_elsewhere(
            painted_on(paint, targets),
            gone,
        ),
    decreases targets.len(),
{
    reveal(Seq::filter);
    let keep = |t: PaintTarget| t != gone;
    if targets.len() > 0 {
        let before = targets.drop_last();
        painting_elsewhere(paint, before, gone);
        if paint is Some {
            assert(painted_on(paint, targets).drop_last() =~= painted_on(paint, before));
            assert(painted_on(paint, targets.filter(keep)) =~= steps_elsewhere(
                painted_on(paint, targets),
                gone,
            ));
        }
    } else {
        assert(painted_on(paint, targets) =~= seq![]);
        assert(targets.filter(keep) =~= seq![]);
    }
}

/// The targets of the monitors but one.
proof fn other_monitor_targets(locals: Seq<u32>, gone: u32)
    ensures
        monitor_targets(locals.filter(|m: u32| m != gone)) == monitor_targets(locals).filter(
            |t: PaintTarget| t != PaintTarget::Monitor(gone),
        ),
    decreases locals.len(),
{
    reveal(Seq::filter);
    let keep = |m: u32| m != gone;
    let kept = |t: PaintTarget| t != PaintTarget::Monitor(gone);
    if locals.len() > 0 {
        other_monitor_targets(locals.drop_last(), gone);
        assert(monitor_targets(locals).drop_last() =~= monitor_targets(locals.drop_last()));
        assert(monitor_targets(locals.filter(keep)) =~= monitor_targets(locals).filter(kept));
    } else {
        assert(monitor_targets(locals) =~= seq![]);
        assert(locals.filter(keep) =~= seq![]);
    }
}

/// Where the target of one monitor is left out of a frame, the frame paints on
/// every other target exactly what it would have painted.
pub proof fn a_lost_monitor_target_affects_no_other(
    cmds: Seq<RenderCommand>,
    world: bool,
    locals: Seq<u32>,
    bitmaps: Map<u32, u32>,
    gone: u32,
)
    ensures
        plan(cmds, world, locals.filter(|m: u32| m != gone), bitmaps) == steps_elsewhere(
            plan(cmds, world, locals, bitmaps),
            PaintTarget::Monitor(gone),
        ),
    decreases cmds.len(),
{
    let keep = |m: u32| m != gone;
    let target = PaintTarget::Monitor(gone);
    let off = |s: PaintStep| s.target != target;
    if cmds.len() > 0 {
        let before = cmds.drop_last();
        let space = top_space(stack_after(before));
        let paint = paint_of(cmds.last(), before.len() as usize, bitmaps);
        let targets = targets_of(space, world, locals);
        a_lost_monitor_target_affects_no_other(before, world, locals, bitmaps, gone);
        painting_elsewhere(paint, targets, target);
        assert(targets.filter(|t: PaintTarget| t != target) =~= targets_of(
            space,
            world,
            locals.filter(keep),
        )) by {
            reveal(Seq::filter);
            match space {
                SpaceId::World => {
                    reveal_with_fuel(Seq::filter, 2);
                },
                SpaceId::MonitorLocal => other_monitor_targets(locals, gone),
            }
        }
        Seq::filter_distributes_over_add(
            plan(before, world, locals, bitmaps),
            painted_on(paint, targets),
            off,
        );
    } else {
        reveal(Seq::filter);
    }
}

/// Where the shared target is left out of a frame, the frame paints on every
/// monitor's target exactly what it would have painted.
pub proof fn a_lost_shared_target_affects_no_other(
    cmds: Seq<RenderCommand>,
    locals: Seq<u32>,
    bitmaps: Map<u32, u32>,
)
    ensures
        plan(cmds, false, locals, bitmaps) == steps_elsewhere(
            plan(cmds, true, locals, bitmaps),
            PaintTarget::World,
        ),
    decreases cmds.len(),
{
    let off = |s: PaintStep| s.target != PaintTarget::World;
    if cmds.len() > 0 {
        let before = cmds.drop_last();
        let space = top_space(stack_after(before));
        let paint = paint_of(cmds.last(), before.len() as usize, bitmaps);
        let targets = targets_of(space, true, locals);
        a_lost_shared_target_affects_no_other(before, locals, bitmaps);
        painting_elsewhere(paint, targets, PaintTarget::World);
        assert(targets.filter(|t: PaintTarget| t != PaintTarget::World) =~= targets_of(
            space,
            false,
            locals,
        )) by {
            match space {
                SpaceId::World => {
                    reveal_with_fuel(Seq::filter, 2);
                },
                SpaceId::MonitorLocal => monitor_targets_are_not_shared(locals),
            }
        }
        Seq::filter_distributes_over_add(
            plan(before, true, locals, bitmaps),
            painted_on(paint, targets),
            off,
        );
    } else {
        reveal(Seq::filter);
    }
}

/// No monitor's target is the shared one.
proof fn monitor_targets_are_not_shared(locals: Seq<u32>)
    ensures
        monitor_targets(locals).filter(|t: PaintTarget| t != PaintTarget::World) == monitor_targets(
            locals,
        ),
    decreases locals.len(),
{
    reveal(Seq::filter);
    if locals.len() > 0 {
        monitor_targets_are_not_shared(locals.drop_last());
        assert(monitor_targets(locals).drop_last() =~= monitor_targets(locals.drop_last()));
        assert(monitor_targets(locals).filter(|t: PaintTarget| t != PaintTarget::World)
            =~= monitor_targets(locals));
    }
}

} // verus!
