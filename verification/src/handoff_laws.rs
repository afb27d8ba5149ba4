//! What holds of hand-overs from beginning to end.

use vstd::prelude::*;

use crate::consistency;
use crate::handoff;
use crate::handoff::{
    Attach, AttachProgress, AttachStage, HostCall, HostReply, OutputHandoff, OutputProgress,
    OutputStage,
};
use crate::operations;
use crate::operations::{
    Attaching, AttachingProgress, JoinProgressView, JoiningView, Part, RegisterProgress,
    Registering,
};
use crate::protocol::MonitorRequestStatus;
use crate::server::{MonitorRegistration, MonitorSurface, SceneOutput, ServerError, ServerModel};

verus! {

/// Whether the state is one in which a hand-over can stand where it stands: its
/// monitor is there, and once the shared surface is handed over the canvas is
/// marked as shown on the monitor.
pub open spec fn attach_ready(m: ServerModel, a: Attach) -> bool {
    &&& m.monitors.contains_key(a.monitor_id)
    &&& (a.stage == AttachStage::CreateSurface || a.stage == AttachStage::DuplicateLocal || a.stage
        == AttachStage::SendLocal) && m.canvases.contains_key(a.canvas_id)
        ==> m.canvases[a.canvas_id].attached.contains(a.monitor_id)
}

/// Whether the state is one in which an operation can wait for the hand-over.
pub open spec fn part_ready(m: ServerModel, part: Part) -> bool {
    match part {
        Part::Attach(a) => attach_ready(m, a),
        Part::Output(_) => true,
    }
}

/// A hand-over of a canvas keeps the state consistent at every step, and leaves
/// it ready for the next one.
pub proof fn attaching_stays_consistent(m: ServerModel, a: Attach, reply: HostReply)
    requires
        m.wf(),
        attach_ready(m, a),
    ensures
        handoff::attach_step(m, a, reply).0.wf(),
        handoff::attach_step(m, a, reply).0.monitors == m.monitors,
        handoff::attach_step(m, a, reply).1 matches AttachProgress::Call(next, _) ==> attach_ready(
            handoff::attach_step(m, a, reply).0,
            next,
        ) && next.canvas_id == a.canvas_id && next.monitor_id == a.monitor_id,
{
    let c = a.canvas_id;
    let w = a.monitor_id;
    if m.canvases.contains_key(c) {
        if a.stage == AttachStage::SendWorld && reply == HostReply::Done {
            consistency::attaching_is_consistent(m, c, w);
        }
        if a.stage == AttachStage::CreateSurface {
            if let HostReply::Surface(surface) = reply {
                consistency::surfaces_are_consistent(m, c, w, surface);
            }
        }
    }
}

/// A hand-over of an output keeps the state consistent at every step.
pub proof fn output_stays_consistent(m: ServerModel, o: OutputHandoff, reply: HostReply)
    requires
        m.wf(),
    ensures
        handoff::output_step(m, o, reply).0.wf(),
        handoff::output_step(m, o, reply).0.monitors == m.monitors,
{
    let w = o.monitor_id;
    match reply {
        HostReply::Output(output) => {
            consistency::outputs_are_consistent(m, w, output);
        },
        _ => {
            let output = SceneOutput {
                handle: 0,
                logical_w: 0,
                logical_h: 0,
                render_w: 0,
                render_h: 0,
            };
            consistency::outputs_are_consistent(m, w, output);
        },
    }
}

/// An output that its monitor does not learn of is not kept.
pub proof fn failed_outputs_are_taken_back(m: ServerModel, o: OutputHandoff, reply: HostReply)
    requires
        o.stage != OutputStage::CreateOutput,
    ensures
        handoff::output_step(m, o, reply).1 matches OutputProgress::Done(Err(_))
            ==> !handoff::output_step(m, o, reply).0.outputs.contains_key(o.monitor_id),
{
}

/// Where the host does all that it is asked, the monitor is sent the shared
/// surface first and its own surface second, both in its own process, and ends
/// up attached with a surface of its own.
pub proof fn surfaces_are_handed_over_in_order(
    m: ServerModel,
    canvas_id: u32,
    monitor_id: u32,
    world: u64,
    surface: MonitorSurface,
    local: u64,
)
    requires
        m.show_error(canvas_id, monitor_id) is None,
        !m.canvases[canvas_id].surfaces.contains_key(monitor_id),
    ensures
        ({
            let canvas = m.canvases[canvas_id];
            let a = Attach { canvas_id, monitor_id, stage: AttachStage::OpenProcess };
            let attached = m.mark_attached(canvas_id, monitor_id);
            let complete = attached.with_surface(canvas_id, monitor_id, surface);
            let at = |stage: AttachStage| Attach { canvas_id, monitor_id, stage };
            &&& handoff::attach_begin(m, canvas_id, monitor_id) == AttachProgress::Call(
                a,
                HostCall::OpenProcess { pid: m.monitors[monitor_id].pid },
            )
            &&& handoff::attach_step(m, a, HostReply::Done) == (
                m,
                AttachProgress::Call(
                    at(AttachStage::DuplicateWorld),
                    HostCall::Duplicate { handle: canvas.surface_handle },
                ),
            )
            &&& handoff::attach_step(
                m,
                at(AttachStage::DuplicateWorld),
                HostReply::Duplicated(world),
            ) == (
                m,
                AttachProgress::Call(
                    at(AttachStage::SendWorld),
                    HostCall::Send {
                        monitor_id,
                        message: handoff::world_message(canvas, canvas_id, world),
                    },
                ),
            )
            &&& handoff::attach_step(m, at(AttachStage::SendWorld), HostReply::Done) == (
                attached,
                AttachProgress::Call(
                    at(AttachStage::CreateSurface),
                    HostCall::CreateSurface {
                        canvas_id,
                        monitor_id,
                        logical_w: canvas.logical_w,
                        logical_h: canvas.logical_h,
                    },
                ),
            )
            &&& handoff::attach_step(
                attached,
                at(AttachStage::CreateSurface),
                HostReply::Surface(surface),
            ) == (
                complete,
                AttachProgress::Call(
                    at(AttachStage::DuplicateLocal),
                    HostCall::Duplicate { handle: surface.handle },
                ),
            )
            &&& handoff::attach_step(
                complete,
                at(AttachStage::DuplicateLocal),
                HostReply::Duplicated(local),
            ) == (
                complete,
                AttachProgress::Call(
                    at(AttachStage::SendLocal),
                    HostCall::Send {
                        monitor_id,
                        message: handoff::local_message(surface, canvas_id, monitor_id, local),
                    },
                ),
            )
            &&& handoff::attach_step(complete, at(AttachStage::SendLocal), HostReply::Done) == (
                complete,
                AttachProgress::Done(Ok(())),
            )
            &&& complete.canvases[canvas_id].attached.contains(monitor_id)
            &&& complete.canvases[canvas_id].surfaces[monitor_id] == surface
        }),
{
}

/// Once the shared surface is handed over, no failure of the host undoes it: the
/// hand-over ends in success with the canvas marked as shown.
pub proof fn the_shared_surface_is_enough(m: ServerModel, a: Attach, reply: HostReply)
    requires
        m.canvases.contains_key(a.canvas_id),
        attach_ready(m, a),
        a.stage == AttachStage::CreateSurface || a.stage == AttachStage::DuplicateLocal || a.stage
            == AttachStage::SendLocal,
    ensures
        handoff::attach_step(m, a, reply).1 matches AttachProgress::Done(r) ==> r == Ok::<
            (),
            ServerError,
        >(()),
        handoff::attach_step(m, a, reply).0.canvases[a.canvas_id].attached.contains(a.monitor_id),
{
}

proof fn register_on_attach_consistent(
    m: ServerModel,
    monitor_id: u32,
    canvas_id: u32,
    p: AttachProgress,
)
    requires
        m.wf(),
        m.monitors.contains_key(monitor_id),
        p matches AttachProgress::Call(a, _) ==> attach_ready(m, a),
    ensures
        ({
            let (after, r) = operations::register_on_attach(m, monitor_id, canvas_id, p);
            &&& after.wf()
            &&& after.monitors.contains_key(monitor_id)
            &&& r matches RegisterProgress::Call(next, _) ==> part_ready(after, next.part)
                && next.monitor_id == monitor_id
        }),
{
    if p matches AttachProgress::Done(Ok(_)) {
        if m.show_error(canvas_id, monitor_id) is None {
            consistency::showing_is_consistent(m, canvas_id, monitor_id);
        }
    }
}

/// A registration keeps the state consistent when it begins.
pub proof fn registration_begins_consistent(m: ServerModel, r: MonitorRegistration)
    requires
        m.wf(),
        m.next_monitor_id < u32::MAX,
    ensures
        operations::register_begin(m, r).0.wf(),
        operations::register_begin(m, r).0.monitors.contains_key(m.next_monitor_id),
        operations::register_begin(m, r).1 matches RegisterProgress::Call(next, _) ==> part_ready(
            operations::register_begin(m, r).0,
            next.part,
        ) && next.monitor_id == m.next_monitor_id,
{
    let id = m.next_monitor_id;
    let entered = m.with_monitor(r);
    consistency::registering_a_monitor_is_consistent(m, r);
    if let Some(app_id) = r.owner_app_id {
        if let Some(canvas_id) = r.target_canvas_id {
            register_on_attach_consistent(
                entered,
                id,
                canvas_id,
                handoff::attach_begin(entered, canvas_id, id),
            );
        }
    }
}

/// A registration keeps the state consistent at every step.
pub proof fn registration_stays_consistent(m: ServerModel, r: Registering, reply: HostReply)
    requires
        m.wf(),
        m.monitors.contains_key(r.monitor_id),
        part_ready(m, r.part),
    ensures
        operations::register_step(m, r, reply).0.wf(),
        operations::register_step(m, r, reply).0.monitors.contains_key(r.monitor_id),
        operations::register_step(m, r, reply).1 matches RegisterProgress::Call(next, _)
            ==> part_ready(operations::register_step(m, r, reply).0, next.part) && next.monitor_id
            == r.monitor_id,
{
    match r.part {
        Part::Attach(a) => {
            attaching_stays_consistent(m, a, reply);
            let (after, p) = handoff::attach_step(m, a, reply);
            register_on_attach_consistent(after, r.monitor_id, r.canvas_id, p);
        },
        Part::Output(o) => {
            output_stays_consistent(m, o, reply);
        },
    }
}

/// An app's request for a monitor keeps the state consistent when it begins.
pub proof fn request_begins_consistent(
    m: ServerModel,
    app_id: u32,
    canvas_id: u32,
    monitor_id: u32,
)
    requires
        m.wf(),
    ensures
        operations::attaching_begin(m, app_id, canvas_id, monitor_id).0.wf(),
        operations::attaching_begin(
            m,
            app_id,
            canvas_id,
            monitor_id,
        ).1 matches AttachingProgress::Call(next, _) ==> part_ready(
            operations::attaching_begin(m, app_id, canvas_id, monitor_id).0,
            next.part,
        ),
{
    if operations::attaching_error(m, app_id, canvas_id, monitor_id) is None {
        consistency::showing_is_consistent(m, m.resolve(app_id, canvas_id)->0, monitor_id);
    }
}

/// An app's request for a monitor keeps the state consistent at every step.
pub proof fn request_stays_consistent(m: ServerModel, a: Attaching, reply: HostReply)
    requires
        m.wf(),
        part_ready(m, a.part),
    ensures
        operations::attaching_step(m, a, reply).0.wf(),
        operations::attaching_step(m, a, reply).1 matches AttachingProgress::Call(next, _)
            ==> part_ready(operations::attaching_step(m, a, reply).0, next.part),
{
    match a.part {
        Part::Attach(part) => {
            attaching_stays_consistent(m, part, reply);
        },
        Part::Output(part) => {
            output_stays_consistent(m, part, reply);
        },
    }
}

/// What holds of a joining's progress: the state is consistent and ready, and no
/// more than `limit` widgets are or can still be joined.
pub open spec fn join_is_sound(m: ServerModel, p: JoinProgressView, limit: nat) -> bool {
    &&& m.wf()
    &&& match p {
        JoinProgressView::Call(j, _) => part_ready(m, j.part) && j.attached.len() + j.rest.len() + (
        if j.part is Attach {
            1nat
        } else {
            0nat
        }) <= limit,
        JoinProgressView::Done(status, ids) => ids.len() <= limit && (status
            == MonitorRequestStatus::Success <==> ids.len() > 0),
    }
}

proof fn join_next_is_sound(
    m: ServerModel,
    app_id: u32,
    canvas_id: u32,
    rest: Seq<u32>,
    attached: Seq<u32>,
    limit: nat,
)
    requires
        m.wf(),
        attached.len() + rest.len() <= limit,
    ensures
        ({
            let (after, p) = operations::join_next(m, app_id, canvas_id, rest, attached);
            join_is_sound(after, p, limit)
        }),
    decreases rest.len(),
{
    reveal_with_fuel(operations::join_next, 4);
    reveal_with_fuel(operations::join_output, 4);
    reveal_with_fuel(operations::join_on_output, 4);
    reveal_with_fuel(operations::join_on_attach, 4);
    if rest.len() > 0 {
        let w = rest[0];
        let tail = rest.skip(1);
        if m.layer_error(app_id, canvas_id, w) is Some {
            join_next_is_sound(m, app_id, canvas_id, tail, attached, limit);
        } else {
            let c = m.resolve(app_id, canvas_id)->0;
            let shown = m.show(c, w);
            consistency::showing_is_consistent(m, c, w);
            join_next_is_sound(shown, app_id, canvas_id, tail, attached.push(w), limit);
            join_next_is_sound(shown, app_id, canvas_id, tail, attached, limit);
        }
    }
}

/// A joining keeps the state consistent when it begins, and joins no more widgets
/// than the app asked for.
pub proof fn joining_begins_consistent(m: ServerModel, app_id: u32, requested: u32, count: u32)
    requires
        m.wf(),
    ensures
        ({
            let (after, p) = operations::join_begin(m, app_id, requested, count);
            join_is_sound(after, p, count as nat)
        }),
{
    if let Some(canvas_id) = m.resolve(app_id, requested) {
        let widgets = crate::tables::ascending_of(m.open_widgets());
        let chosen = widgets.take(vstd::math::min(widgets.len() as int, count as int));
        if chosen.len() > 0 {
            join_next_is_sound(m, app_id, canvas_id, chosen, seq![], count as nat);
        }
    }
}

/// A joining keeps the state consistent at every step, and stays within the
/// number of widgets that the app asked for.
pub proof fn joining_stays_consistent(
    m: ServerModel,
    j: JoiningView,
    call: HostCall,
    reply: HostReply,
    limit: nat,
)
    requires
        join_is_sound(m, JoinProgressView::Call(j, call), limit),
    ensures
        ({
            let (after, p) = operations::join_step(m, j, reply);
            join_is_sound(after, p, limit)
        }),
{
    reveal_with_fuel(operations::join_on_output, 2);
    reveal_with_fuel(operations::join_output, 2);
    reveal_with_fuel(operations::join_on_attach, 3);
    match j.part {
        Part::Attach(a) => {
            attaching_stays_consistent(m, a, reply);
            let (after, p) = handoff::attach_step(m, a, reply);
            join_next_is_sound(
                after,
                j.app_id,
                j.canvas_id,
                j.rest,
                j.attached.push(j.monitor_id),
                limit,
            );
            join_next_is_sound(after, j.app_id, j.canvas_id, j.rest, j.attached, limit);
        },
        Part::Output(o) => {
            output_stays_consistent(m, o, reply);
            let (after, p) = handoff::output_step(m, o, reply);
            join_next_is_sound(after, j.app_id, j.canvas_id, j.rest, j.attached, limit);
        },
    }
}

} // verus!
