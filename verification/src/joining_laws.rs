//! What holds when an app joins the widgets that are open.

use vstd::prelude::*;

use crate::handoff;
use crate::handoff::{HostCall, HostReply, OutputProgress};
use crate::operations;
use crate::operations::{JoinProgress, JoinProgressView, Joining, Part};
use crate::protocol::MonitorRequestStatus;
use crate::scene;
use crate::server::{ServerModel, ServerState};
use crate::tables;

verus! {

/// Every field of a join is read under its own name.
pub proof fn joins_keep_every_field(j: Joining, p: JoinProgress)
    ensures
        j@.app_id == j.app_id,
        j@.canvas_id == j.canvas_id,
        j@.monitor_id == j.monitor_id,
        j@.rest == j.rest@,
        j@.attached == j.attached@,
        j@.part == j.part,
        p is Call <==> p@ is Call,
        p matches JoinProgress::Call(next, call) ==> p@ == JoinProgressView::Call(next@, call),
        p matches JoinProgress::Done(status, ids) ==> p@ == JoinProgressView::Done(status, ids@),
{
}

/// The widgets that any app may join are those of the game bar that nobody owns
/// and that were opened by hand.
pub proof fn open_widgets_are_unowned(m: ServerModel, monitor_id: u32)
    ensures
        m.open_widgets().contains(monitor_id) <==> m.monitors.contains_key(monitor_id)
            && m.monitors[monitor_id].kind is GameBar && m.monitors[monitor_id].owner_app_id is None
            && m.monitors[monitor_id].manual_lifecycle,
{
}

/// A join is refused where the app has no such canvas, and where no widget is open
/// or none was asked for; then nothing changes. Otherwise the widget with the
/// least identifier is joined first: the canvas is put on its scene, and handed
/// over from the widget's process on, unless some canvas is shown there already.
pub proof fn joins_begin_with_the_first_widget(
    s: &mut ServerState,
    app_id: u32,
    requested: u32,
    count: u32,
    p: JoinProgress,
    first: u32,
)
    requires
        call_ensures(
            ServerState::attach_game_bar_monitor_for_app,
            (s, app_id, requested, count),
            p,
        ),
        old(s)@.wf(),
    ensures
        old(s)@.resolve(app_id, requested) is None ==> {
            &&& p@ matches JoinProgressView::Done(status, ids)
            &&& status is InvalidCanvas
            &&& ids.len() == 0
            &&& final(s)@ == old(s)@
        },
        old(s)@.resolve(app_id, requested) is Some && (count == 0 || forall|w: u32|
            !old(s)@.open_widgets().contains(w)) ==> {
            &&& p@ matches JoinProgressView::Done(status, ids)
            &&& status is ManualOpenRequired
            &&& ids.len() == 0
            &&& final(s)@ == old(s)@
        },
        old(s)@.resolve(app_id, requested) is Some && count > 0
            && old(s)@.open_widgets().contains(first) && (forall|w: u32|
            old(s)@.open_widgets().contains(w) ==> first <= w) && !old(s)@.attached_anywhere(first)
            ==> {
            &&& p@ matches JoinProgressView::Call(j, HostCall::OpenProcess { pid })
            &&& pid == old(s)@.monitors[first].pid
            &&& j.app_id == app_id
            &&& Some(j.canvas_id) == old(s)@.resolve(app_id, requested)
            &&& j.monitor_id == first
            &&& j.attached.len() == 0
            &&& j.rest.len() < count
            &&& on_scene(final(s)@, first, j.canvas_id)
        },
{
    let m = old(s)@;
    let widgets = tables::ascending_of(m.open_widgets());
    if m.resolve(app_id, requested) is Some {
        let c = m.resolve(app_id, requested)->0;
        assert(m.owns(app_id, c));
        assert(m.canvases.contains_key(c));
        assert(tables::lists(widgets, m.open_widgets()));
        if forall|w: u32| !m.open_widgets().contains(w) {
            if widgets.len() > 0 {
                assert(widgets.contains(widgets[0]));
                assert(m.open_widgets().contains(widgets[0]));
            }
        }
        if count > 0 && m.open_widgets().contains(first) && (forall|w: u32|
            m.open_widgets().contains(w) ==> first <= w) && !m.attached_anywhere(first) {
            assert(widgets.contains(first));
            let k = choose|k: int| 0 <= k < widgets.len() && widgets[k] == first;
            assert(widgets.contains(widgets[0]));
            assert(m.open_widgets().contains(widgets[0]));
            assert(widgets[0] == first);
            reveal_with_fuel(operations::join_next, 4);
            showing_puts_on_scene(m, c, first);
        }
    }
}

/// Whether a monitor's scene has a visible layer of a canvas.
pub open spec fn on_scene(m: ServerModel, monitor_id: u32, canvas_id: u32) -> bool {
    m.scenes.contains_key(monitor_id) && exists|i: int|
        0 <= i < m.scenes[monitor_id].layers.len() && (
        #[trigger] m.scenes[monitor_id].layers[i]).canvas_id == canvas_id
            && m.scenes[monitor_id].layers[i].window.visible
}

/// A canvas that is shown on a monitor is on its scene.
proof fn showing_puts_on_scene(m: ServerModel, canvas_id: u32, monitor_id: u32)
    ensures
        on_scene(m.show(canvas_id, monitor_id), monitor_id, canvas_id),
{
    let canvas = m.canvases[canvas_id];
    let before = m.scene_for(canvas_id, monitor_id);
    scene::joined_layers_show_the_window(before, canvas.owner_app_id, canvas_id, canvas.window());
    let after = before.with_layer(canvas.owner_app_id, canvas_id, canvas.window());
    let i = choose|i: int|
        0 <= i < after.layers.len() && (#[trigger] after.layers[i]).canvas_id == canvas_id
            && after.layers[i].window == canvas.window();
    assert(m.show(canvas_id, monitor_id).scenes[monitor_id].layers[i].window.visible);
}

/// What a join still has to come to, and what it came to: the monitors counted so
/// far stay in front, those added are taken from the ones that were left, and all
/// that are counted have the canvas on their scene. It ends well just where some
/// monitor is counted.
pub open spec fn joins_on(
    after: ServerModel,
    p: JoinProgressView,
    app_id: u32,
    canvas_id: u32,
    rest: Seq<u32>,
    attached: Seq<u32>,
) -> bool {
    match p {
        JoinProgressView::Call(j, _) => {
            &&& j.app_id == app_id
            &&& j.canvas_id == canvas_id
            &&& attached.len() <= j.attached.len()
            &&& forall|k: int|
                0 <= k < attached.len() ==> attached[k] == #[trigger] j.attached[k]
            &&& forall|k: int|
                attached.len() <= k < j.attached.len() ==> rest.contains(#[trigger] j.attached[k])
            &&& forall|k: int| 0 <= k < j.rest.len() ==> rest.contains(#[trigger] j.rest[k])
            &&& rest.contains(j.monitor_id)
            &&& on_scene(after, j.monitor_id, canvas_id)
            &&& forall|k: int|
                0 <= k < j.attached.len() ==> on_scene(after, #[trigger] j.attached[k], canvas_id)
        },
        JoinProgressView::Done(status, ids) => {
            &&& attached.len() <= ids.len()
            &&& forall|k: int| 0 <= k < attached.len() ==> attached[k] == #[trigger] ids[k]
            &&& forall|k: int|
                attached.len() <= k < ids.len() ==> rest.contains(#[trigger] ids[k])
            &&& forall|k: int|
                0 <= k < ids.len() ==> on_scene(after, #[trigger] ids[k], canvas_id)
            &&& ids.len() > 0 ==> status is Success
            &&& ids.len() == 0 ==> status is SpawnFailed
        },
    }
}

/// What goes on from fewer monitors left and more of them counted goes on from
/// all that were left.
proof fn joining_goes_on_from_more(
    after: ServerModel,
    p: JoinProgressView,
    app_id: u32,
    canvas_id: u32,
    rest: Seq<u32>,
    attached: Seq<u32>,
    tail: Seq<u32>,
    grown: Seq<u32>,
)
    requires
        joins_on(after, p, app_id, canvas_id, tail, grown),
        forall|k: int| 0 <= k < tail.len() ==> rest.contains(#[trigger] tail[k]),
        attached.len() <= grown.len(),
        forall|k: int| 0 <= k < attached.len() ==> attached[k] == #[trigger] grown[k],
        forall|k: int| attached.len() <= k < grown.len() ==> rest.contains(#[trigger] grown[k]),
    ensures
        joins_on(after, p, app_id, canvas_id, rest, attached),
{
    assert forall|x: u32| #[trigger] tail.contains(x) implies rest.contains(x) by {
        let k = choose|k: int| 0 <= k < tail.len() && tail[k] == x;
        assert(rest.contains(tail[k]));
    }
    match p {
        JoinProgressView::Call(j, _) => {
            assert forall|k: int| attached.len() <= k < j.attached.len() implies rest.contains(
                #[trigger] j.attached[k],
            ) by {
                if k < grown.len() {
                    assert(grown[k] == j.attached[k]);
                } else {
                    assert(tail.contains(j.attached[k]));
                }
            }
            assert forall|k: int| 0 <= k < attached.len() implies attached[k]
                == #[trigger] j.attached[k] by {
                assert(attached[k] == grown[k]);
            }
            assert forall|k: int| 0 <= k < j.rest.len() implies rest.contains(
                #[trigger] j.rest[k],
            ) by {
                assert(tail.contains(j.rest[k]));
            }
        },
        JoinProgressView::Done(_, ids) => {
            assert forall|k: int| attached.len() <= k < ids.len() implies rest.contains(
                #[trigger] ids[k],
            ) by {
                if k < grown.len() {
                    assert(grown[k] == ids[k]);
                } else {
                    assert(tail.contains(ids[k]));
                }
            }
            assert forall|k: int| 0 <= k < attached.len() implies attached[k]
                == #[trigger] ids[k] by {
                assert(attached[k] == grown[k]);
            }
        },
    }
}

/// Going on with the monitors that are left.
proof fn joining_goes_on(
    m: ServerModel,
    app_id: u32,
    canvas_id: u32,
    rest: Seq<u32>,
    attached: Seq<u32>,
)
    requires
        canvas_id != 0,
        forall|k: int| 0 <= k < attached.len() ==> on_scene(m, #[trigger] attached[k], canvas_id),
    ensures
        ({
            let (after, p) = operations::join_next(m, app_id, canvas_id, rest, attached);
            joins_on(after, p, app_id, canvas_id, rest, attached)
        }),
    decreases rest.len(),
{
    reveal_with_fuel(operations::join_next, 4);
    reveal_with_fuel(operations::join_output, 4);
    reveal_with_fuel(operations::join_on_output, 4);
    reveal_with_fuel(operations::join_on_attach, 4);
    if rest.len() > 0 {
        let w = rest[0];
        let tail = rest.skip(1);
        let (after, p) = operations::join_next(m, app_id, canvas_id, rest, attached);
        assert(rest.contains(w));
        assert forall|k: int| 0 <= k < tail.len() implies rest.contains(#[trigger] tail[k]) by {
            assert(rest[k + 1] == tail[k]);
        }
        if m.layer_error(app_id, canvas_id, w) is Some {
            joining_goes_on(m, app_id, canvas_id, tail, attached);
            joining_goes_on_from_more(
                after,
                p,
                app_id,
                canvas_id,
                rest,
                attached,
                tail,
                attached,
            );
        } else {
            let shown = m.show(canvas_id, w);
            assert(m.resolve(app_id, canvas_id)->0 == canvas_id);
            showing_puts_on_scene(m, canvas_id, w);
            assert forall|k: int| 0 <= k < attached.len() implies on_scene(
                shown,
                #[trigger] attached[k],
                canvas_id,
            ) by {
                let x = attached[k];
                if x != w {
                    let i = choose|i: int|
                        0 <= i < m.scenes[x].layers.len() && (
                        #[trigger] m.scenes[x].layers[i]).canvas_id == canvas_id
                            && m.scenes[x].layers[i].window.visible;
                    assert(shown.scenes[x].layers[i].window.visible);
                }
            }
            let grown = attached.push(w);
            assert forall|k: int| 0 <= k < grown.len() implies on_scene(
                shown,
                #[trigger] grown[k],
                canvas_id,
            ) by {
                if k < attached.len() {
                    assert(grown[k] == attached[k]);
                }
            }
            joining_goes_on(shown, app_id, canvas_id, tail, grown);
            if m.attached_anywhere(w) {
                assert((after, p) == operations::join_output(
                    shown,
                    app_id,
                    canvas_id,
                    w,
                    tail,
                    grown,
                ));
                match handoff::output_begin(shown, w) {
                    OutputProgress::Call(_, _) => {},
                    OutputProgress::Done(_) => {
                        joining_goes_on_from_more(
                            after,
                            p,
                            app_id,
                            canvas_id,
                            rest,
                            attached,
                            tail,
                            grown,
                        );
                    },
                }
            }
        }
    }
}

/// A join that goes on keeps what it has: the monitors that it has counted stay in
/// front, in their order; those that it adds are the one that it waited for and
/// ones that were left; and every monitor that it counts has the canvas on its
/// scene. It succeeds just where it counts some monitor, and then names them.
pub proof fn joins_count_the_monitors_that_show_the_canvas(
    s: &mut ServerState,
    j: Joining,
    reply: HostReply,
    p: JoinProgress,
    k: int,
)
    requires
        call_ensures(ServerState::continue_join, (s, j, reply), p),
        j@.canvas_id != 0,
        on_scene(old(s)@, j@.monitor_id, j@.canvas_id),
        forall|i: int|
            0 <= i < j@.attached.len() ==> on_scene(
                old(s)@,
                #[trigger] j@.attached[i],
                j@.canvas_id,
            ),
    ensures
        p@ matches JoinProgressView::Done(status, ids) ==> {
            &&& ids.len() > 0 ==> status is Success
            &&& ids.len() == 0 ==> status is SpawnFailed
            &&& ids.len() >= j@.attached.len()
            &&& 0 <= k < j@.attached.len() ==> ids[k] == j@.attached[k]
            &&& j@.attached.len() <= k < ids.len() ==> ids[k] == j@.monitor_id || j@.rest.contains(
                ids[k],
            )
            &&& 0 <= k < ids.len() ==> on_scene(final(s)@, ids[k], j@.canvas_id)
        },
        p@ matches JoinProgressView::Call(next, _) ==> {
            &&& next.app_id == j@.app_id
            &&& next.canvas_id == j@.canvas_id
            &&& next.attached.len() >= j@.attached.len()
            &&& 0 <= k < j@.attached.len() ==> next.attached[k] == j@.attached[k]
            &&& j@.attached.len() <= k < next.attached.len() ==> next.attached[k] == j@.monitor_id
                || j@.rest.contains(next.attached[k])
            &&& next.monitor_id == j@.monitor_id || j@.rest.contains(next.monitor_id)
            &&& on_scene(final(s)@, next.monitor_id, j@.canvas_id)
            &&& 0 <= k < next.attached.len() ==> on_scene(
                final(s)@,
                next.attached[k],
                j@.canvas_id,
            )
        },
{
    let m = old(s)@;
    let (after, _) = match j@.part {
        Part::Attach(a) => (handoff::attach_step(m, a, reply).0, 0int),
        Part::Output(o) => (handoff::output_step(m, o, reply).0, 0int),
    };
    assert(after.scenes == m.scenes);
    let w = j@.monitor_id;
    let c = j@.canvas_id;
    let grown = j@.attached.push(w);
    assert forall|x: u32| #[trigger] on_scene(m, x, c) implies on_scene(after, x, c) by {
        let i = choose|i: int|
            0 <= i < m.scenes[x].layers.len() && (#[trigger] m.scenes[x].layers[i]).canvas_id == c
                && m.scenes[x].layers[i].window.visible;
        assert(after.scenes[x].layers[i].window.visible);
    }
    assert forall|i: int| 0 <= i < grown.len() implies on_scene(after, #[trigger] grown[i], c) by {
        if i < j@.attached.len() {
            assert(grown[i] == j@.attached[i]);
        }
    }
    assert forall|i: int| 0 <= i < j@.attached.len() implies on_scene(
        after,
        #[trigger] j@.attached[i],
        c,
    ) by {}
    joining_goes_on(after, j@.app_id, c, j@.rest, j@.attached);
    joining_goes_on(after, j@.app_id, c, j@.rest, grown);
}

/// The last monitor of a join is counted where it took the canvas, and is not
/// where its process could not be opened; the join ends with what it has counted.
pub proof fn joined_monitors_are_counted(
    s: &mut ServerState,
    j: Joining,
    reply: HostReply,
    p: JoinProgress,
)
    requires
        call_ensures(ServerState::continue_join, (s, j, reply), p),
        old(s)@.canvases.contains_key(j@.canvas_id),
        old(s)@.outputs.contains_key(j@.monitor_id),
        j@.rest.len() == 0,
        j@.part is Attach,
        j@.part->Attach_0.canvas_id == j@.canvas_id,
    ensures
        j@.part->Attach_0.stage is SendLocal ==> p@ == JoinProgressView::Done(
            MonitorRequestStatus::Success,
            j@.attached.push(j@.monitor_id),
        ),
        j@.part->Attach_0.stage is OpenProcess && !(reply is Done) && j@.attached.len() > 0 ==> p@
            == JoinProgressView::Done(MonitorRequestStatus::Success, j@.attached),
        j@.part->Attach_0.stage is OpenProcess && !(reply is Done) && j@.attached.len() == 0 ==> p@
            == JoinProgressView::Done(MonitorRequestStatus::SpawnFailed, seq![]),
{
    reveal_with_fuel(operations::join_next, 4);
}

} // verus!
