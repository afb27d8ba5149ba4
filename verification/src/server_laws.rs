//! What the server's operations do to its state, and what they leave alone.

use vstd::prelude::*;

use crate::protocol::MonitorRequestStatus;
use crate::scene;
use crate::scene::{MonitorMetrics, MonitorScene, VirtualWindow};
use crate::server::{
    App, Canvas, CanvasView, MonitorRegistration, MonitorSurface, SceneOutput, ServerError,
    ServerModel, ServerState,
};

verus! {

/// Every field of an app, a canvas, a scene and of the state itself is read under
/// its own name.
pub proof fn views_keep_every_field(
    app: App,
    canvas: Canvas,
    scene: MonitorScene,
    state: ServerState,
    id: u32,
)
    ensures
        app@.id == app.id,
        app@.pid == app.pid,
        app@.canvas_ids == app.canvas_ids@,
        app@.bitmap_handles == app.bitmap_handles@,
        canvas@.id == canvas.id,
        canvas@.owner_app_id == canvas.owner_app_id,
        canvas@.owner_pid == canvas.owner_pid,
        canvas@.logical_w == canvas.logical_w,
        canvas@.logical_h == canvas.logical_h,
        canvas@.render_w == canvas.render_w,
        canvas@.render_h == canvas.render_h,
        canvas@.surface_handle == canvas.surface_handle,
        canvas@.surfaces == canvas.per_monitor_surfaces@,
        canvas@.attached == canvas.attached_monitor_ids@,
        scene@.monitor_id == scene.monitor_id,
        scene@.metrics == scene.metrics,
        scene@.layers == scene.layers@,
        scene@.next_layer_id == scene.next_layer_id,
        state@.monitors == state.monitors@,
        state@.outputs == state.monitor_scene_outputs@,
        state@.next_app_id == state.next_app_id,
        state@.next_monitor_id == state.next_monitor_id,
        state@.next_canvas_id == state.next_canvas_id,
        state@.apps.contains_key(id) == state.apps@.contains_key(id),
        state@.apps.contains_key(id) ==> state@.apps[id] == state.apps@[id]@,
        state@.canvases.contains_key(id) == state.canvases@.contains_key(id),
        state@.canvases.contains_key(id) ==> state@.canvases[id] == state.canvases@[id]@,
        state@.scenes.contains_key(id) == state.monitor_scenes@.contains_key(id),
        state@.scenes.contains_key(id) ==> state@.scenes[id] == state.monitor_scenes@[id]@,
{
}

/// A state starts with nothing in it, and gives out identifiers from one on.
pub proof fn a_new_state_holds_nothing(id: u32)
    ensures
        ({
            let m = ServerModel::empty();
            &&& !m.apps.contains_key(id)
            &&& !m.monitors.contains_key(id)
            &&& !m.canvases.contains_key(id)
            &&& !m.scenes.contains_key(id)
            &&& !m.outputs.contains_key(id)
            &&& m.next_app_id == 1
            &&& m.next_monitor_id == 1
            &&& m.next_canvas_id == 1
        }),
{
}

/// An app is entered under the next identifier, with its process and nothing
/// else; the next app gets the identifier after it, and all else stays.
pub proof fn apps_enter_with_their_process(m: ServerModel, pid: u32, other: u32)
    requires
        m.next_app_id < u32::MAX,
    ensures
        ({
            let after = m.with_app(pid);
            let id = m.next_app_id;
            &&& after.apps.contains_key(id)
            &&& after.apps[id].id == id
            &&& after.apps[id].pid == pid
            &&& after.apps[id].canvas_ids.len() == 0
            &&& forall|b: u32| !after.apps[id].bitmap_handles.contains_key(b)
            &&& after.next_app_id == id + 1
            &&& other != id ==> after.apps.contains_key(other) == m.apps.contains_key(other)
            &&& other != id && m.apps.contains_key(other) ==> after.apps[other] == m.apps[other]
            &&& after.monitors == m.monitors
            &&& after.canvases == m.canvases
            &&& after.scenes == m.scenes
            &&& after.outputs == m.outputs
            &&& after.next_monitor_id == m.next_monitor_id
            &&& after.next_canvas_id == m.next_canvas_id
        }),
{
}

/// A monitor is entered under the next identifier as it registered: its process,
/// kind, owner, target, request, mode, flags and lifecycle. The core manages it
/// just where it is a desktop window that an app owns and does not run by hand.
pub proof fn monitors_enter_as_registered(m: ServerModel, r: MonitorRegistration, other: u32)
    requires
        m.next_monitor_id < u32::MAX,
    ensures
        ({
            let after = m.with_monitor(r);
            let id = m.next_monitor_id;
            let entered = after.monitors[id];
            &&& after.monitors.contains_key(id)
            &&& entered.id == id
            &&& entered.pid == r.pid
            &&& entered.kind == r.kind
            &&& entered.owner_app_id == r.owner_app_id
            &&& entered.target_canvas_id == r.target_canvas_id
            &&& entered.start_request_id == r.request_id
            &&& entered.manual_lifecycle == r.manual_lifecycle
            &&& entered.mode == r.mode
            &&& entered.flags == r.flags
            &&& entered.core_managed <==> r.kind is DesktopWindow && r.owner_app_id is Some
                && !r.manual_lifecycle
            &&& after.next_monitor_id == id + 1
            &&& other != id ==> after.monitors.contains_key(other) == m.monitors.contains_key(other)
            &&& other != id && m.monitors.contains_key(other) ==> after.monitors[other]
                == m.monitors[other]
            &&& after.apps == m.apps
            &&& after.canvases == m.canvases
            &&& after.scenes == m.scenes
            &&& after.outputs == m.outputs
            &&& after.next_app_id == m.next_app_id
            &&& after.next_canvas_id == m.next_canvas_id
        }),
{
}

/// A canvas is entered under the next identifier with the sizes that were asked
/// for, each in its own field, its owner and the owner's process and the surface
/// that the host made; no monitor shows it yet. It is the owner's last canvas,
/// and all else stays.
pub proof fn canvases_enter_as_asked_for(
    m: ServerModel,
    owner_id: u32,
    logical_w: u32,
    logical_h: u32,
    render_w: u32,
    render_h: u32,
    surface_handle: u64,
    other: u32,
)
    requires
        m.apps.contains_key(owner_id),
        m.next_canvas_id < u32::MAX,
    ensures
        ({
            let after = m.with_canvas(
                owner_id,
                logical_w,
                logical_h,
                render_w,
                render_h,
                surface_handle,
            );
            let id = m.next_canvas_id;
            let entered = after.canvases[id];
            let before = m.apps[owner_id];
            let owner = after.apps[owner_id];
            &&& after.canvases.contains_key(id)
            &&& entered.id == id
            &&& entered.owner_app_id == owner_id
            &&& entered.owner_pid == before.pid
            &&& entered.logical_w == logical_w
            &&& entered.logical_h == logical_h
            &&& entered.render_w == render_w
            &&& entered.render_h == render_h
            &&& entered.surface_handle == surface_handle
            &&& forall|w: u32| !entered.surfaces.contains_key(w)
            &&& forall|w: u32| !entered.attached.contains(w)
            &&& after.next_canvas_id == id + 1
            &&& after.apps.contains_key(owner_id)
            &&& owner.id == before.id
            &&& owner.pid == before.pid
            &&& owner.bitmap_handles == before.bitmap_handles
            &&& owner.canvas_ids.len() == before.canvas_ids.len() + 1
            &&& owner.canvas_ids.last() == id
            &&& owner.canvas_ids.drop_last() == before.canvas_ids
            &&& other != id ==> after.canvases.contains_key(other) == m.canvases.contains_key(other)
            &&& other != id && m.canvases.contains_key(other) ==> after.canvases[other]
                == m.canvases[other]
            &&& other != owner_id ==> after.apps.contains_key(other) == m.apps.contains_key(other)
            &&& other != owner_id && m.apps.contains_key(other) ==> after.apps[other]
                == m.apps[other]
            &&& after.monitors == m.monitors
            &&& after.scenes == m.scenes
            &&& after.outputs == m.outputs
            &&& after.next_app_id == m.next_app_id
            &&& after.next_monitor_id == m.next_monitor_id
        }),
{
}

/// A request for canvas zero means the first canvas that the app created. A
/// request for any other means just that canvas. Either is granted where the app
/// has the canvas, and not otherwise.
pub proof fn zero_names_the_first_canvas(m: ServerModel, app_id: u32, requested: u32)
    ensures
        ({
            let known = m.apps.contains_key(app_id);
            let own = m.apps[app_id].canvas_ids;
            &&& requested == 0 && known && own.len() > 0 ==> m.resolve(app_id, requested) == Some(
                own[0],
            )
            &&& requested != 0 && known && own.contains(requested) ==> m.resolve(app_id, requested)
                == Some(requested)
            &&& m.resolve(app_id, requested) is Some ==> known && own.contains(
                m.resolve(app_id, requested)->0,
            )
            &&& m.resolve(app_id, requested) is Some && requested != 0 ==> m.resolve(
                app_id,
                requested,
            )->0 == requested
        }),
{
}

/// An app has just the canvases that are listed for it.
pub proof fn apps_have_the_listed_canvases(m: ServerModel, app_id: u32, i: int, canvas_id: u32)
    ensures
        m.apps.contains_key(app_id) && 0 <= i < m.apps[app_id].canvas_ids.len() ==> m.owns(
            app_id,
            m.apps[app_id].canvas_ids[i],
        ),
        m.owns(app_id, canvas_id) ==> m.apps.contains_key(app_id) && exists|k: int|
            0 <= k < m.apps[app_id].canvas_ids.len() && #[trigger] m.apps[app_id].canvas_ids[k]
                == canvas_id,
{
}

/// An app may put a canvas on a monitor just where it has the canvas and the
/// monitor is its own, or nobody's and opened by hand. Each refusal names its
/// reason: first the canvas, then the monitor's absence, then whose it is.
pub proof fn layers_go_on_own_and_open_monitors(
    m: ServerModel,
    app_id: u32,
    requested: u32,
    monitor_id: u32,
)
    requires
        m.resolve(app_id, requested) matches Some(c) ==> m.canvases.contains_key(c),
    ensures
        ({
            let granted = m.resolve(app_id, requested) is Some;
            let present = m.monitors.contains_key(monitor_id);
            let monitor = m.monitors[monitor_id];
            let error = m.layer_error(app_id, requested, monitor_id);
            &&& !granted ==> error == Some(ServerError::CanvasNotOwned { app_id })
            &&& granted && !present ==> error == Some(ServerError::MonitorNotFound)
            &&& granted && present && monitor.owner_app_id == Some(app_id) ==> error is None
            &&& granted && present && monitor.owner_app_id is None && monitor.manual_lifecycle
                ==> error is None
            &&& granted && present && monitor.owner_app_id is None && !monitor.manual_lifecycle
                ==> error == Some(ServerError::MonitorNotShared { monitor_id })
            &&& granted && present && monitor.owner_app_id is Some && monitor.owner_app_id->0
                != app_id ==> error == Some(ServerError::MonitorNotOwned { app_id, monitor_id })
        }),
{
}

/// A canvas can be shown on a monitor just where both are there; the monitor is
/// looked for first.
pub proof fn showing_needs_both(m: ServerModel, canvas_id: u32, monitor_id: u32)
    ensures
        m.monitors.contains_key(monitor_id) && m.canvases.contains_key(canvas_id) ==> m.show_error(
            canvas_id,
            monitor_id,
        ) is None,
        !m.monitors.contains_key(monitor_id) ==> m.show_error(canvas_id, monitor_id) == Some(
            ServerError::MonitorNotFound,
        ),
        m.monitors.contains_key(monitor_id) && !m.canvases.contains_key(canvas_id) ==> m.show_error(
            canvas_id,
            monitor_id,
        ) == Some(ServerError::CanvasNotFound),
{
}

/// What holds of a canvas but which monitors show it.
pub open spec fn same_but_attached(a: CanvasView, b: CanvasView) -> bool {
    &&& a.id == b.id
    &&& a.owner_app_id == b.owner_app_id
    &&& a.owner_pid == b.owner_pid
    &&& a.logical_w == b.logical_w
    &&& a.logical_h == b.logical_h
    &&& a.render_w == b.render_w
    &&& a.render_h == b.render_h
    &&& a.surface_handle == b.surface_handle
}

/// Showing a canvas on a monitor puts one layer of it on that monitor's scene:
/// its owner's, visible, over the canvas's whole logical size. The identifier
/// that is given back is that layer's. The monitor is now among those that show
/// the canvas, and no other monitor's scene, canvas, app or output changes. A
/// scene that had to be made measures what the canvas does.
pub proof fn shown_canvases_have_a_whole_layer(
    m: ServerModel,
    canvas_id: u32,
    monitor_id: u32,
    other: u32,
)
    requires
        m.show_error(canvas_id, monitor_id) is None,
    ensures
        ({
            let canvas = m.canvases[canvas_id];
            let after = m.show(canvas_id, monitor_id);
            let scene = after.scenes[monitor_id];
            &&& after.scenes.contains_key(monitor_id)
            &&& exists|i: int|
                0 <= i < scene.layers.len() && {
                    let layer = #[trigger] scene.layers[i];
                    &&& layer.canvas_id == canvas_id
                    &&& layer.app_id == canvas.owner_app_id
                    &&& layer.id == m.shown_layer(canvas_id, monitor_id)
                    &&& layer.window.visible
                    &&& layer.window.x == 0
                    &&& layer.window.y == 0
                    &&& layer.window.logical_w == canvas.logical_w
                    &&& layer.window.logical_h == canvas.logical_h
                }
            &&& m.scenes.contains_key(monitor_id) ==> scene.monitor_id
                == m.scenes[monitor_id].monitor_id && scene.metrics == m.scenes[monitor_id].metrics
            &&& !m.scenes.contains_key(monitor_id) ==> scene.monitor_id == monitor_id
                && scene.metrics.logical_w == canvas.logical_w && scene.metrics.logical_h
                == canvas.logical_h && scene.layers.len() == 1
            &&& after.canvases.contains_key(canvas_id)
            &&& same_but_attached(after.canvases[canvas_id], canvas)
            &&& after.canvases[canvas_id].surfaces == canvas.surfaces
            &&& forall|w: u32|
                after.canvases[canvas_id].attached.contains(w) <==> w == monitor_id
                    || canvas.attached.contains(w)
            &&& other != canvas_id ==> after.canvases.contains_key(other)
                == m.canvases.contains_key(other)
            &&& other != canvas_id && m.canvases.contains_key(other) ==> after.canvases[other]
                == m.canvases[other]
            &&& other != monitor_id ==> after.scenes.contains_key(other) == m.scenes.contains_key(
                other,
            )
            &&& other != monitor_id && m.scenes.contains_key(other) ==> after.scenes[other]
                == m.scenes[other]
            &&& after.apps == m.apps
            &&& after.monitors == m.monitors
            &&& after.outputs == m.outputs
        }),
{
    let canvas = m.canvases[canvas_id];
    scene::joined_layers_show_the_window(
        m.scene_for(canvas_id, monitor_id),
        canvas.owner_app_id,
        canvas_id,
        canvas.window(),
    );
}

/// A monitor that took a canvas shows it; no other monitor starts to, and all
/// else stays.
pub proof fn attaching_marks_one_monitor(
    m: ServerModel,
    canvas_id: u32,
    monitor_id: u32,
    other: u32,
)
    requires
        m.canvases.contains_key(canvas_id),
    ensures
        ({
            let after = m.mark_attached(canvas_id, monitor_id);
            &&& same_but_attached(after.canvases[canvas_id], m.canvases[canvas_id])
            &&& after.canvases[canvas_id].surfaces == m.canvases[canvas_id].surfaces
            &&& after.canvases[canvas_id].attached.contains(monitor_id)
            &&& other != monitor_id ==> after.canvases[canvas_id].attached.contains(other)
                == m.canvases[canvas_id].attached.contains(other)
            &&& after.canvases.dom() == m.canvases.dom()
            &&& other != canvas_id && m.canvases.contains_key(other) ==> after.canvases[other]
                == m.canvases[other]
            &&& after.apps == m.apps
            &&& after.monitors == m.monitors
            &&& after.scenes == m.scenes
            &&& after.outputs == m.outputs
        }),
{
    assert(m.mark_attached(canvas_id, monitor_id).canvases.dom() =~= m.canvases.dom());
}

/// A canvas's own surface for a monitor is kept for that monitor, and an output
/// for its scene; a taken back output is gone. Nothing else changes.
pub proof fn surfaces_and_outputs_are_kept_by_monitor(
    m: ServerModel,
    canvas_id: u32,
    monitor_id: u32,
    surface: MonitorSurface,
    output: SceneOutput,
    other: u32,
)
    requires
        m.canvases.contains_key(canvas_id),
    ensures
        ({
            let surfaced = m.with_surface(canvas_id, monitor_id, surface);
            let canvas = surfaced.canvases[canvas_id];
            &&& canvas.surfaces.contains_key(monitor_id)
            &&& canvas.surfaces[monitor_id] == surface
            &&& other != monitor_id ==> canvas.surfaces.contains_key(other)
                == m.canvases[canvas_id].surfaces.contains_key(other)
            &&& other != monitor_id && canvas.surfaces.contains_key(other) ==> canvas.surfaces[other]
                == m.canvases[canvas_id].surfaces[other]
            &&& same_but_attached(canvas, m.canvases[canvas_id])
            &&& canvas.attached == m.canvases[canvas_id].attached
            &&& surfaced.canvases.dom() == m.canvases.dom()
            &&& other != canvas_id && m.canvases.contains_key(other) ==> surfaced.canvases[other]
                == m.canvases[other]
            &&& surfaced.apps == m.apps
            &&& surfaced.monitors == m.monitors
            &&& surfaced.scenes == m.scenes
            &&& surfaced.outputs == m.outputs
        }),
        ({
            let put = m.with_output(monitor_id, output);
            let taken = m.without_output(monitor_id);
            &&& put.outputs.contains_key(monitor_id)
            &&& put.outputs[monitor_id] == output
            &&& !taken.outputs.contains_key(monitor_id)
            &&& other != monitor_id ==> put.outputs.contains_key(other) == m.outputs.contains_key(
                other,
            ) && taken.outputs.contains_key(other) == m.outputs.contains_key(other)
            &&& other != monitor_id && m.outputs.contains_key(other) ==> put.outputs[other]
                == m.outputs[other] && taken.outputs[other] == m.outputs[other]
            &&& put.apps == m.apps && taken.apps == m.apps
            &&& put.monitors == m.monitors && taken.monitors == m.monitors
            &&& put.canvases == m.canvases && taken.canvases == m.canvases
            &&& put.scenes == m.scenes && taken.scenes == m.scenes
        }),
{
    assert(m.with_surface(canvas_id, monitor_id, surface).canvases.dom() =~= m.canvases.dom());
}

/// An app that leaves takes its canvases and its layers with it. A scene stays
/// just where another app has a layer on it, with those layers in their order;
/// its output stays with it. No monitor leaves.
pub proof fn apps_take_their_canvases_and_layers(
    m: ServerModel,
    app_id: u32,
    canvas_id: u32,
    monitor_id: u32,
)
    requires
        m.wf(),
        m.apps.contains_key(app_id),
    ensures
        ({
            let after = m.without_app(app_id);
            let others = m.scenes[monitor_id].layers.filter(
                |l: scene::MonitorLayer| l.app_id != app_id,
            );
            &&& !after.apps.contains_key(app_id)
            &&& after.canvases.contains_key(canvas_id) <==> m.canvases.contains_key(canvas_id)
                && m.canvases[canvas_id].owner_app_id != app_id
            &&& after.canvases.contains_key(canvas_id) ==> after.canvases[canvas_id]
                == m.canvases[canvas_id]
            &&& after.scenes.contains_key(monitor_id) <==> m.scenes.contains_key(monitor_id)
                && others.len() > 0
            &&& after.scenes.contains_key(monitor_id) ==> after.scenes[monitor_id].layers == others
                && after.scenes[monitor_id].metrics == m.scenes[monitor_id].metrics
                && after.scenes[monitor_id].monitor_id == m.scenes[monitor_id].monitor_id
                && after.scenes[monitor_id].next_layer_id == m.scenes[monitor_id].next_layer_id
            &&& after.outputs.contains_key(monitor_id) <==> m.outputs.contains_key(monitor_id)
                && others.len() > 0
            &&& after.outputs.contains_key(monitor_id) ==> after.outputs[monitor_id]
                == m.outputs[monitor_id]
            &&& after.monitors == m.monitors
            &&& after.next_app_id == m.next_app_id
            &&& after.next_monitor_id == m.next_monitor_id
            &&& after.next_canvas_id == m.next_canvas_id
        }),
{
    let own = m.apps[app_id].canvas_ids;
    assert(own.to_set().contains(canvas_id) <==> m.owns(app_id, canvas_id));
    if m.outputs.contains_key(monitor_id) {
        assert(m.scenes.contains_key(monitor_id));
    }
    if m.canvases.contains_key(canvas_id) {
        assert(m.owns(m.canvases[canvas_id].owner_app_id, canvas_id));
    }
}

/// A monitor that leaves takes its scene and output with it, and each canvas's
/// surface for it. The canvases stay, with all else that is theirs.
pub proof fn monitors_take_their_scene(
    m: ServerModel,
    monitor_id: u32,
    canvas_id: u32,
    other: u32,
)
    requires
        other != monitor_id,
    ensures
        ({
            let after = m.without_monitor(monitor_id);
            let canvas = after.canvases[canvas_id];
            &&& !after.monitors.contains_key(monitor_id)
            &&& !after.scenes.contains_key(monitor_id)
            &&& !after.outputs.contains_key(monitor_id)
            &&& after.monitors.contains_key(other) == m.monitors.contains_key(other)
            &&& m.monitors.contains_key(other) ==> after.monitors[other] == m.monitors[other]
            &&& after.scenes.contains_key(other) == m.scenes.contains_key(other)
            &&& m.scenes.contains_key(other) ==> after.scenes[other] == m.scenes[other]
            &&& after.outputs.contains_key(other) == m.outputs.contains_key(other)
            &&& m.outputs.contains_key(other) ==> after.outputs[other] == m.outputs[other]
            &&& after.canvases.contains_key(canvas_id) == m.canvases.contains_key(canvas_id)
            &&& m.canvases.contains_key(canvas_id) ==> {
                &&& same_but_attached(canvas, m.canvases[canvas_id])
                &&& !canvas.attached.contains(monitor_id)
                &&& !canvas.surfaces.contains_key(monitor_id)
                &&& canvas.attached.contains(other) == m.canvases[canvas_id].attached.contains(
                    other,
                )
                &&& canvas.surfaces.contains_key(other)
                    == m.canvases[canvas_id].surfaces.contains_key(other)
                &&& canvas.surfaces.contains_key(other) ==> canvas.surfaces[other]
                    == m.canvases[canvas_id].surfaces[other]
            }
            &&& after.apps == m.apps
            &&& after.next_app_id == m.next_app_id
            &&& after.next_monitor_id == m.next_monitor_id
            &&& after.next_canvas_id == m.next_canvas_id
        }),
{
}

/// An app can stop just the monitors that it owns and that the core runs for it.
/// Each refusal names its reason: the monitor is not there, is not the app's, or
/// is not the core's to close.
pub proof fn stopping_needs_an_own_managed_monitor(m: ServerModel, app_id: u32, monitor_id: u32)
    ensures
        ({
            let present = m.monitors.contains_key(monitor_id);
            let monitor = m.monitors[monitor_id];
            let status = m.close_status(app_id, monitor_id);
            &&& status is Success <==> present && monitor.owner_app_id == Some(app_id)
                && monitor.core_managed && !monitor.manual_lifecycle
            &&& status is NotFound <==> !present
            &&& status is NotOwner <==> present && monitor.owner_app_id != Some(app_id)
            &&& status is NotCoreManaged <==> present && monitor.owner_app_id == Some(app_id) && (
            !monitor.core_managed || monitor.manual_lifecycle)
        }),
{
}

/// The monitors that the core runs for an app are the desktop windows that it
/// owns and that the core manages.
pub proof fn managed_monitors_are_own_desktop_windows(
    m: ServerModel,
    app_id: u32,
    monitor_id: u32,
)
    ensures
        m.managed_monitors(app_id).contains(monitor_id) <==> m.monitors.contains_key(monitor_id)
            && m.monitors[monitor_id].kind is DesktopWindow && m.monitors[monitor_id].owner_app_id
            == Some(app_id) && m.monitors[monitor_id].core_managed,
{
}

/// A monitor counts as attached just where some canvas is shown on it.
pub proof fn attached_monitors_show_a_canvas(m: ServerModel, canvas_id: u32, monitor_id: u32)
    ensures
        m.canvases.contains_key(canvas_id) && m.canvases[canvas_id].attached.contains(monitor_id)
            ==> m.attached_anywhere(monitor_id),
        (forall|c: u32| #[trigger]
            m.canvases.contains_key(c) ==> !m.canvases[c].attached.contains(monitor_id))
            ==> !m.attached_anywhere(monitor_id),
{
}

/// A bitmap is kept for its app under the app's own number, in place of the one
/// that was there; the app's other bitmaps, and all else, stay. An app that is
/// not there keeps none.
pub proof fn bitmaps_are_kept_by_number(
    m: ServerModel,
    app_id: u32,
    bitmap_id: u32,
    handle: u32,
    other: u32,
)
    ensures
        ({
            let after = m.with_bitmap(app_id, bitmap_id, handle);
            &&& !m.apps.contains_key(app_id) ==> after == m
            &&& m.apps.contains_key(app_id) ==> {
                let app = after.apps[app_id];
                &&& after.apps.contains_key(app_id)
                &&& app.bitmap_handles.contains_key(bitmap_id)
                &&& app.bitmap_handles[bitmap_id] == handle
                &&& other != bitmap_id ==> app.bitmap_handles.contains_key(other)
                    == m.apps[app_id].bitmap_handles.contains_key(other)
                &&& other != bitmap_id && app.bitmap_handles.contains_key(other)
                    ==> app.bitmap_handles[other] == m.apps[app_id].bitmap_handles[other]
                &&& app.id == m.apps[app_id].id
                &&& app.pid == m.apps[app_id].pid
                &&& app.canvas_ids == m.apps[app_id].canvas_ids
            }
            &&& other != app_id ==> after.apps.contains_key(other) == m.apps.contains_key(other)
            &&& other != app_id && m.apps.contains_key(other) ==> after.apps[other]
                == m.apps[other]
            &&& after.monitors == m.monitors
            &&& after.canvases == m.canvases
            &&& after.scenes == m.scenes
            &&& after.outputs == m.outputs
        }),
{
}

/// An app that registers is entered with its process under the identifier that it is
/// told, which is the next one. Where its region could not be made it is told so and
/// is not entered; the identifier is used up either way.
pub proof fn registered_apps_are_entered(
    s: &mut ServerState,
    pid: u32,
    region_created: bool,
    r: Result<u32, ServerError>,
)
    requires
        call_ensures(ServerState::register_app, (s, pid, region_created), r),
        old(s)@.next_app_id < u32::MAX,
    ensures
        ({
            let id = old(s)@.next_app_id;
            &&& region_created ==> {
                &&& r == Ok::<u32, ServerError>(id)
                &&& final(s)@.apps.contains_key(id)
                &&& final(s)@.apps[id].pid == pid
                &&& final(s)@.apps[id].canvas_ids.len() == 0
            }
            &&& !region_created ==> {
                &&& r == Err::<u32, ServerError>(ServerError::CommandRegionFailed)
                &&& final(s)@.apps == old(s)@.apps
            }
            &&& final(s)@.next_app_id == id + 1
            &&& final(s)@.monitors == old(s)@.monitors
            &&& final(s)@.canvases == old(s)@.canvases
            &&& final(s)@.scenes == old(s)@.scenes
        }),
{
}

/// A canvas is created just where its app is there and the host made a surface, with
/// the sizes that were asked for, each in its own field, under the identifier that is
/// told. Otherwise the reason is told, and no canvas is entered.
pub proof fn created_canvases_are_as_asked_for(
    s: &mut ServerState,
    owner_id: u32,
    logical_w: u32,
    logical_h: u32,
    render_w: u32,
    render_h: u32,
    surface_handle: Option<u64>,
    r: Result<u32, ServerError>,
)
    requires
        call_ensures(
            ServerState::create_canvas,
            (s, owner_id, logical_w, logical_h, render_w, render_h, surface_handle),
            r,
        ),
        old(s)@.next_canvas_id < u32::MAX,
    ensures
        ({
            let id = old(s)@.next_canvas_id;
            let known = old(s)@.apps.contains_key(owner_id);
            let canvas = final(s)@.canvases[id];
            &&& !known ==> r == Err::<u32, ServerError>(ServerError::AppNotFound) && final(s)@
                == old(s)@
            &&& known && surface_handle is None ==> {
                &&& r == Err::<u32, ServerError>(ServerError::SurfaceFailed)
                &&& final(s)@.canvases == old(s)@.canvases
                &&& final(s)@.apps == old(s)@.apps
                &&& final(s)@.next_canvas_id == id + 1
            }
            &&& known && surface_handle is Some ==> {
                &&& r == Ok::<u32, ServerError>(id)
                &&& final(s)@.canvases.contains_key(id)
                &&& canvas.owner_app_id == owner_id
                &&& canvas.owner_pid == old(s)@.apps[owner_id].pid
                &&& canvas.logical_w == logical_w
                &&& canvas.logical_h == logical_h
                &&& canvas.render_w == render_w
                &&& canvas.render_h == render_h
                &&& Some(canvas.surface_handle) == surface_handle
                &&& final(s)@.apps[owner_id].canvas_ids.last() == id
                &&& final(s)@.next_canvas_id == id + 1
            }
        }),
{
}

/// An app that puts a canvas of its own on a monitor that is its own, or nobody's and
/// opened by hand, is told the layer: one of that canvas, visible and whole. An app
/// that may not is told why, and nothing changes.
pub proof fn added_layers_show_the_canvas(
    s: &mut ServerState,
    app_id: u32,
    requested: u32,
    monitor_id: u32,
    r: Result<u32, ServerError>,
)
    requires
        call_ensures(
            ServerState::add_canvas_layer_to_monitor_scene_for_app,
            (s, app_id, requested, monitor_id),
            r,
        ),
        old(s)@.wf(),
    ensures
        ({
            let canvas_id = old(s)@.resolve(app_id, requested)->0;
            let canvas = old(s)@.canvases[canvas_id];
            let present = old(s)@.monitors.contains_key(monitor_id);
            let monitor = old(s)@.monitors[monitor_id];
            let scene = final(s)@.scenes[monitor_id];
            &&& r is Ok <==> old(s)@.resolve(app_id, requested) is Some && present && (
            monitor.owner_app_id == Some(app_id) || (monitor.owner_app_id is None
                && monitor.manual_lifecycle))
            &&& r is Err ==> final(s)@ == old(s)@
            &&& r matches Ok(id) ==> final(s)@.scenes.contains_key(monitor_id) && exists|i: int|
                0 <= i < scene.layers.len() && {
                    let layer = #[trigger] scene.layers[i];
                    &&& layer.id == id
                    &&& layer.canvas_id == canvas_id
                    &&& layer.app_id == app_id
                    &&& layer.window.visible
                    &&& layer.window.x == 0
                    &&& layer.window.y == 0
                    &&& layer.window.logical_w == canvas.logical_w
                    &&& layer.window.logical_h == canvas.logical_h
                }
        }),
{
    if old(s)@.resolve(app_id, requested) is Some {
        let canvas_id = old(s)@.resolve(app_id, requested)->0;
        assert(old(s)@.owns(app_id, canvas_id));
        assert(old(s)@.canvases.contains_key(canvas_id));
        if old(s)@.monitors.contains_key(monitor_id) {
            shown_canvases_have_a_whole_layer(old(s)@, canvas_id, monitor_id, 0);
        }
    }
}

/// What the state is asked it answers from what it holds: whose a canvas is, which
/// one is meant, whether a monitor shows any, and how a stop would go.
pub proof fn questions_are_answered_from_the_state(
    s: &ServerState,
    app_id: u32,
    canvas_id: u32,
    monitor_id: u32,
    owns: bool,
    meant: Option<u32>,
    attached: bool,
    status: MonitorRequestStatus,
)
    requires
        call_ensures(ServerState::app_owns_canvas, (s, app_id, canvas_id), owns),
        call_ensures(ServerState::resolve_app_canvas_id, (s, app_id, canvas_id), meant),
        call_ensures(ServerState::monitor_attached_to_any_canvas, (s, monitor_id), attached),
        call_ensures(ServerState::close_monitor_if_owned, (s, app_id, monitor_id), status),
    ensures
        owns <==> s@.apps.contains_key(app_id) && s@.apps[app_id].canvas_ids.contains(canvas_id),
        canvas_id != 0 ==> (meant is Some <==> owns),
        canvas_id != 0 && owns ==> meant == Some(canvas_id),
        canvas_id == 0 ==> (meant is Some <==> s@.apps.contains_key(app_id)
            && s@.apps[app_id].canvas_ids.len() > 0),
        canvas_id == 0 && meant is Some ==> meant == Some(s@.apps[app_id].canvas_ids[0]),
        s@.canvases.contains_key(canvas_id) && s@.canvases[canvas_id].attached.contains(monitor_id)
            ==> attached,
        attached ==> exists|c: u32| #[trigger]
            s@.canvases.contains_key(c) && s@.canvases[c].attached.contains(monitor_id),
        status is Success ==> s@.monitors.contains_key(monitor_id)
            && s@.monitors[monitor_id].owner_app_id == Some(app_id),
        status == s@.close_status(app_id, monitor_id),
{
}

/// The monitors that are closed for an app are named once each, in ascending order:
/// the desktop windows that it owns and that the core manages.
pub proof fn closed_monitors_are_named_once(
    s: &ServerState,
    app_id: u32,
    r: Vec<u32>,
    i: int,
    monitor_id: u32,
)
    requires
        call_ensures(ServerState::close_owned_desktop_monitors, (s, app_id), r),
    ensures
        r@.contains(monitor_id) <==> s@.monitors.contains_key(monitor_id)
            && s@.monitors[monitor_id].kind is DesktopWindow && s@.monitors[monitor_id].owner_app_id
            == Some(app_id) && s@.monitors[monitor_id].core_managed,
        0 < i < r@.len() ==> r@[i - 1] < r@[i],
{
    let managed = s@.managed_monitors(app_id);
    assert(managed.contains(monitor_id) <==> r@.contains(monitor_id));
}

/// An app that is removed is handed back with all that it had, and is gone; a monitor
/// that is removed is gone. Neither takes the other.
pub proof fn removed_clients_are_gone(
    s: &mut ServerState,
    app_id: u32,
    removed: Option<App>,
    t: &mut ServerState,
    monitor_id: u32,
)
    requires
        call_ensures(ServerState::remove_app, (s, app_id), removed),
        call_ensures(ServerState::remove_monitor, (t, monitor_id), ()),
    ensures
        !final(s)@.apps.contains_key(app_id),
        final(s)@.monitors == old(s)@.monitors,
        removed is Some <==> old(s)@.apps.contains_key(app_id),
        removed matches Some(app) ==> app@ == old(s)@.apps[app_id],
        !final(t)@.monitors.contains_key(monitor_id),
        !final(t)@.scenes.contains_key(monitor_id),
        !final(t)@.outputs.contains_key(monitor_id),
        final(t)@.apps == old(t)@.apps,
{
}

/// A bitmap that takes the place of another releases that one; one for an app that is
/// not there is released itself; any other releases none.
pub proof fn replaced_bitmaps_are_released(
    s: &mut ServerState,
    app_id: u32,
    bitmap_id: u32,
    handle: u32,
    released: Option<u32>,
)
    requires
        call_ensures(ServerState::store_bitmap, (s, app_id, bitmap_id, handle), released),
    ensures
        ({
            let known = old(s)@.apps.contains_key(app_id);
            let held = old(s)@.apps[app_id].bitmap_handles;
            &&& !known ==> released == Some(handle) && final(s)@ == old(s)@
            &&& known && held.contains_key(bitmap_id) ==> released == Some(held[bitmap_id])
            &&& known && !held.contains_key(bitmap_id) ==> released is None
            &&& known ==> final(s)@.apps[app_id].bitmap_handles.contains_key(bitmap_id)
                && final(s)@.apps[app_id].bitmap_handles[bitmap_id] == handle
        }),
{
}

/// A new state holds nothing. A monitor that is entered is told the identifier that
/// it is found under, as it registered.
pub proof fn entered_monitors_are_found(
    new: ServerState,
    s: &mut ServerState,
    r: MonitorRegistration,
    id: u32,
    other: u32,
)
    requires
        call_ensures(ServerState::new, (), new),
        call_ensures(ServerState::enter_monitor, (s, r), id),
        old(s)@.next_monitor_id < u32::MAX,
    ensures
        !new@.apps.contains_key(other) && !new@.monitors.contains_key(other)
            && !new@.canvases.contains_key(other) && !new@.scenes.contains_key(other)
            && !new@.outputs.contains_key(other),
        new@.next_app_id == 1 && new@.next_monitor_id == 1 && new@.next_canvas_id == 1,
        id == old(s)@.next_monitor_id,
        final(s)@.monitors.contains_key(id),
        final(s)@.monitors[id].pid == r.pid,
        final(s)@.monitors[id].kind == r.kind,
        final(s)@.monitors[id].owner_app_id == r.owner_app_id,
        final(s)@.monitors[id].target_canvas_id == r.target_canvas_id,
        final(s)@.monitors[id].mode == r.mode,
        final(s)@.monitors[id].flags == r.flags,
        final(s)@.apps == old(s)@.apps,
        final(s)@.canvases == old(s)@.canvases,
{
}

/// A scene starts without layers, for its monitor and with its size. A canvas that
/// joins it has a layer there with the window that it was given, under the identifier
/// that is told. An app that leaves it leaves no layer, and takes none of another.
pub proof fn scenes_hold_the_layers_that_joined(
    monitor_id: u32,
    metrics: MonitorMetrics,
    new: MonitorScene,
    s: &mut MonitorScene,
    app_id: u32,
    canvas_id: u32,
    window: VirtualWindow,
    id: u32,
    t: &mut MonitorScene,
    found: bool,
)
    requires
        call_ensures(MonitorScene::new, (monitor_id, metrics), new),
        call_ensures(MonitorScene::upsert_layer, (s, app_id, canvas_id, window), id),
        call_ensures(MonitorScene::remove_app_layers, (t, app_id), ()),
        call_ensures(MonitorScene::contains_app, (&new, app_id), found),
    ensures
        new.monitor_id == monitor_id,
        new.metrics == metrics,
        new.layers@.len() == 0,
        new.next_layer_id == 1,
        !found,
        exists|i: int|
            0 <= i < final(s).layers@.len() && {
                let layer = #[trigger] final(s).layers@[i];
                &&& layer.id == id
                &&& layer.app_id == app_id
                &&& layer.canvas_id == canvas_id
                &&& layer.window == window
            },
        final(s).monitor_id == old(s).monitor_id,
        final(s).metrics == old(s).metrics,
        final(t).layers@ == old(t).layers@.filter(|l: scene::MonitorLayer| l.app_id != app_id),
        final(t).monitor_id == old(t).monitor_id,
        final(t).metrics == old(t).metrics,
{
    scene::joined_layers_show_the_window(old(s)@, app_id, canvas_id, window);
    let after = old(s)@.with_layer(app_id, canvas_id, window);
    let i = choose|i: int|
        0 <= i < after.layers.len() && {
            let layer = #[trigger] after.layers[i];
            &&& layer.app_id == app_id
            &&& layer.canvas_id == canvas_id
            &&& layer.window == window
            &&& layer.id == old(s)@.layer_id(app_id, canvas_id)
        };
    assert(final(s).layers@[i] == after.layers[i]);
}

} // verus!
