//! What holds of the server's state at all times, and what one client's leaving
//! does not touch.

use vstd::prelude::*;

use crate::scene;
use crate::scene::{MonitorLayer, SceneView};
use crate::server::{
    AppView, CanvasView, Monitor, MonitorRegistration, MonitorSurface, SceneOutput, ServerError,
    ServerModel,
};
use crate::tables;

verus! {

impl ServerModel {
    /// Apps, monitors and canvases are found under their own identifiers, which
    /// were all given out.
    pub open spec fn ids_match(self) -> bool {
        &&& forall|a: u32| #[trigger]
            self.apps.contains_key(a) ==> self.apps[a].id == a && 1 <= a < self.next_app_id
        &&& forall|m: u32| #[trigger]
            self.monitors.contains_key(m) ==> self.monitors[m].id == m && 1 <= m
                < self.next_monitor_id
        &&& forall|c: u32| #[trigger]
            self.canvases.contains_key(c) ==> self.canvases[c].id == c && 1 <= c
                < self.next_canvas_id
    }

    /// Apps and canvases agree on who owns what.
    pub open spec fn owners_match(self) -> bool {
        &&& forall|a: u32, c: u32| #[trigger]
            self.owns(a, c) ==> self.canvases.contains_key(c) && self.canvases[c].owner_app_id == a
        &&& forall|c: u32| #[trigger]
            self.canvases.contains_key(c) ==> self.owns(self.canvases[c].owner_app_id, c)
        &&& forall|a: u32| #[trigger]
            self.apps.contains_key(a) ==> self.apps[a].canvas_ids.no_duplicates()
    }

    /// Canvases are shown on monitors that are there, and have surfaces only for
    /// monitors that show them.
    pub open spec fn attachments_match(self) -> bool {
        &&& forall|c: u32, m: u32|
            self.canvases.contains_key(c) && #[trigger] self.canvases[c].attached.contains(m)
                ==> self.monitors.contains_key(m)
        &&& forall|c: u32, m: u32|
            self.canvases.contains_key(c) && #[trigger] self.canvases[c].surfaces.contains_key(m)
                ==> self.canvases[c].attached.contains(m)
    }

    /// A layer shows a canvas of its app, and that canvas is marked as shown on
    /// the layer's monitor.
    pub open spec fn layer_matches(self, m: u32, l: MonitorLayer) -> bool {
        &&& self.canvases.contains_key(l.canvas_id)
        &&& self.canvases[l.canvas_id].owner_app_id == l.app_id
        &&& self.canvases[l.canvas_id].attached.contains(m)
    }

    /// Scenes belong to monitors that are there, show something, and show no
    /// canvas twice; outputs belong to scenes.
    pub open spec fn scenes_match(self) -> bool {
        &&& forall|m: u32| #[trigger]
            self.scenes.contains_key(m) ==> {
                &&& self.monitors.contains_key(m)
                &&& self.scenes[m].monitor_id == m
                &&& self.scenes[m].layers.len() > 0
                &&& self.scenes[m].unrepeated()
            }
        &&& forall|m: u32, i: int|
            self.scenes.contains_key(m) && 0 <= i < self.scenes[m].layers.len()
                ==> self.layer_matches(m, #[trigger] self.scenes[m].layers[i])
        &&& forall|m: u32| #[trigger] self.outputs.contains_key(m) ==> self.scenes.contains_key(m)
    }

    /// What holds of the state at all times.
    pub open spec fn wf(self) -> bool {
        &&& self.next_app_id >= 1
        &&& self.next_monitor_id >= 1
        &&& self.next_canvas_id >= 1
        &&& self.ids_match()
        &&& self.owners_match()
        &&& self.attachments_match()
        &&& self.scenes_match()
    }
}

/// A server to which nobody is connected is consistent.
pub proof fn empty_is_consistent()
    ensures
        ServerModel::empty().wf(),
{
}

/// An app's identifier is new, and its registration keeps the state consistent.
pub proof fn registering_an_app_is_consistent(m: ServerModel, pid: u32)
    requires
        m.wf(),
        m.next_app_id < u32::MAX,
    ensures
        m.with_app(pid).wf(),
        !m.apps.contains_key(m.next_app_id),
{
    let after = m.with_app(pid);
    assert forall|a: u32, c: u32| #[trigger] after.owns(a, c) implies after.canvases.contains_key(c)
        && after.canvases[c].owner_app_id == a by {
        assert(m.owns(a, c));
    }
    assert forall|c: u32| #[trigger] after.canvases.contains_key(c) implies after.owns(
        after.canvases[c].owner_app_id,
        c,
    ) by {
        assert(m.canvases.contains_key(c));
        assert(m.owns(m.canvases[c].owner_app_id, c));
    }
    assert forall|w: u32, i: int|
        after.scenes.contains_key(w) && 0 <= i < after.scenes[w].layers.len() implies after.layer_matches(
    w, #[trigger] after.scenes[w].layers[i]) by {
        assert(m.layer_matches(w, m.scenes[w].layers[i]));
    }
}

/// A monitor's identifier is new, and its registration keeps the state consistent.
pub proof fn registering_a_monitor_is_consistent(m: ServerModel, r: MonitorRegistration)
    requires
        m.wf(),
        m.next_monitor_id < u32::MAX,
    ensures
        m.with_monitor(r).wf(),
        !m.monitors.contains_key(m.next_monitor_id),
{
    let after = m.with_monitor(r);
    assert forall|a: u32, c: u32| #[trigger] after.owns(a, c) implies after.canvases.contains_key(c)
        && after.canvases[c].owner_app_id == a by {
        assert(m.owns(a, c));
    }
    assert forall|c: u32| #[trigger] after.canvases.contains_key(c) implies after.owns(
        after.canvases[c].owner_app_id,
        c,
    ) by {
        assert(m.owns(m.canvases[c].owner_app_id, c));
    }
    assert forall|w: u32, i: int|
        after.scenes.contains_key(w) && 0 <= i < after.scenes[w].layers.len() implies after.layer_matches(
    w, #[trigger] after.scenes[w].layers[i]) by {
        assert(m.layer_matches(w, m.scenes[w].layers[i]));
    }
}

/// A canvas's identifier is new, and its creation keeps the state consistent.
pub proof fn creating_a_canvas_is_consistent(
    m: ServerModel,
    owner_id: u32,
    logical_w: u32,
    logical_h: u32,
    render_w: u32,
    render_h: u32,
    handle: u64,
)
    requires
        m.wf(),
        m.apps.contains_key(owner_id),
        m.next_canvas_id < u32::MAX,
    ensures
        m.with_canvas(owner_id, logical_w, logical_h, render_w, render_h, handle).wf(),
        !m.canvases.contains_key(m.next_canvas_id),
        m.with_canvas(owner_id, logical_w, logical_h, render_w, render_h, handle).owns(
            owner_id,
            m.next_canvas_id,
        ),
{
    let id = m.next_canvas_id;
    let after = m.with_canvas(owner_id, logical_w, logical_h, render_w, render_h, handle);
    let ids = m.apps[owner_id].canvas_ids;
    assert forall|c: u32| #[trigger] ids.contains(c) implies c < id by {
        assert(m.owns(owner_id, c));
        assert(m.canvases.contains_key(c));
    }
    assert(after.apps[owner_id].canvas_ids[ids.len() as int] == id);
    assert(after.owns(owner_id, id));
    assert forall|a: u32, c: u32| #[trigger] after.owns(a, c) implies after.canvases.contains_key(c)
        && after.canvases[c].owner_app_id == a by {
        if c != id {
            if a == owner_id {
                let k = choose|k: int|
                    0 <= k < after.apps[a].canvas_ids.len() && after.apps[a].canvas_ids[k] == c;
                assert(ids[k] == c);
            }
            assert(m.owns(a, c));
        } else if a != owner_id {
            assert(m.owns(a, c));
            assert(m.canvases.contains_key(c));
        }
    }
    assert forall|c: u32| #[trigger] after.canvases.contains_key(c) implies after.owns(
        after.canvases[c].owner_app_id,
        c,
    ) by {
        if c != id {
            let a = m.canvases[c].owner_app_id;
            assert(m.canvases.contains_key(c));
            assert(m.owns(a, c));
            if a == owner_id {
                let k = choose|k: int| 0 <= k < ids.len() && ids[k] == c;
                assert(after.apps[a].canvas_ids[k] == c);
            }
        }
    }
    assert forall|a: u32| #[trigger]
        after.apps.contains_key(a) implies after.apps[a].canvas_ids.no_duplicates() by {
        assert(m.apps.contains_key(a));
        if a == owner_id {
            assert forall|i: int, j: int|
                0 <= i < after.apps[a].canvas_ids.len() && 0 <= j < after.apps[a].canvas_ids.len()
                    && i != j implies after.apps[a].canvas_ids[i] != after.apps[a].canvas_ids[j] by {
                if i < ids.len() {
                    assert(ids.contains(ids[i]));
                }
                if j < ids.len() {
                    assert(ids.contains(ids[j]));
                }
            }
        }
    }
    assert forall|c: u32, w: u32|
        after.canvases.contains_key(c)
            && #[trigger] after.canvases[c].attached.contains(w) implies after.monitors.contains_key(
    w) by {
        assert(m.canvases[c].attached.contains(w));
    }
    assert forall|c: u32, w: u32|
        after.canvases.contains_key(c)
            && #[trigger] after.canvases[c].surfaces.contains_key(w)
            implies after.canvases[c].attached.contains(w) by {
        assert(m.canvases[c].surfaces.contains_key(w));
    }
    assert forall|w: u32, i: int|
        after.scenes.contains_key(w) && 0 <= i < after.scenes[w].layers.len() implies after.layer_matches(
    w, #[trigger] after.scenes[w].layers[i]) by {
        assert(m.layer_matches(w, m.scenes[w].layers[i]));
    }
}

/// Marking a canvas as shown on a monitor keeps the state consistent.
pub proof fn attaching_is_consistent(m: ServerModel, canvas_id: u32, monitor_id: u32)
    requires
        m.wf(),
        m.show_error(canvas_id, monitor_id) is None,
    ensures
        m.mark_attached(canvas_id, monitor_id).wf(),
{
    let after = m.mark_attached(canvas_id, monitor_id);
    assert forall|a: u32, c: u32| #[trigger] after.owns(a, c) implies after.canvases.contains_key(c)
        && after.canvases[c].owner_app_id == a by {
        assert(m.owns(a, c));
    }
    assert forall|c: u32| #[trigger] after.canvases.contains_key(c) implies after.owns(
        after.canvases[c].owner_app_id,
        c,
    ) by {
        assert(m.canvases.contains_key(c));
        assert(m.owns(m.canvases[c].owner_app_id, c));
    }
    assert forall|c: u32, w: u32|
        after.canvases.contains_key(c)
            && #[trigger] after.canvases[c].attached.contains(w) implies after.monitors.contains_key(
    w) by {
        if !(c == canvas_id && w == monitor_id) {
            assert(m.canvases[c].attached.contains(w));
        }
    }
    assert forall|c: u32, w: u32|
        after.canvases.contains_key(c)
            && #[trigger] after.canvases[c].surfaces.contains_key(w)
            implies after.canvases[c].attached.contains(w) by {
        assert(m.canvases[c].surfaces.contains_key(w));
        assert(m.canvases[c].attached.contains(w));
    }
    assert forall|w: u32, i: int|
        after.scenes.contains_key(w) && 0 <= i < after.scenes[w].layers.len() implies after.layer_matches(
    w, #[trigger] after.scenes[w].layers[i]) by {
        assert(m.layer_matches(w, m.scenes[w].layers[i]));
    }
}

/// Showing a canvas keeps the state consistent.
pub proof fn showing_is_consistent(m: ServerModel, canvas_id: u32, monitor_id: u32)
    requires
        m.wf(),
        m.show_error(canvas_id, monitor_id) is None,
    ensures
        m.show(canvas_id, monitor_id).wf(),
{
    let marked = m.mark_attached(canvas_id, monitor_id);
    attaching_is_consistent(m, canvas_id, monitor_id);
    let after = m.show(canvas_id, monitor_id);
    let canvas = m.canvases[canvas_id];
    let before = m.scene_for(canvas_id, monitor_id);
    let app_id = canvas.owner_app_id;
    let shown = after.scenes[monitor_id];
    scene::joining_repeats_no_canvas(before, app_id, canvas_id, canvas.window());
    scene::joining_adds_one_layer(before, app_id, canvas_id, canvas.window());
    assert forall|a: u32, c: u32| #[trigger] after.owns(a, c) implies after.canvases.contains_key(c)
        && after.canvases[c].owner_app_id == a by {
        assert(marked.owns(a, c));
    }
    assert forall|c: u32| #[trigger] after.canvases.contains_key(c) implies after.owns(
        after.canvases[c].owner_app_id,
        c,
    ) by {
        assert(marked.canvases.contains_key(c));
        assert(marked.owns(marked.canvases[c].owner_app_id, c));
    }
    assert forall|w: u32, i: int|
        after.scenes.contains_key(w) && 0 <= i < after.scenes[w].layers.len() implies after.layer_matches(
    w, #[trigger] after.scenes[w].layers[i]) by {
        if w == monitor_id {
            let l = shown.layers[i];
            if !(l.app_id == app_id && l.canvas_id == canvas_id) {
                assert(before.layers[i].app_id == l.app_id);
                assert(marked.layer_matches(w, marked.scenes[w].layers[i]));
            }
        } else {
            assert(marked.layer_matches(w, marked.scenes[w].layers[i]));
        }
    }
}

/// A surface for a monitor that shows the canvas keeps the state consistent.
pub proof fn surfaces_are_consistent(
    m: ServerModel,
    canvas_id: u32,
    monitor_id: u32,
    surface: MonitorSurface,
)
    requires
        m.wf(),
        m.canvases.contains_key(canvas_id),
        m.canvases[canvas_id].attached.contains(monitor_id),
    ensures
        m.with_surface(canvas_id, monitor_id, surface).wf(),
{
    let after = m.with_surface(canvas_id, monitor_id, surface);
    assert forall|a: u32, c: u32| #[trigger] after.owns(a, c) implies after.canvases.contains_key(c)
        && after.canvases[c].owner_app_id == a by {
        assert(m.owns(a, c));
    }
    assert forall|c: u32| #[trigger] after.canvases.contains_key(c) implies after.owns(
        after.canvases[c].owner_app_id,
        c,
    ) by {
        assert(m.canvases.contains_key(c));
        assert(m.owns(m.canvases[c].owner_app_id, c));
    }
    assert forall|c: u32, w: u32|
        after.canvases.contains_key(c)
            && #[trigger] after.canvases[c].attached.contains(w) implies after.monitors.contains_key(
    w) by {
        assert(m.canvases[c].attached.contains(w));
    }
    assert forall|c: u32, w: u32|
        after.canvases.contains_key(c)
            && #[trigger] after.canvases[c].surfaces.contains_key(w)
            implies after.canvases[c].attached.contains(w) by {
        if !(c == canvas_id && w == monitor_id) {
            assert(m.canvases[c].surfaces.contains_key(w));
            assert(m.canvases[c].attached.contains(w));
        }
    }
    assert forall|w: u32, i: int|
        after.scenes.contains_key(w) && 0 <= i < after.scenes[w].layers.len() implies after.layer_matches(
    w, #[trigger] after.scenes[w].layers[i]) by {
        assert(m.layer_matches(w, m.scenes[w].layers[i]));
    }
}

/// Where only bitmaps and outputs differ, and the outputs belong to scenes, the
/// state is as consistent as before.
proof fn same_graph_is_consistent(m: ServerModel, after: ServerModel)
    requires
        m.wf(),
        after.apps.dom() == m.apps.dom(),
        forall|a: u32| #[trigger]
            m.apps.contains_key(a) ==> after.apps[a].id == m.apps[a].id && after.apps[a].canvas_ids
                == m.apps[a].canvas_ids,
        after.monitors == m.monitors,
        after.canvases == m.canvases,
        after.scenes == m.scenes,
        forall|w: u32| #[trigger] after.outputs.contains_key(w) ==> m.scenes.contains_key(w),
        after.next_app_id == m.next_app_id,
        after.next_monitor_id == m.next_monitor_id,
        after.next_canvas_id == m.next_canvas_id,
    ensures
        after.wf(),
{
    assert forall|a: u32| #[trigger] after.apps.contains_key(a) implies m.apps.contains_key(a) by {
        assert(m.apps.dom().contains(a));
    }
    assert forall|a: u32, c: u32| #[trigger] after.owns(a, c) implies after.canvases.contains_key(c)
        && after.canvases[c].owner_app_id == a by {
        assert(m.apps.contains_key(a));
        assert(m.owns(a, c));
    }
    assert forall|c: u32| #[trigger] after.canvases.contains_key(c) implies after.owns(
        after.canvases[c].owner_app_id,
        c,
    ) by {
        let a = m.canvases[c].owner_app_id;
        assert(m.owns(a, c));
        assert(m.apps.contains_key(a));
        assert(m.apps.dom().contains(a));
    }
    assert forall|w: u32, i: int|
        after.scenes.contains_key(w) && 0 <= i < after.scenes[w].layers.len() implies after.layer_matches(
    w, #[trigger] after.scenes[w].layers[i]) by {
        assert(m.layer_matches(w, m.scenes[w].layers[i]));
    }
}

/// An output for a scene, and taking it away again, keep the state consistent.
pub proof fn outputs_are_consistent(m: ServerModel, monitor_id: u32, output: SceneOutput)
    requires
        m.wf(),
    ensures
        m.scenes.contains_key(monitor_id) ==> m.with_output(monitor_id, output).wf(),
        m.without_output(monitor_id).wf(),
{
    if m.scenes.contains_key(monitor_id) {
        same_graph_is_consistent(m, m.with_output(monitor_id, output));
    }
    same_graph_is_consistent(m, m.without_output(monitor_id));
}

/// A bitmap keeps the state consistent.
pub proof fn bitmaps_are_consistent(m: ServerModel, app_id: u32, bitmap_id: u32, handle: u32)
    requires
        m.wf(),
    ensures
        m.with_bitmap(app_id, bitmap_id, handle).wf(),
{
    let after = m.with_bitmap(app_id, bitmap_id, handle);
    assert(after.apps.dom() =~= m.apps.dom());
    same_graph_is_consistent(m, after);
}

/// An app's leaving keeps the state consistent.
pub proof fn leaving_of_an_app_is_consistent(m: ServerModel, app_id: u32)
    requires
        m.wf(),
    ensures
        m.without_app(app_id).wf(),
{
    let after = m.without_app(app_id);
    if m.apps.contains_key(app_id) {
        let gone = m.apps[app_id].canvas_ids.to_set();
        assert forall|c: u32| #[trigger] gone.contains(c) <==> m.owns(app_id, c) by {}
        assert forall|c: u32| #[trigger] after.canvases.contains_key(c) <==> (
        m.canvases.contains_key(c) && m.canvases[c].owner_app_id != app_id) by {
            if m.canvases.contains_key(c) {
                assert(m.owns(m.canvases[c].owner_app_id, c));
                if gone.contains(c) {
                    assert(m.owns(app_id, c));
                }
            }
        }
        assert forall|a: u32, c: u32| #[trigger]
            after.owns(a, c) implies after.canvases.contains_key(c)
            && after.canvases[c].owner_app_id == a by {
            assert(m.owns(a, c));
        }
        assert forall|c: u32| #[trigger] after.canvases.contains_key(c) implies after.owns(
            after.canvases[c].owner_app_id,
            c,
        ) by {
            assert(m.owns(m.canvases[c].owner_app_id, c));
        }
        assert forall|c: u32, w: u32|
            after.canvases.contains_key(c)
                && #[trigger] after.canvases[c].attached.contains(w) implies after.monitors.contains_key(
        w) by {
            assert(m.canvases[c].attached.contains(w));
        }
        assert forall|c: u32, w: u32|
            after.canvases.contains_key(c)
                && #[trigger] after.canvases[c].surfaces.contains_key(w)
                implies after.canvases[c].attached.contains(w) by {
            assert(m.canvases[c].surfaces.contains_key(w));
        }
        assert forall|w: u32| #[trigger] after.scenes.contains_key(w) implies {
            &&& after.monitors.contains_key(w)
            &&& after.scenes[w].monitor_id == w
            &&& after.scenes[w].layers.len() > 0
            &&& after.scenes[w].unrepeated()
        } by {
            assert(m.scenes.contains_key(w));
            scene::leaving_repeats_no_canvas(m.scenes[w], app_id);
        }
        assert forall|w: u32, i: int|
            after.scenes.contains_key(w) && 0 <= i
                < after.scenes[w].layers.len() implies after.layer_matches(
            w,
            #[trigger] after.scenes[w].layers[i],
        ) by {
            let l = after.scenes[w].layers[i];
            tables::filter_members(
                m.scenes[w].layers,
                |l: MonitorLayer| l.app_id != app_id,
            );
            assert(after.scenes[w].layers.contains(l));
            let k = choose|k: int| 0 <= k < m.scenes[w].layers.len() && m.scenes[w].layers[k] == l;
            assert(m.layer_matches(w, m.scenes[w].layers[k]));
        }
    }
}

/// A monitor's leaving keeps the state consistent.
pub proof fn leaving_of_a_monitor_is_consistent(m: ServerModel, monitor_id: u32)
    requires
        m.wf(),
    ensures
        m.without_monitor(monitor_id).wf(),
{
    let after = m.without_monitor(monitor_id);
    assert forall|a: u32, c: u32| #[trigger] after.owns(a, c) implies after.canvases.contains_key(c)
        && after.canvases[c].owner_app_id == a by {
        assert(m.owns(a, c));
    }
    assert forall|c: u32| #[trigger] after.canvases.contains_key(c) implies after.owns(
        after.canvases[c].owner_app_id,
        c,
    ) by {
        assert(m.canvases.contains_key(c));
        assert(m.owns(m.canvases[c].owner_app_id, c));
    }
    assert forall|c: u32, w: u32|
        after.canvases.contains_key(c)
            && #[trigger] after.canvases[c].attached.contains(w) implies after.monitors.contains_key(
    w) by {
        assert(m.canvases[c].attached.contains(w));
    }
    assert forall|c: u32, w: u32|
        after.canvases.contains_key(c)
            && #[trigger] after.canvases[c].surfaces.contains_key(w)
            implies after.canvases[c].attached.contains(w) by {
        assert(m.canvases[c].surfaces.contains_key(w));
        assert(m.canvases[c].attached.contains(w));
    }
    assert forall|w: u32, i: int|
        after.scenes.contains_key(w) && 0 <= i < after.scenes[w].layers.len() implies after.layer_matches(
    w, #[trigger] after.scenes[w].layers[i]) by {
        assert(m.layer_matches(w, m.scenes[w].layers[i]));
    }
}

/// When an app leaves, the other apps, their canvases with everything on them and
/// all monitors stay as they are, and every scene keeps exactly the layers of the
/// other apps. A scene goes only when it showed that app alone.
pub proof fn other_apps_are_unaffected(m: ServerModel, app_id: u32)
    requires
        m.wf(),
    ensures
        ({
            let after = m.without_app(app_id);
            &&& after.monitors == m.monitors
            &&& forall|a: u32|
                a != app_id && #[trigger] m.apps.contains_key(a) ==> after.apps.contains_key(a)
                    && after.apps[a] == m.apps[a]
            &&& forall|c: u32| #[trigger]
                m.canvases.contains_key(c) && m.canvases[c].owner_app_id != app_id
                    ==> after.canvases.contains_key(c) && after.canvases[c] == m.canvases[c]
            &&& forall|c: u32| #[trigger]
                after.canvases.contains_key(c) ==> after.canvases[c].owner_app_id != app_id
            &&& forall|w: u32, l: MonitorLayer|
                m.scenes.contains_key(w) && l.app_id != app_id
                    && #[trigger] m.scenes[w].layers.contains(l) ==> after.scenes.contains_key(w)
                    && after.scenes[w].layers.contains(l)
            &&& forall|w: u32| #[trigger]
                after.scenes.contains_key(w) ==> m.scenes.contains_key(w)
                    && !after.scenes[w].has_app(app_id)
        }),
{
    let after = m.without_app(app_id);
    if m.apps.contains_key(app_id) {
        let gone = m.apps[app_id].canvas_ids.to_set();
        assert forall|c: u32| #[trigger]
            m.canvases.contains_key(c) && m.canvases[c].owner_app_id
                != app_id implies after.canvases.contains_key(c) && after.canvases[c]
            == m.canvases[c] by {
            if gone.contains(c) {
                assert(m.owns(app_id, c));
            }
        }
        assert forall|c: u32| #[trigger]
            after.canvases.contains_key(c) implies after.canvases[c].owner_app_id != app_id by {
            assert(m.canvases.contains_key(c));
            assert(m.owns(m.canvases[c].owner_app_id, c));
        }
        assert forall|w: u32, l: MonitorLayer|
            m.scenes.contains_key(w) && l.app_id != app_id
                && #[trigger] m.scenes[w].layers.contains(l) implies after.scenes.contains_key(w)
            && after.scenes[w].layers.contains(l) by {
            scene::leaving_keeps_the_others(m.scenes[w], app_id);
            assert(m.scenes[w].without_app(app_id).layers.contains(l));
        }
        assert forall|w: u32| #[trigger]
            after.scenes.contains_key(w) implies !after.scenes[w].has_app(app_id) by {
            scene::leaving_keeps_the_others(m.scenes[w], app_id);
        }
    } else {
        assert forall|c: u32| #[trigger]
            after.canvases.contains_key(c) implies after.canvases[c].owner_app_id != app_id by {
            assert(m.owns(m.canvases[c].owner_app_id, c));
        }
        assert forall|w: u32| #[trigger]
            after.scenes.contains_key(w) implies !after.scenes[w].has_app(app_id) by {
            if m.scenes[w].has_app(app_id) {
                let i = choose|i: int|
                    0 <= i < m.scenes[w].layers.len() && (
                    #[trigger] m.scenes[w].layers[i]).app_id == app_id;
                assert(m.layer_matches(w, m.scenes[w].layers[i]));
                let c = m.scenes[w].layers[i].canvas_id;
                assert(m.owns(m.canvases[c].owner_app_id, c));
            }
        }
    }
}

/// When a monitor leaves, no canvas and no app goes, other monitors keep their
/// scenes, outputs, attachments and surfaces, and nothing of the monitor is left.
pub proof fn other_monitors_are_unaffected(m: ServerModel, monitor_id: u32)
    requires
        m.wf(),
    ensures
        ({
            let after = m.without_monitor(monitor_id);
            &&& after.apps == m.apps
            &&& after.canvases.dom() == m.canvases.dom()
            &&& !after.monitors.contains_key(monitor_id)
            &&& !after.scenes.contains_key(monitor_id)
            &&& !after.outputs.contains_key(monitor_id)
            &&& !after.attached_anywhere(monitor_id)
            &&& forall|w: u32|
                w != monitor_id && #[trigger] m.monitors.contains_key(w)
                    ==> after.monitors.contains_key(w) && after.monitors[w] == m.monitors[w]
            &&& forall|w: u32|
                w != monitor_id && #[trigger] m.scenes.contains_key(w)
                    ==> after.scenes.contains_key(w) && after.scenes[w] == m.scenes[w]
            &&& forall|c: u32, w: u32|
                w != monitor_id && m.canvases.contains_key(c) ==> (
                #[trigger] after.canvases[c].attached.contains(w)
                    <==> m.canvases[c].attached.contains(w))
            &&& forall|c: u32, w: u32|
                w != monitor_id && m.canvases.contains_key(c) ==> (
                #[trigger] after.canvases[c].surfaces.contains_key(w)
                    <==> m.canvases[c].surfaces.contains_key(w))
        }),
{
    assert(m.without_monitor(monitor_id).canvases.dom() =~= m.canvases.dom());
}

/// An app can never show a canvas on another app's monitor, and never another
/// app's canvas anywhere.
pub proof fn monitors_are_kept_apart(m: ServerModel, app_id: u32, requested: u32, monitor_id: u32)
    requires
        m.wf(),
    ensures
        m.monitors.contains_key(monitor_id) && m.monitors[monitor_id].owner_app_id is Some
            && m.monitors[monitor_id].owner_app_id->0 != app_id ==> m.layer_error(
            app_id,
            requested,
            monitor_id,
        ) is Some,
        requested != 0 && !m.owns(app_id, requested) ==> m.layer_error(
            app_id,
            requested,
            monitor_id,
        ) == Some(ServerError::CanvasNotOwned { app_id }),
        m.layer_error(app_id, requested, monitor_id) is None ==> m.canvases[m.resolve(
            app_id,
            requested,
        )->0].owner_app_id == app_id,
{
    if m.layer_error(app_id, requested, monitor_id) is None {
        let c = m.resolve(app_id, requested)->0;
        assert(m.owns(app_id, c)) by {
            if requested == 0 {
                assert(m.apps[app_id].canvas_ids[0] == c);
            }
        }
    }
}

} // verus!
