//! What reaches a monitor's picture: which scenes are composed, and which layers
//! are drawn where.

use vstd::prelude::*;

use crate::compositor;
use crate::compositor::{CompositeScene, CompositorScheduler, DirtyState, DirtyView};
use crate::scene::MonitorLayer;
use crate::server::{ServerModel, ServerState};
use crate::server_laws;

verus! {

/// A layer is among those drawn just where it was given, is visible and has its
/// canvas.
pub proof fn visible_layers_are_drawn(
    layers: Seq<MonitorLayer>,
    canvases: Set<u32>,
    layer: MonitorLayer,
)
    ensures
        compositor::drawn(layers, canvases).contains(layer) <==> layers.contains(layer)
            && layer.window.visible && canvases.contains(layer.canvas_id),
    decreases layers.len(),
{
    if layers.len() > 0 {
        let before = layers.drop_last();
        visible_layers_are_drawn(before, canvases, layer);
        inserting_adds_one(compositor::drawn(before, canvases), layers.last(), layer);
        if layers.contains(layer) {
            let k = choose|k: int| 0 <= k < layers.len() && layers[k] == layer;
            if k < before.len() {
                assert(before[k] == layer);
            }
        }
        if before.contains(layer) {
            let k = choose|k: int| 0 <= k < before.len() && before[k] == layer;
            assert(layers[k] == layer);
        }
        assert(layers[layers.len() - 1] == layers.last());
    }
}

/// Inserting a layer adds that layer and takes none away.
proof fn inserting_adds_one(layers: Seq<MonitorLayer>, added: MonitorLayer, layer: MonitorLayer)
    ensures
        compositor::insert_by_z(layers, added).contains(layer) <==> layers.contains(layer) || layer
            == added,
        compositor::insert_by_z(layers, added).len() == layers.len() + 1,
    decreases layers.len(),
{
    let out = compositor::insert_by_z(layers, added);
    if layers.len() > 0 && layers.last().z_order > added.z_order {
        let before = layers.drop_last();
        let sub = compositor::insert_by_z(before, added);
        inserting_adds_one(before, added, layer);
        if sub.contains(layer) {
            let k = choose|k: int| 0 <= k < sub.len() && sub[k] == layer;
            assert(out[k] == layer);
        }
        if before.contains(layer) {
            let k = choose|k: int| 0 <= k < before.len() && before[k] == layer;
            assert(layers[k] == layer);
        }
        if layers.contains(layer) {
            let k = choose|k: int| 0 <= k < layers.len() && layers[k] == layer;
            if k < before.len() {
                assert(before[k] == layer);
            } else {
                assert(out[out.len() - 1] == layer);
            }
        }
        if out.contains(layer) {
            let k = choose|k: int| 0 <= k < out.len() && out[k] == layer;
            if k < sub.len() {
                assert(sub[k] == layer);
            } else {
                assert(layers[layers.len() - 1] == layer);
            }
        }
    } else {
        if layers.contains(layer) {
            let k = choose|k: int| 0 <= k < layers.len() && layers[k] == layer;
            assert(out[k] == layer);
        }
        assert(out[out.len() - 1] == added);
        if out.contains(layer) {
            let k = choose|k: int| 0 <= k < out.len() && out[k] == layer;
            if k < layers.len() {
                assert(layers[k] == layer);
            }
        }
    }
}

/// A monitor's picture has the scene's logical size, and what is drawn later lies
/// higher: no layer is drawn before one that lies below it. A layer of the scene
/// is drawn just where it is visible and its canvas is there.
pub proof fn pictures_show_the_scene(
    m: ServerModel,
    monitor_id: u32,
    i: int,
    j: int,
    layer: MonitorLayer,
)
    ensures
        ({
            let picture = compositor::composite_of(m, monitor_id);
            let scene = m.scenes[monitor_id];
            &&& picture.monitor_id == monitor_id
            &&& picture.scene_id == scene.monitor_id
            &&& picture.logical_w == scene.metrics.logical_w
            &&& picture.logical_h == scene.metrics.logical_h
            &&& 0 <= i < j < picture.layers.len() ==> picture.layers[i].z_order
                <= picture.layers[j].z_order
            &&& picture.layers.contains(layer) <==> scene.layers.contains(layer)
                && layer.window.visible && m.canvases.contains_key(layer.canvas_id)
        }),
{
    let scene = m.scenes[monitor_id];
    compositor::layers_are_drawn_back_to_front(scene.layers, m.canvases.dom());
    visible_layers_are_drawn(scene.layers, m.canvases.dom(), layer);
}

/// A canvas that is shown on a monitor's scene without an error is drawn there:
/// the monitor's picture has a layer of that canvas that covers the canvas's whole
/// logical size, from its upper left corner on.
pub proof fn shown_canvases_are_drawn_whole(m: ServerModel, canvas_id: u32, monitor_id: u32)
    requires
        m.show_error(canvas_id, monitor_id) is None,
    ensures
        ({
            let canvas = m.canvases[canvas_id];
            let picture = compositor::composite_of(m.show(canvas_id, monitor_id), monitor_id);
            exists|i: int|
                0 <= i < picture.layers.len() && {
                    let layer = #[trigger] picture.layers[i];
                    &&& layer.canvas_id == canvas_id
                    &&& layer.app_id == canvas.owner_app_id
                    &&& layer.window.visible
                    &&& layer.window.x == 0
                    &&& layer.window.y == 0
                    &&& layer.window.logical_w == canvas.logical_w
                    &&& layer.window.logical_h == canvas.logical_h
                }
        }),
{
    let canvas = m.canvases[canvas_id];
    let after = m.show(canvas_id, monitor_id);
    let scene = after.scenes[monitor_id];
    let picture = compositor::composite_of(after, monitor_id);
    server_laws::shown_canvases_have_a_whole_layer(m, canvas_id, monitor_id, 0);
    let k = choose|k: int|
        0 <= k < scene.layers.len() && {
            let layer = #[trigger] scene.layers[k];
            &&& layer.canvas_id == canvas_id
            &&& layer.app_id == canvas.owner_app_id
            &&& layer.window.visible
            &&& layer.window.x == 0
            &&& layer.window.y == 0
            &&& layer.window.logical_w == canvas.logical_w
            &&& layer.window.logical_h == canvas.logical_h
        };
    let layer = scene.layers[k];
    assert(scene.layers.contains(layer));
    visible_layers_are_drawn(scene.layers, after.canvases.dom(), layer);
    let i = choose|i: int| 0 <= i < picture.layers.len() && picture.layers[i] == layer;
    assert(picture.layers[i].canvas_id == canvas_id);
}

/// A monitor's scene is drawn anew just where the monitor was reported, or a
/// canvas was that a layer of its scene shows.
pub proof fn reported_monitors_are_redrawn(m: ServerModel, dirty: DirtyView, monitor_id: u32)
    ensures
        compositor::dirty_monitors(m, dirty).contains(monitor_id) <==> dirty.monitors.contains(
            monitor_id,
        ) || (m.scenes.contains_key(monitor_id) && exists|i: int|
            0 <= i < m.scenes[monitor_id].layers.len() && dirty.canvases.contains(
                (#[trigger] m.scenes[monitor_id].layers[i]).canvas_id,
            )),
{
}

/// A report is kept under the kind that it is of, and adds to what was reported.
pub proof fn reports_are_kept(dirty: DirtyView, reported: u32, id: u32)
    ensures
        dirty.with_canvas(reported).canvases.contains(id) <==> id == reported
            || dirty.canvases.contains(id),
        dirty.with_canvas(reported).monitors == dirty.monitors,
        dirty.with_monitor(reported).monitors.contains(id) <==> id == reported
            || dirty.monitors.contains(id),
        dirty.with_monitor(reported).canvases == dirty.canvases,
        !DirtyView::clean().canvases.contains(id),
        !DirtyView::clean().monitors.contains(id),
{
}

/// Of the monitors that are to be drawn, each with a scene and an output gets its
/// picture, once, in the order given; the others get none.
pub proof fn each_drawable_monitor_gets_its_picture(m: ServerModel, ids: Seq<u32>)
    ensures
        compositor::composites(m, ids) == ids.filter(
            |w: u32| m.scenes.contains_key(w) && m.outputs.contains_key(w),
        ).map_values(|w: u32| compositor::composite_of(m, w)),
    decreases ids.len(),
{
    reveal(Seq::filter);
    let able = |w: u32| m.scenes.contains_key(w) && m.outputs.contains_key(w);
    let picture = |w: u32| compositor::composite_of(m, w);
    if ids.len() == 0 {
        assert(ids.filter(able).map_values(picture) =~= seq![]);
    } else {
        let before = ids.drop_last();
        each_drawable_monitor_gets_its_picture(m, before);
        assert(compositor::composites(m, ids) =~= ids.filter(able).map_values(picture));
    }
}

/// Every field of a composed scene is read under its own name.
pub proof fn composed_scenes_keep_every_field(s: CompositeScene, list: Seq<CompositeScene>, i: int)
    requires
        0 <= i < list.len(),
    ensures
        s@.monitor_id == s.monitor_id,
        s@.scene_id == s.scene_id,
        s@.logical_w == s.logical_w,
        s@.logical_h == s.logical_h,
        s@.layers == s.layers@,
        compositor::composite_views(list).len() == list.len(),
        compositor::composite_views(list)[i] == list[i]@,
{
}

/// A layer is drawn from the buffer that its canvas presented last, unless its
/// window is empty or there is no such buffer.
pub proof fn layers_are_drawn_from_the_presented_buffer(
    layer: MonitorLayer,
    presented: usize,
    textures: usize,
    r: Option<usize>,
)
    requires
        call_ensures(compositor::layer_source, (&layer, presented, textures), r),
    ensures
        r matches Some(i) ==> i == presented && i < textures,
        r is Some <==> layer.window.logical_w > 0 && layer.window.logical_h > 0 && presented
            < textures,
{
}

/// What a picture is scaled by is its logical size, and one where that is zero.
pub proof fn pictures_are_scaled_by_their_size(logical: u32, r: u32)
    requires
        call_ensures(compositor::scale_base, (logical,), r),
    ensures
        logical > 0 ==> r == logical,
        logical == 0 ==> r == 1,
{
}

/// What was reported is handed out once: the reports that are taken are all that were
/// made, and none is left.
pub proof fn reports_are_taken_once(
    reports: &mut CompositorScheduler,
    taken: DirtyState,
    canvas: &mut CompositorScheduler,
    canvas_id: u32,
    monitor: &mut CompositorScheduler,
    monitor_id: u32,
    id: u32,
    none: bool,
)
    requires
        call_ensures(CompositorScheduler::take_dirty, (reports,), taken),
        call_ensures(CompositorScheduler::mark_canvas_presented, (canvas, canvas_id), ()),
        call_ensures(CompositorScheduler::mark_monitor_dirty, (monitor, monitor_id), ()),
        call_ensures(DirtyState::is_empty, (&taken,), none),
    ensures
        taken.canvas_ids@ == old(reports)@.canvases,
        taken.monitor_ids@ == old(reports)@.monitors,
        !final(reports)@.canvases.contains(id),
        !final(reports)@.monitors.contains(id),
        final(canvas)@.canvases.contains(id) <==> id == canvas_id || old(
            canvas,
        )@.canvases.contains(id),
        final(canvas)@.monitors == old(canvas)@.monitors,
        final(monitor)@.monitors.contains(id) <==> id == monitor_id || old(
            monitor,
        )@.monitors.contains(id),
        final(monitor)@.canvases == old(monitor)@.canvases,
        none && (taken.canvas_ids@.contains(id) || taken.monitor_ids@.contains(id)) ==> false,
{
}

/// What a filter leaves was there before and passes.
proof fn filtered_ids_were_there(ids: Seq<u32>, pass: spec_fn(u32) -> bool, i: int)
    requires
        0 <= i < ids.filter(pass).len(),
    ensures
        ids.contains(ids.filter(pass)[i]),
        pass(ids.filter(pass)[i]),
    decreases ids.len(),
{
    reveal(Seq::filter);
    let before = ids.drop_last();
    let kept = before.filter(pass);
    if i < kept.len() {
        filtered_ids_were_there(before, pass, i);
        let k = choose|k: int| 0 <= k < before.len() && before[k] == kept[i];
        assert(ids[k] == kept[i]);
    } else {
        assert(ids[ids.len() - 1] == ids.filter(pass)[i]);
    }
}

/// Each tick draws the scenes of the monitors that were reported or show a canvas
/// that was, once each in ascending order, where they have a scene and an output: with
/// the scene's logical size and its visible layers.
pub proof fn ticks_draw_what_was_reported(
    state: &ServerState,
    dirty: &DirtyState,
    ids: Vec<u32>,
    r: Vec<CompositeScene>,
    i: int,
    monitor_id: u32,
)
    requires
        call_ensures(compositor::dirty_monitor_ids, (state, dirty), ids),
        call_ensures(compositor::composite_scenes, (state, dirty), r),
    ensures
        ids@.contains(monitor_id) <==> dirty.monitor_ids@.contains(monitor_id) || (
        state@.scenes.contains_key(monitor_id) && exists|k: int|
            0 <= k < state@.scenes[monitor_id].layers.len() && dirty.canvas_ids@.contains(
                (#[trigger] state@.scenes[monitor_id].layers[k]).canvas_id,
            )),
        0 < i < ids@.len() ==> ids@[i - 1] < ids@[i],
        0 <= i < r@.len() ==> {
            let w = r@[i].monitor_id;
            &&& ids@.contains(w)
            &&& state@.scenes.contains_key(w)
            &&& state@.outputs.contains_key(w)
            &&& r@[i].logical_w == state@.scenes[w].metrics.logical_w
            &&& r@[i].logical_h == state@.scenes[w].metrics.logical_h
        },
        ids@.contains(monitor_id) && state@.scenes.contains_key(monitor_id)
            && state@.outputs.contains_key(monitor_id) ==> exists|k: int|
            0 <= k < r@.len() && (#[trigger] r@[k]).monitor_id == monitor_id,
{
    let m = state@;
    let all = ids@;
    let able = |w: u32| m.scenes.contains_key(w) && m.outputs.contains_key(w);
    let picture = |w: u32| compositor::composite_of(m, w);
    let set = compositor::dirty_monitors(m, dirty@);
    assert(set.contains(monitor_id) <==> all.contains(monitor_id));
    each_drawable_monitor_gets_its_picture(m, all);
    let chosen = all.filter(able);
    let views = compositor::composite_views(r@);
    assert(views == chosen.map_values(picture));
    if 0 <= i < r@.len() {
        assert(views[i] == r@[i]@);
        filtered_ids_were_there(all, able, i);
    }
    if all.contains(monitor_id) && able(monitor_id) {
        broadcast use vstd::seq_lib::group_filter_ensures;

        let k = choose|k: int| 0 <= k < all.len() && all[k] == monitor_id;
        assert(chosen.contains(all[k]));
        let j = choose|j: int| 0 <= j < chosen.len() && chosen[j] == monitor_id;
        assert(views.len() == r@.len() && chosen.len() == views.len());
        assert(views[j] == r@[j]@);
        assert(r@[j].monitor_id == monitor_id);
    }
}

} // verus!
