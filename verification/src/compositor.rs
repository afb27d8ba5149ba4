//! The compositor: which monitors' scenes are to be drawn anew, and what is drawn
//! in each.
//!
//! Marks are collected between two ticks, so that a scene is drawn at most once in
//! a tick however many of its canvases changed.

use std::collections::{HashSet, VecDeque};
use vstd::prelude::*;

use crate::durations;
use crate::durations::record_compositor_duration;
use crate::scene::{MonitorLayer, MonitorScene, SceneView};
use crate::server::{ServerModel, ServerState};
use crate::tables;
use crate::tables::{sorted_keys, sorted_members};

verus! {

/// The microseconds between two ticks.
pub const COMPOSITOR_TICK_MICROS: u64 = 8_333;

/// The ticks for which there is no other warning after one.
pub const COMPOSITOR_WARN_COOLDOWN_TICKS: usize = 60;

/// The milliseconds over which the rate of drawn scenes is counted.
pub const COMPOSITOR_METRICS_INTERVAL_MS: u64 = 1_000;

/// What changed since the last tick.
#[derive(Debug)]
pub struct DirtyState {
    pub canvas_ids: HashSet<u32>,
    pub monitor_ids: HashSet<u32>,
}

/// What changed since the last tick, as a mathematical value.
#[verifier::ext_equal]
pub struct DirtyView {
    pub canvases: Set<u32>,
    pub monitors: Set<u32>,
}

impl View for DirtyState {
    type V = DirtyView;

    open spec fn view(&self) -> DirtyView {
        DirtyView { canvases: self.canvas_ids@, monitors: self.monitor_ids@ }
    }
}

impl DirtyView {
    /// Nothing changed.
    pub open spec fn clean() -> DirtyView {
        DirtyView { canvases: Set::empty(), monitors: Set::empty() }
    }

    /// A canvas changed as well.
    pub open spec fn with_canvas(self, canvas_id: u32) -> DirtyView {
        DirtyView { canvases: self.canvases.insert(canvas_id), ..self }
    }

    /// A monitor has to be drawn as well.
    pub open spec fn with_monitor(self, monitor_id: u32) -> DirtyView {
        DirtyView { monitors: self.monitors.insert(monitor_id), ..self }
    }
}

impl DirtyState {
    /// Nothing changed.
    pub fn new() -> (r: Self)
        ensures
            r@ == DirtyView::clean(),
    {
        DirtyState { canvas_ids: HashSet::new(), monitor_ids: HashSet::new() }
    }

    /// Whether nothing changed.
    pub fn is_empty(&self) -> (r: bool)
        ensures
            r == (self@ == DirtyView::clean()),
    {
        let r = self.canvas_ids.is_empty() && self.monitor_ids.is_empty();
        proof {
            if r {
                assert(self@.canvases =~= Set::empty());
                assert(self@.monitors =~= Set::empty());
            }
        }
        r
    }
}

/// Collects what changes between two ticks.
#[derive(Debug)]
pub struct CompositorScheduler {
    dirty: DirtyState,
}

impl View for CompositorScheduler {
    type V = DirtyView;

    closed spec fn view(&self) -> DirtyView {
        self.dirty@
    }
}

impl CompositorScheduler {
    /// A scheduler to which nothing was reported.
    pub fn new() -> (r: Self)
        ensures
            r@ == DirtyView::clean(),
    {
        CompositorScheduler { dirty: DirtyState::new() }
    }

    /// Reports that a canvas shows a new frame.
    pub fn mark_canvas_presented(&mut self, canvas_id: u32)
        ensures
            final(self)@ == old(self)@.with_canvas(canvas_id),
    {
        self.dirty.canvas_ids.insert(canvas_id);
    }

    /// Reports that a monitor has to be drawn anew.
    pub fn mark_monitor_dirty(&mut self, monitor_id: u32)
        ensures
            final(self)@ == old(self)@.with_monitor(monitor_id),
    {
        self.dirty.monitor_ids.insert(monitor_id);
    }

    /// Takes what was reported since the last time.
    pub fn take_dirty(&mut self) -> (r: DirtyState)
        ensures
            r@ == old(self)@,
            final(self)@ == DirtyView::clean(),
    {
        let mut taken = DirtyState::new();
        std::mem::swap(&mut taken, &mut self.dirty);
        taken
    }
}

/// A report that is made twice counts once.
pub proof fn reports_coalesce(dirty: DirtyView, id: u32)
    ensures
        dirty.with_canvas(id).with_canvas(id) == dirty.with_canvas(id),
        dirty.with_monitor(id).with_monitor(id) == dirty.with_monitor(id),
{
    assert(dirty.with_canvas(id).with_canvas(id) =~= dirty.with_canvas(id));
    assert(dirty.with_monitor(id).with_monitor(id) =~= dirty.with_monitor(id));
}

/// The order of reports does not matter.
pub proof fn reports_commute(dirty: DirtyView, a: u32, b: u32)
    ensures
        dirty.with_canvas(a).with_canvas(b) == dirty.with_canvas(b).with_canvas(a),
        dirty.with_monitor(a).with_monitor(b) == dirty.with_monitor(b).with_monitor(a),
        dirty.with_canvas(a).with_monitor(b) == dirty.with_monitor(b).with_canvas(a),
{
    assert(dirty.with_canvas(a).with_canvas(b) =~= dirty.with_canvas(b).with_canvas(a));
    assert(dirty.with_monitor(a).with_monitor(b) =~= dirty.with_monitor(b).with_monitor(a));
    assert(dirty.with_canvas(a).with_monitor(b) =~= dirty.with_monitor(b).with_canvas(a));
}

/// Whether a scene shows one of the canvases.
pub open spec fn shows_any(scene: SceneView, canvases: Set<u32>) -> bool {
    exists|i: int|
        0 <= i < scene.layers.len() && canvases.contains((#[trigger] scene.layers[i]).canvas_id)
}

/// The monitors that have to be drawn anew: those reported, and those whose scene
/// shows a canvas that changed.
pub open spec fn dirty_monitors(state: ServerModel, dirty: DirtyView) -> Set<u32> {
    Set::new(
        |m: u32|
            dirty.monitors.contains(m) || (state.scenes.contains_key(m) && shows_any(
                state.scenes[m],
                dirty.canvases,
            )),
    )
}

fn scene_shows_any(scene: &MonitorScene, canvases: &HashSet<u32>) -> (r: bool)
    ensures
        r == shows_any(scene@, canvases@),
{
    let mut i: usize = 0;
    while i < scene.layers.len()
        invariant
            i <= scene.layers@.len(),
            forall|j: int|
                0 <= j < i ==> !canvases@.contains((#[trigger] scene@.layers[j]).canvas_id),
        decreases scene.layers@.len() - i,
    {
        let canvas_id: u32 = scene.layers[i].canvas_id;
        if canvases.contains(&canvas_id) {
            assert(canvases@.contains(scene@.layers[i as int].canvas_id));
            return true;
        }
        i = i + 1;
    }
    false
}

/// The monitors that have to be drawn anew, in ascending order.
pub fn dirty_monitor_ids(state: &ServerState, dirty: &DirtyState) -> (r: Vec<u32>)
    ensures
        r@ == tables::ascending_of(dirty_monitors(state@, dirty@)),
        tables::lists(r@, dirty_monitors(state@, dirty@)),
{
    let mut found: HashSet<u32> = HashSet::new();
    let reported = sorted_members(&dirty.monitor_ids);
    let mut i: usize = 0;
    while i < reported.len()
        invariant
            i <= reported@.len(),
            forall|m: u32| #[trigger]
                found@.contains(m) <==> exists|j: int| 0 <= j < i && #[trigger] reported@[j] == m,
        decreases reported@.len() - i,
    {
        let ghost before = found@;
        found.insert(reported[i]);
        proof {
            assert forall|m: u32| #[trigger]
                found@.contains(m) <==> exists|j: int| 0 <= j < i + 1 && #[trigger] reported@[j] == m by {
                if m == reported@[i as int] {
                    assert(found@.contains(m));
                } else {
                    assert(found@.contains(m) == before.contains(m));
                }
            }
        }
        i = i + 1;
    }
    assert forall|m: u32| #[trigger] found@.contains(m) <==> dirty@.monitors.contains(m) by {
        assert(reported@.contains(m) <==> dirty@.monitors.contains(m));
    }
    let scenes = sorted_keys(&state.monitor_scenes);
    let mut k: usize = 0;
    while k < scenes.len()
        invariant
            k <= scenes@.len(),
            tables::lists(scenes@, state.monitor_scenes@.dom()),
            forall|m: u32| #[trigger]
                found@.contains(m) <==> (dirty@.monitors.contains(m) || exists|j: int|
                    0 <= j < k && #[trigger] scenes@[j] == m && shows_any(
                        state@.scenes[m],
                        dirty@.canvases,
                    )),
        decreases scenes@.len() - k,
    {
        let monitor_id: u32 = scenes[k];
        let ghost before = found@;
        assert(scenes@.contains(monitor_id));
        assert(state.monitor_scenes@.dom().contains(monitor_id));
        if let Some(scene) = state.monitor_scenes.get(&monitor_id) {
            assert(scene@ == state@.scenes[monitor_id]);
            if scene_shows_any(scene, &dirty.canvas_ids) {
                found.insert(monitor_id);
            }
        }
        proof {
            assert forall|m: u32| #[trigger]
                found@.contains(m) <==> (dirty@.monitors.contains(m) || exists|j: int|
                    0 <= j < k + 1 && #[trigger] scenes@[j] == m && shows_any(
                        state@.scenes[m],
                        dirty@.canvases,
                    )) by {
                if m == monitor_id && shows_any(state@.scenes[m], dirty@.canvases) {
                    assert(scenes@[k as int] == m);
                } else {
                    assert(found@.contains(m) == before.contains(m));
                }
            }
        }
        k = k + 1;
    }
    proof {
        assert forall|m: u32| #[trigger] found@.contains(m) <==> dirty_monitors(
            state@,
            dirty@,
        ).contains(m) by {
            assert(scenes@.contains(m) <==> state.monitor_scenes@.dom().contains(m));
        }
        assert(found@ =~= dirty_monitors(state@, dirty@));
    }
    sorted_members(&found)
}

/// `layers` with one more, above those that are not above it.
pub open spec fn insert_by_z(layers: Seq<MonitorLayer>, layer: MonitorLayer) -> Seq<MonitorLayer>
    decreases layers.len(),
{
    if layers.len() > 0 && layers.last().z_order > layer.z_order {
        insert_by_z(layers.drop_last(), layer).push(layers.last())
    } else {
        layers.push(layer)
    }
}

/// Whether a layer is drawn: it is visible, and its canvas is there.
pub open spec fn is_drawn(layer: MonitorLayer, canvases: Set<u32>) -> bool {
    layer.window.visible && canvases.contains(layer.canvas_id)
}

/// The layers of a scene that are drawn, from back to front. Layers of one height
/// keep the scene's order.
pub open spec fn drawn(layers: Seq<MonitorLayer>, canvases: Set<u32>) -> Seq<MonitorLayer>
    decreases layers.len(),
{
    if layers.len() == 0 {
        seq![]
    } else {
        let before = drawn(layers.drop_last(), canvases);
        if is_drawn(layers.last(), canvases) {
            insert_by_z(before, layers.last())
        } else {
            before
        }
    }
}

/// A scene that is to be drawn.
#[derive(Debug)]
pub struct CompositeScene {
    pub monitor_id: u32,
    pub scene_id: u32,
    pub logical_w: u32,
    pub logical_h: u32,
    pub layers: Vec<MonitorLayer>,
}

/// A scene that is to be drawn, as a mathematical value.
#[verifier::ext_equal]
pub struct CompositeView {
    pub monitor_id: u32,
    pub scene_id: u32,
    pub logical_w: u32,
    pub logical_h: u32,
    pub layers: Seq<MonitorLayer>,
}

impl View for CompositeScene {
    type V = CompositeView;

    open spec fn view(&self) -> CompositeView {
        CompositeView {
            monitor_id: self.monitor_id,
            scene_id: self.scene_id,
            logical_w: self.logical_w,
            logical_h: self.logical_h,
            layers: self.layers@,
        }
    }
}

/// What is drawn for a monitor that has a scene.
pub open spec fn composite_of(state: ServerModel, monitor_id: u32) -> CompositeView {
    let scene = state.scenes[monitor_id];
    CompositeView {
        monitor_id,
        scene_id: scene.monitor_id,
        logical_w: scene.metrics.logical_w,
        logical_h: scene.metrics.logical_h,
        layers: drawn(scene.layers, state.canvases.dom()),
    }
}

/// Whether a monitor has a scene and an output to draw it on.
pub open spec fn can_draw(state: ServerModel, monitor_id: u32) -> bool {
    state.scenes.contains_key(monitor_id) && state.outputs.contains_key(monitor_id)
}

/// What is drawn for the monitors in a list.
pub open spec fn composites(state: ServerModel, monitor_ids: Seq<u32>) -> Seq<CompositeView>
    decreases monitor_ids.len(),
{
    if monitor_ids.len() == 0 {
        seq![]
    } else {
        let before = composites(state, monitor_ids.drop_last());
        if can_draw(state, monitor_ids.last()) {
            before.push(composite_of(state, monitor_ids.last()))
        } else {
            before
        }
    }
}

/// What the members of a list of scenes are.
pub open spec fn composite_views(scenes: Seq<CompositeScene>) -> Seq<CompositeView> {
    scenes.map_values(|s: CompositeScene| s@)
}

/// Puts a layer above those that are not above it.
fn put_by_z(layers: &mut Vec<MonitorLayer>, layer: MonitorLayer)
    ensures
        final(layers)@ == insert_by_z(old(layers)@, layer),
{
    let ghost all = layers@;
    let mut at: usize = layers.len();
    assert(all.take(at as int) =~= all);
    assert(all.skip(at as int) =~= seq![]);
    assert(insert_by_z(all, layer) + seq![] =~= insert_by_z(all, layer));
    while at > 0 && layers[at - 1].z_order > layer.z_order
        invariant
            layers@ == all,
            at <= all.len(),
            insert_by_z(all.take(at as int), layer) + all.skip(at as int) == insert_by_z(all, layer),
        decreases at,
    {
        proof {
            let now = all.take(at as int);
            assert(now.drop_last() =~= all.take(at - 1));
            assert(insert_by_z(all.take(at - 1), layer) + all.skip(at - 1) =~= insert_by_z(
                now,
                layer,
            ) + all.skip(at as int));
        }
        at = at - 1;
    }
    layers.insert(at, layer);
    assert(layers@ =~= insert_by_z(all.take(at as int), layer) + all.skip(at as int));
}

fn drawn_layers(scene: &MonitorScene, state: &ServerState) -> (r: Vec<MonitorLayer>)
    ensures
        r@ == drawn(scene@.layers, state@.canvases.dom()),
{
    let mut out: Vec<MonitorLayer> = Vec::new();
    let ghost canvases = state@.canvases.dom();
    let mut i: usize = 0;
    while i < scene.layers.len()
        invariant
            i <= scene.layers@.len(),
            canvases == state@.canvases.dom(),
            out@ == drawn(scene.layers@.take(i as int), canvases),
        decreases scene.layers@.len() - i,
    {
        let layer = scene.layers[i];
        assert(scene.layers@.take(i + 1).drop_last() =~= scene.layers@.take(i as int));
        assert(canvases.contains(layer.canvas_id) == state.canvases@.contains_key(layer.canvas_id));
        if layer.window.visible && state.canvases.contains_key(&layer.canvas_id) {
            put_by_z(&mut out, layer);
        }
        i = i + 1;
    }
    assert(scene.layers@.take(i as int) =~= scene.layers@);
    out
}

/// What is to be drawn: a scene for each monitor that has to be drawn anew and can
/// be. One whose output has no free buffer is left out of the tick, and no other.
pub fn composite_scenes(state: &ServerState, dirty: &DirtyState) -> (r: Vec<CompositeScene>)
    ensures
        composite_views(r@) == composites(
            state@,
            tables::ascending_of(dirty_monitors(state@, dirty@)),
        ),
        tables::lists(
            tables::ascending_of(dirty_monitors(state@, dirty@)),
            dirty_monitors(state@, dirty@),
        ),
{
    let ids = dirty_monitor_ids(state, dirty);
    let mut out: Vec<CompositeScene> = Vec::new();
    let mut i: usize = 0;
    assert(composite_views(out@) =~= seq![]);
    while i < ids.len()
        invariant
            i <= ids@.len(),
            composite_views(out@) == composites(state@, ids@.take(i as int)),
        decreases ids@.len() - i,
    {
        let monitor_id: u32 = ids[i];
        let ghost before = out@;
        assert(ids@.take(i + 1).drop_last() =~= ids@.take(i as int));
        if state.monitor_scene_outputs.contains_key(&monitor_id) {
            if let Some(scene) = state.monitor_scenes.get(&monitor_id) {
                assert(scene@ == state@.scenes[monitor_id]);
                let work = CompositeScene {
                    monitor_id,
                    scene_id: scene.monitor_id,
                    logical_w: scene.metrics.logical_w,
                    logical_h: scene.metrics.logical_h,
                    layers: drawn_layers(scene, state),
                };
                assert(work@ =~= composite_of(state@, monitor_id));
                out.push(work);
                assert(composite_views(out@) =~= composite_views(before).push(work@));
            }
        }
        i = i + 1;
    }
    assert(ids@.take(i as int) =~= ids@);
    out
}

/// The texture that a layer is drawn from: the one that its canvas presented last,
/// of `textures` of them. An empty layer is not drawn.
pub fn layer_source(layer: &MonitorLayer, presented: usize, textures: usize) -> (r: Option<usize>)
    ensures
        r == (if layer.window.logical_w > 0 && layer.window.logical_h > 0 && presented < textures {
            Some(presented)
        } else {
            None
        }),
{
    if layer.window.logical_w == 0 || layer.window.logical_h == 0 || presented >= textures {
        None
    } else {
        Some(presented)
    }
}

/// The logical extent that an output's extent is divided by to scale a scene.
pub fn scale_base(logical: u32) -> (r: u32)
    ensures
        r > 0,
        logical > 0 ==> r == logical,
        logical == 0 ==> r == 1,
{
    if logical == 0 {
        1
    } else {
        logical
    }
}

/// What the compositor counts from tick to tick.
#[derive(Debug)]
pub struct CompositorMetrics {
    pub durations: VecDeque<u64>,
    pub warn_cooldown: usize,
    pub rendered: usize,
}

/// What a tick reports.
#[derive(Debug, Clone, Copy, PartialEq, Eq, Structural)]
pub struct TickReport {
    /// The scenes drawn since the last report of the rate.
    pub rendered: Option<usize>,
    /// The average duration of a tick, where it is too long.
    pub slow_average: Option<u64>,
}

/// Whether a tick that drew something warns.
pub open spec fn warns(durations: Seq<u64>, cooldown: usize) -> bool {
    durations::whole_ms_too_slow(durations, 120, 8) && cooldown == 0
}

impl CompositorMetrics {
    /// The start: nothing counted.
    pub fn new() -> (r: Self)
        ensures
            r.durations@ == Seq::<u64>::empty(),
            r.warn_cooldown == 0,
            r.rendered == 0,
    {
        CompositorMetrics { durations: VecDeque::new(), warn_cooldown: 0, rendered: 0 }
    }

    /// Counts a tick that drew `rendered` scenes in `nanos` nanoseconds.
    /// `interval_over` says whether it is time to report the rate.
    pub fn tick(&mut self, rendered: usize, nanos: u64, interval_over: bool) -> (r: TickReport)
        requires
            old(self).rendered + rendered <= usize::MAX,
        ensures
            final(self).rendered == if interval_over {
                0
            } else {
                old(self).rendered + rendered
            },
            r.rendered == (if interval_over && old(self).rendered + rendered > 0 {
                Some((old(self).rendered + rendered) as usize)
            } else {
                None
            }),
            rendered == 0 ==> {
                &&& r.slow_average is None
                &&& final(self).durations@ == old(self).durations@
                &&& final(self).warn_cooldown == old(self).warn_cooldown
            },
            rendered > 0 ==> {
                let samples = durations::rolled(old(self).durations@, nanos, 120);
                let warn = warns(samples, old(self).warn_cooldown);
                &&& final(self).durations@ == samples
                &&& r.slow_average is Some <==> warn
                &&& r.slow_average matches Some(a) ==> a == durations::average(samples)
                &&& final(self).warn_cooldown == if warn {
                    60
                } else if old(self).warn_cooldown > 0 {
                    old(self).warn_cooldown - 1
                } else {
                    0
                }
            },
    {
        let total: usize = self.rendered + rendered;
        let mut report = TickReport { rendered: None, slow_average: None };
        if interval_over {
            if total > 0 {
                report.rendered = Some(total);
            }
            self.rendered = 0;
        } else {
            self.rendered = total;
        }
        if rendered == 0 {
            return report;
        }
        let (average, warn) = record_compositor_duration(&mut self.durations, nanos);
        if warn && self.warn_cooldown == 0 {
            report.slow_average = Some(average);
            self.warn_cooldown = COMPOSITOR_WARN_COOLDOWN_TICKS;
        } else {
            self.warn_cooldown = self.warn_cooldown.saturating_sub(1);
        }
        report
    }
}

/// Nobody is warned while a warning cools down.
pub proof fn warnings_cool_down(durations: Seq<u64>, cooldown: usize)
    requires
        cooldown > 0,
    ensures
        !warns(durations, cooldown),
{
}

/// Layers in ascending height.
pub open spec fn back_to_front(layers: Seq<MonitorLayer>) -> bool {
    forall|i: int, j: int| 0 <= i < j < layers.len() ==> layers[i].z_order <= layers[j].z_order
}

/// Inserting keeps the order, and puts the layer in.
proof fn inserting_keeps_order(layers: Seq<MonitorLayer>, layer: MonitorLayer)
    requires
        back_to_front(layers),
    ensures
        back_to_front(insert_by_z(layers, layer)),
        layers.len() > 0 ==> insert_by_z(layers, layer).last().z_order >= layers.last().z_order,
        forall|k: int|
            0 <= k < insert_by_z(layers, layer).len() ==> (#[trigger] insert_by_z(
                layers,
                layer,
            )[k]).z_order <= layer.z_order || layers.contains(insert_by_z(layers, layer)[k]),
        insert_by_z(layers, layer).len() == layers.len() + 1,
    decreases layers.len(),
{
    let out = insert_by_z(layers, layer);
    if layers.len() > 0 && layers.last().z_order > layer.z_order {
        let before = layers.drop_last();
        let sub = insert_by_z(before, layer);
        inserting_keeps_order(before, layer);
        assert forall|k: int| 0 <= k < sub.len() implies (#[trigger] sub[k]).z_order
            <= layers.last().z_order by {
            if sub[k].z_order > layer.z_order {
                assert(before.contains(sub[k]));
                let j = choose|j: int| 0 <= j < before.len() && before[j] == sub[k];
                assert(layers[j] == sub[k]);
            }
        }
        assert forall|k: int| 0 <= k < out.len() implies (#[trigger] out[k]).z_order
            <= layer.z_order || layers.contains(out[k]) by {
            if k < sub.len() {
                assert(out[k] == sub[k]);
                if before.contains(sub[k]) {
                    let j = choose|j: int| 0 <= j < before.len() && before[j] == sub[k];
                    assert(layers[j] == sub[k]);
                }
            } else {
                assert(layers[layers.len() - 1] == out[k]);
            }
        }
    } else {
        assert forall|k: int| 0 <= k < out.len() implies (#[trigger] out[k]).z_order
            <= layer.z_order || layers.contains(out[k]) by {
            if k < layers.len() {
                assert(layers[k] == out[k]);
            }
        }
    }
}

/// Layers are drawn from back to front.
pub proof fn layers_are_drawn_back_to_front(layers: Seq<MonitorLayer>, canvases: Set<u32>)
    ensures
        back_to_front(drawn(layers, canvases)),
    decreases layers.len(),
{
    if layers.len() > 0 {
        layers_are_drawn_back_to_front(layers.drop_last(), canvases);
        inserting_keeps_order(drawn(layers.drop_last(), canvases), layers.last());
    }
}

/// Inserting changes nothing at other heights, and at its own puts the layer last.
proof fn inserting_at_a_height(layers: Seq<MonitorLayer>, layer: MonitorLayer, z: u32)
    requires
        back_to_front(layers),
    ensures
        insert_by_z(layers, layer).filter(|l: MonitorLayer| l.z_order == z) == if layer.z_order == z {
            layers.filter(|l: MonitorLayer| l.z_order == z).push(layer)
        } else {
            layers.filter(|l: MonitorLayer| l.z_order == z)
        },
    decreases layers.len(),
{
    reveal(Seq::filter);
    let at = |l: MonitorLayer| l.z_order == z;
    let out = insert_by_z(layers, layer);
    if layers.len() > 0 && layers.last().z_order > layer.z_order {
        inserting_at_a_height(layers.drop_last(), layer, z);
        assert(out.drop_last() =~= insert_by_z(layers.drop_last(), layer));
        if layer.z_order == z {
            assert(!at(layers.last()));
        }
    } else {
        assert(out.drop_last() =~= layers);
    }
}

/// At each height, exactly the visible layers whose canvas is there are drawn, in
/// the scene's order.
pub proof fn exactly_the_visible_layers_are_drawn(
    layers: Seq<MonitorLayer>,
    canvases: Set<u32>,
    z: u32,
)
    ensures
        drawn(layers, canvases).filter(|l: MonitorLayer| l.z_order == z) == layers.filter(
            |l: MonitorLayer| is_drawn(l, canvases) && l.z_order == z,
        ),
    decreases layers.len(),
{
    reveal(Seq::filter);
    if layers.len() > 0 {
        exactly_the_visible_layers_are_drawn(layers.drop_last(), canvases, z);
        layers_are_drawn_back_to_front(layers.drop_last(), canvases);
        inserting_at_a_height(drawn(layers.drop_last(), canvases), layers.last(), z);
    }
}

/// A scene that shows a canvas that changed is drawn anew.
pub proof fn changed_canvases_are_redrawn(
    state: ServerModel,
    dirty: DirtyView,
    monitor_id: u32,
    i: int,
    canvas_id: u32,
)
    requires
        state.scenes.contains_key(monitor_id),
        0 <= i < state.scenes[monitor_id].layers.len(),
        state.scenes[monitor_id].layers[i].canvas_id == canvas_id,
    ensures
        dirty_monitors(state, dirty.with_canvas(canvas_id)).contains(monitor_id),
{
    assert(dirty.with_canvas(canvas_id).canvases.contains(
        state.scenes[monitor_id].layers[i].canvas_id,
    ));
}

/// Where nothing was reported nothing is drawn.
pub proof fn clean_ticks_draw_nothing(state: ServerModel)
    ensures
        dirty_monitors(state, DirtyView::clean()) == Set::<u32>::empty(),
{
    assert(dirty_monitors(state, DirtyView::clean()) =~= Set::empty());
}

} // verus!
