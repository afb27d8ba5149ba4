//! A monitor's scene: the canvases that it shows, as layers from back to front.

use vstd::prelude::*;

use crate::tables;

verus! {

/// The size of a monitor's scene.
#[derive(Debug, Clone, Copy, PartialEq, Eq, Structural)]
pub struct MonitorMetrics {
    pub logical_w: u32,
    pub logical_h: u32,
}

/// Where a layer stands on its monitor.
#[derive(Debug, Clone, Copy, PartialEq, Eq, Structural)]
pub struct VirtualWindow {
    pub x: i32,
    pub y: i32,
    pub logical_w: u32,
    pub logical_h: u32,
    pub visible: bool,
}

/// A canvas on a monitor's scene.
#[derive(Debug, Clone, Copy, PartialEq, Eq, Structural)]
pub struct MonitorLayer {
    pub id: u32,
    pub app_id: u32,
    pub canvas_id: u32,
    pub z_order: u32,
    pub window: VirtualWindow,
}

/// The layers that a monitor shows.
#[derive(Debug, Clone, PartialEq, Eq)]
pub struct MonitorScene {
    pub monitor_id: u32,
    pub metrics: MonitorMetrics,
    pub layers: Vec<MonitorLayer>,
    pub next_layer_id: u32,
}

/// A scene as a mathematical value.
#[verifier::ext_equal]
pub struct SceneView {
    pub monitor_id: u32,
    pub metrics: MonitorMetrics,
    pub layers: Seq<MonitorLayer>,
    pub next_layer_id: u32,
}

impl View for MonitorScene {
    type V = SceneView;

    open spec fn view(&self) -> SceneView {
        SceneView {
            monitor_id: self.monitor_id,
            metrics: self.metrics,
            layers: self.layers@,
            next_layer_id: self.next_layer_id,
        }
    }
}

/// `x + 1`, held at the largest value.
pub open spec fn successor(x: u32) -> u32 {
    if x < u32::MAX {
        (x + 1) as u32
    } else {
        u32::MAX
    }
}

/// The highest `z_order` of the layers; zero where there is none.
pub open spec fn top_z(layers: Seq<MonitorLayer>) -> u32
    decreases layers.len(),
{
    if layers.len() == 0 {
        0
    } else {
        let below = top_z(layers.drop_last());
        if layers.last().z_order > below {
            layers.last().z_order
        } else {
            below
        }
    }
}

/// Whether layer `i` shows the canvas for the app.
pub open spec fn shows(layers: Seq<MonitorLayer>, i: int, app_id: u32, canvas_id: u32) -> bool {
    0 <= i < layers.len() && layers[i].app_id == app_id && layers[i].canvas_id == canvas_id
}

/// The position of the first layer that shows the canvas for the app.
#[verifier::opaque]
pub open spec fn layer_index(layers: Seq<MonitorLayer>, app_id: u32, canvas_id: u32) -> Option<
    int,
> {
    if exists|i: int| shows(layers, i, app_id, canvas_id) {
        Some(
            choose|i: int|
                shows(layers, i, app_id, canvas_id) && forall|j: int|
                    0 <= j < i ==> !shows(layers, j, app_id, canvas_id),
        )
    } else {
        None
    }
}

impl SceneView {
    /// A scene without layers.
    pub open spec fn empty(monitor_id: u32, metrics: MonitorMetrics) -> SceneView {
        SceneView { monitor_id, metrics, layers: seq![], next_layer_id: 1 }
    }

    /// Whether a layer of the scene belongs to the app.
    pub open spec fn has_app(self, app_id: u32) -> bool {
        exists|i: int| 0 <= i < self.layers.len() && (#[trigger] self.layers[i]).app_id == app_id
    }

    /// The scene with the canvas shown in the window: a layer that shows it
    /// already keeps its identifier and its place, and a new one is put on top.
    pub open spec fn with_layer(
        self,
        app_id: u32,
        canvas_id: u32,
        window: VirtualWindow,
    ) -> SceneView {
        match layer_index(self.layers, app_id, canvas_id) {
            Some(i) => SceneView {
                layers: self.layers.update(i, MonitorLayer { window, ..self.layers[i] }),
                ..self
            },
            None => SceneView {
                layers: self.layers.push(
                    MonitorLayer {
                        id: self.next_layer_id,
                        app_id,
                        canvas_id,
                        z_order: successor(top_z(self.layers)),
                        window,
                    },
                ),
                next_layer_id: successor(self.next_layer_id),
                ..self
            },
        }
    }

    /// The identifier of the layer that shows the canvas, once it is shown.
    pub open spec fn layer_id(self, app_id: u32, canvas_id: u32) -> u32 {
        match layer_index(self.layers, app_id, canvas_id) {
            Some(i) => self.layers[i].id,
            None => self.next_layer_id,
        }
    }

    /// The scene without the app's layers.
    pub open spec fn without_app(self, app_id: u32) -> SceneView {
        SceneView { layers: self.layers.filter(|l: MonitorLayer| l.app_id != app_id), ..self }
    }
}

/// The first layer that shows a canvas is the only one before which none does.
proof fn layer_index_is(layers: Seq<MonitorLayer>, app_id: u32, canvas_id: u32, i: int)
    requires
        shows(layers, i, app_id, canvas_id),
        forall|j: int| 0 <= j < i ==> !shows(layers, j, app_id, canvas_id),
    ensures
        layer_index(layers, app_id, canvas_id) == Some(i),
{
    reveal(layer_index);
    let k = choose|k: int|
        shows(layers, k, app_id, canvas_id) && forall|j: int|
            0 <= j < k ==> !shows(layers, j, app_id, canvas_id);
    assert(shows(layers, k, app_id, canvas_id));
}

/// Where no layer shows a canvas for an app, there is no such position.
proof fn layer_index_none(layers: Seq<MonitorLayer>, app_id: u32, canvas_id: u32)
    requires
        forall|j: int| 0 <= j < layers.len() ==> !shows(layers, j, app_id, canvas_id),
    ensures
        layer_index(layers, app_id, canvas_id) is None,
{
    reveal(layer_index);
}

/// There is a first layer that shows a canvas for an app where any does.
proof fn layer_index_exists(layers: Seq<MonitorLayer>, app_id: u32, canvas_id: u32, i: int)
    requires
        shows(layers, i, app_id, canvas_id),
    ensures
        exists|k: int|
            #![trigger shows(layers, k, app_id, canvas_id)]
            shows(layers, k, app_id, canvas_id) && forall|j: int|
                0 <= j < k ==> !shows(layers, j, app_id, canvas_id),
    decreases i,
{
    if exists|j: int| 0 <= j < i && shows(layers, j, app_id, canvas_id) {
        let j = choose|j: int| 0 <= j < i && shows(layers, j, app_id, canvas_id);
        layer_index_exists(layers, app_id, canvas_id, j);
    }
}

/// A position that is found is that of a layer that shows the canvas; where none
/// is found, no layer shows it.
proof fn layer_index_found(layers: Seq<MonitorLayer>, app_id: u32, canvas_id: u32)
    ensures
        match layer_index(layers, app_id, canvas_id) {
            Some(i) => shows(layers, i, app_id, canvas_id) && forall|j: int|
                0 <= j < i ==> !shows(layers, j, app_id, canvas_id),
            None => forall|j: int| !shows(layers, j, app_id, canvas_id),
        },
{
    reveal(layer_index);
    if exists|i: int| shows(layers, i, app_id, canvas_id) {
        let i = choose|i: int| shows(layers, i, app_id, canvas_id);
        layer_index_exists(layers, app_id, canvas_id, i);
    }
}

impl MonitorScene {
    /// A scene without layers.
    pub fn new(monitor_id: u32, metrics: MonitorMetrics) -> (scene: Self)
        ensures
            scene@ == SceneView::empty(monitor_id, metrics),
    {
        MonitorScene { monitor_id, metrics, layers: Vec::new(), next_layer_id: 1 }
    }

    /// Whether a layer of the scene belongs to the app.
    pub fn contains_app(&self, app_id: u32) -> (found: bool)
        ensures
            found == self@.has_app(app_id),
    {
        let mut i: usize = 0;
        while i < self.layers.len()
            invariant
                i <= self.layers@.len(),
                forall|j: int| 0 <= j < i ==> (#[trigger] self.layers@[j]).app_id != app_id,
            decreases self.layers@.len() - i,
        {
            if self.layers[i].app_id == app_id {
                assert(self@.layers[i as int].app_id == app_id);
                return true;
            }
            i = i + 1;
        }
        false
    }

    /// Shows a canvas in a window, and returns the identifier of its layer.
    pub fn upsert_layer(&mut self, app_id: u32, canvas_id: u32, window: VirtualWindow) -> (id: u32)
        ensures
            final(self)@ == old(self)@.with_layer(app_id, canvas_id, window),
            id == old(self)@.layer_id(app_id, canvas_id),
    {
        let ghost before = self@;
        let mut i: usize = 0;
        let mut top: u32 = 0;
        while i < self.layers.len()
            invariant
                *self == *old(self),
                before == old(self)@,
                i <= self.layers@.len(),
                top == top_z(self.layers@.take(i as int)),
                forall|j: int| 0 <= j < i ==> !shows(self.layers@, j, app_id, canvas_id),
            decreases self.layers@.len() - i,
        {
            let layer: MonitorLayer = self.layers[i];
            if layer.app_id == app_id && layer.canvas_id == canvas_id {
                proof {
                    layer_index_is(self.layers@, app_id, canvas_id, i as int);
                }
                self.layers[i] = MonitorLayer { window, ..layer };
                assert(self@ == before.with_layer(app_id, canvas_id, window));
                return layer.id;
            }
            assert(self.layers@.take(i + 1).drop_last() =~= self.layers@.take(i as int));
            if layer.z_order > top {
                top = layer.z_order;
            }
            i = i + 1;
        }
        assert(self.layers@.take(i as int) =~= self.layers@);
        proof {
            layer_index_none(self.layers@, app_id, canvas_id);
        }
        let id: u32 = self.next_layer_id;
        self.next_layer_id = self.next_layer_id.saturating_add(1);
        let z_order: u32 = top.saturating_add(1);
        self.layers.push(MonitorLayer { id, app_id, canvas_id, z_order, window });
        id
    }

    /// Removes the app's layers.
    pub fn remove_app_layers(&mut self, app_id: u32)
        ensures
            final(self)@ == old(self)@.without_app(app_id),
    {
        let ghost keep = |l: MonitorLayer| l.app_id != app_id;
        let mut kept: Vec<MonitorLayer> = Vec::new();
        let mut i: usize = 0;
        assert(self.layers@.take(0).filter(keep) =~= seq![]);
        while i < self.layers.len()
            invariant
                *self == *old(self),
                i <= self.layers@.len(),
                kept@ == self.layers@.take(i as int).filter(keep),
                keep == (|l: MonitorLayer| l.app_id != app_id),
            decreases self.layers@.len() - i,
        {
            let layer: MonitorLayer = self.layers[i];
            proof {
                let grown = self.layers@.take(i + 1);
                assert(grown.drop_last() =~= self.layers@.take(i as int));
                reveal(Seq::filter);
            }
            if layer.app_id != app_id {
                kept.push(layer);
            }
            i = i + 1;
        }
        assert(self.layers@.take(i as int) =~= self.layers@);
        self.layers = kept;
    }

    /// Whether the scene shows nothing.
    pub fn is_empty(&self) -> (empty: bool)
        ensures
            empty == (self@.layers.len() == 0),
    {
        self.layers.len() == 0
    }
}

impl SceneView {
    /// Whether the layers stand from back to front in the order in which they
    /// came: both their identifiers and their `z_order` rise, and the next
    /// identifier is above all of them.
    pub open spec fn stacked(self) -> bool {
        &&& forall|i: int, j: int|
            0 <= i < j < self.layers.len() ==> self.layers[i].id < self.layers[j].id
                && self.layers[i].z_order < self.layers[j].z_order
        &&& forall|i: int|
            0 <= i < self.layers.len() ==> (#[trigger] self.layers[i]).id < self.next_layer_id
    }

    /// Whether no two layers show the same canvas for the same app.
    pub open spec fn unrepeated(self) -> bool {
        forall|i: int, j: int|
            0 <= i < j < self.layers.len() ==> !(#[trigger] self.layers[i].app_id
                == #[trigger] self.layers[j].app_id && self.layers[i].canvas_id
                == self.layers[j].canvas_id)
    }
}

/// No layer is above the top.
proof fn top_z_is_above(layers: Seq<MonitorLayer>, i: int)
    requires
        0 <= i < layers.len(),
    ensures
        layers[i].z_order <= top_z(layers),
    decreases layers.len(),
{
    if i < layers.len() - 1 {
        top_z_is_above(layers.drop_last(), i);
    }
}

/// Showing a canvas keeps the layers in the order in which they came, while
/// identifiers and `z_order` can still rise.
pub proof fn joining_keeps_the_stack(
    scene: SceneView,
    app_id: u32,
    canvas_id: u32,
    window: VirtualWindow,
)
    requires
        scene.stacked(),
        scene.next_layer_id < u32::MAX,
        top_z(scene.layers) < u32::MAX,
    ensures
        scene.with_layer(app_id, canvas_id, window).stacked(),
{
    layer_index_found(scene.layers, app_id, canvas_id);
    let after = scene.with_layer(app_id, canvas_id, window);
    match layer_index(scene.layers, app_id, canvas_id) {
        Some(i) => {
        },
        None => {
            assert forall|i: int, j: int| 0 <= i < j < after.layers.len() implies after.layers[i].id
                < after.layers[j].id && after.layers[i].z_order < after.layers[j].z_order by {
                top_z_is_above(scene.layers, i);
            }
        },
    }
}

/// A canvas that a scene shows already keeps its layer: the same identifier in
/// the same place, with no layer more.
pub proof fn rejoining_keeps_the_layer(
    scene: SceneView,
    app_id: u32,
    canvas_id: u32,
    first: VirtualWindow,
    second: VirtualWindow,
)
    ensures
        ({
            let joined = scene.with_layer(app_id, canvas_id, first);
            let rejoined = joined.with_layer(app_id, canvas_id, second);
            &&& joined.layer_id(app_id, canvas_id) == scene.layer_id(app_id, canvas_id)
            &&& rejoined == scene.with_layer(app_id, canvas_id, second)
        }),
{
    layer_index_found(scene.layers, app_id, canvas_id);
    let joined = scene.with_layer(app_id, canvas_id, first);
    let rejoined = joined.with_layer(app_id, canvas_id, second);
    let once = scene.with_layer(app_id, canvas_id, second);
    match layer_index(scene.layers, app_id, canvas_id) {
        Some(i) => {
            assert forall|j: int| 0 <= j < i implies !shows(
                joined.layers,
                j,
                app_id,
                canvas_id,
            ) by {
                assert(!shows(scene.layers, j, app_id, canvas_id));
            }
            layer_index_is(joined.layers, app_id, canvas_id, i);
        },
        None => {
            let i = scene.layers.len() as int;
            assert forall|j: int| 0 <= j < i implies !shows(
                joined.layers,
                j,
                app_id,
                canvas_id,
            ) by {
                assert(!shows(scene.layers, j, app_id, canvas_id));
            }
            layer_index_is(joined.layers, app_id, canvas_id, i);
        },
    }
    assert(rejoined.layers =~= once.layers);
}

/// Showing a canvas never gives it a second layer.
pub proof fn joining_repeats_no_canvas(
    scene: SceneView,
    app_id: u32,
    canvas_id: u32,
    window: VirtualWindow,
)
    requires
        scene.unrepeated(),
    ensures
        scene.with_layer(app_id, canvas_id, window).unrepeated(),
        scene.with_layer(app_id, canvas_id, window).has_app(app_id),
{
    layer_index_found(scene.layers, app_id, canvas_id);
    let after = scene.with_layer(app_id, canvas_id, window);
    match layer_index(scene.layers, app_id, canvas_id) {
        Some(i) => {
            assert(after.layers[i].app_id == app_id);
            assert forall|a: int, b: int| 0 <= a < b < after.layers.len() implies !(
                #[trigger] after.layers[a].app_id == #[trigger] after.layers[b].app_id
                && after.layers[a].canvas_id == after.layers[b].canvas_id) by {
                assert(scene.layers[a].app_id == after.layers[a].app_id);
                assert(scene.layers[b].app_id == after.layers[b].app_id);
            }
        },
        None => {
            let n = scene.layers.len() as int;
            assert(after.layers[n].app_id == app_id);
            assert forall|a: int, b: int| 0 <= a < b < after.layers.len() implies !(
                #[trigger] after.layers[a].app_id == #[trigger] after.layers[b].app_id
                && after.layers[a].canvas_id == after.layers[b].canvas_id) by {
                assert(!shows(scene.layers, a, app_id, canvas_id));
                if b < n {
                    assert(scene.layers[a].app_id == after.layers[a].app_id);
                    assert(scene.layers[b].app_id == after.layers[b].app_id);
                }
            }
        },
    }
}

/// A canvas that joins a scene has a layer there with the identifier that was
/// given back, for the app and the canvas that were named and with the window that
/// was given. A new layer lies above all others; one that was there keeps its
/// place and its identifier.
pub proof fn joined_layers_show_the_window(
    scene: SceneView,
    app_id: u32,
    canvas_id: u32,
    window: VirtualWindow,
)
    ensures
        ({
            let after = scene.with_layer(app_id, canvas_id, window);
            let new = forall|j: int| !#[trigger] shows(scene.layers, j, app_id, canvas_id);
            &&& after.monitor_id == scene.monitor_id
            &&& after.metrics == scene.metrics
            &&& after.layers.len() == scene.layers.len() + if new {
                1int
            } else {
                0int
            }
            &&& exists|i: int|
                0 <= i < after.layers.len() && {
                    let layer = #[trigger] after.layers[i];
                    &&& layer.app_id == app_id
                    &&& layer.canvas_id == canvas_id
                    &&& layer.window == window
                    &&& layer.id == scene.layer_id(app_id, canvas_id)
                    &&& new ==> layer.id == scene.next_layer_id && forall|j: int|
                        0 <= j < scene.layers.len() ==> (#[trigger] scene.layers[j]).z_order
                            < layer.z_order || layer.z_order == u32::MAX
                    &&& !new ==> i < scene.layers.len() && scene.layers[i].id == layer.id
                        && scene.layers[i].z_order == layer.z_order
                }
        }),
{
    layer_index_found(scene.layers, app_id, canvas_id);
    let after = scene.with_layer(app_id, canvas_id, window);
    match layer_index(scene.layers, app_id, canvas_id) {
        Some(i) => {
            assert(shows(scene.layers, i, app_id, canvas_id));
            assert(after.layers[i].window == window);
        },
        None => {
            assert forall|j: int| 0 <= j < scene.layers.len() implies (
            #[trigger] scene.layers[j]).z_order <= top_z(scene.layers) by {
                top_z_is_above(scene.layers, j);
            }
            let i = scene.layers.len() as int;
            assert(after.layers[i].window == window);
        },
    }
}

/// After a canvas is shown, every layer shows that canvas for that app or is a
/// layer from before, in its place.
pub proof fn joining_adds_one_layer(
    scene: SceneView,
    app_id: u32,
    canvas_id: u32,
    window: VirtualWindow,
)
    ensures
        ({
            let after = scene.with_layer(app_id, canvas_id, window);
            &&& after.monitor_id == scene.monitor_id
            &&& after.layers.len() >= scene.layers.len()
            &&& after.layers.len() > 0
            &&& forall|i: int|
                0 <= i < after.layers.len() && !(#[trigger] after.layers[i].app_id == app_id
                    && after.layers[i].canvas_id == canvas_id) ==> i < scene.layers.len()
                    && after.layers[i] == scene.layers[i]
        }),
{
    layer_index_found(scene.layers, app_id, canvas_id);
}

/// Taking an app off a scene gives no canvas a second layer.
pub proof fn leaving_repeats_no_canvas(scene: SceneView, app_id: u32)
    requires
        scene.unrepeated(),
    ensures
        scene.without_app(app_id).unrepeated(),
    decreases scene.layers.len(),
{
    reveal(Seq::filter);
    if scene.layers.len() > 0 {
        let keep = |l: MonitorLayer| l.app_id != app_id;
        let front = SceneView { layers: scene.layers.drop_last(), ..scene };
        assert forall|i: int, j: int| 0 <= i < j < front.layers.len() implies !(
        #[trigger] front.layers[i].app_id == #[trigger] front.layers[j].app_id
            && front.layers[i].canvas_id == front.layers[j].canvas_id) by {
            assert(scene.layers[i].app_id == front.layers[i].app_id);
            assert(scene.layers[j].app_id == front.layers[j].app_id);
        }
        leaving_repeats_no_canvas(front, app_id);
        tables::filter_members(front.layers, keep);
        let below = front.without_app(app_id).layers;
        let after = scene.without_app(app_id);
        let last = scene.layers.last();
        assert forall|i: int, j: int| 0 <= i < j < after.layers.len() implies !(
        #[trigger] after.layers[i].app_id == #[trigger] after.layers[j].app_id
            && after.layers[i].canvas_id == after.layers[j].canvas_id) by {
            assert(below[i].app_id == after.layers[i].app_id);
            if j < below.len() {
                assert(below[j].app_id == after.layers[j].app_id);
            } else {
                assert(front.layers.filter(keep).contains(below[i]));
                let k = choose|k: int| 0 <= k < front.layers.len() && front.layers[k] == below[i];
                assert(scene.layers[k].app_id == below[i].app_id);
                assert(scene.layers[scene.layers.len() - 1].app_id == last.app_id);
            }
        }
    }
}

/// Taking an app off a scene removes that app's layers, keeps every other app's
/// layers as they are, and keeps them stacked.
pub proof fn leaving_keeps_the_others(scene: SceneView, app_id: u32)
    ensures
        !scene.without_app(app_id).has_app(app_id),
        forall|l: MonitorLayer|
            l.app_id != app_id ==> (#[trigger] scene.layers.contains(l)
                <==> scene.without_app(app_id).layers.contains(l)),
        scene.stacked() ==> scene.without_app(app_id).stacked(),
    decreases scene.layers.len(),
{
    let keep = |l: MonitorLayer| l.app_id != app_id;
    let after = scene.without_app(app_id);
    tables::filter_members(scene.layers, keep);
    assert forall|i: int| 0 <= i < after.layers.len() implies (
    #[trigger] after.layers[i]).app_id != app_id by {
        assert(after.layers.contains(after.layers[i]));
    }
    assert forall|l: MonitorLayer| l.app_id != app_id implies (#[trigger] scene.layers.contains(l)
        <==> after.layers.contains(l)) by {
        assert(scene.layers.filter(keep).contains(l) <==> scene.layers.contains(l) && keep(l));
    }
    if scene.stacked() {
        reveal(Seq::filter);
        if scene.layers.len() > 0 {
            let front = SceneView { layers: scene.layers.drop_last(), ..scene };
            leaving_keeps_the_others(front, app_id);
            tables::filter_members(front.layers, keep);
            let last = scene.layers.last();
            let below = front.without_app(app_id).layers;
            assert forall|i: int| 0 <= i < below.len() implies (#[trigger] below[i]).id < last.id
                && below[i].z_order < last.z_order by {
                assert(front.layers.filter(keep).contains(below[i]));
                let k = choose|k: int| 0 <= k < front.layers.len() && front.layers[k] == below[i];
                assert(scene.layers[k] == below[i]);
            }
        }
    }
}

/// What happens to a scene.
pub enum SceneStep {
    /// A canvas is shown.
    Show { app_id: u32, canvas_id: u32, window: VirtualWindow },
    /// An app's layers are removed.
    Leave { app_id: u32 },
}

impl SceneView {
    /// The scene after one step.
    pub open spec fn after(self, step: SceneStep) -> SceneView {
        match step {
            SceneStep::Show { app_id, canvas_id, window } => self.with_layer(
                app_id,
                canvas_id,
                window,
            ),
            SceneStep::Leave { app_id } => self.without_app(app_id),
        }
    }

    /// The scene after a run of steps.
    pub open spec fn ran(self, steps: Seq<SceneStep>) -> SceneView
        decreases steps.len(),
    {
        if steps.len() == 0 {
            self
        } else {
            self.ran(steps.drop_last()).after(steps.last())
        }
    }

    /// The identifier of the layer that a step adds, where it adds one.
    pub open spec fn added(self, step: SceneStep) -> Option<u32> {
        match step {
            SceneStep::Show { app_id, canvas_id, .. } => if layer_index(
                self.layers,
                app_id,
                canvas_id,
            ) is None {
                Some(self.layer_id(app_id, canvas_id))
            } else {
                None
            },
            SceneStep::Leave { .. } => None,
        }
    }

    /// The identifiers of all layers that a run of steps adds, those removed again
    /// included.
    pub open spec fn given(self, steps: Seq<SceneStep>) -> Seq<u32>
        decreases steps.len(),
    {
        if steps.len() == 0 {
            seq![]
        } else {
            let before = self.given(steps.drop_last());
            match self.ran(steps.drop_last()).added(steps.last()) {
                Some(id) => before.push(id),
                None => before,
            }
        }
    }
}

/// The next identifier never falls, and rises above each identifier that is given.
pub proof fn identifiers_only_rise(scene: SceneView, step: SceneStep)
    ensures
        scene.after(step).next_layer_id >= scene.next_layer_id,
        scene.added(step) matches Some(id) ==> id >= scene.next_layer_id,
        scene.added(step) matches Some(id) ==> id < u32::MAX ==> scene.after(step).next_layer_id
            > id,
{
}

/// The highest layer is no higher than a bound on all of them.
proof fn top_z_is_bounded(layers: Seq<MonitorLayer>, bound: int)
    requires
        0 <= bound,
        forall|i: int| 0 <= i < layers.len() ==> (#[trigger] layers[i]).z_order <= bound,
    ensures
        top_z(layers) <= bound,
    decreases layers.len(),
{
    if layers.len() > 0 {
        assert forall|i: int| 0 <= i < layers.drop_last().len() implies (
        #[trigger] layers.drop_last()[i]).z_order <= bound by {
            assert(layers[i].z_order <= bound);
        }
        top_z_is_bounded(layers.drop_last(), bound);
        assert(layers[layers.len() - 1].z_order <= bound);
    }
}

/// A run of steps on an empty scene gives the identifiers in turn, from one on; the
/// layers that are left have identifiers that were given, and show no canvas twice.
pub proof fn identifiers_are_given_in_turn(
    monitor_id: u32,
    metrics: MonitorMetrics,
    steps: Seq<SceneStep>,
)
    requires
        SceneView::empty(monitor_id, metrics).given(steps).len() < u32::MAX,
    ensures
        ({
            let empty = SceneView::empty(monitor_id, metrics);
            let scene = empty.ran(steps);
            let given = empty.given(steps);
            &&& scene.next_layer_id == given.len() + 1
            &&& forall|i: int| 0 <= i < given.len() ==> #[trigger] given[i] == i + 1
            &&& forall|i: int|
                0 <= i < scene.layers.len() ==> given.contains((#[trigger] scene.layers[i]).id)
                    && scene.layers[i].z_order <= given.len()
            &&& scene.unrepeated()
        }),
    decreases steps.len(),
{
    let empty = SceneView::empty(monitor_id, metrics);
    if steps.len() > 0 {
        let earlier = steps.drop_last();
        identifiers_are_given_in_turn(monitor_id, metrics, earlier);
        let before = empty.ran(earlier);
        let scene = empty.ran(steps);
        let old_given = empty.given(earlier);
        let given = empty.given(steps);
        assert forall|id: u32| #[trigger] old_given.contains(id) implies given.contains(id) by {
            let k = choose|k: int| 0 <= k < old_given.len() && old_given[k] == id;
            assert(given[k] == id);
        }
        match steps.last() {
            SceneStep::Show { app_id, canvas_id, window } => {
                joining_repeats_no_canvas(before, app_id, canvas_id, window);
                layer_index_found(before.layers, app_id, canvas_id);
                top_z_is_bounded(before.layers, old_given.len() as int);
                assert forall|i: int| 0 <= i < scene.layers.len() implies given.contains(
                    (#[trigger] scene.layers[i]).id,
                ) && scene.layers[i].z_order <= given.len() by {
                    if i < before.layers.len() {
                        assert(old_given.contains(before.layers[i].id));
                        assert(scene.layers[i].id == before.layers[i].id);
                    } else {
                        assert(given[given.len() - 1] == scene.layers[i].id);
                    }
                }
            },
            SceneStep::Leave { app_id } => {
                leaving_repeats_no_canvas(before, app_id);
                let keep = |l: MonitorLayer| l.app_id != app_id;
                tables::filter_members(before.layers, keep);
                assert forall|i: int| 0 <= i < scene.layers.len() implies given.contains(
                    (#[trigger] scene.layers[i]).id,
                ) && scene.layers[i].z_order <= given.len() by {
                    assert(before.layers.filter(keep).contains(scene.layers[i]));
                    let k = choose|k: int|
                        0 <= k < before.layers.len() && before.layers[k] == scene.layers[i];
                    assert(old_given.contains(before.layers[k].id));
                }
            },
        }
    }
}

/// A canvas that a scene does not show yet is put on top of all layers, under an
/// identifier that no layer of the scene ever had, removed ones included.
pub proof fn new_layers_are_new(
    monitor_id: u32,
    metrics: MonitorMetrics,
    steps: Seq<SceneStep>,
    app_id: u32,
    canvas_id: u32,
    window: VirtualWindow,
)
    requires
        SceneView::empty(monitor_id, metrics).given(steps).len() < u32::MAX,
        forall|i: int|
            !shows(
                SceneView::empty(monitor_id, metrics).ran(steps).layers,
                i,
                app_id,
                canvas_id,
            ),
    ensures
        ({
            let empty = SceneView::empty(monitor_id, metrics);
            let scene = empty.ran(steps);
            let id = scene.layer_id(app_id, canvas_id);
            let after = scene.with_layer(app_id, canvas_id, window);
            &&& !empty.given(steps).contains(id)
            &&& forall|i: int|
                0 <= i < scene.layers.len() ==> (#[trigger] scene.layers[i]).id != id
            &&& top_z(scene.layers) < u32::MAX
            &&& after.layers == scene.layers.push(
                MonitorLayer {
                    id,
                    app_id,
                    canvas_id,
                    z_order: (top_z(scene.layers) + 1) as u32,
                    window,
                },
            )
            &&& after.unrepeated()
        }),
{
    let empty = SceneView::empty(monitor_id, metrics);
    let scene = empty.ran(steps);
    identifiers_are_given_in_turn(monitor_id, metrics, steps);
    layer_index_none(scene.layers, app_id, canvas_id);
    top_z_is_bounded(scene.layers, empty.given(steps).len() as int);
    joining_repeats_no_canvas(scene, app_id, canvas_id, window);
}

} // verus!
