//! The server's state: which apps, monitors and canvases there are, which canvas
//! is shown on which monitor, and who may change that.
//!
//! Surfaces, processes and connections belong to the host. The state holds the
//! handles that the host gave for them.

use std::collections::{HashMap, HashSet};
use vstd::prelude::*;

use crate::protocol::{DesktopWindowMode, MonitorKind, MonitorRequestStatus};
use crate::scene::{MonitorMetrics, MonitorScene, SceneView, VirtualWindow};
use crate::tables;

verus! {

/// An app that is connected.
#[derive(Debug)]
pub struct App {
    pub id: u32,
    pub pid: u32,
    /// The canvases that the app created, in that order.
    pub canvas_ids: Vec<u32>,
    /// The painter's handles of the app's bitmaps, by the app's numbers for them.
    pub bitmap_handles: HashMap<u32, u32>,
}

/// An app as a mathematical value.
#[verifier::ext_equal]
pub struct AppView {
    pub id: u32,
    pub pid: u32,
    pub canvas_ids: Seq<u32>,
    pub bitmap_handles: Map<u32, u32>,
}

impl View for App {
    type V = AppView;

    open spec fn view(&self) -> AppView {
        AppView {
            id: self.id,
            pid: self.pid,
            canvas_ids: self.canvas_ids@,
            bitmap_handles: self.bitmap_handles@,
        }
    }
}

/// A monitor that is connected.
#[derive(Debug, Clone, Copy, PartialEq, Eq, Structural)]
pub struct Monitor {
    pub id: u32,
    pub pid: u32,
    pub kind: MonitorKind,
    pub owner_app_id: Option<u32>,
    pub target_canvas_id: Option<u32>,
    pub start_request_id: Option<u32>,
    pub core_managed: bool,
    pub manual_lifecycle: bool,
    pub mode: DesktopWindowMode,
    pub flags: u32,
}

/// The surface of one monitor on a canvas.
#[derive(Debug, Clone, Copy, PartialEq, Eq, Structural)]
pub struct MonitorSurface {
    pub handle: u64,
    pub logical_w: u32,
    pub logical_h: u32,
}

/// The surface that a monitor's scene is composed on.
#[derive(Debug, Clone, Copy, PartialEq, Eq, Structural)]
pub struct SceneOutput {
    pub handle: u64,
    pub logical_w: u32,
    pub logical_h: u32,
    pub render_w: u32,
    pub render_h: u32,
}

/// A canvas of an app.
#[derive(Debug)]
pub struct Canvas {
    pub id: u32,
    pub owner_app_id: u32,
    pub owner_pid: u32,
    pub logical_w: u32,
    pub logical_h: u32,
    pub render_w: u32,
    pub render_h: u32,
    /// The surface that all monitors share.
    pub surface_handle: u64,
    /// The surfaces of single monitors, by the monitor's identifier.
    pub per_monitor_surfaces: HashMap<u32, MonitorSurface>,
    /// The monitors that show the canvas.
    pub attached_monitor_ids: HashSet<u32>,
}

/// A canvas as a mathematical value.
#[verifier::ext_equal]
pub struct CanvasView {
    pub id: u32,
    pub owner_app_id: u32,
    pub owner_pid: u32,
    pub logical_w: u32,
    pub logical_h: u32,
    pub render_w: u32,
    pub render_h: u32,
    pub surface_handle: u64,
    pub surfaces: Map<u32, MonitorSurface>,
    pub attached: Set<u32>,
}

impl View for Canvas {
    type V = CanvasView;

    open spec fn view(&self) -> CanvasView {
        CanvasView {
            id: self.id,
            owner_app_id: self.owner_app_id,
            owner_pid: self.owner_pid,
            logical_w: self.logical_w,
            logical_h: self.logical_h,
            render_w: self.render_w,
            render_h: self.render_h,
            surface_handle: self.surface_handle,
            surfaces: self.per_monitor_surfaces@,
            attached: self.attached_monitor_ids@,
        }
    }
}

/// Why the server did not do what it was asked.
#[derive(Debug, Clone, Copy, PartialEq, Eq, Structural)]
pub enum ServerError {
    AppNotFound,
    CanvasNotFound,
    MonitorNotFound,
    SceneNotFound,
    /// The app does not own the canvas that it named.
    CanvasNotOwned { app_id: u32 },
    /// The monitor belongs to another app.
    MonitorNotOwned { app_id: u32, monitor_id: u32 },
    /// The monitor has no owner and is not there for all apps.
    MonitorNotShared { monitor_id: u32 },
    /// The monitor was opened for another canvas.
    OtherTarget { monitor_id: u32, target_canvas_id: u32, canvas_id: u32 },
    /// The host could not create the app's command region.
    CommandRegionFailed,
    /// The host could not create a surface.
    SurfaceFailed,
    /// The host could not open the monitor's process.
    ProcessFailed,
    /// The host could not duplicate a handle into the monitor's process.
    DuplicateFailed,
    /// The monitor's connection is closed.
    Disconnected,
}

/// The server's state.
#[derive(Debug)]
pub struct ServerState {
    pub apps: HashMap<u32, App>,
    pub monitors: HashMap<u32, Monitor>,
    pub canvases: HashMap<u32, Canvas>,
    pub monitor_scenes: HashMap<u32, MonitorScene>,
    pub monitor_scene_outputs: HashMap<u32, SceneOutput>,
    pub next_app_id: u32,
    pub next_monitor_id: u32,
    pub next_canvas_id: u32,
}

/// The server's state as a mathematical value.
#[verifier::ext_equal]
pub struct ServerModel {
    pub apps: Map<u32, AppView>,
    pub monitors: Map<u32, Monitor>,
    pub canvases: Map<u32, CanvasView>,
    pub scenes: Map<u32, SceneView>,
    pub outputs: Map<u32, SceneOutput>,
    pub next_app_id: u32,
    pub next_monitor_id: u32,
    pub next_canvas_id: u32,
}

/// Apps as mathematical values.
pub open spec fn app_views(apps: Map<u32, App>) -> Map<u32, AppView> {
    apps.map_values(|a: App| a@)
}

/// Canvases as mathematical values.
pub open spec fn canvas_views(canvases: Map<u32, Canvas>) -> Map<u32, CanvasView> {
    canvases.map_values(|c: Canvas| c@)
}

/// Scenes as mathematical values.
pub open spec fn scene_views(scenes: Map<u32, MonitorScene>) -> Map<u32, SceneView> {
    scenes.map_values(|s: MonitorScene| s@)
}

impl View for ServerState {
    type V = ServerModel;

    open spec fn view(&self) -> ServerModel {
        ServerModel {
            apps: app_views(self.apps@),
            monitors: self.monitors@,
            canvases: canvas_views(self.canvases@),
            scenes: scene_views(self.monitor_scenes@),
            outputs: self.monitor_scene_outputs@,
            next_app_id: self.next_app_id,
            next_monitor_id: self.next_monitor_id,
            next_canvas_id: self.next_canvas_id,
        }
    }
}

impl CanvasView {
    /// The size of a scene that starts with the canvas.
    pub open spec fn metrics(self) -> MonitorMetrics {
        MonitorMetrics { logical_w: self.logical_w, logical_h: self.logical_h }
    }

    /// The window that shows all of the canvas.
    pub open spec fn window(self) -> VirtualWindow {
        VirtualWindow {
            x: 0,
            y: 0,
            logical_w: self.logical_w,
            logical_h: self.logical_h,
            visible: true,
        }
    }

    /// The canvas, shown on one monitor more.
    pub open spec fn with_attached(self, monitor_id: u32) -> CanvasView {
        CanvasView { attached: self.attached.insert(monitor_id), ..self }
    }

    /// The canvas without anything of a monitor.
    pub open spec fn without_monitor(self, monitor_id: u32) -> CanvasView {
        CanvasView {
            surfaces: self.surfaces.remove(monitor_id),
            attached: self.attached.remove(monitor_id),
            ..self
        }
    }
}

/// The scenes that still show something without an app's layers.
pub open spec fn scenes_without_app(scenes: Map<u32, SceneView>, app_id: u32) -> Map<
    u32,
    SceneView,
> {
    Map::new(
        |k: u32| scenes.contains_key(k) && scenes[k].without_app(app_id).layers.len() > 0,
        |k: u32| scenes[k].without_app(app_id),
    )
}

impl ServerModel {
    /// Nobody is connected.
    pub open spec fn empty() -> ServerModel {
        ServerModel {
            apps: Map::empty(),
            monitors: Map::empty(),
            canvases: Map::empty(),
            scenes: Map::empty(),
            outputs: Map::empty(),
            next_app_id: 1,
            next_monitor_id: 1,
            next_canvas_id: 1,
        }
    }

    /// Whether the app created the canvas.
    pub open spec fn owns(self, app_id: u32, canvas_id: u32) -> bool {
        self.apps.contains_key(app_id) && self.apps[app_id].canvas_ids.contains(canvas_id)
    }

    /// The canvas that an app means by a number: zero is its first canvas.
    pub open spec fn resolve(self, app_id: u32, requested: u32) -> Option<u32> {
        if requested == 0 {
            if self.apps.contains_key(app_id) && self.apps[app_id].canvas_ids.len() > 0 {
                Some(self.apps[app_id].canvas_ids[0])
            } else {
                None
            }
        } else if self.owns(app_id, requested) {
            Some(requested)
        } else {
            None
        }
    }

    /// Whether some canvas is shown on the monitor.
    pub open spec fn attached_anywhere(self, monitor_id: u32) -> bool {
        exists|c: u32| #[trigger]
            self.canvases.contains_key(c) && self.canvases[c].attached.contains(monitor_id)
    }

    /// Whether the monitor is a desktop window that the server runs for the app.
    pub open spec fn runs_for(self, monitor_id: u32, app_id: u32) -> bool {
        &&& self.monitors.contains_key(monitor_id)
        &&& self.monitors[monitor_id].kind == MonitorKind::DesktopWindow
        &&& self.monitors[monitor_id].owner_app_id == Some(app_id)
        &&& self.monitors[monitor_id].core_managed
    }

    /// The monitors that the server runs for the app.
    pub open spec fn managed_monitors(self, app_id: u32) -> Set<u32> {
        self.monitors.dom().filter(|m: u32| self.runs_for(m, app_id))
    }

    /// The monitor's scene; one that shows nothing yet has the canvas's size.
    pub open spec fn scene_for(self, canvas_id: u32, monitor_id: u32) -> SceneView {
        if self.scenes.contains_key(monitor_id) {
            self.scenes[monitor_id]
        } else {
            SceneView::empty(monitor_id, self.canvases[canvas_id].metrics())
        }
    }

    /// The state with the canvas marked as shown on the monitor.
    pub open spec fn mark_attached(self, canvas_id: u32, monitor_id: u32) -> ServerModel {
        ServerModel {
            canvases: self.canvases.insert(
                canvas_id,
                self.canvases[canvas_id].with_attached(monitor_id),
            ),
            ..self
        }
    }

    /// The state with a surface of the monitor on the canvas.
    pub open spec fn with_surface(
        self,
        canvas_id: u32,
        monitor_id: u32,
        surface: MonitorSurface,
    ) -> ServerModel {
        let canvas = self.canvases[canvas_id];
        ServerModel {
            canvases: self.canvases.insert(
                canvas_id,
                CanvasView { surfaces: canvas.surfaces.insert(monitor_id, surface), ..canvas },
            ),
            ..self
        }
    }

    /// The state with an output for the monitor's scene.
    pub open spec fn with_output(self, monitor_id: u32, output: SceneOutput) -> ServerModel {
        ServerModel { outputs: self.outputs.insert(monitor_id, output), ..self }
    }

    /// The state without an output for the monitor's scene.
    pub open spec fn without_output(self, monitor_id: u32) -> ServerModel {
        ServerModel { outputs: self.outputs.remove(monitor_id), ..self }
    }

    /// The state with the canvas shown on the monitor's scene.
    pub open spec fn show(self, canvas_id: u32, monitor_id: u32) -> ServerModel {
        let canvas = self.canvases[canvas_id];
        ServerModel {
            scenes: self.scenes.insert(
                monitor_id,
                self.scene_for(canvas_id, monitor_id).with_layer(
                    canvas.owner_app_id,
                    canvas_id,
                    canvas.window(),
                ),
            ),
            ..self.mark_attached(canvas_id, monitor_id)
        }
    }

    /// The layer that shows the canvas on the monitor, once it is shown.
    pub open spec fn shown_layer(self, canvas_id: u32, monitor_id: u32) -> u32 {
        self.scene_for(canvas_id, monitor_id).layer_id(
            self.canvases[canvas_id].owner_app_id,
            canvas_id,
        )
    }

    /// Why the canvas cannot be shown on the monitor, if it cannot.
    pub open spec fn show_error(self, canvas_id: u32, monitor_id: u32) -> Option<ServerError> {
        if !self.monitors.contains_key(monitor_id) {
            Some(ServerError::MonitorNotFound)
        } else if !self.canvases.contains_key(canvas_id) {
            Some(ServerError::CanvasNotFound)
        } else {
            None
        }
    }

    /// Why the app may not show that canvas on the monitor, if it may not: the
    /// canvas must be its own, and the monitor its own or there for all apps.
    pub open spec fn layer_error(
        self,
        app_id: u32,
        requested: u32,
        monitor_id: u32,
    ) -> Option<ServerError> {
        if self.resolve(app_id, requested) is None {
            Some(ServerError::CanvasNotOwned { app_id })
        } else if !self.monitors.contains_key(monitor_id) {
            Some(ServerError::MonitorNotFound)
        } else {
            let monitor = self.monitors[monitor_id];
            if monitor.owner_app_id is Some && monitor.owner_app_id->0 != app_id {
                Some(ServerError::MonitorNotOwned { app_id, monitor_id })
            } else if monitor.owner_app_id is None && !monitor.manual_lifecycle {
                Some(ServerError::MonitorNotShared { monitor_id })
            } else {
                self.show_error(self.resolve(app_id, requested)->0, monitor_id)
            }
        }
    }

    /// The state without an app and what belongs to it.
    pub open spec fn without_app(self, app_id: u32) -> ServerModel {
        if self.apps.contains_key(app_id) {
            let scenes = scenes_without_app(self.scenes, app_id);
            ServerModel {
                apps: self.apps.remove(app_id),
                scenes,
                outputs: self.outputs.restrict(scenes.dom()),
                canvases: self.canvases.remove_keys(self.apps[app_id].canvas_ids.to_set()),
                ..self
            }
        } else {
            self
        }
    }

    /// The state without a monitor and what was made for it.
    pub open spec fn without_monitor(self, monitor_id: u32) -> ServerModel {
        ServerModel {
            monitors: self.monitors.remove(monitor_id),
            canvases: self.canvases.map_values(
                |c: CanvasView| c.without_monitor(monitor_id),
            ),
            scenes: self.scenes.remove(monitor_id),
            outputs: self.outputs.remove(monitor_id),
            ..self
        }
    }

    /// The state after an app registered as `pid`.
    pub open spec fn with_app(self, pid: u32) -> ServerModel {
        let id = self.next_app_id;
        ServerModel {
            apps: self.apps.insert(
                id,
                AppView { id, pid, canvas_ids: seq![], bitmap_handles: Map::empty() },
            ),
            next_app_id: (id + 1) as u32,
            ..self
        }
    }

    /// The state after an app created a canvas.
    pub open spec fn with_canvas(
        self,
        owner_id: u32,
        logical_w: u32,
        logical_h: u32,
        render_w: u32,
        render_h: u32,
        surface_handle: u64,
    ) -> ServerModel {
        let id = self.next_canvas_id;
        let app = self.apps[owner_id];
        ServerModel {
            canvases: self.canvases.insert(
                id,
                CanvasView {
                    id,
                    owner_app_id: owner_id,
                    owner_pid: app.pid,
                    logical_w,
                    logical_h,
                    render_w,
                    render_h,
                    surface_handle,
                    surfaces: Map::empty(),
                    attached: Set::empty(),
                },
            ),
            apps: self.apps.insert(owner_id, AppView { canvas_ids: app.canvas_ids.push(id), ..app }),
            next_canvas_id: (id + 1) as u32,
            ..self
        }
    }
}

/// What a monitor says of itself when it registers.
#[derive(Debug, Clone, Copy, PartialEq, Eq, Structural)]
pub struct MonitorRegistration {
    pub pid: u32,
    pub kind: MonitorKind,
    pub owner_app_id: Option<u32>,
    pub request_id: Option<u32>,
    pub target_canvas_id: Option<u32>,
    pub mode: DesktopWindowMode,
    pub flags: u32,
    pub manual_lifecycle: bool,
}

impl MonitorRegistration {
    /// Whether the server decides when the monitor closes.
    pub open spec fn managed(self) -> bool {
        self.kind == MonitorKind::DesktopWindow && self.owner_app_id is Some
            && !self.manual_lifecycle
    }

    /// The monitor that registers so.
    pub open spec fn monitor(self, id: u32) -> Monitor {
        Monitor {
            id,
            pid: self.pid,
            kind: self.kind,
            owner_app_id: self.owner_app_id,
            target_canvas_id: self.target_canvas_id,
            start_request_id: self.request_id,
            core_managed: self.managed(),
            manual_lifecycle: self.manual_lifecycle,
            mode: self.mode,
            flags: self.flags,
        }
    }
}

impl ServerModel {
    /// The state after a monitor registered.
    pub open spec fn with_monitor(self, r: MonitorRegistration) -> ServerModel {
        let id = self.next_monitor_id;
        ServerModel {
            monitors: self.monitors.insert(id, r.monitor(id)),
            next_monitor_id: (id + 1) as u32,
            ..self
        }
    }
}

impl ServerState {
    /// A server to which nobody is connected.
    pub fn new() -> (state: Self)
        ensures
            state@ == ServerModel::empty(),
    {
        let state = ServerState {
            apps: HashMap::new(),
            monitors: HashMap::new(),
            canvases: HashMap::new(),
            monitor_scenes: HashMap::new(),
            monitor_scene_outputs: HashMap::new(),
            next_app_id: 1,
            next_monitor_id: 1,
            next_canvas_id: 1,
        };
        assert(state@ =~= ServerModel::empty());
        state
    }

    /// Registers an app. The host creates its command region first; an app whose
    /// region could not be created takes an identifier but is not registered.
    pub fn register_app(&mut self, pid: u32, region_created: bool) -> (r: Result<u32, ServerError>)
        requires
            old(self).next_app_id < u32::MAX,
        ensures
            region_created ==> r == Ok::<u32, ServerError>(old(self).next_app_id) && final(self)@
                == old(self)@.with_app(pid),
            !region_created ==> r == Err::<u32, ServerError>(ServerError::CommandRegionFailed)
                && final(self)@ == (ServerModel {
                next_app_id: (old(self).next_app_id + 1) as u32,
                ..old(self)@
            }),
    {
        let id: u32 = self.next_app_id;
        self.next_app_id = self.next_app_id + 1;
        if !region_created {
            return Err(ServerError::CommandRegionFailed);
        }
        let app = App { id, pid, canvas_ids: Vec::new(), bitmap_handles: HashMap::new() };
        assert(app@ =~= AppView { id, pid, canvas_ids: seq![], bitmap_handles: Map::empty() });
        self.apps.insert(id, app);
        assert(self@ =~= old(self)@.with_app(pid));
        Ok(id)
    }

    /// Enters a monitor that registers, and returns its identifier.
    pub fn enter_monitor(&mut self, r: MonitorRegistration) -> (id: u32)
        requires
            old(self).next_monitor_id < u32::MAX,
        ensures
            id == old(self).next_monitor_id,
            final(self)@ == old(self)@.with_monitor(r),
    {
        let id: u32 = self.next_monitor_id;
        self.next_monitor_id = self.next_monitor_id + 1;
        let core_managed: bool = r.kind == MonitorKind::DesktopWindow && r.owner_app_id.is_some()
            && !r.manual_lifecycle;
        self.monitors.insert(
            id,
            Monitor {
                id,
                pid: r.pid,
                kind: r.kind,
                owner_app_id: r.owner_app_id,
                target_canvas_id: r.target_canvas_id,
                start_request_id: r.request_id,
                core_managed,
                manual_lifecycle: r.manual_lifecycle,
                mode: r.mode,
                flags: r.flags,
            },
        );
        id
    }

    /// Creates a canvas for an app. The host creates its surface first, and gives
    /// no handle where that failed; the canvas then takes an identifier but is
    /// not created.
    pub fn create_canvas(
        &mut self,
        owner_id: u32,
        logical_w: u32,
        logical_h: u32,
        render_w: u32,
        render_h: u32,
        surface_handle: Option<u64>,
    ) -> (r: Result<u32, ServerError>)
        requires
            old(self).next_canvas_id < u32::MAX,
        ensures
            !old(self)@.apps.contains_key(owner_id) ==> r == Err::<u32, ServerError>(
                ServerError::AppNotFound,
            ) && final(self)@ == old(self)@,
            old(self)@.apps.contains_key(owner_id) && surface_handle is None ==> r == Err::<
                u32,
                ServerError,
            >(ServerError::SurfaceFailed) && final(self)@ == (ServerModel {
                next_canvas_id: (old(self).next_canvas_id + 1) as u32,
                ..old(self)@
            }),
            old(self)@.apps.contains_key(owner_id) && surface_handle is Some ==> r == Ok::<
                u32,
                ServerError,
            >(old(self).next_canvas_id) && final(self)@ == old(self)@.with_canvas(
                owner_id,
                logical_w,
                logical_h,
                render_w,
                render_h,
                surface_handle->0,
            ),
    {
        let ghost before = self@;
        if !self.apps.contains_key(&owner_id) {
            return Err(ServerError::AppNotFound);
        }
        let id: u32 = self.next_canvas_id;
        self.next_canvas_id = self.next_canvas_id + 1;
        let handle: u64 = match surface_handle {
            Some(handle) => handle,
            None => {
                return Err(ServerError::SurfaceFailed);
            },
        };
        let mut app: App = match self.apps.remove(&owner_id) {
            Some(app) => app,
            None => {
                return Err(ServerError::AppNotFound);
            },
        };
        let ghost app_before = app@;
        let canvas = Canvas {
            id,
            owner_app_id: owner_id,
            owner_pid: app.pid,
            logical_w,
            logical_h,
            render_w,
            render_h,
            surface_handle: handle,
            per_monitor_surfaces: HashMap::new(),
            attached_monitor_ids: HashSet::new(),
        };
        let ghost canvas_view = canvas@;
        self.canvases.insert(id, canvas);
        app.canvas_ids.push(id);
        assert(app@ =~= AppView { canvas_ids: app_before.canvas_ids.push(id), ..app_before });
        self.apps.insert(owner_id, app);
        proof {
            let after = before.with_canvas(
                owner_id,
                logical_w,
                logical_h,
                render_w,
                render_h,
                handle,
            );
            assert(canvas_view =~= after.canvases[id]);
            assert(self@.apps =~= after.apps);
            assert(self@.canvases =~= after.canvases);
        }
        Ok(id)
    }

    /// Whether the app created the canvas.
    pub fn app_owns_canvas(&self, app_id: u32, canvas_id: u32) -> (owns: bool)
        ensures
            owns == self@.owns(app_id, canvas_id),
    {
        match self.apps.get(&app_id) {
            Some(app) => {
                assert(self@.apps[app_id] == app@);
                let mut i: usize = 0;
                while i < app.canvas_ids.len()
                    invariant
                        i <= app.canvas_ids@.len(),
                        forall|j: int| 0 <= j < i ==> app.canvas_ids@[j] != canvas_id,
                        self@.apps.contains_key(app_id),
                        self@.apps[app_id] == app@,
                    decreases app.canvas_ids@.len() - i,
                {
                    if app.canvas_ids[i] == canvas_id {
                        assert(app.canvas_ids@[i as int] == canvas_id);
                        return true;
                    }
                    i = i + 1;
                }
                false
            },
            None => false,
        }
    }

    /// The canvas that an app means by a number: zero is its first canvas.
    pub fn resolve_app_canvas_id(&self, app_id: u32, requested_canvas_id: u32) -> (r: Option<u32>)
        ensures
            r == self@.resolve(app_id, requested_canvas_id),
    {
        if requested_canvas_id == 0 {
            match self.apps.get(&app_id) {
                Some(app) => {
                    assert(self@.apps[app_id] == app@);
                    if app.canvas_ids.len() > 0 {
                        Some(app.canvas_ids[0])
                    } else {
                        None
                    }
                },
                None => None,
            }
        } else if self.app_owns_canvas(app_id, requested_canvas_id) {
            Some(requested_canvas_id)
        } else {
            None
        }
    }

    /// Marks the canvas as shown on the monitor.
    pub(crate) fn mark_attached(&mut self, canvas_id: u32, monitor_id: u32)
        requires
            old(self)@.canvases.contains_key(canvas_id),
        ensures
            final(self)@ == old(self)@.mark_attached(canvas_id, monitor_id),
    {
        let ghost before = self@;
        if let Some(mut canvas) = self.canvases.remove(&canvas_id) {
            let ghost canvas_before = canvas@;
            assert(before.canvases[canvas_id] == canvas_before);
            canvas.attached_monitor_ids.insert(monitor_id);
            assert(canvas@ =~= canvas_before.with_attached(monitor_id));
            self.canvases.insert(canvas_id, canvas);
            assert(self@.canvases =~= before.mark_attached(canvas_id, monitor_id).canvases);
        }
    }

    /// Shows a canvas on a monitor's scene, and returns its layer.
    pub(crate) fn attach_canvas_to_monitor_scene(
        &mut self,
        canvas_id: u32,
        monitor_id: u32,
    ) -> (r: Result<u32, ServerError>)
        ensures
            match old(self)@.show_error(canvas_id, monitor_id) {
                Some(e) => r == Err::<u32, ServerError>(e) && final(self)@ == old(self)@,
                None => r == Ok::<u32, ServerError>(old(self)@.shown_layer(canvas_id, monitor_id))
                    && final(self)@ == old(self)@.show(canvas_id, monitor_id),
            },
    {
        let ghost before = self@;
        if !self.monitors.contains_key(&monitor_id) {
            return Err(ServerError::MonitorNotFound);
        }
        let (owner_app_id, metrics, window) = match self.canvases.get(&canvas_id) {
            Some(canvas) => {
                assert(before.canvases[canvas_id] == canvas@);
                (
                    canvas.owner_app_id,
                    MonitorMetrics { logical_w: canvas.logical_w, logical_h: canvas.logical_h },
                    VirtualWindow {
                        x: 0,
                        y: 0,
                        logical_w: canvas.logical_w,
                        logical_h: canvas.logical_h,
                        visible: true,
                    },
                )
            },
            None => {
                return Err(ServerError::CanvasNotFound);
            },
        };
        let mut scene: MonitorScene = match self.monitor_scenes.remove(&monitor_id) {
            Some(scene) => scene,
            None => MonitorScene::new(monitor_id, metrics),
        };
        assert(scene@ == before.scene_for(canvas_id, monitor_id));
        let layer_id: u32 = scene.upsert_layer(owner_app_id, canvas_id, window);
        self.monitor_scenes.insert(monitor_id, scene);
        assert(self@.scenes =~= before.show(canvas_id, monitor_id).scenes);
        self.mark_attached(canvas_id, monitor_id);
        Ok(layer_id)
    }

    /// Shows an app's canvas on a monitor's scene, and returns its layer. The
    /// monitor must be the app's own, or have no owner and be opened by hand.
    pub fn add_canvas_layer_to_monitor_scene_for_app(
        &mut self,
        app_id: u32,
        requested_canvas_id: u32,
        monitor_id: u32,
    ) -> (r: Result<u32, ServerError>)
        ensures
            match old(self)@.layer_error(app_id, requested_canvas_id, monitor_id) {
                Some(e) => r == Err::<u32, ServerError>(e) && final(self)@ == old(self)@,
                None => {
                    let canvas_id = old(self)@.resolve(app_id, requested_canvas_id)->0;
                    r == Ok::<u32, ServerError>(old(self)@.shown_layer(canvas_id, monitor_id))
                        && final(self)@ == old(self)@.show(canvas_id, monitor_id)
                },
            },
    {
        let canvas_id: u32 = match self.resolve_app_canvas_id(app_id, requested_canvas_id) {
            Some(canvas_id) => canvas_id,
            None => {
                return Err(ServerError::CanvasNotOwned { app_id });
            },
        };
        let monitor: Monitor = match self.monitors.get(&monitor_id) {
            Some(monitor) => *monitor,
            None => {
                return Err(ServerError::MonitorNotFound);
            },
        };
        match monitor.owner_app_id {
            Some(owner_app_id) => {
                if owner_app_id != app_id {
                    return Err(ServerError::MonitorNotOwned { app_id, monitor_id });
                }
            },
            None => {
                if !monitor.manual_lifecycle {
                    return Err(ServerError::MonitorNotShared { monitor_id });
                }
            },
        }
        self.attach_canvas_to_monitor_scene(canvas_id, monitor_id)
    }

    /// Whether some canvas is shown on the monitor.
    pub fn monitor_attached_to_any_canvas(&self, monitor_id: u32) -> (attached: bool)
        ensures
            attached == self@.attached_anywhere(monitor_id),
    {
        let ids: Vec<u32> = tables::sorted_keys(&self.canvases);
        let mut i: usize = 0;
        while i < ids.len()
            invariant
                i <= ids@.len(),
                tables::lists(ids@, self.canvases@.dom()),
                forall|j: int|
                    0 <= j < i ==> !self@.canvases[#[trigger] ids@[j]].attached.contains(
                        monitor_id,
                    ),
            decreases ids@.len() - i,
        {
            let id: u32 = ids[i];
            assert(ids@.contains(id));
            assert(self.canvases@.dom().contains(id));
            if let Some(canvas) = self.canvases.get(&id) {
                assert(self@.canvases[id] == canvas@);
                if canvas.attached_monitor_ids.contains(&monitor_id) {
                    assert(self@.canvases.contains_key(id));
                    return true;
                }
            }
            i = i + 1;
        }
        assert forall|c: u32| #[trigger] self@.canvases.contains_key(c) implies !self@.canvases[c].attached.contains(
        monitor_id) by {
            assert(self.canvases@.dom().contains(c));
            let j = choose|j: int| 0 <= j < ids@.len() && ids@[j] == c;
            assert(!self@.canvases[ids@[j]].attached.contains(monitor_id));
        }
        false
    }
}

impl ServerState {
    /// The desktop windows that the server runs for an app, in ascending order.
    /// They are to be closed when the app leaves.
    pub fn close_owned_desktop_monitors(&self, app_id: u32) -> (ids: Vec<u32>)
        ensures
            ids@ == tables::ascending_of(self@.managed_monitors(app_id)),
            tables::lists(ids@, self@.managed_monitors(app_id)),
    {
        let all: Vec<u32> = tables::sorted_keys(&self.monitors);
        let mut ids: Vec<u32> = Vec::new();
        let mut i: usize = 0;
        while i < all.len()
            invariant
                i <= all@.len(),
                tables::lists(all@, self.monitors@.dom()),
                tables::ascending(ids@),
                ids@.len() > 0 ==> i > 0 && ids@.last() <= all@[i - 1],
                forall|m: u32| #[trigger]
                    ids@.contains(m) <==> (all@.take(i as int).contains(m) && self@.runs_for(
                        m,
                        app_id,
                    )),
            decreases all@.len() - i,
        {
            let id: u32 = all[i];
            assert(all@.contains(id));
            assert(self.monitors@.dom().contains(id));
            let ghost before = ids@;
            proof {
                tables::take_grows(all@, i as int);
            }
            if let Some(monitor) = self.monitors.get(&id) {
                if monitor.kind == MonitorKind::DesktopWindow && monitor.owner_app_id == Some(
                    app_id,
                ) && monitor.core_managed {
                    ids.push(id);
                }
            }
            assert forall|m: u32| #[trigger] ids@.contains(m) <==> (all@.take(i + 1).contains(m)
                && self@.runs_for(m, app_id)) by {
                if before.contains(m) {
                    let k = choose|k: int| 0 <= k < before.len() && before[k] == m;
                    assert(ids@[k] == m);
                }
                if m == id && self@.runs_for(m, app_id) {
                    assert(ids@[before.len() as int] == m);
                }
            }
            i = i + 1;
        }
        proof {
            assert(all@.take(i as int) =~= all@);
            assert forall|m: u32| ids@.contains(m) <==> #[trigger] self@.managed_monitors(
                app_id,
            ).contains(m) by {
                assert(all@.contains(m) <==> self.monitors@.dom().contains(m));
            }
            tables::lists_determines(ids@, self@.managed_monitors(app_id));
        }
        ids
    }

    /// The answer to an app that wants a monitor closed. The monitor is to be
    /// closed exactly where the answer is success.
    pub fn close_monitor_if_owned(&self, app_id: u32, monitor_id: u32) -> (status:
        MonitorRequestStatus)
        ensures
            status == self@.close_status(app_id, monitor_id),
    {
        match self.monitors.get(&monitor_id) {
            None => MonitorRequestStatus::NotFound,
            Some(monitor) => {
                if monitor.owner_app_id != Some(app_id) {
                    MonitorRequestStatus::NotOwner
                } else if !monitor.core_managed || monitor.manual_lifecycle {
                    MonitorRequestStatus::NotCoreManaged
                } else {
                    MonitorRequestStatus::Success
                }
            },
        }
    }

    /// Removes an app with its canvases and its layers, and hands it back so that
    /// the host can release what it holds for it.
    pub fn remove_app(&mut self, id: u32) -> (removed: Option<App>)
        ensures
            final(self)@ == old(self)@.without_app(id),
            removed is Some <==> old(self)@.apps.contains_key(id),
            removed is Some ==> removed->0@ == old(self)@.apps[id],
    {
        let ghost before = self@;
        match self.apps.remove(&id) {
            None => None,
            Some(app) => {
                assert(before.apps[id] == app@);
                assert(self@.apps =~= before.apps.remove(id));
                remove_app_from_scenes(&mut self.monitor_scenes, id);
                keep_outputs_of_scenes(&mut self.monitor_scene_outputs, &self.monitor_scenes);
                remove_canvases(&mut self.canvases, &app.canvas_ids);
                proof {
                    let after = before.without_app(id);
                    assert(self@.scenes =~= after.scenes);
                    assert(after.scenes.dom() =~= self.monitor_scenes@.dom());
                    assert(self@.outputs =~= after.outputs);
                    assert(self@.canvases =~= after.canvases);
                }
                Some(app)
            },
        }
    }

    /// Removes a monitor with its scene and with its surfaces on every canvas.
    pub fn remove_monitor(&mut self, id: u32)
        ensures
            final(self)@ == old(self)@.without_monitor(id),
    {
        let ghost before = self@;
        remove_monitor_from_canvases(&mut self.canvases, id);
        self.monitor_scenes.remove(&id);
        self.monitor_scene_outputs.remove(&id);
        self.monitors.remove(&id);
        proof {
            let after = before.without_monitor(id);
            assert(self@.scenes =~= after.scenes);
            assert(self@.canvases =~= after.canvases);
        }
    }

    /// Enters a bitmap of an app, and says which handle the host must release: the
    /// new one where the app has left, or the one that the new one replaces.
    pub fn store_bitmap(&mut self, app_id: u32, bitmap_id: u32, handle: u32) -> (released: Option<
        u32,
    >)
        ensures
            final(self)@ == old(self)@.with_bitmap(app_id, bitmap_id, handle),
            released == if !old(self)@.apps.contains_key(app_id) {
                Some(handle)
            } else if old(self)@.apps[app_id].bitmap_handles.contains_key(bitmap_id) {
                Some(old(self)@.apps[app_id].bitmap_handles[bitmap_id])
            } else {
                None
            },
    {
        let ghost before = self@;
        match self.apps.remove(&app_id) {
            None => Some(handle),
            Some(mut app) => {
                let ghost app_before = app@;
                assert(before.apps[app_id] == app_before);
                let previous: Option<u32> = app.bitmap_handles.insert(bitmap_id, handle);
                assert(app@ =~= AppView {
                    bitmap_handles: app_before.bitmap_handles.insert(bitmap_id, handle),
                    ..app_before
                });
                self.apps.insert(app_id, app);
                assert(self@.apps =~= before.with_bitmap(app_id, bitmap_id, handle).apps);
                previous
            },
        }
    }
}

impl ServerModel {
    /// The answer to an app that wants a monitor closed.
    pub open spec fn close_status(self, app_id: u32, monitor_id: u32) -> MonitorRequestStatus {
        if !self.monitors.contains_key(monitor_id) {
            MonitorRequestStatus::NotFound
        } else if self.monitors[monitor_id].owner_app_id != Some(app_id) {
            MonitorRequestStatus::NotOwner
        } else if !self.monitors[monitor_id].core_managed
            || self.monitors[monitor_id].manual_lifecycle {
            MonitorRequestStatus::NotCoreManaged
        } else {
            MonitorRequestStatus::Success
        }
    }

    /// The state after a bitmap of an app was loaded.
    pub open spec fn with_bitmap(self, app_id: u32, bitmap_id: u32, handle: u32) -> ServerModel {
        if self.apps.contains_key(app_id) {
            let app = self.apps[app_id];
            ServerModel {
                apps: self.apps.insert(
                    app_id,
                    AppView { bitmap_handles: app.bitmap_handles.insert(bitmap_id, handle), ..app },
                ),
                ..self
            }
        } else {
            self
        }
    }
}

fn remove_app_from_scenes(scenes: &mut HashMap<u32, MonitorScene>, app_id: u32)
    ensures
        scene_views(final(scenes)@) == scenes_without_app(scene_views(old(scenes)@), app_id),
{
    let ghost before = scenes@;
    let ids: Vec<u32> = tables::sorted_keys(scenes);
    let mut i: usize = 0;
    while i < ids.len()
        invariant
            i <= ids@.len(),
            tables::lists(ids@, before.dom()),
            forall|k: u32| #[trigger]
                scenes@.contains_key(k) <==> before.contains_key(k) && (ids@.take(
                    i as int,
                ).contains(k) ==> before[k]@.without_app(app_id).layers.len() > 0),
            forall|k: u32| #[trigger]
                scenes@.contains_key(k) ==> scenes@[k]@ == if ids@.take(i as int).contains(k) {
                    before[k]@.without_app(app_id)
                } else {
                    before[k]@
                },
        decreases ids@.len() - i,
    {
        let id: u32 = ids[i];
        let ghost mid = scenes@;
        proof {
            assert(ids@.contains(id));
            assert(before.dom().contains(id));
            tables::take_grows(ids@, i as int);
            assert(mid.contains_key(id));
        }
        if let Some(mut scene) = scenes.remove(&id) {
            scene.remove_app_layers(app_id);
            if !scene.is_empty() {
                scenes.insert(id, scene);
            }
        }
        i = i + 1;
    }
    proof {
        assert(ids@.take(i as int) =~= ids@);
        let want = scenes_without_app(scene_views(before), app_id);
        assert forall|k: u32| #[trigger] scenes@.contains_key(k) <==> want.contains_key(k) by {
            assert(ids@.contains(k) <==> before.dom().contains(k));
        }
        assert forall|k: u32| #[trigger] scenes@.contains_key(k) implies scenes@[k]@ == want[k] by {
            assert(ids@.contains(k) <==> before.dom().contains(k));
        }
        assert(scene_views(scenes@) =~= want);
    }
}

fn keep_outputs_of_scenes(
    outputs: &mut HashMap<u32, SceneOutput>,
    scenes: &HashMap<u32, MonitorScene>,
)
    ensures
        final(outputs)@ == old(outputs)@.restrict(scenes@.dom()),
{
    let ghost before = outputs@;
    let ids: Vec<u32> = tables::sorted_keys(outputs);
    let mut i: usize = 0;
    while i < ids.len()
        invariant
            i <= ids@.len(),
            tables::lists(ids@, before.dom()),
            forall|k: u32| #[trigger]
                outputs@.contains_key(k) <==> before.contains_key(k) && (ids@.take(
                    i as int,
                ).contains(k) ==> scenes@.contains_key(k)),
            forall|k: u32| #[trigger] outputs@.contains_key(k) ==> outputs@[k] == before[k],
        decreases ids@.len() - i,
    {
        let id: u32 = ids[i];
        proof {
            tables::take_grows(ids@, i as int);
        }
        if !scenes.contains_key(&id) {
            outputs.remove(&id);
        }
        i = i + 1;
    }
    proof {
        assert(ids@.take(i as int) =~= ids@);
        let want = before.restrict(scenes@.dom());
        assert forall|k: u32| #[trigger] outputs@.contains_key(k) <==> want.contains_key(k) by {
            assert(ids@.contains(k) <==> before.dom().contains(k));
        }
        assert(outputs@ =~= want);
    }
}

fn remove_canvases(canvases: &mut HashMap<u32, Canvas>, ids: &Vec<u32>)
    ensures
        canvas_views(final(canvases)@) == canvas_views(old(canvases)@).remove_keys(ids@.to_set()),
{
    let ghost before = canvases@;
    let mut i: usize = 0;
    while i < ids.len()
        invariant
            i <= ids@.len(),
            forall|k: u32| #[trigger]
                canvases@.contains_key(k) <==> before.contains_key(k) && !ids@.take(
                    i as int,
                ).contains(k),
            forall|k: u32| #[trigger] canvases@.contains_key(k) ==> canvases@[k] == before[k],
        decreases ids@.len() - i,
    {
        let id: u32 = ids[i];
        proof {
            tables::take_grows(ids@, i as int);
        }
        canvases.remove(&id);
        i = i + 1;
    }
    proof {
        assert(ids@.take(i as int) =~= ids@);
        let want = canvas_views(before).remove_keys(ids@.to_set());
        assert forall|k: u32| #[trigger] canvases@.contains_key(k) <==> want.contains_key(k) by {
            assert(ids@.to_set().contains(k) <==> ids@.contains(k));
        }
        assert(canvas_views(canvases@) =~= want);
    }
}

fn remove_monitor_from_canvases(canvases: &mut HashMap<u32, Canvas>, monitor_id: u32)
    ensures
        canvas_views(final(canvases)@) == canvas_views(old(canvases)@).map_values(
            |c: CanvasView| c.without_monitor(monitor_id),
        ),
{
    let ghost before = canvases@;
    let ids: Vec<u32> = tables::sorted_keys(canvases);
    let mut i: usize = 0;
    while i < ids.len()
        invariant
            i <= ids@.len(),
            tables::lists(ids@, before.dom()),
            canvases@.dom() =~= before.dom(),
            forall|k: u32| #[trigger]
                canvases@.contains_key(k) ==> canvases@[k]@ == if ids@.take(i as int).contains(k) {
                    before[k]@.without_monitor(monitor_id)
                } else {
                    before[k]@
                },
        decreases ids@.len() - i,
    {
        let id: u32 = ids[i];
        let ghost mid = canvases@;
        proof {
            assert(ids@.contains(id));
            assert(before.dom().contains(id));
            tables::take_grows(ids@, i as int);
            assert(mid.contains_key(id));
        }
        if let Some(mut canvas) = canvases.remove(&id) {
            let ghost canvas_before = canvas@;
            canvas.per_monitor_surfaces.remove(&monitor_id);
            canvas.attached_monitor_ids.remove(&monitor_id);
            assert(canvas@.surfaces =~= canvas_before.surfaces.remove(monitor_id));
            assert(canvas@.attached =~= canvas_before.attached.remove(monitor_id));
            assert(canvas@ == canvas_before.without_monitor(monitor_id));
            canvases.insert(id, canvas);
        }
        i = i + 1;
    }
    proof {
        assert(ids@.take(i as int) =~= ids@);
        let want = canvas_views(before).map_values(
            |c: CanvasView| c.without_monitor(monitor_id),
        );
        assert forall|k: u32| #[trigger] canvases@.contains_key(k) implies canvases@[k]@
            == want[k] by {
            assert(ids@.contains(k) <==> before.dom().contains(k));
        }
        assert(canvas_views(canvases@) =~= want);
    }
}

} // verus!
