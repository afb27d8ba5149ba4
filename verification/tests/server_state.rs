use overlay_engine::handoff::{
    AttachProgress, HostCall, HostReply, MonitorMessage, OutputProgress,
};
use overlay_engine::operations::{AttachingProgress, JoinProgress, RegisterProgress};
use overlay_engine::protocol::{
    AppDetachReason, ControlMessage, DesktopWindowMode, MonitorKind, MonitorRequestStatus,
};
use overlay_engine::server::{
    MonitorRegistration, MonitorSurface, SceneOutput, ServerError, ServerState,
};
use overlay_engine::session::broadcast_app_detached;

const PID: u32 = 4242;

/// A host whose calls succeed, but for the one that is told to fail.
struct Host {
    next_handle: u64,
    sent: Vec<(u32, MonitorMessage)>,
    calls: usize,
    fail_at: Option<usize>,
}

impl Host {
    fn new() -> Self {
        Host { next_handle: 0x1000, sent: Vec::new(), calls: 0, fail_at: None }
    }

    fn failing_at(call: usize) -> Self {
        Host { fail_at: Some(call), ..Host::new() }
    }

    fn answer(&mut self, call: HostCall) -> HostReply {
        self.calls += 1;
        if self.fail_at == Some(self.calls) {
            return HostReply::Failed;
        }
        match call {
            HostCall::OpenProcess { pid } => {
                assert_eq!(pid, PID);
                HostReply::Done
            }
            HostCall::Duplicate { handle } => HostReply::Duplicated(handle + 0x10_0000),
            HostCall::Send { monitor_id, message } => {
                self.sent.push((monitor_id, message));
                HostReply::Done
            }
            HostCall::CreateSurface { logical_w, logical_h, .. } => {
                self.next_handle += 1;
                HostReply::Surface(MonitorSurface { handle: self.next_handle, logical_w, logical_h })
            }
            HostCall::CreateOutput { logical_w, logical_h, .. } => {
                self.next_handle += 1;
                HostReply::Output(SceneOutput {
                    handle: self.next_handle,
                    logical_w,
                    logical_h,
                    render_w: logical_w,
                    render_h: logical_h,
                })
            }
        }
    }

    fn register(&mut self, state: &mut ServerState, r: MonitorRegistration) -> (u32, bool) {
        let mut p = state.register_monitor(r);
        loop {
            match p {
                RegisterProgress::Done { monitor_id, should_close } => {
                    return (monitor_id, should_close);
                }
                RegisterProgress::Call(rest, call) => {
                    let reply = self.answer(call);
                    p = state.continue_register(rest, reply);
                }
            }
        }
    }

    fn attach(
        &mut self,
        state: &mut ServerState,
        app: u32,
        canvas: u32,
        monitor: u32,
    ) -> Result<(), ServerError> {
        let mut p = state.attach_monitor_for_app(app, canvas, monitor);
        loop {
            match p {
                AttachingProgress::Done(r) => return r,
                AttachingProgress::Call(rest, call) => {
                    let reply = self.answer(call);
                    p = state.continue_attaching(rest, reply);
                }
            }
        }
    }

    fn attach_plain(
        &mut self,
        state: &mut ServerState,
        canvas: u32,
        monitor: u32,
    ) -> Result<(), ServerError> {
        let mut p = state.attach_monitor(canvas, monitor);
        loop {
            match p {
                AttachProgress::Done(r) => return r,
                AttachProgress::Call(rest, call) => {
                    let reply = self.answer(call);
                    p = state.continue_attach(rest, reply);
                }
            }
        }
    }

    fn join(
        &mut self,
        state: &mut ServerState,
        app: u32,
        canvas: u32,
        count: u32,
    ) -> (MonitorRequestStatus, Vec<u32>) {
        let mut p = state.attach_game_bar_monitor_for_app(app, canvas, count);
        loop {
            match p {
                JoinProgress::Done(status, ids) => return (status, ids),
                JoinProgress::Call(rest, call) => {
                    let reply = self.answer(call);
                    p = state.continue_join(rest, reply);
                }
            }
        }
    }

    fn output(&mut self, state: &mut ServerState, monitor: u32) -> Result<bool, ServerError> {
        let mut p = state.ensure_monitor_scene_output_and_notify(monitor);
        loop {
            match p {
                OutputProgress::Done(r) => return r,
                OutputProgress::Call(rest, call) => {
                    let reply = self.answer(call);
                    p = state.continue_output(rest, reply);
                }
            }
        }
    }
}

fn register_app_with_canvas(state: &mut ServerState, logical_w: u32, logical_h: u32) -> (u32, u32) {
    let app_id = state.register_app(PID, true).unwrap();
    let canvas_id = state
        .create_canvas(app_id, logical_w, logical_h, logical_w, logical_h, Some(0xC0))
        .unwrap();
    (app_id, canvas_id)
}

fn registration(kind: MonitorKind, owner_app_id: Option<u32>) -> MonitorRegistration {
    MonitorRegistration {
        pid: PID,
        kind,
        owner_app_id,
        request_id: None,
        target_canvas_id: None,
        mode: DesktopWindowMode::Borderless,
        flags: 0,
        manual_lifecycle: true,
    }
}

fn register_shared_game_bar_monitor(state: &mut ServerState) -> u32 {
    let (monitor_id, should_close) =
        Host::new().register(state, registration(MonitorKind::GameBar, None));
    assert!(!should_close);
    monitor_id
}

#[test]
fn shared_manual_monitor_scene_accepts_multiple_app_layers() {
    let mut state = ServerState::new();
    let (app_a, canvas_a) = register_app_with_canvas(&mut state, 1920, 1080);
    let (app_b, canvas_b) = register_app_with_canvas(&mut state, 1280, 720);
    let monitor_id = register_shared_game_bar_monitor(&mut state);

    let layer_a = state
        .add_canvas_layer_to_monitor_scene_for_app(app_a, canvas_a, monitor_id)
        .unwrap();
    let layer_b = state
        .add_canvas_layer_to_monitor_scene_for_app(app_b, canvas_b, monitor_id)
        .unwrap();

    let scene = state.monitor_scenes.get(&monitor_id).unwrap();
    assert_ne!(layer_a, layer_b);
    assert_eq!(scene.layers.len(), 2);
    assert_eq!(scene.layers[0].app_id, app_a);
    assert_eq!(scene.layers[0].canvas_id, canvas_a);
    assert_eq!(scene.layers[0].z_order, 1);
    assert_eq!(scene.layers[1].app_id, app_b);
    assert_eq!(scene.layers[1].canvas_id, canvas_b);
    assert_eq!(scene.layers[1].z_order, 2);
    assert!(scene.contains_app(app_a));
    assert!(scene.contains_app(app_b));
}

#[test]
fn owned_monitor_scene_rejects_other_app_canvas() {
    let mut state = ServerState::new();
    let (app_a, _canvas_a) = register_app_with_canvas(&mut state, 1920, 1080);
    let (app_b, canvas_b) = register_app_with_canvas(&mut state, 1280, 720);
    let (monitor_id, should_close) = Host::new().register(
        &mut state,
        MonitorRegistration {
            mode: DesktopWindowMode::Bordered,
            ..registration(MonitorKind::DesktopWindow, Some(app_a))
        },
    );
    assert!(!should_close);

    let result = state.add_canvas_layer_to_monitor_scene_for_app(app_b, canvas_b, monitor_id);
    assert!(result.is_err());
    assert!(!state.monitor_scenes.contains_key(&monitor_id));
    assert_eq!(result, Err(ServerError::MonitorNotOwned { app_id: app_b, monitor_id }));
}

#[test]
fn removing_one_app_keeps_other_app_layers_on_same_scene() {
    let mut state = ServerState::new();
    let (app_a, canvas_a) = register_app_with_canvas(&mut state, 1920, 1080);
    let (app_b, canvas_b) = register_app_with_canvas(&mut state, 1280, 720);
    let monitor_id = register_shared_game_bar_monitor(&mut state);

    state
        .add_canvas_layer_to_monitor_scene_for_app(app_a, canvas_a, monitor_id)
        .unwrap();
    state
        .add_canvas_layer_to_monitor_scene_for_app(app_b, canvas_b, monitor_id)
        .unwrap();

    assert!(Host::new().output(&mut state, monitor_id).unwrap());
    state.remove_app(app_a);

    let scene = state.monitor_scenes.get(&monitor_id).unwrap();
    assert_eq!(scene.layers.len(), 1);
    assert_eq!(scene.layers[0].app_id, app_b);
    assert_eq!(scene.layers[0].canvas_id, canvas_b);
    assert!(!state.canvases.contains_key(&canvas_a));
    assert!(state.canvases.contains_key(&canvas_b));
}

#[test]
fn removing_monitor_drops_scene_without_touching_canvases() {
    let mut state = ServerState::new();
    let (app_a, canvas_a) = register_app_with_canvas(&mut state, 1920, 1080);
    let (app_b, canvas_b) = register_app_with_canvas(&mut state, 1280, 720);
    let monitor_id = register_shared_game_bar_monitor(&mut state);

    state
        .add_canvas_layer_to_monitor_scene_for_app(app_a, canvas_a, monitor_id)
        .unwrap();
    state
        .add_canvas_layer_to_monitor_scene_for_app(app_b, canvas_b, monitor_id)
        .unwrap();

    state.remove_monitor(monitor_id);

    assert!(!state.monitor_scenes.contains_key(&monitor_id));
    assert!(state.canvases.contains_key(&canvas_a));
    assert!(state.canvases.contains_key(&canvas_b));
    assert!(!state
        .canvases
        .get(&canvas_a)
        .unwrap()
        .attached_monitor_ids
        .contains(&monitor_id));
    assert!(!state
        .canvases
        .get(&canvas_b)
        .unwrap()
        .attached_monitor_ids
        .contains(&monitor_id));
}

#[test]
fn game_bar_start_joins_existing_single_widget_scene() {
    let mut state = ServerState::new();
    let (app_a, canvas_a) = register_app_with_canvas(&mut state, 1920, 1080);
    let (app_b, canvas_b) = register_app_with_canvas(&mut state, 1280, 720);
    let monitor_id = register_shared_game_bar_monitor(&mut state);
    let mut host = Host::new();

    let (status_a, monitors_a) = host.join(&mut state, app_a, canvas_a, 1);
    assert_eq!(status_a, MonitorRequestStatus::Success);
    assert_eq!(monitors_a, vec![monitor_id]);
    let first_handoff_messages: Vec<MonitorMessage> = host
        .sent
        .drain(..)
        .map(|(to, message)| {
            assert_eq!(to, monitor_id);
            message
        })
        .collect();
    assert_eq!(first_handoff_messages.len(), 3);
    assert!(matches!(
        first_handoff_messages[0],
        MonitorMessage::CanvasAttached { canvas_id, .. } if canvas_id == canvas_a
    ));
    assert!(matches!(
        first_handoff_messages[1],
        MonitorMessage::MonitorLocalSurfaceAttached { canvas_id, monitor_id: msg_monitor_id, .. }
            if canvas_id == canvas_a && msg_monitor_id == monitor_id
    ));
    assert!(matches!(
        first_handoff_messages[2],
        MonitorMessage::MonitorCompositeAttached { monitor_id: msg_monitor_id, scene_id, .. }
            if msg_monitor_id == monitor_id && scene_id == monitor_id
    ));

    let (status_b, monitors_b) = host.join(&mut state, app_b, canvas_b, 1);
    assert_eq!(status_b, MonitorRequestStatus::Success);
    assert_eq!(monitors_b, vec![monitor_id]);
    assert!(host.sent.is_empty());

    let scene = state.monitor_scenes.get(&monitor_id).unwrap();
    assert_eq!(scene.layers.len(), 2);
    assert_eq!(scene.layers[0].app_id, app_a);
    assert_eq!(scene.layers[0].canvas_id, canvas_a);
    assert_eq!(scene.layers[0].z_order, 1);
    assert_eq!(scene.layers[1].app_id, app_b);
    assert_eq!(scene.layers[1].canvas_id, canvas_b);
    assert_eq!(scene.layers[1].z_order, 2);
    assert!(state
        .canvases
        .get(&canvas_a)
        .unwrap()
        .attached_monitor_ids
        .contains(&monitor_id));
    assert!(state
        .canvases
        .get(&canvas_b)
        .unwrap()
        .attached_monitor_ids
        .contains(&monitor_id));
    assert!(!state
        .canvases
        .get(&canvas_b)
        .unwrap()
        .per_monitor_surfaces
        .contains_key(&monitor_id));
    assert!(state.monitor_scene_outputs.contains_key(&monitor_id));
}

#[test]
fn game_bar_start_requires_open_widget() {
    let mut state = ServerState::new();
    let (app_id, canvas_id) = register_app_with_canvas(&mut state, 1920, 1080);

    let (status, monitor_ids) = Host::new().join(&mut state, app_id, canvas_id, 1);

    assert_eq!(status, MonitorRequestStatus::ManualOpenRequired);
    assert!(monitor_ids.is_empty());
    assert!(state.monitor_scenes.is_empty());
}

#[test]
fn ownerless_non_manual_monitor_scene_is_not_shared() {
    let mut state = ServerState::new();
    let (app_id, canvas_id) = register_app_with_canvas(&mut state, 1920, 1080);
    let (monitor_id, should_close) = Host::new().register(
        &mut state,
        MonitorRegistration {
            manual_lifecycle: false,
            ..registration(MonitorKind::GameBar, None)
        },
    );
    assert!(!should_close);

    let result = state.add_canvas_layer_to_monitor_scene_for_app(app_id, canvas_id, monitor_id);

    assert!(result.is_err());
    assert!(state.monitor_scenes.is_empty());
    assert_eq!(result, Err(ServerError::MonitorNotShared { monitor_id }));
}

#[test]
fn rejoining_same_canvas_keeps_existing_layer_order() {
    let mut state = ServerState::new();
    let (app_id, canvas_id) = register_app_with_canvas(&mut state, 1920, 1080);
    let monitor_id = register_shared_game_bar_monitor(&mut state);

    let first_layer = state
        .add_canvas_layer_to_monitor_scene_for_app(app_id, canvas_id, monitor_id)
        .unwrap();
    let second_layer = state
        .add_canvas_layer_to_monitor_scene_for_app(app_id, canvas_id, monitor_id)
        .unwrap();

    let scene = state.monitor_scenes.get(&monitor_id).unwrap();
    assert_eq!(first_layer, second_layer);
    assert_eq!(scene.layers.len(), 1);
    assert_eq!(scene.layers[0].z_order, 1);
}

#[test]
fn app_detached_broadcast_hits_all_attached_monitors() {
    let mut state = ServerState::new();
    let app_id = state.register_app(PID, true).unwrap();
    let canvas1 = state.create_canvas(app_id, 1920, 1080, 1920, 1080, Some(1)).unwrap();
    let canvas2 = state.create_canvas(app_id, 1280, 720, 1280, 720, Some(2)).unwrap();
    let mut host = Host::new();
    let mut register = |target: u32| {
        host.register(
            &mut state,
            MonitorRegistration {
                target_canvas_id: Some(target),
                mode: DesktopWindowMode::Bordered,
                ..registration(MonitorKind::DesktopWindow, Some(app_id))
            },
        )
    };
    let (mon1, should_close1) = register(canvas1);
    let (mon2, should_close2) = register(canvas1);
    let (mon3, should_close3) = register(canvas2);
    assert!(!should_close1 && !should_close2 && !should_close3);

    let notices = broadcast_app_detached(&state, app_id, AppDetachReason::IoError);

    for monitor in [mon1, mon2, mon3] {
        let told: Vec<_> = notices.iter().filter(|n| n.monitor_id == monitor).collect();
        assert_eq!(told.len(), 1, "each monitor is told exactly once");
        assert!(matches!(
            told[0].message,
            ControlMessage::AppDetached { app_id: a, reason: 1 } if a == app_id
        ));
    }
    assert_eq!(notices.len(), 3);
}

#[test]
fn surfaces_are_handed_over_duplicated() {
    let mut state = ServerState::new();
    let (app, canvas) = register_app_with_canvas(&mut state, 1920, 1080);
    let monitor = register_shared_game_bar_monitor(&mut state);
    let mut host = Host::new();
    assert_eq!(host.attach_plain(&mut state, canvas, monitor), Ok(()));
    assert_eq!(
        host.sent,
        vec![
            (
                monitor,
                MonitorMessage::CanvasAttached {
                    canvas_id: canvas,
                    surface_handle: 0xC0 + 0x10_0000,
                    logical_w: 1920,
                    logical_h: 1080,
                    render_w: 1920,
                    render_h: 1080,
                }
            ),
            (
                monitor,
                MonitorMessage::MonitorLocalSurfaceAttached {
                    canvas_id: canvas,
                    monitor_id: monitor,
                    surface_handle: 0x1001 + 0x10_0000,
                    logical_w: 1920,
                    logical_h: 1080,
                }
            ),
        ]
    );
    assert_eq!(state.canvases[&canvas].per_monitor_surfaces[&monitor].handle, 0x1001);
    assert!(state.monitor_attached_to_any_canvas(monitor));
    assert!(state.app_owns_canvas(app, canvas));
    let control = host.sent[0].1.to_control();
    assert!(matches!(control, Some(ControlMessage::CanvasAttached { .. })));
}

#[test]
fn attaching_fails_where_the_host_fails() {
    let expected = [
        (Err(ServerError::ProcessFailed), 0, false),
        (Err(ServerError::DuplicateFailed), 0, false),
        (Ok(()), 0, false),
        (Ok(()), 1, true),
        (Ok(()), 1, true),
        (Ok(()), 1, true),
        (Ok(()), 2, true),
    ];
    for (i, (result, sent, attached)) in expected.iter().enumerate() {
        let mut state = ServerState::new();
        let (_, canvas) = register_app_with_canvas(&mut state, 8, 8);
        let monitor = register_shared_game_bar_monitor(&mut state);
        let mut host = Host::failing_at(i + 1);
        assert_eq!(host.attach_plain(&mut state, canvas, monitor), *result);
        assert_eq!(host.sent.len(), *sent);
        assert_eq!(state.monitor_attached_to_any_canvas(monitor), *attached);
    }
    let mut state = ServerState::new();
    let (_, canvas) = register_app_with_canvas(&mut state, 8, 8);
    let monitor = register_shared_game_bar_monitor(&mut state);
    let unknown = canvas + 10;
    let mut host = Host::new();
    assert_eq!(
        host.attach_plain(&mut state, unknown, monitor),
        Err(ServerError::CanvasNotFound)
    );
    assert_eq!(
        host.attach_plain(&mut state, canvas, monitor + 1),
        Err(ServerError::MonitorNotFound)
    );
    assert_eq!(host.output(&mut state, monitor), Err(ServerError::SceneNotFound));
    assert_eq!(host.calls, 0);
}

#[test]
fn apps_attach_only_what_is_theirs() {
    let mut state = ServerState::new();
    let (app_a, canvas_a) = register_app_with_canvas(&mut state, 8, 8);
    let (app_b, canvas_b) = register_app_with_canvas(&mut state, 8, 8);
    let other = state.create_canvas(app_a, 8, 8, 8, 8, Some(9)).unwrap();
    let mut host = Host::new();
    let (owned, _) = host.register(
        &mut state,
        MonitorRegistration {
            target_canvas_id: Some(canvas_a),
            ..registration(MonitorKind::DesktopWindow, Some(app_a))
        },
    );
    assert_eq!(
        host.attach(&mut state, app_b, canvas_a, owned),
        Err(ServerError::CanvasNotOwned { app_id: app_b })
    );
    assert_eq!(
        host.attach(&mut state, app_b, canvas_b, owned),
        Err(ServerError::MonitorNotOwned { app_id: app_b, monitor_id: owned })
    );
    assert_eq!(
        host.attach(&mut state, app_a, other, owned),
        Err(ServerError::OtherTarget {
            monitor_id: owned,
            target_canvas_id: canvas_a,
            canvas_id: other,
        })
    );
    assert_eq!(host.attach(&mut state, app_a, canvas_a, owned), Ok(()));
    assert_eq!(
        host.attach(&mut state, app_a, canvas_a, owned + 1),
        Err(ServerError::MonitorNotFound)
    );
}

#[test]
fn windows_of_an_app_that_left_are_closed() {
    let mut state = ServerState::new();
    let (app, canvas) = register_app_with_canvas(&mut state, 8, 8);
    state.remove_app(app);
    let (monitor, should_close) = Host::new().register(
        &mut state,
        MonitorRegistration {
            target_canvas_id: Some(canvas),
            manual_lifecycle: false,
            ..registration(MonitorKind::DesktopWindow, Some(app))
        },
    );
    assert!(should_close);
    assert!(state.monitors.contains_key(&monitor));
}

#[test]
fn identifiers_are_taken_even_by_failures() {
    let mut state = ServerState::new();
    assert_eq!(state.register_app(PID, false), Err(ServerError::CommandRegionFailed));
    let app = state.register_app(PID, true).unwrap();
    assert_eq!(app, 2);
    assert_eq!(state.create_canvas(9, 1, 1, 1, 1, Some(1)), Err(ServerError::AppNotFound));
    assert_eq!(state.create_canvas(app, 1, 1, 1, 1, None), Err(ServerError::SurfaceFailed));
    let canvas = state.create_canvas(app, 1, 1, 1, 1, Some(1)).unwrap();
    assert_eq!(state.resolve_app_canvas_id(app, 0), Some(canvas));
    assert_eq!(state.resolve_app_canvas_id(app, canvas), Some(canvas));
    assert_eq!(state.resolve_app_canvas_id(app, canvas + 1), None);
    assert_eq!(state.resolve_app_canvas_id(app + 1, 0), None);
}

#[test]
fn bitmaps_replace_their_predecessors() {
    let mut state = ServerState::new();
    let (app, _) = register_app_with_canvas(&mut state, 8, 8);
    assert_eq!(state.store_bitmap(app, 7, 70), None);
    assert_eq!(state.store_bitmap(app, 7, 71), Some(70));
    let removed = state.remove_app(app).unwrap();
    assert_eq!(removed.bitmap_handles[&7], 71);
    assert!(state.remove_app(app).is_none());
}

#[test]
fn only_started_windows_are_closed_by_the_core() {
    let mut state = ServerState::new();
    let (app, _) = register_app_with_canvas(&mut state, 8, 8);
    let mut host = Host::new();
    let managed = MonitorRegistration {
        manual_lifecycle: false,
        ..registration(MonitorKind::DesktopWindow, Some(app))
    };
    let (first, _) = host.register(&mut state, managed);
    let (second, _) = host.register(&mut state, managed);
    let (manual, _) =
        host.register(&mut state, registration(MonitorKind::DesktopWindow, Some(app)));
    assert_eq!(state.close_owned_desktop_monitors(app), vec![first, second]);
    assert_eq!(state.close_monitor_if_owned(app, first), MonitorRequestStatus::Success);
    assert_eq!(
        state.close_monitor_if_owned(app, manual),
        MonitorRequestStatus::NotCoreManaged
    );
    assert_eq!(
        state.close_monitor_if_owned(app + 1, first),
        MonitorRequestStatus::NotOwner
    );
}
