use overlay_engine::catalog::{parse_monitor_catalog, MonitorCatalog};
use overlay_engine::cmd_writer::write_cmd_clear;
use overlay_engine::pending::{LaunchOutcome, PendingStarts};
use overlay_engine::protocol::{
    ControlMessage, DesktopWindowMode, MonitorKind, MonitorRequestStatus,
};
use overlay_engine::server::{MonitorRegistration, ServerState};
use overlay_engine::session::{
    begin_start, depart, expire_start, finish_start, frame_canvas, frame_commands, refusal,
    registered, route, stop_monitor, AfterRegistration, Client, Request, StartDecision, StartId, StartRequest,
};
use overlay_engine::shmem::{RingbufferHeader, SharedMemory};

fn catalog() -> MonitorCatalog {
    parse_monitor_catalog(
        "Monitor.DesktopWindow.Path=w.exe\nMonitor.DesktopWindow.MaxInstancesPerApp=2\n\
         Monitor.DesktopWindow.WindowModes=bordered",
        "",
    )
}

fn start(request_id: u32, count: u32) -> StartRequest {
    StartRequest {
        request_id,
        kind: MonitorKind::DesktopWindow,
        count,
        target_canvas_id: 0,
        mode: DesktopWindowMode::Bordered,
        flags: 0,
        x: 1,
        y: 2,
        w: 3,
        h: 4,
    }
}

fn app_with_canvas(state: &mut ServerState) -> (u32, u32) {
    let app = state.register_app(1, true).unwrap();
    let canvas = state.create_canvas(app, 8, 8, 8, 8, Some(1)).unwrap();
    (app, canvas)
}

fn managed(app: u32) -> MonitorRegistration {
    MonitorRegistration {
        pid: 2,
        kind: MonitorKind::DesktopWindow,
        owner_app_id: Some(app),
        request_id: None,
        target_canvas_id: None,
        mode: DesktopWindowMode::Bordered,
        flags: 0,
        manual_lifecycle: false,
    }
}

#[test]
fn only_apps_are_served() {
    let create = || ControlMessage::CreateCanvas {
        logical_w: 1,
        logical_h: 2,
        render_w: 3,
        render_h: 4,
    };
    for client in [Client::Unknown, Client::Monitor(5)] {
        assert!(matches!(route(client, create()), Request::Refuse));
        let list = ControlMessage::ListMonitorTypes { request_id: 1 };
        assert!(matches!(route(client, list), Request::Refuse));
        let stop = ControlMessage::StopMonitor { request_id: 7, monitor_id: 1 };
        assert!(matches!(route(client, stop), Request::RefuseStop { request_id: 7 }));
        let load = ControlMessage::LoadBitmap { bitmap_id: 1, bytes: vec![] };
        assert!(matches!(route(client, load), Request::Refuse));
    }
    assert!(matches!(
        route(Client::App(3), create()),
        Request::CreateCanvas { app_id: 3, logical_w: 1, logical_h: 2, render_w: 3, render_h: 4 }
    ));
    assert!(matches!(
        route(Client::App(3), ControlMessage::CloseMonitor { monitor_id: 1 }),
        Request::Ignore
    ));
}

#[test]
fn refused_starts_and_stops_are_answered() {
    for client in [Client::Unknown, Client::Monitor(5)] {
        let start = ControlMessage::StartMonitor {
            request_id: 12,
            kind: MonitorKind::DesktopWindow,
            count: 0,
            target_canvas_id: 0,
            mode: DesktopWindowMode::Bordered,
            flags: 0,
            x: 0,
            y: 0,
            w: 0,
            h: 0,
        };
        assert_eq!(
            refusal(&route(client, start)),
            Some(ControlMessage::StartMonitorResult {
                request_id: 12,
                status: MonitorRequestStatus::NotOwner,
                monitor_ids: vec![],
            })
        );
        let stop = ControlMessage::StopMonitor { request_id: 13, monitor_id: 1 };
        assert_eq!(
            refusal(&route(client, stop)),
            Some(ControlMessage::StopMonitorResult {
                request_id: 13,
                status: MonitorRequestStatus::NotOwner,
            })
        );
        let list = ControlMessage::ListMonitorTypes { request_id: 1 };
        assert_eq!(refusal(&route(client, list)), None);
    }
    let stop = ControlMessage::StopMonitor { request_id: 13, monitor_id: 1 };
    assert_eq!(refusal(&route(Client::App(1), stop)), None);
}

#[test]
fn monitors_register_for_the_request_they_were_opened_for() {
    let v2 = |owner_app_id: u32, request_id: u32| ControlMessage::RegisterMonitorV2 {
        pid: 9,
        kind: MonitorKind::DesktopWindow,
        owner_app_id,
        request_id,
        target_canvas_id: 0,
        mode: DesktopWindowMode::Borderless,
        flags: 1,
        manual_lifecycle: false,
    };
    match route(Client::Unknown, v2(4, 6)) {
        Request::RegisterMonitor { registration, opened_for } => {
            assert_eq!(opened_for, Some(StartId { app_id: 4, request_id: 6 }));
            assert_eq!(registration.owner_app_id, Some(4));
            assert_eq!(registration.request_id, Some(6));
            assert_eq!(registration.target_canvas_id, None);
        }
        _ => panic!("not a registration"),
    }
    match route(Client::Unknown, v2(0, 6)) {
        Request::RegisterMonitor { opened_for, .. } => assert_eq!(opened_for, None),
        _ => panic!("not a registration"),
    }
    match route(Client::Unknown, ControlMessage::RegisterMonitor { pid: 9 }) {
        Request::RegisterMonitor { registration, opened_for } => {
            assert_eq!(opened_for, None);
            assert_eq!(registration.owner_app_id, None);
            assert!(registration.manual_lifecycle);
        }
        _ => panic!("not a registration"),
    }
}

#[test]
fn starts_are_checked_in_order() {
    let mut state = ServerState::new();
    let (app, canvas) = app_with_canvas(&mut state);
    let mut pending = PendingStarts::new();
    let catalog = catalog();
    let mut decide = |catalog: &MonitorCatalog, app: u32, s: StartRequest| {
        match begin_start(&state, &mut pending, catalog, app, s) {
            StartDecision::Answer(status) => Some(status),
            StartDecision::Launch { .. } => None,
        }
    };
    let answer = |status: MonitorRequestStatus| Some(status);
    assert_eq!(decide(&catalog, app, start(1, 0)), answer(MonitorRequestStatus::Success));
    let bar = StartRequest { kind: MonitorKind::GameBar, ..start(1, 1) };
    assert_eq!(decide(&catalog, app, bar), answer(MonitorRequestStatus::ManualOpenRequired));
    let none = MonitorCatalog::default();
    assert_eq!(decide(&none, app, start(1, 1)), answer(MonitorRequestStatus::Unavailable));
    let mode = StartRequest { mode: DesktopWindowMode::Borderless, ..start(1, 1) };
    assert_eq!(decide(&catalog, app, mode), answer(MonitorRequestStatus::Unavailable));
    let flags = StartRequest { flags: 1, ..start(1, 1) };
    assert_eq!(decide(&catalog, app, flags), answer(MonitorRequestStatus::Unavailable));
    let target = StartRequest { target_canvas_id: canvas + 1, ..start(1, 1) };
    assert_eq!(decide(&catalog, app, target), answer(MonitorRequestStatus::InvalidCanvas));
    assert_eq!(decide(&catalog, app, start(1, 3)), answer(MonitorRequestStatus::LimitExceeded));
    assert_eq!(
        decide(&catalog, app, start(1, u32::MAX)),
        answer(MonitorRequestStatus::LimitExceeded)
    );
    assert_eq!(decide(&catalog, app, start(1, 2)), None);
}

#[test]
fn launches_carry_the_request() {
    let mut state = ServerState::new();
    let (app, canvas) = app_with_canvas(&mut state);
    let mut pending = PendingStarts::new();
    match begin_start(&state, &mut pending, &catalog(), app, start(9, 2)) {
        StartDecision::Launch { options, count } => {
            assert_eq!(count, 2);
            assert_eq!(options.request_id, 9);
            assert_eq!(options.owner_app_id, app);
            assert_eq!(options.target_canvas_id, canvas);
            assert_eq!((options.x, options.y, options.w, options.h), (1, 2, 3, 4));
        }
        StartDecision::Answer(_) => panic!("not launched"),
    }
}

#[test]
fn running_windows_count_against_the_limit() {
    let mut state = ServerState::new();
    let (app, _) = app_with_canvas(&mut state);
    state.enter_monitor(managed(app));
    let mut pending = PendingStarts::new();
    assert!(matches!(
        begin_start(&state, &mut pending, &catalog(), app, start(1, 2)),
        StartDecision::Answer(MonitorRequestStatus::LimitExceeded)
    ));
    assert!(matches!(
        begin_start(&state, &mut pending, &catalog(), app, start(1, 1)),
        StartDecision::Launch { .. }
    ));
}

fn answer_ids(after: AfterRegistration) -> Option<(u32, Vec<u32>)> {
    match after {
        AfterRegistration::Answer {
            app_id,
            message: ControlMessage::StartMonitorResult { monitor_ids, status, .. },
        } => {
            assert_eq!(status, MonitorRequestStatus::Success);
            Some((app_id, monitor_ids))
        }
        _ => None,
    }
}

#[test]
fn requests_are_answered_once_all_windows_are_there() {
    let mut pending = PendingStarts::new();
    pending.insert(3, 8, 2);
    let id = Some(StartId { app_id: 3, request_id: 8 });
    assert_eq!(finish_start(&mut pending, 3, 8, 2, 2), None);
    assert!(matches!(registered(&mut pending, 21, false, id), AfterRegistration::Nothing));
    assert_eq!(answer_ids(registered(&mut pending, 22, false, id)), Some((3, vec![21, 22])));
    assert!(matches!(registered(&mut pending, 23, false, id), AfterRegistration::Nothing));
    assert_eq!(expire_start(&mut pending, 3, 8), None);
}

#[test]
fn requests_that_time_out_are_answered_with_what_is_there() {
    let mut pending = PendingStarts::new();
    pending.insert(3, 8, 2);
    pending.insert(3, 9, 1);
    let id = Some(StartId { app_id: 3, request_id: 8 });
    registered(&mut pending, 21, false, id);
    assert_eq!(
        expire_start(&mut pending, 3, 8),
        Some(ControlMessage::StartMonitorResult {
            request_id: 8,
            status: MonitorRequestStatus::Timeout,
            monitor_ids: vec![21],
        })
    );
    assert!(matches!(registered(&mut pending, 22, false, id), AfterRegistration::Nothing));
    assert!(expire_start(&mut pending, 3, 9).is_some());
}

#[test]
fn launches_that_fail_are_answered() {
    let mut pending = PendingStarts::new();
    pending.insert(3, 8, 2);
    assert_eq!(
        finish_start(&mut pending, 3, 8, 0, 2),
        Some(ControlMessage::StartMonitorResult {
            request_id: 8,
            status: MonitorRequestStatus::SpawnFailed,
            monitor_ids: vec![],
        })
    );
    pending.insert(3, 8, 2);
    let id = Some(StartId { app_id: 3, request_id: 8 });
    registered(&mut pending, 21, false, id);
    assert!(matches!(pending.launched(3, 8, 1, 2), LaunchOutcome::Completed(ids) if ids == [21]));
    pending.insert(3, 9, 2);
    assert!(matches!(pending.launched(3, 9, 2, 2), LaunchOutcome::Waiting));
}

#[test]
fn windows_without_a_request_are_only_entered() {
    let mut pending = PendingStarts::new();
    assert!(matches!(registered(&mut pending, 4, false, None), AfterRegistration::Nothing));
    assert!(matches!(
        registered(&mut pending, 4, true, None),
        AfterRegistration::Close(ControlMessage::CloseMonitor { monitor_id: 4 })
    ));
}

#[test]
fn windows_are_stopped_by_their_owner() {
    let mut state = ServerState::new();
    let (app, _) = app_with_canvas(&mut state);
    let window = state.enter_monitor(managed(app));
    let stopped = stop_monitor(&state, app, 5, window);
    assert_eq!(
        stopped.answer,
        ControlMessage::StopMonitorResult { request_id: 5, status: MonitorRequestStatus::Success }
    );
    assert_eq!(stopped.close, Some(ControlMessage::CloseMonitor { monitor_id: window }));
    let refused = stop_monitor(&state, app + 1, 5, window);
    assert_eq!(refused.close, None);
}

#[test]
fn frames_are_read_from_the_apps_region() {
    let mut bytes = vec![0u8; 128];
    RingbufferHeader::initial(128).write(&mut bytes);
    let mut at = 24usize;
    write_cmd_clear(&mut bytes, &mut at, 0, 0, 0, 0);
    let region = SharedMemory::new(&bytes);
    assert_eq!(frame_commands(&region, 24, (at - 24) as u32).unwrap().len(), 1);
    assert!(frame_commands(&region, 0, 8).is_none());
    assert!(frame_commands(&region, 24, 200).is_none());
}

#[test]
fn frames_go_to_own_canvases() {
    let mut state = ServerState::new();
    let (app, canvas) = app_with_canvas(&mut state);
    let (other, theirs) = app_with_canvas(&mut state);
    assert_eq!(frame_canvas(&state, app, canvas), Some(canvas));
    assert_eq!(frame_canvas(&state, app, theirs), None);
    assert_eq!(frame_canvas(&state, other, theirs), Some(theirs));
    assert_eq!(frame_canvas(&state, 99, canvas), None);
}

#[test]
fn an_app_that_leaves_takes_its_things_along() {
    let mut state = ServerState::new();
    let (app, canvas) = app_with_canvas(&mut state);
    let (other, theirs) = app_with_canvas(&mut state);
    let window = state.enter_monitor(managed(app));
    state
        .add_canvas_layer_to_monitor_scene_for_app(app, canvas, window)
        .unwrap();
    let mut pending = PendingStarts::new();
    pending.insert(app, 1, 1);
    pending.insert(other, 1, 1);
    let gone = depart(&mut state, &mut pending, Client::App(app), true);
    assert_eq!(gone.closed, vec![window]);
    assert_eq!(gone.notices.len(), 1);
    assert_eq!(gone.notices[0].monitor_id, window);
    assert!(matches!(
        gone.notices[0].message,
        ControlMessage::AppDetached { app_id, reason: 1 } if app_id == app
    ));
    assert_eq!(gone.app.unwrap().id, app);
    assert!(!state.canvases.contains_key(&canvas));
    assert!(state.canvases.contains_key(&theirs));
    assert_eq!(expire_start(&mut pending, app, 1), None);
    assert!(expire_start(&mut pending, other, 1).is_some());
}

#[test]
fn a_monitor_that_leaves_is_forgotten() {
    let mut state = ServerState::new();
    let (app, _) = app_with_canvas(&mut state);
    let window = state.enter_monitor(managed(app));
    let mut pending = PendingStarts::new();
    let gone = depart(&mut state, &mut pending, Client::Monitor(window), false);
    assert!(gone.closed.is_empty() && gone.notices.is_empty() && gone.app.is_none());
    assert!(!state.monitors.contains_key(&window));
    assert!(state.apps.contains_key(&app));
}
