use overlay_engine::lifecycle::{
    apply_app_detached_events, reconnect_step, should_destroy_now, AppDetachedEvent,
    MonitorLifecycleKind, MonitorWindow, ReconnectOutcome, ReconnectState,
};
use overlay_engine::protocol::{
    ControlMessage, DesktopWindowMode, MonitorKind, DESKTOP_WINDOW_FLAG_CLICK_THROUGH,
};
use overlay_engine::singleton::SingletonRequest;
use overlay_engine::window_options::{
    await_attach, has_frame, options_from_singleton_request, parse_bool_flag,
    parse_initial_options, parse_mode, placement, reconnect_delay, register_message, search_rect,
    singleton_request_from_options, window_dimension, Argument, AwaitStep, DesktopWindowOptions,
    OptionError, Placement, ScreenRect, WindowRequest,
};
use overlay_engine::window_table::{
    may_try_again, window_reaction, WindowAction, WindowReaction, WindowTable, WM_CLOSE,
    WM_DESTROY, WM_NCHITTEST, WM_WINDOWPOSCHANGED,
};

fn words(list: &[&str]) -> Vec<String> {
    std::iter::once("monitor")
        .chain(list.iter().copied())
        .map(|s| s.to_string())
        .collect()
}

#[test]
fn launched_options_read_back() {
    let o = overlay_engine::catalog::DesktopWindowLaunchOptions {
        request_id: 12,
        owner_app_id: 3,
        target_canvas_id: 4,
        mode: DesktopWindowMode::BorderlessFullscreen,
        flags: 1,
        x: -5,
        y: i32::MIN,
        w: 0,
        h: u32::MAX,
    };
    let mut args = vec!["monitor".to_string()];
    args.extend(overlay_engine::catalog::launch_arguments(&o));
    let read = parse_initial_options(&args).unwrap();
    assert_eq!(read.request_id, 12);
    assert_eq!(read.owner_app_id, Some(3));
    assert_eq!(read.target_canvas_id, 4);
    assert_eq!(read.mode, DesktopWindowMode::BorderlessFullscreen);
    assert_eq!(read.flags, DESKTOP_WINDOW_FLAG_CLICK_THROUGH);
    assert_eq!((read.x, read.y, read.w, read.h), (-5, i32::MIN, 0, u32::MAX));
}

#[test]
fn arguments_are_checked() {
    let err = |list: &[&str]| parse_initial_options(&words(list)).err();
    assert_eq!(err(&["--mode"]), Some(OptionError::MissingValue(Argument::Mode)));
    assert_eq!(err(&["--x", "a"]), Some(OptionError::BadNumber(Argument::X)));
    assert_eq!(err(&["--w", "-1"]), Some(OptionError::BadNumber(Argument::W)));
    assert_eq!(err(&["--request-id", "4294967296"]),
        Some(OptionError::BadNumber(Argument::RequestId)));
    assert_eq!(err(&["--mode", "round"]), Some(OptionError::UnknownMode));
    assert_eq!(err(&["--click-through", "maybe"]), Some(OptionError::BadFlag));
    assert_eq!(err(&[]), None);
}

#[test]
fn click_through_may_stand_alone() {
    let read = |list: &[&str]| parse_initial_options(&words(list)).unwrap();
    assert!(read(&["--click-through"]).click_through());
    let o = read(&["--click-through", "--x", "7"]);
    assert!(o.click_through());
    assert_eq!(o.x, 7);
    assert!(!read(&["--click-through", "0"]).click_through());
    assert!(!read(&[]).click_through());
}

#[test]
fn names_of_modes_and_flags() {
    assert_eq!(parse_mode("bordered"), Some(DesktopWindowMode::Bordered));
    assert_eq!(parse_mode("borderless"), Some(DesktopWindowMode::Borderless));
    assert_eq!(parse_mode(""), None);
    assert_eq!(parse_bool_flag("true"), Some(true));
    assert_eq!(parse_bool_flag("0"), Some(false));
    assert_eq!(parse_bool_flag("2"), None);
    assert!(has_frame(DesktopWindowMode::Bordered));
    assert!(!has_frame(DesktopWindowMode::Borderless));
}

fn requested() -> DesktopWindowOptions {
    DesktopWindowOptions {
        request_id: 5,
        owner_app_id: Some(2),
        target_canvas_id: 9,
        mode: DesktopWindowMode::Borderless,
        flags: 1,
        x: 1,
        y: 2,
        w: 3,
        h: 4,
    }
}

#[test]
fn requested_windows_are_handed_over_whole() {
    let o = requested();
    assert!(o.core_requested());
    let back = options_from_singleton_request(singleton_request_from_options(o));
    assert_eq!(back, o);
    assert_eq!(singleton_request_from_options(o).to_singleton(), None);
}

#[test]
fn other_windows_are_handed_over_plain() {
    let o = DesktopWindowOptions::default();
    let request = singleton_request_from_options(o);
    assert_eq!(request, WindowRequest::OpenWindow { target_canvas_id: 0 });
    assert_eq!(
        request.to_singleton(),
        Some(SingletonRequest::OpenWindow { target_canvas_id: 0 })
    );
    let read = WindowRequest::from_singleton(SingletonRequest::OpenWindow { target_canvas_id: 0 });
    assert_eq!(options_from_singleton_request(read), o);
}

#[test]
fn windows_are_placed() {
    assert_eq!(window_dimension(0, 720), 720);
    assert_eq!(window_dimension(u32::MAX, 720), i32::MAX);
    let mut o = requested();
    o.x = i32::MAX - 1;
    assert_eq!(
        search_rect(o),
        ScreenRect { left: i32::MAX - 1, top: 2, right: i32::MAX, bottom: 6 }
    );
    let screen = Some(ScreenRect { left: -10, top: 0, right: 30, bottom: 0 });
    o = requested();
    assert_eq!(placement(o, screen), Placement { x: 1, y: 2, w: 3, h: 4 });
    o.mode = DesktopWindowMode::BorderlessFullscreen;
    assert_eq!(placement(o, screen), Placement { x: -10, y: 0, w: 40, h: 1 });
    assert_eq!(placement(o, None), Placement { x: 1, y: 2, w: 3, h: 4 });
}

#[test]
fn reconnecting_slows_down() {
    assert_eq!(reconnect_delay(0, 0), 500);
    assert_eq!(reconnect_delay(200, 0), 700);
    assert_eq!(reconnect_delay(201, 1), 1073);
    assert_eq!(reconnect_delay(0, 3), 2000 + 219 % 201);
    assert!(may_try_again(9));
    assert!(!may_try_again(10));
}

#[test]
fn windows_register_as_they_were_opened() {
    assert_eq!(
        register_message(requested(), 77),
        ControlMessage::RegisterMonitorV2 {
            pid: 77,
            kind: MonitorKind::DesktopWindow,
            owner_app_id: 2,
            request_id: 5,
            target_canvas_id: 9,
            mode: DesktopWindowMode::Borderless,
            flags: 1,
            manual_lifecycle: false,
        }
    );
    assert_eq!(
        register_message(DesktopWindowOptions::default(), 77),
        ControlMessage::RegisterMonitor { pid: 77 }
    );
}

fn attached(canvas_id: u32) -> ControlMessage {
    ControlMessage::CanvasAttached {
        canvas_id,
        surface_handle: 0xAB,
        logical_w: 1,
        logical_h: 2,
        render_w: 3,
        render_h: 4,
    }
}

#[test]
fn windows_wait_for_their_canvas() {
    let o = requested();
    assert!(matches!(await_attach(o, &attached(9)), AwaitStep::Attached(a) if a.canvas_id == 9));
    assert!(matches!(
        await_attach(o, &attached(8)),
        AwaitStep::OtherCanvas { canvas_id: 8 }
    ));
    let any = DesktopWindowOptions::default();
    assert!(matches!(await_attach(any, &attached(8)), AwaitStep::Attached(_)));
    assert!(matches!(
        await_attach(o, &ControlMessage::CloseMonitor { monitor_id: 3 }),
        AwaitStep::Closed { monitor_id: 3 }
    ));
    assert!(matches!(
        await_attach(o, &ControlMessage::RegisterApp { pid: 3 }),
        AwaitStep::Unexpected
    ));
}

fn table() -> (WindowTable, u32, u32) {
    let mut t = WindowTable::new();
    let a = t.take_window_id();
    let b = t.take_window_id();
    t.opened(a, 100, requested(), 9);
    let mut other = requested();
    other.owner_app_id = Some(8);
    t.opened(b, 200, other, 7);
    (t, a, b)
}

#[test]
fn messages_reach_one_window() {
    let (mut t, a, b) = table();
    assert_ne!(a, b);
    assert_eq!(t.to_draw(), vec![100, 200]);
    t.message(a, &ControlMessage::AppDetached { app_id: 8, reason: 0 });
    assert_eq!(t.to_draw(), vec![100, 200]);
    t.message(a, &ControlMessage::AppDetached { app_id: 2, reason: 0 });
    assert_eq!(t.to_draw(), vec![200]);
    assert_eq!(t.end_frame(), vec![100]);
    assert!(!t.is_done());
    t.close_requested(200);
    assert_eq!(t.end_frame(), vec![200]);
    assert!(t.is_done());
}

#[test]
fn local_surfaces_are_shown_on_their_canvas() {
    let (mut t, a, _) = table();
    let local = |canvas_id: u32| ControlMessage::MonitorLocalSurfaceAttached {
        canvas_id,
        monitor_id: 33,
        surface_handle: 0xCD,
        logical_w: 1,
        logical_h: 1,
    };
    assert!(matches!(
        t.message(a, &local(9)),
        WindowAction::ShowLocal { hwnd: 100, canvas_id: 9, surface_handle: 0xCD }
    ));
    assert!(matches!(t.message(a, &local(10)), WindowAction::Nothing));
    t.message(a, &ControlMessage::CloseMonitor { monitor_id: 34 });
    assert_eq!(t.to_draw(), vec![100, 200]);
    t.message(a, &ControlMessage::CloseMonitor { monitor_id: 33 });
    assert_eq!(t.to_draw(), vec![200]);
}

#[test]
fn another_canvas_opens_another_window() {
    let (mut t, a, _) = table();
    match t.message(a, &attached(4)) {
        WindowAction::Recreate { window_id, options, attach } => {
            assert_eq!(window_id, a);
            assert_eq!(options, requested());
            assert_eq!(attach.canvas_id, 4);
        }
        _ => panic!("no new window"),
    }
    t.opened(a, 101, requested(), 4);
    assert_eq!(t.end_frame(), vec![100]);
    assert_eq!(t.to_draw(), vec![200, 101]);
    assert!(matches!(
        t.message(a, &ControlMessage::RegisterApp { pid: 1 }),
        WindowAction::Unexpected
    ));
}

#[test]
fn lost_windows_close_and_kept_ones_move() {
    let (mut t, a, b) = table();
    assert_eq!(t.disconnected(a).unwrap().hwnd, 100);
    t.reconnected(a, 300, 5);
    assert_eq!(t.to_draw(), vec![300, 200]);
    t.lost(b);
    assert!(t.disconnected(b).is_none());
    assert_eq!(t.end_frame(), vec![200]);
}

#[test]
fn window_messages_have_their_reactions() {
    assert_eq!(window_reaction(WM_CLOSE, false), WindowReaction::Close);
    assert_eq!(window_reaction(WM_DESTROY, false), WindowReaction::Release);
    assert_eq!(window_reaction(WM_WINDOWPOSCHANGED, true), WindowReaction::Replace);
    assert_eq!(window_reaction(WM_NCHITTEST, true), WindowReaction::PassThrough);
    assert_eq!(window_reaction(WM_NCHITTEST, false), WindowReaction::Default);
    assert_eq!(window_reaction(0, true), WindowReaction::Default);
}

fn window(owner_app_id: Option<u32>, in_frame: bool) -> MonitorWindow {
    MonitorWindow {
        hwnd: 1,
        monitor_id: 2,
        canvas_id: 3,
        owner_app_id,
        pending_close: false,
        in_frame,
    }
}

#[test]
fn windows_of_a_detached_app_close_after_their_frame() {
    let mut windows =
        [window(Some(1), false), window(Some(2), false), window(Some(1), true), window(None, false)];
    apply_app_detached_events(&mut windows, &[AppDetachedEvent { app_id: 1, reason: 0 }]);
    let closing: Vec<bool> = windows.iter().map(|w| w.pending_close).collect();
    assert_eq!(closing, vec![true, false, true, true]);
    assert!(should_destroy_now(&windows[0]));
    assert!(!should_destroy_now(&windows[2]));
    windows[2].in_frame = false;
    assert!(should_destroy_now(&windows[2]));
}

#[test]
fn only_lasting_failure_closes_windows() {
    for kind in [MonitorLifecycleKind::Standalone, MonitorLifecycleKind::Hosted] {
        let mut state = ReconnectState { windows: vec![window(None, false)], attempts: 0 };
        for _ in 0..9 {
            reconnect_step(&mut state, ReconnectOutcome::Failed, kind, 10);
            assert!(!state.windows[0].pending_close);
        }
        reconnect_step(&mut state, ReconnectOutcome::Failed, kind, 10);
        assert_eq!(state.windows[0].pending_close, kind == MonitorLifecycleKind::Standalone);
        reconnect_step(&mut state, ReconnectOutcome::Success, kind, 10);
        assert_eq!(state.attempts, 0);
        assert!(!state.windows[0].pending_close);
    }
}
