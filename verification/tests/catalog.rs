use std::path::Path;

use overlay_engine::catalog::{
    launch_arguments, parse_bool, parse_desktop_flags, parse_monitor_catalog, parse_settings,
    parse_window_modes, DesktopWindowLaunchOptions, MonitorCatalog,
};
use overlay_engine::protocol::{
    DesktopWindowMode, MonitorKind, MonitorStartPolicy, DESKTOP_WINDOW_FLAG_CLICK_THROUGH,
    DESKTOP_WINDOW_MODE_BORDERED, DESKTOP_WINDOW_MODE_BORDERLESS_FULLSCREEN,
};

#[test]
fn parses_catalog_without_launching_legacy_launch() {
    let catalog = parse_monitor_catalog(
        "Launch=desktop-window-monitor.exe\nMonitor.GameBar.Available=true\n",
        "C:/overlay-engine",
    );
    let desktop = catalog.desktop_window.unwrap();
    assert!(Path::new(desktop.path.as_str()).ends_with("desktop-window-monitor.exe"));
    assert_eq!(desktop.max_instances_per_app, 16);
    assert_eq!(catalog.game_bar.unwrap().start_policy, MonitorStartPolicy::UserManual);
}

#[test]
fn parses_desktop_capability_catalog() {
    let catalog = parse_monitor_catalog(
        "Monitor.DesktopWindow.Path=bin/desktop-window-monitor.exe\n\
         Monitor.DesktopWindow.MaxInstancesPerApp=3\n\
         Monitor.DesktopWindow.WindowModes=bordered,borderless-fullscreen\n\
         Monitor.DesktopWindow.Flags=click-through\n",
        "C:/overlay-engine",
    );
    let desktop = catalog.desktop_window.unwrap();
    assert!(Path::new(desktop.path.as_str()).ends_with("bin/desktop-window-monitor.exe"));
    assert_eq!(desktop.max_instances_per_app, 3);
    assert_eq!(
        desktop.window_modes,
        DESKTOP_WINDOW_MODE_BORDERED | DESKTOP_WINDOW_MODE_BORDERLESS_FULLSCREEN
    );
    assert_eq!(desktop.flags, DESKTOP_WINDOW_FLAG_CLICK_THROUGH);
}

fn resolved(content: &str) -> Option<String> {
    parse_monitor_catalog(content, "base")
        .desktop_window
        .map(|d| d.path.as_str().to_string())
}

#[test]
fn paths_are_joined_to_the_configurations_directory() {
    let joined = resolved("Monitor.DesktopWindow.Path=\"a.exe\"").unwrap();
    assert_eq!(Path::new(&joined), Path::new("base").join("a.exe"));
    assert_eq!(resolved("Monitor.DesktopWindow.Path="), None);
    assert_eq!(resolved("Launch=other.exe"), None);
}

#[test]
fn own_paths_win_over_launch_lines() {
    let launch = "Launch=old/Desktop-Window-Monitor.exe --x";
    let own = "Monitor.DesktopWindow.Path=b";
    for content in [format!("{launch}\n{own}"), format!("{own}\n{launch}")] {
        assert_eq!(parse_settings(&content).monitor_path(), Some("b"));
        let chosen = resolved(&content).unwrap();
        assert_eq!(Path::new(&chosen), Path::new("base").join("b"));
    }
    let old = parse_settings(launch);
    assert_eq!(old.monitor_path(), Some("old/Desktop-Window-Monitor.exe"));
    assert_eq!(parse_settings("").monitor_path(), None);
    let later = format!("{own}\nMonitor.DesktopWindow.Path=\nMonitor.DesktopWindow.Path=c");
    assert_eq!(parse_settings(&later).monitor_path(), Some("c"));
}

#[test]
fn settings_are_read_line_by_line() {
    let s = parse_settings(
        "# Monitor.GameBar.Available=true\r\n; x=y\r\n  \r\nno setting\r\n\
         monitor.gamebar.AVAILABLE = Yes \r\n\
         Monitor.GameBar.MaxInstances=0\n\
         Monitor.GameBar.StartPolicy=CORE-ON-DEMAND\n\
         Monitor.DesktopWindow.MaxInstancesPerApp=7\n\
         Monitor.DesktopWindow.MaxInstancesPerApp=many\n\
         Launch=C:\\x\\Desktop-Window-Monitor.exe --a b",
    );
    assert!(s.game_bar_available);
    assert_eq!(s.game_bar_max, 1);
    assert_eq!(s.game_bar_policy, MonitorStartPolicy::CoreOnDemand);
    assert_eq!(s.desktop_max, 7);
    assert_eq!(s.desktop_modes, 7);
    assert_eq!(s.desktop_flags, 0);
    assert_eq!(s.desktop_path, None);
    assert_eq!(s.launch_path.as_deref(), Some("C:\\x\\Desktop-Window-Monitor.exe"));
}

#[test]
fn modes_and_flags_are_lists() {
    assert_eq!(parse_window_modes("Bordered , FULLSCREEN"), 5);
    assert_eq!(parse_window_modes("borderless,unknown,"), 2);
    assert_eq!(parse_window_modes(""), 0);
    assert_eq!(parse_desktop_flags("x, ClickThrough"), 1);
    assert_eq!(parse_desktop_flags("none"), 0);
    assert!(parse_bool("TRUE") && parse_bool("1") && parse_bool("yes"));
    assert!(!parse_bool("0") && !parse_bool("on") && !parse_bool(""));
}

#[test]
fn apps_are_told_of_what_is_installed() {
    assert!(MonitorCatalog::default().to_monitor_type_entries().is_empty());
    let catalog = parse_monitor_catalog(
        "Monitor.DesktopWindow.Path=a\nMonitor.GameBar.Available=1\nMonitor.GameBar.MaxInstances=2",
        "",
    );
    let entries = catalog.to_monitor_type_entries();
    assert_eq!(entries.len(), 2);
    assert_eq!(entries[0].kind, MonitorKind::DesktopWindow);
    assert!(entries[0].core_startable && entries[0].core_managed && entries[0].available);
    assert_eq!(entries[0].start_policy, MonitorStartPolicy::CoreOnDemand);
    assert_eq!((entries[0].max_instances, entries[0].window_modes), (16, 7));
    assert_eq!(entries[1].kind, MonitorKind::GameBar);
    assert!(!entries[1].core_startable && !entries[1].core_managed && entries[1].available);
    assert_eq!((entries[1].max_instances, entries[1].window_modes), (2, 0));
}

#[test]
fn windows_are_launched_with_their_options() {
    let args = launch_arguments(&DesktopWindowLaunchOptions {
        request_id: 12,
        owner_app_id: 3,
        target_canvas_id: 4,
        mode: DesktopWindowMode::BorderlessFullscreen,
        flags: 1,
        x: -5,
        y: i32::MIN,
        w: 0,
        h: u32::MAX,
    });
    assert_eq!(
        args,
        vec![
            "--request-id",
            "12",
            "--owner-app-id",
            "3",
            "--target-canvas-id",
            "4",
            "--mode",
            "borderless-fullscreen",
            "--click-through",
            "1",
            "--x",
            "-5",
            "--y",
            "-2147483648",
            "--w",
            "0",
            "--h",
            "4294967295",
        ]
    );
}
