use overlay_engine::title::{format_window_title, AttachState};

#[test]
fn connecting_is_exactly_the_initial_create_window_title() {
    assert_eq!(
        format_window_title(AttachState::Connecting),
        "Desktop Monitor - connecting..."
    );
}

#[test]
fn attached_world_only_contains_canvas_id_and_world_only_marker() {
    assert_eq!(
        format_window_title(AttachState::Attached { canvas_id: 7, ml: false }),
        "Desktop Monitor - canvas 7 (world only)"
    );
}

#[test]
fn attached_dual_visual_contains_canvas_id_and_both_space_markers() {
    assert_eq!(
        format_window_title(AttachState::Attached { canvas_id: 42, ml: true }),
        "Desktop Monitor - canvas 42 (world + monitor_local)"
    );
}

#[test]
fn reconnecting_has_its_own_distinct_suffix() {
    assert_eq!(
        format_window_title(AttachState::Reconnecting),
        "Desktop Monitor - reconnecting..."
    );
}

#[test]
fn every_variant_keeps_the_desktop_monitor_prefix() {
    let cases = [
        AttachState::Connecting,
        AttachState::Attached { canvas_id: 0, ml: false },
        AttachState::Attached { canvas_id: 1, ml: true },
        AttachState::Reconnecting,
    ];
    for state in cases {
        let s = format_window_title(state);
        assert!(
            s.starts_with("Desktop Monitor - "),
            "state={state:?} title={s:?} lost the common prefix"
        );
    }
}

#[test]
fn attached_never_contains_connecting_or_reconnecting_substring() {
    for ml in [false, true] {
        for canvas_id in [0u32, 1, 42, u32::MAX] {
            let s = format_window_title(AttachState::Attached { canvas_id, ml });
            assert!(
                !s.contains("connecting..."),
                "Attached title {s:?} still contains `connecting...`"
            );
            assert!(!s.contains("reconnecting"), "Attached title {s:?} leaks `reconnecting`");
        }
    }
}

#[test]
fn dual_visual_marker_only_appears_when_ml_is_true() {
    let world_only = format_window_title(AttachState::Attached { canvas_id: 1, ml: false });
    let dual_visual = format_window_title(AttachState::Attached { canvas_id: 1, ml: true });

    assert!(!world_only.contains("monitor_local"));
    assert!(dual_visual.contains("monitor_local"));
    assert!(dual_visual.contains("world +"));
}

#[test]
fn connecting_and_reconnecting_are_distinguishable() {
    let c = format_window_title(AttachState::Connecting);
    let r = format_window_title(AttachState::Reconnecting);
    assert_ne!(c, r);
    assert!(c.contains("connecting..."));
    assert!(!c.contains("reconnecting"));
    assert!(r.contains("reconnecting..."));
}

#[test]
fn titles_tell_canvases_apart() {
    let title = |canvas_id: u32, ml: bool| {
        format_window_title(AttachState::Attached { canvas_id, ml })
    };
    assert_ne!(title(1, false), title(11, false));
    assert_ne!(title(1, false), title(1, true));
    assert_eq!(title(u32::MAX, false), "Desktop Monitor - canvas 4294967295 (world only)");
}
