use overlay_engine::demo::{
    listed_types, next_slot, parse_demo_options, start_message, start_outcome, window_mode_label,
    DemoError, FIRST_SLOT, FRAME_SLOT, SLOTS_END,
};
use overlay_engine::frame::Bgra;
use overlay_engine::grid::{grid_colour, GridCell};
use overlay_engine::proto::{
    parse_meta, read_handle_u64, read_pid, write_handle_u64, write_pid, CanvasMeta,
};
use overlay_engine::protocol::{
    ControlMessage, DesktopWindowMode, MonitorRequestStatus, DESKTOP_WINDOW_FLAG_CLICK_THROUGH,
};
use overlay_engine::text::{
    contains_but_for_case, decimal_text, first_token, parse_i32, parse_u32, same_but_for_case,
    signed_decimal_text, split, split_once, trim, trim_char, trim_end_char,
};

fn words(list: &[&str]) -> Vec<String> {
    std::iter::once("program")
        .chain(list.iter().copied())
        .map(|s| s.to_string())
        .collect()
}

#[test]
fn demo_arguments_are_read() {
    let read = |list: &[&str]| parse_demo_options(&words(list));
    let o = read(&[
        "--unlocked",
        "--desktop-monitors",
        "3",
        "--window-mode",
        "borderless",
        "--click-through",
    ])
    .unwrap()
    .unwrap();
    assert!(o.unlocked && o.click_through);
    assert_eq!(o.desktop_monitors, 3);
    assert_eq!(o.window_mode, DesktopWindowMode::Borderless);
    assert!(matches!(read(&["--help"]), Ok(None)));
    assert!(matches!(read(&["--desktop-monitors"]), Err(DemoError::MissingCount)));
    assert!(matches!(read(&["--desktop-monitors", "x"]), Err(DemoError::BadCount)));
    assert!(matches!(read(&["--window-mode"]), Err(DemoError::MissingMode)));
    assert!(matches!(read(&["--window-mode", "x"]), Err(DemoError::UnknownMode)));
    assert!(matches!(read(&["--unlocked", "x"]), Err(DemoError::UnknownArgument(2))));
}

#[test]
fn demo_windows_are_started_and_answered() {
    let mut o = parse_demo_options(&words(&["--click-through"])).unwrap().unwrap();
    o.desktop_monitors = 0;
    assert_eq!(start_message(o, 4), None);
    o.desktop_monitors = 2;
    assert!(matches!(
        start_message(o, 4),
        Some(ControlMessage::StartMonitor {
            request_id: 4,
            count: 2,
            flags: DESKTOP_WINDOW_FLAG_CLICK_THROUGH,
            x: 100,
            y: 100,
            w: 720,
            h: 420,
            ..
        })
    ));
    let result = || ControlMessage::StartMonitorResult {
        request_id: 4,
        status: MonitorRequestStatus::Success,
        monitor_ids: vec![7],
    };
    assert_eq!(start_outcome(result(), 4), Some((MonitorRequestStatus::Success, vec![7])));
    assert_eq!(start_outcome(result(), 5), None);
    let types = || ControlMessage::MonitorTypes { request_id: 4, entries: vec![] };
    assert_eq!(listed_types(types(), 4), Some(vec![]));
    assert_eq!(listed_types(types(), 3), None);
    assert_eq!(window_mode_label(DesktopWindowMode::Bordered), "bordered");
}

#[test]
fn slots_follow_each_other_round() {
    assert_eq!(next_slot(FIRST_SLOT), FIRST_SLOT + FRAME_SLOT);
    let mut offset = FIRST_SLOT;
    let mut seen = 0;
    loop {
        assert!(offset < SLOTS_END);
        offset = next_slot(offset);
        seen += 1;
        if offset == FIRST_SLOT {
            break;
        }
    }
    assert_eq!(seen, 224);
}

#[test]
fn payloads_read_back() {
    let meta = CanvasMeta { logical_w: 1, logical_h: 2, render_w: 3, render_h: 0x0102_0304 };
    let payload = meta.to_payload(0x1122_3344_5566_7788);
    assert_eq!(payload[0..8], [0x88, 0x77, 0x66, 0x55, 0x44, 0x33, 0x22, 0x11]);
    assert_eq!(payload[20..24], [4, 3, 2, 1]);
    let (handle, read) = CanvasMeta::from_payload(payload);
    assert_eq!(handle, 0x1122_3344_5566_7788);
    assert_eq!(read, meta);
}

#[test]
fn identifiers_and_handles_read_back_before_what_follows() {
    let mut v = Vec::new();
    write_pid(&mut v, 0x0A0B_0C0D);
    assert_eq!(v, vec![0x0D, 0x0C, 0x0B, 0x0A]);
    assert_eq!(read_pid(&v), Some((0x0A0B_0C0D, &[][..])));
    write_handle_u64(&mut v, u64::MAX - 1);
    let (pid, rest) = read_pid(&v).unwrap();
    assert_eq!(pid, 0x0A0B_0C0D);
    assert_eq!(read_handle_u64(rest), Some((u64::MAX - 1, &[][..])));
    assert_eq!(read_pid(&v[..3]), None);
    assert_eq!(read_handle_u64(&v[..7]), None);
    assert_eq!(read_pid(&[1, 0, 0, 0, 9]), Some((1, &[9][..])));
}

#[test]
fn sizes_are_read_from_the_arguments() {
    let read = |list: &[&str]| {
        let m = parse_meta(&words(list), 1920, 1080);
        (m.logical_w, m.logical_h, m.render_w, m.render_h)
    };
    assert_eq!(read(&[]), (1920, 1080, 1920, 1080));
    assert_eq!(read(&["800", "600"]), (800, 600, 800, 600));
    assert_eq!(read(&["800", "x"]), (800, 1080, 800, 1080));
    assert_eq!(read(&["800", "600", "400", "x"]), (800, 600, 400, 600));
    assert_eq!(read(&["800"]), (1920, 1080, 1920, 1080));
}

#[test]
fn grid_lines_cover_the_ground() {
    let ground = GridCell {
        r: 240,
        g: 10,
        minor: false,
        major: false,
        upright: false,
        crossbar: false,
    };
    let colour = |c: GridCell| {
        let Bgra { b, g, r, a } = grid_colour(c);
        assert_eq!(a, 255);
        (r, g, b)
    };
    assert_eq!(colour(ground), (240, 10, 45));
    assert_eq!(colour(GridCell { minor: true, ..ground }), (255, 34, 69));
    assert_eq!(colour(GridCell { minor: true, major: true, ..ground }), (190, 190, 190));
    assert_eq!(colour(GridCell { major: true, upright: true, ..ground }), (255, 48, 48));
    assert_eq!(colour(GridCell { major: true, crossbar: true, ..ground }), (48, 255, 48));
    assert_eq!(colour(GridCell { upright: true, crossbar: true, ..ground }), (255, 255, 255));
}

#[test]
fn texts_are_trimmed_and_split() {
    for s in ["", "  ", " a b\t", "\u{3000}x\u{a0}", "\r\n=\"q\"", "a=b=c", "äÄ"] {
        assert_eq!(trim(s), s.trim());
        assert_eq!(trim_char(s, '"'), s.trim_matches('"'));
        assert_eq!(trim_end_char(s, ' '), s.trim_end_matches(' '));
        assert_eq!(first_token(s), s.split_whitespace().next());
        assert_eq!(split(s, '='), s.split('=').collect::<Vec<_>>());
        assert_eq!(split_once(s, '='), s.split_once('='));
    }
    assert!(same_but_for_case("Launch", "lAUNCH"));
    assert!(!same_but_for_case("ä", "Ä"));
    assert!(contains_but_for_case("xDESKTOPy", "desktop"));
    assert!(!contains_but_for_case("desk", "desktop"));
}

#[test]
fn numbers_read_back() {
    for n in [0u32, 1, 10, 99, u32::MAX] {
        assert_eq!(decimal_text(n as u64), n.to_string());
        assert_eq!(parse_u32(&n.to_string()), Some(n));
    }
    for n in [0i32, -1, 7, i32::MIN, i32::MAX] {
        assert_eq!(signed_decimal_text(n), n.to_string());
        assert_eq!(parse_i32(&n.to_string()), Some(n));
    }
    for s in ["", "-", "+", "-0", "+7", "007", " 1", "1 ", "4294967296", "2147483648", "1a", "٣"] {
        assert_eq!(parse_u32(s), s.parse::<u32>().ok(), "{s:?}");
        assert_eq!(parse_i32(s), s.parse::<i32>().ok(), "{s:?}");
    }
    assert_eq!(decimal_text(u64::MAX), u64::MAX.to_string());
}
