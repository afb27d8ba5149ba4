//! Which kinds of monitors are installed: the settings in the configuration file,
//! what apps are told of them, and how a desktop window is launched.

use vstd::prelude::*;

use crate::paths::{join, ResolvedPath};
use crate::protocol::{
    DesktopWindowMode, MonitorKind, MonitorStartPolicy, MonitorTypeEntry,
    DESKTOP_WINDOW_FLAG_CLICK_THROUGH, DESKTOP_WINDOW_MODE_BORDERED,
    DESKTOP_WINDOW_MODE_BORDERLESS, DESKTOP_WINDOW_MODE_BORDERLESS_FULLSCREEN,
};
use crate::text;
use crate::text::{
    contains_but_for_case, decimal_text, first_token, parse_u32, same, same_but_for_case,
    signed_decimal_text, split, split_once, trim, trim_char,
};

verus! {

/// The desktop window monitor, where it is installed.
#[derive(Debug, Clone, PartialEq, Eq)]
pub struct DesktopWindowCapability {
    pub path: ResolvedPath,
    pub max_instances_per_app: u32,
    pub window_modes: u32,
    pub flags: u32,
}

/// The Game Bar widget, where it is available.
#[derive(Debug, Clone, Copy, PartialEq, Eq, Structural)]
pub struct GameBarCapability {
    pub available: bool,
    pub max_instances: u32,
    pub start_policy: MonitorStartPolicy,
}

/// The kinds of monitors that are installed.
#[derive(Debug, Clone, PartialEq, Eq)]
pub struct MonitorCatalog {
    pub desktop_window: Option<DesktopWindowCapability>,
    pub game_bar: Option<GameBarCapability>,
}

/// How a desktop window is launched.
#[derive(Debug, Clone, Copy, PartialEq, Eq, Structural)]
pub struct DesktopWindowLaunchOptions {
    pub request_id: u32,
    pub owner_app_id: u32,
    pub target_canvas_id: u32,
    pub mode: DesktopWindowMode,
    pub flags: u32,
    pub x: i32,
    pub y: i32,
    pub w: u32,
    pub h: u32,
}

impl Default for MonitorCatalog {
    /// Nothing is installed.
    fn default() -> (r: Self)
        ensures
            r.desktop_window is None,
            r.game_bar is None,
    {
        MonitorCatalog { desktop_window: None, game_bar: None }
    }
}

/// What apps are told of the desktop window monitor.
pub open spec fn desktop_entry(d: DesktopWindowCapability) -> MonitorTypeEntry {
    MonitorTypeEntry {
        kind: MonitorKind::DesktopWindow,
        available: true,
        start_policy: MonitorStartPolicy::CoreOnDemand,
        core_startable: true,
        core_managed: true,
        max_instances: d.max_instances_per_app,
        window_modes: d.window_modes,
        flags: d.flags,
    }
}

/// What apps are told of the Game Bar widget.
pub open spec fn game_bar_entry(g: GameBarCapability) -> MonitorTypeEntry {
    MonitorTypeEntry {
        kind: MonitorKind::GameBar,
        available: g.available,
        start_policy: g.start_policy,
        core_startable: false,
        core_managed: false,
        max_instances: g.max_instances,
        window_modes: 0,
        flags: 0,
    }
}

impl MonitorCatalog {
    /// What apps are told of the catalog.
    pub open spec fn entries(self) -> Seq<MonitorTypeEntry> {
        (match self.desktop_window {
            Some(d) => seq![desktop_entry(d)],
            None => seq![],
        }) + (match self.game_bar {
            Some(g) => seq![game_bar_entry(g)],
            None => seq![],
        })
    }

    /// What apps are told of the catalog.
    pub fn to_monitor_type_entries(&self) -> (r: Vec<MonitorTypeEntry>)
        ensures
            r@ == self.entries(),
    {
        let mut entries: Vec<MonitorTypeEntry> = Vec::new();
        if let Some(desktop) = &self.desktop_window {
            entries.push(
                MonitorTypeEntry {
                    kind: MonitorKind::DesktopWindow,
                    available: true,
                    start_policy: MonitorStartPolicy::CoreOnDemand,
                    core_startable: true,
                    core_managed: true,
                    max_instances: desktop.max_instances_per_app,
                    window_modes: desktop.window_modes,
                    flags: desktop.flags,
                },
            );
        }
        if let Some(game_bar) = &self.game_bar {
            entries.push(
                MonitorTypeEntry {
                    kind: MonitorKind::GameBar,
                    available: game_bar.available,
                    start_policy: game_bar.start_policy,
                    core_startable: false,
                    core_managed: false,
                    max_instances: game_bar.max_instances,
                    window_modes: 0,
                    flags: 0,
                },
            );
        }
        assert(entries@ =~= self.entries());
        entries
    }
}

/// A setting of the configuration: its key and its value. Blank lines, comments
/// and lines without `=` hold none.
pub open spec fn setting_of(line: Seq<char>) -> Option<(Seq<char>, Seq<char>)> {
    let t = text::trimmed(line);
    let at = text::first_index(t, '=');
    if t.len() == 0 || t[0] == '#' || t[0] == ';' || at >= t.len() {
        None
    } else {
        Some((text::trimmed(t.take(at)), text::trimmed(t.skip(at + 1))))
    }
}

/// The bit of the window mode with that name; none for another name.
pub open spec fn mode_named(name: Seq<char>) -> u32 {
    if text::same_ignoring_case(name, "bordered"@) {
        DESKTOP_WINDOW_MODE_BORDERED
    } else if text::same_ignoring_case(name, "borderless"@) {
        DESKTOP_WINDOW_MODE_BORDERLESS
    } else if text::same_ignoring_case(name, "borderless-fullscreen"@) || text::same_ignoring_case(
        name,
        "fullscreen"@,
    ) {
        DESKTOP_WINDOW_MODE_BORDERLESS_FULLSCREEN
    } else {
        0
    }
}

/// The bits of the window modes that are named in a list.
pub open spec fn modes_named(names: Seq<Seq<char>>) -> u32
    decreases names.len(),
{
    if names.len() == 0 {
        0
    } else {
        modes_named(names.drop_last()) | mode_named(text::trimmed(names.last()))
    }
}

/// The flag with that name; none for another name.
pub open spec fn flag_named(name: Seq<char>) -> u32 {
    if text::same_ignoring_case(name, "click-through"@) || text::same_ignoring_case(
        name,
        "clickthrough"@,
    ) {
        DESKTOP_WINDOW_FLAG_CLICK_THROUGH
    } else {
        0
    }
}

/// The flags that are named in a list.
pub open spec fn flags_named(names: Seq<Seq<char>>) -> u32
    decreases names.len(),
{
    if names.len() == 0 {
        0
    } else {
        flags_named(names.drop_last()) | flag_named(text::trimmed(names.last()))
    }
}

/// Whether a value says yes.
pub open spec fn says_yes(value: Seq<char>) -> bool {
    text::same_ignoring_case(value, "true"@) || value == "1"@ || text::same_ignoring_case(
        value,
        "yes"@,
    )
}

/// A count that a value gives: at least one, and `before` where the value is none.
pub open spec fn count_given(value: Seq<char>, before: u32) -> u32 {
    let n = match text::u32_value(value) {
        Some(n) => n,
        None => before,
    };
    if n == 0 {
        1
    } else {
        n
    }
}

/// A path as a value gives it: without quotation marks around it.
pub open spec fn unquoted(value: Seq<char>) -> Seq<char> {
    text::without_trailing(text::without_leading(value, '"'), '"')
}

/// What the configuration says. Paths are as they were written, without quotation
/// marks.
#[derive(Debug)]
pub struct CatalogSettings {
    pub desktop_path: Option<String>,
    /// The program of a launch line, from which the desktop window's path is taken
    /// where it has no setting of its own.
    pub launch_path: Option<String>,
    pub desktop_max: u32,
    pub desktop_modes: u32,
    pub desktop_flags: u32,
    pub game_bar_available: bool,
    pub game_bar_max: u32,
    pub game_bar_policy: MonitorStartPolicy,
}

/// What the configuration says, as a mathematical value.
#[verifier::ext_equal]
pub struct SettingsView {
    pub desktop_path: Option<Seq<char>>,
    pub launch_path: Option<Seq<char>>,
    pub desktop_max: u32,
    pub desktop_modes: u32,
    pub desktop_flags: u32,
    pub game_bar_available: bool,
    pub game_bar_max: u32,
    pub game_bar_policy: MonitorStartPolicy,
}

/// What an optional text holds.
pub open spec fn text_of(t: Option<String>) -> Option<Seq<char>> {
    match t {
        Some(s) => Some(s@),
        None => None,
    }
}

impl View for CatalogSettings {
    type V = SettingsView;

    open spec fn view(&self) -> SettingsView {
        SettingsView {
            desktop_path: text_of(self.desktop_path),
            launch_path: text_of(self.launch_path),
            desktop_max: self.desktop_max,
            desktop_modes: self.desktop_modes,
            desktop_flags: self.desktop_flags,
            game_bar_available: self.game_bar_available,
            game_bar_max: self.game_bar_max,
            game_bar_policy: self.game_bar_policy,
        }
    }
}

impl SettingsView {
    /// What an empty configuration says.
    pub open spec fn initial() -> SettingsView {
        SettingsView {
            desktop_path: None,
            launch_path: None,
            desktop_max: 16,
            desktop_modes: 7,
            desktop_flags: 0,
            game_bar_available: false,
            game_bar_max: 1,
            game_bar_policy: MonitorStartPolicy::UserManual,
        }
    }

    /// What it says with one setting more.
    pub open spec fn with_setting(self, key: Seq<char>, value: Seq<char>) -> SettingsView {
        if text::same_ignoring_case(key, "Launch"@) {
            if text::contains_ignoring_case(value, "desktop-window-monitor"@) {
                SettingsView {
                    launch_path: if text::first_word(value).len() > 0 {
                        Some(unquoted(text::first_word(value)))
                    } else {
                        None
                    },
                    ..self
                }
            } else {
                self
            }
        } else if text::same_ignoring_case(key, "Monitor.DesktopWindow.Path"@) {
            if value.len() > 0 {
                SettingsView { desktop_path: Some(unquoted(value)), ..self }
            } else {
                self
            }
        } else if text::same_ignoring_case(key, "Monitor.DesktopWindow.MaxInstancesPerApp"@) {
            SettingsView { desktop_max: count_given(value, self.desktop_max), ..self }
        } else if text::same_ignoring_case(key, "Monitor.DesktopWindow.WindowModes"@) {
            SettingsView { desktop_modes: modes_named(text::pieces(value, ',')), ..self }
        } else if text::same_ignoring_case(key, "Monitor.DesktopWindow.Flags"@) {
            SettingsView { desktop_flags: flags_named(text::pieces(value, ',')), ..self }
        } else if text::same_ignoring_case(key, "Monitor.GameBar.Available"@) {
            SettingsView { game_bar_available: says_yes(value), ..self }
        } else if text::same_ignoring_case(key, "Monitor.GameBar.MaxInstances"@) {
            SettingsView { game_bar_max: count_given(value, self.game_bar_max), ..self }
        } else if text::same_ignoring_case(key, "Monitor.GameBar.StartPolicy"@) {
            SettingsView {
                game_bar_policy: if text::same_ignoring_case(value, "core-on-demand"@) {
                    MonitorStartPolicy::CoreOnDemand
                } else {
                    MonitorStartPolicy::UserManual
                },
                ..self
            }
        } else {
            self
        }
    }

    /// What it says with one line more.
    pub open spec fn with_line(self, line: Seq<char>) -> SettingsView {
        match setting_of(line) {
            Some((key, value)) => self.with_setting(key, value),
            None => self,
        }
    }

    /// The path of the desktop window monitor, as it was written.
    pub open spec fn path(self) -> Option<Seq<char>> {
        match self.desktop_path {
            Some(p) => Some(p),
            None => self.launch_path,
        }
    }
}

/// What lines of a configuration say: a later line overrides an earlier one.
pub open spec fn settings_of(lines: Seq<Seq<char>>) -> SettingsView
    decreases lines.len(),
{
    if lines.len() == 0 {
        SettingsView::initial()
    } else {
        settings_of(lines.drop_last()).with_line(lines.last())
    }
}

/// The bits of the window modes that a list names.
pub fn parse_window_modes(value: &str) -> (r: u32)
    ensures
        r == modes_named(text::pieces(value@, ',')),
{
    let parts = split(value, ',');
    let ghost names = text::pieces(value@, ',');
    let mut modes: u32 = 0;
    let mut i: usize = 0;
    while i < parts.len()
        invariant
            i <= parts@.len(),
            text::contents(parts@) == names,
            modes == modes_named(names.take(i as int)),
        decreases parts@.len() - i,
    {
        assert(names.take(i + 1).drop_last() =~= names.take(i as int));
        assert(names[i as int] == parts@[i as int]@);
        let part = trim(parts[i]);
        let ghost before = modes;
        if same_but_for_case(part, "bordered") {
            modes = modes | DESKTOP_WINDOW_MODE_BORDERED;
        } else if same_but_for_case(part, "borderless") {
            modes = modes | DESKTOP_WINDOW_MODE_BORDERLESS;
        } else if same_but_for_case(part, "borderless-fullscreen") || same_but_for_case(
            part,
            "fullscreen",
        ) {
            modes = modes | DESKTOP_WINDOW_MODE_BORDERLESS_FULLSCREEN;
        } else {
            assert(before | 0 == before) by (bit_vector);
        }
        i = i + 1;
    }
    assert(names.take(i as int) =~= names);
    modes
}

/// The flags that a list names.
pub fn parse_desktop_flags(value: &str) -> (r: u32)
    ensures
        r == flags_named(text::pieces(value@, ',')),
{
    let parts = split(value, ',');
    let ghost names = text::pieces(value@, ',');
    let mut flags: u32 = 0;
    let mut i: usize = 0;
    while i < parts.len()
        invariant
            i <= parts@.len(),
            text::contents(parts@) == names,
            flags == flags_named(names.take(i as int)),
        decreases parts@.len() - i,
    {
        assert(names.take(i + 1).drop_last() =~= names.take(i as int));
        assert(names[i as int] == parts@[i as int]@);
        let part = trim(parts[i]);
        let ghost before = flags;
        if same_but_for_case(part, "click-through") || same_but_for_case(part, "clickthrough") {
            flags = flags | DESKTOP_WINDOW_FLAG_CLICK_THROUGH;
        } else {
            assert(before | 0 == before) by (bit_vector);
        }
        i = i + 1;
    }
    assert(names.take(i as int) =~= names);
    flags
}

/// Whether a value says yes.
pub fn parse_bool(value: &str) -> (r: bool)
    ensures
        r == says_yes(value@),
{
    same_but_for_case(value, "true") || same(value, "1") || same_but_for_case(value, "yes")
}

/// The count that a value gives.
fn parse_count(value: &str, before: u32) -> (r: u32)
    ensures
        r == count_given(value@, before),
{
    let n: u32 = match parse_u32(value) {
        Some(n) => n,
        None => before,
    };
    if n == 0 {
        1
    } else {
        n
    }
}

impl CatalogSettings {
    /// What an empty configuration says.
    pub fn new() -> (r: Self)
        ensures
            r@ == SettingsView::initial(),
    {
        CatalogSettings {
            desktop_path: None,
            launch_path: None,
            desktop_max: 16,
            desktop_modes: 7,
            desktop_flags: 0,
            game_bar_available: false,
            game_bar_max: 1,
            game_bar_policy: MonitorStartPolicy::UserManual,
        }
    }

    /// Enters a setting.
    fn set(&mut self, key: &str, value: &str)
        ensures
            final(self)@ == old(self)@.with_setting(key@, value@),
    {
        if same_but_for_case(key, "Launch") {
            if contains_but_for_case(value, "desktop-window-monitor") {
                self.launch_path =
                match first_token(value) {
                    Some(token) => Some(trim_char(token, '"').to_owned()),
                    None => None,
                };
            }
        } else if same_but_for_case(key, "Monitor.DesktopWindow.Path") {
            if value.unicode_len() > 0 {
                self.desktop_path = Some(trim_char(value, '"').to_owned());
            }
        } else if same_but_for_case(key, "Monitor.DesktopWindow.MaxInstancesPerApp") {
            self.desktop_max = parse_count(value, self.desktop_max);
        } else if same_but_for_case(key, "Monitor.DesktopWindow.WindowModes") {
            self.desktop_modes = parse_window_modes(value);
        } else if same_but_for_case(key, "Monitor.DesktopWindow.Flags") {
            self.desktop_flags = parse_desktop_flags(value);
        } else if same_but_for_case(key, "Monitor.GameBar.Available") {
            self.game_bar_available = parse_bool(value);
        } else if same_but_for_case(key, "Monitor.GameBar.MaxInstances") {
            self.game_bar_max = parse_count(value, self.game_bar_max);
        } else if same_but_for_case(key, "Monitor.GameBar.StartPolicy") {
            self.game_bar_policy =
            if same_but_for_case(value, "core-on-demand") {
                MonitorStartPolicy::CoreOnDemand
            } else {
                MonitorStartPolicy::UserManual
            };
        }
    }

    /// Enters a line of a configuration.
    fn read_line(&mut self, line: &str)
        ensures
            final(self)@ == old(self)@.with_line(line@),
    {
        let line = trim(line);
        if line.unicode_len() == 0 {
            return;
        }
        let first = line.get_char(0);
        if first == '#' || first == ';' {
            return;
        }
        if let Some((key, value)) = split_once(line, '=') {
            self.set(trim(key), trim(value));
        }
    }
}

/// What a configuration says. Lines end at line feeds; a carriage return before one
/// is a space at the line's end like any other.
pub fn parse_settings(content: &str) -> (r: CatalogSettings)
    ensures
        r@ == settings_of(text::pieces(content@, '\n')),
{
    let lines = split(content, '\n');
    let ghost all = text::pieces(content@, '\n');
    let mut settings = CatalogSettings::new();
    let mut i: usize = 0;
    while i < lines.len()
        invariant
            i <= lines@.len(),
            text::contents(lines@) == all,
            settings@ == settings_of(all.take(i as int)),
        decreases lines@.len() - i,
    {
        assert(all.take(i + 1).drop_last() =~= all.take(i as int));
        assert(all[i as int] == lines@[i as int]@);
        settings.read_line(lines[i]);
        i = i + 1;
    }
    assert(all.take(i as int) =~= all);
    settings
}

impl CatalogSettings {
    /// The path of the desktop window monitor, as it was written: that of its own
    /// setting, and that of a launch line only where there is no such setting.
    pub fn monitor_path(&self) -> (r: Option<&str>)
        ensures
            r is Some <==> self@.path() is Some,
            r matches Some(p) ==> self@.path() == Some(p@),
    {
        match &self.desktop_path {
            Some(path) => Some(path.as_str()),
            None => match &self.launch_path {
                Some(path) => Some(path.as_str()),
                None => None,
            },
        }
    }
}

/// The catalog that settings make, where `path` is where the desktop window
/// monitor's path leads.
pub fn catalog_of(settings: &CatalogSettings, path: Option<ResolvedPath>) -> (r: MonitorCatalog)
    ensures
        r.desktop_window is Some <==> path is Some,
        r.desktop_window matches Some(d) ==> {
            &&& d.path == path->0
            &&& d.max_instances_per_app == settings.desktop_max
            &&& d.window_modes == settings.desktop_modes
            &&& d.flags == settings.desktop_flags
        },
        r.game_bar == (if settings.game_bar_available {
            Some(
                GameBarCapability {
                    available: true,
                    max_instances: settings.game_bar_max,
                    start_policy: settings.game_bar_policy,
                },
            )
        } else {
            None
        }),
{
    let desktop_window = match path {
        Some(path) => Some(
            DesktopWindowCapability {
                path,
                max_instances_per_app: settings.desktop_max,
                window_modes: settings.desktop_modes,
                flags: settings.desktop_flags,
            },
        ),
        None => None,
    };
    let game_bar = if settings.game_bar_available {
        Some(
            GameBarCapability {
                available: true,
                max_instances: settings.game_bar_max,
                start_policy: settings.game_bar_policy,
            },
        )
    } else {
        None
    };
    MonitorCatalog { desktop_window, game_bar }
}

/// The catalog of a configuration that lies in the directory `config_dir`, against
/// which the desktop window monitor's path is resolved. Where that leads depends on
/// the system; all else is given by the configuration.
pub fn parse_monitor_catalog(content: &str, config_dir: &str) -> (r: MonitorCatalog)
    ensures
        ({
            let settings = settings_of(text::pieces(content@, '\n'));
            &&& r.desktop_window is Some <==> settings.path() is Some
            &&& r.desktop_window matches Some(d) ==> {
                &&& settings.path() == Some(d.path.written())
                &&& d.path.base() == config_dir@
                &&& d.max_instances_per_app == settings.desktop_max
                &&& d.window_modes == settings.desktop_modes
                &&& d.flags == settings.desktop_flags
            }
            &&& r.game_bar == (if settings.game_bar_available {
                Some(
                    GameBarCapability {
                        available: true,
                        max_instances: settings.game_bar_max,
                        start_policy: settings.game_bar_policy,
                    },
                )
            } else {
                None
            })
        }),
{
    let settings = parse_settings(content);
    let path = match settings.monitor_path() {
        Some(path) => Some(join(config_dir, path)),
        None => None,
    };
    catalog_of(&settings, path)
}

/// The arguments of a desktop window's command line.
pub open spec fn launch_words(o: DesktopWindowLaunchOptions) -> Seq<Seq<char>> {
    seq![
        "--request-id"@,
        text::decimal(o.request_id as nat),
        "--owner-app-id"@,
        text::decimal(o.owner_app_id as nat),
        "--target-canvas-id"@,
        text::decimal(o.target_canvas_id as nat),
        "--mode"@,
        o.mode.name(),
        "--click-through"@,
        if o.flags & DESKTOP_WINDOW_FLAG_CLICK_THROUGH != 0 {
            "1"@
        } else {
            "0"@
        },
        "--x"@,
        text::signed_decimal(o.x as int),
        "--y"@,
        text::signed_decimal(o.y as int),
        "--w"@,
        text::decimal(o.w as nat),
        "--h"@,
        text::decimal(o.h as nat),
    ]
}

/// The arguments of a desktop window's command line.
pub fn launch_arguments(o: &DesktopWindowLaunchOptions) -> (r: Vec<String>)
    ensures
        text::string_contents(r@) == launch_words(*o),
{
    let mut args: Vec<String> = Vec::new();
    args.push("--request-id".to_owned());
    args.push(decimal_text(o.request_id as u64));
    args.push("--owner-app-id".to_owned());
    args.push(decimal_text(o.owner_app_id as u64));
    args.push("--target-canvas-id".to_owned());
    args.push(decimal_text(o.target_canvas_id as u64));
    args.push("--mode".to_owned());
    args.push(o.mode.cli_value().to_owned());
    args.push("--click-through".to_owned());
    if o.flags & DESKTOP_WINDOW_FLAG_CLICK_THROUGH != 0 {
        args.push("1".to_owned());
    } else {
        args.push("0".to_owned());
    }
    args.push("--x".to_owned());
    args.push(signed_decimal_text(o.x));
    args.push("--y".to_owned());
    args.push(signed_decimal_text(o.y));
    args.push("--w".to_owned());
    args.push(decimal_text(o.w as u64));
    args.push("--h".to_owned());
    args.push(decimal_text(o.h as u64));
    assert(text::string_contents(args@) =~= launch_words(*o));
    args
}

/// A line that holds no setting changes nothing.
pub proof fn comments_say_nothing(s: SettingsView, line: Seq<char>)
    requires
        text::trimmed(line).len() > 0 ==> text::trimmed(line)[0] == '#' || text::trimmed(line)[0]
            == ';' || text::first_index(text::trimmed(line), '=') >= text::trimmed(line).len(),
    ensures
        s.with_line(line) == s,
{
}

/// The path that a line gives as the desktop window monitor's own setting.
pub open spec fn own_path(line: Seq<char>) -> Option<Seq<char>> {
    match setting_of(line) {
        Some((key, value)) => if text::same_ignoring_case(key, "Monitor.DesktopWindow.Path"@)
            && value.len() > 0 {
            Some(unquoted(value))
        } else {
            None
        },
        None => None,
    }
}

/// Whether a line launches the desktop window monitor.
pub open spec fn launches(line: Seq<char>) -> bool {
    match setting_of(line) {
        Some((key, value)) => text::same_ignoring_case(key, "Launch"@)
            && text::contains_ignoring_case(value, "desktop-window-monitor"@),
        None => false,
    }
}

/// The two settings that give a path are told apart, and what a line does to the two
/// paths.
proof fn line_paths(s: SettingsView, line: Seq<char>)
    ensures
        own_path(line) is Some ==> s.with_line(line).desktop_path == own_path(line),
        own_path(line) is None ==> s.with_line(line).desktop_path == s.desktop_path,
        launches(line) ==> s.with_line(line).launch_path is Some,
        !launches(line) ==> s.with_line(line).launch_path == s.launch_path,
{
    reveal_strlit("Launch");
    reveal_strlit("Monitor.DesktopWindow.Path");
    reveal_strlit("desktop-window-monitor");
    if launches(line) {
        let (_, value) = setting_of(line)->0;
        let part = "desktop-window-monitor"@;
        let i = choose|i: int|
            0 <= i <= value.len() - part.len() && text::same_ignoring_case(
                #[trigger] value.subrange(i, i + part.len()),
                part,
            );
        assert(value.subrange(i, i + part.len())[0] == value[i]);
        assert(text::ascii_lower(value[i]) == 'd');
        text::words_are_found(value, i);
    }
}

/// The desktop window monitor's own setting wins over a launch line, wherever the two
/// stand: the last line that gives such a setting decides.
pub proof fn own_paths_win(lines: Seq<Seq<char>>, i: int)
    requires
        0 <= i < lines.len(),
        own_path(lines[i]) is Some,
        forall|j: int| i < j < lines.len() ==> own_path(#[trigger] lines[j]) is None,
    ensures
        settings_of(lines).path() == own_path(lines[i]),
    decreases lines.len(),
{
    let before = lines.drop_last();
    line_paths(settings_of(before), lines.last());
    if i < lines.len() - 1 {
        assert(before[i] == lines[i]);
        assert forall|j: int| i < j < before.len() implies own_path(#[trigger] before[j]) is None by {
            assert(before[j] == lines[j]);
        }
        own_paths_win(before, i);
        own_path_is_kept(before, i);
    }
}

/// Lines that give a path as the monitor's own setting make one.
proof fn own_path_is_kept(lines: Seq<Seq<char>>, i: int)
    requires
        0 <= i < lines.len(),
        own_path(lines[i]) is Some,
    ensures
        settings_of(lines).desktop_path is Some,
    decreases lines.len(),
{
    line_paths(settings_of(lines.drop_last()), lines.last());
    if i < lines.len() - 1 {
        own_path_is_kept(lines.drop_last(), i);
    }
}

/// The desktop window monitor is installed exactly where a line gives its path or
/// launches it.
pub proof fn paths_come_from_their_lines(lines: Seq<Seq<char>>)
    ensures
        settings_of(lines).path() is Some <==> exists|i: int|
            0 <= i < lines.len() && (own_path(#[trigger] lines[i]) is Some || launches(lines[i])),
    decreases lines.len(),
{
    if lines.len() > 0 {
        let before = lines.drop_last();
        line_paths(settings_of(before), lines.last());
        paths_come_from_their_lines(before);
        if settings_of(before).path() is Some {
            let i = choose|i: int|
                0 <= i < before.len() && (own_path(#[trigger] before[i]) is Some || launches(
                    before[i],
                ));
            assert(lines[i] == before[i]);
        }
        if settings_of(lines).path() is Some && settings_of(before).path() is None {
            assert(own_path(lines[lines.len() - 1]) is Some || launches(lines[lines.len() - 1]));
        }
        if exists|i: int|
            0 <= i < lines.len() && (own_path(#[trigger] lines[i]) is Some || launches(lines[i])) {
            let i = choose|i: int|
                0 <= i < lines.len() && (own_path(#[trigger] lines[i]) is Some || launches(
                    lines[i],
                ));
            if i < before.len() {
                assert(before[i] == lines[i]);
            }
        }
    }
}

/// However the configuration is written, an app may have at least one monitor of
/// each kind.
pub proof fn limits_are_positive(lines: Seq<Seq<char>>)
    ensures
        settings_of(lines).desktop_max >= 1,
        settings_of(lines).game_bar_max >= 1,
    decreases lines.len(),
{
    if lines.len() > 0 {
        limits_are_positive(lines.drop_last());
    }
}

/// Only modes and flags that there are can be set.
pub proof fn modes_and_flags_are_known(lines: Seq<Seq<char>>)
    ensures
        settings_of(lines).desktop_modes & !7u32 == 0,
        settings_of(lines).desktop_flags & !1u32 == 0,
    decreases lines.len(),
{
    assert(7u32 & !7u32 == 0 && 0u32 & !1u32 == 0) by (bit_vector);
    if lines.len() > 0 {
        modes_and_flags_are_known(lines.drop_last());
        if let Some((key, value)) = setting_of(lines.last()) {
            named_modes_are_known(text::pieces(value, ','));
            named_flags_are_known(text::pieces(value, ','));
        }
    }
}

proof fn named_modes_are_known(names: Seq<Seq<char>>)
    ensures
        modes_named(names) & !7u32 == 0,
    decreases names.len(),
{
    if names.len() == 0 {
        assert(0u32 & !7u32 == 0) by (bit_vector);
    } else {
        named_modes_are_known(names.drop_last());
        let a = modes_named(names.drop_last());
        let b = mode_named(text::trimmed(names.last()));
        assert((a | b) & !7u32 == 0) by (bit_vector)
            requires
                a & !7u32 == 0,
                b == 0 || b == 1 || b == 2 || b == 4,
        ;
    }
}

proof fn named_flags_are_known(names: Seq<Seq<char>>)
    ensures
        flags_named(names) & !1u32 == 0,
    decreases names.len(),
{
    if names.len() == 0 {
        assert(0u32 & !1u32 == 0) by (bit_vector);
    } else {
        named_flags_are_known(names.drop_last());
        let a = flags_named(names.drop_last());
        let b = flag_named(text::trimmed(names.last()));
        assert((a | b) & !1u32 == 0) by (bit_vector)
            requires
                a & !1u32 == 0,
                b == 0 || b == 1,
        ;
    }
}

} // verus!
