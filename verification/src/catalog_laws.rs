//! What the monitor catalog's settings mean, and how monitors are listed and
//! launched.

use vstd::prelude::*;

use crate::catalog;
use crate::catalog::{
    CatalogSettings, DesktopWindowLaunchOptions, MonitorCatalog, SettingsView,
};
use crate::paths::ResolvedPath;
use crate::protocol::MonitorTypeEntry;
use crate::text;
use crate::text_laws;

verus! {

/// Every setting is read under its own name.
pub proof fn settings_keep_every_field(s: CatalogSettings)
    ensures
        s.desktop_path matches Some(p) ==> s@.desktop_path == Some(p@),
        s.desktop_path is None ==> s@.desktop_path is None,
        s.launch_path matches Some(p) ==> s@.launch_path == Some(p@),
        s.launch_path is None ==> s@.launch_path is None,
        s@.desktop_max == s.desktop_max,
        s@.desktop_modes == s.desktop_modes,
        s@.desktop_flags == s.desktop_flags,
        s@.game_bar_available == s.game_bar_available,
        s@.game_bar_max == s.game_bar_max,
        s@.game_bar_policy == s.game_bar_policy,
{
}

/// Where nothing is set, no monitor is installed; a desktop window that is could
/// be opened sixteen times by an app, in all three modes and without flags, and a
/// widget once, by hand. Lines are followed in their order.
pub proof fn lines_are_followed_in_order(lines: Seq<Seq<char>>, line: Seq<char>)
    ensures
        catalog::settings_of(lines.push(line)) == catalog::settings_of(lines).with_line(line),
        ({
            let s = catalog::settings_of(seq![]);
            &&& s.desktop_path is None
            &&& s.launch_path is None
            &&& s.desktop_max == 16
            &&& s.desktop_modes == 7
            &&& s.desktop_flags == 0
            &&& !s.game_bar_available
            &&& s.game_bar_max == 1
            &&& s.game_bar_policy is UserManual
        }),
{
    assert(lines.push(line).drop_last() =~= lines);
}

/// A line sets what stands before its first equals sign to what stands behind it,
/// both without the white space around them. An empty line, a comment and a line
/// without an equals sign set nothing.
pub proof fn lines_set_a_key_to_a_value(s: SettingsView, line: Seq<char>, at: int)
    ensures
        ({
            let t = text::trimmed(line);
            let comment = t.len() > 0 && (t[0] == '#' || t[0] == ';');
            &&& t.len() == 0 || comment || !t.contains('=') ==> s.with_line(line) == s
            &&& !comment && 0 <= at < t.len() && t[at] == '=' && !t.take(at).contains('=')
                ==> s.with_line(line) == s.with_setting(
                text::trimmed(t.take(at)),
                text::trimmed(t.skip(at + 1)),
            )
        }),
{
    let t = text::trimmed(line);
    text::first_index_is_first(t, '=');
    let first = text::first_index(t, '=');
    if first < t.len() {
        assert(t.contains(t[first]));
    }
    if 0 <= at < t.len() && t[at] == '=' && !t.take(at).contains('=') {
        assert forall|i: int| 0 <= i < at implies #[trigger] t[i] != '=' by {
            assert(t.take(at)[i] == t[i]);
        }
        text::first_index_is(t, '=', at);
    }
}

/// Each key sets its own setting, whatever its case, and no other. A limit that is
/// no number stays what it was, and none is below one. The path of a monitor is set
/// by a value that is not empty, without the quotes around it; a launch line counts
/// where it names the desktop monitor's program, and sets its first word. Any other
/// key sets nothing.
pub proof fn keys_set_their_own_setting(s: SettingsView, key: Seq<char>, value: Seq<char>)
    ensures
        ({
            let r = s.with_setting(key, value);
            let n = text::u32_value(value);
            let word = text::first_word(value);
            &&& text::same_ignoring_case(key, "Monitor.DesktopWindow.Path"@) && value.len() > 0 ==> r
                == (SettingsView { desktop_path: Some(catalog::unquoted(value)), ..s })
            &&& text::same_ignoring_case(key, "Monitor.DesktopWindow.Path"@) && value.len() == 0
                ==> r == s
            &&& text::same_ignoring_case(key, "Launch"@) && !text::contains_ignoring_case(
                value,
                "desktop-window-monitor"@,
            ) ==> r == s
            &&& text::same_ignoring_case(key, "Launch"@) && text::contains_ignoring_case(
                value,
                "desktop-window-monitor"@,
            ) && word.len() > 0 ==> r == (SettingsView {
                launch_path: Some(catalog::unquoted(word)),
                ..s
            })
            &&& text::same_ignoring_case(key, "Monitor.DesktopWindow.MaxInstancesPerApp"@) ==> {
                &&& r == (SettingsView { desktop_max: r.desktop_max, ..s })
                &&& r.desktop_max >= 1
                &&& n matches Some(x) ==> x > 0 ==> r.desktop_max == x
                &&& n == Some(0u32) ==> r.desktop_max == 1
                &&& n is None && s.desktop_max > 0 ==> r.desktop_max == s.desktop_max
            }
            &&& text::same_ignoring_case(key, "Monitor.GameBar.MaxInstances"@) ==> {
                &&& r == (SettingsView { game_bar_max: r.game_bar_max, ..s })
                &&& r.game_bar_max >= 1
                &&& n matches Some(x) ==> x > 0 ==> r.game_bar_max == x
                &&& n == Some(0u32) ==> r.game_bar_max == 1
                &&& n is None && s.game_bar_max > 0 ==> r.game_bar_max == s.game_bar_max
            }
            &&& text::same_ignoring_case(key, "Monitor.DesktopWindow.WindowModes"@) ==> r == (
            SettingsView { desktop_modes: catalog::modes_named(text::pieces(value, ',')), ..s })
            &&& text::same_ignoring_case(key, "Monitor.DesktopWindow.Flags"@) ==> r == (
            SettingsView { desktop_flags: catalog::flags_named(text::pieces(value, ',')), ..s })
            &&& text::same_ignoring_case(key, "Monitor.GameBar.Available"@) ==> {
                &&& r == (SettingsView { game_bar_available: r.game_bar_available, ..s })
                &&& r.game_bar_available <==> value == "1"@ || text::same_ignoring_case(
                    value,
                    "true"@,
                ) || text::same_ignoring_case(value, "yes"@)
            }
            &&& text::same_ignoring_case(key, "Monitor.GameBar.StartPolicy"@) ==> {
                &&& r == (SettingsView { game_bar_policy: r.game_bar_policy, ..s })
                &&& r.game_bar_policy is CoreOnDemand <==> text::same_ignoring_case(
                    value,
                    "core-on-demand"@,
                )
                &&& r.game_bar_policy is UserManual <==> !text::same_ignoring_case(
                    value,
                    "core-on-demand"@,
                )
            }
        }),
{
    reveal_strlit("Launch");
    reveal_strlit("Monitor.DesktopWindow.Path");
    reveal_strlit("Monitor.DesktopWindow.MaxInstancesPerApp");
    reveal_strlit("Monitor.DesktopWindow.WindowModes");
    reveal_strlit("Monitor.DesktopWindow.Flags");
    reveal_strlit("Monitor.GameBar.Available");
    reveal_strlit("Monitor.GameBar.MaxInstances");
    reveal_strlit("Monitor.GameBar.StartPolicy");
    assert("Launch"@.len() == 6);
    assert("Monitor.DesktopWindow.Path"@.len() == 26);
    assert("Monitor.DesktopWindow.MaxInstancesPerApp"@.len() == 40);
    assert("Monitor.DesktopWindow.WindowModes"@.len() == 33);
    assert("Monitor.DesktopWindow.Flags"@.len() == 27);
    assert("Monitor.GameBar.Available"@.len() == 25);
    assert("Monitor.GameBar.MaxInstances"@.len() == 28);
    assert("Monitor.GameBar.StartPolicy"@.len() == 27);
    if text::same_ignoring_case(key, "Monitor.DesktopWindow.Flags"@) {
        assert(text::ascii_lower(key[8]) == text::ascii_lower("Monitor.DesktopWindow.Flags"@[8]));
        assert("Monitor.DesktopWindow.Flags"@[8] == 'D');
        assert("Monitor.GameBar.StartPolicy"@[8] == 'G');
        if text::same_ignoring_case(key, "Monitor.GameBar.StartPolicy"@) {
            assert(text::ascii_lower(key[8]) == text::ascii_lower(
                "Monitor.GameBar.StartPolicy"@[8],
            ));
        }
    }
}

/// A path without its quotes is a part of the value that neither begins nor ends
/// with a quote, and nothing but quotes lies outside it.
pub proof fn quotes_are_taken_from_around_a_path(value: Seq<char>)
    ensures
        ({
            let r = catalog::unquoted(value);
            &&& r.len() > 0 ==> r[0] != '"' && r.last() != '"'
            &&& exists|from: int, to: int|
                #![trigger value.subrange(from, to)]
                0 <= from <= to <= value.len() && r == value.subrange(from, to) && (forall|i: int|
                    0 <= i < value.len() && !(from <= i < to) ==> #[trigger] value[i] == '"')
        }),
{
    let front = text::without_leading(value, '"');
    let r = catalog::unquoted(value);
    text_laws::leading_ones_go(value, '"');
    text_laws::trailing_ones_go(front, '"');
    let from = value.len() - front.len();
    let to = from + r.len();
    assert(r =~= value.subrange(from, to));
    assert forall|i: int| 0 <= i < value.len() && !(from <= i < to) implies #[trigger] value[i]
        == '"' by {
        if i >= to {
            assert(front[i - from] == value[i]);
        }
    }
    if r.len() > 0 {
        assert(r[0] == front[0]);
    }
}

/// Each mode is offered just where one of the words names it, whatever its case and
/// with white space around it or not; so is the click-through flag.
pub proof fn named_modes_are_offered(names: Seq<Seq<char>>)
    ensures
        catalog::modes_named(names) & 1 != 0 <==> exists|i: int|
            0 <= i < names.len() && text::same_ignoring_case(
                text::trimmed(#[trigger] names[i]),
                "bordered"@,
            ),
        catalog::modes_named(names) & 2 != 0 <==> exists|i: int|
            0 <= i < names.len() && text::same_ignoring_case(
                text::trimmed(#[trigger] names[i]),
                "borderless"@,
            ),
        catalog::modes_named(names) & 4 != 0 <==> exists|i: int|
            0 <= i < names.len() && (text::same_ignoring_case(
                text::trimmed(#[trigger] names[i]),
                "borderless-fullscreen"@,
            ) || text::same_ignoring_case(text::trimmed(names[i]), "fullscreen"@)),
        catalog::flags_named(names) & 1 != 0 <==> exists|i: int|
            0 <= i < names.len() && (text::same_ignoring_case(
                text::trimmed(#[trigger] names[i]),
                "click-through"@,
            ) || text::same_ignoring_case(text::trimmed(names[i]), "clickthrough"@)),
    decreases names.len(),
{
    assert(0u32 & 1 == 0 && 0u32 & 2 == 0 && 0u32 & 4 == 0) by (bit_vector);
    if names.len() > 0 {
        let before = names.drop_last();
        let word = text::trimmed(names.last());
        named_modes_are_offered(before);
        let a = catalog::modes_named(before);
        let b = catalog::mode_named(word);
        let f = catalog::flags_named(before);
        let g = catalog::flag_named(word);
        assert(((a | b) & 1 != 0 <==> a & 1 != 0 || b & 1 != 0) && ((a | b) & 2 != 0 <==> a & 2 != 0
            || b & 2 != 0) && ((a | b) & 4 != 0 <==> a & 4 != 0 || b & 4 != 0) && ((f | g) & 1 != 0
            <==> f & 1 != 0 || g & 1 != 0)) by (bit_vector);
        assert(1u32 & 1 != 0 && 1u32 & 2 == 0 && 1u32 & 4 == 0 && 2u32 & 1 == 0 && 2u32 & 2 != 0
            && 2u32 & 4 == 0 && 4u32 & 1 == 0 && 4u32 & 2 == 0 && 4u32 & 4 != 0) by (bit_vector);
        words_name_one_mode(word);
        assert(names[names.len() - 1] == names.last());
        assert forall|i: int| 0 <= i < before.len() implies before[i] == #[trigger] names[i] by {}
        let last = names.len() - 1;
        assert(b & 1 != 0 <==> text::same_ignoring_case(
            text::trimmed(names[last]),
            "bordered"@,
        ));
        assert(b & 2 != 0 <==> text::same_ignoring_case(
            text::trimmed(names[last]),
            "borderless"@,
        ));
        offered_grow(names, "bordered"@, "bordered"@);
        offered_grow(names, "borderless"@, "borderless"@);
        offered_grow(names, "borderless-fullscreen"@, "fullscreen"@);
        offered_grow(names, "click-through"@, "clickthrough"@);
    }
}

/// A word names at most one mode.
proof fn words_name_one_mode(word: Seq<char>)
    ensures
        catalog::mode_named(word) == 1 <==> text::same_ignoring_case(word, "bordered"@),
        catalog::mode_named(word) == 2 <==> text::same_ignoring_case(word, "borderless"@),
        catalog::mode_named(word) == 4 <==> text::same_ignoring_case(word, "borderless-fullscreen"@)
            || text::same_ignoring_case(word, "fullscreen"@),
        catalog::mode_named(word) == 0 || catalog::mode_named(word) == 1 || catalog::mode_named(word)
            == 2 || catalog::mode_named(word) == 4,
{
    reveal_strlit("bordered");
    reveal_strlit("borderless");
    reveal_strlit("borderless-fullscreen");
    reveal_strlit("fullscreen");
    assert("bordered"@.len() == 8 && "borderless"@.len() == 10);
    assert("borderless-fullscreen"@.len() == 21 && "fullscreen"@.len() == 10);
    if text::same_ignoring_case(word, "borderless"@) {
        assert(text::ascii_lower(word[0]) == text::ascii_lower("borderless"@[0]));
        assert("borderless"@[0] == 'b' && "fullscreen"@[0] == 'f');
        if text::same_ignoring_case(word, "fullscreen"@) {
            assert(text::ascii_lower(word[0]) == text::ascii_lower("fullscreen"@[0]));
        }
    }
}

/// One word more: some word is one of two just where one before was, or the last is.
proof fn offered_grow(names: Seq<Seq<char>>, a: Seq<char>, b: Seq<char>)
    requires
        names.len() > 0,
    ensures
        (exists|i: int|
            0 <= i < names.len() && (text::same_ignoring_case(text::trimmed(#[trigger] names[i]), a)
                || text::same_ignoring_case(text::trimmed(names[i]), b))) <==> (exists|i: int|
            0 <= i < names.drop_last().len() && (text::same_ignoring_case(
                text::trimmed(#[trigger] names.drop_last()[i]),
                a,
            ) || text::same_ignoring_case(text::trimmed(names.drop_last()[i]), b)))
            || text::same_ignoring_case(text::trimmed(names.last()), a) || text::same_ignoring_case(
            text::trimmed(names.last()),
            b,
        ),
{
    let before = names.drop_last();
    if exists|i: int|
        0 <= i < names.len() && (text::same_ignoring_case(text::trimmed(#[trigger] names[i]), a)
            || text::same_ignoring_case(text::trimmed(names[i]), b)) {
        let i = choose|i: int|
            0 <= i < names.len() && (text::same_ignoring_case(text::trimmed(#[trigger] names[i]), a)
                || text::same_ignoring_case(text::trimmed(names[i]), b));
        if i < before.len() {
            assert(before[i] == names[i]);
        }
    }
    if exists|i: int|
        0 <= i < before.len() && (text::same_ignoring_case(text::trimmed(#[trigger] before[i]), a)
            || text::same_ignoring_case(text::trimmed(before[i]), b)) {
        let i = choose|i: int|
            0 <= i < before.len() && (text::same_ignoring_case(
                text::trimmed(#[trigger] before[i]),
                a,
            ) || text::same_ignoring_case(text::trimmed(before[i]), b));
        assert(names[i] == before[i]);
    }
    assert(names[names.len() - 1] == names.last());
}

/// A setting's own path comes before one that a launch line gives.
pub proof fn own_paths_come_first(s: CatalogSettings, r: Option<&str>)
    requires
        call_ensures(CatalogSettings::monitor_path, (&s,), r),
    ensures
        s@.desktop_path matches Some(p) ==> (r matches Some(t) && t@ == p),
        s@.desktop_path is None && s@.launch_path is Some ==> (r matches Some(t) && t@
            == s@.launch_path->0),
        s@.desktop_path is None && s@.launch_path is None ==> r is None,
{
}

/// A desktop window is installed just where it has a path, with the limits, modes
/// and flags of the settings, each in its own field; a widget just where it is said
/// to be there.
pub proof fn catalogs_hold_the_settings(
    s: CatalogSettings,
    path: Option<ResolvedPath>,
    r: MonitorCatalog,
)
    requires
        call_ensures(catalog::catalog_of, (&s, path), r),
    ensures
        r.desktop_window is Some <==> path is Some,
        r.desktop_window matches Some(d) ==> {
            &&& d.path == path->0
            &&& d.max_instances_per_app == s.desktop_max
            &&& d.window_modes == s.desktop_modes
            &&& d.flags == s.desktop_flags
        },
        r.game_bar is Some <==> s.game_bar_available,
        r.game_bar matches Some(g) ==> {
            &&& g.available
            &&& g.max_instances == s.game_bar_max
            &&& g.start_policy == s.game_bar_policy
        },
{
}

/// The catalog of a configuration has what its lines set, each value in its own
/// field, and takes the monitor's path as the lines write it, from the
/// configuration's own directory.
pub proof fn configurations_are_followed(content: &str, config_dir: &str, r: MonitorCatalog)
    requires
        call_ensures(catalog::parse_monitor_catalog, (content, config_dir), r),
    ensures
        ({
            let s = catalog::settings_of(text::pieces(content@, '\n'));
            let path = if s.desktop_path is Some {
                s.desktop_path
            } else {
                s.launch_path
            };
            &&& r.desktop_window is Some <==> path is Some
            &&& r.desktop_window matches Some(d) ==> {
                &&& Some(d.path.written()) == path
                &&& d.path.base() == config_dir@
                &&& d.max_instances_per_app == s.desktop_max
                &&& d.window_modes == s.desktop_modes
                &&& d.flags == s.desktop_flags
            }
            &&& r.game_bar is Some <==> s.game_bar_available
            &&& r.game_bar matches Some(g) ==> {
                &&& g.available
                &&& g.max_instances == s.game_bar_max
                &&& g.start_policy == s.game_bar_policy
            }
        }),
{
}

/// The installed monitors are listed with what they can do: the desktop window
/// first, which the core starts and manages on demand, then the widget, which it
/// does neither with.
pub proof fn installed_monitors_are_listed(c: MonitorCatalog, r: Vec<MonitorTypeEntry>)
    requires
        call_ensures(MonitorCatalog::to_monitor_type_entries, (&c,), r),
    ensures
        ({
            let d = c.desktop_window;
            let g = c.game_bar;
            let first = if d is Some {
                1int
            } else {
                0int
            };
            &&& r@.len() == first + if g is Some {
                1int
            } else {
                0int
            }
            &&& d is Some ==> {
                &&& r@[0].kind is DesktopWindow
                &&& r@[0].available
                &&& r@[0].start_policy is CoreOnDemand
                &&& r@[0].core_startable
                &&& r@[0].core_managed
                &&& r@[0].max_instances == d->0.max_instances_per_app
                &&& r@[0].window_modes == d->0.window_modes
                &&& r@[0].flags == d->0.flags
            }
            &&& g is Some ==> {
                &&& r@[first].kind is GameBar
                &&& r@[first].available == g->0.available
                &&& r@[first].start_policy == g->0.start_policy
                &&& !r@[first].core_startable
                &&& !r@[first].core_managed
                &&& r@[first].max_instances == g->0.max_instances
                &&& r@[first].window_modes == 0
                &&& r@[first].flags == 0
            }
        }),
{
}

/// A desktop window is launched with each of its values behind the argument of that
/// name.
pub proof fn launch_words_name_their_values(o: DesktopWindowLaunchOptions, r: Vec<String>)
    requires
        call_ensures(catalog::launch_arguments, (&o,), r),
    ensures
        r@.len() == 18,
        r@[0]@ == "--request-id"@ && r@[1]@ == text::decimal(o.request_id as nat),
        r@[2]@ == "--owner-app-id"@ && r@[3]@ == text::decimal(o.owner_app_id as nat),
        r@[4]@ == "--target-canvas-id"@ && r@[5]@ == text::decimal(o.target_canvas_id as nat),
        r@[6]@ == "--mode"@,
        o.mode is Bordered ==> r@[7]@ == "bordered"@,
        o.mode is Borderless ==> r@[7]@ == "borderless"@,
        o.mode is BorderlessFullscreen ==> r@[7]@ == "borderless-fullscreen"@,
        r@[8]@ == "--click-through"@,
        o.flags & 1 != 0 ==> r@[9]@ == "1"@,
        o.flags & 1 == 0 ==> r@[9]@ == "0"@,
        r@[10]@ == "--x"@ && r@[11]@ == text::signed_decimal(o.x as int),
        r@[12]@ == "--y"@ && r@[13]@ == text::signed_decimal(o.y as int),
        r@[14]@ == "--w"@ && r@[15]@ == text::decimal(o.w as nat),
        r@[16]@ == "--h"@ && r@[17]@ == text::decimal(o.h as nat),
{
    let words = text::string_contents(r@);
    assert(words.len() == r@.len());
    assert forall|i: int| 0 <= i < r@.len() implies words[i] == (#[trigger] r@[i])@ by {}
}

/// The modes and flags that a value names are those that its words between commas
/// name; yes is said by one of three words; and a configuration is followed line by
/// line.
pub proof fn values_are_read_word_by_word(
    value: &str,
    modes: u32,
    flags: u32,
    yes: bool,
    settings: CatalogSettings,
    new: CatalogSettings,
)
    requires
        call_ensures(catalog::parse_window_modes, (value,), modes),
        call_ensures(catalog::parse_desktop_flags, (value,), flags),
        call_ensures(catalog::parse_bool, (value,), yes),
        call_ensures(catalog::parse_settings, (value,), settings),
        call_ensures(CatalogSettings::new, (), new),
    ensures
        ({
            let words = text::pieces(value@, ',');
            &&& modes & 1 != 0 <==> exists|i: int|
                0 <= i < words.len() && text::same_ignoring_case(
                    text::trimmed(#[trigger] words[i]),
                    "bordered"@,
                )
            &&& modes & 2 != 0 <==> exists|i: int|
                0 <= i < words.len() && text::same_ignoring_case(
                    text::trimmed(#[trigger] words[i]),
                    "borderless"@,
                )
            &&& flags & 1 != 0 <==> exists|i: int|
                0 <= i < words.len() && (text::same_ignoring_case(
                    text::trimmed(#[trigger] words[i]),
                    "click-through"@,
                ) || text::same_ignoring_case(text::trimmed(words[i]), "clickthrough"@))
        }),
        yes <==> value@ == "1"@ || text::same_ignoring_case(value@, "true"@)
            || text::same_ignoring_case(value@, "yes"@),
        settings@ == catalog::settings_of(text::pieces(value@, '\n')),
        new@ == catalog::settings_of(seq![]),
{
    named_modes_are_offered(text::pieces(value@, ','));
}

} // verus!
