//! What a client does to find the server, and what the demo asks of it.

use vstd::prelude::*;

use crate::demo;
use crate::demo::{DemoError, DemoOptions};
use crate::install;
use crate::install::{
    ConnectStep, CoreInstallLocation, InstallError, InstallPaths, PathFacts, RegistryCheck,
};
use crate::protocol::{
    ControlMessage, DesktopWindowMode, MonitorRequestStatus, MonitorTypeEntry,
};
use crate::text;
use crate::text_laws;
use crate::window_options;

verus! {

/// The registry's values are used, without the white space around them, just where
/// neither is empty, both are absolute, and the program's name is the server's
/// whatever its case. Otherwise the first of these that fails is named.
pub proof fn registry_values_are_checked_in_turn(
    dir: &str,
    exe: &str,
    facts: PathFacts,
    r: Result<InstallPaths, InstallError>,
)
    requires
        call_ensures(install::check_values, (dir, exe, &facts), r),
    ensures
        ({
            let no_dir = text::trimmed(dir@).len() == 0;
            let no_exe = text::trimmed(exe@).len() == 0;
            let named = facts.exe_name is Some && text::same_ignoring_case(
                facts.exe_name->0@,
                "core-server.exe"@,
            );
            &&& no_dir ==> (r matches Err(e) && e is NoDirectory)
            &&& !no_dir && no_exe ==> (r matches Err(e) && e is NoProgram)
            &&& !no_dir && !no_exe && !facts.dir_absolute ==> (r matches Err(e)
                && e is DirectoryNotAbsolute)
            &&& !no_dir && !no_exe && facts.dir_absolute && !facts.exe_absolute ==> (
            r matches Err(e) && e is ProgramNotAbsolute)
            &&& !no_dir && !no_exe && facts.dir_absolute && facts.exe_absolute && !named ==> (
            r matches Err(e) && e is OtherProgram)
            &&& !no_dir && !no_exe && facts.dir_absolute && facts.exe_absolute && named ==> {
                &&& r matches Ok(paths)
                &&& paths.install_dir@ == text::trimmed(dir@)
                &&& paths.core_exe@ == text::trimmed(exe@)
            }
        }),
{
}

/// A path lies in a directory just where it is the directory, or begins with it and
/// goes on with a backslash.
pub proof fn paths_lie_below_their_directory(path: &str, root: &str, r: bool)
    requires
        call_ensures(install::is_within, (path, root), r),
    ensures
        r <==> path@ == root@ || (path@.len() > root@.len() && path@.take(root@.len() as int)
            == root@ && path@[root@.len() as int] == '\\'),
{
    let n = root@.len() as int;
    let front = root@.push('\\');
    if front.is_prefix_of(path@) {
        assert(path@.subrange(0, n + 1) == front);
        assert(path@.subrange(0, n + 1)[n] == path@[n]);
        assert(path@.take(n) =~= front.take(n));
        assert(front.take(n) =~= root@);
    }
    if path@.len() > n && path@.take(n) == root@ && path@[n] == '\\' {
        assert(path@.subrange(0, n + 1) =~= front);
    }
}

/// A path is compared with backslashes for slashes and without those at its end.
pub proof fn slashes_become_backslashes(path: Seq<char>, i: int)
    ensures
        ({
            let r = install::with_backslashes(path);
            &&& r.len() <= path.len()
            &&& 0 <= i < r.len() && path[i] == '/' ==> r[i] == '\\'
            &&& 0 <= i < r.len() && path[i] != '/' ==> r[i] == path[i]
            &&& r.len() <= i < path.len() ==> path[i] == '/' || path[i] == '\\'
            &&& r.len() > 0 ==> r.last() != '\\'
        }),
{
    let all = path.map_values(
        |c: char|
            if c == '/' {
                '\\'
            } else {
                c
            },
    );
    text_laws::trailing_ones_go(all, '\\');
    let r = install::with_backslashes(path);
    if 0 <= i < path.len() {
        assert(all[i] == if path[i] == '/' {
            '\\'
        } else {
            path[i]
        });
    }
    if 0 <= i < r.len() {
        assert(r[i] == all[i]);
    }
}

/// A server that was found is used just where its directory and its program are
/// there and the program lies in the directory. Its version is kept where it says
/// anything.
pub proof fn found_servers_are_accepted(
    dir: Option<String>,
    exe: Option<String>,
    version: Option<String>,
    r: Result<CoreInstallLocation, InstallError>,
    inside: bool,
)
    requires
        call_ensures(install::accept_location, (dir, exe, version), r),
        dir is Some && exe is Some ==> inside == install::lies_in(
            install::normalized(exe->0@),
            install::normalized(dir->0@),
        ),
    ensures
        dir is None ==> (r matches Err(e) && e is DirectoryMissing),
        dir is Some && exe is None ==> (r matches Err(e) && e is ProgramMissing),
        dir is Some && exe is Some && !inside ==> (r matches Err(e) && e is ProgramOutside),
        dir is Some && exe is Some && inside ==> {
            &&& r matches Ok(found)
            &&& found.install_dir@ == dir->0@
            &&& found.core_exe@ == exe->0@
            &&& version is Some && text::trimmed(version->0@).len() > 0 ==> (
            found.version matches Some(v) && v@ == text::trimmed(version->0@))
            &&& version is None || text::trimmed(version->0@).len() == 0 ==> found.version is None
        },
{
}

/// A first try to connect waits where the server is busy, starts it where it is not
/// there, and fails otherwise. A later one is repeated in either case while there is
/// time.
pub proof fn connecting_waits_for_the_server(
    code: Option<i32>,
    time_left: bool,
    first: ConnectStep,
    later: ConnectStep,
    busy: bool,
    missing: bool,
)
    requires
        call_ensures(install::is_pipe_busy, (code,), busy),
        call_ensures(install::is_pipe_missing, (code,), missing),
        call_ensures(install::after_first_try, (code,), first),
        call_ensures(install::after_try, (code, time_left), later),
    ensures
        busy <==> code == Some(231i32),
        missing <==> code == Some(2i32) || code == Some(3i32),
        busy ==> first is Wait,
        missing ==> first is StartCore,
        !busy && !missing ==> first is Fail,
        (busy || missing) && time_left ==> later is Retry,
        !time_left || (!busy && !missing) ==> later is Fail,
{
}

/// A registry value is its text without the white space around it, where any is
/// left.
pub proof fn registry_values_are_trimmed(value: &str, r: Option<&str>)
    requires
        call_ensures(install::non_empty_registry_value, (value,), r),
    ensures
        text::trimmed(value@).len() == 0 ==> r is None,
        text::trimmed(value@).len() > 0 ==> (r matches Some(t) && t@ == text::trimmed(value@)),
{
}

/// The demo asks for nothing where nothing is said.
pub proof fn a_silent_demo_asks_for_nothing(
    args: &[String],
    r: Result<Option<DemoOptions>, DemoError>,
)
    requires
        call_ensures(demo::parse_demo_options, (args,), r),
        args@.len() <= 1,
    ensures
        r matches Ok(Some(o)) && !o.unlocked && o.desktop_monitors == 0 && o.window_mode is Bordered
            && !o.click_through,
{
}

/// Each of the demo's arguments sets its own option, and the line is read on behind
/// it; a later value takes the place of an earlier one. Help ends it, and any other
/// word is an error that names its place.
pub proof fn demo_arguments_set_their_own_option(
    words: Seq<Seq<char>>,
    i: int,
    o: DemoOptions,
)
    requires
        0 <= i < words.len(),
        words.len() <= usize::MAX,
    ensures
        ({
            let w = words[i];
            let next = words[i + 1];
            let last = i + 1 == words.len();
            let n = text::u32_value(next);
            let mode = window_options::mode_value(next);
            let r = demo::demo_from(words, i, o);
            &&& w == "--unlocked"@ || w == "--no-vsync"@ ==> r == demo::demo_from(
                words,
                i + 1,
                DemoOptions { unlocked: true, ..o },
            )
            &&& w == "--click-through"@ ==> r == demo::demo_from(
                words,
                i + 1,
                DemoOptions { click_through: true, ..o },
            )
            &&& w == "-h"@ || w == "--help"@ ==> r == Ok::<Option<DemoOptions>, DemoError>(None)
            &&& w == "--desktop-monitors"@ && !last && n is Some ==> r == demo::demo_from(
                words,
                i + 2,
                DemoOptions { desktop_monitors: n->0, ..o },
            )
            &&& w == "--desktop-monitors"@ && !last && n is None ==> (r matches Err(e)
                && e is BadCount)
            &&& w == "--desktop-monitors"@ && last ==> (r matches Err(e) && e is MissingCount)
            &&& w == "--window-mode"@ && !last && mode is Some ==> r == demo::demo_from(
                words,
                i + 2,
                DemoOptions { window_mode: mode->0, ..o },
            )
            &&& w == "--window-mode"@ && !last && mode is None ==> (r matches Err(e)
                && e is UnknownMode)
            &&& w == "--window-mode"@ && last ==> (r matches Err(e) && e is MissingMode)
            &&& w != "--unlocked"@ && w != "--no-vsync"@ && w != "--click-through"@ && w != "-h"@ && w
                != "--help"@ && w != "--desktop-monitors"@ && w != "--window-mode"@ ==> (
            r matches Err(DemoError::UnknownArgument(at)) && at == i)
            &&& last ==> demo::demo_from(words, i + 1, o) == Ok::<Option<DemoOptions>, DemoError>(
                Some(o),
            )
        }),
{
    reveal_strlit("--unlocked");
    reveal_strlit("--no-vsync");
    reveal_strlit("--desktop-monitors");
    reveal_strlit("--window-mode");
    reveal_strlit("--click-through");
    reveal_strlit("-h");
    reveal_strlit("--help");
    assert("--unlocked"@.len() == 10 && "--no-vsync"@.len() == 10);
    assert("--desktop-monitors"@.len() == 18 && "--window-mode"@.len() == 13);
    assert("--click-through"@.len() == 15 && "-h"@.len() == 2 && "--help"@.len() == 6);
}

/// The demo asks for as many desktop windows as it was told, for its first canvas,
/// in the mode that it was told and with clicks let through where it was told so;
/// it asks for none where it was told none.
pub proof fn demos_ask_for_what_they_were_told(
    o: DemoOptions,
    request_id: u32,
    r: Option<ControlMessage>,
)
    requires
        call_ensures(demo::start_message, (o, request_id), r),
    ensures
        o.desktop_monitors == 0 ==> r is None,
        o.desktop_monitors > 0 ==> {
            &&& r matches Some(
                ControlMessage::StartMonitor {
                    request_id: id,
                    kind,
                    count,
                    target_canvas_id,
                    mode,
                    flags,
                    x,
                    y,
                    w,
                    h,
                },
            )
            &&& id == request_id
            &&& kind is DesktopWindow
            &&& count == o.desktop_monitors
            &&& target_canvas_id == 0
            &&& mode == o.window_mode
            &&& o.click_through ==> flags == 1
            &&& !o.click_through ==> flags == 0
            &&& x == 100
            &&& y == 100
            &&& w == 720
            &&& h == 420
        },
{
}

/// An answer counts for the request whose number it has, and gives what it says.
pub proof fn answers_count_for_their_request(
    msg: ControlMessage,
    request: u32,
    listed: Option<Vec<MonitorTypeEntry>>,
    started: Option<(MonitorRequestStatus, Vec<u32>)>,
)
    requires
        call_ensures(demo::listed_types, (msg, request), listed),
        call_ensures(demo::start_outcome, (msg, request), started),
    ensures
        msg matches ControlMessage::MonitorTypes { request_id, entries } ==> {
            &&& request_id == request ==> (listed matches Some(l) && l@ == entries@)
            &&& request_id != request ==> listed is None
        },
        msg matches ControlMessage::StartMonitorResult { request_id, status, monitor_ids } ==> {
            &&& request_id == request ==> (started matches Some((s, ids)) && s == status && ids@
                == monitor_ids@)
            &&& request_id != request ==> started is None
        },
        !(msg is MonitorTypes) ==> listed is None,
        !(msg is StartMonitorResult) ==> started is None,
{
}

/// A frame goes behind the one before it, and to the front again where the next
/// would reach the slots' end.
pub proof fn frames_take_turns(offset: u32, r: u32)
    requires
        call_ensures(demo::next_slot, (offset,), r),
        offset < 0xE0_0000,
    ensures
        offset + 0x1_0000 < 0xE0_0000 ==> r == offset + 0x1_0000,
        offset + 0x1_0000 >= 0xE0_0000 ==> r == 24,
{
}

/// A mode has its name on the command line.
pub proof fn modes_have_their_names(mode: DesktopWindowMode, shown: &str, word: &str)
    requires
        call_ensures(demo::window_mode_label, (mode,), shown),
        call_ensures(DesktopWindowMode::cli_value, (mode,), word),
    ensures
        mode is Bordered ==> shown@ == "bordered"@ && word@ == "bordered"@,
        mode is Borderless ==> shown@ == "borderless"@ && word@ == "borderless"@,
        mode is BorderlessFullscreen ==> shown@ == "borderless-fullscreen"@ && word@
            == "borderless-fullscreen"@,
{
}

/// The registry's values are asked about without the white space around them, and are
/// used just where the answers allow it: both are absolute and the program's name is
/// the server's.
pub proof fn registry_checks_ask_about_the_values(dir: &str, exe: &str, r: RegistryCheck)
    requires
        call_ensures(install::check_registry_values, (dir, exe), r),
    ensures
        r.dir_absolute.path() == text::trimmed(dir@),
        r.exe_absolute.path() == text::trimmed(exe@),
        r.exe_name.path() == text::trimmed(exe@),
        r.result is Ok <==> {
            &&& text::trimmed(dir@).len() > 0
            &&& text::trimmed(exe@).len() > 0
            &&& r.dir_absolute.absolute()
            &&& r.exe_absolute.absolute()
            &&& r.exe_name.name() is Some
            &&& text::same_ignoring_case(r.exe_name.name()->0@, "core-server.exe"@)
        },
        r.result matches Ok(paths) ==> paths.install_dir@ == text::trimmed(dir@)
            && paths.core_exe@ == text::trimmed(exe@),
{
}

/// Paths are compared in small letters and with backslashes: one lies in a directory
/// just where that is the directory, or begins with it and goes on with a backslash.
pub proof fn paths_are_compared_whatever_their_case(
    path: &str,
    root: &str,
    p: String,
    d: String,
    r: bool,
)
    requires
        call_ensures(install::normalized_path_string, (path,), p),
        call_ensures(install::normalized_path_string, (root,), d),
        call_ensures(install::path_has_case_insensitive_prefix, (path, root), r),
    ensures
        p@ == install::lowercase(install::with_backslashes(path@)),
        r <==> p@ == d@ || (p@.len() > d@.len() && p@.take(d@.len() as int) == d@
            && p@[d@.len() as int] == '\\'),
{
    let n = d@.len() as int;
    let front = d@.push('\\');
    if front.is_prefix_of(p@) {
        assert(p@.subrange(0, n + 1) == front);
        assert(p@.subrange(0, n + 1)[n] == p@[n]);
        assert(p@.take(n) =~= front.take(n));
        assert(front.take(n) =~= d@);
    }
    if p@.len() > n && p@.take(n) == d@ && p@[n] == '\\' {
        assert(p@.subrange(0, n + 1) =~= front);
    }
}

/// A mode is read from its name, and a flag from a word for yes or no; any other word
/// is neither.
pub proof fn words_are_modes_and_flags(
    word: &str,
    mode: Option<DesktopWindowMode>,
    flag: Option<bool>,
)
    requires
        call_ensures(window_options::parse_mode, (word,), mode),
        call_ensures(window_options::parse_bool_flag, (word,), flag),
    ensures
        mode == Some(DesktopWindowMode::Bordered) <==> word@ == "bordered"@,
        mode == Some(DesktopWindowMode::Borderless) <==> word@ == "borderless"@,
        mode == Some(DesktopWindowMode::BorderlessFullscreen) <==> word@
            == "borderless-fullscreen"@ || word@ == "fullscreen"@,
        flag == Some(true) <==> word@ == "1"@ || word@ == "true"@ || word@ == "yes"@ || word@
            == "on"@,
        flag == Some(false) <==> word@ == "0"@ || word@ == "false"@ || word@ == "no"@ || word@
            == "off"@,
{
    reveal_strlit("bordered");
    reveal_strlit("borderless");
    reveal_strlit("borderless-fullscreen");
    reveal_strlit("fullscreen");
    assert("bordered"@.len() == 8 && "borderless"@.len() == 10);
    assert("borderless-fullscreen"@.len() == 21 && "fullscreen"@.len() == 10);
    assert("borderless"@[0] == 'b' && "fullscreen"@[0] == 'f');
    reveal_strlit("1");
    reveal_strlit("true");
    reveal_strlit("yes");
    reveal_strlit("on");
    reveal_strlit("0");
    reveal_strlit("false");
    reveal_strlit("no");
    reveal_strlit("off");
    assert("1"@.len() == 1 && "0"@.len() == 1 && "1"@[0] == '1' && "0"@[0] == '0');
    assert("true"@.len() == 4 && "false"@.len() == 5);
    assert("yes"@.len() == 3 && "off"@.len() == 3 && "yes"@[0] == 'y' && "off"@[0] == 'o');
    assert("on"@.len() == 2 && "no"@.len() == 2 && "on"@[0] == 'o' && "no"@[0] == 'n');
}

} // verus!
