//! How a desktop window is opened: the command line, requests from other starts,
//! its place on the screen, and its registration.

use vstd::prelude::*;

use crate::catalog;
use crate::catalog::DesktopWindowLaunchOptions;
use crate::protocol::{
    ControlMessage, DesktopWindowMode, MonitorKind, DESKTOP_WINDOW_FLAG_CLICK_THROUGH,
};
use crate::singleton::SingletonRequest;
use crate::text;
use crate::text::{parse_i32, parse_u32, same};

verus! {

/// The width of a window for which none was given.
pub const DEFAULT_WIDTH: i32 = 720;

/// The height of a window for which none was given.
pub const DEFAULT_HEIGHT: i32 = 420;

/// The tries to connect again.
pub const RECONNECT_MAX_ATTEMPTS: u32 = 10;

/// How a desktop window is opened.
#[derive(Debug, Clone, Copy, PartialEq, Eq, Structural)]
pub struct DesktopWindowOptions {
    pub request_id: u32,
    pub owner_app_id: Option<u32>,
    pub target_canvas_id: u32,
    pub mode: DesktopWindowMode,
    pub flags: u32,
    pub x: i32,
    pub y: i32,
    pub w: u32,
    pub h: u32,
}

impl DesktopWindowOptions {
    /// A window that nothing was said of.
    pub open spec fn plain() -> DesktopWindowOptions {
        DesktopWindowOptions {
            request_id: 0,
            owner_app_id: None,
            target_canvas_id: 0,
            mode: DesktopWindowMode::Bordered,
            flags: 0,
            x: 100,
            y: 100,
            w: 720,
            h: 420,
        }
    }

    /// Whether the server asked for the window.
    pub open spec fn requested(self) -> bool {
        self.request_id != 0 || self.owner_app_id is Some || self.target_canvas_id != 0
    }

    /// The app that the window is for; zero where it is for none.
    pub open spec fn owner_number(self) -> u32 {
        match self.owner_app_id {
            Some(id) => id,
            None => 0,
        }
    }

    /// Whether the server asked for the window.
    pub fn core_requested(self) -> (r: bool)
        ensures
            r == self.requested(),
    {
        self.request_id != 0 || self.owner_app_id.is_some() || self.target_canvas_id != 0
    }

    /// The app that the window is for; zero where it is for none.
    pub fn owner_app_id_wire(self) -> (r: u32)
        ensures
            r == self.owner_number(),
    {
        match self.owner_app_id {
            Some(id) => id,
            None => 0,
        }
    }

    /// Whether clicks go through the window.
    pub fn click_through(self) -> (r: bool)
        ensures
            r == (self.flags & DESKTOP_WINDOW_FLAG_CLICK_THROUGH != 0),
    {
        self.flags & DESKTOP_WINDOW_FLAG_CLICK_THROUGH != 0
    }
}

impl Default for DesktopWindowOptions {
    fn default() -> (r: Self)
        ensures
            r == Self::plain(),
    {
        DesktopWindowOptions {
            request_id: 0,
            owner_app_id: None,
            target_canvas_id: 0,
            mode: DesktopWindowMode::Bordered,
            flags: 0,
            x: 100,
            y: 100,
            w: 720,
            h: 420,
        }
    }
}

/// An argument of the command line.
#[derive(Debug, Clone, Copy, PartialEq, Eq, Structural)]
pub enum Argument {
    RequestId,
    OwnerAppId,
    TargetCanvasId,
    Mode,
    ClickThrough,
    X,
    Y,
    W,
    H,
}

/// Why a command line cannot be followed.
#[derive(Debug, Clone, Copy, PartialEq, Eq, Structural)]
pub enum OptionError {
    MissingValue(Argument),
    BadNumber(Argument),
    UnknownMode,
    BadFlag,
}

/// The argument with that name.
pub open spec fn argument_named(word: Seq<char>) -> Option<Argument> {
    if word == "--request-id"@ {
        Some(Argument::RequestId)
    } else if word == "--owner-app-id"@ {
        Some(Argument::OwnerAppId)
    } else if word == "--target-canvas-id"@ {
        Some(Argument::TargetCanvasId)
    } else if word == "--mode"@ {
        Some(Argument::Mode)
    } else if word == "--click-through"@ {
        Some(Argument::ClickThrough)
    } else if word == "--x"@ {
        Some(Argument::X)
    } else if word == "--y"@ {
        Some(Argument::Y)
    } else if word == "--w"@ {
        Some(Argument::W)
    } else if word == "--h"@ {
        Some(Argument::H)
    } else {
        None
    }
}

fn argument(word: &str) -> (r: Option<Argument>)
    ensures
        r == argument_named(word@),
{
    if same(word, "--request-id") {
        Some(Argument::RequestId)
    } else if same(word, "--owner-app-id") {
        Some(Argument::OwnerAppId)
    } else if same(word, "--target-canvas-id") {
        Some(Argument::TargetCanvasId)
    } else if same(word, "--mode") {
        Some(Argument::Mode)
    } else if same(word, "--click-through") {
        Some(Argument::ClickThrough)
    } else if same(word, "--x") {
        Some(Argument::X)
    } else if same(word, "--y") {
        Some(Argument::Y)
    } else if same(word, "--w") {
        Some(Argument::W)
    } else if same(word, "--h") {
        Some(Argument::H)
    } else {
        None
    }
}

/// The window mode with that name.
pub open spec fn mode_value(word: Seq<char>) -> Option<DesktopWindowMode> {
    if word == "bordered"@ {
        Some(DesktopWindowMode::Bordered)
    } else if word == "borderless"@ {
        Some(DesktopWindowMode::Borderless)
    } else if word == "borderless-fullscreen"@ || word == "fullscreen"@ {
        Some(DesktopWindowMode::BorderlessFullscreen)
    } else {
        None
    }
}

/// What a word says of a flag.
pub open spec fn flag_value(word: Seq<char>) -> Option<bool> {
    if word == "1"@ || word == "true"@ || word == "yes"@ || word == "on"@ {
        Some(true)
    } else if word == "0"@ || word == "false"@ || word == "no"@ || word == "off"@ {
        Some(false)
    } else {
        None
    }
}

/// The window mode with that name.
pub fn parse_mode(value: &str) -> (r: Option<DesktopWindowMode>)
    ensures
        r == mode_value(value@),
{
    if same(value, "bordered") {
        Some(DesktopWindowMode::Bordered)
    } else if same(value, "borderless") {
        Some(DesktopWindowMode::Borderless)
    } else if same(value, "borderless-fullscreen") || same(value, "fullscreen") {
        Some(DesktopWindowMode::BorderlessFullscreen)
    } else {
        None
    }
}

/// What a word says of a flag.
pub fn parse_bool_flag(value: &str) -> (r: Option<bool>)
    ensures
        r == flag_value(value@),
{
    if same(value, "1") || same(value, "true") || same(value, "yes") || same(value, "on") {
        Some(true)
    } else if same(value, "0") || same(value, "false") || same(value, "no") || same(value, "off") {
        Some(false)
    } else {
        None
    }
}

/// Whether a word looks like an argument's name.
pub open spec fn looks_like_argument(word: Seq<char>) -> bool {
    word.len() >= 2 && word[0] == '-' && word[1] == '-'
}

fn is_argument_like(word: &str) -> (r: bool)
    ensures
        r == looks_like_argument(word@),
{
    word.unicode_len() >= 2 && word.get_char(0) == '-' && word.get_char(1) == '-'
}

impl DesktopWindowOptions {
    /// The options with an argument's value.
    pub open spec fn with_value(self, a: Argument, value: Seq<char>) -> Result<
        DesktopWindowOptions,
        OptionError,
    > {
        match a {
            Argument::RequestId => match text::u32_value(value) {
                Some(n) => Ok(DesktopWindowOptions { request_id: n, ..self }),
                None => Err(OptionError::BadNumber(a)),
            },
            Argument::OwnerAppId => match text::u32_value(value) {
                Some(n) => Ok(
                    DesktopWindowOptions {
                        owner_app_id: if n != 0 {
                            Some(n)
                        } else {
                            None
                        },
                        ..self
                    },
                ),
                None => Err(OptionError::BadNumber(a)),
            },
            Argument::TargetCanvasId => match text::u32_value(value) {
                Some(n) => Ok(DesktopWindowOptions { target_canvas_id: n, ..self }),
                None => Err(OptionError::BadNumber(a)),
            },
            Argument::Mode => match mode_value(value) {
                Some(mode) => Ok(DesktopWindowOptions { mode, ..self }),
                None => Err(OptionError::UnknownMode),
            },
            Argument::ClickThrough => match flag_value(value) {
                Some(enabled) => Ok(self.with_click_through(enabled)),
                None => Err(OptionError::BadFlag),
            },
            Argument::X => match text::i32_value(value) {
                Some(n) => Ok(DesktopWindowOptions { x: n, ..self }),
                None => Err(OptionError::BadNumber(a)),
            },
            Argument::Y => match text::i32_value(value) {
                Some(n) => Ok(DesktopWindowOptions { y: n, ..self }),
                None => Err(OptionError::BadNumber(a)),
            },
            Argument::W => match text::u32_value(value) {
                Some(n) => Ok(DesktopWindowOptions { w: n, ..self }),
                None => Err(OptionError::BadNumber(a)),
            },
            Argument::H => match text::u32_value(value) {
                Some(n) => Ok(DesktopWindowOptions { h: n, ..self }),
                None => Err(OptionError::BadNumber(a)),
            },
        }
    }

    /// The options with clicks that go through the window or not.
    pub open spec fn with_click_through(self, enabled: bool) -> DesktopWindowOptions {
        DesktopWindowOptions {
            flags: if enabled {
                self.flags | DESKTOP_WINDOW_FLAG_CLICK_THROUGH
            } else {
                self.flags & !DESKTOP_WINDOW_FLAG_CLICK_THROUGH
            },
            ..self
        }
    }

    fn set_click_through(&mut self, enabled: bool)
        ensures
            *final(self) == old(self).with_click_through(enabled),
    {
        if enabled {
            self.flags = self.flags | DESKTOP_WINDOW_FLAG_CLICK_THROUGH;
        } else {
            self.flags = self.flags & !DESKTOP_WINDOW_FLAG_CLICK_THROUGH;
        }
    }

    fn read_value(self, a: Argument, value: &str) -> (r: Result<
        DesktopWindowOptions,
        OptionError,
    >)
        ensures
            r == self.with_value(a, value@),
    {
        let mut o = self;
        match a {
            Argument::RequestId => match parse_u32(value) {
                Some(n) => {
                    o.request_id = n;
                },
                None => {
                    return Err(OptionError::BadNumber(a));
                },
            },
            Argument::OwnerAppId => match parse_u32(value) {
                Some(n) => {
                    o.owner_app_id =
                    if n != 0 {
                        Some(n)
                    } else {
                        None
                    };
                },
                None => {
                    return Err(OptionError::BadNumber(a));
                },
            },
            Argument::TargetCanvasId => match parse_u32(value) {
                Some(n) => {
                    o.target_canvas_id = n;
                },
                None => {
                    return Err(OptionError::BadNumber(a));
                },
            },
            Argument::Mode => match parse_mode(value) {
                Some(mode) => {
                    o.mode = mode;
                },
                None => {
                    return Err(OptionError::UnknownMode);
                },
            },
            Argument::ClickThrough => match parse_bool_flag(value) {
                Some(enabled) => {
                    o.set_click_through(enabled);
                },
                None => {
                    return Err(OptionError::BadFlag);
                },
            },
            Argument::X => match parse_i32(value) {
                Some(n) => {
                    o.x = n;
                },
                None => {
                    return Err(OptionError::BadNumber(a));
                },
            },
            Argument::Y => match parse_i32(value) {
                Some(n) => {
                    o.y = n;
                },
                None => {
                    return Err(OptionError::BadNumber(a));
                },
            },
            Argument::W => match parse_u32(value) {
                Some(n) => {
                    o.w = n;
                },
                None => {
                    return Err(OptionError::BadNumber(a));
                },
            },
            Argument::H => match parse_u32(value) {
                Some(n) => {
                    o.h = n;
                },
                None => {
                    return Err(OptionError::BadNumber(a));
                },
            },
        }
        Ok(o)
    }
}

/// The options after the words from `i` on. Each argument takes the word behind it
/// for its value; click-through does so only where that word is no argument. Words
/// that are no arguments are passed over, and a later value overrides an earlier
/// one.
pub open spec fn options_from(words: Seq<Seq<char>>, i: int, o: DesktopWindowOptions) -> Result<
    DesktopWindowOptions,
    OptionError,
>
    decreases words.len() - i,
{
    if i >= words.len() {
        Ok(o)
    } else {
        match argument_named(words[i]) {
            None => options_from(words, i + 1, o),
            Some(a) => if a == Argument::ClickThrough && (i + 1 >= words.len()
                || looks_like_argument(words[i + 1])) {
                options_from(words, i + 1, o.with_click_through(true))
            } else if i + 1 >= words.len() {
                Err(OptionError::MissingValue(a))
            } else {
                match o.with_value(a, words[i + 1]) {
                    Ok(next) => options_from(words, i + 2, next),
                    Err(e) => Err(e),
                }
            },
        }
    }
}

/// The options that a command line gives. The first word is the program.
pub fn parse_initial_options(args: &[String]) -> (r: Result<DesktopWindowOptions, OptionError>)
    ensures
        r == options_from(text::string_contents(args@), 1, DesktopWindowOptions::plain()),
{
    let ghost words = text::string_contents(args@);
    let mut options = DesktopWindowOptions::default();
    let mut i: usize = 1;
    while i < args.len()
        invariant
            1 <= i,
            words == text::string_contents(args@),
            options_from(words, i as int, options) == options_from(
                words,
                1,
                DesktopWindowOptions::plain(),
            ),
        decreases args@.len() - i,
    {
        assert(words[i as int] == args@[i as int]@);
        match argument(args[i].as_str()) {
            None => {
                i = i + 1;
            },
            Some(a) => {
                if i + 1 < args.len() {
                    assert(words[i + 1] == args@[i + 1]@);
                }
                if a == Argument::ClickThrough && (i + 1 >= args.len() || is_argument_like(
                    args[i + 1].as_str(),
                )) {
                    options.set_click_through(true);
                    i = i + 1;
                } else if i + 1 >= args.len() {
                    return Err(OptionError::MissingValue(a));
                } else {
                    match options.read_value(a, args[i + 1].as_str()) {
                        Ok(next) => {
                            options = next;
                        },
                        Err(e) => {
                            return Err(e);
                        },
                    }
                    i = i + 2;
                }
            },
        }
    }
    Ok(options)
}

/// The names of the arguments are all different.
proof fn argument_names_differ()
    ensures
        argument_named("--request-id"@) == Some(Argument::RequestId),
        argument_named("--owner-app-id"@) == Some(Argument::OwnerAppId),
        argument_named("--target-canvas-id"@) == Some(Argument::TargetCanvasId),
        argument_named("--mode"@) == Some(Argument::Mode),
        argument_named("--click-through"@) == Some(Argument::ClickThrough),
        argument_named("--x"@) == Some(Argument::X),
        argument_named("--y"@) == Some(Argument::Y),
        argument_named("--w"@) == Some(Argument::W),
        argument_named("--h"@) == Some(Argument::H),
{
    reveal_strlit("--request-id");
    reveal_strlit("--owner-app-id");
    reveal_strlit("--target-canvas-id");
    reveal_strlit("--mode");
    reveal_strlit("--click-through");
    reveal_strlit("--x");
    reveal_strlit("--y");
    reveal_strlit("--w");
    reveal_strlit("--h");
    assert("--request-id"@.len() == 12);
    assert("--owner-app-id"@.len() == 14);
    assert("--target-canvas-id"@.len() == 18);
    assert("--mode"@.len() == 6);
    assert("--click-through"@.len() == 15);
    assert("--x"@.len() == 3 && "--x"@[2] == 'x');
    assert("--y"@.len() == 3 && "--y"@[2] == 'y');
    assert("--w"@.len() == 3 && "--w"@[2] == 'w');
    assert("--h"@.len() == 3 && "--h"@[2] == 'h');
}

/// The name of a mode on a command line is read as that mode.
pub proof fn mode_names_read_back(mode: DesktopWindowMode)
    ensures
        mode_value(mode.name()) == Some(mode),
{
    reveal_strlit("bordered");
    reveal_strlit("borderless");
    reveal_strlit("borderless-fullscreen");
    assert("bordered"@.len() == 8);
    assert("borderless"@.len() == 10);
    assert("borderless-fullscreen"@.len() == 21);
}

/// The options of a window that the server launches.
pub open spec fn launched(o: DesktopWindowLaunchOptions) -> DesktopWindowOptions {
    DesktopWindowOptions {
        request_id: o.request_id,
        owner_app_id: if o.owner_app_id != 0 {
            Some(o.owner_app_id)
        } else {
            None
        },
        target_canvas_id: o.target_canvas_id,
        mode: o.mode,
        flags: o.flags & DESKTOP_WINDOW_FLAG_CLICK_THROUGH,
        x: o.x,
        y: o.y,
        w: o.w,
        h: o.h,
    }
}

/// One argument with a value that it takes.
proof fn one_argument(
    words: Seq<Seq<char>>,
    i: int,
    o: DesktopWindowOptions,
    a: Argument,
    next: DesktopWindowOptions,
)
    requires
        0 <= i,
        i + 1 < words.len(),
        argument_named(words[i]) == Some(a),
        !looks_like_argument(words[i + 1]) || a != Argument::ClickThrough,
        o.with_value(a, words[i + 1]) == Ok::<DesktopWindowOptions, OptionError>(next),
    ensures
        options_from(words, i, o) == options_from(words, i + 2, next),
{
}

/// The command line with which the server launches a window is read back as what it
/// was made from.
pub proof fn launches_read_back(program: Seq<char>, o: DesktopWindowLaunchOptions)
    ensures
        options_from(
            seq![program] + catalog::launch_words(o),
            1,
            DesktopWindowOptions::plain(),
        ) == Ok::<DesktopWindowOptions, OptionError>(launched(o)),
{
    let words = seq![program] + catalog::launch_words(o);
    argument_names_differ();
    mode_names_read_back(o.mode);
    text::u32_reads_back(o.request_id);
    text::u32_reads_back(o.owner_app_id);
    text::u32_reads_back(o.target_canvas_id);
    text::u32_reads_back(o.w);
    text::u32_reads_back(o.h);
    text::i32_reads_back(o.x);
    text::i32_reads_back(o.y);
    reveal_strlit("0");
    reveal_strlit("1");
    reveal_strlit("true");
    reveal_strlit("yes");
    reveal_strlit("on");
    let flags = o.flags;
    assert(flags & 1 != 0 ==> 0u32 | 1u32 == flags & 1) by (bit_vector);
    assert(flags & 1 == 0 ==> 0u32 & !1u32 == flags & 1) by (bit_vector);
    let enabled = o.flags & DESKTOP_WINDOW_FLAG_CLICK_THROUGH != 0;
    assert(flag_value("1"@) == Some(true));
    assert(flag_value("0"@) == Some(false)) by {
        assert("0"@.len() == 1 && "0"@[0] == '0' && "1"@[0] == '1');
        assert("true"@.len() == 4 && "yes"@.len() == 3 && "on"@.len() == 2);
    }
    let o0 = DesktopWindowOptions::plain();
    let o1 = DesktopWindowOptions { request_id: o.request_id, ..o0 };
    let o2 = DesktopWindowOptions {
        owner_app_id: if o.owner_app_id != 0 {
            Some(o.owner_app_id)
        } else {
            None
        },
        ..o1
    };
    let o3 = DesktopWindowOptions { target_canvas_id: o.target_canvas_id, ..o2 };
    let o4 = DesktopWindowOptions { mode: o.mode, ..o3 };
    let o5 = o4.with_click_through(enabled);
    let o6 = DesktopWindowOptions { x: o.x, ..o5 };
    let o7 = DesktopWindowOptions { y: o.y, ..o6 };
    let o8 = DesktopWindowOptions { w: o.w, ..o7 };
    let o9 = DesktopWindowOptions { h: o.h, ..o8 };
    one_argument(words, 1, o0, Argument::RequestId, o1);
    one_argument(words, 3, o1, Argument::OwnerAppId, o2);
    one_argument(words, 5, o2, Argument::TargetCanvasId, o3);
    one_argument(words, 7, o3, Argument::Mode, o4);
    one_argument(words, 9, o4, Argument::ClickThrough, o5);
    one_argument(words, 11, o5, Argument::X, o6);
    one_argument(words, 13, o6, Argument::Y, o7);
    one_argument(words, 15, o7, Argument::W, o8);
    one_argument(words, 17, o8, Argument::H, o9);
    assert(words.len() == 19);
    assert(o9 == launched(o));
}

/// A window that nothing is said of has no request, owner or target, a border and
/// no flags, and stands at a hundred, a hundred with its usual size. So does one
/// whose command line holds nothing but the program.
pub proof fn silent_command_lines_give_a_plain_window(
    args: &[String],
    r: Result<DesktopWindowOptions, OptionError>,
)
    requires
        call_ensures(parse_initial_options, (args,), r),
        args@.len() <= 1,
    ensures
        r matches Ok(o) && {
            &&& o.request_id == 0
            &&& o.owner_app_id is None
            &&& o.target_canvas_id == 0
            &&& o.mode is Bordered
            &&& o.flags == 0
            &&& o.x == 100
            &&& o.y == 100
            &&& o.w == 720
            &&& o.h == 420
        },
{
}

/// Each argument that is a number sets the option of its own name, to the value of
/// the word that follows, and no other; the line is then read on behind that word.
/// A later value takes the place of an earlier one. An owner of zero is none.
pub proof fn numbers_set_their_own_option(words: Seq<Seq<char>>, i: int, o: DesktopWindowOptions)
    requires
        0 <= i < words.len() - 1,
    ensures
        ({
            let n = text::u32_value(words[i + 1]);
            let k = text::i32_value(words[i + 1]);
            &&& words[i] == "--request-id"@ && n is Some ==> options_from(words, i, o)
                == options_from(words, i + 2, DesktopWindowOptions { request_id: n->0, ..o })
            &&& words[i] == "--owner-app-id"@ && n is Some && n->0 != 0 ==> options_from(words, i, o)
                == options_from(words, i + 2, DesktopWindowOptions { owner_app_id: n, ..o })
            &&& words[i] == "--owner-app-id"@ && n == Some(0u32) ==> options_from(words, i, o)
                == options_from(words, i + 2, DesktopWindowOptions { owner_app_id: None, ..o })
            &&& words[i] == "--target-canvas-id"@ && n is Some ==> options_from(words, i, o)
                == options_from(words, i + 2, DesktopWindowOptions { target_canvas_id: n->0, ..o })
            &&& words[i] == "--x"@ && k is Some ==> options_from(words, i, o) == options_from(
                words,
                i + 2,
                DesktopWindowOptions { x: k->0, ..o },
            )
            &&& words[i] == "--y"@ && k is Some ==> options_from(words, i, o) == options_from(
                words,
                i + 2,
                DesktopWindowOptions { y: k->0, ..o },
            )
            &&& words[i] == "--w"@ && n is Some ==> options_from(words, i, o) == options_from(
                words,
                i + 2,
                DesktopWindowOptions { w: n->0, ..o },
            )
            &&& words[i] == "--h"@ && n is Some ==> options_from(words, i, o) == options_from(
                words,
                i + 2,
                DesktopWindowOptions { h: n->0, ..o },
            )
            &&& words[i] == "--request-id"@ && n is None ==> options_from(words, i, o) == Err::<
                DesktopWindowOptions,
                OptionError,
            >(OptionError::BadNumber(Argument::RequestId))
            &&& words[i] == "--owner-app-id"@ && n is None ==> options_from(words, i, o) == Err::<
                DesktopWindowOptions,
                OptionError,
            >(OptionError::BadNumber(Argument::OwnerAppId))
            &&& words[i] == "--target-canvas-id"@ && n is None ==> options_from(words, i, o) == Err::<
                DesktopWindowOptions,
                OptionError,
            >(OptionError::BadNumber(Argument::TargetCanvasId))
            &&& words[i] == "--x"@ && k is None ==> options_from(words, i, o) == Err::<
                DesktopWindowOptions,
                OptionError,
            >(OptionError::BadNumber(Argument::X))
            &&& words[i] == "--y"@ && k is None ==> options_from(words, i, o) == Err::<
                DesktopWindowOptions,
                OptionError,
            >(OptionError::BadNumber(Argument::Y))
            &&& words[i] == "--w"@ && n is None ==> options_from(words, i, o) == Err::<
                DesktopWindowOptions,
                OptionError,
            >(OptionError::BadNumber(Argument::W))
            &&& words[i] == "--h"@ && n is None ==> options_from(words, i, o) == Err::<
                DesktopWindowOptions,
                OptionError,
            >(OptionError::BadNumber(Argument::H))
        }),
{
    argument_names_differ();
}

/// The mode is set by its name, and the click-through flag by a word for yes or no
/// or by standing alone; nothing else is set with them. An argument that needs a
/// value and has none is an error; a word that is no argument is passed over.
pub proof fn modes_and_flags_are_set_by_name(
    words: Seq<Seq<char>>,
    i: int,
    o: DesktopWindowOptions,
)
    requires
        0 <= i < words.len(),
    ensures
        ({
            let last = i + 1 == words.len();
            let next = words[i + 1];
            let on = DesktopWindowOptions { flags: o.flags | 1, ..o };
            let off = DesktopWindowOptions { flags: o.flags & !1u32, ..o };
            let alone = last || (next.len() >= 2 && next[0] == '-' && next[1] == '-');
            &&& words[i] == "--mode"@ && !last && next == "bordered"@ ==> options_from(words, i, o)
                == options_from(
                words,
                i + 2,
                DesktopWindowOptions { mode: DesktopWindowMode::Bordered, ..o },
            )
            &&& words[i] == "--mode"@ && !last && next == "borderless"@ ==> options_from(words, i, o)
                == options_from(
                words,
                i + 2,
                DesktopWindowOptions { mode: DesktopWindowMode::Borderless, ..o },
            )
            &&& words[i] == "--mode"@ && !last && (next == "borderless-fullscreen"@ || next
                == "fullscreen"@) ==> options_from(words, i, o) == options_from(
                words,
                i + 2,
                DesktopWindowOptions { mode: DesktopWindowMode::BorderlessFullscreen, ..o },
            )
            &&& words[i] == "--mode"@ && !last && next != "bordered"@ && next != "borderless"@ && next
                != "borderless-fullscreen"@ && next != "fullscreen"@ ==> options_from(words, i, o)
                == Err::<DesktopWindowOptions, OptionError>(OptionError::UnknownMode)
            &&& words[i] == "--click-through"@ && alone ==> options_from(words, i, o)
                == options_from(words, i + 1, on)
            &&& words[i] == "--click-through"@ && !alone && (next == "1"@ || next == "true"@ || next
                == "yes"@ || next == "on"@) ==> options_from(words, i, o) == options_from(
                words,
                i + 2,
                on,
            )
            &&& words[i] == "--click-through"@ && !alone && next != "1"@ && next != "true"@ && next
                != "yes"@ && next != "on"@ && next != "0"@ && next != "false"@ && next != "no"@
                && next != "off"@ ==> options_from(words, i, o) == Err::<
                DesktopWindowOptions,
                OptionError,
            >(OptionError::BadFlag)
            &&& words[i] == "--click-through"@ && !alone && (next == "0"@ || next == "false"@ || next
                == "no"@ || next == "off"@) ==> options_from(words, i, o) == options_from(
                words,
                i + 2,
                off,
            )
            &&& words[i] == "--request-id"@ && last ==> options_from(words, i, o) == Err::<
                DesktopWindowOptions,
                OptionError,
            >(OptionError::MissingValue(Argument::RequestId))
            &&& words[i] == "--owner-app-id"@ && last ==> options_from(words, i, o) == Err::<
                DesktopWindowOptions,
                OptionError,
            >(OptionError::MissingValue(Argument::OwnerAppId))
            &&& words[i] == "--target-canvas-id"@ && last ==> options_from(words, i, o) == Err::<
                DesktopWindowOptions,
                OptionError,
            >(OptionError::MissingValue(Argument::TargetCanvasId))
            &&& words[i] == "--x"@ && last ==> options_from(words, i, o) == Err::<
                DesktopWindowOptions,
                OptionError,
            >(OptionError::MissingValue(Argument::X))
            &&& words[i] == "--y"@ && last ==> options_from(words, i, o) == Err::<
                DesktopWindowOptions,
                OptionError,
            >(OptionError::MissingValue(Argument::Y))
            &&& words[i] == "--w"@ && last ==> options_from(words, i, o) == Err::<
                DesktopWindowOptions,
                OptionError,
            >(OptionError::MissingValue(Argument::W))
            &&& words[i] == "--h"@ && last ==> options_from(words, i, o) == Err::<
                DesktopWindowOptions,
                OptionError,
            >(OptionError::MissingValue(Argument::H))
            &&& words[i] == "--mode"@ && last ==> options_from(words, i, o) == Err::<
                DesktopWindowOptions,
                OptionError,
            >(OptionError::MissingValue(Argument::Mode))
            &&& words[i] != "--request-id"@ && words[i] != "--owner-app-id"@ && words[i]
                != "--target-canvas-id"@ && words[i] != "--mode"@ && words[i] != "--click-through"@
                && words[i] != "--x"@ && words[i] != "--y"@ && words[i] != "--w"@ && words[i]
                != "--h"@ ==> options_from(words, i, o) == options_from(words, i + 1, o)
            &&& last ==> options_from(words, i + 1, o) == Ok::<DesktopWindowOptions, OptionError>(o)
        }),
{
    argument_names_differ();
    mode_names_read_back(DesktopWindowMode::Bordered);
    mode_names_read_back(DesktopWindowMode::Borderless);
    mode_names_read_back(DesktopWindowMode::BorderlessFullscreen);
    reveal_strlit("bordered");
    reveal_strlit("borderless");
    reveal_strlit("borderless-fullscreen");
    reveal_strlit("fullscreen");
    assert("bordered"@.len() == 8 && "borderless"@.len() == 10);
    assert("borderless-fullscreen"@.len() == 21 && "fullscreen"@.len() == 10);
    assert("borderless"@[0] == 'b' && "fullscreen"@[0] == 'f');
    reveal_strlit("1");
    reveal_strlit("true");
    reveal_strlit("yes");
    reveal_strlit("on");
    reveal_strlit("0");
    reveal_strlit("false");
    reveal_strlit("no");
    reveal_strlit("off");
    assert("1"@.len() == 1 && "0"@.len() == 1 && "1"@[0] == '1' && "0"@[0] == '0');
    assert("true"@.len() == 4 && "false"@.len() == 5);
    assert("yes"@.len() == 3 && "off"@.len() == 3 && "yes"@[0] == 'y' && "off"@[0] == 'o');
    assert("on"@.len() == 2 && "no"@.len() == 2 && "on"@[0] == 'o' && "no"@[0] == 'n');
}

/// A window that the server launches is the one that it was told to launch: under
/// its request, for its owner and its canvas, in its mode, at its place and with
/// its size. Of the flags the click-through flag is handed over.
pub proof fn launched_windows_are_what_was_launched(
    program: Seq<char>,
    o: DesktopWindowLaunchOptions,
)
    ensures
        options_from(
            seq![program] + catalog::launch_words(o),
            1,
            DesktopWindowOptions::plain(),
        ) matches Ok(w) && {
            &&& w.request_id == o.request_id
            &&& o.owner_app_id != 0 ==> w.owner_app_id == Some(o.owner_app_id)
            &&& o.owner_app_id == 0 ==> w.owner_app_id is None
            &&& w.target_canvas_id == o.target_canvas_id
            &&& w.mode == o.mode
            &&& w.flags & 1 == o.flags & 1
            &&& w.x == o.x
            &&& w.y == o.y
            &&& w.w == o.w
            &&& w.h == o.h
        },
{
    launches_read_back(program, o);
    let flags = o.flags;
    assert((flags & 1) & 1 == flags & 1) by (bit_vector);
}

/// A request for a window from another start of the monitor.
#[derive(Debug, Clone, Copy, PartialEq, Eq, Structural)]
pub enum WindowRequest {
    OpenWindow { target_canvas_id: u32 },
    OpenWindowV2 {
        request_id: u32,
        owner_app_id: u32,
        target_canvas_id: u32,
        mode: DesktopWindowMode,
        flags: u32,
        x: i32,
        y: i32,
        w: u32,
        h: u32,
    },
}

impl WindowRequest {
    /// The request as it goes over the pipe, where the pipe has a form for it.
    pub fn to_singleton(self) -> (r: Option<SingletonRequest>)
        ensures
            r == (match self {
                WindowRequest::OpenWindow { target_canvas_id } => Some(
                    SingletonRequest::OpenWindow { target_canvas_id },
                ),
                WindowRequest::OpenWindowV2 { .. } => None,
            }),
    {
        match self {
            WindowRequest::OpenWindow { target_canvas_id } => Some(
                SingletonRequest::OpenWindow { target_canvas_id },
            ),
            WindowRequest::OpenWindowV2 { .. } => None,
        }
    }

    /// The request that came over the pipe.
    pub fn from_singleton(req: SingletonRequest) -> (r: Self)
        ensures
            r == (WindowRequest::OpenWindow { target_canvas_id: req->target_canvas_id }),
    {
        match req {
            SingletonRequest::OpenWindow { target_canvas_id } => WindowRequest::OpenWindow {
                target_canvas_id,
            },
        }
    }
}

/// The options of the window that a request asks for.
pub open spec fn request_options(req: WindowRequest) -> DesktopWindowOptions {
    match req {
        WindowRequest::OpenWindow { target_canvas_id } => DesktopWindowOptions {
            target_canvas_id,
            ..DesktopWindowOptions::plain()
        },
        WindowRequest::OpenWindowV2 {
            request_id,
            owner_app_id,
            target_canvas_id,
            mode,
            flags,
            x,
            y,
            w,
            h,
        } => DesktopWindowOptions {
            request_id,
            owner_app_id: if owner_app_id != 0 {
                Some(owner_app_id)
            } else {
                None
            },
            target_canvas_id,
            mode,
            flags,
            x,
            y,
            w,
            h,
        },
    }
}

/// The request for a window with these options.
pub open spec fn options_request(o: DesktopWindowOptions) -> WindowRequest {
    if o.requested() {
        WindowRequest::OpenWindowV2 {
            request_id: o.request_id,
            owner_app_id: o.owner_number(),
            target_canvas_id: o.target_canvas_id,
            mode: o.mode,
            flags: o.flags,
            x: o.x,
            y: o.y,
            w: o.w,
            h: o.h,
        }
    } else {
        WindowRequest::OpenWindow { target_canvas_id: o.target_canvas_id }
    }
}

/// The options of the window that a request asks for.
pub fn options_from_singleton_request(request: WindowRequest) -> (r: DesktopWindowOptions)
    ensures
        r == request_options(request),
{
    match request {
        WindowRequest::OpenWindow { target_canvas_id } => {
            let mut o = DesktopWindowOptions::default();
            o.target_canvas_id = target_canvas_id;
            o
        },
        WindowRequest::OpenWindowV2 {
            request_id,
            owner_app_id,
            target_canvas_id,
            mode,
            flags,
            x,
            y,
            w,
            h,
        } => {
            let owner = if owner_app_id != 0 {
                Some(owner_app_id)
            } else {
                None
            };
            DesktopWindowOptions {
                request_id,
                owner_app_id: owner,
                target_canvas_id,
                mode,
                flags,
                x,
                y,
                w,
                h,
            }
        },
    }
}

/// The request for a window with these options.
pub fn singleton_request_from_options(options: DesktopWindowOptions) -> (r: WindowRequest)
    ensures
        r == options_request(options),
{
    if options.core_requested() {
        WindowRequest::OpenWindowV2 {
            request_id: options.request_id,
            owner_app_id: options.owner_app_id_wire(),
            target_canvas_id: options.target_canvas_id,
            mode: options.mode,
            flags: options.flags,
            x: options.x,
            y: options.y,
            w: options.w,
            h: options.h,
        }
    } else {
        WindowRequest::OpenWindow { target_canvas_id: options.target_canvas_id }
    }
}

/// A window that the server asked for is handed over with all its options. No app
/// has the number zero.
pub proof fn requested_windows_are_handed_over_whole(o: DesktopWindowOptions)
    requires
        o.requested(),
        o.owner_app_id != Some(0u32),
    ensures
        request_options(options_request(o)) == o,
{
}

/// A window that nobody asked for is handed over as a plain one.
pub proof fn other_windows_are_handed_over_plain(o: DesktopWindowOptions)
    requires
        !o.requested(),
    ensures
        request_options(options_request(o)) == DesktopWindowOptions::plain(),
{
}

/// A rectangle on the screen.
#[derive(Debug, Clone, Copy, PartialEq, Eq, Structural)]
pub struct ScreenRect {
    pub left: i32,
    pub top: i32,
    pub right: i32,
    pub bottom: i32,
}

/// A place on the screen and an extent.
#[derive(Debug, Clone, Copy, PartialEq, Eq, Structural)]
pub struct Placement {
    pub x: i32,
    pub y: i32,
    pub w: i32,
    pub h: i32,
}

/// A number, or the nearest that fits.
pub open spec fn nearest_i32(n: int) -> i32 {
    if n > i32::MAX {
        i32::MAX
    } else if n < i32::MIN {
        i32::MIN
    } else {
        n as i32
    }
}

/// The width or height of a window: zero stands for the fallback.
pub open spec fn dimension(value: u32, fallback: i32) -> i32 {
    if value == 0 {
        fallback
    } else {
        nearest_i32(value as int)
    }
}

/// The width or height of a window.
pub fn window_dimension(value: u32, fallback: i32) -> (r: i32)
    ensures
        r == dimension(value, fallback),
{
    if value == 0 {
        fallback
    } else if value > 0x7FFF_FFFF {
        i32::MAX
    } else {
        value as i32
    }
}

/// Where a window that is not full screen stands.
pub open spec fn window_place(o: DesktopWindowOptions) -> Placement {
    Placement { x: o.x, y: o.y, w: dimension(o.w, 720), h: dimension(o.h, 420) }
}

/// The rectangle by which a full screen window finds its screen.
pub fn search_rect(o: DesktopWindowOptions) -> (r: ScreenRect)
    ensures
        r == (ScreenRect {
            left: o.x,
            top: o.y,
            right: nearest_i32(o.x + dimension(o.w, 720)),
            bottom: nearest_i32(o.y + dimension(o.h, 420)),
        }),
{
    let w: i32 = window_dimension(o.w, DEFAULT_WIDTH);
    let h: i32 = window_dimension(o.h, DEFAULT_HEIGHT);
    ScreenRect {
        left: o.x,
        top: o.y,
        right: nearest(o.x as i64 + w as i64),
        bottom: nearest(o.y as i64 + h as i64),
    }
}

fn nearest(n: i64) -> (r: i32)
    ensures
        r == nearest_i32(n as int),
{
    if n > 0x7FFF_FFFF {
        i32::MAX
    } else if n < -0x8000_0000 {
        i32::MIN
    } else {
        n as i32
    }
}

/// The extent between two edges: at least one.
pub open spec fn extent(low: i32, high: i32) -> i32 {
    let n = nearest_i32(high - low);
    if n < 1 {
        1
    } else {
        n
    }
}

fn at_least_one(low: i32, high: i32) -> (r: i32)
    ensures
        r == extent(low, high),
{
    let n: i32 = nearest(high as i64 - low as i64);
    if n < 1 {
        1
    } else {
        n
    }
}

/// Where a window stands: a full screen window covers its screen, where that is
/// known.
pub open spec fn placed(o: DesktopWindowOptions, screen: Option<ScreenRect>) -> Placement {
    if o.mode == DesktopWindowMode::BorderlessFullscreen && screen is Some {
        Placement {
            x: screen->0.left,
            y: screen->0.top,
            w: extent(screen->0.left, screen->0.right),
            h: extent(screen->0.top, screen->0.bottom),
        }
    } else {
        window_place(o)
    }
}

/// Where a window stands.
pub fn placement(o: DesktopWindowOptions, screen: Option<ScreenRect>) -> (r: Placement)
    ensures
        r == placed(o, screen),
{
    if o.mode == DesktopWindowMode::BorderlessFullscreen {
        if let Some(s) = screen {
            return Placement {
                x: s.left,
                y: s.top,
                w: at_least_one(s.left, s.right),
                h: at_least_one(s.top, s.bottom),
            };
        }
    }
    Placement {
        x: o.x,
        y: o.y,
        w: window_dimension(o.w, DEFAULT_WIDTH),
        h: window_dimension(o.h, DEFAULT_HEIGHT),
    }
}

/// A window is never without extent.
pub proof fn windows_have_an_extent(o: DesktopWindowOptions, screen: Option<ScreenRect>)
    ensures
        placed(o, screen).w >= 1,
        placed(o, screen).h >= 1,
{
}

/// Whether a window has a frame.
pub fn has_frame(mode: DesktopWindowMode) -> (r: bool)
    ensures
        r == (mode == DesktopWindowMode::Bordered),
{
    mode == DesktopWindowMode::Bordered
}

/// How long a try to connect again waits, in milliseconds: longer after the first
/// tries, and not the same for all processes.
pub open spec fn delay_ms(pid: u32, attempt: u32) -> int {
    (if attempt == 0 {
        500int
    } else if attempt == 1 {
        1000int
    } else {
        2000int
    }) + (pid + attempt * 73) % 201
}

/// How long a try to connect again waits, in milliseconds.
pub fn reconnect_delay(pid: u32, attempt: u32) -> (r: u64)
    ensures
        r == delay_ms(pid, attempt),
{
    let jitter: u64 = (pid as u64 + attempt as u64 * 73) % 201;
    if attempt == 0 {
        500 + jitter
    } else if attempt == 1 {
        1000 + jitter
    } else {
        2000 + jitter
    }
}

/// A wait is bounded, and at least half a second.
pub proof fn delays_are_bounded(pid: u32, attempt: u32)
    ensures
        500 <= delay_ms(pid, attempt) <= 2200,
{
}

/// How a window registers at the server.
pub fn register_message(options: DesktopWindowOptions, pid: u32) -> (r: ControlMessage)
    ensures
        r == (if options.requested() {
            ControlMessage::RegisterMonitorV2 {
                pid,
                kind: MonitorKind::DesktopWindow,
                owner_app_id: options.owner_number(),
                request_id: options.request_id,
                target_canvas_id: options.target_canvas_id,
                mode: options.mode,
                flags: options.flags,
                manual_lifecycle: false,
            }
        } else {
            ControlMessage::RegisterMonitor { pid }
        }),
{
    if options.core_requested() {
        ControlMessage::RegisterMonitorV2 {
            pid,
            kind: MonitorKind::DesktopWindow,
            owner_app_id: options.owner_app_id_wire(),
            request_id: options.request_id,
            target_canvas_id: options.target_canvas_id,
            mode: options.mode,
            flags: options.flags,
            manual_lifecycle: false,
        }
    } else {
        ControlMessage::RegisterMonitor { pid }
    }
}

/// A canvas that a window is to show.
#[derive(Debug, Clone, Copy, PartialEq, Eq, Structural)]
pub struct CanvasAttach {
    pub canvas_id: u32,
    pub surface_handle: u64,
    pub logical_w: u32,
    pub logical_h: u32,
    pub render_w: u32,
    pub render_h: u32,
}

/// What a message means to a window that waits for its canvas.
#[derive(Debug, Clone, Copy, PartialEq, Eq, Structural)]
pub enum AwaitStep {
    /// Its canvas is there.
    Attached(CanvasAttach),
    /// It is another canvas; the window waits on.
    OtherCanvas { canvas_id: u32 },
    /// The server does not want the window.
    Closed { monitor_id: u32 },
    /// It is another message; the window waits on.
    Unexpected,
}

/// What a message means to a window that waits for its canvas. A window without a
/// target takes any.
pub fn await_attach(options: DesktopWindowOptions, msg: &ControlMessage) -> (r: AwaitStep)
    ensures
        r == (match *msg {
            ControlMessage::CanvasAttached {
                canvas_id,
                surface_handle,
                logical_w,
                logical_h,
                render_w,
                render_h,
            } => if options.target_canvas_id == 0 || canvas_id == options.target_canvas_id {
                AwaitStep::Attached(
                    CanvasAttach {
                        canvas_id,
                        surface_handle,
                        logical_w,
                        logical_h,
                        render_w,
                        render_h,
                    },
                )
            } else {
                AwaitStep::OtherCanvas { canvas_id }
            },
            ControlMessage::CloseMonitor { monitor_id } => AwaitStep::Closed { monitor_id },
            _ => AwaitStep::Unexpected,
        }),
{
    match msg {
        ControlMessage::CanvasAttached {
            canvas_id,
            surface_handle,
            logical_w,
            logical_h,
            render_w,
            render_h,
        } => if options.target_canvas_id == 0 || *canvas_id == options.target_canvas_id {
            AwaitStep::Attached(
                CanvasAttach {
                    canvas_id: *canvas_id,
                    surface_handle: *surface_handle,
                    logical_w: *logical_w,
                    logical_h: *logical_h,
                    render_w: *render_w,
                    render_h: *render_h,
                },
            )
        } else {
            AwaitStep::OtherCanvas { canvas_id: *canvas_id }
        },
        ControlMessage::CloseMonitor { monitor_id } => AwaitStep::Closed {
            monitor_id: *monitor_id,
        },
        _ => AwaitStep::Unexpected,
    }
}

} // verus!
