//! The demo app: its command line, its requests, and where in the command region
//! its frames stand.

use vstd::prelude::*;

use crate::protocol::{
    ControlMessage, DesktopWindowMode, MessageView, MonitorKind, MonitorRequestStatus,
    MonitorTypeEntry, DESKTOP_WINDOW_FLAG_CLICK_THROUGH,
};
use crate::shmem;
use crate::shmem::RingbufferHeader;
use crate::text;
use crate::text::{parse_u32, same};
use crate::window_options;
use crate::window_options::parse_mode;

verus! {

/// The bitmaps of the demo.
pub const TEXTURE_ORB: u32 = 1;

pub const TEXTURE_GRID: u32 = 2;

pub const TEXTURE_STRIPES: u32 = 3;

/// The bytes that a frame of the demo may take.
pub const FRAME_SLOT: u32 = 0x1_0000;

/// Where the first frame stands.
pub const FIRST_SLOT: u32 = 24;

/// Where the frames begin again.
pub const SLOTS_END: u32 = 0xE0_0000;

/// What the demo was asked to do.
#[derive(Debug, Clone, Copy, PartialEq, Eq, Structural)]
pub struct DemoOptions {
    /// Frames do not wait for the screen.
    pub unlocked: bool,
    pub desktop_monitors: u32,
    pub window_mode: DesktopWindowMode,
    pub click_through: bool,
}

impl DemoOptions {
    /// Nothing was asked for.
    pub open spec fn plain() -> DemoOptions {
        DemoOptions {
            unlocked: false,
            desktop_monitors: 0,
            window_mode: DesktopWindowMode::Bordered,
            click_through: false,
        }
    }
}

impl Default for DemoOptions {
    fn default() -> (r: Self)
        ensures
            r == Self::plain(),
    {
        DemoOptions {
            unlocked: false,
            desktop_monitors: 0,
            window_mode: DesktopWindowMode::Bordered,
            click_through: false,
        }
    }
}

/// Why a command line cannot be followed.
#[derive(Debug, Clone, Copy, PartialEq, Eq, Structural)]
pub enum DemoError {
    MissingCount,
    BadCount,
    MissingMode,
    UnknownMode,
    /// The word at this place is no argument.
    UnknownArgument(usize),
}

/// An argument of the command line.
#[derive(Debug, Clone, Copy, PartialEq, Eq, Structural)]
pub enum DemoArgument {
    Unlocked,
    DesktopMonitors,
    WindowMode,
    ClickThrough,
    Help,
}

/// The argument with that name.
pub open spec fn demo_argument(word: Seq<char>) -> Option<DemoArgument> {
    if word == "--unlocked"@ || word == "--no-vsync"@ {
        Some(DemoArgument::Unlocked)
    } else if word == "--desktop-monitors"@ {
        Some(DemoArgument::DesktopMonitors)
    } else if word == "--window-mode"@ {
        Some(DemoArgument::WindowMode)
    } else if word == "--click-through"@ {
        Some(DemoArgument::ClickThrough)
    } else if word == "-h"@ || word == "--help"@ {
        Some(DemoArgument::Help)
    } else {
        None
    }
}

fn argument(word: &str) -> (r: Option<DemoArgument>)
    ensures
        r == demo_argument(word@),
{
    if same(word, "--unlocked") || same(word, "--no-vsync") {
        Some(DemoArgument::Unlocked)
    } else if same(word, "--desktop-monitors") {
        Some(DemoArgument::DesktopMonitors)
    } else if same(word, "--window-mode") {
        Some(DemoArgument::WindowMode)
    } else if same(word, "--click-through") {
        Some(DemoArgument::ClickThrough)
    } else if same(word, "-h") || same(word, "--help") {
        Some(DemoArgument::Help)
    } else {
        None
    }
}

/// What the words from `i` on ask for: none where they ask for help.
pub open spec fn demo_from(words: Seq<Seq<char>>, i: int, o: DemoOptions) -> Result<
    Option<DemoOptions>,
    DemoError,
>
    decreases words.len() - i,
{
    if i >= words.len() {
        Ok(Some(o))
    } else {
        match demo_argument(words[i]) {
            None => Err(DemoError::UnknownArgument(i as usize)),
            Some(DemoArgument::Help) => Ok(None),
            Some(DemoArgument::Unlocked) => demo_from(
                words,
                i + 1,
                DemoOptions { unlocked: true, ..o },
            ),
            Some(DemoArgument::ClickThrough) => demo_from(
                words,
                i + 1,
                DemoOptions { click_through: true, ..o },
            ),
            Some(DemoArgument::DesktopMonitors) => if i + 1 >= words.len() {
                Err(DemoError::MissingCount)
            } else {
                match text::u32_value(words[i + 1]) {
                    Some(n) => demo_from(words, i + 2, DemoOptions { desktop_monitors: n, ..o }),
                    None => Err(DemoError::BadCount),
                }
            },
            Some(DemoArgument::WindowMode) => if i + 1 >= words.len() {
                Err(DemoError::MissingMode)
            } else {
                match window_options::mode_value(words[i + 1]) {
                    Some(mode) => demo_from(words, i + 2, DemoOptions { window_mode: mode, ..o }),
                    None => Err(DemoError::UnknownMode),
                }
            },
        }
    }
}

/// What a command line asks for: none where it asks for help. The first word is the
/// program.
pub fn parse_demo_options(args: &[String]) -> (r: Result<Option<DemoOptions>, DemoError>)
    ensures
        r == demo_from(text::string_contents(args@), 1, DemoOptions::plain()),
{
    let ghost words = text::string_contents(args@);
    let mut options = DemoOptions::default();
    let mut i: usize = 1;
    while i < args.len()
        invariant
            1 <= i,
            words == text::string_contents(args@),
            demo_from(words, i as int, options) == demo_from(words, 1, DemoOptions::plain()),
        decreases args@.len() - i,
    {
        assert(words[i as int] == args@[i as int]@);
        let found = match argument(args[i].as_str()) {
            Some(found) => found,
            None => {
                return Err(DemoError::UnknownArgument(i));
            },
        };
        match found {
            DemoArgument::Help => {
                return Ok(None);
            },
            DemoArgument::Unlocked => {
                options.unlocked = true;
                i = i + 1;
            },
            DemoArgument::ClickThrough => {
                options.click_through = true;
                i = i + 1;
            },
            DemoArgument::DesktopMonitors => {
                if i + 1 >= args.len() {
                    return Err(DemoError::MissingCount);
                }
                assert(words[i + 1] == args@[i + 1]@);
                match parse_u32(args[i + 1].as_str()) {
                    Some(n) => {
                        options.desktop_monitors = n;
                    },
                    None => {
                        return Err(DemoError::BadCount);
                    },
                }
                i = i + 2;
            },
            DemoArgument::WindowMode => {
                if i + 1 >= args.len() {
                    return Err(DemoError::MissingMode);
                }
                assert(words[i + 1] == args@[i + 1]@);
                match parse_mode(args[i + 1].as_str()) {
                    Some(mode) => {
                        options.window_mode = mode;
                    },
                    None => {
                        return Err(DemoError::UnknownMode);
                    },
                }
                i = i + 2;
            },
        }
    }
    Ok(Some(options))
}

/// The name of a window mode.
pub fn window_mode_label(mode: DesktopWindowMode) -> (r: &'static str)
    ensures
        r@ == mode.name(),
{
    mode.cli_value()
}

/// The request for the windows that the demo was asked to open: none where it was
/// asked for none.
pub fn start_message(options: DemoOptions, request_id: u32) -> (r: Option<ControlMessage>)
    ensures
        r == (if options.desktop_monitors == 0 {
            None
        } else {
            Some(
                ControlMessage::StartMonitor {
                    request_id,
                    kind: MonitorKind::DesktopWindow,
                    count: options.desktop_monitors,
                    target_canvas_id: 0,
                    mode: options.window_mode,
                    flags: if options.click_through {
                        DESKTOP_WINDOW_FLAG_CLICK_THROUGH
                    } else {
                        0
                    },
                    x: 100,
                    y: 100,
                    w: 720,
                    h: 420,
                },
            )
        }),
{
    if options.desktop_monitors == 0 {
        return None;
    }
    let flags: u32 = if options.click_through {
        DESKTOP_WINDOW_FLAG_CLICK_THROUGH
    } else {
        0
    };
    Some(
        ControlMessage::StartMonitor {
            request_id,
            kind: MonitorKind::DesktopWindow,
            count: options.desktop_monitors,
            target_canvas_id: 0,
            mode: options.window_mode,
            flags,
            x: 100,
            y: 100,
            w: 720,
            h: 420,
        },
    )
}

/// The kinds of monitors, where the message is the answer to that request.
pub fn listed_types(msg: ControlMessage, request: u32) -> (r: Option<Vec<MonitorTypeEntry>>)
    ensures
        match msg@ {
            MessageView::MonitorTypes { request_id, entries } => if request_id == request {
                r is Some && r->0@ == entries
            } else {
                r is None
            },
            _ => r is None,
        },
{
    match msg {
        ControlMessage::MonitorTypes { request_id, entries } => if request_id == request {
            Some(entries)
        } else {
            None
        },
        _ => None,
    }
}

/// What came of a request for windows, where the message is the answer to it.
pub fn start_outcome(msg: ControlMessage, request: u32) -> (r: Option<
    (MonitorRequestStatus, Vec<u32>),
>)
    ensures
        match msg@ {
            MessageView::StartMonitorResult { request_id, status, monitor_ids } => if request_id
                == request {
                r matches Some((got, ids)) && got == status && ids@ == monitor_ids
            } else {
                r is None
            },
            _ => r is None,
        },
{
    match msg {
        ControlMessage::StartMonitorResult { request_id, status, monitor_ids } => if request_id
            == request {
            Some((status, monitor_ids))
        } else {
            None
        },
        _ => None,
    }
}

/// Where the frame after the one at `offset` stands.
pub open spec fn slot_after(offset: u32) -> u32 {
    if offset + FRAME_SLOT >= SLOTS_END {
        FIRST_SLOT
    } else {
        (offset + FRAME_SLOT) as u32
    }
}

/// Where the frame after the one at `offset` stands. Frames stand behind one another
/// and begin again at the region's start, so that the server can read one while the
/// next is written.
pub fn next_slot(offset: u32) -> (r: u32)
    requires
        offset < SLOTS_END,
    ensures
        r == slot_after(offset),
{
    let next: u32 = offset + FRAME_SLOT;
    if next >= SLOTS_END {
        FIRST_SLOT
    } else {
        next
    }
}

/// Where frame `n` stands.
pub open spec fn slot_of(n: nat) -> u32
    decreases n,
{
    if n == 0 {
        FIRST_SLOT
    } else {
        slot_after(slot_of((n - 1) as nat))
    }
}

/// Every frame of the demo that keeps to its slot can be read from a fresh region.
pub proof fn slots_lie_in_the_region(n: nat, length: u32)
    requires
        length <= FRAME_SLOT,
    ensures
        FIRST_SLOT <= slot_of(n) < SLOTS_END,
        shmem::slice_error(
            slot_of(n),
            length,
            0x1_0000,
            0x100_0000,
            RingbufferHeader::fresh(0x100_0000).capacity,
        ) is None,
    decreases n,
{
    if n > 0 {
        slots_lie_in_the_region((n - 1) as nat, length);
    }
}

/// The slots of a frame and of the next one do not overlap.
pub proof fn neighbouring_slots_are_apart(n: nat)
    ensures
        slot_of(n + 1) >= slot_of(n) + FRAME_SLOT || slot_of(n) >= slot_of(n + 1) + FRAME_SLOT,
{
    slots_lie_in_the_region(n, 0);
}

} // verus!
