//! The windows of the monitor process, and what it does about messages from the
//! server and the end of a frame.
//!
//! The host creates windows, shows surfaces in them and destroys them; the table
//! says which.

use vstd::prelude::*;

use crate::lifecycle;
use crate::protocol::ControlMessage;
use crate::window_options::{CanvasAttach, DesktopWindowOptions, RECONNECT_MAX_ATTEMPTS};

verus! {

/// The microseconds between two frames.
pub const FRAME_INTERVAL_MICROS: u64 = 8_000;

/// A window of the process. A window that is being replaced and the one that
/// replaces it have the same identifier for a while.
#[derive(Debug, Clone, Copy, PartialEq, Eq, Structural)]
pub struct WindowEntry {
    pub id: u32,
    /// The host's handle.
    pub hwnd: isize,
    pub options: DesktopWindowOptions,
    /// The server's identifier for it, once known.
    pub core_monitor_id: Option<u32>,
    /// The canvas that it shows.
    pub canvas_id: u32,
    /// The window is to be closed.
    pub pending_close: bool,
    /// The window is being drawn.
    pub in_frame: bool,
}

/// What the host is to do about a message.
#[derive(Debug, Clone, Copy, PartialEq, Eq, Structural)]
pub enum WindowAction {
    Nothing,
    /// Create a window in place of the one with that identifier, and show a canvas
    /// in it.
    Recreate { window_id: u32, options: DesktopWindowOptions, attach: CanvasAttach },
    /// Show the monitor's own surface in a window as well.
    ShowLocal { hwnd: isize, canvas_id: u32, surface_handle: u64 },
    /// Say that the message was not expected.
    Unexpected,
}

/// The windows of the process.
#[derive(Debug)]
pub struct WindowTable {
    pub windows: Vec<WindowEntry>,
    pub next_window_id: u32,
}

/// Where the first window with an identifier stands; the number of windows where
/// there is none. `open_only` passes over windows that are to be closed.
pub open spec fn find_window(windows: Seq<WindowEntry>, id: u32, open_only: bool) -> int
    decreases windows.len(),
{
    if windows.len() == 0 || (windows[0].id == id && !(open_only && windows[0].pending_close)) {
        0
    } else {
        1 + find_window(windows.drop_first(), id, open_only)
    }
}

/// The place that is found is a window's, or behind all; it is the first.
pub proof fn find_window_finds(windows: Seq<WindowEntry>, id: u32, open_only: bool)
    ensures
        0 <= find_window(windows, id, open_only) <= windows.len(),
        find_window(windows, id, open_only) < windows.len() ==> {
            let w = windows[find_window(windows, id, open_only)];
            w.id == id && !(open_only && w.pending_close)
        },
        forall|i: int|
            0 <= i < find_window(windows, id, open_only) ==> (#[trigger] windows[i]).id != id || (
            open_only && windows[i].pending_close),
    decreases windows.len(),
{
    if windows.len() > 0 && !(windows[0].id == id && !(open_only && windows[0].pending_close)) {
        find_window_finds(windows.drop_first(), id, open_only);
        assert forall|i: int| 0 <= i < find_window(windows, id, open_only) implies (
        #[trigger] windows[i]).id != id || (open_only && windows[i].pending_close) by {
            if i > 0 {
                assert(windows.drop_first()[i - 1] == windows[i]);
            }
        }
    }
}

/// The windows with the one at a place to be closed; all of them where there is
/// none at that place.
pub open spec fn closing(windows: Seq<WindowEntry>, at: int) -> Seq<WindowEntry> {
    if 0 <= at < windows.len() {
        windows.update(at, WindowEntry { pending_close: true, ..windows[at] })
    } else {
        windows
    }
}

/// The windows after a message, and what the host is to do.
pub open spec fn on_message(windows: Seq<WindowEntry>, window_id: u32, msg: ControlMessage) -> (
    Seq<WindowEntry>,
    WindowAction,
) {
    let first = find_window(windows, window_id, false);
    let open = find_window(windows, window_id, true);
    match msg {
        ControlMessage::AppDetached { app_id, .. } => if first < windows.len()
            && lifecycle::concerns(windows[first].options.owner_app_id, app_id) {
            (closing(windows, first), WindowAction::Nothing)
        } else {
            (windows, WindowAction::Nothing)
        },
        ControlMessage::CloseMonitor { monitor_id } => if first < windows.len() && (
        windows[first].core_monitor_id is None || windows[first].core_monitor_id == Some(
            monitor_id,
        )) {
            (closing(windows, first), WindowAction::Nothing)
        } else {
            (windows, WindowAction::Nothing)
        },
        ControlMessage::CanvasAttached {
            canvas_id,
            surface_handle,
            logical_w,
            logical_h,
            render_w,
            render_h,
        } => (
            closing(windows, open),
            WindowAction::Recreate {
                window_id,
                options: if first < windows.len() {
                    windows[first].options
                } else {
                    DesktopWindowOptions {
                        target_canvas_id: canvas_id,
                        ..DesktopWindowOptions::plain()
                    }
                },
                attach: CanvasAttach {
                    canvas_id,
                    surface_handle,
                    logical_w,
                    logical_h,
                    render_w,
                    render_h,
                },
            },
        ),
        ControlMessage::MonitorLocalSurfaceAttached {
            canvas_id,
            monitor_id,
            surface_handle,
            ..
        } => if open < windows.len() {
            (
                windows.update(
                    open,
                    WindowEntry { core_monitor_id: Some(monitor_id), ..windows[open] },
                ),
                if windows[open].canvas_id == canvas_id {
                    WindowAction::ShowLocal { hwnd: windows[open].hwnd, canvas_id, surface_handle }
                } else {
                    WindowAction::Nothing
                },
            )
        } else {
            (windows, WindowAction::Nothing)
        },
        _ => (windows, WindowAction::Unexpected),
    }
}

/// The windows that stay after a frame.
pub open spec fn staying(windows: Seq<WindowEntry>) -> Seq<WindowEntry>
    decreases windows.len(),
{
    if windows.len() == 0 {
        seq![]
    } else {
        let before = staying(windows.drop_last());
        if windows.last().pending_close && !windows.last().in_frame {
            before
        } else {
            before.push(windows.last())
        }
    }
}

/// The handles of the windows that go after a frame.
pub open spec fn going(windows: Seq<WindowEntry>) -> Seq<isize>
    decreases windows.len(),
{
    if windows.len() == 0 {
        seq![]
    } else {
        let before = going(windows.drop_last());
        if windows.last().pending_close && !windows.last().in_frame {
            before.push(windows.last().hwnd)
        } else {
            before
        }
    }
}

/// The handles of the windows that are drawn in a frame.
pub open spec fn drawing(windows: Seq<WindowEntry>) -> Seq<isize>
    decreases windows.len(),
{
    if windows.len() == 0 {
        seq![]
    } else {
        let before = drawing(windows.drop_last());
        if windows.last().pending_close {
            before
        } else {
            before.push(windows.last().hwnd)
        }
    }
}

fn find(windows: &Vec<WindowEntry>, id: u32, open_only: bool) -> (at: usize)
    ensures
        at == find_window(windows@, id, open_only),
        at <= windows@.len(),
{
    let ghost all = windows@;
    let mut at: usize = 0;
    assert(all.skip(0) =~= all);
    while at < windows.len()
        invariant
            at <= all.len(),
            all == windows@,
            find_window(all, id, open_only) == at + find_window(
                all.skip(at as int),
                id,
                open_only,
            ),
        decreases all.len() - at,
    {
        let w = windows[at];
        assert(all.skip(at as int)[0] == w);
        if w.id == id && !(open_only && w.pending_close) {
            return at;
        }
        assert(all.skip(at as int).drop_first() =~= all.skip(at + 1));
        at = at + 1;
    }
    at
}

fn close_at(windows: &mut Vec<WindowEntry>, at: usize)
    ensures
        final(windows)@ == closing(old(windows)@, at as int),
{
    if at < windows.len() {
        let mut w = windows[at];
        w.pending_close = true;
        windows.set(at, w);
    }
}

impl WindowTable {
    /// A process without windows.
    pub fn new() -> (r: Self)
        ensures
            r.windows@ == Seq::<WindowEntry>::empty(),
            r.next_window_id == 1,
    {
        WindowTable { windows: Vec::new(), next_window_id: 1 }
    }

    /// The identifier of the next window. The largest number there is is given again
    /// rather than none.
    pub fn take_window_id(&mut self) -> (r: u32)
        ensures
            r == old(self).next_window_id,
            final(self).next_window_id == if old(self).next_window_id == u32::MAX {
                u32::MAX
            } else {
                (old(self).next_window_id + 1) as u32
            },
            final(self).windows == old(self).windows,
    {
        let id: u32 = self.next_window_id;
        self.next_window_id = self.next_window_id.saturating_add(1);
        id
    }

    /// Enters a window that was created and shows a canvas.
    pub fn opened(&mut self, id: u32, hwnd: isize, options: DesktopWindowOptions, canvas_id: u32)
        ensures
            final(self).windows@ == old(self).windows@.push(
                WindowEntry {
                    id,
                    hwnd,
                    options,
                    core_monitor_id: None,
                    canvas_id,
                    pending_close: false,
                    in_frame: false,
                },
            ),
            final(self).next_window_id == old(self).next_window_id,
    {
        self.windows.push(
            WindowEntry {
                id,
                hwnd,
                options,
                core_monitor_id: None,
                canvas_id,
                pending_close: false,
                in_frame: false,
            },
        );
    }

    /// Follows a message from the server to a window.
    pub fn message(&mut self, window_id: u32, msg: &ControlMessage) -> (r: WindowAction)
        ensures
            (final(self).windows@, r) == on_message(old(self).windows@, window_id, *msg),
            final(self).next_window_id == old(self).next_window_id,
    {
        let first: usize = find(&self.windows, window_id, false);
        let open: usize = find(&self.windows, window_id, true);
        match msg {
            ControlMessage::AppDetached { app_id, .. } => {
                if first < self.windows.len() {
                    let owner = self.windows[first].options.owner_app_id;
                    if owner == Some(*app_id) || owner.is_none() {
                        close_at(&mut self.windows, first);
                    }
                }
                WindowAction::Nothing
            },
            ControlMessage::CloseMonitor { monitor_id } => {
                if first < self.windows.len() {
                    let known = self.windows[first].core_monitor_id;
                    if known.is_none() || known == Some(*monitor_id) {
                        close_at(&mut self.windows, first);
                    }
                }
                WindowAction::Nothing
            },
            ControlMessage::CanvasAttached {
                canvas_id,
                surface_handle,
                logical_w,
                logical_h,
                render_w,
                render_h,
            } => {
                let options = if first < self.windows.len() {
                    self.windows[first].options
                } else {
                    let mut o = DesktopWindowOptions::default();
                    o.target_canvas_id = *canvas_id;
                    o
                };
                close_at(&mut self.windows, open);
                WindowAction::Recreate {
                    window_id,
                    options,
                    attach: CanvasAttach {
                        canvas_id: *canvas_id,
                        surface_handle: *surface_handle,
                        logical_w: *logical_w,
                        logical_h: *logical_h,
                        render_w: *render_w,
                        render_h: *render_h,
                    },
                }
            },
            ControlMessage::MonitorLocalSurfaceAttached {
                canvas_id,
                monitor_id,
                surface_handle,
                ..
            } => {
                if open < self.windows.len() {
                    let mut w = self.windows[open];
                    w.core_monitor_id = Some(*monitor_id);
                    self.windows.set(open, w);
                    if w.canvas_id == *canvas_id {
                        return WindowAction::ShowLocal {
                            hwnd: w.hwnd,
                            canvas_id: *canvas_id,
                            surface_handle: *surface_handle,
                        };
                    }
                }
                WindowAction::Nothing
            },
            _ => WindowAction::Unexpected,
        }
    }

    /// The window whose connection was lost and has to be made again: none where it
    /// was to be closed.
    pub fn disconnected(&self, window_id: u32) -> (r: Option<WindowEntry>)
        ensures
            r == ({
                let at = find_window(self.windows@, window_id, true);
                if at < self.windows@.len() {
                    Some(self.windows@[at])
                } else {
                    None
                }
            }),
    {
        let at: usize = find(&self.windows, window_id, true);
        proof {
            find_window_finds(self.windows@, window_id, true);
        }
        if at < self.windows.len() {
            Some(self.windows[at])
        } else {
            None
        }
    }

    /// Enters the window that replaces one whose connection was made again.
    pub fn reconnected(&mut self, window_id: u32, hwnd: isize, canvas_id: u32)
        ensures
            final(self).windows@ == ({
                let windows = old(self).windows@;
                let at = find_window(windows, window_id, true);
                if at < windows.len() {
                    windows.update(at, WindowEntry { hwnd, canvas_id, ..windows[at] })
                } else {
                    windows
                }
            }),
            final(self).next_window_id == old(self).next_window_id,
    {
        let at: usize = find(&self.windows, window_id, true);
        if at < self.windows.len() {
            let mut w = self.windows[at];
            w.hwnd = hwnd;
            w.canvas_id = canvas_id;
            self.windows.set(at, w);
        }
    }

    /// Gives up a window whose connection could not be made again.
    pub fn lost(&mut self, window_id: u32)
        ensures
            final(self).windows@ == closing(
                old(self).windows@,
                find_window(old(self).windows@, window_id, true),
            ),
            final(self).next_window_id == old(self).next_window_id,
    {
        let at: usize = find(&self.windows, window_id, true);
        close_at(&mut self.windows, at);
    }

    /// Marks the windows with a handle to be closed: the user closed one.
    pub fn close_requested(&mut self, hwnd: isize)
        ensures
            final(self).windows@.len() == old(self).windows@.len(),
            forall|i: int|
                0 <= i < old(self).windows@.len() ==> #[trigger] final(self).windows@[i]
                    == (WindowEntry {
                    pending_close: old(self).windows@[i].pending_close || old(
                        self,
                    ).windows@[i].hwnd == hwnd,
                    ..old(self).windows@[i]
                }),
            final(self).next_window_id == old(self).next_window_id,
    {
        let ghost before = self.windows@;
        let mut i: usize = 0;
        while i < self.windows.len()
            invariant
                i <= self.windows@.len(),
                self.windows@.len() == before.len(),
                self.next_window_id == old(self).next_window_id,
                forall|j: int|
                    0 <= j < i ==> #[trigger] self.windows@[j] == (WindowEntry {
                        pending_close: before[j].pending_close || before[j].hwnd == hwnd,
                        ..before[j]
                    }),
                forall|j: int| i <= j < before.len() ==> #[trigger] self.windows@[j] == before[j],
            decreases self.windows@.len() - i,
        {
            let mut w = self.windows[i];
            if w.hwnd == hwnd {
                w.pending_close = true;
            }
            self.windows.set(i, w);
            i = i + 1;
        }
    }

    /// The windows that are drawn in a frame.
    pub fn to_draw(&self) -> (r: Vec<isize>)
        ensures
            r@ == drawing(self.windows@),
    {
        let ghost all = self.windows@;
        let mut out: Vec<isize> = Vec::new();
        let mut i: usize = 0;
        while i < self.windows.len()
            invariant
                i <= all.len(),
                all == self.windows@,
                out@ == drawing(all.take(i as int)),
            decreases all.len() - i,
        {
            assert(all.take(i + 1).drop_last() =~= all.take(i as int));
            let w = self.windows[i];
            if !w.pending_close {
                out.push(w.hwnd);
            }
            i = i + 1;
        }
        assert(all.take(i as int) =~= all);
        out
    }

    /// Takes out the windows that are to be closed and are not being drawn, and gives
    /// the handles that the host destroys.
    pub fn end_frame(&mut self) -> (r: Vec<isize>)
        ensures
            final(self).windows@ == staying(old(self).windows@),
            r@ == going(old(self).windows@),
            final(self).next_window_id == old(self).next_window_id,
    {
        let ghost all = self.windows@;
        let mut kept: Vec<WindowEntry> = Vec::new();
        let mut gone: Vec<isize> = Vec::new();
        let mut i: usize = 0;
        while i < self.windows.len()
            invariant
                i <= all.len(),
                all == self.windows@,
                kept@ == staying(all.take(i as int)),
                gone@ == going(all.take(i as int)),
            decreases all.len() - i,
        {
            assert(all.take(i + 1).drop_last() =~= all.take(i as int));
            let w = self.windows[i];
            if w.pending_close && !w.in_frame {
                gone.push(w.hwnd);
            } else {
                kept.push(w);
            }
            i = i + 1;
        }
        assert(all.take(i as int) =~= all);
        self.windows = kept;
        gone
    }

    /// Whether the process has no window left and ends.
    pub fn is_done(&self) -> (r: bool)
        ensures
            r == (self.windows@.len() == 0),
    {
        self.windows.len() == 0
    }
}

/// The user asked to close a window.
pub const WM_CLOSE: u32 = 0x0010;

/// A window is being destroyed.
pub const WM_DESTROY: u32 = 0x0002;

/// A window was moved or its size was changed.
pub const WM_WINDOWPOSCHANGED: u32 = 0x0047;

/// The system asks which part of a window is at a place.
pub const WM_NCHITTEST: u32 = 0x0084;

/// What the host does about a message of the system to a window.
#[derive(Debug, Clone, Copy, PartialEq, Eq, Structural)]
pub enum WindowReaction {
    /// Mark the window to be closed; the system does nothing more.
    Close,
    /// Mark the window to be closed and release what belongs to it; the system does
    /// nothing more.
    Release,
    /// Place what the window shows anew, and let the system go on.
    Replace,
    /// Say that the window is not at that place.
    PassThrough,
    /// Let the system go on.
    Default,
}

/// What the host does about a message of the system to a window that shows a canvas.
pub fn window_reaction(msg: u32, click_through: bool) -> (r: WindowReaction)
    ensures
        r == (if msg == WM_CLOSE {
            WindowReaction::Close
        } else if msg == WM_DESTROY {
            WindowReaction::Release
        } else if msg == WM_WINDOWPOSCHANGED {
            WindowReaction::Replace
        } else if msg == WM_NCHITTEST && click_through {
            WindowReaction::PassThrough
        } else {
            WindowReaction::Default
        }),
{
    if msg == WM_CLOSE {
        WindowReaction::Close
    } else if msg == WM_DESTROY {
        WindowReaction::Release
    } else if msg == WM_WINDOWPOSCHANGED {
        WindowReaction::Replace
    } else if msg == WM_NCHITTEST && click_through {
        WindowReaction::PassThrough
    } else {
        WindowReaction::Default
    }
}

/// Whether another try to connect again is made, after so many.
pub fn may_try_again(attempts: u32) -> (r: bool)
    ensures
        r == (attempts < 10),
{
    attempts < RECONNECT_MAX_ATTEMPTS
}

/// A message to one window changes no other's.
pub proof fn messages_reach_one_window(
    windows: Seq<WindowEntry>,
    window_id: u32,
    msg: ControlMessage,
    i: int,
)
    requires
        0 <= i < windows.len(),
        windows[i].id != window_id,
    ensures
        on_message(windows, window_id, msg).0.len() == windows.len(),
        on_message(windows, window_id, msg).0[i] == windows[i],
{
    find_window_finds(windows, window_id, false);
    find_window_finds(windows, window_id, true);
}

/// A window that is to be closed stays so, whatever messages come.
pub proof fn closing_windows_stay_closing(
    windows: Seq<WindowEntry>,
    window_id: u32,
    msg: ControlMessage,
    i: int,
)
    requires
        0 <= i < windows.len(),
        windows[i].pending_close,
    ensures
        on_message(windows, window_id, msg).0[i].pending_close,
{
    find_window_finds(windows, window_id, false);
    find_window_finds(windows, window_id, true);
}

/// An app's leaving closes no window of another app.
pub proof fn windows_of_other_apps_stay(
    windows: Seq<WindowEntry>,
    window_id: u32,
    app_id: u32,
    reason: u8,
    i: int,
)
    requires
        0 <= i < windows.len(),
        windows[i].options.owner_app_id is Some,
        windows[i].options.owner_app_id != Some(app_id),
    ensures
        on_message(windows, window_id, ControlMessage::AppDetached { app_id, reason }).0[i]
            == windows[i],
{
    find_window_finds(windows, window_id, false);
}

/// What stays after a frame is what was not to be closed or was being drawn.
pub proof fn frames_end_safely(windows: Seq<WindowEntry>, w: WindowEntry)
    ensures
        staying(windows).contains(w) <==> windows.contains(w) && !(w.pending_close && !w.in_frame),
    decreases windows.len(),
{
    if windows.len() > 0 {
        let front = windows.drop_last();
        let last = windows.last();
        frames_end_safely(front, w);
        let out = staying(windows);
        let sub = staying(front);
        if windows.contains(w) {
            let k = choose|k: int| 0 <= k < windows.len() && windows[k] == w;
            if k < front.len() {
                assert(front[k] == w);
            }
        }
        if front.contains(w) {
            let k = choose|k: int| 0 <= k < front.len() && front[k] == w;
            assert(windows[k] == w);
        }
        assert(windows[windows.len() - 1] == last);
        if !(last.pending_close && !last.in_frame) {
            assert(out =~= sub.push(last));
            if sub.contains(w) {
                let k = choose|k: int| 0 <= k < sub.len() && sub[k] == w;
                assert(out[k] == w);
            }
            if out.contains(w) {
                let k = choose|k: int| 0 <= k < out.len() && out[k] == w;
                if k < sub.len() {
                    assert(sub[k] == w);
                }
            }
            assert(out[out.len() - 1] == last);
        }
    }
}

} // verus!
