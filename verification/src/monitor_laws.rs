//! What a desktop monitor does with its windows.

use vstd::prelude::*;

use crate::lifecycle;
use crate::lifecycle::{
    AppDetachedEvent, MonitorLifecycleKind, MonitorWindow, ReconnectOutcome, ReconnectState,
};
use crate::protocol::{ControlMessage, DesktopWindowMode};
use crate::singleton::SingletonRequest;
use crate::text;
use crate::title;
use crate::title::AttachState;
use crate::window_options;
use crate::window_options::{
    AwaitStep, DesktopWindowOptions, Placement, ScreenRect, WindowRequest,
};
use crate::window_table;
use crate::window_table::{WindowAction, WindowEntry, WindowReaction, WindowTable};

verus! {

/// A window is to be closed once an app has left that owns it, and once any has
/// left where nobody owns it. Nothing else about it changes, and a window that was
/// to be closed stays so.
pub proof fn windows_follow_their_owner(
    windows: &mut [MonitorWindow],
    events: &[AppDetachedEvent],
    i: int,
    k: int,
)
    requires
        call_ensures(lifecycle::apply_app_detached_events, (windows, events), ()),
        0 <= i < old(windows)@.len(),
    ensures
        ({
            let before = old(windows)@[i];
            let after = final(windows)@[i];
            &&& final(windows)@.len() == old(windows)@.len()
            &&& before.pending_close ==> after.pending_close
            &&& 0 <= k < events@.len() && (before.owner_app_id is None || before.owner_app_id
                == Some(events@[k].app_id)) ==> after.pending_close
            &&& !before.pending_close && before.owner_app_id is Some && (forall|e: int|
                0 <= e < events@.len() ==> (#[trigger] events@[e]).app_id
                    != before.owner_app_id->0) ==> !after.pending_close
            &&& !before.pending_close && events@.len() == 0 ==> !after.pending_close
            &&& after.hwnd == before.hwnd
            &&& after.monitor_id == before.monitor_id
            &&& after.canvas_id == before.canvas_id
            &&& after.owner_app_id == before.owner_app_id
            &&& after.in_frame == before.in_frame
        }),
{
    let before = old(windows)@[i];
    assert(final(windows)@[i] == lifecycle::after_events(before, events@));
    if 0 <= k < events@.len() && (before.owner_app_id is None || before.owner_app_id == Some(
        events@[k].app_id,
    )) {
        assert(lifecycle::concerns(before.owner_app_id, events@[k].app_id));
    }
}

/// A window goes just where it is to be closed and is not being drawn.
pub proof fn windows_go_between_frames(w: MonitorWindow, r: bool)
    requires
        call_ensures(lifecycle::should_destroy_now, (&w,), r),
    ensures
        r <==> w.pending_close && !w.in_frame,
{
}

/// A try that succeeds starts the count anew and keeps all windows. One that fails
/// is counted; with the last that is allowed, a monitor that decides for itself
/// closes all its windows, and one that is hosted none. Nothing else about the
/// windows changes.
pub proof fn lasting_failures_close_windows(
    state: &mut ReconnectState,
    outcome: ReconnectOutcome,
    kind: MonitorLifecycleKind,
    max_attempts: u32,
    i: int,
)
    requires
        call_ensures(lifecycle::reconnect_step, (state, outcome, kind, max_attempts), ()),
        outcome is Failed ==> old(state).attempts < u32::MAX,
        0 <= i < old(state).windows@.len(),
    ensures
        ({
            let before = old(state).windows@[i];
            let after = final(state).windows@[i];
            let over = old(state).attempts + 1 >= max_attempts && kind is Standalone;
            &&& final(state).windows@.len() == old(state).windows@.len()
            &&& outcome is Success ==> final(state).attempts == 0 && !after.pending_close
            &&& outcome is Failed ==> final(state).attempts == old(state).attempts + 1
            &&& outcome is Failed && over ==> after.pending_close
            &&& outcome is Failed && !over ==> after.pending_close == before.pending_close
            &&& after.hwnd == before.hwnd
            &&& after.monitor_id == before.monitor_id
            &&& after.canvas_id == before.canvas_id
            &&& after.owner_app_id == before.owner_app_id
            &&& after.in_frame == before.in_frame
        }),
{
}

/// A window says what it shows.
pub proof fn titles_say_what_is_shown(state: AttachState, r: String)
    requires
        call_ensures(title::format_window_title, (state,), r),
    ensures
        state is Connecting ==> r@ == "Desktop Monitor - connecting..."@,
        state is Reconnecting ==> r@ == "Desktop Monitor - reconnecting..."@,
        state matches AttachState::Attached { canvas_id, ml } ==> ml ==> r@
            == "Desktop Monitor - canvas "@ + text::decimal(canvas_id as nat)
            + " (world + monitor_local)"@,
        state matches AttachState::Attached { canvas_id, ml } ==> !ml ==> r@
            == "Desktop Monitor - canvas "@ + text::decimal(canvas_id as nat) + " (world only)"@,
{
}

/// A window that the server asked for registers with all that was said of it, each
/// value in its own field, and lets the server close it. Any other registers with
/// its process alone.
pub proof fn windows_register_with_their_options(
    o: DesktopWindowOptions,
    pid: u32,
    r: ControlMessage,
)
    requires
        call_ensures(window_options::register_message, (o, pid), r),
    ensures
        o.request_id != 0 || o.owner_app_id is Some || o.target_canvas_id != 0 ==> {
            &&& r matches ControlMessage::RegisterMonitorV2 {
                pid: process,
                kind,
                owner_app_id,
                request_id,
                target_canvas_id,
                mode,
                flags,
                manual_lifecycle,
            }
            &&& process == pid
            &&& kind is DesktopWindow
            &&& o.owner_app_id matches Some(id) ==> owner_app_id == id
            &&& o.owner_app_id is None ==> owner_app_id == 0
            &&& request_id == o.request_id
            &&& target_canvas_id == o.target_canvas_id
            &&& mode == o.mode
            &&& flags == o.flags
            &&& !manual_lifecycle
        },
        !(o.request_id != 0 || o.owner_app_id is Some || o.target_canvas_id != 0) ==> (
        r matches ControlMessage::RegisterMonitor { pid: process } && process == pid),
{
}

/// A window takes the canvas that it waits for with the handle and the sizes of the
/// message, each in its own field; without a target it takes any. Another canvas
/// leaves it waiting, and so does another message. Where the server closes it, it
/// closes.
pub proof fn windows_take_the_canvas_they_wait_for(
    o: DesktopWindowOptions,
    msg: ControlMessage,
    r: AwaitStep,
)
    requires
        call_ensures(window_options::await_attach, (o, &msg), r),
    ensures
        msg matches ControlMessage::CanvasAttached {
            canvas_id,
            surface_handle,
            logical_w,
            logical_h,
            render_w,
            render_h,
        } ==> {
            &&& o.target_canvas_id == 0 || o.target_canvas_id == canvas_id ==> {
                &&& r matches AwaitStep::Attached(a)
                &&& a.canvas_id == canvas_id
                &&& a.surface_handle == surface_handle
                &&& a.logical_w == logical_w
                &&& a.logical_h == logical_h
                &&& a.render_w == render_w
                &&& a.render_h == render_h
            }
            &&& o.target_canvas_id != 0 && o.target_canvas_id != canvas_id ==> (
            r matches AwaitStep::OtherCanvas { canvas_id: other } && other == canvas_id)
        },
        msg matches ControlMessage::CloseMonitor { monitor_id } ==> (r matches AwaitStep::Closed {
            monitor_id: closed,
        } && closed == monitor_id),
        !(msg is CanvasAttached) && !(msg is CloseMonitor) ==> r is Unexpected,
{
}

/// A window stands where it was put with the size that it was given, zero standing
/// for the usual one. In full-screen mode it covers the screen that it is on.
pub proof fn windows_stand_where_they_were_put(
    o: DesktopWindowOptions,
    screen: Option<ScreenRect>,
    r: Placement,
)
    requires
        call_ensures(window_options::placement, (o, screen), r),
    ensures
        !(o.mode is BorderlessFullscreen) || screen is None ==> {
            &&& r.x == o.x
            &&& r.y == o.y
            &&& o.w == 0 ==> r.w == 720
            &&& o.h == 0 ==> r.h == 420
            &&& 0 < o.w <= i32::MAX ==> r.w == o.w
            &&& 0 < o.h <= i32::MAX ==> r.h == o.h
            &&& o.w > i32::MAX ==> r.w == i32::MAX
            &&& o.h > i32::MAX ==> r.h == i32::MAX
        },
        o.mode is BorderlessFullscreen && screen is Some ==> {
            let s = screen->0;
            &&& r.x == s.left
            &&& r.y == s.top
            &&& 1 <= s.right - s.left <= i32::MAX ==> r.w == s.right - s.left
            &&& 1 <= s.bottom - s.top <= i32::MAX ==> r.h == s.bottom - s.top
            &&& s.right - s.left < 1 ==> r.w == 1
            &&& s.bottom - s.top < 1 ==> r.h == 1
        },
{
}

/// The screen of a window is looked for where the window is to stand: from its
/// corner on, as far as it reaches.
pub proof fn screens_are_found_by_the_window(o: DesktopWindowOptions, r: ScreenRect, w: i32, h: i32)
    requires
        call_ensures(window_options::search_rect, (o,), r),
        call_ensures(window_options::window_dimension, (o.w, 720i32), w),
        call_ensures(window_options::window_dimension, (o.h, 420i32), h),
    ensures
        r.left == o.x,
        r.top == o.y,
        o.w == 0 ==> w == 720,
        0 < o.w <= i32::MAX ==> w == o.w,
        o.w > i32::MAX ==> w == i32::MAX,
        o.h == 0 ==> h == 420,
        0 < o.h <= i32::MAX ==> h == o.h,
        o.h > i32::MAX ==> h == i32::MAX,
        o.x + w <= i32::MAX ==> r.right == o.x + w,
        o.x + w > i32::MAX ==> r.right == i32::MAX,
        o.y + h <= i32::MAX ==> r.bottom == o.y + h,
        o.y + h > i32::MAX ==> r.bottom == i32::MAX,
{
}

/// Only a window in the bordered mode has a frame; one with the click-through flag
/// lets clicks through; and one is the server's just where it has a request, an
/// owner or a target.
pub proof fn options_say_how_windows_behave(
    o: DesktopWindowOptions,
    mode: DesktopWindowMode,
    framed: bool,
    through: bool,
    wanted: bool,
    owner: u32,
)
    requires
        call_ensures(window_options::has_frame, (mode,), framed),
        call_ensures(DesktopWindowOptions::click_through, (o,), through),
        call_ensures(DesktopWindowOptions::core_requested, (o,), wanted),
        call_ensures(DesktopWindowOptions::owner_app_id_wire, (o,), owner),
    ensures
        framed <==> mode is Bordered,
        through <==> o.flags & 1 != 0,
        wanted <==> o.request_id != 0 || o.owner_app_id is Some || o.target_canvas_id != 0,
        o.owner_app_id matches Some(id) ==> owner == id,
        o.owner_app_id is None ==> owner == 0,
{
}

/// The tries to connect again are half a second, one and then two seconds apart,
/// each with up to a fifth of a second more that differs from process to process.
pub proof fn tries_grow_apart(pid: u32, attempt: u32, r: u64)
    requires
        call_ensures(window_options::reconnect_delay, (pid, attempt), r),
    ensures
        attempt == 0 ==> r == 500 + pid % 201,
        attempt == 1 ==> r == 1000 + (pid + 73) % 201,
        attempt >= 2 ==> r == 2000 + (pid + attempt * 73) % 201,
{
}

/// A request for a window is handed on with its values, each in its own place.
pub proof fn window_requests_keep_their_values(
    request: WindowRequest,
    o: DesktopWindowOptions,
    asked: DesktopWindowOptions,
    handed: WindowRequest,
    single: Option<SingletonRequest>,
    req: SingletonRequest,
    plain: WindowRequest,
)
    requires
        call_ensures(window_options::options_from_singleton_request, (request,), asked),
        call_ensures(window_options::singleton_request_from_options, (o,), handed),
        call_ensures(WindowRequest::to_singleton, (request,), single),
        call_ensures(WindowRequest::from_singleton, (req,), plain),
    ensures
        request matches WindowRequest::OpenWindow { target_canvas_id } ==> {
            &&& asked.target_canvas_id == target_canvas_id
            &&& asked.request_id == 0
            &&& asked.owner_app_id is None
            &&& asked.mode is Bordered
            &&& asked.flags == 0
            &&& asked.x == 100
            &&& asked.y == 100
            &&& asked.w == 720
            &&& asked.h == 420
            &&& single matches Some(SingletonRequest::OpenWindow { target_canvas_id: c })
            &&& c == target_canvas_id
        },
        request matches WindowRequest::OpenWindowV2 {
            request_id,
            owner_app_id,
            target_canvas_id,
            mode,
            flags,
            x,
            y,
            w,
            h,
        } ==> {
            &&& asked.request_id == request_id
            &&& owner_app_id != 0 ==> asked.owner_app_id == Some(owner_app_id)
            &&& owner_app_id == 0 ==> asked.owner_app_id is None
            &&& asked.target_canvas_id == target_canvas_id
            &&& asked.mode == mode
            &&& asked.flags == flags
            &&& asked.x == x
            &&& asked.y == y
            &&& asked.w == w
            &&& asked.h == h
            &&& single is None
        },
        o.request_id != 0 || o.owner_app_id is Some || o.target_canvas_id != 0 ==> {
            &&& handed matches WindowRequest::OpenWindowV2 {
                request_id,
                owner_app_id,
                target_canvas_id,
                mode,
                flags,
                x,
                y,
                w,
                h,
            }
            &&& request_id == o.request_id
            &&& o.owner_app_id matches Some(id) ==> owner_app_id == id
            &&& o.owner_app_id is None ==> owner_app_id == 0
            &&& target_canvas_id == o.target_canvas_id
            &&& mode == o.mode
            &&& flags == o.flags
            &&& x == o.x
            &&& y == o.y
            &&& w == o.w
            &&& h == o.h
        },
        !(o.request_id != 0 || o.owner_app_id is Some || o.target_canvas_id != 0) ==> (
        handed matches WindowRequest::OpenWindow { target_canvas_id } && target_canvas_id == 0),
        plain matches WindowRequest::OpenWindow { target_canvas_id } && target_canvas_id
            == req->target_canvas_id,
{
}

/// A window that is opened is entered last with its identifier, handle, options and
/// canvas; it is not to be closed, is not being drawn, and the server's identifier
/// for it is not known. Identifiers are given in turn.
pub proof fn opened_windows_are_entered(
    table: &mut WindowTable,
    id: u32,
    hwnd: isize,
    options: DesktopWindowOptions,
    canvas_id: u32,
    next: &mut WindowTable,
    taken: u32,
)
    requires
        call_ensures(WindowTable::opened, (table, id, hwnd, options, canvas_id), ()),
        call_ensures(WindowTable::take_window_id, (next,), taken),
    ensures
        ({
            let w = final(table).windows@.last();
            &&& final(table).windows@.len() == old(table).windows@.len() + 1
            &&& final(table).windows@.drop_last() == old(table).windows@
            &&& w.id == id
            &&& w.hwnd == hwnd
            &&& w.options == options
            &&& w.canvas_id == canvas_id
            &&& w.core_monitor_id is None
            &&& !w.pending_close
            &&& !w.in_frame
            &&& final(table).next_window_id == old(table).next_window_id
        }),
        taken == old(next).next_window_id,
        old(next).next_window_id < u32::MAX ==> final(next).next_window_id == taken + 1,
        final(next).windows@ == old(next).windows@,
{
}

/// A window is created anew with the canvas, the handle and the sizes of the
/// message that attached it, each in its own field, and with the options of the
/// window that it takes the place of; that window, if it is open, is closed.
pub proof fn attached_windows_are_created_anew(
    table: &mut WindowTable,
    window_id: u32,
    canvas_id: u32,
    surface_handle: u64,
    logical_w: u32,
    logical_h: u32,
    render_w: u32,
    render_h: u32,
    r: WindowAction,
    at: int,
)
    requires
        call_ensures(
            WindowTable::message,
            (
                table,
                window_id,
                &ControlMessage::CanvasAttached {
                    canvas_id,
                    surface_handle,
                    logical_w,
                    logical_h,
                    render_w,
                    render_h,
                },
            ),
            r,
        ),
        0 <= at < old(table).windows@.len(),
        old(table).windows@[at].id == window_id,
        forall|k: int| 0 <= k < at ==> (#[trigger] old(table).windows@[k]).id != window_id,
    ensures
        r matches WindowAction::Recreate { window_id: id, options, attach } && {
            &&& id == window_id
            &&& options == old(table).windows@[at].options
            &&& attach.canvas_id == canvas_id
            &&& attach.surface_handle == surface_handle
            &&& attach.logical_w == logical_w
            &&& attach.logical_h == logical_h
            &&& attach.render_w == render_w
            &&& attach.render_h == render_h
        },
        final(table).windows@[at].pending_close,
        final(table).windows@[at].hwnd == old(table).windows@[at].hwnd,
{
    window_table::find_window_finds(old(table).windows@, window_id, false);
    window_table::find_window_finds(old(table).windows@, window_id, true);
    let first = window_table::find_window(old(table).windows@, window_id, false);
    assert(first == at);
}

/// A monitor's own surface is shown in the open window that it is for, under that
/// window's handle, where the window shows that canvas; either way the server's
/// identifier for the window is kept.
pub proof fn own_surfaces_are_shown_in_their_window(
    table: &mut WindowTable,
    window_id: u32,
    canvas_id: u32,
    monitor_id: u32,
    surface_handle: u64,
    logical_w: u32,
    logical_h: u32,
    r: WindowAction,
    at: int,
)
    requires
        call_ensures(
            WindowTable::message,
            (
                table,
                window_id,
                &ControlMessage::MonitorLocalSurfaceAttached {
                    canvas_id,
                    monitor_id,
                    surface_handle,
                    logical_w,
                    logical_h,
                },
            ),
            r,
        ),
        0 <= at < old(table).windows@.len(),
        old(table).windows@[at].id == window_id,
        !old(table).windows@[at].pending_close,
        forall|k: int|
            0 <= k < at ==> (#[trigger] old(table).windows@[k]).id != window_id || old(
                table,
            ).windows@[k].pending_close,
    ensures
        final(table).windows@[at].core_monitor_id == Some(monitor_id),
        final(table).windows@[at].hwnd == old(table).windows@[at].hwnd,
        final(table).windows@[at].canvas_id == old(table).windows@[at].canvas_id,
        final(table).windows@[at].pending_close == old(table).windows@[at].pending_close,
        old(table).windows@[at].canvas_id == canvas_id ==> (r matches WindowAction::ShowLocal {
            hwnd,
            canvas_id: shown,
            surface_handle: handle,
        } && hwnd == old(table).windows@[at].hwnd && shown == canvas_id && handle
            == surface_handle),
        old(table).windows@[at].canvas_id != canvas_id ==> r is Nothing,
{
    window_table::find_window_finds(old(table).windows@, window_id, true);
    let open = window_table::find_window(old(table).windows@, window_id, true);
    assert(open == at);
}

/// A window closes when its owner leaves, or when anyone does where nobody owns it,
/// and when the server closes it under its identifier or under any where the
/// window does not know its own. It stays otherwise. Nothing else happens.
pub proof fn windows_close_when_told(
    table: &mut WindowTable,
    window_id: u32,
    msg: ControlMessage,
    r: WindowAction,
    at: int,
)
    requires
        call_ensures(WindowTable::message, (table, window_id, &msg), r),
        0 <= at < old(table).windows@.len(),
        old(table).windows@[at].id == window_id,
        forall|k: int| 0 <= k < at ==> (#[trigger] old(table).windows@[k]).id != window_id,
    ensures
        ({
            let before = old(table).windows@[at];
            let after = final(table).windows@[at];
            &&& msg matches ControlMessage::AppDetached { app_id, .. } ==> {
                &&& r is Nothing
                &&& after.pending_close <==> before.pending_close || before.options.owner_app_id
                    is None || before.options.owner_app_id == Some(app_id)
            }
            &&& msg matches ControlMessage::CloseMonitor { monitor_id } ==> {
                &&& r is Nothing
                &&& after.pending_close <==> before.pending_close || before.core_monitor_id is None
                    || before.core_monitor_id == Some(monitor_id)
            }
            &&& !(msg is AppDetached) && !(msg is CloseMonitor) && !(msg is CanvasAttached) && !(
            msg is MonitorLocalSurfaceAttached) ==> r is Unexpected && final(table).windows@ == old(
                table,
            ).windows@
            &&& after.id == before.id
            &&& after.hwnd == before.hwnd
            &&& after.options == before.options
            &&& after.canvas_id == before.canvas_id
            &&& after.in_frame == before.in_frame
        }),
{
    window_table::find_window_finds(old(table).windows@, window_id, false);
    window_table::find_window_finds(old(table).windows@, window_id, true);
    let first = window_table::find_window(old(table).windows@, window_id, false);
    assert(first == at);
}

/// A window that lost its connection is the open one with that identifier, if there
/// is one. Once it has a new one it has the new handle and canvas; where it gets
/// none it is closed.
pub proof fn lost_windows_come_back_or_close(
    table: &WindowTable,
    window_id: u32,
    found: Option<WindowEntry>,
    back: &mut WindowTable,
    hwnd: isize,
    canvas_id: u32,
    gone: &mut WindowTable,
    at: int,
)
    requires
        call_ensures(WindowTable::disconnected, (table, window_id), found),
        call_ensures(WindowTable::reconnected, (back, window_id, hwnd, canvas_id), ()),
        call_ensures(WindowTable::lost, (gone, window_id), ()),
        old(back).windows@ == table.windows@,
        old(gone).windows@ == table.windows@,
        0 <= at < table.windows@.len(),
        table.windows@[at].id == window_id,
        !table.windows@[at].pending_close,
        forall|k: int|
            0 <= k < at ==> (#[trigger] table.windows@[k]).id != window_id
                || table.windows@[k].pending_close,
    ensures
        found == Some(table.windows@[at]),
        final(back).windows@[at].hwnd == hwnd,
        final(back).windows@[at].canvas_id == canvas_id,
        final(back).windows@[at].id == window_id,
        final(back).windows@[at].options == table.windows@[at].options,
        final(back).windows@[at].core_monitor_id == table.windows@[at].core_monitor_id,
        !final(back).windows@[at].pending_close,
        final(gone).windows@[at].pending_close,
        final(gone).windows@[at].hwnd == table.windows@[at].hwnd,
{
    window_table::find_window_finds(table.windows@, window_id, true);
    let open = window_table::find_window(table.windows@, window_id, true);
    assert(open == at);
}

/// A window whose handle the system names is to be closed; no other becomes so.
pub proof fn named_handles_close(table: &mut WindowTable, hwnd: isize, i: int)
    requires
        call_ensures(WindowTable::close_requested, (table, hwnd), ()),
        0 <= i < old(table).windows@.len(),
    ensures
        final(table).windows@.len() == old(table).windows@.len(),
        final(table).windows@[i].pending_close <==> old(table).windows@[i].pending_close || old(
            table,
        ).windows@[i].hwnd == hwnd,
        final(table).windows@[i].hwnd == old(table).windows@[i].hwnd,
        final(table).windows@[i].id == old(table).windows@[i].id,
{
}

/// The windows that are drawn are those that are not to be closed, in their order.
pub proof fn open_windows_are_drawn(windows: Seq<WindowEntry>)
    ensures
        window_table::drawing(windows) == windows.filter(
            |w: WindowEntry| !w.pending_close,
        ).map_values(|w: WindowEntry| w.hwnd),
    decreases windows.len(),
{
    reveal(Seq::filter);
    let open = |w: WindowEntry| !w.pending_close;
    let handle = |w: WindowEntry| w.hwnd;
    if windows.len() == 0 {
        assert(windows.filter(open).map_values(handle) =~= seq![]);
    } else {
        open_windows_are_drawn(windows.drop_last());
        assert(window_table::drawing(windows) =~= windows.filter(open).map_values(handle));
    }
}

/// At the end of a frame the windows go that are to be closed and are not being
/// drawn: their handles are given back in their order, and all others stay in
/// theirs.
pub proof fn closed_windows_go_after_the_frame(windows: Seq<WindowEntry>)
    ensures
        window_table::going(windows) == windows.filter(
            |w: WindowEntry| w.pending_close && !w.in_frame,
        ).map_values(|w: WindowEntry| w.hwnd),
        window_table::staying(windows) == windows.filter(
            |w: WindowEntry| !(w.pending_close && !w.in_frame),
        ),
    decreases windows.len(),
{
    reveal(Seq::filter);
    let leaving = |w: WindowEntry| w.pending_close && !w.in_frame;
    let left = |w: WindowEntry| !(w.pending_close && !w.in_frame);
    let handle = |w: WindowEntry| w.hwnd;
    if windows.len() == 0 {
        assert(windows.filter(leaving).map_values(handle) =~= seq![]);
        assert(windows.filter(left) =~= seq![]);
    } else {
        closed_windows_go_after_the_frame(windows.drop_last());
        assert(window_table::going(windows) =~= windows.filter(leaving).map_values(handle));
        assert(window_table::staying(windows) =~= windows.filter(left));
    }
}

/// The system's word that a window is closed, is gone or has moved is acted on; a
/// click on one that lets clicks through is passed on; all else is the system's.
/// Ten tries to connect again are made.
pub proof fn system_messages_are_acted_on(
    msg: u32,
    click_through: bool,
    r: WindowReaction,
    attempts: u32,
    again: bool,
)
    requires
        call_ensures(window_table::window_reaction, (msg, click_through), r),
        call_ensures(window_table::may_try_again, (attempts,), again),
    ensures
        r is Close <==> msg == 0x10,
        r is Release <==> msg == 0x02,
        r is Replace <==> msg == 0x47,
        r is PassThrough <==> msg == 0x84 && click_through,
        again <==> attempts < 10,
{
}

/// A table starts without windows and gives identifiers from one on. It draws the
/// windows that are not to be closed; at the end of a frame those go that are to be
/// closed and are not being drawn; and it is done once none is left.
pub proof fn tables_draw_and_drop_their_windows(
    new: WindowTable,
    table: &WindowTable,
    drawn: Vec<isize>,
    done: bool,
    ended: &mut WindowTable,
    gone: Vec<isize>,
)
    requires
        call_ensures(WindowTable::new, (), new),
        call_ensures(WindowTable::to_draw, (table,), drawn),
        call_ensures(WindowTable::is_done, (table,), done),
        call_ensures(WindowTable::end_frame, (ended,), gone),
    ensures
        new.windows@.len() == 0,
        new.next_window_id == 1,
        drawn@ == table.windows@.filter(|w: WindowEntry| !w.pending_close).map_values(
            |w: WindowEntry| w.hwnd,
        ),
        done <==> table.windows@.len() == 0,
        final(ended).windows@ == old(ended).windows@.filter(
            |w: WindowEntry| !(w.pending_close && !w.in_frame),
        ),
        gone@ == old(ended).windows@.filter(
            |w: WindowEntry| w.pending_close && !w.in_frame,
        ).map_values(|w: WindowEntry| w.hwnd),
        final(ended).next_window_id == old(ended).next_window_id,
{
    open_windows_are_drawn(table.windows@);
    closed_windows_go_after_the_frame(old(ended).windows@);
}

} // verus!
