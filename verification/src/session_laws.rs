//! What clients get for their messages, field by field.

use vstd::prelude::*;

use crate::buffer;
use crate::catalog::MonitorCatalog;
use crate::cmd_decoder;
use crate::cmd_decoder::RenderCommand;
use crate::pending;
use crate::pending::{LaunchOutcome, PendingStarts};
use crate::protocol::{
    AppDetachReason, ControlMessage, DesktopWindowMode, MonitorKind, MonitorRequestStatus,
};
use crate::server::ServerState;
use crate::session;
use crate::session::{
    AfterRegistration, Client, Departure, Notice, Request, StartDecision, StartId, StartRequest,
    StopOutcome,
};
use crate::shmem::SharedMemory;

verus! {

/// What an app submits is read from where it says: the request names the canvas,
/// the frame, the offset and the length of the message, and the app itself.
pub proof fn frames_are_read_from_where_the_app_says(
    app_id: u32,
    canvas_id: u32,
    frame_id: u64,
    offset: u32,
    length: u32,
    r: Request,
)
    requires
        call_ensures(
            session::route,
            (
                Client::App(app_id),
                ControlMessage::SubmitFrame { canvas_id, frame_id, offset, length },
            ),
            r,
        ),
    ensures
        r matches Request::SubmitFrame { app_id: a, canvas_id: c, frame_id: f, offset: o, length: n }
            && a == app_id && c == canvas_id && f == frame_id && o == offset && n == length,
{
}

/// The commands of a submitted frame are those that the app's region holds in the
/// bytes that its message names: from the offset on, so many as the length says.
/// They are read just where the frame lies behind the header, is no longer than a
/// frame may be, and lies within the region and within what its header says that
/// it has.
pub proof fn painted_commands_are_those_in_the_region(
    app_id: u32,
    canvas_id: u32,
    frame_id: u64,
    offset: u32,
    length: u32,
    r: Request,
    region: &SharedMemory<'_>,
    cmds: Option<Vec<RenderCommand>>,
)
    requires
        call_ensures(
            session::route,
            (
                Client::App(app_id),
                ControlMessage::SubmitFrame { canvas_id, frame_id, offset, length },
            ),
            r,
        ),
        r is SubmitFrame,
        region@.len() >= 24,
        region@.len() <= usize::MAX,
        call_ensures(
            session::frame_commands,
            (region, r->SubmitFrame_offset, r->SubmitFrame_length),
            cmds,
        ),
    ensures
        cmds matches Some(list) ==> cmd_decoder::views(list@) == cmd_decoder::parse_commands(
            region@.subrange(offset as int, offset + length),
        ),
        cmds is Some <==> {
            &&& 24 <= offset
            &&& length <= 0x1_0000
            &&& offset + length <= region@.len()
            &&& buffer::u32_at(region@, 8) <= region@.len()
            &&& offset + length <= buffer::u32_at(region@, 8)
        },
{
}

/// A client that registers as an app is one under the process that it names; one
/// that registers as a monitor by its process alone is a desktop window that
/// nobody owns, opened by hand, with a border and no flags.
pub proof fn plain_registrations_name_the_process(
    client: Client,
    pid: u32,
    app: Request,
    monitor: Request,
)
    requires
        call_ensures(session::route, (client, ControlMessage::RegisterApp { pid }), app),
        call_ensures(session::route, (client, ControlMessage::RegisterMonitor { pid }), monitor),
    ensures
        app matches Request::RegisterApp { pid: p } && p == pid,
        monitor matches Request::RegisterMonitor { registration, opened_for } && {
            &&& registration.pid == pid
            &&& registration.kind is DesktopWindow
            &&& registration.owner_app_id is None
            &&& registration.request_id is None
            &&& registration.target_canvas_id is None
            &&& registration.mode is Bordered
            &&& registration.flags == 0
            &&& registration.manual_lifecycle
            &&& opened_for is None
        },
{
}

/// A monitor is registered with what it says of itself, each value in its own
/// place; zero stands for no owner, no request and no canvas. It was opened for a
/// request just where it names both the request and the app.
pub proof fn registrations_keep_what_the_monitor_says(
    client: Client,
    pid: u32,
    kind: MonitorKind,
    owner_app_id: u32,
    request_id: u32,
    target_canvas_id: u32,
    mode: DesktopWindowMode,
    flags: u32,
    manual_lifecycle: bool,
    r: Request,
)
    requires
        call_ensures(
            session::route,
            (
                client,
                ControlMessage::RegisterMonitorV2 {
                    pid,
                    kind,
                    owner_app_id,
                    request_id,
                    target_canvas_id,
                    mode,
                    flags,
                    manual_lifecycle,
                },
            ),
            r,
        ),
    ensures
        r matches Request::RegisterMonitor { registration, opened_for } && {
            &&& registration.pid == pid
            &&& registration.kind == kind
            &&& owner_app_id == 0 ==> registration.owner_app_id is None
            &&& owner_app_id != 0 ==> registration.owner_app_id == Some(owner_app_id)
            &&& request_id == 0 ==> registration.request_id is None
            &&& request_id != 0 ==> registration.request_id == Some(request_id)
            &&& target_canvas_id == 0 ==> registration.target_canvas_id is None
            &&& target_canvas_id != 0 ==> registration.target_canvas_id == Some(target_canvas_id)
            &&& registration.mode == mode
            &&& registration.flags == flags
            &&& registration.manual_lifecycle == manual_lifecycle
            &&& opened_for is Some <==> request_id != 0 && owner_app_id != 0
            &&& opened_for matches Some(start) ==> start.app_id == owner_app_id && start.request_id
                == request_id
        },
{
}

/// An app's request is for what its message says, each value in its own place.
pub proof fn requests_keep_what_the_app_says(app_id: u32, msg: ControlMessage, r: Request)
    requires
        call_ensures(session::route, (Client::App(app_id), msg), r),
    ensures
        msg matches ControlMessage::CreateCanvas { logical_w, logical_h, render_w, render_h } ==> {
            &&& r is CreateCanvas
            &&& r->CreateCanvas_app_id == app_id
            &&& r->CreateCanvas_logical_w == logical_w
            &&& r->CreateCanvas_logical_h == logical_h
            &&& r->CreateCanvas_render_w == render_w
            &&& r->CreateCanvas_render_h == render_h
        },
        msg matches ControlMessage::AttachMonitor { canvas_id, monitor_id } ==> {
            &&& r is AttachMonitor
            &&& r->AttachMonitor_canvas_id == canvas_id
            &&& r->AttachMonitor_monitor_id == monitor_id
        },
        msg matches ControlMessage::ListMonitorTypes { request_id } ==> {
            &&& r is ListMonitorTypes
            &&& r->ListMonitorTypes_request_id == request_id
        },
        msg matches ControlMessage::StartMonitor {
            request_id,
            kind,
            count,
            target_canvas_id,
            mode,
            flags,
            x,
            y,
            w,
            h,
        } ==> {
            &&& r is StartMonitor
            &&& r->StartMonitor_app_id == app_id
            &&& r->StartMonitor_start.request_id == request_id
            &&& r->StartMonitor_start.kind == kind
            &&& r->StartMonitor_start.count == count
            &&& r->StartMonitor_start.target_canvas_id == target_canvas_id
            &&& r->StartMonitor_start.mode == mode
            &&& r->StartMonitor_start.flags == flags
            &&& r->StartMonitor_start.x == x
            &&& r->StartMonitor_start.y == y
            &&& r->StartMonitor_start.w == w
            &&& r->StartMonitor_start.h == h
        },
        msg matches ControlMessage::StopMonitor { request_id, monitor_id } ==> {
            &&& r is StopMonitor
            &&& r->StopMonitor_app_id == app_id
            &&& r->StopMonitor_request_id == request_id
            &&& r->StopMonitor_monitor_id == monitor_id
        },
        msg matches ControlMessage::LoadBitmap { bitmap_id, bytes } ==> {
            &&& r is LoadBitmap
            &&& r->LoadBitmap_app_id == app_id
            &&& r->LoadBitmap_bitmap_id == bitmap_id
            &&& r->LoadBitmap_bytes == bytes
        },
{
}

/// A client that is no app is refused what only apps may ask for: a start and a
/// stop with an answer that names the request and says that the client is not the
/// owner, anything else without one. What the server itself sends is ignored.
pub proof fn other_clients_are_refused(
    client: Client,
    msg: ControlMessage,
    r: Request,
    answer: Option<ControlMessage>,
)
    requires
        call_ensures(session::route, (client, msg), r),
        call_ensures(session::refusal, (&r,), answer),
    ensures
        !(client is App) ==> {
            &&& msg matches ControlMessage::StartMonitor { request_id, .. } ==> (answer matches Some(
                ControlMessage::StartMonitorResult { request_id: id, status, monitor_ids },
            ) && id == request_id && status is NotOwner && monitor_ids@.len() == 0)
            &&& msg matches ControlMessage::StopMonitor { request_id, .. } ==> (answer matches Some(
                ControlMessage::StopMonitorResult { request_id: id, status },
            ) && id == request_id && status is NotOwner)
            &&& msg is CreateCanvas || msg is AttachMonitor || msg is ListMonitorTypes
                || msg is LoadBitmap || msg is SubmitFrame ==> r is Refuse && answer is None
        },
        client is App ==> answer is None,
        msg is CanvasAttached || msg is MonitorLocalSurfaceAttached || msg is AppDetached
            || msg is MonitorTypes || msg is StartMonitorResult || msg is StopMonitorResult
            || msg is CloseMonitor ==> r is Ignore && answer is None,
{
}

/// A request for monitors is answered at once, with success where none is asked
/// for, and otherwise with the first reason not to grant it: widgets are opened by
/// hand, desktop windows are not to be had, in the mode or with the flags that
/// were asked for, the app has no such canvas, or it would have too many. Any
/// other request is launched, and then it waits for as many monitors as were
/// asked for. No other request changes.
pub proof fn start_requests_are_decided_in_turn(
    state: &ServerState,
    waiting: &mut PendingStarts,
    catalog: &MonitorCatalog,
    app_id: u32,
    s: StartRequest,
    r: StartDecision,
    other: u64,
)
    requires
        call_ensures(session::begin_start, (state, waiting, catalog, app_id, s), r),
    ensures
        ({
            let offer = catalog.desktop_window;
            let mode_offered = match s.mode {
                DesktopWindowMode::Bordered => offer->0.window_modes & 1 != 0,
                DesktopWindowMode::Borderless => offer->0.window_modes & 2 != 0,
                DesktopWindowMode::BorderlessFullscreen => offer->0.window_modes & 4 != 0,
            };
            let offered = offer is Some && mode_offered && s.flags & !offer->0.flags == 0;
            let canvas = state@.resolve(app_id, s.target_canvas_id);
            let running = state@.managed_monitors(app_id).len();
            let key = pending::start_key(app_id, s.request_id);
            &&& s.count == 0 ==> r == StartDecision::Answer(MonitorRequestStatus::Success)
            &&& s.count > 0 && s.kind is GameBar ==> r == StartDecision::Answer(
                MonitorRequestStatus::ManualOpenRequired,
            )
            &&& s.count > 0 && s.kind is DesktopWindow && !offered ==> r == StartDecision::Answer(
                MonitorRequestStatus::Unavailable,
            )
            &&& s.count > 0 && s.kind is DesktopWindow && offered && canvas is None ==> r
                == StartDecision::Answer(MonitorRequestStatus::InvalidCanvas)
            &&& s.count > 0 && s.kind is DesktopWindow && offered && canvas is Some && running
                + s.count > offer->0.max_instances_per_app && offer->0.max_instances_per_app
                < u32::MAX ==> r == StartDecision::Answer(MonitorRequestStatus::LimitExceeded)
            &&& s.count > 0 && s.kind is DesktopWindow && offered && canvas is Some && running
                + s.count <= offer->0.max_instances_per_app ==> r is Launch
            &&& r is Launch ==> final(waiting)@.contains_key(key)
                && final(waiting)@[key].requested == s.count
                && final(waiting)@[key].monitors.len() == 0
            &&& r is Answer || other != key ==> final(waiting)@.contains_key(other)
                == old(waiting)@.contains_key(other)
            &&& (r is Answer || other != key) && old(waiting)@.contains_key(other)
                ==> final(waiting)@[other] == old(waiting)@[other]
        }),
{
}

/// What is launched is what was asked for: the request's own number, mode, flags,
/// place and size, for the app that asked and the canvas that it means, as often as
/// it asked. So the mode and the flags that are launched are ones that the
/// installed monitor offers.
pub proof fn launches_keep_what_was_asked_for(
    state: &ServerState,
    waiting: &mut PendingStarts,
    catalog: &MonitorCatalog,
    app_id: u32,
    s: StartRequest,
    r: StartDecision,
)
    requires
        call_ensures(session::begin_start, (state, waiting, catalog, app_id, s), r),
    ensures
        r matches StartDecision::Launch { options, count } ==> {
            &&& options.request_id == s.request_id
            &&& options.owner_app_id == app_id
            &&& options.mode == s.mode
            &&& options.flags == s.flags
            &&& options.x == s.x
            &&& options.y == s.y
            &&& options.w == s.w
            &&& options.h == s.h
            &&& count == s.count
            &&& Some(options.target_canvas_id) == state@.resolve(app_id, s.target_canvas_id)
            &&& state@.apps.contains_key(app_id)
            &&& state@.apps[app_id].canvas_ids.contains(options.target_canvas_id)
            &&& s.target_canvas_id != 0 ==> options.target_canvas_id == s.target_canvas_id
            &&& s.target_canvas_id == 0 ==> options.target_canvas_id
                == state@.apps[app_id].canvas_ids[0]
            &&& catalog.desktop_window is Some
            &&& options.mode is Bordered ==> catalog.desktop_window->0.window_modes & 1 != 0
            &&& options.mode is Borderless ==> catalog.desktop_window->0.window_modes & 2 != 0
            &&& options.mode is BorderlessFullscreen ==> catalog.desktop_window->0.window_modes & 4
                != 0
            &&& options.flags & !catalog.desktop_window->0.flags == 0
        },
{
}

/// An answer to a start request names the request, the status and the monitors
/// that it is given.
pub proof fn start_answers_keep_their_values(
    request_id: u32,
    status: MonitorRequestStatus,
    monitor_ids: Vec<u32>,
    r: ControlMessage,
)
    requires
        call_ensures(session::start_result, (request_id, status, monitor_ids), r),
    ensures
        r matches ControlMessage::StartMonitorResult {
            request_id: id,
            status: told,
            monitor_ids: ids,
        } && id == request_id && told == status && ids@ == monitor_ids@,
{
}

/// Once the host has launched what it could, a request of which nothing started
/// has failed. One of which less started waits for so many, and has succeeded
/// where they are there already. One of which all started waits on.
pub proof fn launches_are_reported(
    waiting: &mut PendingStarts,
    app_id: u32,
    request_id: u32,
    started: u32,
    count: u32,
    r: Option<ControlMessage>,
)
    requires
        call_ensures(session::finish_start, (waiting, app_id, request_id, started, count), r),
        pending::all_wait(old(waiting)@),
    ensures
        ({
            let key = pending::start_key(app_id, request_id);
            let there = old(waiting)@.contains_key(key);
            let arrived = old(waiting)@[key].monitors;
            &&& started == 0 ==> {
                &&& r matches Some(
                    ControlMessage::StartMonitorResult { request_id: id, status, monitor_ids },
                )
                &&& id == request_id
                &&& status is SpawnFailed
                &&& monitor_ids@.len() == 0
                &&& !final(waiting)@.contains_key(key)
            }
            &&& 0 < started < count && there && arrived.len() >= started ==> {
                &&& r matches Some(
                    ControlMessage::StartMonitorResult { request_id: id, status, monitor_ids },
                )
                &&& id == request_id
                &&& status is Success
                &&& monitor_ids@ == arrived
                &&& !final(waiting)@.contains_key(key)
            }
            &&& 0 < started < count && there && arrived.len() < started ==> {
                &&& r is None
                &&& final(waiting)@.contains_key(key)
                &&& final(waiting)@[key].requested == started
                &&& final(waiting)@[key].monitors == arrived
            }
            &&& started > 0 && (started >= count || !there) ==> r is None && final(waiting)@ == old(
                waiting,
            )@
        }),
{
}

/// A request that waited too long is answered with the monitors that came, once,
/// and is forgotten. No other request changes.
pub proof fn late_requests_time_out(
    waiting: &mut PendingStarts,
    app_id: u32,
    request_id: u32,
    r: Option<ControlMessage>,
    other: u64,
)
    requires
        call_ensures(session::expire_start, (waiting, app_id, request_id), r),
    ensures
        ({
            let key = pending::start_key(app_id, request_id);
            &&& old(waiting)@.contains_key(key) ==> {
                &&& r matches Some(
                    ControlMessage::StartMonitorResult { request_id: id, status, monitor_ids },
                )
                &&& id == request_id
                &&& status is Timeout
                &&& monitor_ids@ == old(waiting)@[key].monitors
            }
            &&& !old(waiting)@.contains_key(key) ==> r is None
            &&& !final(waiting)@.contains_key(key)
            &&& other != key ==> final(waiting)@.contains_key(other) == old(waiting)@.contains_key(
                other,
            )
            &&& other != key && old(waiting)@.contains_key(other) ==> final(waiting)@[other] == old(
                waiting,
            )@[other]
        }),
{
}

/// A monitor that is not wanted is told to close. One that was opened for a
/// request is counted for it, last; with it the request is answered, to the app
/// that asked, with all its monitors in the order in which they came, where so many
/// are there as it waits for. Any other registration is followed by nothing.
pub proof fn registrations_complete_requests(
    waiting: &mut PendingStarts,
    monitor_id: u32,
    should_close: bool,
    start: Option<StartId>,
    r: AfterRegistration,
)
    requires
        call_ensures(session::registered, (waiting, monitor_id, should_close, start), r),
        pending::all_wait(old(waiting)@),
    ensures
        ({
            let id = start->0;
            let key = pending::start_key(id.app_id, id.request_id);
            let expected = start is Some && old(waiting)@.contains_key(key);
            let arrived = old(waiting)@[key].monitors;
            let wanted = old(waiting)@[key].requested;
            &&& should_close ==> {
                &&& r matches AfterRegistration::Close(ControlMessage::CloseMonitor {
                    monitor_id: closed,
                })
                &&& closed == monitor_id
                &&& final(waiting)@ == old(waiting)@
            }
            &&& !should_close && !expected ==> r is Nothing && final(waiting)@ == old(waiting)@
            &&& !should_close && expected && arrived.len() + 1 < wanted ==> {
                &&& r is Nothing
                &&& final(waiting)@.contains_key(key)
                &&& final(waiting)@[key].requested == wanted
                &&& final(waiting)@[key].monitors == arrived.push(monitor_id)
            }
            &&& !should_close && expected && arrived.len() + 1 >= wanted ==> {
                &&& r matches AfterRegistration::Answer {
                    app_id,
                    message: ControlMessage::StartMonitorResult {
                        request_id,
                        status,
                        monitor_ids,
                    },
                }
                &&& app_id == id.app_id
                &&& request_id == id.request_id
                &&& status is Success
                &&& monitor_ids@ == arrived.push(monitor_id)
                &&& !final(waiting)@.contains_key(key)
            }
        }),
{
}

/// A stop is answered under the request's own number with how it went, and the
/// monitor that was named is told to close just where it is the app's own and the
/// core manages it.
pub proof fn stops_close_own_managed_monitors(
    state: &ServerState,
    app_id: u32,
    request_id: u32,
    monitor_id: u32,
    r: StopOutcome,
)
    requires
        call_ensures(session::stop_monitor, (state, app_id, request_id, monitor_id), r),
    ensures
        ({
            let present = state@.monitors.contains_key(monitor_id);
            let monitor = state@.monitors[monitor_id];
            let own = monitor.owner_app_id == Some(app_id);
            let stoppable = monitor.core_managed && !monitor.manual_lifecycle;
            &&& r.answer matches ControlMessage::StopMonitorResult { request_id: id, status }
            &&& id == request_id
            &&& !present ==> status is NotFound
            &&& present && !own ==> status is NotOwner
            &&& present && own && !stoppable ==> status is NotCoreManaged
            &&& present && own && stoppable ==> status is Success
            &&& r.close is Some <==> present && own && stoppable
            &&& r.close matches Some(message) ==> (message matches ControlMessage::CloseMonitor {
                monitor_id: closed,
            } && closed == monitor_id)
        }),
{
}

/// A frame goes to the canvas that the app means: the first where it names none,
/// and otherwise the one that it names, if the app has it and it is there.
pub proof fn frames_go_where_the_app_means(
    state: &ServerState,
    app_id: u32,
    requested: u32,
    r: Option<u32>,
)
    requires
        call_ensures(session::frame_canvas, (state, app_id, requested), r),
    ensures
        ({
            let known = state@.apps.contains_key(app_id);
            let own = state@.apps[app_id].canvas_ids;
            let meant = if requested == 0 {
                own[0]
            } else {
                requested
            };
            r == if known && own.contains(meant) && (requested == 0 ==> own.len() > 0)
                && state@.canvases.contains_key(meant) {
                Some(meant)
            } else {
                None
            }
        }),
{
    let own = state@.apps[app_id].canvas_ids;
    if own.len() > 0 {
        assert(own.contains(own[0]));
    }
}

/// Each monitor that shows a canvas of an app that leaves is told so once, in
/// ascending order, with the app's number and the reason; no other monitor is.
pub proof fn departures_are_announced_once(
    state: &ServerState,
    app_id: u32,
    reason: AppDetachReason,
    r: Vec<Notice>,
    i: int,
    monitor_id: u32,
)
    requires
        call_ensures(session::broadcast_app_detached, (state, app_id, reason), r),
    ensures
        0 <= i < r@.len() ==> {
            &&& r@[i].message matches ControlMessage::AppDetached { app_id: gone, reason: told }
            &&& gone == app_id
            &&& reason is GracefulExit ==> told == 0
            &&& reason is IoError ==> told == 1
            &&& reason is Other ==> told == 2
        },
        0 < i < r@.len() ==> r@[i - 1].monitor_id < r@[i].monitor_id,
        (exists|k: int| 0 <= k < r@.len() && (#[trigger] r@[k]).monitor_id == monitor_id) <==> {
            &&& state@.monitors.contains_key(monitor_id)
            &&& state@.apps.contains_key(app_id)
            &&& exists|k: int|
                0 <= k < state@.apps[app_id].canvas_ids.len() && {
                    let c = #[trigger] state@.apps[app_id].canvas_ids[k];
                    state@.canvases.contains_key(c) && state@.canvases[c].attached.contains(
                        monitor_id,
                    )
                }
        },
{
    let ids = crate::tables::ascending_of(session::audience(state@, app_id));
    let told = session::audience(state@, app_id);
    assert(r@.len() == ids.len());
    assert(told.contains(monitor_id) <==> ids.contains(monitor_id));
    if ids.contains(monitor_id) {
        let k = choose|k: int| 0 <= k < ids.len() && ids[k] == monitor_id;
        assert(r@[k].monitor_id == monitor_id);
    }
    if exists|k: int| 0 <= k < r@.len() && (#[trigger] r@[k]).monitor_id == monitor_id {
        let k = choose|k: int| 0 <= k < r@.len() && (#[trigger] r@[k]).monitor_id == monitor_id;
        assert(ids[k] == monitor_id);
    }
}

/// An app that leaves is gone, with its requests; the monitors that the core ran
/// for it are to be closed, those that showed its canvases are told, as an exit
/// where the connection ended and as an error where it failed, and what the host
/// holds for it is handed back. A monitor that leaves is gone; nobody is told. One
/// that never registered leaves nothing behind.
pub proof fn leaving_clients_are_cleared_away(
    state: &mut ServerState,
    waiting: &mut PendingStarts,
    client: Client,
    failed: bool,
    r: Departure,
    i: int,
    monitor_id: u32,
    request_id: u32,
    other: u32,
)
    requires
        call_ensures(session::depart, (state, waiting, client, failed), r),
    ensures
        client matches Client::App(id) ==> {
            let kept = pending::start_key(other, request_id);
            &&& !final(state)@.apps.contains_key(id)
            &&& !final(waiting)@.contains_key(pending::start_key(id, request_id))
            &&& other != id ==> final(waiting)@.contains_key(kept) == old(waiting)@.contains_key(
                kept,
            )
            &&& other != id && old(waiting)@.contains_key(kept) ==> final(waiting)@[kept] == old(
                waiting,
            )@[kept]
            &&& final(state)@.monitors == old(state)@.monitors
            &&& r.closed@.contains(monitor_id) <==> {
                &&& old(state)@.monitors.contains_key(monitor_id)
                &&& old(state)@.monitors[monitor_id].kind is DesktopWindow
                &&& old(state)@.monitors[monitor_id].owner_app_id == Some(id)
                &&& old(state)@.monitors[monitor_id].core_managed
            }
            &&& 0 <= i < r.notices@.len() ==> {
                &&& r.notices@[i].message matches ControlMessage::AppDetached {
                    app_id: gone,
                    reason,
                }
                &&& gone == id
                &&& !failed ==> reason == 0
                &&& failed ==> reason == 1
            }
            &&& r.app is Some <==> old(state)@.apps.contains_key(id)
            &&& r.app matches Some(app) ==> app@ == old(state)@.apps[id]
        },
        client matches Client::Monitor(id) ==> {
            &&& !final(state)@.monitors.contains_key(id)
            &&& !final(state)@.scenes.contains_key(id)
            &&& final(state)@.apps == old(state)@.apps
            &&& final(waiting)@ == old(waiting)@
            &&& r.closed@.len() == 0
            &&& r.notices@.len() == 0
            &&& r.app is None
        },
        client is Unknown ==> {
            &&& final(state)@ == old(state)@
            &&& final(waiting)@ == old(waiting)@
            &&& r.closed@.len() == 0
            &&& r.notices@.len() == 0
            &&& r.app is None
        },
{
    if let Client::App(id) = client {
        let managed = old(state)@.managed_monitors(id);
        assert(managed.contains(monitor_id) <==> r.closed@.contains(monitor_id));
        if other != id {
            pending::leaving_cancels_own_requests(old(waiting)@, id, request_id, other);
        } else {
            pending::keys_differ(id, request_id, id, request_id);
        }
    }
}

/// A request that begins to wait has no monitors yet and waits for as many as it was
/// entered with. A monitor that comes is counted last; the last one that it waits for
/// ends it, with all of them in the order in which they came. A monitor for a request
/// that does not wait counts for nothing.
pub proof fn waiting_requests_count_their_monitors(
    new: PendingStarts,
    entered: &mut PendingStarts,
    app_id: u32,
    request_id: u32,
    count: u32,
    s: &mut PendingStarts,
    monitor_id: u32,
    r: Option<Vec<u32>>,
    key: u64,
)
    requires
        call_ensures(PendingStarts::new, (), new),
        call_ensures(PendingStarts::insert, (entered, app_id, request_id, count), ()),
        count > 0,
        call_ensures(
            PendingStarts::complete_pending_monitor_start,
            (s, request_id, app_id, monitor_id),
            r,
        ),
        pending::all_wait(old(s)@),
        key == pending::start_key(app_id, request_id),
    ensures
        !new@.contains_key(key),
        final(entered)@.contains_key(key),
        final(entered)@[key].requested == count,
        final(entered)@[key].monitors.len() == 0,
        !old(s)@.contains_key(key) ==> r is None && final(s)@ == old(s)@,
        old(s)@.contains_key(key) && old(s)@[key].monitors.len() + 1 < old(s)@[key].requested ==> {
            &&& r is None
            &&& final(s)@.contains_key(key)
            &&& final(s)@[key].requested == old(s)@[key].requested
            &&& final(s)@[key].monitors == old(s)@[key].monitors.push(monitor_id)
        },
        old(s)@.contains_key(key) && old(s)@[key].monitors.len() + 1 >= old(s)@[key].requested ==> {
            &&& r matches Some(ids)
            &&& ids@ == old(s)@[key].monitors.push(monitor_id)
            &&& !final(s)@.contains_key(key)
        },
{
}

/// A request of which nothing was launched has failed. One of which less was launched
/// is complete where so many monitors are there, and waits for them otherwise. One
/// that waited too long gives the monitors that came, and is gone; so are all of an
/// app that leaves, and no others.
pub proof fn waiting_requests_end(
    s: &mut PendingStarts,
    app_id: u32,
    request_id: u32,
    started: u32,
    count: u32,
    r: LaunchOutcome,
    t: &mut PendingStarts,
    late: Option<Vec<u32>>,
    u: &mut PendingStarts,
    other: u32,
    key: u64,
)
    requires
        call_ensures(PendingStarts::launched, (s, app_id, request_id, started, count), r),
        pending::all_wait(old(s)@),
        call_ensures(PendingStarts::time_out, (t, app_id, request_id), late),
        call_ensures(PendingStarts::cancel_pending_monitor_starts_for_app, (u, app_id), ()),
        other != app_id,
        key == pending::start_key(app_id, request_id),
    ensures
        started == 0 ==> r is Failed && !final(s)@.contains_key(key),
        0 < started < count && old(s)@.contains_key(key) && old(s)@[key].monitors.len() >= started
            ==> (r matches LaunchOutcome::Completed(ids) && ids@ == old(s)@[key].monitors
            && !final(s)@.contains_key(key)),
        0 < started < count && old(s)@.contains_key(key) && old(s)@[key].monitors.len() < started
            ==> r is Waiting && final(s)@[key].requested == started && final(s)@[key].monitors
            == old(s)@[key].monitors,
        0 < started && (started >= count || !old(s)@.contains_key(key)) ==> r is Waiting
            && final(s)@ == old(s)@,
        late is Some <==> old(t)@.contains_key(key),
        late matches Some(ids) ==> ids@ == old(t)@[key].monitors,
        !final(t)@.contains_key(key),
        !final(u)@.contains_key(key),
        ({
            let kept = pending::start_key(other, request_id);
            &&& final(u)@.contains_key(kept) == old(u)@.contains_key(kept)
            &&& old(u)@.contains_key(kept) ==> final(u)@[kept] == old(u)@[kept]
        }),
{
    pending::leaving_cancels_own_requests(old(u)@, app_id, request_id, other);
}

} // verus!
