//! What the server does for a client: which of a client's messages it acts on, how
//! it answers requests for monitors, and what it does when a client leaves.

use vstd::prelude::*;

use crate::catalog::{DesktopWindowCapability, DesktopWindowLaunchOptions, MonitorCatalog};
use crate::cmd_decoder;
use crate::cmd_decoder::{decode_commands, RenderCommand};
use crate::consistency;
use crate::pending;
use crate::pending::{LaunchOutcome, LaunchView, PendingStarts, PendingView};
use crate::protocol::{
    AppDetachReason, ControlMessage, DesktopWindowMode, MessageView, MonitorKind,
    MonitorRequestStatus,
};
use crate::server::{App, MonitorRegistration, ServerModel, ServerState};
use crate::shmem;
use crate::shmem::{RingbufferHeader, SharedMemory, MAX_FRAME_COMMANDS};
use crate::tables;
use crate::tables::sorted_keys;

verus! {

/// The pipe that the server listens on.
pub const PIPE_NAME: &'static str = "\\\\.\\pipe\\overlay-core";

/// Who is at the other end of a connection.
#[derive(Debug, Clone, Copy, PartialEq, Eq, Structural)]
pub enum Client {
    /// Has not registered.
    Unknown,
    App(u32),
    Monitor(u32),
}

/// An app's request for monitors.
#[derive(Debug, Clone, Copy, PartialEq, Eq, Structural)]
pub struct StartRequest {
    pub request_id: u32,
    pub kind: MonitorKind,
    pub count: u32,
    pub target_canvas_id: u32,
    pub mode: DesktopWindowMode,
    pub flags: u32,
    pub x: i32,
    pub y: i32,
    pub w: u32,
    pub h: u32,
}

/// An app's request that a monitor was opened for.
#[derive(Debug, Clone, Copy, PartialEq, Eq, Structural)]
pub struct StartId {
    pub app_id: u32,
    pub request_id: u32,
}

/// What the server is to do for a client's message.
#[derive(Debug, Clone, PartialEq)]
pub enum Request {
    RegisterApp { pid: u32 },
    /// Register a monitor, and enter it for the request that it was opened for.
    RegisterMonitor { registration: MonitorRegistration, opened_for: Option<StartId> },
    CreateCanvas { app_id: u32, logical_w: u32, logical_h: u32, render_w: u32, render_h: u32 },
    AttachMonitor { canvas_id: u32, monitor_id: u32 },
    ListMonitorTypes { request_id: u32 },
    StartMonitor { app_id: u32, start: StartRequest },
    StopMonitor { app_id: u32, request_id: u32, monitor_id: u32 },
    LoadBitmap { app_id: u32, bitmap_id: u32, bytes: Vec<u8> },
    SubmitFrame { app_id: u32, canvas_id: u32, frame_id: u64, offset: u32, length: u32 },
    /// Tell the client that it may not start monitors.
    RefuseStart { request_id: u32 },
    /// Tell the client that it may not stop monitors.
    RefuseStop { request_id: u32 },
    /// Drop the message: only an app may send it.
    Refuse,
    /// Drop the message: no client sends it to the server.
    Ignore,
}

/// The value that is meant by a number for which zero stands for none.
pub open spec fn unless_zero(n: u32) -> Option<u32> {
    if n == 0 {
        None
    } else {
        Some(n)
    }
}

fn non_zero(n: u32) -> (r: Option<u32>)
    ensures
        r == unless_zero(n),
{
    if n == 0 {
        None
    } else {
        Some(n)
    }
}

/// What a monitor registers as that says nothing but its process.
pub open spec fn plain_registration(pid: u32) -> MonitorRegistration {
    MonitorRegistration {
        pid,
        kind: MonitorKind::DesktopWindow,
        owner_app_id: None,
        request_id: None,
        target_canvas_id: None,
        mode: DesktopWindowMode::Bordered,
        flags: 0,
        manual_lifecycle: true,
    }
}

/// What the server is to do for a client's message.
pub open spec fn requested(client: Client, msg: ControlMessage) -> Request {
    match msg {
        ControlMessage::RegisterApp { pid } => Request::RegisterApp { pid },
        ControlMessage::RegisterMonitor { pid } => Request::RegisterMonitor {
            registration: plain_registration(pid),
            opened_for: None,
        },
        ControlMessage::RegisterMonitorV2 {
            pid,
            kind,
            owner_app_id,
            request_id,
            target_canvas_id,
            mode,
            flags,
            manual_lifecycle,
        } => Request::RegisterMonitor {
            registration: MonitorRegistration {
                pid,
                kind,
                owner_app_id: unless_zero(owner_app_id),
                request_id: unless_zero(request_id),
                target_canvas_id: unless_zero(target_canvas_id),
                mode,
                flags,
                manual_lifecycle,
            },
            opened_for: if request_id != 0 && owner_app_id != 0 {
                Some(StartId { app_id: owner_app_id, request_id })
            } else {
                None
            },
        },
        ControlMessage::CreateCanvas { logical_w, logical_h, render_w, render_h } => match client {
            Client::App(app_id) => Request::CreateCanvas {
                app_id,
                logical_w,
                logical_h,
                render_w,
                render_h,
            },
            _ => Request::Refuse,
        },
        ControlMessage::AttachMonitor { canvas_id, monitor_id } => match client {
            Client::App(_) => Request::AttachMonitor { canvas_id, monitor_id },
            _ => Request::Refuse,
        },
        ControlMessage::ListMonitorTypes { request_id } => match client {
            Client::App(_) => Request::ListMonitorTypes { request_id },
            _ => Request::Refuse,
        },
        ControlMessage::StartMonitor {
            request_id,
            kind,
            count,
            target_canvas_id,
            mode,
            flags,
            x,
            y,
            w,
            h,
        } => match client {
            Client::App(app_id) => Request::StartMonitor {
                app_id,
                start: StartRequest {
                    request_id,
                    kind,
                    count,
                    target_canvas_id,
                    mode,
                    flags,
                    x,
                    y,
                    w,
                    h,
                },
            },
            _ => Request::RefuseStart { request_id },
        },
        ControlMessage::StopMonitor { request_id, monitor_id } => match client {
            Client::App(app_id) => Request::StopMonitor { app_id, request_id, monitor_id },
            _ => Request::RefuseStop { request_id },
        },
        ControlMessage::LoadBitmap { bitmap_id, bytes } => match client {
            Client::App(app_id) => Request::LoadBitmap { app_id, bitmap_id, bytes },
            _ => Request::Refuse,
        },
        ControlMessage::SubmitFrame { canvas_id, frame_id, offset, length } => match client {
            Client::App(app_id) => Request::SubmitFrame {
                app_id,
                canvas_id,
                frame_id,
                offset,
                length,
            },
            _ => Request::Refuse,
        },
        _ => Request::Ignore,
    }
}

/// What the server is to do for a client's message.
pub fn route(client: Client, msg: ControlMessage) -> (r: Request)
    ensures
        r == requested(client, msg),
{
    match msg {
        ControlMessage::RegisterApp { pid } => Request::RegisterApp { pid },
        ControlMessage::RegisterMonitor { pid } => Request::RegisterMonitor {
            registration: MonitorRegistration {
                pid,
                kind: MonitorKind::DesktopWindow,
                owner_app_id: None,
                request_id: None,
                target_canvas_id: None,
                mode: DesktopWindowMode::Bordered,
                flags: 0,
                manual_lifecycle: true,
            },
            opened_for: None,
        },
        ControlMessage::RegisterMonitorV2 {
            pid,
            kind,
            owner_app_id,
            request_id,
            target_canvas_id,
            mode,
            flags,
            manual_lifecycle,
        } => {
            let opened_for = if request_id != 0 && owner_app_id != 0 {
                Some(StartId { app_id: owner_app_id, request_id })
            } else {
                None
            };
            Request::RegisterMonitor {
                registration: MonitorRegistration {
                    pid,
                    kind,
                    owner_app_id: non_zero(owner_app_id),
                    request_id: non_zero(request_id),
                    target_canvas_id: non_zero(target_canvas_id),
                    mode,
                    flags,
                    manual_lifecycle,
                },
                opened_for,
            }
        },
        ControlMessage::CreateCanvas { logical_w, logical_h, render_w, render_h } => match client {
            Client::App(app_id) => Request::CreateCanvas {
                app_id,
                logical_w,
                logical_h,
                render_w,
                render_h,
            },
            _ => Request::Refuse,
        },
        ControlMessage::AttachMonitor { canvas_id, monitor_id } => match client {
            Client::App(_) => Request::AttachMonitor { canvas_id, monitor_id },
            _ => Request::Refuse,
        },
        ControlMessage::ListMonitorTypes { request_id } => match client {
            Client::App(_) => Request::ListMonitorTypes { request_id },
            _ => Request::Refuse,
        },
        ControlMessage::StartMonitor {
            request_id,
            kind,
            count,
            target_canvas_id,
            mode,
            flags,
            x,
            y,
            w,
            h,
        } => match client {
            Client::App(app_id) => Request::StartMonitor {
                app_id,
                start: StartRequest {
                    request_id,
                    kind,
                    count,
                    target_canvas_id,
                    mode,
                    flags,
                    x,
                    y,
                    w,
                    h,
                },
            },
            _ => Request::RefuseStart { request_id },
        },
        ControlMessage::StopMonitor { request_id, monitor_id } => match client {
            Client::App(app_id) => Request::StopMonitor { app_id, request_id, monitor_id },
            _ => Request::RefuseStop { request_id },
        },
        ControlMessage::LoadBitmap { bitmap_id, bytes } => match client {
            Client::App(app_id) => Request::LoadBitmap { app_id, bitmap_id, bytes },
            _ => Request::Refuse,
        },
        ControlMessage::SubmitFrame { canvas_id, frame_id, offset, length } => match client {
            Client::App(app_id) => Request::SubmitFrame {
                app_id,
                canvas_id,
                frame_id,
                offset,
                length,
            },
            _ => Request::Refuse,
        },
        _ => Request::Ignore,
    }
}

/// What a client is answered whose request to start or stop monitors is refused: it
/// owns none. No other request is answered so.
pub open spec fn refused_with(request: Request) -> Option<MessageView> {
    match request {
        Request::RefuseStart { request_id } => Some(
            MessageView::StartMonitorResult {
                request_id,
                status: MonitorRequestStatus::NotOwner,
                monitor_ids: seq![],
            },
        ),
        Request::RefuseStop { request_id } => Some(
            MessageView::Plain(
                ControlMessage::StopMonitorResult {
                    request_id,
                    status: MonitorRequestStatus::NotOwner,
                },
            ),
        ),
        _ => None,
    }
}

/// The answer to a request that is refused with one.
pub fn refusal(request: &Request) -> (r: Option<ControlMessage>)
    ensures
        r is Some <==> refused_with(*request) is Some,
        r matches Some(message) ==> refused_with(*request) == Some(message@),
{
    match request {
        Request::RefuseStart { request_id } => Some(
            start_result(*request_id, MonitorRequestStatus::NotOwner, Vec::new()),
        ),
        Request::RefuseStop { request_id } => Some(
            ControlMessage::StopMonitorResult {
                request_id: *request_id,
                status: MonitorRequestStatus::NotOwner,
            },
        ),
        _ => None,
    }
}

/// Whether only an app may send the message.
pub open spec fn is_for_apps(msg: ControlMessage) -> bool {
    msg is CreateCanvas || msg is AttachMonitor || msg is ListMonitorTypes || msg is StartMonitor
        || msg is StopMonitor || msg is LoadBitmap || msg is SubmitFrame
}

/// A client that is not an app is refused whatever only an app may send. Where it asks
/// to start or stop monitors it is answered that it owns none; else it gets no answer.
pub proof fn only_apps_are_served(client: Client, msg: ControlMessage)
    requires
        !(client is App),
        is_for_apps(msg),
    ensures
        match msg {
            ControlMessage::StartMonitor { request_id, .. } => {
                &&& requested(client, msg) == (Request::RefuseStart { request_id })
                &&& refused_with(requested(client, msg)) == Some(
                    MessageView::StartMonitorResult {
                        request_id,
                        status: MonitorRequestStatus::NotOwner,
                        monitor_ids: seq![],
                    },
                )
            },
            ControlMessage::StopMonitor { request_id, .. } => {
                &&& requested(client, msg) == (Request::RefuseStop { request_id })
                &&& refused_with(requested(client, msg)) == Some(
                    MessageView::Plain(
                        ControlMessage::StopMonitorResult {
                            request_id,
                            status: MonitorRequestStatus::NotOwner,
                        },
                    ),
                )
            },
            _ => {
                &&& requested(client, msg) == Request::Refuse
                &&& refused_with(requested(client, msg)) is None
            },
        },
{
}

/// What an app asks for is done in its own name: no message names another app to
/// act for.
pub proof fn apps_act_for_themselves(app_id: u32, msg: ControlMessage)
    ensures
        match requested(Client::App(app_id), msg) {
            Request::CreateCanvas { app_id: acting, .. } => acting == app_id,
            Request::StartMonitor { app_id: acting, .. } => acting == app_id,
            Request::StopMonitor { app_id: acting, .. } => acting == app_id,
            Request::LoadBitmap { app_id: acting, .. } => acting == app_id,
            Request::SubmitFrame { app_id: acting, .. } => acting == app_id,
            Request::Refuse => false,
            Request::RefuseStart { .. } => false,
            Request::RefuseStop { .. } => false,
            _ => true,
        },
{
}

/// The answer to a request for monitors.
pub fn start_result(request_id: u32, status: MonitorRequestStatus, monitor_ids: Vec<u32>) -> (r:
    ControlMessage)
    ensures
        r@ == (MessageView::StartMonitorResult { request_id, status, monitor_ids: monitor_ids@ }),
{
    ControlMessage::StartMonitorResult { request_id, status, monitor_ids }
}

/// What is done about a request for monitors.
#[derive(Debug, Clone, Copy, PartialEq, Eq, Structural)]
pub enum StartDecision {
    /// It is answered at once, with no monitors.
    Answer(MonitorRequestStatus),
    /// So many desktop windows are launched.
    Launch { options: DesktopWindowLaunchOptions, count: u32 },
}

/// The sum of two numbers, or the largest number where it is too large.
pub open spec fn capped_sum(a: nat, b: u32) -> nat {
    if a + b > u32::MAX {
        u32::MAX as nat
    } else {
        a + b as nat
    }
}

/// How the desktop windows of a request are launched.
pub open spec fn launch_options(app_id: u32, target_canvas_id: u32, s: StartRequest) ->
    DesktopWindowLaunchOptions {
    DesktopWindowLaunchOptions {
        request_id: s.request_id,
        owner_app_id: app_id,
        target_canvas_id,
        mode: s.mode,
        flags: s.flags,
        x: s.x,
        y: s.y,
        w: s.w,
        h: s.h,
    }
}

/// What is done about an app's request for monitors.
pub open spec fn start_decision(
    m: ServerModel,
    desktop: Option<DesktopWindowCapability>,
    app_id: u32,
    s: StartRequest,
) -> StartDecision {
    if s.count == 0 {
        StartDecision::Answer(MonitorRequestStatus::Success)
    } else if s.kind == MonitorKind::GameBar {
        StartDecision::Answer(MonitorRequestStatus::ManualOpenRequired)
    } else {
        match desktop {
            None => StartDecision::Answer(MonitorRequestStatus::Unavailable),
            Some(d) => if d.window_modes & s.mode.mode_bit() == 0 || s.flags & !d.flags != 0 {
                StartDecision::Answer(MonitorRequestStatus::Unavailable)
            } else {
                match m.resolve(app_id, s.target_canvas_id) {
                    None => StartDecision::Answer(MonitorRequestStatus::InvalidCanvas),
                    Some(canvas_id) => if capped_sum(m.managed_monitors(app_id).len(), s.count)
                        > d.max_instances_per_app {
                        StartDecision::Answer(MonitorRequestStatus::LimitExceeded)
                    } else {
                        StartDecision::Launch {
                            options: launch_options(app_id, canvas_id, s),
                            count: s.count,
                        }
                    },
                }
            },
        }
    }
}

/// A list of all members of a set has as many members as the set.
proof fn lists_count(ids: Seq<u32>, set: Set<u32>)
    requires
        tables::lists(ids, set),
    ensures
        ids.len() == set.len(),
{
    assert(ids.no_duplicates());
    assert(ids.to_set() =~= set) by {
        assert forall|x: u32| ids.to_set().contains(x) <==> set.contains(x) by {
            assert(ids.contains(x) <==> set.contains(x));
        }
    }
    ids.unique_seq_to_set();
}

/// Decides about an app's request for monitors. Where monitors are to be launched,
/// the request waits for them from then on.
pub fn begin_start(
    state: &ServerState,
    pending: &mut PendingStarts,
    catalog: &MonitorCatalog,
    app_id: u32,
    s: StartRequest,
) -> (r: StartDecision)
    ensures
        r == start_decision(state@, catalog.desktop_window, app_id, s),
        final(pending)@ == if r is Launch {
            old(pending)@.insert(
                pending::start_key(app_id, s.request_id),
                PendingView { requested: s.count, monitors: seq![] },
            )
        } else {
            old(pending)@
        },
        pending::all_wait(old(pending)@) ==> pending::all_wait(final(pending)@),
{
    if s.count == 0 {
        return StartDecision::Answer(MonitorRequestStatus::Success);
    }
    if s.kind == MonitorKind::GameBar {
        return StartDecision::Answer(MonitorRequestStatus::ManualOpenRequired);
    }
    let desktop = match &catalog.desktop_window {
        Some(desktop) => desktop,
        None => {
            return StartDecision::Answer(MonitorRequestStatus::Unavailable);
        },
    };
    if desktop.window_modes & s.mode.bit() == 0 || s.flags & !desktop.flags != 0 {
        return StartDecision::Answer(MonitorRequestStatus::Unavailable);
    }
    let canvas_id: u32 = match state.resolve_app_canvas_id(app_id, s.target_canvas_id) {
        Some(canvas_id) => canvas_id,
        None => {
            return StartDecision::Answer(MonitorRequestStatus::InvalidCanvas);
        },
    };
    let running = state.close_owned_desktop_monitors(app_id);
    proof {
        lists_count(running@, state@.managed_monitors(app_id));
    }
    let existing: u64 = running.len() as u64;
    let room: u64 = if existing <= u32::MAX as u64 {
        u32::MAX as u64 - existing
    } else {
        0
    };
    let total: u64 = if s.count as u64 > room {
        u32::MAX as u64
    } else {
        existing + s.count as u64
    };
    if total > desktop.max_instances_per_app as u64 {
        return StartDecision::Answer(MonitorRequestStatus::LimitExceeded);
    }
    pending.insert(app_id, s.request_id, s.count);
    StartDecision::Launch {
        options: DesktopWindowLaunchOptions {
            request_id: s.request_id,
            owner_app_id: app_id,
            target_canvas_id: canvas_id,
            mode: s.mode,
            flags: s.flags,
            x: s.x,
            y: s.y,
            w: s.w,
            h: s.h,
        },
        count: s.count,
    }
}

/// What is launched is installed, shows a canvas of the app, and keeps to the
/// number of windows that an app may have.
pub proof fn launches_are_allowed(
    m: ServerModel,
    desktop: Option<DesktopWindowCapability>,
    app_id: u32,
    s: StartRequest,
)
    requires
        start_decision(m, desktop, app_id, s) is Launch,
    ensures
        desktop is Some,
        desktop->0.window_modes & s.mode.mode_bit() != 0,
        s.flags & !desktop->0.flags == 0,
        s.kind == MonitorKind::DesktopWindow,
        m.owns(app_id, start_decision(m, desktop, app_id, s)->options.target_canvas_id),
        desktop->0.max_instances_per_app < u32::MAX ==> m.managed_monitors(app_id).len() + s.count
            <= desktop->0.max_instances_per_app,
{
    if s.target_canvas_id == 0 {
        let ids = m.apps[app_id].canvas_ids;
        assert(ids.contains(ids[0]));
    }
}

/// What the app is told once the monitors of its request were launched: nothing
/// while some have still to register.
pub open spec fn launch_answer(request_id: u32, outcome: LaunchView) -> Option<MessageView> {
    match outcome {
        LaunchView::Failed => Some(
            MessageView::StartMonitorResult {
                request_id,
                status: MonitorRequestStatus::SpawnFailed,
                monitor_ids: seq![],
            },
        ),
        LaunchView::Completed(ids) => Some(
            MessageView::StartMonitorResult {
                request_id,
                status: MonitorRequestStatus::Success,
                monitor_ids: ids,
            },
        ),
        LaunchView::Waiting => None,
    }
}

/// What an optional message is as a mathematical value.
pub open spec fn message_view(m: Option<ControlMessage>) -> Option<MessageView> {
    match m {
        Some(msg) => Some(msg@),
        None => None,
    }
}

/// Enters how many monitors of a request could be launched, and gives what the app
/// is told. Where that is nothing, the time of the request begins.
pub fn finish_start(
    pending: &mut PendingStarts,
    app_id: u32,
    request_id: u32,
    started: u32,
    count: u32,
) -> (r: Option<ControlMessage>)
    requires
        pending::all_wait(old(pending)@),
    ensures
        ({
            let (after, outcome) = pending::launching(
                old(pending)@,
                pending::start_key(app_id, request_id),
                started,
                count,
            );
            &&& final(pending)@ == after
            &&& message_view(r) == launch_answer(request_id, outcome)
        }),
        pending::all_wait(final(pending)@),
{
    match pending.launched(app_id, request_id, started, count) {
        LaunchOutcome::Failed => {
            let none: Vec<u32> = Vec::new();
            assert(none@ =~= seq![]);
            Some(start_result(request_id, MonitorRequestStatus::SpawnFailed, none))
        },
        LaunchOutcome::Completed(ids) => Some(
            start_result(request_id, MonitorRequestStatus::Success, ids),
        ),
        LaunchOutcome::Waiting => None,
    }
}

/// Ends the time of a request, and gives what the app is told where it still
/// waited: the monitors that have registered.
pub fn expire_start(pending: &mut PendingStarts, app_id: u32, request_id: u32) -> (r: Option<
    ControlMessage,
>)
    ensures
        final(pending)@ == old(pending)@.remove(pending::start_key(app_id, request_id)),
        message_view(r) == (if old(pending)@.contains_key(pending::start_key(app_id, request_id)) {
            Some(
                MessageView::StartMonitorResult {
                    request_id,
                    status: MonitorRequestStatus::Timeout,
                    monitor_ids: old(pending)@[pending::start_key(app_id, request_id)].monitors,
                },
            )
        } else {
            None
        }),
        pending::all_wait(old(pending)@) ==> pending::all_wait(final(pending)@),
{
    match pending.time_out(app_id, request_id) {
        Some(ids) => Some(start_result(request_id, MonitorRequestStatus::Timeout, ids)),
        None => None,
    }
}

/// What follows the registration of a monitor.
#[derive(Debug)]
pub enum AfterRegistration {
    /// The monitor is told to close.
    Close(ControlMessage),
    /// An app is told that its monitors are there.
    Answer { app_id: u32, message: ControlMessage },
    Nothing,
}

/// What follows the registration of a monitor: one that nobody wants is told to
/// close, and one that was the last of a request completes it.
pub fn registered(
    pending: &mut PendingStarts,
    monitor_id: u32,
    should_close: bool,
    start: Option<StartId>,
) -> (r: AfterRegistration)
    requires
        pending::all_wait(old(pending)@),
    ensures
        pending::all_wait(final(pending)@),
        should_close ==> final(pending)@ == old(pending)@ && r == AfterRegistration::Close(
            ControlMessage::CloseMonitor { monitor_id },
        ),
        !should_close && start is None ==> final(pending)@ == old(pending)@
            && r is Nothing,
        !should_close && start is Some ==> {
            let id = start->0;
            let (after, complete) = pending::completing(
                old(pending)@,
                pending::start_key(id.app_id, id.request_id),
                monitor_id,
            );
            &&& final(pending)@ == after
            &&& match complete {
                Some(ids) => r matches AfterRegistration::Answer { app_id, message } && app_id
                    == id.app_id && message@ == (MessageView::StartMonitorResult {
                    request_id: id.request_id,
                    status: MonitorRequestStatus::Success,
                    monitor_ids: ids,
                }),
                None => r is Nothing,
            }
        },
{
    if should_close {
        return AfterRegistration::Close(ControlMessage::CloseMonitor { monitor_id });
    }
    match start {
        None => AfterRegistration::Nothing,
        Some(id) => match pending.complete_pending_monitor_start(
            id.request_id,
            id.app_id,
            monitor_id,
        ) {
            Some(ids) => AfterRegistration::Answer {
                app_id: id.app_id,
                message: start_result(id.request_id, MonitorRequestStatus::Success, ids),
            },
            None => AfterRegistration::Nothing,
        },
    }
}

/// What is done about a request to stop a monitor.
#[derive(Debug)]
pub struct StopOutcome {
    /// What the app is told.
    pub answer: ControlMessage,
    /// What the monitor is told, where it has to close.
    pub close: Option<ControlMessage>,
}

/// Decides about an app's request to stop a monitor.
pub fn stop_monitor(state: &ServerState, app_id: u32, request_id: u32, monitor_id: u32) -> (r:
    StopOutcome)
    ensures
        r.answer == (ControlMessage::StopMonitorResult {
            request_id,
            status: state@.close_status(app_id, monitor_id),
        }),
        r.close == (if state@.close_status(app_id, monitor_id) == MonitorRequestStatus::Success {
            Some(ControlMessage::CloseMonitor { monitor_id })
        } else {
            None
        }),
{
    let status = state.close_monitor_if_owned(app_id, monitor_id);
    let close = if status == MonitorRequestStatus::Success {
        Some(ControlMessage::CloseMonitor { monitor_id })
    } else {
        None
    };
    StopOutcome { answer: ControlMessage::StopMonitorResult { request_id, status }, close }
}

/// The commands of a frame, read from an app's command region. None where the
/// region does not hold the frame.
pub fn frame_commands(region: &SharedMemory, offset: u32, length: u32) -> (r: Option<
    Vec<RenderCommand>,
>)
    requires
        region@.len() >= 24,
    ensures
        ({
            let error = shmem::slice_error(
                offset,
                length,
                0x1_0000,
                region@.len() as usize,
                RingbufferHeader::stored(region@).capacity,
            );
            match r {
                Some(cmds) => error is None && cmd_decoder::views(cmds@)
                    == cmd_decoder::parse_commands(
                    region@.subrange(offset as int, offset + length),
                ),
                None => error is Some,
            }
        }),
{
    match region.command_slice(offset, length, MAX_FRAME_COMMANDS) {
        Ok(data) => Some(decode_commands(data)),
        Err(_) => None,
    }
}

/// The canvas that an app submits a frame to, where it is there.
pub open spec fn frame_target(m: ServerModel, app_id: u32, requested: u32) -> Option<u32> {
    match m.resolve(app_id, requested) {
        Some(canvas_id) => if m.canvases.contains_key(canvas_id) {
            Some(canvas_id)
        } else {
            None
        },
        None => None,
    }
}

/// The canvas that an app submits a frame to, where it is there.
pub fn frame_canvas(state: &ServerState, app_id: u32, requested: u32) -> (r: Option<u32>)
    ensures
        r == frame_target(state@, app_id, requested),
{
    match state.resolve_app_canvas_id(app_id, requested) {
        Some(canvas_id) => {
            assert(state@.canvases.contains_key(canvas_id) == state.canvases@.contains_key(
                canvas_id,
            ));
            if state.canvases.contains_key(&canvas_id) {
                Some(canvas_id)
            } else {
                None
            }
        },
        None => None,
    }
}

/// An app paints on its own canvases alone.
pub proof fn frames_go_to_own_canvases(m: ServerModel, app_id: u32, requested: u32)
    ensures
        frame_target(m, app_id, requested) matches Some(c) ==> m.owns(app_id, c),
{
    if requested == 0 && frame_target(m, app_id, requested) is Some {
        let ids = m.apps[app_id].canvas_ids;
        assert(ids.contains(ids[0]));
    }
}

/// Whether a canvas of the app is shown on the monitor.
pub open spec fn shows_app(m: ServerModel, app_id: u32, monitor_id: u32) -> bool {
    &&& m.apps.contains_key(app_id)
    &&& exists|i: int|
        0 <= i < m.apps[app_id].canvas_ids.len() && {
            let c = #[trigger] m.apps[app_id].canvas_ids[i];
            m.canvases.contains_key(c) && m.canvases[c].attached.contains(monitor_id)
        }
}

/// The monitors that are told when an app leaves: those that show one of its
/// canvases.
pub open spec fn audience(m: ServerModel, app_id: u32) -> Set<u32> {
    m.monitors.dom().filter(|k: u32| shows_app(m, app_id, k))
}

fn monitor_shows_app(state: &ServerState, app: &App, Ghost(app_id): Ghost<u32>, monitor_id: u32) -> (r:
    bool)
    requires
        state@.apps.contains_key(app_id),
        state@.apps[app_id] == app@,
    ensures
        r == shows_app(state@, app_id, monitor_id),
{
    let mut i: usize = 0;
    while i < app.canvas_ids.len()
        invariant
            i <= app.canvas_ids@.len(),
            state@.apps.contains_key(app_id),
            state@.apps[app_id] == app@,
            forall|j: int|
                0 <= j < i ==> {
                    let c = #[trigger] state@.apps[app_id].canvas_ids[j];
                    !(state@.canvases.contains_key(c) && state@.canvases[c].attached.contains(
                        monitor_id,
                    ))
                },
        decreases app.canvas_ids@.len() - i,
    {
        let canvas_id: u32 = app.canvas_ids[i];
        assert(state@.apps[app_id].canvas_ids[i as int] == canvas_id);
        if let Some(canvas) = state.canvases.get(&canvas_id) {
            assert(state@.canvases[canvas_id] == canvas@);
            if canvas.attached_monitor_ids.contains(&monitor_id) {
                return true;
            }
        }
        i = i + 1;
    }
    false
}

/// A message to a monitor.
#[derive(Debug)]
pub struct Notice {
    pub monitor_id: u32,
    pub message: ControlMessage,
}

/// The notices that tell monitors that an app has left.
pub open spec fn detach_notices(ids: Seq<u32>, app_id: u32, reason: AppDetachReason) -> Seq<
    Notice,
> {
    ids.map_values(
        |id: u32|
            Notice {
                monitor_id: id,
                message: ControlMessage::AppDetached { app_id, reason: reason.wire() },
            },
    )
}

/// Tells each monitor that shows a canvas of the app, once, that the app has left.
pub fn broadcast_app_detached(state: &ServerState, app_id: u32, reason: AppDetachReason) -> (r: Vec<
    Notice,
>)
    ensures
        r@ == detach_notices(tables::ascending_of(audience(state@, app_id)), app_id, reason),
        tables::lists(tables::ascending_of(audience(state@, app_id)), audience(state@, app_id)),
{
    let mut ids: Vec<u32> = Vec::new();
    let mut notices: Vec<Notice> = Vec::new();
    let monitors = sorted_keys(&state.monitors);
    match state.apps.get(&app_id) {
        None => {
            proof {
                assert(audience(state@, app_id) =~= Set::empty());
            }
        },
        Some(app) => {
            assert(state@.apps[app_id] == app@);
            let mut i: usize = 0;
            while i < monitors.len()
                invariant
                    i <= monitors@.len(),
                    tables::lists(monitors@, state@.monitors.dom()),
                    state@.apps.contains_key(app_id),
                    state@.apps[app_id] == app@,
                    tables::ascending(ids@),
                    ids@.len() > 0 ==> i > 0 && ids@.last() <= monitors@[i - 1],
                    forall|m: u32| #[trigger]
                        ids@.contains(m) <==> (monitors@.take(i as int).contains(m) && shows_app(
                            state@,
                            app_id,
                            m,
                        )),
                    notices@ == detach_notices(ids@, app_id, reason),
                decreases monitors@.len() - i,
            {
                let monitor_id: u32 = monitors[i];
                let ghost before = ids@;
                proof {
                    tables::take_grows(monitors@, i as int);
                }
                if monitor_shows_app(state, app, Ghost(app_id), monitor_id) {
                    ids.push(monitor_id);
                    notices.push(
                        Notice {
                            monitor_id,
                            message: ControlMessage::AppDetached { app_id, reason: reason.to_wire() },
                        },
                    );
                    assert(notices@ =~= detach_notices(ids@, app_id, reason));
                }
                proof {
                    assert forall|m: u32| #[trigger]
                        ids@.contains(m) <==> (monitors@.take(i + 1).contains(m) && shows_app(
                            state@,
                            app_id,
                            m,
                        )) by {
                        if before.contains(m) {
                            let j = choose|j: int| 0 <= j < before.len() && before[j] == m;
                            assert(ids@[j] == m);
                        }
                        if ids@.contains(m) && !before.contains(m) {
                            let j = choose|j: int| 0 <= j < ids@.len() && ids@[j] == m;
                            if j < before.len() {
                                assert(before[j] == m);
                            }
                        }
                        if m == monitor_id && shows_app(state@, app_id, m) {
                            assert(ids@[ids@.len() - 1] == m);
                        }
                        assert(before.contains(m) <==> (monitors@.take(i as int).contains(m)
                            && shows_app(state@, app_id, m)));
                    }
                }
                i = i + 1;
            }
            proof {
                assert(monitors@.take(i as int) =~= monitors@);
                assert forall|m: u32| ids@.contains(m) <==> #[trigger] audience(
                    state@,
                    app_id,
                ).contains(m) by {
                    assert(monitors@.contains(m) <==> state@.monitors.dom().contains(m));
                }
            }
        },
    }
    proof {
        tables::lists_determines(ids@, audience(state@, app_id));
    }
    assert(notices@ =~= detach_notices(ids@, app_id, reason));
    notices
}

/// What is done when a client has left.
#[derive(Debug)]
pub struct Departure {
    /// The monitors that are told to close.
    pub closed: Vec<u32>,
    /// The monitors that are told that an app has left.
    pub notices: Vec<Notice>,
    /// The app that left, with what the host holds for it.
    pub app: Option<App>,
}

/// The reason that monitors are given for an app's leaving.
pub open spec fn detach_reason(failed: bool) -> AppDetachReason {
    if failed {
        AppDetachReason::IoError
    } else {
        AppDetachReason::GracefulExit
    }
}

/// The state once a client has left.
pub open spec fn departed(m: ServerModel, client: Client) -> ServerModel {
    match client {
        Client::Unknown => m,
        Client::App(id) => m.without_app(id),
        Client::Monitor(id) => m.without_monitor(id),
    }
}

/// The state stays consistent when a client leaves.
pub proof fn departures_are_consistent(m: ServerModel, client: Client)
    requires
        m.wf(),
    ensures
        departed(m, client).wf(),
{
    match client {
        Client::Unknown => {},
        Client::App(id) => consistency::leaving_of_an_app_is_consistent(m, id),
        Client::Monitor(id) => consistency::leaving_of_a_monitor_is_consistent(m, id),
    }
}

/// Every monitor that loses a layer because an app leaves is told so.
pub proof fn monitors_that_lose_layers_are_told(m: ServerModel, app_id: u32, monitor_id: u32)
    requires
        m.wf(),
        m.apps.contains_key(app_id),
        m.scenes.contains_key(monitor_id),
        m.scenes[monitor_id].has_app(app_id),
    ensures
        audience(m, app_id).contains(monitor_id),
{
    let layers = m.scenes[monitor_id].layers;
    let i = choose|i: int| 0 <= i < layers.len() && (#[trigger] layers[i]).app_id == app_id;
    let c = layers[i].canvas_id;
    assert(m.owns(app_id, c));
    let ids = m.apps[app_id].canvas_ids;
    let k = choose|k: int| 0 <= k < ids.len() && ids[k] == c;
    assert(m.apps[app_id].canvas_ids[k] == c);
}

/// Removes a client that has left. An app takes its requests with it; the windows
/// that the server runs for it are closed, and the monitors that show its canvases
/// are told, before its canvases go. `failed` says whether its connection broke.
pub fn depart(state: &mut ServerState, pending: &mut PendingStarts, client: Client, failed: bool) -> (r:
    Departure)
    ensures
        final(state)@ == departed(old(state)@, client),
        match client {
            Client::App(id) => {
                &&& final(pending)@ == pending::without_requests_of(old(pending)@, id)
                &&& r.closed@ == tables::ascending_of(old(state)@.managed_monitors(id))
                &&& tables::lists(r.closed@, old(state)@.managed_monitors(id))
                &&& r.notices@ == detach_notices(
                    tables::ascending_of(audience(old(state)@, id)),
                    id,
                    detach_reason(failed),
                )
                &&& tables::lists(
                    tables::ascending_of(audience(old(state)@, id)),
                    audience(old(state)@, id),
                )
                &&& r.app is Some <==> old(state)@.apps.contains_key(id)
                &&& r.app matches Some(app) ==> app@ == old(state)@.apps[id]
            },
            _ => {
                &&& final(pending)@ == old(pending)@
                &&& r.closed@.len() == 0
                &&& r.notices@.len() == 0
                &&& r.app is None
            },
        },
        pending::all_wait(old(pending)@) ==> pending::all_wait(final(pending)@),
{
    match client {
        Client::Unknown => Departure { closed: Vec::new(), notices: Vec::new(), app: None },
        Client::App(id) => {
            pending.cancel_pending_monitor_starts_for_app(id);
            let closed = state.close_owned_desktop_monitors(id);
            let reason = if failed {
                AppDetachReason::IoError
            } else {
                AppDetachReason::GracefulExit
            };
            let notices = broadcast_app_detached(state, id, reason);
            let app = state.remove_app(id);
            Departure { closed, notices, app }
        },
        Client::Monitor(id) => {
            state.remove_monitor(id);
            Departure { closed: Vec::new(), notices: Vec::new(), app: None }
        },
    }
}

} // verus!
