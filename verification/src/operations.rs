//! The operations that hand surfaces over on the way: a monitor's registration,
//! an app's request for a monitor, and an app's joining of the open widgets.

use vstd::prelude::*;

use crate::handoff;
use crate::handoff::{
    Attach, AttachProgress, HostCall, HostReply, OutputHandoff, OutputProgress,
};
use crate::protocol::{MonitorKind, MonitorRequestStatus};
use crate::server::{Monitor, MonitorRegistration, ServerError, ServerModel, ServerState};
use crate::tables;

verus! {

/// The hand-over that an operation waits for.
#[derive(Debug, Clone, Copy, PartialEq, Eq, Structural)]
pub enum Part {
    Attach(Attach),
    Output(OutputHandoff),
}

/// A registration that waits for the host.
#[derive(Debug, Clone, Copy, PartialEq, Eq, Structural)]
pub struct Registering {
    pub monitor_id: u32,
    pub canvas_id: u32,
    pub part: Part,
}

/// A registration waits for the host, or has ended; then the monitor stays or is
/// to be closed.
#[derive(Debug, Clone, Copy, PartialEq, Eq, Structural)]
pub enum RegisterProgress {
    Call(Registering, HostCall),
    Done { monitor_id: u32, should_close: bool },
}

/// A registration after the canvas was handed over, or was not.
pub open spec fn register_on_attach(
    m: ServerModel,
    monitor_id: u32,
    canvas_id: u32,
    p: AttachProgress,
) -> (ServerModel, RegisterProgress) {
    match p {
        AttachProgress::Call(a, call) => (
            m,
            RegisterProgress::Call(
                Registering { monitor_id, canvas_id, part: Part::Attach(a) },
                call,
            ),
        ),
        AttachProgress::Done(Err(_)) => (
            m,
            RegisterProgress::Done { monitor_id, should_close: true },
        ),
        AttachProgress::Done(Ok(_)) => if m.show_error(canvas_id, monitor_id) is Some {
            (m, RegisterProgress::Done { monitor_id, should_close: true })
        } else {
            let shown = m.show(canvas_id, monitor_id);
            (
                shown,
                register_on_output(
                    monitor_id,
                    canvas_id,
                    handoff::output_begin(shown, monitor_id),
                ),
            )
        },
    }
}

/// A registration after the scene's output was handed over, or was not.
pub open spec fn register_on_output(
    monitor_id: u32,
    canvas_id: u32,
    p: OutputProgress,
) -> RegisterProgress {
    match p {
        OutputProgress::Call(o, call) => RegisterProgress::Call(
            Registering { monitor_id, canvas_id, part: Part::Output(o) },
            call,
        ),
        OutputProgress::Done(r) => RegisterProgress::Done { monitor_id, should_close: r is Err },
    }
}

/// How a registration begins. A monitor without an owner stays. One with an owner
/// must be closed where the app is not there, or the canvas that it was opened
/// for is not the app's, or it was opened by the server for no canvas.
pub open spec fn register_begin(m: ServerModel, r: MonitorRegistration) -> (
    ServerModel,
    RegisterProgress,
) {
    let monitor_id = m.next_monitor_id;
    let entered = m.with_monitor(r);
    match r.owner_app_id {
        None => (entered, RegisterProgress::Done { monitor_id, should_close: false }),
        Some(app_id) => if !entered.apps.contains_key(app_id) {
            (entered, RegisterProgress::Done { monitor_id, should_close: true })
        } else {
            match r.target_canvas_id {
                None => (
                    entered,
                    RegisterProgress::Done { monitor_id, should_close: r.managed() },
                ),
                Some(canvas_id) => if !entered.owns(app_id, canvas_id) {
                    (entered, RegisterProgress::Done { monitor_id, should_close: true })
                } else {
                    register_on_attach(
                        entered,
                        monitor_id,
                        canvas_id,
                        handoff::attach_begin(entered, canvas_id, monitor_id),
                    )
                },
            }
        },
    }
}

/// How a registration goes on after the host's reply.
pub open spec fn register_step(m: ServerModel, r: Registering, reply: HostReply) -> (
    ServerModel,
    RegisterProgress,
) {
    match r.part {
        Part::Attach(a) => {
            let (after, p) = handoff::attach_step(m, a, reply);
            register_on_attach(after, r.monitor_id, r.canvas_id, p)
        },
        Part::Output(o) => {
            let (after, p) = handoff::output_step(m, o, reply);
            (after, register_on_output(r.monitor_id, r.canvas_id, p))
        },
    }
}

/// An app's request for a monitor that waits for the host.
#[derive(Debug, Clone, Copy, PartialEq, Eq, Structural)]
pub struct Attaching {
    pub canvas_id: u32,
    pub monitor_id: u32,
    pub part: Part,
}

/// An app's request for a monitor waits for the host, or has ended.
#[derive(Debug, Clone, Copy, PartialEq, Eq)]
pub enum AttachingProgress {
    Call(Attaching, HostCall),
    Done(Result<(), ServerError>),
}

/// A request after the scene's output was handed over, or was not.
pub open spec fn attaching_on_output(
    canvas_id: u32,
    monitor_id: u32,
    p: OutputProgress,
) -> AttachingProgress {
    match p {
        OutputProgress::Call(o, call) => AttachingProgress::Call(
            Attaching { canvas_id, monitor_id, part: Part::Output(o) },
            call,
        ),
        OutputProgress::Done(Ok(_)) => AttachingProgress::Done(Ok(())),
        OutputProgress::Done(Err(e)) => AttachingProgress::Done(Err(e)),
    }
}

/// A request after the canvas was handed over, or was not.
pub open spec fn attaching_on_attach(
    m: ServerModel,
    canvas_id: u32,
    monitor_id: u32,
    p: AttachProgress,
) -> AttachingProgress {
    match p {
        AttachProgress::Call(a, call) => AttachingProgress::Call(
            Attaching { canvas_id, monitor_id, part: Part::Attach(a) },
            call,
        ),
        AttachProgress::Done(Err(e)) => AttachingProgress::Done(Err(e)),
        AttachProgress::Done(Ok(_)) => attaching_on_output(
            canvas_id,
            monitor_id,
            handoff::output_begin(m, monitor_id),
        ),
    }
}

/// Why an app may not have its canvas on a monitor of its own, if it may not.
pub open spec fn attaching_error(
    m: ServerModel,
    app_id: u32,
    canvas_id: u32,
    monitor_id: u32,
) -> Option<ServerError> {
    if !m.owns(app_id, canvas_id) {
        Some(ServerError::CanvasNotOwned { app_id })
    } else if !m.monitors.contains_key(monitor_id) {
        Some(ServerError::MonitorNotFound)
    } else {
        let monitor = m.monitors[monitor_id];
        if monitor.owner_app_id != Some(app_id) {
            Some(ServerError::MonitorNotOwned { app_id, monitor_id })
        } else if monitor.target_canvas_id is Some && monitor.target_canvas_id->0 != canvas_id {
            Some(
                ServerError::OtherTarget {
                    monitor_id,
                    target_canvas_id: monitor.target_canvas_id->0,
                    canvas_id,
                },
            )
        } else {
            m.layer_error(app_id, canvas_id, monitor_id)
        }
    }
}

/// How an app's request for a monitor begins.
pub open spec fn attaching_begin(
    m: ServerModel,
    app_id: u32,
    canvas_id: u32,
    monitor_id: u32,
) -> (ServerModel, AttachingProgress) {
    match attaching_error(m, app_id, canvas_id, monitor_id) {
        Some(e) => (m, AttachingProgress::Done(Err(e))),
        None => {
            let shown = m.show(m.resolve(app_id, canvas_id)->0, monitor_id);
            (
                shown,
                attaching_on_attach(
                    shown,
                    canvas_id,
                    monitor_id,
                    handoff::attach_begin(shown, canvas_id, monitor_id),
                ),
            )
        },
    }
}

/// How an app's request for a monitor goes on after the host's reply.
pub open spec fn attaching_step(m: ServerModel, a: Attaching, reply: HostReply) -> (
    ServerModel,
    AttachingProgress,
) {
    match a.part {
        Part::Attach(part) => {
            let (after, p) = handoff::attach_step(m, part, reply);
            (after, attaching_on_attach(after, a.canvas_id, a.monitor_id, p))
        },
        Part::Output(part) => {
            let (after, p) = handoff::output_step(m, part, reply);
            (after, attaching_on_output(a.canvas_id, a.monitor_id, p))
        },
    }
}

impl ServerState {
    /// Begins to register a monitor.
    pub fn register_monitor(&mut self, r: MonitorRegistration) -> (p: RegisterProgress)
        requires
            old(self).next_monitor_id < u32::MAX,
        ensures
            final(self)@ == register_begin(old(self)@, r).0,
            p == register_begin(old(self)@, r).1,
    {
        let monitor_id: u32 = self.enter_monitor(r);
        match r.owner_app_id {
            None => RegisterProgress::Done { monitor_id, should_close: false },
            Some(app_id) => {
                if !self.apps.contains_key(&app_id) {
                    return RegisterProgress::Done { monitor_id, should_close: true };
                }
                match r.target_canvas_id {
                    None => {
                        let managed: bool = r.kind == MonitorKind::DesktopWindow
                            && !r.manual_lifecycle;
                        RegisterProgress::Done { monitor_id, should_close: managed }
                    },
                    Some(canvas_id) => {
                        if !self.app_owns_canvas(app_id, canvas_id) {
                            return RegisterProgress::Done { monitor_id, should_close: true };
                        }
                        let p: AttachProgress = self.attach_monitor(canvas_id, monitor_id);
                        self.register_after_attach(monitor_id, canvas_id, p)
                    },
                }
            },
        }
    }

    fn register_after_attach(
        &mut self,
        monitor_id: u32,
        canvas_id: u32,
        p: AttachProgress,
    ) -> (r: RegisterProgress)
        ensures
            final(self)@ == register_on_attach(old(self)@, monitor_id, canvas_id, p).0,
            r == register_on_attach(old(self)@, monitor_id, canvas_id, p).1,
    {
        match p {
            AttachProgress::Call(a, call) => RegisterProgress::Call(
                Registering { monitor_id, canvas_id, part: Part::Attach(a) },
                call,
            ),
            AttachProgress::Done(Err(_)) => RegisterProgress::Done {
                monitor_id,
                should_close: true,
            },
            AttachProgress::Done(Ok(_)) => {
                match self.attach_canvas_to_monitor_scene(canvas_id, monitor_id) {
                    Err(_) => RegisterProgress::Done { monitor_id, should_close: true },
                    Ok(_) => {
                        let o: OutputProgress = self.ensure_monitor_scene_output_and_notify(
                            monitor_id,
                        );
                        register_after_output(monitor_id, canvas_id, o)
                    },
                }
            },
        }
    }

    /// Goes on registering a monitor, with the host's reply to the last call.
    pub fn continue_register(&mut self, r: Registering, reply: HostReply) -> (p: RegisterProgress)
        ensures
            final(self)@ == register_step(old(self)@, r, reply).0,
            p == register_step(old(self)@, r, reply).1,
    {
        match r.part {
            Part::Attach(a) => {
                let p: AttachProgress = self.continue_attach(a, reply);
                self.register_after_attach(r.monitor_id, r.canvas_id, p)
            },
            Part::Output(o) => {
                let p: OutputProgress = self.continue_output(o, reply);
                register_after_output(r.monitor_id, r.canvas_id, p)
            },
        }
    }

    /// Begins to put an app's canvas on a monitor of its own.
    pub fn attach_monitor_for_app(
        &mut self,
        app_id: u32,
        canvas_id: u32,
        monitor_id: u32,
    ) -> (p: AttachingProgress)
        ensures
            final(self)@ == attaching_begin(old(self)@, app_id, canvas_id, monitor_id).0,
            p == attaching_begin(old(self)@, app_id, canvas_id, monitor_id).1,
    {
        if !self.app_owns_canvas(app_id, canvas_id) {
            return AttachingProgress::Done(Err(ServerError::CanvasNotOwned { app_id }));
        }
        let monitor: Monitor = match self.monitors.get(&monitor_id) {
            Some(monitor) => *monitor,
            None => {
                return AttachingProgress::Done(Err(ServerError::MonitorNotFound));
            },
        };
        if monitor.owner_app_id != Some(app_id) {
            return AttachingProgress::Done(
                Err(ServerError::MonitorNotOwned { app_id, monitor_id }),
            );
        }
        if let Some(target_canvas_id) = monitor.target_canvas_id {
            if target_canvas_id != canvas_id {
                return AttachingProgress::Done(
                    Err(ServerError::OtherTarget { monitor_id, target_canvas_id, canvas_id }),
                );
            }
        }
        match self.add_canvas_layer_to_monitor_scene_for_app(app_id, canvas_id, monitor_id) {
            Err(e) => AttachingProgress::Done(Err(e)),
            Ok(_) => {
                let p: AttachProgress = self.attach_monitor(canvas_id, monitor_id);
                self.attaching_after_attach(canvas_id, monitor_id, p)
            },
        }
    }

    fn attaching_after_attach(&self, canvas_id: u32, monitor_id: u32, p: AttachProgress) -> (r:
        AttachingProgress)
        ensures
            r == attaching_on_attach(self@, canvas_id, monitor_id, p),
    {
        match p {
            AttachProgress::Call(a, call) => AttachingProgress::Call(
                Attaching { canvas_id, monitor_id, part: Part::Attach(a) },
                call,
            ),
            AttachProgress::Done(Err(e)) => AttachingProgress::Done(Err(e)),
            AttachProgress::Done(Ok(_)) => attaching_after_output(
                canvas_id,
                monitor_id,
                self.ensure_monitor_scene_output_and_notify(monitor_id),
            ),
        }
    }

    /// Goes on putting an app's canvas on a monitor, with the host's reply to the
    /// last call.
    pub fn continue_attaching(&mut self, a: Attaching, reply: HostReply) -> (p: AttachingProgress)
        ensures
            final(self)@ == attaching_step(old(self)@, a, reply).0,
            p == attaching_step(old(self)@, a, reply).1,
    {
        match a.part {
            Part::Attach(part) => {
                let p: AttachProgress = self.continue_attach(part, reply);
                self.attaching_after_attach(a.canvas_id, a.monitor_id, p)
            },
            Part::Output(part) => {
                let p: OutputProgress = self.continue_output(part, reply);
                attaching_after_output(a.canvas_id, a.monitor_id, p)
            },
        }
    }
}

fn register_after_output(monitor_id: u32, canvas_id: u32, p: OutputProgress) -> (r:
    RegisterProgress)
    ensures
        r == register_on_output(monitor_id, canvas_id, p),
{
    match p {
        OutputProgress::Call(o, call) => RegisterProgress::Call(
            Registering { monitor_id, canvas_id, part: Part::Output(o) },
            call,
        ),
        OutputProgress::Done(r) => RegisterProgress::Done { monitor_id, should_close: r.is_err() },
    }
}

fn attaching_after_output(canvas_id: u32, monitor_id: u32, p: OutputProgress) -> (r:
    AttachingProgress)
    ensures
        r == attaching_on_output(canvas_id, monitor_id, p),
{
    match p {
        OutputProgress::Call(o, call) => AttachingProgress::Call(
            Attaching { canvas_id, monitor_id, part: Part::Output(o) },
            call,
        ),
        OutputProgress::Done(Ok(_)) => AttachingProgress::Done(Ok(())),
        OutputProgress::Done(Err(e)) => AttachingProgress::Done(Err(e)),
    }
}

/// An app's joining of the open widgets that waits for the host.
#[derive(Debug)]
pub struct Joining {
    pub app_id: u32,
    pub canvas_id: u32,
    /// The widget that is being joined.
    pub monitor_id: u32,
    /// The widgets that are still to be joined.
    pub rest: Vec<u32>,
    /// The widgets that show the canvas.
    pub attached: Vec<u32>,
    pub part: Part,
}

/// A joining as a mathematical value.
pub struct JoiningView {
    pub app_id: u32,
    pub canvas_id: u32,
    pub monitor_id: u32,
    pub rest: Seq<u32>,
    pub attached: Seq<u32>,
    pub part: Part,
}

impl View for Joining {
    type V = JoiningView;

    open spec fn view(&self) -> JoiningView {
        JoiningView {
            app_id: self.app_id,
            canvas_id: self.canvas_id,
            monitor_id: self.monitor_id,
            rest: self.rest@,
            attached: self.attached@,
            part: self.part,
        }
    }
}

/// A joining waits for the host, or has ended with an answer and the widgets that
/// show the canvas.
#[derive(Debug)]
pub enum JoinProgress {
    Call(Joining, HostCall),
    Done(MonitorRequestStatus, Vec<u32>),
}

/// The progress of a joining as a mathematical value.
pub enum JoinProgressView {
    Call(JoiningView, HostCall),
    Done(MonitorRequestStatus, Seq<u32>),
}

impl View for JoinProgress {
    type V = JoinProgressView;

    open spec fn view(&self) -> JoinProgressView {
        match *self {
            JoinProgress::Call(j, call) => JoinProgressView::Call(j@, call),
            JoinProgress::Done(status, ids) => JoinProgressView::Done(status, ids@),
        }
    }
}

impl ServerModel {
    /// Whether a monitor is a widget that the user opened for all apps.
    pub open spec fn is_open_widget(self, monitor_id: u32) -> bool {
        &&& self.monitors.contains_key(monitor_id)
        &&& self.monitors[monitor_id].kind == MonitorKind::GameBar
        &&& self.monitors[monitor_id].owner_app_id is None
        &&& self.monitors[monitor_id].manual_lifecycle
    }

    /// The widgets that the user opened.
    pub open spec fn open_widgets(self) -> Set<u32> {
        self.monitors.dom().filter(|m: u32| self.is_open_widget(m))
    }
}

/// A joining with the widgets in `rest` to come. Each widget is shown the canvas
/// where the app may show it there; one that shows no canvas yet is handed the
/// canvas's surface, and counts as joined only where that succeeds. Its output is
/// made sure of either way.
pub open spec fn join_next(
    m: ServerModel,
    app_id: u32,
    canvas_id: u32,
    rest: Seq<u32>,
    attached: Seq<u32>,
) -> (ServerModel, JoinProgressView)
    decreases rest.len(), 0int,
{
    if rest.len() == 0 {
        (
            m,
            if attached.len() == 0 {
                JoinProgressView::Done(MonitorRequestStatus::SpawnFailed, seq![])
            } else {
                JoinProgressView::Done(MonitorRequestStatus::Success, attached)
            },
        )
    } else {
        let w = rest[0];
        let tail = rest.skip(1);
        if m.layer_error(app_id, canvas_id, w) is Some {
            join_next(m, app_id, canvas_id, tail, attached)
        } else {
            let shown = m.show(m.resolve(app_id, canvas_id)->0, w);
            if m.attached_anywhere(w) {
                join_output(shown, app_id, canvas_id, w, tail, attached.push(w))
            } else {
                join_on_attach(
                    shown,
                    app_id,
                    canvas_id,
                    w,
                    tail,
                    attached,
                    handoff::attach_begin(shown, canvas_id, w),
                )
            }
        }
    }
}

/// A joining after the canvas was handed over to the widget, or was not.
pub open spec fn join_on_attach(
    m: ServerModel,
    app_id: u32,
    canvas_id: u32,
    w: u32,
    rest: Seq<u32>,
    attached: Seq<u32>,
    p: AttachProgress,
) -> (ServerModel, JoinProgressView)
    decreases rest.len(), 3int,
{
    match p {
        AttachProgress::Call(a, call) => (
            m,
            JoinProgressView::Call(
                JoiningView {
                    app_id,
                    canvas_id,
                    monitor_id: w,
                    rest,
                    attached,
                    part: Part::Attach(a),
                },
                call,
            ),
        ),
        AttachProgress::Done(Ok(_)) => join_output(
            m,
            app_id,
            canvas_id,
            w,
            rest,
            attached.push(w),
        ),
        AttachProgress::Done(Err(_)) => join_output(m, app_id, canvas_id, w, rest, attached),
    }
}

/// A joining that goes on to the widget's output.
pub open spec fn join_output(
    m: ServerModel,
    app_id: u32,
    canvas_id: u32,
    w: u32,
    rest: Seq<u32>,
    attached: Seq<u32>,
) -> (ServerModel, JoinProgressView)
    decreases rest.len(), 2int,
{
    join_on_output(m, app_id, canvas_id, w, rest, attached, handoff::output_begin(m, w))
}

/// A joining after the output was handed over to the widget, or was not.
pub open spec fn join_on_output(
    m: ServerModel,
    app_id: u32,
    canvas_id: u32,
    w: u32,
    rest: Seq<u32>,
    attached: Seq<u32>,
    p: OutputProgress,
) -> (ServerModel, JoinProgressView)
    decreases rest.len(), 1int,
{
    match p {
        OutputProgress::Call(o, call) => (
            m,
            JoinProgressView::Call(
                JoiningView {
                    app_id,
                    canvas_id,
                    monitor_id: w,
                    rest,
                    attached,
                    part: Part::Output(o),
                },
                call,
            ),
        ),
        OutputProgress::Done(_) => join_next(m, app_id, canvas_id, rest, attached),
    }
}

/// How an app's joining of up to `count` open widgets begins: with the lowest
/// identifiers first.
pub open spec fn join_begin(m: ServerModel, app_id: u32, requested: u32, count: u32) -> (
    ServerModel,
    JoinProgressView,
) {
    match m.resolve(app_id, requested) {
        None => (m, JoinProgressView::Done(MonitorRequestStatus::InvalidCanvas, seq![])),
        Some(canvas_id) => {
            let widgets = tables::ascending_of(m.open_widgets());
            let chosen = widgets.take(vstd::math::min(widgets.len() as int, count as int));
            if chosen.len() == 0 {
                (m, JoinProgressView::Done(MonitorRequestStatus::ManualOpenRequired, seq![]))
            } else {
                join_next(m, app_id, canvas_id, chosen, seq![])
            }
        },
    }
}

/// How a joining goes on after the host's reply.
pub open spec fn join_step(m: ServerModel, j: JoiningView, reply: HostReply) -> (
    ServerModel,
    JoinProgressView,
) {
    match j.part {
        Part::Attach(a) => {
            let (after, p) = handoff::attach_step(m, a, reply);
            join_on_attach(after, j.app_id, j.canvas_id, j.monitor_id, j.rest, j.attached, p)
        },
        Part::Output(o) => {
            let (after, p) = handoff::output_step(m, o, reply);
            join_on_output(after, j.app_id, j.canvas_id, j.monitor_id, j.rest, j.attached, p)
        },
    }
}

impl ServerState {
    /// The widgets that the user opened, in ascending order.
    fn open_widget_ids(&self) -> (ids: Vec<u32>)
        ensures
            ids@ == tables::ascending_of(self@.open_widgets()),
            tables::lists(ids@, self@.open_widgets()),
    {
        let all: Vec<u32> = tables::sorted_keys(&self.monitors);
        let mut ids: Vec<u32> = Vec::new();
        let mut i: usize = 0;
        while i < all.len()
            invariant
                i <= all@.len(),
                tables::lists(all@, self.monitors@.dom()),
                tables::ascending(ids@),
                ids@.len() > 0 ==> i > 0 && ids@.last() <= all@[i - 1],
                forall|m: u32| #[trigger]
                    ids@.contains(m) <==> (all@.take(i as int).contains(m) && self@.is_open_widget(
                        m,
                    )),
            decreases all@.len() - i,
        {
            let id: u32 = all[i];
            assert(all@.contains(id));
            assert(self.monitors@.dom().contains(id));
            let ghost before = ids@;
            proof {
                tables::take_grows(all@, i as int);
            }
            if let Some(monitor) = self.monitors.get(&id) {
                if monitor.kind == MonitorKind::GameBar && monitor.owner_app_id.is_none()
                    && monitor.manual_lifecycle {
                    ids.push(id);
                }
            }
            assert forall|m: u32| #[trigger] ids@.contains(m) <==> (all@.take(i + 1).contains(m)
                && self@.is_open_widget(m)) by {
                if before.contains(m) {
                    let k = choose|k: int| 0 <= k < before.len() && before[k] == m;
                    assert(ids@[k] == m);
                }
                if m == id && self@.is_open_widget(m) {
                    assert(ids@[before.len() as int] == m);
                }
            }
            i = i + 1;
        }
        proof {
            assert(all@.take(i as int) =~= all@);
            assert forall|m: u32| ids@.contains(m) <==> #[trigger] self@.open_widgets().contains(
                m,
            ) by {
                assert(all@.contains(m) <==> self.monitors@.dom().contains(m));
            }
            tables::lists_determines(ids@, self@.open_widgets());
        }
        ids
    }

    /// Begins to show an app's canvas on up to `count` of the widgets that the
    /// user opened.
    pub fn attach_game_bar_monitor_for_app(
        &mut self,
        app_id: u32,
        requested_canvas_id: u32,
        count: u32,
    ) -> (p: JoinProgress)
        ensures
            final(self)@ == join_begin(old(self)@, app_id, requested_canvas_id, count).0,
            p@ == join_begin(old(self)@, app_id, requested_canvas_id, count).1,
            tables::lists(
                tables::ascending_of(old(self)@.open_widgets()),
                old(self)@.open_widgets(),
            ),
    {
        proof {
            tables::ascending_of_lists(self@.open_widgets());
        }
        let canvas_id: u32 = match self.resolve_app_canvas_id(app_id, requested_canvas_id) {
            Some(canvas_id) => canvas_id,
            None => {
                return JoinProgress::Done(MonitorRequestStatus::InvalidCanvas, Vec::new());
            },
        };
        let mut candidates: Vec<u32> = self.open_widget_ids();
        let ghost widgets = candidates@;
        candidates.truncate(count as usize);
        assert(candidates@ =~= widgets.take(
            vstd::math::min(widgets.len() as int, count as int),
        ));
        if candidates.len() == 0 {
            return JoinProgress::Done(MonitorRequestStatus::ManualOpenRequired, Vec::new());
        }
        self.join_rest(app_id, canvas_id, candidates, Vec::new())
    }

    fn join_rest(
        &mut self,
        app_id: u32,
        canvas_id: u32,
        rest: Vec<u32>,
        attached: Vec<u32>,
    ) -> (p: JoinProgress)
        ensures
            final(self)@ == join_next(old(self)@, app_id, canvas_id, rest@, attached@).0,
            p@ == join_next(old(self)@, app_id, canvas_id, rest@, attached@).1,
        decreases rest@.len(), 0int,
    {
        if rest.len() == 0 {
            return if attached.len() == 0 {
                JoinProgress::Done(MonitorRequestStatus::SpawnFailed, Vec::new())
            } else {
                JoinProgress::Done(MonitorRequestStatus::Success, attached)
            };
        }
        let mut rest = rest;
        let mut attached = attached;
        let ghost all = rest@;
        let w: u32 = rest.remove(0);
        assert(rest@ =~= all.skip(1));
        proof {
            reveal_with_fuel(join_next, 2);
            reveal_with_fuel(join_output, 2);
            reveal_with_fuel(join_on_attach, 2);
        }
        let handed_over: bool = self.monitor_attached_to_any_canvas(w);
        match self.add_canvas_layer_to_monitor_scene_for_app(app_id, canvas_id, w) {
            Err(_) => self.join_rest(app_id, canvas_id, rest, attached),
            Ok(_) => {
                if handed_over {
                    attached.push(w);
                    let p: OutputProgress = self.ensure_monitor_scene_output_and_notify(w);
                    self.join_after_output(app_id, canvas_id, w, rest, attached, p)
                } else {
                    let p: AttachProgress = self.attach_monitor(canvas_id, w);
                    self.join_after_attach(app_id, canvas_id, w, rest, attached, p)
                }
            },
        }
    }

    fn join_after_attach(
        &mut self,
        app_id: u32,
        canvas_id: u32,
        w: u32,
        rest: Vec<u32>,
        attached: Vec<u32>,
        p: AttachProgress,
    ) -> (r: JoinProgress)
        ensures
            final(self)@ == join_on_attach(
                old(self)@,
                app_id,
                canvas_id,
                w,
                rest@,
                attached@,
                p,
            ).0,
            r@ == join_on_attach(old(self)@, app_id, canvas_id, w, rest@, attached@, p).1,
        decreases rest@.len(), 3int,
    {
        let mut attached = attached;
        match p {
            AttachProgress::Call(a, call) => JoinProgress::Call(
                Joining {
                    app_id,
                    canvas_id,
                    monitor_id: w,
                    rest,
                    attached,
                    part: Part::Attach(a),
                },
                call,
            ),
            AttachProgress::Done(r) => {
                if r.is_ok() {
                    attached.push(w);
                }
                let o: OutputProgress = self.ensure_monitor_scene_output_and_notify(w);
                self.join_after_output(app_id, canvas_id, w, rest, attached, o)
            },
        }
    }

    fn join_after_output(
        &mut self,
        app_id: u32,
        canvas_id: u32,
        w: u32,
        rest: Vec<u32>,
        attached: Vec<u32>,
        p: OutputProgress,
    ) -> (r: JoinProgress)
        ensures
            final(self)@ == join_on_output(
                old(self)@,
                app_id,
                canvas_id,
                w,
                rest@,
                attached@,
                p,
            ).0,
            r@ == join_on_output(old(self)@, app_id, canvas_id, w, rest@, attached@, p).1,
        decreases rest@.len(), 1int,
    {
        match p {
            OutputProgress::Call(o, call) => JoinProgress::Call(
                Joining {
                    app_id,
                    canvas_id,
                    monitor_id: w,
                    rest,
                    attached,
                    part: Part::Output(o),
                },
                call,
            ),
            OutputProgress::Done(_) => self.join_rest(app_id, canvas_id, rest, attached),
        }
    }

    /// Goes on joining widgets, with the host's reply to the last call.
    pub fn continue_join(&mut self, j: Joining, reply: HostReply) -> (p: JoinProgress)
        ensures
            final(self)@ == join_step(old(self)@, j@, reply).0,
            p@ == join_step(old(self)@, j@, reply).1,
    {
        match j.part {
            Part::Attach(a) => {
                let p: AttachProgress = self.continue_attach(a, reply);
                self.join_after_attach(j.app_id, j.canvas_id, j.monitor_id, j.rest, j.attached, p)
            },
            Part::Output(o) => {
                let p: OutputProgress = self.continue_output(o, reply);
                self.join_after_output(j.app_id, j.canvas_id, j.monitor_id, j.rest, j.attached, p)
            },
        }
    }
}

} // verus!
