//! Handing surfaces over to monitors.
//!
//! The server decides, the host acts: it opens processes, duplicates handles,
//! creates surfaces and sends messages. A hand-over stops at each of these with
//! a call to the host and goes on with the host's reply.

use vstd::prelude::*;

use crate::protocol::ControlMessage;
use crate::server::{
    Canvas, CanvasView, Monitor, MonitorSurface, SceneOutput, ServerError, ServerModel, ServerState,
};

verus! {

/// A message to a monitor about the surfaces that it is to show.
#[derive(Debug, Clone, Copy, PartialEq, Eq, Structural)]
pub enum MonitorMessage {
    /// The surface of a canvas that all its monitors share.
    CanvasAttached {
        canvas_id: u32,
        surface_handle: u64,
        logical_w: u32,
        logical_h: u32,
        render_w: u32,
        render_h: u32,
    },
    /// The monitor's own surface on a canvas.
    MonitorLocalSurfaceAttached {
        canvas_id: u32,
        monitor_id: u32,
        surface_handle: u64,
        logical_w: u32,
        logical_h: u32,
    },
    /// The surface that the monitor's scene is composed on.
    MonitorCompositeAttached {
        monitor_id: u32,
        scene_id: u32,
        surface_handle: u64,
        logical_w: u32,
        logical_h: u32,
        render_w: u32,
        render_h: u32,
    },
}

impl MonitorMessage {
    /// The message of the control protocol, where the protocol has one.
    pub fn to_control(self) -> (r: Option<ControlMessage>)
        ensures
            r == match self {
                MonitorMessage::CanvasAttached {
                    canvas_id,
                    surface_handle,
                    logical_w,
                    logical_h,
                    render_w,
                    render_h,
                } => Some(
                    ControlMessage::CanvasAttached {
                        canvas_id,
                        surface_handle,
                        logical_w,
                        logical_h,
                        render_w,
                        render_h,
                    },
                ),
                MonitorMessage::MonitorLocalSurfaceAttached {
                    canvas_id,
                    monitor_id,
                    surface_handle,
                    logical_w,
                    logical_h,
                } => Some(
                    ControlMessage::MonitorLocalSurfaceAttached {
                        canvas_id,
                        monitor_id,
                        surface_handle,
                        logical_w,
                        logical_h,
                    },
                ),
                MonitorMessage::MonitorCompositeAttached { .. } => None,
            },
    {
        match self {
            MonitorMessage::CanvasAttached {
                canvas_id,
                surface_handle,
                logical_w,
                logical_h,
                render_w,
                render_h,
            } => Some(
                ControlMessage::CanvasAttached {
                    canvas_id,
                    surface_handle,
                    logical_w,
                    logical_h,
                    render_w,
                    render_h,
                },
            ),
            MonitorMessage::MonitorLocalSurfaceAttached {
                canvas_id,
                monitor_id,
                surface_handle,
                logical_w,
                logical_h,
            } => Some(
                ControlMessage::MonitorLocalSurfaceAttached {
                    canvas_id,
                    monitor_id,
                    surface_handle,
                    logical_w,
                    logical_h,
                },
            ),
            MonitorMessage::MonitorCompositeAttached { .. } => None,
        }
    }
}

/// What the host is to do next.
#[derive(Debug, Clone, Copy, PartialEq, Eq, Structural)]
pub enum HostCall {
    /// Open a process, to duplicate handles into it.
    OpenProcess { pid: u32 },
    /// Duplicate a handle into the process that was opened.
    Duplicate { handle: u64 },
    /// Put a message on a monitor's connection.
    Send { monitor_id: u32, message: MonitorMessage },
    /// Create a surface of one monitor on a canvas.
    CreateSurface { canvas_id: u32, monitor_id: u32, logical_w: u32, logical_h: u32 },
    /// Create the surface that a monitor's scene is composed on.
    CreateOutput { monitor_id: u32, logical_w: u32, logical_h: u32 },
}

/// What became of a call to the host. A reply that does not fit the call counts
/// as a failure.
#[derive(Debug, Clone, Copy, PartialEq, Eq, Structural)]
pub enum HostReply {
    Failed,
    /// The process was opened, or the message was sent.
    Done,
    /// The handle was duplicated.
    Duplicated(u64),
    Surface(MonitorSurface),
    Output(SceneOutput),
}

/// Where the hand-over of a canvas to a monitor stands.
#[derive(Debug, Clone, Copy, PartialEq, Eq, Structural)]
pub enum AttachStage {
    OpenProcess,
    DuplicateWorld,
    SendWorld,
    CreateSurface,
    DuplicateLocal,
    SendLocal,
}

/// A hand-over of a canvas to a monitor.
#[derive(Debug, Clone, Copy, PartialEq, Eq, Structural)]
pub struct Attach {
    pub canvas_id: u32,
    pub monitor_id: u32,
    pub stage: AttachStage,
}

/// A hand-over waits for the host, or has ended.
#[derive(Debug, Clone, Copy, PartialEq, Eq)]
pub enum AttachProgress {
    Call(Attach, HostCall),
    Done(Result<(), ServerError>),
}

/// How the hand-over of a canvas to a monitor begins.
pub open spec fn attach_begin(m: ServerModel, canvas_id: u32, monitor_id: u32) -> AttachProgress {
    if !m.canvases.contains_key(canvas_id) {
        AttachProgress::Done(Err(ServerError::CanvasNotFound))
    } else if !m.monitors.contains_key(monitor_id) {
        AttachProgress::Done(Err(ServerError::MonitorNotFound))
    } else {
        AttachProgress::Call(
            Attach { canvas_id, monitor_id, stage: AttachStage::OpenProcess },
            HostCall::OpenProcess { pid: m.monitors[monitor_id].pid },
        )
    }
}

/// The message that hands over the canvas's shared surface.
pub open spec fn world_message(canvas: CanvasView, canvas_id: u32, handle: u64) -> MonitorMessage {
    MonitorMessage::CanvasAttached {
        canvas_id,
        surface_handle: handle,
        logical_w: canvas.logical_w,
        logical_h: canvas.logical_h,
        render_w: canvas.render_w,
        render_h: canvas.render_h,
    }
}

/// The message that hands over the monitor's own surface.
pub open spec fn local_message(
    surface: MonitorSurface,
    canvas_id: u32,
    monitor_id: u32,
    handle: u64,
) -> MonitorMessage {
    MonitorMessage::MonitorLocalSurfaceAttached {
        canvas_id,
        monitor_id,
        surface_handle: handle,
        logical_w: surface.logical_w,
        logical_h: surface.logical_h,
    }
}

/// How a hand-over goes on after the host's reply. The shared surface comes
/// first; once it is handed over the hand-over succeeds, whatever becomes of the
/// monitor's own surface.
pub open spec fn attach_step(m: ServerModel, a: Attach, reply: HostReply) -> (
    ServerModel,
    AttachProgress,
) {
    let c = a.canvas_id;
    let w = a.monitor_id;
    if !m.canvases.contains_key(c) {
        (m, AttachProgress::Done(Err(ServerError::CanvasNotFound)))
    } else {
        let canvas = m.canvases[c];
        match a.stage {
            AttachStage::OpenProcess => if reply == HostReply::Done {
                (
                    m,
                    AttachProgress::Call(
                        Attach { stage: AttachStage::DuplicateWorld, ..a },
                        HostCall::Duplicate { handle: canvas.surface_handle },
                    ),
                )
            } else {
                (m, AttachProgress::Done(Err(ServerError::ProcessFailed)))
            },
            AttachStage::DuplicateWorld => match reply {
                HostReply::Duplicated(handle) => (
                    m,
                    AttachProgress::Call(
                        Attach { stage: AttachStage::SendWorld, ..a },
                        HostCall::Send {
                            monitor_id: w,
                            message: world_message(canvas, c, handle),
                        },
                    ),
                ),
                _ => (m, AttachProgress::Done(Err(ServerError::DuplicateFailed))),
            },
            AttachStage::SendWorld => if reply == HostReply::Done {
                (
                    m.mark_attached(c, w),
                    if canvas.surfaces.contains_key(w) {
                        AttachProgress::Call(
                            Attach { stage: AttachStage::DuplicateLocal, ..a },
                            HostCall::Duplicate { handle: canvas.surfaces[w].handle },
                        )
                    } else {
                        AttachProgress::Call(
                            Attach { stage: AttachStage::CreateSurface, ..a },
                            HostCall::CreateSurface {
                                canvas_id: c,
                                monitor_id: w,
                                logical_w: canvas.logical_w,
                                logical_h: canvas.logical_h,
                            },
                        )
                    },
                )
            } else {
                (m, AttachProgress::Done(Ok(())))
            },
            AttachStage::CreateSurface => match reply {
                HostReply::Surface(surface) => (
                    m.with_surface(c, w, surface),
                    AttachProgress::Call(
                        Attach { stage: AttachStage::DuplicateLocal, ..a },
                        HostCall::Duplicate { handle: surface.handle },
                    ),
                ),
                _ => (m, AttachProgress::Done(Ok(()))),
            },
            AttachStage::DuplicateLocal => match reply {
                HostReply::Duplicated(handle) => if canvas.surfaces.contains_key(w) {
                    (
                        m,
                        AttachProgress::Call(
                            Attach { stage: AttachStage::SendLocal, ..a },
                            HostCall::Send {
                                monitor_id: w,
                                message: local_message(canvas.surfaces[w], c, w, handle),
                            },
                        ),
                    )
                } else {
                    (m, AttachProgress::Done(Ok(())))
                },
                _ => (m, AttachProgress::Done(Ok(()))),
            },
            AttachStage::SendLocal => (m, AttachProgress::Done(Ok(()))),
        }
    }
}

/// Where the hand-over of a scene's output to its monitor stands.
#[derive(Debug, Clone, Copy, PartialEq, Eq, Structural)]
pub enum OutputStage {
    CreateOutput,
    OpenProcess,
    Duplicate,
    Send,
}

/// A hand-over of a scene's output to its monitor.
#[derive(Debug, Clone, Copy, PartialEq, Eq, Structural)]
pub struct OutputHandoff {
    pub monitor_id: u32,
    pub stage: OutputStage,
}

/// A hand-over of an output waits for the host, or has ended: with `true` where
/// the output is new, with `false` where it was there already.
#[derive(Debug, Clone, Copy, PartialEq, Eq)]
pub enum OutputProgress {
    Call(OutputHandoff, HostCall),
    Done(Result<bool, ServerError>),
}

/// How the hand-over of a scene's output begins.
pub open spec fn output_begin(m: ServerModel, monitor_id: u32) -> OutputProgress {
    if m.outputs.contains_key(monitor_id) {
        OutputProgress::Done(Ok(false))
    } else if !m.scenes.contains_key(monitor_id) {
        OutputProgress::Done(Err(ServerError::SceneNotFound))
    } else {
        OutputProgress::Call(
            OutputHandoff { monitor_id, stage: OutputStage::CreateOutput },
            HostCall::CreateOutput {
                monitor_id,
                logical_w: m.scenes[monitor_id].metrics.logical_w,
                logical_h: m.scenes[monitor_id].metrics.logical_h,
            },
        )
    }
}

/// The message that hands over a scene's output.
pub open spec fn output_message(
    output: SceneOutput,
    monitor_id: u32,
    scene_id: u32,
    handle: u64,
) -> MonitorMessage {
    MonitorMessage::MonitorCompositeAttached {
        monitor_id,
        scene_id,
        surface_handle: handle,
        logical_w: output.logical_w,
        logical_h: output.logical_h,
        render_w: output.render_w,
        render_h: output.render_h,
    }
}

/// How the hand-over of an output goes on after the host's reply. An output that
/// its monitor does not learn of is taken back.
pub open spec fn output_step(m: ServerModel, o: OutputHandoff, reply: HostReply) -> (
    ServerModel,
    OutputProgress,
) {
    let w = o.monitor_id;
    match o.stage {
        OutputStage::CreateOutput => match reply {
            HostReply::Output(output) => if !m.scenes.contains_key(w) {
                (m, OutputProgress::Done(Err(ServerError::SceneNotFound)))
            } else if !m.monitors.contains_key(w) {
                (m.without_output(w), OutputProgress::Done(Err(ServerError::MonitorNotFound)))
            } else {
                (
                    m.with_output(w, output),
                    OutputProgress::Call(
                        OutputHandoff { stage: OutputStage::OpenProcess, ..o },
                        HostCall::OpenProcess { pid: m.monitors[w].pid },
                    ),
                )
            },
            _ => (m, OutputProgress::Done(Err(ServerError::SurfaceFailed))),
        },
        OutputStage::OpenProcess => if reply == HostReply::Done && m.outputs.contains_key(w) {
            (
                m,
                OutputProgress::Call(
                    OutputHandoff { stage: OutputStage::Duplicate, ..o },
                    HostCall::Duplicate { handle: m.outputs[w].handle },
                ),
            )
        } else {
            (m.without_output(w), OutputProgress::Done(Err(ServerError::ProcessFailed)))
        },
        OutputStage::Duplicate => match reply {
            HostReply::Duplicated(handle) => if m.outputs.contains_key(w) && m.scenes.contains_key(
                w,
            ) {
                (
                    m,
                    OutputProgress::Call(
                        OutputHandoff { stage: OutputStage::Send, ..o },
                        HostCall::Send {
                            monitor_id: w,
                            message: output_message(
                                m.outputs[w],
                                w,
                                m.scenes[w].monitor_id,
                                handle,
                            ),
                        },
                    ),
                )
            } else {
                (m.without_output(w), OutputProgress::Done(Err(ServerError::SceneNotFound)))
            },
            _ => (m.without_output(w), OutputProgress::Done(Err(ServerError::DuplicateFailed))),
        },
        OutputStage::Send => if reply == HostReply::Done {
            (m, OutputProgress::Done(Ok(true)))
        } else {
            (m.without_output(w), OutputProgress::Done(Err(ServerError::Disconnected)))
        },
    }
}

impl ServerState {
    /// Begins to hand a canvas over to a monitor.
    pub fn attach_monitor(&self, canvas_id: u32, monitor_id: u32) -> (p: AttachProgress)
        ensures
            p == attach_begin(self@, canvas_id, monitor_id),
    {
        if !self.canvases.contains_key(&canvas_id) {
            return AttachProgress::Done(Err(ServerError::CanvasNotFound));
        }
        match self.monitors.get(&monitor_id) {
            None => AttachProgress::Done(Err(ServerError::MonitorNotFound)),
            Some(monitor) => AttachProgress::Call(
                Attach { canvas_id, monitor_id, stage: AttachStage::OpenProcess },
                HostCall::OpenProcess { pid: monitor.pid },
            ),
        }
    }

    /// Goes on handing a canvas over, with the host's reply to the last call.
    pub fn continue_attach(&mut self, a: Attach, reply: HostReply) -> (p: AttachProgress)
        ensures
            final(self)@ == attach_step(old(self)@, a, reply).0,
            p == attach_step(old(self)@, a, reply).1,
    {
        let ghost before = self@;
        let c: u32 = a.canvas_id;
        let w: u32 = a.monitor_id;
        let (surface_handle, logical_w, logical_h, render_w, render_h, own) = match self.canvases.get(
            &c,
        ) {
            None => {
                return AttachProgress::Done(Err(ServerError::CanvasNotFound));
            },
            Some(canvas) => {
                assert(before.canvases[c] == canvas@);
                let own: Option<MonitorSurface> = match canvas.per_monitor_surfaces.get(&w) {
                    Some(surface) => Some(*surface),
                    None => None,
                };
                (
                    canvas.surface_handle,
                    canvas.logical_w,
                    canvas.logical_h,
                    canvas.render_w,
                    canvas.render_h,
                    own,
                )
            },
        };
        match a.stage {
            AttachStage::OpenProcess => match reply {
                HostReply::Done => AttachProgress::Call(
                    Attach { stage: AttachStage::DuplicateWorld, ..a },
                    HostCall::Duplicate { handle: surface_handle },
                ),
                _ => AttachProgress::Done(Err(ServerError::ProcessFailed)),
            },
            AttachStage::DuplicateWorld => match reply {
                HostReply::Duplicated(handle) => AttachProgress::Call(
                    Attach { stage: AttachStage::SendWorld, ..a },
                    HostCall::Send {
                        monitor_id: w,
                        message: MonitorMessage::CanvasAttached {
                            canvas_id: c,
                            surface_handle: handle,
                            logical_w,
                            logical_h,
                            render_w,
                            render_h,
                        },
                    },
                ),
                _ => AttachProgress::Done(Err(ServerError::DuplicateFailed)),
            },
            AttachStage::SendWorld => match reply {
                HostReply::Done => {
                    self.mark_attached(c, w);
                    match own {
                        Some(surface) => AttachProgress::Call(
                            Attach { stage: AttachStage::DuplicateLocal, ..a },
                            HostCall::Duplicate { handle: surface.handle },
                        ),
                        None => AttachProgress::Call(
                            Attach { stage: AttachStage::CreateSurface, ..a },
                            HostCall::CreateSurface {
                                canvas_id: c,
                                monitor_id: w,
                                logical_w,
                                logical_h,
                            },
                        ),
                    }
                },
                _ => AttachProgress::Done(Ok(())),
            },
            AttachStage::CreateSurface => match reply {
                HostReply::Surface(surface) => {
                    self.store_surface(c, w, surface);
                    AttachProgress::Call(
                        Attach { stage: AttachStage::DuplicateLocal, ..a },
                        HostCall::Duplicate { handle: surface.handle },
                    )
                },
                _ => AttachProgress::Done(Ok(())),
            },
            AttachStage::DuplicateLocal => match (reply, own) {
                (HostReply::Duplicated(handle), Some(surface)) => AttachProgress::Call(
                    Attach { stage: AttachStage::SendLocal, ..a },
                    HostCall::Send {
                        monitor_id: w,
                        message: MonitorMessage::MonitorLocalSurfaceAttached {
                            canvas_id: c,
                            monitor_id: w,
                            surface_handle: handle,
                            logical_w: surface.logical_w,
                            logical_h: surface.logical_h,
                        },
                    },
                ),
                _ => AttachProgress::Done(Ok(())),
            },
            AttachStage::SendLocal => AttachProgress::Done(Ok(())),
        }
    }

    fn store_surface(&mut self, canvas_id: u32, monitor_id: u32, surface: MonitorSurface)
        requires
            old(self)@.canvases.contains_key(canvas_id),
        ensures
            final(self)@ == old(self)@.with_surface(canvas_id, monitor_id, surface),
    {
        let ghost before = self@;
        if let Some(mut canvas) = self.canvases.remove(&canvas_id) {
            let ghost canvas_before = canvas@;
            assert(before.canvases[canvas_id] == canvas_before);
            canvas.per_monitor_surfaces.insert(monitor_id, surface);
            assert(canvas@ =~= CanvasView {
                surfaces: canvas_before.surfaces.insert(monitor_id, surface),
                ..canvas_before
            });
            self.canvases.insert(canvas_id, canvas);
            assert(self@.canvases =~= before.with_surface(
                canvas_id,
                monitor_id,
                surface,
            ).canvases);
        }
    }

    /// Begins to make sure that a monitor has an output for its scene, and knows
    /// of it.
    pub fn ensure_monitor_scene_output_and_notify(&self, monitor_id: u32) -> (p: OutputProgress)
        ensures
            p == output_begin(self@, monitor_id),
    {
        if self.monitor_scene_outputs.contains_key(&monitor_id) {
            return OutputProgress::Done(Ok(false));
        }
        match self.monitor_scenes.get(&monitor_id) {
            None => OutputProgress::Done(Err(ServerError::SceneNotFound)),
            Some(scene) => {
                assert(self@.scenes[monitor_id] == scene@);
                OutputProgress::Call(
                    OutputHandoff { monitor_id, stage: OutputStage::CreateOutput },
                    HostCall::CreateOutput {
                        monitor_id,
                        logical_w: scene.metrics.logical_w,
                        logical_h: scene.metrics.logical_h,
                    },
                )
            },
        }
    }

    /// Goes on handing an output over, with the host's reply to the last call.
    pub fn continue_output(&mut self, o: OutputHandoff, reply: HostReply) -> (p: OutputProgress)
        ensures
            final(self)@ == output_step(old(self)@, o, reply).0,
            p == output_step(old(self)@, o, reply).1,
    {
        let w: u32 = o.monitor_id;
        match o.stage {
            OutputStage::CreateOutput => match reply {
                HostReply::Output(output) => {
                    if !self.monitor_scenes.contains_key(&w) {
                        return OutputProgress::Done(Err(ServerError::SceneNotFound));
                    }
                    let monitor: Option<Monitor> = match self.monitors.get(&w) {
                        Some(monitor) => Some(*monitor),
                        None => None,
                    };
                    match monitor {
                        None => {
                            self.monitor_scene_outputs.remove(&w);
                            OutputProgress::Done(Err(ServerError::MonitorNotFound))
                        },
                        Some(monitor) => {
                            self.monitor_scene_outputs.insert(w, output);
                            OutputProgress::Call(
                                OutputHandoff { stage: OutputStage::OpenProcess, ..o },
                                HostCall::OpenProcess { pid: monitor.pid },
                            )
                        },
                    }
                },
                _ => OutputProgress::Done(Err(ServerError::SurfaceFailed)),
            },
            OutputStage::OpenProcess => {
                let output: Option<SceneOutput> = match self.monitor_scene_outputs.get(&w) {
                    Some(output) => Some(*output),
                    None => None,
                };
                match (reply, output) {
                    (HostReply::Done, Some(output)) => OutputProgress::Call(
                        OutputHandoff { stage: OutputStage::Duplicate, ..o },
                        HostCall::Duplicate { handle: output.handle },
                    ),
                    _ => {
                        self.monitor_scene_outputs.remove(&w);
                        OutputProgress::Done(Err(ServerError::ProcessFailed))
                    },
                }
            },
            OutputStage::Duplicate => match reply {
                HostReply::Duplicated(handle) => {
                    let output: Option<SceneOutput> = match self.monitor_scene_outputs.get(&w) {
                        Some(output) => Some(*output),
                        None => None,
                    };
                    let scene_id: Option<u32> = match self.monitor_scenes.get(&w) {
                        Some(scene) => {
                            assert(self@.scenes[w] == scene@);
                            Some(scene.monitor_id)
                        },
                        None => None,
                    };
                    match (output, scene_id) {
                        (Some(output), Some(scene_id)) => OutputProgress::Call(
                            OutputHandoff { stage: OutputStage::Send, ..o },
                            HostCall::Send {
                                monitor_id: w,
                                message: MonitorMessage::MonitorCompositeAttached {
                                    monitor_id: w,
                                    scene_id,
                                    surface_handle: handle,
                                    logical_w: output.logical_w,
                                    logical_h: output.logical_h,
                                    render_w: output.render_w,
                                    render_h: output.render_h,
                                },
                            },
                        ),
                        _ => {
                            self.monitor_scene_outputs.remove(&w);
                            OutputProgress::Done(Err(ServerError::SceneNotFound))
                        },
                    }
                },
                _ => {
                    self.monitor_scene_outputs.remove(&w);
                    OutputProgress::Done(Err(ServerError::DuplicateFailed))
                },
            },
            OutputStage::Send => match reply {
                HostReply::Done => OutputProgress::Done(Ok(true)),
                _ => {
                    self.monitor_scene_outputs.remove(&w);
                    OutputProgress::Done(Err(ServerError::Disconnected))
                },
            },
        }
    }
}

} // verus!
