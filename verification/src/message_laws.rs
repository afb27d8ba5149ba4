//! What the host is asked for and what monitors and apps are told while surfaces
//! are handed over, field by field.

use vstd::prelude::*;

use crate::handoff::{
    Attach, AttachProgress, HostCall, HostReply, MonitorMessage, OutputHandoff, OutputProgress,
};
use crate::operations::{Attaching, AttachingProgress, Part, RegisterProgress, Registering};
use crate::protocol::ControlMessage;
use crate::server::{MonitorRegistration, ServerError, ServerState};
use crate::server_laws;

verus! {

/// Handing a canvas over begins with the monitor's process, and with nothing where
/// the canvas or the monitor is not there; the canvas is looked for first.
pub proof fn attaching_begins_with_the_process(
    s: &ServerState,
    canvas_id: u32,
    monitor_id: u32,
    p: AttachProgress,
)
    requires
        call_ensures(ServerState::attach_monitor, (s, canvas_id, monitor_id), p),
    ensures
        !s@.canvases.contains_key(canvas_id) ==> p == AttachProgress::Done(
            Err(ServerError::CanvasNotFound),
        ),
        s@.canvases.contains_key(canvas_id) && !s@.monitors.contains_key(monitor_id) ==> p
            == AttachProgress::Done(Err(ServerError::MonitorNotFound)),
        s@.canvases.contains_key(canvas_id) && s@.monitors.contains_key(monitor_id) ==> {
            &&& p matches AttachProgress::Call(next, HostCall::OpenProcess { pid })
            &&& pid == s@.monitors[monitor_id].pid
            &&& next.canvas_id == canvas_id
            &&& next.monitor_id == monitor_id
            &&& next.stage is OpenProcess
        },
{
}

/// The message with which a canvas is handed over goes to the monitor and carries
/// the sizes that the canvas has, each in its own field, and the handle that the
/// host duplicated: the duplicate of the canvas's own surface.
pub proof fn handed_over_canvases_keep_their_sizes(
    s: &mut ServerState,
    a: Attach,
    reply: HostReply,
    p: AttachProgress,
)
    requires
        call_ensures(ServerState::continue_attach, (s, a, reply), p),
        old(s)@.canvases.contains_key(a.canvas_id),
    ensures
        a.stage is OpenProcess && reply is Done ==> {
            &&& p matches AttachProgress::Call(next, HostCall::Duplicate { handle })
            &&& handle == old(s)@.canvases[a.canvas_id].surface_handle
            &&& next.canvas_id == a.canvas_id
            &&& next.monitor_id == a.monitor_id
            &&& next.stage is DuplicateWorld
            &&& final(s)@ == old(s)@
        },
        a.stage is DuplicateWorld && reply is Duplicated ==> {
            let canvas = old(s)@.canvases[a.canvas_id];
            &&& p matches AttachProgress::Call(next, HostCall::Send { monitor_id, message })
            &&& monitor_id == a.monitor_id
            &&& message matches MonitorMessage::CanvasAttached {
                canvas_id,
                surface_handle,
                logical_w,
                logical_h,
                render_w,
                render_h,
            }
            &&& canvas_id == a.canvas_id
            &&& surface_handle == reply->Duplicated_0
            &&& logical_w == canvas.logical_w
            &&& logical_h == canvas.logical_h
            &&& render_w == canvas.render_w
            &&& render_h == canvas.render_h
            &&& next.canvas_id == a.canvas_id
            &&& next.monitor_id == a.monitor_id
            &&& next.stage is SendWorld
            &&& final(s)@ == old(s)@
        },
        a.stage is OpenProcess && !(reply is Done) ==> p == AttachProgress::Done(
            Err(ServerError::ProcessFailed),
        ) && final(s)@ == old(s)@,
        a.stage is DuplicateWorld && !(reply is Duplicated) ==> p == AttachProgress::Done(
            Err(ServerError::DuplicateFailed),
        ) && final(s)@ == old(s)@,
{
}

/// A canvas that an app asked for is handed over with the sizes that it asked for,
/// each in its own field, and with the duplicate of the surface that the host made
/// for it.
pub proof fn monitors_learn_the_sizes_that_were_asked_for(
    s: &mut ServerState,
    owner_id: u32,
    logical_w: u32,
    logical_h: u32,
    render_w: u32,
    render_h: u32,
    handle: u64,
    created: Result<u32, ServerError>,
    t: &mut ServerState,
    a: Attach,
    duplicate: u64,
    p: AttachProgress,
)
    requires
        call_ensures(
            ServerState::create_canvas,
            (s, owner_id, logical_w, logical_h, render_w, render_h, Some(handle)),
            created,
        ),
        old(s)@.apps.contains_key(owner_id),
        old(t)@ == final(s)@,
        created == Ok::<u32, ServerError>(a.canvas_id),
        a.stage is OpenProcess || a.stage is DuplicateWorld,
        a.stage is OpenProcess ==> call_ensures(
            ServerState::continue_attach,
            (t, a, HostReply::Done),
            p,
        ),
        a.stage is DuplicateWorld ==> call_ensures(
            ServerState::continue_attach,
            (t, a, HostReply::Duplicated(duplicate)),
            p,
        ),
    ensures
        a.stage is OpenProcess ==> (p matches AttachProgress::Call(
            _,
            HostCall::Duplicate { handle: source },
        ) && source == handle),
        a.stage is DuplicateWorld ==> {
            &&& p matches AttachProgress::Call(_, HostCall::Send { monitor_id, message })
            &&& monitor_id == a.monitor_id
            &&& message matches MonitorMessage::CanvasAttached {
                canvas_id,
                surface_handle,
                logical_w: lw,
                logical_h: lh,
                render_w: rw,
                render_h: rh,
            }
            &&& canvas_id == a.canvas_id
            &&& surface_handle == duplicate
            &&& lw == logical_w
            &&& lh == logical_h
            &&& rw == render_w
            &&& rh == render_h
        },
{
}

/// Once the shared surface is with the monitor, the canvas counts as shown there.
/// Then the monitor's own surface is duplicated, or made first with the canvas's
/// logical size, and handed over with its own sizes and its duplicate's handle.
/// Whatever fails from here on, the hand-over ends well.
pub proof fn own_surfaces_keep_their_sizes(
    s: &mut ServerState,
    a: Attach,
    reply: HostReply,
    p: AttachProgress,
)
    requires
        call_ensures(ServerState::continue_attach, (s, a, reply), p),
        old(s)@.canvases.contains_key(a.canvas_id),
    ensures
        ({
            let canvas = old(s)@.canvases[a.canvas_id];
            let w = a.monitor_id;
            &&& a.stage is SendWorld && reply is Done ==> {
                &&& final(s)@.canvases[a.canvas_id].attached.contains(w)
                &&& canvas.surfaces.contains_key(w) ==> {
                    &&& p matches AttachProgress::Call(next, HostCall::Duplicate { handle })
                    &&& handle == canvas.surfaces[w].handle
                    &&& next.canvas_id == a.canvas_id
                    &&& next.monitor_id == w
                    &&& next.stage is DuplicateLocal
                }
                &&& !canvas.surfaces.contains_key(w) ==> {
                    &&& p matches AttachProgress::Call(
                        next,
                        HostCall::CreateSurface { canvas_id, monitor_id, logical_w, logical_h },
                    )
                    &&& canvas_id == a.canvas_id
                    &&& monitor_id == w
                    &&& logical_w == canvas.logical_w
                    &&& logical_h == canvas.logical_h
                    &&& next.canvas_id == a.canvas_id
                    &&& next.monitor_id == w
                    &&& next.stage is CreateSurface
                }
            }
            &&& a.stage is SendWorld && !(reply is Done) ==> p == AttachProgress::Done(Ok(()))
                && final(s)@ == old(s)@
            &&& a.stage is CreateSurface && reply is Surface ==> {
                let surface = reply->Surface_0;
                &&& final(s)@.canvases[a.canvas_id].surfaces.contains_key(w)
                &&& final(s)@.canvases[a.canvas_id].surfaces[w] == surface
                &&& p matches AttachProgress::Call(next, HostCall::Duplicate { handle })
                &&& handle == surface.handle
                &&& next.canvas_id == a.canvas_id
                &&& next.monitor_id == w
                &&& next.stage is DuplicateLocal
            }
            &&& a.stage is CreateSurface && !(reply is Surface) ==> p == AttachProgress::Done(
                Ok(()),
            ) && final(s)@ == old(s)@
            &&& a.stage is DuplicateLocal && reply is Duplicated && canvas.surfaces.contains_key(w)
                ==> {
                let surface = canvas.surfaces[w];
                &&& p matches AttachProgress::Call(next, HostCall::Send { monitor_id: to, message })
                &&& to == w
                &&& message matches MonitorMessage::MonitorLocalSurfaceAttached {
                    canvas_id,
                    monitor_id,
                    surface_handle,
                    logical_w,
                    logical_h,
                }
                &&& canvas_id == a.canvas_id
                &&& monitor_id == w
                &&& surface_handle == reply->Duplicated_0
                &&& logical_w == surface.logical_w
                &&& logical_h == surface.logical_h
                &&& next.canvas_id == a.canvas_id
                &&& next.monitor_id == w
                &&& next.stage is SendLocal
                &&& final(s)@ == old(s)@
            }
            &&& a.stage is DuplicateLocal && !(reply is Duplicated && canvas.surfaces.contains_key(
                w,
            )) ==> p == AttachProgress::Done(Ok(())) && final(s)@ == old(s)@
            &&& a.stage is SendLocal ==> p == AttachProgress::Done(Ok(())) && final(s)@ == old(s)@
        }),
{
}

/// A scene's output is made with the scene's size, once: where there is one
/// already nothing is done, and a monitor without a scene has none.
pub proof fn outputs_have_the_size_of_the_scene(
    s: &ServerState,
    monitor_id: u32,
    p: OutputProgress,
)
    requires
        call_ensures(ServerState::ensure_monitor_scene_output_and_notify, (s, monitor_id), p),
    ensures
        s@.outputs.contains_key(monitor_id) ==> p == OutputProgress::Done(Ok(false)),
        !s@.outputs.contains_key(monitor_id) && !s@.scenes.contains_key(monitor_id) ==> p
            == OutputProgress::Done(Err(ServerError::SceneNotFound)),
        !s@.outputs.contains_key(monitor_id) && s@.scenes.contains_key(monitor_id) ==> {
            &&& p matches OutputProgress::Call(
                next,
                HostCall::CreateOutput { monitor_id: w, logical_w, logical_h },
            )
            &&& w == monitor_id
            &&& logical_w == s@.scenes[monitor_id].metrics.logical_w
            &&& logical_h == s@.scenes[monitor_id].metrics.logical_h
            &&& next.monitor_id == monitor_id
            &&& next.stage is CreateOutput
        },
{
}

/// A scene's output is kept, duplicated into the monitor's process and handed over
/// with its own sizes, each in its own field, the scene's number and the
/// duplicate's handle. Where a step fails the output is not kept.
pub proof fn handed_over_outputs_keep_their_sizes(
    s: &mut ServerState,
    o: OutputHandoff,
    reply: HostReply,
    p: OutputProgress,
)
    requires
        call_ensures(ServerState::continue_output, (s, o, reply), p),
        old(s)@.scenes.contains_key(o.monitor_id),
        old(s)@.monitors.contains_key(o.monitor_id),
        !(o.stage is CreateOutput) ==> old(s)@.outputs.contains_key(o.monitor_id),
    ensures
        ({
            let w = o.monitor_id;
            let output = old(s)@.outputs[w];
            &&& o.stage is CreateOutput && reply is Output ==> {
                &&& final(s)@.outputs.contains_key(w)
                &&& final(s)@.outputs[w] == reply->Output_0
                &&& p matches OutputProgress::Call(next, HostCall::OpenProcess { pid })
                &&& pid == old(s)@.monitors[w].pid
                &&& next.monitor_id == w
                &&& next.stage is OpenProcess
            }
            &&& o.stage is OpenProcess && reply is Done ==> {
                &&& p matches OutputProgress::Call(next, HostCall::Duplicate { handle })
                &&& handle == output.handle
                &&& next.monitor_id == w
                &&& next.stage is Duplicate
                &&& final(s)@ == old(s)@
            }
            &&& o.stage is Duplicate && reply is Duplicated ==> {
                &&& p matches OutputProgress::Call(next, HostCall::Send { monitor_id: to, message })
                &&& to == w
                &&& message matches MonitorMessage::MonitorCompositeAttached {
                    monitor_id,
                    scene_id,
                    surface_handle,
                    logical_w,
                    logical_h,
                    render_w,
                    render_h,
                }
                &&& monitor_id == w
                &&& scene_id == old(s)@.scenes[w].monitor_id
                &&& surface_handle == reply->Duplicated_0
                &&& logical_w == output.logical_w
                &&& logical_h == output.logical_h
                &&& render_w == output.render_w
                &&& render_h == output.render_h
                &&& next.monitor_id == w
                &&& next.stage is Send
                &&& final(s)@ == old(s)@
            }
            &&& o.stage is Send && reply is Done ==> p == OutputProgress::Done(Ok(true))
                && final(s)@ == old(s)@
            &&& o.stage is CreateOutput && !(reply is Output) ==> p == OutputProgress::Done(
                Err(ServerError::SurfaceFailed),
            ) && final(s)@ == old(s)@
            &&& o.stage is OpenProcess && !(reply is Done) ==> p == OutputProgress::Done(
                Err(ServerError::ProcessFailed),
            ) && !final(s)@.outputs.contains_key(w)
            &&& o.stage is Duplicate && !(reply is Duplicated) ==> p == OutputProgress::Done(
                Err(ServerError::DuplicateFailed),
            ) && !final(s)@.outputs.contains_key(w)
            &&& o.stage is Send && !(reply is Done) ==> p == OutputProgress::Done(
                Err(ServerError::Disconnected),
            ) && !final(s)@.outputs.contains_key(w)
        }),
{
}

/// A message about a surface is put on the wire with each of its values in the
/// field of the same name; the protocol has none for a scene's output.
pub proof fn surface_messages_keep_their_fields(message: MonitorMessage, r: Option<ControlMessage>)
    requires
        call_ensures(MonitorMessage::to_control, (message,), r),
    ensures
        message is CanvasAttached ==> {
            &&& r matches Some(
                ControlMessage::CanvasAttached {
                    canvas_id,
                    surface_handle,
                    logical_w,
                    logical_h,
                    render_w,
                    render_h,
                },
            )
            &&& canvas_id == message->CanvasAttached_canvas_id
            &&& surface_handle == message->CanvasAttached_surface_handle
            &&& logical_w == message->CanvasAttached_logical_w
            &&& logical_h == message->CanvasAttached_logical_h
            &&& render_w == message->CanvasAttached_render_w
            &&& render_h == message->CanvasAttached_render_h
        },
        message is MonitorLocalSurfaceAttached ==> {
            &&& r matches Some(
                ControlMessage::MonitorLocalSurfaceAttached {
                    canvas_id,
                    monitor_id,
                    surface_handle,
                    logical_w,
                    logical_h,
                },
            )
            &&& canvas_id == message->MonitorLocalSurfaceAttached_canvas_id
            &&& monitor_id == message->MonitorLocalSurfaceAttached_monitor_id
            &&& surface_handle == message->MonitorLocalSurfaceAttached_surface_handle
            &&& logical_w == message->MonitorLocalSurfaceAttached_logical_w
            &&& logical_h == message->MonitorLocalSurfaceAttached_logical_h
        },
        message is MonitorCompositeAttached ==> r is None,
{
}

/// A monitor that registers is entered as it registered. One that nobody owns
/// stays. One whose owner is not there, or that is to show a canvas that its owner
/// does not have, is to be closed; so is one that the core manages and that has no
/// canvas to show. Any other is handed its canvas, from its own process on.
pub proof fn registering_monitors_are_checked(
    s: &mut ServerState,
    r: MonitorRegistration,
    p: RegisterProgress,
)
    requires
        call_ensures(ServerState::register_monitor, (s, r), p),
        old(s)@.wf(),
        old(s)@.next_monitor_id < u32::MAX,
    ensures
        ({
            let id = old(s)@.next_monitor_id;
            let app = r.owner_app_id->0;
            let canvas = r.target_canvas_id->0;
            let owner_there = r.owner_app_id is Some && old(s)@.apps.contains_key(app);
            let own_target = owner_there && r.target_canvas_id is Some
                && old(s)@.apps[app].canvas_ids.contains(canvas);
            &&& final(s)@.monitors.contains_key(id)
            &&& final(s)@.monitors[id].pid == r.pid
            &&& final(s)@.monitors[id].kind == r.kind
            &&& final(s)@.monitors[id].owner_app_id == r.owner_app_id
            &&& final(s)@.monitors[id].target_canvas_id == r.target_canvas_id
            &&& final(s)@.monitors[id].start_request_id == r.request_id
            &&& final(s)@.monitors[id].manual_lifecycle == r.manual_lifecycle
            &&& final(s)@.monitors[id].mode == r.mode
            &&& final(s)@.monitors[id].flags == r.flags
            &&& r.owner_app_id is None ==> p == (RegisterProgress::Done {
                monitor_id: id,
                should_close: false,
            })
            &&& r.owner_app_id is Some && !owner_there ==> p == (RegisterProgress::Done {
                monitor_id: id,
                should_close: true,
            })
            &&& owner_there && r.target_canvas_id is None && r.kind is DesktopWindow
                && !r.manual_lifecycle ==> p == (RegisterProgress::Done {
                monitor_id: id,
                should_close: true,
            })
            &&& owner_there && r.target_canvas_id is None && !(r.kind is DesktopWindow
                && !r.manual_lifecycle) ==> p == (RegisterProgress::Done {
                monitor_id: id,
                should_close: false,
            })
            &&& owner_there && r.target_canvas_id is Some && !own_target ==> p == (
            RegisterProgress::Done { monitor_id: id, should_close: true })
            &&& own_target ==> {
                &&& p matches RegisterProgress::Call(next, HostCall::OpenProcess { pid })
                &&& pid == r.pid
                &&& next.monitor_id == id
                &&& next.canvas_id == canvas
                &&& next.part matches Part::Attach(a)
                &&& a.canvas_id == canvas
                &&& a.monitor_id == id
                &&& a.stage is OpenProcess
            }
        }),
{
    let app = r.owner_app_id->0;
    let canvas = r.target_canvas_id->0;
    if r.owner_app_id is Some && r.target_canvas_id is Some {
        assert(old(s)@.owns(app, canvas) ==> old(s)@.canvases.contains_key(canvas));
    }
}

/// A registration whose hand-over fails before the shared surface is with the
/// monitor ends with the monitor's closing. One whose canvas is handed over shows
/// the canvas on the monitor's scene, whole, and goes on to the scene's output;
/// the monitor stays where that is handed over, and is closed where it is not.
pub proof fn failed_registrations_close(
    s: &mut ServerState,
    r: Registering,
    reply: HostReply,
    p: RegisterProgress,
)
    requires
        call_ensures(ServerState::continue_register, (s, r, reply), p),
        old(s)@.canvases.contains_key(r.canvas_id),
        old(s)@.monitors.contains_key(r.monitor_id),
    ensures
        r.part matches Part::Attach(a) ==> a.canvas_id == r.canvas_id && a.monitor_id
            == r.monitor_id ==> {
            &&& a.stage is OpenProcess && !(reply is Done) ==> p == (RegisterProgress::Done {
                monitor_id: r.monitor_id,
                should_close: true,
            })
            &&& a.stage is DuplicateWorld && !(reply is Duplicated) ==> p == (
            RegisterProgress::Done { monitor_id: r.monitor_id, should_close: true })
            &&& a.stage is SendLocal ==> {
                let canvas = old(s)@.canvases[r.canvas_id];
                let scene = final(s)@.scenes[r.monitor_id];
                &&& final(s)@.scenes.contains_key(r.monitor_id)
                &&& exists|i: int|
                    0 <= i < scene.layers.len() && {
                        let layer = #[trigger] scene.layers[i];
                        &&& layer.canvas_id == r.canvas_id
                        &&& layer.app_id == canvas.owner_app_id
                        &&& layer.window.visible
                        &&& layer.window.logical_w == canvas.logical_w
                        &&& layer.window.logical_h == canvas.logical_h
                    }
                &&& old(s)@.outputs.contains_key(r.monitor_id) ==> p == (RegisterProgress::Done {
                    monitor_id: r.monitor_id,
                    should_close: false,
                })
                &&& !old(s)@.outputs.contains_key(r.monitor_id) ==> {
                    &&& p matches RegisterProgress::Call(
                        next,
                        HostCall::CreateOutput { monitor_id, logical_w, logical_h },
                    )
                    &&& monitor_id == r.monitor_id
                    &&& logical_w == scene.metrics.logical_w
                    &&& logical_h == scene.metrics.logical_h
                    &&& next.monitor_id == r.monitor_id
                    &&& next.canvas_id == r.canvas_id
                }
            }
        },
        r.part matches Part::Output(o) ==> o.monitor_id == r.monitor_id ==> {
            &&& o.stage is Send && reply is Done ==> p == (RegisterProgress::Done {
                monitor_id: r.monitor_id,
                should_close: false,
            })
            &&& o.stage is CreateOutput && !(reply is Output) ==> p == (RegisterProgress::Done {
                monitor_id: r.monitor_id,
                should_close: true,
            })
            &&& o.stage is OpenProcess && !(reply is Done) ==> p == (RegisterProgress::Done {
                monitor_id: r.monitor_id,
                should_close: true,
            })
            &&& o.stage is Duplicate && !(reply is Duplicated) ==> p == (RegisterProgress::Done {
                monitor_id: r.monitor_id,
                should_close: true,
            })
            &&& o.stage is Send && !(reply is Done) ==> p == (RegisterProgress::Done {
                monitor_id: r.monitor_id,
                should_close: true,
            })
        },
{
    server_laws::shown_canvases_have_a_whole_layer(
        old(s)@,
        r.canvas_id,
        r.monitor_id,
        0,
    );
}

/// An app gets its canvas on a monitor just where it has the canvas and the
/// monitor is its own and was opened for that canvas or for none. Each refusal
/// names its reason and changes nothing. A granted request shows the canvas at
/// once, whole, and goes on to the monitor's process.
pub proof fn apps_attach_their_own_monitors(
    s: &mut ServerState,
    app_id: u32,
    canvas_id: u32,
    monitor_id: u32,
    p: AttachingProgress,
)
    requires
        call_ensures(ServerState::attach_monitor_for_app, (s, app_id, canvas_id, monitor_id), p),
        old(s)@.wf(),
    ensures
        ({
            let granted = old(s)@.apps.contains_key(app_id)
                && old(s)@.apps[app_id].canvas_ids.contains(canvas_id);
            let present = old(s)@.monitors.contains_key(monitor_id);
            let monitor = old(s)@.monitors[monitor_id];
            let own = monitor.owner_app_id == Some(app_id);
            let fits = monitor.target_canvas_id is None || monitor.target_canvas_id == Some(
                canvas_id,
            );
            &&& !granted ==> p == AttachingProgress::Done(Err(ServerError::CanvasNotOwned { app_id }))
                && final(s)@ == old(s)@
            &&& granted && !present ==> p == AttachingProgress::Done(Err(ServerError::MonitorNotFound))
                && final(s)@ == old(s)@
            &&& granted && present && !own ==> p == AttachingProgress::Done(
                Err(ServerError::MonitorNotOwned { app_id, monitor_id }),
            ) && final(s)@ == old(s)@
            &&& granted && present && own && !fits ==> p == AttachingProgress::Done(
                Err(
                    ServerError::OtherTarget {
                        monitor_id,
                        target_canvas_id: monitor.target_canvas_id->0,
                        canvas_id,
                    },
                ),
            ) && final(s)@ == old(s)@
            &&& granted && present && own && fits ==> {
                let canvas = old(s)@.canvases[canvas_id];
                let scene = final(s)@.scenes[monitor_id];
                &&& final(s)@.scenes.contains_key(monitor_id)
                &&& exists|i: int|
                    0 <= i < scene.layers.len() && {
                        let layer = #[trigger] scene.layers[i];
                        &&& layer.canvas_id == canvas_id
                        &&& layer.app_id == app_id
                        &&& layer.window.visible
                        &&& layer.window.logical_w == canvas.logical_w
                        &&& layer.window.logical_h == canvas.logical_h
                    }
                &&& p matches AttachingProgress::Call(next, HostCall::OpenProcess { pid })
                &&& pid == monitor.pid
                &&& next.canvas_id == canvas_id
                &&& next.monitor_id == monitor_id
                &&& next.part matches Part::Attach(a)
                &&& a.canvas_id == canvas_id
                &&& a.monitor_id == monitor_id
                &&& a.stage is OpenProcess
            }
        }),
{
    if old(s)@.owns(app_id, canvas_id) && old(s)@.monitors.contains_key(monitor_id) {
        assert(old(s)@.canvases.contains_key(canvas_id));
        server_laws::shown_canvases_have_a_whole_layer(old(s)@, canvas_id, monitor_id, 0);
        assert(canvas_id != 0);
    }
}

/// An app's request for a monitor ends well once the canvas and the scene's output
/// are handed over, and with the reason where one of them was not.
pub proof fn granted_requests_end_with_the_output(
    s: &mut ServerState,
    r: Attaching,
    reply: HostReply,
    p: AttachingProgress,
)
    requires
        call_ensures(ServerState::continue_attaching, (s, r, reply), p),
        old(s)@.canvases.contains_key(r.canvas_id),
    ensures
        r.part matches Part::Attach(a) ==> a.canvas_id == r.canvas_id && a.monitor_id
            == r.monitor_id ==> {
            &&& a.stage is OpenProcess && !(reply is Done) ==> p == AttachingProgress::Done(
                Err(ServerError::ProcessFailed),
            )
            &&& a.stage is DuplicateWorld && !(reply is Duplicated) ==> p
                == AttachingProgress::Done(Err(ServerError::DuplicateFailed))
            &&& a.stage is SendLocal && old(s)@.outputs.contains_key(r.monitor_id) ==> p
                == AttachingProgress::Done(Ok(()))
            &&& a.stage is SendLocal && !old(s)@.outputs.contains_key(r.monitor_id)
                && old(s)@.scenes.contains_key(r.monitor_id) ==> {
                &&& p matches AttachingProgress::Call(
                    next,
                    HostCall::CreateOutput { monitor_id, logical_w, logical_h },
                )
                &&& monitor_id == r.monitor_id
                &&& logical_w == old(s)@.scenes[r.monitor_id].metrics.logical_w
                &&& logical_h == old(s)@.scenes[r.monitor_id].metrics.logical_h
                &&& next.canvas_id == r.canvas_id
                &&& next.monitor_id == r.monitor_id
            }
        },
        r.part matches Part::Output(o) ==> o.monitor_id == r.monitor_id ==> {
            &&& o.stage is Send && reply is Done ==> p == AttachingProgress::Done(Ok(()))
            &&& o.stage is CreateOutput && !(reply is Output) ==> p == AttachingProgress::Done(
                Err(ServerError::SurfaceFailed),
            )
            &&& o.stage is OpenProcess && !(reply is Done) ==> p == AttachingProgress::Done(
                Err(ServerError::ProcessFailed),
            )
            &&& o.stage is Duplicate && !(reply is Duplicated) ==> p == AttachingProgress::Done(
                Err(ServerError::DuplicateFailed),
            )
            &&& o.stage is Send && !(reply is Done) ==> p == AttachingProgress::Done(
                Err(ServerError::Disconnected),
            )
        },
{
}

} // verus!
