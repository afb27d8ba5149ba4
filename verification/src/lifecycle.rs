//! When monitor windows close: when their app leaves, and when the connection to
//! the server is lost for good.

use vstd::prelude::*;

verus! {

/// Who decides when a monitor closes.
#[derive(Debug, Clone, Copy, PartialEq, Eq, Structural)]
pub enum MonitorLifecycleKind {
    /// The monitor itself.
    Standalone,
    /// Its host.
    Hosted,
}

/// A window of a monitor.
#[derive(Debug, Clone, Copy, PartialEq, Eq, Structural)]
pub struct MonitorWindow {
    pub hwnd: isize,
    pub monitor_id: u32,
    pub canvas_id: u32,
    pub owner_app_id: Option<u32>,
    /// The window is to be closed.
    pub pending_close: bool,
    /// The window is being drawn.
    pub in_frame: bool,
}

/// An app has left.
#[derive(Debug, Clone, Copy, PartialEq, Eq, Structural)]
pub struct AppDetachedEvent {
    pub app_id: u32,
    pub reason: u8,
}

/// Whether a window closes when an app leaves: it is the app's, or nobody's.
pub open spec fn concerns(owner_app_id: Option<u32>, app_id: u32) -> bool {
    owner_app_id == Some(app_id) || owner_app_id is None
}

/// Whether one of the events closes a window.
pub open spec fn any_concerns(events: Seq<AppDetachedEvent>, owner_app_id: Option<u32>) -> bool {
    exists|i: int|
        0 <= i < events.len() && concerns(owner_app_id, (#[trigger] events[i]).app_id)
}

/// A window after the events.
pub open spec fn after_events(w: MonitorWindow, events: Seq<AppDetachedEvent>) -> MonitorWindow {
    MonitorWindow {
        pending_close: w.pending_close || any_concerns(events, w.owner_app_id),
        ..w
    }
}

fn closes(owner_app_id: Option<u32>, events: &[AppDetachedEvent]) -> (r: bool)
    ensures
        r == any_concerns(events@, owner_app_id),
{
    let mut i: usize = 0;
    while i < events.len()
        invariant
            i <= events@.len(),
            forall|j: int| 0 <= j < i ==> !concerns(owner_app_id, (#[trigger] events@[j]).app_id),
        decreases events@.len() - i,
    {
        if owner_app_id == Some(events[i].app_id) || owner_app_id.is_none() {
            assert(concerns(owner_app_id, events@[i as int].app_id));
            return true;
        }
        i = i + 1;
    }
    false
}

/// Marks the windows that close because apps have left.
pub fn apply_app_detached_events(windows: &mut [MonitorWindow], events: &[AppDetachedEvent])
    ensures
        final(windows)@.len() == old(windows)@.len(),
        forall|i: int|
            0 <= i < old(windows)@.len() ==> #[trigger] final(windows)@[i] == after_events(
                old(windows)@[i],
                events@,
            ),
{
    let ghost before = windows@;
    let mut i: usize = 0;
    while i < windows.len()
        invariant
            i <= windows@.len(),
            windows@.len() == before.len(),
            forall|j: int|
                0 <= j < i ==> #[trigger] windows@[j] == after_events(before[j], events@),
            forall|j: int| i <= j < before.len() ==> #[trigger] windows@[j] == before[j],
        decreases windows@.len() - i,
    {
        let mut w = windows[i];
        if closes(w.owner_app_id, events) {
            w.pending_close = true;
        }
        windows[i] = w;
        i = i + 1;
    }
}

/// Whether a window is destroyed now: it is to be closed, and is not being drawn.
pub open spec fn destroyed(w: MonitorWindow) -> bool {
    w.pending_close && !w.in_frame
}

/// Whether a window is destroyed now.
pub fn should_destroy_now(w: &MonitorWindow) -> (r: bool)
    ensures
        r == destroyed(*w),
{
    w.pending_close && !w.in_frame
}

/// What came of a try to connect again.
#[derive(Debug, Clone, Copy, PartialEq, Eq, Structural)]
pub enum ReconnectOutcome {
    Success,
    Failed,
}

/// A monitor that tries to connect again.
#[derive(Debug)]
pub struct ReconnectState {
    pub windows: Vec<MonitorWindow>,
    pub attempts: u32,
}

/// The windows, all to be closed or none.
pub open spec fn all_marked(windows: Seq<MonitorWindow>, pending_close: bool) -> Seq<MonitorWindow> {
    windows.map_values(|w: MonitorWindow| MonitorWindow { pending_close, ..w })
}

/// The windows and the failed tries after one more try. A try that succeeds keeps
/// the windows; the last of the tries that fail closes those of a monitor that
/// decides for itself.
pub open spec fn reconnected(
    windows: Seq<MonitorWindow>,
    attempts: u32,
    outcome: ReconnectOutcome,
    kind: MonitorLifecycleKind,
    max_attempts: u32,
) -> (Seq<MonitorWindow>, u32) {
    match outcome {
        ReconnectOutcome::Success => (all_marked(windows, false), 0),
        ReconnectOutcome::Failed => {
            let tried = (attempts + 1) as u32;
            if tried >= max_attempts && kind == MonitorLifecycleKind::Standalone {
                (all_marked(windows, true), tried)
            } else {
                (windows, tried)
            }
        },
    }
}

fn mark_all(windows: &mut Vec<MonitorWindow>, pending_close: bool)
    ensures
        final(windows)@ == all_marked(old(windows)@, pending_close),
{
    let ghost before = windows@;
    let mut i: usize = 0;
    while i < windows.len()
        invariant
            i <= windows@.len(),
            windows@.len() == before.len(),
            forall|j: int|
                0 <= j < i ==> #[trigger] windows@[j] == (MonitorWindow {
                    pending_close,
                    ..before[j]
                }),
            forall|j: int| i <= j < before.len() ==> #[trigger] windows@[j] == before[j],
        decreases windows@.len() - i,
    {
        let mut w = windows[i];
        w.pending_close = pending_close;
        windows.set(i, w);
        i = i + 1;
    }
    assert(windows@ =~= all_marked(before, pending_close));
}

/// Enters what came of a try to connect again.
pub fn reconnect_step(
    state: &mut ReconnectState,
    outcome: ReconnectOutcome,
    lifecycle_kind: MonitorLifecycleKind,
    max_attempts: u32,
)
    requires
        outcome == ReconnectOutcome::Failed ==> old(state).attempts < u32::MAX,
    ensures
        (final(state).windows@, final(state).attempts) == reconnected(
            old(state).windows@,
            old(state).attempts,
            outcome,
            lifecycle_kind,
            max_attempts,
        ),
{
    match outcome {
        ReconnectOutcome::Success => {
            state.attempts = 0;
            mark_all(&mut state.windows, false);
        },
        ReconnectOutcome::Failed => {
            state.attempts = state.attempts + 1;
            if state.attempts >= max_attempts && lifecycle_kind == MonitorLifecycleKind::Standalone {
                mark_all(&mut state.windows, true);
            }
        },
    }
}

/// A window that is being drawn is not destroyed, whatever events come.
pub proof fn frames_are_finished(w: MonitorWindow, events: Seq<AppDetachedEvent>)
    requires
        w.in_frame,
    ensures
        !destroyed(after_events(w, events)),
{
}

/// A window of another app stays as it is.
pub proof fn other_windows_stay(w: MonitorWindow, events: Seq<AppDetachedEvent>)
    requires
        w.owner_app_id is Some,
        forall|i: int| 0 <= i < events.len() ==> Some((#[trigger] events[i]).app_id) != w.owner_app_id,
    ensures
        after_events(w, events) == w,
{
}

/// A window of an app that has left closes once it is not being drawn.
pub proof fn own_windows_close(w: MonitorWindow, events: Seq<AppDetachedEvent>, i: int)
    requires
        0 <= i < events.len(),
        concerns(w.owner_app_id, events[i].app_id),
    ensures
        destroyed((MonitorWindow { in_frame: false, ..after_events(w, events) })),
{
}

/// The windows and the failed tries after a series of tries.
pub open spec fn after_tries(
    windows: Seq<MonitorWindow>,
    outcomes: Seq<ReconnectOutcome>,
    kind: MonitorLifecycleKind,
    max_attempts: u32,
) -> (Seq<MonitorWindow>, u32)
    decreases outcomes.len(),
{
    if outcomes.len() == 0 {
        (windows, 0)
    } else {
        let (before, attempts) = after_tries(windows, outcomes.drop_last(), kind, max_attempts);
        reconnected(before, attempts, outcomes.last(), kind, max_attempts)
    }
}

/// The failures at the end of a series of tries.
pub open spec fn trailing_failures(outcomes: Seq<ReconnectOutcome>) -> nat
    decreases outcomes.len(),
{
    if outcomes.len() == 0 || outcomes.last() == ReconnectOutcome::Success {
        0
    } else {
        1 + trailing_failures(outcomes.drop_last())
    }
}

/// Windows that were open before a series of tries are to be closed after it
/// exactly where the monitor decides for itself and the last tries, as many as it
/// may make, have all failed.
pub proof fn only_lasting_failure_closes_windows(
    windows: Seq<MonitorWindow>,
    outcomes: Seq<ReconnectOutcome>,
    kind: MonitorLifecycleKind,
    max_attempts: u32,
)
    requires
        outcomes.len() < u32::MAX,
        max_attempts > 0,
        forall|i: int| 0 <= i < windows.len() ==> !(#[trigger] windows[i]).pending_close,
    ensures
        ({
            let (after, attempts) = after_tries(windows, outcomes, kind, max_attempts);
            let lost = kind == MonitorLifecycleKind::Standalone && trailing_failures(outcomes)
                >= max_attempts;
            &&& after == all_marked(windows, lost)
            &&& attempts == trailing_failures(outcomes)
            &&& attempts <= outcomes.len()
        }),
    decreases outcomes.len(),
{
    if outcomes.len() == 0 {
        assert(all_marked(windows, false) =~= windows);
    } else {
        only_lasting_failure_closes_windows(windows, outcomes.drop_last(), kind, max_attempts);
        let (before, attempts) = after_tries(windows, outcomes.drop_last(), kind, max_attempts);
        assert(all_marked(before, false) =~= all_marked(windows, false));
        assert(all_marked(before, true) =~= all_marked(windows, true));
    }
}

} // verus!
