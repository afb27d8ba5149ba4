//! What the system's answers mean when a buffer is acquired or presented, and how
//! large surfaces are.

use vstd::prelude::*;

verus! {

/// Full access to a composition object.
pub const COMPOSITIONOBJECT_ALL_ACCESS: u32 = 0x0003;

/// The buffers that a target rotates between.
pub const BUFFER_COUNT: usize = 3;

/// How long a frame waits for a free buffer: not at all. A frame that finds none
/// is dropped, so that no backlog builds up.
pub const ACQUIRE_TIMEOUT_MS: u32 = 0;

/// The largest width and height of a monitor's own surface.
pub const PER_MONITOR_MAX_DIM: u32 = 4096;

/// The smallest width and height of a monitor's own surface.
pub const PER_MONITOR_MIN_DIM: u32 = 1;

/// A wait ended because an asynchronous call came in.
pub const WAIT_IO_COMPLETION: u32 = 0xC0;

/// A wait ended because its time was over.
pub const WAIT_TIMEOUT: u32 = 258;

/// A wait failed.
pub const WAIT_FAILED: u32 = 0xFFFF_FFFF;

/// The device was removed.
pub const DEVICE_REMOVED: u32 = 0x887A_0005;

/// The device does not answer.
pub const DEVICE_HUNG: u32 = 0x887A_0006;

/// The device was reset.
pub const DEVICE_RESET: u32 = 0x887A_0007;

/// What came of acquiring a buffer.
#[derive(Debug, Clone, Copy, PartialEq, Eq, Structural)]
pub enum AcquireOutcome {
    /// The buffer with this index is free to be painted on.
    Acquired(usize),
    /// All buffers are in use.
    TimedOut,
    /// The system could not wait for a buffer.
    Failed,
}

/// What came of presenting a buffer.
#[derive(Debug, Clone, Copy, PartialEq, Eq, Structural)]
pub enum PresentOutcome {
    Success,
    /// This frame is lost; the next one may be presented.
    RetryNextTick,
    /// The target has to be created anew.
    DeviceLost,
}

/// What to do after the first wait for a buffer.
#[derive(Debug, Clone, Copy, PartialEq, Eq, Structural)]
pub enum AcquireStep {
    Done(AcquireOutcome),
    /// Take the presentation statistics off the queue and ask once more, without
    /// waiting.
    DrainAndRetry,
}

/// The buffer whose event a wait on `events` of them reported.
pub open spec fn signaled(code: u32, events: usize) -> AcquireOutcome {
    if code < events {
        AcquireOutcome::Acquired(code as usize)
    } else {
        AcquireOutcome::TimedOut
    }
}

/// What the first wait means.
pub open spec fn wait_step(code: u32, events: usize) -> AcquireStep {
    if code == WAIT_IO_COMPLETION {
        AcquireStep::DrainAndRetry
    } else if code == WAIT_TIMEOUT {
        AcquireStep::Done(AcquireOutcome::TimedOut)
    } else if code == WAIT_FAILED {
        AcquireStep::Done(AcquireOutcome::Failed)
    } else {
        AcquireStep::Done(signaled(code, events))
    }
}

/// What a wait on the events of a target's buffers means: `code` is the wait's
/// answer.
pub fn after_wait(code: u32, events: usize) -> (r: AcquireStep)
    ensures
        r == wait_step(code, events),
{
    if code == WAIT_IO_COMPLETION {
        AcquireStep::DrainAndRetry
    } else if code == WAIT_TIMEOUT {
        AcquireStep::Done(AcquireOutcome::TimedOut)
    } else if code == WAIT_FAILED {
        AcquireStep::Done(AcquireOutcome::Failed)
    } else {
        AcquireStep::Done(after_retry(code, events))
    }
}

/// What the second wait means.
pub fn after_retry(code: u32, events: usize) -> (r: AcquireOutcome)
    ensures
        r == signaled(code, events),
{
    if (code as usize) < events {
        AcquireOutcome::Acquired(code as usize)
    } else {
        AcquireOutcome::TimedOut
    }
}

/// A buffer that is acquired is one of the target's, whatever the waits answered.
pub proof fn acquired_buffers_exist(code: u32, retry: u32, events: usize)
    ensures
        wait_step(code, events) matches AcquireStep::Done(AcquireOutcome::Acquired(i)) ==> i < events,
        signaled(retry, events) matches AcquireOutcome::Acquired(i) ==> i < events,
{
}

/// The buffer that a fresh target is cleared on: the first one where the system
/// names none. `None` where it could not be asked.
pub fn initial_buffer(outcome: AcquireOutcome) -> (r: Option<usize>)
    ensures
        r == (match outcome {
            AcquireOutcome::Acquired(i) => Some(i),
            AcquireOutcome::TimedOut => Some(0usize),
            AcquireOutcome::Failed => None::<usize>,
        }),
{
    match outcome {
        AcquireOutcome::Acquired(i) => Some(i),
        AcquireOutcome::TimedOut => Some(0),
        AcquireOutcome::Failed => None,
    }
}

/// What presenting a buffer came to: `error` is the system's code where it failed.
pub fn classify_present(error: Option<u32>) -> (r: PresentOutcome)
    ensures
        r == (match error {
            None => PresentOutcome::Success,
            Some(code) => if code == DEVICE_REMOVED || code == DEVICE_HUNG || code == DEVICE_RESET {
                PresentOutcome::DeviceLost
            } else {
                PresentOutcome::RetryNextTick
            },
        }),
{
    match error {
        None => PresentOutcome::Success,
        Some(code) => if code == DEVICE_REMOVED || code == DEVICE_RESET || code == DEVICE_HUNG {
            PresentOutcome::DeviceLost
        } else {
            PresentOutcome::RetryNextTick
        },
    }
}

/// The width or height in pixels of a monitor's own surface.
pub open spec fn monitor_dim(logical: u32) -> u32 {
    if logical < 1 {
        1
    } else if logical > 4096 {
        4096
    } else {
        logical
    }
}

/// The width or height in pixels of a monitor's own surface, from the monitor's in
/// logical units.
pub fn per_monitor_dim(logical: u32) -> (r: u32)
    ensures
        r == monitor_dim(logical),
{
    if logical < PER_MONITOR_MIN_DIM {
        PER_MONITOR_MIN_DIM
    } else if logical > PER_MONITOR_MAX_DIM {
        PER_MONITOR_MAX_DIM
    } else {
        logical
    }
}

} // verus!
