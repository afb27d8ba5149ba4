//! What the host is told about buffers, frames, regions and connections.

use bytes::BytesMut;
use std::collections::VecDeque;
use vstd::prelude::*;

use crate::buffer;
use crate::compositor::{CompositorMetrics, TickReport};
use crate::durations;
use crate::frame;
use crate::frame::Bgra;
use crate::grid;
use crate::grid::GridCell;
use crate::present;
use crate::present::{AcquireOutcome, AcquireStep, PresentOutcome};
use crate::proto;
use crate::proto::CanvasMeta;
use crate::shmem;
use crate::shmem::{CommandSliceError, RingbufferHeader, SharedMemory};
use crate::singleton;
use crate::singleton::{
    BecomeOutcome, MonitorWindowSnapshot, OsPipeState, ResponseView, SingletonFrameError,
    SingletonRequest, SingletonResponse, SingletonState, TryBecomeErr,
};
use crate::text;

verus! {

/// A wait that a completion broke off is repeated once the queue is empty. One
/// that ran out has no buffer, and one that failed has failed. Any other names the
/// buffer that became free, where there is one of that number.
pub proof fn waits_name_the_free_buffer(
    code: u32,
    events: usize,
    step: AcquireStep,
    retry: AcquireOutcome,
)
    requires
        call_ensures(present::after_wait, (code, events), step),
        call_ensures(present::after_retry, (code, events), retry),
    ensures
        code == 0xC0 ==> step is DrainAndRetry,
        code == 0x102 ==> step == AcquireStep::Done(AcquireOutcome::TimedOut),
        code == 0xFFFF_FFFF ==> step == AcquireStep::Done(AcquireOutcome::Failed),
        code != 0xC0 && code != 0x102 && code != 0xFFFF_FFFF && code < events ==> step
            == AcquireStep::Done(AcquireOutcome::Acquired(code as usize)),
        code != 0xC0 && code != 0x102 && code != 0xFFFF_FFFF && code >= events ==> step
            == AcquireStep::Done(AcquireOutcome::TimedOut),
        code < events ==> retry == AcquireOutcome::Acquired(code as usize),
        code >= events ==> retry is TimedOut,
{
}

/// A frame paints on the buffer that was acquired, where there is one of that
/// number. A surface's first frame may take the first buffer where all are in use.
pub proof fn acquired_buffers_are_painted_on(
    outcome: AcquireOutcome,
    buffers: usize,
    first: Option<usize>,
    next: Option<usize>,
)
    requires
        call_ensures(present::initial_buffer, (outcome,), first),
        call_ensures(frame::acquired_buffer, (outcome, buffers), next),
    ensures
        outcome matches AcquireOutcome::Acquired(i) ==> first == Some(i),
        outcome is TimedOut ==> first == Some(0usize),
        outcome is Failed ==> first is None,
        outcome matches AcquireOutcome::Acquired(i) ==> i < buffers ==> next == Some(i),
        outcome matches AcquireOutcome::Acquired(i) ==> i >= buffers ==> next is None,
        !(outcome is Acquired) ==> next is None,
{
}

/// A present without an error succeeded. The device is lost just where it was
/// removed, hangs or was reset; after any other error the next frame may be
/// presented.
pub proof fn lost_devices_are_told_apart(error: Option<u32>, r: PresentOutcome)
    requires
        call_ensures(present::classify_present, (error,), r),
    ensures
        error is None <==> r is Success,
        r is DeviceLost <==> error == Some(0x887A_0005u32) || error == Some(0x887A_0006u32) || error
            == Some(0x887A_0007u32),
{
}

/// A monitor's surface has from one to four thousand and ninety-six pixels on a
/// side: its logical size where that lies between them, and the nearer of the two
/// otherwise.
pub proof fn monitor_surfaces_are_bounded(logical: u32, r: u32)
    requires
        call_ensures(present::per_monitor_dim, (logical,), r),
    ensures
        1 <= r <= 4096,
        1 <= logical <= 4096 ==> r == logical,
        logical == 0 ==> r == 1,
        logical > 4096 ==> r == 4096,
{
}

/// The total of no samples is zero, and each sample adds itself.
pub proof fn samples_add_up(samples: Seq<u64>, sample: u64)
    ensures
        durations::total(seq![]) == 0,
        durations::total(samples.push(sample)) == durations::total(samples) + sample,
        samples.len() > 0 ==> durations::average(samples) * samples.len() <= durations::total(samples),
        samples.len() > 0 ==> durations::total(samples) < (durations::average(samples) + 1)
            * samples.len(),
{
    assert(samples.push(sample).drop_last() =~= samples);
    if samples.len() > 0 {
        let t = durations::total(samples) as int;
        let n = samples.len() as int;
        vstd::arithmetic::div_mod::lemma_fundamental_div_mod(t, n);
        vstd::arithmetic::div_mod::lemma_mod_bound(t, n);
        let q = t / n;
        assert(q * n <= t < (q + 1) * n) by (nonlinear_arith)
            requires
                t == n * q + t % n,
                0 <= t % n < n,
        ;
    }
}

/// A window keeps the newest samples in their order: the new one last, and of the
/// older ones those that still fit.
pub proof fn windows_keep_the_newest(samples: Seq<u64>, sample: u64, window: nat, k: int)
    requires
        0 < window,
    ensures
        ({
            let kept = durations::rolled(samples, sample, window);
            &&& samples.len() < window ==> kept == samples.push(sample)
            &&& samples.len() >= window ==> kept.len() == window
            &&& kept.last() == sample
            &&& 0 < k < kept.len() ==> kept[kept.len() - 1 - k] == samples[samples.len() - k]
        }),
{
}

/// A frame's duration joins the last sixty. Their average is given back, with a
/// warning just where there are sixty and it is over eight milliseconds. A
/// composition's joins the last hundred and twenty, with a warning just where
/// there are so many and their average is nine whole milliseconds or more.
pub proof fn slow_frames_are_reported(
    frames: &mut VecDeque<u64>,
    pictures: &mut VecDeque<u64>,
    sample: u64,
    f: (u64, bool),
    p: (u64, bool),
)
    requires
        call_ensures(durations::record_render_duration, (frames, sample), f),
        call_ensures(durations::record_compositor_duration, (pictures, sample), p),
    ensures
        final(frames)@ == durations::rolled(old(frames)@, sample, 60),
        f.0 == durations::average(final(frames)@),
        f.1 <==> final(frames)@.len() == 60 && f.0 > 8_000_000,
        final(pictures)@ == durations::rolled(old(pictures)@, sample, 120),
        p.0 == durations::average(final(pictures)@),
        p.1 <==> final(pictures)@.len() == 120 && p.0 >= 9_000_000,
{
    assert(p.0 / 1_000_000 > 8 <==> p.0 >= 9_000_000);
}

/// A tick counts the scenes that it drew, and reports the count where the interval
/// is over and there is one; then it counts anew. A tick that drew something adds
/// its duration; it warns where the average is too high and no warning was given in
/// the last sixty such ticks.
pub proof fn ticks_are_counted(
    metrics: &mut CompositorMetrics,
    rendered: usize,
    nanos: u64,
    interval_over: bool,
    r: TickReport,
)
    requires
        call_ensures(CompositorMetrics::tick, (metrics, rendered, nanos, interval_over), r),
        old(metrics).rendered + rendered <= usize::MAX,
    ensures
        ({
            let count = old(metrics).rendered + rendered;
            let samples = durations::rolled(old(metrics).durations@, nanos, 120);
            let average = durations::average(samples);
            let cooling = old(metrics).warn_cooldown;
            &&& interval_over ==> final(metrics).rendered == 0
            &&& !interval_over ==> final(metrics).rendered == count && r.rendered is None
            &&& interval_over && count == 0 ==> r.rendered is None
            &&& interval_over && count > 0 ==> (r.rendered matches Some(n) && n == count)
            &&& rendered == 0 ==> r.slow_average is None && final(metrics).durations@ == old(
                metrics,
            ).durations@ && final(metrics).warn_cooldown == cooling
            &&& rendered > 0 ==> final(metrics).durations@ == samples
            &&& rendered > 0 ==> (r.slow_average is Some <==> samples.len() == 120 && average
                >= 9_000_000 && cooling == 0)
            &&& rendered > 0 && r.slow_average is Some ==> r.slow_average->0 == average
                && final(metrics).warn_cooldown == 60
            &&& rendered > 0 && r.slow_average is None && cooling > 0
                ==> final(metrics).warn_cooldown == cooling - 1
            &&& rendered > 0 && r.slow_average is None && cooling == 0
                ==> final(metrics).warn_cooldown == 0
        }),
{
    let average = durations::average(durations::rolled(old(metrics).durations@, nanos, 120));
    assert(average / 1_000_000 > 8 <==> average >= 9_000_000);
}

/// A region's header holds the write offset in its first four bytes, then the read
/// offset and the capacity, and the frame counter from the sixteenth byte on. No
/// other byte of the region changes.
pub proof fn headers_are_laid_out(h: RingbufferHeader, s: Seq<u8>, i: int)
    requires
        s.len() >= 24,
    ensures
        ({
            let w = h.written(s);
            &&& w.len() == s.len()
            &&& buffer::u32_at(w, 0) == h.write_offset
            &&& buffer::u32_at(w, 4) == h.read_offset
            &&& buffer::u32_at(w, 8) == h.capacity
            &&& buffer::u64_at(w, 16) == h.frame_counter
            &&& 12 <= i < 16 || 24 <= i < s.len() ==> w[i] == s[i]
        }),
{
    shmem::header_reads_back(h, s);
}

/// A region's header is read from where it is written, and a new region starts
/// behind its header, with its size as its capacity and no frame.
pub proof fn headers_are_read_where_they_lie(
    region: &SharedMemory<'_>,
    h: RingbufferHeader,
    size: usize,
    new: RingbufferHeader,
)
    requires
        region@.len() >= 24,
        call_ensures(SharedMemory::header, (region,), h),
        call_ensures(RingbufferHeader::initial, (size,), new),
    ensures
        h.write_offset == buffer::u32_at(region@, 0),
        h.read_offset == buffer::u32_at(region@, 4),
        h.capacity == buffer::u32_at(region@, 8),
        h.frame_counter == buffer::u64_at(region@, 16),
        new.write_offset == 24,
        new.read_offset == 24,
        size <= u32::MAX ==> new.capacity == size,
        new.frame_counter == 0,
{
}

/// A frame is read just where it lies behind the header, is not too long, and lies
/// within the region and within the capacity that the header gives, which lies
/// within the region itself. It is then the bytes from the offset on, so many as
/// the length says. Otherwise the first of these that fails is named.
pub proof fn frames_are_the_bytes_that_are_named(
    region: &SharedMemory<'_>,
    offset: u32,
    length: u32,
    max_len: usize,
    r: Result<&[u8], CommandSliceError>,
)
    requires
        region@.len() >= 24,
        region@.len() <= usize::MAX,
        call_ensures(SharedMemory::command_slice, (region, offset, length, max_len), r),
    ensures
        ({
            let size = region@.len();
            let capacity = buffer::u32_at(region@, 8);
            let end = offset + length;
            &&& r is Ok <==> 24 <= offset && length <= max_len && end <= size && capacity <= size
                && end <= capacity
            &&& r matches Ok(slice) ==> slice@ == region@.subrange(offset as int, end)
            &&& offset < 24 ==> (r matches Err(CommandSliceError::OverlapsHeader { offset: o }) && o
                == offset)
            &&& offset >= 24 && length > max_len ==> (r matches Err(
                CommandSliceError::TooLong { length: n, max_len: m },
            ) && n == length && m == max_len)
            &&& offset >= 24 && length <= max_len && end > usize::MAX ==> (r matches Err(e)
                && e is Overflow)
            &&& offset >= 24 && length <= max_len && size < end <= usize::MAX ==> (r matches Err(
                CommandSliceError::PastMapping { end: e, size: z },
            ) && e == end && z == size)
            &&& offset >= 24 && length <= max_len && end <= size && capacity > size ==> (
            r matches Err(CommandSliceError::CapacityPastMapping { capacity: c, size: z }) && c
                == capacity && z == size)
            &&& offset >= 24 && length <= max_len && end <= size && capacity <= size && end
                > capacity ==> (r matches Err(
                CommandSliceError::PastCapacity { end: e, capacity: c },
            ) && e == end && c == capacity)
        }),
{
}

/// What is said of a frame that cannot be read names the values that did not fit.
pub proof fn slice_errors_name_their_values(e: CommandSliceError, r: String)
    requires
        call_ensures(CommandSliceError::message, (&e,), r),
    ensures
        e matches CommandSliceError::OverlapsHeader { offset } ==> r@ == "command offset "@
            + text::decimal(offset as nat) + " overlaps ringbuffer header"@,
        e matches CommandSliceError::TooLong { length, max_len } ==> r@ == "command length "@
            + text::decimal(length as nat) + " exceeds max "@ + text::decimal(max_len as nat),
        e is Overflow ==> r@ == "command offset + length overflow"@,
        e matches CommandSliceError::PastMapping { end, size } ==> r@ == "command slice end "@
            + text::decimal(end as nat) + " exceeds mapping size "@ + text::decimal(size as nat),
        e matches CommandSliceError::CapacityPastMapping { capacity, size } ==> r@
            == "ringbuffer capacity "@ + text::decimal(capacity as nat) + " exceeds mapping size "@
            + text::decimal(size as nat),
        e matches CommandSliceError::PastCapacity { end, capacity } ==> r@ == "command slice end "@
            + text::decimal(end as nat) + " exceeds ringbuffer capacity "@ + text::decimal(
            capacity as nat,
        ),
{
}

/// A process's command region is named after the process, so two processes have
/// two names.
pub proof fn regions_are_named_after_processes(pid: u32, other: u32, r: String, s: String)
    requires
        call_ensures(shmem::command_region_name, (pid,), r),
        call_ensures(shmem::command_region_name, (other,), s),
    ensures
        r@ == "overlay-core-cmds-"@ + text::decimal(pid as nat),
        r@ == s@ <==> pid == other,
{
    let stem = "overlay-core-cmds-"@;
    assert(r@.skip(stem.len() as int) =~= text::decimal(pid as nat));
    assert(s@.skip(stem.len() as int) =~= text::decimal(other as nat));
    text::decimal_reads_back(pid as nat);
    text::decimal_reads_back(other as nat);
}

/// A canvas's description holds the handle in its first eight bytes, then the
/// logical width and height and the width and height in pixels, four bytes each.
pub proof fn descriptions_are_laid_out(meta: CanvasMeta, handle: u64)
    ensures
        ({
            let b = meta.payload(handle);
            &&& b.len() == 24
            &&& buffer::u64_at(b, 0) == handle
            &&& buffer::u32_at(b, 8) == meta.logical_w
            &&& buffer::u32_at(b, 12) == meta.logical_h
            &&& buffer::u32_at(b, 16) == meta.render_w
            &&& buffer::u32_at(b, 20) == meta.render_h
        }),
{
    proto::payloads_read_back(meta, handle);
}

/// A description is read from where it is written.
pub proof fn descriptions_are_read_where_they_lie(buf: [u8; 24], r: (u64, CanvasMeta))
    requires
        call_ensures(CanvasMeta::from_payload, (buf,), r),
    ensures
        r.0 == buffer::u64_at(buf@, 0),
        r.1.logical_w == buffer::u32_at(buf@, 8),
        r.1.logical_h == buffer::u32_at(buf@, 12),
        r.1.render_w == buffer::u32_at(buf@, 16),
        r.1.render_h == buffer::u32_at(buf@, 20),
{
}

/// A process's number is read from the first four bytes and a handle from the first
/// eight, least significant byte first, and what follows is left.
pub proof fn numbers_are_read_from_the_front(
    bytes: &[u8],
    pid: Option<(u32, &[u8])>,
    handle: Option<(u64, &[u8])>,
)
    requires
        call_ensures(proto::read_pid, (bytes,), pid),
        call_ensures(proto::read_handle_u64, (bytes,), handle),
    ensures
        pid is Some <==> bytes@.len() >= 4,
        pid matches Some((n, rest)) ==> n == bytes@[0] + 0x100 * bytes@[1] + 0x1_0000 * bytes@[2]
            + 0x100_0000 * bytes@[3] && rest@ == bytes@.skip(4),
        handle is Some <==> bytes@.len() >= 8,
        handle matches Some((n, rest)) ==> n == buffer::u64_at(bytes@, 0) && rest@ == bytes@.skip(8),
{
}

/// The sizes that are given on the command line are the logical width and height
/// and, where there are two more, those in pixels. A word that is no number stands
/// for the screen's size, or for the logical size where it is one in pixels. With
/// any other number of words all sizes are the screen's.
pub proof fn sizes_come_from_their_words(
    args: &[String],
    screen_w: u32,
    screen_h: u32,
    r: CanvasMeta,
)
    requires
        call_ensures(proto::parse_meta, (args, screen_w, screen_h), r),
    ensures
        args@.len() == 3 || args@.len() == 5 ==> {
            &&& text::u32_value(args@[1]@) matches Some(n) ==> r.logical_w == n
            &&& text::u32_value(args@[1]@) is None ==> r.logical_w == screen_w
            &&& text::u32_value(args@[2]@) matches Some(n) ==> r.logical_h == n
            &&& text::u32_value(args@[2]@) is None ==> r.logical_h == screen_h
        },
        args@.len() == 3 ==> r.render_w == r.logical_w && r.render_h == r.logical_h,
        args@.len() == 5 ==> {
            &&& text::u32_value(args@[3]@) matches Some(n) ==> r.render_w == n
            &&& text::u32_value(args@[3]@) is None ==> r.render_w == r.logical_w
            &&& text::u32_value(args@[4]@) matches Some(n) ==> r.render_h == n
            &&& text::u32_value(args@[4]@) is None ==> r.render_h == r.logical_h
        },
        args@.len() != 3 && args@.len() != 5 ==> {
            &&& r.logical_w == screen_w
            &&& r.logical_h == screen_h
            &&& r.render_w == screen_w
            &&& r.render_h == screen_h
        },
{
}

/// A start becomes the process that opens windows where no other listens, and
/// hands its window over where one does.
pub proof fn one_process_opens_windows(os: OsPipeState, r: Result<BecomeOutcome, TryBecomeErr>)
    requires
        call_ensures(singleton::try_become_singleton, (os,), r),
    ensures
        r == Ok::<BecomeOutcome, TryBecomeErr>(BecomeOutcome::MonitorProcess) <==> os is NoPipe
            || os is PipeExistsStale,
        r == Ok::<BecomeOutcome, TryBecomeErr>(BecomeOutcome::Launcher)
            <==> os is PipeExistsAcceptsInWindow,
        r is Err <==> os is Race,
{
}

/// A window that is asked for is entered for the canvas that was named, under an
/// identifier that is one more than any that is there, and that identifier is told
/// with the process's own number. The windows that were there stay.
pub proof fn asked_for_windows_are_entered(
    req: SingletonRequest,
    state: &mut SingletonState,
    r: SingletonResponse,
    i: int,
)
    requires
        call_ensures(singleton::handle_singleton_request, (req, state), r),
    ensures
        ({
            let before = old(state).registered_windows@;
            let after = final(state).registered_windows@;
            &&& r matches SingletonResponse::Ack { pid, new_monitor_id }
            &&& pid == old(state).monitor_process_pid
            &&& final(state).monitor_process_pid == old(state).monitor_process_pid
            &&& after.len() == before.len() + 1
            &&& after.last().monitor_id == new_monitor_id
            &&& after.last().target_canvas_id == req->target_canvas_id
            &&& 0 <= i < before.len() ==> after[i] == before[i]
            &&& 0 <= i < before.len() ==> before[i].monitor_id < new_monitor_id || new_monitor_id
                == u32::MAX
            &&& before.len() == 0 ==> new_monitor_id == 1
            &&& 1 < new_monitor_id < u32::MAX ==> exists|k: int|
                0 <= k < before.len() && (#[trigger] before[k]).monitor_id + 1 == new_monitor_id
        }),
{
    let before = old(state).registered_windows@;
    if 0 <= i < before.len() {
        singleton::new_windows_are_new(before, i);
    }
    top_is_some_window(before);
}

/// The largest identifier is that of some window, or zero.
proof fn top_is_some_window(windows: Seq<MonitorWindowSnapshot>)
    ensures
        singleton::top_id(windows) == 0 || exists|k: int|
            0 <= k < windows.len() && (#[trigger] windows[k]).monitor_id == singleton::top_id(
                windows,
            ),
    decreases windows.len(),
{
    if windows.len() > 0 {
        let before = windows.drop_last();
        top_is_some_window(before);
        if windows.last().monitor_id > singleton::top_id(before) {
            assert(windows[windows.len() - 1].monitor_id == singleton::top_id(windows));
        } else if singleton::top_id(before) != 0 {
            let k = choose|k: int|
                0 <= k < before.len() && (#[trigger] before[k]).monitor_id == singleton::top_id(
                    before,
                );
            assert(windows[k].monitor_id == singleton::top_id(windows));
        }
    }
}

/// A request for a window is a frame of ten bytes: two for what it is, four for the
/// length of what follows, and four for the canvas.
pub proof fn window_requests_are_laid_out(req: SingletonRequest)
    ensures
        ({
            let f = singleton::request_frame(req);
            &&& f.len() == 10
            &&& buffer::u16_at(f, 0) == 0x0101
            &&& buffer::u32_at(f, 2) == 4
            &&& buffer::u32_at(f, 6) == req->target_canvas_id
        }),
{
    let f = singleton::request_frame(req);
    singleton::requests_read_back(req, seq![]);
    assert(f + seq![] =~= f);
}

/// An answer is a frame too. One that a window was opened holds the process and the
/// window's identifier, four bytes each; one that it was not holds two bytes for
/// the reason and then the text.
pub proof fn window_answers_are_laid_out(resp: ResponseView)
    requires
        singleton::response_payload(resp).len() <= u32::MAX,
    ensures
        ({
            let f = singleton::response_frame(resp);
            &&& f.len() == 6 + buffer::u32_at(f, 2)
            &&& resp matches ResponseView::Ack { pid, new_monitor_id } ==> {
                &&& buffer::u16_at(f, 0) == 0x0201
                &&& buffer::u32_at(f, 2) == 8
                &&& buffer::u32_at(f, 6) == pid
                &&& buffer::u32_at(f, 10) == new_monitor_id
            }
            &&& resp matches ResponseView::Nack { reason, message } ==> {
                &&& buffer::u16_at(f, 0) == 0x0202
                &&& buffer::u16_at(f, 6) == reason
                &&& f.skip(8) == vstd::utf8::encode_utf8(message)
            }
        }),
{
    let f = singleton::response_frame(resp);
    let payload = singleton::response_payload(resp);
    singleton::responses_read_back(resp, seq![]);
    assert(f + seq![] =~= f);
    buffer::le32_reads_back(payload.len() as u32);
    match resp {
        ResponseView::Ack { .. } => {},
        ResponseView::Nack { message, .. } => {
            assert(f.skip(8) =~= vstd::utf8::encode_utf8(message));
        },
    }
}

/// The launcher says to which process it handed its window.
pub proof fn launchers_name_the_process(pid: u32, r: String)
    requires
        call_ensures(singleton::launcher_log_line, (pid,), r),
    ensures
        r@ == "forwarded open-window request to existing monitor-process (pid "@ + text::decimal(
            pid as nat,
        ) + "), exiting"@,
{
}

/// The test picture is opaque. Where the bars cross it is white; the crossbar is
/// green and the upright bar red; under both lie the thick lines, grey, and under
/// those the thin ones, which brighten the ground by twenty-four as far as that
/// goes. The ground itself has the red and green that it is given.
pub proof fn the_test_picture_has_a_cross(c: GridCell, r: Bgra)
    requires
        call_ensures(grid::grid_colour, (c,), r),
    ensures
        r.a == 255,
        c.upright && c.crossbar ==> r.r == 255 && r.g == 255 && r.b == 255,
        c.crossbar && !c.upright ==> r.g == 255 && r.r == 48 && r.b == 48,
        c.upright && !c.crossbar ==> r.r == 255 && r.g == 48 && r.b == 48,
        !c.upright && !c.crossbar && c.major ==> r.r == 190 && r.g == 190 && r.b == 190,
        !c.upright && !c.crossbar && !c.major && c.minor ==> {
            &&& c.r <= 231 ==> r.r == c.r + 24
            &&& c.r > 231 ==> r.r == 255
            &&& c.g <= 231 ==> r.g == c.g + 24
            &&& c.g > 231 ==> r.g == 255
            &&& r.b == 69
        },
        !c.upright && !c.crossbar && !c.major && !c.minor ==> r.r == c.r && r.g == c.g && r.b == 45,
{
}

/// A region is the bytes that it was made from, and a header is written into it at
/// its places.
pub proof fn regions_are_their_bytes(
    bytes: &[u8],
    region: SharedMemory<'_>,
    data: &[u8],
    h: RingbufferHeader,
    s: &mut [u8],
)
    requires
        bytes@.len() >= 24,
        call_ensures(SharedMemory::new, (bytes,), region),
        call_ensures(SharedMemory::data, (&region,), data),
        call_ensures(RingbufferHeader::write, (&h, s), ()),
        old(s)@.len() >= 24,
    ensures
        region@ == bytes@,
        data@ == bytes@,
        final(s)@.len() == old(s)@.len(),
        buffer::u32_at(final(s)@, 0) == h.write_offset,
        buffer::u32_at(final(s)@, 4) == h.read_offset,
        buffer::u32_at(final(s)@, 8) == h.capacity,
        buffer::u64_at(final(s)@, 16) == h.frame_counter,
        final(s)@.skip(24) == old(s)@.skip(24),
{
    headers_are_laid_out(h, old(s)@, 0);
    shmem::headers_leave_the_commands_alone(h, old(s)@);
}

/// A process's number and a handle go behind what is there, and are read back from
/// there; a description is written at its places.
pub proof fn numbers_go_behind_what_is_there(
    w: &mut Vec<u8>,
    pid: u32,
    v: &mut Vec<u8>,
    handle: u64,
    meta: CanvasMeta,
    payload: [u8; 24],
)
    requires
        call_ensures(proto::write_pid, (w, pid), ()),
        call_ensures(proto::write_handle_u64, (v, handle), ()),
        call_ensures(CanvasMeta::to_payload, (meta, handle), payload),
    ensures
        final(w)@.len() == old(w)@.len() + 4,
        final(w)@.take(old(w)@.len() as int) == old(w)@,
        buffer::u32_at(final(w)@, old(w)@.len() as int) == pid,
        final(v)@.len() == old(v)@.len() + 8,
        final(v)@.take(old(v)@.len() as int) == old(v)@,
        buffer::u64_at(final(v)@, old(v)@.len() as int) == handle,
        buffer::u64_at(payload@, 0) == handle,
        buffer::u32_at(payload@, 8) == meta.logical_w,
        buffer::u32_at(payload@, 12) == meta.logical_h,
        buffer::u32_at(payload@, 16) == meta.render_w,
        buffer::u32_at(payload@, 20) == meta.render_h,
{
    buffer::le32_reads_back(pid);
    buffer::le64_reads_back(handle);
    descriptions_are_laid_out(meta, handle);
    assert(final(w)@.take(old(w)@.len() as int) =~= old(w)@);
    assert(final(v)@.take(old(v)@.len() as int) =~= old(v)@);
    let n = old(v)@.len() as int;
    assert forall|i: int| 0 <= i < 8 implies #[trigger] buffer::le64(handle)[i] == final(v)@[n
        + i] by {}
    assert(buffer::u64_at(final(v)@, n) == buffer::u64_at(buffer::le64(handle), 0));
}

/// A request for a window that was put behind nothing is read back as what it was,
/// and so is an answer.
pub proof fn window_messages_are_read_back(
    req: SingletonRequest,
    out: &mut BytesMut,
    input: &mut BytesMut,
    got: Result<SingletonRequest, SingletonFrameError>,
    resp: SingletonResponse,
    answer: &mut BytesMut,
    reply: &mut BytesMut,
    told: Result<SingletonResponse, SingletonFrameError>,
)
    requires
        call_ensures(singleton::encode_request, (req, out), ()),
        buffer::buffered(*old(out)).len() == 0,
        call_ensures(singleton::decode_request, (input,), got),
        buffer::buffered(*old(input)) == buffer::buffered(*final(out)),
        call_ensures(singleton::encode_response, (&resp, answer), ()),
        buffer::buffered(*old(answer)).len() == 0,
        singleton::response_payload(resp@).len() <= u32::MAX - 6,
        singleton::response_payload(resp@).len() + 6 <= isize::MAX,
        call_ensures(singleton::decode_response, (reply,), told),
        buffer::buffered(*old(reply)) == buffer::buffered(*final(answer)),
    ensures
        got == Ok::<SingletonRequest, SingletonFrameError>(req),
        buffer::buffered(*final(input)).len() == 0,
        told matches Ok(t) && t@ == resp@,
        resp matches SingletonResponse::Ack { pid, new_monitor_id } ==> (told matches Ok(
            SingletonResponse::Ack { pid: p, new_monitor_id: m },
        ) && p == pid && m == new_monitor_id),
        resp matches SingletonResponse::Nack { reason, message } ==> (told matches Ok(
            SingletonResponse::Nack { reason: w, message: t },
        ) && w == reason && t@ == message@),
{
    let f = singleton::request_frame(req);
    let a = singleton::response_frame(resp@);
    assert(buffer::buffered(*final(out)) =~= f + seq![]);
    assert(buffer::buffered(*final(answer)) =~= a + seq![]);
    singleton::requests_read_back(req, seq![]);
    singleton::responses_read_back(resp@, seq![]);
}

} // verus!
