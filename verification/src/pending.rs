//! The monitors that apps asked for and that have not all registered yet.
//!
//! A request is answered once: when all its monitors have registered, when the
//! time for it is over, or when none could be launched. An app that leaves takes
//! its requests with it.

use std::collections::HashMap;
use vstd::prelude::*;

verus! {

/// How long the monitors of a request have to register, in milliseconds.
pub const MONITOR_START_TIMEOUT_MS: u64 = 5_000;

/// A request that waits for its monitors.
#[derive(Debug)]
pub struct PendingMonitorStart {
    pub requested_count: u32,
    /// The monitors that have registered, in that order.
    pub monitor_ids: Vec<u32>,
}

/// A request that waits for its monitors, as a mathematical value.
#[verifier::ext_equal]
pub struct PendingView {
    pub requested: u32,
    pub monitors: Seq<u32>,
}

impl View for PendingMonitorStart {
    type V = PendingView;

    open spec fn view(&self) -> PendingView {
        PendingView { requested: self.requested_count, monitors: self.monitor_ids@ }
    }
}

/// One number for an app and its number for a request.
pub open spec fn start_key(app_id: u32, request_id: u32) -> u64 {
    (app_id * 0x1_0000_0000 + request_id) as u64
}

/// The app of such a number.
pub open spec fn key_app(key: u64) -> u32 {
    (key / 0x1_0000_0000) as u32
}

/// Such a number tells the app and the request apart.
pub proof fn keys_differ(app_id: u32, request_id: u32, other_app: u32, other_request: u32)
    ensures
        start_key(app_id, request_id) == start_key(other_app, other_request) <==> app_id
            == other_app && request_id == other_request,
        key_app(start_key(app_id, request_id)) == app_id,
{
}

fn key_of(app_id: u32, request_id: u32) -> (key: u64)
    ensures
        key == start_key(app_id, request_id),
{
    app_id as u64 * 0x1_0000_0000 + request_id as u64
}

/// All requests that wait for their monitors.
#[derive(Debug)]
pub struct PendingStarts {
    entries: HashMap<u64, PendingMonitorStart>,
}

/// The requests as mathematical values.
pub open spec fn pending_views(entries: Map<u64, PendingMonitorStart>) -> Map<u64, PendingView> {
    entries.map_values(|e: PendingMonitorStart| e@)
}

impl View for PendingStarts {
    type V = Map<u64, PendingView>;

    closed spec fn view(&self) -> Map<u64, PendingView> {
        pending_views(self.entries@)
    }
}

/// Every request still waits for a monitor.
pub open spec fn all_wait(pending: Map<u64, PendingView>) -> bool {
    forall|k: u64| #[trigger]
        pending.contains_key(k) ==> pending[k].monitors.len() < pending[k].requested
}

/// What is known of a request once one of its monitors has registered: what waits
/// then, and the monitors where it is complete.
pub open spec fn completing(pending: Map<u64, PendingView>, key: u64, monitor_id: u32) -> (
    Map<u64, PendingView>,
    Option<Seq<u32>>,
) {
    if pending.contains_key(key) {
        let monitors = pending[key].monitors.push(monitor_id);
        if monitors.len() >= pending[key].requested {
            (pending.remove(key), Some(monitors))
        } else {
            (pending.insert(key, PendingView { monitors, ..pending[key] }), None)
        }
    } else {
        (pending, None)
    }
}

/// What came of launching the monitors of a request.
#[derive(Debug)]
pub enum LaunchOutcome {
    /// None could be launched: the request has failed.
    Failed,
    /// All that could be launched have registered already.
    Completed(Vec<u32>),
    /// Some have still to register.
    Waiting,
}

/// What came of launching the monitors of a request, as a mathematical value.
pub enum LaunchView {
    Failed,
    Completed(Seq<u32>),
    Waiting,
}

impl View for LaunchOutcome {
    type V = LaunchView;

    open spec fn view(&self) -> LaunchView {
        match self {
            LaunchOutcome::Failed => LaunchView::Failed,
            LaunchOutcome::Completed(ids) => LaunchView::Completed(ids@),
            LaunchOutcome::Waiting => LaunchView::Waiting,
        }
    }
}

/// What waits once `started` of the `count` monitors of a request were launched,
/// and what came of it. Monitors may have registered in the meantime.
pub open spec fn launching(pending: Map<u64, PendingView>, key: u64, started: u32, count: u32) -> (
    Map<u64, PendingView>,
    LaunchView,
) {
    if started == 0 {
        (pending.remove(key), LaunchView::Failed)
    } else if started < count && pending.contains_key(key) {
        if pending[key].monitors.len() >= started {
            (pending.remove(key), LaunchView::Completed(pending[key].monitors))
        } else {
            (
                pending.insert(key, PendingView { requested: started, ..pending[key] }),
                LaunchView::Waiting,
            )
        }
    } else {
        (pending, LaunchView::Waiting)
    }
}

/// What an answer of the table says, as a mathematical value.
pub open spec fn answered(ids: Option<Vec<u32>>) -> Option<Seq<u32>> {
    match ids {
        Some(v) => Some(v@),
        None => None,
    }
}

impl PendingStarts {
    /// No request waits.
    pub fn new() -> (r: Self)
        ensures
            r@ == Map::<u64, PendingView>::empty(),
    {
        let r = PendingStarts { entries: HashMap::new() };
        assert(r@ =~= Map::empty());
        r
    }

    /// Enters a request for `count` monitors.
    pub fn insert(&mut self, app_id: u32, request_id: u32, count: u32)
        requires
            count > 0,
        ensures
            final(self)@ == old(self)@.insert(
                start_key(app_id, request_id),
                PendingView { requested: count, monitors: seq![] },
            ),
            all_wait(old(self)@) ==> all_wait(final(self)@),
    {
        let ghost before = self@;
        let key: u64 = key_of(app_id, request_id);
        let entry = PendingMonitorStart { requested_count: count, monitor_ids: Vec::new() };
        assert(entry@ =~= PendingView { requested: count, monitors: seq![] });
        self.entries.insert(key, entry);
        assert(self@ =~= before.insert(key, PendingView { requested: count, monitors: seq![] }));
    }

    /// Enters that a monitor of a request has registered. Gives the request's
    /// monitors where it was the last.
    pub fn complete_pending_monitor_start(
        &mut self,
        request_id: u32,
        app_id: u32,
        monitor_id: u32,
    ) -> (r: Option<Vec<u32>>)
        requires
            all_wait(old(self)@),
        ensures
            (final(self)@, answered(r)) == completing(
                old(self)@,
                start_key(app_id, request_id),
                monitor_id,
            ),
            all_wait(final(self)@),
    {
        let ghost before = self@;
        let key: u64 = key_of(app_id, request_id);
        match self.entries.remove(&key) {
            None => {
                assert(self@ =~= before);
                None
            },
            Some(mut entry) => {
                let ghost was = entry@;
                assert(before.contains_key(key) && before[key] == was);
                entry.monitor_ids.push(monitor_id);
                if entry.monitor_ids.len() as u64 >= entry.requested_count as u64 {
                    assert(self@ =~= before.remove(key));
                    Some(entry.monitor_ids)
                } else {
                    let ghost now = entry@;
                    assert(now =~= PendingView { monitors: was.monitors.push(monitor_id), ..was });
                    self.entries.insert(key, entry);
                    assert(self@ =~= before.insert(key, now));
                    None
                }
            },
        }
    }

    /// Enters how many monitors of a request could be launched.
    pub fn launched(&mut self, app_id: u32, request_id: u32, started: u32, count: u32) -> (r:
        LaunchOutcome)
        requires
            all_wait(old(self)@),
        ensures
            (final(self)@, r@) == launching(
                old(self)@,
                start_key(app_id, request_id),
                started,
                count,
            ),
            all_wait(final(self)@),
    {
        let ghost before = self@;
        let key: u64 = key_of(app_id, request_id);
        if started == 0 {
            let _ = self.entries.remove(&key);
            assert(self@ =~= before.remove(key));
            return LaunchOutcome::Failed;
        }
        if started >= count {
            return LaunchOutcome::Waiting;
        }
        match self.entries.remove(&key) {
            None => {
                assert(self@ =~= before);
                LaunchOutcome::Waiting
            },
            Some(mut entry) => {
                let ghost was = entry@;
                assert(before.contains_key(key) && before[key] == was);
                if entry.monitor_ids.len() as u64 >= started as u64 {
                    assert(self@ =~= before.remove(key));
                    LaunchOutcome::Completed(entry.monitor_ids)
                } else {
                    entry.requested_count = started;
                    let ghost now = entry@;
                    assert(now =~= PendingView { requested: started, ..was });
                    self.entries.insert(key, entry);
                    assert(self@ =~= before.insert(key, now));
                    LaunchOutcome::Waiting
                }
            },
        }
    }

    /// Takes out a request whose time is over. Gives the monitors that registered,
    /// where it still waited.
    pub fn time_out(&mut self, app_id: u32, request_id: u32) -> (r: Option<Vec<u32>>)
        ensures
            final(self)@ == old(self)@.remove(start_key(app_id, request_id)),
            answered(r) == (if old(self)@.contains_key(start_key(app_id, request_id)) {
                Some(old(self)@[start_key(app_id, request_id)].monitors)
            } else {
                None
            }),
            all_wait(old(self)@) ==> all_wait(final(self)@),
    {
        let ghost before = self@;
        let key: u64 = key_of(app_id, request_id);
        let taken = self.entries.remove(&key);
        assert(self@ =~= before.remove(key));
        match taken {
            Some(entry) => {
                assert(before[key] == entry@);
                Some(entry.monitor_ids)
            },
            None => None,
        }
    }

    /// Takes out the requests of an app.
    pub fn cancel_pending_monitor_starts_for_app(&mut self, app_id: u32)
        ensures
            final(self)@ == without_requests_of(old(self)@, app_id),
            all_wait(old(self)@) ==> all_wait(final(self)@),
    {
        let ghost before = self@;
        let keys = all_keys(&self.entries);
        let mut i: usize = 0;
        while i < keys.len()
            invariant
                i <= keys@.len(),
                forall|k: u64| #[trigger] keys@.contains(k) <==> before.contains_key(k),
                forall|k: u64| #[trigger]
                    self@.contains_key(k) <==> before.contains_key(k) && !(key_app(k) == app_id
                        && keys@.take(i as int).contains(k)),
                forall|k: u64| #[trigger] self@.contains_key(k) ==> self@[k] == before[k],
            decreases keys@.len() - i,
        {
            let key: u64 = keys[i];
            let ghost earlier = self@;
            proof {
                assert forall|k: u64| keys@.take(i + 1).contains(k) <==> #[trigger] keys@.take(
                    i as int,
                ).contains(k) || k == key by {
                    let now = keys@.take(i + 1);
                    let was = keys@.take(i as int);
                    assert(now =~= was.push(key));
                    if was.contains(k) {
                        let j = choose|j: int| 0 <= j < was.len() && was[j] == k;
                        assert(now[j] == k);
                    }
                    if k == key {
                        assert(now[i as int] == k);
                    }
                    if now.contains(k) && k != key {
                        let j = choose|j: int| 0 <= j < now.len() && now[j] == k;
                        assert(was[j] == k);
                    }
                }
            }
            if (key / 0x1_0000_0000) as u32 == app_id {
                let _ = self.entries.remove(&key);
                assert(self@ =~= earlier.remove(key));
            }
            proof {
                assert forall|k: u64| #[trigger]
                    self@.contains_key(k) <==> before.contains_key(k) && !(key_app(k) == app_id
                        && keys@.take(i + 1).contains(k)) by {
                    assert(earlier.contains_key(k) <==> before.contains_key(k) && !(key_app(k)
                        == app_id && keys@.take(i as int).contains(k)));
                    assert(keys@.take(i as int).contains(k) || !keys@.take(i as int).contains(k));
                }
                assert forall|k: u64| #[trigger] self@.contains_key(k) implies self@[k]
                    == before[k] by {
                    assert(earlier.contains_key(k));
                }
            }
            i = i + 1;
        }
        proof {
            assert(keys@.take(i as int) =~= keys@);
            assert forall|k: u64| #[trigger] self@.contains_key(k) <==> without_requests_of(
                before,
                app_id,
            ).contains_key(k) by {
                assert(keys@.contains(k) <==> before.contains_key(k));
            }
            assert(self@ =~= without_requests_of(before, app_id));
        }
    }
}

/// The requests of other apps.
pub open spec fn without_requests_of(pending: Map<u64, PendingView>, app_id: u32) -> Map<
    u64,
    PendingView,
> {
    pending.restrict(pending.dom().filter(|k: u64| key_app(k) != app_id))
}

fn all_keys(entries: &HashMap<u64, PendingMonitorStart>) -> (keys: Vec<u64>)
    ensures
        forall|k: u64| #[trigger] keys@.contains(k) <==> entries@.contains_key(k),
{
    let mut keys: Vec<u64> = Vec::new();
    let ghost all: Seq<u64> = vstd::std_specs::iter::IteratorSpec::remaining(
        &entries.keys(),
    ).unref();
    for key in iter: entries.keys()
        invariant
            iter.seq().unref() == all,
            keys@ == all.take(iter.index()),
    {
        keys.push(*key);
        assert(all.take(iter.index() + 1) =~= all.take(iter.index()).push(*key));
    }
    proof {
        assert(all.take(all.len() as int) =~= all);
        assert forall|k: u64| #[trigger] keys@.contains(k) <==> entries@.contains_key(k) by {
            assert(all.to_set().contains(k) <==> all.contains(k));
        }
    }
    keys
}

/// A request that was answered does not wait any more, so that neither a monitor
/// that registers later nor the end of its time answers it again.
pub proof fn requests_are_answered_once(
    pending: Map<u64, PendingView>,
    key: u64,
    monitor_id: u32,
    later: u32,
)
    requires
        completing(pending, key, monitor_id).1 is Some,
    ensures
        ({
            let after = completing(pending, key, monitor_id).0;
            &&& !after.contains_key(key)
            &&& completing(after, key, later) == (after, None::<Seq<u32>>)
        }),
{
}

/// A launch that fails or completes a request is its only answer.
pub proof fn launches_answer_once(
    pending: Map<u64, PendingView>,
    key: u64,
    started: u32,
    count: u32,
    later: u32,
)
    requires
        !(launching(pending, key, started, count).1 is Waiting),
    ensures
        ({
            let after = launching(pending, key, started, count).0;
            &&& !after.contains_key(key)
            &&& completing(after, key, later) == (after, None::<Seq<u32>>)
        }),
{
}

/// A request is answered with exactly as many monitors as it was for.
pub proof fn answers_are_complete(pending: Map<u64, PendingView>, key: u64, monitor_id: u32)
    requires
        all_wait(pending),
        completing(pending, key, monitor_id).1 is Some,
    ensures
        completing(pending, key, monitor_id).1->0.len() == pending[key].requested,
        completing(pending, key, monitor_id).1->0.last() == monitor_id,
{
}

/// What happens to one request changes no other.
pub proof fn requests_are_independent(
    pending: Map<u64, PendingView>,
    key: u64,
    other: u64,
    monitor_id: u32,
    started: u32,
    count: u32,
)
    requires
        key != other,
    ensures
        completing(pending, key, monitor_id).0.contains_key(other) == pending.contains_key(other),
        pending.contains_key(other) ==> completing(pending, key, monitor_id).0[other]
            == pending[other],
        launching(pending, key, started, count).0.contains_key(other) == pending.contains_key(other),
        pending.contains_key(other) ==> launching(pending, key, started, count).0[other]
            == pending[other],
{
}

/// An app that leaves takes its requests with it, and no other's.
pub proof fn leaving_cancels_own_requests(
    pending: Map<u64, PendingView>,
    app_id: u32,
    request_id: u32,
    other: u32,
)
    requires
        other != app_id,
    ensures
        ({
            let after = without_requests_of(pending, app_id);
            let kept = start_key(other, request_id);
            &&& !after.contains_key(start_key(app_id, request_id))
            &&& after.contains_key(kept) == pending.contains_key(kept)
            &&& pending.contains_key(kept) ==> after[kept] == pending[kept]
        }),
{
    keys_differ(app_id, request_id, other, request_id);
    keys_differ(other, request_id, app_id, request_id);
}

} // verus!
