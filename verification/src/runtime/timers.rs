use vstd::prelude::*;
use std::collections::{HashMap, HashSet};

verus! {

broadcast use vstd::std_specs::hash::group_hash_axioms;

/// The timers a scheduler handle still considers active.
pub struct TimerBook {
    active: HashSet<u64>,
}

impl TimerBook {
    pub closed spec fn view_active(&self) -> Set<u64> {
        self.active@
    }

    pub fn new() -> (b: Self)
        ensures
            b.view_active() == Set::<u64>::empty(),
    {
        TimerBook { active: HashSet::new() }
    }

    /// Records a newly created timer.
    pub fn insert(&mut self, timer_id: u64)
        ensures
            final(self).view_active() == old(self).view_active().insert(timer_id),
    {
        self.active.insert(timer_id);
    }

    /// Forgets a timer; `true` when it was active, in which case the worker must be told.
    pub fn cancel(&mut self, timer_id: u64) -> (existed: bool)
        ensures
            existed == old(self).view_active().contains(timer_id),
            final(self).view_active() == old(self).view_active().remove(timer_id),
    {
        self.active.remove(&timer_id)
    }

    /// Forgets a timer that completed.
    pub fn reap(&mut self, timer_id: u64)
        ensures
            final(self).view_active() == old(self).view_active().remove(timer_id),
    {
        let _ = self.active.remove(&timer_id);
    }

    /// Forgets every timer; `true` when there were any, in which case the worker must be told.
    pub fn clear(&mut self) -> (had_timers: bool)
        ensures
            had_timers == !old(self).view_active().is_empty(),
            final(self).view_active() == Set::<u64>::empty(),
    {
        if self.active.is_empty() {
            proof {
                assert(self.active@ =~= Set::<u64>::empty());
            }
            return false;
        }
        self.active.clear();
        true
    }

    pub fn len(&self) -> (n: usize)
        ensures
            n == self.view_active().len(),
    {
        self.active.len()
    }

    pub fn contains(&self, timer_id: u64) -> (r: bool)
        ensures
            r == self.view_active().contains(timer_id),
    {
        self.active.contains(&timer_id)
    }
}

/// Cancelling a timer twice: the second cancel finds nothing and sends nothing.
pub proof fn lemma_cancel_is_reported_once(active: Set<u64>, timer_id: u64)
    ensures
        !active.remove(timer_id).contains(timer_id),
        active.remove(timer_id).remove(timer_id) == active.remove(timer_id),
{
    assert(active.remove(timer_id).remove(timer_id) =~= active.remove(timer_id));
}

/// Where a timer stands in the queue: by deadline, then by id.
#[derive(Clone, Copy, Debug, PartialEq, Eq, Structural)]
pub struct DeadlineKey {
    pub deadline: u64,
    pub timer_id: u64,
}

/// `a` fires strictly before `b`.
pub open spec fn key_lt(a: DeadlineKey, b: DeadlineKey) -> bool {
    a.deadline < b.deadline || (a.deadline == b.deadline && a.timer_id < b.timer_id)
}

pub open spec fn key_le(a: DeadlineKey, b: DeadlineKey) -> bool {
    key_lt(a, b) || a == b
}

fn key_less(a: DeadlineKey, b: DeadlineKey) -> (r: bool)
    ensures
        r == key_lt(a, b),
{
    a.deadline < b.deadline || (a.deadline == b.deadline && a.timer_id < b.timer_id)
}

/// The queue order: every key is no earlier than the keys after it, so the earliest is last.
pub open spec fn sorted_desc(q: Seq<DeadlineKey>) -> bool {
    forall|i: int, j: int| 0 <= i < j < q.len() ==> key_le(#[trigger] q[j], #[trigger] q[i])
}

proof fn lemma_sorted_at(q: Seq<DeadlineKey>, i: int, j: int)
    requires
        sorted_desc(q),
        0 <= i <= j < q.len(),
    ensures
        key_le(q[j], q[i]),
{
    if i < j {
        assert(key_le(q[j], q[i]));
    }
}

/// A scheduled timer: when it fires next and, for repeating timers, how often.
#[derive(Clone, Copy, Debug, PartialEq, Eq, Structural)]
pub struct TimerSlot {
    pub deadline: u64,
    pub interval: Option<u64>,
}

/// What the scheduler's worker is told.
#[derive(Clone, Copy, Debug, PartialEq, Eq, Structural)]
pub enum TimerCommand {
    Schedule { timer_id: u64, deadline: u64, interval: Option<u64> },
    Cancel { timer_id: u64 },
    Clear,
    Shutdown,
}

/// Whether a firing delivers a one-shot message (and completes the timer) or a repeat.
#[derive(Clone, Copy, Debug, PartialEq, Eq, Structural)]
pub enum FiringKind {
    Once,
    Repeat,
}

#[derive(Clone, Copy, Debug, PartialEq, Eq, Structural)]
pub struct TimerFiring {
    pub timer_id: u64,
    pub kind: FiringKind,
}

/// The next deadline of a repeating timer: the first `previous + k * interval` (k >= 1) that
/// lies after `now`.
pub open spec fn spec_advance_deadline(previous: int, interval: int, now: int) -> int {
    if previous > now {
        previous + interval
    } else {
        previous + ((now - previous) / interval + 1) * interval
    }
}

/// The advanced deadline lies after `now` and at most one interval later.
pub proof fn lemma_advance_deadline_bounds(previous: int, interval: int, now: int)
    requires
        interval > 0,
        previous <= now,
    ensures
        now < spec_advance_deadline(previous, interval, now) <= now + interval,
{
    let q = (now - previous) / interval;
    let r = (now - previous) % interval;
    vstd::arithmetic::div_mod::lemma_fundamental_div_mod(now - previous, interval);
    vstd::arithmetic::div_mod::lemma_mod_bound(now - previous, interval);
    assert(previous + (q + 1) * interval == previous + q * interval + interval) by (nonlinear_arith);
}

pub fn advance_deadline(previous_deadline: u64, interval: u64, now: u64) -> (next: u64)
    requires
        interval > 0,
        now + interval <= u64::MAX,
        previous_deadline <= now || previous_deadline + interval <= u64::MAX,
    ensures
        next == spec_advance_deadline(previous_deadline as int, interval as int, now as int),
        next > now,
        previous_deadline <= now ==> next <= now + interval,
{
    if previous_deadline > now {
        return previous_deadline + interval;
    }
    let mut next_deadline = previous_deadline + interval;
    let ghost mut k: int = 1;
    while next_deadline <= now
        invariant
            interval > 0,
            previous_deadline <= now,
            now + interval <= u64::MAX,
            k >= 1,
            next_deadline == previous_deadline + k * interval,
            previous_deadline + (k - 1) * interval <= now,
        decreases now - next_deadline + interval,
    {
        next_deadline = next_deadline + interval;
        proof {
            k = k + 1;
            assert(previous_deadline + k * interval == previous_deadline + (k - 1) * interval
                + interval) by (nonlinear_arith);
        }
    }
    proof {
        let p = previous_deadline as int;
        let i = interval as int;
        let n = now as int;
        assert((n - p) / i == k - 1) by (nonlinear_arith)
            requires
                i > 0,
                p + (k - 1) * i <= n,
                n < p + k * i,
                k >= 1,
        {
            vstd::arithmetic::div_mod::lemma_fundamental_div_mod(n - p, i);
            assert(0 <= (n - p) % i < i) by {
                vstd::arithmetic::div_mod::lemma_mod_bound(n - p, i);
            }
        }
        assert(next_deadline == p + ((n - p) / i + 1) * i) by (nonlinear_arith)
            requires
                next_deadline == p + k * i,
                (n - p) / i == k - 1,
        ;
        assert(next_deadline <= n + i) by (nonlinear_arith)
            requires
                next_deadline == p + k * i,
                p + (k - 1) * i <= n,
        ;
    }
    next_deadline
}


/// The scheduler worker's table: the timers that are scheduled, and a queue of deadline keys
/// kept sorted with the earliest key last. The queue may hold stale keys of timers that were
/// cancelled or moved on; they are dropped when they reach the front.
pub struct TimerTable {
    entries: HashMap<u64, TimerSlot>,
    queue: Vec<DeadlineKey>,
}

impl TimerTable {
    pub closed spec fn view_entries(&self) -> Map<u64, TimerSlot> {
        self.entries@
    }

    pub closed spec fn view_queue(&self) -> Seq<DeadlineKey> {
        self.queue@
    }

    /// A key is live when it names a scheduled timer at its current deadline.
    pub open spec fn live(&self, k: DeadlineKey) -> bool {
        &&& self.view_entries().contains_key(k.timer_id)
        &&& self.view_entries()[k.timer_id].deadline == k.deadline
    }

    /// The queue is sorted (earliest last), every scheduled timer has its live key queued, and
    /// repeating timers have a positive interval.
    pub open spec fn wf(&self) -> bool {
        &&& sorted_desc(self.view_queue())
        &&& forall|id: u64|
            #[trigger] self.view_entries().contains_key(id) ==> self.view_queue().contains(
                DeadlineKey { deadline: self.view_entries()[id].deadline, timer_id: id },
            )
        &&& forall|id: u64|
            #[trigger] self.view_entries().contains_key(id) ==> (self.view_entries()[id].interval
                matches Some(i) ==> i > 0)
    }

    pub fn new() -> (t: Self)
        ensures
            t.wf(),
            t.view_entries() == Map::<u64, TimerSlot>::empty(),
            t.view_queue() == Seq::<DeadlineKey>::empty(),
    {
        TimerTable { entries: HashMap::new(), queue: Vec::new() }
    }

    /// Applies a command; `false` means the worker should stop.
    pub fn apply_command(&mut self, command: TimerCommand) -> (keep_running: bool)
        requires
            old(self).wf(),
            command matches TimerCommand::Schedule { interval: Some(i), .. } ==> i > 0,
        ensures
            final(self).wf(),
            keep_running == !(command is Shutdown),
            match command {
                TimerCommand::Schedule { timer_id, deadline, interval } => {
                    &&& final(self).view_entries() == old(self).view_entries().insert(
                        timer_id,
                        TimerSlot { deadline, interval },
                    )
                    &&& forall|k: DeadlineKey|
                        #[trigger] final(self).view_queue().contains(k) <==> (old(
                            self,
                        ).view_queue().contains(k) || k == (DeadlineKey { deadline, timer_id }))
                },
                TimerCommand::Cancel { timer_id } => {
                    &&& final(self).view_entries() == old(self).view_entries().remove(timer_id)
                    &&& final(self).view_queue() == old(self).view_queue()
                },
                TimerCommand::Clear => {
                    &&& final(self).view_entries() == Map::<u64, TimerSlot>::empty()
                    &&& final(self).view_queue() == Seq::<DeadlineKey>::empty()
                },
                TimerCommand::Shutdown => {
                    &&& final(self).view_entries() == old(self).view_entries()
                    &&& final(self).view_queue() == old(self).view_queue()
                },
            },
    {
        match command {
            TimerCommand::Schedule { timer_id, deadline, interval } => {
                self.entries.insert(timer_id, TimerSlot { deadline, interval });
                let key = DeadlineKey { deadline, timer_id };
                self.enqueue(key, Ghost(timer_id));
                true
            },
            TimerCommand::Cancel { timer_id } => {
                let _ = self.entries.remove(&timer_id);
                true
            },
            TimerCommand::Clear => {
                self.entries.clear();
                self.queue.clear();
                true
            },
            TimerCommand::Shutdown => false,
        }
    }

    /// Queues the key of a timer whose entry was just (re)placed.
    fn enqueue(&mut self, key: DeadlineKey, Ghost(id): Ghost<u64>)
        requires
            key.timer_id == id,
            old(self).view_entries().contains_key(id),
            old(self).view_entries()[id].deadline == key.deadline,
            old(self).view_entries()[id].interval matches Some(i) ==> i > 0,
            sorted_desc(old(self).view_queue()),
            forall|other: u64|
                #[trigger] old(self).view_entries().contains_key(other) && other != id ==> old(
                    self,
                ).view_queue().contains(
                    DeadlineKey { deadline: old(self).view_entries()[other].deadline, timer_id: other },
                ) && (old(self).view_entries()[other].interval matches Some(i) ==> i > 0),
        ensures
            final(self).view_entries() == old(self).view_entries(),
            final(self).wf(),
            forall|k: DeadlineKey|
                #[trigger] final(self).view_queue().contains(k) <==> (old(self).view_queue().contains(k)
                    || k == key),
            final(self).view_queue().len() == old(self).view_queue().len() + 1,
    {
        let n = self.queue.len();
        let mut pos: usize = 0;
        while pos < n && !key_less(self.queue[pos], key)
            invariant
                n == self.queue.len(),
                self.queue@ == old(self).queue@,
                self.entries@ == old(self).entries@,
                pos <= n,
                forall|i: int| 0 <= i < pos ==> !key_lt(#[trigger] self.queue@[i], key),
            decreases n - pos,
        {
            pos = pos + 1;
        }
        let ghost q0 = self.queue@;
        self.queue.insert(pos, key);
        proof {
            let q1 = self.queue@;
            assert(q1 == q0.insert(pos as int, key));
            assert(sorted_desc(q0));
            assert forall|i: int, j: int| 0 <= i < j < q1.len() implies key_le(
                #[trigger] q1[j],
                #[trigger] q1[i],
            ) by {
                if j < pos {
                    lemma_sorted_at(q0, i, j);
                } else if j == pos {
                    if i < pos {
                        assert(!key_lt(q0[i], key));
                    }
                } else if i < pos {
                    assert(!key_lt(q0[i], key));
                    if pos < n {
                        assert(key_lt(q0[pos as int], key));
                        lemma_sorted_at(q0, pos as int, j - 1);
                    }
                    lemma_sorted_at(q0, i, j - 1);
                } else if i == pos {
                    if pos < n {
                        assert(key_lt(q0[pos as int], key));
                        lemma_sorted_at(q0, pos as int, j - 1);
                    }
                } else {
                    lemma_sorted_at(q0, i - 1, j - 1);
                }
            }
            assert(sorted_desc(q1));
            assert forall|k: DeadlineKey| #[trigger] q1.contains(k) <==> (q0.contains(k) || k
                == key) by {
                if q1.contains(k) {
                    let i = choose|i: int| 0 <= i < q1.len() && q1[i] == k;
                    if i < pos {
                        assert(q0[i] == k);
                    } else if i > pos {
                        assert(q0[i - 1] == k);
                    }
                }
                if q0.contains(k) {
                    let i = choose|i: int| 0 <= i < q0.len() && q0[i] == k;
                    if i < pos {
                        assert(q1[i] == k);
                    } else {
                        assert(q1[i + 1] == k);
                    }
                }
                if k == key {
                    assert(q1[pos as int] == k);
                }
            }
        }
    }

    /// Drops stale keys from the front of the queue until its earliest key is live or it is
    /// empty.
    pub fn prune_stale(&mut self)
        requires
            old(self).wf(),
        ensures
            final(self).wf(),
            final(self).view_entries() == old(self).view_entries(),
            final(self).view_queue().len() <= old(self).view_queue().len(),
            final(self).view_queue() == old(self).view_queue().take(
                final(self).view_queue().len() as int,
            ),
            forall|i: int|
                final(self).view_queue().len() <= i < old(self).view_queue().len() ==> !old(
                    self,
                ).live(#[trigger] old(self).view_queue()[i]),
            final(self).view_queue().len() > 0 ==> final(self).live(
                final(self).view_queue().last(),
            ),
    {
        loop
            invariant
                self.entries@ == old(self).entries@,
                old(self).wf(),
                self.queue@.len() <= old(self).queue@.len(),
                self.queue@ == old(self).queue@.take(self.queue@.len() as int),
                forall|i: int|
                    self.queue@.len() <= i < old(self).queue@.len() ==> !old(self).live(
                        #[trigger] old(self).queue@[i],
                    ),
            ensures
                self.entries@ == old(self).entries@,
                self.queue@.len() <= old(self).queue@.len(),
                self.queue@ == old(self).queue@.take(self.queue@.len() as int),
                forall|i: int|
                    self.queue@.len() <= i < old(self).queue@.len() ==> !old(self).live(
                        #[trigger] old(self).queue@[i],
                    ),
                self.queue@.len() > 0 ==> self.live(self.queue@.last()),
            decreases self.queue@.len(),
        {
            let n = self.queue.len();
            if n == 0 {
                break;
            }
            let next = self.queue[n - 1];
            let is_live = match self.entries.get(&next.timer_id) {
                Some(slot) => slot.deadline == next.deadline,
                None => false,
            };
            if is_live {
                break;
            }
            let _ = self.queue.pop();
            proof {
                assert(self.queue@ =~= old(self).queue@.take(self.queue@.len() as int));
            }
        }
        proof {
            let q0 = old(self).queue@;
            let q1 = self.queue@;
            assert(sorted_desc(q0));
            assert forall|i: int, j: int| 0 <= i < j < q1.len() implies key_le(
                #[trigger] q1[j],
                #[trigger] q1[i],
            ) by {
                lemma_sorted_at(q0, i, j);
            }
            assert forall|id: u64| #[trigger] self.entries@.contains_key(id) implies q1.contains(
                DeadlineKey { deadline: self.entries@[id].deadline, timer_id: id },
            ) by {
                let k = DeadlineKey { deadline: self.entries@[id].deadline, timer_id: id };
                assert(q0.contains(k));
                let i = choose|i: int| 0 <= i < q0.len() && q0[i] == k;
                assert(old(self).live(k));
                assert(i < q1.len());
                assert(q1[i] == k);
            }
        }
    }

    /// How long the worker may sleep: the time from `now` until the earliest scheduled
    /// deadline (zero when it has passed), or `None` when nothing is scheduled.
    pub fn next_timeout(&mut self, now: u64) -> (timeout: Option<u64>)
        requires
            old(self).wf(),
        ensures
            final(self).wf(),
            final(self).view_entries() == old(self).view_entries(),
            timeout is None <==> old(self).view_entries().dom() == Set::<u64>::empty(),
            timeout matches Some(t) ==> exists|id: u64|
                {
                    &&& #[trigger] old(self).view_entries().contains_key(id)
                    &&& t == (if old(self).view_entries()[id].deadline > now {
                        old(self).view_entries()[id].deadline - now
                    } else {
                        0
                    })
                    &&& forall|other: u64|
                        #[trigger] old(self).view_entries().contains_key(other) ==> old(
                            self,
                        ).view_entries()[id].deadline <= old(self).view_entries()[other].deadline
                },
    {
        self.prune_stale();
        let n = self.queue.len();
        if n == 0 {
            proof {
                assert forall|id: u64| !#[trigger] self.entries@.contains_key(id) by {
                    if self.entries@.contains_key(id) {
                        assert(self.queue@.contains(
                            DeadlineKey { deadline: self.entries@[id].deadline, timer_id: id },
                        ));
                    }
                }
                assert(self.entries@.dom() =~= Set::<u64>::empty());
            }
            return None;
        }
        let next = self.queue[n - 1];
        proof {
            let q = self.queue@;
            let id = next.timer_id;
            assert(self.entries@.contains_key(id));
            assert(self.entries@.dom().contains(id));
            assert forall|other: u64| #[trigger] self.entries@.contains_key(other) implies self.entries@[id].deadline
                <= self.entries@[other].deadline by {
                let k = DeadlineKey { deadline: self.entries@[other].deadline, timer_id: other };
                assert(q.contains(k));
                let i = choose|i: int| 0 <= i < q.len() && q[i] == k;
                lemma_sorted_at(q, i, q.len() - 1);
            }
        }
        if next.deadline > now {
            Some(next.deadline - now)
        } else {
            Some(0)
        }
    }

    /// Fires every timer whose deadline has come, earliest key first: a one-shot timer fires
    /// and is removed, a repeating timer fires and moves to its next deadline after `now`.
    /// Timers that are not due are left as they are.
    pub fn dispatch_due(&mut self, now: u64) -> (fired: Vec<TimerFiring>)
        requires
            old(self).wf(),
            forall|id: u64|
                #[trigger] old(self).view_entries().contains_key(id) ==> (old(
                    self,
                ).view_entries()[id].interval matches Some(i) ==> now + i <= u64::MAX),
        ensures
            final(self).wf(),
            forall|k: int|
                0 <= k < fired@.len() ==> due_in(old(self).view_entries(), #[trigger] fired@[k].timer_id, now)
                    && fired@[k].kind == kind_for(old(self).view_entries()[fired@[k].timer_id]),
            forall|a: int, b: int|
                0 <= a < b < fired@.len() ==> key_lt(
                    key_in(old(self).view_entries(), #[trigger] fired@[a].timer_id),
                    key_in(old(self).view_entries(), #[trigger] fired@[b].timer_id),
                ),
            forall|id: u64|
                #[trigger] due_in(old(self).view_entries(), id, now) ==> fired_has(fired@, id),
            forall|id: u64|
                !due_in(old(self).view_entries(), id, now) ==> (#[trigger] final(self).view_entries().contains_key(id)
                    == old(self).view_entries().contains_key(id) && (old(self).view_entries().contains_key(id)
                    ==> final(self).view_entries()[id] == old(self).view_entries()[id])),
            forall|id: u64|
                #[trigger] due_in(old(self).view_entries(), id, now) ==> slot_after(
                    old(self).view_entries()[id],
                    now,
                ) == (if final(self).view_entries().contains_key(id) {
                    Some(final(self).view_entries()[id])
                } else {
                    None
                }),
    {
        let ghost e0 = self.entries@;
        proof {
            assert(e0.dom().finite());
        }
        let mut fired: Vec<TimerFiring> = Vec::new();
        loop
            invariant_except_break
                forall|id: u64|
                    #[trigger] due_in(e0, id, now) && !fired_has(fired@, id) ==> self.entries@.contains_key(id)
                        && self.entries@[id] == e0[id],
            invariant
                self.wf(),
                e0 == old(self).entries@,
                e0.dom().finite(),
                forall|id: u64|
                    #[trigger] e0.contains_key(id) ==> (e0[id].interval matches Some(i) ==> now + i
                        <= u64::MAX),
                forall|id: u64|
                    !due_in(e0, id, now) ==> (#[trigger] self.entries@.contains_key(id)
                        == e0.contains_key(id) && (e0.contains_key(id) ==> self.entries@[id]
                        == e0[id])),
                forall|id: u64|
                    #[trigger] due_in(e0, id, now) && fired_has(fired@, id) ==> slot_after(e0[id], now)
                        == (if self.entries@.contains_key(id) {
                        Some(self.entries@[id])
                    } else {
                        None
                    }),
                forall|k: int|
                    0 <= k < fired@.len() ==> due_in(e0, #[trigger] fired@[k].timer_id, now)
                        && fired@[k].kind == kind_for(e0[fired@[k].timer_id]),
                forall|a: int, b: int|
                    0 <= a < b < fired@.len() ==> key_lt(
                        key_in(e0, #[trigger] fired@[a].timer_id),
                        key_in(e0, #[trigger] fired@[b].timer_id),
                    ),
                forall|k: int, id: u64|
                    0 <= k < fired@.len() && due_in(e0, id, now) && !fired_has(fired@, id) ==> key_lt(
                        key_in(e0, #[trigger] fired@[k].timer_id),
                        #[trigger] key_in(e0, id),
                    ),
                fired@.len() <= e0.dom().len(),
            ensures
                self.wf(),
                forall|id: u64|
                    !due_in(e0, id, now) ==> (#[trigger] self.entries@.contains_key(id)
                        == e0.contains_key(id) && (e0.contains_key(id) ==> self.entries@[id]
                        == e0[id])),
                forall|id: u64|
                    #[trigger] due_in(e0, id, now) && fired_has(fired@, id) ==> slot_after(e0[id], now)
                        == (if self.entries@.contains_key(id) {
                        Some(self.entries@[id])
                    } else {
                        None
                    }),
                forall|k: int|
                    0 <= k < fired@.len() ==> due_in(e0, #[trigger] fired@[k].timer_id, now)
                        && fired@[k].kind == kind_for(e0[fired@[k].timer_id]),
                forall|a: int, b: int|
                    0 <= a < b < fired@.len() ==> key_lt(
                        key_in(e0, #[trigger] fired@[a].timer_id),
                        key_in(e0, #[trigger] fired@[b].timer_id),
                    ),
                forall|id: u64| #[trigger] due_in(e0, id, now) ==> fired_has(fired@, id),
            decreases (e0.dom().len() - fired@.len()) + self.queue@.len(),
        {
            self.prune_stale();
            let n = self.queue.len();
            if n > 0 {
                proof {
                    lemma_front_is_earliest(self.entries@, self.queue@);
                }
            }
            if n == 0 || self.queue[n - 1].deadline > now {
                proof {
                    assert forall|id: u64| #[trigger] due_in(e0, id, now) implies fired_has(
                        fired@,
                        id,
                    ) by {
                        if !fired_has(fired@, id) {
                            assert(self.entries@.contains_key(id));
                            assert(self.queue@.contains(key_in(self.entries@, id)));
                        }
                    }
                }
                break;
            }
            let next = self.queue[n - 1];
            let id = next.timer_id;
            proof {
                assert(self.live(next));
                assert(self.entries@.contains_key(id));
                assert(self.entries@[id].deadline == next.deadline);
            }
            let slot = match self.entries.get(&id) {
                Some(slot) => *slot,
                None => {
                    proof {
                        assert(false);
                    }
                    break;
                },
            };
            proof {
                assert(slot == self.entries@[id]);
                if !due_in(e0, id, now) {
                    assert(self.entries@.contains_key(id) == e0.contains_key(id));
                    assert(self.entries@[id] == e0[id]);
                    assert(false);
                }
                if fired_has(fired@, id) {
                    if let Some(i) = e0[id].interval {
                        lemma_advance_deadline_bounds(e0[id].deadline as int, i as int, now as int);
                    }
                    assert(false);
                }
                assert(slot == e0[id]);
                assert(next == key_in(e0, id));
            }
            let ghost q_before = self.queue@;
            let ghost f_before = fired@;
            let _ = self.queue.pop();
            proof {
                assert(self.queue@ =~= q_before.take(q_before.len() - 1));
                assert forall|other: u64| #[trigger] self.entries@.contains_key(other) && other != id
                    implies self.queue@.contains(key_in(self.entries@, other)) by {
                    let k = key_in(self.entries@, other);
                    assert(q_before.contains(k));
                    let i = choose|i: int| 0 <= i < q_before.len() && q_before[i] == k;
                    assert(i != q_before.len() - 1);
                    assert(self.queue@[i] == k);
                }
                assert(sorted_desc(q_before));
                assert forall|i: int, j: int| 0 <= i < j < self.queue@.len() implies key_le(
                    #[trigger] self.queue@[j],
                    #[trigger] self.queue@[i],
                ) by {
                    lemma_sorted_at(q_before, i, j);
                }
            }
            match slot.interval {
                None => {
                    let _ = self.entries.remove(&id);
                    fired.push(TimerFiring { timer_id: id, kind: FiringKind::Once });
                },
                Some(interval) => {
                    let deadline = advance_deadline(slot.deadline, interval, now);
                    self.entries.insert(id, TimerSlot { deadline, interval: Some(interval) });
                    self.enqueue(DeadlineKey { deadline, timer_id: id }, Ghost(id));
                    fired.push(TimerFiring { timer_id: id, kind: FiringKind::Repeat });
                },
            }
            proof {
                let f = fired@;
                assert(f.len() == f_before.len() + 1);
                assert(f[f.len() - 1].timer_id == id);
                assert forall|x: u64| #[trigger] fired_has(f, x) <==> (fired_has(f_before, x) || x
                    == id) by {
                    if fired_has(f, x) {
                        let k = choose|k: int| 0 <= k < f.len() && f[k].timer_id == x;
                        if k < f_before.len() {
                            assert(f_before[k].timer_id == x);
                        }
                    }
                    if fired_has(f_before, x) {
                        let k = choose|k: int| 0 <= k < f_before.len() && f_before[k].timer_id == x;
                        assert(f[k].timer_id == x);
                    }
                    if x == id {
                        assert(f[f.len() - 1].timer_id == x);
                    }
                }
                assert forall|other: u64|
                    0 <= 0 && due_in(e0, other, now) && !fired_has(f, other) implies key_lt(
                    next,
                    #[trigger] key_in(e0, other),
                ) by {
                    assert(self.entries@.contains_key(other) || !self.entries@.contains_key(other));
                    assert(key_le(next, key_in(e0, other)));
                }
                assert forall|k: int, other: u64|
                    0 <= k < f.len() && due_in(e0, other, now) && !fired_has(f, other) implies key_lt(
                    key_in(e0, #[trigger] f[k].timer_id),
                    #[trigger] key_in(e0, other),
                ) by {
                    if k == f.len() - 1 {
                        assert(key_le(next, key_in(e0, other)));
                    } else {
                        assert(f[k] == f_before[k]);
                    }
                }
                lemma_distinct_ids_bounded(f, e0);
            }
        }
        fired
    }
}

/// The timer is scheduled and its deadline has come.
pub open spec fn due_in(entries: Map<u64, TimerSlot>, id: u64, now: u64) -> bool {
    entries.contains_key(id) && entries[id].deadline <= now
}

/// The queue key of a scheduled timer.
pub open spec fn key_in(entries: Map<u64, TimerSlot>, id: u64) -> DeadlineKey {
    DeadlineKey { deadline: entries[id].deadline, timer_id: id }
}

/// How a scheduled timer fires.
pub open spec fn kind_for(slot: TimerSlot) -> FiringKind {
    match slot.interval {
        None => FiringKind::Once,
        Some(_) => FiringKind::Repeat,
    }
}

/// What remains of a timer after it fired at `now`.
pub open spec fn slot_after(slot: TimerSlot, now: u64) -> Option<TimerSlot> {
    match slot.interval {
        None => None,
        Some(i) => Some(
            TimerSlot {
                deadline: spec_advance_deadline(slot.deadline as int, i as int, now as int) as u64,
                interval: Some(i),
            },
        ),
    }
}

/// Some firing names the timer.
pub open spec fn fired_has(fired: Seq<TimerFiring>, id: u64) -> bool {
    exists|k: int| 0 <= k < fired.len() && #[trigger] fired[k].timer_id == id
}

/// In a well-formed table the key at the front of the queue is no later than any scheduled
/// timer's key.
proof fn lemma_front_is_earliest(e: Map<u64, TimerSlot>, q: Seq<DeadlineKey>)
    requires
        sorted_desc(q),
        q.len() > 0,
        forall|id: u64| #[trigger] e.contains_key(id) ==> q.contains(key_in(e, id)),
    ensures
        forall|id: u64| #[trigger] e.contains_key(id) ==> key_le(q.last(), key_in(e, id)),
{
    assert forall|id: u64| #[trigger] e.contains_key(id) implies key_le(q.last(), key_in(e, id)) by {
        let k = key_in(e, id);
        assert(q.contains(k));
        let i = choose|i: int| 0 <= i < q.len() && q[i] == k;
        lemma_sorted_at(q, i, q.len() - 1);
    }
}

proof fn lemma_distinct_ids_bounded(f: Seq<TimerFiring>, e: Map<u64, TimerSlot>)
    requires
        e.dom().finite(),
        forall|k: int| 0 <= k < f.len() ==> #[trigger] e.contains_key(f[k].timer_id),
        forall|a: int, b: int|
            0 <= a < b < f.len() ==> key_lt(
                key_in(e, #[trigger] f[a].timer_id),
                key_in(e, #[trigger] f[b].timer_id),
            ),
    ensures
        f.len() <= e.dom().len(),
{
    let ids = f.map_values(|x: TimerFiring| x.timer_id);
    assert forall|a: int, b: int| 0 <= a < ids.len() && 0 <= b < ids.len() && a != b implies ids[a]
        != ids[b] by {
        if a < b {
            assert(key_lt(key_in(e, f[a].timer_id), key_in(e, f[b].timer_id)));
        } else {
            assert(key_lt(key_in(e, f[b].timer_id), key_in(e, f[a].timer_id)));
        }
    }
    assert(ids.no_duplicates());
    ids.unique_seq_to_set();
    assert forall|x: u64| ids.to_set().contains(x) implies e.dom().contains(x) by {
        let k = choose|k: int| 0 <= k < ids.len() && ids[k] == x;
        assert(e.contains_key(f[k].timer_id));
    }
    vstd::set_lib::lemma_len_subset(ids.to_set(), e.dom());
}

} // verus!
