//! The table of calls awaiting a reply. Each call is registered under a
//! fresh correlation id with its deadline, and leaves the table on the first
//! event that resolves it: a reply, its timer, or its cancellation.

use vstd::prelude::*;
use std::collections::HashMap;

verus! {

broadcast use vstd::std_specs::hash::group_hash_axioms;

/// How a pending call was resolved.
#[derive(Clone, Copy, Debug, PartialEq, Eq, Structural)]
pub enum Resolution {
    /// A reply arrived before the deadline and goes to the caller.
    Replied,
    /// The deadline passed first; the caller gets a timeout.
    TimedOut,
    /// The caller went away; nothing is delivered.
    Cancelled,
}

/// Something that happens to a correlation id, at a time in seconds.
#[derive(Clone, Copy, Debug, PartialEq, Eq, Structural)]
pub enum Event {
    Reply { id: u64, now: u64 },
    Timer { id: u64, now: u64 },
    Cancel { id: u64 },
}

pub open spec fn event_id(e: Event) -> u64 {
    match e {
        Event::Reply { id, .. } => id,
        Event::Timer { id, .. } => id,
        Event::Cancel { id } => id,
    }
}

/// The table after an event, and the resolution it brings, if any. A reply
/// at or after the deadline resolves the call as timed out; a timer before
/// the deadline, and any event for an id not in the table, changes nothing.
pub open spec fn step(m: Map<u64, u64>, e: Event) -> (Map<u64, u64>, Option<Resolution>) {
    match e {
        Event::Reply { id, now } => if m.contains_key(id) {
            (m.remove(id), Some(if now < m[id] { Resolution::Replied } else { Resolution::TimedOut }))
        } else {
            (m, None)
        },
        Event::Timer { id, now } => if m.contains_key(id) && m[id] <= now {
            (m.remove(id), Some(Resolution::TimedOut))
        } else {
            (m, None)
        },
        Event::Cancel { id } => if m.contains_key(id) {
            (m.remove(id), Some(Resolution::Cancelled))
        } else {
            (m, None)
        },
    }
}

/// The deadline of a call started at `now` with a budget of `timeout`
/// seconds, held at the largest time where the sum does not fit.
pub open spec fn deadline_for(now: u64, timeout: u64) -> u64 {
    if now + timeout > u64::MAX {
        u64::MAX
    } else {
        (now + timeout) as u64
    }
}

/// Calls awaiting resolution, by correlation id, with their deadlines.
pub struct PendingCalls {
    calls: HashMap<u64, u64>,
    next_id: u64,
}

impl View for PendingCalls {
    type V = Map<u64, u64>;

    closed spec fn view(&self) -> Map<u64, u64> {
        self.calls@
    }
}

impl PendingCalls {
    /// Every id handed out so far is below this one.
    pub closed spec fn next_fresh(&self) -> u64 {
        self.next_id
    }

    pub closed spec fn wf(&self) -> bool {
        forall|id: u64| #[trigger] self.calls@.contains_key(id) ==> id < self.next_id
    }

    pub fn new() -> (r: PendingCalls)
        ensures
            r.wf(),
            r@ == Map::<u64, u64>::empty(),
            r.next_fresh() == 0,
    {
        PendingCalls { calls: HashMap::new(), next_id: 0 }
    }

    /// Registers a call started at `now` with a budget of `timeout` seconds
    /// under a fresh id; `None` once every id has been used.
    pub fn register(&mut self, now: u64, timeout: u64) -> (r: Option<u64>)
        requires
            old(self).wf(),
        ensures
            final(self).wf(),
            match r {
                Some(id) => {
                    &&& !old(self)@.contains_key(id)
                    &&& id == old(self).next_fresh()
                    &&& final(self).next_fresh() == id + 1
                    &&& final(self)@ == old(self)@.insert(id, deadline_for(now, timeout))
                },
                None => old(self).next_fresh() == u64::MAX && final(self)@ == old(self)@
                    && final(self).next_fresh() == u64::MAX,
            },
    {
        if self.next_id == u64::MAX {
            return None;
        }
        let id = self.next_id;
        let deadline = if now > u64::MAX - timeout {
            u64::MAX
        } else {
            now + timeout
        };
        self.calls.insert(id, deadline);
        self.next_id = id + 1;
        Some(id)
    }

    /// Applies an event to the table and says how it resolved a call.
    pub fn handle(&mut self, e: Event) -> (r: Option<Resolution>)
        requires
            old(self).wf(),
        ensures
            final(self).wf(),
            final(self).next_fresh() == old(self).next_fresh(),
            (final(self)@, r) == step(old(self)@, e),
    {
        match e {
            Event::Reply { id, now } => match self.calls.remove(&id) {
                Some(deadline) => {
                    if now < deadline {
                        Some(Resolution::Replied)
                    } else {
                        Some(Resolution::TimedOut)
                    }
                },
                None => None,
            },
            Event::Timer { id, now } => match self.calls.get(&id) {
                Some(deadline) => {
                    if *deadline <= now {
                        self.calls.remove(&id);
                        Some(Resolution::TimedOut)
                    } else {
                        None
                    }
                },
                None => None,
            },
            Event::Cancel { id } => match self.calls.remove(&id) {
                Some(_) => Some(Resolution::Cancelled),
                None => None,
            },
        }
    }

    /// Whether `id` awaits resolution.
    pub fn is_pending(&self, id: u64) -> (r: bool)
        ensures
            r == self@.contains_key(id),
    {
        self.calls.contains_key(&id)
    }
}

/// A call resolves at most once: after an event has resolved it, no later
/// event for the same id resolves it again.
pub proof fn lemma_resolves_once(m: Map<u64, u64>, first: Event, later: Event)
    requires
        step(m, first).1 is Some,
        event_id(later) == event_id(first),
    ensures
        step(step(m, first).0, later).1 is None,
        !step(m, first).0.contains_key(event_id(first)),
{
}

/// A pending call is resolved by a reply, by its cancellation, and by its
/// timer once the deadline has come: it cannot stay unresolved.
pub proof fn lemma_pending_resolves(m: Map<u64, u64>, id: u64, now: u64)
    requires
        m.contains_key(id),
    ensures
        step(m, Event::Reply { id, now }).1 is Some,
        step(m, Event::Cancel { id }).1 is Some,
        m[id] <= now ==> step(m, Event::Timer { id, now }).1 is Some,
{
}

/// An event touches the entry of its own id and of no other call.
pub proof fn lemma_calls_isolated(m: Map<u64, u64>, e: Event, other: u64)
    requires
        other != event_id(e),
    ensures
        step(m, e).0.contains_key(other) == m.contains_key(other),
        m.contains_key(other) ==> step(m, e).0[other] == m[other],
{
}

/// Once the deadline has come, the call resolves as timed out, whether its
/// timer or a late reply comes first; a reply after that is discarded.
pub proof fn lemma_timeout_isolation(m: Map<u64, u64>, id: u64, now: u64, later: u64)
    requires
        m.contains_key(id),
        m[id] <= now,
    ensures
        step(m, Event::Timer { id, now }).1 == Some(Resolution::TimedOut),
        step(m, Event::Reply { id, now }).1 == Some(Resolution::TimedOut),
        step(step(m, Event::Timer { id, now }).0, Event::Reply { id, now: later }).1 is None,
{
}

/// A call whose deadline has not come keeps waiting when its timer fires.
pub proof fn lemma_early_timer_ignored(m: Map<u64, u64>, id: u64, now: u64)
    requires
        m.contains_key(id),
        now < m[id],
    ensures
        step(m, Event::Timer { id, now }) == (m, None::<Resolution>),
{
}

} // verus!
