//! The table of outstanding executions. Each execution owns one slot, keyed
//! by a correlation id; the slot takes at most one outcome, and is torn down
//! when its waiter collects the outcome or gives up at the deadline.
use vstd::prelude::*;

use crate::decimal::{decimal, is_digit, lemma_decimal_digits, lemma_decimal_injective, push_decimal};
use crate::error::BridgeError;
use crate::keyed::{has_key, keyed, keys_distinct, lemma_keyed_at, lemma_keyed_empty, lemma_keyed_push, lemma_keyed_remove, lemma_keyed_update};
use crate::models::JsonValue;

verus! {

/// How long a waiter waits for its outcome, in nanoseconds.
pub const EXECUTE_TIMEOUT_NANOS: u128 = 30_000_000_000;

/// Identifies one outstanding execution: the clock reading when it began,
/// and a serial number that no other execution of the same table shares.
#[derive(Clone, Copy, PartialEq, Eq, Structural, Debug)]
pub struct CorrelationId {
    pub timestamp: u128,
    pub serial: u64,
}

/// What an execution delivers: the script's value, or the failure it reported.
pub type Outcome = Result<JsonValue, BridgeError>;

/// The slot of one outstanding execution.
pub struct Slot {
    /// The clock reading after which the waiter gives up.
    pub deadline: u128,
    /// The outcome, once one has been delivered.
    pub outcome: Option<Outcome>,
}

/// What a waiter learns when it looks at its slot.
#[derive(Debug, PartialEq)]
pub enum Wait {
    /// The execution is over, with this outcome; the slot is gone.
    Done(Outcome),
    /// Nothing yet, and the deadline has not passed.
    Pending,
}

/// The text of the failure reported when no outcome came in time.
pub open spec fn timeout_text() -> Seq<char> {
    "Timeout waiting for execute result"@
}

/// The deadline of an execution that begins at `now`.
pub open spec fn deadline_after(now: u128) -> u128 {
    if now <= u128::MAX - EXECUTE_TIMEOUT_NANOS {
        (now + EXECUTE_TIMEOUT_NANOS) as u128
    } else {
        u128::MAX
    }
}

/// The slots after `outcome` is delivered for `id`: a live slot without an
/// outcome takes it; anything else is dropped.
pub open spec fn delivered(m: Map<CorrelationId, Slot>, id: CorrelationId, outcome: Outcome) -> Map<CorrelationId, Slot> {
    if m.contains_key(id) && m[id].outcome is None {
        m.insert(id, Slot { deadline: m[id].deadline, outcome: Some(outcome) })
    } else {
        m
    }
}

/// Whether the waiter of a live `id` that looks at `now` is done.
pub open spec fn finished(m: Map<CorrelationId, Slot>, id: CorrelationId, now: u128) -> bool {
    m[id].outcome is Some || now >= m[id].deadline
}

/// The slots after the waiter of a live `id` looked at `now`.
pub open spec fn polled(m: Map<CorrelationId, Slot>, id: CorrelationId, now: u128) -> Map<CorrelationId, Slot> {
    if finished(m, id, now) {
        m.remove(id)
    } else {
        m
    }
}

/// The topic on which the webview reports the outcome of `id`.
pub open spec fn topic(id: CorrelationId) -> Seq<char> {
    "wdio:execute:"@ + decimal(id.timestamp as nat) + "-"@ + decimal(id.serial as nat)
}

/// Outstanding executions.
pub struct Correlator {
    next_serial: u64,
    pending: Vec<(CorrelationId, Slot)>,
}

impl Correlator {
    #[verifier::type_invariant]
    spec fn consistent(&self) -> bool {
        &&& keys_distinct(self.pending@)
        &&& forall|i: int| 0 <= i < self.pending@.len() ==> #[trigger] self.pending@[i].0.serial < self.next_serial
    }

    /// The slots of the outstanding executions.
    pub closed spec fn slots(&self) -> Map<CorrelationId, Slot> {
        keyed(self.pending@)
    }

    /// The serial number that the next execution gets.
    pub closed spec fn next_serial(&self) -> u64 {
        self.next_serial
    }

    /// A table with nothing outstanding.
    pub fn new() -> (r: Correlator)
        ensures
            r.slots() == Map::<CorrelationId, Slot>::empty(),
            r.next_serial() == 0,
    {
        let r = Correlator { next_serial: 0, pending: Vec::new() };
        proof { lemma_keyed_empty(r.pending@); }
        r
    }

    fn find(&self, id: CorrelationId) -> (r: Option<usize>)
        ensures
            match r {
                Some(i) => i < self.pending@.len() && self.pending@[i as int].0 == id,
                None => !has_key(self.pending@, id),
            },
    {
        let mut i: usize = 0;
        while i < self.pending.len()
            invariant
                0 <= i <= self.pending@.len(),
                forall|j: int| 0 <= j < i ==> #[trigger] self.pending@[j].0 != id,
            decreases self.pending@.len() - i,
        {
            if self.pending[i].0 == id {
                return Some(i);
            }
            i = i + 1;
        }
        None
    }

    /// Whether `id` is outstanding, that is whether its listener is still
    /// registered.
    pub fn is_live(&self, id: CorrelationId) -> (r: bool)
        ensures
            r == self.slots().contains_key(id),
    {
        self.find(id).is_some()
    }

    /// Opens a slot for an execution that begins at clock reading `now`.
    /// The id differs from that of every outstanding execution, also when
    /// the clock repeats a reading. `None` once the serial numbers are spent.
    pub fn allocate(&mut self, now: u128) -> (r: Option<CorrelationId>)
        ensures
            match r {
                Some(id) => {
                    &&& id == (CorrelationId { timestamp: now, serial: old(self).next_serial() })
                    &&& !old(self).slots().contains_key(id)
                    &&& final(self).slots() == old(self).slots().insert(
                        id,
                        Slot { deadline: deadline_after(now), outcome: None },
                    )
                    &&& final(self).next_serial() == old(self).next_serial() + 1
                },
                None => {
                    &&& old(self).next_serial() == u64::MAX
                    &&& final(self).slots() == old(self).slots()
                    &&& final(self).next_serial() == old(self).next_serial()
                },
            },
    {
        proof { use_type_invariant(&*self); }
        if self.next_serial == u64::MAX {
            return None;
        }
        let id = CorrelationId { timestamp: now, serial: self.next_serial };
        let deadline = if now <= u128::MAX - EXECUTE_TIMEOUT_NANOS {
            now + EXECUTE_TIMEOUT_NANOS
        } else {
            u128::MAX
        };
        let ghost before = self.pending@;
        proof {
            if has_key(before, id) {
                let j = choose|j: int| 0 <= j < before.len() && #[trigger] before[j].0 == id;
                assert(before[j].0.serial < self.next_serial);
            }
        }
        let mut entries: Vec<(CorrelationId, Slot)> = Vec::new();
        std::mem::swap(&mut entries, &mut self.pending);
        let slot = Slot { deadline, outcome: None };
        let ghost gslot = slot;
        entries.push((id, slot));
        proof { lemma_keyed_push(before, id, gslot); }
        self.next_serial = self.next_serial + 1;
        self.pending = entries;
        Some(id)
    }

    /// Delivers `outcome` for `id`. It is taken only by a live slot that has
    /// no outcome yet, and then the result is `true`; otherwise it is dropped
    /// and nothing changes. No other slot is touched.
    pub fn deliver(&mut self, id: CorrelationId, outcome: Outcome) -> (r: bool)
        ensures
            r == (old(self).slots().contains_key(id) && old(self).slots()[id].outcome is None),
            final(self).slots() == delivered(old(self).slots(), id, outcome),
            final(self).next_serial() == old(self).next_serial(),
    {
        proof { use_type_invariant(&*self); }
        match self.find(id) {
            Some(i) => {
                proof { lemma_keyed_at(self.pending@, i as int); }
                if self.pending[i].1.outcome.is_some() {
                    return false;
                }
                let deadline = self.pending[i].1.deadline;
                let mut entries: Vec<(CorrelationId, Slot)> = Vec::new();
                std::mem::swap(&mut entries, &mut self.pending);
                let ghost before = entries@;
                let slot = Slot { deadline, outcome: Some(outcome) };
                let ghost gslot = slot;
                entries.set(i, (id, slot));
                proof { lemma_keyed_update(before, i as int, gslot); }
                self.pending = entries;
                true
            },
            None => false,
        }
    }

    /// The waiter of `id` looks at its slot at clock reading `now`. With an
    /// outcome there, it takes it; with none and the deadline passed, it gets
    /// the timeout failure. Either way the slot is torn down. Otherwise
    /// nothing changes.
    pub fn poll(&mut self, id: CorrelationId, now: u128) -> (r: Wait)
        requires
            old(self).slots().contains_key(id),
        ensures
            final(self).slots() == polled(old(self).slots(), id, now),
            final(self).next_serial() == old(self).next_serial(),
            match old(self).slots()[id].outcome {
                Some(o) => r == Wait::Done(o),
                None => if now >= old(self).slots()[id].deadline {
                    r matches Wait::Done(Err(BridgeError::ExecuteError(m))) && m@ == timeout_text()
                } else {
                    r is Pending
                },
            },
    {
        proof { use_type_invariant(&*self); }
        let i = match self.find(id) {
            Some(i) => i,
            None => {
                proof { assert(false); }
                return Wait::Pending;
            },
        };
        proof { lemma_keyed_at(self.pending@, i as int); }
        if self.pending[i].1.outcome.is_none() && now < self.pending[i].1.deadline {
            return Wait::Pending;
        }
        let mut entries: Vec<(CorrelationId, Slot)> = Vec::new();
        std::mem::swap(&mut entries, &mut self.pending);
        let ghost before = entries@;
        proof { lemma_keyed_remove(before, i as int); }
        let (_, slot) = entries.remove(i);
        proof {
            assert forall|j: int| 0 <= j < entries@.len() implies #[trigger] entries@[j].0.serial < self.next_serial by {
                if j < i {
                    assert(entries@[j] == before[j]);
                } else {
                    assert(entries@[j] == before[j + 1]);
                }
            }
        }
        self.pending = entries;
        match slot.outcome {
            Some(o) => Wait::Done(o),
            None => Wait::Done(Err(BridgeError::ExecuteError(timeout_message()))),
        }
    }

    /// Tears down the slot of `id`, if it is live: the execution was abandoned.
    pub fn cancel(&mut self, id: CorrelationId)
        ensures
            final(self).slots() == old(self).slots().remove(id),
            final(self).next_serial() == old(self).next_serial(),
    {
        proof { use_type_invariant(&*self); }
        match self.find(id) {
            Some(i) => {
                let mut entries: Vec<(CorrelationId, Slot)> = Vec::new();
                std::mem::swap(&mut entries, &mut self.pending);
                let ghost before = entries@;
                proof { lemma_keyed_remove(before, i as int); }
                let _ = entries.remove(i);
                proof {
                    assert forall|j: int| 0 <= j < entries@.len() implies #[trigger] entries@[j].0.serial < self.next_serial by {
                        if j < i {
                            assert(entries@[j] == before[j]);
                        } else {
                            assert(entries@[j] == before[j + 1]);
                        }
                    }
                }
                self.pending = entries;
            },
            None => {
                proof { assert(self.slots().remove(id) =~= self.slots()); }
            },
        }
    }
}

/// The topic on which the webview reports the outcome of `id`.
pub fn event_topic(id: CorrelationId) -> (r: String)
    ensures
        r@ == topic(id),
{
    let mut r = String::from_str("wdio:execute:");
    push_decimal(&mut r, id.timestamp);
    r.append("-");
    push_decimal(&mut r, id.serial as u128);
    r
}

/// Where `x + "-" + y` equals `u + "-" + v`, with all four decimal
/// notations, the parts agree.
proof fn lemma_split_at_dash(x: nat, y: nat, u: nat, v: nat)
    requires
        decimal(x) + "-"@ + decimal(y) == decimal(u) + "-"@ + decimal(v),
    ensures
        x == u,
        y == v,
{
    let dx = decimal(x);
    let du = decimal(u);
    let dash = "-"@;
    let s = dx + dash + decimal(y);
    let t = du + dash + decimal(v);
    reveal_strlit("-");
    assert(dash.len() == 1 && dash[0] == '-');
    lemma_decimal_digits(x);
    lemma_decimal_digits(u);
    assert(!is_digit('-'));
    if dx.len() < du.len() {
        assert(s[dx.len() as int] == '-');
        assert(t[dx.len() as int] == du[dx.len() as int]);
    } else if du.len() < dx.len() {
        assert(t[du.len() as int] == '-');
        assert(s[du.len() as int] == dx[du.len() as int]);
    } else {
        assert(dx =~= s.subrange(0, dx.len() as int));
        assert(du =~= t.subrange(0, du.len() as int));
        lemma_decimal_injective(x, u);
        assert(decimal(y) =~= s.subrange(dx.len() as int + 1, s.len() as int));
        assert(decimal(v) =~= t.subrange(du.len() as int + 1, t.len() as int));
        lemma_decimal_injective(y, v);
    }
}

/// Distinct executions report on distinct topics, so a report for one can
/// never reach the listener of another.
pub proof fn lemma_topic_injective(a: CorrelationId, b: CorrelationId)
    requires
        topic(a) == topic(b),
    ensures
        a == b,
{
    let p = "wdio:execute:"@;
    let ra = decimal(a.timestamp as nat) + "-"@ + decimal(a.serial as nat);
    let rb = decimal(b.timestamp as nat) + "-"@ + decimal(b.serial as nat);
    assert(topic(a) =~= p + ra);
    assert(topic(b) =~= p + rb);
    assert(ra =~= topic(a).subrange(p.len() as int, topic(a).len() as int));
    assert(rb =~= topic(b).subrange(p.len() as int, topic(b).len() as int));
    lemma_split_at_dash(a.timestamp as nat, a.serial as nat, b.timestamp as nat, b.serial as nat);
}

/// A delivery for execution `a` leaves the slot of every other execution as
/// it was: present or absent, with its outcome and deadline.
pub proof fn lemma_no_cross_talk(m: Map<CorrelationId, Slot>, a: CorrelationId, b: CorrelationId, outcome: Outcome)
    requires
        a != b,
    ensures
        delivered(m, a, outcome).contains_key(b) == m.contains_key(b),
        m.contains_key(b) ==> delivered(m, a, outcome)[b] == m[b],
{
}

/// Two executions that begin at the same clock reading, with distinct
/// serial numbers, have distinct ids and report on distinct topics.
pub proof fn lemma_clock_collision(a: CorrelationId, b: CorrelationId)
    requires
        a.timestamp == b.timestamp,
        a.serial != b.serial,
    ensures
        a != b,
        topic(a) != topic(b),
{
    if topic(a) == topic(b) {
        lemma_topic_injective(a, b);
    }
}

/// Once the waiter of `id` has given up at its deadline, the slot is gone,
/// and an outcome that arrives later is dropped: it changes no slot, that
/// of `id` or any other.
pub proof fn lemma_late_delivery_dropped(m: Map<CorrelationId, Slot>, id: CorrelationId, now: u128, outcome: Outcome)
    requires
        m.contains_key(id),
        m[id].outcome is None,
        now >= m[id].deadline,
    ensures
        !polled(m, id, now).contains_key(id),
        delivered(polled(m, id, now), id, outcome) == polled(m, id, now),
{
}

fn timeout_message() -> (r: String)
    ensures
        r@ == timeout_text(),
{
    String::from_str("Timeout waiting for execute result")
}

} // verus!
