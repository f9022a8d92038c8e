//! The change notifier: a single-slot latest-value broadcast with one writer
//! and many readers.
//!
//! Every write is broadcast, including redundant writes of the value already
//! held, so a reader that simply took the next event would see "the value I
//! already know" reported as a change. Each waiter therefore filters by
//! generation rather than by value: the notifier counts every write in
//! `version` and remembers in `changed_at` the version of the most recent
//! write that actually changed the held value. A waiter records the version
//! at subscribe time and completes only once `changed_at` moves past it —
//! so a redundant re-write never wakes it spuriously, while a genuine change
//! that happens to restore an earlier value is still reported.

use vstd::prelude::*;

use crate::state::SwitchState;

verus! {

/// The broadcast slot: the latest value, the count of writes so far, and the
/// version at which the value last actually changed.
#[derive(Clone, Copy, Debug, PartialEq, Eq, Structural)]
pub struct Notifier {
    /// The value most recently written.
    pub value: SwitchState,
    /// How many writes have been made; every write counts, redundant or not.
    pub version: u64,
    /// The version of the most recent write that changed `value`
    /// (0 while no write has changed it).
    pub changed_at: u64,
}

/// One reader's record of how much of the broadcast it has already observed.
#[derive(Clone, Copy, Debug, PartialEq, Eq, Structural)]
pub struct Waiter {
    /// Changes at versions up to and including this one are already observed
    /// and will not complete this waiter.
    pub seen: u64,
}

impl Notifier {
    /// A change can only have happened at a version that exists.
    pub open spec fn wf(self) -> bool {
        self.changed_at <= self.version
    }

    /// Room for one more write in the version counter.
    pub open spec fn can_publish(self) -> bool {
        self.version < u64::MAX
    }

    /// The slot after one write of `v`: the value is overwritten and the
    /// write is counted, and `changed_at` advances exactly when the write
    /// actually changed the value.
    pub open spec fn published(self, v: SwitchState) -> Notifier {
        Notifier {
            value: v,
            version: (self.version + 1) as u64,
            changed_at: if v != self.value {
                (self.version + 1) as u64
            } else {
                self.changed_at
            },
        }
    }

    /// The waiter a subscriber starts with: everything written so far counts
    /// as already observed.
    pub open spec fn waiter(self) -> Waiter {
        Waiter { seen: self.version }
    }

    /// A fresh slot holding `Off`, with nothing written yet.
    pub fn new() -> (n: Notifier)
        ensures
            n == (Notifier { value: SwitchState::Off, version: 0u64, changed_at: 0u64 }),
            n.wf(),
    {
        Notifier { value: SwitchState::Off, version: 0u64, changed_at: 0u64 }
    }

    /// Broadcast one write of `v`. Redundant writes are broadcast too; the
    /// waiters' generation filter is what keeps them from waking spuriously.
    pub fn publish(&mut self, v: SwitchState)
        requires
            old(self).can_publish(),
        ensures
            *final(self) == old(self).published(v),
            old(self).wf() ==> final(self).wf(),
    {
        if v != self.value {
            self.changed_at = self.version + 1;
        }
        self.version = self.version + 1;
        self.value = v;
    }

    /// Begin observing: the returned waiter completes only on a change made
    /// after this call.
    pub fn subscribe(&self) -> (w: Waiter)
        ensures
            w == self.waiter(),
    {
        Waiter { seen: self.version }
    }
}

impl Waiter {
    /// What one poll of the slot yields: the current value, once a write
    /// newer than everything this waiter has observed actually changed the
    /// value; nothing otherwise.
    pub open spec fn poll_result(self, n: Notifier) -> Option<SwitchState> {
        if n.changed_at > self.seen {
            Some(n.value)
        } else {
            None
        }
    }

    /// The waiter after one poll: a reported change is thereby observed.
    pub open spec fn after_poll(self, n: Notifier) -> Waiter {
        if n.changed_at > self.seen {
            Waiter { seen: n.changed_at }
        } else {
            self
        }
    }

    /// Check the slot once. Callers suspend between polls; the notifier
    /// itself never blocks.
    pub fn poll(&mut self, n: &Notifier) -> (r: Option<SwitchState>)
        ensures
            r == old(self).poll_result(*n),
            *final(self) == old(self).after_poll(*n),
    {
        if n.changed_at > self.seen {
            self.seen = n.changed_at;
            Some(n.value)
        } else {
            None
        }
    }
}

/// Law (change skip): a waiter that subscribes at state `s0` is not woken by
/// a redundant re-write of `s0`, and the following genuine change to
/// `s1 != s0` completes exactly one wait, yielding `s1` — whether or not the
/// waiter got to observe the redundant write on its own.
pub proof fn lemma_change_skip(n0: Notifier, s1: SwitchState)
    requires
        n0.wf(),
        n0.version + 2 <= u64::MAX,
        s1 != n0.value,
    ensures
        ({
            let w0 = n0.waiter();
            let n1 = n0.published(n0.value);
            let n2 = n1.published(s1);
            &&& w0.poll_result(n1) is None
            &&& w0.after_poll(n1).poll_result(n2) == Some(s1)
            &&& w0.poll_result(n2) == Some(s1)
            &&& w0.after_poll(n1).after_poll(n2).poll_result(n2) is None
        }),
{
}

/// Law (no lost double change): a value that changes and changes back within
/// one waiter's window is still reported as a change, since the waiter
/// compares generations, not values.
pub proof fn lemma_change_and_back_reported(n0: Notifier)
    requires
        n0.wf(),
        n0.version + 2 <= u64::MAX,
    ensures
        ({
            let w0 = n0.waiter();
            let n2 = n0.published(n0.value.negated()).published(n0.value);
            w0.poll_result(n2) == Some(n0.value)
        }),
{
}

} // verus!
