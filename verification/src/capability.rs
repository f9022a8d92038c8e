//! The switch capability: the contract that every participant role offers,
//! identical from the caller's point of view.
//!
//! The roles here are transport-free state machines, so each operation is
//! phrased over plain values: the caller performs the transport work and
//! hands its outcome in, and takes the role's outward effects back out.
//! `get_state` takes the freshest query reply the caller obtained (an
//! authority owns ground truth and ignores it); `set_state` returns the
//! effects to perform — the wire value to publish and, where a physical
//! output is configured, the level to drive it to; `wait_for_change` polls a
//! waiter against the role's change notifier, completing once a genuinely
//! new value has been broadcast.

use vstd::prelude::*;

use crate::notify::Notifier;
use crate::notify::Waiter;
use crate::state::SwitchState;

verus! {

/// The electrical level a physical output is driven to.
#[derive(Clone, Copy, Debug, PartialEq, Eq, Structural)]
pub enum PinLevel {
    High,
    Low,
}

/// The outward effects of one commanded transition, for the caller to
/// perform: a wire value to publish on the resource path, and a level to
/// drive the physical output to, where one is attached.
#[derive(Clone, Copy, Debug, PartialEq, Eq)]
pub struct Effects {
    /// The wire value to publish on the resource path, if any.
    pub publish: Option<i8>,
    /// The level to drive the physical output to, if one is attached.
    pub drive: Option<PinLevel>,
}

/// The capability shared by every role: query the current best-known state,
/// command a transition, and await the next genuine change.
pub trait Switch: Sized {
    /// The role's record is well formed.
    spec fn wf(&self) -> bool;

    /// Another transition can still be recorded (the change notifier's
    /// write counter has room).
    spec fn can_step(&self) -> bool;

    /// The state this role reports, given the freshest reply the caller's
    /// query obtained (`None` where no reply arrived). An authority owns the
    /// ground truth and ignores the reply.
    spec fn reported(&self, reply: Option<i8>) -> SwitchState;

    /// The role's record after a commanded transition to `new_state`.
    spec fn applied(&self, new_state: SwitchState) -> Self;

    /// The outward effects of a commanded transition to `new_state`.
    spec fn step_effects(&self, new_state: SwitchState) -> Effects;

    /// The change notifier this role's waiters watch.
    spec fn notifier(&self) -> Notifier;

    /// The role's current best-known state: ground truth for an authority,
    /// the decoded reply (or the `Off` fallback) for a client proxy.
    fn get_state(&self, reply: Option<i8>) -> (r: SwitchState)
        ensures
            r == self.reported(reply),
    ;

    /// Command a transition to `new_state`. The record is overwritten even
    /// when `new_state` equals the current state — repeated commands still
    /// re-drive outputs and are re-broadcast — and the returned effects say
    /// what the caller must publish and drive.
    fn set_state(&mut self, new_state: SwitchState) -> (e: Effects)
        requires
            old(self).wf(),
            old(self).can_step(),
        ensures
            *final(self) == old(self).applied(new_state),
            final(self).wf(),
            e == old(self).step_effects(new_state),
    ;

    /// Begin observing changes: the returned waiter completes only on a
    /// change broadcast after this call.
    fn subscribe(&self) -> (w: Waiter)
        ensures
            w == self.notifier().waiter(),
    ;

    /// Poll a pending wait once: yields the current value once a genuinely
    /// new value has been broadcast since the waiter subscribed (or last
    /// completed), nothing otherwise. The caller suspends between polls.
    fn wait_for_change(&self, waiter: &mut Waiter) -> (r: Option<SwitchState>)
        ensures
            r == old(waiter).poll_result(self.notifier()),
            *final(waiter) == old(waiter).after_poll(self.notifier()),
    ;
}

} // verus!
