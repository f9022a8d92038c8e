//! The client proxy role: stateless with respect to the truth, mirroring an
//! authority elsewhere on the transport.
//!
//! A proxy holds no state record at all — only a change notifier fed by the
//! caller's background subscription on the resource path. A get decodes the
//! first reply of the caller's query, falling back to `Off` when none
//! arrived; a set only says what wire value to publish and awaits neither
//! propagation nor application; waiting for a change watches the local
//! notifier.

use vstd::prelude::*;

use crate::authority::Authority;
use crate::capability::Effects;
use crate::capability::Switch;
use crate::notify::Notifier;
use crate::notify::Waiter;
use crate::state::SwitchState;

verus! {

/// The proxy's record: nothing but the change notifier its background
/// subscription feeds.
#[derive(Clone, Copy, Debug, PartialEq, Eq, Structural)]
pub struct ClientSwitch {
    /// The notifier broadcasting every subscribed value to local waiters.
    pub notifier: Notifier,
}

impl ClientSwitch {
    /// The record every proxy starts from: nothing broadcast yet.
    pub open spec fn initial() -> ClientSwitch {
        ClientSwitch {
            notifier: Notifier { value: SwitchState::Off, version: 0u64, changed_at: 0u64 },
        }
    }

    /// A fresh proxy. The caller registers the subscription whose values are
    /// handed to `on_published`.
    pub fn new() -> (c: ClientSwitch)
        ensures
            c == ClientSwitch::initial(),
            c.wf(),
    {
        ClientSwitch { notifier: Notifier::new() }
    }

    /// Feed one value received on the subscription into the local notifier:
    /// decoded (leniently) and broadcast, never applied to any local state —
    /// the proxy has none.
    pub fn on_published(&mut self, wire: i8)
        requires
            old(self).wf(),
            old(self).notifier.can_publish(),
        ensures
            final(self).notifier == old(self).notifier.published(SwitchState::decoded(wire)),
            final(self).wf(),
    {
        let v = SwitchState::from(wire);
        self.notifier.publish(v);
    }
}

impl Switch for ClientSwitch {
    open spec fn wf(&self) -> bool {
        self.notifier.wf()
    }

    open spec fn can_step(&self) -> bool {
        true
    }

    open spec fn reported(&self, reply: Option<i8>) -> SwitchState {
        match reply {
            Some(w) => SwitchState::decoded(w),
            None => SwitchState::Off,
        }
    }

    open spec fn applied(&self, new_state: SwitchState) -> ClientSwitch {
        *self
    }

    open spec fn step_effects(&self, new_state: SwitchState) -> Effects {
        Effects { publish: Some(new_state.encoding()), drive: None }
    }

    open spec fn notifier(&self) -> Notifier {
        self.notifier
    }

    fn get_state(&self, reply: Option<i8>) -> (r: SwitchState) {
        match reply {
            Some(w) => SwitchState::from(w),
            None => SwitchState::Off,
        }
    }

    /// Commanding through a proxy changes nothing locally: the command is
    /// published for the authority to apply.
    fn set_state(&mut self, new_state: SwitchState) -> (e: Effects) {
        Effects { publish: Some(i8::from(new_state)), drive: None }
    }

    fn subscribe(&self) -> (w: Waiter) {
        self.notifier.subscribe()
    }

    fn wait_for_change(&self, waiter: &mut Waiter) -> (r: Option<SwitchState>) {
        waiter.poll(&self.notifier)
    }
}

/// Law (convergence): once an authority has applied a transition to `s`, a
/// proxy's query that reaches it is answered with `s` — the reply decodes to
/// exactly the state the authority applied.
pub proof fn lemma_convergence(a: Authority, c: ClientSwitch, s: SwitchState)
    ensures
        c.reported(Some(a.applied(s).reply_wire())) == s,
{
}

/// Law (commands converge): the wire value either role publishes for a
/// commanded transition to `s` decodes back to `s`, so an authority
/// receiving the command applies exactly the commanded state.
pub proof fn lemma_command_round_trip(a: Authority, c: ClientSwitch, s: SwitchState)
    ensures
        c.step_effects(s).publish matches Some(w) && SwitchState::decoded(w) == s,
        a.step_effects(s).publish matches Some(w) && SwitchState::decoded(w) == s,
{
}

} // verus!
