//! The authority role: the one owner of ground-truth state for a resource
//! path.
//!
//! Every state change — a local call or a command arriving over the
//! subscription — funnels through the same transition: overwrite the state
//! record (always, even when the value is unchanged), broadcast it on the
//! change notifier, decide the physical output level where an output is
//! configured, and hand back the wire value to publish so remote observers
//! converge. The query responder replies with the current state and never
//! transitions.

use vstd::prelude::*;

use crate::capability::Effects;
use crate::capability::PinLevel;
use crate::capability::Switch;
use crate::notify::Notifier;
use crate::notify::Waiter;
use crate::state::SwitchState;

verus! {

/// The authority's record: the ground-truth state, the configured mapping
/// from logical state to the physical output's high level (`None` for a
/// purely virtual switch with no output attached), and the change notifier
/// local waiters watch.
#[derive(Clone, Copy, Debug, PartialEq, Eq, Structural)]
pub struct Authority {
    /// The ground-truth state.
    pub state: SwitchState,
    /// Which logical state drives the physical output high; `None` when no
    /// output is attached.
    pub high_state: Option<SwitchState>,
    /// The notifier broadcasting every transition to local waiters.
    pub notifier: Notifier,
}

impl Authority {
    /// The record every authority starts from: `Off`, nothing broadcast yet.
    pub open spec fn initial(high_state: Option<SwitchState>) -> Authority {
        Authority {
            state: SwitchState::Off,
            high_state,
            notifier: Notifier { value: SwitchState::Off, version: 0u64, changed_at: 0u64 },
        }
    }

    /// The wire value the query responder replies with.
    pub open spec fn reply_wire(self) -> i8 {
        self.state.encoding()
    }

    /// An authority with no physical output: a purely virtual switch.
    pub fn new_virtual() -> (a: Authority)
        ensures
            a == Authority::initial(None),
            a.wf(),
    {
        Authority { state: SwitchState::Off, high_state: None, notifier: Notifier::new() }
    }

    /// An authority driving a physical output: the output goes high exactly
    /// when the state equals `high_state`.
    pub fn new_with_output(high_state: SwitchState) -> (a: Authority)
        ensures
            a == Authority::initial(Some(high_state)),
            a.wf(),
    {
        Authority {
            state: SwitchState::Off,
            high_state: Some(high_state),
            notifier: Notifier::new(),
        }
    }

    /// Answer one incoming query: the current state, encoded for the wire.
    /// Read-only — serving a query never transitions.
    pub fn reply_to_query(&self) -> (w: i8)
        ensures
            w == self.reply_wire(),
    {
        i8::from(self.state)
    }

    /// Apply one command that arrived on the subscription: the wire value is
    /// decoded (leniently) and the transition is the same one a local
    /// `set_state` performs.
    pub fn handle_command(&mut self, wire: i8) -> (e: Effects)
        requires
            old(self).wf(),
            old(self).can_step(),
        ensures
            *final(self) == old(self).applied(SwitchState::decoded(wire)),
            final(self).wf(),
            e == old(self).step_effects(SwitchState::decoded(wire)),
    {
        let new_state = SwitchState::from(wire);
        self.set_state(new_state)
    }
}

impl Switch for Authority {
    open spec fn wf(&self) -> bool {
        self.notifier.wf()
    }

    open spec fn can_step(&self) -> bool {
        self.notifier.can_publish()
    }

    open spec fn reported(&self, reply: Option<i8>) -> SwitchState {
        self.state
    }

    open spec fn applied(&self, new_state: SwitchState) -> Authority {
        Authority {
            state: new_state,
            high_state: self.high_state,
            notifier: self.notifier.published(new_state),
        }
    }

    open spec fn step_effects(&self, new_state: SwitchState) -> Effects {
        Effects {
            publish: Some(new_state.encoding()),
            drive: match self.high_state {
                Some(h) => Some(if new_state == h {
                    PinLevel::High
                } else {
                    PinLevel::Low
                }),
                None => None,
            },
        }
    }

    open spec fn notifier(&self) -> Notifier {
        self.notifier
    }

    fn get_state(&self, _reply: Option<i8>) -> (r: SwitchState) {
        self.state
    }

    fn set_state(&mut self, new_state: SwitchState) -> (e: Effects) {
        self.state = new_state;
        self.notifier.publish(new_state);
        let drive: Option<PinLevel> = match self.high_state {
            Some(h) => Some(
                if new_state == h {
                    PinLevel::High
                } else {
                    PinLevel::Low
                },
            ),
            None => None,
        };
        Effects { publish: Some(i8::from(new_state)), drive }
    }

    fn subscribe(&self) -> (w: Waiter) {
        self.notifier.subscribe()
    }

    fn wait_for_change(&self, waiter: &mut Waiter) -> (r: Option<SwitchState>) {
        waiter.poll(&self.notifier)
    }
}

/// Law (authority): after a transition to `s` completes, the authority
/// reports `s` to every subsequent query, whatever reply the caller's own
/// transport work produced and whatever the record held before.
pub proof fn lemma_get_after_set(a: Authority, s: SwitchState)
    ensures
        forall|reply: Option<i8>| a.applied(s).reported(reply) == s,
{
}

} // verus!
