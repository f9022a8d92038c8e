//! The binary state type: two values, logical negation, and the fixed
//! bidirectional mapping to the small-integer wire representation
//! (`On` is 1; every other wire value decodes, leniently, to `Off`).

use vstd::prelude::*;

verus! {

/// The state of a switch. Exactly these two values exist; every role starts
/// at `Off`.
#[derive(Clone, Copy, Debug, PartialEq, Eq, Structural)]
pub enum SwitchState {
    On,
    Off,
}

impl SwitchState {
    /// The logically negated state.
    pub open spec fn negated(self) -> SwitchState {
        match self {
            SwitchState::On => SwitchState::Off,
            SwitchState::Off => SwitchState::On,
        }
    }

    /// The wire representation of this state: 1 for `On`, 0 for `Off`.
    pub open spec fn encoding(self) -> i8 {
        match self {
            SwitchState::On => 1i8,
            SwitchState::Off => 0i8,
        }
    }

    /// The state a wire value decodes to: only the sentinel 1 means `On`;
    /// any other value is read, leniently, as `Off`.
    pub open spec fn decoded(wire: i8) -> SwitchState {
        if wire == 1i8 {
            SwitchState::On
        } else {
            SwitchState::Off
        }
    }

    /// Logical negation, `On` to `Off` and back.
    pub fn not(self) -> (r: SwitchState)
        ensures
            r == self.negated(),
    {
        match self {
            SwitchState::On => SwitchState::Off,
            SwitchState::Off => SwitchState::On,
        }
    }
}

impl From<i8> for SwitchState {
    /// Decode a wire value (total and lenient).
    fn from(value: i8) -> (r: SwitchState) {
        if value == 1i8 {
            SwitchState::On
        } else {
            SwitchState::Off
        }
    }
}

impl vstd::std_specs::convert::FromSpecImpl<i8> for SwitchState {
    open spec fn obeys_from_spec() -> bool {
        true
    }

    open spec fn from_spec(value: i8) -> SwitchState {
        SwitchState::decoded(value)
    }
}

impl From<SwitchState> for i8 {
    /// Encode a state as its wire value (total and exact).
    fn from(state: SwitchState) -> (r: i8) {
        match state {
            SwitchState::On => 1i8,
            SwitchState::Off => 0i8,
        }
    }
}

impl vstd::std_specs::convert::FromSpecImpl<SwitchState> for i8 {
    open spec fn obeys_from_spec() -> bool {
        true
    }

    open spec fn from_spec(state: SwitchState) -> i8 {
        state.encoding()
    }
}

/// Law: decoding inverts encoding, so a state survives the round trip onto
/// the wire and back.
pub proof fn lemma_decode_encode(s: SwitchState)
    ensures
        SwitchState::decoded(s.encoding()) == s,
{
}

/// Law: negation is an involution, and never a fixed point: negating twice
/// restores the state, and negating once always changes it.
pub proof fn lemma_negation_involutive(s: SwitchState)
    ensures
        s.negated().negated() == s,
        s.negated() != s,
{
}

/// Law: the decode is lenient — every wire value other than the "on"
/// sentinel yields `Off`.
pub proof fn lemma_decode_lenient(wire: i8)
    requires
        wire != 1i8,
    ensures
        SwitchState::decoded(wire) == SwitchState::Off,
{
}

} // verus!
