use switch_sync::state::SwitchState;

#[test]
fn encode_is_exact() {
    assert_eq!(i8::from(SwitchState::On), 1);
    assert_eq!(i8::from(SwitchState::Off), 0);
}

#[test]
fn decode_encode_round_trip() {
    assert_eq!(SwitchState::from(i8::from(SwitchState::On)), SwitchState::On);
    assert_eq!(SwitchState::from(i8::from(SwitchState::Off)), SwitchState::Off);
}

#[test]
fn negation_is_involutive_and_never_fixed() {
    assert_eq!(SwitchState::On.not(), SwitchState::Off);
    assert_eq!(SwitchState::Off.not(), SwitchState::On);
    assert_eq!(SwitchState::On.not().not(), SwitchState::On);
    assert_eq!(SwitchState::Off.not().not(), SwitchState::Off);
    assert_ne!(SwitchState::On.not(), SwitchState::On);
    assert_ne!(SwitchState::Off.not(), SwitchState::Off);
}

#[test]
fn decode_is_lenient() {
    assert_eq!(SwitchState::from(1i8), SwitchState::On);
    assert_eq!(SwitchState::from(0i8), SwitchState::Off);
    assert_eq!(SwitchState::from(-5i8), SwitchState::Off);
    assert_eq!(SwitchState::from(2i8), SwitchState::Off);
    assert_eq!(SwitchState::from(i8::MIN), SwitchState::Off);
    assert_eq!(SwitchState::from(i8::MAX), SwitchState::Off);
}
