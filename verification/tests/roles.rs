use switch_sync::authority::Authority;
use switch_sync::capability::PinLevel;
use switch_sync::capability::Switch;
use switch_sync::client::ClientSwitch;
use switch_sync::state::SwitchState;

#[test]
fn authority_starts_off() {
    let a = Authority::new_virtual();
    assert_eq!(a.get_state(None), SwitchState::Off);
    let b = Authority::new_with_output(SwitchState::On);
    assert_eq!(b.get_state(None), SwitchState::Off);
}

#[test]
fn authority_reports_what_it_set() {
    // After set_state(s), get_state returns s, across a whole sequence of
    // calls, redundant transitions included.
    let mut a = Authority::new_virtual();
    let sequence = [
        SwitchState::On,
        SwitchState::On,
        SwitchState::Off,
        SwitchState::On,
        SwitchState::Off,
        SwitchState::Off,
    ];
    for s in sequence {
        a.set_state(s);
        assert_eq!(a.get_state(None), s);
        assert_eq!(a.get_state(Some(77)), s);
    }
}

#[test]
fn remote_command_drives_output_and_publishes() {
    // Authority starts Off with On configured as the high state; the command
    // On arrives on the subscription: the state becomes On, the output is
    // driven high, and On is published for remote observers.
    let mut a = Authority::new_with_output(SwitchState::On);
    assert_eq!(a.get_state(None), SwitchState::Off);
    let effects = a.handle_command(i8::from(SwitchState::On));
    assert_eq!(a.get_state(None), SwitchState::On);
    assert_eq!(effects.drive, Some(PinLevel::High));
    assert_eq!(effects.publish, Some(1));
}

#[test]
fn command_off_drives_output_low() {
    let mut a = Authority::new_with_output(SwitchState::On);
    a.handle_command(1);
    let effects = a.handle_command(0);
    assert_eq!(a.get_state(None), SwitchState::Off);
    assert_eq!(effects.drive, Some(PinLevel::Low));
    assert_eq!(effects.publish, Some(0));
}

#[test]
fn virtual_authority_drives_nothing() {
    let mut a = Authority::new_virtual();
    let effects = a.set_state(SwitchState::On);
    assert_eq!(effects.drive, None);
    assert_eq!(effects.publish, Some(1));
}

#[test]
fn unknown_command_values_mean_off() {
    let mut a = Authority::new_with_output(SwitchState::On);
    a.handle_command(1);
    let effects = a.handle_command(-9);
    assert_eq!(a.get_state(None), SwitchState::Off);
    assert_eq!(effects.drive, Some(PinLevel::Low));
    assert_eq!(effects.publish, Some(0));
}

#[test]
fn query_reply_converges_proxy() {
    // Once the authority has applied a transition, the reply it serves
    // decodes at a proxy to exactly the applied state.
    let mut a = Authority::new_virtual();
    let c = ClientSwitch::new();
    for s in [SwitchState::On, SwitchState::Off, SwitchState::On] {
        a.set_state(s);
        let reply = a.reply_to_query();
        assert_eq!(c.get_state(Some(reply)), s);
    }
}

#[test]
fn proxy_get_falls_back_to_off() {
    let c = ClientSwitch::new();
    assert_eq!(c.get_state(None), SwitchState::Off);
}

#[test]
fn proxy_set_then_get_may_still_see_old_value() {
    // A proxy's set is fire-and-forget: an immediately following get can be
    // answered by an authority that has not applied the command yet, so the
    // old value may still come back.
    let mut authority = Authority::new_virtual();
    authority.set_state(SwitchState::On);
    let mut proxy = ClientSwitch::new();
    let effects = proxy.set_state(SwitchState::Off);
    assert_eq!(effects.publish, Some(0));
    // The command has been published but not delivered: the authority still
    // answers with the old state.
    let reply = authority.reply_to_query();
    assert_eq!(proxy.get_state(Some(reply)), SwitchState::On);
    // Once delivered and applied, the proxy converges.
    authority.handle_command(effects.publish.unwrap());
    let reply = authority.reply_to_query();
    assert_eq!(proxy.get_state(Some(reply)), SwitchState::Off);
}

#[test]
fn two_waiters_observe_the_same_changes() {
    // Two concurrent wait_for_change callers on one authority both observe
    // the same sequence of actual changes, each filtering independently.
    let mut a = Authority::new_virtual();
    let mut w1 = a.subscribe();
    let mut w2 = a.subscribe();
    // A redundant transition wakes neither.
    a.set_state(SwitchState::Off);
    assert_eq!(a.wait_for_change(&mut w1), None);
    assert_eq!(a.wait_for_change(&mut w2), None);
    // A genuine change wakes both with the same value.
    a.set_state(SwitchState::On);
    assert_eq!(a.wait_for_change(&mut w1), Some(SwitchState::On));
    assert_eq!(a.wait_for_change(&mut w2), Some(SwitchState::On));
    // And the next one again, even if one waiter polls late.
    a.set_state(SwitchState::Off);
    assert_eq!(a.wait_for_change(&mut w1), Some(SwitchState::Off));
    assert_eq!(a.wait_for_change(&mut w2), Some(SwitchState::Off));
    assert_eq!(a.wait_for_change(&mut w1), None);
    assert_eq!(a.wait_for_change(&mut w2), None);
}

#[test]
fn proxy_waiters_follow_the_subscription() {
    let mut c = ClientSwitch::new();
    let mut w = c.subscribe();
    c.on_published(0);
    assert_eq!(c.wait_for_change(&mut w), None);
    c.on_published(1);
    assert_eq!(c.wait_for_change(&mut w), Some(SwitchState::On));
}
