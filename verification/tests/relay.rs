use bar_input::fault::Fault;
use bar_input::relay::{is_subscribed, relay_step, RelayAction, RelayEvent};

#[test]
fn relay_subscribes_first_and_then_waits() {
    let signals = [10, 12];
    assert_eq!(relay_step(&signals, RelayEvent::Started), RelayAction::Subscribe);
    assert_eq!(relay_step(&signals, RelayEvent::Subscribed), RelayAction::Wait);
}

#[test]
fn subscribed_signal_is_sent_as_it_came() {
    let signals = [10, 12];
    assert_eq!(relay_step(&signals, RelayEvent::Signal(10)), RelayAction::Send(10));
    assert_eq!(relay_step(&signals, RelayEvent::Signal(12)), RelayAction::Send(12));
}

#[test]
fn signal_outside_the_set_is_never_sent() {
    let signals = [10, 12];
    for number in [-1, 0, 1, 9, 11, 13, 15, i32::MIN, i32::MAX] {
        assert_eq!(relay_step(&signals, RelayEvent::Signal(number)), RelayAction::Wait);
    }
}

#[test]
fn whatever_is_sent_belongs_to_the_set() {
    let signals = [1, 2, 10, 12, 15];
    for number in -5..70 {
        if let RelayAction::Send(sent) = relay_step(&signals, RelayEvent::Signal(number)) {
            assert_eq!(sent, number);
            assert!(signals.contains(&sent));
        } else {
            assert!(!signals.contains(&number));
        }
    }
}

#[test]
fn empty_set_forwards_nothing() {
    let signals: [i32; 0] = [];
    assert_eq!(relay_step(&signals, RelayEvent::Started), RelayAction::Subscribe);
    assert_eq!(relay_step(&signals, RelayEvent::Signal(10)), RelayAction::Wait);
}

#[test]
fn repeated_signal_is_sent_each_time() {
    let signals = vec![10];
    let mut sent = Vec::new();
    for event in [RelayEvent::Signal(10), RelayEvent::Sent, RelayEvent::Signal(10), RelayEvent::Sent] {
        if let RelayAction::Send(number) = relay_step(&signals, event) {
            sent.push(number);
        }
    }
    assert_eq!(sent, vec![10, 10]);
}

#[test]
fn signals_keep_their_order() {
    let signals = vec![10, 12, 15];
    let mut sent = Vec::new();
    for number in [15, 10, 10, 12, 15] {
        match relay_step(&signals, RelayEvent::Signal(number)) {
            RelayAction::Send(out) => {
                sent.push(out);
                assert_eq!(relay_step(&signals, RelayEvent::Sent), RelayAction::Wait);
            }
            other => panic!("unexpected action {:?}", other),
        }
    }
    assert_eq!(sent, vec![15, 10, 10, 12, 15]);
}

#[test]
fn refused_subscription_halts_the_relay() {
    let signals = [10];
    assert_eq!(
        relay_step(&signals, RelayEvent::SubscribeFailed),
        RelayAction::Halt(Fault::SourceFailure)
    );
}

#[test]
fn lost_receiver_halts_the_relay() {
    let signals = [10];
    assert_eq!(
        relay_step(&signals, RelayEvent::ReceiverGone),
        RelayAction::Halt(Fault::ChannelClosed)
    );
}

#[test]
fn closed_subscription_is_made_anew() {
    let signals = [10];
    assert_eq!(relay_step(&signals, RelayEvent::WaitEnded), RelayAction::Subscribe);
}

#[test]
fn delivery_is_followed_by_the_next_wait() {
    let signals = [10];
    assert_eq!(relay_step(&signals, RelayEvent::Sent), RelayAction::Wait);
}

#[test]
fn membership_is_by_value() {
    assert!(is_subscribed(&[10, 12], 10));
    assert!(is_subscribed(&[10, 12], 12));
    assert!(is_subscribed(&[12, 12], 12));
    assert!(!is_subscribed(&[10, 12], 11));
    assert!(!is_subscribed(&[], 0));
    assert!(is_subscribed(&[i32::MIN], i32::MIN));
}
