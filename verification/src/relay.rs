//! The signal relay: subscribe to a set of signals, then pass on each one that
//! arrives, in order and one send per arrival.
//!
//! The relay itself only decides. Its driver subscribes, waits and sends, calls
//! [`relay_step`] with the outcome of what it just did, and does what the
//! returned action says.

use crate::fault::Fault;
use vstd::prelude::*;

verus! {

/// What the driver reports to the relay.
#[derive(Debug, Copy, Clone, PartialEq, Eq, Structural)]
pub enum RelayEvent {
    /// The relay was just started.
    Started,
    /// The signal set is subscribed to.
    Subscribed,
    /// The OS refused the subscription.
    SubscribeFailed,
    /// This signal number arrived.
    Signal(i32),
    /// The wait ended without a signal because the subscription was closed.
    WaitEnded,
    /// The channel took the last signal.
    Sent,
    /// The channel has no receiver any more.
    ReceiverGone,
}

/// What the relay has its driver do next.
#[derive(Debug, Copy, Clone, PartialEq, Eq, Structural)]
pub enum RelayAction {
    /// Subscribe to the signal set.
    Subscribe,
    /// Block until the next signal arrives.
    Wait,
    /// Send this signal number on the channel.
    Send(i32),
    /// Stop for good.
    Halt(Fault),
}

/// The relay's reaction to `event` when subscribed to `signals`.
///
/// An arriving signal is sent as it is if it belongs to the set and is passed
/// over otherwise. A subscription is made at the start, and again only when a
/// wait reports that the previous one was closed.
pub open spec fn relay_next(signals: Seq<i32>, event: RelayEvent) -> RelayAction {
    match event {
        RelayEvent::Started => RelayAction::Subscribe,
        RelayEvent::Subscribed => RelayAction::Wait,
        RelayEvent::SubscribeFailed => RelayAction::Halt(Fault::SourceFailure),
        RelayEvent::Signal(number) => if signals.contains(number) {
            RelayAction::Send(number)
        } else {
            RelayAction::Wait
        },
        RelayEvent::WaitEnded => RelayAction::Subscribe,
        RelayEvent::Sent => RelayAction::Wait,
        RelayEvent::ReceiverGone => RelayAction::Halt(Fault::ChannelClosed),
    }
}

/// The signal numbers that `events` report, in the order of their arrival.
pub open spec fn arrivals(events: Seq<RelayEvent>) -> Seq<i32>
    decreases events.len(),
{
    if events.len() == 0 {
        Seq::empty()
    } else {
        let earlier = arrivals(events.drop_last());
        match events.last() {
            RelayEvent::Signal(number) => earlier.push(number),
            _ => earlier,
        }
    }
}

/// The signal numbers that the relay has sent in reaction to `events`, in the
/// order of sending.
pub open spec fn forwarded(signals: Seq<i32>, events: Seq<RelayEvent>) -> Seq<i32>
    decreases events.len(),
{
    if events.len() == 0 {
        Seq::empty()
    } else {
        let earlier = forwarded(signals, events.drop_last());
        match relay_next(signals, events.last()) {
            RelayAction::Send(number) => earlier.push(number),
            _ => earlier,
        }
    }
}

/// What the relay sends is what arrived, less the numbers outside the set: in
/// the order of arrival, and each as often as it arrived. So every number sent
/// belongs to the set, and where only subscribed signals arrive, all of them
/// are sent.
pub proof fn lemma_forwarded_is_arrivals_in_set(signals: Seq<i32>, events: Seq<RelayEvent>)
    ensures
        forwarded(signals, events) == arrivals(events).filter(|n: i32| signals.contains(n)),
        forall|i: int|
            0 <= i < forwarded(signals, events).len() ==> signals.contains(
                #[trigger] forwarded(signals, events)[i],
            ),
        (forall|i: int| 0 <= i < arrivals(events).len() ==> signals.contains(arrivals(events)[i]))
            ==> forwarded(signals, events) == arrivals(events),
    decreases events.len(),
{
    reveal(Seq::filter);
    if events.len() > 0 {
        let before = events.drop_last();
        lemma_forwarded_is_arrivals_in_set(signals, before);
        match events.last() {
            RelayEvent::Signal(number) => {
                assert(arrivals(events).drop_last() == arrivals(before));
                assert(arrivals(events).last() == number);
                if forall|i: int|
                    0 <= i < arrivals(events).len() ==> signals.contains(arrivals(events)[i]) {
                    assert forall|i: int| 0 <= i < arrivals(before).len() implies signals.contains(
                        arrivals(before)[i],
                    ) by {
                        assert(arrivals(before)[i] == arrivals(events)[i]);
                    }
                    assert(signals.contains(arrivals(events)[arrivals(events).len() - 1]));
                }
            },
            _ => {},
        }
    }
}

/// Whether `number` is one of `signals`.
pub fn is_subscribed(signals: &[i32], number: i32) -> (found: bool)
    ensures
        found == signals@.contains(number),
{
    let mut i: usize = 0;
    while i < signals.len()
        invariant
            i <= signals@.len(),
            forall|k: int| 0 <= k < i ==> signals@[k] != number,
        decreases signals@.len() - i,
    {
        if signals[i] == number {
            return true;
        }
        i = i + 1;
    }
    false
}

/// Decides what the relay does after `event`.
pub fn relay_step(signals: &[i32], event: RelayEvent) -> (action: RelayAction)
    ensures
        action == relay_next(signals@, event),
        action matches RelayAction::Send(number) ==> signals@.contains(number),
{
    match event {
        RelayEvent::Started => RelayAction::Subscribe,
        RelayEvent::Subscribed => RelayAction::Wait,
        RelayEvent::SubscribeFailed => RelayAction::Halt(Fault::SourceFailure),
        RelayEvent::Signal(number) => {
            if is_subscribed(signals, number) {
                RelayAction::Send(number)
            } else {
                RelayAction::Wait
            }
        },
        RelayEvent::WaitEnded => RelayAction::Subscribe,
        RelayEvent::Sent => RelayAction::Wait,
        RelayEvent::ReceiverGone => RelayAction::Halt(Fault::ChannelClosed),
    }
}

} // verus!
