//! The event listener: read a line, cut out its frame, have it decoded, send
//! the record, and start over.
//!
//! The listener itself only decides. Its driver reads, decodes and sends, calls
//! [`listener_step`] with the outcome of what it just did, and does what the
//! returned action says.

use crate::event::{BarEventView, I3BarEvent};
use crate::fault::Fault;
use crate::frame::{extract_object, lemma_frame_needs_both_braces, object_frame};
use vstd::prelude::*;

verus! {

/// What the driver reports to the listener.
#[derive(Debug, Clone)]
pub enum ListenerEvent {
    /// The listener was just started.
    Started,
    /// This line was read from the input stream.
    Line(String),
    /// The input stream ended or could not be read.
    InputClosed,
    /// The frame decoded into this record.
    Decoded(I3BarEvent),
    /// The frame did not decode.
    Malformed,
    /// The channel took the last record.
    Sent,
    /// The channel has no receiver any more.
    ReceiverGone,
}

/// What the listener has its driver do next.
#[derive(Debug, Clone)]
pub enum ListenerAction {
    /// Block until the next line is read.
    ReadLine,
    /// Decode this frame into a click record.
    Decode(String),
    /// Send this record on the channel.
    Send(I3BarEvent),
    /// Stop for good.
    Halt(Fault),
}

/// A driver's report as a mathematical value.
pub enum ListenerEventView {
    Started,
    Line(Seq<char>),
    InputClosed,
    Decoded(BarEventView),
    Malformed,
    Sent,
    ReceiverGone,
}

/// A listener's action as a mathematical value.
pub enum ListenerActionView {
    ReadLine,
    Decode(Seq<char>),
    Send(BarEventView),
    Halt(Fault),
}

impl View for ListenerEvent {
    type V = ListenerEventView;

    open spec fn view(&self) -> ListenerEventView {
        match *self {
            ListenerEvent::Started => ListenerEventView::Started,
            ListenerEvent::Line(line) => ListenerEventView::Line(line@),
            ListenerEvent::InputClosed => ListenerEventView::InputClosed,
            ListenerEvent::Decoded(record) => ListenerEventView::Decoded(record@),
            ListenerEvent::Malformed => ListenerEventView::Malformed,
            ListenerEvent::Sent => ListenerEventView::Sent,
            ListenerEvent::ReceiverGone => ListenerEventView::ReceiverGone,
        }
    }
}

impl View for ListenerAction {
    type V = ListenerActionView;

    open spec fn view(&self) -> ListenerActionView {
        match *self {
            ListenerAction::ReadLine => ListenerActionView::ReadLine,
            ListenerAction::Decode(frame) => ListenerActionView::Decode(frame@),
            ListenerAction::Send(record) => ListenerActionView::Send(record@),
            ListenerAction::Halt(fault) => ListenerActionView::Halt(fault),
        }
    }
}

/// The listener's reaction to `event`.
///
/// A line with an empty frame is passed over and the next line is read. Any
/// other line has its frame decoded, and what the decoder returns is sent as it
/// is. Every failure halts the listener.
pub open spec fn listener_next(event: ListenerEventView) -> ListenerActionView {
    match event {
        ListenerEventView::Started => ListenerActionView::ReadLine,
        ListenerEventView::Line(line) => if object_frame(line).len() == 0 {
            ListenerActionView::ReadLine
        } else {
            ListenerActionView::Decode(object_frame(line))
        },
        ListenerEventView::InputClosed => ListenerActionView::Halt(Fault::SourceFailure),
        ListenerEventView::Decoded(record) => ListenerActionView::Send(record),
        ListenerEventView::Malformed => ListenerActionView::Halt(Fault::DecodeFailure),
        ListenerEventView::Sent => ListenerActionView::ReadLine,
        ListenerEventView::ReceiverGone => ListenerActionView::Halt(Fault::ChannelClosed),
    }
}

/// Whether `event` can be what a driver reports after carrying out `action`:
/// a read ends in a line or a closed input, a decode in a record or a
/// rejection, a send in a delivery or a lost receiver. Nothing follows a halt.
pub open spec fn may_follow(action: ListenerActionView, event: ListenerEventView) -> bool {
    match action {
        ListenerActionView::ReadLine => event is Line || event is InputClosed,
        ListenerActionView::Decode(_) => event is Decoded || event is Malformed,
        ListenerActionView::Send(_) => event is Sent || event is ReceiverGone,
        ListenerActionView::Halt(_) => false,
    }
}

/// Whether `events` is what a driver reports over one life of the listener: it
/// begins with the start, and each later report follows the action that the
/// listener took on the report before it.
pub open spec fn is_run(events: Seq<ListenerEventView>) -> bool {
    &&& events.len() > 0
    &&& events[0] is Started
    &&& forall|i: int|
        0 < i < events.len() ==> may_follow(listener_next(events[i - 1]), #[trigger] events[i])
}

/// Every record that the listener sends is the one that the decoder returned
/// for the frame of the line read just before, and that frame was not empty.
pub proof fn lemma_sent_record_comes_from_line(events: Seq<ListenerEventView>, i: int)
    requires
        is_run(events),
        0 <= i < events.len(),
        listener_next(events[i]) is Send,
    ensures
        2 <= i,
        events[i] == ListenerEventView::Decoded(listener_next(events[i])->Send_0),
        events[i - 1] is Line,
        object_frame(events[i - 1]->Line_0).len() > 0,
        listener_next(events[i - 1]) == ListenerActionView::Decode(
            object_frame(events[i - 1]->Line_0),
        ),
{
    assert(events[i] is Decoded);
    assert(may_follow(listener_next(events[i - 1]), events[i]));
    assert(listener_next(events[i - 1]) is Decode);
    assert(events[i - 1] is Line);
    assert(may_follow(listener_next(events[i - 2]), events[i - 1]));
}

/// The records that `events` report as decoded, in the order of decoding.
pub open spec fn decoded_records(events: Seq<ListenerEventView>) -> Seq<BarEventView>
    decreases events.len(),
{
    if events.len() == 0 {
        Seq::empty()
    } else {
        let earlier = decoded_records(events.drop_last());
        match events.last() {
            ListenerEventView::Decoded(record) => earlier.push(record),
            _ => earlier,
        }
    }
}

/// The records that the listener has sent in reaction to `events`, in the
/// order of sending.
pub open spec fn sent_records(events: Seq<ListenerEventView>) -> Seq<BarEventView>
    decreases events.len(),
{
    if events.len() == 0 {
        Seq::empty()
    } else {
        let earlier = sent_records(events.drop_last());
        match listener_next(events.last()) {
            ListenerActionView::Send(record) => earlier.push(record),
            _ => earlier,
        }
    }
}

/// The listener sends each decoded record once, unchanged, and in the order of
/// decoding; it sends nothing else.
pub proof fn lemma_sent_is_decoded(events: Seq<ListenerEventView>)
    ensures
        sent_records(events) == decoded_records(events),
    decreases events.len(),
{
    if events.len() > 0 {
        lemma_sent_is_decoded(events.drop_last());
    }
}

/// Decides what the listener does after `event`.
pub fn listener_step(event: ListenerEvent) -> (action: ListenerAction)
    ensures
        action@ == listener_next(event@),
        event matches ListenerEvent::Line(line) && !(line@.contains('{') && line@.contains('}'))
            ==> action is ReadLine,
        event matches ListenerEvent::Decoded(record) ==> action == ListenerAction::Send(record),
{
    match event {
        ListenerEvent::Started => ListenerAction::ReadLine,
        ListenerEvent::Line(line) => {
            proof {
                if !(line@.contains('{') && line@.contains('}')) {
                    lemma_frame_needs_both_braces(line@);
                }
            }
            let frame = extract_object(line.as_str());
            if frame.is_empty() {
                ListenerAction::ReadLine
            } else {
                ListenerAction::Decode(frame.to_owned())
            }
        },
        ListenerEvent::InputClosed => ListenerAction::Halt(Fault::SourceFailure),
        ListenerEvent::Decoded(record) => ListenerAction::Send(record),
        ListenerEvent::Malformed => ListenerAction::Halt(Fault::DecodeFailure),
        ListenerEvent::Sent => ListenerAction::ReadLine,
        ListenerEvent::ReceiverGone => ListenerAction::Halt(Fault::ChannelClosed),
    }
}

} // verus!
