//! Why a background loop gives up.

use vstd::prelude::*;

verus! {

/// The conditions that end a loop for good. None is retried, and nothing is
/// emitted for the unit of input that ran into one.
#[derive(Debug, Copy, Clone, PartialEq, Eq, Structural)]
pub enum Fault {
    /// The source ran dry or the OS refused it: the input stream ended or
    /// could not be read, or the signals could not be subscribed to.
    SourceFailure,
    /// A frame did not decode into a click record.
    DecodeFailure,
    /// The consumer dropped the receiving end of the channel.
    ChannelClosed,
}

} // verus!
