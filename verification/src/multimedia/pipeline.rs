//! The kinds of pipeline elements, pads and messages, and the bus that
//! carries messages.

use vstd::prelude::*;
use crate::multimedia::StreamState;

verus! {

#[derive(Debug, Clone, Copy, PartialEq, Eq, Structural)]
pub enum ElementType {
    Source,
    Sink,
    Filter,
    Demuxer,
    Muxer,
    Decoder,
    Encoder,
    Queue,
    Tee,
    Mixer,
}

/// A value a capability allows: one value, an inclusive range, or a list.
pub enum RangeValue {
    Fixed(i32),
    Range(i32, i32),
    List(Vec<i32>),
}

/// What an element posts to the pipeline's bus.
pub enum Message {
    StateChanged { old_state: StreamState, new_state: StreamState },
    Error { source: String, error: String },
    Warning { source: String, warning: String },
    Info { source: String, info: String },
    Eos,
    Buffering { percent: u8 },
    StreamStart,
    Tag { tags: Vec<(String, String)> },
}

#[derive(Debug, Clone, Copy, PartialEq, Eq, Structural)]
pub enum PadDirection {
    Source,
    Sink,
}

/// The messages posted to a pipeline and not yet polled; the most recent
/// is polled first.
pub struct Bus {
    messages: Vec<Message>,
}

impl Bus {
    /// The pending messages, oldest first.
    pub closed spec fn pending(&self) -> Seq<Message> {
        self.messages@
    }

    /// No message pending.
    pub fn new() -> (r: Self)
        ensures
            r.pending() == Seq::<Message>::empty(),
    {
        Bus { messages: Vec::new() }
    }

    /// Adds a message after the pending ones.
    pub fn post(&mut self, message: Message)
        ensures
            final(self).pending() == old(self).pending().push(message),
    {
        self.messages.push(message);
    }

    /// Takes the most recently posted pending message; `None` when there is
    /// none.
    pub fn poll(&mut self) -> (r: Option<Message>)
        ensures
            old(self).pending().len() == 0 ==> r is None && final(self).pending() == old(self).pending(),
            old(self).pending().len() > 0 ==> r == Some(old(self).pending().last())
                && final(self).pending() == old(self).pending().drop_last(),
    {
        self.messages.pop()
    }
}

} // verus!
