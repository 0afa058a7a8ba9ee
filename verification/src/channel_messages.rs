//! What the recording side tells the writing side.

use vstd::prelude::*;

verus! {

/// One message on the queue from the recording loop to the writing loop.
///
/// Messages of one segment arrive as `NewFile`, then any number of `Data`,
/// and the segment ends with the next `NewFile` or with `EndThread`.
#[derive(Clone, Debug, PartialEq, Eq)]
pub enum RecorderToWriterChannelMessage {
    /// A new segment starts; the payload is the path the finished file gets.
    NewFile(String),
    /// One frame from each device, channel A first.
    Data([Vec<i16>; 2]),
    /// Nothing follows: finish the open segment and stop.
    EndThread,
}

/// The mathematical content of a [`RecorderToWriterChannelMessage`].
pub enum MessageView {
    /// A new segment with the characters of its final path.
    NewFile(Seq<char>),
    /// The samples of channel A and of channel B.
    Data(Seq<i16>, Seq<i16>),
    /// End of the stream.
    EndThread,
}

impl View for RecorderToWriterChannelMessage {
    type V = MessageView;

    open spec fn view(&self) -> MessageView {
        match self {
            RecorderToWriterChannelMessage::NewFile(path) => MessageView::NewFile(path@),
            RecorderToWriterChannelMessage::Data(pair) => MessageView::Data(pair@[0]@, pair@[1]@),
            RecorderToWriterChannelMessage::EndThread => MessageView::EndThread,
        }
    }
}

impl DeepView for RecorderToWriterChannelMessage {
    type V = MessageView;

    open spec fn deep_view(&self) -> MessageView {
        self@
    }
}

impl RecorderToWriterChannelMessage {
    /// Packs two frames into a `Data` message, channel A first.
    pub fn data(a: Vec<i16>, b: Vec<i16>) -> (m: RecorderToWriterChannelMessage)
        ensures
            m@ == MessageView::Data(a@, b@),
    {
        RecorderToWriterChannelMessage::Data([a, b])
    }
}

} // verus!
