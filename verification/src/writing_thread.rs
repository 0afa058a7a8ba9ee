//! The writing loop as a state machine.
//!
//! The consumer owns the current segment. For every message taken from the
//! queue, [`writing_thread_logic`] says which file operations are due, in
//! order; the embedding program carries them out. A segment is written under
//! a temporary name and gets its final name only once its header is patched.

use crossbeam::channel::Receiver;
use vstd::prelude::*;
use crate::channel::receive_message;
use crate::channel_messages::{MessageView, RecorderToWriterChannelMessage};
use crate::config::{BITS_PER_SAMPLE, MAX_DATA_BYTES, NUM_CHANNELS_IN_FILE};
use crate::error::RecorderError;
use crate::wav_utils::{
    format_fits, interleave, spec_interleave, spec_wav_header, write_wav_header,
};

verus! {

/// Where the writing loop stands between two messages.
#[derive(Clone, Debug, PartialEq, Eq)]
pub enum WritingState {
    /// No segment is open.
    Idle,
    /// A segment is open under its temporary name.
    Writing {
        /// The name the finished segment gets.
        path: String,
        /// Sample bytes appended after the header so far.
        data_bytes: u64,
    },
    /// The end of the stream was seen; nothing more is written.
    Stopped,
}

/// The mathematical content of a [`WritingState`].
pub enum WritingStateView {
    /// No segment is open.
    Idle,
    /// A segment is open.
    Writing { path: Seq<char>, data_bytes: nat },
    /// The loop has ended.
    Stopped,
}

impl View for WritingState {
    type V = WritingStateView;

    open spec fn view(&self) -> WritingStateView {
        match self {
            WritingState::Idle => WritingStateView::Idle,
            WritingState::Writing { path, data_bytes } => WritingStateView::Writing {
                path: path@,
                data_bytes: *data_bytes as nat,
            },
            WritingState::Stopped => WritingStateView::Stopped,
        }
    }
}

/// One file operation the embedding program performs for the writing loop.
#[derive(Clone, Debug, PartialEq, Eq)]
pub enum WriterAction {
    /// Create `temp_path`, emptying it if it exists, and write `header`.
    Create { temp_path: String, header: Vec<u8> },
    /// Append `bytes` to the open temporary file in one write.
    Append { bytes: Vec<u8> },
    /// Flush the open temporary file, which must hold the header and
    /// `data_bytes` bytes of samples, patch both size fields from its
    /// length and rename it from `temp_path` to `final_path`.
    Finalize { temp_path: String, final_path: String, data_bytes: u64 },
    /// Leave the loop: the stream has ended.
    Stop,
}

/// The mathematical content of a [`WriterAction`].
pub enum WriterActionView {
    /// Create the temporary file with a placeholder header.
    Create { temp_path: Seq<char>, header: Seq<u8> },
    /// Append sample bytes.
    Append { bytes: Seq<u8> },
    /// Patch the header and rename.
    Finalize { temp_path: Seq<char>, final_path: Seq<char>, data_bytes: nat },
    /// Leave the loop.
    Stop,
}

impl View for WriterAction {
    type V = WriterActionView;

    open spec fn view(&self) -> WriterActionView {
        match self {
            WriterAction::Create { temp_path, header } => WriterActionView::Create {
                temp_path: temp_path@,
                header: header@,
            },
            WriterAction::Append { bytes } => WriterActionView::Append { bytes: bytes@ },
            WriterAction::Finalize { temp_path, final_path, data_bytes } => {
                WriterActionView::Finalize {
                    temp_path: temp_path@,
                    final_path: final_path@,
                    data_bytes: *data_bytes as nat,
                }
            },
            WriterAction::Stop => WriterActionView::Stop,
        }
    }
}

impl DeepView for WriterAction {
    type V = WriterActionView;

    open spec fn deep_view(&self) -> WriterActionView {
        self@
    }
}

/// The name a segment is written under until it is finalized: its final
/// name with `.part` appended.
pub open spec fn spec_temp_path(final_path: Seq<char>) -> Seq<char> {
    final_path + ".part"@
}

/// The placeholder header every new segment starts with.
pub open spec fn spec_placeholder(sample_rate: u32) -> Seq<u8> {
    spec_wav_header(NUM_CHANNELS_IN_FILE, sample_rate, BITS_PER_SAMPLE, 0)
}

/// Whether a stereo 16-bit header can describe `sample_rate`.
pub open spec fn rate_fits(sample_rate: u32) -> bool {
    format_fits(NUM_CHANNELS_IN_FILE, sample_rate, BITS_PER_SAMPLE)
}

/// What closing the open segment, if there is one, asks for.
pub open spec fn spec_end_file(state: WritingStateView) -> Seq<WriterActionView> {
    match state {
        WritingStateView::Writing { path, data_bytes } => seq![
            WriterActionView::Finalize {
                temp_path: spec_temp_path(path),
                final_path: path,
                data_bytes,
            },
        ],
        _ => Seq::empty(),
    }
}

/// The state after `message`.
///
/// A message that cannot be honoured leaves the state as it is: a new
/// segment whose header cannot describe the sample rate, or data that would
/// grow the segment beyond what its size fields can announce.
pub open spec fn spec_next_state(
    state: WritingStateView,
    sample_rate: u32,
    message: MessageView,
) -> WritingStateView {
    match (state, message) {
        (WritingStateView::Stopped, _) => WritingStateView::Stopped,
        (_, MessageView::EndThread) => WritingStateView::Stopped,
        (_, MessageView::NewFile(path)) => if rate_fits(sample_rate) {
            WritingStateView::Writing { path, data_bytes: 0 }
        } else {
            state
        },
        (WritingStateView::Idle, MessageView::Data(_, _)) => WritingStateView::Idle,
        (WritingStateView::Writing { path, data_bytes }, MessageView::Data(a, b)) => {
            let grown = data_bytes + spec_interleave(a, b).len();
            if grown <= MAX_DATA_BYTES {
                WritingStateView::Writing { path, data_bytes: grown }
            } else {
                state
            }
        },
    }
}

/// The file operations `message` asks for, in the order in which they are
/// to be performed, or the error that ends the writing loop.
///
/// - After the end of the stream nothing is done.
/// - The end of the stream finalizes the open segment, if any, and stops.
/// - A new segment finalizes the open one, if any, and only then creates
///   the next temporary file with its placeholder header.
/// - Data is appended to the open segment as one block of interleaved
///   bytes; with no segment open it is dropped.
pub open spec fn spec_actions(
    state: WritingStateView,
    sample_rate: u32,
    message: MessageView,
) -> Result<Seq<WriterActionView>, RecorderError> {
    match (state, message) {
        (WritingStateView::Stopped, _) => Ok(Seq::empty()),
        (_, MessageView::EndThread) => Ok(spec_end_file(state).push(WriterActionView::Stop)),
        (_, MessageView::NewFile(path)) => if rate_fits(sample_rate) {
            Ok(
                spec_end_file(state).push(
                    WriterActionView::Create {
                        temp_path: spec_temp_path(path),
                        header: spec_placeholder(sample_rate),
                    },
                ),
            )
        } else {
            Err(RecorderError::ContainerSize)
        },
        (WritingStateView::Idle, MessageView::Data(_, _)) => Ok(Seq::empty()),
        (WritingStateView::Writing { path, data_bytes }, MessageView::Data(a, b)) => {
            if data_bytes + spec_interleave(a, b).len() <= MAX_DATA_BYTES {
                Ok(seq![WriterActionView::Append { bytes: spec_interleave(a, b) }])
            } else {
                Err(RecorderError::ContainerSize)
            }
        },
    }
}

/// The content of what [`writing_thread_logic`] hands back.
pub open spec fn outcome_view(r: Result<Vec<WriterAction>, RecorderError>) -> Result<
    Seq<WriterActionView>,
    RecorderError,
> {
    match r {
        Ok(actions) => Ok(actions.deep_view()),
        Err(e) => Err(e),
    }
}

/// The temporary name for a segment that will be called `final_path`.
pub fn temp_path_for(final_path: &String) -> (temp: String)
    ensures
        temp@ == spec_temp_path(final_path@),
{
    let mut temp = final_path.clone();
    temp.append(".part");
    temp
}

/// Closes the open segment, if there is one: the state becomes `Idle` and
/// the finalize operation for the segment is appended to `actions`. With no
/// segment open nothing changes.
pub fn end_file(state: WritingState, actions: &mut Vec<WriterAction>) -> (next: WritingState)
    ensures
        final(actions).deep_view() == old(actions).deep_view() + spec_end_file(state@),
        state@ is Writing ==> next@ == WritingStateView::Idle,
        !(state@ is Writing) ==> next@ == state@,
{
    match state {
        WritingState::Writing { path, data_bytes } => {
            let temp_path = temp_path_for(&path);
            actions.push(WriterAction::Finalize { temp_path, final_path: path, data_bytes });
            assert(actions.deep_view() =~= old(actions).deep_view() + spec_end_file(state@));
            WritingState::Idle
        },
        other => {
            assert(actions.deep_view() =~= old(actions).deep_view() + spec_end_file(state@));
            other
        },
    }
}

/// One turn of the writing loop: takes the state and the next message from
/// the queue, and returns the state to continue from together with the file
/// operations to perform, in order. An error is fatal to the writing loop;
/// the state is then returned unchanged.
pub fn writing_thread_logic(
    state: WritingState,
    sample_rate: u32,
    message: RecorderToWriterChannelMessage,
) -> (r: (WritingState, Result<Vec<WriterAction>, RecorderError>))
    ensures
        r.0@ == spec_next_state(state@, sample_rate, message@),
        outcome_view(r.1) == spec_actions(state@, sample_rate, message@),
{
    let mut actions: Vec<WriterAction> = Vec::new();
    assert(actions.deep_view() =~= Seq::<WriterActionView>::empty());
    match state {
        WritingState::Stopped => (WritingState::Stopped, Ok(actions)),
        state => match message {
            RecorderToWriterChannelMessage::EndThread => {
                let _ = end_file(state, &mut actions);
                actions.push(WriterAction::Stop);
                assert(actions.deep_view() =~= spec_end_file(state@).push(
                    WriterActionView::Stop,
                ));
                (WritingState::Stopped, Ok(actions))
            },
            RecorderToWriterChannelMessage::NewFile(path) => {
                let mut header: Vec<u8> = Vec::new();
                match write_wav_header(
                    &mut header,
                    NUM_CHANNELS_IN_FILE,
                    sample_rate,
                    BITS_PER_SAMPLE,
                ) {
                    Err(_) => (state, Err(RecorderError::ContainerSize)),
                    Ok(()) => {
                        assert(header@ =~= spec_placeholder(sample_rate));
                        let _ = end_file(state, &mut actions);
                        let temp_path = temp_path_for(&path);
                        actions.push(WriterAction::Create { temp_path, header });
                        assert(actions.deep_view() =~= spec_end_file(state@).push(
                            WriterActionView::Create {
                                temp_path: spec_temp_path(path@),
                                header: spec_placeholder(sample_rate),
                            },
                        ));
                        (WritingState::Writing { path, data_bytes: 0 }, Ok(actions))
                    },
                }
            },
            RecorderToWriterChannelMessage::Data(pair) => match state {
                WritingState::Writing { path, data_bytes } => {
                    let bytes = interleave(&pair[0], &pair[1]);
                    let added = bytes.len() as u64;
                    if added > MAX_DATA_BYTES || data_bytes > MAX_DATA_BYTES - added {
                        (
                            WritingState::Writing { path, data_bytes },
                            Err(RecorderError::ContainerSize),
                        )
                    } else {
                        actions.push(WriterAction::Append { bytes });
                        assert(actions.deep_view() =~= seq![
                            WriterActionView::Append { bytes: spec_interleave(pair@[0]@, pair@[1]@) },
                        ]);
                        (
                            WritingState::Writing { path, data_bytes: data_bytes + added },
                            Ok(actions),
                        )
                    }
                },
                other => (other, Ok(actions)),
            },
        },
    }
}

/// One turn of the writing loop on what a receive brought: a message is
/// handled as [`writing_thread_logic`] says, and a disconnected queue ends
/// the loop with the state unchanged.
pub fn write_received(
    state: WritingState,
    sample_rate: u32,
    received: Result<RecorderToWriterChannelMessage, RecorderError>,
) -> (r: (WritingState, Result<Vec<WriterAction>, RecorderError>))
    ensures
        received matches Ok(message) ==> r.0@ == spec_next_state(state@, sample_rate, message@)
            && outcome_view(r.1) == spec_actions(state@, sample_rate, message@),
        received matches Err(e) ==> r.0 == state && r.1 == Err::<
            Vec<WriterAction>,
            RecorderError,
        >(e),
{
    match received {
        Ok(message) => writing_thread_logic(state, sample_rate, message),
        Err(e) => (state, Err(e)),
    }
}

/// One turn of the writing loop on the queue: waits for the next message
/// and handles it. Whatever message arrives, the state and the file
/// operations are those [`writing_thread_logic`] gives for it; when the
/// queue is empty and the recording loop has gone away, the loop ends with
/// `QueueDisconnected` and the state unchanged.
pub fn write_audio(
    state: WritingState,
    sample_rate: u32,
    receiver: &Receiver<RecorderToWriterChannelMessage>,
) -> (r: (WritingState, Result<Vec<WriterAction>, RecorderError>))
    ensures
        (r.0 == state && r.1 == Err::<Vec<WriterAction>, RecorderError>(
            RecorderError::QueueDisconnected,
        )) || (exists|message: MessageView|
            r.0@ == #[trigger] spec_next_state(state@, sample_rate, message) && outcome_view(r.1)
                == spec_actions(state@, sample_rate, message)),
{
    let received = receive_message(receiver);
    let ghost arrived = received;
    let r = write_received(state, sample_rate, received);
    proof {
        match arrived {
            Ok(message) => {
                assert(r.0@ == spec_next_state(state@, sample_rate, message@));
            },
            Err(_) => {},
        }
    }
    r
}

} // verus!
