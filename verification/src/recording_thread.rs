//! The recording loop as a state machine.
//!
//! The producer owns both capture devices. It asks the embedding program
//! for one outside operation at a time ([`RecordingAction`]), is told how
//! it went ([`RecordingEvent`]), and decides what comes next and which
//! message, if any, goes to the writing loop. One segment runs through
//! naming, reset, trigger, alignment and streaming; a device fault is met
//! with one recovery attempt, after which the segment is abandoned and the
//! next one begins.

use vstd::prelude::*;
use crate::alignment::{
    cross_correlation_offset, discard_count, leading_device, poll_offset, spec_abs,
    spec_cross_correlation_outcome, spec_leading, spec_poll_outcome,
};
use crate::channel::send_message;
use crate::channel_messages::{MessageView, RecorderToWriterChannelMessage};
use crate::config::{AlignmentStrategy, RecorderConfig};
use crate::error::{Device, RecorderError};
use crate::file_name::{new_file_name, spec_new_file_name};
use crate::sound_emitter::SoundEmitter;
use crossbeam::channel::Sender;

verus! {

/// Where the recording loop stands between two outside operations.
#[derive(Clone, Copy, Debug, PartialEq, Eq, Structural)]
pub enum RecordingState {
    /// Between segments; the shutdown flag is looked at next.
    Idle,
    /// A segment is due; the clock is read to name it.
    Naming,
    /// The segment is announced; both devices are being reset.
    Resetting,
    /// The devices are reset; the emitter is being triggered.
    Triggering,
    /// The pulse is out; the start offset is being measured.
    Aligning,
    /// The offset is known; `samples` leading samples of `device` are
    /// being discarded.
    Discarding { device: Device, samples: u64 },
    /// Frame pairs are being read; `frames_done` went out so far.
    Streaming { frames_done: u64 },
    /// `device` reported a fault and is being recovered; device B follows
    /// if `then_b` is set.
    Recovering { device: Device, then_b: bool },
    /// The end of the stream was sent.
    Finished,
    /// The loop ended on an error.
    Failed(RecorderError),
}

/// One outside operation the recording loop asks for.
#[derive(Clone, Copy, Debug, PartialEq, Eq, Structural)]
pub enum RecordingAction {
    /// Read the shutdown flag.
    CheckShutdown,
    /// Read the clock, in whole seconds since the epoch.
    ReadClock,
    /// Reset both devices to a drained state and start them.
    ResetDevices,
    /// Emit one pulse.
    EmitPulse,
    /// Poll both devices until each has reported data or the timeout ran
    /// out, noting the instant of each first report.
    PollReadiness { timeout_ns: u64 },
    /// Read a window of `samples` samples from each device.
    CaptureWindows { samples: usize },
    /// Read and drop the first `count` samples of `device`.
    Discard { device: Device, count: u64 },
    /// Read one frame of `samples` samples from each device.
    ReadFrames { samples: usize },
    /// Make one attempt to recover this device from its fault.
    Recover(Device),
    /// Leave the loop: the recording has ended in good order.
    Finish,
    /// Leave the loop and report this error.
    Abort(RecorderError),
}

/// How an outside operation went.
#[derive(Clone, Debug, PartialEq, Eq)]
pub enum RecordingEvent {
    /// The shutdown flag as it was read.
    Shutdown(bool),
    /// The clock as it was read, in seconds since the epoch.
    Clock(u64),
    /// Both devices were reset, or the named device failed to.
    Reset(Option<Device>),
    /// The pulse was emitted.
    PulseEmitted,
    /// The instants, in nanoseconds, at which devices A and B first
    /// reported data; `None` for a device that did not within the timeout.
    Readiness(Option<u64>, Option<u64>),
    /// The windows read from devices A and B; `None` for a failed read.
    Windows(Option<Vec<i16>>, Option<Vec<i16>>),
    /// Whether the leading samples were read and dropped.
    Discarded(bool),
    /// The frames read from devices A and B; `None` for a failed read.
    Frames(Option<Vec<i16>>, Option<Vec<i16>>),
    /// Whether the recovery attempt succeeded.
    Recovered(bool),
}

/// The mathematical content of a [`RecordingEvent`].
pub enum EventView {
    Shutdown(bool),
    Clock(u64),
    Reset(Option<Device>),
    PulseEmitted,
    Readiness(Option<u64>, Option<u64>),
    Windows(Option<Seq<i16>>, Option<Seq<i16>>),
    Discarded(bool),
    Frames(Option<Seq<i16>>, Option<Seq<i16>>),
    Recovered(bool),
}

/// The samples of a read, if it succeeded.
pub open spec fn read_view(read: Option<Vec<i16>>) -> Option<Seq<i16>> {
    match read {
        Some(samples) => Some(samples@),
        None => None,
    }
}

impl View for RecordingEvent {
    type V = EventView;

    open spec fn view(&self) -> EventView {
        match self {
            RecordingEvent::Shutdown(flag) => EventView::Shutdown(*flag),
            RecordingEvent::Clock(secs) => EventView::Clock(*secs),
            RecordingEvent::Reset(failed) => EventView::Reset(*failed),
            RecordingEvent::PulseEmitted => EventView::PulseEmitted,
            RecordingEvent::Readiness(a, b) => EventView::Readiness(*a, *b),
            RecordingEvent::Windows(a, b) => EventView::Windows(read_view(*a), read_view(*b)),
            RecordingEvent::Discarded(done) => EventView::Discarded(*done),
            RecordingEvent::Frames(a, b) => EventView::Frames(read_view(*a), read_view(*b)),
            RecordingEvent::Recovered(done) => EventView::Recovered(*done),
        }
    }
}

/// Whether a read delivered a frame that can be forwarded: it succeeded
/// and has exactly the configured length.
pub open spec fn spec_usable(read: Option<Seq<i16>>, frame_size: usize) -> bool {
    read matches Some(samples) && samples.len() == frame_size
}

/// The state that recovers every device that failed, device A first.
pub open spec fn spec_recover_failed(a_ok: bool, b_ok: bool) -> RecordingState
    recommends
        !a_ok || !b_ok,
{
    if !a_ok {
        RecordingState::Recovering { device: Device::A, then_b: !b_ok }
    } else {
        RecordingState::Recovering { device: Device::B, then_b: false }
    }
}

/// What follows a measurement: streaming at once when the devices are
/// aligned, discarding from the leading device when they are not, and the
/// end of the loop when no offset could be measured.
pub open spec fn spec_after_alignment(outcome: Result<i64, RecorderError>) -> RecordingState {
    match outcome {
        Err(e) => RecordingState::Failed(e),
        Ok(offset) => match spec_leading(offset as int) {
            Some(device) => RecordingState::Discarding {
                device,
                samples: spec_abs(offset as int) as u64,
            },
            None => RecordingState::Streaming { frames_done: 0 },
        },
    }
}

/// The state after `event`. An event that does not answer the operation
/// the state is waiting for changes nothing.
pub open spec fn spec_next_state(
    state: RecordingState,
    config: RecorderConfig,
    event: EventView,
) -> RecordingState {
    match (state, event) {
        (RecordingState::Idle, EventView::Shutdown(true)) => RecordingState::Finished,
        (RecordingState::Idle, EventView::Shutdown(false)) => RecordingState::Naming,
        (RecordingState::Naming, EventView::Clock(_)) => RecordingState::Resetting,
        (RecordingState::Resetting, EventView::Reset(None)) => RecordingState::Triggering,
        (RecordingState::Resetting, EventView::Reset(Some(device))) => {
            RecordingState::Recovering { device, then_b: false }
        },
        (RecordingState::Triggering, EventView::PulseEmitted) => RecordingState::Aligning,
        (RecordingState::Aligning, EventView::Readiness(a, b)) => {
            if config.alignment == AlignmentStrategy::Poll {
                spec_after_alignment(
                    spec_poll_outcome(a, b, config.sample_rate, config.alignment_timeout_ns),
                )
            } else {
                state
            }
        },
        (RecordingState::Aligning, EventView::Windows(a, b)) => {
            if config.alignment == AlignmentStrategy::CrossCorrelation {
                match (a, b) {
                    (Some(window_a), Some(window_b)) => spec_after_alignment(
                        spec_cross_correlation_outcome(window_a, window_b),
                    ),
                    _ => spec_recover_failed(a is Some, b is Some),
                }
            } else {
                state
            }
        },
        (RecordingState::Discarding { .. }, EventView::Discarded(true)) => {
            RecordingState::Streaming { frames_done: 0 }
        },
        (RecordingState::Discarding { device, .. }, EventView::Discarded(false)) => {
            RecordingState::Recovering { device, then_b: false }
        },
        (RecordingState::Streaming { frames_done }, EventView::Frames(a, b)) => {
            let a_ok = spec_usable(a, config.frame_size);
            let b_ok = spec_usable(b, config.frame_size);
            if a_ok && b_ok {
                if frames_done + 1 >= config.spec_frames_per_segment() {
                    RecordingState::Idle
                } else {
                    RecordingState::Streaming { frames_done: (frames_done + 1) as u64 }
                }
            } else {
                spec_recover_failed(a_ok, b_ok)
            }
        },
        (RecordingState::Recovering { device, then_b }, EventView::Recovered(true)) => {
            if then_b {
                RecordingState::Recovering { device: Device::B, then_b: false }
            } else {
                RecordingState::Idle
            }
        },
        (RecordingState::Recovering { device, .. }, EventView::Recovered(false)) => {
            RecordingState::Failed(RecorderError::RecoveryFailed(device))
        },
        _ => state,
    }
}

/// The message `event` sends to the writing loop, if any: the end of the
/// stream when shutdown is observed between segments, the announcement of
/// a segment once the clock has named it, and a frame pair when both
/// devices delivered a usable frame.
pub open spec fn spec_message(
    state: RecordingState,
    config: RecorderConfig,
    destination_folder: Seq<char>,
    event: EventView,
) -> Option<MessageView> {
    match (state, event) {
        (RecordingState::Idle, EventView::Shutdown(true)) => Some(MessageView::EndThread),
        (RecordingState::Naming, EventView::Clock(secs)) => Some(
            MessageView::NewFile(spec_new_file_name(destination_folder, secs)),
        ),
        (RecordingState::Streaming { .. }, EventView::Frames(Some(a), Some(b))) => {
            if a.len() == config.frame_size && b.len() == config.frame_size {
                Some(MessageView::Data(a, b))
            } else {
                None
            }
        },
        _ => None,
    }
}

/// The outside operation `state` is waiting for.
pub open spec fn spec_pending(state: RecordingState, config: RecorderConfig) -> RecordingAction {
    match state {
        RecordingState::Idle => RecordingAction::CheckShutdown,
        RecordingState::Naming => RecordingAction::ReadClock,
        RecordingState::Resetting => RecordingAction::ResetDevices,
        RecordingState::Triggering => RecordingAction::EmitPulse,
        RecordingState::Aligning => match config.alignment {
            AlignmentStrategy::Poll => RecordingAction::PollReadiness {
                timeout_ns: config.alignment_timeout_ns,
            },
            AlignmentStrategy::CrossCorrelation => RecordingAction::CaptureWindows {
                samples: config.alignment_window,
            },
        },
        RecordingState::Discarding { device, samples } => RecordingAction::Discard {
            device,
            count: samples,
        },
        RecordingState::Streaming { .. } => RecordingAction::ReadFrames {
            samples: config.frame_size,
        },
        RecordingState::Recovering { device, .. } => RecordingAction::Recover(device),
        RecordingState::Finished => RecordingAction::Finish,
        RecordingState::Failed(e) => RecordingAction::Abort(e),
    }
}

/// The content of an optional message.
pub open spec fn message_view(message: Option<RecorderToWriterChannelMessage>) -> Option<
    MessageView,
> {
    match message {
        Some(m) => Some(m@),
        None => None,
    }
}

/// What a read from one device is worth: the frame when the read
/// succeeded and delivered exactly `frame_size` samples, nothing otherwise.
pub fn get_mic_data(read: Option<Vec<i16>>, frame_size: usize) -> (frame: Option<Vec<i16>>)
    ensures
        spec_usable(read_view(read), frame_size) ==> frame == read,
        !spec_usable(read_view(read), frame_size) ==> frame is None,
{
    match read {
        Some(samples) => if samples.len() == frame_size {
            Some(samples)
        } else {
            None
        },
        None => None,
    }
}

/// The outside operation `state` is waiting for.
pub fn pending_action(state: RecordingState, config: &RecorderConfig) -> (action: RecordingAction)
    ensures
        action == spec_pending(state, *config),
{
    match state {
        RecordingState::Idle => RecordingAction::CheckShutdown,
        RecordingState::Naming => RecordingAction::ReadClock,
        RecordingState::Resetting => RecordingAction::ResetDevices,
        RecordingState::Triggering => RecordingAction::EmitPulse,
        RecordingState::Aligning => match config.alignment {
            AlignmentStrategy::Poll => RecordingAction::PollReadiness {
                timeout_ns: config.alignment_timeout_ns,
            },
            AlignmentStrategy::CrossCorrelation => RecordingAction::CaptureWindows {
                samples: config.alignment_window,
            },
        },
        RecordingState::Discarding { device, samples } => RecordingAction::Discard {
            device,
            count: samples,
        },
        RecordingState::Streaming { .. } => RecordingAction::ReadFrames {
            samples: config.frame_size,
        },
        RecordingState::Recovering { device, .. } => RecordingAction::Recover(device),
        RecordingState::Finished => RecordingAction::Finish,
        RecordingState::Failed(e) => RecordingAction::Abort(e),
    }
}

fn recover_failed(a_ok: bool, b_ok: bool) -> (state: RecordingState)
    ensures
        state == spec_recover_failed(a_ok, b_ok),
{
    if !a_ok {
        RecordingState::Recovering { device: Device::A, then_b: !b_ok }
    } else {
        RecordingState::Recovering { device: Device::B, then_b: false }
    }
}

fn after_alignment(outcome: Result<i64, RecorderError>) -> (state: RecordingState)
    ensures
        state == spec_after_alignment(outcome),
{
    match outcome {
        Err(e) => RecordingState::Failed(e),
        Ok(offset) => match leading_device(offset) {
            Some(device) => RecordingState::Discarding { device, samples: discard_count(offset) },
            None => RecordingState::Streaming { frames_done: 0 },
        },
    }
}

/// One turn of the recording loop: takes the state and the outcome of the
/// operation it was waiting for, and returns the state to continue from
/// together with the message to put on the queue, if any. The operation to
/// perform next is [`pending_action`] of the returned state.
pub fn recording_thread_logic(
    state: RecordingState,
    config: &RecorderConfig,
    destination_folder: &str,
    event: RecordingEvent,
) -> (r: (RecordingState, Option<RecorderToWriterChannelMessage>))
    requires
        config.well_formed(),
    ensures
        r.0 == spec_next_state(state, *config, event@),
        message_view(r.1) == spec_message(state, *config, destination_folder@, event@),
{
    match (state, event) {
        (RecordingState::Idle, RecordingEvent::Shutdown(flag)) => {
            if flag {
                (RecordingState::Finished, Some(RecorderToWriterChannelMessage::EndThread))
            } else {
                (RecordingState::Naming, None)
            }
        },
        (RecordingState::Naming, RecordingEvent::Clock(secs)) => {
            let path = new_file_name(destination_folder, secs);
            (RecordingState::Resetting, Some(RecorderToWriterChannelMessage::NewFile(path)))
        },
        (RecordingState::Resetting, RecordingEvent::Reset(failed)) => {
            match failed {
                None => (RecordingState::Triggering, None),
                Some(device) => (RecordingState::Recovering { device, then_b: false }, None),
            }
        },
        (RecordingState::Triggering, RecordingEvent::PulseEmitted) => {
            (RecordingState::Aligning, None)
        },
        (RecordingState::Aligning, RecordingEvent::Readiness(a, b)) => {
            match config.alignment {
                AlignmentStrategy::Poll => {
                    let outcome = poll_offset(
                        a,
                        b,
                        config.sample_rate,
                        config.alignment_timeout_ns,
                    );
                    (after_alignment(outcome), None)
                },
                AlignmentStrategy::CrossCorrelation => (state, None),
            }
        },
        (RecordingState::Aligning, RecordingEvent::Windows(a, b)) => {
            match config.alignment {
                AlignmentStrategy::CrossCorrelation => {
                    match (a, b) {
                        (Some(window_a), Some(window_b)) => {
                            let outcome = cross_correlation_offset(&window_a, &window_b);
                            (after_alignment(outcome), None)
                        },
                        (a, b) => (recover_failed(a.is_some(), b.is_some()), None),
                    }
                },
                AlignmentStrategy::Poll => (state, None),
            }
        },
        (RecordingState::Discarding { device, samples }, RecordingEvent::Discarded(done)) => {
            if done {
                (RecordingState::Streaming { frames_done: 0 }, None)
            } else {
                (RecordingState::Recovering { device, then_b: false }, None)
            }
        },
        (RecordingState::Streaming { frames_done }, RecordingEvent::Frames(a, b)) => {
            let frame_a = get_mic_data(a, config.frame_size);
            let frame_b = get_mic_data(b, config.frame_size);
            match (frame_a, frame_b) {
                (Some(samples_a), Some(samples_b)) => {
                    let message = RecorderToWriterChannelMessage::data(samples_a, samples_b);
                    let frames = config.frames_per_segment();
                    let next = if frames_done >= frames - 1 {
                        RecordingState::Idle
                    } else {
                        RecordingState::Streaming { frames_done: frames_done + 1 }
                    };
                    (next, Some(message))
                },
                (frame_a, frame_b) => {
                    (recover_failed(frame_a.is_some(), frame_b.is_some()), None)
                },
            }
        },
        (RecordingState::Recovering { device, then_b }, RecordingEvent::Recovered(done)) => {
            if !done {
                (RecordingState::Failed(RecorderError::RecoveryFailed(device)), None)
            } else if then_b {
                (RecordingState::Recovering { device: Device::B, then_b: false }, None)
            } else {
                (RecordingState::Idle, None)
            }
        },
        (state, _) => (state, None),
    }
}

/// The state after an attempt to put a message on the queue: the planned
/// state when the message went out, and the end of the loop when the
/// writing loop has gone away.
pub open spec fn spec_after_send(
    planned: RecordingState,
    sent: Result<(), RecorderError>,
) -> RecordingState {
    match sent {
        Ok(()) => planned,
        Err(e) => RecordingState::Failed(e),
    }
}

/// The state after an attempt to put a message on the queue.
pub fn after_send(planned: RecordingState, sent: Result<(), RecorderError>) -> (state:
    RecordingState)
    ensures
        state == spec_after_send(planned, sent),
{
    match sent {
        Ok(()) => planned,
        Err(e) => RecordingState::Failed(e),
    }
}

/// One turn of the recording loop on the queue: decides as
/// [`recording_thread_logic`] does, puts the message, if there is one, on
/// the queue, and returns the state to continue from and the operation to
/// perform next. The send waits while the queue is full. When the writing
/// loop has gone away the loop ends with `QueueDisconnected`.
pub fn record_thread_logic(
    state: RecordingState,
    config: &RecorderConfig,
    destination_folder: &str,
    event: RecordingEvent,
    sender: &Sender<RecorderToWriterChannelMessage>,
) -> (r: (RecordingState, RecordingAction))
    requires
        config.well_formed(),
    ensures
        r.0 == spec_next_state(state, *config, event@) || (spec_message(
            state,
            *config,
            destination_folder@,
            event@,
        ) is Some && r.0 == RecordingState::Failed(RecorderError::QueueDisconnected)),
        r.1 == spec_pending(r.0, *config),
{
    let (planned, message) = recording_thread_logic(state, config, destination_folder, event);
    let next = match message {
        Some(message) => after_send(planned, send_message(sender, message)),
        None => planned,
    };
    (next, pending_action(next, config))
}

/// Performs the `EmitPulse` operation on `emitter` and reports it done:
/// the emitter is asked for exactly one pulse and is left as that pulse
/// leaves it.
pub fn trigger_emitter<E: SoundEmitter>(emitter: &mut E) -> (event: RecordingEvent)
    ensures
        event@ == EventView::PulseEmitted,
        old(emitter).pulsed(final(emitter)),
{
    emitter.emit_sound();
    RecordingEvent::PulseEmitted
}

/// Partial-pair discard: when a frame pair is read and at least one of the
/// two reads did not deliver a usable frame, nothing is sent for that
/// cycle, not even the frame that did arrive, and the segment is abandoned:
/// every failed device gets one recovery attempt, and once these succeeded
/// the loop is between segments again, where, unless shutdown is
/// requested, the next message it sends announces a new segment.
pub proof fn lemma_partial_pair_abandons_segment(
    config: RecorderConfig,
    destination_folder: Seq<char>,
    frames_done: u64,
    a: Option<Seq<i16>>,
    b: Option<Seq<i16>>,
    secs: u64,
)
    requires
        config.well_formed(),
        !spec_usable(a, config.frame_size) || !spec_usable(b, config.frame_size),
    ensures
        ({
            let streaming = RecordingState::Streaming { frames_done };
            let torn = EventView::Frames(a, b);
            let recovering = spec_next_state(streaming, config, torn);
            let recovered = spec_next_state(recovering, config, EventView::Recovered(true));
            let between = if recovered is Recovering {
                spec_next_state(recovered, config, EventView::Recovered(true))
            } else {
                recovered
            };
            let naming = spec_next_state(between, config, EventView::Shutdown(false));
            &&& spec_message(streaming, config, destination_folder, torn) is None
            &&& recovering is Recovering
            &&& spec_pending(recovering, config) is Recover
            &&& spec_message(recovering, config, destination_folder, EventView::Recovered(true))
                is None
            &&& spec_message(recovered, config, destination_folder, EventView::Recovered(true))
                is None
            &&& between == RecordingState::Idle
            &&& spec_message(between, config, destination_folder, EventView::Shutdown(false))
                is None
            &&& naming == RecordingState::Naming
            &&& spec_message(naming, config, destination_folder, EventView::Clock(secs)) == Some(
                MessageView::NewFile(spec_new_file_name(destination_folder, secs)),
            )
        }),
{
}

/// A failed recovery is fatal: the loop ends with the error that names
/// the device, whatever it was doing when the device faulted.
pub proof fn lemma_failed_recovery_is_fatal(config: RecorderConfig, device: Device, then_b: bool)
    ensures
        ({
            let failed = spec_next_state(
                RecordingState::Recovering { device, then_b },
                config,
                EventView::Recovered(false),
            );
            &&& failed == RecordingState::Failed(RecorderError::RecoveryFailed(device))
            &&& spec_pending(failed, config) == RecordingAction::Abort(
                RecorderError::RecoveryFailed(device),
            )
        }),
{
}

/// Shutdown is observed between segments only, and the end of the stream
/// is the last message: while a segment is under way the shutdown flag is
/// not even looked at, observing it between segments sends the end of the
/// stream, and after that no event changes the state or sends anything.
pub proof fn lemma_end_of_stream_is_last(
    config: RecorderConfig,
    destination_folder: Seq<char>,
    state: RecordingState,
    event: EventView,
)
    ensures
        spec_message(
            RecordingState::Idle,
            config,
            destination_folder,
            EventView::Shutdown(true),
        ) == Some(MessageView::EndThread),
        spec_next_state(RecordingState::Idle, config, EventView::Shutdown(true))
            == RecordingState::Finished,
        spec_pending(state, config) is CheckShutdown <==> state is Idle,
        spec_message(state, config, destination_folder, event) == Some(MessageView::EndThread)
            ==> state is Idle && event == EventView::Shutdown(true),
        spec_next_state(RecordingState::Finished, config, event) == RecordingState::Finished,
        spec_message(RecordingState::Finished, config, destination_folder, event) is None,
{
}

} // verus!
