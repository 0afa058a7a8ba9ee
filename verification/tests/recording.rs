use plantwhispers::channel_messages::RecorderToWriterChannelMessage as Message;
use plantwhispers::config::{AlignmentStrategy, RecorderConfig};
use plantwhispers::error::{Device, RecorderError};
use plantwhispers::sound_emitter::{PulseCounter, SoundEmitter};
use plantwhispers::recording_thread::{
    after_send, get_mic_data, pending_action, recording_thread_logic, trigger_emitter,
    RecordingAction, RecordingEvent, RecordingState,
};

fn config(strategy: AlignmentStrategy) -> RecorderConfig {
    // Three frames of four samples make one segment.
    RecorderConfig::new(12, 4, 1, strategy, 1_000_000_000, 16, 8).unwrap()
}

fn poll() -> RecorderConfig {
    config(AlignmentStrategy::Poll)
}

fn step(state: RecordingState, event: RecordingEvent) -> (RecordingState, Option<Message>) {
    recording_thread_logic(state, &poll(), "out", event)
}

fn frame(v: i16) -> Option<Vec<i16>> {
    Some(vec![v; 4])
}

fn streaming(frames_done: u64) -> RecordingState {
    RecordingState::Streaming { frames_done }
}

fn recovering(device: Device, then_b: bool) -> RecordingState {
    RecordingState::Recovering { device, then_b }
}

#[test]
fn each_state_waits_for_its_own_operation() {
    let c = poll();
    let x = config(AlignmentStrategy::CrossCorrelation);
    assert_eq!(pending_action(RecordingState::Idle, &c), RecordingAction::CheckShutdown);
    assert_eq!(pending_action(RecordingState::Naming, &c), RecordingAction::ReadClock);
    assert_eq!(pending_action(RecordingState::Resetting, &c), RecordingAction::ResetDevices);
    assert_eq!(pending_action(RecordingState::Triggering, &c), RecordingAction::EmitPulse);
    assert_eq!(
        pending_action(RecordingState::Aligning, &c),
        RecordingAction::PollReadiness { timeout_ns: 1_000_000_000 }
    );
    assert_eq!(
        pending_action(RecordingState::Aligning, &x),
        RecordingAction::CaptureWindows { samples: 16 }
    );
    assert_eq!(
        pending_action(RecordingState::Discarding { device: Device::B, samples: 9 }, &c),
        RecordingAction::Discard { device: Device::B, count: 9 }
    );
    assert_eq!(pending_action(streaming(2), &c), RecordingAction::ReadFrames { samples: 4 });
    assert_eq!(
        pending_action(recovering(Device::A, true), &c),
        RecordingAction::Recover(Device::A)
    );
    assert_eq!(pending_action(RecordingState::Finished, &c), RecordingAction::Finish);
    assert_eq!(
        pending_action(RecordingState::Failed(RecorderError::AlignmentTimeout), &c),
        RecordingAction::Abort(RecorderError::AlignmentTimeout)
    );
}

#[test]
fn a_segment_runs_from_naming_to_streaming() {
    let (s, m) = step(RecordingState::Idle, RecordingEvent::Shutdown(false));
    assert_eq!((s, m), (RecordingState::Naming, None));
    let (s, m) = step(s, RecordingEvent::Clock(1_700_000_000));
    assert_eq!(s, RecordingState::Resetting);
    assert_eq!(m, Some(Message::NewFile("out/1700000000.wav".to_string())));
    let (s, m) = step(s, RecordingEvent::Reset(None));
    assert_eq!((s, m), (RecordingState::Triggering, None));
    let (s, m) = step(s, RecordingEvent::PulseEmitted);
    assert_eq!((s, m), (RecordingState::Aligning, None));
    let (s, m) = step(s, RecordingEvent::Readiness(Some(50), Some(50)));
    assert_eq!((s, m), (streaming(0), None));
}

#[test]
fn a_segment_ends_after_its_frame_count() {
    let (s, m) = step(streaming(0), RecordingEvent::Frames(frame(1), frame(-1)));
    assert_eq!(s, streaming(1));
    assert_eq!(m, Some(Message::Data([vec![1; 4], vec![-1; 4]])));
    let (s, m) = step(s, RecordingEvent::Frames(frame(2), frame(-2)));
    assert_eq!(s, streaming(2));
    assert_eq!(m, Some(Message::Data([vec![2; 4], vec![-2; 4]])));
    let (s, m) = step(s, RecordingEvent::Frames(frame(3), frame(-3)));
    assert_eq!(s, RecordingState::Idle);
    assert_eq!(m, Some(Message::Data([vec![3; 4], vec![-3; 4]])));
}

#[test]
fn a_count_beyond_the_segment_still_ends_it() {
    let (s, m) = step(streaming(u64::MAX), RecordingEvent::Frames(frame(1), frame(2)));
    assert_eq!(s, RecordingState::Idle);
    assert!(m.is_some());
}

#[test]
fn shutdown_between_segments_sends_the_end_of_the_stream() {
    let (s, m) = step(RecordingState::Idle, RecordingEvent::Shutdown(true));
    assert_eq!(s, RecordingState::Finished);
    assert_eq!(m, Some(Message::EndThread));
}

#[test]
fn nothing_follows_the_end_of_the_stream() {
    for state in [RecordingState::Finished, RecordingState::Failed(RecorderError::FileIo)] {
        for event in [
            RecordingEvent::Shutdown(false),
            RecordingEvent::Shutdown(true),
            RecordingEvent::Clock(5),
            RecordingEvent::Reset(None),
            RecordingEvent::PulseEmitted,
            RecordingEvent::Readiness(Some(1), Some(1)),
            RecordingEvent::Windows(frame(1), frame(1)),
            RecordingEvent::Discarded(true),
            RecordingEvent::Frames(frame(1), frame(1)),
            RecordingEvent::Recovered(true),
        ] {
            assert_eq!(step(state, event), (state, None));
        }
    }
}

#[test]
fn shutdown_is_not_observed_while_a_segment_is_under_way() {
    for state in [
        RecordingState::Naming,
        RecordingState::Resetting,
        RecordingState::Triggering,
        RecordingState::Aligning,
        RecordingState::Discarding { device: Device::A, samples: 3 },
        streaming(1),
        recovering(Device::B, false),
    ] {
        assert_ne!(pending_action(state, &poll()), RecordingAction::CheckShutdown);
        assert_eq!(step(state, RecordingEvent::Shutdown(true)), (state, None));
    }
}

#[test]
fn an_event_that_answers_nothing_is_ignored() {
    assert_eq!(step(RecordingState::Idle, RecordingEvent::Clock(5)), (RecordingState::Idle, None));
    assert_eq!(
        step(RecordingState::Naming, RecordingEvent::Frames(frame(1), frame(1))),
        (RecordingState::Naming, None)
    );
    assert_eq!(
        step(streaming(1), RecordingEvent::Windows(frame(1), frame(1))),
        (streaming(1), None)
    );
    // The answer to the other alignment strategy.
    assert_eq!(
        step(RecordingState::Aligning, RecordingEvent::Windows(frame(1), frame(1))),
        (RecordingState::Aligning, None)
    );
    let x = config(AlignmentStrategy::CrossCorrelation);
    assert_eq!(
        recording_thread_logic(
            RecordingState::Aligning,
            &x,
            "out",
            RecordingEvent::Readiness(Some(1), Some(1))
        ),
        (RecordingState::Aligning, None)
    );
}

#[test]
fn one_failed_read_discards_the_pair_and_abandons_the_segment() {
    // Device B fails while device A delivers.
    let (s, m) = step(streaming(1), RecordingEvent::Frames(frame(7), None));
    assert_eq!(m, None);
    assert_eq!(s, recovering(Device::B, false));
    assert_eq!(pending_action(s, &poll()), RecordingAction::Recover(Device::B));
    let (s, m) = step(s, RecordingEvent::Recovered(true));
    assert_eq!((s, m), (RecordingState::Idle, None));
    let (s, m) = step(s, RecordingEvent::Shutdown(false));
    assert_eq!((s, m), (RecordingState::Naming, None));
    let (s, m) = step(s, RecordingEvent::Clock(99));
    assert_eq!(s, RecordingState::Resetting);
    assert_eq!(m, Some(Message::NewFile("out/99.wav".to_string())));

    // Device A fails while device B delivers.
    let (s, m) = step(streaming(0), RecordingEvent::Frames(None, frame(7)));
    assert_eq!(m, None);
    assert_eq!(s, recovering(Device::A, false));
    assert_eq!(step(s, RecordingEvent::Recovered(true)), (RecordingState::Idle, None));
}

#[test]
fn both_failed_reads_recover_both_devices_in_turn() {
    let (s, m) = step(streaming(2), RecordingEvent::Frames(None, None));
    assert_eq!((s, m), (recovering(Device::A, true), None));
    let (s, m) = step(s, RecordingEvent::Recovered(true));
    assert_eq!((s, m), (recovering(Device::B, false), None));
    let (s, m) = step(s, RecordingEvent::Recovered(true));
    assert_eq!((s, m), (RecordingState::Idle, None));
}

#[test]
fn a_frame_of_the_wrong_length_counts_as_a_failed_read() {
    let (s, m) = step(streaming(0), RecordingEvent::Frames(Some(vec![1; 3]), frame(2)));
    assert_eq!((s, m), (recovering(Device::A, false), None));
    let (s, m) = step(streaming(0), RecordingEvent::Frames(frame(1), Some(vec![2; 5])));
    assert_eq!((s, m), (recovering(Device::B, false), None));
    let (s, m) = step(streaming(0), RecordingEvent::Frames(Some(vec![]), Some(vec![])));
    assert_eq!((s, m), (recovering(Device::A, true), None));
}

#[test]
fn a_failed_recovery_is_fatal() {
    for (device, then_b) in [(Device::A, false), (Device::A, true), (Device::B, false)] {
        let (s, m) = step(recovering(device, then_b), RecordingEvent::Recovered(false));
        assert_eq!(m, None);
        assert_eq!(s, RecordingState::Failed(RecorderError::RecoveryFailed(device)));
        assert_eq!(
            pending_action(s, &poll()),
            RecordingAction::Abort(RecorderError::RecoveryFailed(device))
        );
    }
}

#[test]
fn a_failed_reset_is_recovered_and_the_segment_abandoned() {
    let (s, m) = step(RecordingState::Resetting, RecordingEvent::Reset(Some(Device::B)));
    assert_eq!((s, m), (recovering(Device::B, false), None));
    assert_eq!(step(s, RecordingEvent::Recovered(true)), (RecordingState::Idle, None));
}

#[test]
fn polling_decides_which_device_to_trim() {
    // One millisecond at 12 Hz is no sample at all; one second is twelve.
    let (s, _) = step(RecordingState::Aligning, RecordingEvent::Readiness(Some(1_000_000), Some(0)));
    assert_eq!(s, streaming(0));
    let (s, _) =
        step(RecordingState::Aligning, RecordingEvent::Readiness(Some(1_000_000_000), Some(0)));
    assert_eq!(s, RecordingState::Discarding { device: Device::B, samples: 12 });
    let (s, _) =
        step(RecordingState::Aligning, RecordingEvent::Readiness(Some(0), Some(500_000_000)));
    assert_eq!(s, RecordingState::Discarding { device: Device::A, samples: 6 });
}

#[test]
fn an_alignment_timeout_is_fatal() {
    let timeout = RecordingState::Failed(RecorderError::AlignmentTimeout);
    for event in [
        RecordingEvent::Readiness(None, None),
        RecordingEvent::Readiness(Some(1), None),
        RecordingEvent::Readiness(None, Some(1)),
        RecordingEvent::Readiness(Some(0), Some(1_000_000_001)),
    ] {
        assert_eq!(step(RecordingState::Aligning, event), (timeout, None));
    }
    assert_eq!(
        pending_action(timeout, &poll()),
        RecordingAction::Abort(RecorderError::AlignmentTimeout)
    );
}

#[test]
fn correlation_decides_which_device_to_trim() {
    let x = config(AlignmentStrategy::CrossCorrelation);
    let mut a = vec![0i16; 16];
    let mut b = vec![0i16; 16];
    a[4] = 1_000;
    b[7] = 1_000;
    let (s, m) = recording_thread_logic(
        RecordingState::Aligning,
        &x,
        "out",
        RecordingEvent::Windows(Some(a.clone()), Some(b.clone())),
    );
    assert_eq!(m, None);
    assert_eq!(s, RecordingState::Discarding { device: Device::B, samples: 3 });
    let (s, _) = recording_thread_logic(
        RecordingState::Aligning,
        &x,
        "out",
        RecordingEvent::Windows(Some(b), Some(a.clone())),
    );
    assert_eq!(s, RecordingState::Discarding { device: Device::A, samples: 3 });
    let (s, _) = recording_thread_logic(
        RecordingState::Aligning,
        &x,
        "out",
        RecordingEvent::Windows(Some(a.clone()), Some(a)),
    );
    assert_eq!(s, streaming(0));
}

#[test]
fn a_failed_window_read_is_recovered() {
    let x = config(AlignmentStrategy::CrossCorrelation);
    let (s, _) = recording_thread_logic(
        RecordingState::Aligning,
        &x,
        "out",
        RecordingEvent::Windows(None, frame(1)),
    );
    assert_eq!(s, recovering(Device::A, false));
    let (s, _) = recording_thread_logic(
        RecordingState::Aligning,
        &x,
        "out",
        RecordingEvent::Windows(frame(1), None),
    );
    assert_eq!(s, recovering(Device::B, false));
    let (s, _) = recording_thread_logic(
        RecordingState::Aligning,
        &x,
        "out",
        RecordingEvent::Windows(Some(vec![]), frame(1)),
    );
    assert_eq!(s, RecordingState::Failed(RecorderError::AlignmentTimeout));
}

#[test]
fn discarding_leads_to_streaming_or_recovery() {
    let d = RecordingState::Discarding { device: Device::A, samples: 5 };
    assert_eq!(step(d, RecordingEvent::Discarded(true)), (streaming(0), None));
    assert_eq!(step(d, RecordingEvent::Discarded(false)), (recovering(Device::A, false), None));
}

#[test]
fn mic_data_is_usable_only_at_the_frame_size() {
    assert_eq!(get_mic_data(Some(vec![1, 2, 3]), 3), Some(vec![1, 2, 3]));
    assert_eq!(get_mic_data(Some(vec![1, 2, 3]), 4), None);
    assert_eq!(get_mic_data(Some(vec![1, 2, 3]), 2), None);
    assert_eq!(get_mic_data(Some(vec![]), 0), Some(vec![]));
    assert_eq!(get_mic_data(None, 3), None);
}

#[test]
fn a_failed_send_ends_the_loop() {
    assert_eq!(after_send(streaming(3), Ok(())), streaming(3));
    assert_eq!(
        after_send(streaming(3), Err(RecorderError::QueueDisconnected)),
        RecordingState::Failed(RecorderError::QueueDisconnected)
    );
}

/// An emitter that notes every pulse in a log of its own.
struct LoggingEmitter {
    log: Vec<&'static str>,
}

impl SoundEmitter for LoggingEmitter {
    fn emit_sound(&mut self) {
        self.log.push("pulse");
    }
}

#[test]
fn triggering_reaches_any_emitter_once() {
    let mut emitter = LoggingEmitter { log: Vec::new() };
    assert_eq!(trigger_emitter(&mut emitter), RecordingEvent::PulseEmitted);
    assert_eq!(emitter.log, vec!["pulse"]);
    assert_eq!(trigger_emitter(&mut emitter), RecordingEvent::PulseEmitted);
    assert_eq!(emitter.log, vec!["pulse", "pulse"]);
}

#[test]
fn triggering_emits_exactly_one_pulse() {
    let mut emitter = PulseCounter::new();
    assert_eq!(trigger_emitter(&mut emitter), RecordingEvent::PulseEmitted);
    assert_eq!(emitter.pulses, 1);
    emitter.emit_sound();
    assert_eq!(emitter.pulses, 2);
    let mut worn = PulseCounter { pulses: u64::MAX };
    worn.emit_sound();
    assert_eq!(worn.pulses, u64::MAX);
}
