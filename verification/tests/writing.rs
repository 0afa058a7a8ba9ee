use plantwhispers::channel_messages::RecorderToWriterChannelMessage as Message;
use plantwhispers::config::MAX_DATA_BYTES;
use plantwhispers::error::RecorderError;
use plantwhispers::segment_store::{SegmentStore, StoredFile};
use plantwhispers::wav_utils::{interleave, write_wav_header};
use plantwhispers::writing_thread::{
    end_file, temp_path_for, writing_thread_logic, WriterAction, WritingState,
};

const RATE: u32 = 384_000;

fn header() -> Vec<u8> {
    let mut h = Vec::new();
    write_wav_header(&mut h, 2, RATE, 16).unwrap();
    h
}

fn field(file: &[u8], at: usize) -> u32 {
    u32::from_le_bytes([file[at], file[at + 1], file[at + 2], file[at + 3]])
}

fn writing(path: &str, data_bytes: u64) -> WritingState {
    WritingState::Writing { path: path.to_string(), data_bytes }
}

fn finalize(path: &str, data_bytes: u64) -> WriterAction {
    WriterAction::Finalize {
        temp_path: format!("{}.part", path),
        final_path: path.to_string(),
        data_bytes,
    }
}

fn create(path: &str) -> WriterAction {
    WriterAction::Create { temp_path: format!("{}.part", path), header: header() }
}

/// Runs the writing loop over `messages` against files in memory.
fn consume(messages: Vec<Message>) -> (WritingState, SegmentStore) {
    let mut state = WritingState::Idle;
    let mut store = SegmentStore::new();
    for message in messages {
        let (next, actions) = writing_thread_logic(state, RATE, message);
        store.apply_all(&actions.unwrap()).unwrap();
        state = next;
    }
    (state, store)
}

#[test]
fn temporary_name_appends_part() {
    assert_eq!(temp_path_for(&"out/1.wav".to_string()), "out/1.wav.part");
    assert_eq!(temp_path_for(&String::new()), ".part");
}

#[test]
fn new_file_while_idle_creates_the_temporary_file() {
    let (state, actions) =
        writing_thread_logic(WritingState::Idle, RATE, Message::NewFile("a.wav".to_string()));
    assert_eq!(state, writing("a.wav", 0));
    assert_eq!(actions, Ok(vec![create("a.wav")]));
}

#[test]
fn data_is_appended_as_one_interleaved_block() {
    let a: Vec<i16> = vec![1, 2, 3];
    let b: Vec<i16> = vec![-1, -2, -3];
    let (state, actions) =
        writing_thread_logic(writing("a.wav", 40), RATE, Message::Data([a.clone(), b.clone()]));
    assert_eq!(state, writing("a.wav", 52));
    assert_eq!(actions, Ok(vec![WriterAction::Append { bytes: interleave(&a, &b) }]));
}

#[test]
fn data_while_idle_is_dropped() {
    let (state, actions) =
        writing_thread_logic(WritingState::Idle, RATE, Message::Data([vec![1, 2], vec![3, 4]]));
    assert_eq!(state, WritingState::Idle);
    assert_eq!(actions, Ok(vec![]));
}

#[test]
fn second_new_file_finalizes_the_first_before_opening_the_next() {
    let (state, actions) =
        writing_thread_logic(writing("a.wav", 7_680), RATE, Message::NewFile("b.wav".to_string()));
    assert_eq!(state, writing("b.wav", 0));
    assert_eq!(actions, Ok(vec![finalize("a.wav", 7_680), create("b.wav")]));
}

#[test]
fn end_of_stream_finalizes_the_open_segment_and_stops() {
    let (state, actions) = writing_thread_logic(writing("a.wav", 12), RATE, Message::EndThread);
    assert_eq!(state, WritingState::Stopped);
    assert_eq!(actions, Ok(vec![finalize("a.wav", 12), WriterAction::Stop]));
}

#[test]
fn end_of_stream_while_idle_only_stops() {
    let (state, actions) = writing_thread_logic(WritingState::Idle, RATE, Message::EndThread);
    assert_eq!(state, WritingState::Stopped);
    assert_eq!(actions, Ok(vec![WriterAction::Stop]));
}

#[test]
fn nothing_is_done_after_the_end_of_the_stream() {
    for message in [
        Message::NewFile("late.wav".to_string()),
        Message::Data([vec![1], vec![2]]),
        Message::EndThread,
    ] {
        let (state, actions) = writing_thread_logic(WritingState::Stopped, RATE, message);
        assert_eq!(state, WritingState::Stopped);
        assert_eq!(actions, Ok(vec![]));
    }
}

#[test]
fn data_beyond_the_container_limit_is_fatal() {
    let full = writing("a.wav", MAX_DATA_BYTES - 3);
    let (state, actions) =
        writing_thread_logic(full.clone(), RATE, Message::Data([vec![1], vec![2]]));
    assert_eq!(state, full);
    assert_eq!(actions, Err(RecorderError::ContainerSize));
    let room = writing("a.wav", MAX_DATA_BYTES - 4);
    let (state, actions) = writing_thread_logic(room, RATE, Message::Data([vec![1], vec![2]]));
    assert_eq!(state, writing("a.wav", MAX_DATA_BYTES));
    assert_eq!(actions, Ok(vec![WriterAction::Append { bytes: vec![1, 0, 2, 0] }]));
}

#[test]
fn rate_that_no_header_can_describe_is_fatal() {
    let (state, actions) = writing_thread_logic(
        writing("a.wav", 4),
        2_000_000_000,
        Message::NewFile("b.wav".to_string()),
    );
    assert_eq!(state, writing("a.wav", 4));
    assert_eq!(actions, Err(RecorderError::ContainerSize));
    let (state, actions) =
        writing_thread_logic(WritingState::Idle, 2_000_000_000, Message::NewFile("b".to_string()));
    assert_eq!(state, WritingState::Idle);
    assert_eq!(actions, Err(RecorderError::ContainerSize));
}

#[test]
fn end_file_closes_only_an_open_segment() {
    let mut actions = vec![WriterAction::Stop];
    assert_eq!(end_file(writing("a.wav", 8), &mut actions), WritingState::Idle);
    assert_eq!(actions, vec![WriterAction::Stop, finalize("a.wav", 8)]);
    let mut none = Vec::new();
    assert_eq!(end_file(WritingState::Idle, &mut none), WritingState::Idle);
    assert_eq!(end_file(WritingState::Stopped, &mut none), WritingState::Stopped);
    assert!(none.is_empty());
}

#[test]
fn rotation_leaves_a_finished_file_and_a_fresh_temporary_one() {
    let a: Vec<i16> = vec![100, 200];
    let b: Vec<i16> = vec![-100, -200];
    let (state, store) = consume(vec![
        Message::NewFile("first.wav".to_string()),
        Message::Data([a.clone(), b.clone()]),
        Message::Data([b.clone(), a.clone()]),
        Message::NewFile("second.wav".to_string()),
    ]);
    assert_eq!(state, writing("second.wav", 0));
    assert_eq!(store.finished.len(), 1);
    let first = &store.finished[0];
    assert_eq!(first.path, "first.wav");
    assert_eq!(field(&first.bytes, 4), 36 + 16);
    assert_eq!(field(&first.bytes, 40), 16);
    let mut samples = interleave(&a, &b);
    samples.extend_from_slice(&interleave(&b, &a));
    assert_eq!(&first.bytes[44..], &samples[..]);
    assert_eq!(&first.bytes[8..40], &header()[8..40]);
    assert_eq!(
        store.open,
        Some(StoredFile { path: "second.wav.part".to_string(), bytes: header() })
    );
}

#[test]
fn every_queued_frame_is_written_before_the_end_of_the_stream_acts() {
    let mut messages = vec![Message::NewFile("last.wav".to_string())];
    let mut samples: Vec<u8> = Vec::new();
    for i in 0..25i16 {
        let a: Vec<i16> = vec![i; 8];
        let b: Vec<i16> = vec![-i; 8];
        samples.extend_from_slice(&interleave(&a, &b));
        messages.push(Message::Data([a, b]));
    }
    messages.push(Message::EndThread);
    let (state, store) = consume(messages);
    assert_eq!(state, WritingState::Stopped);
    assert_eq!(store.open, None);
    assert_eq!(store.finished.len(), 1);
    let last = &store.finished[0];
    assert_eq!(last.path, "last.wav");
    assert_eq!(last.bytes.len(), 44 + 25 * 8 * 4);
    assert_eq!(field(&last.bytes, 4), 36 + 800);
    assert_eq!(field(&last.bytes, 40), 800);
    assert_eq!(&last.bytes[44..], &samples[..]);
}

#[test]
fn unfinished_segment_never_appears_under_its_final_name() {
    let (state, store) = consume(vec![
        Message::NewFile("a.wav".to_string()),
        Message::Data([vec![1, 2], vec![3, 4]]),
    ]);
    assert_eq!(state, writing("a.wav", 8));
    assert!(store.finished.is_empty());
    let open = store.open.unwrap();
    assert_eq!(open.path, "a.wav.part");
    assert_eq!(field(&open.bytes, 4), 36);
    assert_eq!(field(&open.bytes, 40), 0);
}

#[test]
fn store_refuses_operations_that_do_not_fit_the_files() {
    let mut store = SegmentStore::new();
    let append = WriterAction::Append { bytes: vec![1, 2, 3, 4] };
    assert_eq!(store.apply(&append), Err(RecorderError::FileIo));
    assert_eq!(store.apply(&finalize("a.wav", 0)), Err(RecorderError::FileIo));
    assert_eq!(store.apply(&create("a.wav")), Ok(()));
    assert_eq!(store.apply(&append), Ok(()));
    // Wrong length, then wrong name: both leave the files alone.
    assert_eq!(store.apply(&finalize("a.wav", 8)), Err(RecorderError::FileIo));
    assert_eq!(store.apply(&finalize("b.wav", 4)), Err(RecorderError::FileIo));
    assert_eq!(store.open.as_ref().unwrap().bytes.len(), 48);
    assert!(store.finished.is_empty());
    assert_eq!(store.apply(&WriterAction::Stop), Ok(()));
    assert_eq!(store.apply(&finalize("a.wav", 4)), Ok(()));
    assert_eq!(store.open, None);
    assert_eq!(store.finished[0].path, "a.wav");
    assert_eq!(field(&store.finished[0].bytes, 40), 4);
}

#[test]
fn store_stops_at_the_first_operation_that_fails() {
    let mut store = SegmentStore::new();
    let actions = vec![
        create("a.wav"),
        WriterAction::Append { bytes: vec![9; 4] },
        finalize("a.wav", 8),
        create("b.wav"),
    ];
    assert_eq!(store.apply_all(&actions), Err(RecorderError::FileIo));
    assert_eq!(store.open.as_ref().unwrap().path, "a.wav.part");
    assert_eq!(store.open.as_ref().unwrap().bytes.len(), 48);
    assert!(store.finished.is_empty());
}

#[test]
fn creating_again_empties_the_temporary_file() {
    let mut store = SegmentStore::new();
    store.apply(&create("a.wav")).unwrap();
    store.apply(&WriterAction::Append { bytes: vec![9; 4] }).unwrap();
    store.apply(&create("a.wav")).unwrap();
    assert_eq!(store.open.unwrap().bytes, header());
}
