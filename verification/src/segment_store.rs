//! Segment files held in memory.
//!
//! [`SegmentStore`] carries out the file operations of the writing loop on
//! byte vectors instead of files. It is the reference for what those
//! operations mean, and the laws at the end of this module state over it
//! what the writing loop guarantees about the files it leaves behind.

use vstd::prelude::*;
use crate::channel_messages::MessageView;
use crate::config::{BITS_PER_SAMPLE, MAX_DATA_BYTES, NUM_CHANNELS_IN_FILE};
use crate::error::RecorderError;
use crate::wav_utils::{
    chunk_size_field, data_size_field, lemma_finalized_fields, lemma_header_len,
    lemma_interleave_len, spec_finalized, spec_interleave, spec_pair_count, spec_payload,
    update_wav_header,
};
use crate::writing_thread::{
    rate_fits, spec_actions, spec_next_state, spec_placeholder, spec_temp_path, WriterAction,
    WriterActionView, WritingStateView,
};

verus! {

/// A file: its name and its content.
#[derive(Clone, Debug, PartialEq, Eq)]
pub struct StoredFile {
    /// The name of the file.
    pub path: String,
    /// Everything written to it.
    pub bytes: Vec<u8>,
}

/// The mathematical content of a [`StoredFile`].
pub struct StoredFileView {
    pub path: Seq<char>,
    pub bytes: Seq<u8>,
}

impl View for StoredFile {
    type V = StoredFileView;

    open spec fn view(&self) -> StoredFileView {
        StoredFileView { path: self.path@, bytes: self.bytes@ }
    }
}

impl DeepView for StoredFile {
    type V = StoredFileView;

    open spec fn deep_view(&self) -> StoredFileView {
        self@
    }
}

/// The files of a recording session: at most one temporary file that is
/// still being written, and the finished segments in the order in which
/// they were finalized.
#[derive(Clone, Debug, PartialEq, Eq)]
pub struct SegmentStore {
    /// The temporary file of the open segment.
    pub open: Option<StoredFile>,
    /// The finalized segments under their final names, oldest first.
    pub finished: Vec<StoredFile>,
}

/// The mathematical content of a [`SegmentStore`].
pub struct StoreView {
    pub open: Option<StoredFileView>,
    pub finished: Seq<StoredFileView>,
}

impl View for SegmentStore {
    type V = StoreView;

    open spec fn view(&self) -> StoreView {
        StoreView {
            open: match self.open {
                Some(file) => Some(file@),
                None => None,
            },
            finished: self.finished.deep_view(),
        }
    }
}

/// Whether `store` can finalize its temporary file as `temp_path` holding
/// `data_bytes` bytes of samples: the file is open under that name and is
/// exactly one header and that much data long.
pub open spec fn can_finalize(store: StoreView, temp_path: Seq<char>, data_bytes: nat) -> bool {
    &&& store.open matches Some(file)
    &&& file.path == temp_path
    &&& file.bytes.len() == 44 + data_bytes
    &&& file.bytes.len() <= u32::MAX
}

/// What one file operation does to the files, or `FileIo` where the
/// operation cannot be carried out: appending with no file open, or
/// finalizing a file that is not open under the given name or does not
/// have the announced length.
pub open spec fn spec_apply(store: StoreView, action: WriterActionView) -> Result<
    StoreView,
    RecorderError,
> {
    match action {
        WriterActionView::Create { temp_path, header } => Ok(
            StoreView {
                open: Some(StoredFileView { path: temp_path, bytes: header }),
                finished: store.finished,
            },
        ),
        WriterActionView::Append { bytes } => match store.open {
            Some(file) => Ok(
                StoreView {
                    open: Some(StoredFileView { path: file.path, bytes: file.bytes + bytes }),
                    finished: store.finished,
                },
            ),
            None => Err(RecorderError::FileIo),
        },
        WriterActionView::Finalize { temp_path, final_path, data_bytes } => {
            if can_finalize(store, temp_path, data_bytes) {
                Ok(
                    StoreView {
                        open: None,
                        finished: store.finished.push(
                            StoredFileView {
                                path: final_path,
                                bytes: spec_finalized(store.open->0.bytes),
                            },
                        ),
                    },
                )
            } else {
                Err(RecorderError::FileIo)
            }
        },
        WriterActionView::Stop => Ok(store),
    }
}

/// The files after `actions` were carried out in order, or the first error.
pub open spec fn spec_apply_all(store: StoreView, actions: Seq<WriterActionView>) -> Result<
    StoreView,
    RecorderError,
>
    decreases actions.len(),
{
    if actions.len() == 0 {
        Ok(store)
    } else {
        match spec_apply(store, actions.first()) {
            Ok(next) => spec_apply_all(next, actions.drop_first()),
            Err(e) => Err(e),
        }
    }
}

/// The files after as many of `actions` were carried out, in order, as
/// succeed before the first that fails.
pub open spec fn spec_apply_while_ok(store: StoreView, actions: Seq<WriterActionView>) -> StoreView
    decreases actions.len(),
{
    if actions.len() == 0 {
        store
    } else {
        match spec_apply(store, actions.first()) {
            Ok(next) => spec_apply_while_ok(next, actions.drop_first()),
            Err(_) => store,
        }
    }
}

/// Carrying out the operations from the `i`-th on means carrying out the
/// `i`-th and then the rest.
pub proof fn lemma_apply_all_unfolds(store: StoreView, actions: Seq<WriterActionView>, i: int)
    requires
        0 <= i < actions.len(),
    ensures
        spec_apply_all(store, actions.skip(i)) == match spec_apply(store, actions[i]) {
            Ok(next) => spec_apply_all(next, actions.skip(i + 1)),
            Err(e) => Err(e),
        },
        spec_apply_while_ok(store, actions.skip(i)) == match spec_apply(store, actions[i]) {
            Ok(next) => spec_apply_while_ok(next, actions.skip(i + 1)),
            Err(_) => store,
        },
{
    let rest = actions.skip(i);
    assert(rest.first() == actions[i]);
    assert(rest.drop_first() =~= actions.skip(i + 1));
}

impl SegmentStore {
    /// A store without any file.
    pub fn new() -> (store: SegmentStore)
        ensures
            store@ == (StoreView { open: None, finished: Seq::empty() }),
    {
        let store = SegmentStore { open: None, finished: Vec::new() };
        assert(store.finished.deep_view() =~= Seq::<StoredFileView>::empty());
        store
    }

    /// Carries out one file operation. On an error the files are left as
    /// they were.
    pub fn apply(&mut self, action: &WriterAction) -> (r: Result<(), RecorderError>)
        ensures
            match spec_apply(old(self)@, action@) {
                Ok(next) => r.is_ok() && final(self)@ == next,
                Err(e) => r == Err::<(), RecorderError>(e) && final(self)@ == old(self)@,
            },
    {
        match action {
            WriterAction::Create { temp_path, header } => {
                self.open = Some(StoredFile { path: temp_path.clone(), bytes: header.clone() });
                Ok(())
            },
            WriterAction::Append { bytes } => {
                match self.open.take() {
                    Some(file) => {
                        let StoredFile { path, bytes: mut content } = file;
                        let mut added = bytes.clone();
                        content.append(&mut added);
                        self.open = Some(StoredFile { path, bytes: content });
                        Ok(())
                    },
                    None => Err(RecorderError::FileIo),
                }
            },
            WriterAction::Finalize { temp_path, final_path, data_bytes } => {
                match self.open.take() {
                    Some(file) => {
                        let StoredFile { path, bytes: mut content } = file;
                        let announced: u128 = 44 + *data_bytes as u128;
                        if path == *temp_path && content.len() as u128 == announced
                            && content.len() <= 0xffff_ffff {
                            let patched = update_wav_header(&mut content);
                            assert(patched.is_ok());
                            self.finished.push(
                                StoredFile { path: final_path.clone(), bytes: content },
                            );
                            assert(self.finished.deep_view() =~= old(self).finished.deep_view().push(
                                StoredFileView {
                                    path: final_path@,
                                    bytes: spec_finalized(file.bytes@),
                                },
                            ));
                            Ok(())
                        } else {
                            self.open = Some(StoredFile { path, bytes: content });
                            Err(RecorderError::FileIo)
                        }
                    },
                    None => Err(RecorderError::FileIo),
                }
            },
            WriterAction::Stop => Ok(()),
        }
    }

    /// Carries out `actions` in order and stops at the first that fails;
    /// the operations before it stay done.
    pub fn apply_all(&mut self, actions: &Vec<WriterAction>) -> (r: Result<(), RecorderError>)
        ensures
            match spec_apply_all(old(self)@, actions.deep_view()) {
                Ok(next) => r.is_ok() && final(self)@ == next,
                Err(e) => r == Err::<(), RecorderError>(e),
            },
            final(self)@ == spec_apply_while_ok(old(self)@, actions.deep_view()),
    {
        let mut i: usize = 0;
        assert(actions.deep_view().skip(0) =~= actions.deep_view());
        while i < actions.len()
            invariant
                i <= actions.len(),
                spec_apply_all(old(self)@, actions.deep_view()) == spec_apply_all(
                    self@,
                    actions.deep_view().skip(i as int),
                ),
                spec_apply_while_ok(old(self)@, actions.deep_view()) == spec_apply_while_ok(
                    self@,
                    actions.deep_view().skip(i as int),
                ),
            decreases actions.len() - i,
        {
            proof {
                lemma_apply_all_unfolds(self@, actions.deep_view(), i as int);
            }
            match self.apply(&actions[i]) {
                Ok(()) => {},
                Err(e) => {
                    return Err(e);
                },
            }
            i = i + 1;
        }
        assert(actions.deep_view().skip(i as int).len() == 0);
        Ok(())
    }
}

/// The writing loop and the files agree: with a segment open, the temporary
/// file exists under the temporary name of that segment and holds one
/// header and the bytes counted so far; otherwise no temporary file is open.
pub open spec fn in_sync(state: WritingStateView, store: StoreView) -> bool {
    match state {
        WritingStateView::Writing { path, data_bytes } => {
            &&& data_bytes <= MAX_DATA_BYTES
            &&& store.open matches Some(file)
            &&& file.path == spec_temp_path(path)
            &&& file.bytes.len() == 44 + data_bytes
        },
        _ => store.open is None,
    }
}

/// Whether `bytes` is a finalized container: at least a header long, short
/// enough for its size fields, and announcing exactly its own length.
pub open spec fn is_finalized(bytes: Seq<u8>) -> bool {
    &&& 44 <= bytes.len() <= u32::MAX
    &&& chunk_size_field(bytes) == bytes.len() - 8
    &&& data_size_field(bytes) == bytes.len() - 44
}

/// Whether every file under a final name is a finalized container.
pub open spec fn finished_are_finalized(store: StoreView) -> bool {
    forall|i: int| 0 <= i < store.finished.len() ==> is_finalized(#[trigger] store.finished[i].bytes)
}

/// The writing loop taking one message and the files taking the operations
/// it asks for: the state and the files afterwards, or the error that ends
/// the loop.
pub open spec fn spec_consume(
    state: WritingStateView,
    store: StoreView,
    sample_rate: u32,
    message: MessageView,
) -> Result<(WritingStateView, StoreView), RecorderError> {
    match spec_actions(state, sample_rate, message) {
        Ok(actions) => match spec_apply_all(store, actions) {
            Ok(next) => Ok((spec_next_state(state, sample_rate, message), next)),
            Err(e) => Err(e),
        },
        Err(e) => Err(e),
    }
}

/// [`spec_consume`] over a run of messages, in order.
pub open spec fn spec_consume_all(
    state: WritingStateView,
    store: StoreView,
    sample_rate: u32,
    messages: Seq<MessageView>,
) -> Result<(WritingStateView, StoreView), RecorderError>
    decreases messages.len(),
{
    if messages.len() == 0 {
        Ok((state, store))
    } else {
        match spec_consume(state, store, sample_rate, messages.first()) {
            Ok((next_state, next_store)) => spec_consume_all(
                next_state,
                next_store,
                sample_rate,
                messages.drop_first(),
            ),
            Err(e) => Err(e),
        }
    }
}

/// The `Data` messages that carry `frames`, in order.
pub open spec fn data_messages(frames: Seq<(Seq<i16>, Seq<i16>)>) -> Seq<MessageView> {
    Seq::new(frames.len(), |i: int| MessageView::Data(frames[i].0, frames[i].1))
}

/// Whatever message arrives, if the loop and the files agreed before and
/// the message is honoured, every file operation it asks for succeeds and
/// the loop and the files agree afterwards; finished segments are never
/// touched again, and a file that appears under its final name is a
/// finalized container.
pub proof fn lemma_consume_keeps_sync(
    state: WritingStateView,
    store: StoreView,
    sample_rate: u32,
    message: MessageView,
)
    requires
        in_sync(state, store),
        spec_actions(state, sample_rate, message) is Ok,
    ensures
        spec_consume(state, store, sample_rate, message) matches Ok((next_state, next_store))
            && in_sync(next_state, next_store) && store.finished.is_prefix_of(
            next_store.finished,
        ) && (finished_are_finalized(store) ==> finished_are_finalized(next_store)),
{
    let actions = spec_actions(state, sample_rate, message)->Ok_0;
    lemma_header_len(NUM_CHANNELS_IN_FILE, sample_rate, BITS_PER_SAMPLE, 0);
    if store.open is Some {
        if 44 <= store.open->0.bytes.len() <= u32::MAX {
            lemma_finalized_fields(store.open->0.bytes);
        }
    }
    match (state, message) {
        (WritingStateView::Stopped, _) => {
            assert(spec_apply_all(store, actions) == Ok::<StoreView, RecorderError>(store));
        },
        (WritingStateView::Idle, MessageView::Data(_, _)) => {
            assert(spec_apply_all(store, actions) == Ok::<StoreView, RecorderError>(store));
        },
        (WritingStateView::Idle, _) => {
            assert(actions =~= seq![actions[0]]);
            lemma_apply_one(store, actions[0]);
        },
        (WritingStateView::Writing { path, data_bytes }, MessageView::Data(a, b)) => {
            assert(actions =~= seq![actions[0]]);
            lemma_apply_one(store, actions[0]);
        },
        (WritingStateView::Writing { path, data_bytes }, _) => {
            assert(actions =~= seq![actions[0], actions[1]]);
            lemma_apply_two(store, actions[0], actions[1]);
        },
    }
}

/// No unfinished file under a final name: over any run of messages that
/// are all honoured, starting from a loop and files that agree, the loop
/// and the files agree at the end, the finished segments of before are
/// still there, untouched, and every file under a final name is a
/// finalized container.
pub proof fn lemma_run_keeps_sync(
    state: WritingStateView,
    store: StoreView,
    sample_rate: u32,
    messages: Seq<MessageView>,
)
    requires
        in_sync(state, store),
        finished_are_finalized(store),
        spec_consume_all(state, store, sample_rate, messages) is Ok,
    ensures
        ({
            let (end_state, end_store) = spec_consume_all(state, store, sample_rate, messages)->Ok_0;
            &&& in_sync(end_state, end_store)
            &&& finished_are_finalized(end_store)
            &&& store.finished.is_prefix_of(end_store.finished)
        }),
    decreases messages.len(),
{
    if messages.len() > 0 {
        lemma_consume_keeps_sync(state, store, sample_rate, messages.first());
        let (next_state, next_store) = spec_consume(
            state,
            store,
            sample_rate,
            messages.first(),
        )->Ok_0;
        lemma_run_keeps_sync(next_state, next_store, sample_rate, messages.drop_first());
    }
}

/// Carrying out a single operation.
pub proof fn lemma_apply_one(store: StoreView, action: WriterActionView)
    ensures
        spec_apply_all(store, seq![action]) == spec_apply(store, action),
{
    let actions = seq![action];
    assert(actions.first() == action);
    assert(actions.drop_first() =~= Seq::<WriterActionView>::empty());
    match spec_apply(store, action) {
        Ok(next) => {
            assert(spec_apply_all(next, Seq::<WriterActionView>::empty()) == Ok::<
                StoreView,
                RecorderError,
            >(next));
        },
        Err(_) => {},
    }
}

/// Carrying out two operations: the second meets the files that the first
/// left, and is not attempted when the first fails.
pub proof fn lemma_apply_two(store: StoreView, first: WriterActionView, second: WriterActionView)
    ensures
        spec_apply_all(store, seq![first, second]) == match spec_apply(store, first) {
            Ok(next) => spec_apply(next, second),
            Err(e) => Err(e),
        },
{
    let actions = seq![first, second];
    assert(actions.first() == first);
    assert(actions.drop_first() =~= seq![second]);
    match spec_apply(store, first) {
        Ok(next) => {
            lemma_apply_one(next, second);
        },
        Err(_) => {},
    }
}

/// Finalize on rotation: when a new segment is announced while one is
/// open, the open one is finalized first and only then is the next one
/// created. The finished file appears under the name its own announcement
/// gave, with a chunk size of 36 plus its data bytes, a data size of its
/// data bytes and its samples untouched; the temporary file of the next
/// segment holds the placeholder header and nothing else.
pub proof fn lemma_rotation_finalizes_first(
    path: Seq<char>,
    data_bytes: nat,
    store: StoreView,
    sample_rate: u32,
    next_path: Seq<char>,
)
    requires
        in_sync(WritingStateView::Writing { path, data_bytes }, store),
        rate_fits(sample_rate),
    ensures
        ({
            let state = WritingStateView::Writing { path, data_bytes };
            let message = MessageView::NewFile(next_path);
            let written = store.open->0.bytes;
            let done = spec_finalized(written);
            &&& spec_actions(state, sample_rate, message) == Ok::<
                Seq<WriterActionView>,
                RecorderError,
            >(
                seq![
                    WriterActionView::Finalize {
                        temp_path: spec_temp_path(path),
                        final_path: path,
                        data_bytes,
                    },
                    WriterActionView::Create {
                        temp_path: spec_temp_path(next_path),
                        header: spec_placeholder(sample_rate),
                    },
                ],
            )
            &&& spec_consume(state, store, sample_rate, message) == Ok::<
                (WritingStateView, StoreView),
                RecorderError,
            >(
                (
                    WritingStateView::Writing { path: next_path, data_bytes: 0 },
                    StoreView {
                        open: Some(
                            StoredFileView {
                                path: spec_temp_path(next_path),
                                bytes: spec_placeholder(sample_rate),
                            },
                        ),
                        finished: store.finished.push(
                            StoredFileView { path, bytes: done },
                        ),
                    },
                ),
            )
            &&& chunk_size_field(done) == 36 + data_bytes
            &&& data_size_field(done) == data_bytes
            &&& done.subrange(44, done.len() as int) == written.subrange(
                44,
                written.len() as int,
            )
        }),
{
    let state = WritingStateView::Writing { path, data_bytes };
    let message = MessageView::NewFile(next_path);
    let written = store.open->0.bytes;
    let finalize = WriterActionView::Finalize {
        temp_path: spec_temp_path(path),
        final_path: path,
        data_bytes,
    };
    let create = WriterActionView::Create {
        temp_path: spec_temp_path(next_path),
        header: spec_placeholder(sample_rate),
    };
    assert(spec_actions(state, sample_rate, message)->Ok_0 =~= seq![finalize, create]);
    lemma_apply_two(store, finalize, create);
    lemma_finalized_fields(written);
    assert(spec_finalized(written).subrange(44, written.len() as int) =~= written.subrange(
        44,
        written.len() as int,
    ));
}

/// Shutdown drains the queue: when the end of the stream arrives behind
/// any number of data messages, every one of them is written, in order,
/// before the segment is finalized. The finished file holds what the
/// temporary file held, followed by the samples of every message, under a
/// header patched for that length; no temporary file is left and the loop
/// has stopped.
pub proof fn lemma_shutdown_drains(
    path: Seq<char>,
    data_bytes: nat,
    store: StoreView,
    sample_rate: u32,
    frames: Seq<(Seq<i16>, Seq<i16>)>,
)
    requires
        in_sync(WritingStateView::Writing { path, data_bytes }, store),
        data_bytes + 4 * spec_pair_count(frames) <= MAX_DATA_BYTES,
    ensures
        spec_consume_all(
            WritingStateView::Writing { path, data_bytes },
            store,
            sample_rate,
            data_messages(frames).push(MessageView::EndThread),
        ) == Ok::<(WritingStateView, StoreView), RecorderError>(
            (
                WritingStateView::Stopped,
                StoreView {
                    open: None,
                    finished: store.finished.push(
                        StoredFileView {
                            path,
                            bytes: spec_finalized(store.open->0.bytes + spec_payload(frames)),
                        },
                    ),
                },
            ),
        ),
    decreases frames.len(),
{
    let state = WritingStateView::Writing { path, data_bytes };
    let written = store.open->0.bytes;
    let messages = data_messages(frames).push(MessageView::EndThread);
    if frames.len() == 0 {
        assert(messages.first() == MessageView::EndThread);
        assert(messages.drop_first() =~= Seq::<MessageView>::empty());
        let finalize = WriterActionView::Finalize {
            temp_path: spec_temp_path(path),
            final_path: path,
            data_bytes,
        };
        assert(spec_actions(state, sample_rate, MessageView::EndThread)->Ok_0 =~= seq![
            finalize,
            WriterActionView::Stop,
        ]);
        lemma_apply_two(store, finalize, WriterActionView::Stop);
        assert(written + spec_payload(frames) =~= written);
        let closed = StoreView {
            open: None,
            finished: store.finished.push(
                StoredFileView { path, bytes: spec_finalized(written) },
            ),
        };
        assert(spec_consume(state, store, sample_rate, MessageView::EndThread) == Ok::<
            (WritingStateView, StoreView),
            RecorderError,
        >((WritingStateView::Stopped, closed)));
        assert(spec_consume_all(
            WritingStateView::Stopped,
            closed,
            sample_rate,
            Seq::<MessageView>::empty(),
        ) == Ok::<(WritingStateView, StoreView), RecorderError>(
            (WritingStateView::Stopped, closed),
        ));
    } else {
        let (a, b) = frames.first();
        let rest = frames.drop_first();
        let block = spec_interleave(a, b);
        lemma_interleave_len(a, b);
        assert(messages.first() == MessageView::Data(a, b));
        assert(messages.drop_first() =~= data_messages(rest).push(MessageView::EndThread));
        assert(spec_actions(state, sample_rate, messages.first())->Ok_0 =~= seq![
            WriterActionView::Append { bytes: block },
        ]);
        lemma_apply_one(store, WriterActionView::Append { bytes: block });
        let grown = StoreView {
            open: Some(StoredFileView { path: spec_temp_path(path), bytes: written + block }),
            finished: store.finished,
        };
        assert(spec_consume(state, store, sample_rate, MessageView::Data(a, b)) == Ok::<
            (WritingStateView, StoreView),
            RecorderError,
        >((WritingStateView::Writing { path, data_bytes: data_bytes + block.len() }, grown)));
        lemma_shutdown_drains(path, data_bytes + block.len(), grown, sample_rate, rest);
        assert((written + block) + spec_payload(rest) =~= written + spec_payload(frames));
    }
}

} // verus!
