//! Two-channel ultrasonic recorder core.
//!
//! The crate holds the decision logic of a long-running bioacoustic recorder:
//! the container format, the alignment of two independently clocked capture
//! devices, the producer and consumer state machines and the queue between
//! them. Device access, files and threads belong to the embedding program,
//! which performs the actions these state machines ask for.

pub mod config;
pub mod error;
pub mod channel_messages;
pub mod wav_utils;
pub mod writing_thread;
pub mod segment_store;
pub mod shared_buffer;
pub mod file_name;
pub mod alignment;
pub mod delay;
pub mod recording_thread;
pub mod channel;
pub mod sound_emitter;
