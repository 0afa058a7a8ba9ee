//! The immutable configuration every component is built from.

use vstd::prelude::*;
use crate::error::RecorderError;

verus! {

/// Capture rate of both devices, in samples per second.
pub const SAMPLE_RATE: u32 = 384_000;

/// Channels delivered by one capture device.
pub const CHANNELS_PER_MIC: u16 = 1;

/// Channels of a segment file: one per device.
pub const NUM_CHANNELS_IN_FILE: u16 = 2;

/// Width of one sample in bits.
pub const BITS_PER_SAMPLE: u16 = 16;

/// Size of the device-side ring buffer, in samples.
pub const ALSA_BUFFER_SIZE: usize = 19_200;

/// Samples per frame: what one read from one device delivers.
pub const BUFFER_SIZE: usize = 384;

/// Seconds of audio per segment file unless configured otherwise.
pub const TIME_BETWEEN_RESETS_IN_S: u64 = 30;

/// GPIO line that triggers the ultrasonic emitter unless configured otherwise.
pub const SOUND_EMITTER_TRIGGER_PIN: u8 = 2;

/// How long the two devices may take to become ready after a reset.
pub const ALIGNMENT_TIMEOUT_NS: u64 = 1_000_000_000;

/// Longest alignment timeout a configuration may ask for: one hour.
pub const MAX_ALIGNMENT_TIMEOUT_NS: u64 = 3_600_000_000_000;

/// Samples per channel in the window that cross-correlation works on.
pub const ALIGNMENT_WINDOW: usize = 7_680;

/// Longest correlation window a configuration may ask for.
pub const MAX_ALIGNMENT_WINDOW: usize = 1_048_576;

/// Messages the queue between producer and consumer holds before a send blocks.
pub const QUEUE_DEPTH: usize = 4_096;

/// Deepest queue a configuration may ask for.
pub const MAX_QUEUE_DEPTH: usize = 65_536;

/// Most data bytes one segment file can hold: header and data together
/// must not be longer than a 32-bit length can express.
pub const MAX_DATA_BYTES: u64 = 4_294_967_251;

/// How the start offset between the two devices is measured.
#[derive(Clone, Copy, Debug, PartialEq, Eq, Structural)]
pub enum AlignmentStrategy {
    /// Compare the instants at which each device first reports data.
    Poll,
    /// Correlate a short window captured from both devices.
    CrossCorrelation,
}

/// Values fixed for the lifetime of one recording session.
#[derive(Clone, Copy, Debug, PartialEq, Eq, Structural)]
pub struct RecorderConfig {
    /// Samples per second and channel.
    pub sample_rate: u32,
    /// Samples per frame and channel.
    pub frame_size: usize,
    /// Seconds of audio per segment.
    pub segment_secs: u64,
    /// How the start offset is measured.
    pub alignment: AlignmentStrategy,
    /// Nanoseconds the devices may take to become ready.
    pub alignment_timeout_ns: u64,
    /// Samples per channel in the correlation window.
    pub alignment_window: usize,
    /// Capacity of the queue between producer and consumer.
    pub queue_depth: usize,
}

/// Frame pairs in one segment of `segment_secs` seconds.
pub open spec fn spec_frames_per_segment(sample_rate: u32, frame_size: usize, segment_secs: u64) -> int
    recommends
        frame_size > 0,
{
    (segment_secs * sample_rate) / (frame_size as int)
}

/// The products that the frame count is computed from stay far below the
/// range of a 128-bit integer, and a segment never holds more samples than
/// its duration asks for.
pub proof fn lemma_segment_bounds(sample_rate: u32, frame_size: usize, segment_secs: u64)
    requires
        frame_size > 0,
    ensures
        0 <= segment_secs * sample_rate <= 0xffff_ffff_ffff_ffff * 0xffff_ffff,
        0 <= spec_frames_per_segment(sample_rate, frame_size, segment_secs) <= segment_secs
            * sample_rate,
        0 <= spec_frames_per_segment(sample_rate, frame_size, segment_secs) * frame_size
            <= segment_secs * sample_rate,
{
    let total = segment_secs * sample_rate;
    let d = frame_size as int;
    assert(0 <= total <= 0xffff_ffff_ffff_ffff * 0xffff_ffff) by (nonlinear_arith)
        requires
            total == segment_secs * sample_rate,
            0 <= segment_secs <= 0xffff_ffff_ffff_ffff,
            0 <= sample_rate <= 0xffff_ffff,
    ;
    assert(0 <= (total / d) * d <= total && 0 <= total / d <= total) by (nonlinear_arith)
        requires
            0 <= total,
            d > 0,
    ;
}

impl RecorderConfig {
    /// What a configuration must satisfy for the recorder to run on it:
    /// every segment holds at least one frame pair and fits in one
    /// container, and the alignment and queue limits are respected.
    pub open spec fn well_formed(&self) -> bool {
        &&& self.sample_rate > 0
        &&& self.frame_size > 0
        &&& self.segment_secs > 0
        &&& self.spec_frames_per_segment() >= 1
        &&& self.spec_frames_per_segment() * self.frame_size * 4 <= MAX_DATA_BYTES
        &&& 0 < self.alignment_timeout_ns <= MAX_ALIGNMENT_TIMEOUT_NS
        &&& 0 < self.alignment_window <= MAX_ALIGNMENT_WINDOW
        &&& 0 < self.queue_depth <= MAX_QUEUE_DEPTH
    }

    /// Frame pairs that make up one full segment.
    pub open spec fn spec_frames_per_segment(&self) -> int {
        spec_frames_per_segment(self.sample_rate, self.frame_size, self.segment_secs)
    }

    /// Builds a configuration, or reports `InvalidConfig` when the values
    /// do not fit together.
    pub fn new(
        sample_rate: u32,
        frame_size: usize,
        segment_secs: u64,
        alignment: AlignmentStrategy,
        alignment_timeout_ns: u64,
        alignment_window: usize,
        queue_depth: usize,
    ) -> (r: Result<RecorderConfig, RecorderError>)
        ensures
            ({
                let c = RecorderConfig {
                    sample_rate,
                    frame_size,
                    segment_secs,
                    alignment,
                    alignment_timeout_ns,
                    alignment_window,
                    queue_depth,
                };
                if c.well_formed() {
                    r == Ok::<RecorderConfig, RecorderError>(c)
                } else {
                    r == Err::<RecorderConfig, RecorderError>(RecorderError::InvalidConfig)
                }
            }),
    {
        let c = RecorderConfig {
            sample_rate,
            frame_size,
            segment_secs,
            alignment,
            alignment_timeout_ns,
            alignment_window,
            queue_depth,
        };
        if sample_rate == 0 || frame_size == 0 || segment_secs == 0 {
            return Err(RecorderError::InvalidConfig);
        }
        if alignment_timeout_ns == 0 || alignment_timeout_ns > MAX_ALIGNMENT_TIMEOUT_NS {
            return Err(RecorderError::InvalidConfig);
        }
        if alignment_window == 0 || alignment_window > MAX_ALIGNMENT_WINDOW {
            return Err(RecorderError::InvalidConfig);
        }
        if queue_depth == 0 || queue_depth > MAX_QUEUE_DEPTH {
            return Err(RecorderError::InvalidConfig);
        }
        proof {
            lemma_segment_bounds(sample_rate, frame_size, segment_secs);
        }
        let total: u128 = segment_secs as u128 * sample_rate as u128;
        let frames: u128 = total / (frame_size as u128);
        if frames == 0 {
            return Err(RecorderError::InvalidConfig);
        }
        let samples: u128 = frames * (frame_size as u128);
        if samples > (MAX_DATA_BYTES / 4) as u128 {
            return Err(RecorderError::InvalidConfig);
        }
        Ok(c)
    }

    /// The configuration the recorder was built for: 384 kHz, frames of 384
    /// samples, thirty-second segments, readiness polling.
    pub fn standard() -> (c: RecorderConfig)
        ensures
            c.well_formed(),
            c.sample_rate == SAMPLE_RATE,
            c.frame_size == BUFFER_SIZE,
            c.segment_secs == TIME_BETWEEN_RESETS_IN_S,
            c.alignment == AlignmentStrategy::Poll,
            c.alignment_timeout_ns == ALIGNMENT_TIMEOUT_NS,
            c.alignment_window == ALIGNMENT_WINDOW,
            c.queue_depth == QUEUE_DEPTH,
    {
        RecorderConfig {
            sample_rate: SAMPLE_RATE,
            frame_size: BUFFER_SIZE,
            segment_secs: TIME_BETWEEN_RESETS_IN_S,
            alignment: AlignmentStrategy::Poll,
            alignment_timeout_ns: ALIGNMENT_TIMEOUT_NS,
            alignment_window: ALIGNMENT_WINDOW,
            queue_depth: QUEUE_DEPTH,
        }
    }

    /// Frame pairs that make up one full segment.
    pub fn frames_per_segment(&self) -> (n: u64)
        requires
            self.well_formed(),
        ensures
            n == self.spec_frames_per_segment(),
            n >= 1,
    {
        proof {
            lemma_segment_bounds(self.sample_rate, self.frame_size, self.segment_secs);
        }
        let total: u128 = self.segment_secs as u128 * self.sample_rate as u128;
        let frames: u128 = total / (self.frame_size as u128);
        assert(frames <= frames * self.frame_size * 4) by (nonlinear_arith)
            requires
                frames >= 0,
                self.frame_size >= 1,
        ;
        frames as u64
    }
}

} // verus!
