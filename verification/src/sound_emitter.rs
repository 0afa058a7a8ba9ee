//! The ultrasonic emitter that marks the start of every segment.

use vstd::prelude::*;

verus! {

/// Something that can emit one ultrasonic pulse.
///
/// The call returns when the pulse is out. Nothing is reported back: the
/// recording loop triggers the emitter and carries on.
pub trait SoundEmitter {
    /// Whether `after` is this emitter one pulse later. Each emitter may
    /// say for itself what a pulse leaves behind; one that keeps no record
    /// of its pulses says nothing and accepts every state.
    open spec fn pulsed(&self, after: &Self) -> bool {
        true
    }

    /// Emits one pulse.
    fn emit_sound(&mut self)
        ensures
            old(self).pulsed(final(self)),
    ;
}

/// An emitter without hardware that counts the pulses asked of it.
#[derive(Clone, Copy, Debug, PartialEq, Eq, Structural)]
pub struct PulseCounter {
    /// Pulses emitted so far; stays at the largest count once reached.
    pub pulses: u64,
}

impl PulseCounter {
    /// A counter that has emitted nothing.
    pub fn new() -> (counter: PulseCounter)
        ensures
            counter.pulses == 0,
    {
        PulseCounter { pulses: 0 }
    }
}

impl SoundEmitter for PulseCounter {
    /// One pulse later the count is one higher, unless it had reached the
    /// largest count already.
    open spec fn pulsed(&self, after: &Self) -> bool {
        after.pulses == if self.pulses < u64::MAX {
            self.pulses + 1
        } else {
            self.pulses as int
        }
    }

    fn emit_sound(&mut self) {
        if self.pulses < u64::MAX {
            self.pulses = self.pulses + 1;
        }
    }
}

} // verus!
