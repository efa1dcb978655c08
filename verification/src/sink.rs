//! Per-speaker transcoder sink, modelled as a two-state machine.
//!
//! A sink stands for one spawned external transcoder process together with
//! its input pipe. The process itself is owned by the surrounding runtime;
//! this type decides, exactly once per sink, when the stream ends, and it
//! refuses every operation after that point. `append` yields the bytes that
//! the runtime must pipe to the process, in order; `finalize` closes the
//! stream. Once finalized, a sink is terminal: no operation changes it and
//! every operation fails deterministically rather than hanging.

use vstd::prelude::*;

use crate::pcm::{encode_samples_le, le_bytes_of};

verus! {

/// Error returned by sink operations.
#[derive(Clone, Copy, Debug, PartialEq, Eq, Structural)]
pub enum SinkError {
    /// `append` was called on a sink whose stream has already ended.
    Closed,
    /// `finalize` was called a second time.
    AlreadyFinalized,
}

#[derive(Clone, Copy, Debug, PartialEq, Eq, Structural)]
pub enum SinkPhase {
    Open,
    Finalized,
}

/// One speaker's owned transcoder sink.
pub struct ProcessSink {
    phase: SinkPhase,
    samples_written: u64,
}

impl ProcessSink {
    /// The sink still accepts audio.
    pub closed spec fn is_open(&self) -> bool {
        self.phase is Open
    }

    /// Total count of samples accepted so far, saturating at `u64::MAX`.
    pub closed spec fn written(&self) -> u64 {
        self.samples_written
    }

    /// A fresh sink for a newly spawned transcoder process.
    pub fn spawn() -> (s: ProcessSink)
        ensures
            s.is_open(),
            s.written() == 0,
    {
        ProcessSink { phase: SinkPhase::Open, samples_written: 0 }
    }

    /// Accepts one batch of decoded samples and returns the little-endian
    /// bytes to pipe to the transcoder. Fails, without any change, if the
    /// sink has been finalized.
    pub fn append(&mut self, samples: &Vec<i16>) -> (r: Result<Vec<u8>, SinkError>)
        ensures
            old(self).is_open() ==> {
                &&& r matches Ok(b) && b@ == le_bytes_of(samples@)
                &&& final(self).is_open()
                &&& final(self).written() == if old(self).written() + samples@.len() <= u64::MAX {
                    old(self).written() + samples@.len()
                } else {
                    u64::MAX as int
                }
            },
            !old(self).is_open() ==> {
                &&& r matches Err(e) && e == SinkError::Closed
                &&& *final(self) == *old(self)
            },
    {
        match self.phase {
            SinkPhase::Finalized => Err(SinkError::Closed),
            SinkPhase::Open => {
                let bytes = encode_samples_le(samples);
                let n = samples.len() as u64;
                self.samples_written = if self.samples_written <= u64::MAX - n {
                    self.samples_written + n
                } else {
                    u64::MAX
                };
                Ok(bytes)
            },
        }
    }

    /// Ends the stream. The transition to the terminal state happens exactly
    /// once: a second call fails deterministically and changes nothing.
    pub fn finalize(&mut self) -> (r: Result<u64, SinkError>)
        ensures
            old(self).is_open() ==> {
                &&& r matches Ok(n) && n == old(self).written()
                &&& !final(self).is_open()
                &&& final(self).written() == old(self).written()
            },
            !old(self).is_open() ==> {
                &&& r matches Err(e) && e == SinkError::AlreadyFinalized
                &&& *final(self) == *old(self)
            },
    {
        match self.phase {
            SinkPhase::Finalized => Err(SinkError::AlreadyFinalized),
            SinkPhase::Open => {
                self.phase = SinkPhase::Finalized;
                Ok(self.samples_written)
            },
        }
    }

    /// Total count of samples accepted so far.
    pub fn written_count(&self) -> (n: u64)
        ensures
            n == self.written(),
    {
        self.samples_written
    }

    /// Whether the sink has reached its terminal state.
    pub fn is_finalized(&self) -> (r: bool)
        ensures
            r == !self.is_open(),
    {
        match self.phase {
            SinkPhase::Finalized => true,
            SinkPhase::Open => false,
        }
    }
}

} // verus!
