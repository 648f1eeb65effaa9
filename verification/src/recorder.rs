//! The capture session: the single authoritative recording flag, the
//! growing buffer of mono samples, and the policy that selects an input
//! configuration.
//!
//! Samples are carried opaquely as the 32-bit patterns of the device's
//! single-precision values; the session never interprets them, it only
//! accumulates them. The surrounding command layer holds the session
//! behind a mutual-exclusion lock, so each operation here is the atomic
//! step that the lock realises: `process_block` is the critical section
//! of the device callback, `stop`'s snapshot is the critical section of
//! the caller.

use vstd::prelude::*;

use crate::errors::AudioError;

verus! {

/// What one device configuration offers, reduced to what the selection
/// policy reads: the channel count and whether samples are 32-bit
/// floating point.
#[derive(Clone, Copy, Debug, PartialEq, Eq, Structural)]
pub struct ConfigDesc {
    /// Number of interleaved channels the configuration delivers.
    pub channels: u16,
    /// Whether the sample format is 32-bit floating point.
    pub is_float: bool,
}

/// A configuration the fallback accepts: floating-point samples.
pub open spec fn is_float_config(c: ConfigDesc) -> bool {
    c.is_float
}

/// The preferred kind of configuration: single-channel floating point.
pub open spec fn is_mono_float_config(c: ConfigDesc) -> bool {
    c.is_float && c.channels == 1
}

/// Whether some configuration in the list is mono floating point.
pub open spec fn has_mono_float(s: Seq<ConfigDesc>) -> bool {
    exists|j: int| 0 <= j < s.len() && is_mono_float_config(s[j])
}

/// Whether some configuration in the list is floating point at all.
pub open spec fn has_float(s: Seq<ConfigDesc>) -> bool {
    exists|j: int| 0 <= j < s.len() && is_float_config(s[j])
}

/// Select the input configuration: the first mono floating-point entry
/// if one exists, otherwise the first floating-point entry, otherwise
/// none (the caller reports `UnsupportedFormat`). First-enumerated wins
/// each tie.
pub fn pick_config(configs: &Vec<ConfigDesc>) -> (r: Option<usize>)
    ensures
        has_mono_float(configs@) ==> (r matches Some(i) && i < configs@.len()
            && is_mono_float_config(configs@[i as int])
            && (forall|j: int| 0 <= j < i ==> !is_mono_float_config(configs@[j]))),
        !has_mono_float(configs@) && has_float(configs@) ==> (r matches Some(i)
            && i < configs@.len() && is_float_config(configs@[i as int])
            && (forall|j: int| 0 <= j < i ==> !is_float_config(configs@[j]))),
        !has_float(configs@) ==> r is None,
{
    let n = configs.len();
    let mut i: usize = 0;
    while i < n
        invariant
            i <= n == configs@.len(),
            forall|j: int| 0 <= j < i ==> !is_mono_float_config(configs@[j]),
        decreases n - i,
    {
        if configs[i].channels == 1 && configs[i].is_float {
            return Some(i);
        }
        i += 1;
    }
    let mut k: usize = 0;
    while k < n
        invariant
            k <= n == configs@.len(),
            forall|j: int| 0 <= j < k ==> !is_float_config(configs@[j]),
            forall|j: int| 0 <= j < configs@.len() ==> !is_mono_float_config(configs@[j]),
        decreases n - k,
    {
        if configs[k].is_float {
            return Some(k);
        }
        k += 1;
    }
    None
}

/// The session: recording flag, configured sample rate, and the buffer
/// of mono samples accumulated since the recording started.
pub struct AudioRecorder {
    recording: bool,
    sample_rate: u32,
    samples: Vec<u32>,
}

/// What one delivery of a block does to the buffer: while recording the
/// whole block is appended; once idle the block is discarded untouched.
pub open spec fn step_deliver(recording: bool, samples: Seq<u32>, block: Seq<u32>) -> Seq<u32> {
    if recording {
        samples + block
    } else {
        samples
    }
}

impl AudioRecorder {
    /// Whether a recording is active.
    pub closed spec fn spec_recording(&self) -> bool {
        self.recording
    }

    /// The configured sample rate, in samples per second.
    pub closed spec fn spec_sample_rate(&self) -> u32 {
        self.sample_rate
    }

    /// The mono samples accumulated so far, as 32-bit patterns.
    pub closed spec fn spec_samples(&self) -> Seq<u32> {
        self.samples@
    }

    /// A fresh session: idle, empty buffer, default rate of 16000 Hz.
    pub fn new() -> (r: AudioRecorder)
        ensures
            !r.spec_recording(),
            r.spec_sample_rate() == 16000,
            r.spec_samples() == Seq::<u32>::empty(),
    {
        AudioRecorder { recording: false, sample_rate: 16000, samples: Vec::new() }
    }

    /// Begin a recording. Fails with `AlreadyRecording`, changing
    /// nothing, if one is active; otherwise clears the buffer and raises
    /// the flag. The caller opens the hardware stream only after this
    /// succeeds, so first start wins.
    pub fn start(&mut self) -> (r: Result<(), AudioError>)
        ensures
            old(self).spec_recording() ==> r == Err::<(), AudioError>(AudioError::AlreadyRecording)
                && *final(self) == *old(self),
            !old(self).spec_recording() ==> r == Ok::<(), AudioError>(())
                && final(self).spec_recording()
                && final(self).spec_samples() == Seq::<u32>::empty()
                && final(self).spec_sample_rate() == old(self).spec_sample_rate(),
    {
        if self.recording {
            return Err(AudioError::AlreadyRecording);
        }
        self.samples.clear();
        self.recording = true;
        Ok(())
    }

    /// End the recording. Fails with `NotRecording`, changing nothing,
    /// if none is active; otherwise lowers the flag and hands back a
    /// snapshot of every sample accumulated since the matching `start`.
    /// The caller releases the hardware stream once this returns.
    pub fn stop(&mut self) -> (r: Result<Vec<u32>, AudioError>)
        ensures
            !old(self).spec_recording() ==> r == Err::<Vec<u32>, AudioError>(AudioError::NotRecording)
                && *final(self) == *old(self),
            old(self).spec_recording() ==> (r matches Ok(v)
                && v@ == old(self).spec_samples()
                && !final(self).spec_recording()
                && final(self).spec_samples() == old(self).spec_samples()
                && final(self).spec_sample_rate() == old(self).spec_sample_rate()),
    {
        if !self.recording {
            return Err(AudioError::NotRecording);
        }
        self.recording = false;
        let mut snapshot: Vec<u32> = Vec::new();
        let mut i: usize = 0;
        let n = self.samples.len();
        while i < n
            invariant
                i <= n == self.samples@.len(),
                snapshot@ == self.samples@.subrange(0, i as int),
            decreases n - i,
        {
            snapshot.push(self.samples[i]);
            i += 1;
            proof {
                assert(snapshot@ =~= self.samples@.subrange(0, i as int));
            }
        }
        proof {
            assert(self.samples@.subrange(0, self.samples@.len() as int) =~= self.samples@);
        }
        Ok(snapshot)
    }

    /// Whether a recording is active right now. Pure query.
    pub fn is_recording(&self) -> (r: bool)
        ensures
            r == self.spec_recording(),
    {
        self.recording
    }

    /// The configured sample rate. Pure query; the encoder must be fed
    /// exactly this rate for a buffer this session captured.
    pub fn sample_rate(&self) -> (r: u32)
        ensures
            r == self.spec_sample_rate(),
    {
        self.sample_rate
    }

    /// One delivery from the device callback: while recording, append
    /// the whole mono block; once idle, discard it — the guard against a
    /// block that hardware delivers after a logical stop.
    pub fn process_block(&mut self, block: &Vec<u32>)
        ensures
            final(self).spec_recording() == old(self).spec_recording(),
            final(self).spec_sample_rate() == old(self).spec_sample_rate(),
            final(self).spec_samples() == step_deliver(
                old(self).spec_recording(),
                old(self).spec_samples(),
                block@,
            ),
    {
        if !self.recording {
            return;
        }
        let ghost pre = *self;
        let mut i: usize = 0;
        let n = block.len();
        while i < n
            invariant
                i <= n == block@.len(),
                self.recording == pre.recording,
                self.sample_rate == pre.sample_rate,
                self.samples@ == pre.samples@ + block@.subrange(0, i as int),
            decreases n - i,
        {
            self.samples.push(block[i]);
            i += 1;
            proof {
                assert(self.samples@ =~= pre.samples@ + block@.subrange(0, i as int));
            }
        }
        proof {
            assert(block@.subrange(0, block@.len() as int) =~= block@);
        }
    }
}

impl Default for AudioRecorder {
    /// Same as `new`: an idle session with an empty buffer at 16000 Hz.
    fn default() -> (r: AudioRecorder)
        ensures
            !r.spec_recording(),
            r.spec_sample_rate() == 16000,
            r.spec_samples() == Seq::<u32>::empty(),
    {
        AudioRecorder::new()
    }
}

/// Law: a snapshot interleaved with the delivery of one block sees
/// either the buffer as it stood before the block or the buffer with the
/// whole block appended — its length is one of those two full lengths
/// and the prior content is a prefix of it, so no partial element is
/// ever observed.
pub proof fn lemma_snapshot_consistent(before: Seq<u32>, block: Seq<u32>, snapshot: Seq<u32>)
    requires
        snapshot == before || snapshot == step_deliver(true, before, block),
    ensures
        snapshot.len() == before.len() || snapshot.len() == before.len() + block.len(),
        snapshot.subrange(0, before.len() as int) == before,
{
    if snapshot == before {
        assert(snapshot.subrange(0, before.len() as int) =~= before);
    } else {
        assert(snapshot.subrange(0, before.len() as int) =~= before);
    }
}

/// Law: a block delivered once the session is idle is discarded; the
/// buffer holds exactly what it held, so the block cannot appear in what
/// any later stop hands back.
pub proof fn lemma_stale_block_discarded(samples: Seq<u32>, stale: Seq<u32>)
    ensures
        step_deliver(false, samples, stale) == samples,
{
}

} // verus!
