//! Capture configuration and the sample buffer shared between the
//! real-time producer and the control thread.
use crate::error::{Error, Result};
use vstd::prelude::*;

verus! {

/// Native sample encodings that a capture device may report.
#[derive(Debug, Clone, Copy, PartialEq, Eq, Structural)]
pub enum SampleFormat {
    F32,
    I16,
    I32,
    /// Any other encoding; capture streams cannot be built for it.
    Other,
}

/// Native configuration of a capture device. Replaced wholesale on a device
/// switch.
#[derive(Debug, Clone, Copy, PartialEq, Eq, Structural)]
pub struct CaptureConfig {
    pub sample_rate: u32,
    pub channels: u16,
    pub format: SampleFormat,
}

/// The rate that the transcription service expects.
pub const TARGET_SAMPLE_RATE: u32 = 16000;

/// The message of the error for an encoding that cannot be captured.
pub open spec fn unsupported_message() -> Seq<char> {
    "unsupported sample format"@
}

impl SampleFormat {
    /// Whether a capture stream can decode this encoding.
    pub open spec fn supported(self) -> bool {
        !(self is Other)
    }

    /// Fails for an encoding that no capture stream can decode.
    pub fn check_supported(self) -> (r: Result<()>)
        ensures
            r is Ok <==> self.supported(),
            r matches Err(e) ==> (e matches Error::Audio(m) && m@ == unsupported_message()),
    {
        match self {
            SampleFormat::Other => {
                let m = "unsupported sample format".to_owned();
                proof {
                    reveal_strlit("unsupported sample format");
                }
                Err(Error::Audio(m))
            },
            _ => Ok(()),
        }
    }
}

/// What `stop` does with captured samples before handing them on.
#[derive(Debug, Clone, Copy, PartialEq, Eq, Structural)]
pub struct Conversion {
    /// Interleaved frames are averaged to one sample each.
    pub mix_down: bool,
    /// Samples are resampled to `TARGET_SAMPLE_RATE`.
    pub resample: bool,
}

impl CaptureConfig {
    /// The conversions that samples captured with this configuration need:
    /// mixing down when there is more than one channel, resampling when the
    /// native rate is not the target rate.
    pub fn conversion(&self) -> (r: Conversion)
        ensures
            r.mix_down == (self.channels > 1),
            r.resample == (self.sample_rate != TARGET_SAMPLE_RATE),
    {
        Conversion { mix_down: self.channels > 1, resample: self.sample_rate != TARGET_SAMPLE_RATE }
    }
}

/// Ordered, append-only sample store together with the recording flag that
/// gates it. Samples are appended only while the flag is set.
pub struct SampleBuffer<T> {
    recording: bool,
    samples: Vec<T>,
}

impl<T: Copy> SampleBuffer<T> {
    /// Whether captured periods are currently kept.
    pub closed spec fn is_recording_spec(&self) -> bool {
        self.recording
    }

    /// The samples held, oldest first.
    pub closed spec fn contents(&self) -> Seq<T> {
        self.samples@
    }

    /// An empty buffer that is not recording.
    pub fn new() -> (r: SampleBuffer<T>)
        ensures
            !r.is_recording_spec(),
            r.contents() == Seq::<T>::empty(),
    {
        SampleBuffer { recording: false, samples: Vec::new() }
    }

    /// Whether captured periods are currently kept.
    pub fn is_recording(&self) -> (r: bool)
        ensures
            r == self.is_recording_spec(),
    {
        self.recording
    }

    /// Number of samples held.
    pub fn len(&self) -> (r: usize)
        ensures
            r == self.contents().len(),
    {
        self.samples.len()
    }

    /// Begins a session: discards what an earlier session left, then sets
    /// the flag, so no earlier sample is counted as this session's.
    pub fn start(&mut self)
        ensures
            final(self).is_recording_spec(),
            final(self).contents() == Seq::<T>::empty(),
    {
        self.samples.clear();
        self.recording = true;
    }

    /// One capture period delivered by the device: appended in order while
    /// recording, discarded otherwise.
    pub fn capture(&mut self, period: &[T])
        ensures
            final(self).is_recording_spec() == old(self).is_recording_spec(),
            final(self).contents() == if old(self).is_recording_spec() {
                old(self).contents() + period@
            } else {
                old(self).contents()
            },
    {
        if self.recording {
            let ghost start = self.samples@;
            let mut i: usize = 0;
            while i < period.len()
                invariant
                    i <= period@.len(),
                    self.recording == old(self).recording,
                    start == old(self).samples@,
                    self.samples@ == start + period@.subrange(0, i as int),
                decreases period@.len() - i,
            {
                self.samples.push(period[i]);
                i = i + 1;
                proof {
                    assert(period@.subrange(0, i as int) == period@.subrange(0, i - 1) + seq![
                        period@[i - 1],
                    ]);
                }
            }
            proof {
                assert(period@.subrange(0, period@.len() as int) == period@);
            }
        }
    }

    /// Clears the flag; later periods are discarded. The samples stay.
    pub fn halt(&mut self)
        ensures
            !final(self).is_recording_spec(),
            final(self).contents() == old(self).contents(),
    {
        self.recording = false;
    }

    /// Discards all samples; the flag is unchanged.
    pub fn clear(&mut self)
        ensures
            final(self).is_recording_spec() == old(self).is_recording_spec(),
            final(self).contents() == Seq::<T>::empty(),
    {
        self.samples.clear();
    }

    /// A copy of the samples held, independent of later appends.
    pub fn snapshot(&self) -> (r: Vec<T>)
        ensures
            r@ == self.contents(),
    {
        let mut out: Vec<T> = Vec::new();
        let mut i: usize = 0;
        while i < self.samples.len()
            invariant
                i <= self.samples@.len(),
                out@ == self.samples@.subrange(0, i as int),
            decreases self.samples@.len() - i,
        {
            out.push(self.samples[i]);
            i = i + 1;
            proof {
                assert(self.samples@.subrange(0, i as int) == self.samples@.subrange(0, i - 1)
                    + seq![self.samples@[i - 1]]);
            }
        }
        proof {
            assert(self.samples@.subrange(0, self.samples@.len() as int) == self.samples@);
        }
        out
    }

    /// Ends a session: clears the flag, then drains the buffer and returns
    /// this session's samples (empty when nothing was captured).
    pub fn stop(&mut self) -> (r: Vec<T>)
        ensures
            !final(self).is_recording_spec(),
            final(self).contents() == Seq::<T>::empty(),
            r@ == old(self).contents(),
    {
        self.halt();
        let mut out: Vec<T> = Vec::new();
        core::mem::swap(&mut out, &mut self.samples);
        out
    }
}

} // verus!
