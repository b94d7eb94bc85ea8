//! The audio recorder's lifecycle: one capture stream that is either open
//! or absent, rebuilt on unmute and on a device switch. Opening a stream
//! is the host's business; the recorder is handed an `open` function and
//! decides when to call it and what to keep.
use crate::capture::{unsupported_message, CaptureConfig, SampleBuffer};
use crate::error::{Error, Result};
use vstd::prelude::*;

verus! {

/// A recorder over device handles `D` and stream handles `S`. The stream
/// handle is present exactly while the microphone is open.
pub struct AudioRecorder<D, S> {
    device: D,
    config: CaptureConfig,
    stream: Option<S>,
}

impl<D, S> AudioRecorder<D, S> {
    /// The device that streams are opened on.
    pub closed spec fn device_spec(&self) -> D {
        self.device
    }

    /// The configuration that streams are opened with.
    pub closed spec fn config_spec(&self) -> CaptureConfig {
        self.config
    }

    /// The stream held, if the microphone is open.
    pub closed spec fn stream_spec(&self) -> Option<S> {
        self.stream
    }

    /// The microphone is open.
    pub open spec fn is_open(&self) -> bool {
        self.stream_spec() is Some
    }

    /// `new` is what `mute` leaves behind, starting from `old`.
    pub open spec fn muted_from(old: Self, new: Self) -> bool {
        &&& !new.is_open()
        &&& new.device_spec() == old.device_spec()
        &&& new.config_spec() == old.config_spec()
    }

    /// `new` and result `r` are what `unmute` may leave behind, starting
    /// from `old`, when `opened` describes what the stream opener returns.
    pub open spec fn unmuted_from(
        old: Self,
        new: Self,
        r: Result<()>,
        opened: spec_fn(Result<S>) -> bool,
    ) -> bool {
        &&& new.device_spec() == old.device_spec()
        &&& new.config_spec() == old.config_spec()
        &&& old.is_open() ==> (r is Ok && new == old)
        &&& !old.is_open() ==> match r {
            Ok(_) => new.is_open() && opened(Ok(new.stream_spec()->0)),
            Err(e) => !new.is_open() && if old.config_spec().format.supported() {
                opened(Err(e))
            } else {
                e matches Error::Audio(m) && m@ == unsupported_message()
            },
        }
    }

    /// Builds a recorder for `device` with its native `config` and opens a
    /// stream right away, so the recorder starts out open (not recording).
    /// Fails, without calling `open`, for an encoding that cannot be
    /// captured, and fails with `open`'s error when that fails.
    pub fn new<F>(device: D, config: CaptureConfig, open: F) -> (r: Result<Self>) where
        F: FnOnce(&D, &CaptureConfig) -> Result<S>,

        requires
            config.format.supported() ==> open.requires((&device, &config)),
        ensures
            !config.format.supported() ==> (r matches Err(e) && (e matches Error::Audio(m)
                && m@ == unsupported_message())),
            config.format.supported() ==> match r {
                Ok(rec) => {
                    &&& rec.device_spec() == device
                    &&& rec.config_spec() == config
                    &&& rec.is_open()
                    &&& open.ensures((&device, &config), Ok(rec.stream_spec()->0))
                },
                Err(e) => open.ensures((&device, &config), Err(e)),
            },
    {
        config.format.check_supported()?;
        let stream = open(&device, &config)?;
        Ok(AudioRecorder { device, config, stream: Some(stream) })
    }

    /// True iff no capture stream is held.
    pub fn is_muted(&self) -> (r: bool)
        ensures
            r == !self.is_open(),
    {
        self.stream.is_none()
    }

    /// The configuration streams are opened with.
    pub fn config(&self) -> (r: CaptureConfig)
        ensures
            r == self.config_spec(),
    {
        self.config
    }

    /// Begins a recording session on `buffer`: earlier samples are
    /// discarded before the flag is set.
    pub fn start<T: Copy>(&self, buffer: &mut SampleBuffer<T>)
        ensures
            final(buffer).is_recording_spec(),
            final(buffer).contents() == Seq::<T>::empty(),
    {
        buffer.start();
    }

    /// Ends the session: clears the flag and drains `buffer`, returning the
    /// raw interleaved samples captured since `start` (empty when nothing
    /// was). `config().conversion()` says what they still need.
    pub fn stop<T: Copy>(&self, buffer: &mut SampleBuffer<T>) -> (r: Vec<T>)
        ensures
            r@ == old(buffer).contents(),
            !final(buffer).is_recording_spec(),
            final(buffer).contents() == Seq::<T>::empty(),
    {
        buffer.stop()
    }

    /// Tears the stream down, releasing the device, and clears the
    /// recording flag. Muting a muted recorder changes nothing else.
    pub fn mute<T: Copy>(&mut self, buffer: &mut SampleBuffer<T>)
        ensures
            Self::muted_from(*old(self), *final(self)),
            !final(buffer).is_recording_spec(),
            final(buffer).contents() == old(buffer).contents(),
    {
        self.stream = None;
        buffer.halt();
    }

    /// Rebuilds the stream from the stored device and configuration.
    /// An open recorder is left as it is.
    pub fn unmute<F>(&mut self, open: F) -> (r: Result<()>) where
        F: FnOnce(&D, &CaptureConfig) -> Result<S>,

        requires
            open.requires((&old(self).device_spec(), &old(self).config_spec())),
        ensures
            Self::unmuted_from(
                *old(self),
                *final(self),
                r,
                |res: Result<S>|
                    open.ensures((&old(self).device_spec(), &old(self).config_spec()), res),
            ),
    {
        if self.stream.is_some() {
            return Ok(());
        }
        self.config.format.check_supported()?;
        let stream = open(&self.device, &self.config)?;
        self.stream = Some(stream);
        Ok(())
    }

    /// Switches to `device` with its native `config`: tears down any stream,
    /// clears the recording flag and the buffer, adopts the new device, and
    /// opens a stream on it only if the recorder was open before. A muted
    /// recorder stays muted.
    pub fn set_device<T: Copy, F>(
        &mut self,
        buffer: &mut SampleBuffer<T>,
        device: D,
        config: CaptureConfig,
        open: F,
    ) -> (r: Result<()>) where F: FnOnce(&D, &CaptureConfig) -> Result<S>,
        requires
            open.requires((&device, &config)),
        ensures
            final(self).device_spec() == device,
            final(self).config_spec() == config,
            !final(buffer).is_recording_spec(),
            final(buffer).contents() == Seq::<T>::empty(),
            !old(self).is_open() ==> r is Ok && !final(self).is_open(),
            old(self).is_open() ==> match r {
                Ok(_) => final(self).is_open() && open.ensures(
                    (&device, &config),
                    Ok(final(self).stream_spec()->0),
                ),
                Err(e) => !final(self).is_open() && if config.format.supported() {
                    open.ensures((&device, &config), Err(e))
                } else {
                    e matches Error::Audio(m) && m@ == unsupported_message()
                },
            },
    {
        let was_muted = self.stream.is_none();
        self.stream = None;
        buffer.halt();
        buffer.clear();
        self.device = device;
        self.config = config;
        if !was_muted {
            self.config.format.check_supported()?;
            let stream = open(&self.device, &self.config)?;
            self.stream = Some(stream);
        }
        Ok(())
    }
}

/// Muting twice leaves the recorder as muting once did: closed, on the
/// same device and configuration. `mute` has no error to raise.
pub proof fn lemma_mute_twice<D, S>(
    a: AudioRecorder<D, S>,
    b: AudioRecorder<D, S>,
    c: AudioRecorder<D, S>,
)
    requires
        AudioRecorder::muted_from(a, b),
        AudioRecorder::muted_from(b, c),
    ensures
        !c.is_open(),
        c.is_open() == b.is_open(),
        c.device_spec() == b.device_spec(),
        c.config_spec() == b.config_spec(),
{
}

/// Once an unmute has succeeded, unmuting again succeeds and changes
/// nothing, whatever the stream opener would do.
pub proof fn lemma_unmute_twice<D, S>(
    a: AudioRecorder<D, S>,
    b: AudioRecorder<D, S>,
    c: AudioRecorder<D, S>,
    r1: Result<()>,
    r2: Result<()>,
    first: spec_fn(Result<S>) -> bool,
    second: spec_fn(Result<S>) -> bool,
)
    requires
        AudioRecorder::unmuted_from(a, b, r1, first),
        r1 is Ok,
        AudioRecorder::unmuted_from(b, c, r2, second),
    ensures
        r2 is Ok,
        c == b,
        c.is_open(),
{
}

} // verus!
