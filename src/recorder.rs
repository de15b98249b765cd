use vstd::prelude::*;

use crate::wav::{encodable, encode_wav, wav_file, EncodingError};

verus! {

/// What the input device reports when a session opens.
#[derive(Debug, Clone, Copy, PartialEq, Eq)]
pub struct DeviceConfig {
    pub sample_rate: u32,
    pub channels: u16,
}

/// Failures of the recording lifecycle.
#[derive(Debug, Clone, Copy, PartialEq, Eq)]
pub enum RecorderError {
    /// No input device, or one that cannot be opened.
    Device,
    /// `stop` without an open session.
    NotRecording,
    /// The samples could not be put in the container.
    Encoding(EncodingError),
}

/// One finished recording: the encoded container and its length in time.
#[derive(Debug, Clone, PartialEq, Eq)]
pub struct EncodedRecording {
    pub wav: Vec<u8>,
    pub duration_ms: u64,
}

/// A copy of `b` with the same bytes.
fn copy_bytes(b: &Vec<u8>) -> (r: Vec<u8>)
    ensures
        r@ == b@,
{
    let r = b.clone();
    assert(r@ =~= b@);
    r
}

/// The capture session: whether one is open and the device format it uses.
pub struct AudioRecorder {
    sample_rate: u32,
    channels: u16,
    recording: bool,
}

impl AudioRecorder {
    pub closed spec fn active(&self) -> bool {
        self.recording
    }

    pub closed spec fn rate(&self) -> u32 {
        self.sample_rate
    }

    pub closed spec fn channel_count(&self) -> u16 {
        self.channels
    }

    /// An idle recorder, assuming a 16 kHz mono device until one is opened.
    pub fn new() -> (r: Self)
        ensures
            !r.active(),
            r.rate() == 16000,
            r.channel_count() == 1,
    {
        AudioRecorder { sample_rate: 16000, channels: 1, recording: false }
    }

    /// Opens a session on the device that the caller found, taking its rate
    /// and channel count. No device, or one with no channels or a zero rate,
    /// is a device error. While a session is open this is a no-op success.
    pub fn start(&mut self, device: Option<DeviceConfig>) -> (r: Result<(), RecorderError>)
        ensures
            old(self).active() ==> r is Ok && *final(self) == *old(self),
            !old(self).active() ==> match device {
                Some(c) if c.sample_rate > 0 && c.channels > 0 => {
                    &&& r is Ok
                    &&& final(self).active()
                    &&& final(self).rate() == c.sample_rate
                    &&& final(self).channel_count() == c.channels
                },
                _ => r == Err::<(), RecorderError>(RecorderError::Device) && *final(self)
                    == *old(self),
            },
    {
        if self.recording {
            return Ok(());
        }
        match device {
            Some(c) => {
                if c.sample_rate == 0 || c.channels == 0 {
                    return Err(RecorderError::Device);
                }
                self.sample_rate = c.sample_rate;
                self.channels = c.channels;
                self.recording = true;
                Ok(())
            },
            None => Err(RecorderError::Device),
        }
    }

    /// Closes the session and encodes its mono samples at the session's rate.
    /// Without an open session this fails and changes nothing.
    pub fn stop(&mut self, samples: &Vec<i16>) -> (r: Result<Vec<u8>, RecorderError>)
        ensures
            !old(self).active() ==> r == Err::<Vec<u8>, RecorderError>(
                RecorderError::NotRecording,
            ) && *final(self) == *old(self),
            old(self).active() ==> {
                &&& !final(self).active()
                &&& final(self).rate() == old(self).rate()
                &&& final(self).channel_count() == old(self).channel_count()
                &&& encodable(old(self).rate() as nat, samples@.len()) <==> r is Ok
                &&& r is Err ==> r->Err_0 is Encoding
            },
            r matches Ok(b) ==> old(self).active() && b@ == wav_file(
                old(self).rate() as nat,
                samples@,
            ),
    {
        if !self.recording {
            return Err(RecorderError::NotRecording);
        }
        self.recording = false;
        match encode_wav(samples, self.sample_rate) {
            Ok(b) => Ok(b),
            Err(e) => Err(RecorderError::Encoding(e)),
        }
    }

    pub fn is_recording(&self) -> (r: bool)
        ensures
            r == self.active(),
    {
        self.recording
    }

    pub fn sample_rate(&self) -> (r: u32)
        ensures
            r == self.rate(),
    {
        self.sample_rate
    }

    pub fn channels(&self) -> (r: u16)
        ensures
            r == self.channel_count(),
    {
        self.channels
    }
}

/// Milliseconds between the session's start and `now_ms`; zero when the start
/// was not recorded or lies after `now_ms`.
pub open spec fn elapsed_ms(start: Option<u64>, now_ms: u64) -> u64 {
    match start {
        Some(s) => if now_ms >= s {
            (now_ms - s) as u64
        } else {
            0
        },
        None => 0,
    }
}

/// What `start_recording` does: a no-op success while Recording; otherwise a
/// fresh session on a usable device, or a device error that changes nothing.
/// The last recording is kept either way.
pub open spec fn start_post(
    pre: RecorderState,
    device: Option<DeviceConfig>,
    now_ms: u64,
    post: RecorderState,
    r: Result<bool, RecorderError>,
) -> bool {
    &&& post.last() == pre.last()
    &&& pre.recording() ==> r == Ok::<bool, RecorderError>(false) && post == pre
    &&& !pre.recording() ==> match device {
        Some(c) if c.sample_rate > 0 && c.channels > 0 => {
            &&& r == Ok::<bool, RecorderError>(true)
            &&& post.recording()
            &&& post.session_rate() == c.sample_rate
            &&& post.session_channels() == c.channels
            &&& post.started_at() == Some(now_ms)
        },
        _ => r == Err::<bool, RecorderError>(RecorderError::Device) && post == pre,
    }
}

/// Starting twice in a row opens one session: the second call succeeds and
/// changes nothing, whatever device and time it is given.
pub proof fn lemma_second_start_is_no_op(
    s0: RecorderState,
    d1: Option<DeviceConfig>,
    t1: u64,
    s1: RecorderState,
    r1: Result<bool, RecorderError>,
    d2: Option<DeviceConfig>,
    t2: u64,
    s2: RecorderState,
    r2: Result<bool, RecorderError>,
)
    requires
        start_post(s0, d1, t1, s1, r1),
        start_post(s1, d2, t2, s2, r2),
        r1 is Ok,
    ensures
        s1.recording(),
        s2 == s1,
        r2 == Ok::<bool, RecorderError>(false),
{
}

/// The recording controller: the session, when it started, and the last
/// finished recording. It is the one place that says whether a recording is
/// in progress; callers serialize their calls on it.
pub struct RecorderState {
    recorder: AudioRecorder,
    recording_start: Option<u64>,
    last: Option<EncodedRecording>,
}

impl RecorderState {
    /// Whether a recording is in progress.
    pub closed spec fn recording(&self) -> bool {
        self.recorder.active()
    }

    /// The rate of the current or latest session.
    pub closed spec fn session_rate(&self) -> u32 {
        self.recorder.rate()
    }

    /// The channel count of the current or latest session.
    pub closed spec fn session_channels(&self) -> u16 {
        self.recorder.channel_count()
    }

    /// When the current session started, if recorded.
    pub closed spec fn started_at(&self) -> Option<u64> {
        self.recording_start
    }

    /// The last finished recording: its container bytes and duration.
    pub closed spec fn last(&self) -> Option<(Seq<u8>, u64)> {
        match self.last {
            Some(e) => Some((e.wav@, e.duration_ms)),
            None => None,
        }
    }

    /// Idle, with no recording kept.
    pub fn new() -> (r: Self)
        ensures
            !r.recording(),
            r.last() is None,
            r.started_at() is None,
    {
        RecorderState { recorder: AudioRecorder::new(), recording_start: None, last: None }
    }

    /// Idle to Recording, stamping the start time. While Recording it is a
    /// no-op success and answers `Ok(false)`; a fresh session answers
    /// `Ok(true)`. The last recording is kept either way.
    pub fn start_recording(&mut self, device: Option<DeviceConfig>, now_ms: u64) -> (r: Result<
        bool,
        RecorderError,
    >)
        ensures
            start_post(*old(self), device, now_ms, *final(self), r),
    {
        if self.recorder.is_recording() {
            return Ok(false);
        }
        match self.recorder.start(device) {
            Ok(()) => {
                self.recording_start = Some(now_ms);
                Ok(true)
            },
            Err(e) => Err(e),
        }
    }

    /// Recording to Idle: encodes the session's samples, keeps the result as
    /// the last recording with its duration, and returns it. While Idle it
    /// fails with `NotRecording` and changes nothing.
    pub fn stop_recording(&mut self, samples: &Vec<i16>, now_ms: u64) -> (r: Result<
        EncodedRecording,
        RecorderError,
    >)
        ensures
            !old(self).recording() ==> r == Err::<EncodedRecording, RecorderError>(
                RecorderError::NotRecording,
            ) && *final(self) == *old(self),
            old(self).recording() ==> {
                &&& !final(self).recording()
                &&& final(self).started_at() is None
                &&& encodable(old(self).session_rate() as nat, samples@.len()) <==> r is Ok
                &&& r is Err ==> r->Err_0 is Encoding && final(self).last() == old(self).last()
            },
            r matches Ok(rec) ==> {
                &&& old(self).recording()
                &&& rec.wav@ == wav_file(old(self).session_rate() as nat, samples@)
                &&& rec.duration_ms == elapsed_ms(old(self).started_at(), now_ms)
                &&& final(self).last() == Some((rec.wav@, rec.duration_ms))
            },
    {
        if !self.recorder.is_recording() {
            return Err(RecorderError::NotRecording);
        }
        let duration_ms: u64 = match self.recording_start {
            Some(s) => if now_ms >= s {
                now_ms - s
            } else {
                0
            },
            None => 0,
        };
        self.recording_start = None;
        match self.recorder.stop(samples) {
            Ok(wav) => {
                let kept = EncodedRecording { wav: copy_bytes(&wav), duration_ms };
                self.last = Some(kept);
                Ok(EncodedRecording { wav, duration_ms })
            },
            Err(e) => Err(e),
        }
    }

    /// Whether a recording is in progress.
    pub fn is_recording(&self) -> (r: bool)
        ensures
            r == self.recording(),
    {
        self.recorder.is_recording()
    }

    /// The rate of the current or latest session.
    pub fn sample_rate(&self) -> (r: u32)
        ensures
            r == self.session_rate(),
    {
        self.recorder.sample_rate()
    }

    /// The channel count of the current or latest session.
    pub fn channels(&self) -> (r: u16)
        ensures
            r == self.session_channels(),
    {
        self.recorder.channels()
    }

    /// A copy of the last finished recording, if any.
    pub fn last_recording(&self) -> (r: Option<EncodedRecording>)
        ensures
            match r {
                Some(rec) => self.last() == Some((rec.wav@, rec.duration_ms)),
                None => self.last() is None,
            },
    {
        match &self.last {
            Some(e) => Some(EncodedRecording { wav: copy_bytes(&e.wav), duration_ms: e.duration_ms }),
            None => None,
        }
    }
}

} // verus!
