//! Finding speech in a recording, frame by frame: speech starts after a
//! run of voiced frames and ends after enough silence. Whether a frame is
//! voiced is for the caller to measure.

use vstd::prelude::*;

verus! {

/// The timing of the detection.
#[derive(Clone, Copy, Debug)]
pub struct VadTiming {
    /// The length of a frame, in milliseconds.
    pub frame_ms: u32,
    /// How many voiced frames in a row start the speech.
    pub start_frames: usize,
    /// How much silence ends the speech, in milliseconds.
    pub end_silence_ms: u32,
    /// How much of the recording before the speech is kept, in
    /// milliseconds.
    pub pre_roll_ms: u32,
    /// How long a recording gets, in milliseconds.
    pub max_record_ms: u32,
}

/// Sizes in samples, all channels counted.
#[derive(Clone, Copy, Debug)]
pub struct FrameSizes {
    pub frame_samples: usize,
    pub pre_roll_samples: usize,
}

/// How far the detection has come.
#[derive(Clone, Copy, Debug)]
pub struct VadState {
    /// How many samples have been looked at.
    pub processed: usize,
    pub speaking: bool,
    /// How many voiced frames came in a row, before the speech.
    pub voiced_frames: usize,
    /// How long the silence has lasted, during the speech.
    pub silence_ms: u32,
    pub speech_start: usize,
    pub speech_end: usize,
}

/// How many samples so many milliseconds are, on all channels.
pub open spec fn samples_in(sample_rate: u32, channels: u16, ms: u32) -> int {
    (sample_rate * ms / 1000) * channels
}

/// The usual timing, but for the threshold of loudness, which is the
/// caller's.
pub fn default_timing() -> (timing: VadTiming)
    ensures
        timing.frame_ms == 20,
        timing.start_frames == 3,
        timing.end_silence_ms == 800,
        timing.pre_roll_ms == 200,
        timing.max_record_ms == 10_000,
{
    VadTiming {
        frame_ms: 20,
        start_frames: 3,
        end_silence_ms: 800,
        pre_roll_ms: 200,
        max_record_ms: 10_000,
    }
}

/// How long a recording of at most `seconds` seconds gets, in
/// milliseconds: a second at least, and no longer than `u32` can say.
pub fn record_limit_ms(seconds: u64) -> (ms: u32)
    ensures
        ms == if seconds == 0 {
            1000
        } else if seconds * 1000 <= u32::MAX {
            seconds * 1000
        } else {
            u32::MAX as int
        },
{
    if seconds == 0 {
        1000
    } else if seconds <= (u32::MAX / 1000) as u64 {
        (seconds * 1000) as u32
    } else {
        u32::MAX
    }
}

/// The sizes of a frame and of the pre-roll. There are none where a frame
/// would hold no sample, or where a size does not fit in `usize`.
pub fn frame_sizes(sample_rate: u32, channels: u16, timing: &VadTiming) -> (sizes: Option<FrameSizes>)
    ensures
        match sizes {
            Some(s) => s.frame_samples == samples_in(sample_rate, channels, timing.frame_ms)
                && s.pre_roll_samples == samples_in(sample_rate, channels, timing.pre_roll_ms)
                && s.frame_samples > 0,
            None => samples_in(sample_rate, channels, timing.frame_ms) == 0 || samples_in(
                sample_rate,
                channels,
                timing.frame_ms,
            ) > usize::MAX || samples_in(sample_rate, channels, timing.pre_roll_ms) > usize::MAX,
        },
{
    assert(sample_rate * timing.frame_ms <= 0xffff_ffff * 0xffff_ffff) by (nonlinear_arith)
        requires
            sample_rate <= 0xffff_ffff,
            timing.frame_ms <= 0xffff_ffff,
    ;
    assert(sample_rate * timing.pre_roll_ms <= 0xffff_ffff * 0xffff_ffff) by (nonlinear_arith)
        requires
            sample_rate <= 0xffff_ffff,
            timing.pre_roll_ms <= 0xffff_ffff,
    ;
    let per_channel: u128 = (sample_rate as u128 * timing.frame_ms as u128) / 1000;
    let pre_roll: u128 = (sample_rate as u128 * timing.pre_roll_ms as u128) / 1000;
    assert(per_channel * channels <= 0xffff_ffff_ffff_ffff * 0xffff) by (nonlinear_arith)
        requires
            per_channel <= 0xffff_ffff_ffff_ffff,
            channels <= 0xffff,
    ;
    assert(pre_roll * channels <= 0xffff_ffff_ffff_ffff * 0xffff) by (nonlinear_arith)
        requires
            pre_roll <= 0xffff_ffff_ffff_ffff,
            channels <= 0xffff,
    ;
    let frame_samples: u128 = per_channel * channels as u128;
    let pre_roll_samples: u128 = pre_roll * channels as u128;
    if frame_samples == 0 || frame_samples > usize::MAX as u128 || pre_roll_samples
        > usize::MAX as u128 {
        return None;
    }
    Some(
        FrameSizes {
            frame_samples: frame_samples as usize,
            pre_roll_samples: pre_roll_samples as usize,
        },
    )
}

/// The state after one more frame, and whether the speech has ended with
/// it. Before the speech, voiced frames are counted and an unvoiced one
/// starts the count anew; enough of them start the speech, the pre-roll
/// before the frame included. During the speech, silence adds up and a
/// voiced frame ends it; enough of it ends the speech with the frame.
pub open spec fn stepped(s: VadState, voiced: bool, sizes: FrameSizes, timing: VadTiming) -> (
    VadState,
    bool,
) {
    let frame_end = (s.processed + sizes.frame_samples) as usize;
    if !s.speaking {
        let run: usize = if !voiced {
            0
        } else if s.voiced_frames < usize::MAX {
            (s.voiced_frames + 1) as usize
        } else {
            s.voiced_frames
        };
        if run >= timing.start_frames {
            (
                VadState {
                    processed: frame_end,
                    speaking: true,
                    voiced_frames: run,
                    silence_ms: 0,
                    speech_start: if s.processed >= sizes.pre_roll_samples {
                        (s.processed - sizes.pre_roll_samples) as usize
                    } else {
                        0
                    },
                    ..s
                },
                false,
            )
        } else {
            (VadState { processed: frame_end, voiced_frames: run, ..s }, false)
        }
    } else if voiced {
        (VadState { processed: frame_end, silence_ms: 0, ..s }, false)
    } else {
        let silence: u32 = if s.silence_ms + timing.frame_ms <= u32::MAX {
            (s.silence_ms + timing.frame_ms) as u32
        } else {
            u32::MAX
        };
        if silence >= timing.end_silence_ms {
            (VadState { silence_ms: silence, speech_end: frame_end, ..s }, true)
        } else {
            (VadState { processed: frame_end, silence_ms: silence, ..s }, false)
        }
    }
}

impl VadState {
    /// The state before the first frame.
    pub fn new() -> (state: Self)
        ensures
            state == (VadState {
                processed: 0,
                speaking: false,
                voiced_frames: 0,
                silence_ms: 0,
                speech_start: 0,
                speech_end: 0,
            }),
    {
        VadState {
            processed: 0,
            speaking: false,
            voiced_frames: 0,
            silence_ms: 0,
            speech_start: 0,
            speech_end: 0,
        }
    }

    /// Whether the recording is over: it is when it has lasted longer
    /// than allowed.
    pub fn timed_out(elapsed_ms: u128, timing: &VadTiming) -> (over: bool)
        ensures
            over == (elapsed_ms > timing.max_record_ms),
    {
        elapsed_ms > timing.max_record_ms as u128
    }

    /// Whether the next frame is there, with `available` samples
    /// recorded.
    pub fn frame_ready(&self, available: usize, sizes: &FrameSizes) -> (ready: bool)
        ensures
            ready == (self.processed + sizes.frame_samples <= available),
    {
        self.processed <= available && sizes.frame_samples <= available - self.processed
    }

    /// Takes the next frame into account. Returns whether the speech has
    /// ended.
    pub fn step(&mut self, voiced: bool, sizes: &FrameSizes, timing: &VadTiming) -> (done: bool)
        requires
            old(self).processed + sizes.frame_samples <= usize::MAX,
        ensures
            (*final(self), done) == stepped(*old(self), voiced, *sizes, *timing),
    {
        let frame_end = self.processed + sizes.frame_samples;
        if !self.speaking {
            if voiced {
                self.voiced_frames = self.voiced_frames.saturating_add(1);
            } else {
                self.voiced_frames = 0;
            }
            if self.voiced_frames >= timing.start_frames {
                self.speaking = true;
                self.speech_start = self.processed.saturating_sub(sizes.pre_roll_samples);
                self.silence_ms = 0;
            }
        } else if voiced {
            self.silence_ms = 0;
        } else {
            self.silence_ms = self.silence_ms.saturating_add(timing.frame_ms);
            if self.silence_ms >= timing.end_silence_ms {
                self.speech_end = frame_end;
                return true;
            }
        }
        self.processed = frame_end;
        false
    }

    /// Ends a recording that has timed out, with `available` samples
    /// recorded. Returns whether there was speech: if so, it lasts to the
    /// end of the recording.
    pub fn time_out(&mut self, available: usize) -> (spoken: bool)
        ensures
            spoken == old(self).speaking,
            *final(self) == if spoken {
                VadState { speech_end: available, ..*old(self) }
            } else {
                *old(self)
            },
    {
        if self.speaking {
            self.speech_end = available;
        }
        self.speaking
    }

    /// The samples of the speech, in a recording of `recorded` samples:
    /// from which one up to which one. There are none where the speech is
    /// empty or ends behind the recording.
    pub fn speech_range(&self, recorded: usize) -> (range: Option<(usize, usize)>)
        ensures
            match range {
                Some((start, end)) => start == self.speech_start && end == self.speech_end
                    && start < end <= recorded,
                None => self.speech_end <= self.speech_start || self.speech_end > recorded,
            },
    {
        if self.speech_end <= self.speech_start || self.speech_end > recorded {
            None
        } else {
            Some((self.speech_start, self.speech_end))
        }
    }
}

/// Whatever the frames are: the speech that is found starts at or before
/// the first sample that has not been looked at.
pub proof fn lemma_speech_starts_in_recording(s: VadState, voiced: bool, sizes: FrameSizes, timing: VadTiming)
    requires
        s.speech_start <= s.processed,
        s.processed + sizes.frame_samples <= usize::MAX,
    ensures
        stepped(s, voiced, sizes, timing).0.speech_start <= stepped(
            s,
            voiced,
            sizes,
            timing,
        ).0.processed,
        stepped(s, voiced, sizes, timing).1 ==> stepped(s, voiced, sizes, timing).0.speech_start
            <= stepped(s, voiced, sizes, timing).0.speech_end,
{
}

} // verus!
