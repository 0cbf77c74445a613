//! How a decoded recording is cut into frames for voice-activity detection.

use crate::wav::WHISPER_SAMPLE_RATE;
use vstd::prelude::*;

verus! {

/// Samples in one VAD frame: 30 ms at 16 kHz.
pub const SILERO_FRAME_SAMPLES: usize = 480;

/// A VAD frame lasts 30 ms of audio at the engine's sample rate.
pub proof fn lemma_frame_is_thirty_ms()
    ensures
        SILERO_FRAME_SAMPLES == WHISPER_SAMPLE_RATE * 30 / 1000,
{
}

/// The half-open range `start..end` of sample indices.
#[derive(Debug, Clone, Copy, PartialEq, Eq)]
pub struct SampleSpan {
    pub start: usize,
    pub end: usize,
}

/// The frames handed to the VAD, in order, and the samples after the last
/// whole frame, which bypass the VAD and are kept as they are.
#[derive(Debug)]
pub struct VadFramePlan {
    pub frames: Vec<SampleSpan>,
    pub trailing: Option<SampleSpan>,
}

/// The `k`-th whole frame.
pub open spec fn frame_span(k: int) -> SampleSpan {
    SampleSpan {
        start: (k * SILERO_FRAME_SAMPLES) as usize,
        end: ((k + 1) * SILERO_FRAME_SAMPLES) as usize,
    }
}

/// The samples of a recording of `total` samples that follow its whole
/// frames, if there are any.
pub open spec fn trailing_span(total: nat) -> Option<SampleSpan> {
    if total % (SILERO_FRAME_SAMPLES as nat) != 0 {
        Some(
            SampleSpan {
                start: (total / (SILERO_FRAME_SAMPLES as nat) * SILERO_FRAME_SAMPLES) as usize,
                end: total as usize,
            },
        )
    } else {
        None
    }
}

/// Whole frames tile the recording from its start: frame `k` is exactly one
/// frame long, starts at `k` frame lengths and so begins where frame `k - 1`
/// ends (for every frame that fits the address range).
pub proof fn lemma_frames_are_contiguous(k: int)
    requires
        0 <= k,
        (k + 1) * SILERO_FRAME_SAMPLES <= usize::MAX,
    ensures
        frame_span(k).start == k * SILERO_FRAME_SAMPLES,
        frame_span(k).end - frame_span(k).start == SILERO_FRAME_SAMPLES,
        k > 0 ==> frame_span(k).start == frame_span(k - 1).end,
{
}

/// The trailing span is what follows the last whole frame: shorter than a
/// frame, non-empty, and ending at the end of the recording.
pub proof fn lemma_trailing_is_the_remainder(total: nat)
    requires
        total <= usize::MAX,
    ensures
        trailing_span(total) matches Some(t) ==> {
            &&& t.start == total / (SILERO_FRAME_SAMPLES as nat) * SILERO_FRAME_SAMPLES
            &&& t.start < t.end == total
            &&& t.end - t.start < SILERO_FRAME_SAMPLES
        },
        trailing_span(total) is None ==> total % (SILERO_FRAME_SAMPLES as nat) == 0,
{
}

/// Cuts `total` samples into consecutive whole VAD frames from the start,
/// and the remainder.
pub fn plan_vad_frames(total: usize) -> (r: VadFramePlan)
    ensures
        r.frames@.len() == total / SILERO_FRAME_SAMPLES,
        forall|k: int| 0 <= k < r.frames@.len() ==> #[trigger] r.frames@[k] == frame_span(k),
        r.trailing == trailing_span(total as nat),
        forall|k: int|
            0 <= k < r.frames@.len() ==> {
                &&& #[trigger] r.frames@[k].start == k * SILERO_FRAME_SAMPLES
                &&& r.frames@[k].end == r.frames@[k].start + SILERO_FRAME_SAMPLES
                &&& r.frames@[k].end <= total
            },
        forall|k: int| 0 < k < r.frames@.len() ==> #[trigger] r.frames@[k].start == r.frames@[k - 1].end,
        r.trailing matches Some(t) ==> {
            &&& t.start == r.frames@.len() * SILERO_FRAME_SAMPLES
            &&& t.start < t.end == total
        },
        r.trailing is None ==> r.frames@.len() * SILERO_FRAME_SAMPLES == total,
{
    let mut frames: Vec<SampleSpan> = Vec::new();
    let mut i: usize = 0;
    while i <= total && SILERO_FRAME_SAMPLES <= total - i
        invariant
            i <= total,
            i == frames@.len() * SILERO_FRAME_SAMPLES,
            frames@.len() <= total / SILERO_FRAME_SAMPLES,
            forall|k: int| 0 <= k < frames@.len() ==> #[trigger] frames@[k] == frame_span(k),
        decreases total - i,
    {
        frames.push(SampleSpan { start: i, end: i + SILERO_FRAME_SAMPLES });
        i = i + SILERO_FRAME_SAMPLES;
    }
    let trailing = if i < total {
        Some(SampleSpan { start: i, end: total })
    } else {
        None
    };
    VadFramePlan { frames, trailing }
}

/// Voice-activity detection runs only when asked for and only on a
/// non-empty recording.
pub fn should_apply_vad(sample_count: usize, apply_vad: bool) -> (r: bool)
    ensures
        r == (apply_vad && sample_count > 0),
{
    apply_vad && sample_count > 0
}

/// Every sample of a recording is handled exactly once: it lies in the
/// whole frame given by its index divided by the frame size, or, past the
/// last whole frame, in the trailing span; the spans stay inside the
/// recording.
pub proof fn lemma_vad_spans_cover(total: nat, j: nat)
    requires
        j < total <= usize::MAX,
    ensures
        ({
            let k: nat = j / (SILERO_FRAME_SAMPLES as nat);
            if k < total / (SILERO_FRAME_SAMPLES as nat) {
                frame_span(k as int).start <= j < frame_span(k as int).end <= total
            } else {
                trailing_span(total) matches Some(t) && t.start <= j < t.end == total
            }
        }),
{
}

} // verus!
