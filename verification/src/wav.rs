//! WAV decoding with `hound` on in-memory bytes: header inspection, 16-bit
//! sample extraction, down-mixing to mono frame sums and sample-count checks.

use std::io::Cursor;
use vstd::prelude::*;

verus! {

/// `hound::Error`, the error of `hound`'s readers: carried through to the
/// caller unread.
#[verifier::external_type_specification]
#[verifier::external_body]
pub struct ExHoundError(hound::Error);

/// Sample rate of the audio the transcription engine consumes (Hz).
pub const WHISPER_SAMPLE_RATE: u32 = 16000;

/// How samples are stored in a WAV data chunk.
#[derive(Debug, Clone, Copy, PartialEq, Eq)]
pub enum SampleFormat {
    Int,
    Float,
}

/// The audio properties of a WAV stream.
#[derive(Debug, Clone, Copy, PartialEq, Eq)]
pub struct WavFormat {
    pub channels: u16,
    pub sample_rate: u32,
    pub bits_per_sample: u16,
    pub sample_format: SampleFormat,
}

/// What a WAV header states: the format and the number of samples (all
/// channels together) in the data chunk.
#[derive(Debug, Clone, Copy, PartialEq, Eq)]
pub struct WavHeader {
    pub format: WavFormat,
    pub sample_count: u32,
}

/// A header as plain values: channels, sample rate, bits per sample, whether
/// samples are integers, and the sample count.
pub type HeaderFields = (u16, u32, u16, bool, u32);

impl View for WavHeader {
    type V = HeaderFields;

    open spec fn view(&self) -> HeaderFields {
        (
            self.format.channels,
            self.format.sample_rate,
            self.format.bits_per_sample,
            self.format.sample_format is Int,
            self.sample_count,
        )
    }
}

/// The header `hound` reads from `bytes`, or `None` where it refuses them.
pub uninterp spec fn wav_header_of(bytes: Seq<u8>) -> Option<(u16, u32, u16, bool, u32)>;

/// All samples `hound` decodes from `bytes` as `i16`, or `None` where the
/// header or any sample cannot be read.
pub uninterp spec fn wav_i16_samples_of(bytes: Seq<u8>) -> Option<Seq<i16>>;

/// Reads a WAV header with `hound::WavReader::new` over a `Cursor` on `bytes`,
/// then takes `WavReader::spec` and `WavReader::len`. The contract names the
/// outcome (`wav_header_of`) and states two facts that `WavReader::new`
/// checks before it succeeds: the channel count is not zero and the sample
/// count is a multiple of it. It also states that fewer than 44 bytes never
/// suffice: the RIFF/WAVE preamble (12 bytes), a `fmt ` chunk header and its
/// 16 mandatory bytes, and a `data` chunk header are all read before
/// `WavReader::new` returns. Which longer byte strings are accepted is left
/// unsaid.
#[verifier::external_body]
fn parse_wav_header(bytes: &[u8]) -> (r: Result<WavHeader, hound::Error>)
    ensures
        r is Ok <==> wav_header_of(bytes@) is Some,
        bytes@.len() < 44 ==> r is Err,
        r matches Ok(h) ==> {
            &&& wav_header_of(bytes@) == Some(h@)
            &&& h.format.channels >= 1
            &&& h.sample_count % (h.format.channels as u32) == 0
        },
{
    let reader = hound::WavReader::new(Cursor::new(bytes))?;
    let spec = reader.spec();
    let sample_format = match spec.sample_format {
        hound::SampleFormat::Int => SampleFormat::Int,
        hound::SampleFormat::Float => SampleFormat::Float,
    };
    Ok(WavHeader {
        format: WavFormat {
            channels: spec.channels,
            sample_rate: spec.sample_rate,
            bits_per_sample: spec.bits_per_sample,
            sample_format,
        },
        sample_count: reader.len(),
    })
}

/// Decodes every sample of `bytes` as `i16` with `hound::WavReader::new`
/// (over a `Cursor`) and `WavReader::into_samples::<i16>`, collected until the
/// first error. The contract names the outcome (`wav_i16_samples_of`) and
/// states what the iterator shows: on success it yielded exactly the header's
/// sample count. The decoding itself is left unsaid.
#[verifier::external_body]
fn decode_i16_samples(bytes: &[u8]) -> (r: Result<Vec<i16>, hound::Error>)
    ensures
        r is Ok <==> wav_i16_samples_of(bytes@) is Some,
        r matches Ok(v) ==> {
            &&& wav_i16_samples_of(bytes@) == Some(v@)
            &&& wav_header_of(bytes@) matches Some(h)
            &&& v@.len() == h.4
        },
{
    hound::WavReader::new(Cursor::new(bytes))?.into_samples::<i16>().collect()
}

/// Sum of a sequence of samples.
pub open spec fn sample_sum(s: Seq<i16>) -> int
    decreases s.len(),
{
    if s.len() == 0 {
        0
    } else {
        sample_sum(s.drop_last()) + s.last()
    }
}

/// The `k`-th frame of interleaved samples with `channels` channels.
pub open spec fn frame(s: Seq<i16>, channels: nat, k: int) -> Seq<i16> {
    s.subrange(k * channels, k * channels + channels)
}

/// The per-frame channel sums of interleaved samples: one value per complete
/// frame, in order. Dividing a sum by the channel count gives the mono sample.
pub open spec fn frame_sums(s: Seq<i16>, channels: nat) -> Seq<int> {
    Seq::new(s.len() / channels, |k: int| sample_sum(frame(s, channels, k)))
}

/// Why a WAV byte stream could not be turned into mono samples.
#[derive(Debug)]
pub enum WavReadError {
    /// The header is not a WAV header `hound` accepts.
    Header(hound::Error),
    /// The samples are not 16-bit integers.
    UnsupportedFormat { bits_per_sample: u16, sample_format: SampleFormat },
    /// A sample could not be read.
    Samples(hound::Error),
    /// The samples do not fill a whole number of frames.
    IncompleteFrame { buffered: usize, channels: usize },
}

/// The result of down-mixing: the stream's header and, for each frame, the
/// sum of its channel samples.
#[derive(Debug)]
pub struct DownmixedWav {
    pub header: WavHeader,
    pub frame_sums: Vec<i32>,
}

/// Only 16-bit integer samples are accepted for down-mixing.
pub open spec fn is_pcm16(h: HeaderFields) -> bool {
    h.3 && h.2 == 16
}

proof fn lemma_frame_fits(k: int, channels: int, len: int)
    requires
        0 <= k,
        channels >= 1,
        len >= 0,
        k < len / channels,
    ensures
        (k + 1) * channels <= len,
        k * channels + channels == (k + 1) * channels,
        0 <= k * channels,
{
    assert((k + 1) * channels <= (len / channels) * channels) by (nonlinear_arith)
        requires
            k + 1 <= len / channels,
            channels >= 1,
    ;
    assert((len / channels) * channels <= len) by (nonlinear_arith)
        requires
            channels >= 1,
            len >= 0,
    ;
    assert(k * channels + channels == (k + 1) * channels) by (nonlinear_arith);
    assert(0 <= k * channels) by (nonlinear_arith)
        requires
            0 <= k,
            channels >= 1,
    ;
}

/// Sums each frame of interleaved samples; refuses samples that do not fill
/// a whole number of frames, reporting how many samples are left over.
pub fn downmix_frame_sums(samples: &Vec<i16>, channels: u16) -> (r: Result<Vec<i32>, WavReadError>)
    requires
        channels >= 1,
    ensures
        match r {
            Ok(sums) => {
                &&& samples@.len() % (channels as nat) == 0
                &&& sums@.len() == frame_sums(samples@, channels as nat).len()
                &&& forall|k: int|
                    0 <= k < sums@.len() ==> sums@[k] as int == frame_sums(
                        samples@,
                        channels as nat,
                    )[k]
            },
            Err(WavReadError::IncompleteFrame { buffered, channels: c }) => {
                &&& samples@.len() % (channels as nat) != 0
                &&& buffered == samples@.len() % (channels as nat)
                &&& c == channels
            },
            Err(_) => false,
        },
{
    let ch: usize = channels as usize;
    let n: usize = samples.len();
    if n % ch != 0 {
        return Err(WavReadError::IncompleteFrame { buffered: n % ch, channels: ch });
    }
    let frames: usize = n / ch;
    let mut sums: Vec<i32> = Vec::new();
    let mut k: usize = 0;
    let mut base: usize = 0;
    while k < frames
        invariant
            ch == channels as usize,
            1 <= ch <= 65535,
            n == samples@.len(),
            frames == n / ch,
            k <= frames,
            base as int == k * ch,
            sums@.len() == k,
            forall|i: int|
                0 <= i < k ==> sums@[i] as int == sample_sum(frame(samples@, ch as nat, i)),
        decreases frames - k,
    {
        proof {
            lemma_frame_fits(k as int, ch as int, n as int);
        }
        let mut acc: i32 = 0;
        let mut j: usize = 0;
        while j < ch
            invariant
                1 <= ch <= 65535,
                n == samples@.len(),
                base + ch <= n,
                j <= ch,
                acc as int == sample_sum(samples@.subrange(base as int, base + j)),
                -32768 * j <= acc <= 32767 * j,
            decreases ch - j,
        {
            assert(samples@.subrange(base as int, base + j + 1).drop_last() =~= samples@.subrange(
                base as int,
                base + j,
            ));
            acc = acc + samples[base + j] as i32;
            j = j + 1;
        }
        sums.push(acc);
        k = k + 1;
        base = base + ch;
    }
    Ok(sums)
}

/// Accepts only 16-bit integer samples; any other format is refused with its
/// bit depth and sample format.
pub fn require_pcm16(format: WavFormat) -> (r: Result<(), WavReadError>)
    ensures
        r is Ok <==> (format.sample_format is Int && format.bits_per_sample == 16),
        r matches Err(e) ==> e == (WavReadError::UnsupportedFormat {
            bits_per_sample: format.bits_per_sample,
            sample_format: format.sample_format,
        }),
{
    let is_int = match format.sample_format {
        SampleFormat::Int => true,
        SampleFormat::Float => false,
    };
    if !is_int || format.bits_per_sample != 16 {
        return Err(
            WavReadError::UnsupportedFormat {
                bits_per_sample: format.bits_per_sample,
                sample_format: format.sample_format,
            },
        );
    }
    Ok(())
}

/// Decodes WAV bytes held in memory and down-mixes them to mono frame sums.
///
/// The header must be readable and describe 16-bit integer samples; every
/// sample must then decode. Each returned value is the sum of one frame's
/// channel samples (for mono streams, the sample itself).
pub fn read_wav_bytes(wav_bytes: &[u8]) -> (r: Result<DownmixedWav, WavReadError>)
    ensures
        wav_bytes@.len() < 44 ==> r matches Err(WavReadError::Header(_)),
        match r {
            Err(WavReadError::Header(_)) => wav_header_of(wav_bytes@) is None,
            Err(WavReadError::UnsupportedFormat { bits_per_sample, sample_format }) => {
                &&& wav_header_of(wav_bytes@) matches Some(h)
                &&& !is_pcm16(h)
                &&& bits_per_sample == h.2
                &&& (sample_format is Int) == h.3
            },
            Err(WavReadError::Samples(_)) => {
                &&& wav_header_of(wav_bytes@) matches Some(h)
                &&& is_pcm16(h)
                &&& wav_i16_samples_of(wav_bytes@) is None
            },
            Err(WavReadError::IncompleteFrame { .. }) => false,
            Ok(d) => {
                &&& wav_header_of(wav_bytes@) == Some(d.header@)
                &&& is_pcm16(d.header@)
                &&& d.header.format.channels >= 1
                &&& d.header.sample_count % (d.header.format.channels as u32) == 0
                &&& wav_i16_samples_of(wav_bytes@) matches Some(s)
                &&& s.len() == d.header.sample_count
                &&& d.frame_sums@.len() == (d.header.sample_count as nat) / (d.header.format.channels as nat)
                &&& d.frame_sums@.len() == frame_sums(s, d.header.format.channels as nat).len()
                &&& forall|k: int|
                    0 <= k < d.frame_sums@.len() ==> d.frame_sums@[k] as int == frame_sums(
                        s,
                        d.header.format.channels as nat,
                    )[k]
            },
        },
{
    let header = match parse_wav_header(wav_bytes) {
        Ok(h) => h,
        Err(e) => return Err(WavReadError::Header(e)),
    };
    let format = header.format;
    if let Err(e) = require_pcm16(format) {
        return Err(e);
    }
    let samples = match decode_i16_samples(wav_bytes) {
        Ok(s) => s,
        Err(e) => return Err(WavReadError::Samples(e)),
    };
    match downmix_frame_sums(&samples, format.channels) {
        Ok(frame_sums) => Ok(DownmixedWav { header, frame_sums }),
        Err(e) => Err(e),
    }
}

/// A single-channel stream is passed through unchanged: its frame sums are
/// its samples.
pub proof fn lemma_mono_frames_are_samples(s: Seq<i16>)
    ensures
        frame_sums(s, 1).len() == s.len(),
        forall|k: int| 0 <= k < s.len() ==> #[trigger] frame_sums(s, 1)[k] == s[k] as int,
{
    assert forall|k: int| 0 <= k < s.len() implies #[trigger] frame_sums(s, 1)[k] == s[k] as int by {
        let f = frame(s, 1, k);
        assert(f =~= seq![s[k]]);
        assert(sample_sum(f.drop_last()) == 0);
        assert(sample_sum(f) == s[k] as int);
        assert(frame_sums(s, 1)[k] == sample_sum(f));
    }
}

proof fn lemma_sum_concat(a: Seq<i16>, b: Seq<i16>)
    ensures
        sample_sum(a + b) == sample_sum(a) + sample_sum(b),
    decreases b.len(),
{
    if b.len() == 0 {
        assert(a + b =~= a);
    } else {
        lemma_sum_concat(a, b.drop_last());
        assert((a + b).drop_last() =~= a + b.drop_last());
    }
}

proof fn lemma_sum_remove(s: Seq<i16>, i: int)
    requires
        0 <= i < s.len(),
    ensures
        sample_sum(s) == sample_sum(s.remove(i)) + s[i],
{
    let s0 = s.subrange(0, i);
    let s2 = s.subrange(i + 1, s.len() as int);
    assert(s =~= (s0 + seq![s[i]]) + s2);
    assert(s.remove(i) =~= s0 + s2);
    lemma_sum_concat(s0 + seq![s[i]], s2);
    lemma_sum_concat(s0, s2);
    assert((s0 + seq![s[i]]).drop_last() =~= s0);
}

/// The sum of samples does not depend on their order: two sequences holding
/// the same samples (as multisets) have the same sum.
pub proof fn lemma_sum_ignores_order(a: Seq<i16>, b: Seq<i16>)
    requires
        a.to_multiset() == b.to_multiset(),
    ensures
        sample_sum(a) == sample_sum(b),
    decreases a.len(),
{
    broadcast use vstd::seq_lib::group_to_multiset_ensures;

    if a.len() == 0 {
        assert(b.to_multiset().len() == 0);
        assert(b.len() == 0);
        assert(b =~= a);
    } else {
        let x = a.last();
        let a0 = a.drop_last();
        assert(a0.push(x) =~= a);
        assert(a.to_multiset() == a0.to_multiset().insert(x));
        assert(a.to_multiset().count(x) > 0);
        assert(b.to_multiset().count(x) > 0);
        assert(b.contains(x));
        let i = choose|i: int| 0 <= i < b.len() && b[i] == x;
        assert(b.remove(i).to_multiset() == b.to_multiset().remove(x));
        assert(a0.to_multiset() =~= a.to_multiset().remove(x));
        lemma_sum_ignores_order(a0, b.remove(i));
        lemma_sum_remove(b, i);
    }
}

/// Down-mixing does not depend on channel order: if every frame of `s2`
/// holds the same samples as the matching frame of `s1`, in any order (for
/// instance with left and right swapped), the frame sums agree.
pub proof fn lemma_frame_sums_ignore_channel_order(s1: Seq<i16>, s2: Seq<i16>, channels: nat)
    requires
        channels >= 1,
        s1.len() == s2.len(),
        forall|k: int|
            0 <= k < s1.len() / channels ==> #[trigger] frame(s1, channels, k).to_multiset()
                == frame(s2, channels, k).to_multiset(),
    ensures
        frame_sums(s1, channels) == frame_sums(s2, channels),
{
    assert forall|k: int| 0 <= k < s1.len() / channels implies #[trigger] frame_sums(
        s1,
        channels,
    )[k] == frame_sums(s2, channels)[k] by {
        lemma_sum_ignores_order(frame(s1, channels, k), frame(s2, channels, k));
    }
    assert(frame_sums(s1, channels) =~= frame_sums(s2, channels));
}

/// `mono` with every sample repeated on `channels` channels.
pub open spec fn duplicate_channels(mono: Seq<i16>, channels: nat) -> Seq<i16> {
    Seq::new(mono.len() * channels, |i: int| mono[i / (channels as int)])
}

/// `n` copies of `x`.
pub open spec fn repeated(x: i16, n: nat) -> Seq<i16> {
    Seq::new(n, |i: int| x)
}

proof fn lemma_sum_repeated(x: i16, n: nat)
    ensures
        sample_sum(repeated(x, n)) == n * x,
    decreases n,
{
    if n > 0 {
        lemma_sum_repeated(x, (n - 1) as nat);
        assert(repeated(x, n).drop_last() =~= repeated(x, (n - 1) as nat));
        assert(repeated(x, n).last() == x);
        assert(n * x == (n - 1) * x + x) by (nonlinear_arith);
    } else {
        assert(repeated(x, n).len() == 0);
    }
}

/// Identical channels mix down to the mono signal: a stream carrying `mono`
/// on each of `channels` channels has one frame per mono sample, whose sum is
/// `channels` times that sample (so the mean is the sample itself).
pub proof fn lemma_duplicated_channels_mix_to_mono(mono: Seq<i16>, channels: nat)
    requires
        channels >= 1,
    ensures
        frame_sums(duplicate_channels(mono, channels), channels).len() == mono.len(),
        forall|f: int|
            0 <= f < mono.len() ==> #[trigger] frame_sums(duplicate_channels(mono, channels), channels)[f]
                == channels * mono[f],
{
    let s = duplicate_channels(mono, channels);
    let c = channels as int;
    let n = mono.len() as int;
    assert((n * c) / c == n) by (nonlinear_arith)
        requires
            c >= 1,
    ;
    assert forall|f: int| 0 <= f < mono.len() implies #[trigger] frame_sums(s, channels)[f] == channels
        * mono[f] by {
        assert(f * c + c <= n * c) by (nonlinear_arith)
            requires
                0 <= f < n,
                c >= 1,
        ;
        assert(0 <= f * c) by (nonlinear_arith)
            requires
                0 <= f,
                c >= 1,
        ;
        assert forall|j: int| 0 <= j < c implies #[trigger] frame(s, channels, f)[j] == mono[f] by {
            assert((f * c + j) / c == f) by (nonlinear_arith)
                requires
                    0 <= j < c,
                    0 <= f,
            ;
        }
        assert(frame(s, channels, f) =~= repeated(mono[f], channels));
        lemma_sum_repeated(mono[f], channels);
    }
}

/// Decodes every sample of WAV bytes as a 16-bit integer, channels left
/// interleaved, whatever the header's bit depth (`hound` widens 8-bit
/// samples and refuses wider or floating-point ones sample by sample).
pub fn read_wav_samples(wav_bytes: &[u8]) -> (r: Result<Vec<i16>, WavReadError>)
    ensures
        wav_bytes@.len() < 44 ==> r matches Err(WavReadError::Header(_)),
        match r {
            Err(WavReadError::Header(_)) => wav_header_of(wav_bytes@) is None,
            Err(WavReadError::Samples(_)) => {
                &&& wav_header_of(wav_bytes@) is Some
                &&& wav_i16_samples_of(wav_bytes@) is None
            },
            Err(_) => false,
            Ok(v) => {
                &&& wav_i16_samples_of(wav_bytes@) == Some(v@)
                &&& wav_header_of(wav_bytes@) matches Some(h)
                &&& h.0 >= 1
                &&& h.4 % (h.0 as u32) == 0
                &&& v@.len() == h.4
            },
        },
{
    match parse_wav_header(wav_bytes) {
        Ok(_) => {},
        Err(e) => return Err(WavReadError::Header(e)),
    }
    match decode_i16_samples(wav_bytes) {
        Ok(v) => Ok(v),
        Err(e) => Err(WavReadError::Samples(e)),
    }
}

/// Why a written WAV file failed its check.
#[derive(Debug)]
pub enum WavVerifyError {
    /// The header is not a WAV header `hound` accepts.
    Header(hound::Error),
    /// The header announces another number of samples than expected.
    SampleCountMismatch { expected: usize, actual: usize },
}

/// Checks that the WAV bytes of a written file announce `expected_samples`
/// samples.
pub fn verify_wav_file(wav_bytes: &[u8], expected_samples: usize) -> (r: Result<(), WavVerifyError>)
    ensures
        wav_bytes@.len() < 44 ==> r matches Err(WavVerifyError::Header(_)),
        match r {
            Err(WavVerifyError::Header(_)) => wav_header_of(wav_bytes@) is None,
            Err(WavVerifyError::SampleCountMismatch { expected, actual }) => {
                &&& wav_header_of(wav_bytes@) matches Some(h)
                &&& h.4 != expected_samples
                &&& actual == h.4
                &&& expected == expected_samples
            },
            Ok(()) => wav_header_of(wav_bytes@) matches Some(h) && h.4 == expected_samples,
        },
{
    let header = match parse_wav_header(wav_bytes) {
        Ok(h) => h,
        Err(e) => return Err(WavVerifyError::Header(e)),
    };
    check_sample_count(header.sample_count, expected_samples)
}

/// Compares the sample count a header announces with the expected one.
pub fn check_sample_count(announced: u32, expected_samples: usize) -> (r: Result<(), WavVerifyError>)
    ensures
        match r {
            Ok(()) => announced == expected_samples,
            Err(WavVerifyError::SampleCountMismatch { expected, actual }) => {
                &&& announced != expected_samples
                &&& actual == announced
                &&& expected == expected_samples
            },
            Err(WavVerifyError::Header(_)) => false,
        },
{
    let actual: usize = announced as usize;
    if actual != expected_samples {
        return Err(WavVerifyError::SampleCountMismatch { expected: expected_samples, actual });
    }
    Ok(())
}

/// The format recordings are saved in: mono, 16 kHz, 16-bit integers.
pub fn recording_wav_format() -> (r: WavFormat)
    ensures
        r.channels == 1,
        r.sample_rate == WHISPER_SAMPLE_RATE,
        r.bits_per_sample == 16,
        r.sample_format is Int,
{
    WavFormat {
        channels: 1,
        sample_rate: WHISPER_SAMPLE_RATE,
        bits_per_sample: 16,
        sample_format: SampleFormat::Int,
    }
}

} // verus!
