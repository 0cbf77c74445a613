//! Media transcription support: source classification, WAV decoding and
//! down-mixing, VAD frame planning, decoder command lines and the decision
//! logic of the transcription command.

pub mod commands;
pub mod text;
pub mod transcribe;
pub mod vad_frames;
pub mod wav;

pub use crate::commands::{
    ffmpeg_decode_args, ffmpeg_fallback_input, ffmpeg_pipe_args, pipe_outcome, ytdlp_args,
    PipeFailure,
};
pub use crate::text::{classify_source, is_http_url, trim_str, MediaSource};
pub use crate::transcribe::{
    media_file_name_at, start_transcription, HistoryEntryRequest,
    MediaTranscriptionResult, ProcessedTranscription, SourceKind, TranscribeAction,
    TranscribeEvent, TranscribeJob,
};
pub use crate::vad_frames::{
    plan_vad_frames, should_apply_vad, SampleSpan, VadFramePlan, SILERO_FRAME_SAMPLES,
};
pub use crate::wav::{
    check_sample_count, downmix_frame_sums, read_wav_bytes, read_wav_samples, recording_wav_format,
    require_pcm16, verify_wav_file,
    DownmixedWav, SampleFormat, WavFormat, WavHeader, WavReadError, WavVerifyError,
    WHISPER_SAMPLE_RATE,
};
