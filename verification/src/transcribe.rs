//! The decisions of the media transcription command, as a state machine.
//!
//! The caller performs each requested action (loading the model and
//! extracting audio, running the recogniser, post-processing, saving the
//! recording and the history entry) and reports its outcome as an event;
//! `TranscribeJob::step` decides what happens next.

use crate::text::{
    decimal, is_http_url_spec, lemma_url_classification_ignores_trim, push_decimal, trim, trim_str,
};
use vstd::prelude::*;

verus! {

/// What the transcription command answers with.
#[derive(Debug)]
pub struct MediaTranscriptionResult {
    pub text: String,
}

/// Whether a source is fetched remotely or read from disk.
#[derive(Debug, Clone, Copy, PartialEq, Eq)]
pub enum SourceKind {
    Url,
    File,
}

/// The output of post-processing a transcription.
#[derive(Debug)]
pub struct ProcessedTranscription {
    pub final_text: String,
    pub post_processed_text: Option<String>,
    pub post_process_prompt: Option<String>,
}

/// The history entry recorded for a finished transcription.
#[derive(Debug)]
pub struct HistoryEntryRequest {
    pub file_name: String,
    pub transcription: String,
    pub post_processed: bool,
    pub post_processed_text: Option<String>,
    pub post_process_prompt: Option<String>,
}

/// Work the caller must carry out next.
#[derive(Debug)]
pub enum TranscribeAction {
    /// Start loading the recognition model, then extract mono 16 kHz audio
    /// from `source`, applying VAD when asked.
    LoadModelAndExtract { source: String, kind: SourceKind, apply_vad: bool },
    /// Run the recogniser on the extracted samples.
    Transcribe,
    /// Post-process the transcription (when `post_process` is set).
    PostProcess { transcription: String, post_process: bool },
    /// Save the extracted samples as `file_name` in the recordings folder
    /// and check the written file.
    SaveRecording { file_name: String },
    /// Store the history entry.
    SaveHistory(HistoryEntryRequest),
    /// Answer the command.
    Finish(Result<MediaTranscriptionResult, String>),
}

/// The outcome of the last action.
#[derive(Debug)]
pub enum TranscribeEvent {
    /// The number of extracted samples, or why extraction failed.
    Extracted(Result<usize, String>),
    /// The recognised text, or why recognition failed.
    Transcribed(Result<String, String>),
    /// The post-processed transcription, with the wall-clock time (in
    /// milliseconds since the Unix epoch) at which it was ready; the
    /// recording is named after that time.
    PostProcessed { processed: ProcessedTranscription, now_millis: i64 },
    RecordingSaved(Result<(), String>),
    HistorySaved(Result<(), String>),
}

/// Where a transcription job stands.
#[derive(Debug)]
pub enum TranscribeJob {
    Extracting { post_process: bool },
    Transcribing { post_process: bool },
    PostProcessing { post_process: bool, transcription: String },
    SavingRecording { entry: HistoryEntryRequest, final_text: String },
    SavingHistory { final_text: String },
    Finished,
}

/// The name a recording taken at `millis` (milliseconds since the Unix
/// epoch) is saved under.
pub open spec fn media_file_name(millis: int) -> Seq<char> {
    "media-"@ + decimal(millis) + ".wav"@
}

/// The file name for a recording taken at `millis`: `media-<millis>.wav`.
pub fn media_file_name_at(millis: i64) -> (r: String)
    ensures
        r@ == media_file_name(millis as int),
{
    let mut name = String::new();
    name.append("media-");
    push_decimal(&mut name, millis);
    name.append(".wav");
    assert(name@ =~= media_file_name(millis as int));
    name
}

pub open spec fn no_source_message() -> Seq<char> {
    "No file or URL provided"@
}

pub open spec fn no_audio_message() -> Seq<char> {
    "No audio extracted"@
}

pub open spec fn empty_transcription_message() -> Seq<char> {
    "Transcription is empty"@
}

/// The kind a trimmed source is taken for.
pub open spec fn source_kind_of(trimmed: Seq<char>) -> SourceKind {
    if is_http_url_spec(trimmed) {
        SourceKind::Url
    } else {
        SourceKind::File
    }
}

/// Whether `a` answers the command with the failure message `m`.
pub open spec fn fails_with(a: TranscribeAction, m: Seq<char>) -> bool {
    a matches TranscribeAction::Finish(Err(e)) && e@ == m
}

/// Starts a job for `source`: an empty source (after trimming) is refused;
/// otherwise the trimmed source is extracted, as a URL when it starts with
/// `https://` or `http://`.
pub fn start_transcription(source: &str, apply_vad: bool, post_process: bool) -> (r: (
    TranscribeJob,
    TranscribeAction,
))
    ensures
        trim(source@).len() == 0 ==> r.0 is Finished && fails_with(r.1, no_source_message()),
        trim(source@).len() != 0 ==> {
            &&& r.0 == (TranscribeJob::Extracting { post_process })
            &&& r.1 matches TranscribeAction::LoadModelAndExtract { source: s, kind, apply_vad: v }
            &&& s@ == trim(source@)
            &&& kind == source_kind_of(trim(source@))
            &&& (kind == SourceKind::Url) == is_http_url_spec(source@)
            &&& v == apply_vad
        },
{
    let trimmed = trim_str(source);
    if trimmed.is_empty() {
        return (
            TranscribeJob::Finished,
            TranscribeAction::Finish(Err(String::from_str("No file or URL provided"))),
        );
    }
    proof {
        lemma_url_classification_ignores_trim(source@);
    }
    let kind = if crate::text::is_http_url(trimmed) {
        SourceKind::Url
    } else {
        SourceKind::File
    };
    (
        TranscribeJob::Extracting { post_process },
        TranscribeAction::LoadModelAndExtract {
            source: String::from_str(trimmed),
            kind,
            apply_vad,
        },
    )
}

impl TranscribeJob {
    /// Whether `e` reports the outcome of the action this state waits for.
    pub open spec fn awaits(&self, e: &TranscribeEvent) -> bool {
        match self {
            TranscribeJob::Extracting { .. } => e is Extracted,
            TranscribeJob::Transcribing { .. } => e is Transcribed,
            TranscribeJob::PostProcessing { .. } => e is PostProcessed,
            TranscribeJob::SavingRecording { .. } => e is RecordingSaved,
            TranscribeJob::SavingHistory { .. } => e is HistorySaved,
            TranscribeJob::Finished => false,
        }
    }

    /// Decides the next state and action from the outcome of the last action.
    ///
    /// Failures of extraction and recognition are passed on; no audio and an
    /// empty transcription are refused; the recording is saved after
    /// post-processing, and the history entry is stored whether or not the
    /// recording could be saved; the answer is the post-processed text.
    pub fn step(self, event: TranscribeEvent) -> (r: (TranscribeJob, TranscribeAction))
        requires
            self.awaits(&event),
        ensures
            match (self, event) {
                (TranscribeJob::Extracting { post_process }, TranscribeEvent::Extracted(res)) => {
                    match res {
                        Err(e) => r.0 is Finished && fails_with(r.1, e@),
                        Ok(n) => if n == 0 {
                            r.0 is Finished && fails_with(r.1, no_audio_message())
                        } else {
                            r.0 == (TranscribeJob::Transcribing { post_process })
                                && r.1 is Transcribe
                        },
                    }
                },
                (TranscribeJob::Transcribing { post_process }, TranscribeEvent::Transcribed(res)) => {
                    match res {
                        Err(e) => r.0 is Finished && fails_with(r.1, e@),
                        Ok(t) => if t@.len() == 0 {
                            r.0 is Finished && fails_with(r.1, empty_transcription_message())
                        } else {
                            &&& r.0 == (TranscribeJob::PostProcessing {
                                post_process,
                                transcription: t,
                            })
                            &&& r.1 matches TranscribeAction::PostProcess {
                                transcription: t2,
                                post_process: p,
                            }
                            &&& t2 == t
                            &&& p == post_process
                        },
                    }
                },
                (
                    TranscribeJob::PostProcessing { post_process, transcription },
                    TranscribeEvent::PostProcessed { processed: p, now_millis },
                ) => {
                    &&& r.0 matches TranscribeJob::SavingRecording { entry, final_text }
                    &&& final_text == p.final_text
                    &&& entry.transcription == transcription
                    &&& entry.post_processed == post_process
                    &&& entry.post_processed_text == p.post_processed_text
                    &&& entry.post_process_prompt == p.post_process_prompt
                    &&& entry.file_name@ == media_file_name(now_millis as int)
                    &&& r.1 matches TranscribeAction::SaveRecording { file_name }
                    &&& file_name == entry.file_name
                },
                (
                    TranscribeJob::SavingRecording { entry, final_text },
                    TranscribeEvent::RecordingSaved(_),
                ) => {
                    &&& r.0 == (TranscribeJob::SavingHistory { final_text })
                    &&& r.1 == TranscribeAction::SaveHistory(entry)
                },
                (TranscribeJob::SavingHistory { final_text }, TranscribeEvent::HistorySaved(_)) => {
                    &&& r.0 is Finished
                    &&& r.1 == TranscribeAction::Finish(
                        Ok(MediaTranscriptionResult { text: final_text }),
                    )
                },
                _ => false,
            },
    {
        match (self, event) {
            (TranscribeJob::Extracting { post_process }, TranscribeEvent::Extracted(res)) => {
                match res {
                    Err(e) => (TranscribeJob::Finished, TranscribeAction::Finish(Err(e))),
                    Ok(n) => if n == 0 {
                        (
                            TranscribeJob::Finished,
                            TranscribeAction::Finish(Err(String::from_str("No audio extracted"))),
                        )
                    } else {
                        (TranscribeJob::Transcribing { post_process }, TranscribeAction::Transcribe)
                    },
                }
            },
            (TranscribeJob::Transcribing { post_process }, TranscribeEvent::Transcribed(res)) => {
                match res {
                    Err(e) => (TranscribeJob::Finished, TranscribeAction::Finish(Err(e))),
                    Ok(t) => if t.as_str().is_empty() {
                        (
                            TranscribeJob::Finished,
                            TranscribeAction::Finish(
                                Err(String::from_str("Transcription is empty")),
                            ),
                        )
                    } else {
                        let copy = t.clone();
                        (
                            TranscribeJob::PostProcessing { post_process, transcription: t },
                            TranscribeAction::PostProcess { transcription: copy, post_process },
                        )
                    },
                }
            },
            (
                TranscribeJob::PostProcessing { post_process, transcription },
                TranscribeEvent::PostProcessed { processed: p, now_millis },
            ) => {
                let file_name = media_file_name_at(now_millis);
                let action = TranscribeAction::SaveRecording { file_name: file_name.clone() };
                let entry = HistoryEntryRequest {
                    file_name,
                    transcription,
                    post_processed: post_process,
                    post_processed_text: p.post_processed_text,
                    post_process_prompt: p.post_process_prompt,
                };
                (TranscribeJob::SavingRecording { entry, final_text: p.final_text }, action)
            },
            (TranscribeJob::SavingRecording { entry, final_text }, TranscribeEvent::RecordingSaved(_)) => {
                (TranscribeJob::SavingHistory { final_text }, TranscribeAction::SaveHistory(entry))
            },
            (TranscribeJob::SavingHistory { final_text }, TranscribeEvent::HistorySaved(_)) => {
                (
                    TranscribeJob::Finished,
                    TranscribeAction::Finish(Ok(MediaTranscriptionResult { text: final_text })),
                )
            },
            _ => (TranscribeJob::Finished, TranscribeAction::Transcribe),
        }
    }
}

} // verus!
