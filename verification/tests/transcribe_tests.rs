use handy::{
    start_transcription, ProcessedTranscription, SourceKind, TranscribeAction, TranscribeEvent,
    TranscribeJob,
};

fn finish_err(a: TranscribeAction) -> String {
    match a {
        TranscribeAction::Finish(Err(e)) => e,
        other => panic!("expected a failure, got {:?}", other),
    }
}

fn processed(text: &str) -> ProcessedTranscription {
    ProcessedTranscription {
        final_text: text.to_string(),
        post_processed_text: Some(text.to_string()),
        post_process_prompt: Some("prompt".to_string()),
    }
}

#[test]
fn empty_source_is_refused() {
    let (job, action) = start_transcription("   \n", true, false);
    assert!(matches!(job, TranscribeJob::Finished));
    assert_eq!(finish_err(action), "No file or URL provided");
}

#[test]
fn url_source_is_trimmed_and_extracted() {
    let (job, action) = start_transcription("  https://example.com/a.mp3 ", true, true);
    assert!(matches!(job, TranscribeJob::Extracting { post_process: true }));
    match action {
        TranscribeAction::LoadModelAndExtract { source, kind, apply_vad } => {
            assert_eq!(source, "https://example.com/a.mp3");
            assert_eq!(kind, SourceKind::Url);
            assert!(apply_vad);
        }
        other => panic!("unexpected {:?}", other),
    }
}

#[test]
fn file_source_is_extracted() {
    let (_, action) = start_transcription("/tmp/a.wav", false, false);
    match action {
        TranscribeAction::LoadModelAndExtract { source, kind, apply_vad } => {
            assert_eq!(source, "/tmp/a.wav");
            assert_eq!(kind, SourceKind::File);
            assert!(!apply_vad);
        }
        other => panic!("unexpected {:?}", other),
    }
}

#[test]
fn extraction_errors_are_passed_on() {
    let (job, _) = start_transcription("/tmp/a.wav", false, false);
    let (job, action) = job.step(TranscribeEvent::Extracted(Err("ffmpeg failed".to_string())));
    assert!(matches!(job, TranscribeJob::Finished));
    assert_eq!(finish_err(action), "ffmpeg failed");
}

#[test]
fn no_audio_is_refused() {
    let (job, _) = start_transcription("/tmp/a.wav", false, false);
    let (job, action) = job.step(TranscribeEvent::Extracted(Ok(0)));
    assert!(matches!(job, TranscribeJob::Finished));
    assert_eq!(finish_err(action), "No audio extracted");
}

#[test]
fn empty_transcription_is_refused() {
    let (job, _) = start_transcription("/tmp/a.wav", false, false);
    let (job, _) = job.step(TranscribeEvent::Extracted(Ok(16000)));
    let (job, action) = job.step(TranscribeEvent::Transcribed(Ok(String::new())));
    assert!(matches!(job, TranscribeJob::Finished));
    assert_eq!(finish_err(action), "Transcription is empty");
}

#[test]
fn recognition_errors_are_passed_on() {
    let (job, _) = start_transcription("/tmp/a.wav", false, false);
    let (job, _) = job.step(TranscribeEvent::Extracted(Ok(5)));
    let (_, action) = job.step(TranscribeEvent::Transcribed(Err("model not loaded".to_string())));
    assert_eq!(finish_err(action), "model not loaded");
}

fn run_to_history(recording_saved: Result<(), String>) -> (TranscribeJob, TranscribeAction, String) {
    let (job, _) = start_transcription("https://example.com/a.mp3", true, true);
    let (job, action) = job.step(TranscribeEvent::Extracted(Ok(32000)));
    assert!(matches!(action, TranscribeAction::Transcribe));
    let (job, action) = job.step(TranscribeEvent::Transcribed(Ok("hello world".to_string())));
    match action {
        TranscribeAction::PostProcess { transcription, post_process } => {
            assert_eq!(transcription, "hello world");
            assert!(post_process);
        }
        other => panic!("unexpected {:?}", other),
    }
    let (job, action) = job.step(TranscribeEvent::PostProcessed {
        processed: processed("Hello, world."),
        now_millis: 1700000000123,
    });
    let file_name = match action {
        TranscribeAction::SaveRecording { file_name } => file_name,
        other => panic!("unexpected {:?}", other),
    };
    assert_eq!(file_name, "media-1700000000123.wav");
    let (job, action) = job.step(TranscribeEvent::RecordingSaved(recording_saved));
    (job, action, file_name)
}

#[test]
fn full_run_answers_post_processed_text() {
    let (job, action, file_name) = run_to_history(Ok(()));
    match action {
        TranscribeAction::SaveHistory(entry) => {
            assert_eq!(entry.file_name, file_name);
            assert_eq!(entry.transcription, "hello world");
            assert!(entry.post_processed);
            assert_eq!(entry.post_processed_text.as_deref(), Some("Hello, world."));
            assert_eq!(entry.post_process_prompt.as_deref(), Some("prompt"));
        }
        other => panic!("unexpected {:?}", other),
    }
    let (job, action) = job.step(TranscribeEvent::HistorySaved(Ok(())));
    assert!(matches!(job, TranscribeJob::Finished));
    match action {
        TranscribeAction::Finish(Ok(result)) => assert_eq!(result.text, "Hello, world."),
        other => panic!("unexpected {:?}", other),
    }
}

#[test]
fn history_is_saved_even_when_recording_fails() {
    let (job, action, _) = run_to_history(Err("disk full".to_string()));
    assert!(matches!(action, TranscribeAction::SaveHistory(_)));
    let (_, action) = job.step(TranscribeEvent::HistorySaved(Err("db locked".to_string())));
    match action {
        TranscribeAction::Finish(Ok(result)) => assert_eq!(result.text, "Hello, world."),
        other => panic!("unexpected {:?}", other),
    }
}
