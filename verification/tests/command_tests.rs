use handy::{ffmpeg_decode_args, ffmpeg_pipe_args, pipe_outcome, ytdlp_args, PipeFailure};

const OUTPUT: [&str; 9] = ["-vn", "-ac", "1", "-ar", "16000", "-f", "wav", "-loglevel", "error"];

#[test]
fn ffmpeg_decodes_input_to_wav_on_stdout() {
    let mut expected = vec!["-nostdin", "-y", "-i", "/media/talk.mp4"];
    expected.extend_from_slice(&OUTPUT);
    expected.push("pipe:1");
    assert_eq!(ffmpeg_decode_args("/media/talk.mp4"), expected);
}

#[test]
fn ffmpeg_pipe_reads_stdin() {
    let mut expected = vec!["-nostdin", "-y", "-i", "pipe:0"];
    expected.extend_from_slice(&OUTPUT);
    expected.push("pipe:1");
    assert_eq!(ffmpeg_pipe_args(), expected);
}

#[test]
fn ytdlp_streams_best_audio() {
    assert_eq!(
        ytdlp_args("https://example.com/watch?v=1"),
        vec![
            "-f",
            "bestaudio/ba/b",
            "-o",
            "-",
            "--no-playlist",
            "--no-warnings",
            "https://example.com/watch?v=1"
        ]
    );
}

#[test]
fn ffmpeg_failure_is_reported_first() {
    assert_eq!(pipe_outcome(false, false), Err(PipeFailure::Ffmpeg));
    assert_eq!(pipe_outcome(false, true), Err(PipeFailure::Ffmpeg));
    assert_eq!(pipe_outcome(true, false), Err(PipeFailure::Ytdlp));
    assert_eq!(pipe_outcome(true, true), Ok(()));
}

#[test]
fn ffmpeg_reads_the_trimmed_url_only_after_ytdlp_fails() {
    assert_eq!(handy::ffmpeg_fallback_input(" https://a.b/c ", true), None);
    assert_eq!(
        handy::ffmpeg_fallback_input(" https://a.b/c \n", false),
        Some("https://a.b/c".to_string())
    );
}
