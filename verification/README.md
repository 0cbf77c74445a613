# handy (media transcription core)

`src/` is the verified library:

- `text.rs` — Unicode trimming, prefix tests, URL/path classification of a
  media source, decimal rendering.
- `wav.rs` — WAV header and 16-bit sample decoding with `hound` on in-memory
  bytes, down-mixing interleaved channels to per-frame sums, sample-count
  checks of written files.
- `vad_frames.rs` — cutting a recording into 30 ms frames for voice-activity
  detection.
- `commands.rs` — ffmpeg and yt-dlp command lines and the verdict on a
  yt-dlp to ffmpeg pipe.
- `transcribe.rs` — the transcription command as a state machine over the
  events reported by its caller.

`app/` holds the I/O around it: decoder processes, temporary files, WAV files
on disk, `f32` sample conversion, voice-activity detection and the command
driver.
