//! Command lines for the external decoders (ffmpeg, yt-dlp) and how the
//! outcome of a yt-dlp to ffmpeg pipe is judged.

use crate::text::{decimal, decimal_digits, trim, trim_str};
use crate::wav::WHISPER_SAMPLE_RATE;
use vstd::prelude::*;

verus! {

/// The character sequences of a list of arguments.
pub open spec fn arg_views(args: Seq<String>) -> Seq<Seq<char>> {
    args.map_values(|a: String| a@)
}

/// Output options shared by every ffmpeg invocation: drop video, one
/// channel, 16 kHz, WAV container, errors only.
pub open spec fn ffmpeg_output_args() -> Seq<Seq<char>> {
    seq![
        "-vn"@,
        "-ac"@,
        "1"@,
        "-ar"@,
        "16000"@,
        "-f"@,
        "wav"@,
        "-loglevel"@,
        "error"@,
    ]
}

/// ffmpeg arguments that decode `input` (a path, a URL or `pipe:0`) to mono
/// 16 kHz WAV on standard output.
pub open spec fn ffmpeg_args_for(input: Seq<char>) -> Seq<Seq<char>> {
    seq!["-nostdin"@, "-y"@, "-i"@, input] + ffmpeg_output_args() + seq!["pipe:1"@]
}

/// yt-dlp arguments that stream the best audio of `url` to standard output.
pub open spec fn ytdlp_args_for(url: Seq<char>) -> Seq<Seq<char>> {
    seq!["-f"@, "bestaudio/ba/b"@, "-o"@, "-"@, "--no-playlist"@, "--no-warnings"@, url]
}

/// ffmpeg is handed the input whole: for every input, the argument list
/// has its fixed length, `-i` is the third argument and the fourth is the
/// input itself, unchanged (spaces and all).
pub proof fn lemma_ffmpeg_input_is_passed_whole(input: Seq<char>)
    ensures
        ffmpeg_args_for(input).len() == 14,
        ffmpeg_args_for(input)[2] == "-i"@,
        ffmpeg_args_for(input)[3] == input,
{
}

/// ffmpeg produces what the recogniser consumes: video is dropped (`-vn`),
/// the channel count after `-ac` is one, the rate after `-ar` is the engine's
/// sample rate, the container after `-f` is WAV, and the output goes to
/// standard output.
pub proof fn lemma_ffmpeg_output_matches_engine_format(input: Seq<char>)
    ensures
        ffmpeg_args_for(input)[4] == "-vn"@,
        ffmpeg_args_for(input)[5] == "-ac"@,
        ffmpeg_args_for(input)[6] == decimal(1),
        ffmpeg_args_for(input)[7] == "-ar"@,
        ffmpeg_args_for(input)[8] == decimal(WHISPER_SAMPLE_RATE as int),
        ffmpeg_args_for(input)[9] == "-f"@,
        ffmpeg_args_for(input)[10] == "wav"@,
        ffmpeg_args_for(input).last() == "pipe:1"@,
{
    reveal_strlit("1");
    reveal_strlit("16000");
    reveal_with_fuel(decimal_digits, 6);
    assert(decimal_digits(16000) =~= seq!['1', '6', '0', '0', '0']);
}

/// The ffmpeg options do not depend on the input: the argument lists for any
/// two inputs have the same length and agree everywhere but at the input.
pub proof fn lemma_ffmpeg_options_ignore_input(a: Seq<char>, b: Seq<char>)
    ensures
        ffmpeg_args_for(a).len() == ffmpeg_args_for(b).len(),
        forall|i: int|
            0 <= i < ffmpeg_args_for(a).len() && i != 3 ==> #[trigger] ffmpeg_args_for(a)[i]
                == ffmpeg_args_for(b)[i],
{
}

/// The yt-dlp options do not depend on the URL: the argument lists for any
/// two URLs agree on everything but the last argument, which is the URL.
pub proof fn lemma_ytdlp_options_ignore_url(a: Seq<char>, b: Seq<char>)
    ensures
        ytdlp_args_for(a).len() == ytdlp_args_for(b).len(),
        ytdlp_args_for(a).last() == a,
        ytdlp_args_for(a).drop_last() == ytdlp_args_for(b).drop_last(),
{
    assert(ytdlp_args_for(a).drop_last() =~= ytdlp_args_for(b).drop_last());
}

/// yt-dlp always streams a single video: `--no-playlist` is among the
/// options for every URL.
pub proof fn lemma_ytdlp_never_streams_playlists(url: Seq<char>)
    ensures
        ytdlp_args_for(url).drop_last().contains("--no-playlist"@),
{
    assert(ytdlp_args_for(url).drop_last()[4] == "--no-playlist"@);
}

fn push_arg(args: &mut Vec<String>, a: &str)
    ensures
        arg_views(final(args)@) == arg_views(old(args)@).push(a@),
{
    args.push(String::from_str(a));
    assert(arg_views(args@) =~= arg_views(old(args)@).push(a@));
}

fn push_output_args(args: &mut Vec<String>)
    ensures
        arg_views(final(args)@) == arg_views(old(args)@) + ffmpeg_output_args(),
{
    push_arg(args, "-vn");
    push_arg(args, "-ac");
    push_arg(args, "1");
    push_arg(args, "-ar");
    push_arg(args, "16000");
    push_arg(args, "-f");
    push_arg(args, "wav");
    push_arg(args, "-loglevel");
    push_arg(args, "error");
    assert(arg_views(args@) =~= arg_views(old(args)@) + ffmpeg_output_args());
}

/// ffmpeg arguments that decode `input` to mono 16 kHz WAV on stdout.
pub fn ffmpeg_decode_args(input: &str) -> (r: Vec<String>)
    ensures
        arg_views(r@) == ffmpeg_args_for(input@),
        r@.len() == 14,
        r@[2]@ == "-i"@,
        r@[3]@ == input@,
        r@[13]@ == "pipe:1"@,
{
    let mut args: Vec<String> = Vec::new();
    assert(arg_views(args@) =~= seq![]);
    push_arg(&mut args, "-nostdin");
    push_arg(&mut args, "-y");
    push_arg(&mut args, "-i");
    push_arg(&mut args, input);
    push_output_args(&mut args);
    push_arg(&mut args, "pipe:1");
    assert(arg_views(args@) =~= ffmpeg_args_for(input@));
    assert(arg_views(args@)[3] == args@[3]@);
    assert(arg_views(args@)[2] == args@[2]@);
    assert(arg_views(args@)[13] == args@[13]@);
    args
}

/// ffmpeg arguments that decode the stream on stdin to mono 16 kHz WAV.
pub fn ffmpeg_pipe_args() -> (r: Vec<String>)
    ensures
        arg_views(r@) == ffmpeg_args_for("pipe:0"@),
        r@.len() == 14,
        r@[3]@ == "pipe:0"@,
{
    ffmpeg_decode_args("pipe:0")
}

/// yt-dlp arguments that stream the best audio of `url` to stdout.
pub fn ytdlp_args(url: &str) -> (r: Vec<String>)
    ensures
        arg_views(r@) == ytdlp_args_for(url@),
        r@.len() == 7,
        r@[6]@ == url@,
        arg_views(r@).drop_last() == seq![
            "-f"@,
            "bestaudio/ba/b"@,
            "-o"@,
            "-"@,
            "--no-playlist"@,
            "--no-warnings"@,
        ],
{
    let mut args: Vec<String> = Vec::new();
    assert(arg_views(args@) =~= seq![]);
    push_arg(&mut args, "-f");
    push_arg(&mut args, "bestaudio/ba/b");
    push_arg(&mut args, "-o");
    push_arg(&mut args, "-");
    push_arg(&mut args, "--no-playlist");
    push_arg(&mut args, "--no-warnings");
    push_arg(&mut args, url);
    assert(arg_views(args@) =~= ytdlp_args_for(url@));
    assert(arg_views(args@)[6] == args@[6]@);
    assert(arg_views(args@).drop_last() =~= seq![
        "-f"@,
        "bestaudio/ba/b"@,
        "-o"@,
        "-"@,
        "--no-playlist"@,
        "--no-warnings"@,
    ]);
    args
}

/// Remote sources are first streamed through yt-dlp; only when that fails is
/// ffmpeg asked to read the URL itself, trimmed. Returns the input to hand to
/// ffmpeg, or `None` when the yt-dlp output is used.
pub fn ffmpeg_fallback_input(url: &str, ytdlp_succeeded: bool) -> (r: Option<String>)
    ensures
        ytdlp_succeeded <==> r is None,
        r matches Some(u) ==> u@ == trim(url@),
{
    if ytdlp_succeeded {
        None
    } else {
        Some(String::from_str(trim_str(url)))
    }
}

/// Which stage of a yt-dlp to ffmpeg pipe is blamed for a failed run.
#[derive(Debug, Clone, Copy, PartialEq, Eq)]
pub enum PipeFailure {
    Ffmpeg,
    Ytdlp,
}

/// Judges a finished pipe: an ffmpeg failure is reported first, then a
/// yt-dlp failure; only when both succeeded is the output used.
pub fn pipe_outcome(ffmpeg_succeeded: bool, ytdlp_succeeded: bool) -> (r: Result<(), PipeFailure>)
    ensures
        r == (if !ffmpeg_succeeded {
            Err(PipeFailure::Ffmpeg)
        } else if !ytdlp_succeeded {
            Err(PipeFailure::Ytdlp)
        } else {
            Ok(())
        }),
{
    if !ffmpeg_succeeded {
        Err(PipeFailure::Ffmpeg)
    } else if !ytdlp_succeeded {
        Err(PipeFailure::Ytdlp)
    } else {
        Ok(())
    }
}

} // verus!
