//! The command lines handed to the media tool.
//!
//! Every command line overwrites an existing output without asking (`-y`)
//! and names the output last.

use crate::text::{has_suffix, lowercased, same_text};
use vstd::prelude::*;

verus! {

/// The arguments of a list, as mathematical values.
pub open spec fn arg_views(args: Seq<String>) -> Seq<Seq<char>> {
    args.map_values(|a: String| a@)
}

/// Appends one argument.
pub fn push_arg(args: &mut Vec<String>, arg: &str)
    ensures
        arg_views(final(args)@) == arg_views(old(args)@).push(arg@),
{
    args.push(String::from_str(arg));
    assert(arg_views(args@) =~= arg_views(old(args)@).push(arg@));
}

/// Whether an audio file has to be encoded anew when it is muxed: the
/// platform's segment files (`.m4s`), whose streams cannot be copied as they
/// are, and files named `.mp3`, which is how a download names its audio part.
pub open spec fn needs_reencode(audio: Seq<char>) -> bool {
    ".m4s"@.is_suffix_of(audio) || ".mp3"@.is_suffix_of(audio)
}

/// The arguments that mux a video file and an audio file into one output.
///
/// The video stream is always copied. Audio that has to be encoded anew
/// becomes AAC at 128 kbit/s, and timestamps below zero are shifted to
/// zero; other audio is copied. The output is laid out for fast start.
pub open spec fn merge_args_of(video: Seq<char>, audio: Seq<char>, output: Seq<char>) -> Seq<
    Seq<char>,
> {
    if needs_reencode(audio) {
        seq![
            "-i"@,
            video,
            "-i"@,
            audio,
            "-c:v"@,
            "copy"@,
            "-c:a"@,
            "aac"@,
            "-b:a"@,
            "128k"@,
            "-movflags"@,
            "+faststart"@,
            "-avoid_negative_ts"@,
            "make_zero"@,
            "-y"@,
            output,
        ]
    } else {
        seq![
            "-i"@,
            video,
            "-i"@,
            audio,
            "-c:v"@,
            "copy"@,
            "-c:a"@,
            "copy"@,
            "-movflags"@,
            "+faststart"@,
            "-y"@,
            output,
        ]
    }
}

/// Decides whether an audio file has to be encoded anew when it is muxed.
pub fn audio_needs_reencode(audio: &str) -> (b: bool)
    ensures
        b == needs_reencode(audio@),
{
    has_suffix(audio, ".m4s") || has_suffix(audio, ".mp3")
}

/// Builds the arguments that mux a video file and an audio file.
pub fn merge_args(video: &str, audio: &str, output: &str) -> (args: Vec<String>)
    ensures
        arg_views(args@) == merge_args_of(video@, audio@, output@),
{
    let mut args: Vec<String> = Vec::new();
    assert(arg_views(args@) =~= Seq::<Seq<char>>::empty());
    push_arg(&mut args, "-i");
    push_arg(&mut args, video);
    push_arg(&mut args, "-i");
    push_arg(&mut args, audio);
    push_arg(&mut args, "-c:v");
    push_arg(&mut args, "copy");
    push_arg(&mut args, "-c:a");
    if audio_needs_reencode(audio) {
        push_arg(&mut args, "aac");
        push_arg(&mut args, "-b:a");
        push_arg(&mut args, "128k");
        push_arg(&mut args, "-movflags");
        push_arg(&mut args, "+faststart");
        push_arg(&mut args, "-avoid_negative_ts");
        push_arg(&mut args, "make_zero");
    } else {
        push_arg(&mut args, "copy");
        push_arg(&mut args, "-movflags");
        push_arg(&mut args, "+faststart");
    }
    push_arg(&mut args, "-y");
    push_arg(&mut args, output);
    assert(arg_views(args@) =~= merge_args_of(video@, audio@, output@));
    args
}

/// Whatever the audio file is called, muxing reads the video file first and
/// the audio file second, copies the video stream, overwrites without
/// asking, and names the output last. Audio that has to be encoded anew
/// becomes AAC at 128 kbit/s.
pub proof fn lemma_merge_args_shape(video: Seq<char>, audio: Seq<char>, output: Seq<char>)
    ensures
        ({
            let args = merge_args_of(video, audio, output);
            &&& args.len() >= 12
            &&& args[0] == "-i"@ && args[1] == video
            &&& args[2] == "-i"@ && args[3] == audio
            &&& args[4] == "-c:v"@ && args[5] == "copy"@
            &&& args[6] == "-c:a"@
            &&& args[7] == (if needs_reencode(audio) {
                "aac"@
            } else {
                "copy"@
            })
            &&& needs_reencode(audio) ==> args[8] == "-b:a"@ && args[9] == "128k"@
            &&& args[args.len() - 2] == "-y"@
            &&& args.last() == output
        }),
{
}

/// The arguments that convert a video file to the container named by
/// `format`, which is compared as it stands: `mp4` (H.264 and AAC at
/// constant quality 23, medium preset), `avi` (H.264 and MP3) or `mkv` (both
/// streams copied). Any other format has none.
pub open spec fn convert_args_for(format: Seq<char>, input: Seq<char>, output: Seq<char>) -> Option<
    Seq<Seq<char>>,
> {
    if format == "mp4"@ {
        Some(
            seq![
                "-i"@,
                input,
                "-c:v"@,
                "libx264"@,
                "-c:a"@,
                "aac"@,
                "-crf"@,
                "23"@,
                "-preset"@,
                "medium"@,
                "-y"@,
                output,
            ],
        )
    } else if format == "avi"@ {
        Some(seq!["-i"@, input, "-c:v"@, "libx264"@, "-c:a"@, "mp3"@, "-y"@, output])
    } else if format == "mkv"@ {
        Some(seq!["-i"@, input, "-c:v"@, "copy"@, "-c:a"@, "copy"@, "-y"@, output])
    } else {
        None
    }
}

/// The arguments that convert a video file, whatever the case in which the
/// format is written.
pub open spec fn convert_args_of(format: Seq<char>, input: Seq<char>, output: Seq<char>) -> Option<
    Seq<Seq<char>>,
> {
    convert_args_for(lowercased(format), input, output)
}

/// The arguments of an optional list, as mathematical values.
pub open spec fn optional_arg_views(args: Option<Vec<String>>) -> Option<Seq<Seq<char>>> {
    match args {
        Some(list) => Some(arg_views(list@)),
        None => None,
    }
}

/// Builds the arguments that convert a video file to a format written in
/// lower case.
pub fn convert_args_lowercase(format: &str, input: &str, output: &str) -> (args: Option<
    Vec<String>,
>)
    ensures
        optional_arg_views(args) == convert_args_for(format@, input@, output@),
{
    let mut args: Vec<String> = Vec::new();
    assert(arg_views(args@) =~= Seq::<Seq<char>>::empty());
    push_arg(&mut args, "-i");
    push_arg(&mut args, input);
    push_arg(&mut args, "-c:v");
    if same_text(format, "mp4") {
        push_arg(&mut args, "libx264");
        push_arg(&mut args, "-c:a");
        push_arg(&mut args, "aac");
        push_arg(&mut args, "-crf");
        push_arg(&mut args, "23");
        push_arg(&mut args, "-preset");
        push_arg(&mut args, "medium");
    } else if same_text(format, "avi") {
        push_arg(&mut args, "libx264");
        push_arg(&mut args, "-c:a");
        push_arg(&mut args, "mp3");
    } else if same_text(format, "mkv") {
        push_arg(&mut args, "copy");
        push_arg(&mut args, "-c:a");
        push_arg(&mut args, "copy");
    } else {
        return None;
    }
    push_arg(&mut args, "-y");
    push_arg(&mut args, output);
    assert(Some(arg_views(args@)) =~= convert_args_for(format@, input@, output@));
    Some(args)
}

/// Builds the arguments that convert a video file.
pub fn convert_args(format: &str, input: &str, output: &str) -> (args: Option<Vec<String>>)
    ensures
        optional_arg_views(args) == convert_args_of(format@, input@, output@),
{
    let lower = format.to_lowercase();
    convert_args_lowercase(lower.as_str(), input, output)
}

/// The arguments that extract the audio of a video file in the format named
/// by `format`, which is compared as it stands: `mp3` or `aac` (192 kbit/s)
/// or `wav` (16-bit PCM). Any other format has none.
pub open spec fn extract_args_for(format: Seq<char>, video: Seq<char>, audio: Seq<char>) -> Option<
    Seq<Seq<char>>,
> {
    if format == "mp3"@ {
        Some(seq!["-i"@, video, "-vn"@, "-acodec"@, "mp3"@, "-ab"@, "192k"@, "-y"@, audio])
    } else if format == "aac"@ {
        Some(seq!["-i"@, video, "-vn"@, "-acodec"@, "aac"@, "-ab"@, "192k"@, "-y"@, audio])
    } else if format == "wav"@ {
        Some(seq!["-i"@, video, "-vn"@, "-acodec"@, "pcm_s16le"@, "-y"@, audio])
    } else {
        None
    }
}

/// The arguments that extract the audio of a video file, whatever the case
/// in which the format is written.
pub open spec fn extract_args_of(format: Seq<char>, video: Seq<char>, audio: Seq<char>) -> Option<
    Seq<Seq<char>>,
> {
    extract_args_for(lowercased(format), video, audio)
}

/// Builds the arguments that extract the audio of a video file in a format
/// written in lower case.
pub fn extract_args_lowercase(format: &str, video: &str, audio: &str) -> (args: Option<
    Vec<String>,
>)
    ensures
        optional_arg_views(args) == extract_args_for(format@, video@, audio@),
{
    let mut args: Vec<String> = Vec::new();
    assert(arg_views(args@) =~= Seq::<Seq<char>>::empty());
    push_arg(&mut args, "-i");
    push_arg(&mut args, video);
    push_arg(&mut args, "-vn");
    push_arg(&mut args, "-acodec");
    if same_text(format, "mp3") {
        push_arg(&mut args, "mp3");
        push_arg(&mut args, "-ab");
        push_arg(&mut args, "192k");
    } else if same_text(format, "aac") {
        push_arg(&mut args, "aac");
        push_arg(&mut args, "-ab");
        push_arg(&mut args, "192k");
    } else if same_text(format, "wav") {
        push_arg(&mut args, "pcm_s16le");
    } else {
        return None;
    }
    push_arg(&mut args, "-y");
    push_arg(&mut args, audio);
    assert(Some(arg_views(args@)) =~= extract_args_for(format@, video@, audio@));
    Some(args)
}

/// Builds the arguments that extract the audio of a video file.
pub fn extract_args(format: &str, video: &str, audio: &str) -> (args: Option<Vec<String>>)
    ensures
        optional_arg_views(args) == extract_args_of(format@, video@, audio@),
{
    let lower = format.to_lowercase();
    extract_args_lowercase(lower.as_str(), video, audio)
}

/// The arguments that make the probe tool describe a media file as JSON:
/// its container and its streams, and nothing else on the output.
pub open spec fn probe_args_of(video: Seq<char>) -> Seq<Seq<char>> {
    seq![
        "-v"@,
        "quiet"@,
        "-print_format"@,
        "json"@,
        "-show_format"@,
        "-show_streams"@,
        video,
    ]
}

/// Builds the arguments that make the probe tool describe a media file.
pub fn probe_args(video: &str) -> (args: Vec<String>)
    ensures
        arg_views(args@) == probe_args_of(video@),
{
    let mut args: Vec<String> = Vec::new();
    assert(arg_views(args@) =~= Seq::<Seq<char>>::empty());
    push_arg(&mut args, "-v");
    push_arg(&mut args, "quiet");
    push_arg(&mut args, "-print_format");
    push_arg(&mut args, "json");
    push_arg(&mut args, "-show_format");
    push_arg(&mut args, "-show_streams");
    push_arg(&mut args, video);
    assert(arg_views(args@) =~= probe_args_of(video@));
    args
}

} // verus!
