//! Invocation arguments for the extraction tool's download mode.
//!
//! Building the argument list is a pure function of the chosen output
//! format, the quality token, the resource kind, the transcoding tool's
//! location and the destination directory. It is total: an unrecognized
//! format still yields a list carrying the required destination, output
//! template and line-progress tokens, just without a selection section.

use vstd::prelude::*;
use vstd::string::StringExecFns;
use crate::metadata::ResourceKind;
use crate::strutil::{views_of, str_eq, push_token, push_string};

verus! {

/// The metadata-mode flags: one consolidated JSON document, warnings
/// suppressed, playlist entries left unexpanded. The target URL follows
/// them.
pub open spec fn spec_probe_args() -> Seq<Seq<char>> {
    seq!["-J"@, "--no-warnings"@, "--flat-playlist"@]
}

/// Build the metadata-mode flag list for one classification probe.
pub fn probe_args() -> (r: Vec<String>)
    ensures
        views_of(r@) == spec_probe_args(),
{
    let mut args: Vec<String> = Vec::new();
    push_token(&mut args, "-J");
    push_token(&mut args, "--no-warnings");
    push_token(&mut args, "--flat-playlist");
    proof {
        assert(views_of(args@) =~= spec_probe_args());
    }
    args
}

/// The height constraint a quality token maps to, with or without the
/// trailing `p`; anything else means no constraint.
pub open spec fn spec_height_token(q: Seq<char>) -> Option<Seq<char>> {
    if q == "2160"@ || q == "2160p"@ {
        Some("2160"@)
    } else if q == "1440"@ || q == "1440p"@ {
        Some("1440"@)
    } else if q == "1080"@ || q == "1080p"@ {
        Some("1080"@)
    } else if q == "720"@ || q == "720p"@ {
        Some("720"@)
    } else if q == "480"@ || q == "480p"@ {
        Some("480"@)
    } else if q == "360"@ || q == "360p"@ {
        Some("360"@)
    } else if q == "240"@ || q == "240p"@ {
        Some("240"@)
    } else if q == "144"@ || q == "144p"@ {
        Some("144"@)
    } else {
        None
    }
}

/// Map a quality token to its height constraint.
pub fn height_token(quality: &str) -> (r: Option<&'static str>)
    ensures
        r is Some <==> spec_height_token(quality@) is Some,
        r is Some ==> r->0@ == spec_height_token(quality@)->0,
{
    if str_eq(quality, "2160") || str_eq(quality, "2160p") {
        Some("2160")
    } else if str_eq(quality, "1440") || str_eq(quality, "1440p") {
        Some("1440")
    } else if str_eq(quality, "1080") || str_eq(quality, "1080p") {
        Some("1080")
    } else if str_eq(quality, "720") || str_eq(quality, "720p") {
        Some("720")
    } else if str_eq(quality, "480") || str_eq(quality, "480p") {
        Some("480")
    } else if str_eq(quality, "360") || str_eq(quality, "360p") {
        Some("360")
    } else if str_eq(quality, "240") || str_eq(quality, "240p") {
        Some("240")
    } else if str_eq(quality, "144") || str_eq(quality, "144p") {
        Some("144")
    } else {
        None
    }
}

/// The stream-selection expression for an mp4 download: best video at the
/// requested height plus best compatible audio, with a fallback.
pub open spec fn spec_mp4_selector(height: Option<Seq<char>>) -> Seq<char> {
    match height {
        Some(h) => "bestvideo[height="@ + h + "]+bestaudio[ext=m4a]/best"@,
        None => "bestvideo+bestaudio[ext=m4a]/best"@,
    }
}

/// The stream-selection expression for a webm download.
pub open spec fn spec_webm_selector(height: Option<Seq<char>>) -> Seq<char> {
    match height {
        Some(h) => "bestvideo[height="@ + h + "][ext=webm]+bestaudio[ext=webm]/best"@,
        None => "bestvideo[ext=webm]+bestaudio[ext=webm]/best"@,
    }
}

fn mp4_selector(quality: &str) -> (r: String)
    ensures
        r@ == spec_mp4_selector(spec_height_token(quality@)),
{
    match height_token(quality) {
        Some(h) => {
            let mut s = "bestvideo[height=".to_owned();
            s.append(h);
            s.append("]+bestaudio[ext=m4a]/best");
            s
        },
        None => "bestvideo+bestaudio[ext=m4a]/best".to_owned(),
    }
}

fn webm_selector(quality: &str) -> (r: String)
    ensures
        r@ == spec_webm_selector(spec_height_token(quality@)),
{
    match height_token(quality) {
        Some(h) => {
            let mut s = "bestvideo[height=".to_owned();
            s.append(h);
            s.append("][ext=webm]+bestaudio[ext=webm]/best");
            s
        },
        None => "bestvideo[ext=webm]+bestaudio[ext=webm]/best".to_owned(),
    }
}

/// Whether a format token is in the supported table.
pub open spec fn spec_format_supported(format: Seq<char>) -> bool {
    format == "mp4"@ || format == "webm"@ || format == "mp3"@ || format == "m4a"@ || format
        == "aac"@ || format == "wav"@ || format == "flac"@
}

/// Whether the builder recognizes a format token.
pub fn format_supported(format: &str) -> (r: bool)
    ensures
        r == spec_format_supported(format@),
{
    str_eq(format, "mp4") || str_eq(format, "webm") || str_eq(format, "mp3") || str_eq(
        format,
        "m4a",
    ) || str_eq(format, "aac") || str_eq(format, "wav") || str_eq(format, "flac")
}

/// The format-dependent selection and post-processing tokens: container
/// formats select video plus audio and remux; lossy audio formats extract
/// and transcode the best audio stream; lossless ones additionally ask for
/// the best quality. An unrecognized format selects nothing.
pub open spec fn spec_format_args(format: Seq<char>, quality: Seq<char>) -> Seq<Seq<char>> {
    if format == "mp4"@ {
        seq!["-f"@, spec_mp4_selector(spec_height_token(quality)), "--merge-output-format"@, "mp4"@]
    } else if format == "webm"@ {
        seq![
            "-f"@,
            spec_webm_selector(spec_height_token(quality)),
            "--merge-output-format"@,
            "webm"@,
        ]
    } else if format == "mp3"@ {
        seq!["-f"@, "bestaudio"@, "--extract-audio"@, "--audio-format"@, "mp3"@]
    } else if format == "m4a"@ {
        seq!["-f"@, "bestaudio[ext=m4a]"@, "--extract-audio"@, "--audio-format"@, "m4a"@]
    } else if format == "aac"@ {
        seq!["-f"@, "bestaudio"@, "--extract-audio"@, "--audio-format"@, "aac"@]
    } else if format == "wav"@ {
        seq![
            "-f"@,
            "bestaudio"@,
            "--extract-audio"@,
            "--audio-format"@,
            "wav"@,
            "--audio-quality"@,
            "0"@,
        ]
    } else if format == "flac"@ {
        seq![
            "-f"@,
            "bestaudio"@,
            "--extract-audio"@,
            "--audio-format"@,
            "flac"@,
            "--audio-quality"@,
            "0"@,
        ]
    } else {
        Seq::<Seq<char>>::empty()
    }
}

/// The multi-entry traversal tokens: a playlist download traverses every
/// entry, a single video is forced to stay single; a non-actionable kind,
/// which never reaches a download, adds nothing.
pub open spec fn spec_traversal_args(kind: ResourceKind) -> Seq<Seq<char>> {
    match kind {
        ResourceKind::Playlist => seq!["--yes-playlist"@],
        ResourceKind::Video => seq!["--no-playlist"@],
        ResourceKind::NotActionable => Seq::<Seq<char>>::empty(),
    }
}

/// The full invocation argument list: transcoder location and destination
/// first, then the format section, then the traversal flag, and always the
/// output-path template and the line-oriented progress switch last.
pub open spec fn spec_generate_args(
    format: Seq<char>,
    quality: Seq<char>,
    kind: ResourceKind,
    ffmpeg: Seq<char>,
    dest: Seq<char>,
) -> Seq<Seq<char>> {
    seq!["--ffmpeg-location"@, ffmpeg, "-P"@, dest] + spec_format_args(format, quality)
        + spec_traversal_args(kind) + seq!["-o"@, "%(title)s.%(ext)s"@, "--newline"@]
}

/// Build the invocation argument list for one download.
pub fn generate_args(
    format: &str,
    quality: &str,
    kind: ResourceKind,
    ffmpeg_path: &str,
    dest_path: &str,
) -> (r: Vec<String>)
    ensures
        views_of(r@) == spec_generate_args(format@, quality@, kind, ffmpeg_path@, dest_path@),
{
    let mut args: Vec<String> = Vec::new();
    push_token(&mut args, "--ffmpeg-location");
    push_token(&mut args, ffmpeg_path);
    push_token(&mut args, "-P");
    push_token(&mut args, dest_path);
    let ghost base = views_of(args@);
    proof {
        assert(base =~= seq!["--ffmpeg-location"@, ffmpeg_path@, "-P"@, dest_path@]);
    }
    if str_eq(format, "mp4") {
        push_token(&mut args, "-f");
        let sel = mp4_selector(quality);
        push_string(&mut args, sel);
        push_token(&mut args, "--merge-output-format");
        push_token(&mut args, "mp4");
    } else if str_eq(format, "webm") {
        push_token(&mut args, "-f");
        let sel = webm_selector(quality);
        push_string(&mut args, sel);
        push_token(&mut args, "--merge-output-format");
        push_token(&mut args, "webm");
    } else if str_eq(format, "mp3") {
        push_token(&mut args, "-f");
        push_token(&mut args, "bestaudio");
        push_token(&mut args, "--extract-audio");
        push_token(&mut args, "--audio-format");
        push_token(&mut args, "mp3");
    } else if str_eq(format, "m4a") {
        push_token(&mut args, "-f");
        push_token(&mut args, "bestaudio[ext=m4a]");
        push_token(&mut args, "--extract-audio");
        push_token(&mut args, "--audio-format");
        push_token(&mut args, "m4a");
    } else if str_eq(format, "aac") {
        push_token(&mut args, "-f");
        push_token(&mut args, "bestaudio");
        push_token(&mut args, "--extract-audio");
        push_token(&mut args, "--audio-format");
        push_token(&mut args, "aac");
    } else if str_eq(format, "wav") {
        push_token(&mut args, "-f");
        push_token(&mut args, "bestaudio");
        push_token(&mut args, "--extract-audio");
        push_token(&mut args, "--audio-format");
        push_token(&mut args, "wav");
        push_token(&mut args, "--audio-quality");
        push_token(&mut args, "0");
    } else if str_eq(format, "flac") {
        push_token(&mut args, "-f");
        push_token(&mut args, "bestaudio");
        push_token(&mut args, "--extract-audio");
        push_token(&mut args, "--audio-format");
        push_token(&mut args, "flac");
        push_token(&mut args, "--audio-quality");
        push_token(&mut args, "0");
    }
    proof {
        assert(views_of(args@) =~= base + spec_format_args(format@, quality@));
    }
    let ghost with_format = views_of(args@);
    match kind {
        ResourceKind::Playlist => push_token(&mut args, "--yes-playlist"),
        ResourceKind::Video => push_token(&mut args, "--no-playlist"),
        ResourceKind::NotActionable => {},
    }
    proof {
        assert(views_of(args@) =~= with_format + spec_traversal_args(kind));
    }
    let ghost with_kind = views_of(args@);
    push_token(&mut args, "-o");
    push_token(&mut args, "%(title)s.%(ext)s");
    push_token(&mut args, "--newline");
    proof {
        assert(views_of(args@) =~= with_kind + seq!["-o"@, "%(title)s.%(ext)s"@, "--newline"@]);
        assert(views_of(args@) =~= spec_generate_args(
            format@,
            quality@,
            kind,
            ffmpeg_path@,
            dest_path@,
        ));
    }
    args
}

/// Argument building is total and deterministic: whatever the format,
/// quality and kind, the list opens with the transcoder location and the
/// destination binding and closes with the output-path template and the
/// line-progress switch; being a function of its inputs alone, equal
/// inputs always give the equal list.
pub proof fn lemma_args_always_complete(
    format: Seq<char>,
    quality: Seq<char>,
    kind: ResourceKind,
    ffmpeg: Seq<char>,
    dest: Seq<char>,
)
    ensures
        ({
            let a = spec_generate_args(format, quality, kind, ffmpeg, dest);
            &&& a.len() >= 7
            &&& a[0] == "--ffmpeg-location"@
            &&& a[1] == ffmpeg
            &&& a[2] == "-P"@
            &&& a[3] == dest
            &&& a[a.len() - 3] == "-o"@
            &&& a[a.len() - 2] == "%(title)s.%(ext)s"@
            &&& a[a.len() - 1] == "--newline"@
        }),
{
}

} // verus!
