//! Command lines for the external media toolchain, and the concatenation
//! manifest it reads. Running them is the caller's part.
use vstd::prelude::*;
use crate::paths::{extension, extension_of, extension_set, lower_of, lowercase, no_separator, with_extension};
use crate::text::{clock_format, clock_text, has_suffix, same_text, split_on, split_text};
use crate::video::VideoError;

verus! {

/// The characters of each argument of a command line.
pub open spec fn args_view(v: Seq<String>) -> Seq<Seq<char>> {
    v.map_values(|a: String| a@)
}

/// How a clip is cut out of its source.
#[derive(Debug, Clone, Copy, PartialEq, Eq)]
pub enum CutMode {
    /// Seek before opening the input and keep time stamps: frame accurate.
    Precise,
    /// Open the input, then seek and copy streams: snaps to a keyframe.
    Fast,
}

/// The cut of `[start, start + duration)` seconds of `from` into `to`.
pub open spec fn cut_args(from: Seq<char>, to: Seq<char>, start: nat, duration: nat, mode: CutMode) -> Seq<Seq<char>> {
    match mode {
        CutMode::Precise => seq![
            "ffmpeg"@, "-ss"@, clock_text(start), "-t"@, clock_text(duration), "-i"@, from,
            "-copyts"@, to,
        ],
        CutMode::Fast => seq![
            "ffmpeg"@, "-i"@, from, "-ss"@, clock_text(start), "-t"@, clock_text(duration),
            "-c"@, "copy"@, to,
        ],
    }
}

/// The bitstream conversion that makes a clip of the given video codec
/// copy-joinable as a transport stream, if the codec is a known one.
pub open spec fn annexb_filter(codec: Seq<char>) -> Option<Seq<char>> {
    if codec == "h264"@ {
        Some("h264_mp4toannexb"@)
    } else if codec == "hevc"@ {
        Some("hevc_mp4toannexb"@)
    } else {
        None
    }
}

/// The conversion of clip `from` into the transport stream `to`.
pub open spec fn packet_args(from: Seq<char>, to: Seq<char>, filter: Seq<char>) -> Seq<Seq<char>> {
    seq!["ffmpeg"@, "-i"@, from, "-codec"@, "copy"@, "-bsf:v"@, filter, "-f"@, "mpegts"@, to]
}

/// One manifest line per segment, `file '<path>'`, in the given order.
pub open spec fn manifest_text(files: Seq<Seq<char>>) -> Seq<char>
    decreases files.len(),
{
    if files.len() == 0 {
        Seq::empty()
    } else {
        manifest_text(files.drop_last()) + "file '"@ + files.last() + "'\n"@
    }
}

/// The demux-and-copy join of the segments listed in `manifest` into `to`.
pub open spec fn concat_args(manifest: Seq<char>, to: Seq<char>) -> Seq<Seq<char>> {
    seq![
        "ffmpeg"@, "-f"@, "concat"@, "-safe"@, "0"@, "-i"@, manifest, "-c"@, "copy"@, "-bsf:a"@,
        "aac_adtstoasc"@, to,
    ]
}

/// Appends one argument.
fn arg(v: &mut Vec<String>, a: &str)
    ensures
        final(v)@ == old(v)@.push(final(v)@.last()),
        final(v)@.last()@ == a@,
{
    v.push(a.to_owned());
}

/// Appends one argument that is already owned.
fn arg_owned(v: &mut Vec<String>, a: String)
    ensures
        final(v)@ == old(v)@.push(a),
{
    v.push(a);
}

/// The command line that cuts `duration` seconds from `start` out of `from`
/// into `to`.
pub fn cut_command(from: &str, to: &str, start: u64, duration: u64, mode: CutMode) -> (r: Vec<String>)
    ensures
        args_view(r@) == cut_args(from@, to@, start as nat, duration as nat, mode),
{
    let mut v: Vec<String> = Vec::new();
    arg(&mut v, "ffmpeg");
    match mode {
        CutMode::Precise => {
            arg(&mut v, "-ss");
            arg_owned(&mut v, clock_format(start));
            arg(&mut v, "-t");
            arg_owned(&mut v, clock_format(duration));
            arg(&mut v, "-i");
            arg(&mut v, from);
            arg(&mut v, "-copyts");
            arg(&mut v, to);
        },
        CutMode::Fast => {
            arg(&mut v, "-i");
            arg(&mut v, from);
            arg(&mut v, "-ss");
            arg_owned(&mut v, clock_format(start));
            arg(&mut v, "-t");
            arg_owned(&mut v, clock_format(duration));
            arg(&mut v, "-c");
            arg(&mut v, "copy");
            arg(&mut v, to);
        },
    }
    assert(args_view(v@) =~= cut_args(from@, to@, start as nat, duration as nat, mode));
    v
}

/// The annex-B bitstream filter for a clip's video codec; any codec but the
/// two known ones is refused.
pub fn packet_filter(codec: &str) -> (r: Result<String, VideoError>)
    ensures
        match annexb_filter(codec@) {
            Some(f) => r is Ok && r->Ok_0@ == f,
            None => match r {
                Err(VideoError::UnsupportedCodec(name)) => name@ == codec@,
                _ => false,
            },
        },
{
    if same_text(codec, "h264") {
        Ok("h264_mp4toannexb".to_owned())
    } else if same_text(codec, "hevc") {
        Ok("hevc_mp4toannexb".to_owned())
    } else {
        Err(VideoError::UnsupportedCodec(codec.to_owned()))
    }
}

/// The command line that turns clip `from` into the transport stream `to`
/// with bitstream filter `filter`.
pub fn packet_command(from: &str, to: &str, filter: &str) -> (r: Vec<String>)
    ensures
        args_view(r@) == packet_args(from@, to@, filter@),
{
    let mut v: Vec<String> = Vec::new();
    arg(&mut v, "ffmpeg");
    arg(&mut v, "-i");
    arg(&mut v, from);
    arg(&mut v, "-codec");
    arg(&mut v, "copy");
    arg(&mut v, "-bsf:v");
    arg(&mut v, filter);
    arg(&mut v, "-f");
    arg(&mut v, "mpegts");
    arg(&mut v, to);
    assert(args_view(v@) =~= packet_args(from@, to@, filter@));
    v
}

/// The manifest that lists `files` for the concatenating demuxer, one
/// `file '<path>'` line each, in order.
pub fn concat_manifest(files: &Vec<String>) -> (r: String)
    ensures
        r@ == manifest_text(args_view(files@)),
{
    let mut out = String::new();
    let mut i: usize = 0;
    while i < files.len()
        invariant
            i <= files.len(),
            out@ == manifest_text(args_view(files@.take(i as int))),
        decreases files.len() - i,
    {
        out.append("file '");
        out.append(files[i].as_str());
        out.append("'\n");
        proof {
            let prefix = args_view(files@.take(i as int + 1));
            assert(prefix.drop_last() =~= args_view(files@.take(i as int)));
            assert(prefix.last() == files@[i as int]@);
        }
        i = i + 1;
    }
    assert(files@.take(i as int) =~= files@);
    out
}

/// The command line that joins the segments listed in `manifest` into `to`.
pub fn concat_command(manifest: &str, to: &str) -> (r: Vec<String>)
    ensures
        args_view(r@) == concat_args(manifest@, to@),
{
    let mut v: Vec<String> = Vec::new();
    arg(&mut v, "ffmpeg");
    arg(&mut v, "-f");
    arg(&mut v, "concat");
    arg(&mut v, "-safe");
    arg(&mut v, "0");
    arg(&mut v, "-i");
    arg(&mut v, manifest);
    arg(&mut v, "-c");
    arg(&mut v, "copy");
    arg(&mut v, "-bsf:a");
    arg(&mut v, "aac_adtstoasc");
    arg(&mut v, to);
    assert(args_view(v@) =~= concat_args(manifest@, to@));
    v
}

/// The index of the last `c` in `s`, if any.
pub open spec fn last_index_of(s: Seq<char>, c: char) -> Option<int>
    decreases s.len(),
{
    if s.len() == 0 {
        None
    } else if s.last() == c {
        Some(s.len() - 1)
    } else {
        last_index_of(s.drop_last(), c)
    }
}

/// The text after the last `.` of `path`, lower-cased, is one of `exts`.
pub open spec fn extension_in(path: Seq<char>, exts: Seq<Seq<char>>) -> bool {
    match last_index_of(path, '.') {
        Some(i) => exts.contains(lower_of(path.skip(i + 1))),
        None => false,
    }
}

/// The extensions of audio files.
pub open spec fn audio_extensions() -> Seq<Seq<char>> {
    seq!["mp3"@, "wav"@, "aac"@, "flac"@, "ogg"@, "m4a"@]
}

/// The extensions of video files.
pub open spec fn video_extensions() -> Seq<Seq<char>> {
    seq!["mp4"@, "avi"@, "mkv"@, "mov"@, "flv"@, "wmv"@, "mpg"@, "ts"@, "m4v"@, "webm"@]
}

fn last_dot(s: &str) -> (r: Option<usize>)
    ensures
        match r {
            Some(i) => last_index_of(s@, '.') == Some(i as int) && i < s@.len(),
            None => last_index_of(s@, '.') is None,
        },
{
    let n = s.unicode_len();
    let mut i: usize = n;
    assert(s@.take(n as int) =~= s@);
    while i > 0
        invariant
            n == s@.len(),
            i <= n,
            last_index_of(s@, '.') == last_index_of(s@.take(i as int), '.'),
        decreases i,
    {
        assert(s@.take(i as int).drop_last() =~= s@.take(i - 1));
        if s.get_char(i - 1) == '.' {
            return Some(i - 1);
        }
        i = i - 1;
    }
    None
}

/// Whether the text after the last `.` of `file_path`, lower-cased, is one
/// of `extensions`.
pub fn is_extensions(file_path: &str, extensions: Vec<&str>) -> (r: bool)
    ensures
        r == extension_in(file_path@, extensions@.map_values(|e: &str| e@)),
{
    match last_dot(file_path) {
        None => false,
        Some(i) => {
            let n = file_path.unicode_len();
            let ext = file_path.substring_char(i + 1, n);
            assert(ext@ =~= file_path@.skip(i + 1));
            let lower = lowercase(ext);
            let ghost exts = extensions@.map_values(|e: &str| e@);
            let mut k: usize = 0;
            while k < extensions.len()
                invariant
                    k <= extensions@.len(),
                    exts == extensions@.map_values(|e: &str| e@),
                    forall|j: int| 0 <= j < k ==> exts[j] != lower@,
                    lower@ == lower_of(file_path@.skip(i + 1)),
                    last_index_of(file_path@, '.') == Some(i as int),
                decreases extensions.len() - k,
            {
                if same_text(extensions[k], lower.as_str()) {
                    assert(exts.len() == extensions@.len());
                    assert(exts[k as int] == lower@);
                    assert(exts.contains(lower_of(file_path@.skip(i + 1))));
                    return true;
                }
                k = k + 1;
            }
            false
        },
    }
}

/// Whether `file_path` names an audio file by its extension.
pub fn is_audio(file_path: &str) -> (r: bool)
    ensures
        r == extension_in(file_path@, audio_extensions()),
{
    let exts: Vec<&str> = vec!["mp3", "wav", "aac", "flac", "ogg", "m4a"];
    assert(exts@.map_values(|e: &str| e@) =~= audio_extensions());
    is_extensions(file_path, exts)
}

/// Whether `file_path` names a video file by its extension.
pub fn is_video(file_path: &str) -> (r: bool)
    ensures
        r == extension_in(file_path@, video_extensions()),
{
    let exts: Vec<&str> = vec!["mp4", "avi", "mkv", "mov", "flv", "wmv", "mpg", "ts", "m4v", "webm"];
    assert(exts@.map_values(|e: &str| e@) =~= video_extensions());
    is_extensions(file_path, exts)
}

/// Where a conversion writes: the given destination, else the source with
/// extension `ext`.
pub open spec fn destination_of(from: Seq<char>, to: Option<Seq<char>>, ext: Seq<char>) -> Seq<char> {
    match to {
        Some(t) => t,
        None => extension_set(from, ext),
    }
}

/// The destination of a conversion of `from`: `to` if given, else `from`
/// with extension `ext`.
pub fn get_to(from: &str, to: Option<&str>, ext: &str) -> (r: String)
    requires
        no_separator(ext@),
    ensures
        r@ == destination_of(from@, match to { Some(t) => Some(t@), None => None }, ext@),
{
    match to {
        Some(t) => t.to_owned(),
        None => with_extension(from, ext),
    }
}

/// The rewrap of `from` into MP4 file `to`; a playlist also allows every
/// segment extension.
pub open spec fn mp4_args(from: Seq<char>, to: Seq<char>) -> Seq<Seq<char>> {
    seq!["ffmpeg"@, "-i"@, from, "-c:v"@, "copy"@, "-c:a"@, "copy"@]
        + (if from.len() >= 5 && from.subrange(from.len() - 5, from.len() as int) == ".m3u8"@ {
            seq!["-allowed_extensions"@, "ALL"@]
        } else {
            Seq::empty()
        }) + seq![to]
}

/// The command line that rewraps `from` into MP4 file `to`.
pub fn to_mp4_command(from: &str, to: &str) -> (r: Vec<String>)
    ensures
        args_view(r@) == mp4_args(from@, to@),
{
    let mut v: Vec<String> = Vec::new();
    arg(&mut v, "ffmpeg");
    arg(&mut v, "-i");
    arg(&mut v, from);
    arg(&mut v, "-c:v");
    arg(&mut v, "copy");
    arg(&mut v, "-c:a");
    arg(&mut v, "copy");
    let ghost head = v@;
    if has_suffix(from, ".m3u8") {
        proof {
            reveal_strlit(".m3u8");
        }
        arg(&mut v, "-allowed_extensions");
        arg(&mut v, "ALL");
    } else {
        proof {
            reveal_strlit(".m3u8");
        }
    }
    arg(&mut v, to);
    assert(args_view(v@) =~= mp4_args(from@, to@));
    v
}

/// The audio of `from` encoded as MP3 into `to`; from a video only its audio
/// streams are taken.
pub open spec fn mp3_args(from: Seq<char>, to: Seq<char>, video: bool) -> Seq<Seq<char>> {
    seq!["ffmpeg"@, "-i"@, from, "-acodec"@, "libmp3lame"@, "-q:a"@, "0"@]
        + (if video { seq!["-map"@, "a"@] } else { Seq::empty() }) + seq![to]
}

/// What an MP3 extraction of `from` into `to` does: nothing when the source
/// already has the `mp3` extension, a command for a video or an audio file,
/// and a refusal for anything else.
pub open spec fn mp3_plan(from: Seq<char>, to: Seq<char>) -> Result<Option<Seq<Seq<char>>>, ()> {
    if extension_of(from) matches Some(e) && lower_of(e) == "mp3"@ {
        Ok(None)
    } else if extension_in(from, video_extensions()) {
        Ok(Some(mp3_args(from, to, true)))
    } else if extension_in(from, audio_extensions()) {
        Ok(Some(mp3_args(from, to, false)))
    } else {
        Err(())
    }
}

/// The MP3 extraction of `from`: its destination (`to`, else `from` with
/// extension `mp3`) and the command to run, if any is needed.
pub fn to_mp3(from: &str, to: Option<&str>) -> (r: Result<(String, Option<Vec<String>>), VideoError>)
    ensures
        ({
            let dest = destination_of(from@, match to { Some(t) => Some(t@), None => None }, "mp3"@);
            match mp3_plan(from@, dest) {
                Ok(None) => r matches Ok((d, None)) && d@ == dest,
                Ok(Some(a)) => r matches Ok((d, Some(c))) && d@ == dest && args_view(c@) == a,
                Err(_) => r matches Err(VideoError::UnknownMediaKind(f)) && f@ == from@,
            }
        }),
{
    proof {
        reveal_strlit("mp3");
        assert(no_separator("mp3"@));
    }
    let dest = get_to(from, to, "mp3");
    if let Some(e) = extension(from) {
        if same_text(lowercase(e.as_str()).as_str(), "mp3") {
            return Ok((dest, None));
        }
    }
    let video = is_video(from);
    if !video && !is_audio(from) {
        return Err(VideoError::UnknownMediaKind(from.to_owned()));
    }
    let mut v: Vec<String> = Vec::new();
    arg(&mut v, "ffmpeg");
    arg(&mut v, "-i");
    arg(&mut v, from);
    arg(&mut v, "-acodec");
    arg(&mut v, "libmp3lame");
    arg(&mut v, "-q:a");
    arg(&mut v, "0");
    if video {
        arg(&mut v, "-map");
        arg(&mut v, "a");
    }
    arg(&mut v, dest.as_str());
    assert(args_view(v@) =~= mp3_args(from@, dest@, video));
    Ok((dest, Some(v)))
}

/// The transcode of `from` into `to` in the standard format: H.264 at 25
/// frames per second and 1920x1080, AAC stereo audio at 48 kHz.
pub open spec fn transcode_1080_args(from: Seq<char>, to: Seq<char>) -> Seq<Seq<char>> {
    seq![
        "ffmpeg"@, "-i"@, from, "-c:v"@, "libx264"@, "-preset"@, "veryfast"@, "-maxrate"@,
        "17185k"@, "-bufsize"@, "34370k"@, "-crf"@, "23"@, "-r"@, "25"@, "-s"@, "1920x1080"@,
        "-c:a"@, "aac"@, "-b:a"@, "319k"@, "-ar"@, "48000"@, "-ac"@, "2"@, to,
    ]
}

/// The command line that transcodes `from` into `to` in the standard 1080p
/// format.
pub fn transcode_1080_command(from: &str, to: &str) -> (r: Vec<String>)
    ensures
        args_view(r@) == transcode_1080_args(from@, to@),
{
    let mut v: Vec<String> = Vec::new();
    arg(&mut v, "ffmpeg");
    arg(&mut v, "-i");
    arg(&mut v, from);
    arg(&mut v, "-c:v");
    arg(&mut v, "libx264");
    arg(&mut v, "-preset");
    arg(&mut v, "veryfast");
    arg(&mut v, "-maxrate");
    arg(&mut v, "17185k");
    arg(&mut v, "-bufsize");
    arg(&mut v, "34370k");
    arg(&mut v, "-crf");
    arg(&mut v, "23");
    arg(&mut v, "-r");
    arg(&mut v, "25");
    arg(&mut v, "-s");
    arg(&mut v, "1920x1080");
    arg(&mut v, "-c:a");
    arg(&mut v, "aac");
    arg(&mut v, "-b:a");
    arg(&mut v, "319k");
    arg(&mut v, "-ar");
    arg(&mut v, "48000");
    arg(&mut v, "-ac");
    arg(&mut v, "2");
    arg(&mut v, to);
    assert(args_view(v@) =~= transcode_1080_args(from@, to@));
    v
}

/// The one-line text of a frame capture of `from` at `start` seconds into
/// `to`.
pub open spec fn screenshot_line(from: Seq<char>, to: Seq<char>, start: nat) -> Seq<char> {
    "ffmpeg -i "@ + from + " -ss "@ + clock_text(start) + " -vframes 1 -q:v 1 "@ + to
}

/// The command line that captures one frame of `from` at `start` seconds
/// into `to`: the one-line text split at every space.
pub fn screenshot_command(from: &str, to: &str, start: u64) -> (r: Vec<String>)
    ensures
        args_view(r@) == split_on(screenshot_line(from@, to@, start as nat), ' '),
{
    let mut line = String::from_str("ffmpeg -i ");
    line.append(from);
    line.append(" -ss ");
    let clock = clock_format(start);
    line.append(clock.as_str());
    line.append(" -vframes 1 -q:v 1 ");
    line.append(to);
    assert(line@ =~= screenshot_line(from@, to@, start as nat));
    split_text(line.as_str(), ' ')
}

/// The probe that prints the codec name of the first video stream of `path`.
pub open spec fn codec_probe_args(path: Seq<char>) -> Seq<Seq<char>> {
    seq![
        "ffprobe"@, "-v"@, "error"@, "-select_streams"@, "v:0"@, "-show_entries"@,
        "stream=codec_name"@, "-of"@, "default=noprint_wrappers=1:nokey=1"@, path,
    ]
}

/// The command line that prints the codec name of the first video stream of
/// `path`.
pub fn codec_probe_command(path: &str) -> (r: Vec<String>)
    ensures
        args_view(r@) == codec_probe_args(path@),
{
    let mut v: Vec<String> = Vec::new();
    arg(&mut v, "ffprobe");
    arg(&mut v, "-v");
    arg(&mut v, "error");
    arg(&mut v, "-select_streams");
    arg(&mut v, "v:0");
    arg(&mut v, "-show_entries");
    arg(&mut v, "stream=codec_name");
    arg(&mut v, "-of");
    arg(&mut v, "default=noprint_wrappers=1:nokey=1");
    arg(&mut v, path);
    assert(args_view(v@) =~= codec_probe_args(path@));
    v
}

} // verus!
