use bili::toolchain::{concat_command, concat_manifest, cut_command, packet_command, packet_filter, CutMode};
use bili::video::VideoError;

#[test]
fn cut_command_precise_seeks_before_input() {
    let c = cut_command("/a.mp4", "/b.mp4", 3671, 67, CutMode::Precise);
    assert_eq!(c, vec!["ffmpeg", "-ss", "01:01:11", "-t", "00:01:07", "-i", "/a.mp4", "-copyts", "/b.mp4"]);
}

#[test]
fn packet_filter_known_codecs() {
    assert_eq!(packet_filter("h264"), Ok("h264_mp4toannexb".to_string()));
    assert_eq!(packet_filter("hevc"), Ok("hevc_mp4toannexb".to_string()));
    assert_eq!(packet_filter("vp9"), Err(VideoError::UnsupportedCodec("vp9".to_string())));
}

#[test]
fn packet_command_layout() {
    let c = packet_command("a.mp4", "a.ts", "hevc_mp4toannexb");
    assert_eq!(c, vec!["ffmpeg", "-i", "a.mp4", "-codec", "copy", "-bsf:v", "hevc_mp4toannexb", "-f", "mpegts", "a.ts"]);
}

#[test]
fn manifest_keeps_order() {
    let m = concat_manifest(&vec!["/x/2.ts".to_string(), "/x/1.ts".to_string()]);
    assert_eq!(m, "file '/x/2.ts'\nfile '/x/1.ts'\n");
    assert_eq!(concat_manifest(&vec![]), "");
    let c = concat_command("/x/concat-1", "/x/o.mp4");
    assert_eq!(
        c,
        vec!["ffmpeg", "-f", "concat", "-safe", "0", "-i", "/x/concat-1", "-c", "copy", "-bsf:a", "aac_adtstoasc", "/x/o.mp4"]
    );
}

use bili::toolchain::{
    codec_probe_command, get_to, is_audio, is_extensions, is_video, screenshot_command, to_mp3, to_mp4_command,
    transcode_1080_command,
};

#[test]
fn extension_checks_ignore_case() {
    assert!(is_video("/a/B.MKV"));
    assert!(is_audio("/a/b.Flac"));
    assert!(!is_audio("/a/b.mp4"));
    assert!(!is_video("/a/noext"));
    assert!(is_extensions("x.tar.gz", vec!["gz"]));
    assert!(!is_extensions("x.gz", vec![]));
}

#[test]
fn mp3_plans() {
    assert_eq!(to_mp3("/a/song.MP3", None), Ok(("/a/song.mp3".to_string(), None)));
    let (dest, cmd) = to_mp3("/a/v.mkv", None).unwrap();
    assert_eq!(dest, "/a/v.mp3");
    assert_eq!(cmd.unwrap(), vec!["ffmpeg", "-i", "/a/v.mkv", "-acodec", "libmp3lame", "-q:a", "0", "-map", "a", "/a/v.mp3"]);
    let (_, cmd) = to_mp3("/a/v.wav", Some("/o.mp3")).unwrap();
    assert_eq!(cmd.unwrap(), vec!["ffmpeg", "-i", "/a/v.wav", "-acodec", "libmp3lame", "-q:a", "0", "/o.mp3"]);
    assert_eq!(to_mp3("/a/doc.txt", None), Err(VideoError::UnknownMediaKind("/a/doc.txt".to_string())));
}

#[test]
fn mp4_rewrap_allows_playlist_segments() {
    assert_eq!(
        to_mp4_command("/a/l.m3u8", "/a/l.mp4"),
        vec!["ffmpeg", "-i", "/a/l.m3u8", "-c:v", "copy", "-c:a", "copy", "-allowed_extensions", "ALL", "/a/l.mp4"]
    );
    assert_eq!(to_mp4_command("/a/l.mkv", "/a/l.mp4").len(), 8);
    assert_eq!(get_to("/a/l.mkv", None, "mp4"), "/a/l.mp4");
    assert_eq!(get_to("/a/l.mkv", Some("/o"), "mp4"), "/o");
}

#[test]
fn other_command_lines() {
    let t = transcode_1080_command("i", "o");
    assert_eq!(t.len(), 26);
    assert_eq!(&t[15..17], &["-s", "1920x1080"]);
    assert_eq!(
        screenshot_command("/a b.mp4", "/o.png", 67),
        vec!["ffmpeg", "-i", "/a", "b.mp4", "-ss", "00:01:07", "-vframes", "1", "-q:v", "1", "/o.png"]
    );
    assert_eq!(codec_probe_command("/v")[9], "/v");
}
