use bili::command::CommandError;
use bili::media::{MediaSettings, UploaderSettings};
use bili::upload::Uploader;

fn uploader() -> Uploader {
    Uploader {
        path: "/c/a.mp4".to_string(),
        cover: String::new(),
        tag: String::new(),
        tid: 183,
        limit: 8,
        dtime: String::new(),
        desc: String::new(),
        mid: None,
        with_append: false,
        vid: String::new(),
    }
}

#[test]
fn upload_flags_skip_empty_values() {
    let mut u = uploader();
    assert_eq!(u.to_args(None).unwrap(), vec!["--limit", "8", "--tid", "183"]);
    assert_eq!(u.to_args(Some(7)).unwrap(), vec!["--limit", "8", "--tid", "183"]);
    u.cover = "/c/a.png".to_string();
    u.desc = "d".to_string();
    assert_eq!(u.to_args(None).unwrap(), vec!["--limit", "8", "--tid", "183", "--cover", "/c/a.png", "--desc", "d"]);
}

#[test]
fn upload_flags_with_read_time() {
    let mut u = uploader();
    u.dtime = "2025-01-15 18:16:13".to_string();
    assert_eq!(u.to_args(Some(1736936173)).unwrap(), vec!["--limit", "8", "--tid", "183", "--dtime", "1736936173"]);
    assert_eq!(u.to_args(Some(-5)).unwrap()[5], "-5");
    assert_eq!(u.to_args(None), Err(CommandError::BadTime("2025-01-15 18:16:13".to_string())));
    u.dtime = "not a time".to_string();
    assert_eq!(u.to_cmds(false, None, "/k", None), Err(CommandError::BadTime("not a time".to_string())));
}

#[test]
fn upload_commands_new_and_append() {
    let mut u = uploader();
    u.tag = "t".to_string();
    let first = u.command_for(0, true, "多媒体S01E02", "/k/1.json", None).unwrap();
    assert_eq!(
        first,
        vec!["biliup", "-u", "/k/1.json", "upload", "/c/a.mp4", "--title", "多媒体S01E02", "--limit", "8", "--tid", "183", "--tag", "t"]
    );
    assert_eq!(u.command_for(1, true, "x", "/k/1.json", None), Err(CommandError::VideoIdMissing));
    u.vid = "BV1".to_string();
    let next = u.command_for(1, true, "x", "/k/1.json", None).unwrap();
    assert_eq!(&next[..7], &["biliup", "-u", "/k/1.json", "append", "/c/a.mp4", "-v", "BV1"]);
    let plain = u.command_for(3, false, "x", "/k/1.json", None).unwrap();
    assert_eq!(plain[3], "upload");
    assert_eq!(u.path(), "/c/a.mp4");
}

#[test]
fn fill_with_media_uses_cascade_then_title() {
    let media = MediaSettings {
        name: "m".to_string(),
        title: "多媒体".to_string(),
        media_dir: None,
        suffix_parts: None,
        trans: None,
        uploaders: Some(vec![UploaderSettings { season: Some(1), episode: Some(2), dtime: Some("2025-01-19 11:00:00".to_string()), tag: None }]),
        spliters: None,
        marks: None,
        settings: None,
    };
    let mut u = uploader();
    u.fill_with_media(&media, 1, 2);
    assert_eq!(u.dtime, "2025-01-19 11:00:00");
    assert_eq!(u.tag, "多媒体");
    let mut u = uploader();
    u.dtime = "keep".to_string();
    u.tag = "mine".to_string();
    u.fill_with_media(&media, 1, 2);
    assert_eq!((u.dtime.as_str(), u.tag.as_str()), ("keep", "mine"));
}

use bili::upload::{video_id_in_line, video_id_in_output};

#[test]
fn video_id_from_result_line() {
    let line = r#"INFO upload: {"code":0,"message":"0","data":{"aid":1,"bvid":"BV1xx411c7mD"}} done"#;
    assert_eq!(video_id_in_line(line), Some("BV1xx411c7mD".to_string()));
    assert_eq!(video_id_in_line(r#"{"code":0,"data":{"bvid":"BV1"}}"#), None);
    assert_eq!(video_id_in_line("code message but no json"), None);
    assert_eq!(video_id_in_line(r#"{"code":0,"message":"x","data":{}}"#), None);
}

#[test]
fn video_id_last_reporting_line_wins() {
    let lines = vec![
        r#"{"code":0,"message":"","data":{"bvid":"BV_first"}}"#.to_string(),
        "progress 50%".to_string(),
        r#"{"code":0,"message":"","data":{"bvid":"BV_second"}}"#.to_string(),
        "finished".to_string(),
    ];
    assert_eq!(video_id_in_output(&lines), Some("BV_second".to_string()));
    assert_eq!(video_id_in_output(&vec![]), None);
}
