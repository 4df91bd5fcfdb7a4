use bili::media::{MarkSettings, MediaSettings, SpliterSettings, TransSettings, UploaderSettings};
use bili::settings::{App, Part, Settings};

fn up(season: Option<u16>, episode: Option<u16>, dtime: Option<&str>, tag: Option<&str>) -> UploaderSettings {
    UploaderSettings { season, episode, dtime: dtime.map(String::from), tag: tag.map(String::from) }
}

fn sp(season: Option<u16>, episode: Option<u16>, count: Option<usize>, remove: Option<Vec<(u64, u64)>>) -> SpliterSettings {
    SpliterSettings { season, episode, count, suffix_parts: None, screenshot_seconds: None, remove_parts: remove }
}

fn media() -> MediaSettings {
    MediaSettings {
        name: "longmen".to_string(),
        title: "龙门镖局".to_string(),
        media_dir: None,
        suffix_parts: Some(vec!["ipartment".to_string()]),
        trans: Some(vec![
            TransSettings { season: None, episode: None, exclude_segments: Some(vec![(0, 90)]) },
            TransSettings { season: Some(2), episode: Some(3), exclude_segments: None },
        ]),
        uploaders: Some(vec![
            up(None, None, None, Some("电视剧,影视剪辑,龙门镖局")),
            up(Some(3), None, None, Some("电视剧,影视剪辑,龙门镖局1.5,龙门镖局")),
            up(Some(3), Some(6), Some("2025-01-19 11:00:00"), None),
        ]),
        spliters: Some(vec![
            sp(None, None, Some(5), None),
            sp(Some(3), None, Some(2), Some(vec![(0, 80)])),
            sp(Some(3), Some(12), Some(3), Some(vec![(0, 90)])),
        ]),
        marks: Some(vec![
            MarkSettings {
                id: "2-14-1".to_string(),
                title: "a".to_string(),
                path: None,
                parts: Some(vec!["爱2.14.3".to_string()]),
                suffix_parts: None,
                with_suffix: None,
                exclude_segments: None,
                include_segments: None,
                trans_1080p: None,
            },
            MarkSettings {
                id: "path".to_string(),
                title: "b".to_string(),
                path: Some("examples/data/trailer.mp4".to_string()),
                parts: None,
                suffix_parts: Some(vec!["longmen".to_string()]),
                with_suffix: Some(false),
                exclude_segments: Some(vec![(0, 90)]),
                include_segments: Some(vec![(0, 90)]),
                trans_1080p: Some(true),
            },
        ]),
        settings: Some(Settings {
            app: App { media_dir: "/media".to_string() },
            part: Part { home: "/parts".to_string(), names: vec![] },
            up: vec![],
        }),
    }
}

#[test]
fn uploader_episode_tier_overrides_and_keeps_season_tag() {
    let m = media();
    let u = m.get_uploader(3, 6).unwrap();
    assert_eq!(u.tag.as_deref(), Some("电视剧,影视剪辑,龙门镖局1.5,龙门镖局"));
    assert_eq!(u.dtime.as_deref(), Some("2025-01-19 11:00:00"));
    let u = m.get_uploader(3, 7).unwrap();
    assert_eq!(u.tag.as_deref(), Some("电视剧,影视剪辑,龙门镖局1.5,龙门镖局"));
    assert_eq!(u.dtime, None);
    let u = m.get_uploader(2, 7).unwrap();
    assert_eq!(u.tag.as_deref(), Some("电视剧,影视剪辑,龙门镖局"));
    assert_eq!(u.dtime, None);
}

#[test]
fn spliter_cascade_by_season_and_episode() {
    let m = media();
    let s = m.get_spliter(3, 12).unwrap();
    assert_eq!(s.count, Some(3));
    assert_eq!(s.remove_parts, Some(vec![(0, 90)]));
    let s = m.get_spliter(3, 11).unwrap();
    assert_eq!(s.count, Some(2));
    assert_eq!(s.remove_parts, Some(vec![(0, 80)]));
    let s = m.get_spliter(4, 11).unwrap();
    assert_eq!(s.count, Some(5));
    assert_eq!(s.remove_parts, None);
    assert_eq!(s.screenshot_seconds(), vec![10, 20, 30, 300, 400, 500]);
}

#[test]
fn cascade_without_any_tier_is_absent() {
    let mut m = media();
    m.uploaders = Some(vec![up(Some(9), None, None, Some("x"))]);
    assert!(m.get_uploader(1, 1).is_none());
    m.uploaders = None;
    assert!(m.get_uploader(1, 1).is_none());
    m.uploaders = Some(vec![up(None, None, None, None)]);
    let u = m.get_uploader(1, 1).unwrap();
    assert_eq!((u.dtime, u.tag), (None, None));
}

#[test]
fn trans_unset_field_does_not_clear_default() {
    let m = media();
    let t = m.get_trans(2, 3).unwrap();
    assert_eq!(t.exclude_segments, Some(vec![(0, 90)]));
    assert_eq!(t.season, Some(2));
}

#[test]
fn preset_is_merged_first() {
    let m = media();
    let preset = Some(up(None, None, Some("t0"), Some("p")));
    let u = m.get_episode_settings(3, 6, &preset, &m.uploaders).unwrap();
    assert_eq!(u.tag.as_deref(), Some("电视剧,影视剪辑,龙门镖局1.5,龙门镖局"));
    assert_eq!(u.dtime.as_deref(), Some("2025-01-19 11:00:00"));
    let u = m.get_episode_settings(9, 9, &preset, &None).unwrap();
    assert_eq!(u.tag.as_deref(), Some("p"));
}

#[test]
fn marks_take_title_suffix_parts() {
    let m = media();
    let a = m.get_mark("2-14-1").unwrap();
    assert_eq!(a.suffix_parts, Some(vec!["ipartment".to_string()]));
    assert!(a.with_suffix());
    assert!(!a.trans_1080p());
    let b = m.get_mark("path").unwrap();
    assert_eq!(b.suffix_parts, Some(vec!["longmen".to_string()]));
    assert_eq!(b.path.as_deref(), Some("examples/data/trailer.mp4"));
    assert!(!b.with_suffix());
    assert!(b.trans_1080p());
    assert_eq!(b.exclude_segments, Some(vec![(0, 90)]));
    assert!(m.get_mark("nope").is_none());
}

#[test]
fn media_dir_falls_back_to_settings() {
    let mut m = media();
    assert_eq!(m.media_dir(), "/media");
    m.media_dir = Some("/own".to_string());
    assert_eq!(m.media_dir(), "/own");
    assert_eq!(m.settings().app.media_dir, "/media");
}
