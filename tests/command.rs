use bili::command::{
    get_trans, parse_pair, trans, trans_to_episode, Command, CommandError, InitArgs, MarkArgs, RemoveArgs,
    SplitArgs, TransAction, TransArgs, UploadArgs,
};
use bili::episode::EpisodeArgs;
use bili::media::{MarkSettings, MediaSettings, SpliterSettings};
use bili::upload::Uploader;

fn new_trans(path: &str, title: &str, season: u16, episode: u16) -> TransArgs {
    TransArgs {
        path: path.to_string(),
        action: "1080p".to_string(),
        type_: "电视剧".to_string(),
        title: title.to_string(),
        name: String::new(),
        season,
        episode,
        yes: false,
        to: None,
    }
}

#[test]
fn test_trans_to_episode() {
    let args = &new_trans("/Volumes/Getea/影片/电视剧/医馆笑传/医馆笑传S02.37集.1080P/37.mp4", "", 0, 0);
    let ep = trans_to_episode(args).unwrap();
    assert_eq!(ep.title, String::from("医馆笑传"));
    assert_eq!(ep.season, 2);
    assert_eq!(ep.episode, 37);

    let args = &new_trans("/Volumes/Getea/影片/电视剧/医馆笑传/医馆笑传S02.37集.1080P/37.mp4", "美国队长", 1, 2);
    let ep = trans_to_episode(args).unwrap();
    assert_eq!(ep.title, String::from("美国队长"));
    assert_eq!(ep.season, 1);
    assert_eq!(ep.episode, 2);

    let args = &new_trans("/Volumes/ZhiTai/bilibili/cache/休息吧，托尼，这么多年辛苦了.mp4", "美国队长", 1, 2);
    let ep = trans_to_episode(args).unwrap();
    assert_eq!(ep.title, String::from("美国队长"));
    assert_eq!(ep.season, 1);
    assert_eq!(ep.episode, 2);
}

#[test]
fn trans_to_episode_fails_without_numbers() {
    let args = &new_trans("/tmp/plain.mp4", "美国队长", 0, 2);
    assert_eq!(trans_to_episode(args).err(), Some(CommandError::ParseEpisodeFailed));
}

#[test]
fn trans_actions_by_name() {
    assert_eq!(get_trans("mp3"), Some(TransAction::Mp3));
    assert_eq!(get_trans("mp4"), Some(TransAction::Mp4));
    assert_eq!(get_trans("1080p"), Some(TransAction::Mp41080));
    assert_eq!(get_trans("avi"), None);
    assert_eq!(TransAction::Mp41080.get_action(), "1080p");
    let mut a = new_trans("x", "", 0, 0);
    assert_eq!(trans(&a), Ok(TransAction::Mp41080));
    a.action = "gif".to_string();
    assert_eq!(trans(&a), Err(CommandError::ActionNotMatched("gif".to_string())));
}

#[test]
fn parse_pair_accepts_two_numbers() {
    assert_eq!(parse_pair("10,20"), Ok((10, 20)));
    assert_eq!(parse_pair("+1,0"), Ok((1, 0)));
    assert_eq!(parse_pair("10"), Err("参数格式错误，应该为 x,y".to_string()));
    assert_eq!(parse_pair("1,2,3"), Err("参数格式错误，应该为 x,y".to_string()));
    assert_eq!(parse_pair("a,2"), Err("x 不是有效的数字".to_string()));
    assert_eq!(parse_pair("1,"), Err("y 不是有效的数字".to_string()));
}

fn episode(type_: &str, title: &str, season: u16, episode: u16) -> EpisodeArgs {
    EpisodeArgs::new(type_.to_string(), Some("media".to_string()), title.to_string(), season, episode)
}

#[test]
fn full_titles_for_drama_and_film() {
    let ep = episode("电视剧", "多媒体", 1, 2);
    assert!(ep.is_drama());
    assert_eq!(ep.get_full_title(), "多媒体S01E02");
    let mut film = episode("电影", "", 2009, 1201);
    film.episode_title = "疯狂的赛车".to_string();
    assert!(!film.is_drama());
    assert_eq!(film.get_full_title(), "疯狂的赛车.2009.01201");
}

#[test]
fn episode_paths_and_names() {
    let ep = episode("电视剧", "龙门镖局", 3, 7);
    assert_eq!(ep.get_path("/m", "龙门镖局"), "/m/电视剧/龙门镖局/龙门镖局3/S03E07.mp4");
    assert_eq!(ep.cache_dir("/c", 42), "/c/龙门镖局S03E07-42");
    assert_eq!(ep.get_name(None), Some("media".to_string()));
    let anon = EpisodeArgs::new("电视剧".to_string(), None, "t".to_string(), 1, 1);
    assert_eq!(anon.name, "");
    assert_eq!(anon.get_name(Some("found".to_string())), Some("found".to_string()));
}

fn media(title: &str) -> MediaSettings {
    MediaSettings {
        name: "media".to_string(),
        title: title.to_string(),
        media_dir: None,
        suffix_parts: None,
        trans: None,
        uploaders: None,
        spliters: None,
        marks: None,
        settings: None,
    }
}

#[test]
fn fill_from_media_sets_title_and_film_kind() {
    let mut ep = episode("电视剧", "", 1, 2);
    ep.fill_from_media(&media("多媒体"));
    assert_eq!(ep.title, "多媒体");
    assert_eq!(ep.get_full_title(), "多媒体S01E02");
    let mut ep = episode("电视剧", "own", 2020, 6211);
    ep.fill_from_media(&media("多媒体"));
    assert_eq!(ep.title, "own");
    assert_eq!(ep.type_, "电影");
}

fn uploader() -> Uploader {
    Uploader {
        path: String::new(),
        cover: String::new(),
        tag: String::new(),
        tid: 183,
        limit: 8,
        dtime: String::new(),
        desc: String::new(),
        mid: None,
        with_append: false,
        vid: String::new(),
    }
}

#[test]
fn upload_args_fill_and_title() {
    let mut args = UploadArgs { ep: episode("电影", "", 2020, 6211), upload: uploader() };
    args.ep.episode_title = "电影标题".to_string();
    args.fill(&media("多媒体"));
    assert_eq!(args.get_upload_title(), "电影标题.2020.06211");
}

#[test]
fn split_args_count_and_name() {
    let mut args = SplitArgs { ep: episode("电视剧", "T", 1, 5), alias: String::new(), count: 0, with_quick: false, with_cache: false };
    let mut s = SpliterSettings { season: None, episode: None, count: Some(3), suffix_parts: None, screenshot_seconds: None, remove_parts: None };
    assert_eq!(args.part_count(&s), Ok(3));
    s.count = None;
    assert_eq!(args.part_count(&s), Err(CommandError::CountIsZero));
    args.count = 2;
    assert_eq!(args.part_count(&s), Ok(2));
    assert_eq!(args.target_name(), "TS01E05");
    args.ep.episode_title = "名".to_string();
    assert_eq!(args.target_name(), "名-TS01E05");
    args.alias = "alias".to_string();
    assert_eq!(args.target_name(), "alias");
}

#[test]
fn remove_and_mark_destinations() {
    let r = RemoveArgs { path: "/v/a.mp4".to_string(), to: None, pairs: vec![], with_quick: false };
    assert_eq!(r.destination(), "/v/a.-remove.mp4");
    let r = RemoveArgs { to: Some("/o.mp4".to_string()), ..r };
    assert_eq!(r.destination(), "/o.mp4");
    let m = MarkSettings {
        id: "i".to_string(),
        title: "mark title".to_string(),
        path: None,
        parts: None,
        suffix_parts: None,
        with_suffix: None,
        exclude_segments: None,
        include_segments: None,
        trans_1080p: None,
    };
    let a = MarkArgs { name: "n".to_string(), id: "i".to_string(), title: String::new(), with_quick: false };
    assert_eq!(a.target_title(&m), "mark title");
    let a = MarkArgs { title: "given".to_string(), ..a };
    assert_eq!(a.target_title(&m), "given");
}

#[test]
fn command_names() {
    assert_eq!(Command::Init { args: InitArgs { name: "part".to_string() } }.name(), "init");
    let a = MarkArgs { name: "n".to_string(), id: "i".to_string(), title: String::new(), with_quick: false };
    assert_eq!(Command::Mark { args: a }.name(), "mark");
}

#[test]
fn newest_cache_dir_picks_last_matching_name() {
    let ep = episode("电视剧", "T", 1, 5);
    let dirs = vec![
        "/c/TS01E05-100".to_string(),
        "/c/TS01E05-300".to_string(),
        "/c/TS01E06-900".to_string(),
        "/c/TS01E05-200".to_string(),
        "/".to_string(),
    ];
    assert_eq!(ep.newest_cache_dir(&dirs), Some("/c/TS01E05-300".to_string()));
    assert_eq!(ep.newest_cache_dir(&vec!["/c/other".to_string()]), None);
    assert_eq!(bili::episode::cache_dir_path("/c", "T", 7), "/c/T-7");
}

#[test]
fn split_cache_dir_layout() {
    let args = SplitArgs { ep: episode("电视剧", "T", 1, 5), alias: String::new(), count: 4, with_quick: false, with_cache: true };
    assert_eq!(args.cache_ts_dir("/c"), "/c/split/media/TS01E05-4");
}

fn mark(exclude: Option<Vec<(u64, u64)>>, trans: Option<bool>, suffix: Option<bool>) -> MarkSettings {
    MarkSettings {
        id: "i".to_string(),
        title: "t".to_string(),
        path: Some("/src.mp4".to_string()),
        parts: None,
        suffix_parts: None,
        with_suffix: suffix,
        exclude_segments: exclude,
        include_segments: None,
        trans_1080p: trans,
    }
}

#[test]
fn mark_plan_stages() {
    let a = MarkArgs { name: "n".to_string(), id: "i".to_string(), title: String::new(), with_quick: false };
    let p = a.plan(&mark(Some(vec![(0, 90)]), Some(true), None), "/c/t.mp4");
    assert_eq!(p.copy_to, "/c/t.cache.mp4");
    assert_eq!(p.remove, Some(("/c/t.cache.remove.mp4".to_string(), vec![(0, 90)])));
    assert_eq!(p.transcode, Some("/c/t.cache.remove.trans.mp4".to_string()));
    assert_eq!(p.result, "/c/t.cache.remove.trans.mp4");
    assert!(p.append_suffix);
    let p = a.plan(&mark(None, None, Some(false)), "/c/t.mp4");
    assert_eq!((p.remove, p.transcode, p.result.as_str(), p.append_suffix), (None, None, "/c/t.cache.mp4", false));
}

#[test]
fn packetizing_before_suffix() {
    assert!(bili::command::needs_ts("/c/a.cache.mp4"));
    assert!(!bili::command::needs_ts("/c/a.ts"));
    assert!(!bili::command::needs_ts("/"));
}

#[test]
fn upload_needs_name_or_title() {
    let mut args = UploadArgs { ep: episode("电视剧", "", 1, 1), upload: uploader() };
    assert_eq!(args.check_names(), Ok(()));
    args.ep.name = String::new();
    assert!(!args.ep.has_name_or_title());
    assert_eq!(args.check_names(), Err(CommandError::NameOrTitleMissing));
    args.ep.title = "t".to_string();
    assert_eq!(args.check_names(), Ok(()));
}
