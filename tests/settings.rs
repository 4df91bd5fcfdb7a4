use bili::settings::{App, Part, Settings, Up};

fn sample() -> Settings {
    Settings {
        app: App { media_dir: "/media".to_string() },
        part: Part { home: "/parts".to_string(), names: vec!["longmen".to_string()] },
        up: vec![
            Up { mid: 11, name: "a".to_string(), default: false },
            Up { mid: 22, name: "b".to_string(), default: true },
            Up { mid: 33, name: "c".to_string(), default: true },
        ],
    }
}

#[test]
fn test_new() {
    let s = sample();
    assert_eq!(s.get_default_up().map(|u| u.mid), Some(22));
    assert_eq!(s.get_up(Some(33)).map(|u| u.name.as_str()), Some("c"));
    assert_eq!(s.get_up(Some(44)).map(|u| u.mid), None);
    assert_eq!(s.get_up(None).map(|u| u.mid), Some(22));
}

#[test]
fn settings_paths_under_home() {
    assert_eq!(Settings::cache("/h"), "/h/cache");
    assert_eq!(Settings::cookie("/h"), "/h/cookie");
    assert_eq!(Settings::media("/h/"), "/h/media");
    assert_eq!(Settings::part("/h"), "/h/part.json");
    let s = sample();
    assert_eq!(s.up[0].get_cookie_path("/h"), "/h/cookie/11.json");
    assert_eq!(s.part.get_path("longmen", "7"), "/parts/longmen/7.ts");
    assert_eq!(s.part.home(), "/parts");
}

#[test]
fn no_default_up() {
    let s = Settings {
        app: App { media_dir: String::new() },
        part: Part { home: String::new(), names: vec![] },
        up: vec![Up { mid: 1, name: "x".to_string(), default: false }],
    };
    assert!(s.get_default_up().is_none());
}
