use bili::part::{get_rand_part_path, is_part_file, is_part_length, Part, PartError};
use bili::video::Video;

fn video(path: &str) -> Video {
    Video { width: 1920, height: 1080, size: 1, duration_ms: 1000, format: None, path: path.to_string() }
}

#[test]
fn random_part_comes_from_named_collection() {
    let parts = vec![
        Part::new("a".to_string(), vec![video("/a/1.ts")]),
        Part::new("b".to_string(), vec![video("/b/1.ts"), video("/b/2.ts")]),
    ];
    for _ in 0..20 {
        let p = get_rand_part_path(&parts, "b").unwrap();
        assert!(p == "/b/1.ts" || p == "/b/2.ts");
    }
    assert_eq!(get_rand_part_path(&parts, "a").unwrap(), "/a/1.ts");
    assert_eq!(get_rand_part_path(&parts, "z"), Err(PartError::NotFound("z".to_string())));
}

#[test]
fn part_videos_are_short_transport_streams() {
    assert!(is_part_file("x.ts"));
    assert!(!is_part_file("x.mp4"));
    assert!(!is_part_file("s"));
    assert!(is_part_length(180_000));
    assert!(!is_part_length(180_001));
}

#[test]
fn video_duration_in_seconds() {
    let mut v = video("/v");
    v.duration_ms = 3671_999;
    assert_eq!(v.duration_seconds(), 3671);
}
