use bili::spliter::{split, Spliter};
use bili::toolchain::CutMode;
use bili::video::VideoError;

#[test]
fn split_returns_n_parts_summing_to_total() {
    for n in 1..12usize {
        let parts = split("/v/src.mp4", "/v/out.mp4", n, 1_000_003).unwrap();
        assert_eq!(parts.len(), n);
        let total: u64 = parts.iter().map(|p| p.duration_ms).sum();
        assert_eq!(total, 1_000_003);
        for (i, p) in parts.iter().enumerate() {
            assert_eq!(p.path, format!("/v/out.P{}.mp4", i + 1));
            assert_eq!(p.command[0..2], ["ffmpeg", "-ss"]);
            assert_eq!(p.command[6], "/v/src.mp4");
        }
    }
}

#[test]
fn split_zero_parts_fails() {
    assert_eq!(split("a.mp4", "b.mp4", 0, 5000), Err(VideoError::NoParts));
}

#[test]
fn spliter_defaults_and_builders() {
    let mut s = Spliter::new("in.mp4");
    assert_eq!(s.parts, 4);
    assert_eq!(s.mode(), CutMode::Precise);
    s.set_parts(3).with_quick(true);
    assert_eq!(s.mode(), CutMode::Fast);
    let parts = s.output("out.mp4", 9000).unwrap();
    let starts: Vec<u64> = parts.iter().map(|p| p.start_ms).collect();
    assert_eq!(starts, vec![0, 3000, 6000]);
    let cmd = parts[1].command.clone();
    let second = format!("out.P{}.mp4", 2);
    assert_eq!(
        cmd,
        vec!["ffmpeg", "-i", "in.mp4", "-ss", "00:00:03", "-t", "00:00:03", "-c", "copy", second.as_str()]
    );
}
