use bili::remover::{Remover, Step};
use bili::toolchain::CutMode;

#[test]
fn remove_segments_drops_head_and_tail() {
    let parts = Remover::remove_segments(1000, vec![(0, 200), (800, 1100)]);
    assert_eq!(parts, vec![(200, 800)]);
}

#[test]
fn remove_segments_drops_head() {
    let parts = Remover::remove_segments(1000, vec![(0, 200)]);
    assert_eq!(parts, vec![(200, 1000)]);
}

#[test]
fn remove_segments_drops_tail_past_end() {
    let parts = Remover::remove_segments(1000, vec![(800, 1100)]);
    assert_eq!(parts, vec![(0, 800)]);
}

#[test]
fn remove_segments_keeps_three_gaps() {
    let parts = Remover::remove_segments(1000, vec![(15, 200), (800, 900)]);
    assert_eq!(parts, vec![(0, 15), (200, 800), (900, 1000)]);
}

#[test]
fn remove_segments_nothing_excluded() {
    for len in [1u64, 7, 1000, u64::MAX] {
        assert_eq!(Remover::remove_segments(len, vec![]), vec![(0, len)]);
    }
}

#[test]
fn remove_segments_touching_ranges_leave_no_empty_interval() {
    let parts = Remover::remove_segments(100, vec![(10, 20), (20, 30), (30, 100)]);
    assert_eq!(parts, vec![(0, 10)]);
}

#[test]
fn remove_segments_partition_on_sample() {
    let exclude = vec![(5, 10), (10, 12), (40, 60), (90, 100)];
    let keep = Remover::remove_segments(100, exclude.clone());
    for t in 0..100u64 {
        let in_keep = keep.iter().filter(|(s, e)| *s <= t && t < *e).count();
        let in_excl = exclude.iter().filter(|(s, e)| *s <= t && t < *e).count();
        assert_eq!(in_keep + in_excl, 1, "second {t}");
    }
    for w in keep.windows(2) {
        assert!(w[0].0 < w[0].1 && w[0].1 <= w[1].0);
    }
}

#[test]
fn remover_plan_cuts_packetizes_and_joins_in_order() {
    let mut r = Remover::new("/tmp/src.mp4", vec![(100, 150)]);
    r.with_quick(false);
    let steps = r.plan("/tmp/out/dest.mp4", 1000);
    let expected = vec![
        Step::Cut {
            source: "/tmp/src.mp4".to_string(),
            clip: "/tmp/out/dest.0.mp4".to_string(),
            start: 0,
            duration: 100,
            mode: CutMode::Precise,
        },
        Step::Packetize { clip: "/tmp/out/dest.0.mp4".to_string(), packets: "/tmp/out/dest.0.ts".to_string() },
        Step::Remove { path: "/tmp/out/dest.0.mp4".to_string() },
        Step::Cut {
            source: "/tmp/src.mp4".to_string(),
            clip: "/tmp/out/dest.1.mp4".to_string(),
            start: 150,
            duration: 850,
            mode: CutMode::Precise,
        },
        Step::Packetize { clip: "/tmp/out/dest.1.mp4".to_string(), packets: "/tmp/out/dest.1.ts".to_string() },
        Step::Remove { path: "/tmp/out/dest.1.mp4".to_string() },
        Step::Concat {
            segments: vec!["/tmp/out/dest.0.ts".to_string(), "/tmp/out/dest.1.ts".to_string()],
            destination: "/tmp/out/dest.mp4".to_string(),
        },
        Step::Remove { path: "/tmp/out/dest.0.ts".to_string() },
        Step::Remove { path: "/tmp/out/dest.1.ts".to_string() },
    ];
    assert_eq!(steps, expected);
}

#[test]
fn remover_plan_quick_mode_and_no_packets_left() {
    let mut r = Remover::new("a.mp4", vec![(0, 10), (20, 30)]);
    r.with_quick(true);
    assert_eq!(r.mode(), CutMode::Fast);
    let steps = r.plan("b.mp4", 40);
    let mut made: Vec<String> = Vec::new();
    let mut removed: Vec<String> = Vec::new();
    for s in &steps {
        match s {
            Step::Cut { mode, .. } => assert_eq!(*mode, CutMode::Fast),
            Step::Packetize { packets, .. } => made.push(packets.clone()),
            Step::Remove { path } => removed.push(path.clone()),
            Step::Concat { segments, .. } => assert_eq!(segments, &made),
        }
    }
    assert_eq!(made.len(), 2);
    for p in &made {
        assert!(removed.contains(p));
    }
}
