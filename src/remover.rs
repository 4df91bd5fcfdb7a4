//! Removal of excluded ranges from a source: the keep-intervals are cut,
//! packetized and concatenated in order, and every intermediate is deleted.
use vstd::prelude::*;
use crate::interval::{keep_intervals, keep_segments, lemma_keep_intervals_nonempty};
use crate::paths::{extension_set, lemma_no_separator_concat, no_separator, with_extension};
use crate::text::{decimal, push_decimal};
use crate::toolchain::CutMode;

verus! {

/// One step of a removal, in the order in which it must run.
#[derive(Debug, Clone, PartialEq, Eq)]
pub enum Step {
    /// Cut `duration` seconds from `start` of `source` into `clip`.
    Cut { source: String, clip: String, start: u64, duration: u64, mode: CutMode },
    /// Convert `clip` into the transport stream `packets`.
    Packetize { clip: String, packets: String },
    /// Delete an intermediate file.
    Remove { path: String },
    /// Join `segments`, in order, into `destination`.
    Concat { segments: Vec<String>, destination: String },
}

/// A step with its texts as character sequences.
pub enum StepView {
    Cut { source: Seq<char>, clip: Seq<char>, start: nat, duration: nat, mode: CutMode },
    Packetize { clip: Seq<char>, packets: Seq<char> },
    Remove { path: Seq<char> },
    Concat { segments: Seq<Seq<char>>, destination: Seq<char> },
}

impl View for Step {
    type V = StepView;

    open spec fn view(&self) -> StepView {
        match self {
            Step::Cut { source, clip, start, duration, mode } => StepView::Cut {
                source: source@,
                clip: clip@,
                start: *start as nat,
                duration: *duration as nat,
                mode: *mode,
            },
            Step::Packetize { clip, packets } => StepView::Packetize { clip: clip@, packets: packets@ },
            Step::Remove { path } => StepView::Remove { path: path@ },
            Step::Concat { segments, destination } => StepView::Concat {
                segments: segments@.map_values(|s: String| s@),
                destination: destination@,
            },
        }
    }
}

/// The views of a list of steps.
pub open spec fn steps_view(s: Seq<Step>) -> Seq<StepView> {
    s.map_values(|x: Step| x@)
}

/// The clip that keep-interval `i` is cut into, beside `destination`.
pub open spec fn clip_name(destination: Seq<char>, i: nat) -> Seq<char> {
    extension_set(destination, decimal(i) + ".mp4"@)
}

/// The transport stream that clip `i` is packetized into.
pub open spec fn packet_name(destination: Seq<char>, i: nat) -> Seq<char> {
    extension_set(clip_name(destination, i), "ts"@)
}

/// Step `j` of the per-interval part of a removal: cut, packetize, then
/// delete the clip, for interval `j / 3`.
pub open spec fn segment_step(
    source: Seq<char>,
    destination: Seq<char>,
    keep: Seq<(u64, u64)>,
    mode: CutMode,
    j: int,
) -> StepView {
    let i = j / 3;
    if j % 3 == 0 {
        StepView::Cut {
            source,
            clip: clip_name(destination, i as nat),
            start: keep[i].0 as nat,
            duration: (keep[i].1 - keep[i].0) as nat,
            mode,
        }
    } else if j % 3 == 1 {
        StepView::Packetize {
            clip: clip_name(destination, i as nat),
            packets: packet_name(destination, i as nat),
        }
    } else {
        StepView::Remove { path: clip_name(destination, i as nat) }
    }
}

/// The packetized segments of the first `n` keep-intervals, in order.
pub open spec fn packet_names(destination: Seq<char>, n: nat) -> Seq<Seq<char>> {
    Seq::new(n, |i: int| packet_name(destination, i as nat))
}

/// The whole removal of `keep`'s complement: each keep-interval in ascending
/// order is cut, packetized and its clip deleted; the packetized segments are
/// joined in that order into `destination`; then each of them is deleted.
pub open spec fn removal_steps(
    source: Seq<char>,
    destination: Seq<char>,
    keep: Seq<(u64, u64)>,
    mode: CutMode,
) -> Seq<StepView> {
    Seq::new(3 * keep.len(), |j: int| segment_step(source, destination, keep, mode, j))
        + seq![StepView::Concat { segments: packet_names(destination, keep.len()), destination }]
        + Seq::new(keep.len(), |i: int| StepView::Remove { path: packet_name(destination, i as nat) })
}

/// Fast, keyframe-aligned cuts when `quick`, precise ones otherwise.
pub open spec fn cut_mode(quick: bool) -> CutMode {
    if quick {
        CutMode::Fast
    } else {
        CutMode::Precise
    }
}

/// In a removal, keep-interval `i` is cut into clip `i`, which is packetized
/// and then deleted; after all intervals, the packetized segments are joined
/// into the destination in interval order, and then every one of them is
/// deleted, so no intermediate file is left once the last step has run.
pub proof fn lemma_removal_cleans_up(
    source: Seq<char>,
    destination: Seq<char>,
    keep: Seq<(u64, u64)>,
    mode: CutMode,
)
    ensures
        ({
            let s = removal_steps(source, destination, keep, mode);
            let k = keep.len() as int;
            &&& s.len() == 4 * k + 1
            &&& s[3 * k] == StepView::Concat { segments: packet_names(destination, k as nat), destination }
            &&& forall|i: int| 0 <= i < k ==> {
                &&& s[3 * i] == (StepView::Cut {
                    source,
                    clip: clip_name(destination, i as nat),
                    start: keep[i].0 as nat,
                    duration: (keep[i].1 - keep[i].0) as nat,
                    mode,
                })
                &&& s[3 * i + 1] == (StepView::Packetize {
                    clip: clip_name(destination, i as nat),
                    packets: packet_name(destination, i as nat),
                })
                &&& s[3 * i + 2] == (StepView::Remove { path: clip_name(destination, i as nat) })
                &&& #[trigger] s[3 * k + 1 + i] == (StepView::Remove { path: packet_name(destination, i as nat) })
            }
        }),
{
    let s = removal_steps(source, destination, keep, mode);
    let k = keep.len() as int;
    assert forall|i: int| 0 <= i < k implies {
        &&& s[3 * i] == (StepView::Cut {
            source,
            clip: clip_name(destination, i as nat),
            start: keep[i].0 as nat,
            duration: (keep[i].1 - keep[i].0) as nat,
            mode,
        })
        &&& s[3 * i + 1] == (StepView::Packetize {
            clip: clip_name(destination, i as nat),
            packets: packet_name(destination, i as nat),
        })
        &&& s[3 * i + 2] == (StepView::Remove { path: clip_name(destination, i as nat) })
        &&& #[trigger] s[3 * k + 1 + i] == (StepView::Remove { path: packet_name(destination, i as nat) })
    } by {
        assert((3 * i) / 3 == i && (3 * i) % 3 == 0);
        assert((3 * i + 1) / 3 == i && (3 * i + 1) % 3 == 1);
        assert((3 * i + 2) / 3 == i && (3 * i + 2) % 3 == 2);
    }
}

/// Removes excluded ranges from one source file.
#[derive(Debug)]
pub struct Remover {
    pub path: String,
    pub segments: Vec<(u64, u64)>,
    pub with_quick: bool,
}

impl Remover {
    /// A remover of `segments` from `path`, cutting precisely.
    pub fn new(path: &str, segments: Vec<(u64, u64)>) -> (r: Self)
        ensures
            r.path@ == path@,
            r.segments@ == segments@,
            !r.with_quick,
    {
        Remover { path: path.to_owned(), segments, with_quick: false }
    }

    /// Chooses fast, keyframe-aligned cuts (`true`) or precise ones.
    pub fn with_quick(&mut self, f: bool) -> (r: &mut Self)
        ensures
            r.path == old(self).path,
            r.segments == old(self).segments,
            r.with_quick == f,
            *final(self) == *final(r),
    {
        self.with_quick = f;
        self
    }

    /// The cut mode this remover uses.
    pub fn mode(&self) -> (r: CutMode)
        ensures
            r == cut_mode(self.with_quick),
    {
        if self.with_quick {
            CutMode::Fast
        } else {
            CutMode::Precise
        }
    }

    /// The keep-intervals of a source of `video_length` seconds once
    /// `segments` (ascending and disjoint) are removed.
    pub fn remove_segments(video_length: u64, segments: Vec<(u64, u64)>) -> (r: Vec<(u64, u64)>)
        ensures
            r@ == keep_intervals(video_length, segments@),
    {
        keep_segments(video_length, &segments)
    }

    /// The steps that remove this remover's segments from a source of
    /// `total` seconds and write the rest to `destination`.
    pub fn plan(&self, destination: &str, total: u64) -> (r: Vec<Step>)
        ensures
            steps_view(r@) == removal_steps(
                self.path@,
                destination@,
                keep_intervals(total, self.segments@),
                cut_mode(self.with_quick),
            ),
    {
        let keep = keep_segments(total, &self.segments);
        let mode = self.mode();
        proof {
            lemma_keep_intervals_nonempty(total, self.segments@);
        }
        let ghost source = self.path@;
        let ghost dest = destination@;
        let mut steps: Vec<Step> = Vec::new();
        let mut packets: Vec<String> = Vec::new();
        let mut i: usize = 0;
        while i < keep.len()
            invariant
                i <= keep.len(),
                keep@ == keep_intervals(total, self.segments@),
                forall|k: int| 0 <= k < keep.len() ==> keep@[k].0 < keep@[k].1,
                source == self.path@,
                dest == destination@,
                steps_view(steps@) == Seq::new(3 * i as nat, |j: int| segment_step(source, dest, keep@, mode, j)),
                packets@.map_values(|s: String| s@) == packet_names(dest, i as nat),
            decreases keep.len() - i,
        {
            let (start, end) = keep[i];
            let mut ext = String::new();
            push_decimal(&mut ext, i as u64);
            ext.append(".mp4");
            proof {
                crate::text::lemma_decimal_no_separator(i as nat);
                reveal_strlit(".mp4");
                assert(no_separator(".mp4"@));
                lemma_no_separator_concat(decimal(i as nat), ".mp4"@);
                reveal_strlit("ts");
                assert(no_separator("ts"@));
            }
            let clip = with_extension(destination, ext.as_str());
            let packet = with_extension(clip.as_str(), "ts");
            proof {
                reveal_strlit(".mp4");
                assert((i as u64) as nat == i as nat);
                assert(ext@ =~= decimal(i as nat) + ".mp4"@);
                assert(clip@ == clip_name(dest, i as nat));
                assert(packet@ == packet_name(dest, i as nat));
            }
            let ghost before = steps@;
            let ghost old_packets = packets@;
            assert(packets@.len() == i) by {
                assert(packets@.map_values(|s: String| s@).len() == packets@.len());
            }
            assert(before.len() == 3 * i) by {
                assert(steps_view(before).len() == before.len());
                assert(Seq::new(3 * i as nat, |j: int| segment_step(source, dest, keep@, mode, j)).len() == 3 * i);
            }
            steps.push(Step::Cut {
                source: self.path.clone(),
                clip: clip.clone(),
                start,
                duration: end - start,
                mode,
            });
            steps.push(Step::Packetize { clip: clip.clone(), packets: packet.clone() });
            steps.push(Step::Remove { path: clip });
            packets.push(packet);
            proof {
                let want = Seq::new(3 * (i + 1) as nat, |j: int| segment_step(source, dest, keep@, mode, j));
                let b = 3 * i as int;
                assert(steps@.len() == b + 3);
                assert(b / 3 == i && b % 3 == 0);
                assert((b + 1) / 3 == i && (b + 1) % 3 == 1);
                assert((b + 2) / 3 == i && (b + 2) % 3 == 2);
                assert(segment_step(source, dest, keep@, mode, b) == steps@[b]@);
                assert(segment_step(source, dest, keep@, mode, b + 1) == steps@[b + 1]@);
                assert(segment_step(source, dest, keep@, mode, b + 2) == steps@[b + 2]@);
                assert forall|j: int| 0 <= j < 3 * i implies steps_view(steps@)[j] == want[j] by {
                    assert(steps@[j] == before[j]);
                    assert(steps_view(before)[j] == before[j]@);
                }
                assert forall|n: int| 0 <= n < i implies packets@[n] == old_packets[n] by {}
                assert forall|n: int| 0 <= n < i implies #[trigger] old_packets[n]@ == packet_name(dest, n as nat) by {
                    assert(old_packets.map_values(|s: String| s@)[n] == old_packets[n]@);
                }
                assert(steps_view(steps@) =~= want);
                assert(packets@.map_values(|s: String| s@) =~= packet_names(dest, (i + 1) as nat));
            }
            i = i + 1;
        }
        let mut removals: Vec<Step> = Vec::new();
        let mut k: usize = 0;
        while k < packets.len()
            invariant
                k <= packets.len(),
                packets@.map_values(|s: String| s@) == packet_names(dest, keep.len() as nat),
                steps_view(removals@) == Seq::new(k as nat, |n: int| StepView::Remove { path: packet_name(dest, n as nat) }),
            decreases packets.len() - k,
        {
            assert(packets@[k as int]@ == packet_name(dest, k as nat)) by {
                assert(packets@.map_values(|s: String| s@).len() == packets@.len());
                assert(packet_names(dest, keep.len() as nat)[k as int] == packet_name(dest, k as nat));
                assert(packets@.map_values(|s: String| s@)[k as int] == packets@[k as int]@);
            }
            assert(removals@.len() == k) by {
                assert(steps_view(removals@).len() == removals@.len());
            }
            let ghost before = removals@;
            removals.push(Step::Remove { path: packets[k].clone() });
            proof {
                assert(packets@.map_values(|s: String| s@)[k as int] == packets@[k as int]@);
                assert(removals@[k as int]@ == StepView::Remove { path: packet_name(dest, k as nat) });
                assert forall|n: int| 0 <= n < k implies removals@[n] == before[n] by {}
                assert forall|n: int| 0 <= n < k implies #[trigger] before[n]@ == StepView::Remove { path: packet_name(dest, n as nat) } by {
                    assert(steps_view(before)[n] == before[n]@);
                }
                assert(steps_view(removals@) =~= Seq::new((k + 1) as nat, |n: int| StepView::Remove { path: packet_name(dest, n as nat) }));
            }
            k = k + 1;
        }
        let ghost body = steps@;
        steps.push(Step::Concat { segments: packets, destination: destination.to_owned() });
        let ghost joined = steps@;
        let ghost tail = removals@;
        steps.append(&mut removals);
        proof {
            assert(steps_view(joined) =~= steps_view(body) + seq![joined.last()@]);
            assert(steps_view(steps@) =~= steps_view(joined) + steps_view(tail));
            assert(steps_view(steps@) =~= removal_steps(self.path@, destination@, keep@, mode));
        }
        steps
    }
}

} // verus!
