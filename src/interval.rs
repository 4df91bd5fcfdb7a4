//! Keep-intervals: the complement of a list of excluded `[start, end)` ranges
//! of whole seconds within a source's length.
use vstd::prelude::*;

verus! {

/// State after walking the first `n` excluded ranges: the keep-intervals
/// emitted so far, and the end of the last excluded range (`0` initially).
pub open spec fn scan(exclude: Seq<(u64, u64)>, n: nat) -> (Seq<(u64, u64)>, u64)
    recommends
        n <= exclude.len(),
    decreases n,
{
    if n == 0 {
        (Seq::empty(), 0)
    } else {
        let (kept, last_end) = scan(exclude, (n - 1) as nat);
        let (start, end) = exclude[n - 1];
        (if start > last_end { kept.push((last_end, start)) } else { kept }, end)
    }
}

/// Keep-intervals of a source of `total` seconds once `exclude` is removed: a
/// gap before each excluded range that starts past the previous range's end,
/// then the tail from the last end to `total` if it is not empty.
pub open spec fn keep_intervals(total: u64, exclude: Seq<(u64, u64)>) -> Seq<(u64, u64)> {
    let (kept, last_end) = scan(exclude, exclude.len());
    if last_end < total {
        kept.push((last_end, total))
    } else {
        kept
    }
}

/// Point `t` lies in one of the half-open ranges of `s`.
pub open spec fn covers(s: Seq<(u64, u64)>, t: int) -> bool {
    exists|k: int| 0 <= k < s.len() && #[trigger] s[k].0 <= t < s[k].1
}

/// Ranges that are each well formed, in ascending order and pairwise disjoint.
pub open spec fn sorted_disjoint(s: Seq<(u64, u64)>) -> bool {
    &&& forall|i: int| 0 <= i < s.len() ==> s[i].0 <= s[i].1
    &&& forall|i: int, j: int| 0 <= i < j < s.len() ==> s[i].1 <= s[j].0
}

/// Ranges that are each non-empty, in ascending order and pairwise disjoint.
pub open spec fn strictly_sorted(s: Seq<(u64, u64)>) -> bool {
    &&& forall|i: int| 0 <= i < s.len() ==> s[i].0 < s[i].1
    &&& forall|i: int, j: int| 0 <= i < j < s.len() ==> s[i].1 <= s[j].0
}

proof fn lemma_covers_push(s: Seq<(u64, u64)>, x: (u64, u64), t: int)
    ensures
        covers(s.push(x), t) <==> (covers(s, t) || (x.0 <= t < x.1)),
{
    if covers(s, t) {
        let k = choose|k: int| 0 <= k < s.len() && #[trigger] s[k].0 <= t < s[k].1;
        assert(s.push(x)[k] == s[k]);
    }
    if x.0 <= t < x.1 {
        assert(s.push(x)[s.len() as int] == x);
    }
    if covers(s.push(x), t) {
        let k = choose|k: int| 0 <= k < s.push(x).len() && #[trigger] s.push(x)[k].0 <= t < s.push(x)[k].1;
        if k < s.len() {
            assert(s[k] == s.push(x)[k]);
        }
    }
}

proof fn lemma_scan(total: u64, exclude: Seq<(u64, u64)>, n: nat)
    requires
        sorted_disjoint(exclude),
        n <= exclude.len(),
    ensures
        ({
            let (kept, last_end) = scan(exclude, n);
            &&& n > 0 ==> last_end == exclude[n - 1].1
            &&& n == 0 ==> last_end == 0
            &&& strictly_sorted(kept)
            &&& forall|i: int| 0 <= i < kept.len() ==> kept[i].1 <= last_end
            &&& forall|t: int|
                (0 <= t < last_end) <==> (covers(kept, t) || covers(exclude.take(n as int), t))
            &&& forall|t: int| !(covers(kept, t) && covers(exclude.take(n as int), t))
        }),
    decreases n,
{
    if n == 0 {
        assert(exclude.take(0) =~= Seq::<(u64, u64)>::empty());
    } else {
        lemma_scan(total, exclude, (n - 1) as nat);
        let (kept, last_end) = scan(exclude, (n - 1) as nat);
        let (start, end) = exclude[n - 1];
        let prev = exclude.take(n - 1);
        assert(exclude.take(n as int) =~= prev.push((start, end)));
        assert(last_end <= start) by {
            if n > 1 {
                assert(exclude[n - 2].1 <= exclude[n - 1].0);
            }
        }
        assert forall|t: int| covers(prev, t) implies t < last_end by {
            let k = choose|k: int| 0 <= k < prev.len() && #[trigger] prev[k].0 <= t < prev[k].1;
            assert(prev[k] == exclude[k]);
            if k < n - 2 {
                assert(exclude[k].1 <= exclude[n - 2].0);
            }
        }
        let new_kept = if start > last_end { kept.push((last_end, start)) } else { kept };
        assert forall|t: int|
            covers(new_kept, t) <==> (covers(kept, t) || (start > last_end && last_end <= t < start)) by {
            if start > last_end {
                lemma_covers_push(kept, (last_end, start), t);
            }
        }
        assert forall|t: int| covers(exclude.take(n as int), t) <==> (covers(prev, t) || (start <= t < end)) by {
            lemma_covers_push(prev, (start, end), t);
        }
        assert forall|t: int| covers(kept, t) implies t < last_end by {
            let k = choose|k: int| 0 <= k < kept.len() && #[trigger] kept[k].0 <= t < kept[k].1;
        }
        if start > last_end {
            assert forall|i: int, j: int| 0 <= i < j < new_kept.len() implies new_kept[i].1 <= new_kept[j].0 by {
                if j == kept.len() {
                    assert(new_kept[i] == kept[i]);
                } else {
                    assert(new_kept[i] == kept[i] && new_kept[j] == kept[j]);
                }
            }
            assert forall|i: int| 0 <= i < new_kept.len() implies new_kept[i].0 < new_kept[i].1 by {
                if i < kept.len() {
                    assert(new_kept[i] == kept[i]);
                }
            }
        }
        assert forall|i: int| 0 <= i < new_kept.len() implies new_kept[i].1 <= end by {
            if i < kept.len() {
                assert(new_kept[i] == kept[i]);
            }
        }
    }
}

/// The keep-intervals of any sorted, disjoint exclusion list inside
/// `[0, total)` partition the source with it: together they cover exactly
/// `[0, total)`, no second is in both, and the keep-intervals are non-empty,
/// ascending and pairwise disjoint.
pub proof fn lemma_keep_intervals_partition(total: u64, exclude: Seq<(u64, u64)>)
    requires
        sorted_disjoint(exclude),
        forall|i: int| 0 <= i < exclude.len() ==> exclude[i].1 <= total,
    ensures
        forall|t: int|
            #![trigger covers(keep_intervals(total, exclude), t)]
            #![trigger covers(exclude, t)]
            (0 <= t < total) <==> (covers(keep_intervals(total, exclude), t) || covers(exclude, t)),
        forall|t: int|
            #![trigger covers(keep_intervals(total, exclude), t)]
            #![trigger covers(exclude, t)]
            !(covers(keep_intervals(total, exclude), t) && covers(exclude, t)),
        strictly_sorted(keep_intervals(total, exclude)),
{
    let n = exclude.len();
    lemma_scan(total, exclude, n);
    assert(exclude.take(n as int) =~= exclude);
    let (kept, last_end) = scan(exclude, n);
    assert(last_end <= total);
    assert forall|t: int| covers(exclude, t) implies t < last_end by {
        let k = choose|k: int| 0 <= k < exclude.len() && #[trigger] exclude[k].0 <= t < exclude[k].1;
        if k < n - 1 {
            assert(exclude[k].1 <= exclude[n - 1].0);
        }
    }
    if last_end < total {
        let keep = kept.push((last_end, total));
        assert forall|t: int| covers(keep, t) <==> (covers(kept, t) || (last_end <= t < total)) by {
            lemma_covers_push(kept, (last_end, total), t);
        }
        assert forall|i: int, j: int| 0 <= i < j < keep.len() implies keep[i].1 <= keep[j].0 by {
            assert(keep[i] == kept[i]);
            if j < kept.len() {
                assert(keep[j] == kept[j]);
            }
        }
        assert forall|i: int| 0 <= i < keep.len() implies keep[i].0 < keep[i].1 by {
            if i < kept.len() {
                assert(keep[i] == kept[i]);
            }
        }
    }
}

/// Computes the keep-intervals of a source of `total` seconds once the
/// `exclude` ranges (expected ascending and disjoint) are taken out.
pub fn keep_segments(total: u64, exclude: &Vec<(u64, u64)>) -> (r: Vec<(u64, u64)>)
    ensures
        r@ == keep_intervals(total, exclude@),
{
    let mut kept: Vec<(u64, u64)> = Vec::new();
    let mut last_end: u64 = 0;
    let mut i: usize = 0;
    while i < exclude.len()
        invariant
            i <= exclude.len(),
            (kept@, last_end) == scan(exclude@, i as nat),
        decreases exclude.len() - i,
    {
        let (start, end) = exclude[i];
        if start > last_end {
            kept.push((last_end, start));
        }
        last_end = end;
        i = i + 1;
    }
    if last_end < total {
        kept.push((last_end, total));
    }
    kept
}

} // verus!

verus! {

/// Every keep-interval is non-empty, whatever the exclusion list.
pub proof fn lemma_keep_intervals_nonempty(total: u64, exclude: Seq<(u64, u64)>)
    ensures
        forall|i: int| 0 <= i < keep_intervals(total, exclude).len()
            ==> keep_intervals(total, exclude)[i].0 < keep_intervals(total, exclude)[i].1,
{
    lemma_scan_nonempty(exclude, exclude.len());
}

proof fn lemma_scan_nonempty(exclude: Seq<(u64, u64)>, n: nat)
    requires
        n <= exclude.len(),
    ensures
        forall|i: int| 0 <= i < scan(exclude, n).0.len() ==> scan(exclude, n).0[i].0 < scan(exclude, n).0[i].1,
    decreases n,
{
    if n > 0 {
        lemma_scan_nonempty(exclude, (n - 1) as nat);
        let (kept, last_end) = scan(exclude, (n - 1) as nat);
        let (start, end) = exclude[n - 1];
        if start > last_end {
            let pushed = kept.push((last_end, start));
            assert forall|i: int| 0 <= i < pushed.len() implies pushed[i].0 < pushed[i].1 by {
                if i < kept.len() {
                    assert(pushed[i] == kept[i]);
                }
            }
        }
    }
}

} // verus!

verus! {

/// With nothing excluded, the one keep-interval is the whole source.
pub proof fn lemma_nothing_excluded(total: u64)
    requires
        total > 0,
    ensures
        keep_intervals(total, Seq::empty()) == seq![(0u64, total)],
{
    assert(keep_intervals(total, Seq::empty()) =~= seq![(0u64, total)]);
}

} // verus!
