//! Fixed-count splitting of a source into parts of equal nominal duration.
use vstd::prelude::*;
use vstd::arithmetic::div_mod::{lemma_div_is_ordered, lemma_div_multiples_vanish};
use vstd::arithmetic::mul::lemma_mul_inequality;
use crate::paths::{extension_set, lemma_no_separator_concat, no_separator, with_extension};
use crate::remover::cut_mode;
use crate::text::{decimal, push_decimal};
use crate::toolchain::{args_view, cut_args, cut_command, CutMode};
use crate::video::VideoError;

verus! {

/// Where part `i` (from zero) of `n` starts, in milliseconds of a source of
/// `total` milliseconds: `i * total / n`, rounded down.
pub open spec fn part_start(total: nat, n: nat, i: nat) -> nat
    recommends
        n > 0,
{
    (i * total / n) as nat
}

/// The nominal duration of part `i` of `n`.
pub open spec fn part_length(total: nat, n: nat, i: nat) -> nat {
    (part_start(total, n, i + 1) - part_start(total, n, i)) as nat
}

/// The file that part `i` (from zero) is written to: the destination with
/// extension `P<i + 1>.mp4`.
pub open spec fn part_name(to: Seq<char>, i: nat) -> Seq<char> {
    extension_set(to, "P"@ + decimal(i + 1) + ".mp4"@)
}

/// One part of a split: its file, its span of the source, and the command
/// line that cuts it.
#[derive(Debug, Clone, PartialEq, Eq)]
pub struct SplitPart {
    pub path: String,
    pub start_ms: u64,
    pub duration_ms: u64,
    pub command: Vec<String>,
}

/// Each part's command cuts its span out of `from` into its file with
/// `mode`, at whole-second precision (the fractions are dropped).
pub open spec fn cuts_from(parts: Seq<SplitPart>, from: Seq<char>, mode: CutMode) -> bool {
    forall|i: int| #![trigger parts[i]] 0 <= i < parts.len() ==> args_view(parts[i].command@) == cut_args(
        from,
        parts[i].path@,
        (parts[i].start_ms / 1000) as nat,
        (parts[i].duration_ms / 1000) as nat,
        mode,
    )
}

/// The sum of the nominal durations of `parts`.
pub open spec fn durations_sum(parts: Seq<SplitPart>) -> nat
    decreases parts.len(),
{
    if parts.len() == 0 {
        0
    } else {
        durations_sum(parts.drop_last()) + parts.last().duration_ms as nat
    }
}

/// `parts` is the split of a source of `total` milliseconds into its `n`
/// equal parts, written beside `to`.
pub open spec fn is_split_of(parts: Seq<SplitPart>, to: Seq<char>, total: nat, n: nat) -> bool {
    &&& parts.len() == n
    &&& forall|i: int| #![trigger parts[i]] 0 <= i < n ==> {
        &&& parts[i].path@ == part_name(to, i as nat)
        &&& parts[i].start_ms == part_start(total, n, i as nat)
        &&& parts[i].duration_ms == part_length(total, n, i as nat)
    }
}

proof fn lemma_part_start_bounds(total: nat, n: nat, i: nat)
    requires
        n > 0,
        i < n,
    ensures
        part_start(total, n, i) <= part_start(total, n, i + 1) <= total,
{
    lemma_mul_inequality(i as int, (i + 1) as int, total as int);
    lemma_mul_inequality((i + 1) as int, n as int, total as int);
    lemma_div_is_ordered((i * total) as int, ((i + 1) * total) as int, n as int);
    lemma_div_is_ordered(((i + 1) * total) as int, (n * total) as int, n as int);
    lemma_div_multiples_vanish(total as int, n as int);
    assert(n * total == total * n) by (nonlinear_arith);
}

proof fn lemma_durations_telescope(parts: Seq<SplitPart>, to: Seq<char>, total: nat, n: nat, k: nat)
    requires
        n > 0,
        k <= n,
        is_split_of(parts, to, total, n),
    ensures
        durations_sum(parts.take(k as int)) == part_start(total, n, k),
    decreases k,
{
    if k == 0 {
        assert(parts.take(0) =~= Seq::<SplitPart>::empty());
    } else {
        lemma_durations_telescope(parts, to, total, n, (k - 1) as nat);
        assert(parts.take(k as int).drop_last() =~= parts.take(k - 1));
        assert(parts.take(k as int).last() == parts[k - 1]);
        lemma_part_start_bounds(total, n, (k - 1) as nat);
    }
}

/// The nominal durations of the parts of a split add up to the source's
/// duration.
pub proof fn lemma_split_durations_sum(parts: Seq<SplitPart>, to: Seq<char>, total: nat, n: nat)
    requires
        n > 0,
        is_split_of(parts, to, total, n),
    ensures
        durations_sum(parts) == total,
{
    lemma_durations_telescope(parts, to, total, n, n);
    assert(parts.take(n as int) =~= parts);
    lemma_div_multiples_vanish(total as int, n as int);
    assert(n * total == total * n) by (nonlinear_arith);
}

/// Splits one source into a fixed number of parts.
#[derive(Debug)]
pub struct Spliter {
    pub from: String,
    pub parts: usize,
    pub with_quick: bool,
}

impl Spliter {
    /// A splitter of `from` into four parts, cutting precisely.
    pub fn new(from: &str) -> (r: Self)
        ensures
            r.from@ == from@,
            r.parts == 4,
            !r.with_quick,
    {
        Spliter { from: from.to_owned(), parts: 4, with_quick: false }
    }

    /// Sets the number of parts.
    pub fn set_parts(&mut self, parts: usize) -> (r: &mut Self)
        ensures
            r.from == old(self).from,
            r.parts == parts,
            r.with_quick == old(self).with_quick,
            *final(self) == *final(r),
    {
        self.parts = parts;
        self
    }

    /// Chooses fast, keyframe-aligned cuts (`true`) or precise ones.
    pub fn with_quick(&mut self, f: bool) -> (r: &mut Self)
        ensures
            r.from == old(self).from,
            r.parts == old(self).parts,
            r.with_quick == f,
            *final(self) == *final(r),
    {
        self.with_quick = f;
        self
    }

    /// The cut mode this splitter uses.
    pub fn mode(&self) -> (r: CutMode)
        ensures
            r == cut_mode(self.with_quick),
    {
        if self.with_quick {
            CutMode::Fast
        } else {
            CutMode::Precise
        }
    }

    /// Refuses a split into zero parts; callers run this before probing the
    /// source, so such a split starts no external process.
    pub fn check_parts(&self) -> (r: Result<(), VideoError>)
        ensures
            self.parts == 0 ==> r == Err::<(), VideoError>(VideoError::NoParts),
            self.parts > 0 ==> r is Ok,
    {
        if self.parts == 0 {
            Err(VideoError::NoParts)
        } else {
            Ok(())
        }
    }

    /// The parts of a source of `total_ms` milliseconds, written beside `to`;
    /// a split into zero parts is refused.
    pub fn output(&self, to: &str, total_ms: u64) -> (r: Result<Vec<SplitPart>, VideoError>)
        ensures
            self.parts == 0 ==> r == Err::<Vec<SplitPart>, VideoError>(VideoError::NoParts),
            self.parts > 0 ==> r is Ok && is_split_of(r->Ok_0@, to@, total_ms as nat, self.parts as nat)
                && durations_sum(r->Ok_0@) == total_ms && cuts_from(r->Ok_0@, self.from@, cut_mode(self.with_quick)),
    {
        if let Err(e) = self.check_parts() {
            return Err(e);
        }
        let n = self.parts;
        let mode = self.mode();
        let ghost total = total_ms as nat;
        let mut out: Vec<SplitPart> = Vec::new();
        let mut i: usize = 0;
        while i < n
            invariant
                n == self.parts,
                n > 0,
                i <= n,
                total == total_ms as nat,
                out@.len() == i,
                forall|k: int| #![trigger out@[k]] 0 <= k < i ==> {
                    &&& out@[k].path@ == part_name(to@, k as nat)
                    &&& out@[k].start_ms == part_start(total, n as nat, k as nat)
                    &&& out@[k].duration_ms == part_length(total, n as nat, k as nat)
                },
                mode == cut_mode(self.with_quick),
                cuts_from(out@, self.from@, mode),
            decreases n - i,
        {
            proof {
                lemma_part_start_bounds(total, n as nat, i as nat);
                assert((i as u128) * (total_ms as u128) <= u64::MAX * u64::MAX) by (nonlinear_arith)
                    requires i < n, n <= u64::MAX, total_ms <= u64::MAX;
                assert(((i + 1) as u128) * (total_ms as u128) <= u64::MAX * u64::MAX) by (nonlinear_arith)
                    requires i < n, n <= u64::MAX, total_ms <= u64::MAX;
            }
            let start = ((i as u128) * (total_ms as u128) / (n as u128)) as u64;
            let end = (((i + 1) as u128) * (total_ms as u128) / (n as u128)) as u64;
            let mut ext = String::new();
            ext.append("P");
            push_decimal(&mut ext, (i + 1) as u64);
            ext.append(".mp4");
            proof {
                reveal_strlit("P");
                reveal_strlit(".mp4");
                assert(ext@ =~= "P"@ + decimal((i + 1) as nat) + ".mp4"@);
            }
            proof {
                crate::text::lemma_decimal_no_separator((i + 1) as nat);
                assert(no_separator("P"@));
                assert(no_separator(".mp4"@));
                lemma_no_separator_concat("P"@, decimal((i + 1) as nat));
                lemma_no_separator_concat("P"@ + decimal((i + 1) as nat), ".mp4"@);
            }
            let path = with_extension(to, ext.as_str());
            let command = cut_command(self.from.as_str(), path.as_str(), start / 1000, (end - start) / 1000, mode);
            let ghost before = out@;
            out.push(SplitPart { path, start_ms: start, duration_ms: end - start, command });
            assert forall|k: int| 0 <= k < i implies out@[k] == before[k] by {}
            i = i + 1;
        }
        proof {
            lemma_split_durations_sum(out@, to@, total, n as nat);
        }
        Ok(out)
    }
}

/// Splits `from` into `parts` parts written beside `to`, for a source of
/// `total_ms` milliseconds, with precise cuts.
pub fn split(from: &str, to: &str, parts: usize, total_ms: u64) -> (r: Result<Vec<SplitPart>, VideoError>)
    ensures
        parts == 0 ==> r == Err::<Vec<SplitPart>, VideoError>(VideoError::NoParts),
        parts > 0 ==> r is Ok && is_split_of(r->Ok_0@, to@, total_ms as nat, parts as nat)
            && durations_sum(r->Ok_0@) == total_ms && cuts_from(r->Ok_0@, from@, CutMode::Precise),
{
    let mut s = Spliter::new(from);
    s.set_parts(parts).output(to, total_ms)
}

} // verus!
