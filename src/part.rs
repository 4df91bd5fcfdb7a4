//! The clip library: named collections of short clips that are appended to
//! made videos, one picked at random.
use vstd::prelude::*;
use crate::text::has_suffix;
use crate::video::Video;

verus! {

/// The longest clip, in milliseconds, that a collection takes in.
pub const PART_MAX_MS: u64 = 180000;

/// One named collection of clips.
#[derive(Debug)]
pub struct Part {
    pub name: String,
    pub videos: Vec<Video>,
}

/// Why no clip could be picked.
#[derive(Debug, PartialEq, Eq)]
pub enum PartError {
    /// No collection has the given name.
    NotFound(String),
}

impl Part {
    /// A collection named `name` holding `videos`.
    pub fn new(name: String, videos: Vec<Video>) -> (r: Self)
        ensures
            r.name == name,
            r.videos@ == videos@,
    {
        Part { name, videos }
    }
}

/// Whether a file may join a collection by its name: a transport stream,
/// named with the `ts` ending. Only such files are probed.
pub fn is_part_file(file_name: &str) -> (r: bool)
    ensures
        r == (file_name@.len() >= 2 && file_name@.subrange(file_name@.len() - 2, file_name@.len() as int) == "ts"@),
{
    proof {
        reveal_strlit("ts");
    }
    has_suffix(file_name, "ts")
}

/// Whether a probed clip is short enough for a collection: at most three
/// minutes.
pub fn is_part_length(duration_ms: u64) -> (r: bool)
    ensures
        r == (duration_ms <= PART_MAX_MS),
{
    duration_ms <= PART_MAX_MS
}

/// The first collection of `parts` named `name`.
pub open spec fn first_part(parts: Seq<Part>, name: Seq<char>) -> Option<int>
    decreases parts.len(),
{
    if parts.len() == 0 {
        None
    } else if parts.last().name@ == name {
        match first_part(parts.drop_last(), name) {
            Some(i) => Some(i),
            None => Some(parts.len() - 1),
        }
    } else {
        first_part(parts.drop_last(), name)
    }
}

proof fn lemma_first_part_in_range(parts: Seq<Part>, name: Seq<char>)
    ensures
        first_part(parts, name) matches Some(i) ==> 0 <= i < parts.len() && parts[i].name@ == name,
    decreases parts.len(),
{
    if parts.len() > 0 {
        lemma_first_part_in_range(parts.drop_last(), name);
    }
}

/// Relies on `rand::Rng::gen_range` over the thread-local generator: a number
/// in `0..n`, which it panics on only when empty.
#[verifier::external_body]
fn random_below(n: usize) -> (r: usize)
    requires
        n > 0,
    ensures
        r < n,
{
    rand::Rng::gen_range(&mut rand::thread_rng(), 0..n)
}

/// The path of a clip picked at random from the first collection named
/// `name`; a collection with no clip cannot be picked from.
pub fn get_rand_part_path(parts: &Vec<Part>, name: &str) -> (r: Result<String, PartError>)
    requires
        first_part(parts@, name@) matches Some(i) ==> parts@[i].videos@.len() > 0,
    ensures
        match first_part(parts@, name@) {
            Some(i) => r matches Ok(p) && exists|k: int|
                0 <= k < parts@[i].videos@.len() && p == #[trigger] parts@[i].videos@[k].path,
            None => r matches Err(PartError::NotFound(n)) && n@ == name@,
        },
{
    let mut i: usize = 0;
    let mut found: Option<usize> = None;
    while i < parts.len()
        invariant
            i <= parts@.len(),
            match first_part(parts@.take(i as int), name@) {
                Some(k) => found == Some(k as usize) && k < i,
                None => found is None,
            },
        decreases parts.len() - i,
    {
        assert(parts@.take(i + 1).drop_last() =~= parts@.take(i as int));
        proof {
            lemma_first_part_in_range(parts@.take(i as int), name@);
        }
        if found.is_none() && crate::text::same_text(parts[i].name.as_str(), name) {
            found = Some(i);
        }
        i = i + 1;
    }
    assert(parts@.take(i as int) =~= parts@);
    proof {
        lemma_first_part_in_range(parts@, name@);
    }
    match found {
        Some(k) => {
            let videos = &parts[k].videos;
            let pick = random_below(videos.len());
            let path = videos[pick].path.clone();
            assert(path == parts@[k as int].videos@[pick as int].path);
            Ok(path)
        },
        None => Err(PartError::NotFound(name.to_owned())),
    }
}

} // verus!
