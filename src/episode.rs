//! An episode as the commands name it, and its titles and paths.
use vstd::prelude::*;
use crate::media::MediaSettings;
use crate::paths::{file_name, file_name_of, join, joined};
use crate::text::{decimal, has_prefix, is_text_less, padded, push_decimal, push_padded, same_text, starts_with, text_less};

verus! {

/// The kind of title that is a drama series.
pub open spec fn drama_kind() -> Seq<char> {
    "电视剧"@
}

/// The kind of title that is a film.
pub open spec fn film_kind() -> Seq<char> {
    "电影"@
}

/// One episode of one title.
#[derive(Debug, Clone)]
pub struct EpisodeArgs {
    pub type_: String,
    pub name: String,
    pub title: String,
    pub episode_title: String,
    pub season: u16,
    pub episode: u16,
}

/// `<title>S<season:02>E<episode:02>` for a drama, else
/// `<episode title>.<season:04>.<episode:05>`.
pub open spec fn full_title(ep: EpisodeArgs) -> Seq<char> {
    if ep.type_@ == drama_kind() {
        ep.title@ + "S"@ + padded(ep.season as nat, 2) + "E"@ + padded(ep.episode as nat, 2)
    } else {
        ep.episode_title@ + "."@ + padded(ep.season as nat, 4) + "."@ + padded(ep.episode as nat, 5)
    }
}

/// The file name of an episode inside its season directory.
pub open spec fn episode_file(season: u16, episode: u16) -> Seq<char> {
    "S"@ + padded(season as nat, 2) + "E"@ + padded(episode as nat, 2) + ".mp4"@
}

impl EpisodeArgs {
    /// An episode with no episode title; an absent short name is empty.
    pub fn new(type_: String, name: Option<String>, title: String, season: u16, episode: u16) -> (r: Self)
        ensures
            r.type_ == type_,
            r.name@ == match name {
                Some(n) => n@,
                None => Seq::<char>::empty(),
            },
            r.title == title,
            r.season == season,
            r.episode == episode,
            r.episode_title@ == Seq::<char>::empty(),
    {
        let n = match name {
            Some(n) => n,
            None => String::new(),
        };
        EpisodeArgs { type_, name: n, title, season, episode, episode_title: String::new() }
    }

    /// The title's short name: the one given, else what a lookup by title
    /// found (`by_title`).
    pub fn get_name(&self, by_title: Option<String>) -> (r: Option<String>)
        ensures
            self.name@.len() == 0 ==> r == by_title,
            self.name@.len() > 0 ==> r == Some(self.name),
    {
        if self.name.unicode_len() == 0 {
            by_title
        } else {
            Some(self.name.clone())
        }
    }

    /// Whether a short name or a title is given, one of which is needed to
    /// find the title's settings.
    pub fn has_name_or_title(&self) -> (r: bool)
        ensures
            r == (self.name@.len() > 0 || self.title@.len() > 0),
    {
        self.name.unicode_len() > 0 || self.title.unicode_len() > 0
    }

    /// Whether the title is a drama series.
    pub fn is_drama(&self) -> (r: bool)
        ensures
            r == (self.type_@ == drama_kind()),
    {
        same_text(self.type_.as_str(), "电视剧")
    }

    /// The episode's full title, see [`full_title`].
    pub fn get_full_title(&self) -> (r: String)
        ensures
            r@ == full_title(*self),
    {
        let mut out = String::new();
        if self.is_drama() {
            out.append(self.title.as_str());
            out.append("S");
            push_padded(&mut out, self.season as u64, 2);
            out.append("E");
            push_padded(&mut out, self.episode as u64, 2);
            proof {
                reveal_strlit("S");
                reveal_strlit("E");
                assert(out@ =~= full_title(*self));
            }
        } else {
            out.append(self.episode_title.as_str());
            out.append(".");
            push_padded(&mut out, self.season as u64, 4);
            out.append(".");
            push_padded(&mut out, self.episode as u64, 5);
            proof {
                reveal_strlit(".");
                assert(out@ =~= full_title(*self));
            }
        }
        out
    }

    /// Where the episode is stored:
    /// `<media dir>/<kind>/<title>/<title><season>/S<ss>E<ee>.mp4`.
    pub fn get_path(&self, media_dir: &str, media_title: &str) -> (r: String)
        ensures
            r@ == joined(
                joined(joined(joined(media_dir@, self.type_@), media_title@), media_title@ + decimal(self.season as nat)),
                episode_file(self.season, self.episode),
            ),
    {
        let kind = join(media_dir, self.type_.as_str());
        let titled = join(kind.as_str(), media_title);
        let mut season_dir = media_title.to_owned();
        push_decimal(&mut season_dir, self.season as u64);
        let dir = join(titled.as_str(), season_dir.as_str());
        let mut file = String::new();
        file.append("S");
        push_padded(&mut file, self.season as u64, 2);
        file.append("E");
        push_padded(&mut file, self.episode as u64, 2);
        file.append(".mp4");
        proof {
            reveal_strlit("S");
            reveal_strlit("E");
            reveal_strlit(".mp4");
            assert(file@ =~= episode_file(self.season, self.episode));
        }
        join(dir.as_str(), file.as_str())
    }

    /// The cache directory of this episode made at `timestamp`:
    /// `<cache root>/<full title>-<timestamp>`.
    pub fn cache_dir(&self, cache_root: &str, timestamp: u64) -> (r: String)
        ensures
            r@ == joined(cache_root@, full_title(*self) + "-"@ + decimal(timestamp as nat)),
    {
        let name = self.get_full_title();
        cache_dir_path(cache_root, name.as_str(), timestamp)
    }

    /// Completes the episode from its title's settings: the title if none is
    /// given, and a season number past 1000 marks a film.
    pub fn fill_from_media(&mut self, media: &MediaSettings)
        ensures
            final(self).title == (if old(self).title@.len() == 0 { media.title } else { old(self).title }),
            final(self).type_@ == (if old(self).season > 1000 { film_kind() } else { old(self).type_@ }),
            final(self).name == old(self).name,
            final(self).episode_title == old(self).episode_title,
            final(self).season == old(self).season,
            final(self).episode == old(self).episode,
    {
        if self.title.unicode_len() == 0 {
            self.title = media.title.clone();
        }
        if self.season > 1000 {
            self.type_ = String::from_str("电影");
        }
    }
}

/// The directory `<root>/<name>-<timestamp>`, where the cache of `name` made
/// at `timestamp` lives.
pub fn cache_dir_path(root: &str, name: &str, timestamp: u64) -> (r: String)
    ensures
        r@ == joined(root@, name@ + "-"@ + decimal(timestamp as nat)),
{
    let mut dir = name.to_owned();
    dir.append("-");
    push_decimal(&mut dir, timestamp);
    proof {
        reveal_strlit("-");
    }
    join(root, dir.as_str())
}

/// Path `p` has a file name that starts with `prefix`.
pub open spec fn named_with_prefix(p: Seq<char>, prefix: Seq<char>) -> bool {
    file_name_of(p) matches Some(n) && starts_with(n, prefix)
}

impl EpisodeArgs {
    /// The newest of an episode's cache directories among `dirs`: of those
    /// whose file name starts with the full title, the last in text order.
    pub fn newest_cache_dir(&self, dirs: &Vec<String>) -> (r: Option<String>)
        ensures
            match r {
                Some(d) => exists|i: int| 0 <= i < dirs@.len() && #[trigger] dirs@[i] == d
                    && named_with_prefix(d@, full_title(*self))
                    && forall|j: int| 0 <= j < dirs@.len() && named_with_prefix(#[trigger] dirs@[j]@, full_title(*self))
                        ==> !text_less(d@, dirs@[j]@),
                None => forall|j: int| 0 <= j < dirs@.len() ==> !named_with_prefix(#[trigger] dirs@[j]@, full_title(*self)),
            },
    {
        let name = self.get_full_title();
        let mut best: Option<usize> = None;
        let mut i: usize = 0;
        while i < dirs.len()
            invariant
                i <= dirs@.len(),
                name@ == full_title(*self),
                match best {
                    Some(b) => b < i && named_with_prefix(dirs@[b as int]@, name@)
                        && forall|j: int| 0 <= j < i && named_with_prefix(#[trigger] dirs@[j]@, name@)
                            ==> !text_less(dirs@[b as int]@, dirs@[j]@),
                    None => forall|j: int| 0 <= j < i ==> !named_with_prefix(#[trigger] dirs@[j]@, name@),
                },
            decreases dirs.len() - i,
        {
            let matches = match file_name(dirs[i].as_str()) {
                Some(n) => has_prefix(n.as_str(), name.as_str()),
                None => false,
            };
            if matches {
                match best {
                    Some(b) => {
                        if is_text_less(dirs[b].as_str(), dirs[i].as_str()) {
                            proof {
                                assert forall|j: int| 0 <= j <= i && named_with_prefix(#[trigger] dirs@[j]@, name@)
                                    implies !text_less(dirs@[i as int]@, dirs@[j]@) by {
                                    if j < i {
                                        lemma_text_less_trans_neg(dirs@[b as int]@, dirs@[i as int]@, dirs@[j]@);
                                    } else {
                                        lemma_text_less_irreflexive(dirs@[i as int]@);
                                    }
                                }
                            }
                            best = Some(i);
                        } else {
                            proof {
                                lemma_text_less_total(dirs@[b as int]@, dirs@[i as int]@);
                            }
                        }
                    },
                    None => {
                        proof {
                            lemma_text_less_irreflexive(dirs@[i as int]@);
                        }
                        best = Some(i);
                    },
                }
            }
            i = i + 1;
        }
        match best {
            Some(b) => Some(dirs[b].clone()),
            None => None,
        }
    }
}

proof fn lemma_text_less_irreflexive(a: Seq<char>)
    ensures
        !text_less(a, a),
    decreases a.len(),
{
    if a.len() > 0 {
        lemma_text_less_irreflexive(a.drop_first());
    }
}

/// Text order is total: of two texts that differ, one sorts before the
/// other; and no two texts sort before each other.
proof fn lemma_text_less_total(a: Seq<char>, b: Seq<char>)
    ensures
        !text_less(a, b) ==> (a == b || text_less(b, a)),
        text_less(a, b) ==> !text_less(b, a),
    decreases a.len(),
{
    if a.len() > 0 && b.len() > 0 && a[0] == b[0] {
        lemma_text_less_total(a.drop_first(), b.drop_first());
        if a.drop_first() == b.drop_first() {
            assert(a =~= seq![a[0]] + a.drop_first());
            assert(b =~= seq![b[0]] + b.drop_first());
        }
    } else if a.len() == 0 && b.len() == 0 {
        assert(a =~= b);
    } else if a.len() > 0 && b.len() > 0 {
        assert((a[0] as int) != (b[0] as int));
    }
}

/// Text order is transitive, in the form the newest-first search needs:
/// `a < b` and `!(a < c)` give `!(b < c)`.
proof fn lemma_text_less_trans_neg(a: Seq<char>, b: Seq<char>, c: Seq<char>)
    requires
        text_less(a, b),
        !text_less(a, c),
    ensures
        !text_less(b, c),
    decreases a.len(),
{
    if a.len() > 0 && b.len() > 0 && c.len() > 0 && a[0] == b[0] && a[0] == c[0] {
        lemma_text_less_trans_neg(a.drop_first(), b.drop_first(), c.drop_first());
    }
}

} // verus!
