//! Installation-wide settings: where media live, the clip library, and the
//! accounts that upload. The configuration home is handed in by the caller.
use vstd::prelude::*;
use crate::paths::{join, joined};
use crate::text::{decimal, push_decimal};

verus! {

/// The clip library: a home directory and the names of its collections.
#[derive(Debug)]
pub struct Part {
    pub home: String,
    pub names: Vec<String>,
}

impl Part {
    /// The library's home directory.
    pub fn home(&self) -> (r: String)
        ensures
            r@ == self.home@,
    {
        self.home.clone()
    }

    /// The clip `id` of collection `name`: `<home>/<name>/<id>.ts`.
    pub fn get_path(&self, name: &str, id: &str) -> (r: String)
        ensures
            r@ == joined(joined(self.home@, name@), id@ + ".ts"@),
    {
        let dir = join(self.home.as_str(), name);
        let mut file = id.to_owned();
        file.append(".ts");
        join(dir.as_str(), file.as_str())
    }
}

/// Application paths.
#[derive(Debug)]
pub struct App {
    pub media_dir: String,
}

/// An uploading account.
#[derive(Debug)]
pub struct Up {
    pub mid: u64,
    pub name: String,
    pub default: bool,
}

impl Up {
    /// The account's cookie file under configuration home `home`:
    /// `<home>/cookie/<mid>.json`.
    pub fn get_cookie_path(&self, home: &str) -> (r: String)
        ensures
            r@ == joined(joined(home@, "cookie"@), decimal(self.mid as nat) + ".json"@),
    {
        let dir = Settings::cookie(home);
        let mut file = String::new();
        push_decimal(&mut file, self.mid);
        file.append(".json");
        proof {
            reveal_strlit(".json");
        }
        join(dir.as_str(), file.as_str())
    }
}

/// The first account of `ups` marked as the default one.
pub open spec fn first_default(ups: Seq<Up>) -> Option<int>
    decreases ups.len(),
{
    if ups.len() == 0 {
        None
    } else if ups.last().default {
        match first_default(ups.drop_last()) {
            Some(i) => Some(i),
            None => Some(ups.len() - 1),
        }
    } else {
        first_default(ups.drop_last())
    }
}

/// The first account of `ups` with id `mid`.
pub open spec fn first_with_mid(ups: Seq<Up>, mid: u64) -> Option<int>
    decreases ups.len(),
{
    if ups.len() == 0 {
        None
    } else if ups.last().mid == mid {
        match first_with_mid(ups.drop_last(), mid) {
            Some(i) => Some(i),
            None => Some(ups.len() - 1),
        }
    } else {
        first_with_mid(ups.drop_last(), mid)
    }
}

proof fn lemma_first_default_in_range(ups: Seq<Up>)
    ensures
        first_default(ups) matches Some(i) ==> 0 <= i < ups.len() && ups[i].default,
    decreases ups.len(),
{
    if ups.len() > 0 {
        lemma_first_default_in_range(ups.drop_last());
    }
}

proof fn lemma_first_with_mid_in_range(ups: Seq<Up>, mid: u64)
    ensures
        first_with_mid(ups, mid) matches Some(i) ==> 0 <= i < ups.len() && ups[i].mid == mid,
    decreases ups.len(),
{
    if ups.len() > 0 {
        lemma_first_with_mid_in_range(ups.drop_last(), mid);
    }
}

/// Installation-wide settings.
#[derive(Debug)]
pub struct Settings {
    pub app: App,
    pub part: Part,
    pub up: Vec<Up>,
}

impl Settings {
    /// The cache directory under configuration home `home`.
    pub fn cache(home: &str) -> (r: String)
        ensures
            r@ == joined(home@, "cache"@),
    {
        join(home, "cache")
    }

    /// The cookie directory under configuration home `home`.
    pub fn cookie(home: &str) -> (r: String)
        ensures
            r@ == joined(home@, "cookie"@),
    {
        join(home, "cookie")
    }

    /// The directory of per-title settings under configuration home `home`.
    pub fn media(home: &str) -> (r: String)
        ensures
            r@ == joined(home@, "media"@),
    {
        join(home, "media")
    }

    /// The clip library index under configuration home `home`.
    pub fn part(home: &str) -> (r: String)
        ensures
            r@ == joined(home@, "part.json"@),
    {
        join(home, "part.json")
    }

    /// The first account marked as the default one.
    pub fn get_default_up(&self) -> (r: Option<&Up>)
        ensures
            match first_default(self.up@) {
                Some(i) => r == Some(&self.up@[i]),
                None => r is None,
            },
    {
        let mut i: usize = 0;
        let mut found: Option<usize> = None;
        while i < self.up.len()
            invariant
                i <= self.up@.len(),
                match first_default(self.up@.take(i as int)) {
                    Some(k) => found == Some(k as usize) && k < i,
                    None => found is None,
                },
            decreases self.up.len() - i,
        {
            assert(self.up@.take(i + 1).drop_last() =~= self.up@.take(i as int));
            proof {
                lemma_first_default_in_range(self.up@.take(i as int));
            }
            if found.is_none() && self.up[i].default {
                found = Some(i);
            }
            i = i + 1;
        }
        assert(self.up@.take(i as int) =~= self.up@);
        proof {
            lemma_first_default_in_range(self.up@);
        }
        match found {
            Some(k) => Some(&self.up[k]),
            None => None,
        }
    }

    /// The account with id `mid`, or the default account when no id is given.
    pub fn get_up(&self, mid: Option<u64>) -> (r: Option<&Up>)
        ensures
            match (match mid { Some(m) => first_with_mid(self.up@, m), None => first_default(self.up@) }) {
                Some(i) => r == Some(&self.up@[i]),
                None => r is None,
            },
    {
        match mid {
            Some(id) => {
                let mut i: usize = 0;
                let mut found: Option<usize> = None;
                while i < self.up.len()
                    invariant
                        i <= self.up@.len(),
                        match first_with_mid(self.up@.take(i as int), id) {
                            Some(k) => found == Some(k as usize) && k < i,
                            None => found is None,
                        },
                    decreases self.up.len() - i,
                {
                    assert(self.up@.take(i + 1).drop_last() =~= self.up@.take(i as int));
                    proof {
                        lemma_first_with_mid_in_range(self.up@.take(i as int), id);
                    }
                    if found.is_none() && self.up[i].mid == id {
                        found = Some(i);
                    }
                    i = i + 1;
                }
                assert(self.up@.take(i as int) =~= self.up@);
                proof {
                    lemma_first_with_mid_in_range(self.up@, id);
                }
                match found {
                    Some(k) => Some(&self.up[k]),
                    None => None,
                }
            },
            None => self.get_default_up(),
        }
    }
}

} // verus!
