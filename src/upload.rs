//! Upload requests: the command line handed to the upload tool.
use vstd::prelude::*;
use crate::command::CommandError;
use crate::media::{cascade, seq_of, MediaSettings};
use crate::text::{
    contains_text, decimal, has_text, push_decimal, push_signed, signed_decimal, strip_quotes, without_quotes,
};
use crate::toolchain::args_view;

verus! {

/// One upload request.
#[derive(Debug, Clone)]
pub struct Uploader {
    pub path: String,
    pub cover: String,
    pub tag: String,
    pub tid: u32,
    pub limit: u8,
    pub dtime: String,
    pub desc: String,
    pub mid: Option<u64>,
    pub with_append: bool,
    pub vid: String,
}

/// `--flag value` when `value` is not empty, else nothing.
pub open spec fn flag_if_set(flag: Seq<char>, value: Seq<char>) -> Seq<Seq<char>> {
    if value.len() > 0 {
        seq![flag, value]
    } else {
        Seq::empty()
    }
}

/// The flags of an upload whose scheduled time reads as `ts` seconds since
/// the epoch; `None` when a time is set that could not be read.
pub open spec fn upload_flags(u: Uploader, ts: Option<i64>) -> Option<Seq<Seq<char>>> {
    let fixed = seq!["--limit"@, decimal(u.limit as nat), "--tid"@, decimal(u.tid as nat)]
        + flag_if_set("--cover"@, u.cover@) + flag_if_set("--tag"@, u.tag@)
        + flag_if_set("--desc"@, u.desc@);
    if u.dtime@.len() == 0 {
        Some(fixed)
    } else {
        match ts {
            Some(t) => Some(fixed + seq!["--dtime"@, signed_decimal(t as int)]),
            None => None,
        }
    }
}

/// The head of the upload tool's command line: a new upload, or an append
/// to video `vid`, with an optional title.
pub open spec fn upload_head(u: Uploader, with_append: bool, title: Option<Seq<char>>, cookie: Seq<char>) -> Seq<Seq<char>> {
    seq!["biliup"@, "-u"@, cookie, if with_append { "append"@ } else { "upload"@ }, u.path@]
        + (if with_append { seq!["-v"@, u.vid@] } else { Seq::empty() })
        + match title {
            Some(t) => seq!["--title"@, t],
            None => Seq::empty(),
        }
}

/// `head` followed by `flags`, where there are flags.
pub open spec fn with_head(head: Seq<Seq<char>>, flags: Option<Seq<Seq<char>>>) -> Option<Seq<Seq<char>>> {
    match flags {
        Some(f) => Some(head + f),
        None => None,
    }
}

fn push_flag_if_set(v: &mut Vec<String>, flag: &str, value: &String)
    ensures
        args_view(final(v)@) == args_view(old(v)@) + flag_if_set(flag@, value@),
{
    if value.unicode_len() > 0 {
        let ghost before = v@;
        v.push(flag.to_owned());
        v.push(value.clone());
        assert(args_view(v@) =~= args_view(before) + flag_if_set(flag@, value@));
    } else {
        assert(args_view(v@) =~= args_view(v@) + flag_if_set(flag@, value@));
    }
}

impl Uploader {
    /// The file to upload.
    pub fn path(&self) -> (r: String)
        ensures
            r == self.path,
    {
        self.path.clone()
    }

    /// The upload flags, with the scheduled time read as `ts` seconds since
    /// the epoch; refused when a time is set and `ts` is `None` (it could not
    /// be read).
    pub fn to_args(&self, ts: Option<i64>) -> (r: Result<Vec<String>, CommandError>)
        ensures
            match upload_flags(*self, ts) {
                Some(f) => r matches Ok(v) && args_view(v@) == f,
                None => r matches Err(CommandError::BadTime(t)) && t@ == self.dtime@,
            },
    {
        let mut v: Vec<String> = Vec::new();
        v.push(String::from_str("--limit"));
        let mut limit = String::new();
        push_decimal(&mut limit, self.limit as u64);
        v.push(limit);
        v.push(String::from_str("--tid"));
        let mut tid = String::new();
        push_decimal(&mut tid, self.tid as u64);
        v.push(tid);
        assert(args_view(v@) =~= seq!["--limit"@, decimal(self.limit as nat), "--tid"@, decimal(self.tid as nat)]);
        push_flag_if_set(&mut v, "--cover", &self.cover);
        push_flag_if_set(&mut v, "--tag", &self.tag);
        push_flag_if_set(&mut v, "--desc", &self.desc);
        if self.dtime.unicode_len() > 0 {
            match ts {
                Some(t) => {
                    let ghost before = v@;
                    v.push(String::from_str("--dtime"));
                    let mut text = String::new();
                    push_signed(&mut text, t);
                    v.push(text);
                    assert(args_view(v@) =~= args_view(before) + seq!["--dtime"@, signed_decimal(t as int)]);
                },
                None => {
                    return Err(CommandError::BadTime(self.dtime.clone()));
                },
            }
        }
        Ok(v)
    }

    /// The upload tool's command line for this request, given the account's
    /// cookie file and the scheduled time read as `ts`.
    pub fn to_cmds(&self, with_append: bool, title: Option<&str>, cookie: &str, ts: Option<i64>) -> (r: Result<Vec<String>, CommandError>)
        ensures
            ({
                let head = upload_head(*self, with_append, match title { Some(t) => Some(t@), None => None }, cookie@);
                match with_head(head, upload_flags(*self, ts)) {
                    Some(c) => r matches Ok(v) && args_view(v@) == c,
                    None => r matches Err(CommandError::BadTime(t)) && t@ == self.dtime@,
                }
            }),
    {
        let ghost head = upload_head(*self, with_append, match title { Some(t) => Some(t@), None => None }, cookie@);
        let mut v: Vec<String> = Vec::new();
        v.push(String::from_str("biliup"));
        v.push(String::from_str("-u"));
        v.push(cookie.to_owned());
        if with_append {
            v.push(String::from_str("append"));
        } else {
            v.push(String::from_str("upload"));
        }
        v.push(self.path.clone());
        if with_append {
            v.push(String::from_str("-v"));
            v.push(self.vid.clone());
        }
        if let Some(t) = title {
            v.push(String::from_str("--title"));
            v.push(t.to_owned());
        }
        assert(args_view(v@) =~= head);
        match self.to_args(ts) {
            Ok(mut f) => {
                let ghost fv = f@;
                let ghost before = v@;
                v.append(&mut f);
                assert(args_view(v@) =~= args_view(before) + args_view(fv));
                Ok(v)
            },
            Err(e) => Err(e),
        }
    }

    /// Completes the request from the title's settings for one episode: the
    /// scheduled time and tag where none is given, and the title as the tag
    /// when still none is known.
    pub fn fill_with_media(&mut self, media: &MediaSettings, season: u16, episode: u16)
        ensures
            ({
                let c = cascade(season, episode, None, seq_of(media.uploaders));
                let dtime = match c {
                    Some(v) => if old(self).dtime@.len() == 0 && v.dtime is Some { v.dtime->Some_0 } else { old(self).dtime },
                    None => old(self).dtime,
                };
                let tag = match c {
                    Some(v) => if old(self).tag@.len() == 0 && v.tag is Some { v.tag->Some_0 } else { old(self).tag },
                    None => old(self).tag,
                };
                &&& final(self).dtime == dtime
                &&& final(self).tag == (if tag@.len() == 0 { media.title } else { tag })
                &&& final(self).path == old(self).path
                &&& final(self).cover == old(self).cover
                &&& final(self).desc == old(self).desc
                &&& final(self).vid == old(self).vid
                &&& final(self).tid == old(self).tid
                &&& final(self).limit == old(self).limit
                &&& final(self).mid == old(self).mid
                &&& final(self).with_append == old(self).with_append
            }),
    {
        let found = media.get_uploader(season, episode);
        if let Some(u) = found {
            if self.dtime.unicode_len() == 0 {
                if let Some(d) = u.dtime {
                    self.dtime = d;
                }
            }
            if self.tag.unicode_len() == 0 {
                if let Some(t) = u.tag {
                    self.tag = t;
                }
            }
        }
        if self.tag.unicode_len() == 0 {
            self.tag = media.title.clone();
        }
    }

    /// The command line of upload number `index` of an episode's files, with
    /// the scheduled time read as `ts`: with `append_all`, the first creates
    /// the video under `title` and the others are appended to it, which needs
    /// its id; otherwise each is a new upload.
    pub fn command_for(&self, index: usize, append_all: bool, title: &str, cookie: &str, ts: Option<i64>) -> (r: Result<Vec<String>, CommandError>)
        ensures
            index > 0 && append_all && self.vid@.len() == 0 ==> r == Err::<Vec<String>, CommandError>(CommandError::VideoIdMissing),
            !(index > 0 && append_all && self.vid@.len() == 0) ==> {
                let (with_append, t) = if append_all {
                    if index == 0 { (false, Some(title@)) } else { (true, None) }
                } else {
                    (false, None)
                };
                match with_head(upload_head(*self, with_append, t, cookie@), upload_flags(*self, ts)) {
                    Some(c) => r matches Ok(v) && args_view(v@) == c,
                    None => r matches Err(CommandError::BadTime(tx)) && tx@ == self.dtime@,
                }
            },
    {
        if index > 0 && append_all && self.vid.unicode_len() == 0 {
            return Err(CommandError::VideoIdMissing);
        }
        if append_all {
            if index == 0 {
                self.to_cmds(false, Some(title), cookie, ts)
            } else {
                self.to_cmds(true, None, cookie, ts)
            }
        } else {
            self.to_cmds(false, None, cookie, ts)
        }
    }
}

} // verus!

verus! {

/// The pattern of the JSON fragment in a line of the upload tool's log.
pub open spec fn fragment_pattern() -> Seq<char> {
    "\\{.*\\}"@
}

/// What `regex::Regex::find` reports for `pattern` over `text`: the text of
/// the leftmost-first match, none when the pattern does not compile or does
/// not match.
pub uninterp spec fn regex_found(pattern: Seq<char>, text: Seq<char>) -> Option<Seq<char>>;

/// The compact JSON text, as `serde_json::Value` prints it, of member `inner`
/// of member `outer` of the JSON object `json`; none when `json` is not an
/// object or a member is missing.
pub uninterp spec fn json_member(json: Seq<char>, outer: Seq<char>, inner: Seq<char>) -> Option<Seq<char>>;

/// Relies on `regex::Regex::new` and `regex::Regex::find`: the result depends
/// on the two texts alone.
#[verifier::external_body]
fn find_match(pattern: &str, text: &str) -> (r: Option<String>)
    ensures
        match r {
            Some(m) => regex_found(pattern@, text@) == Some(m@),
            None => regex_found(pattern@, text@) is None,
        },
{
    match regex::Regex::new(pattern) {
        Ok(re) => re.find(text).map(|m| m.as_str().to_owned()),
        Err(_) => None,
    }
}

/// Relies on `serde_json::from_str` into a map of `serde_json::Value`, on
/// `Value::get` and on `Value`'s printing: the result depends on the three
/// texts alone.
#[verifier::external_body]
fn member_text(json: &str, outer: &str, inner: &str) -> (r: Option<String>)
    ensures
        match r {
            Some(m) => json_member(json@, outer@, inner@) == Some(m@),
            None => json_member(json@, outer@, inner@) is None,
        },
{
    let map: std::collections::HashMap<String, serde_json::Value> = serde_json::from_str(json).ok()?;
    map.get(outer)?.get(inner).map(|v| v.to_string())
}

/// The video id a line of the upload tool's log reports: in a result line
/// (one that mentions `code` and `message`), the `data.bvid` member of its
/// JSON fragment, without quotes.
pub open spec fn line_video_id(line: Seq<char>) -> Option<Seq<char>> {
    if contains_text(line, "code"@) && contains_text(line, "message"@) {
        match regex_found(fragment_pattern(), line) {
            Some(j) => match json_member(j, "data"@, "bvid"@) {
                Some(v) => Some(without_quotes(v)),
                None => None,
            },
            None => None,
        }
    } else {
        None
    }
}

/// The video id reported by the last line of `lines` that reports one.
pub open spec fn output_video_id(lines: Seq<Seq<char>>) -> Option<Seq<char>>
    decreases lines.len(),
{
    if lines.len() == 0 {
        None
    } else {
        match line_video_id(lines.last()) {
            Some(v) => Some(v),
            None => output_video_id(lines.drop_last()),
        }
    }
}

/// The video id reported by one line of the upload tool's log, if any.
pub fn video_id_in_line(line: &str) -> (r: Option<String>)
    ensures
        match r {
            Some(v) => line_video_id(line@) == Some(v@),
            None => line_video_id(line@) is None,
        },
{
    if !(has_text(line, "code") && has_text(line, "message")) {
        return None;
    }
    let fragment = match find_match("\\{.*\\}", line) {
        Some(f) => f,
        None => return None,
    };
    match member_text(fragment.as_str(), "data", "bvid") {
        Some(v) => Some(strip_quotes(v.as_str())),
        None => None,
    }
}

/// The video id reported by the upload tool's output: that of the last line
/// that reports one.
pub fn video_id_in_output(lines: &Vec<String>) -> (r: Option<String>)
    ensures
        match r {
            Some(v) => output_video_id(args_view(lines@)) == Some(v@),
            None => output_video_id(args_view(lines@)) is None,
        },
{
    let mut found: Option<String> = None;
    let mut i: usize = 0;
    while i < lines.len()
        invariant
            i <= lines@.len(),
            match found {
                Some(v) => output_video_id(args_view(lines@.take(i as int))) == Some(v@),
                None => output_video_id(args_view(lines@.take(i as int))) is None,
            },
        decreases lines.len() - i,
    {
        proof {
            assert(args_view(lines@.take(i + 1)).drop_last() =~= args_view(lines@.take(i as int)));
            assert(args_view(lines@.take(i + 1)).last() == lines@[i as int]@);
        }
        match video_id_in_line(lines[i].as_str()) {
            Some(v) => {
                found = Some(v);
            },
            None => {},
        }
        i = i + 1;
    }
    assert(lines@.take(i as int) =~= lines@);
    found
}

} // verus!
