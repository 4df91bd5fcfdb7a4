//! The commands and their arguments, and the decisions each command makes
//! before it touches a file.
use vstd::prelude::*;
use crate::episode::EpisodeArgs;
use crate::media::{MarkSettings, SpliterSettings};
use crate::paths::{extension_set, file_name, file_name_of, join, joined, no_separator, with_extension};
use crate::text::{decimal, has_suffix, parse_u64, push_decimal, same_text, u64_value};
use crate::upload::Uploader;

verus! {

/// Why a command refused to go on.
#[derive(Debug, PartialEq, Eq)]
pub enum CommandError {
    /// No episode could be made out of a path and the given numbers.
    ParseEpisodeFailed,
    /// No transcode action has the given name.
    ActionNotMatched(String),
    /// A split was asked for with no part count anywhere.
    CountIsZero,
    /// Neither a short name nor a title was given.
    NameOrTitleMissing,
    /// Appending to an upload whose video id is still unknown.
    VideoIdMissing,
    /// A scheduled time could not be read.
    BadTime(String),
}

/// Arguments of `init`.
#[derive(Debug, Clone)]
pub struct InitArgs {
    pub name: String,
}

/// Arguments of `mark`.
#[derive(Debug, Clone)]
pub struct MarkArgs {
    pub name: String,
    pub id: String,
    pub title: String,
    pub with_quick: bool,
}

impl MarkArgs {
    /// The title of the made video: the one given, else the mark's.
    pub fn target_title(&self, mark: &MarkSettings) -> (r: String)
        ensures
            r@ == (if self.title@.len() == 0 { mark.title@ } else { self.title@ }),
    {
        if self.title.unicode_len() == 0 {
            mark.title.clone()
        } else {
            self.title.clone()
        }
    }
}

/// Arguments of `remove`.
#[derive(Debug, Clone)]
pub struct RemoveArgs {
    pub path: String,
    pub to: Option<String>,
    pub pairs: Vec<(u64, u64)>,
    pub with_quick: bool,
}

impl RemoveArgs {
    /// Where the result goes: the given destination, else the source with
    /// extension `-remove.mp4`.
    pub fn destination(&self) -> (r: String)
        ensures
            r@ == match self.to {
                Some(t) => t@,
                None => extension_set(self.path@, "-remove.mp4"@),
            },
    {
        match &self.to {
            Some(t) => t.clone(),
            None => {
                proof {
                    reveal_strlit("-remove.mp4");
                    assert(no_separator("-remove.mp4"@));
                }
                with_extension(self.path.as_str(), "-remove.mp4")
            },
        }
    }
}

/// Arguments of `split`.
#[derive(Debug, Clone)]
pub struct SplitArgs {
    pub ep: EpisodeArgs,
    pub alias: String,
    pub count: usize,
    pub with_quick: bool,
    pub with_cache: bool,
}

impl SplitArgs {
    /// The number of parts: the given count, else the configured one; zero
    /// parts is refused.
    pub fn part_count(&self, spliter: &SpliterSettings) -> (r: Result<usize, CommandError>)
        ensures
            self.count > 0 ==> r == Ok::<usize, CommandError>(self.count),
            self.count == 0 ==> match spliter.count {
                Some(c) if c > 0 => r == Ok::<usize, CommandError>(c),
                _ => r == Err::<usize, CommandError>(CommandError::CountIsZero),
            },
    {
        let mut count = self.count;
        if count == 0 {
            if let Some(c) = spliter.count {
                count = c;
            }
        }
        if count == 0 {
            return Err(CommandError::CountIsZero);
        }
        Ok(count)
    }

    /// The directory that keeps the transport streams of this split:
    /// `<cache root>/split/<short name>/<full title>-<count>`.
    pub fn cache_ts_dir(&self, cache_root: &str) -> (r: String)
        ensures
            r@ == joined(
                joined(joined(cache_root@, "split"@), self.ep.name@),
                crate::episode::full_title(self.ep) + "-"@ + decimal(self.count as nat),
            ),
    {
        let split = join(cache_root, "split");
        let named = join(split.as_str(), self.ep.name.as_str());
        let mut dir = self.ep.get_full_title();
        dir.append("-");
        push_decimal(&mut dir, self.count as u64);
        proof {
            reveal_strlit("-");
            assert((self.count as u64) as nat == self.count as nat);
        }
        join(named.as_str(), dir.as_str())
    }

    /// The base name of the split files: the alias if given, else
    /// `<episode title>-<full title>` or, with no episode title, the full
    /// title.
    pub fn target_name(&self) -> (r: String)
        ensures
            r@ == (if self.alias@.len() > 0 {
                self.alias@
            } else if self.ep.episode_title@.len() > 0 {
                self.ep.episode_title@ + "-"@ + crate::episode::full_title(self.ep)
            } else {
                crate::episode::full_title(self.ep)
            }),
    {
        if self.alias.unicode_len() > 0 {
            return self.alias.clone();
        }
        let full = self.ep.get_full_title();
        if self.ep.episode_title.unicode_len() > 0 {
            let mut name = self.ep.episode_title.clone();
            name.append("-");
            name.append(full.as_str());
            proof {
                reveal_strlit("-");
            }
            name
        } else {
            full
        }
    }
}

/// Arguments of `trans`.
#[derive(Debug, Clone)]
pub struct TransArgs {
    pub path: String,
    pub action: String,
    pub type_: String,
    pub title: String,
    pub name: String,
    pub season: u16,
    pub episode: u16,
    pub to: Option<String>,
    pub yes: bool,
}

/// Arguments of `upload`.
#[derive(Debug, Clone)]
pub struct UploadArgs {
    pub ep: EpisodeArgs,
    pub upload: Uploader,
}

impl UploadArgs {
    /// Completes the episode from its title's settings.
    pub fn fill(&mut self, media: &crate::media::MediaSettings)
        ensures
            final(self).upload == old(self).upload,
            final(self).ep.title == (if old(self).ep.title@.len() == 0 { media.title } else { old(self).ep.title }),
            final(self).ep.type_@ == (if old(self).ep.season > 1000 { crate::episode::film_kind() } else { old(self).ep.type_@ }),
            final(self).ep.name == old(self).ep.name,
            final(self).ep.episode_title == old(self).ep.episode_title,
            final(self).ep.season == old(self).ep.season,
            final(self).ep.episode == old(self).ep.episode,
    {
        self.ep.fill_from_media(media);
    }

    /// Refuses an upload that names neither a short name nor a title.
    pub fn check_names(&self) -> (r: Result<(), CommandError>)
        ensures
            self.ep.name@.len() == 0 && self.ep.title@.len() == 0
                ==> r == Err::<(), CommandError>(CommandError::NameOrTitleMissing),
            self.ep.name@.len() > 0 || self.ep.title@.len() > 0 ==> r is Ok,
    {
        if self.ep.has_name_or_title() {
            Ok(())
        } else {
            Err(CommandError::NameOrTitleMissing)
        }
    }

    /// The title of an upload: the episode's full title.
    pub fn get_upload_title(&self) -> (r: String)
        ensures
            r@ == crate::episode::full_title(self.ep),
    {
        self.ep.get_full_title()
    }
}

/// Arguments of `upload-file`.
#[derive(Debug, Clone)]
pub struct UploadFileArgs {
    pub filename: String,
    pub upload: Uploader,
}

/// A command with its arguments.
#[derive(Debug)]
pub enum Command {
    Trans { args: TransArgs },
    Split { args: SplitArgs },
    Init { args: InitArgs },
    Upload { args: UploadArgs },
    UploadFile { args: UploadFileArgs },
    Mark { args: MarkArgs },
}

/// The name a command is known by.
pub open spec fn command_name(c: Command) -> Seq<char> {
    match c {
        Command::Trans { .. } => "trans"@,
        Command::Split { .. } => "split"@,
        Command::Init { .. } => "init"@,
        Command::Upload { .. } => "upload"@,
        Command::UploadFile { .. } => "upload_file"@,
        Command::Mark { .. } => "mark"@,
    }
}

impl Command {
    /// The name this command is known by.
    pub fn name(&self) -> (r: String)
        ensures
            r@ == command_name(*self),
    {
        match self {
            Command::Trans { .. } => String::from_str("trans"),
            Command::Split { .. } => String::from_str("split"),
            Command::Init { .. } => String::from_str("init"),
            Command::Upload { .. } => String::from_str("upload"),
            Command::UploadFile { .. } => String::from_str("upload_file"),
            Command::Mark { .. } => String::from_str("mark"),
        }
    }
}

/// Command-line settings and the command to run.
#[derive(Debug)]
pub struct Cli {
    pub command: Command,
    pub user_cookie: String,
    pub rust_log: String,
}

/// What `trans` does to its input.
#[derive(Debug, Clone, Copy, PartialEq, Eq)]
pub enum TransAction {
    /// Extract the audio as MP3.
    Mp3,
    /// Rewrap into MP4.
    Mp4,
    /// Transcode to the standard 1080p format and drop excluded ranges.
    Mp41080,
}

/// The action of each name: `mp3`, `mp4` and `1080p`.
pub open spec fn action_named(action: Seq<char>) -> Option<TransAction> {
    if action == "mp3"@ {
        Some(TransAction::Mp3)
    } else if action == "mp4"@ {
        Some(TransAction::Mp4)
    } else if action == "1080p"@ {
        Some(TransAction::Mp41080)
    } else {
        None
    }
}

impl TransAction {
    /// The name this action is chosen by.
    pub fn get_action(&self) -> (r: String)
        ensures
            action_named(r@) == Some(*self),
    {
        proof {
            reveal_strlit("mp3");
            reveal_strlit("mp4");
            reveal_strlit("1080p");
        }
        let r = match self {
            TransAction::Mp3 => String::from_str("mp3"),
            TransAction::Mp4 => String::from_str("mp4"),
            TransAction::Mp41080 => String::from_str("1080p"),
        };
        assert("mp3"@ != "mp4"@ && "mp3"@ != "1080p"@ && "mp4"@ != "1080p"@) by {
            assert("mp3"@[2] != "mp4"@[2]);
            assert("mp3"@.len() != "1080p"@.len());
            assert("mp4"@.len() != "1080p"@.len());
        }
        r
    }
}

/// The action with the given name.
pub fn get_trans(action: &str) -> (r: Option<TransAction>)
    ensures
        r == action_named(action@),
{
    if same_text(action, "mp3") {
        Some(TransAction::Mp3)
    } else if same_text(action, "mp4") {
        Some(TransAction::Mp4)
    } else if same_text(action, "1080p") {
        Some(TransAction::Mp41080)
    } else {
        None
    }
}

/// The action `trans` runs for its arguments; an unknown name is refused.
pub fn trans(args: &TransArgs) -> (r: Result<TransAction, CommandError>)
    ensures
        match action_named(args.action@) {
            Some(a) => r == Ok::<TransAction, CommandError>(a),
            None => r matches Err(CommandError::ActionNotMatched(n)) && n@ == args.action@,
        },
{
    match get_trans(args.action.as_str()) {
        Some(a) => Ok(a),
        None => Err(CommandError::ActionNotMatched(args.action.clone())),
    }
}

/// What a path says of an episode: title, season and episode number, each
/// where it could be read.
#[derive(Debug, Clone)]
pub struct EpisodeInfo {
    pub title: Option<String>,
    pub season: Option<u16>,
    pub episode: Option<u16>,
}

/// What `lazytool::Episode::from_path` reads from a path.
pub uninterp spec fn episode_in_path(path: Seq<char>) -> Option<(Option<Seq<char>>, Option<u16>, Option<u16>)>;

/// The view of an optional text.
pub open spec fn opt_text(o: Option<String>) -> Option<Seq<char>> {
    match o {
        Some(s) => Some(s@),
        None => None,
    }
}

/// Relies on `lazytool::Episode::from_path`, which matches a path against
/// its fixed list of naming patterns; the result depends on the path alone.
#[verifier::external_body]
fn parse_episode_path(path: &str) -> (r: Option<EpisodeInfo>)
    ensures
        match r {
            Some(x) => episode_in_path(path@) == Some((opt_text(x.title), x.season, x.episode)),
            None => episode_in_path(path@) is None,
        },
{
    match lazytool::Episode::from_path(path) {
        Ok(Some(ep)) => Some(EpisodeInfo { title: ep.title, season: ep.season, episode: ep.episode }),
        _ => None,
    }
}

/// The title, season and episode that `trans` works on: what the arguments
/// give where they give it (a non-empty title, a non-zero number), else what
/// was read from the path, else the arguments' own values.
pub open spec fn episode_fields(args: TransArgs, parsed: Option<(Option<Seq<char>>, Option<u16>, Option<u16>)>) -> (Seq<char>, u16, u16) {
    let (t, s, e) = match parsed {
        Some((pt, ps, pe)) => (
            match pt { Some(x) => x, None => args.title@ },
            match ps { Some(x) => x, None => args.season },
            match pe { Some(x) => x, None => args.episode },
        ),
        None => (args.title@, args.season, args.episode),
    };
    (
        if args.title@.len() > 0 { args.title@ } else { t },
        if args.season != 0 { args.season } else { s },
        if args.episode != 0 { args.episode } else { e },
    )
}

/// The episode `trans` works on, given what was read from its path; it is
/// refused when its title is empty or a number is zero.
pub fn episode_from_parsed(args: &TransArgs, parsed: Option<EpisodeInfo>) -> (r: Result<EpisodeArgs, CommandError>)
    ensures
        ({
            let (t, s, e) = episode_fields(*args, match parsed {
                Some(x) => Some((opt_text(x.title), x.season, x.episode)),
                None => None,
            });
            if t.len() == 0 || s == 0 || e == 0 {
                r == Err::<EpisodeArgs, CommandError>(CommandError::ParseEpisodeFailed)
            } else {
                r matches Ok(ep) && ep.title@ == t && ep.season == s && ep.episode == e
                    && ep.type_ == args.type_ && ep.name@.len() == 0 && ep.episode_title@.len() == 0
            }
        }),
{
    let mut title = args.title.clone();
    let mut season = args.season;
    let mut episode = args.episode;
    if let Some(ep) = parsed {
        title = match ep.title {
            Some(t) => t,
            None => args.title.clone(),
        };
        season = match ep.season {
            Some(s) => s,
            None => args.season,
        };
        episode = match ep.episode {
            Some(e) => e,
            None => args.episode,
        };
    }
    if args.title.unicode_len() > 0 {
        title = args.title.clone();
    }
    if args.season != 0 {
        season = args.season;
    }
    if args.episode != 0 {
        episode = args.episode;
    }
    let ep = EpisodeArgs::new(args.type_.clone(), None, title, season, episode);
    if ep.title.unicode_len() == 0 || ep.season == 0 || ep.episode == 0 {
        Err(CommandError::ParseEpisodeFailed)
    } else {
        Ok(ep)
    }
}

/// The episode `trans` works on, reading what it can from the path.
pub fn trans_to_episode(args: &TransArgs) -> (r: Result<EpisodeArgs, CommandError>)
    ensures
        ({
            let (t, s, e) = episode_fields(*args, episode_in_path(args.path@));
            if t.len() == 0 || s == 0 || e == 0 {
                r == Err::<EpisodeArgs, CommandError>(CommandError::ParseEpisodeFailed)
            } else {
                r matches Ok(ep) && ep.title@ == t && ep.season == s && ep.episode == e
                    && ep.type_ == args.type_
            }
        }),
{
    let parsed = parse_episode_path(args.path.as_str());
    episode_from_parsed(args, parsed)
}

/// The message for a pair that is not two comma-separated parts.
pub open spec fn pair_shape_message() -> Seq<char> {
    "参数格式错误，应该为 x,y"@
}

/// The index of the first comma of `s` from `from` on, if any.
pub open spec fn comma_from(s: Seq<char>, from: int) -> Option<int>
    decreases s.len() - from,
{
    if from >= s.len() {
        None
    } else if s[from] == ',' {
        Some(from)
    } else {
        comma_from(s, from + 1)
    }
}

/// What `parse_pair` yields for `s`: two numbers split by the one comma.
pub open spec fn pair_value(s: Seq<char>) -> Result<(u64, u64), Seq<char>> {
    match comma_from(s, 0) {
        None => Err(pair_shape_message()),
        Some(i) => if comma_from(s, i + 1) is Some {
            Err(pair_shape_message())
        } else {
            match (u64_value(s.take(i)), u64_value(s.skip(i + 1))) {
                (Some(x), Some(y)) => Ok((x, y)),
                (None, _) => Err("x 不是有效的数字"@),
                (Some(_), None) => Err("y 不是有效的数字"@),
            }
        },
    }
}

fn find_comma(s: &str, from: usize) -> (r: Option<usize>)
    requires
        from <= s@.len(),
    ensures
        match r {
            Some(i) => comma_from(s@, from as int) == Some(i as int) && i < s@.len(),
            None => comma_from(s@, from as int) is None,
        },
{
    let n = s.unicode_len();
    let mut i = from;
    while i < n
        invariant
            n == s@.len(),
            from <= i <= n,
            comma_from(s@, from as int) == comma_from(s@, i as int),
        decreases n - i,
    {
        if s.get_char(i) == ',' {
            return Some(i);
        }
        i = i + 1;
    }
    None
}

/// Reads a pair of seconds written `x,y`.
pub fn parse_pair(s: &str) -> (r: Result<(u64, u64), String>)
    ensures
        match pair_value(s@) {
            Ok(p) => r == Ok::<(u64, u64), String>(p),
            Err(m) => r is Err && r->Err_0@ == m,
        },
{
    let n = s.unicode_len();
    let first = find_comma(s, 0);
    match first {
        None => Err(String::from_str("参数格式错误，应该为 x,y")),
        Some(i) => {
            if find_comma(s, i + 1).is_some() {
                return Err(String::from_str("参数格式错误，应该为 x,y"));
            }
            let x = s.substring_char(0, i);
            let y = s.substring_char(i + 1, n);
            assert(x@ =~= s@.take(i as int));
            assert(y@ =~= s@.skip(i + 1));
            match parse_u64(x) {
                None => Err(String::from_str("x 不是有效的数字")),
                Some(a) => match parse_u64(y) {
                    None => Err(String::from_str("y 不是有效的数字")),
                    Some(b) => Ok((a, b)),
                },
            }
        },
    }
}

/// The stages of making a video from a mark with a source file.
#[derive(Debug, PartialEq, Eq)]
pub struct MarkPlan {
    /// Where the source is first copied.
    pub copy_to: String,
    /// The removal to run, if ranges are excluded: its destination and ranges.
    pub remove: Option<(String, Vec<(u64, u64)>)>,
    /// Where the transcoded copy goes, if one is made.
    pub transcode: Option<String>,
    /// The file that holds the result before trailing clips are added.
    pub result: String,
    /// Whether trailing clips are appended.
    pub append_suffix: bool,
}

/// The file after copying and, where ranges are excluded, after removal.
pub open spec fn mark_after_remove(mark: MarkSettings, target: Seq<char>) -> Seq<char> {
    let copied = extension_set(target, "cache.mp4"@);
    if mark.exclude_segments is Some { extension_set(copied, "remove.mp4"@) } else { copied }
}

/// The file after every stage but the trailing clips.
pub open spec fn mark_result(mark: MarkSettings, target: Seq<char>) -> Seq<char> {
    let removed = mark_after_remove(mark, target);
    if mark.trans_1080p == Some(true) { extension_set(removed, "trans.mp4"@) } else { removed }
}

impl MarkArgs {
    /// The stages of making the video of `mark` into `target`: copy the
    /// source beside the target, drop its excluded ranges, transcode to
    /// 1080p if asked, then append trailing clips unless told not to.
    pub fn plan(&self, mark: &MarkSettings, target: &str) -> (r: MarkPlan)
        ensures
            r.copy_to@ == extension_set(target@, "cache.mp4"@),
            match mark.exclude_segments {
                Some(e) => r.remove matches Some((d, s)) && d@ == mark_after_remove(*mark, target@) && s@ == e@,
                None => r.remove is None,
            },
            mark.trans_1080p == Some(true) ==> (r.transcode matches Some(t) && t@ == mark_result(*mark, target@)),
            mark.trans_1080p != Some(true) ==> r.transcode is None,
            r.result@ == mark_result(*mark, target@),
            r.append_suffix == match mark.with_suffix {
                Some(p) => p,
                None => true,
            },
    {
        proof {
            reveal_strlit("cache.mp4");
            reveal_strlit("remove.mp4");
            reveal_strlit("trans.mp4");
            assert(no_separator("cache.mp4"@));
            assert(no_separator("remove.mp4"@));
            assert(no_separator("trans.mp4"@));
        }
        let copy_to = with_extension(target, "cache.mp4");
        let mut current = copy_to.clone();
        let remove = match &mark.exclude_segments {
            Some(e) => {
                current = with_extension(copy_to.as_str(), "remove.mp4");
                Some((current.clone(), crate::media::copy_list(e)))
            },
            None => None,
        };
        let transcode = if mark.trans_1080p() {
            current = with_extension(current.as_str(), "trans.mp4");
            Some(current.clone())
        } else {
            None
        };
        MarkPlan { copy_to, remove, transcode, result: current, append_suffix: mark.with_suffix() }
    }
}

/// A file whose name ends in `mp4` is packetized before trailing clips are
/// appended to it.
pub open spec fn needs_packetizing(path: Seq<char>) -> bool {
    file_name_of(path) matches Some(n) && n.len() >= 3 && n.subrange(n.len() - 3, n.len() as int) == "mp4"@
}

/// Whether `path` must become a transport stream before clips are appended
/// to it: its file name ends in `mp4`.
pub fn needs_ts(path: &str) -> (r: bool)
    ensures
        r == needs_packetizing(path@),
{
    proof {
        reveal_strlit("mp4");
    }
    match file_name(path) {
        Some(n) => has_suffix(n.as_str(), "mp4"),
        None => false,
    }
}

} // verus!
