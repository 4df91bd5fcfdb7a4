//! Per-title settings and the three-tier cascade (default, per season, per
//! season and episode) that resolves them for one episode.
use vstd::prelude::*;
use crate::settings::Settings;

verus! {

/// The value a right-biased merge keeps: `top` where it is set, else `base`.
pub open spec fn pick<A>(base: Option<A>, top: Option<A>) -> Option<A> {
    if top is Some {
        top
    } else {
        base
    }
}

/// Settings of one kind that may be selected by season and episode, and
/// merged field by field.
pub trait EpisodeSettings: Sized + View {
    /// The season this overlay is selected by, if any.
    spec fn season_of(&self) -> Option<u16>;

    /// The episode this overlay is selected by, if any.
    spec fn episode_of(&self) -> Option<u16>;

    /// `base` with every field that `top` sets replaced by `top`'s.
    spec fn overlay(base: Self::V, top: Self::V) -> Self::V;

    /// The value with no field set.
    spec fn blank_view() -> Self::V;

    fn get_season(&self) -> (r: Option<u16>)
        ensures
            r == self.season_of(),
    ;

    fn get_episode(&self) -> (r: Option<u16>)
        ensures
            r == self.episode_of(),
    ;

    /// Overwrites each field that `other` sets.
    fn merge_with(&mut self, other: &Self)
        ensures
            final(self)@ == Self::overlay(old(self)@, other@),
    ;

    /// The value with no field set.
    fn blank() -> (r: Self)
        ensures
            r@ == Self::blank_view(),
    ;
}

/// Overlay `x` is the default tier: no season, no episode.
pub open spec fn is_default_tier<T: EpisodeSettings>(x: T) -> bool {
    x.season_of() is None && x.episode_of() is None
}

/// Overlay `x` is the tier of season `season` as a whole.
pub open spec fn is_season_tier<T: EpisodeSettings>(x: T, season: u16) -> bool {
    x.season_of() == Some(season) && x.episode_of() is None
}

/// Overlay `x` is the tier of episode `episode` of season `season`.
pub open spec fn is_episode_tier<T: EpisodeSettings>(x: T, season: u16, episode: u16) -> bool {
    x.season_of() == Some(season) && x.episode_of() == Some(episode)
}

/// Which tier a search looks for.
pub enum Tier {
    Default,
    Season,
    Episode,
}

/// Overlay `x` belongs to `tier` for episode `episode` of season `season`.
pub open spec fn in_tier<T: EpisodeSettings>(x: T, tier: Tier, season: u16, episode: u16) -> bool {
    match tier {
        Tier::Default => is_default_tier(x),
        Tier::Season => is_season_tier(x, season),
        Tier::Episode => is_episode_tier(x, season, episode),
    }
}

/// The first overlay of `overlays` in the given tier, if there is one.
pub open spec fn first_in_tier<T: EpisodeSettings>(overlays: Seq<T>, tier: Tier, season: u16, episode: u16) -> Option<T>
    decreases overlays.len(),
{
    if overlays.len() == 0 {
        None
    } else if in_tier(overlays[0], tier, season, episode) {
        Some(overlays[0])
    } else {
        first_in_tier(overlays.drop_first(), tier, season, episode)
    }
}

/// `acc` with `tier`'s overlay merged over it, where there is one.
pub open spec fn apply_tier<T: EpisodeSettings>(acc: T::V, tier: Option<T>) -> T::V {
    match tier {
        Some(x) => T::overlay(acc, x@),
        None => acc,
    }
}

/// The settings that apply to episode `episode` of season `season`: the
/// preset `preset`, then the default tier, the season's tier and the
/// episode's tier are merged in that order over the blank value; `None` when
/// there is no preset and no tier matches.
pub open spec fn cascade<T: EpisodeSettings>(
    season: u16,
    episode: u16,
    preset: Option<T>,
    overlays: Seq<T>,
) -> Option<T::V> {
    let d = first_in_tier(overlays, Tier::Default, season, episode);
    let s = first_in_tier(overlays, Tier::Season, season, episode);
    let e = first_in_tier(overlays, Tier::Episode, season, episode);
    if preset is None && d is None && s is None && e is None {
        None
    } else {
        Some(apply_tier(apply_tier(apply_tier(apply_tier(T::blank_view(), preset), d), s), e))
    }
}

/// Finds the first overlay of `overlays` in a tier.
fn find_tier<T: EpisodeSettings>(overlays: &Vec<T>, tier: Tier, season: u16, episode: u16) -> (r: Option<usize>)
    ensures
        match r {
            Some(i) => i < overlays@.len() && first_in_tier(overlays@, tier, season, episode) == Some(overlays@[i as int]),
            None => first_in_tier(overlays@, tier, season, episode) is None,
        },
{
    let mut i: usize = 0;
    assert(overlays@.subrange(0, overlays@.len() as int) =~= overlays@);
    while i < overlays.len()
        invariant
            i <= overlays@.len(),
            first_in_tier(overlays@, tier, season, episode)
                == first_in_tier(overlays@.subrange(i as int, overlays@.len() as int), tier, season, episode),
        decreases overlays.len() - i,
    {
        let ghost rest = overlays@.subrange(i as int, overlays@.len() as int);
        assert(rest[0] == overlays@[i as int]);
        assert(rest.drop_first() =~= overlays@.subrange(i + 1, overlays@.len() as int));
        let s = overlays[i].get_season();
        let e = overlays[i].get_episode();
        let hit = match tier {
            Tier::Default => s.is_none() && e.is_none(),
            Tier::Season => s == Some(season) && e.is_none(),
            Tier::Episode => s == Some(season) && e == Some(episode),
        };
        if hit {
            return Some(i);
        }
        i = i + 1;
    }
    None
}

/// Resolves the settings of one episode from a preset and a list of
/// overlays, see [`cascade`].
pub fn resolve<T: EpisodeSettings>(
    season: u16,
    episode: u16,
    preset: &Option<T>,
    overlays: &Option<Vec<T>>,
) -> (r: Option<T>)
    ensures
        match r {
            Some(x) => cascade(season, episode, *preset, seq_of(*overlays)) == Some(x@),
            None => cascade(season, episode, *preset, seq_of(*overlays)) is None,
        },
{
    let mut item = T::blank();
    let mut has = false;
    if let Some(config) = preset {
        item.merge_with(config);
        has = true;
    }
    let ghost empty = Seq::<T>::empty();
    match overlays {
        Some(configs) => {
            let ghost all = configs@;
            let d = find_tier(configs, Tier::Default, season, episode);
            if let Some(i) = d {
                item.merge_with(&configs[i]);
                has = true;
            }
            let s = find_tier(configs, Tier::Season, season, episode);
            if let Some(i) = s {
                item.merge_with(&configs[i]);
                has = true;
            }
            let e = find_tier(configs, Tier::Episode, season, episode);
            if let Some(i) = e {
                item.merge_with(&configs[i]);
                has = true;
            }
        },
        None => {
            assert(first_in_tier(empty, Tier::Default, season, episode) is None);
            assert(first_in_tier(empty, Tier::Season, season, episode) is None);
            assert(first_in_tier(empty, Tier::Episode, season, episode) is None);
        },
    }
    if has {
        Some(item)
    } else {
        None
    }
}

/// The overlays of an optional list; none when the list is absent.
pub open spec fn seq_of<T>(v: Option<Vec<T>>) -> Seq<T> {
    match v {
        Some(x) => x@,
        None => Seq::empty(),
    }
}

} // verus!

verus! {

/// The elements of an optional list.
pub open spec fn opt_view<T>(o: Option<Vec<T>>) -> Option<Seq<T>> {
    match o {
        Some(v) => Some(v@),
        None => None,
    }
}

fn copy_text(o: &Option<String>) -> (r: Option<String>)
    ensures
        r == *o,
{
    match o {
        Some(s) => Some(s.clone()),
        None => None,
    }
}

pub(crate) fn copy_list<T: Copy>(v: &Vec<T>) -> (r: Vec<T>)
    ensures
        r@ == v@,
{
    let mut out: Vec<T> = Vec::new();
    let mut i: usize = 0;
    while i < v.len()
        invariant
            i <= v@.len(),
            out@ == v@.take(i as int),
        decreases v.len() - i,
    {
        out.push(v[i]);
        assert(v@.take(i + 1) =~= v@.take(i as int).push(v@[i as int]));
        i = i + 1;
    }
    assert(v@.take(i as int) =~= v@);
    out
}

fn copy_texts(v: &Vec<String>) -> (r: Vec<String>)
    ensures
        r@ == v@,
{
    let mut out: Vec<String> = Vec::new();
    let mut i: usize = 0;
    while i < v.len()
        invariant
            i <= v@.len(),
            out@ == v@.take(i as int),
        decreases v.len() - i,
    {
        out.push(v[i].clone());
        assert(v@.take(i + 1) =~= v@.take(i as int).push(v@[i as int]));
        i = i + 1;
    }
    assert(v@.take(i as int) =~= v@);
    out
}

fn copy_opt_list<T: Copy>(o: &Option<Vec<T>>) -> (r: Option<Vec<T>>)
    ensures
        opt_view(r) == opt_view(*o),
{
    match o {
        Some(v) => Some(copy_list(v)),
        None => None,
    }
}

fn copy_opt_texts(o: &Option<Vec<String>>) -> (r: Option<Vec<String>>)
    ensures
        opt_view(r) == opt_view(*o),
{
    match o {
        Some(v) => Some(copy_texts(v)),
        None => None,
    }
}

/// Settings of the splitting of one title's episodes.
#[derive(Debug)]
pub struct SpliterSettings {
    pub season: Option<u16>,
    pub episode: Option<u16>,
    pub count: Option<usize>,
    pub suffix_parts: Option<Vec<String>>,
    pub screenshot_seconds: Option<Vec<u64>>,
    pub remove_parts: Option<Vec<(u64, u64)>>,
}

pub struct SpliterSettingsView {
    pub season: Option<u16>,
    pub episode: Option<u16>,
    pub count: Option<usize>,
    pub suffix_parts: Option<Seq<String>>,
    pub screenshot_seconds: Option<Seq<u64>>,
    pub remove_parts: Option<Seq<(u64, u64)>>,
}

impl View for SpliterSettings {
    type V = SpliterSettingsView;

    open spec fn view(&self) -> SpliterSettingsView {
        SpliterSettingsView {
            season: self.season,
            episode: self.episode,
            count: self.count,
            suffix_parts: opt_view(self.suffix_parts),
            screenshot_seconds: opt_view(self.screenshot_seconds),
            remove_parts: opt_view(self.remove_parts),
        }
    }
}

/// The seconds at which a part is captured when none are configured.
pub open spec fn default_screenshot_seconds() -> Seq<u64> {
    seq![10, 20, 30, 300, 400, 500]
}

impl SpliterSettings {
    /// The seconds at which each part is captured: the configured ones, or
    /// 10, 20, 30, 300, 400 and 500.
    pub fn screenshot_seconds(&self) -> (r: Vec<u64>)
        ensures
            r@ == match self.screenshot_seconds {
                Some(v) => v@,
                None => default_screenshot_seconds(),
            },
    {
        match &self.screenshot_seconds {
            Some(v) => copy_list(v),
            None => {
                let r: Vec<u64> = vec![10, 20, 30, 300, 400, 500];
                assert(r@ =~= default_screenshot_seconds());
                r
            },
        }
    }
}

impl EpisodeSettings for SpliterSettings {
    open spec fn season_of(&self) -> Option<u16> {
        self.season
    }

    open spec fn episode_of(&self) -> Option<u16> {
        self.episode
    }

    open spec fn overlay(base: SpliterSettingsView, top: SpliterSettingsView) -> SpliterSettingsView {
        SpliterSettingsView {
            season: pick(base.season, top.season),
            episode: pick(base.episode, top.episode),
            count: pick(base.count, top.count),
            suffix_parts: pick(base.suffix_parts, top.suffix_parts),
            screenshot_seconds: pick(base.screenshot_seconds, top.screenshot_seconds),
            remove_parts: pick(base.remove_parts, top.remove_parts),
        }
    }

    open spec fn blank_view() -> SpliterSettingsView {
        SpliterSettingsView {
            season: None,
            episode: None,
            count: None,
            suffix_parts: None,
            screenshot_seconds: None,
            remove_parts: None,
        }
    }

    fn get_season(&self) -> (r: Option<u16>) {
        self.season
    }

    fn get_episode(&self) -> (r: Option<u16>) {
        self.episode
    }

    fn merge_with(&mut self, other: &Self) {
        if other.season.is_some() {
            self.season = other.season;
        }
        if other.episode.is_some() {
            self.episode = other.episode;
        }
        if other.count.is_some() {
            self.count = other.count;
        }
        if other.suffix_parts.is_some() {
            self.suffix_parts = copy_opt_texts(&other.suffix_parts);
        }
        if other.screenshot_seconds.is_some() {
            self.screenshot_seconds = copy_opt_list(&other.screenshot_seconds);
        }
        if other.remove_parts.is_some() {
            self.remove_parts = copy_opt_list(&other.remove_parts);
        }
    }

    fn blank() -> (r: Self) {
        SpliterSettings {
            season: None,
            episode: None,
            count: None,
            suffix_parts: None,
            screenshot_seconds: None,
            remove_parts: None,
        }
    }
}

/// Settings of the transcoding of one title's episodes.
#[derive(Debug)]
pub struct TransSettings {
    pub season: Option<u16>,
    pub episode: Option<u16>,
    pub exclude_segments: Option<Vec<(u64, u64)>>,
}

pub struct TransSettingsView {
    pub season: Option<u16>,
    pub episode: Option<u16>,
    pub exclude_segments: Option<Seq<(u64, u64)>>,
}

impl View for TransSettings {
    type V = TransSettingsView;

    open spec fn view(&self) -> TransSettingsView {
        TransSettingsView {
            season: self.season,
            episode: self.episode,
            exclude_segments: opt_view(self.exclude_segments),
        }
    }
}

impl EpisodeSettings for TransSettings {
    open spec fn season_of(&self) -> Option<u16> {
        self.season
    }

    open spec fn episode_of(&self) -> Option<u16> {
        self.episode
    }

    open spec fn overlay(base: TransSettingsView, top: TransSettingsView) -> TransSettingsView {
        TransSettingsView {
            season: pick(base.season, top.season),
            episode: pick(base.episode, top.episode),
            exclude_segments: pick(base.exclude_segments, top.exclude_segments),
        }
    }

    open spec fn blank_view() -> TransSettingsView {
        TransSettingsView { season: None, episode: None, exclude_segments: None }
    }

    fn get_season(&self) -> (r: Option<u16>) {
        self.season
    }

    fn get_episode(&self) -> (r: Option<u16>) {
        self.episode
    }

    fn merge_with(&mut self, other: &Self) {
        if other.season.is_some() {
            self.season = other.season;
        }
        if other.episode.is_some() {
            self.episode = other.episode;
        }
        if other.exclude_segments.is_some() {
            self.exclude_segments = copy_opt_list(&other.exclude_segments);
        }
    }

    fn blank() -> (r: Self) {
        TransSettings { season: None, episode: None, exclude_segments: None }
    }
}

/// Settings of the upload of one title's episodes.
#[derive(Debug)]
pub struct UploaderSettings {
    pub season: Option<u16>,
    pub episode: Option<u16>,
    pub dtime: Option<String>,
    pub tag: Option<String>,
}

pub struct UploaderSettingsView {
    pub season: Option<u16>,
    pub episode: Option<u16>,
    pub dtime: Option<String>,
    pub tag: Option<String>,
}

impl View for UploaderSettings {
    type V = UploaderSettingsView;

    open spec fn view(&self) -> UploaderSettingsView {
        UploaderSettingsView {
            season: self.season,
            episode: self.episode,
            dtime: self.dtime,
            tag: self.tag,
        }
    }
}

impl EpisodeSettings for UploaderSettings {
    open spec fn season_of(&self) -> Option<u16> {
        self.season
    }

    open spec fn episode_of(&self) -> Option<u16> {
        self.episode
    }

    open spec fn overlay(base: UploaderSettingsView, top: UploaderSettingsView) -> UploaderSettingsView {
        UploaderSettingsView {
            season: pick(base.season, top.season),
            episode: pick(base.episode, top.episode),
            dtime: pick(base.dtime, top.dtime),
            tag: pick(base.tag, top.tag),
        }
    }

    open spec fn blank_view() -> UploaderSettingsView {
        UploaderSettingsView { season: None, episode: None, dtime: None, tag: None }
    }

    fn get_season(&self) -> (r: Option<u16>) {
        self.season
    }

    fn get_episode(&self) -> (r: Option<u16>) {
        self.episode
    }

    fn merge_with(&mut self, other: &Self) {
        if other.season.is_some() {
            self.season = other.season;
        }
        if other.episode.is_some() {
            self.episode = other.episode;
        }
        if other.dtime.is_some() {
            self.dtime = copy_text(&other.dtime);
        }
        if other.tag.is_some() {
            self.tag = copy_text(&other.tag);
        }
    }

    fn blank() -> (r: Self) {
        UploaderSettings { season: None, episode: None, dtime: None, tag: None }
    }
}

} // verus!

verus! {

/// How one video is made: from a file or from named clips, with optional
/// ranges to keep or drop, trailing clips, and a transcode to 1080p.
#[derive(Debug)]
pub struct MarkSettings {
    pub id: String,
    pub title: String,
    pub path: Option<String>,
    pub parts: Option<Vec<String>>,
    pub suffix_parts: Option<Vec<String>>,
    pub with_suffix: Option<bool>,
    pub exclude_segments: Option<Vec<(u64, u64)>>,
    pub include_segments: Option<Vec<(u64, u64)>>,
    pub trans_1080p: Option<bool>,
}

pub struct MarkSettingsView {
    pub id: String,
    pub title: String,
    pub path: Option<String>,
    pub parts: Option<Seq<String>>,
    pub suffix_parts: Option<Seq<String>>,
    pub with_suffix: Option<bool>,
    pub exclude_segments: Option<Seq<(u64, u64)>>,
    pub include_segments: Option<Seq<(u64, u64)>>,
    pub trans_1080p: Option<bool>,
}

impl View for MarkSettings {
    type V = MarkSettingsView;

    open spec fn view(&self) -> MarkSettingsView {
        MarkSettingsView {
            id: self.id,
            title: self.title,
            path: self.path,
            parts: opt_view(self.parts),
            suffix_parts: opt_view(self.suffix_parts),
            with_suffix: self.with_suffix,
            exclude_segments: opt_view(self.exclude_segments),
            include_segments: opt_view(self.include_segments),
            trans_1080p: self.trans_1080p,
        }
    }
}

impl MarkSettings {
    /// Whether trailing clips are appended; yes unless configured otherwise.
    pub fn with_suffix(&self) -> (r: bool)
        ensures
            r == match self.with_suffix {
                Some(p) => p,
                None => true,
            },
    {
        match &self.with_suffix {
            Some(p) => *p,
            None => true,
        }
    }

    /// Whether the result is transcoded to 1080p; no unless configured.
    pub fn trans_1080p(&self) -> (r: bool)
        ensures
            r == match self.trans_1080p {
                Some(p) => p,
                None => false,
            },
    {
        match &self.trans_1080p {
            Some(p) => *p,
            None => false,
        }
    }

    fn copy(&self) -> (r: Self)
        ensures
            r@ == self@,
    {
        MarkSettings {
            id: self.id.clone(),
            title: self.title.clone(),
            path: copy_text(&self.path),
            parts: copy_opt_texts(&self.parts),
            suffix_parts: copy_opt_texts(&self.suffix_parts),
            with_suffix: self.with_suffix,
            exclude_segments: copy_opt_list(&self.exclude_segments),
            include_segments: copy_opt_list(&self.include_segments),
            trans_1080p: self.trans_1080p,
        }
    }
}

/// The first mark of `marks` with id `id`.
pub open spec fn first_mark(marks: Seq<MarkSettings>, id: Seq<char>) -> Option<int>
    decreases marks.len(),
{
    if marks.len() == 0 {
        None
    } else if marks.last().id@ == id {
        match first_mark(marks.drop_last(), id) {
            Some(i) => Some(i),
            None => Some(marks.len() - 1),
        }
    } else {
        first_mark(marks.drop_last(), id)
    }
}

proof fn lemma_first_mark_in_range(marks: Seq<MarkSettings>, id: Seq<char>)
    ensures
        first_mark(marks, id) matches Some(i) ==> 0 <= i < marks.len() && marks[i].id@ == id,
    decreases marks.len(),
{
    if marks.len() > 0 {
        lemma_first_mark_in_range(marks.drop_last(), id);
    }
}

/// All settings of one title.
#[derive(Debug)]
pub struct MediaSettings {
    pub name: String,
    pub title: String,
    pub media_dir: Option<String>,
    pub suffix_parts: Option<Vec<String>>,
    pub trans: Option<Vec<TransSettings>>,
    pub uploaders: Option<Vec<UploaderSettings>>,
    pub spliters: Option<Vec<SpliterSettings>>,
    pub marks: Option<Vec<MarkSettings>>,
    pub settings: Option<Settings>,
}

impl MediaSettings {
    /// The installation-wide settings this title was loaded with.
    pub fn settings(&self) -> (r: &Settings)
        requires
            self.settings is Some,
        ensures
            *r == self.settings->Some_0,
    {
        match &self.settings {
            Some(s) => s,
            None => unreached(),
        }
    }

    /// Where this title's media are stored: its own directory if set, else
    /// the installation's.
    pub fn media_dir(&self) -> (r: String)
        requires
            self.media_dir is Some || self.settings is Some,
        ensures
            r == match self.media_dir {
                Some(d) => d,
                None => self.settings->Some_0.app.media_dir,
            },
    {
        match &self.media_dir {
            Some(d) => d.clone(),
            None => self.settings().app.media_dir.clone(),
        }
    }

    /// The upload settings of one episode, see [`cascade`].
    pub fn get_uploader(&self, season: u16, episode: u16) -> (r: Option<UploaderSettings>)
        ensures
            match r {
                Some(x) => cascade(season, episode, None, seq_of(self.uploaders)) == Some(x@),
                None => cascade(season, episode, None::<UploaderSettings>, seq_of(self.uploaders)) is None,
            },
    {
        self.get_episode_settings(season, episode, &None, &self.uploaders)
    }

    /// The splitting settings of one episode, see [`cascade`].
    pub fn get_spliter(&self, season: u16, episode: u16) -> (r: Option<SpliterSettings>)
        ensures
            match r {
                Some(x) => cascade(season, episode, None, seq_of(self.spliters)) == Some(x@),
                None => cascade(season, episode, None::<SpliterSettings>, seq_of(self.spliters)) is None,
            },
    {
        self.get_episode_settings(season, episode, &None, &self.spliters)
    }

    /// The transcoding settings of one episode, see [`cascade`].
    pub fn get_trans(&self, season: u16, episode: u16) -> (r: Option<TransSettings>)
        ensures
            match r {
                Some(x) => cascade(season, episode, None, seq_of(self.trans)) == Some(x@),
                None => cascade(season, episode, None::<TransSettings>, seq_of(self.trans)) is None,
            },
    {
        self.get_episode_settings(season, episode, &None, &self.trans)
    }

    /// The mark with id `id`, with the title's trailing clips where it names
    /// none of its own.
    pub fn get_mark(&self, id: &str) -> (r: Option<MarkSettings>)
        ensures
            match first_mark(seq_of(self.marks), id@) {
                Some(i) => r matches Some(m) && {
                    let x = seq_of(self.marks)[i]@;
                    m@ == (MarkSettingsView {
                        suffix_parts: if x.suffix_parts is None {
                            opt_view(self.suffix_parts)
                        } else {
                            x.suffix_parts
                        },
                        ..x
                    })
                },
                None => r is None,
            },
    {
        match &self.marks {
            Some(marks) => {
                let mut i: usize = 0;
                let mut found: Option<usize> = None;
                while i < marks.len()
                    invariant
                        i <= marks@.len(),
                        match first_mark(marks@.take(i as int), id@) {
                            Some(k) => found == Some(k as usize) && k < i,
                            None => found is None,
                        },
                    decreases marks.len() - i,
                {
                    assert(marks@.take(i + 1).drop_last() =~= marks@.take(i as int));
                    proof {
                        lemma_first_mark_in_range(marks@.take(i as int), id@);
                    }
                    if found.is_none() && crate::text::same_text(marks[i].id.as_str(), id) {
                        found = Some(i);
                    }
                    i = i + 1;
                }
                assert(marks@.take(i as int) =~= marks@);
                proof {
                    lemma_first_mark_in_range(marks@, id@);
                }
                match found {
                    Some(k) => {
                        let mut mark = marks[k].copy();
                        if mark.suffix_parts.is_none() {
                            mark.suffix_parts = copy_opt_texts(&self.suffix_parts);
                        }
                        Some(mark)
                    },
                    None => None,
                }
            },
            None => None,
        }
    }

    /// The settings of one episode from a preset and a list of overlays, see
    /// [`cascade`].
    pub fn get_episode_settings<T: EpisodeSettings>(
        &self,
        season: u16,
        episode: u16,
        stg: &Option<T>,
        settings: &Option<Vec<T>>,
    ) -> (r: Option<T>)
        ensures
            match r {
                Some(x) => cascade(season, episode, *stg, seq_of(*settings)) == Some(x@),
                None => cascade(season, episode, *stg, seq_of(*settings)) is None,
            },
    {
        resolve(season, episode, stg, settings)
    }
}

} // verus!

verus! {

/// A field of the tier `tier` found by a search, unset when no tier was found.
pub open spec fn tier_field<T, A>(tier: Option<T>, field: spec_fn(T) -> Option<A>) -> Option<A> {
    match tier {
        Some(x) => field(x),
        None => None,
    }
}

/// The value a cascade gives a field whose tiers hold `default`, `season`
/// and `episode`: the most specific one that is set.
pub open spec fn most_specific<A>(default: Option<A>, season: Option<A>, episode: Option<A>) -> Option<A> {
    if episode is Some {
        episode
    } else if season is Some {
        season
    } else {
        default
    }
}

/// Resolving finds no configuration exactly when no preset is given and no
/// overlay is in the default tier, the season's tier or the episode's tier;
/// as soon as one is, there is a configuration, even if it sets no field.
pub proof fn lemma_cascade_absent<T: EpisodeSettings>(season: u16, episode: u16, preset: Option<T>, overlays: Seq<T>)
    ensures
        cascade(season, episode, preset, overlays) is None <==> (preset is None
            && first_in_tier(overlays, Tier::Default, season, episode) is None
            && first_in_tier(overlays, Tier::Season, season, episode) is None
            && first_in_tier(overlays, Tier::Episode, season, episode) is None),
{
}

/// In resolved upload settings each field holds the value of the most
/// specific tier that sets it: the episode's tier overrides the season's,
/// which overrides the default tier, and a tier that leaves the field unset
/// never clears what a less specific tier set.
pub proof fn lemma_uploader_precedence(season: u16, episode: u16, overlays: Seq<UploaderSettings>)
    ensures
        ({
            let d = first_in_tier(overlays, Tier::Default, season, episode);
            let s = first_in_tier(overlays, Tier::Season, season, episode);
            let e = first_in_tier(overlays, Tier::Episode, season, episode);
            cascade(season, episode, None, overlays) matches Some(v) ==> {
                &&& v.tag == most_specific(
                    tier_field(d, |x: UploaderSettings| x.tag),
                    tier_field(s, |x: UploaderSettings| x.tag),
                    tier_field(e, |x: UploaderSettings| x.tag),
                )
                &&& v.dtime == most_specific(
                    tier_field(d, |x: UploaderSettings| x.dtime),
                    tier_field(s, |x: UploaderSettings| x.dtime),
                    tier_field(e, |x: UploaderSettings| x.dtime),
                )
            }
        }),
{
}

/// In resolved splitting settings each field holds the value of the most
/// specific tier that sets it.
pub proof fn lemma_spliter_precedence(season: u16, episode: u16, overlays: Seq<SpliterSettings>)
    ensures
        ({
            let d = first_in_tier(overlays, Tier::Default, season, episode);
            let s = first_in_tier(overlays, Tier::Season, season, episode);
            let e = first_in_tier(overlays, Tier::Episode, season, episode);
            cascade(season, episode, None, overlays) matches Some(v) ==> {
                &&& v.count == most_specific(
                    tier_field(d, |x: SpliterSettings| x.count),
                    tier_field(s, |x: SpliterSettings| x.count),
                    tier_field(e, |x: SpliterSettings| x.count),
                )
                &&& v.suffix_parts == most_specific(
                    tier_field(d, |x: SpliterSettings| opt_view(x.suffix_parts)),
                    tier_field(s, |x: SpliterSettings| opt_view(x.suffix_parts)),
                    tier_field(e, |x: SpliterSettings| opt_view(x.suffix_parts)),
                )
                &&& v.screenshot_seconds == most_specific(
                    tier_field(d, |x: SpliterSettings| opt_view(x.screenshot_seconds)),
                    tier_field(s, |x: SpliterSettings| opt_view(x.screenshot_seconds)),
                    tier_field(e, |x: SpliterSettings| opt_view(x.screenshot_seconds)),
                )
                &&& v.remove_parts == most_specific(
                    tier_field(d, |x: SpliterSettings| opt_view(x.remove_parts)),
                    tier_field(s, |x: SpliterSettings| opt_view(x.remove_parts)),
                    tier_field(e, |x: SpliterSettings| opt_view(x.remove_parts)),
                )
            }
        }),
{
}

/// In resolved transcoding settings the excluded ranges are those of the
/// most specific tier that sets them.
pub proof fn lemma_trans_precedence(season: u16, episode: u16, overlays: Seq<TransSettings>)
    ensures
        ({
            let d = first_in_tier(overlays, Tier::Default, season, episode);
            let s = first_in_tier(overlays, Tier::Season, season, episode);
            let e = first_in_tier(overlays, Tier::Episode, season, episode);
            cascade(season, episode, None, overlays) matches Some(v) ==> v.exclude_segments == most_specific(
                tier_field(d, |x: TransSettings| opt_view(x.exclude_segments)),
                tier_field(s, |x: TransSettings| opt_view(x.exclude_segments)),
                tier_field(e, |x: TransSettings| opt_view(x.exclude_segments)),
            )
        }),
{
}

} // verus!
