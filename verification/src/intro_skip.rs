//! Skipping intros, recaps and outros: which segments there are, when to skip
//! one, and what to do then.

use crate::encoding::lowercase;
use crate::lobby::LobbyRole;
use crate::media_id::{
    copy_media, extract_video_id_from_url, is_imdb_id, looks_like_imdb_id, media_in,
    parse_video_id, video_id_in, video_id_of, MediaKey, MediaView, ParsedVideoId, VideoIdView,
};
use crate::number::{decimal, format_u64, real_zero, Real, HALF_BITS, INFINITY_BITS};
use crate::playback::text_in;
use crate::player::{has_passed, passed};
use crate::text::{
    chars_occur_at, chars_of, contains, has_text, is_ascii_alphanumeric, join, joined, occurs_at,
    same_text, split_on, texts, trim, trimmed,
};
use vstd::hash_map::StringHashMap;
use vstd::prelude::*;

verus! {

// ---------------------------------------------------------------------------
// Segments
// ---------------------------------------------------------------------------

/// What is to be skipped.
#[derive(Debug)]
pub struct IntroSkipConfig {
    pub enabled: bool,
    pub skip_intro: bool,
    pub skip_recap: bool,
    pub skip_outro: bool,
    /// The words that mark a chapter, in lower case.
    pub chapter_intro_words: Vec<String>,
    pub chapter_recap_words: Vec<String>,
    pub chapter_outro_words: Vec<String>,
    pub introdb_api_key: Option<String>,
    pub theintrodb_api_key: Option<String>,
}

#[derive(Debug, Clone, Copy, PartialEq, Eq, Structural)]
pub enum SegmentKind {
    Intro,
    Recap,
    Outro,
}

#[derive(Debug, Clone, Copy, PartialEq, Eq, Structural)]
pub enum IntroApi {
    IntroDbApp,
    TheIntroDb,
}

/// A point in time: in seconds, and rounded to milliseconds.
#[derive(Debug, Clone, Copy)]
pub struct Mark {
    pub sec: Real,
    pub ms: i64,
}

/// A stretch of time; without an end it lasts to the end of the file.
#[derive(Debug, Clone, Copy)]
pub struct IntroSegment {
    pub start: Mark,
    pub end: Option<Mark>,
}

#[derive(Debug, Clone, Copy)]
pub struct SkipSegment {
    pub api: IntroApi,
    pub kind: SegmentKind,
    pub segment: IntroSegment,
}

/// What tells two segments apart.
#[derive(Debug, Clone, Copy, PartialEq, Eq, Structural)]
pub struct SegmentKey {
    pub kind: SegmentKind,
    pub start_ms: i64,
    pub end_ms: i64,
}

#[derive(Debug, Clone, Copy)]
pub enum SkipAction {
    Seek(Real),
    NextTrack,
}

impl SegmentKind {
    pub fn label(&self) -> (label: String)
        ensures
            label@ == match *self {
                SegmentKind::Intro => "intro"@,
                SegmentKind::Recap => "recap"@,
                SegmentKind::Outro => "outro"@,
            },
    {
        match self {
            SegmentKind::Intro => "intro".to_string(),
            SegmentKind::Recap => "recap".to_string(),
            SegmentKind::Outro => "outro".to_string(),
        }
    }
}

impl IntroApi {
    pub fn label(&self) -> (label: String)
        ensures
            label@ == match *self {
                IntroApi::IntroDbApp => "introdb.app"@,
                IntroApi::TheIntroDb => "api.theintrodb.org"@,
            },
    {
        match self {
            IntroApi::IntroDbApp => "introdb.app".to_string(),
            IntroApi::TheIntroDb => "api.theintrodb.org".to_string(),
        }
    }
}

impl SkipSegment {
    pub open spec fn key_of(self) -> SegmentKey {
        SegmentKey {
            kind: self.kind,
            start_ms: self.segment.start.ms,
            end_ms: match self.segment.end {
                Some(end) => end.ms,
                None => (-1) as i64,
            },
        }
    }

    pub fn key(&self) -> (key: SegmentKey)
        ensures
            key == self.key_of(),
    {
        SegmentKey {
            kind: self.kind,
            start_ms: self.segment.start.ms,
            end_ms: match self.segment.end {
                Some(end) => end.ms,
                None => -1,
            },
        }
    }
}

impl IntroSkipConfig {
    pub open spec fn enables(&self, kind: SegmentKind) -> bool {
        match kind {
            SegmentKind::Intro => self.skip_intro,
            SegmentKind::Recap => self.skip_recap,
            SegmentKind::Outro => self.skip_outro,
        }
    }

    pub fn segment_enabled(&self, kind: SegmentKind) -> (yes: bool)
        ensures
            yes == self.enables(kind),
    {
        match kind {
            SegmentKind::Intro => self.skip_intro,
            SegmentKind::Recap => self.skip_recap,
            SegmentKind::Outro => self.skip_outro,
        }
    }
}

// ---------------------------------------------------------------------------
// Reading what the databases say
// ---------------------------------------------------------------------------

/// A segment as introdb.app gives it.
#[derive(Debug, Clone, Copy)]
pub struct IntroDbSegment {
    pub start: Option<Mark>,
    pub end: Option<Mark>,
}

pub open spec fn zero_mark() -> Mark {
    Mark { sec: real_zero(), ms: 0 }
}

/// The segment, where it starts at a time and ends later, or need not end.
pub open spec fn usable_segment(seg: Option<IntroDbSegment>, allow_missing_end: bool) -> Option<
    IntroSegment,
> {
    match seg {
        None => None,
        Some(seg) => {
            let start = match seg.start {
                Some(start) => start,
                None => zero_mark(),
            };
            let ends_well = match seg.end {
                Some(end) => end.sec.finite() && !end.sec.at_most(start.sec),
                None => allow_missing_end,
            };
            if start.sec.finite() && ends_well {
                Some(IntroSegment { start, end: seg.end })
            } else {
                None
            }
        },
    }
}

pub fn normalize_introdb_segment(seg: Option<IntroDbSegment>, allow_missing_end: bool) -> (usable: Option<
    IntroSegment,
>)
    ensures
        usable == usable_segment(seg, allow_missing_end),
{
    match seg {
        None => None,
        Some(seg) => {
            let start = match seg.start {
                Some(start) => start,
                None => Mark { sec: Real::from_bits(0), ms: 0 },
            };
            if !start.sec.is_finite() {
                return None;
            }
            match seg.end {
                Some(end) => {
                    if !end.sec.is_finite() || end.sec.le(&start.sec) {
                        return None;
                    }
                },
                None => {
                    if !allow_missing_end {
                        return None;
                    }
                },
            }
            Some(IntroSegment { start, end: seg.end })
        },
    }
}

/// The segment of a kind in a list of none or one.
pub open spec fn introdb_part(
    wanted: bool,
    kind: SegmentKind,
    seg: Option<IntroDbSegment>,
) -> Seq<SkipSegment> {
    match usable_segment(seg, kind == SegmentKind::Outro) {
        Some(segment) => if wanted {
            seq![SkipSegment { api: IntroApi::IntroDbApp, kind, segment }]
        } else {
            Seq::empty()
        },
        None => Seq::empty(),
    }
}

/// The segments in an answer of introdb.app.
pub fn introdb_segments(
    config: &IntroSkipConfig,
    intro: Option<IntroDbSegment>,
    recap: Option<IntroDbSegment>,
    outro: Option<IntroDbSegment>,
) -> (segments: Vec<SkipSegment>)
    ensures
        segments@ == introdb_part(config.skip_intro, SegmentKind::Intro, intro) + introdb_part(
            config.skip_recap,
            SegmentKind::Recap,
            recap,
        ) + introdb_part(config.skip_outro, SegmentKind::Outro, outro),
{
    let mut segments: Vec<SkipSegment> = Vec::new();
    let api = IntroApi::IntroDbApp;
    if config.skip_intro {
        match normalize_introdb_segment(intro, false) {
            Some(segment) => segments.push(SkipSegment { api, kind: SegmentKind::Intro, segment }),
            None => {},
        }
    }
    assert(segments@ =~= introdb_part(config.skip_intro, SegmentKind::Intro, intro));
    if config.skip_recap {
        match normalize_introdb_segment(recap, false) {
            Some(segment) => segments.push(SkipSegment { api, kind: SegmentKind::Recap, segment }),
            None => {},
        }
    }
    assert(segments@ =~= introdb_part(config.skip_intro, SegmentKind::Intro, intro) + introdb_part(
        config.skip_recap,
        SegmentKind::Recap,
        recap,
    ));
    if config.skip_outro {
        match normalize_introdb_segment(outro, true) {
            Some(segment) => segments.push(SkipSegment { api, kind: SegmentKind::Outro, segment }),
            None => {},
        }
    }
    segments
}

/// A number of milliseconds and the point in time that it stands for.
#[derive(Debug, Clone, Copy)]
pub struct Millis {
    pub ms: i64,
    pub mark: Mark,
}

/// A segment as api.theintrodb.org gives it.
#[derive(Debug, Clone, Copy)]
pub struct TimeRange {
    pub start: Option<Millis>,
    pub end: Option<Millis>,
}

/// The segment, where it ends after it starts, or need not end.
pub open spec fn usable_range(range: TimeRange, kind: SegmentKind) -> Option<SkipSegment> {
    let start = match range.start {
        Some(start) => start,
        None => Millis { ms: 0, mark: zero_mark() },
    };
    let segment = IntroSegment {
        start: start.mark,
        end: match range.end {
            Some(end) => Some(end.mark),
            None => None,
        },
    };
    let ends_well = match range.end {
        Some(end) => end.ms > start.ms && end.mark.sec.finite() && !end.mark.sec.at_most(
            start.mark.sec,
        ),
        None => kind == SegmentKind::Outro,
    };
    if start.mark.sec.finite() && ends_well {
        Some(SkipSegment { api: IntroApi::TheIntroDb, kind, segment })
    } else {
        None
    }
}

fn read_range(range: TimeRange, kind: SegmentKind) -> (segment: Option<SkipSegment>)
    ensures
        segment == usable_range(range, kind),
{
    let start = match range.start {
        Some(start) => start,
        None => Millis { ms: 0, mark: Mark { sec: Real::from_bits(0), ms: 0 } },
    };
    if !start.mark.sec.is_finite() {
        return None;
    }
    let end = match range.end {
        Some(end) => {
            if end.ms <= start.ms || !end.mark.sec.is_finite() || end.mark.sec.le(
                &start.mark.sec,
            ) {
                return None;
            }
            Some(end.mark)
        },
        None => {
            if kind != SegmentKind::Outro {
                return None;
            }
            None
        },
    };
    Some(
        SkipSegment {
            api: IntroApi::TheIntroDb,
            kind,
            segment: IntroSegment { start: start.mark, end },
        },
    )
}

/// The usable segments of a kind, in the order of the answer.
pub open spec fn usable_ranges(ranges: Seq<TimeRange>, kind: SegmentKind) -> Seq<SkipSegment>
    decreases ranges.len(),
{
    if ranges.len() == 0 {
        Seq::empty()
    } else {
        let before = usable_ranges(ranges.drop_last(), kind);
        match usable_range(ranges.last(), kind) {
            Some(segment) => before.push(segment),
            None => before,
        }
    }
}

// ---------------------------------------------------------------------------
// Ordering
// ---------------------------------------------------------------------------

/// How many of the first segments start no later than the given time.
pub open spec fn not_later(segments: Seq<SkipSegment>, start: Real) -> int
    decreases segments.len(),
{
    if segments.len() == 0 || !start.less(segments.last().segment.start.sec) {
        segments.len() as int
    } else {
        not_later(segments.drop_last(), start)
    }
}

/// The segments with one more, behind all that start no later.
pub open spec fn with_segment(segments: Seq<SkipSegment>, one: SkipSegment) -> Seq<SkipSegment> {
    segments.insert(not_later(segments, one.segment.start.sec), one)
}

/// The segments by their starts; those that start together stay in order.
pub open spec fn by_start(segments: Seq<SkipSegment>) -> Seq<SkipSegment>
    decreases segments.len(),
{
    if segments.len() == 0 {
        Seq::empty()
    } else {
        with_segment(by_start(segments.drop_last()), segments.last())
    }
}

proof fn not_later_bounds(segments: Seq<SkipSegment>, start: Real)
    ensures
        0 <= not_later(segments, start) <= segments.len(),
    decreases segments.len(),
{
    if segments.len() > 0 && start.less(segments.last().segment.start.sec) {
        not_later_bounds(segments.drop_last(), start);
    }
}

fn insert_segment(segments: &mut Vec<SkipSegment>, one: SkipSegment)
    ensures
        final(segments)@ == with_segment(old(segments)@, one),
{
    let ghost all = segments@;
    let start = one.segment.start.sec;
    let mut i: usize = segments.len();
    assert(all.take(all.len() as int) =~= all);
    while i > 0 && start.lt(&segments[i - 1].segment.start.sec)
        invariant
            segments@ == all,
            i <= all.len(),
            start == one.segment.start.sec,
            not_later(all.take(i as int), start) == not_later(all, start),
        ensures
            i == 0 || !start.less(all[i - 1].segment.start.sec),
        decreases i,
    {
        assert(all.take(i as int).drop_last() =~= all.take(i - 1));
        i = i - 1;
    }
    segments.insert(i, one);
}

fn sort_segments(segments: &Vec<SkipSegment>) -> (sorted: Vec<SkipSegment>)
    ensures
        sorted@ == by_start(segments@),
{
    let mut sorted: Vec<SkipSegment> = Vec::new();
    assert(by_start(segments@.take(0)) =~= sorted@);
    for i in 0..segments.len()
        invariant
            sorted@ == by_start(segments@.take(i as int)),
    {
        assert(segments@.take(i + 1).drop_last() =~= segments@.take(i as int));
        insert_segment(&mut sorted, segments[i]);
    }
    assert(segments@.take(segments@.len() as int) =~= segments@);
    sorted
}

/// The segments of a kind in an answer of api.theintrodb.org, by their starts.
pub fn parse_theintrodb_ranges(ranges: &Vec<TimeRange>, kind: SegmentKind) -> (segments: Vec<
    SkipSegment,
>)
    ensures
        segments@ == by_start(usable_ranges(ranges@, kind)),
{
    let mut usable: Vec<SkipSegment> = Vec::new();
    assert(usable@ =~= usable_ranges(ranges@.take(0), kind));
    for i in 0..ranges.len()
        invariant
            usable@ == usable_ranges(ranges@.take(i as int), kind),
    {
        assert(ranges@.take(i + 1).drop_last() =~= ranges@.take(i as int));
        match read_range(ranges[i], kind) {
            Some(segment) => usable.push(segment),
            None => {},
        }
    }
    assert(ranges@.take(ranges@.len() as int) =~= ranges@);
    sort_segments(&usable)
}

pub open spec fn theintrodb_part(wanted: bool, kind: SegmentKind, ranges: Seq<TimeRange>) -> Seq<
    SkipSegment,
> {
    if wanted {
        by_start(usable_ranges(ranges, kind))
    } else {
        Seq::empty()
    }
}

fn append_segments(segments: &mut Vec<SkipSegment>, more: &Vec<SkipSegment>)
    ensures
        final(segments)@ == old(segments)@ + more@,
{
    for i in 0..more.len()
        invariant
            segments@ == old(segments)@ + more@.take(i as int),
    {
        segments.push(more[i]);
        assert(more@.take(i + 1) =~= more@.take(i as int).push(more@[i as int]));
    }
    assert(more@.take(more@.len() as int) =~= more@);
}

/// The segments in an answer of api.theintrodb.org; credits are outros.
pub fn theintrodb_segments(
    config: &IntroSkipConfig,
    intro: &Vec<TimeRange>,
    recap: &Vec<TimeRange>,
    credits: &Vec<TimeRange>,
) -> (segments: Vec<SkipSegment>)
    ensures
        segments@ == theintrodb_part(config.skip_intro, SegmentKind::Intro, intro@)
            + theintrodb_part(config.skip_recap, SegmentKind::Recap, recap@) + theintrodb_part(
            config.skip_outro,
            SegmentKind::Outro,
            credits@,
        ),
{
    let mut segments: Vec<SkipSegment> = Vec::new();
    if config.skip_intro {
        append_segments(&mut segments, &parse_theintrodb_ranges(intro, SegmentKind::Intro));
    }
    assert(segments@ =~= theintrodb_part(config.skip_intro, SegmentKind::Intro, intro@));
    if config.skip_recap {
        append_segments(&mut segments, &parse_theintrodb_ranges(recap, SegmentKind::Recap));
    }
    assert(segments@ =~= theintrodb_part(config.skip_intro, SegmentKind::Intro, intro@)
        + theintrodb_part(config.skip_recap, SegmentKind::Recap, recap@));
    if config.skip_outro {
        append_segments(&mut segments, &parse_theintrodb_ranges(credits, SegmentKind::Outro));
    }
    segments
}

// ---------------------------------------------------------------------------
// Fetching
// ---------------------------------------------------------------------------

/// The address at introdb.app for an episode.
pub open spec fn introdb_url_of(m: MediaView) -> Option<Seq<char>> {
    if m.is_episode() {
        Some(
            "https://api.introdb.app/segments?imdb_id="@ + m.imdb_id + "&season="@ + decimal(
                m.season->0 as nat,
            ) + "&episode="@ + decimal(m.episode->0 as nat),
        )
    } else {
        None
    }
}

pub fn introdb_url(key: &MediaKey) -> (url: Option<String>)
    ensures
        match url {
            Some(u) => introdb_url_of(key@) == Some(u@),
            None => introdb_url_of(key@) is None,
        },
{
    match (key.season, key.episode) {
        (Some(season), Some(episode)) => {
            let mut url = "https://api.introdb.app/segments?imdb_id=".to_string();
            url.append(key.imdb_id.as_str());
            url.append("&season=");
            url.append(format_u64(season as u64).as_str());
            url.append("&episode=");
            url.append(format_u64(episode as u64).as_str());
            Some(url)
        },
        _ => None,
    }
}

/// The address at api.theintrodb.org.
pub open spec fn theintrodb_url_of(m: MediaView) -> Seq<char> {
    let url = "https://api.theintrodb.org/v2/media?imdb_id="@ + m.imdb_id;
    if m.is_episode() {
        url + "&season="@ + decimal(m.season->0 as nat) + "&episode="@ + decimal(
            m.episode->0 as nat,
        )
    } else {
        url
    }
}

pub fn theintrodb_url(key: &MediaKey) -> (url: String)
    ensures
        url@ == theintrodb_url_of(key@),
{
    let mut url = "https://api.theintrodb.org/v2/media?imdb_id=".to_string();
    url.append(key.imdb_id.as_str());
    match (key.season, key.episode) {
        (Some(season), Some(episode)) => {
            url.append("&season=");
            url.append(format_u64(season as u64).as_str());
            url.append("&episode=");
            url.append(format_u64(episode as u64).as_str());
        },
        _ => {},
    }
    url
}

/// A key that is worth sending: one that is not blank, without the white space
/// around it.
pub open spec fn key_to_send(key: Option<Seq<char>>) -> Option<Seq<char>> {
    match key {
        Some(k) => if trimmed(k).len() > 0 {
            Some(trimmed(k))
        } else {
            None
        },
        None => None,
    }
}

fn usable_key(key: &Option<String>) -> (send: Option<String>)
    ensures
        text_in(send) == key_to_send(text_in(*key)),
{
    match key {
        Some(k) => {
            let bare = trim(k.as_str());
            if bare.as_str().is_empty() {
                None
            } else {
                Some(bare)
            }
        },
        None => None,
    }
}

/// The value of the header `X-API-Key` for introdb.app.
pub fn introdb_header(config: &IntroSkipConfig) -> (value: Option<String>)
    ensures
        text_in(value) == key_to_send(text_in(config.introdb_api_key)),
{
    usable_key(&config.introdb_api_key)
}

/// The value of the header `Authorization` for api.theintrodb.org.
pub fn theintrodb_header(config: &IntroSkipConfig) -> (value: Option<String>)
    ensures
        text_in(value) == match key_to_send(text_in(config.theintrodb_api_key)) {
            Some(k) => Some("Bearer "@ + k),
            None => None,
        },
{
    match usable_key(&config.theintrodb_api_key) {
        Some(key) => {
            let mut value = "Bearer ".to_string();
            value.append(key.as_str());
            Some(value)
        },
        None => None,
    }
}

/// Some of the segments are of the kind.
pub open spec fn has_kind(segments: Seq<SkipSegment>, kind: SegmentKind) -> bool {
    exists|i: int| 0 <= i < segments.len() && (#[trigger] segments[i]).kind == kind
}

fn holds_kind(segments: &Vec<SkipSegment>, kind: SegmentKind) -> (yes: bool)
    ensures
        yes == has_kind(segments@, kind),
{
    for i in 0..segments.len()
        invariant
            forall|j: int| 0 <= j < i ==> (#[trigger] segments@[j]).kind != kind,
    {
        if segments[i].kind == kind {
            return true;
        }
    }
    false
}

/// A kind that is wanted and that introdb.app did not give.
pub open spec fn missing(config: &IntroSkipConfig, first: Seq<SkipSegment>, kind: SegmentKind) -> bool {
    config.enables(kind) && !has_kind(first, kind)
}

/// Whether api.theintrodb.org is asked, after introdb.app gave the segments:
/// for a film in any case, for an episode where a kind is missing.
pub open spec fn asks_second(
    config: &IntroSkipConfig,
    episode: bool,
    first: Seq<SkipSegment>,
) -> bool {
    ||| !episode
    ||| missing(config, first, SegmentKind::Intro)
    ||| missing(config, first, SegmentKind::Recap)
    ||| missing(config, first, SegmentKind::Outro)
}

/// Whether api.theintrodb.org is asked. `first` is what introdb.app gave, with
/// nothing where it failed or was not asked.
pub fn wants_theintrodb(config: &IntroSkipConfig, key: &MediaKey, first: &Vec<SkipSegment>) -> (wants: bool)
    ensures
        wants == asks_second(config, key@.is_episode(), first@),
{
    !key.is_episode() || (config.skip_intro && !holds_kind(first, SegmentKind::Intro)) || (
    config.skip_recap && !holds_kind(first, SegmentKind::Recap)) || (config.skip_outro
        && !holds_kind(first, SegmentKind::Outro))
}

/// The segments of the second source that fill a gap of the first; for a film
/// all of them do.
pub open spec fn filling(
    config: &IntroSkipConfig,
    episode: bool,
    first: Seq<SkipSegment>,
    second: Seq<SkipSegment>,
) -> Seq<SkipSegment>
    decreases second.len(),
{
    if second.len() == 0 {
        Seq::empty()
    } else {
        let before = filling(config, episode, first, second.drop_last());
        if !episode || missing(config, first, second.last().kind) {
            before.push(second.last())
        } else {
            before
        }
    }
}

/// The segments of the kinds that are skipped.
pub open spec fn enabled_only(config: &IntroSkipConfig, segments: Seq<SkipSegment>) -> Seq<SkipSegment>
    decreases segments.len(),
{
    if segments.len() == 0 {
        Seq::empty()
    } else {
        let before = enabled_only(config, segments.drop_last());
        if config.enables(segments.last().kind) {
            before.push(segments.last())
        } else {
            before
        }
    }
}

/// What a source came up with.
#[derive(Debug)]
pub enum Fetched {
    /// The source was not asked.
    Skipped,
    Segments(Vec<SkipSegment>),
    Failed,
}

impl Fetched {
    /// The segments that came, if any.
    pub open spec fn given(self) -> Seq<SkipSegment> {
        match self {
            Fetched::Segments(segments) => segments@,
            _ => Seq::empty(),
        }
    }
}

/// Whose failure is reported.
#[derive(Debug, Clone, Copy, PartialEq, Eq, Structural)]
pub enum FetchError {
    IntroDb,
    TheIntroDb,
}

/// The segments of both sources together, by their starts, where there are
/// any. The second source's failure counts only where the first gave nothing,
/// and the first's only where nothing is left in the end.
pub open spec fn merged(
    config: &IntroSkipConfig,
    episode: bool,
    first: Fetched,
    second: Fetched,
) -> Result<Option<Seq<SkipSegment>>, FetchError> {
    let all = first.given() + filling(config, episode, first.given(), second.given());
    let kept = enabled_only(config, all);
    if second is Failed && first.given().len() == 0 {
        Err(FetchError::TheIntroDb)
    } else if kept.len() > 0 {
        Ok(Some(by_start(kept)))
    } else if first is Failed {
        Err(FetchError::IntroDb)
    } else {
        Ok(None)
    }
}

/// A list in an option, by its view.
pub open spec fn list_in(r: Result<Option<Vec<SkipSegment>>, FetchError>) -> Result<
    Option<Seq<SkipSegment>>,
    FetchError,
> {
    match r {
        Ok(Some(segments)) => Ok(Some(segments@)),
        Ok(None) => Ok(None),
        Err(e) => Err(e),
    }
}

/// Puts together what both sources came up with.
pub fn merge_segments(config: &IntroSkipConfig, key: &MediaKey, first: Fetched, second: Fetched) -> (segments: Result<
    Option<Vec<SkipSegment>>,
    FetchError,
>)
    ensures
        list_in(segments) == merged(config, key@.is_episode(), first, second),
{
    let episode = key.is_episode();
    let first_failed = match &first {
        Fetched::Failed => true,
        _ => false,
    };
    let second_failed = match &second {
        Fetched::Failed => true,
        _ => false,
    };
    let ghost given = first.given();
    let ghost more = second.given();
    let first_segments = match first {
        Fetched::Segments(segments) => segments,
        _ => Vec::new(),
    };
    let second_segments = match second {
        Fetched::Segments(segments) => segments,
        _ => Vec::new(),
    };
    assert(first_segments@ =~= given);
    assert(second_segments@ =~= more);
    if second_failed && first_segments.len() == 0 {
        return Err(FetchError::TheIntroDb);
    }
    let no_intro = config.skip_intro && !holds_kind(&first_segments, SegmentKind::Intro);
    let no_recap = config.skip_recap && !holds_kind(&first_segments, SegmentKind::Recap);
    let no_outro = config.skip_outro && !holds_kind(&first_segments, SegmentKind::Outro);
    let mut all: Vec<SkipSegment> = Vec::new();
    append_segments(&mut all, &first_segments);
    assert(all@ =~= given + filling(config, episode, given, more.take(0)));
    for i in 0..second_segments.len()
        invariant
            second_segments@ == more,
            no_intro == missing(config, given, SegmentKind::Intro),
            no_recap == missing(config, given, SegmentKind::Recap),
            no_outro == missing(config, given, SegmentKind::Outro),
            all@ == given + filling(config, episode, given, more.take(i as int)),
    {
        let segment = second_segments[i];
        assert(more.take(i + 1).drop_last() =~= more.take(i as int));
        let gap = match segment.kind {
            SegmentKind::Intro => no_intro,
            SegmentKind::Recap => no_recap,
            SegmentKind::Outro => no_outro,
        };
        if !episode || gap {
            all.push(segment);
        }
        assert(all@ =~= given + filling(config, episode, given, more.take(i + 1)));
    }
    assert(more.take(more.len() as int) =~= more);
    let mut kept: Vec<SkipSegment> = Vec::new();
    assert(kept@ =~= enabled_only(config, all@.take(0)));
    for i in 0..all.len()
        invariant
            kept@ == enabled_only(config, all@.take(i as int)),
    {
        assert(all@.take(i + 1).drop_last() =~= all@.take(i as int));
        if config.segment_enabled(all[i].kind) {
            kept.push(all[i]);
        }
    }
    assert(all@.take(all@.len() as int) =~= all@);
    if kept.len() == 0 {
        if first_failed {
            return Err(FetchError::IntroDb);
        }
        return Ok(None);
    }
    Ok(Some(sort_segments(&kept)))
}

// ---------------------------------------------------------------------------
// Kitsu ids
// ---------------------------------------------------------------------------

/// An episode in an answer of the Kitsu catalogue.
#[derive(Debug)]
pub struct KitsuVideo {
    pub id: String,
    pub imdb_id: Option<String>,
    pub imdb_season: Option<u32>,
    pub imdb_episode: Option<u32>,
}

/// An answer of the Kitsu catalogue.
#[derive(Debug)]
pub struct KitsuMeta {
    pub imdb_id: Option<String>,
    pub videos: Vec<KitsuVideo>,
}

/// What is known of Kitsu ids.
pub type KitsuCache = StringHashMap<Option<MediaKey>>;

/// The media in a map.
pub open spec fn kitsu_views(map: Map<Seq<char>, Option<MediaKey>>) -> Map<Seq<char>, Option<MediaView>> {
    map.map_values(|m: Option<MediaKey>| media_in(m))
}

/// The episode that a video of the catalogue stands for, where that is clear.
pub open spec fn kitsu_media(series: Option<Seq<char>>, video: KitsuVideo) -> Option<MediaView> {
    let id = match video.imdb_id {
        Some(id) => Some(id@),
        None => series,
    };
    if id is Some && video.imdb_season is Some && video.imdb_episode is Some && is_imdb_id(id->0)
        && video.imdb_season->0 != 0 && video.imdb_episode->0 != 0 {
        Some(
            MediaView { imdb_id: id->0, season: video.imdb_season, episode: video.imdb_episode },
        )
    } else {
        None
    }
}

/// The map with all episodes of an answer that are clear.
pub open spec fn with_videos(
    known: Map<Seq<char>, Option<MediaView>>,
    series: Option<Seq<char>>,
    videos: Seq<KitsuVideo>,
) -> Map<Seq<char>, Option<MediaView>>
    decreases videos.len(),
{
    if videos.len() == 0 {
        known
    } else {
        let before = with_videos(known, series, videos.drop_last());
        match kitsu_media(series, videos.last()) {
            Some(m) => before.insert(videos.last().id@, Some(m)),
            None => before,
        }
    }
}

/// The media under an id, or none.
pub open spec fn media_under(known: Map<Seq<char>, Option<MediaView>>, id: Seq<char>) -> Option<
    MediaView,
> {
    if known.contains_key(id) {
        known[id]
    } else {
        None
    }
}

fn read_video(series: &Option<String>, video: &KitsuVideo) -> (media: Option<MediaKey>)
    ensures
        media_in(media) == kitsu_media(text_in(*series), *video),
{
    let imdb_id = match &video.imdb_id {
        Some(id) => id.clone(),
        None => match series {
            Some(id) => id.clone(),
            None => return None,
        },
    };
    match (video.imdb_season, video.imdb_episode) {
        (Some(season), Some(episode)) => {
            if !looks_like_imdb_id(imdb_id.as_str()) || season == 0 || episode == 0 {
                return None;
            }
            Some(MediaKey { imdb_id, season: Some(season), episode: Some(episode) })
        },
        _ => None,
    }
}

fn remember_media(cache: &mut KitsuCache, id: &str, media: Option<MediaKey>)
    ensures
        kitsu_views(final(cache)@) == kitsu_views(old(cache)@).insert(id@, media_in(media)),
{
    let ghost m = media_in(media);
    cache.insert(id.to_string(), media);
    assert(kitsu_views(cache@) =~= kitsu_views(old(cache)@).insert(id@, m));
}

fn known_media(cache: &KitsuCache, id: &str) -> (known: Option<Option<MediaKey>>)
    ensures
        match known {
            Some(m) => kitsu_views(cache@).contains_key(id@) && kitsu_views(cache@)[id@]
                == media_in(m),
            None => !kitsu_views(cache@).contains_key(id@),
        },
{
    match cache.get(id) {
        Some(media) => Some(copy_media(media)),
        None => None,
    }
}

/// Takes in the catalogue's answer for a series, or that there is none, and
/// gives the media of the episode that was asked for.
pub fn kitsu_series_answer(cache: &mut KitsuCache, target: &str, answer: Option<KitsuMeta>) -> (media: Option<
    MediaKey,
>)
    ensures
        kitsu_views(final(cache)@) == match answer {
            None => kitsu_views(old(cache)@).insert(target@, None),
            Some(meta) => with_videos(
                kitsu_views(old(cache)@),
                text_in(meta.imdb_id),
                meta.videos@,
            ),
        },
        media_in(media) == media_under(kitsu_views(final(cache)@), target@),
{
    match answer {
        None => {
            remember_media(cache, target, None);
            None
        },
        Some(meta) => {
            let ghost known = kitsu_views(cache@);
            let ghost series = text_in(meta.imdb_id);
            assert(kitsu_views(cache@) == with_videos(known, series, meta.videos@.take(0)));
            for i in 0..meta.videos.len()
                invariant
                    series == text_in(meta.imdb_id),
                    kitsu_views(cache@) == with_videos(known, series, meta.videos@.take(i as int)),
            {
                let video = &meta.videos[i];
                assert(meta.videos@.take(i + 1).drop_last() =~= meta.videos@.take(i as int));
                match read_video(&meta.imdb_id, video) {
                    Some(media) => remember_media(cache, video.id.as_str(), Some(media)),
                    None => {},
                }
            }
            assert(meta.videos@.take(meta.videos@.len() as int) =~= meta.videos@);
            match known_media(cache, target) {
                Some(media) => media,
                None => None,
            }
        },
    }
}

/// The film that an answer of the catalogue stands for.
pub open spec fn kitsu_film(imdb_id: Option<Seq<char>>) -> Option<MediaView> {
    match imdb_id {
        Some(id) => if is_imdb_id(id) {
            Some(MediaView { imdb_id: id, season: None, episode: None })
        } else {
            None
        },
        None => None,
    }
}

/// Takes in the catalogue's answer for a film, or that there is none.
pub fn kitsu_movie_answer(cache: &mut KitsuCache, target: &str, answer: Option<KitsuMeta>) -> (media: Option<
    MediaKey,
>)
    ensures
        media_in(media) == match answer {
            None => None,
            Some(meta) => kitsu_film(text_in(meta.imdb_id)),
        },
        kitsu_views(final(cache)@) == kitsu_views(old(cache)@).insert(target@, media_in(media)),
{
    let media = match answer {
        None => None,
        Some(meta) => match meta.imdb_id {
            Some(imdb_id) => if looks_like_imdb_id(imdb_id.as_str()) {
                Some(MediaKey { imdb_id, season: None, episode: None })
            } else {
                None
            },
            None => None,
        },
    };
    remember_media(cache, target, copy_media(&media));
    media
}

/// How to find out what an id stands for.
#[derive(Debug)]
pub enum MediaLookup {
    /// It stands for this, or for nothing.
    Known(Option<MediaKey>),
    /// The catalogue is to be asked for a series.
    KitsuSeries { url: String, video_id: String },
    /// The catalogue is to be asked for a film.
    KitsuMovie { url: String, video_id: String },
}

#[verifier::ext_equal]
pub enum LookupView {
    Known(Option<MediaView>),
    KitsuSeries { url: Seq<char>, video_id: Seq<char> },
    KitsuMovie { url: Seq<char>, video_id: Seq<char> },
}

impl View for MediaLookup {
    type V = LookupView;

    open spec fn view(&self) -> LookupView {
        match *self {
            MediaLookup::Known(m) => LookupView::Known(media_in(m)),
            MediaLookup::KitsuSeries { url, video_id } => LookupView::KitsuSeries {
                url: url@,
                video_id: video_id@,
            },
            MediaLookup::KitsuMovie { url, video_id } => LookupView::KitsuMovie {
                url: url@,
                video_id: video_id@,
            },
        }
    }
}

/// How to find out what an id stands for.
pub open spec fn lookup_of(
    video_id: Seq<char>,
    known: Map<Seq<char>, Option<MediaView>>,
) -> LookupView {
    match video_id_of(split_on(video_id, ':')) {
        None => LookupView::Known(None),
        Some(VideoIdView::ImdbMovie { imdb_id }) => LookupView::Known(
            Some(MediaView { imdb_id, season: None, episode: None }),
        ),
        Some(VideoIdView::ImdbEpisode { imdb_id, season, episode }) => LookupView::Known(
            if is_imdb_id(imdb_id) && season != 0 && episode != 0 {
                Some(MediaView { imdb_id, season: Some(season), episode: Some(episode) })
            } else {
                None
            },
        ),
        Some(VideoIdView::KitsuEpisode { kitsu_series_id, kitsu_episode }) => {
            let id = "kitsu:"@ + kitsu_series_id + ":"@ + decimal(kitsu_episode as nat);
            if known.contains_key(id) {
                LookupView::Known(known[id])
            } else {
                LookupView::KitsuSeries {
                    url: "https://anime-kitsu.strem.fun/meta/series/kitsu:"@ + kitsu_series_id
                        + ".json"@,
                    video_id: id,
                }
            }
        },
        Some(VideoIdView::KitsuMovie { kitsu_id }) => {
            let id = "kitsu:"@ + kitsu_id;
            if known.contains_key(id) {
                LookupView::Known(known[id])
            } else {
                LookupView::KitsuMovie {
                    url: "https://anime-kitsu.strem.fun/meta/movie/kitsu:"@ + kitsu_id + ".json"@,
                    video_id: id,
                }
            }
        },
    }
}

/// How to find out what an id stands for.
pub fn look_up_media(video_id: &str, cache: &KitsuCache) -> (lookup: MediaLookup)
    ensures
        lookup@ == lookup_of(video_id@, kitsu_views(cache@)),
{
    match parse_video_id(video_id) {
        None => MediaLookup::Known(None),
        Some(ParsedVideoId::ImdbMovie { imdb_id }) => {
            MediaLookup::Known(Some(MediaKey { imdb_id, season: None, episode: None }))
        },
        Some(ParsedVideoId::ImdbEpisode { imdb_id, season, episode }) => {
            if looks_like_imdb_id(imdb_id.as_str()) && season != 0 && episode != 0 {
                MediaLookup::Known(
                    Some(MediaKey { imdb_id, season: Some(season), episode: Some(episode) }),
                )
            } else {
                MediaLookup::Known(None)
            }
        },
        Some(ParsedVideoId::KitsuEpisode { kitsu_series_id, kitsu_episode }) => {
            let mut id = "kitsu:".to_string();
            id.append(kitsu_series_id.as_str());
            id.append(":");
            id.append(format_u64(kitsu_episode as u64).as_str());
            match known_media(cache, id.as_str()) {
                Some(media) => MediaLookup::Known(media),
                None => {
                    let mut url = "https://anime-kitsu.strem.fun/meta/series/kitsu:".to_string();
                    url.append(kitsu_series_id.as_str());
                    url.append(".json");
                    MediaLookup::KitsuSeries { url, video_id: id }
                },
            }
        },
        Some(ParsedVideoId::KitsuMovie { kitsu_id }) => {
            let mut id = "kitsu:".to_string();
            id.append(kitsu_id.as_str());
            match known_media(cache, id.as_str()) {
                Some(media) => MediaLookup::Known(media),
                None => {
                    let mut url = "https://anime-kitsu.strem.fun/meta/movie/kitsu:".to_string();
                    url.append(kitsu_id.as_str());
                    url.append(".json");
                    MediaLookup::KitsuMovie { url, video_id: id }
                },
            }
        },
    }
}

// ---------------------------------------------------------------------------
// Chapters
// ---------------------------------------------------------------------------

/// The keyword is a short word.
pub open spec fn is_short_word(keyword: Seq<char>) -> bool {
    keyword.len() <= 3 && forall|i: int|
        0 <= i < keyword.len() ==> is_ascii_alphanumeric(#[trigger] keyword[i])
}

/// The word stands at the place, with no letter or digit on either side.
pub open spec fn stands_alone(text: Seq<char>, word: Seq<char>, at: int) -> bool {
    &&& occurs_at(text, word, at)
    &&& at == 0 || !is_ascii_alphanumeric(text[at - 1])
    &&& at + word.len() == text.len() || !is_ascii_alphanumeric(text[at + word.len()])
}

/// A chapter's title matches a keyword: a short word must stand alone, any
/// other text may stand anywhere.
pub open spec fn title_matches(title: Seq<char>, keyword: Seq<char>) -> bool {
    if keyword.len() == 0 {
        false
    } else if is_short_word(keyword) {
        exists|at: int| stands_alone(title, keyword, at)
    } else {
        has_text(title, keyword)
    }
}

fn is_alphanumeric_char(c: char) -> (yes: bool)
    ensures
        yes == is_ascii_alphanumeric(c),
{
    (c >= '0' && c <= '9') || (c >= 'a' && c <= 'z') || (c >= 'A' && c <= 'Z')
}

fn short_word(chars: &Vec<char>) -> (yes: bool)
    ensures
        yes == is_short_word(chars@),
{
    if chars.len() > 3 {
        return false;
    }
    for i in 0..chars.len()
        invariant
            forall|j: int| 0 <= j < i ==> is_ascii_alphanumeric(#[trigger] chars@[j]),
    {
        if !is_alphanumeric_char(chars[i]) {
            assert(!is_ascii_alphanumeric(chars@[i as int]));
            return false;
        }
    }
    true
}

/// A chapter's title, in lower case, matches a keyword.
pub fn chapter_keyword_matches(title_lower: &str, keyword: &str) -> (matches: bool)
    ensures
        matches == title_matches(title_lower@, keyword@),
{
    let word = chars_of(keyword);
    if word.len() == 0 {
        return false;
    }
    if !short_word(&word) {
        return contains(title_lower, keyword);
    }
    let title = chars_of(title_lower);
    let mut at: usize = 0;
    while at < title.len()
        invariant
            at <= title.len(),
            title@ == title_lower@,
            word@ == keyword@,
            word@.len() > 0,
            is_short_word(word@),
            forall|j: int| 0 <= j < at ==> !stands_alone(title@, word@, j),
        decreases title.len() - at,
    {
        if chars_occur_at(&title, &word, at) {
            assert(occurs_at(title@, word@, at as int));
            let end = at + word.len();
            let free_before = at == 0 || !is_alphanumeric_char(title[at - 1]);
            let free_after = end == title.len() || !is_alphanumeric_char(title[end]);
            if free_before && free_after {
                assert(stands_alone(title@, word@, at as int));
                return true;
            }
        }
        at = at + 1;
    }
    assert forall|j: int| !stands_alone(title@, word@, j) by {
        if j >= title@.len() && stands_alone(title@, word@, j) {
            assert(occurs_at(title@, word@, j));
        }
    }
    false
}

/// The first keyword that a title matches.
pub open spec fn first_match(title: Seq<char>, keywords: Seq<Seq<char>>) -> Option<Seq<char>>
    decreases keywords.len(),
{
    if keywords.len() == 0 {
        None
    } else {
        match first_match(title, keywords.drop_last()) {
            Some(keyword) => Some(keyword),
            None => if title_matches(title, keywords.last()) {
                Some(keywords.last())
            } else {
                None
            },
        }
    }
}

proof fn match_stays(title: Seq<char>, keywords: Seq<Seq<char>>, n: int)
    requires
        0 <= n <= keywords.len(),
        first_match(title, keywords.take(n)) is Some,
    ensures
        first_match(title, keywords) == first_match(title, keywords.take(n)),
    decreases keywords.len(),
{
    if n == keywords.len() {
        assert(keywords.take(n) =~= keywords);
    } else {
        assert(keywords.drop_last().take(n) =~= keywords.take(n));
        match_stays(title, keywords.drop_last(), n);
    }
}

/// The first keyword that a title matches.
pub fn find_matching_keyword(title_lower: &str, keywords: &Vec<String>) -> (found: Option<String>)
    ensures
        text_in(found) == first_match(title_lower@, texts(keywords@)),
{
    let ghost all = texts(keywords@);
    for i in 0..keywords.len()
        invariant
            all == texts(keywords@),
            first_match(title_lower@, all.take(i as int)) is None,
    {
        assert(all.take(i + 1).drop_last() =~= all.take(i as int));
        assert(all.take(i + 1).last() == keywords@[i as int]@);
        if chapter_keyword_matches(title_lower, keywords[i].as_str()) {
            proof {
                match_stays(title_lower@, all, i + 1);
            }
            return Some(keywords[i].clone());
        }
    }
    assert(all.take(all.len() as int) =~= all);
    None
}

/// The kind of a chapter by its title: the first kind that is skipped and has
/// a keyword that matches.
pub open spec fn chapter_kind(title: Seq<char>, config: &IntroSkipConfig) -> Option<SegmentKind> {
    if config.skip_intro && first_match(title, texts(config.chapter_intro_words@)) is Some {
        Some(SegmentKind::Intro)
    } else if config.skip_recap && first_match(title, texts(config.chapter_recap_words@)) is Some {
        Some(SegmentKind::Recap)
    } else if config.skip_outro && first_match(title, texts(config.chapter_outro_words@)) is Some {
        Some(SegmentKind::Outro)
    } else {
        None
    }
}

/// The words for a kind of chapter.
pub open spec fn words_for(config: &IntroSkipConfig, kind: SegmentKind) -> Seq<Seq<char>> {
    match kind {
        SegmentKind::Intro => texts(config.chapter_intro_words@),
        SegmentKind::Recap => texts(config.chapter_recap_words@),
        SegmentKind::Outro => texts(config.chapter_outro_words@),
    }
}

/// The kind of a chapter by its title in lower case, and the keyword that
/// matched.
pub fn segment_kind_from_chapter_title(title_lower: &str, config: &IntroSkipConfig) -> (found: Option<
    (SegmentKind, String),
>)
    ensures
        match found {
            Some((kind, keyword)) => chapter_kind(title_lower@, config) == Some(kind)
                && first_match(title_lower@, words_for(config, kind)) == Some(keyword@),
            None => chapter_kind(title_lower@, config) is None,
        },
{
    if config.skip_intro {
        match find_matching_keyword(title_lower, &config.chapter_intro_words) {
            Some(keyword) => return Some((SegmentKind::Intro, keyword)),
            None => {},
        }
    }
    if config.skip_recap {
        match find_matching_keyword(title_lower, &config.chapter_recap_words) {
            Some(keyword) => return Some((SegmentKind::Recap, keyword)),
            None => {},
        }
    }
    if config.skip_outro {
        match find_matching_keyword(title_lower, &config.chapter_outro_words) {
            Some(keyword) => return Some((SegmentKind::Outro, keyword)),
            None => {},
        }
    }
    None
}

/// The chapter is the last one; chapters count from zero.
pub fn is_final_chapter(chapter_idx: i64, chapter_count: i64) -> (last: bool)
    ensures
        last == (chapter_count > 0 && chapter_idx == chapter_count - 1),
{
    chapter_count > 0 && chapter_idx == chapter_count - 1
}

// ---------------------------------------------------------------------------
// What to do in a segment
// ---------------------------------------------------------------------------

/// What to do in a segment with the given end: an outro without an end, or
/// with one past the file or in its last half second, leads to the next file;
/// any other end that is a time in the file is jumped to. `tail` is half a
/// second before the end of the file.
pub open spec fn action_for(
    kind: SegmentKind,
    end_sec: Option<Real>,
    duration: Real,
    tail: Real,
) -> Option<SkipAction> {
    let has_duration = duration.finite() && (Real { bits: HALF_BITS }).less(duration);
    match end_sec {
        None => if kind == SegmentKind::Outro {
            Some(SkipAction::NextTrack)
        } else {
            None
        },
        Some(end) => if !end.finite() || !real_zero().at_most(end) {
            None
        } else if has_duration && duration.less(end) {
            if kind == SegmentKind::Outro {
                Some(SkipAction::NextTrack)
            } else {
                None
            }
        } else if kind == SegmentKind::Outro && has_duration && tail.at_most(end) {
            Some(SkipAction::NextTrack)
        } else {
            Some(SkipAction::Seek(end))
        },
    }
}

pub fn effective_skip_action_for_duration(
    kind: SegmentKind,
    end_sec: Option<Real>,
    duration: Real,
    tail: Real,
) -> (action: Option<SkipAction>)
    ensures
        action == action_for(kind, end_sec, duration, tail),
{
    let end = match end_sec {
        Some(end) => end,
        None => {
            return if kind == SegmentKind::Outro {
                Some(SkipAction::NextTrack)
            } else {
                None
            };
        },
    };
    if !end.is_finite() || !Real::from_bits(0).le(&end) {
        return None;
    }
    let has_duration = duration.is_finite() && Real::from_bits(HALF_BITS).lt(&duration);
    if has_duration && duration.lt(&end) {
        return if kind == SegmentKind::Outro {
            Some(SkipAction::NextTrack)
        } else {
            None
        };
    }
    if kind == SegmentKind::Outro && has_duration && tail.le(&end) {
        return Some(SkipAction::NextTrack);
    }
    Some(SkipAction::Seek(end))
}

/// The segment can be what it says: credits count as an outro only in the
/// second half of the file. `half` is half the duration.
pub open spec fn plausible(seg: SkipSegment, duration: Real, half: Real) -> bool {
    if seg.kind != SegmentKind::Outro || seg.api != IntroApi::TheIntroDb {
        true
    } else {
        duration.finite() && !duration.at_most(real_zero()) && half.at_most(seg.segment.start.sec)
    }
}

pub fn is_plausible_outro(seg: &SkipSegment, duration: Real, half: Real) -> (yes: bool)
    ensures
        yes == plausible(*seg, duration, half),
{
    if seg.kind != SegmentKind::Outro || seg.api != IntroApi::TheIntroDb {
        return true;
    }
    if !duration.is_finite() || duration.le(&Real::from_bits(0)) {
        return false;
    }
    half.le(&seg.segment.start.sec)
}

// ---------------------------------------------------------------------------
// The loop
// ---------------------------------------------------------------------------

/// A failed attempt to find the segments is repeated after this many
/// nanoseconds.
pub const RESOLVE_RETRY_DELAY: u64 = 15_000_000_000;

/// A successful one after this many.
pub const RESOLVE_REFRESH_DELAY: u64 = 3_600_000_000_000;

/// The playback at a moment.
#[derive(Debug)]
pub struct SkipMoment {
    pub time: Real,
    /// One second after the time.
    pub soon: Real,
    /// A twentieth of a second after the time.
    pub just_after: Real,
    pub duration: Real,
    /// Half a second before the end.
    pub tail: Real,
    /// Half the duration.
    pub half: Real,
    pub paused: bool,
    pub file_loaded: bool,
    pub chapter: i64,
    pub chapter_count: i64,
    pub chapter_title: String,
}

/// What is known of the segments of what plays.
pub struct SkipLoop {
    pub last_video_id: Option<String>,
    pub media: Option<MediaKey>,
    pub segments: Option<Vec<SkipSegment>>,
    pub skipped: Vec<SegmentKey>,
    pub last_skipped_chapter: Option<i64>,
    /// When the segments were last asked for, and how long to wait since.
    pub resolve_pause: Option<(u64, u64)>,
}

#[verifier::ext_equal]
pub struct SkipView {
    pub video_id: Option<Seq<char>>,
    pub media: Option<MediaView>,
    pub segments: Option<Seq<SkipSegment>>,
    pub skipped: Seq<SegmentKey>,
    pub last_chapter: Option<i64>,
    pub pause: Option<(u64, u64)>,
}

/// A list in an option.
pub open spec fn segments_in(s: Option<Vec<SkipSegment>>) -> Option<Seq<SkipSegment>> {
    match s {
        Some(s) => Some(s@),
        None => None,
    }
}

impl View for SkipLoop {
    type V = SkipView;

    open spec fn view(&self) -> SkipView {
        SkipView {
            video_id: text_in(self.last_video_id),
            media: media_in(self.media),
            segments: segments_in(self.segments),
            skipped: self.skipped@,
            last_chapter: self.last_skipped_chapter,
            pause: self.resolve_pause,
        }
    }
}

/// What the loop does next.
#[derive(Debug)]
pub enum SkipStep {
    /// Nothing, for now.
    Rest,
    /// Find out what the id stands for and which segments it has.
    Resolve(String),
    /// See whether there is something to skip.
    Look,
}

/// What the loop does next, by its texts.
#[verifier::ext_equal]
pub enum StepView {
    Rest,
    Resolve(Seq<char>),
    Look,
}

impl View for SkipStep {
    type V = StepView;

    open spec fn view(&self) -> StepView {
        match *self {
            SkipStep::Rest => StepView::Rest,
            SkipStep::Resolve(id) => StepView::Resolve(id@),
            SkipStep::Look => StepView::Look,
        }
    }
}

/// Nothing is known of the media with the id.
pub open spec fn fresh_skip(video_id: Option<Seq<char>>) -> SkipView {
    SkipView {
        video_id,
        media: None,
        segments: None,
        skipped: Seq::empty(),
        last_chapter: None,
        pause: None,
    }
}

impl SkipView {
    /// After a look at the address: another id starts everything anew.
    pub open spec fn seeing(self, url: Seq<char>) -> SkipView {
        if video_id_in(url) == self.video_id {
            self
        } else {
            fresh_skip(video_id_in(url))
        }
    }

    /// The segments are to be asked for.
    pub open spec fn unresolved(self, now: u64) -> bool {
        &&& self.media is None || self.segments is None
        &&& self.pause matches Some((since, wait)) ==> passed(since, now, wait)
    }

    /// What comes next, after a look at the address.
    pub open spec fn next_step(self, now: u64) -> StepView {
        match self.video_id {
            None => StepView::Rest,
            Some(id) => if self.unresolved(now) {
                StepView::Resolve(id)
            } else {
                StepView::Look
            },
        }
    }

    /// The chapter that plays is to be skipped, and what kind it is.
    pub open spec fn chapter_due(self, config: &IntroSkipConfig, m: SkipMoment) -> Option<
        SegmentKind,
    > {
        if self.segments is Some && self.segments->0.len() > 0 && !m.paused && m.file_loaded
            && m.chapter >= 0 && self.last_chapter != Some(m.chapter) && trimmed(
            m.chapter_title@,
        ).len() > 0 {
            chapter_kind(lowercase(trimmed(m.chapter_title@)), config)
        } else {
            None
        }
    }

    /// How the chapter that plays is skipped, where it is.
    pub open spec fn chapter_step(self, config: &IntroSkipConfig, m: SkipMoment) -> Option<
        ChapterAction,
    > {
        match self.chapter_due(config, m) {
            None => None,
            Some(kind) => Some(
                if kind == SegmentKind::Outro && m.chapter_count > 0 && m.chapter
                    == m.chapter_count - 1 {
                    ChapterAction::NextTrack
                } else {
                    ChapterAction::NextChapter
                },
            ),
        }
    }

    /// What the loop does at an address, and what it knows then.
    pub open spec fn stepped(self, enabled: bool, role: LobbyRole, url: Seq<char>, now: u64) -> (
        SkipView,
        StepView,
    ) {
        if !enabled || role == LobbyRole::Guest {
            (self, StepView::Rest)
        } else {
            (self.seeing(url), self.seeing(url).next_step(now))
        }
    }

    /// A segment that is to be skipped at the moment: one that was not skipped
    /// yet, is of a kind that is skipped, can be what it says, and holds the
    /// time, or will within a second.
    pub open spec fn segment_due(
        self,
        config: &IntroSkipConfig,
        m: SkipMoment,
        seg: SkipSegment,
    ) -> bool {
        let end = match seg.segment.end {
            Some(end) => end.sec,
            None => Real { bits: INFINITY_BITS },
        };
        &&& !self.skipped.contains(seg.key_of())
        &&& config.enables(seg.kind)
        &&& plausible(seg, m.duration, m.half)
        &&& seg.segment.start.sec.at_most(m.soon)
        &&& m.time.less(end)
    }

    /// The first of some segments that is to be skipped.
    pub open spec fn first_due(
        self,
        config: &IntroSkipConfig,
        m: SkipMoment,
        segments: Seq<SkipSegment>,
    ) -> Option<SkipSegment>
        decreases segments.len(),
    {
        if segments.len() == 0 {
            None
        } else {
            match self.first_due(config, m, segments.drop_last()) {
                Some(seg) => Some(seg),
                None => if self.segment_due(config, m, segments.last()) {
                    Some(segments.last())
                } else {
                    None
                },
            }
        }
    }

    /// The segment that is to be skipped at the moment.
    pub open spec fn due(self, config: &IntroSkipConfig, m: SkipMoment) -> Option<SkipSegment> {
        if self.segments is None || m.paused || !m.file_loaded {
            None
        } else {
            self.first_due(config, m, self.segments->0)
        }
    }

    /// What to do at the moment, after no chapter was skipped.
    pub open spec fn decision(self, config: &IntroSkipConfig, m: SkipMoment) -> SkipDecision {
        match self.due(config, m) {
            None => SkipDecision::Nothing,
            Some(seg) => {
                let end = match seg.segment.end {
                    Some(end) => Some(end.sec),
                    None => None,
                };
                match action_for(seg.kind, end, m.duration, m.tail) {
                    None => SkipDecision::Nothing,
                    Some(SkipAction::NextTrack) => SkipDecision::Skip(seg, SkipAction::NextTrack),
                    Some(SkipAction::Seek(target)) => if target.at_most(m.just_after) {
                        SkipDecision::Past(seg)
                    } else {
                        SkipDecision::Skip(seg, SkipAction::Seek(target))
                    },
                }
            },
        }
    }
}

/// What to do at a moment.
#[derive(Debug)]
pub enum SkipDecision {
    Nothing,
    /// The segment is as good as over; note it as skipped.
    Past(SkipSegment),
    /// Skip the segment, and note it if that could be done.
    Skip(SkipSegment, SkipAction),
}

fn same_id(a: &Option<String>, b: &Option<String>) -> (same: bool)
    ensures
        same == (text_in(*a) == text_in(*b)),
{
    match (a, b) {
        (Some(x), Some(y)) => same_text(x.as_str(), y.as_str()),
        (None, None) => true,
        _ => false,
    }
}

impl SkipLoop {
    pub fn new() -> (skip: SkipLoop)
        ensures
            skip@ == fresh_skip(None),
    {
        let skip = SkipLoop {
            last_video_id: None,
            media: None,
            segments: None,
            skipped: Vec::new(),
            last_skipped_chapter: None,
            resolve_pause: None,
        };
        assert(skip@ =~= fresh_skip(None));
        skip
    }

    /// Looks at the address and says what to do next. A guest follows its host
    /// and skips nothing.
    pub fn step(&mut self, config: &IntroSkipConfig, role: LobbyRole, url: &str, now: u64) -> (next: SkipStep)
        ensures
            !config.enabled || role == LobbyRole::Guest ==> next@ == StepView::Rest && final(self)@
                == old(self)@,
            config.enabled && role != LobbyRole::Guest ==> final(self)@ == old(self)@.seeing(url@)
                && next@ == final(self)@.next_step(now),
            (final(self)@, next@) == old(self)@.stepped(config.enabled, role, url@, now),
    {
        if !config.enabled || role == LobbyRole::Guest {
            return SkipStep::Rest;
        }
        let id = extract_video_id_from_url(url);
        if !same_id(&id, &self.last_video_id) {
            self.last_video_id = match &id {
                Some(i) => Some(i.clone()),
                None => None,
            };
            self.media = None;
            self.segments = None;
            self.skipped = Vec::new();
            self.last_skipped_chapter = None;
            self.resolve_pause = None;
            assert(self@ =~= fresh_skip(video_id_in(url@)));
        }
        let id = match id {
            Some(id) => id,
            None => return SkipStep::Rest,
        };
        let waited = match self.resolve_pause {
            Some((since, wait)) => has_passed(since, now, wait),
            None => true,
        };
        if (self.media.is_none() || self.segments.is_none()) && waited {
            return SkipStep::Resolve(id);
        }
        SkipStep::Look
    }

    /// Takes in the media and its segments.
    pub fn resolved(&mut self, media: Option<MediaKey>, segments: Option<Vec<SkipSegment>>, now: u64)
        ensures
            final(self)@ == (SkipView {
                media: media_in(media),
                segments: segments_in(segments),
                pause: Some((now, RESOLVE_REFRESH_DELAY)),
                ..old(self)@
            }),
    {
        self.media = media;
        self.segments = segments;
        self.resolve_pause = Some((now, RESOLVE_REFRESH_DELAY));
    }

    /// Takes in that the segments could not be found out.
    pub fn resolve_failed(&mut self, now: u64)
        ensures
            final(self)@ == (SkipView { pause: Some((now, RESOLVE_RETRY_DELAY)), ..old(self)@ }),
    {
        self.resolve_pause = Some((now, RESOLVE_RETRY_DELAY));
    }

    /// Whether the chapter that plays is to be skipped: by going to the next
    /// file where it is the last chapter and an outro, and else to the next
    /// chapter.
    pub fn chapter_action(&self, config: &IntroSkipConfig, m: &SkipMoment) -> (action: Option<
        ChapterAction,
    >)
        ensures
            action == match self@.chapter_due(config, *m) {
                None => None,
                Some(kind) => Some(
                    if kind == SegmentKind::Outro && m.chapter_count > 0 && m.chapter
                        == m.chapter_count - 1 {
                        ChapterAction::NextTrack
                    } else {
                        ChapterAction::NextChapter
                    },
                ),
            },
            action == self@.chapter_step(config, *m),
    {
        match &self.segments {
            Some(segments) => {
                if segments.len() == 0 {
                    return None;
                }
            },
            None => return None,
        }
        if m.paused || !m.file_loaded || m.chapter < 0 {
            return None;
        }
        match self.last_skipped_chapter {
            Some(last) => {
                if last == m.chapter {
                    return None;
                }
            },
            None => {},
        }
        let title = trim(m.chapter_title.as_str());
        if title.as_str().is_empty() {
            return None;
        }
        match segment_kind_from_chapter_title(title.as_str().to_lowercase().as_str(), config) {
            Some((kind, _keyword)) => {
                if kind == SegmentKind::Outro && is_final_chapter(m.chapter, m.chapter_count) {
                    Some(ChapterAction::NextTrack)
                } else {
                    Some(ChapterAction::NextChapter)
                }
            },
            None => None,
        }
    }

    /// Notes that a chapter was skipped.
    pub fn chapter_skipped(&mut self, chapter: i64)
        ensures
            final(self)@ == (SkipView { last_chapter: Some(chapter), ..old(self)@ }),
    {
        self.last_skipped_chapter = Some(chapter);
    }

    fn was_skipped(&self, key: SegmentKey) -> (yes: bool)
        ensures
            yes == self@.skipped.contains(key),
    {
        for i in 0..self.skipped.len()
            invariant
                forall|j: int| 0 <= j < i ==> self.skipped@[j] != key,
        {
            if self.skipped[i] == key {
                return true;
            }
        }
        false
    }

    fn is_due(&self, config: &IntroSkipConfig, m: &SkipMoment, seg: &SkipSegment) -> (due: bool)
        ensures
            due == self@.segment_due(config, *m, *seg),
    {
        if self.was_skipped(seg.key()) || !config.segment_enabled(seg.kind) {
            return false;
        }
        if !is_plausible_outro(seg, m.duration, m.half) {
            return false;
        }
        let end = match seg.segment.end {
            Some(end) => end.sec,
            None => Real::from_bits(INFINITY_BITS),
        };
        seg.segment.start.sec.le(&m.soon) && m.time.lt(&end)
    }

    /// The segment that is to be skipped at the moment.
    pub fn due_segment(&self, config: &IntroSkipConfig, m: &SkipMoment) -> (seg: Option<SkipSegment>)
        ensures
            seg == self@.due(config, *m),
    {
        if m.paused || !m.file_loaded {
            return None;
        }
        let segments = match &self.segments {
            Some(segments) => segments,
            None => return None,
        };
        let ghost all = segments@;
        for i in 0..segments.len()
            invariant
                segments@ == all,
                self@.segments == Some(all),
                !m.paused && m.file_loaded,
                self@.first_due(config, *m, all.take(i as int)) is None,
        {
            assert(all.take(i + 1).drop_last() =~= all.take(i as int));
            if self.is_due(config, m, &segments[i]) {
                proof {
                    due_stays(self@, config, *m, all, i + 1);
                }
                return Some(segments[i]);
            }
        }
        assert(all.take(all.len() as int) =~= all);
        None
    }

    /// What to do at the moment, after no chapter was skipped.
    pub fn decide(&self, config: &IntroSkipConfig, m: &SkipMoment) -> (decision: SkipDecision)
        ensures
            decision == self@.decision(config, *m),
    {
        let seg = match self.due_segment(config, m) {
            Some(seg) => seg,
            None => return SkipDecision::Nothing,
        };
        let end = match seg.segment.end {
            Some(end) => Some(end.sec),
            None => None,
        };
        match effective_skip_action_for_duration(seg.kind, end, m.duration, m.tail) {
            None => SkipDecision::Nothing,
            Some(SkipAction::NextTrack) => SkipDecision::Skip(seg, SkipAction::NextTrack),
            Some(SkipAction::Seek(target)) => {
                if target.le(&m.just_after) {
                    SkipDecision::Past(seg)
                } else {
                    SkipDecision::Skip(seg, SkipAction::Seek(target))
                }
            },
        }
    }

    /// Notes that a segment was skipped.
    pub fn segment_skipped(&mut self, seg: &SkipSegment)
        ensures
            final(self)@ == (SkipView {
                skipped: old(self)@.skipped.push(seg.key_of()),
                ..old(self)@
            }),
    {
        self.skipped.push(seg.key());
    }
}

/// How a chapter is skipped.
#[derive(Debug, Clone, Copy, PartialEq, Eq, Structural)]
pub enum ChapterAction {
    NextChapter,
    NextTrack,
}

proof fn due_stays(
    v: SkipView,
    config: &IntroSkipConfig,
    m: SkipMoment,
    segments: Seq<SkipSegment>,
    n: int,
)
    requires
        0 <= n <= segments.len(),
        v.first_due(config, m, segments.take(n)) is Some,
    ensures
        v.first_due(config, m, segments) == v.first_due(config, m, segments.take(n)),
    decreases segments.len(),
{
    if n == segments.len() {
        assert(segments.take(n) =~= segments);
    } else {
        assert(segments.drop_last().take(n) =~= segments.take(n));
        due_stays(v, config, m, segments.drop_last(), n);
    }
}

/// The command that goes to a time, which is given as text.
pub fn seek_absolute_command(seconds: &str) -> (command: String)
    ensures
        command@ == "[\"mpv-command\",[\"seek\",\""@ + seconds@ + "\",\"absolute\"]]"@,
{
    let mut command = "[\"mpv-command\",[\"seek\",\"".to_string();
    command.append(seconds);
    command.append("\",\"absolute\"]]");
    command
}

/// An error and its causes, in one line.
pub fn format_error_chain(causes: &Vec<String>) -> (line: String)
    ensures
        line@ == joined(texts(causes@), ": "@),
{
    join(causes, ": ")
}

/// The command that goes to the next chapter.
pub fn next_chapter_command() -> (command: String)
    ensures
        command@ == "[\"mpv-command\",[\"add\",\"chapter\",\"1\"]]"@,
{
    "[\"mpv-command\",[\"add\",\"chapter\",\"1\"]]".to_string()
}

// ---------------------------------------------------------------------------
// Segments that were fetched before
// ---------------------------------------------------------------------------

/// The segments of media, as far as they were fetched. The latest entry for a
/// medium holds.
pub struct SegmentsCache {
    pub entries: Vec<(MediaKey, Option<Vec<SkipSegment>>)>,
}

/// What the entries say of a medium.
pub open spec fn cached_entry(
    entries: Seq<(MediaKey, Option<Vec<SkipSegment>>)>,
    media: MediaView,
) -> Option<Option<Seq<SkipSegment>>>
    decreases entries.len(),
{
    if entries.len() == 0 {
        None
    } else if entries.last().0@ == media {
        Some(segments_in(entries.last().1))
    } else {
        cached_entry(entries.drop_last(), media)
    }
}

fn copy_segments(segments: &Option<Vec<SkipSegment>>) -> (copy: Option<Vec<SkipSegment>>)
    ensures
        segments_in(copy) == segments_in(*segments),
{
    match segments {
        Some(list) => {
            let mut copy: Vec<SkipSegment> = Vec::new();
            append_segments(&mut copy, list);
            assert(copy@ =~= list@);
            Some(copy)
        },
        None => None,
    }
}

impl SegmentsCache {
    pub open spec fn entry(&self, media: MediaView) -> Option<Option<Seq<SkipSegment>>> {
        cached_entry(self.entries@, media)
    }

    pub fn new() -> (cache: SegmentsCache)
        ensures
            forall|media: MediaView| cache.entry(media) is None,
    {
        SegmentsCache { entries: Vec::new() }
    }

    /// What was fetched for a medium, if anything was.
    pub fn get(&self, media: &MediaKey) -> (found: Option<Option<Vec<SkipSegment>>>)
        ensures
            match found {
                Some(segments) => self.entry(media@) == Some(segments_in(segments)),
                None => self.entry(media@) is None,
            },
    {
        let mut i: usize = self.entries.len();
        assert(self.entries@.take(self.entries@.len() as int) =~= self.entries@);
        while i > 0
            invariant
                i <= self.entries.len(),
                cached_entry(self.entries@.take(i as int), media@) == self.entry(media@),
            decreases i,
        {
            let ghost seen = self.entries@.take(i as int);
            assert(seen.last() == self.entries@[i - 1]);
            assert(seen.drop_last() =~= self.entries@.take(i - 1));
            if self.entries[i - 1].0.same(media) {
                return Some(copy_segments(&self.entries[i - 1].1));
            }
            i = i - 1;
        }
        None
    }

    /// Notes what was fetched for a medium.
    pub fn insert(&mut self, media: MediaKey, segments: Option<Vec<SkipSegment>>)
        ensures
            final(self).entry(media@) == Some(segments_in(segments)),
            forall|other: MediaView|
                other != media@ ==> final(self).entry(other) == old(self).entry(other),
    {
        let ghost before = self.entries@;
        self.entries.push((media, segments));
        assert(self.entries@.drop_last() =~= before);
    }
}

// ---------------------------------------------------------------------------
// Laws
// ---------------------------------------------------------------------------

/// The segments are in the order of their starts.
pub open spec fn is_by_start(segments: Seq<SkipSegment>) -> bool {
    forall|i: int, j: int|
        0 <= i <= j < segments.len() ==> !segments[j].segment.start.sec.less(
            segments[i].segment.start.sec,
        )
}

proof fn insertion_point(segments: Seq<SkipSegment>, start: Real)
    requires
        is_by_start(segments),
        !start.is_nan_spec(),
        forall|i: int|
            0 <= i < segments.len() ==> !(#[trigger] segments[i]).segment.start.sec.is_nan_spec(),
    ensures
        0 <= not_later(segments, start) <= segments.len(),
        forall|i: int|
            0 <= i < not_later(segments, start) ==> !start.less(
                (#[trigger] segments[i]).segment.start.sec,
            ),
        forall|i: int|
            not_later(segments, start) <= i < segments.len() ==> start.less(
                (#[trigger] segments[i]).segment.start.sec,
            ),
    decreases segments.len(),
{
    if segments.len() > 0 {
        let rest = segments.drop_last();
        if start.less(segments.last().segment.start.sec) {
            assert forall|i: int, j: int| 0 <= i <= j < rest.len() implies !rest[j].segment.start.sec.less(
                rest[i].segment.start.sec,
            ) by {
                assert(rest[i] == segments[i] && rest[j] == segments[j]);
            }
            assert forall|i: int| 0 <= i < rest.len() implies !(#[trigger] rest[i]).segment.start.sec.is_nan_spec() by {
                assert(rest[i] == segments[i]);
            }
            insertion_point(rest, start);
            assert forall|i: int| 0 <= i < not_later(segments, start) implies !start.less(
                (#[trigger] segments[i]).segment.start.sec,
            ) by {
                assert(rest[i] == segments[i]);
            }
            assert forall|i: int| not_later(segments, start) <= i < segments.len() implies start.less(
                (#[trigger] segments[i]).segment.start.sec,
            ) by {
                if i < rest.len() {
                    assert(rest[i] == segments[i]);
                }
            }
        } else {
            let last = segments[segments.len() - 1].segment.start.sec;
            assert forall|i: int| 0 <= i < segments.len() implies !start.less(
                (#[trigger] segments[i]).segment.start.sec,
            ) by {
                assert(!last.less(segments[i].segment.start.sec));
                assert(!segments[i].segment.start.sec.is_nan_spec());
                assert(!segments[segments.len() - 1].segment.start.sec.is_nan_spec());
            }
        }
    }
}

/// Sorting puts the segments in the order of their starts and neither adds nor
/// loses one.
pub proof fn sorting_orders_segments(segments: Seq<SkipSegment>)
    requires
        forall|i: int|
            0 <= i < segments.len() ==> !(#[trigger] segments[i]).segment.start.sec.is_nan_spec(),
    ensures
        is_by_start(by_start(segments)),
        by_start(segments).len() == segments.len(),
        by_start(segments).to_multiset() == segments.to_multiset(),
        forall|i: int|
            0 <= i < segments.len() ==> !(#[trigger] by_start(segments)[i]).segment.start.sec.is_nan_spec(),
    decreases segments.len(),
{
    if segments.len() == 0 {
        assert(by_start(segments) =~= segments);
    } else {
        let rest = segments.drop_last();
        let one = segments.last();
        assert forall|i: int| 0 <= i < rest.len() implies !(#[trigger] rest[i]).segment.start.sec.is_nan_spec() by {
            assert(rest[i] == segments[i]);
        }
        assert(!segments[segments.len() - 1].segment.start.sec.is_nan_spec());
        sorting_orders_segments(rest);
        let before = by_start(rest);
        let start = one.segment.start.sec;
        insertion_point(before, start);
        let at = not_later(before, start);
        let after = before.insert(at, one);
        assert forall|i: int, j: int| 0 <= i <= j < after.len() implies !after[j].segment.start.sec.less(
            after[i].segment.start.sec,
        ) by {
            if i < at && j > at {
                assert(!before[j - 1].segment.start.sec.less(before[i].segment.start.sec));
            } else if i < at && j < at {
                assert(!before[j].segment.start.sec.less(before[i].segment.start.sec));
            } else if i > at {
                assert(!before[j - 1].segment.start.sec.less(before[i - 1].segment.start.sec));
            } else if i == at && j > at {
                assert(start.less(before[j - 1].segment.start.sec));
            }
        }
        assert forall|i: int| 0 <= i < after.len() implies !(#[trigger] after[i]).segment.start.sec.is_nan_spec() by {
            if i < at {
                assert(after[i] == before[i]);
            } else if i > at {
                assert(after[i] == before[i - 1]);
            }
        }
        broadcast use vstd::seq_lib::group_to_multiset_ensures;

        assert(segments =~= rest.push(one));
        assert(after =~= before.take(at) + seq![one] + before.skip(at));
        assert(before =~= before.take(at) + before.skip(at));
        vstd::seq_lib::lemma_multiset_commutative(before.take(at), before.skip(at));
        vstd::seq_lib::lemma_multiset_commutative(before.take(at) + seq![one], before.skip(at));
        assert(before.take(at) + seq![one] =~= before.take(at).push(one));
        assert(after.to_multiset() =~= before.to_multiset().insert(one));
    }
}

/// What is left after the merging is only what is to be skipped.
pub proof fn merged_segments_are_enabled(config: &IntroSkipConfig, segments: Seq<SkipSegment>)
    ensures
        forall|i: int|
            0 <= i < enabled_only(config, segments).len() ==> config.enables(
                (#[trigger] enabled_only(config, segments)[i]).kind,
            ) && segments.contains(enabled_only(config, segments)[i]),
    decreases segments.len(),
{
    if segments.len() > 0 {
        let rest = segments.drop_last();
        merged_segments_are_enabled(config, rest);
        let kept = enabled_only(config, segments);
        let before = enabled_only(config, rest);
        assert forall|i: int| 0 <= i < kept.len() implies config.enables((#[trigger] kept[i]).kind)
            && segments.contains(kept[i]) by {
            if i < before.len() {
                assert(kept[i] == before[i]);
                let k = rest.index_of(before[i]);
                assert(rest[k] == before[i]);
                assert(segments[k] == kept[i]);
            } else {
                assert(segments[segments.len() - 1] == kept[i]);
            }
        }
    }
}

/// A segment is skipped once: after it was noted, it is not due again.
pub proof fn segments_are_skipped_once(
    v: SkipView,
    config: &IntroSkipConfig,
    m: SkipMoment,
    seg: SkipSegment,
)
    ensures
        !(SkipView { skipped: v.skipped.push(seg.key_of()), ..v }).segment_due(config, m, seg),
{
    let skipped = v.skipped.push(seg.key_of());
    assert(skipped[v.skipped.len() as int] == seg.key_of());
}

/// What is due is one of the known segments and of a kind that is skipped; the
/// time has not passed its end.
pub proof fn due_segments_are_wanted(
    v: SkipView,
    config: &IntroSkipConfig,
    m: SkipMoment,
    segments: Seq<SkipSegment>,
)
    ensures
        v.first_due(config, m, segments) matches Some(seg) ==> segments.contains(seg)
            && v.segment_due(config, m, seg) && config.enables(seg.kind),
    decreases segments.len(),
{
    if segments.len() > 0 {
        let rest = segments.drop_last();
        due_segments_are_wanted(v, config, m, rest);
        match v.first_due(config, m, rest) {
            Some(seg) => {
                let k = rest.index_of(seg);
                assert(rest[k] == seg);
                assert(segments[k] == seg);
            },
            None => {
                if v.segment_due(config, m, segments.last()) {
                    assert(segments[segments.len() - 1] == segments.last());
                }
            },
        }
    }
}

/// A jump goes to a time in the file: not negative, and not past the end where
/// that is known. Only an outro leads to the next file.
pub proof fn jumps_stay_in_the_file(
    kind: SegmentKind,
    end_sec: Option<Real>,
    duration: Real,
    tail: Real,
)
    ensures
        action_for(kind, end_sec, duration, tail) matches Some(SkipAction::Seek(target)) ==> {
            &&& end_sec == Some(target)
            &&& target.finite()
            &&& real_zero().at_most(target)
            &&& duration.finite() && (Real { bits: HALF_BITS }).less(duration)
                ==> !duration.less(target)
        },
        action_for(kind, end_sec, duration, tail) is Some && action_for(
            kind,
            end_sec,
            duration,
            tail,
        )->0 is NextTrack ==> kind == SegmentKind::Outro,
{
}

/// Another page starts everything anew, and the same page changes nothing.
pub proof fn pages_are_told_apart(v: SkipView, url: Seq<char>)
    ensures
        v.seeing(url).video_id == video_id_in(url),
        v.seeing(url).seeing(url) == v.seeing(url),
        video_id_in(url) != v.video_id ==> v.seeing(url).skipped.len() == 0
            && v.seeing(url).segments is None,
{
}

} // verus!
