//! The ids of films and episodes, and what can be read off an address.

use crate::encoding::{url_decode, url_decoded};
use crate::number::{decimal, format_u64, natural_up_to, parse_u32};
use crate::text::{
    chars_of, contains, has_prefix, has_text, is_digit, same_text, split, split_on, starts_with,
    strip_trailing, texts, trim, trimmed, without_trailing,
};
use vstd::prelude::*;

verus! {

/// A film, or an episode of a series, by its IMDb id.
#[derive(Debug)]
pub struct MediaKey {
    pub imdb_id: String,
    pub season: Option<u32>,
    pub episode: Option<u32>,
}

#[verifier::ext_equal]
pub struct MediaView {
    pub imdb_id: Seq<char>,
    pub season: Option<u32>,
    pub episode: Option<u32>,
}

impl View for MediaKey {
    type V = MediaView;

    open spec fn view(&self) -> MediaView {
        MediaView { imdb_id: self.imdb_id@, season: self.season, episode: self.episode }
    }
}

impl Clone for MediaKey {
    fn clone(&self) -> (copy: MediaKey)
        ensures
            copy@ == self@,
    {
        MediaKey { imdb_id: self.imdb_id.clone(), season: self.season, episode: self.episode }
    }
}

/// The media in an option.
pub open spec fn media_in(m: Option<MediaKey>) -> Option<MediaView> {
    match m {
        Some(m) => Some(m@),
        None => None,
    }
}

pub fn copy_media(m: &Option<MediaKey>) -> (copy: Option<MediaKey>)
    ensures
        media_in(copy) == media_in(*m),
{
    match m {
        Some(m) => Some(m.clone()),
        None => None,
    }
}

impl MediaView {
    /// It is an episode of a series.
    pub open spec fn is_episode(self) -> bool {
        self.season is Some && self.episode is Some
    }
}

impl MediaKey {
    pub fn is_episode(&self) -> (yes: bool)
        ensures
            yes == self@.is_episode(),
    {
        self.season.is_some() && self.episode.is_some()
    }

    pub fn same(&self, other: &MediaKey) -> (same: bool)
        ensures
            same == (self@ == other@),
    {
        let season = match (self.season, other.season) {
            (Some(a), Some(b)) => a == b,
            (None, None) => true,
            _ => false,
        };
        let episode = match (self.episode, other.episode) {
            (Some(a), Some(b)) => a == b,
            (None, None) => true,
            _ => false,
        };
        same_text(self.imdb_id.as_str(), other.imdb_id.as_str()) && season && episode
    }
}

/// The media as it is named in messages.
pub open spec fn media_text(m: MediaView) -> Seq<char> {
    if m.is_episode() {
        m.imdb_id + " S"@ + decimal(m.season->0 as nat) + "E"@ + decimal(m.episode->0 as nat)
    } else {
        m.imdb_id
    }
}

pub fn format_media_key(key: &MediaKey) -> (text: String)
    ensures
        text@ == media_text(key@),
{
    let mut text = key.imdb_id.clone();
    match (key.season, key.episode) {
        (Some(season), Some(episode)) => {
            text.append(" S");
            text.append(format_u64(season as u64).as_str());
            text.append("E");
            text.append(format_u64(episode as u64).as_str());
        },
        _ => {},
    }
    text
}

// ---------------------------------------------------------------------------
// Ids
// ---------------------------------------------------------------------------

/// The text is an IMDb id: `tt` and digits.
pub open spec fn is_imdb_id(id: Seq<char>) -> bool {
    let s = trimmed(id);
    &&& has_prefix(s, "tt"@)
    &&& s.len() > 2
    &&& forall|i: int| 2 <= i < s.len() ==> is_digit(#[trigger] s[i])
}

pub fn looks_like_imdb_id(id: &str) -> (yes: bool)
    ensures
        yes == is_imdb_id(id@),
{
    proof {
        reveal_strlit("tt");
    }
    let bare = trim(id);
    if !starts_with(bare.as_str(), "tt") {
        return false;
    }
    let chars = chars_of(bare.as_str());
    if chars.len() <= 2 {
        return false;
    }
    let mut i: usize = 2;
    while i < chars.len()
        invariant
            2 <= i <= chars.len(),
            chars@ == trimmed(id@),
            forall|j: int| 2 <= j < i ==> is_digit(#[trigger] chars@[j]),
        decreases chars.len() - i,
    {
        if chars[i] < '0' || chars[i] > '9' {
            assert(!is_digit(chars@[i as int]));
            return false;
        }
        i = i + 1;
    }
    true
}

/// What an id of the web interface stands for.
#[derive(Debug)]
pub enum ParsedVideoId {
    ImdbMovie { imdb_id: String },
    ImdbEpisode { imdb_id: String, season: u32, episode: u32 },
    KitsuMovie { kitsu_id: String },
    KitsuEpisode { kitsu_series_id: String, kitsu_episode: u32 },
}

#[verifier::ext_equal]
pub enum VideoIdView {
    ImdbMovie { imdb_id: Seq<char> },
    ImdbEpisode { imdb_id: Seq<char>, season: u32, episode: u32 },
    KitsuMovie { kitsu_id: Seq<char> },
    KitsuEpisode { kitsu_series_id: Seq<char>, kitsu_episode: u32 },
}

impl View for ParsedVideoId {
    type V = VideoIdView;

    open spec fn view(&self) -> VideoIdView {
        match *self {
            ParsedVideoId::ImdbMovie { imdb_id } => VideoIdView::ImdbMovie { imdb_id: imdb_id@ },
            ParsedVideoId::ImdbEpisode { imdb_id, season, episode } => VideoIdView::ImdbEpisode {
                imdb_id: imdb_id@,
                season,
                episode,
            },
            ParsedVideoId::KitsuMovie { kitsu_id } => VideoIdView::KitsuMovie {
                kitsu_id: kitsu_id@,
            },
            ParsedVideoId::KitsuEpisode { kitsu_series_id, kitsu_episode } => {
                VideoIdView::KitsuEpisode { kitsu_series_id: kitsu_series_id@, kitsu_episode }
            },
        }
    }
}

/// The number that a text denotes, where it fits.
pub open spec fn number_in(s: Seq<char>) -> Option<u32> {
    match natural_up_to(s, u32::MAX as nat) {
        Some(n) => Some(n as u32),
        None => None,
    }
}

/// What the parts of an id between its colons stand for.
pub open spec fn video_id_of(parts: Seq<Seq<char>>) -> Option<VideoIdView> {
    if parts[0] == "kitsu"@ {
        if parts.len() == 2 {
            Some(VideoIdView::KitsuMovie { kitsu_id: parts[1] })
        } else if parts.len() == 3 && number_in(parts[2]) is Some {
            Some(
                VideoIdView::KitsuEpisode {
                    kitsu_series_id: parts[1],
                    kitsu_episode: number_in(parts[2])->0,
                },
            )
        } else {
            None
        }
    } else if parts.len() == 1 {
        if is_imdb_id(parts[0]) {
            Some(VideoIdView::ImdbMovie { imdb_id: parts[0] })
        } else {
            None
        }
    } else if parts.len() == 3 && number_in(parts[1]) is Some && number_in(parts[2]) is Some {
        Some(
            VideoIdView::ImdbEpisode {
                imdb_id: parts[0],
                season: number_in(parts[1])->0,
                episode: number_in(parts[2])->0,
            },
        )
    } else {
        None
    }
}

/// What an id of the web interface stands for.
pub fn parse_video_id(video_id: &str) -> (parsed: Option<ParsedVideoId>)
    ensures
        match parsed {
            Some(p) => video_id_of(split_on(video_id@, ':')) == Some(p@),
            None => video_id_of(split_on(video_id@, ':')) is None,
        },
{
    let parts = split(video_id, ':');
    let ghost views = split_on(video_id@, ':');
    assert(forall|i: int| 0 <= i < parts@.len() ==> (#[trigger] parts@[i])@ == views[i]) by {
        assert forall|i: int| 0 <= i < parts@.len() implies (#[trigger] parts@[i])@ == views[i] by {
            assert(texts(parts@)[i] == parts@[i]@);
        }
    }
    if same_text(parts[0].as_str(), "kitsu") {
        if parts.len() == 2 {
            return Some(ParsedVideoId::KitsuMovie { kitsu_id: parts[1].clone() });
        }
        if parts.len() == 3 {
            return match parse_u32(parts[2].as_str()) {
                Some(kitsu_episode) => Some(
                    ParsedVideoId::KitsuEpisode {
                        kitsu_series_id: parts[1].clone(),
                        kitsu_episode,
                    },
                ),
                None => None,
            };
        }
        return None;
    }
    if parts.len() == 1 {
        if looks_like_imdb_id(parts[0].as_str()) {
            return Some(ParsedVideoId::ImdbMovie { imdb_id: parts[0].clone() });
        }
        return None;
    }
    if parts.len() == 3 {
        return match (parse_u32(parts[1].as_str()), parse_u32(parts[2].as_str())) {
            (Some(season), Some(episode)) => Some(
                ParsedVideoId::ImdbEpisode { imdb_id: parts[0].clone(), season, episode },
            ),
            _ => None,
        };
    }
    None
}

/// The last part of the path of an address, without a query.
pub open spec fn last_part(url: Seq<char>) -> Seq<char> {
    split_on(split_on(without_trailing(url, '/'), '/').last(), '?')[0]
}

pub fn last_part_of(url: &str) -> (part: String)
    ensures
        part@ == last_part(url@),
{
    let pieces = split(strip_trailing(url, '/').as_str(), '/');
    let last = &pieces[pieces.len() - 1];
    assert(texts(pieces@).last() == last@);
    let before_query = split(last.as_str(), '?');
    assert(texts(before_query@)[0] == before_query@[0]@);
    before_query[0].clone()
}

/// The id of what plays, as the address of the player's page gives it.
pub open spec fn video_id_in(url: Seq<char>) -> Option<Seq<char>> {
    if has_text(url, "/player/"@) {
        match url_decoded(last_part(url)) {
            Some(id) => if id.len() > 0 {
                Some(id)
            } else {
                None
            },
            None => None,
        }
    } else {
        None
    }
}

pub fn extract_video_id_from_url(url: &str) -> (id: Option<String>)
    ensures
        match id {
            Some(i) => video_id_in(url@) == Some(i@),
            None => video_id_in(url@) is None,
        },
{
    if !contains(url, "/player/") {
        return None;
    }
    match url_decode(last_part_of(url).as_str()) {
        Some(id) => if id.as_str().is_empty() {
            None
        } else {
            Some(id)
        },
        None => None,
    }
}

} // verus!
