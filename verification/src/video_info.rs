//! What the catalogues say of a film or an episode.

use crate::json::{json_document, parse_json, Json, JsonView};
use crate::text::{has_prefix, same_text, split, split_on, starts_with, texts};
use vstd::prelude::*;

verus! {

/// What is shown of a film or an episode.
#[derive(Debug)]
pub struct VideoInfo {
    pub poster: String,
    pub name: String,
    pub year: String,
    pub thumbnail: String,
    pub epname: String,
}

#[verifier::ext_equal]
pub struct InfoView {
    pub poster: Seq<char>,
    pub name: Seq<char>,
    pub year: Seq<char>,
    pub thumbnail: Seq<char>,
    pub epname: Seq<char>,
}

impl View for VideoInfo {
    type V = InfoView;

    open spec fn view(&self) -> InfoView {
        InfoView {
            poster: self.poster@,
            name: self.name@,
            year: self.year@,
            thumbnail: self.thumbnail@,
            epname: self.epname@,
        }
    }
}

/// The information in an option.
pub open spec fn info_in(info: Option<VideoInfo>) -> Option<InfoView> {
    match info {
        Some(i) => Some(i@),
        None => None,
    }
}

impl Default for VideoInfo {
    fn default() -> (info: VideoInfo)
        ensures
            info@ == (InfoView {
                poster: Seq::empty(),
                name: Seq::empty(),
                year: Seq::empty(),
                thumbnail: Seq::empty(),
                epname: Seq::empty(),
            }),
    {
        VideoInfo {
            poster: String::new(),
            name: String::new(),
            year: String::new(),
            thumbnail: String::new(),
            epname: String::new(),
        }
    }
}

// ---------------------------------------------------------------------------
// Where to ask
// ---------------------------------------------------------------------------

/// The address of what a catalogue says of an id.
pub open spec fn meta_url_of(type_: Seq<char>, id: Seq<char>) -> Seq<char> {
    (if has_prefix(id, "kitsu"@) {
        "https://anime-kitsu.strem.fun/meta"@
    } else {
        "https://v3-cinemeta.strem.io/meta"@
    }) + "/"@ + type_ + "/"@ + id + ".json"@
}

pub fn meta_url(type_: &str, id: &str) -> (url: String)
    ensures
        url@ == meta_url_of(type_@, id@),
{
    let mut url = if starts_with(id, "kitsu") {
        "https://anime-kitsu.strem.fun/meta".to_string()
    } else {
        "https://v3-cinemeta.strem.io/meta".to_string()
    };
    url.append("/");
    url.append(type_);
    url.append("/");
    url.append(id);
    url.append(".json");
    url
}

// ---------------------------------------------------------------------------
// Reading the answer
// ---------------------------------------------------------------------------

/// What is shown where the catalogue says nothing.
pub open spec fn unknown_info() -> InfoView {
    InfoView {
        poster: "default_poster_url"@,
        name: "Unknown Title"@,
        year: ""@,
        thumbnail: "default_thumbnail_url"@,
        epname: "Unknown Episode Name"@,
    }
}

/// A text of a document, or another.
pub open spec fn text_or(document: JsonView, key: Seq<char>, default: Seq<char>) -> Seq<char> {
    match document.text_field(key) {
        Some(s) => s,
        None => default,
    }
}

/// The id of an episode in its series' entry.
pub open spec fn episode_id(id: Seq<char>, season: Seq<char>, episode: Seq<char>) -> Seq<char> {
    if season.len() == 0 {
        id + ":"@ + episode
    } else {
        id + ":"@ + season + ":"@ + episode
    }
}

/// The first of some episodes that has the id.
pub open spec fn episode_of(videos: Seq<JsonView>, id: Seq<char>) -> Option<JsonView>
    decreases videos.len(),
{
    if videos.len() == 0 {
        None
    } else {
        match episode_of(videos.drop_last(), id) {
            Some(video) => Some(video),
            None => if videos.last().text_field("id"@) == Some(id) {
                Some(videos.last())
            } else {
                None
            },
        }
    }
}

/// The name of an episode: its name, its title, or the name of the series.
pub open spec fn episode_name(video: JsonView, meta: JsonView) -> Seq<char> {
    match video.text_field("name"@) {
        Some(name) => name,
        None => match video.text_field("title"@) {
            Some(title) => title,
            None => text_or(meta, "name"@, unknown_info().epname),
        },
    }
}

/// The episodes of a series' entry.
pub open spec fn videos_of(meta: JsonView) -> Seq<JsonView> {
    match meta.field("videos"@) {
        Some(JsonView::Array(videos)) => videos,
        _ => Seq::empty(),
    }
}

/// What an entry says of a film, or of an episode of a series.
pub open spec fn info_of(
    meta: JsonView,
    type_: Seq<char>,
    id: Seq<char>,
    season: Seq<char>,
    episode: Seq<char>,
) -> InfoView {
    let general = InfoView {
        poster: text_or(meta, "poster"@, unknown_info().poster),
        name: text_or(meta, "name"@, unknown_info().name),
        year: text_or(meta, "year"@, unknown_info().year),
        ..unknown_info()
    };
    if type_ == "series"@ {
        match episode_of(videos_of(meta), episode_id(id, season, episode)) {
            Some(video) => InfoView {
                thumbnail: text_or(video, "thumbnail"@, unknown_info().thumbnail),
                epname: episode_name(video, meta),
                ..general
            },
            None => general,
        }
    } else {
        general
    }
}

/// What the answer of a catalogue says; nothing where it is no JSON object.
pub open spec fn answer_info(
    answer: Option<JsonView>,
    type_: Seq<char>,
    id: Seq<char>,
    season: Seq<char>,
    episode: Seq<char>,
) -> Option<InfoView> {
    match answer {
        Some(JsonView::Object(entries)) => Some(
            match answer->0.field("meta"@) {
                Some(meta) => info_of(meta, type_, id, season, episode),
                None => unknown_info(),
            },
        ),
        _ => None,
    }
}

fn text_field_or(document: &Json, key: &str, default: &str) -> (text: String)
    ensures
        text@ == text_or(document@, key@, default@),
{
    match document.get(key) {
        Some(value) => match value.as_text() {
            Some(text) => text.clone(),
            None => default.to_string(),
        },
        None => default.to_string(),
    }
}

/// A text of a document.
fn text_field(document: &Json, key: &str) -> (text: Option<String>)
    ensures
        match text {
            Some(t) => document@.text_field(key@) == Some(t@),
            None => document@.text_field(key@) is None,
        },
{
    match document.get(key) {
        Some(value) => match value.as_text() {
            Some(text) => Some(text.clone()),
            None => None,
        },
        None => None,
    }
}

proof fn episode_stays(videos: Seq<JsonView>, id: Seq<char>, n: int)
    requires
        0 <= n <= videos.len(),
        episode_of(videos.take(n), id) is Some,
    ensures
        episode_of(videos, id) == episode_of(videos.take(n), id),
    decreases videos.len(),
{
    if n == videos.len() {
        assert(videos.take(n) =~= videos);
    } else {
        assert(videos.drop_last().take(n) =~= videos.take(n));
        episode_stays(videos.drop_last(), id, n);
    }
}

/// The items of a JSON array.
pub open spec fn items_of(items: Seq<Json>) -> Seq<JsonView> {
    Seq::new(items.len(), |i: int| items[i]@)
}

/// The place of the first episode that has the id.
fn find_episode(videos: &Vec<Json>, id: &str) -> (found: Option<usize>)
    ensures
        match found {
            Some(i) => i < videos.len() && episode_of(items_of(videos@), id@) == Some(
                videos@[i as int]@,
            ),
            None => episode_of(items_of(videos@), id@) is None,
        },
{
    let ghost all = items_of(videos@);
    for i in 0..videos.len()
        invariant
            all == items_of(videos@),
            episode_of(all.take(i as int), id@) is None,
    {
        assert(all.take(i + 1).drop_last() =~= all.take(i as int));
        assert(all.take(i + 1).last() == videos@[i as int]@);
        let found = match text_field(&videos[i], "id") {
            Some(video_id) => same_text(video_id.as_str(), id),
            None => false,
        };
        if found {
            proof {
                episode_stays(all, id@, i + 1);
            }
            return Some(i);
        }
    }
    assert(all.take(all.len() as int) =~= all);
    None
}

fn episode_id_text(id: &str, season: &str, episode: &str) -> (text: String)
    ensures
        text@ == episode_id(id@, season@, episode@),
{
    let mut text = id.to_string();
    text.append(":");
    if !season.is_empty() {
        text.append(season);
        text.append(":");
    }
    text.append(episode);
    text
}

/// What an entry says of a film, or of an episode of a series.
pub fn read_meta(meta: &Json, type_: &str, id: &str, season: &str, episode: &str) -> (info: VideoInfo)
    ensures
        info@ == info_of(meta@, type_@, id@, season@, episode@),
{
    let mut info = VideoInfo {
        poster: text_field_or(meta, "poster", "default_poster_url"),
        name: text_field_or(meta, "name", "Unknown Title"),
        year: text_field_or(meta, "year", ""),
        thumbnail: "default_thumbnail_url".to_string(),
        epname: "Unknown Episode Name".to_string(),
    };
    if !same_text(type_, "series") {
        return info;
    }
    let videos = match meta.get("videos") {
        Some(value) => match value.as_array() {
            Some(videos) => videos,
            None => return info,
        },
        None => return info,
    };
    assert(videos_of(meta@) =~= items_of(videos@));
    match find_episode(videos, episode_id_text(id, season, episode).as_str()) {
        Some(i) => {
            let video = &videos[i];
            info.thumbnail = text_field_or(video, "thumbnail", "default_thumbnail_url");
            info.epname = match text_field(video, "name") {
                Some(name) => name,
                None => match text_field(video, "title") {
                    Some(title) => title,
                    None => text_field_or(meta, "name", "Unknown Episode Name"),
                },
            };
        },
        None => {},
    }
    info
}

/// What the answer of a catalogue says.
pub fn read_answer(
    answer: &Option<Json>,
    type_: &str,
    id: &str,
    season: &str,
    episode: &str,
) -> (info: Option<VideoInfo>)
    ensures
        info_in(info) == answer_info(
            match *answer {
                Some(j) => Some(j@),
                None => None,
            },
            type_@,
            id@,
            season@,
            episode@,
        ),
{
    match answer {
        Some(document) => {
            if !document.is_object() {
                return None;
            }
            Some(
                match document.get("meta") {
                    Some(meta) => read_meta(meta, type_, id, season, episode),
                    None => VideoInfo {
                        poster: "default_poster_url".to_string(),
                        name: "Unknown Title".to_string(),
                        year: "".to_string(),
                        thumbnail: "default_thumbnail_url".to_string(),
                        epname: "Unknown Episode Name".to_string(),
                    },
                },
            )
        },
        None => None,
    }
}

/// Asks a catalogue for a film or an episode. `fetch` gets the text at an
/// address, or nothing where that fails.
pub fn getvidinfo<F>(type_: &str, id: &str, season: &str, episode: &str, fetch: F) -> (info: Option<
    VideoInfo,
>) where F: FnOnce(String) -> Option<String>
    requires
        forall|url: String| #[trigger] call_requires(fetch, (url,)),
    ensures
        exists|url: String, text: Option<String>| #[trigger]
            call_ensures(fetch, (url,), text) && url@ == meta_url_of(type_@, id@) && info_in(info)
                == match text {
                Some(t) => answer_info(json_document(t@), type_@, id@, season@, episode@),
                None => None,
            },
{
    let text = match fetch(meta_url(type_, id)) {
        Some(text) => text,
        None => return None,
    };
    let answer = parse_json(text.as_str());
    read_answer(&answer, type_, id, season, episode)
}

// ---------------------------------------------------------------------------
// What to ask for
// ---------------------------------------------------------------------------

/// A question to a catalogue.
#[derive(Debug)]
pub struct VideoQuery {
    pub type_: String,
    pub id: String,
    pub season: String,
    pub episode: String,
}

#[verifier::ext_equal]
pub struct QueryView {
    pub type_: Seq<char>,
    pub id: Seq<char>,
    pub season: Seq<char>,
    pub episode: Seq<char>,
}

impl View for VideoQuery {
    type V = QueryView;

    open spec fn view(&self) -> QueryView {
        QueryView {
            type_: self.type_@,
            id: self.id@,
            season: self.season@,
            episode: self.episode@,
        }
    }
}

/// The question that the parts of an id between its colons lead to.
pub open spec fn query_of(parts: Seq<Seq<char>>) -> QueryView {
    let none = Seq::<char>::empty();
    let unknown = QueryView { type_: "unknown"@, id: none, season: none, episode: none };
    if parts[0] == "kitsu"@ {
        if parts.len() == 2 {
            QueryView {
                type_: "movie"@,
                id: parts[0] + ":"@ + parts[1],
                season: none,
                episode: none,
            }
        } else if parts.len() == 3 {
            QueryView {
                type_: "series"@,
                id: parts[0] + ":"@ + parts[1],
                season: none,
                episode: parts[2],
            }
        } else {
            unknown
        }
    } else if parts.len() == 1 {
        QueryView { type_: "movie"@, id: parts[0], season: none, episode: none }
    } else if parts.len() == 3 {
        QueryView { type_: "series"@, id: parts[0], season: parts[1], episode: parts[2] }
    } else {
        unknown
    }
}

/// The question that an id of the web interface leads to.
pub fn parse_video_id(video_id: &str) -> (query: VideoQuery)
    ensures
        query@ == query_of(split_on(video_id@, ':')),
{
    let parts = split(video_id, ':');
    let ghost views = split_on(video_id@, ':');
    assert forall|i: int| 0 <= i < parts@.len() implies (#[trigger] parts@[i])@ == views[i] by {
        assert(texts(parts@)[i] == parts@[i]@);
    }
    if same_text(parts[0].as_str(), "kitsu") {
        if parts.len() == 2 || parts.len() == 3 {
            let mut id = parts[0].clone();
            id.append(":");
            id.append(parts[1].as_str());
            if parts.len() == 2 {
                return VideoQuery {
                    type_: "movie".to_string(),
                    id,
                    season: String::new(),
                    episode: String::new(),
                };
            }
            return VideoQuery {
                type_: "series".to_string(),
                id,
                season: String::new(),
                episode: parts[2].clone(),
            };
        }
    } else if parts.len() == 1 {
        return VideoQuery {
            type_: "movie".to_string(),
            id: parts[0].clone(),
            season: String::new(),
            episode: String::new(),
        };
    } else if parts.len() == 3 {
        return VideoQuery {
            type_: "series".to_string(),
            id: parts[0].clone(),
            season: parts[1].clone(),
            episode: parts[2].clone(),
        };
    }
    VideoQuery {
        type_: "unknown".to_string(),
        id: String::new(),
        season: String::new(),
        episode: String::new(),
    }
}

// ---------------------------------------------------------------------------
// Laws
// ---------------------------------------------------------------------------

/// The id that an episode is looked up under is the id that its question came
/// from, for a question about an episode.
pub proof fn episodes_are_found_under_their_id(parts: Seq<Seq<char>>)
    requires
        parts.len() == 3,
        parts[0] != "kitsu"@ ==> parts[1].len() > 0,
    ensures
        ({
            let q = query_of(parts);
            q.type_ == "series"@ && episode_id(q.id, q.season, q.episode) == parts[0] + ":"@
                + parts[1] + ":"@ + parts[2]
        }),
{
}

} // verus!
