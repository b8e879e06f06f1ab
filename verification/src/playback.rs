//! What is known of the playback: the player's properties as the web interface
//! and the rest of the shell see them.

use crate::json::{
    json_document, json_of_real, parse_json, real_to_json, Json, JsonNumber, JsonView,
};
use crate::number::{real_zero, Real, HUNDRED_BITS, ONE_BITS};
use crate::text::same_text;
use vstd::hash_map::StringHashMap;
use vstd::prelude::*;

verus! {

// ---------------------------------------------------------------------------
// Property values
// ---------------------------------------------------------------------------

/// A value that a property is set to.
#[derive(Debug)]
pub enum PropVal {
    Bool(bool),
    Num(Real),
    Str(String),
}

#[verifier::ext_equal]
pub enum PropView {
    Bool(bool),
    Num(Real),
    Str(Seq<char>),
}

impl View for PropVal {
    type V = PropView;

    open spec fn view(&self) -> PropView {
        match *self {
            PropVal::Bool(b) => PropView::Bool(b),
            PropVal::Num(n) => PropView::Num(n),
            PropVal::Str(s) => PropView::Str(s@),
        }
    }
}

impl Clone for PropVal {
    fn clone(&self) -> (copy: PropVal)
        ensures
            copy@ == self@,
    {
        match self {
            PropVal::Bool(b) => PropVal::Bool(*b),
            PropVal::Num(n) => PropVal::Num(*n),
            PropVal::Str(s) => PropVal::Str(s.clone()),
        }
    }
}

/// Two values are the same, numbers as numbers.
pub open spec fn same_value(a: PropView, b: PropView) -> bool {
    match (a, b) {
        (PropView::Bool(x), PropView::Bool(y)) => x == y,
        (PropView::Num(x), PropView::Num(y)) => x.equals(y),
        (PropView::Str(x), PropView::Str(y)) => x == y,
        _ => false,
    }
}

impl PropVal {
    pub fn same(&self, other: &PropVal) -> (same: bool)
        ensures
            same == same_value(self@, other@),
    {
        match (self, other) {
            (PropVal::Bool(x), PropVal::Bool(y)) => *x == *y,
            (PropVal::Num(x), PropVal::Num(y)) => x.same(y),
            (PropVal::Str(x), PropVal::Str(y)) => same_text(x.as_str(), y.as_str()),
            _ => false,
        }
    }
}

/// A value that the player reports.
#[derive(Debug)]
pub enum PropertyData {
    Flag(bool),
    /// An integer, and the same as a floating-point number.
    Int64(i64, Real),
    Double(Real),
    Str(String),
    OsdStr(String),
}

#[verifier::ext_equal]
pub enum DataView {
    Flag(bool),
    Int64(i64, Real),
    Double(Real),
    Str(Seq<char>),
    OsdStr(Seq<char>),
}

impl View for PropertyData {
    type V = DataView;

    open spec fn view(&self) -> DataView {
        match *self {
            PropertyData::Flag(b) => DataView::Flag(b),
            PropertyData::Int64(n, r) => DataView::Int64(n, r),
            PropertyData::Double(r) => DataView::Double(r),
            PropertyData::Str(s) => DataView::Str(s@),
            PropertyData::OsdStr(s) => DataView::OsdStr(s@),
        }
    }
}

/// How a property is to be read.
#[derive(Debug, Clone, Copy, PartialEq, Eq, Structural)]
pub enum Format {
    Text,
    Flag,
    Int64,
    Double,
}

// ---------------------------------------------------------------------------
// JSON notation of values
// ---------------------------------------------------------------------------

/// The text of a flag that is set.
pub open spec fn says_yes(s: Seq<char>) -> bool {
    s == "yes"@ || s == "true"@ || s == "1"@
}

/// The text of a flag that is not set.
pub open spec fn says_no(s: Seq<char>) -> bool {
    s == "no"@ || s == "false"@ || s == "0"@
}

pub fn is_yes(s: &str) -> (yes: bool)
    ensures
        yes == says_yes(s@),
{
    same_text(s, "yes") || same_text(s, "true") || same_text(s, "1")
}

pub fn is_no(s: &str) -> (no: bool)
    ensures
        no == says_no(s@),
{
    same_text(s, "no") || same_text(s, "false") || same_text(s, "0")
}

/// The value as the web interface wants it: `mute` is a flag, also where the
/// player gives it as text.
pub open spec fn normalized(name: Seq<char>, value: JsonView) -> JsonView {
    match value {
        JsonView::Text(s) => if name == "mute"@ {
            JsonView::Bool(says_yes(s))
        } else {
            value
        },
        _ => value,
    }
}

pub fn normalize_property_value_for_web(name: &str, value: &Json) -> (normal: Json)
    ensures
        normal@ == normalized(name@, value@),
{
    if same_text(name, "mute") {
        match value {
            Json::Text(s) => return Json::Bool(is_yes(s.as_str())),
            _ => {},
        }
    }
    value.duplicate()
}

/// A value that is set, as JSON.
pub open spec fn prop_json(value: PropView) -> JsonView {
    match value {
        PropView::Bool(b) => JsonView::Bool(b),
        PropView::Num(n) => json_of_real(n),
        PropView::Str(s) => JsonView::Text(s),
    }
}

pub fn prop_val_to_json(value: &PropVal) -> (json: Json)
    ensures
        json@ == prop_json(value@),
{
    match value {
        PropVal::Bool(b) => Json::Bool(*b),
        PropVal::Num(n) => real_to_json(*n),
        PropVal::Str(s) => Json::Text(s.clone()),
    }
}

/// The property's text is itself a JSON document.
pub open spec fn is_structured(name: Seq<char>) -> bool {
    name == "metadata"@ || name == "track-list"@ || name == "video-params"@
}

/// A property's text as JSON: the document that it denotes where the property
/// is structured, and else the text.
pub open spec fn text_json(name: Seq<char>, value: Seq<char>) -> JsonView {
    match json_document(value) {
        Some(document) => if is_structured(name) {
            document
        } else {
            JsonView::Text(value)
        },
        None => JsonView::Text(value),
    }
}

pub fn mpv_string_property_to_json(name: &str, value: &str) -> (json: Json)
    ensures
        json@ == text_json(name@, value@),
{
    if same_text(name, "metadata") || same_text(name, "track-list") || same_text(
        name,
        "video-params",
    ) {
        match parse_json(value) {
            Some(document) => return document,
            None => {},
        }
    }
    Json::Text(value.to_string())
}

/// An integer as JSON.
pub open spec fn integer_json(n: i64, r: Real) -> JsonView {
    JsonView::Number(
        JsonNumber {
            unsigned: if n >= 0 {
                Some(n as u64)
            } else {
                None
            },
            signed: Some(n),
            real: Some(r),
        },
    )
}

/// A reported value as JSON; a number that is not finite is null.
pub open spec fn data_json(name: Seq<char>, data: DataView) -> JsonView {
    match data {
        DataView::Flag(b) => JsonView::Bool(b),
        DataView::Int64(n, r) => integer_json(n, r),
        DataView::Double(r) => json_of_real(r),
        DataView::Str(s) => text_json(name, s),
        DataView::OsdStr(s) => text_json(name, s),
    }
}

fn reported_json(name: &str, data: &PropertyData) -> (json: Json)
    ensures
        json@ == data_json(name@, data@),
{
    match data {
        PropertyData::Flag(b) => Json::Bool(*b),
        PropertyData::Int64(n, r) => Json::Number(
            JsonNumber {
                unsigned: if *n >= 0 {
                    Some(*n as u64)
                } else {
                    None
                },
                signed: Some(*n),
                real: Some(*r),
            },
        ),
        PropertyData::Double(r) => real_to_json(*r),
        PropertyData::Str(s) => mpv_string_property_to_json(name, s.as_str()),
        PropertyData::OsdStr(s) => mpv_string_property_to_json(name, s.as_str()),
    }
}

/// A reported value as JSON, or nothing for a number that is not finite.
pub open spec fn reply_json(name: Seq<char>, data: DataView) -> Option<JsonView> {
    match data {
        DataView::Double(r) => if r.finite() {
            Some(data_json(name, data))
        } else {
            None
        },
        _ => Some(data_json(name, data)),
    }
}

pub fn property_data_to_json(name: &str, data: &PropertyData) -> (json: Option<Json>)
    ensures
        match json {
            Some(j) => reply_json(name@, data@) == Some(j@),
            None => reply_json(name@, data@) is None,
        },
{
    match data {
        PropertyData::Double(r) => if !r.is_finite() {
            return None;
        },
        _ => {},
    }
    Some(reported_json(name, data))
}

// ---------------------------------------------------------------------------
// Which properties are remembered
// ---------------------------------------------------------------------------

/// The web interface gets these properties as soon as it observes them.
pub open spec fn is_immediate(name: Seq<char>) -> bool {
    ||| name == "mpv-version"@
    ||| name == "ffmpeg-version"@
    ||| name == "pause"@
    ||| name == "volume"@
    ||| name == "mute"@
    ||| name == "sid"@
    ||| name == "aid"@
    ||| name == "vid"@
    ||| name == "sub-scale"@
    ||| name == "sub-pos"@
    ||| name == "sub-delay"@
    ||| name == "speed"@
}

pub fn is_cached_immediate_property(name: &str) -> (yes: bool)
    ensures
        yes == is_immediate(name@),
{
    same_text(name, "mpv-version") || same_text(name, "ffmpeg-version") || same_text(name, "pause")
        || same_text(name, "volume") || same_text(name, "mute") || same_text(name, "sid")
        || same_text(name, "aid") || same_text(name, "vid") || same_text(name, "sub-scale")
        || same_text(name, "sub-pos") || same_text(name, "sub-delay") || same_text(name, "speed")
}

/// These properties belong to the file that plays.
pub open spec fn is_of_file(name: Seq<char>) -> bool {
    ||| name == "time-pos"@
    ||| name == "duration"@
    ||| name == "paused-for-cache"@
    ||| name == "cache-buffering-state"@
    ||| name == "demuxer-cache-time"@
    ||| name == "seeking"@
    ||| name == "eof-reached"@
    ||| name == "metadata"@
    ||| name == "video-params"@
    ||| name == "track-list"@
    ||| name == "aid"@
    ||| name == "vid"@
    ||| name == "sid"@
}

// ---------------------------------------------------------------------------
// The playback
// ---------------------------------------------------------------------------

/// What is known of the playback.
pub struct Playback {
    pub current_time: Real,
    pub total_duration: Real,
    pub is_paused: bool,
    pub current_volume: Real,
    pub cached_props: StringHashMap<Json>,
    pub is_file_loaded: bool,
    /// How many files were loaded so far.
    pub file_load_epoch: u64,
    pub stop_command_in_flight: bool,
    pub mpv_version: Option<String>,
    pub ffmpeg_version: Option<String>,
    /// The chapter that plays, or -1.
    pub current_chapter: i64,
    pub current_chapter_count: i64,
    pub current_chapter_title: String,
    /// The address of the stream that plays.
    pub current_stream_url: String,
}

#[verifier::ext_equal]
pub struct PlaybackView {
    pub time: Real,
    pub duration: Real,
    pub paused: bool,
    pub volume: Real,
    pub cached: Map<Seq<char>, JsonView>,
    pub file_loaded: bool,
    pub load_epoch: u64,
    pub stopping: bool,
    pub mpv_version: Option<Seq<char>>,
    pub ffmpeg_version: Option<Seq<char>>,
    pub chapter: i64,
    pub chapter_count: i64,
    pub chapter_title: Seq<char>,
    pub stream_url: Seq<char>,
}

/// The text in an option.
pub open spec fn text_in(s: Option<String>) -> Option<Seq<char>> {
    match s {
        Some(s) => Some(s@),
        None => None,
    }
}

/// The documents in a map.
pub open spec fn documents(map: Map<Seq<char>, Json>) -> Map<Seq<char>, JsonView> {
    map.map_values(|j: Json| j@)
}

impl View for Playback {
    type V = PlaybackView;

    open spec fn view(&self) -> PlaybackView {
        PlaybackView {
            time: self.current_time,
            duration: self.total_duration,
            paused: self.is_paused,
            volume: self.current_volume,
            cached: documents(self.cached_props@),
            file_loaded: self.is_file_loaded,
            load_epoch: self.file_load_epoch,
            stopping: self.stop_command_in_flight,
            mpv_version: text_in(self.mpv_version),
            ffmpeg_version: text_in(self.ffmpeg_version),
            chapter: self.current_chapter,
            chapter_count: self.current_chapter_count,
            chapter_title: self.current_chapter_title@,
            stream_url: self.current_stream_url@,
        }
    }
}

impl PlaybackView {
    /// After a property's value became known.
    pub open spec fn caching(self, name: Seq<char>, value: JsonView) -> PlaybackView {
        let v = normalized(name, value);
        PlaybackView {
            cached: if is_immediate(name) || name == "video-params"@ {
                self.cached.insert(name, v)
            } else {
                self.cached
            },
            mpv_version: if name == "mpv-version"@ && v.text() is Some {
                v.text()
            } else {
                self.mpv_version
            },
            ffmpeg_version: if name == "ffmpeg-version"@ && v.text() is Some {
                v.text()
            } else {
                self.ffmpeg_version
            },
            volume: if name == "volume"@ && v.number() is Some {
                v.number()->0
            } else {
                self.volume
            },
            ..self
        }
    }

    /// The value of a property that is known at once: the last one that was
    /// seen, or the one that holds until another is seen.
    pub open spec fn known(self, name: Seq<char>) -> Option<JsonView> {
        if self.cached.contains_key(name) {
            Some(self.cached[name])
        } else if name == "mpv-version"@ {
            match self.mpv_version {
                Some(s) => Some(JsonView::Text(s)),
                None => None,
            }
        } else if name == "ffmpeg-version"@ {
            match self.ffmpeg_version {
                Some(s) => Some(JsonView::Text(s)),
                None => None,
            }
        } else if name == "pause"@ {
            Some(JsonView::Bool(self.paused))
        } else if name == "volume"@ {
            Some(json_of_real(self.volume))
        } else if name == "mute"@ {
            Some(JsonView::Bool(false))
        } else if name == "sid"@ || name == "aid"@ || name == "vid"@ {
            Some(JsonView::Text("no"@))
        } else if name == "sub-scale"@ || name == "speed"@ {
            Some(json_of_real(Real { bits: ONE_BITS }))
        } else if name == "sub-pos"@ {
            Some(json_of_real(Real { bits: HUNDRED_BITS }))
        } else if name == "sub-delay"@ {
            Some(json_of_real(real_zero()))
        } else {
            None
        }
    }

    /// After everything that belongs to the file was forgotten.
    pub open spec fn without_file(self) -> PlaybackView {
        PlaybackView {
            cached: self.cached.remove_keys(Set::new(|name: Seq<char>| is_of_file(name))),
            ..self
        }
    }

    /// After the player reported a change.
    pub open spec fn reported(self, name: Seq<char>, data: DataView) -> PlaybackView {
        let known = self.caching(name, data_json(name, data));
        match data {
            DataView::Double(r) => if name == "volume"@ {
                PlaybackView { volume: r, ..known }
            } else if name == "time-pos"@ {
                PlaybackView { time: r, ..known }
            } else if name == "duration"@ {
                PlaybackView { duration: r, ..known }
            } else {
                known
            },
            DataView::Flag(b) => if name == "pause"@ {
                PlaybackView { paused: b, ..known }
            } else {
                known
            },
            DataView::Int64(n, _) => if name == "chapter"@ {
                PlaybackView { chapter: n, ..known }
            } else if name == "chapters"@ {
                PlaybackView { chapter_count: n, ..known }
            } else {
                known
            },
            DataView::Str(s) => if name == "chapter-metadata/by-key/title"@ {
                PlaybackView { chapter_title: s, ..known }
            } else {
                known
            },
            DataView::OsdStr(s) => if name == "chapter-metadata/by-key/title"@ {
                PlaybackView { chapter_title: s, ..known }
            } else {
                known
            },
        }
    }

    /// After a property was set: pausing is noted at once.
    pub open spec fn after_set(self, name: Seq<char>, value: PropView) -> PlaybackView {
        match pause_meant(value) {
            Some(paused) => if name == "pause"@ {
                PlaybackView { paused, ..self }.caching(name, JsonView::Bool(paused))
            } else {
                self
            },
            None => self,
        }
    }
}

/// Whether a value for `pause` means to pause, where it is clear.
pub open spec fn pause_meant(value: PropView) -> Option<bool> {
    match value {
        PropView::Bool(b) => Some(b),
        PropView::Num(n) => Some(!n.equals(real_zero())),
        PropView::Str(s) => if says_yes(s) {
            Some(true)
        } else if says_no(s) {
            Some(false)
        } else {
            None
        },
    }
}

/// What is known of playback before anything plays.
pub open spec fn nothing_played(volume: Real) -> PlaybackView {
    PlaybackView {
        time: real_zero(),
        duration: real_zero(),
        paused: false,
        volume,
        cached: Map::empty(),
        file_loaded: false,
        load_epoch: 0,
        stopping: false,
        mpv_version: None,
        ffmpeg_version: None,
        chapter: (-1) as i64,
        chapter_count: 0,
        chapter_title: Seq::empty(),
        stream_url: Seq::empty(),
    }
}

impl Playback {
    /// Nothing is playing yet.
    pub fn new(volume: Real) -> (playback: Playback)
        ensures
            playback@ == nothing_played(volume),
    {
        let playback = Playback {
            current_time: Real::from_bits(0),
            total_duration: Real::from_bits(0),
            is_paused: false,
            current_volume: volume,
            cached_props: StringHashMap::new(),
            is_file_loaded: false,
            file_load_epoch: 0,
            stop_command_in_flight: false,
            mpv_version: None,
            ffmpeg_version: None,
            current_chapter: -1,
            current_chapter_count: 0,
            current_chapter_title: String::new(),
            current_stream_url: String::new(),
        };
        assert(playback@.cached =~= Map::empty());
        playback
    }

    /// Notes a property's value.
    pub fn cache_property_value(&mut self, name: &str, value: &Json)
        ensures
            final(self)@ == old(self)@.caching(name@, value@),
    {
        let value = normalize_property_value_for_web(name, value);
        let ghost v = value@;
        match &value {
            Json::Text(s) => {
                if same_text(name, "mpv-version") {
                    self.mpv_version = Some(s.clone());
                }
                if same_text(name, "ffmpeg-version") {
                    self.ffmpeg_version = Some(s.clone());
                }
            },
            _ => {},
        }
        if same_text(name, "volume") {
            match value.as_real() {
                Some(volume) => {
                    self.current_volume = volume;
                },
                None => {},
            }
        }
        if is_cached_immediate_property(name) || same_text(name, "video-params") {
            self.cached_props.insert(name.to_string(), value);
            assert(documents(self.cached_props@) =~= documents(old(self).cached_props@).insert(
                name@,
                v,
            ));
        }
    }

    /// The value of a property that is known at once.
    pub fn cached_property_value(&self, name: &str) -> (value: Option<Json>)
        ensures
            match value {
                Some(v) => self@.known(name@) == Some(v@),
                None => self@.known(name@) is None,
            },
    {
        match self.cached_props.get(name) {
            Some(value) => return Some(value.duplicate()),
            None => {},
        }
        if same_text(name, "mpv-version") {
            return match &self.mpv_version {
                Some(s) => Some(Json::Text(s.clone())),
                None => None,
            };
        }
        if same_text(name, "ffmpeg-version") {
            return match &self.ffmpeg_version {
                Some(s) => Some(Json::Text(s.clone())),
                None => None,
            };
        }
        if same_text(name, "pause") {
            return Some(Json::Bool(self.is_paused));
        }
        if same_text(name, "volume") {
            return Some(real_to_json(self.current_volume));
        }
        if same_text(name, "mute") {
            return Some(Json::Bool(false));
        }
        if same_text(name, "sid") || same_text(name, "aid") || same_text(name, "vid") {
            return Some(Json::Text("no".to_string()));
        }
        if same_text(name, "sub-scale") || same_text(name, "speed") {
            return Some(real_to_json(Real::from_bits(ONE_BITS)));
        }
        if same_text(name, "sub-pos") {
            return Some(real_to_json(Real::from_bits(HUNDRED_BITS)));
        }
        if same_text(name, "sub-delay") {
            return Some(real_to_json(Real::from_bits(0)));
        }
        None
    }

    /// Forgets what belongs to the file that plays.
    pub fn clear_file_scoped_cached_props(&mut self)
        ensures
            final(self)@ == old(self)@.without_file(),
    {
        self.cached_props.remove("time-pos");
        self.cached_props.remove("duration");
        self.cached_props.remove("paused-for-cache");
        self.cached_props.remove("cache-buffering-state");
        self.cached_props.remove("demuxer-cache-time");
        self.cached_props.remove("seeking");
        self.cached_props.remove("eof-reached");
        self.cached_props.remove("metadata");
        self.cached_props.remove("video-params");
        self.cached_props.remove("track-list");
        self.cached_props.remove("aid");
        self.cached_props.remove("vid");
        self.cached_props.remove("sid");
        assert(self@.cached =~= old(self)@.without_file().cached);
    }

    /// Takes in that the player reported a change. A new volume is returned,
    /// to be saved.
    pub fn update_cached_property(&mut self, name: &str, change: &PropertyData) -> (to_save: Option<
        Real,
    >)
        ensures
            final(self)@ == old(self)@.reported(name@, change@),
            to_save == match change@ {
                DataView::Double(r) => if name@ == "volume"@ {
                    Some(r)
                } else {
                    None
                },
                _ => None,
            },
    {
        proof {
            names_differ();
        }
        let value = reported_json(name, change);
        self.cache_property_value(name, &value);
        match change {
            PropertyData::Double(r) => {
                if same_text(name, "volume") {
                    self.current_volume = *r;
                    return Some(*r);
                }
                if same_text(name, "time-pos") {
                    self.current_time = *r;
                }
                if same_text(name, "duration") {
                    self.total_duration = *r;
                }
            },
            PropertyData::Flag(b) => {
                if same_text(name, "pause") {
                    self.is_paused = *b;
                }
            },
            PropertyData::Int64(n, _) => {
                if same_text(name, "chapter") {
                    self.current_chapter = *n;
                }
                if same_text(name, "chapters") {
                    self.current_chapter_count = *n;
                }
            },
            PropertyData::Str(s) => {
                if same_text(name, "chapter-metadata/by-key/title") {
                    self.current_chapter_title = s.clone();
                }
            },
            PropertyData::OsdStr(s) => {
                if same_text(name, "chapter-metadata/by-key/title") {
                    self.current_chapter_title = s.clone();
                }
            },
        }
        None
    }

    /// Notes at once that playback pauses or goes on.
    pub fn apply_property_set_side_effect(&mut self, name: &str, value: &PropVal)
        ensures
            final(self)@ == old(self)@.after_set(name@, value@),
    {
        if !same_text(name, "pause") {
            return ;
        }
        let pause = match value {
            PropVal::Bool(b) => Some(*b),
            PropVal::Num(n) => Some(!n.same(&Real::from_bits(0))),
            PropVal::Str(s) => if is_yes(s.as_str()) {
                Some(true)
            } else if is_no(s.as_str()) {
                Some(false)
            } else {
                None
            },
        };
        match pause {
            Some(paused) => {
                self.is_paused = paused;
                self.cache_property_value(name, &Json::Bool(paused));
            },
            None => {},
        }
    }

    /// The height of the video that plays, where it is known.
    pub fn current_video_height(&self) -> (height: Option<Real>)
        ensures
            height == video_height(self@),
    {
        match self.cached_props.get("video-params") {
            Some(Json::Text(s)) => match parse_json(s.as_str()) {
                Some(document) => height_in(&document),
                None => None,
            },
            Some(params) => height_in(params),
            None => None,
        }
    }
}

/// The height that the video parameters give.
pub open spec fn video_height(v: PlaybackView) -> Option<Real> {
    if v.cached.contains_key("video-params"@) {
        match v.cached["video-params"@] {
            JsonView::Text(s) => match json_document(s) {
                Some(document) => height_of(document),
                None => None,
            },
            params => height_of(params),
        }
    } else {
        None
    }
}

pub open spec fn height_of(params: JsonView) -> Option<Real> {
    match params.field("h"@) {
        Some(h) => h.number(),
        None => None,
    }
}

fn height_in(params: &Json) -> (height: Option<Real>)
    ensures
        height == height_of(params@),
{
    match params.get("h") {
        Some(h) => h.as_real(),
        None => None,
    }
}

/// The names of the properties that are told apart are not the same.
pub proof fn names_differ()
    ensures
        "time-pos"@ != "duration"@,
        "volume"@ != "time-pos"@,
        "volume"@ != "duration"@,
        "chapter"@ != "chapters"@,
{
    reveal_strlit("time-pos");
    reveal_strlit("duration");
    reveal_strlit("volume");
    reveal_strlit("chapter");
    reveal_strlit("chapters");
    assert("time-pos"@[0] != "duration"@[0]);
    assert("volume"@[0] != "time-pos"@[0]);
    assert("volume"@[0] != "duration"@[0]);
    assert("chapter"@.len() != "chapters"@.len());
}

// ---------------------------------------------------------------------------
// Laws
// ---------------------------------------------------------------------------

/// What was noted of a property is what is known of it, in the form that the
/// web interface wants.
pub proof fn noted_values_are_known(v: PlaybackView, name: Seq<char>, value: JsonView)
    requires
        is_immediate(name),
    ensures
        v.caching(name, value).known(name) == Some(normalized(name, value)),
{
}

/// Values are brought into the web interface's form once and for all.
pub proof fn normalizing_is_final(name: Seq<char>, value: JsonView)
    ensures
        normalized(name, normalized(name, value)) == normalized(name, value),
{
}

/// Nothing of an earlier file is known once it was forgotten, and the rest
/// stays.
pub proof fn forgotten_files_are_gone(v: PlaybackView, name: Seq<char>)
    ensures
        is_of_file(name) ==> !v.without_file().cached.contains_key(name),
        !is_of_file(name) ==> v.without_file().known(name) == v.known(name),
        v.without_file().without_file() == v.without_file(),
{
    assert(v.without_file().without_file().cached =~= v.without_file().cached);
}

} // verus!
