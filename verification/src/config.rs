//! The settings file of presence, lobby and automatic skipping.

use crate::encoding::lowercase;
use crate::intro_skip::IntroSkipConfig;
use crate::number::{i32_of, natural_up_to, parse_i32, parse_u64};
use crate::playback::text_in;
use crate::player_rules::copy_texts;
use crate::text::{chars_of, same_text, split, split_on, text_of, texts, trim, trimmed};
use vstd::prelude::*;

verus! {

// ---------------------------------------------------------------------------
// INI documents
// ---------------------------------------------------------------------------

#[verifier::external_type_specification]
#[verifier::external_body]
pub struct ExIni(ini::Ini);

/// The values in an INI document, by section and key; of several under one
/// name the first.
pub uninterp spec fn ini_values(document: ini::Ini) -> Map<(Seq<char>, Seq<char>), Seq<char>>;

/// The values in the INI document that a text denotes, where it is one.
pub uninterp spec fn ini_text_values(text: Seq<char>) -> Option<Map<(Seq<char>, Seq<char>), Seq<char>>>;

/// Calls `ini::Ini::load_from_str`. Which texts it accepts, and the values in
/// the document, depend on the text alone.
#[verifier::external_body]
fn read_ini(text: &str) -> (document: Option<ini::Ini>)
    ensures
        match document {
            Some(d) => ini_text_values(text@) == Some(ini_values(d)),
            None => ini_text_values(text@) is None,
        },
{
    ini::Ini::load_from_str(text).ok()
}

/// Calls `ini::Ini::get_from`: the first value under the key in the first
/// section of the name.
#[verifier::external_body]
fn ini_value(document: &ini::Ini, section: &str, key: &str) -> (value: Option<String>)
    ensures
        match value {
            Some(v) => ini_values(*document).contains_key((section@, key@)) && v@ == ini_values(
                *document,
            )[(section@, key@)],
            None => !ini_values(*document).contains_key((section@, key@)),
        },
{
    document.get_from(Some(section), key).map(|v| v.to_string())
}

// ---------------------------------------------------------------------------
// Settings
// ---------------------------------------------------------------------------

/// The settings.
#[derive(Debug)]
pub struct Config {
    pub show_buttons: bool,
    pub link_target: String,
    pub disable_in_menu: bool,
    pub disable_when_paused: bool,
    pub refresh_interval: u64,
    pub show_small_image: bool,
    pub swap_name_and_title: bool,
    pub lobby_max_size: i32,
    pub auto_skip_enabled: bool,
    pub auto_skip_intro: bool,
    pub auto_skip_recap: bool,
    pub auto_skip_outro: bool,
    pub chapter_intro_words: Vec<String>,
    pub chapter_recap_words: Vec<String>,
    pub chapter_outro_words: Vec<String>,
    pub introdb_api_key: Option<String>,
    pub theintrodb_api_key: Option<String>,
}

#[verifier::ext_equal]
pub struct ConfigView {
    pub show_buttons: bool,
    pub link_target: Seq<char>,
    pub disable_in_menu: bool,
    pub disable_when_paused: bool,
    pub refresh_interval: u64,
    pub show_small_image: bool,
    pub swap_name_and_title: bool,
    pub lobby_max_size: i32,
    pub auto_skip_enabled: bool,
    pub auto_skip_intro: bool,
    pub auto_skip_recap: bool,
    pub auto_skip_outro: bool,
    pub chapter_intro_words: Seq<Seq<char>>,
    pub chapter_recap_words: Seq<Seq<char>>,
    pub chapter_outro_words: Seq<Seq<char>>,
    pub introdb_api_key: Option<Seq<char>>,
    pub theintrodb_api_key: Option<Seq<char>>,
}

impl View for Config {
    type V = ConfigView;

    open spec fn view(&self) -> ConfigView {
        ConfigView {
            show_buttons: self.show_buttons,
            link_target: self.link_target@,
            disable_in_menu: self.disable_in_menu,
            disable_when_paused: self.disable_when_paused,
            refresh_interval: self.refresh_interval,
            show_small_image: self.show_small_image,
            swap_name_and_title: self.swap_name_and_title,
            lobby_max_size: self.lobby_max_size,
            auto_skip_enabled: self.auto_skip_enabled,
            auto_skip_intro: self.auto_skip_intro,
            auto_skip_recap: self.auto_skip_recap,
            auto_skip_outro: self.auto_skip_outro,
            chapter_intro_words: texts(self.chapter_intro_words@),
            chapter_recap_words: texts(self.chapter_recap_words@),
            chapter_outro_words: texts(self.chapter_outro_words@),
            introdb_api_key: text_in(self.introdb_api_key),
            theintrodb_api_key: text_in(self.theintrodb_api_key),
        }
    }
}

/// The values of a settings file.
pub type Values = Map<(Seq<char>, Seq<char>), Seq<char>>;

/// A value of the settings file.
pub open spec fn setting(values: Values, section: Seq<char>, key: Seq<char>) -> Option<Seq<char>> {
    if values.contains_key((section, key)) {
        Some(values[(section, key)])
    } else {
        None
    }
}

/// A switch: on for `true`, off for anything else, and the default where the
/// file says nothing.
pub open spec fn switch(value: Option<Seq<char>>, default: bool) -> bool {
    match value {
        Some(v) => v == "true"@,
        None => default,
    }
}

/// A number, or the default where the file says nothing or no number.
pub open spec fn number_or(value: Option<Seq<char>>, default: u64) -> u64 {
    match value {
        Some(v) => match natural_up_to(v, u64::MAX as nat) {
            Some(n) => n as u64,
            None => default,
        },
        None => default,
    }
}

/// The size of a lobby: between 2 and 16, and 8 where the file says nothing or
/// no number.
pub open spec fn lobby_size(value: Option<Seq<char>>) -> i32 {
    let n = match value {
        Some(v) => match i32_of(v) {
            Some(n) => n,
            None => 8,
        },
        None => 8,
    };
    if n < 2 {
        2
    } else if n > 16 {
        16
    } else {
        n as i32
    }
}

/// The words of a list between commas, without white space and in lower case;
/// empty ones do not count.
pub open spec fn words_of(pieces: Seq<Seq<char>>) -> Seq<Seq<char>>
    decreases pieces.len(),
{
    if pieces.len() == 0 {
        Seq::empty()
    } else {
        let before = words_of(pieces.drop_last());
        let word = trimmed(pieces.last());
        if word.len() > 0 {
            before.push(lowercase(word))
        } else {
            before
        }
    }
}

pub open spec fn words_or(value: Option<Seq<char>>, default: Seq<char>) -> Seq<Seq<char>> {
    words_of(
        split_on(
            match value {
                Some(v) => v,
                None => default,
            },
            ',',
        ),
    )
}

/// A key that is not blank, without the white space around it.
pub open spec fn key_in(value: Option<Seq<char>>) -> Option<Seq<char>> {
    match value {
        Some(v) => if trimmed(v).len() > 0 {
            Some(trimmed(v))
        } else {
            None
        },
        None => None,
    }
}

/// The settings that the values of a file give.
pub open spec fn config_of(values: Values) -> ConfigView {
    ConfigView {
        show_buttons: switch(setting(values, "Buttons"@, "show_buttons"@), true),
        link_target: match setting(values, "Buttons"@, "link_target"@) {
            Some(v) => v,
            None => "app"@,
        },
        disable_in_menu: switch(setting(values, "Activity"@, "disable_in_menu"@), false),
        disable_when_paused: switch(setting(values, "Activity"@, "disable_when_paused"@), false),
        refresh_interval: number_or(setting(values, "Activity"@, "refresh_interval"@), 5),
        show_small_image: switch(setting(values, "Activity"@, "show_small_image"@), true),
        swap_name_and_title: switch(setting(values, "Activity"@, "swap_name_and_title"@), false),
        lobby_max_size: lobby_size(setting(values, "Lobby"@, "lobby_max_size"@)),
        auto_skip_enabled: match setting(values, "AutoSkip"@, "enabled"@) {
            Some(v) => v == "true"@,
            None => switch(setting(values, "IntroDB"@, "enabled"@), true),
        },
        auto_skip_intro: switch(setting(values, "AutoSkip"@, "skip_intro"@), true),
        auto_skip_recap: switch(setting(values, "AutoSkip"@, "skip_recap"@), true),
        auto_skip_outro: switch(setting(values, "AutoSkip"@, "skip_outro"@), true),
        chapter_intro_words: words_or(
            setting(values, "AutoSkipChapters"@, "intro"@),
            "opening,intro,logo"@,
        ),
        chapter_recap_words: words_or(setting(values, "AutoSkipChapters"@, "recap"@), "recap"@),
        chapter_outro_words: words_or(
            setting(values, "AutoSkipChapters"@, "outro"@),
            "credits,outro,ending"@,
        ),
        introdb_api_key: key_in(setting(values, "IntroDB"@, "api_key"@)),
        theintrodb_api_key: key_in(setting(values, "TheIntroDB"@, "api_key"@)),
    }
}

fn read_switch(value: &Option<String>, default: bool) -> (on: bool)
    ensures
        on == switch(text_in(*value), default),
{
    match value {
        Some(v) => same_text(v.as_str(), "true"),
        None => default,
    }
}

/// The words of a list between commas.
pub fn parse_word_list(raw: &str) -> (words: Vec<String>)
    ensures
        texts(words@) == words_of(split_on(raw@, ',')),
{
    let pieces = split(raw, ',');
    let mut words: Vec<String> = Vec::new();
    assert(texts(words@) =~= words_of(texts(pieces@).take(0)));
    for i in 0..pieces.len()
        invariant
            texts(words@) == words_of(texts(pieces@).take(i as int)),
    {
        let ghost seen = texts(pieces@).take(i + 1);
        let ghost before = texts(words@);
        assert(seen.drop_last() =~= texts(pieces@).take(i as int));
        assert(seen.last() == pieces@[i as int]@);
        let word = trim(pieces[i].as_str());
        if !word.as_str().is_empty() {
            let lower = word.as_str().to_lowercase();
            let ghost l = lower@;
            words.push(lower);
            assert(texts(words@) =~= before.push(l));
        }
    }
    assert(texts(pieces@).take(pieces@.len() as int) =~= texts(pieces@));
    words
}

fn read_words(value: &Option<String>, default: &str) -> (words: Vec<String>)
    ensures
        texts(words@) == words_or(text_in(*value), default@),
{
    match value {
        Some(v) => parse_word_list(v.as_str()),
        None => parse_word_list(default),
    }
}

fn read_key(value: &Option<String>) -> (key: Option<String>)
    ensures
        text_in(key) == key_in(text_in(*value)),
{
    match value {
        Some(v) => {
            let key = trim(v.as_str());
            if key.as_str().is_empty() {
                None
            } else {
                Some(key)
            }
        },
        None => None,
    }
}

fn read_lobby_size(value: &Option<String>) -> (size: i32)
    ensures
        size == lobby_size(text_in(*value)),
{
    let n: i32 = match value {
        Some(v) => match parse_i32(v.as_str()) {
            Some(n) => n,
            None => 8,
        },
        None => 8,
    };
    if n < 2 {
        2
    } else if n > 16 {
        16
    } else {
        n
    }
}

fn read_number(value: &Option<String>, default: u64) -> (n: u64)
    ensures
        n == number_or(text_in(*value), default),
{
    match value {
        Some(v) => match parse_u64(v.as_str()) {
            Some(n) => n,
            None => default,
        },
        None => default,
    }
}

/// The settings in an INI document.
pub fn config_from(document: &ini::Ini) -> (config: Config)
    ensures
        config@ == config_of(ini_values(*document)),
{
    let auto_skip = ini_value(document, "AutoSkip", "enabled");
    let auto_skip_enabled = match &auto_skip {
        Some(v) => same_text(v.as_str(), "true"),
        None => read_switch(&ini_value(document, "IntroDB", "enabled"), true),
    };
    let link_target = match ini_value(document, "Buttons", "link_target") {
        Some(v) => v,
        None => "app".to_string(),
    };
    Config {
        show_buttons: read_switch(&ini_value(document, "Buttons", "show_buttons"), true),
        link_target,
        disable_in_menu: read_switch(&ini_value(document, "Activity", "disable_in_menu"), false),
        disable_when_paused: read_switch(
            &ini_value(document, "Activity", "disable_when_paused"),
            false,
        ),
        refresh_interval: read_number(&ini_value(document, "Activity", "refresh_interval"), 5),
        show_small_image: read_switch(&ini_value(document, "Activity", "show_small_image"), true),
        swap_name_and_title: read_switch(
            &ini_value(document, "Activity", "swap_name_and_title"),
            false,
        ),
        lobby_max_size: read_lobby_size(&ini_value(document, "Lobby", "lobby_max_size")),
        auto_skip_enabled,
        auto_skip_intro: read_switch(&ini_value(document, "AutoSkip", "skip_intro"), true),
        auto_skip_recap: read_switch(&ini_value(document, "AutoSkip", "skip_recap"), true),
        auto_skip_outro: read_switch(&ini_value(document, "AutoSkip", "skip_outro"), true),
        chapter_intro_words: read_words(
            &ini_value(document, "AutoSkipChapters", "intro"),
            "opening,intro,logo",
        ),
        chapter_recap_words: read_words(
            &ini_value(document, "AutoSkipChapters", "recap"),
            "recap",
        ),
        chapter_outro_words: read_words(
            &ini_value(document, "AutoSkipChapters", "outro"),
            "credits,outro,ending",
        ),
        introdb_api_key: read_key(&ini_value(document, "IntroDB", "api_key")),
        theintrodb_api_key: read_key(&ini_value(document, "TheIntroDB", "api_key")),
    }
}

/// The byte-order mark that some editors put before a text.
pub const BYTE_ORDER_MARK: char = '\u{FEFF}';

/// A text without the byte-order mark at its start.
pub open spec fn without_mark(text: Seq<char>) -> Seq<char> {
    if text.len() > 0 && text[0] == BYTE_ORDER_MARK {
        text.skip(1)
    } else {
        text
    }
}

fn strip_mark(text: &str) -> (rest: String)
    ensures
        rest@ == without_mark(text@),
{
    let chars = chars_of(text);
    if chars.len() > 0 && chars[0] == BYTE_ORDER_MARK {
        let rest = text_of(&chars, 1, chars.len());
        assert(rest@ =~= text@.skip(1));
        rest
    } else {
        text.to_string()
    }
}

/// The settings in a settings file, where it can be read. A byte-order mark at
/// its start does not count.
pub fn load_config(text: &str) -> (config: Option<Config>)
    ensures
        match config {
            Some(c) => ini_text_values(without_mark(text@)) is Some && c@ == config_of(
                ini_text_values(without_mark(text@))->0,
            ),
            None => ini_text_values(without_mark(text@)) is None,
        },
{
    match read_ini(strip_mark(text).as_str()) {
        Some(document) => Some(config_from(&document)),
        None => None,
    }
}

impl Config {
    /// What is to be skipped.
    pub fn intro_skip_config(&self) -> (skip: IntroSkipConfig)
        ensures
            skip.enabled == self.auto_skip_enabled,
            skip.skip_intro == self.auto_skip_intro,
            skip.skip_recap == self.auto_skip_recap,
            skip.skip_outro == self.auto_skip_outro,
            texts(skip.chapter_intro_words@) == self@.chapter_intro_words,
            texts(skip.chapter_recap_words@) == self@.chapter_recap_words,
            texts(skip.chapter_outro_words@) == self@.chapter_outro_words,
            text_in(skip.introdb_api_key) == self@.introdb_api_key,
            text_in(skip.theintrodb_api_key) == self@.theintrodb_api_key,
    {
        IntroSkipConfig {
            enabled: self.auto_skip_enabled,
            skip_intro: self.auto_skip_intro,
            skip_recap: self.auto_skip_recap,
            skip_outro: self.auto_skip_outro,
            chapter_intro_words: copy_texts(&self.chapter_intro_words),
            chapter_recap_words: copy_texts(&self.chapter_recap_words),
            chapter_outro_words: copy_texts(&self.chapter_outro_words),
            introdb_api_key: copy_text(&self.introdb_api_key),
            theintrodb_api_key: copy_text(&self.theintrodb_api_key),
        }
    }
}

/// Copies a text in an option.
pub fn copy_text(text: &Option<String>) -> (copy: Option<String>)
    ensures
        text_in(copy) == text_in(*text),
{
    match text {
        Some(t) => Some(t.clone()),
        None => None,
    }
}

// ---------------------------------------------------------------------------
// The file that is written at first
// ---------------------------------------------------------------------------

/// A line of the settings file.
pub struct DefaultEntry {
    pub section: String,
    pub key: String,
    pub value: String,
}

/// The value that a new settings file gives, if any.
pub open spec fn default_value(section: Seq<char>, key: Seq<char>) -> Option<Seq<char>> {
    if section == "Buttons"@ {
        if key == "show_buttons"@ {
            Some("true"@)
        } else if key == "link_target"@ {
            Some("app"@)
        } else {
            None
        }
    } else if section == "Activity"@ {
        if key == "disable_in_menu"@ || key == "disable_when_paused"@ || key
            == "swap_name_and_title"@ {
            Some("false"@)
        } else if key == "refresh_interval"@ {
            Some("5"@)
        } else if key == "show_small_image"@ {
            Some("true"@)
        } else {
            None
        }
    } else if section == "Lobby"@ {
        if key == "lobby_max_size"@ {
            Some("8"@)
        } else {
            None
        }
    } else if section == "AutoSkip"@ {
        if key == "enabled"@ || key == "skip_intro"@ || key == "skip_recap"@ || key
            == "skip_outro"@ {
            Some("true"@)
        } else {
            None
        }
    } else if section == "AutoSkipChapters"@ {
        if key == "intro"@ {
            Some("opening,intro,logo"@)
        } else if key == "recap"@ {
            Some("recap"@)
        } else if key == "outro"@ {
            Some("credits,outro,ending"@)
        } else {
            None
        }
    } else if section == "IntroDB"@ || section == "TheIntroDB"@ {
        if key == "api_key"@ {
            Some(""@)
        } else {
            None
        }
    } else {
        None
    }
}

/// The values of a new settings file.
pub open spec fn default_values() -> Values {
    Map::new(
        |name: (Seq<char>, Seq<char>)| default_value(name.0, name.1) is Some,
        |name: (Seq<char>, Seq<char>)| default_value(name.0, name.1)->0,
    )
}

fn entry(section: &str, key: &str, value: &str) -> (e: DefaultEntry)
    ensures
        e.section@ == section@,
        e.key@ == key@,
        e.value@ == value@,
{
    DefaultEntry { section: section.to_string(), key: key.to_string(), value: value.to_string() }
}

/// Every line gives the value that the file is to have.
pub open spec fn gives_defaults(entries: Seq<DefaultEntry>) -> bool {
    forall|i: int|
        0 <= i < entries.len() ==> default_value(
            (#[trigger] entries[i]).section@,
            entries[i].key@,
        ) == Some(entries[i].value@)
}

/// Some line is about the name.
pub open spec fn mentions(entries: Seq<DefaultEntry>, section: Seq<char>, key: Seq<char>) -> bool {
    exists|i: int|
        0 <= i < entries.len() && (#[trigger] entries[i]).section@ == section && entries[i].key@
            == key
}

/// The lines of a new settings file: section, key and value.
pub open spec fn default_lines() -> Seq<(Seq<char>, Seq<char>, Seq<char>)> {
    seq![
        ("Buttons"@, "show_buttons"@, "true"@),
        ("Buttons"@, "link_target"@, "app"@),
        ("Activity"@, "disable_in_menu"@, "false"@),
        ("Activity"@, "disable_when_paused"@, "false"@),
        ("Activity"@, "refresh_interval"@, "5"@),
        ("Activity"@, "show_small_image"@, "true"@),
        ("Activity"@, "swap_name_and_title"@, "false"@),
        ("Lobby"@, "lobby_max_size"@, "8"@),
        ("AutoSkip"@, "enabled"@, "true"@),
        ("AutoSkip"@, "skip_intro"@, "true"@),
        ("AutoSkip"@, "skip_recap"@, "true"@),
        ("AutoSkip"@, "skip_outro"@, "true"@),
        ("AutoSkipChapters"@, "intro"@, "opening,intro,logo"@),
        ("AutoSkipChapters"@, "recap"@, "recap"@),
        ("AutoSkipChapters"@, "outro"@, "credits,outro,ending"@),
        ("IntroDB"@, "api_key"@, ""@),
        ("TheIntroDB"@, "api_key"@, ""@),
    ]
}

/// What lines of a settings file say.
pub open spec fn lines_in(entries: Seq<DefaultEntry>) -> Seq<(Seq<char>, Seq<char>, Seq<char>)> {
    entries.map_values(|e: DefaultEntry| (e.section@, e.key@, e.value@))
}

/// The lines of a new settings file, section by section.
pub fn default_entries() -> (entries: Vec<DefaultEntry>)
    ensures
        lines_in(entries@) == default_lines(),
        gives_defaults(entries@),
        forall|section: Seq<char>, key: Seq<char>|
            default_value(section, key) is Some ==> mentions(entries@, section, key),
{
    proof {
        default_names_differ();
    }
    let mut entries: Vec<DefaultEntry> = Vec::new();
    entries.push(entry("Buttons", "show_buttons", "true"));
    entries.push(entry("Buttons", "link_target", "app"));
    entries.push(entry("Activity", "disable_in_menu", "false"));
    entries.push(entry("Activity", "disable_when_paused", "false"));
    entries.push(entry("Activity", "refresh_interval", "5"));
    entries.push(entry("Activity", "show_small_image", "true"));
    entries.push(entry("Activity", "swap_name_and_title", "false"));
    entries.push(entry("Lobby", "lobby_max_size", "8"));
    entries.push(entry("AutoSkip", "enabled", "true"));
    entries.push(entry("AutoSkip", "skip_intro", "true"));
    entries.push(entry("AutoSkip", "skip_recap", "true"));
    entries.push(entry("AutoSkip", "skip_outro", "true"));
    entries.push(entry("AutoSkipChapters", "intro", "opening,intro,logo"));
    entries.push(entry("AutoSkipChapters", "recap", "recap"));
    entries.push(entry("AutoSkipChapters", "outro", "credits,outro,ending"));
    entries.push(entry("IntroDB", "api_key", ""));
    entries.push(entry("TheIntroDB", "api_key", ""));
    assert(lines_in(entries@) =~= default_lines());
    proof {
        assert forall|section: Seq<char>, key: Seq<char>|
            default_value(section, key) is Some implies mentions(entries@, section, key) by {
            let e = entries@;
            assert(e[0].section@ == "Buttons"@ && e[1].section@ == "Buttons"@);
            assert(e[2].section@ == "Activity"@ && e[3].section@ == "Activity"@ && e[4].section@
                == "Activity"@ && e[5].section@ == "Activity"@ && e[6].section@ == "Activity"@);
            assert(e[7].section@ == "Lobby"@);
            assert(e[8].section@ == "AutoSkip"@ && e[9].section@ == "AutoSkip"@ && e[10].section@
                == "AutoSkip"@ && e[11].section@ == "AutoSkip"@);
            assert(e[12].section@ == "AutoSkipChapters"@ && e[13].section@ == "AutoSkipChapters"@
                && e[14].section@ == "AutoSkipChapters"@);
            assert(e[15].section@ == "IntroDB"@ && e[16].section@ == "TheIntroDB"@);
        }
    }
    entries
}

/// The names of sections and keys that are told apart are not the same.
proof fn default_names_differ()
    ensures
        "Buttons"@ != "Activity"@,
        "Buttons"@ != "Lobby"@,
        "Buttons"@ != "AutoSkip"@,
        "Buttons"@ != "AutoSkipChapters"@,
        "Buttons"@ != "IntroDB"@,
        "Buttons"@ != "TheIntroDB"@,
        "Activity"@ != "Lobby"@,
        "Activity"@ != "AutoSkip"@,
        "Activity"@ != "AutoSkipChapters"@,
        "Activity"@ != "IntroDB"@,
        "Activity"@ != "TheIntroDB"@,
        "Lobby"@ != "AutoSkip"@,
        "Lobby"@ != "AutoSkipChapters"@,
        "Lobby"@ != "IntroDB"@,
        "Lobby"@ != "TheIntroDB"@,
        "AutoSkip"@ != "AutoSkipChapters"@,
        "AutoSkip"@ != "IntroDB"@,
        "AutoSkip"@ != "TheIntroDB"@,
        "AutoSkipChapters"@ != "IntroDB"@,
        "AutoSkipChapters"@ != "TheIntroDB"@,
        "show_buttons"@ != "link_target"@,
        "refresh_interval"@ != "disable_in_menu"@,
        "refresh_interval"@ != "disable_when_paused"@,
        "refresh_interval"@ != "swap_name_and_title"@,
        "show_small_image"@ != "disable_in_menu"@,
        "show_small_image"@ != "disable_when_paused"@,
        "show_small_image"@ != "swap_name_and_title"@,
        "show_small_image"@ != "refresh_interval"@,
        "intro"@ != "recap"@,
        "intro"@ != "outro"@,
        "recap"@ != "outro"@,
        "enabled"@ != "api_key"@,
        "false"@ != "true"@,
{
    reveal_strlit("Buttons");
    reveal_strlit("Activity");
    reveal_strlit("Lobby");
    reveal_strlit("AutoSkip");
    reveal_strlit("AutoSkipChapters");
    reveal_strlit("IntroDB");
    reveal_strlit("TheIntroDB");
    reveal_strlit("show_buttons");
    reveal_strlit("link_target");
    reveal_strlit("refresh_interval");
    reveal_strlit("disable_in_menu");
    reveal_strlit("disable_when_paused");
    reveal_strlit("swap_name_and_title");
    reveal_strlit("show_small_image");
    reveal_strlit("intro");
    reveal_strlit("recap");
    reveal_strlit("outro");
    reveal_strlit("enabled");
    reveal_strlit("api_key");
    reveal_strlit("false");
    reveal_strlit("true");
    assert("Buttons"@[0] == 'B');
    assert("Activity"@[0] == 'A' && "Activity"@[1] == 'c');
    assert("Lobby"@[0] == 'L');
    assert("AutoSkip"@[0] == 'A' && "AutoSkip"@[1] == 'u');
    assert("AutoSkipChapters"@[0] == 'A' && "AutoSkipChapters"@[1] == 'u');
    assert("AutoSkip"@.len() != "AutoSkipChapters"@.len());
    assert("IntroDB"@[0] == 'I');
    assert("TheIntroDB"@[0] == 'T');
    assert("show_buttons"@[0] == 's');
    assert("link_target"@[0] == 'l');
    assert("refresh_interval"@[0] == 'r');
    assert("disable_in_menu"@[0] == 'd');
    assert("disable_when_paused"@[0] == 'd');
    assert("swap_name_and_title"@[1] == 'w');
    assert("swap_name_and_title"@[0] == 's');
    assert("show_small_image"@[0] == 's' && "show_small_image"@[1] == 'h');
    assert("intro"@[0] == 'i');
    assert("recap"@[0] == 'r');
    assert("outro"@[0] == 'o');
    assert("enabled"@[0] == 'e');
    assert("api_key"@[0] == 'a');
    assert("false"@[0] == 'f');
    assert("true"@[0] == 't');
}

// ---------------------------------------------------------------------------
// Laws
// ---------------------------------------------------------------------------

/// A lobby has room for at least two and at most sixteen, whatever the file
/// says.
pub proof fn lobby_size_is_bounded(value: Option<Seq<char>>)
    ensures
        2 <= lobby_size(value) <= 16,
{
}

/// A new settings file means the same as an empty one.
pub proof fn new_file_is_the_default()
    ensures
        config_of(default_values()) == config_of(Map::empty()),
{
    default_names_differ();
    reveal_strlit("5");
    reveal_strlit("8");
    reveal_strlit("");
    let v = default_values();
    assert(""@ =~= Seq::<char>::empty());
    assert(trimmed(""@).len() == 0);
    assert(setting(v, "IntroDB"@, "enabled"@) is None);
    assert(number_or(Some("5"@), 5) == 5) by {
        assert("5"@ =~= seq!['5']);
        crate::number::single_digit('5');
    }
    assert(lobby_size(Some("8"@)) == 8) by {
        assert("8"@ =~= seq!['8']);
        crate::number::single_digit('8');
    }
    assert(config_of(v) =~= config_of(Map::empty()));
}

/// An older file's single switch holds where the newer one is missing.
pub proof fn older_switch_still_counts(values: Values)
    requires
        setting(values, "AutoSkip"@, "enabled"@) is None,
    ensures
        config_of(values).auto_skip_enabled == switch(
            setting(values, "IntroDB"@, "enabled"@),
            true,
        ),
{
}

/// A blank list of words matches nothing.
pub proof fn blank_list_has_no_words(raw: Seq<char>)
    requires
        raw.len() == 0,
    ensures
        words_or(Some(raw), "opening,intro,logo"@).len() == 0,
{
    let pieces = split_on(raw, ',');
    assert(pieces == seq![raw]);
    assert(trimmed(pieces.last()).len() == 0);
    assert(words_of(pieces.drop_last()).len() == 0);
}

} // verus!
