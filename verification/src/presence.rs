//! What the user's presence says, and what the system's media controls show.

use crate::config::Config;
use crate::encoding::{url_decode, url_decoded, url_encode, url_encoded};
use crate::json::{Json, JsonView};
use crate::lobby::{others_text_of, LobbyPresence, LobbyState, PresenceView};
use crate::number::Real;
use crate::playback::{Playback, PlaybackView};
use crate::text::{
    after_first, contains, ends_with, has_prefix, has_suffix, has_text, same_text, split, split_on,
    starts_with, strip_prefixes, text_after, text_up_to, texts, up_to, without_prefixes,
};
use crate::video_info::{info_in, parse_video_id, query_of, InfoView, QueryView, VideoInfo, VideoQuery};
use vstd::prelude::*;

verus! {

pub const ICON_URL: &'static str = "https://raw.githubusercontent.com/Stremio/stremio-web/refs/heads/development/assets/images/icon.png";

/// The address of an image that is fitted into a square.
pub open spec fn fitted_image(url: Seq<char>) -> Seq<char> {
    "https://images.weserv.nl/?url="@ + url_encoded(url) + "&w=1024&h=1024&fit=contain"@
}

pub fn weserv_contain(url: &str) -> (image: String)
    ensures
        image@ == fitted_image(url@),
{
    let mut image = "https://images.weserv.nl/?url=".to_string();
    image.append(url_encode(url).as_str());
    image.append("&w=1024&h=1024&fit=contain");
    image
}

// ---------------------------------------------------------------------------
// Activities
// ---------------------------------------------------------------------------

/// A label and where it leads, or an image and its text.
#[derive(Debug)]
pub struct Labelled {
    pub label: String,
    pub url: String,
}

/// The size of a party.
#[derive(Debug)]
pub struct PartyInfo {
    pub id: String,
    pub member_count: i32,
    pub max_size: i32,
}

/// What the user's presence says.
#[derive(Debug)]
pub struct Activity {
    pub name: String,
    pub details: String,
    pub state: String,
    /// Since when, in seconds of the calendar.
    pub start: i64,
    pub end: Option<i64>,
    pub large_image: String,
    pub large_text: String,
    /// A small image and its text.
    pub small: Option<Labelled>,
    pub buttons: Vec<Labelled>,
    pub party: Option<PartyInfo>,
    pub join_secret: Option<String>,
}

#[verifier::ext_equal]
pub struct ActivityView {
    pub name: Seq<char>,
    pub details: Seq<char>,
    pub state: Seq<char>,
    pub start: i64,
    pub end: Option<i64>,
    pub large_image: Seq<char>,
    pub large_text: Seq<char>,
    pub small: Option<(Seq<char>, Seq<char>)>,
    pub buttons: Seq<(Seq<char>, Seq<char>)>,
    pub party: Option<(Seq<char>, i32, i32)>,
    pub join_secret: Option<Seq<char>>,
}

/// Labels and where they lead.
pub open spec fn label_texts(list: Seq<Labelled>) -> Seq<(Seq<char>, Seq<char>)> {
    list.map_values(|l: Labelled| (l.label@, l.url@))
}

impl View for Activity {
    type V = ActivityView;

    open spec fn view(&self) -> ActivityView {
        ActivityView {
            name: self.name@,
            details: self.details@,
            state: self.state@,
            start: self.start,
            end: self.end,
            large_image: self.large_image@,
            large_text: self.large_text@,
            small: match self.small {
                Some(l) => Some((l.label@, l.url@)),
                None => None,
            },
            buttons: label_texts(self.buttons@),
            party: match self.party {
                Some(p) => Some((p.id@, p.member_count, p.max_size)),
                None => None,
            },
            join_secret: crate::playback::text_in(self.join_secret),
        }
    }
}

/// The part of a page's address that names its title, from its type on.
pub open spec fn title_segment(url: Seq<char>) -> Seq<char> {
    match after_first(url, "/series/"@) {
        Some(rest) => "/series/"@ + rest,
        None => match after_first(url, "/movie/"@) {
            Some(rest) => "/movie/"@ + rest,
            None => Seq::empty(),
        },
    }
}

/// The id of a page's title.
pub open spec fn content_id_of(segment: Seq<char>) -> Seq<char> {
    let raw = split_on(
        without_prefixes(without_prefixes(segment, "/series/"@), "/movie/"@),
        '/',
    )[0];
    match url_decoded(raw) {
        Some(id) => id,
        None => raw,
    }
}

/// The button that leads to a title's page elsewhere.
pub open spec fn outside_button(id: Seq<char>) -> (Seq<char>, Seq<char>) {
    if has_prefix(id, "kitsu:"@) {
        ("Kitsu"@, "https://kitsu.app/anime/"@ + without_prefixes(id, "kitsu:"@))
    } else {
        ("IMDb"@, "https://www.imdb.com/title/"@ + id)
    }
}

/// The button that leads to a title's page in the application or on the web.
pub open spec fn open_button(link_target: Seq<char>, segment: Seq<char>) -> (Seq<char>, Seq<char>) {
    (
        "Open in Stremio"@,
        (if link_target == "web"@ {
            "https://web.stremio.com/#/detail"@
        } else {
            "stremio:///detail"@
        }) + segment,
    )
}

fn title_segment_of(url: &str) -> (segment: String)
    ensures
        segment@ == title_segment(url@),
{
    match text_after(url, "/series/") {
        Some(rest) => {
            let mut segment = "/series/".to_string();
            segment.append(rest.as_str());
            segment
        },
        None => match text_after(url, "/movie/") {
            Some(rest) => {
                let mut segment = "/movie/".to_string();
                segment.append(rest.as_str());
                segment
            },
            None => String::new(),
        },
    }
}

fn content_id(segment: &str) -> (id: String)
    ensures
        id@ == content_id_of(segment@),
{
    let bare = strip_prefixes(strip_prefixes(segment, "/series/").as_str(), "/movie/");
    let pieces = split(bare.as_str(), '/');
    assert(texts(pieces@)[0] == pieces@[0]@);
    let raw = &pieces[0];
    match url_decode(raw.as_str()) {
        Some(id) => id,
        None => raw.clone(),
    }
}

fn outside_link(id: &str) -> (button: Labelled)
    ensures
        (button.label@, button.url@) == outside_button(id@),
{
    if starts_with(id, "kitsu:") {
        let mut url = "https://kitsu.app/anime/".to_string();
        url.append(strip_prefixes(id, "kitsu:").as_str());
        Labelled { label: "Kitsu".to_string(), url }
    } else {
        let mut url = "https://www.imdb.com/title/".to_string();
        url.append(id);
        Labelled { label: "IMDb".to_string(), url }
    }
}

fn open_link(link_target: &str, segment: &str) -> (button: Labelled)
    ensures
        (button.label@, button.url@) == open_button(link_target@, segment@),
{
    let mut url = if same_text(link_target, "web") {
        "https://web.stremio.com/#/detail".to_string()
    } else {
        "stremio:///detail".to_string()
    };
    url.append(segment);
    Labelled { label: "Open in Stremio".to_string(), url }
}

/// The name of a title with its year.
pub open spec fn dated_name(info: InfoView) -> Seq<char> {
    info.name + " ("@ + info.year + ")"@
}

fn dated_name_of(info: &VideoInfo) -> (text: String)
    ensures
        text@ == dated_name(info@),
{
    let mut text = info.name.clone();
    text.append(" (");
    text.append(info.year.as_str());
    text.append(")");
    text
}

/// The clock, in seconds: now, since when the application runs, the position
/// and the length of what plays.
#[derive(Debug, Clone, Copy)]
pub struct PresenceClock {
    pub now: i64,
    pub app_start: i64,
    pub position: i64,
    pub duration: i64,
}

impl PresenceClock {
    /// The times that are shown can be computed: the start, unless the
    /// application's own start stands in for it, and the end while playing.
    pub open spec fn in_range(self, paused: bool, disable_when_paused: bool) -> bool {
        &&& !(paused && disable_when_paused) ==> i64::MIN <= self.now - self.position <= i64::MAX
        &&& !paused ==> i64::MIN <= self.now - self.position + self.duration <= i64::MAX
    }
}

/// What plays, as the question about it told.
#[derive(Debug)]
pub struct Watching {
    pub media_type: String,
    pub season: String,
    pub episode: String,
    pub paused: bool,
}

/// The presence in an option.
pub open spec fn presence_in(p: Option<LobbyPresence>) -> Option<PresenceView> {
    match p {
        Some(p) => Some(p@),
        None => None,
    }
}

/// The line below the title: the season and episode, or the year, and who else
/// watches.
pub open spec fn state_line(w: Watching, info: InfoView, lobby: Option<PresenceView>) -> Seq<char> {
    let own = if w.media_type@ == "series"@ {
        "S"@ + w.season@ + "E"@ + w.episode@
    } else {
        info.year
    };
    let others = match lobby {
        Some(p) => others_text_of(p.member_count),
        None => None,
    };
    match others {
        Some(text) => if own.len() == 0 {
            text
        } else {
            own + " • "@ + text
        },
        None => own,
    }
}

/// The buttons beside what plays.
pub open spec fn player_buttons(
    show_buttons: bool,
    link_target: Seq<char>,
    url: Seq<char>,
    lobby: Option<PresenceView>,
) -> Seq<(Seq<char>, Seq<char>)> {
    let segment = title_segment(url);
    let outside = if show_buttons {
        seq![outside_button(content_id_of(segment))]
    } else {
        Seq::<(Seq<char>, Seq<char>)>::empty()
    };
    match lobby {
        Some(p) => if p.join_secret.len() > 0 {
            outside.push(("Join Watch Party"@, p.join_secret))
        } else {
            outside
        },
        None => if show_buttons {
            outside.push(open_button(link_target, segment))
        } else {
            outside
        },
    }
}

/// What the presence says of what plays.
pub open spec fn player_activity(
    config: Config,
    info: InfoView,
    w: Watching,
    clock: PresenceClock,
    url: Seq<char>,
    lobby: Option<PresenceView>,
) -> ActivityView {
    let series = w.media_type@ == "series"@;
    let title = if series {
        info.epname
    } else {
        info.name
    };
    let start = clock.now - clock.position;
    ActivityView {
        name: if config.swap_name_and_title {
            title
        } else {
            info.name
        },
        details: if config.swap_name_and_title {
            info.name
        } else {
            title
        },
        state: state_line(w, info, lobby),
        start: if w.paused && config.disable_when_paused {
            clock.app_start
        } else {
            start as i64
        },
        end: if w.paused {
            None
        } else {
            Some((start + clock.duration) as i64)
        },
        large_image: fitted_image(info.poster),
        large_text: dated_name(info),
        small: if !config.show_small_image {
            None
        } else if w.paused {
            Some(("Paused"@, "https://i.imgur.com/eCUJpm9.png"@))
        } else {
            Some(("Playing"@, ICON_URL@))
        },
        buttons: player_buttons(config.show_buttons, config.link_target@, url, lobby),
        party: match lobby {
            Some(p) => Some((p.party_id, p.member_count, p.max_size)),
            None => None,
        },
        join_secret: None,
    }
}

fn state_text(w: &Watching, info: &VideoInfo, lobby: &Option<LobbyPresence>) -> (text: String)
    ensures
        text@ == state_line(*w, info@, presence_in(*lobby)),
{
    let mut own = if same_text(w.media_type.as_str(), "series") {
        let mut text = "S".to_string();
        text.append(w.season.as_str());
        text.append("E");
        text.append(w.episode.as_str());
        text
    } else {
        info.year.clone()
    };
    let others = match lobby {
        Some(p) => p.others_text(),
        None => None,
    };
    match others {
        Some(text) => {
            if own.as_str().is_empty() {
                text
            } else {
                own.append(" • ");
                own.append(text.as_str());
                own
            }
        },
        None => own,
    }
}

fn player_button_list(config: &Config, url: &str, lobby: &Option<LobbyPresence>) -> (buttons: Vec<
    Labelled,
>)
    ensures
        label_texts(buttons@) == player_buttons(
            config.show_buttons,
            config.link_target@,
            url@,
            presence_in(*lobby),
        ),
{
    let segment = title_segment_of(url);
    let mut buttons: Vec<Labelled> = Vec::new();
    let ghost expected = player_buttons(
        config.show_buttons,
        config.link_target@,
        url@,
        presence_in(*lobby),
    );
    if config.show_buttons {
        buttons.push(outside_link(content_id(segment.as_str()).as_str()));
    }
    match lobby {
        Some(p) => {
            if !p.join_secret.as_str().is_empty() {
                buttons.push(
                    Labelled { label: "Join Watch Party".to_string(), url: p.join_secret.clone() },
                );
            }
        },
        None => {
            if config.show_buttons {
                buttons.push(open_link(config.link_target.as_str(), segment.as_str()));
            }
        },
    }
    assert(label_texts(buttons@) =~= expected);
    buttons
}

/// What the presence says of what plays.
pub fn build_player_activity(
    config: &Config,
    info: &VideoInfo,
    w: &Watching,
    clock: PresenceClock,
    url: &str,
    lobby: &Option<LobbyPresence>,
) -> (activity: Activity)
    requires
        clock.in_range(w.paused, config.disable_when_paused),
    ensures
        activity@ == player_activity(*config, info@, *w, clock, url@, presence_in(*lobby)),
{
    let (start, end) = if w.paused {
        (
            if config.disable_when_paused {
                clock.app_start
            } else {
                clock.now - clock.position
            },
            None,
        )
    } else {
        let start: i64 = clock.now - clock.position;
        (start, Some(start + clock.duration))
    };
    let title = if same_text(w.media_type.as_str(), "series") {
        info.epname.clone()
    } else {
        info.name.clone()
    };
    let (name, details) = if config.swap_name_and_title {
        (title, info.name.clone())
    } else {
        (info.name.clone(), title)
    };
    let small = if !config.show_small_image {
        None
    } else if w.paused {
        Some(
            Labelled {
                label: "Paused".to_string(),
                url: "https://i.imgur.com/eCUJpm9.png".to_string(),
            },
        )
    } else {
        Some(Labelled { label: "Playing".to_string(), url: ICON_URL.to_string() })
    };
    Activity {
        name,
        details,
        state: state_text(w, info, lobby),
        start,
        end,
        large_image: weserv_contain(info.poster.as_str()),
        large_text: dated_name_of(info),
        small,
        buttons: player_button_list(config, url, lobby),
        party: match lobby {
            Some(p) => Some(
                PartyInfo {
                    id: p.party_id.clone(),
                    member_count: p.member_count,
                    max_size: p.max_size,
                },
            ),
            None => None,
        },
        join_secret: None,
    }
}

/// The section of the application that a page belongs to.
pub open spec fn menu_lines(url: Seq<char>) -> (Seq<char>, Seq<char>) {
    let base = split_on(url, '?')[0];
    if has_suffix(base, "/settings"@) {
        ("Settings"@, "Changing configuration"@)
    } else if has_suffix(base, "/addons"@) {
        ("Addons"@, "Managing addons"@)
    } else if has_suffix(base, "/library"@) {
        ("Library"@, "Browsing library"@)
    } else if has_suffix(base, "/calendar"@) {
        ("Calendar"@, "Viewing Calendar"@)
    } else if has_suffix(base, "/discover"@) {
        ("Discover"@, "Browsing Catalog"@)
    } else {
        ("Browsing"@, "In Stremio Menu"@)
    }
}

/// What the presence says while nothing in particular is looked at.
pub open spec fn menu_activity(url: Seq<char>, app_start: i64) -> ActivityView {
    ActivityView {
        name: "Stremio"@,
        details: menu_lines(url).1,
        state: menu_lines(url).0,
        start: app_start,
        end: None,
        large_image: ICON_URL@,
        large_text: "Stremio"@,
        small: None,
        buttons: Seq::empty(),
        party: None,
        join_secret: None,
    }
}

pub fn build_menu_activity(url: &str, app_start: i64) -> (activity: Activity)
    ensures
        activity@ == menu_activity(url@, app_start),
{
    let pieces = split(url, '?');
    assert(texts(pieces@)[0] == pieces@[0]@);
    let base = pieces[0].as_str();
    let (state, details) = if ends_with(base, "/settings") {
        ("Settings", "Changing configuration")
    } else if ends_with(base, "/addons") {
        ("Addons", "Managing addons")
    } else if ends_with(base, "/library") {
        ("Library", "Browsing library")
    } else if ends_with(base, "/calendar") {
        ("Calendar", "Viewing Calendar")
    } else if ends_with(base, "/discover") {
        ("Discover", "Browsing Catalog")
    } else {
        ("Browsing", "In Stremio Menu")
    };
    let activity = Activity {
        name: "Stremio".to_string(),
        details: details.to_string(),
        state: state.to_string(),
        start: app_start,
        end: None,
        large_image: ICON_URL.to_string(),
        large_text: "Stremio".to_string(),
        small: None,
        buttons: Vec::new(),
        party: None,
        join_secret: None,
    };
    assert(activity@.buttons =~= Seq::empty());
    activity
}

/// What the presence says of a title's page.
pub open spec fn detail_activity(
    config: Config,
    info: InfoView,
    media_type: Seq<char>,
    url: Seq<char>,
    app_start: i64,
    lobby: crate::lobby::LobbyView,
) -> ActivityView {
    let segment = title_segment(url);
    let id = content_id_of(segment);
    let in_party = lobby.party_id.len() > 0;
    ActivityView {
        name: info.name,
        details: info.name,
        state: if media_type == "series"@ {
            "Viewing Series"@
        } else {
            "Viewing Movie"@
        },
        start: app_start,
        end: None,
        large_image: fitted_image(info.poster),
        large_text: dated_name(info),
        small: if config.show_small_image {
            Some(("Stremio"@, ICON_URL@))
        } else {
            None
        },
        buttons: if config.show_buttons && id.len() > 0 && !in_party {
            seq![outside_button(id), open_button(config.link_target@, segment)]
        } else {
            Seq::empty()
        },
        party: if in_party {
            Some((lobby.party_id, lobby.member_count, lobby.max_size))
        } else {
            None
        },
        join_secret: if in_party {
            Some(lobby.join_secret)
        } else {
            None
        },
    }
}

pub fn build_detail_activity(
    config: &Config,
    info: &VideoInfo,
    media_type: &str,
    url: &str,
    app_start: i64,
    lobby: &LobbyState,
) -> (activity: Activity)
    ensures
        activity@ == detail_activity(*config, info@, media_type@, url@, app_start, lobby@),
{
    let segment = title_segment_of(url);
    let id = content_id(segment.as_str());
    let in_party = !lobby.party_id.as_str().is_empty();
    let mut buttons: Vec<Labelled> = Vec::new();
    if config.show_buttons && !id.as_str().is_empty() && !in_party {
        buttons.push(outside_link(id.as_str()));
        buttons.push(open_link(config.link_target.as_str(), segment.as_str()));
    }
    let activity = Activity {
        name: info.name.clone(),
        details: info.name.clone(),
        state: if same_text(media_type, "series") {
            "Viewing Series".to_string()
        } else {
            "Viewing Movie".to_string()
        },
        start: app_start,
        end: None,
        large_image: weserv_contain(info.poster.as_str()),
        large_text: dated_name_of(info),
        small: if config.show_small_image {
            Some(Labelled { label: "Stremio".to_string(), url: ICON_URL.to_string() })
        } else {
            None
        },
        buttons,
        party: if in_party {
            Some(
                PartyInfo {
                    id: lobby.party_id.clone(),
                    member_count: lobby.member_count,
                    max_size: lobby.max_size,
                },
            )
        } else {
            None
        },
        join_secret: if in_party {
            Some(lobby.join_secret.clone())
        } else {
            None
        },
    };
    assert(activity@.buttons =~= detail_activity(
        *config,
        info@,
        media_type@,
        url@,
        app_start,
        lobby@,
    ).buttons);
    activity
}

// ---------------------------------------------------------------------------
// The loop
// ---------------------------------------------------------------------------

/// What the presence is about.
#[derive(Debug)]
pub struct PresenceLoop {
    pub last_url: String,
    pub info: Option<VideoInfo>,
    pub media_type: String,
    pub season: String,
    pub episode: String,
}

#[verifier::ext_equal]
pub struct PresenceLoopView {
    pub last_url: Seq<char>,
    pub info: Option<InfoView>,
    pub media_type: Seq<char>,
    pub season: Seq<char>,
    pub episode: Seq<char>,
}

impl View for PresenceLoop {
    type V = PresenceLoopView;

    open spec fn view(&self) -> PresenceLoopView {
        PresenceLoopView {
            last_url: self.last_url@,
            info: info_in(self.info),
            media_type: self.media_type@,
            season: self.season@,
            episode: self.episode@,
        }
    }
}

/// What a look at a page's address leads to.
#[derive(Debug)]
pub enum PageLook {
    /// The page is as it was, or is about no title.
    Known,
    /// The address cannot be read; the page is looked at again.
    Unreadable,
    /// The catalogue is to be asked.
    Ask(VideoQuery),
}

#[verifier::ext_equal]
pub enum PageView {
    Known,
    Unreadable,
    Ask(QueryView),
}

impl View for PageLook {
    type V = PageView;

    open spec fn view(&self) -> PageView {
        match *self {
            PageLook::Known => PageView::Known,
            PageLook::Unreadable => PageView::Unreadable,
            PageLook::Ask(q) => PageView::Ask(q@),
        }
    }
}

pub open spec fn is_player_page(url: Seq<char>) -> bool {
    has_text(url, "/player/"@)
}

pub open spec fn is_detail_page(url: Seq<char>) -> bool {
    has_text(url, "/detail/"@)
}

/// The question that the address of a title's page leads to.
pub open spec fn detail_query(url: Seq<char>) -> Option<QueryView> {
    match after_first(url, "/detail/"@) {
        None => None,
        Some(rest) => {
            let parts = split_on(up_to(rest, "/detail/"@), '/');
            if parts.len() >= 2 {
                Some(
                    QueryView {
                        type_: parts[0],
                        id: parts[1],
                        season: Seq::empty(),
                        episode: Seq::empty(),
                    },
                )
            } else {
                None
            }
        },
    }
}

impl PresenceLoopView {
    pub open spec fn about_nothing(self) -> PresenceLoopView {
        PresenceLoopView {
            media_type: Seq::empty(),
            season: Seq::empty(),
            episode: Seq::empty(),
            ..self
        }
    }

    pub open spec fn about(self, q: QueryView) -> PresenceLoopView {
        PresenceLoopView {
            media_type: q.type_,
            season: q.season,
            episode: q.episode,
            ..self
        }
    }

    /// What a look at a page leads to.
    pub open spec fn look_at(self, url: Seq<char>) -> PageView {
        if !(is_player_page(url) || is_detail_page(url)) || url == self.last_url {
            PageView::Known
        } else if is_player_page(url) {
            match url_decoded(split_on(url, '/').last()) {
                None => PageView::Unreadable,
                Some(id) => PageView::Ask(query_of(split_on(id, ':'))),
            }
        } else {
            match detail_query(url) {
                Some(q) => PageView::Ask(q),
                None => PageView::Known,
            }
        }
    }

    /// After a look at a page.
    pub open spec fn looked_at(self, url: Seq<char>) -> PresenceLoopView {
        if !(is_player_page(url) || is_detail_page(url)) || url == self.last_url {
            self
        } else {
            match self.look_at(url) {
                PageView::Unreadable => self.about_nothing(),
                PageView::Known => PresenceLoopView { last_url: url, ..self.about_nothing() },
                PageView::Ask(q) => PresenceLoopView { last_url: url, ..self.about(q) },
            }
        }
    }
}

/// What to do with the presence.
#[derive(Debug, Clone, Copy, PartialEq, Eq, Structural)]
pub enum PresenceStep {
    Nothing,
    Clear,
    Player,
    Detail,
    Menu,
}

impl PresenceLoopView {
    /// What to do with the presence on a page.
    pub open spec fn step_on(
        self,
        disable_when_paused: bool,
        disable_in_menu: bool,
        url: Seq<char>,
        paused: bool,
    ) -> PresenceStep {
        if is_player_page(url) || is_detail_page(url) {
            if self.info is None {
                PresenceStep::Nothing
            } else if !is_player_page(url) {
                PresenceStep::Detail
            } else if disable_when_paused && paused {
                PresenceStep::Clear
            } else {
                PresenceStep::Player
            }
        } else if disable_in_menu {
            PresenceStep::Clear
        } else {
            PresenceStep::Menu
        }
    }
}

fn detail_parts(url: &str) -> (query: Option<VideoQuery>)
    ensures
        match query {
            Some(q) => detail_query(url@) == Some(q@),
            None => detail_query(url@) is None,
        },
{
    let rest = match text_after(url, "/detail/") {
        Some(rest) => rest,
        None => return None,
    };
    let part = text_up_to(rest.as_str(), "/detail/");
    let parts = split(part.as_str(), '/');
    if parts.len() >= 2 {
        assert(texts(parts@)[0] == parts@[0]@);
        assert(texts(parts@)[1] == parts@[1]@);
        Some(
            VideoQuery {
                type_: parts[0].clone(),
                id: parts[1].clone(),
                season: String::new(),
                episode: String::new(),
            },
        )
    } else {
        None
    }
}

impl PresenceLoop {
    pub fn new() -> (presence: PresenceLoop)
        ensures
            presence@ == (PresenceLoopView {
                last_url: Seq::empty(),
                info: None,
                media_type: Seq::empty(),
                season: Seq::empty(),
                episode: Seq::empty(),
            }),
    {
        PresenceLoop {
            last_url: String::new(),
            info: None,
            media_type: String::new(),
            season: String::new(),
            episode: String::new(),
        }
    }

    /// Looks at a page and says what it leads to.
    pub fn look(&mut self, url: &str) -> (look: PageLook)
        ensures
            look@ == old(self)@.look_at(url@),
            final(self)@ == old(self)@.looked_at(url@),
    {
        let is_player = contains(url, "/player/");
        let is_detail = contains(url, "/detail/");
        if !(is_player || is_detail) || same_text(url, self.last_url.as_str()) {
            return PageLook::Known;
        }
        self.media_type = String::new();
        self.season = String::new();
        self.episode = String::new();
        let query = if is_player {
            let pieces = split(url, '/');
            let last = &pieces[pieces.len() - 1];
            assert(texts(pieces@).last() == last@);
            match url_decode(last.as_str()) {
                Some(id) => Some(parse_video_id(id.as_str())),
                None => return PageLook::Unreadable,
            }
        } else {
            detail_parts(url)
        };
        self.last_url = url.to_string();
        match query {
            Some(query) => {
                self.media_type = query.type_.clone();
                self.season = query.season.clone();
                self.episode = query.episode.clone();
                PageLook::Ask(query)
            },
            None => PageLook::Known,
        }
    }

    /// Takes in what the catalogue said.
    pub fn answered(&mut self, info: Option<VideoInfo>)
        ensures
            final(self)@ == (PresenceLoopView { info: info_in(info), ..old(self)@ }),
    {
        self.info = info;
    }

    /// What to do with the presence on a page.
    pub fn next_step(&self, config: &Config, url: &str, paused: bool) -> (step: PresenceStep)
        ensures
            step == if is_player_page(url@) || is_detail_page(url@) {
                if self@.info is None {
                    PresenceStep::Nothing
                } else if !is_player_page(url@) {
                    PresenceStep::Detail
                } else if config.disable_when_paused && paused {
                    PresenceStep::Clear
                } else {
                    PresenceStep::Player
                }
            } else if config.disable_in_menu {
                PresenceStep::Clear
            } else {
                PresenceStep::Menu
            },
            step == self@.step_on(
                config.disable_when_paused,
                config.disable_in_menu,
                url@,
                paused,
            ),
    {
        let is_player = contains(url, "/player/");
        if is_player || contains(url, "/detail/") {
            if self.info.is_none() {
                PresenceStep::Nothing
            } else if !is_player {
                PresenceStep::Detail
            } else if config.disable_when_paused && paused {
                PresenceStep::Clear
            } else {
                PresenceStep::Player
            }
        } else if config.disable_in_menu {
            PresenceStep::Clear
        } else {
            PresenceStep::Menu
        }
    }

    /// What the media controls are to show.
    pub fn now_showing(&self) -> (shown: Option<MediaInfo>)
        ensures
            media_info_in(shown) == shown_of(self@),
    {
        match &self.info {
            None => None,
            Some(info) => {
                let series = same_text(self.media_type.as_str(), "series");
                let title = if series && !self.season.as_str().is_empty() {
                    let mut title = info.epname.clone();
                    title.append(" (S");
                    title.append(self.season.as_str());
                    title.append("E");
                    title.append(self.episode.as_str());
                    title.append(")");
                    title
                } else {
                    info.name.clone()
                };
                Some(
                    MediaInfo {
                        title,
                        album: if series {
                            info.thumbnail.clone()
                        } else {
                            ICON_URL.to_string()
                        },
                        cover_url: info.poster.clone(),
                    },
                )
            },
        }
    }
}

/// How long to wait before the connection is tried again after some failures:
/// five seconds, and twice as long after each failure, up to the fifth.
pub fn reconnect_delay(failures: u32) -> (seconds: u64)
    ensures
        failures == 0 ==> seconds == 5,
        failures == 1 ==> seconds == 10,
        failures == 2 ==> seconds == 20,
        failures == 3 ==> seconds == 40,
        failures == 4 ==> seconds == 80,
        failures >= 5 ==> seconds == 160,
{
    match failures {
        0 => 5,
        1 => 10,
        2 => 20,
        3 => 40,
        4 => 80,
        _ => 160,
    }
}

// ---------------------------------------------------------------------------
// Media controls
// ---------------------------------------------------------------------------

/// What the media controls show of what plays.
#[derive(Debug)]
pub struct MediaInfo {
    pub title: String,
    pub album: String,
    pub cover_url: String,
}

#[verifier::ext_equal]
pub struct MediaInfoView {
    pub title: Seq<char>,
    pub album: Seq<char>,
    pub cover_url: Seq<char>,
}

impl View for MediaInfo {
    type V = MediaInfoView;

    open spec fn view(&self) -> MediaInfoView {
        MediaInfoView { title: self.title@, album: self.album@, cover_url: self.cover_url@ }
    }
}

pub open spec fn media_info_in(info: Option<MediaInfo>) -> Option<MediaInfoView> {
    match info {
        Some(i) => Some(i@),
        None => None,
    }
}

/// What the media controls are to show for what the presence is about.
pub open spec fn shown_of(v: PresenceLoopView) -> Option<MediaInfoView> {
    match v.info {
        None => None,
        Some(info) => Some(
            MediaInfoView {
                title: if v.media_type == "series"@ && v.season.len() > 0 {
                    info.epname + " (S"@ + v.season + "E"@ + v.episode + ")"@
                } else {
                    info.name
                },
                album: if v.media_type == "series"@ {
                    info.thumbnail
                } else {
                    ICON_URL@
                },
                cover_url: info.poster,
            },
        ),
    }
}

/// What the media controls report.
#[derive(Debug)]
pub enum MediaKeyEvent {
    Play,
    Pause,
    Next,
    Previous,
    Stop,
    /// A position was chosen: its seconds in decimal.
    SetPosition(String),
    /// Anything else.
    Other,
}

/// The message for the player that a report of the media controls leads to.
/// Without a player there is none.
pub open spec fn media_key_message(player: bool, event: MediaKeyEvent) -> Option<Seq<char>> {
    if !player {
        None
    } else {
        match event {
            MediaKeyEvent::Play | MediaKeyEvent::Pause => Some(
                "[\"mpv-command\", [\"cycle\", \"pause\"]]"@,
            ),
            MediaKeyEvent::Next => Some("[\"mpv-command\", [\"seek\", \"10\", \"relative\"]]"@),
            MediaKeyEvent::Previous => Some(
                "[\"mpv-command\", [\"seek\", \"-10\", \"relative\"]]"@,
            ),
            MediaKeyEvent::Stop => Some("[\"mpv-command\", [\"stop\"]]"@),
            MediaKeyEvent::SetPosition(seconds) => Some(
                "[\"mpv-command\", [\"seek\", \""@ + seconds@ + "\", \"absolute\"]]"@,
            ),
            MediaKeyEvent::Other => None,
        }
    }
}

/// The message for the player that a report of the media controls leads to:
/// one for each key, none for what is no key, and none without a player.
pub fn media_key_command(player: bool, event: &MediaKeyEvent) -> (command: Option<String>)
    ensures
        match command {
            Some(c) => media_key_message(player, *event) == Some(c@),
            None => media_key_message(player, *event) is None,
        },
{
    if !player {
        return None;
    }
    match event {
        MediaKeyEvent::Play | MediaKeyEvent::Pause => Some(
            "[\"mpv-command\", [\"cycle\", \"pause\"]]".to_string(),
        ),
        MediaKeyEvent::Next => Some(
            "[\"mpv-command\", [\"seek\", \"10\", \"relative\"]]".to_string(),
        ),
        MediaKeyEvent::Previous => Some(
            "[\"mpv-command\", [\"seek\", \"-10\", \"relative\"]]".to_string(),
        ),
        MediaKeyEvent::Stop => Some("[\"mpv-command\", [\"stop\"]]".to_string()),
        MediaKeyEvent::SetPosition(seconds) => Some(set_position_command(seconds.as_str())),
        MediaKeyEvent::Other => None,
    }
}

/// The command for the player that goes to a position, given in decimal.
fn set_position_command(seconds: &str) -> (command: String)
    ensures
        command@ == "[\"mpv-command\", [\"seek\", \""@ + seconds@ + "\", \"absolute\"]]"@,
{
    let mut command = "[\"mpv-command\", [\"seek\", \"".to_string();
    command.append(seconds);
    command.append("\", \"absolute\"]]");
    command
}

/// What the media controls were last told.
#[derive(Debug)]
pub struct ShownMedia {
    pub info: MediaInfo,
    pub duration: Real,
    pub time: Real,
    pub paused: bool,
}

/// Which of the media controls' facts changed.
#[derive(Debug, Clone, Copy, PartialEq, Eq, Structural)]
pub struct MediaChanges {
    pub metadata: bool,
    pub playback: bool,
}

impl ShownMedia {
    /// The controls before anything was shown: nothing, paused.
    pub fn new() -> (shown: ShownMedia)
        ensures
            shown.info@ == (MediaInfoView {
                title: Seq::empty(),
                album: Seq::empty(),
                cover_url: Seq::empty(),
            }),
            shown.duration == crate::number::real_zero(),
            shown.time == crate::number::real_zero(),
            shown.paused,
    {
        ShownMedia {
            info: MediaInfo {
                title: String::new(),
                album: String::new(),
                cover_url: String::new(),
            },
            duration: Real::from_bits(0),
            time: Real::from_bits(0),
            paused: true,
        }
    }

    /// Takes in what is to be shown, and says what changed. Only what changed
    /// is noted.
    pub fn update(&mut self, info: MediaInfo, duration: Real, time: Real, paused: bool) -> (changes: MediaChanges)
        ensures
            changes.metadata == (info@ != old(self).info@ || !duration.equals(old(self).duration)),
            changes.playback == (!time.equals(old(self).time) || paused != old(self).paused),
            final(self).info@ == if changes.metadata {
                info@
            } else {
                old(self).info@
            },
            final(self).duration == if changes.metadata {
                duration
            } else {
                old(self).duration
            },
            final(self).time == if changes.playback {
                time
            } else {
                old(self).time
            },
            final(self).paused == if changes.playback {
                paused
            } else {
                old(self).paused
            },
    {
        let same_info = same_text(info.title.as_str(), self.info.title.as_str()) && same_text(
            info.album.as_str(),
            self.info.album.as_str(),
        ) && same_text(info.cover_url.as_str(), self.info.cover_url.as_str());
        assert(same_info == (info@ =~= self.info@));
        let metadata = !same_info || !duration.same(&self.duration);
        let playback = !time.same(&self.time) || paused != self.paused;
        if metadata {
            self.info = info;
            self.duration = duration;
        }
        if playback {
            self.time = time;
            self.paused = paused;
        }
        MediaChanges { metadata, playback }
    }
}

// ---------------------------------------------------------------------------
// What the web interface reports
// ---------------------------------------------------------------------------

/// A number of a report.
pub open spec fn number_field(params: JsonView, key: Seq<char>) -> Option<Real> {
    match params.field(key) {
        Some(v) => v.number(),
        None => None,
    }
}

fn number_in_field(params: &Json, key: &str) -> (number: Option<Real>)
    ensures
        number == number_field(params@, key@),
{
    match params.get(key) {
        Some(v) => v.as_real(),
        None => None,
    }
}

/// The position of a report, under the first name that has one.
pub open spec fn reported_time(params: JsonView) -> Option<Real> {
    if number_field(params, "time"@) is Some {
        number_field(params, "time"@)
    } else if number_field(params, "timePos"@) is Some {
        number_field(params, "timePos"@)
    } else if number_field(params, "position"@) is Some {
        number_field(params, "position"@)
    } else {
        number_field(params, "currentTime"@)
    }
}

/// The playback after the web interface reported on it.
pub open spec fn status_reported(v: PlaybackView, params: JsonView) -> PlaybackView {
    PlaybackView {
        paused: match params.field("paused"@) {
            Some(p) => match p.flag() {
                Some(b) => b,
                None => v.paused,
            },
            None => v.paused,
        },
        time: match reported_time(params) {
            Some(t) => t,
            None => v.time,
        },
        duration: match number_field(params, "duration"@) {
            Some(d) => d,
            None => v.duration,
        },
        ..v
    }
}

/// Takes in what the web interface reports of the playback.
pub fn handle_media_status(playback: &mut Playback, params: Option<&Json>)
    ensures
        final(playback)@ == match params {
            Some(p) => status_reported(old(playback)@, p@),
            None => old(playback)@,
        },
{
    let params = match params {
        Some(params) => params,
        None => return ,
    };
    match params.get("paused") {
        Some(p) => match p.as_bool() {
            Some(paused) => {
                playback.is_paused = paused;
            },
            None => {},
        },
        None => {},
    }
    let mut time = number_in_field(params, "time");
    if time.is_none() {
        time = number_in_field(params, "timePos");
    }
    if time.is_none() {
        time = number_in_field(params, "position");
    }
    if time.is_none() {
        time = number_in_field(params, "currentTime");
    }
    match time {
        Some(t) => {
            playback.current_time = t;
        },
        None => {},
    }
    match number_in_field(params, "duration") {
        Some(d) => {
            playback.total_duration = d;
        },
        None => {},
    }
}

/// The text under the first of two names that is there at all.
pub open spec fn first_text(params: JsonView, first: Seq<char>, second: Seq<char>) -> Option<Seq<char>> {
    if params.field(first) is Some {
        params.text_field(first)
    } else {
        params.text_field(second)
    }
}

/// What the media controls show after the web interface reported on the title.
pub open spec fn metadata_reported(v: MediaInfoView, params: JsonView) -> MediaInfoView {
    let cover = if params.field("artUrl"@) is Some {
        params.text_field("artUrl"@)
    } else {
        first_text(params, "poster"@, "thumbnail"@)
    };
    MediaInfoView {
        title: match params.text_field("title"@) {
            Some(t) => t,
            None => v.title,
        },
        album: match first_text(params, "artist"@, "album"@) {
            Some(t) => t,
            None => v.album,
        },
        cover_url: match cover {
            Some(t) => t,
            None => v.cover_url,
        },
    }
}

/// Takes in what the web interface reports of the title.
pub fn handle_media_metadata(info: &mut MediaInfo, params: Option<&Json>)
    ensures
        final(info)@ == match params {
            Some(p) => metadata_reported(old(info)@, p@),
            None => old(info)@,
        },
{
    let params = match params {
        Some(params) => params,
        None => return ,
    };
    match params.text_at("title") {
        Some(t) => {
            info.title = t;
        },
        None => {},
    }
    let album = if params.get("artist").is_some() {
        params.text_at("artist")
    } else {
        params.text_at("album")
    };
    match album {
        Some(t) => {
            info.album = t;
        },
        None => {},
    }
    let cover = if params.get("artUrl").is_some() {
        params.text_at("artUrl")
    } else if params.get("poster").is_some() {
        params.text_at("poster")
    } else {
        params.text_at("thumbnail")
    };
    match cover {
        Some(t) => {
            info.cover_url = t;
        },
        None => {},
    }
}

// ---------------------------------------------------------------------------
// Laws
// ---------------------------------------------------------------------------

/// At most two buttons stand beside what plays.
pub proof fn at_most_two_buttons(
    show_buttons: bool,
    link_target: Seq<char>,
    url: Seq<char>,
    lobby: Option<PresenceView>,
)
    ensures
        player_buttons(show_buttons, link_target, url, lobby).len() <= 2,
{
}

/// Whoever sees the presence can join exactly while there is a party with a
/// join link.
pub proof fn party_offers_its_link(
    show_buttons: bool,
    link_target: Seq<char>,
    url: Seq<char>,
    lobby: PresenceView,
)
    ensures
        lobby.join_secret.len() > 0 ==> player_buttons(
            show_buttons,
            link_target,
            url,
            Some(lobby),
        ).last() == ("Join Watch Party"@, lobby.join_secret),
        lobby.join_secret.len() == 0 && !show_buttons ==> player_buttons(
            show_buttons,
            link_target,
            url,
            Some(lobby),
        ).len() == 0,
{
}

/// While playing, the end is as far from the start as the title is long; while
/// paused there is no end.
pub proof fn ends_follow_the_length(
    config: Config,
    info: InfoView,
    w: Watching,
    clock: PresenceClock,
    url: Seq<char>,
    lobby: Option<PresenceView>,
)
    requires
        clock.in_range(w.paused, config.disable_when_paused),
    ensures
        w.paused ==> player_activity(config, info, w, clock, url, lobby).end is None,
        !w.paused ==> player_activity(config, info, w, clock, url, lobby).end == Some(
            (player_activity(config, info, w, clock, url, lobby).start + clock.duration) as i64,
        ),
{
}

/// A page is asked about once: a second look at it changes nothing, unless its
/// address cannot be read.
pub proof fn pages_are_asked_about_once(v: PresenceLoopView, url: Seq<char>)
    requires
        !(v.look_at(url) is Unreadable),
    ensures
        v.looked_at(url).looked_at(url) == v.looked_at(url),
        v.looked_at(url).look_at(url) == PageView::Known,
{
}

} // verus!
