//! What the presence and the media controls are for, as laws: what others get
//! to see of what plays.

use crate::config::Config;
use crate::encoding::{url_decoded, url_encoded};
use crate::json::JsonView;
use crate::lobby::{others_text_of, LobbyView, PresenceView};
use crate::number::Real;
use crate::playback::PlaybackView;
use crate::presence::{
    content_id_of, detail_activity, media_key_message, menu_activity, metadata_reported,
    open_button, outside_button, player_activity, shown_of, status_reported, title_segment,
    ICON_URL, MediaInfoView, MediaKeyEvent, PageView, PresenceClock, PresenceLoopView, PresenceStep,
    Watching,
};
use crate::text::{after_first, has_prefix, has_suffix, has_text, split_on};
use crate::video_info::{
    answer_info, episode_of, info_of, meta_url_of, query_of, InfoView, QueryView,
};
use vstd::prelude::*;

verus! {

/// Title and name: what is no series is shown under its name in both lines,
/// whatever the setting says; of a series one line is the series' name and the
/// other the episode's, in the order of the setting.
pub proof fn titles_are_shown(
    config: Config,
    info: InfoView,
    w: Watching,
    clock: PresenceClock,
    url: Seq<char>,
    lobby: Option<PresenceView>,
)
    ensures
        ({
            let a = player_activity(config, info, w, clock, url, lobby);
            &&& w.media_type@ != "series"@ ==> a.name == info.name && a.details == info.name
            &&& w.media_type@ == "series"@ && !config.swap_name_and_title ==> a.name == info.name
                && a.details == info.epname
            &&& w.media_type@ == "series"@ && config.swap_name_and_title ==> a.name == info.epname
                && a.details == info.name
            &&& a.large_text == info.name + " ("@ + info.year + ")"@
            &&& a.large_image == "https://images.weserv.nl/?url="@ + url_encoded(info.poster)
                + "&w=1024&h=1024&fit=contain"@
        }),
{
}

/// The line below says which episode it is, or from when the film is, and how
/// many others watch.
pub proof fn episodes_and_years_are_shown(
    config: Config,
    info: InfoView,
    w: Watching,
    clock: PresenceClock,
    url: Seq<char>,
    lobby: PresenceView,
)
    ensures
        ({
            let alone = player_activity(config, info, w, clock, url, None);
            let together = player_activity(config, info, w, clock, url, Some(lobby));
            &&& w.media_type@ == "series"@ ==> alone.state == "S"@ + w.season@ + "E"@ + w.episode@
            &&& w.media_type@ != "series"@ ==> alone.state == info.year
            &&& others_text_of(lobby.member_count) is None ==> together.state == alone.state
            &&& others_text_of(lobby.member_count) matches Some(others) ==> (alone.state.len() > 0
                ==> together.state == alone.state + " • "@ + others) && (alone.state.len() == 0
                ==> together.state == others)
        }),
{
}

/// While playing, the start is as long ago as the position is far, and the end
/// as far from the start as the title is long; while paused there is no end,
/// and the start is the application's where the setting says so.
pub proof fn times_are_shown(
    config: Config,
    info: InfoView,
    w: Watching,
    clock: PresenceClock,
    url: Seq<char>,
    lobby: Option<PresenceView>,
)
    requires
        i64::MIN <= clock.now - clock.position <= i64::MAX,
        i64::MIN <= clock.now - clock.position + clock.duration <= i64::MAX,
    ensures
        ({
            let a = player_activity(config, info, w, clock, url, lobby);
            &&& !w.paused ==> a.start + clock.position == clock.now
            &&& !w.paused ==> a.end is Some && a.end->0 - a.start == clock.duration
            &&& w.paused ==> a.end is None
            &&& w.paused && !config.disable_when_paused ==> a.start + clock.position == clock.now
            &&& w.paused && config.disable_when_paused ==> a.start == clock.app_start
        }),
{
}

/// The small image tells playing from paused, where it is wanted at all.
pub proof fn pauses_are_shown(
    config: Config,
    info: InfoView,
    w: Watching,
    clock: PresenceClock,
    url: Seq<char>,
    lobby: Option<PresenceView>,
)
    ensures
        ({
            let a = player_activity(config, info, w, clock, url, lobby);
            &&& a.small is Some <==> config.show_small_image
            &&& config.show_small_image && w.paused ==> (a.small->0).0 == "Paused"@
            &&& config.show_small_image && !w.paused ==> (a.small->0).0 == "Playing"@
                && (a.small->0).1 == ICON_URL@
        }),
{
}

/// A party is shown with its size where there is one; the link to join it is a
/// button and stands nowhere else.
pub proof fn parties_are_shown(
    config: Config,
    info: InfoView,
    w: Watching,
    clock: PresenceClock,
    url: Seq<char>,
    lobby: PresenceView,
)
    ensures
        ({
            let a = player_activity(config, info, w, clock, url, Some(lobby));
            let alone = player_activity(config, info, w, clock, url, None);
            &&& a.party == Some((lobby.party_id, lobby.member_count, lobby.max_size))
            &&& alone.party is None
            &&& a.join_secret is None
            &&& lobby.join_secret.len() > 0 ==> a.buttons.len() > 0 && a.buttons.last() == (
                "Join Watch Party"@,
                lobby.join_secret,
            )
            &&& !config.show_buttons && lobby.join_secret.len() == 0 ==> a.buttons.len() == 0
            &&& !config.show_buttons ==> alone.buttons.len() == 0
            &&& config.show_buttons ==> alone.buttons.len() == 2
            &&& config.show_buttons ==> alone.buttons[0] == a.buttons[0]
            &&& config.show_buttons ==> alone.buttons[1].0 == "Open in Stremio"@
        }),
{
}

/// The buttons lead to the title: to its page at IMDb or Kitsu, and to its page
/// in the application, or on the web where that is wanted.
pub proof fn buttons_lead_to_the_title(
    link_target: Seq<char>,
    id: Seq<char>,
    segment: Seq<char>,
)
    requires
        !has_prefix(id, "kitsu:"@),
    ensures
        outside_button(id) == ("IMDb"@, "https://www.imdb.com/title/"@ + id),
        outside_button("kitsu:"@ + id).0 == "Kitsu"@,
        outside_button("kitsu:"@ + id).1 == "https://kitsu.app/anime/"@ + id,
        open_button("web"@, segment).1 == "https://web.stremio.com/#/detail"@ + segment,
        link_target != "web"@ ==> open_button(link_target, segment).1 == "stremio:///detail"@
            + segment,
        open_button(link_target, segment).0 == "Open in Stremio"@,
{
    reveal_strlit("kitsu:");
    let full = "kitsu:"@ + id;
    assert(full.subrange(0, 6) =~= "kitsu:"@);
    assert(has_prefix(full, "kitsu:"@));
    assert(full.skip(6) =~= id);
    reveal_with_fuel(crate::text::without_prefixes, 3);
}

/// The page of a title shows the title and that it is looked at, since the
/// application started; in a party it shows the party with its link, and no
/// buttons.
pub proof fn title_pages_are_shown(
    config: Config,
    info: InfoView,
    media_type: Seq<char>,
    url: Seq<char>,
    app_start: i64,
    lobby: LobbyView,
)
    ensures
        ({
            let a = detail_activity(config, info, media_type, url, app_start, lobby);
            let id = content_id_of(title_segment(url));
            &&& a.name == info.name
            &&& a.details == info.name
            &&& a.start == app_start
            &&& a.end is None
            &&& media_type == "series"@ ==> a.state == "Viewing Series"@
            &&& media_type != "series"@ ==> a.state == "Viewing Movie"@
            &&& a.large_text == info.name + " ("@ + info.year + ")"@
            &&& a.small is Some <==> config.show_small_image
            &&& lobby.party_id.len() > 0 ==> a.buttons.len() == 0 && a.party == Some(
                (lobby.party_id, lobby.member_count, lobby.max_size),
            ) && a.join_secret == Some(lobby.join_secret)
            &&& lobby.party_id.len() == 0 ==> a.party is None && a.join_secret is None
            &&& lobby.party_id.len() == 0 && config.show_buttons && id.len() > 0 ==> a.buttons
                == seq![
                outside_button(id),
                open_button(config.link_target@, title_segment(url)),
            ]
            &&& !config.show_buttons || id.len() == 0 ==> a.buttons.len() == 0
        }),
{
}

/// The menus are shown by their names, since the application started, and
/// nothing of a title with them.
pub proof fn menus_are_shown(url: Seq<char>, app_start: i64)
    requires
        !url.contains('?'),
    ensures
        ({
            let a = menu_activity(url, app_start);
            &&& a.name == "Stremio"@
            &&& a.start == app_start
            &&& a.end is None
            &&& a.buttons.len() == 0
            &&& a.party is None
            &&& a.join_secret is None
            &&& a.small is None
            &&& has_suffix(url, "/settings"@) ==> a.state == "Settings"@ && a.details
                == "Changing configuration"@
            &&& has_suffix(url, "/addons"@) && !has_suffix(url, "/settings"@) ==> a.state
                == "Addons"@ && a.details == "Managing addons"@
            &&& has_suffix(url, "/library"@) && !has_suffix(url, "/settings"@) && !has_suffix(
                url,
                "/addons"@,
            ) ==> a.state == "Library"@ && a.details == "Browsing library"@
            &&& has_suffix(url, "/calendar"@) && !has_suffix(url, "/settings"@) && !has_suffix(
                url,
                "/addons"@,
            ) && !has_suffix(url, "/library"@) ==> a.state == "Calendar"@ && a.details
                == "Viewing Calendar"@
            &&& has_suffix(url, "/discover"@) && !has_suffix(url, "/settings"@) && !has_suffix(
                url,
                "/addons"@,
            ) && !has_suffix(url, "/library"@) && !has_suffix(url, "/calendar"@) ==> a.state
                == "Discover"@
            &&& !has_suffix(url, "/settings"@) && !has_suffix(url, "/addons"@) && !has_suffix(
                url,
                "/library"@,
            ) && !has_suffix(url, "/calendar"@) && !has_suffix(url, "/discover"@) ==> a.state
                == "Browsing"@
        }),
{
    unsplit(url, '?');
}

/// A text without the separator is one piece.
proof fn unsplit(s: Seq<char>, c: char)
    requires
        !s.contains(c),
    ensures
        split_on(s, c) == seq![s],
    decreases s.len(),
{
    if s.len() > 0 {
        assert(s.last() == s[s.len() - 1]);
        assert(!s.drop_last().contains(c)) by {
            if s.drop_last().contains(c) {
                let i = choose|i: int| 0 <= i < s.drop_last().len() && s.drop_last()[i] == c;
                assert(s[i] == c);
            }
        }
        unsplit(s.drop_last(), c);
        assert(s.drop_last().push(s.last()) =~= s);
        assert(split_on(s, c) =~= seq![s]);
    } else {
        assert(split_on(s, c) =~= seq![s]);
    }
}

// ---------------------------------------------------------------------------
// When
// ---------------------------------------------------------------------------

/// The presence follows the page: a player is shown while it plays, and while it
/// pauses unless that is switched off; a title's page as such; a menu unless
/// that is switched off. Of what is not known nothing is said.
pub proof fn presence_follows_the_page(
    v: PresenceLoopView,
    when_paused: bool,
    in_menu: bool,
    url: Seq<char>,
    paused: bool,
)
    ensures
        ({
            let step = v.step_on(when_paused, in_menu, url, paused);
            let player = has_text(url, "/player/"@);
            let detail = has_text(url, "/detail/"@);
            &&& (player || detail) && v.info is None ==> step == PresenceStep::Nothing
            &&& player && v.info is Some && !(when_paused && paused) ==> step
                == PresenceStep::Player
            &&& player && v.info is Some && when_paused && paused ==> step == PresenceStep::Clear
            &&& detail && !player && v.info is Some ==> step == PresenceStep::Detail
            &&& !player && !detail && !in_menu ==> step == PresenceStep::Menu
            &&& !player && !detail && in_menu ==> step == PresenceStep::Clear
        }),
{
}

/// A new player's page is asked about by the id at its end, and a page that
/// shows no title by nothing; while the page stays there is nothing to ask.
pub proof fn players_are_asked_about(v: PresenceLoopView, url: Seq<char>, id: Seq<char>)
    ensures
        url == v.last_url ==> v.look_at(url) == PageView::Known && v.looked_at(url) == v,
        !has_text(url, "/player/"@) && !has_text(url, "/detail/"@) ==> v.look_at(url)
            == PageView::Known && v.looked_at(url) == v,
        has_text(url, "/player/"@) && url != v.last_url && url_decoded(split_on(url, '/').last())
            == Some(id) ==> {
            let q = query_of(split_on(id, ':'));
            &&& v.look_at(url) == PageView::Ask(q)
            &&& v.looked_at(url).last_url == url
            &&& v.looked_at(url).media_type == q.type_
            &&& v.looked_at(url).season == q.season
            &&& v.looked_at(url).episode == q.episode
        },
        has_text(url, "/player/"@) && url != v.last_url && url_decoded(split_on(url, '/').last())
            is None ==> v.look_at(url) == PageView::Unreadable && v.looked_at(url).last_url
            == v.last_url && v.looked_at(url).media_type.len() == 0 && v.looked_at(
            url,
        ).season.len() == 0 && v.looked_at(url).episode.len() == 0,
        v.looked_at(url).info == v.info,
{
}

/// A new title's page is asked about by the type and the id in its address; one
/// whose address holds no id is about nothing, and is not looked at again.
pub proof fn title_pages_are_asked_about(v: PresenceLoopView, url: Seq<char>, rest: Seq<char>)
    requires
        !has_text(url, "/player/"@),
        has_text(url, "/detail/"@),
        after_first(url, "/detail/"@) == Some(rest),
        !has_text(rest, "/detail/"@),
        url != v.last_url,
    ensures
        ({
            let parts = split_on(rest, '/');
            let after = v.looked_at(url);
            &&& after.last_url == url
            &&& after.season.len() == 0
            &&& after.episode.len() == 0
            &&& parts.len() >= 2 ==> v.look_at(url) == PageView::Ask(
                QueryView {
                    type_: parts[0],
                    id: parts[1],
                    season: Seq::empty(),
                    episode: Seq::empty(),
                },
            ) && after.media_type == parts[0]
            &&& parts.len() < 2 ==> v.look_at(url) == PageView::Known && after.media_type.len()
                == 0
        }),
{
}

// ---------------------------------------------------------------------------
// Media controls
// ---------------------------------------------------------------------------

/// The media controls show what plays: an episode with its season and number, a
/// film by its name, with the poster; without knowledge, nothing.
pub proof fn controls_show_what_plays(v: PresenceLoopView, info: InfoView)
    requires
        v.info == Some(info),
    ensures
        shown_of(v) is Some,
        v.media_type == "series"@ && v.season.len() > 0 ==> shown_of(v)->0.title == info.epname
            + " (S"@ + v.season + "E"@ + v.episode + ")"@,
        v.media_type == "series"@ && v.season.len() == 0 ==> shown_of(v)->0.title == info.name,
        v.media_type != "series"@ ==> shown_of(v)->0.title == info.name && shown_of(v)->0.album
            == ICON_URL@,
        v.media_type == "series"@ ==> shown_of(v)->0.album == info.thumbnail,
        shown_of(v)->0.cover_url == info.poster,
        shown_of(PresenceLoopView { info: None, ..v }) is None,
{
}

/// What the web interface reports of playback is what is known from then on; of
/// what it does not report, what was known stays.
pub proof fn reported_playback_is_known(v: PlaybackView, params: JsonView, r: Real, b: bool)
    ensures
        ({
            let after = status_reported(v, params);
            let number = |key: Seq<char>|
                if params.field(key) is Some {
                    params.field(key)->0.number()
                } else {
                    None
                };
            &&& params.field("paused"@) is None ==> after.paused == v.paused
            &&& params.field("paused"@) == Some(JsonView::Bool(b)) ==> after.paused == b
            &&& number("time"@) == Some(r) ==> after.time == r
            &&& number("time"@) is None && number("timePos"@) == Some(r) ==> after.time == r
            &&& number("time"@) is None && number("timePos"@) is None && number("position"@)
                == Some(r) ==> after.time == r
            &&& number("time"@) is None && number("timePos"@) is None && number("position"@) is None
                && number("currentTime"@) == Some(r) ==> after.time == r
            &&& number("time"@) is None && number("timePos"@) is None && number("position"@) is None
                && number("currentTime"@) is None ==> after.time == v.time
            &&& number("duration"@) == Some(r) ==> after.duration == r
            &&& number("duration"@) is None ==> after.duration == v.duration
            &&& after == (PlaybackView {
                paused: after.paused,
                time: after.time,
                duration: after.duration,
                ..v
            })
        }),
{
}

/// What the web interface reports of the title is what the controls show; of
/// what it does not report, what was shown stays.
pub proof fn reported_titles_are_shown(v: MediaInfoView, params: JsonView, t: Seq<char>)
    ensures
        ({
            let after = metadata_reported(v, params);
            &&& params.field("title"@) == Some(JsonView::Text(t)) ==> after.title == t
            &&& params.field("title"@) is None ==> after.title == v.title
            &&& params.field("artist"@) == Some(JsonView::Text(t)) ==> after.album == t
            &&& params.field("artist"@) is None && params.field("album"@) == Some(
                JsonView::Text(t),
            ) ==> after.album == t
            &&& params.field("artist"@) is None && params.field("album"@) is None ==> after.album
                == v.album
            &&& params.field("artUrl"@) == Some(JsonView::Text(t)) ==> after.cover_url == t
            &&& params.field("artUrl"@) is None && params.field("poster"@) == Some(
                JsonView::Text(t),
            ) ==> after.cover_url == t
            &&& params.field("artUrl"@) is None && params.field("poster"@) is None
                && params.field("thumbnail"@) == Some(JsonView::Text(t)) ==> after.cover_url == t
            &&& params.field("artUrl"@) is None && params.field("poster"@) is None
                && params.field("thumbnail"@) is None ==> after.cover_url == v.cover_url
        }),
{
}

/// Each key of the media controls leads to one message, the same for play and
/// pause and another for each other; nothing else does, and nothing without a
/// player.
pub proof fn keys_are_told_apart(event: MediaKeyEvent)
    ensures
        media_key_message(false, event) is None,
        media_key_message(true, event) is None <==> event is Other,
        media_key_message(true, MediaKeyEvent::Play) == media_key_message(
            true,
            MediaKeyEvent::Pause,
        ),
        has_text(media_key_message(true, MediaKeyEvent::Play)->0, "cycle"@),
        has_text(media_key_message(true, MediaKeyEvent::Next)->0, "\"10\""@),
        has_text(media_key_message(true, MediaKeyEvent::Previous)->0, "\"-10\""@),
        has_text(media_key_message(true, MediaKeyEvent::Stop)->0, "stop"@),
        event matches MediaKeyEvent::SetPosition(s) ==> has_text(
            media_key_message(true, event)->0,
            s@,
        ),
{
    reveal_strlit("[\"mpv-command\", [\"cycle\", \"pause\"]]");
    reveal_strlit("[\"mpv-command\", [\"seek\", \"10\", \"relative\"]]");
    reveal_strlit("[\"mpv-command\", [\"seek\", \"-10\", \"relative\"]]");
    reveal_strlit("[\"mpv-command\", [\"stop\"]]");
    reveal_strlit("cycle");
    reveal_strlit("\"10\"");
    reveal_strlit("\"-10\"");
    reveal_strlit("stop");
    let play = media_key_message(true, MediaKeyEvent::Play)->0;
    assert(play.subrange(18, 23) =~= "cycle"@);
    assert(crate::text::occurs_at(play, "cycle"@, 18));
    let next = media_key_message(true, MediaKeyEvent::Next)->0;
    assert(next.subrange(25, 29) =~= "\"10\""@);
    assert(crate::text::occurs_at(next, "\"10\""@, 25));
    let previous = media_key_message(true, MediaKeyEvent::Previous)->0;
    assert(previous.subrange(25, 30) =~= "\"-10\""@);
    assert(crate::text::occurs_at(previous, "\"-10\""@, 25));
    let stop = media_key_message(true, MediaKeyEvent::Stop)->0;
    assert(stop.subrange(18, 22) =~= "stop"@);
    assert(crate::text::occurs_at(stop, "stop"@, 18));
    if let MediaKeyEvent::SetPosition(s) = event {
        let start = "[\"mpv-command\", [\"seek\", \""@;
        let message = media_key_message(true, event)->0;
        assert(message.subrange(start.len() as int, (start.len() + s@.len()) as int) =~= s@);
        assert(crate::text::occurs_at(message, s@, start.len() as int));
    }
}

// ---------------------------------------------------------------------------
// What is known of a title
// ---------------------------------------------------------------------------

/// An id of one part is a film, one of three parts an episode of a series with
/// its season and number; Kitsu's keep their name and have no seasons.
pub proof fn ids_say_what_to_ask_for(id: Seq<char>, season: Seq<char>, episode: Seq<char>)
    requires
        id != "kitsu"@,
    ensures
        query_of(seq![id]) == (QueryView {
            type_: "movie"@,
            id,
            season: Seq::empty(),
            episode: Seq::empty(),
        }),
        query_of(seq![id, season, episode]) == (QueryView { type_: "series"@, id, season, episode }),
        query_of(seq!["kitsu"@, id]) == (QueryView {
            type_: "movie"@,
            id: "kitsu"@ + ":"@ + id,
            season: Seq::empty(),
            episode: Seq::empty(),
        }),
        query_of(seq!["kitsu"@, id, episode]) == (QueryView {
            type_: "series"@,
            id: "kitsu"@ + ":"@ + id,
            season: Seq::empty(),
            episode,
        }),
{
}

/// The catalogue is asked for the type and the id; Kitsu's titles at Kitsu's.
pub proof fn catalogues_are_asked(type_: Seq<char>, id: Seq<char>)
    ensures
        !has_prefix(id, "kitsu"@) ==> meta_url_of(type_, id) == "https://v3-cinemeta.strem.io/meta"@
            + "/"@ + type_ + "/"@ + id + ".json"@,
        has_prefix(id, "kitsu"@) ==> meta_url_of(type_, id) == "https://anime-kitsu.strem.fun/meta"@
            + "/"@ + type_ + "/"@ + id + ".json"@,
{
}

/// What the catalogue says of a title is what is known of it: its name, year and
/// poster, and of an episode its own name and picture. An answer without an
/// entry leaves the title unknown, and what is no answer says nothing.
pub proof fn answers_are_read(
    entries: Seq<(Seq<char>, JsonView)>,
    meta: JsonView,
    type_: Seq<char>,
    id: Seq<char>,
    season: Seq<char>,
    episode: Seq<char>,
    t: Seq<char>,
)
    requires
        JsonView::Object(entries).field("meta"@) == Some(meta),
    ensures
        ({
            let info = answer_info(Some(JsonView::Object(entries)), type_, id, season, episode);
            &&& info is Some
            &&& meta.text_field("name"@) == Some(t) ==> info->0.name == t
            &&& meta.text_field("name"@) is None ==> info->0.name == "Unknown Title"@
            &&& meta.text_field("year"@) == Some(t) ==> info->0.year == t
            &&& meta.text_field("year"@) is None ==> info->0.year == ""@
            &&& meta.text_field("poster"@) == Some(t) ==> info->0.poster == t
            &&& type_ != "series"@ ==> info->0.epname == "Unknown Episode Name"@
        }),
        answer_info(None, type_, id, season, episode) is None,
        answer_info(Some(JsonView::Text(t)), type_, id, season, episode) is None,
        answer_info(Some(JsonView::Null), type_, id, season, episode) is None,
{
}

/// The entry of an episode gives its name and picture: its name, or its title,
/// or the name of the series.
pub proof fn episodes_are_read(
    meta: JsonView,
    videos: Seq<JsonView>,
    id: Seq<char>,
    season: Seq<char>,
    episode: Seq<char>,
    k: int,
    t: Seq<char>,
)
    requires
        meta.field("videos"@) == Some(JsonView::Array(videos)),
        0 <= k < videos.len(),
        season.len() > 0,
        videos[k].text_field("id"@) == Some(id + ":"@ + season + ":"@ + episode),
        forall|j: int|
            0 <= j < k ==> (#[trigger] videos[j]).text_field("id"@) != Some(
                id + ":"@ + season + ":"@ + episode,
            ),
    ensures
        ({
            let info = info_of(meta, "series"@, id, season, episode);
            let video = videos[k];
            &&& video.text_field("name"@) == Some(t) ==> info.epname == t
            &&& video.text_field("name"@) is None && video.text_field("title"@) == Some(t)
                ==> info.epname == t
            &&& video.text_field("name"@) is None && video.text_field("title"@) is None
                && meta.text_field("name"@) == Some(t) ==> info.epname == t
            &&& video.text_field("thumbnail"@) == Some(t) ==> info.thumbnail == t
        }),
{
    found_first(videos, id + ":"@ + season + ":"@ + episode, k);
}

proof fn found_first(videos: Seq<JsonView>, id: Seq<char>, k: int)
    requires
        0 <= k < videos.len(),
        videos[k].text_field("id"@) == Some(id),
        forall|j: int| 0 <= j < k ==> (#[trigger] videos[j]).text_field("id"@) != Some(id),
    ensures
        episode_of(videos, id) == Some(videos[k]),
    decreases videos.len(),
{
    let before = videos.drop_last();
    if k < videos.len() - 1 {
        assert forall|j: int| 0 <= j < k implies (#[trigger] before[j]).text_field("id"@) != Some(
            id,
        ) by {
            assert(before[j] == videos[j]);
        }
        found_first(before, id, k);
    } else {
        not_found(before, id);
    }
}

proof fn not_found(videos: Seq<JsonView>, id: Seq<char>)
    requires
        forall|j: int|
            0 <= j < videos.len() ==> (#[trigger] videos[j]).text_field("id"@) != Some(id),
    ensures
        episode_of(videos, id) is None,
    decreases videos.len(),
{
    if videos.len() > 0 {
        let before = videos.drop_last();
        assert forall|j: int| 0 <= j < before.len() implies (#[trigger] before[j]).text_field("id"@)
            != Some(id) by {
            assert(before[j] == videos[j]);
        }
        not_found(before, id);
        assert(videos.last() == videos[videos.len() - 1]);
    }
}

} // verus!
