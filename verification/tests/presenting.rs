use stremio_shell::config::{config_from, default_entries, load_config, parse_word_list, Config};
use stremio_shell::json::{parse_json, Json};
use stremio_shell::lobby::{lobby_presence, LobbyPresence, LobbyState};
use stremio_shell::number::{format_i64, format_u64, parse_i32, parse_u32, parse_u64, Real};
use stremio_shell::playback::Playback;
use stremio_shell::presence::{
    build_detail_activity, build_menu_activity, build_player_activity, handle_media_metadata,
    handle_media_status, media_key_command, reconnect_delay, weserv_contain, MediaChanges,
    MediaInfo, MediaKeyEvent, PageLook, PresenceClock, PresenceLoop, PresenceStep,
    ShownMedia, Watching, ICON_URL,
};
use stremio_shell::text::{
    contains, ends_with, join, split, starts_with, strip_prefix, strip_prefixes, strip_trailing,
    text_after, text_up_to, to_ascii_lower, trim,
};
use stremio_shell::video_info::{getvidinfo, meta_url, parse_video_id, VideoInfo};

const EPISODE: &str = "https://web.stremio.com/#/player/x/tt0903747%3A1%3A2";

fn float(x: f64) -> Real {
    Real::from_bits(x.to_bits())
}

fn config() -> Config {
    load_config("").unwrap()
}

fn info() -> VideoInfo {
    VideoInfo {
        poster: "https://img/p.jpg".to_string(),
        name: "Show".to_string(),
        year: "2008".to_string(),
        thumbnail: "https://img/t.jpg".to_string(),
        epname: "Pilot".to_string(),
    }
}

fn watching(paused: bool) -> Watching {
    Watching {
        media_type: "series".to_string(),
        season: "1".to_string(),
        episode: "2".to_string(),
        paused,
    }
}

fn clock() -> PresenceClock {
    PresenceClock { now: 1000, app_start: 100, position: 60, duration: 600 }
}

#[test]
fn an_empty_file_gives_the_defaults() {
    let c = config();
    assert!(c.show_buttons && c.show_small_image);
    assert!(!c.disable_in_menu && !c.disable_when_paused && !c.swap_name_and_title);
    assert_eq!(c.link_target, "app");
    assert_eq!(c.refresh_interval, 5);
    assert_eq!(c.lobby_max_size, 8);
    assert!(c.auto_skip_enabled && c.auto_skip_intro && c.auto_skip_recap && c.auto_skip_outro);
    assert_eq!(c.chapter_intro_words, ["opening", "intro", "logo"]);
    assert_eq!(c.chapter_recap_words, ["recap"]);
    assert_eq!(c.chapter_outro_words, ["credits", "outro", "ending"]);
    assert_eq!(c.introdb_api_key, None);
}

#[test]
fn settings_are_read_from_the_file() {
    let c = load_config(
        "[Buttons]\nshow_buttons=false\nlink_target=web\n[Activity]\nrefresh_interval=9\n\
         [Lobby]\nlobby_max_size=99\n[IntroDB]\nenabled=false\napi_key= k \n\
         [AutoSkipChapters]\nintro=OP, Theme ,,\n",
    )
    .unwrap();
    assert!(!c.show_buttons);
    assert_eq!(c.link_target, "web");
    assert_eq!(c.refresh_interval, 9);
    assert_eq!(c.lobby_max_size, 16);
    assert!(!c.auto_skip_enabled);
    assert_eq!(c.introdb_api_key, Some("k".to_string()));
    assert_eq!(c.chapter_intro_words, ["op", "theme"]);
    let skip = c.intro_skip_config();
    assert!(!skip.enabled);
    assert_eq!(skip.chapter_intro_words, ["op", "theme"]);
}

#[test]
fn a_byte_order_mark_does_not_count() {
    let marked = load_config("\u{feff}[Buttons]\nshow_buttons=false\n").unwrap();
    assert!(!marked.show_buttons);
    let plain = load_config("[Buttons]\nshow_buttons=false\n").unwrap();
    assert!(!plain.show_buttons);
    let twice = load_config("\u{feff}\u{feff}[Buttons]\nshow_buttons=false\n");
    assert!(twice.map_or(true, |c| c.show_buttons));
}

#[test]
fn lobby_sizes_are_bounded() {
    let size = |text: &str| {
        let mut document = ini::Ini::new();
        document.with_section(Some("Lobby")).set("lobby_max_size", text);
        config_from(&document).lobby_max_size
    };
    assert_eq!(size("1"), 2);
    assert_eq!(size("-5"), 2);
    assert_eq!(size("12"), 12);
    assert_eq!(size("many"), 8);
}

#[test]
fn a_new_file_gives_the_defaults() {
    let mut document = ini::Ini::new();
    for e in default_entries() {
        document.with_section(Some(e.section.as_str())).set(e.key.as_str(), e.value.as_str());
    }
    let c = config_from(&document);
    let d = config();
    assert_eq!(c.refresh_interval, d.refresh_interval);
    assert_eq!(c.chapter_outro_words, d.chapter_outro_words);
    assert_eq!(c.introdb_api_key, None);
    assert!(c.auto_skip_enabled);
    assert!(parse_word_list(" , ,").is_empty());
    assert!(load_config("[broken").is_none());
}

#[test]
fn images_are_fetched_in_a_square() {
    let image = weserv_contain("https://img/p.jpg");
    assert!(image.starts_with("https://images.weserv.nl/?url="));
    assert!(image.contains("https%3A%2F%2Fimg%2Fp.jpg"));
}

#[test]
fn an_episode_is_presented() {
    let a = build_player_activity(&config(), &info(), &watching(false), clock(), EPISODE, &None);
    assert_eq!(a.name, "Show");
    assert_eq!(a.details, "Pilot");
    assert_eq!(a.state, "S1E2");
    assert_eq!(a.start, 940);
    assert_eq!(a.end, Some(1540));
    assert_eq!(a.large_text, "Show (2008)");
    assert_eq!(a.small.unwrap().label, "Playing");
    assert_eq!(a.buttons.len(), 2);
    assert_eq!(a.buttons[1].label, "Open in Stremio");
    assert!(a.party.is_none());
}

#[test]
fn a_paused_film_has_no_end() {
    let mut c = config();
    c.swap_name_and_title = true;
    c.show_small_image = true;
    let mut w = watching(true);
    w.media_type = "movie".to_string();
    let page = "https://web.stremio.com/#/detail/movie/tt0111161/x";
    let a = build_player_activity(&c, &info(), &w, clock(), page, &None);
    assert_eq!(a.end, None);
    assert_eq!(a.start, 940);
    assert_eq!(a.state, "2008");
    assert_eq!(a.small.unwrap().url, "https://i.imgur.com/eCUJpm9.png");
    assert_eq!(a.buttons[0].label, "IMDb");
    assert_eq!(a.buttons[0].url, "https://www.imdb.com/title/tt0111161");
    assert_eq!(a.buttons[1].url, "stremio:///detail/movie/tt0111161/x");
    c.disable_when_paused = true;
    assert_eq!(build_player_activity(&c, &info(), &w, clock(), page, &None).start, 100);
    let far = PresenceClock { now: i64::MIN, app_start: 100, position: 1, duration: i64::MIN };
    assert_eq!(build_player_activity(&c, &info(), &w, far, page, &None).start, 100);
}

#[test]
fn a_party_offers_its_link() {
    let mut lobby = LobbyState::new();
    lobby.set_lobby_identity("party", "stremio://sync/x");
    lobby.set_lobby_counts(3, 8);
    let presence: Option<LobbyPresence> = lobby_presence(&lobby);
    let a =
        build_player_activity(&config(), &info(), &watching(false), clock(), EPISODE, &presence);
    assert_eq!(a.buttons.len(), 2);
    assert_eq!(a.buttons[1].label, "Join Watch Party");
    assert_eq!(a.buttons[1].url, "stremio://sync/x");
    assert_eq!(a.state, "S1E2 • with 2 others");
    assert_eq!(a.party.unwrap().member_count, 3);
    let d = build_detail_activity(&config(), &info(), "series", EPISODE, 100, &lobby);
    assert!(d.buttons.is_empty());
    assert_eq!(d.join_secret, Some("stremio://sync/x".to_string()));
}

#[test]
fn kitsu_pages_link_to_kitsu() {
    let page = "https://web.stremio.com/#/detail/series/kitsu%3A7442/x";
    let mut c = config();
    c.link_target = "web".to_string();
    let d = build_detail_activity(&c, &info(), "series", page, 100, &LobbyState::new());
    assert_eq!(d.state, "Viewing Series");
    assert_eq!(d.buttons[0].label, "Kitsu");
    assert_eq!(d.buttons[0].url, "https://kitsu.app/anime/7442");
    assert_eq!(
        d.buttons[1].url,
        "https://web.stremio.com/#/detail/series/kitsu%3A7442/x"
    );
}

#[test]
fn menus_are_named() {
    let a = build_menu_activity("https://web.stremio.com/#/settings?x", 100);
    assert_eq!((a.state.as_str(), a.details.as_str()), ("Settings", "Changing configuration"));
    let a = build_menu_activity("https://web.stremio.com/#/", 100);
    assert_eq!((a.state.as_str(), a.details.as_str()), ("Browsing", "In Stremio Menu"));
    assert_eq!(a.large_image, ICON_URL);
}

#[test]
fn a_page_is_asked_about_once() {
    let mut p = PresenceLoop::new();
    match p.look(EPISODE) {
        PageLook::Ask(q) => {
            assert_eq!(q.type_, "series");
            assert_eq!(q.id, "tt0903747");
            assert_eq!((q.season.as_str(), q.episode.as_str()), ("1", "2"));
        }
        other => panic!("{other:?}"),
    }
    p.answered(Some(info()));
    assert!(matches!(p.look(EPISODE), PageLook::Known));
    assert_eq!(p.next_step(&config(), EPISODE, false), PresenceStep::Player);
    let mut c = config();
    c.disable_when_paused = true;
    assert_eq!(p.next_step(&c, EPISODE, true), PresenceStep::Clear);
    let shown = p.now_showing().unwrap();
    assert_eq!(shown.title, "Pilot (S1E2)");
    assert_eq!(shown.album, "https://img/t.jpg");
    assert_eq!(shown.cover_url, "https://img/p.jpg");
}

#[test]
fn menus_can_be_left_out() {
    let p = PresenceLoop::new();
    let menu = "https://web.stremio.com/#/library";
    assert_eq!(p.next_step(&config(), menu, false), PresenceStep::Menu);
    let mut c = config();
    c.disable_in_menu = true;
    assert_eq!(p.next_step(&c, menu, false), PresenceStep::Clear);
    assert_eq!(p.next_step(&config(), EPISODE, false), PresenceStep::Nothing);
}

#[test]
fn unreadable_pages_are_left_alone() {
    let mut p = PresenceLoop::new();
    assert!(matches!(
        p.look("https://web.stremio.com/#/player/x/%ff"),
        PageLook::Unreadable
    ));
}

#[test]
fn reconnecting_takes_longer_each_time() {
    assert_eq!(reconnect_delay(0), 5);
    assert_eq!(reconnect_delay(1), 10);
    assert_eq!(reconnect_delay(5), 160);
    assert_eq!(reconnect_delay(9), 160);
}

#[test]
fn keys_of_the_keyboard_control_the_player() {
    assert_eq!(
        media_key_command(true, &MediaKeyEvent::Play).unwrap(),
        r#"["mpv-command", ["cycle", "pause"]]"#
    );
    assert_eq!(
        media_key_command(true, &MediaKeyEvent::Pause).unwrap(),
        r#"["mpv-command", ["cycle", "pause"]]"#
    );
    assert_eq!(
        media_key_command(true, &MediaKeyEvent::Next).unwrap(),
        r#"["mpv-command", ["seek", "10", "relative"]]"#
    );
    assert_eq!(
        media_key_command(true, &MediaKeyEvent::Previous).unwrap(),
        r#"["mpv-command", ["seek", "-10", "relative"]]"#
    );
    assert_eq!(
        media_key_command(true, &MediaKeyEvent::Stop).unwrap(),
        r#"["mpv-command", ["stop"]]"#
    );
    assert_eq!(
        media_key_command(true, &MediaKeyEvent::SetPosition("1.5".to_string())).unwrap(),
        r#"["mpv-command", ["seek", "1.5", "absolute"]]"#
    );
    assert_eq!(media_key_command(true, &MediaKeyEvent::Other), None);
    assert_eq!(media_key_command(false, &MediaKeyEvent::Play), None);
}

#[test]
fn changes_are_told_once() {
    let media = || MediaInfo {
        title: "t".to_string(),
        album: "a".to_string(),
        cover_url: "c".to_string(),
    };
    let mut shown = ShownMedia::new();
    assert_eq!(
        shown.update(media(), float(10.0), float(1.0), false),
        MediaChanges { metadata: true, playback: true }
    );
    assert_eq!(
        shown.update(media(), float(10.0), float(1.0), false),
        MediaChanges { metadata: false, playback: false }
    );
    assert_eq!(
        shown.update(media(), float(10.0), float(2.0), false),
        MediaChanges { metadata: false, playback: true }
    );
}

#[test]
fn the_interface_reports_its_playback() {
    let mut p = Playback::new(float(100.0));
    let params: Json =
        parse_json(r#"{"paused":true,"timePos":5.5,"currentTime":9,"duration":60}"#).unwrap();
    handle_media_status(&mut p, Some(&params));
    assert!(p.is_paused);
    assert_eq!(p.current_time, float(5.5));
    assert_eq!(p.total_duration, float(60.0));
    handle_media_status(&mut p, None);
    assert_eq!(p.current_time, float(5.5));
}

#[test]
fn the_interface_reports_what_it_shows() {
    let mut media = MediaInfo {
        title: "t".to_string(),
        album: "a".to_string(),
        cover_url: "c".to_string(),
    };
    let params = parse_json(r#"{"title":"T","artist":5,"album":"A","poster":"P"}"#).unwrap();
    handle_media_metadata(&mut media, Some(&params));
    assert_eq!(media.title, "T");
    assert_eq!(media.album, "a");
    assert_eq!(media.cover_url, "P");
}

#[test]
fn episodes_are_found_in_an_answer() {
    let answer = r#"{"meta":{"name":"Show","poster":"p","year":"2008","videos":[
        {"id":"tt1:1:1","name":"No"},
        {"id":"tt1:1:2","title":"Yes","thumbnail":"t"}]}}"#;
    let found = getvidinfo("series", "tt1", "1", "2", |url: String| {
        assert_eq!(url, "https://v3-cinemeta.strem.io/meta/series/tt1.json");
        Some(answer.to_string())
    })
    .unwrap();
    assert_eq!(found.name, "Show");
    assert_eq!(found.epname, "Yes");
    assert_eq!(found.thumbnail, "t");
    assert_eq!(found.poster, "p");
}

#[test]
fn answers_without_information_give_the_defaults() {
    let found = getvidinfo("movie", "tt1", "", "", |_| Some("{}".to_string())).unwrap();
    assert_eq!(found.name, "Unknown Title");
    assert_eq!(found.poster, "default_poster_url");
    assert_eq!(found.epname, "Unknown Episode Name");
    assert!(getvidinfo("movie", "tt1", "", "", |_| Some("[]".to_string())).is_none());
    assert!(getvidinfo("movie", "tt1", "", "", |_| None).is_none());
    assert_eq!(
        meta_url("series", "kitsu:1"),
        "https://anime-kitsu.strem.fun/meta/series/kitsu:1.json"
    );
}

#[test]
fn identifiers_become_questions() {
    let q = parse_video_id("kitsu:5:7");
    assert_eq!((q.type_.as_str(), q.id.as_str()), ("series", "kitsu:5"));
    assert_eq!((q.season.as_str(), q.episode.as_str()), ("", "7"));
    assert_eq!(parse_video_id("kitsu:5").type_, "movie");
    assert_eq!(parse_video_id("tt1").type_, "movie");
    assert_eq!(parse_video_id("tt1:2").type_, "unknown");
    assert_eq!(parse_video_id("tt1:2:3").episode, "3");
}

#[test]
fn texts_are_taken_apart() {
    assert_eq!(split("a,,b", ','), ["a", "", "b"]);
    assert_eq!(split("", ','), [""]);
    assert_eq!(join(&split("a,,b", ','), ","), "a,,b");
    assert_eq!(trim(" \u{3000}a b\t"), "a b");
    assert_eq!(strip_prefix("abc", "ab"), Some("c".to_string()));
    assert_eq!(strip_prefix("abc", "b"), None);
    assert_eq!(strip_prefixes("aab", "a"), "b");
    assert_eq!(strip_trailing("a//", '/'), "a");
    assert_eq!(text_after("a/b/c", "/"), Some("b/c".to_string()));
    assert_eq!(text_up_to("a/b/c", "/"), "a");
    assert!(starts_with("abc", "ab") && ends_with("abc", "bc") && contains("abc", "b"));
    assert!(!contains("abc", "ac"));
    assert_eq!(to_ascii_lower("AbÉ"), "abÉ");
}

#[test]
fn numbers_are_written_and_read() {
    assert_eq!(format_u64(0), "0");
    assert_eq!(format_u64(u64::MAX), "18446744073709551615");
    assert_eq!(format_i64(i64::MIN), "-9223372036854775808");
    assert_eq!(parse_u64("+7"), Some(7));
    assert_eq!(parse_u64("18446744073709551616"), None);
    assert_eq!(parse_u64(""), None);
    assert_eq!(parse_u64("-1"), None);
    assert_eq!(parse_u32("4294967296"), None);
    assert_eq!(parse_i32("-12"), Some(-12));
    assert_eq!(parse_i32("1x"), None);
}

#[test]
fn floating_point_numbers_keep_their_order() {
    let values = [f64::NEG_INFINITY, -2.5, -0.0, 0.0, 1e-300, 2.5, f64::INFINITY, f64::NAN];
    for a in values {
        for b in values {
            assert_eq!(float(a).lt(&float(b)), a < b);
            assert_eq!(float(a).le(&float(b)), a <= b);
            assert_eq!(float(a).same(&float(b)), a == b);
        }
        assert_eq!(float(a).is_finite(), a.is_finite());
        assert_eq!(float(a).is_nan(), a.is_nan());
    }
}
