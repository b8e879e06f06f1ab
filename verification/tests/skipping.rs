use stremio_shell::intro_skip::{
    chapter_keyword_matches, effective_skip_action_for_duration, find_matching_keyword,
    format_error_chain, introdb_header, introdb_segments, introdb_url, is_final_chapter,
    is_plausible_outro, kitsu_movie_answer, kitsu_series_answer, look_up_media, merge_segments,
    next_chapter_command, normalize_introdb_segment, parse_theintrodb_ranges,
    seek_absolute_command, segment_kind_from_chapter_title, theintrodb_header,
    theintrodb_segments, theintrodb_url, wants_theintrodb, ChapterAction, FetchError, Fetched,
    IntroApi, IntroDbSegment, IntroSegment, IntroSkipConfig, KitsuCache, KitsuMeta, KitsuVideo,
    Mark, MediaLookup, Millis, SegmentKind, SegmentsCache, SkipAction, SkipDecision, SkipLoop,
    SkipMoment, SkipSegment, SkipStep, TimeRange, RESOLVE_RETRY_DELAY,
};
use stremio_shell::lobby::LobbyRole;
use stremio_shell::media_id::{
    extract_video_id_from_url, format_media_key, looks_like_imdb_id, parse_video_id, MediaKey,
    ParsedVideoId,
};
use stremio_shell::number::Real;

fn float(x: f64) -> Real {
    Real::from_bits(x.to_bits())
}

fn action(kind: SegmentKind, end: Option<f64>, duration: f64) -> Option<SkipAction> {
    effective_skip_action_for_duration(kind, end.map(float), float(duration), float(duration - 0.5))
}

fn is_seek(action: Option<SkipAction>, to: f64) -> bool {
    matches!(action, Some(SkipAction::Seek(t)) if t == float(to))
}

fn is_next(action: Option<SkipAction>) -> bool {
    matches!(action, Some(SkipAction::NextTrack))
}

fn mark(sec: f64) -> Mark {
    Mark { sec: float(sec), ms: (sec * 1000.0).round() as i64 }
}

fn segment(api: IntroApi, kind: SegmentKind, start: f64, end: Option<f64>) -> SkipSegment {
    SkipSegment { api, kind, segment: IntroSegment { start: mark(start), end: end.map(mark) } }
}

fn config() -> IntroSkipConfig {
    IntroSkipConfig {
        enabled: true,
        skip_intro: true,
        skip_recap: true,
        skip_outro: true,
        chapter_intro_words: vec!["opening".to_string(), "op".to_string()],
        chapter_recap_words: vec!["recap".to_string()],
        chapter_outro_words: vec!["credits".to_string(), "ed".to_string()],
        introdb_api_key: None,
        theintrodb_api_key: None,
    }
}

fn moment(time: f64, duration: f64) -> SkipMoment {
    SkipMoment {
        time: float(time),
        soon: float(time + 1.0),
        just_after: float(time + 0.05),
        duration: float(duration),
        tail: float(duration - 0.5),
        half: float(duration * 0.5),
        paused: false,
        file_loaded: true,
        chapter: -1,
        chapter_count: 0,
        chapter_title: String::new(),
    }
}

fn episode() -> MediaKey {
    MediaKey { imdb_id: "tt0903747".to_string(), season: Some(1), episode: Some(2) }
}

fn movie() -> MediaKey {
    MediaKey { imdb_id: "tt0111161".to_string(), season: None, episode: None }
}

#[test]
fn terminal_outro_advances_without_seeking_to_media_tail() {
    assert!(is_next(action(SegmentKind::Outro, Some(2_835.0), 2_832.121)));
    assert!(is_next(action(SegmentKind::Outro, None, 0.0)));
}

#[test]
fn valid_segment_end_is_preserved() {
    assert!(is_seek(action(SegmentKind::Intro, Some(254.0), 2_832.121), 254.0));
}

#[test]
fn nonterminal_outro_still_seeks_to_its_explicit_end() {
    assert!(is_seek(action(SegmentKind::Outro, Some(90.0), 100.0), 90.0));
}

#[test]
fn invalid_non_outro_end_is_rejected() {
    assert!(action(SegmentKind::Intro, Some(f64::NAN), 0.0).is_none());
    assert!(action(SegmentKind::Recap, None, 100.0).is_none());
    assert!(action(SegmentKind::Intro, Some(101.0), 100.0).is_none());
}

#[test]
fn an_outro_that_ends_with_the_file_leads_to_the_next() {
    assert!(is_next(action(SegmentKind::Outro, Some(99.5), 100.0)));
    assert!(is_seek(action(SegmentKind::Outro, Some(99.4), 100.0), 99.4));
    assert!(is_seek(action(SegmentKind::Intro, Some(99.9), 100.0), 99.9));
    assert!(action(SegmentKind::Outro, Some(-1.0), 100.0).is_none());
    assert!(action(SegmentKind::Outro, Some(f64::INFINITY), 100.0).is_none());
    assert!(is_seek(action(SegmentKind::Outro, Some(5.0), 0.5), 5.0));
}

#[test]
fn final_chapter_detection_uses_zero_based_index() {
    assert!(is_final_chapter(3, 4));
    assert!(!is_final_chapter(2, 4));
    assert!(!is_final_chapter(-1, 0));
}

#[test]
fn short_chapter_keywords_match_whole_tokens_only() {
    assert!(chapter_keyword_matches("op", "op"));
    assert!(chapter_keyword_matches("op - opening theme", "op"));
    assert!(!chapter_keyword_matches("hope", "op"));
    assert!(chapter_keyword_matches("ed 1", "ed"));
    assert!(!chapter_keyword_matches("credits", "ed"));
}

#[test]
fn chapter_titles_name_their_kind() {
    let c = config();
    assert!(matches!(
        segment_kind_from_chapter_title("opening theme", &c),
        Some((SegmentKind::Intro, word)) if word == "opening"
    ));
    assert!(matches!(
        segment_kind_from_chapter_title("the recap", &c),
        Some((SegmentKind::Recap, word)) if word == "recap"
    ));
    assert!(matches!(
        segment_kind_from_chapter_title("end credits", &c),
        Some((SegmentKind::Outro, word)) if word == "credits"
    ));
    assert!(segment_kind_from_chapter_title("chapter 1", &c).is_none());
    assert_eq!(find_matching_keyword("op", &c.chapter_intro_words), Some("op".to_string()));
    assert_eq!(find_matching_keyword("hope", &c.chapter_intro_words), None);
}

#[test]
fn labels_name_kinds_and_sources() {
    assert_eq!(SegmentKind::Intro.label(), "intro");
    assert_eq!(SegmentKind::Recap.label(), "recap");
    assert_eq!(SegmentKind::Outro.label(), "outro");
    assert_ne!(IntroApi::IntroDbApp.label(), IntroApi::TheIntroDb.label());
}

#[test]
fn segments_without_a_start_begin_at_zero() {
    let seg = IntroDbSegment { start: None, end: Some(mark(30.0)) };
    let usable = normalize_introdb_segment(Some(seg), false).unwrap();
    assert_eq!(usable.start.sec, float(0.0));
    assert_eq!(usable.end.unwrap().sec, float(30.0));
}

#[test]
fn backward_and_endless_segments_are_dropped() {
    let backward = IntroDbSegment { start: Some(mark(30.0)), end: Some(mark(30.0)) };
    assert!(normalize_introdb_segment(Some(backward), true).is_none());
    let endless = IntroDbSegment { start: Some(mark(30.0)), end: None };
    assert!(normalize_introdb_segment(Some(endless), false).is_none());
    assert!(normalize_introdb_segment(Some(endless), true).is_some());
    let nowhere = IntroDbSegment { start: Some(Mark { sec: float(f64::NAN), ms: 0 }), end: None };
    assert!(normalize_introdb_segment(Some(nowhere), true).is_none());
    assert!(normalize_introdb_segment(None, true).is_none());
}

#[test]
fn only_wanted_segments_are_taken_from_an_answer() {
    let mut c = config();
    c.skip_recap = false;
    let found = introdb_segments(
        &c,
        Some(IntroDbSegment { start: Some(mark(1.0)), end: Some(mark(2.0)) }),
        Some(IntroDbSegment { start: Some(mark(3.0)), end: Some(mark(4.0)) }),
        Some(IntroDbSegment { start: Some(mark(90.0)), end: None }),
    );
    assert_eq!(found.len(), 2);
    assert_eq!(found[0].kind, SegmentKind::Intro);
    assert_eq!(found[1].kind, SegmentKind::Outro);
    assert!(found[1].segment.end.is_none());
    assert_eq!(found[0].api, IntroApi::IntroDbApp);
}

#[test]
fn credits_are_an_outro() {
    let c = config();
    let range = TimeRange {
        start: Some(Millis { ms: 5000, mark: mark(5.0) }),
        end: Some(Millis { ms: 9000, mark: mark(9.0) }),
    };
    let found = theintrodb_segments(&c, &Vec::new(), &Vec::new(), &vec![range]);
    assert_eq!(found.len(), 1);
    assert_eq!(found[0].kind, SegmentKind::Outro);
    assert_eq!(found[0].api, IntroApi::TheIntroDb);
    assert_eq!(found[0].segment.start.sec, float(5.0));
    assert!(parse_theintrodb_ranges(
        &vec![TimeRange { start: None, end: None }],
        SegmentKind::Intro
    )
    .is_empty());
}

#[test]
fn addresses_of_the_services_name_the_medium() {
    assert_eq!(
        introdb_url(&episode()).unwrap(),
        "https://api.introdb.app/segments?imdb_id=tt0903747&season=1&episode=2"
    );
    assert!(introdb_url(&movie()).is_none());
    assert_eq!(
        theintrodb_url(&movie()),
        "https://api.theintrodb.org/v2/media?imdb_id=tt0111161"
    );
    assert_eq!(
        theintrodb_url(&episode()),
        "https://api.theintrodb.org/v2/media?imdb_id=tt0903747&season=1&episode=2"
    );
}

#[test]
fn keys_are_sent_where_they_are_set() {
    let mut c = config();
    assert_eq!(introdb_header(&c), None);
    assert_eq!(theintrodb_header(&c), None);
    c.introdb_api_key = Some("one".to_string());
    c.theintrodb_api_key = Some("two".to_string());
    assert_eq!(introdb_header(&c), Some("one".to_string()));
    assert_eq!(theintrodb_header(&c), Some("Bearer two".to_string()));
}

#[test]
fn merged_segments_come_in_order() {
    let c = config();
    let first = vec![segment(IntroApi::IntroDbApp, SegmentKind::Intro, 60.0, Some(90.0))];
    let second = vec![
        segment(IntroApi::TheIntroDb, SegmentKind::Recap, 10.0, Some(20.0)),
        segment(IntroApi::TheIntroDb, SegmentKind::Intro, 61.0, Some(91.0)),
    ];
    assert!(wants_theintrodb(&c, &episode(), &first));
    let merged =
        merge_segments(&c, &episode(), Fetched::Segments(first), Fetched::Segments(second))
            .unwrap()
            .unwrap();
    assert_eq!(merged[0].kind, SegmentKind::Recap);
    for i in 1..merged.len() {
        assert!(merged[i - 1].segment.start.sec.le(&merged[i].segment.start.sec));
    }
}

#[test]
fn failures_of_the_services_are_told_apart() {
    let c = config();
    assert!(matches!(
        merge_segments(&c, &movie(), Fetched::Skipped, Fetched::Failed),
        Err(FetchError::TheIntroDb)
    ));
    assert!(matches!(
        merge_segments(&c, &episode(), Fetched::Failed, Fetched::Segments(Vec::new())),
        Err(FetchError::IntroDb)
    ));
}

#[test]
fn credits_in_the_first_half_are_not_an_outro() {
    let early = segment(IntroApi::TheIntroDb, SegmentKind::Outro, 40.0, None);
    let late = segment(IntroApi::TheIntroDb, SegmentKind::Outro, 60.0, None);
    let other = segment(IntroApi::IntroDbApp, SegmentKind::Outro, 40.0, None);
    assert!(!is_plausible_outro(&early, float(100.0), float(50.0)));
    assert!(is_plausible_outro(&late, float(100.0), float(50.0)));
    assert!(is_plausible_outro(&other, float(100.0), float(50.0)));
    assert!(!is_plausible_outro(&late, float(f64::NAN), float(f64::NAN)));
}

#[test]
fn a_segment_is_skipped_once() {
    let c = config();
    let mut skip = SkipLoop::new();
    let url = "https://web.stremio.com/#/player/x/tt0903747%3A1%3A2";
    assert!(matches!(
        skip.step(&c, LobbyRole::Absent, url, 0),
        SkipStep::Resolve(id) if id == "tt0903747:1:2"
    ));
    let intro = segment(IntroApi::IntroDbApp, SegmentKind::Intro, 10.0, Some(40.0));
    skip.resolved(Some(episode()), Some(vec![intro]), 0);
    assert!(matches!(skip.step(&c, LobbyRole::Absent, url, 1), SkipStep::Look));
    assert!(matches!(skip.decide(&c, &moment(5.0, 100.0)), SkipDecision::Nothing));
    match skip.decide(&c, &moment(12.0, 100.0)) {
        SkipDecision::Skip(seg, SkipAction::Seek(to)) => {
            assert_eq!(to, float(40.0));
            skip.segment_skipped(&seg);
        }
        other => panic!("{other:?}"),
    }
    assert!(matches!(skip.decide(&c, &moment(12.0, 100.0)), SkipDecision::Nothing));
}

#[test]
fn guests_leave_skipping_to_the_host() {
    let c = config();
    let mut skip = SkipLoop::new();
    let url = "https://web.stremio.com/#/player/x/tt0903747%3A1%3A2";
    assert!(matches!(skip.step(&c, LobbyRole::Guest, url, 0), SkipStep::Rest));
    let mut off = config();
    off.enabled = false;
    assert!(matches!(skip.step(&off, LobbyRole::Absent, url, 0), SkipStep::Rest));
}

#[test]
fn a_failed_request_is_repeated_later() {
    let c = config();
    let mut skip = SkipLoop::new();
    let url = "https://web.stremio.com/#/player/x/tt0111161";
    assert!(matches!(skip.step(&c, LobbyRole::Absent, url, 0), SkipStep::Resolve(_)));
    skip.resolve_failed(0);
    assert!(matches!(skip.step(&c, LobbyRole::Absent, url, 1), SkipStep::Look));
    assert!(matches!(
        skip.step(&c, LobbyRole::Absent, url, RESOLVE_RETRY_DELAY),
        SkipStep::Resolve(_)
    ));
}

#[test]
fn chapters_are_left_by_their_titles() {
    let c = config();
    let mut skip = SkipLoop::new();
    let mut m = moment(12.0, 100.0);
    m.chapter = 1;
    m.chapter_count = 3;
    m.chapter_title = "Opening".to_string();
    assert_eq!(skip.chapter_action(&c, &m), None);
    let far = segment(IntroApi::IntroDbApp, SegmentKind::Recap, 80.0, Some(90.0));
    skip.resolved(Some(episode()), Some(vec![far]), 0);
    assert_eq!(skip.chapter_action(&c, &m), Some(ChapterAction::NextChapter));
    skip.chapter_skipped(1);
    assert_eq!(skip.chapter_action(&c, &m), None);
    let mut last = moment(95.0, 100.0);
    last.chapter = 2;
    last.chapter_count = 3;
    last.chapter_title = "Credits".to_string();
    assert_eq!(skip.chapter_action(&c, &last), Some(ChapterAction::NextTrack));
}

#[test]
fn commands_for_the_player_are_spelled_out() {
    assert_eq!(next_chapter_command(), r#"["mpv-command",["add","chapter","1"]]"#);
    assert_eq!(seek_absolute_command("40.5"), r#"["mpv-command",["seek","40.5","absolute"]]"#);
    assert_eq!(
        format_error_chain(&vec!["outer".to_string(), "inner".to_string()]),
        "outer: inner"
    );
}

#[test]
fn identifiers_of_videos_are_told_apart() {
    assert!(looks_like_imdb_id("tt0111161"));
    assert!(!looks_like_imdb_id("tt"));
    assert!(!looks_like_imdb_id("kitsu:1"));
    assert!(matches!(
        parse_video_id("tt0903747:1:2"),
        Some(ParsedVideoId::ImdbEpisode { season: 1, episode: 2, .. })
    ));
    assert!(matches!(parse_video_id("tt0111161"), Some(ParsedVideoId::ImdbMovie { .. })));
    assert!(matches!(
        parse_video_id("kitsu:7442:3"),
        Some(ParsedVideoId::KitsuEpisode { kitsu_episode: 3, .. })
    ));
    assert!(matches!(parse_video_id("kitsu:7442"), Some(ParsedVideoId::KitsuMovie { .. })));
    assert!(parse_video_id("nothing").is_none());
    assert_eq!(
        extract_video_id_from_url("https://web.stremio.com/#/player/x/tt0903747%3A1%3A2"),
        Some("tt0903747:1:2".to_string())
    );
}

#[test]
fn media_are_named_with_season_and_episode() {
    assert_eq!(format_media_key(&movie()), "tt0111161");
    assert_eq!(format_media_key(&episode()), "tt0903747 S1E2");
}

#[test]
fn answers_about_kitsu_are_remembered() {
    let mut cache: KitsuCache = KitsuCache::new();
    let url = match look_up_media("kitsu:7442:3", &cache) {
        MediaLookup::KitsuSeries { url, video_id } => {
            assert_eq!(video_id, "kitsu:7442:3");
            url
        }
        other => panic!("{other:?}"),
    };
    assert!(url.contains("7442"));
    let answer = KitsuMeta {
        imdb_id: None,
        videos: vec![KitsuVideo {
            id: "kitsu:7442:3".to_string(),
            imdb_id: Some("tt2560140".to_string()),
            imdb_season: Some(1),
            imdb_episode: Some(3),
        }],
    };
    let media = kitsu_series_answer(&mut cache, "kitsu:7442:3", Some(answer)).unwrap();
    assert_eq!(media.imdb_id, "tt2560140");
    assert!(matches!(
        look_up_media("kitsu:7442:3", &cache),
        MediaLookup::Known(Some(m)) if m.imdb_id == "tt2560140" && m.episode == Some(3)
    ));
}

#[test]
fn kitsu_films_have_their_own_number() {
    let mut cache: KitsuCache = KitsuCache::new();
    assert!(matches!(look_up_media("kitsu:12", &cache), MediaLookup::KitsuMovie { .. }));
    let answer = KitsuMeta { imdb_id: Some("tt0245429".to_string()), videos: Vec::new() };
    let media = kitsu_movie_answer(&mut cache, "kitsu:12", Some(answer)).unwrap();
    assert_eq!(media.imdb_id, "tt0245429");
    assert_eq!(media.season, None);
    assert!(kitsu_movie_answer(&mut cache, "kitsu:13", None).is_none());
}

#[test]
fn fetched_segments_are_kept_by_medium() {
    let mut cache = SegmentsCache::new();
    assert!(cache.get(&movie()).is_none());
    cache.insert(movie(), None);
    assert!(matches!(cache.get(&movie()), Some(None)));
    let seg = segment(IntroApi::IntroDbApp, SegmentKind::Intro, 1.0, Some(2.0));
    cache.insert(movie(), Some(vec![seg]));
    assert!(matches!(cache.get(&movie()), Some(Some(list)) if list.len() == 1));
    assert!(cache.get(&episode()).is_none());
}

#[test]
fn unwanted_kinds_are_left_out() {
    let mut c = config();
    c.skip_intro = false;
    let both = vec![
        segment(IntroApi::TheIntroDb, SegmentKind::Intro, 1.0, Some(2.0)),
        segment(IntroApi::TheIntroDb, SegmentKind::Recap, 3.0, Some(4.0)),
    ];
    let merged = merge_segments(&c, &movie(), Fetched::Skipped, Fetched::Segments(both))
        .unwrap()
        .unwrap();
    assert_eq!(merged.len(), 1);
    assert_eq!(merged[0].kind, SegmentKind::Recap);
    let only_intro = vec![segment(IntroApi::TheIntroDb, SegmentKind::Intro, 1.0, Some(2.0))];
    let nothing =
        merge_segments(&c, &movie(), Fetched::Skipped, Fetched::Segments(only_intro)).unwrap();
    assert!(nothing.is_none());
}

#[test]
fn another_page_starts_anew() {
    let c = config();
    let mut skip = SkipLoop::new();
    let first = "https://web.stremio.com/#/player/x/tt0111161";
    let second = "https://web.stremio.com/#/player/x/tt0903747%3A1%3A2";
    assert!(matches!(skip.step(&c, LobbyRole::Absent, first, 0), SkipStep::Resolve(_)));
    let intro = segment(IntroApi::IntroDbApp, SegmentKind::Intro, 10.0, Some(40.0));
    skip.resolved(Some(movie()), Some(vec![intro]), 0);
    skip.segment_skipped(&intro);
    assert!(matches!(skip.step(&c, LobbyRole::Absent, second, 1), SkipStep::Resolve(_)));
    assert!(skip.skipped.is_empty());
    assert!(skip.segments.is_none());
}

#[test]
fn a_segment_that_is_over_is_passed_by() {
    let c = config();
    let mut skip = SkipLoop::new();
    let intro = segment(IntroApi::IntroDbApp, SegmentKind::Intro, 10.0, Some(40.0));
    skip.resolved(Some(movie()), Some(vec![intro]), 0);
    assert!(matches!(skip.decide(&c, &moment(39.97, 100.0)), SkipDecision::Past(_)));
    assert!(matches!(skip.decide(&c, &moment(40.5, 100.0)), SkipDecision::Nothing));
    let mut paused = moment(12.0, 100.0);
    paused.paused = true;
    assert!(matches!(skip.decide(&c, &paused), SkipDecision::Nothing));
}
