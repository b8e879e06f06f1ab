use stremio_shell::json::{parse_json, Json};
use stremio_shell::number::Real;
use stremio_shell::playback::{
    is_cached_immediate_property, normalize_property_value_for_web, prop_val_to_json,
    property_data_to_json, Format, Playback, PropVal, PropertyData,
};
use stremio_shell::player::{
    display_output_mode, has_passed, video_filter_scale, Clock, DisplayOutputMode,
    DisplayOutputState, EndReason, InMsg, PlayerAction, PlayerController, Purpose,
    DISPLAY_REFRESH_INTERVAL, LOADFILE_START_TIMEOUT, LOCAL_STREAM_STARTUP_RETRY_DELAY,
    LOCAL_STREAM_STARTUP_RETRY_LIMIT,
    MPV_COMMAND_REPLY_TIMEOUT, STOP_TIMEOUT, SURFACE_ORDER_REFRESH_INTERVAL,
};
use stremio_shell::player_rules::{
    binding_sequence_parts, bound_keys, cache_busted_loadfile_cmd, cache_busted_url_at,
    drop_start_options, is_active_user_binding, is_local_stream_url,
    is_unchanged_persistent_render_property, loadfile_url, query_and_set_bound_keys, sanitize_loadfile_start,
    should_defer_property, should_retry_startup_failure_event, start_candidates,
    with_gpu_next_fallback, CmdVal, InputBinding, LoadState, StartHint,
};

const LOCAL: &str = "http://127.0.0.1:11470/hash/3";

fn float(x: f64) -> Real {
    Real::from_bits(x.to_bits())
}

fn text(s: &str) -> PropVal {
    PropVal::Str(s.to_string())
}

fn command(name: &str, args: &[&str]) -> CmdVal {
    CmdVal { name: name.to_string(), args: args.iter().map(|a| a.to_string()).collect() }
}

fn no_hint() -> StartHint {
    StartHint { start: None, distance: float(f64::NAN) }
}

fn controller() -> PlayerController {
    PlayerController::new(float(100.0))
}

fn send(c: &mut PlayerController, cmd: CmdVal, now: u64) {
    c.handle_in_msg(InMsg::Command { cmd, hint: no_hint() }, now);
}

/// The commands among the actions that wait, each accepted by the player.
fn accept_commands(c: &mut PlayerController) -> Vec<(u64, CmdVal, Purpose)> {
    let mut sent = Vec::new();
    for action in c.take_actions() {
        if let PlayerAction::Command { request_id, cmd, purpose } = action {
            c.on_submission(request_id, purpose, true);
            sent.push((request_id, cmd, purpose));
        }
    }
    sent
}

#[test]
fn cache_buster_adds_query_to_plain_stream_url() {
    assert_eq!(
        cache_busted_url_at("http://127.0.0.1:11470/hash/3", 42),
        "http://127.0.0.1:11470/hash/3?_reload=42"
    );
}

#[test]
fn cache_buster_replaces_only_its_own_query_parameter() {
    assert_eq!(
        cache_busted_url_at(
            "http://127.0.0.1:11470/hash/3?tr=tracker%3Audp%3A%2F%2Fhost&_reload=1",
            42,
        ),
        "http://127.0.0.1:11470/hash/3?tr=tracker%3Audp%3A%2F%2Fhost&_reload=42"
    );
}

#[test]
fn reloading_twice_keeps_one_mark() {
    let once = cache_busted_url_at(LOCAL, 1);
    assert_eq!(cache_busted_url_at(&once, 2), cache_busted_url_at(LOCAL, 2));
    assert_eq!(cache_busted_url_at("not a url", 42), "not a url?_reload=42");
    assert_eq!(cache_busted_url_at("not a url?a=b", 42), "not a url?a=b&_reload=42");
}

#[test]
fn a_second_mark_replaces_the_first() {
    for url in [
        LOCAL,
        "HTTP://Host:80/a/../b?x=1&_reload=9&y=%20#frag",
        "http://host/?_reload=1&_reload=2",
        "stremio://host",
        "foo:/.//p?&&=&a",
        "foo:/a/..//p",
        "data:a   ?x",
        "data:a   #f",
        "mailto:me",
        "http://b\u{fc}cher.example/\u{e9}?\u{e9}=+%2B",
        "ws://[::1]:9/%2e%2E/x\\y",
        "file:///C:/a",
        "FILE:///a",
        "file://localhost/a?x",
        "file:C|",
        "foo:/..//",
        "foo:////x",
        "foo://u:@h:/..",
        "data:a ?#f ",
        "http://:@h:080\\..\\a?_reload",
        "file:///a//b?x",
    ] {
        let once = cache_busted_url_at(url, 1);
        assert_eq!(cache_busted_url_at(&once, 2), cache_busted_url_at(url, 2), "{url}");
        let first = url::Url::parse(url).unwrap();
        let again = url::Url::parse(first.as_str()).unwrap();
        assert_eq!(first.as_str(), again.as_str());
        assert_eq!(first.host(), again.host());
        assert_eq!(first.port_or_known_default(), again.port_or_known_default());
        assert_eq!(first.path(), again.path());
        assert!(first.query_pairs().eq(again.query_pairs()));
        let parsed = url::Url::parse(&once).unwrap();
        let mut expected: Vec<(String, String)> = url::Url::parse(url)
            .unwrap()
            .query_pairs()
            .into_owned()
            .filter(|(name, _)| name != "_reload")
            .collect();
        expected.push(("_reload".to_string(), "1".to_string()));
        let pairs: Vec<(String, String)> = parsed.query_pairs().into_owned().collect();
        assert_eq!(pairs, expected, "{url}");
    }
}

#[test]
fn input_binding_sequences_are_split_like_mpv() {
    assert_eq!(binding_sequence_parts("a-b-c"), ["a", "b", "c"]);
    assert_eq!(binding_sequence_parts("-"), ["-"]);
    assert_eq!(binding_sequence_parts("Ctrl+-"), ["Ctrl+-"]);
    assert_eq!(binding_sequence_parts("Ctrl+--a"), ["Ctrl+-", "a"]);
}

#[test]
fn only_active_user_input_bindings_are_forwarded() {
    assert!(is_active_user_binding(false, 0));
    assert!(is_active_user_binding(false, 10));
    assert!(!is_active_user_binding(true, 10));
    assert!(!is_active_user_binding(false, -1));
}

#[test]
fn bound_keys_are_those_of_active_bindings() {
    let bindings = vec![
        InputBinding { key: Some("a-b".to_string()), is_weak: false, priority: 1 },
        InputBinding { key: Some("q".to_string()), is_weak: true, priority: 1 },
        InputBinding { key: None, is_weak: false, priority: 1 },
        InputBinding { key: Some("b".to_string()), is_weak: false, priority: 0 },
    ];
    let bound = bound_keys(&bindings);
    let mut keys = bound.keys.clone();
    keys.sort();
    assert_eq!(keys, ["a", "b"]);
    assert!(bound.has_sequences);
    assert!(!bound_keys(&Vec::new()).has_sequences);
}

#[test]
fn unreadable_bindings_change_nothing() {
    let binding = |key: &str| InputBinding {
        key: Some(key.to_string()),
        is_weak: false,
        priority: 1,
    };
    let mut bound = bound_keys(&vec![binding("a-b")]);
    assert!(!query_and_set_bound_keys(None, &mut bound));
    assert_eq!(bound.keys, ["a", "b"]);
    assert!(bound.has_sequences);
    assert!(query_and_set_bound_keys(Some(&vec![binding("c")]), &mut bound));
    assert_eq!(bound.keys, ["c"]);
    assert!(!bound.has_sequences);
}

#[test]
fn global_properties_apply_before_loading() {
    for property in ["vo", "hwdec", "pause", "volume", "mute", "speed"] {
        assert!(!should_defer_property(LoadState::Idle, property));
        assert!(!should_defer_property(LoadState::Loading, property));
    }
}

#[test]
fn global_properties_wait_for_an_active_stop() {
    for property in ["vo", "hwdec", "pause", "volume", "mute", "speed"] {
        assert!(should_defer_property(LoadState::Stopping, property));
    }
}

#[test]
fn repeated_render_setup_is_coalesced_without_coalescing_playback_controls() {
    let mut c = controller();
    c.persistent_render_properties.insert("vo".to_string(), text("gpu-next,gpu,"));
    c.persistent_render_properties.insert("pause".to_string(), PropVal::Bool(false));
    let properties = &c.persistent_render_properties;

    assert!(is_unchanged_persistent_render_property(
        properties,
        "vo",
        &PropVal::Str("gpu-next,gpu,".to_string()),
    ));
    assert!(!is_unchanged_persistent_render_property(
        properties,
        "vo",
        &PropVal::Str("gpu,".to_string()),
    ));
    assert!(!is_unchanged_persistent_render_property(
        properties,
        "pause",
        &PropVal::Bool(false),
    ));
}

#[test]
fn track_selection_waits_for_file_loaded() {
    for property in ["sid", "aid", "vid"] {
        assert!(should_defer_property(LoadState::Idle, property));
        assert!(should_defer_property(LoadState::Loading, property));
        assert!(should_defer_property(LoadState::Stopping, property));
        assert!(!should_defer_property(LoadState::Loaded, property));
    }
}

#[test]
fn startup_recovery_requires_a_started_local_load() {
    assert!(should_retry_startup_failure_event(
        LoadState::Loading,
        true,
        Some((true, false)),
    ));
    assert!(!should_retry_startup_failure_event(
        LoadState::Loading,
        true,
        Some((false, false)),
    ));
    assert!(!should_retry_startup_failure_event(
        LoadState::Loaded,
        true,
        Some((true, true)),
    ));
    assert!(!should_retry_startup_failure_event(
        LoadState::Loading,
        false,
        Some((true, false)),
    ));
}

#[test]
fn async_property_replies_preserve_structured_video_params() {
    assert_eq!(
        property_data_to_json(
            "video-params",
            &PropertyData::Str(r#"{"h":1080}"#.to_string())
        ),
        parse_json(r#"{ "h": 1080 }"#)
    );
    assert_eq!(
        property_data_to_json("duration", &PropertyData::Double(float(f64::NAN))),
        None
    );
}

#[test]
fn json_documents_are_read() {
    let json = parse_json(r#"{"a":[1,-2,2.5,"x\n",true,null]}"#).unwrap();
    let items = json.get("a").unwrap().as_array().unwrap();
    assert_eq!(items[0].as_u64(), Some(1));
    assert_eq!(items[1].as_u64(), None);
    assert_eq!(items[1].as_i64(), Some(-2));
    assert_eq!(items[2].as_real(), Some(float(2.5)));
    assert_eq!(items[3].as_text().unwrap(), "x\n");
    assert_eq!(items[4].as_bool(), Some(true));
    assert_eq!(items[5], Json::Null);
    assert!(json.get("b").is_none());
    assert!(parse_json("{").is_none());
    assert_eq!(json.duplicate(), json);
}

#[test]
fn properties_are_told_to_the_web_in_its_form() {
    assert_eq!(prop_val_to_json(&PropVal::Bool(true)), Json::Bool(true));
    assert_eq!(prop_val_to_json(&PropVal::Num(float(f64::INFINITY))), Json::Null);
    assert_eq!(
        normalize_property_value_for_web("mute", &Json::Text("yes".to_string())),
        Json::Bool(true)
    );
    assert_eq!(
        normalize_property_value_for_web("mute", &Json::Text("no".to_string())),
        Json::Bool(false)
    );
    assert_eq!(
        normalize_property_value_for_web("path", &Json::Text("yes".to_string())),
        Json::Text("yes".to_string())
    );
    assert!(is_cached_immediate_property("mpv-version"));
    assert!(!is_cached_immediate_property("video-params"));
}

#[test]
fn noted_values_come_back() {
    let mut p = Playback::new(float(50.0));
    p.cache_property_value("mpv-version", &Json::Text("mpv 0.38".to_string()));
    assert_eq!(
        p.cached_property_value("mpv-version"),
        Some(Json::Text("mpv 0.38".to_string()))
    );
    p.clear_file_scoped_cached_props();
    assert_eq!(
        p.cached_property_value("mpv-version"),
        Some(Json::Text("mpv 0.38".to_string()))
    );
    assert_eq!(p.cached_property_value("video-params"), None);
}

#[test]
fn the_height_of_the_video_is_known_from_its_parameters() {
    let mut p = Playback::new(float(50.0));
    assert_eq!(p.current_video_height(), None);
    p.cache_property_value("video-params", &parse_json(r#"{"h":1080}"#).unwrap());
    assert_eq!(p.current_video_height(), Some(float(1080.0)));
}

#[test]
fn a_volume_that_the_player_reports_is_saved() {
    let mut p = Playback::new(float(50.0));
    assert_eq!(
        p.update_cached_property("volume", &PropertyData::Double(float(75.0))),
        Some(float(75.0))
    );
    assert_eq!(p.current_volume, float(75.0));
    assert_eq!(p.update_cached_property("pause", &PropertyData::Flag(true)), None);
    assert!(p.is_paused);
}

#[test]
fn local_streams_are_recognised() {
    assert!(is_local_stream_url("http://127.0.0.1:11470/x"));
    assert!(!is_local_stream_url("http://example.com/x"));
}

#[test]
fn both_gpu_outputs_are_offered() {
    let once = with_gpu_next_fallback("gpu-next,");
    assert!(once.contains("gpu-next"));
    assert!(once.split(',').any(|o| o == "gpu"));
    assert_eq!(with_gpu_next_fallback(&once), once);
    assert_eq!(with_gpu_next_fallback("sdl"), "sdl,");
    assert_eq!(with_gpu_next_fallback(""), "gpu-next,gpu,");
}

#[test]
fn a_start_that_is_left_over_is_dropped() {
    let cmd = command("loadfile", &[LOCAL, "replace", "0", "start=+120,vo=gpu"]);
    let hint = StartHint { start: Some(float(120.0)), distance: float(1.0) };
    let (clean, start) =
        sanitize_loadfile_start(cmd.clone(), hint, "http://127.0.0.1:11470/old/1", float(121.0));
    assert_eq!(start, None);
    assert_eq!(clean.args.last().unwrap(), "vo=gpu");
    let (kept, start) = sanitize_loadfile_start(cmd, hint, "", float(121.0));
    assert_eq!(start, Some(float(120.0)));
    assert_eq!(kept.args.last().unwrap(), "start=+120,vo=gpu");
    assert_eq!(drop_start_options("start=5,a=b"), "a=b");
    assert_eq!(drop_start_options("start=5"), "");
}

#[test]
fn the_start_is_read_from_the_options() {
    let cmd = command("loadfile", &[LOCAL, "replace", "0", "vo=gpu,start=+12.5"]);
    let found = start_candidates(&cmd);
    assert!(found.iter().any(|s| s.ends_with("12.5")));
    assert!(start_candidates(&command("stop", &[])).is_empty());
}

#[test]
fn a_load_command_names_its_stream() {
    let cmd = command("loadfile", &[LOCAL, "replace"]);
    assert_eq!(loadfile_url(&cmd), Some(LOCAL.to_string()));
    assert_eq!(loadfile_url(&command("stop", &[])), None);
    let fresh = cache_busted_loadfile_cmd(cmd, 7);
    assert_eq!(fresh.args[0], "http://127.0.0.1:11470/hash/3?_reload=7");
    assert_eq!(fresh.args[1], "replace");
}

#[test]
fn a_load_command_goes_to_an_idle_player() {
    let mut c = controller();
    send(&mut c, command("loadfile", &[LOCAL, "replace"]), 0);
    let sent = accept_commands(&mut c);
    assert!(sent.iter().any(|(_, cmd, purpose)| cmd.name == "loadfile"
        && *purpose == Purpose::Load
        && cmd.args[0] == LOCAL));
    assert_eq!(c.state, LoadState::Loading);
    assert_eq!(c.current_url, LOCAL);
}

#[test]
fn a_load_waits_for_a_stop() {
    let mut c = controller();
    send(&mut c, command("loadfile", &[LOCAL, "replace"]), 0);
    accept_commands(&mut c);
    c.on_start_file();
    c.on_file_loaded();
    assert_eq!(c.state, LoadState::Loaded);
    send(&mut c, command("stop", &[]), 1);
    let stops = accept_commands(&mut c);
    assert_eq!(stops.iter().filter(|(_, cmd, _)| cmd.name == "stop").count(), 1);
    assert_eq!(c.state, LoadState::Stopping);
    send(&mut c, command("stop", &[]), 2);
    assert!(accept_commands(&mut c).iter().all(|(_, cmd, _)| cmd.name != "stop"));
    send(&mut c, command("loadfile", &["http://127.0.0.1:11470/other/1", "replace"]), 3);
    assert!(accept_commands(&mut c).iter().all(|(_, cmd, _)| cmd.name != "loadfile"));
    c.handle_end_file(
        EndReason::Stop,
        float(f64::NAN),
        Clock { now: 4, unix_millis: 0 },
    );
    let loads = accept_commands(&mut c);
    assert!(loads.iter().any(|(_, cmd, _)| cmd.name == "loadfile"
        && cmd.args[0] == "http://127.0.0.1:11470/other/1"));
}

#[test]
fn a_stop_without_an_answer_is_given_up() {
    let mut c = controller();
    send(&mut c, command("loadfile", &[LOCAL, "replace"]), 0);
    accept_commands(&mut c);
    c.on_start_file();
    c.on_file_loaded();
    send(&mut c, command("stop", &[]), 0);
    accept_commands(&mut c);
    c.flush_stale_stop(STOP_TIMEOUT - 1);
    assert_eq!(c.state, LoadState::Stopping);
    c.flush_stale_stop(STOP_TIMEOUT);
    assert_ne!(c.state, LoadState::Stopping);
}

#[test]
fn properties_of_the_file_wait_for_it() {
    let mut c = controller();
    c.handle_in_msg(InMsg::SetProp { name: "sid".to_string(), value: text("1") }, 0);
    assert_eq!(c.pending_startup_props.len(), 1);
    assert!(c.take_actions().iter().all(|a| !matches!(a, PlayerAction::SetProperty { .. })));
    c.handle_in_msg(InMsg::SetProp { name: "sid".to_string(), value: text("2") }, 0);
    assert_eq!(c.pending_startup_props.len(), 1);
    send(&mut c, command("loadfile", &[LOCAL, "replace"]), 1);
    accept_commands(&mut c);
    c.on_start_file();
    c.on_file_loaded();
    let set: Vec<PropVal> = c
        .take_actions()
        .into_iter()
        .filter_map(|a| match a {
            PlayerAction::SetProperty { name, value, .. } if name == "sid" => Some(value),
            _ => None,
        })
        .collect();
    assert_eq!(set.len(), 1);
    assert!(set[0].same(&text("2")));
}

#[test]
fn render_setup_is_sent_once() {
    let mut c = controller();
    let setup = |c: &mut PlayerController| {
        c.handle_in_msg(InMsg::SetProp { name: "hwdec".to_string(), value: text("auto") }, 0);
        let mut count = 0;
        for action in c.take_actions() {
            if let PlayerAction::SetProperty { name, value, notify, remember, refresh, .. } = action
            {
                count += 1;
                c.on_property_set(name, value, notify, remember, refresh, true);
            }
        }
        count
    };
    assert_eq!(setup(&mut c), 1);
    assert_eq!(setup(&mut c), 0);
}

#[test]
fn a_local_stream_that_fails_to_start_is_tried_again() {
    let mut c = controller();
    send(&mut c, command("loadfile", &[LOCAL, "replace"]), 0);
    accept_commands(&mut c);
    c.on_start_file();
    let clock = Clock { now: 10, unix_millis: 99 };
    c.handle_end_file(EndReason::Error, float(f64::NAN), clock);
    assert!(c.take_actions().iter().all(|a| !matches!(a, PlayerAction::Ended(_))));
    assert_eq!(c.startup_retry_attempts, 1);
    c.flush_pending_startup_retry(10 + LOCAL_STREAM_STARTUP_RETRY_DELAY);
    let loads = accept_commands(&mut c);
    assert!(loads
        .iter()
        .any(|(_, cmd, _)| cmd.args[0] == "http://127.0.0.1:11470/hash/3?_reload=99"));
}

#[test]
fn a_remote_stream_that_fails_is_reported() {
    let mut c = controller();
    send(&mut c, command("loadfile", &["http://example.com/a", "replace"]), 0);
    accept_commands(&mut c);
    c.on_start_file();
    c.handle_end_file(EndReason::Error, float(f64::NAN), Clock { now: 1, unix_millis: 0 });
    assert!(c
        .take_actions()
        .iter()
        .any(|a| matches!(a, PlayerAction::Ended(EndReason::Error))));
}

#[test]
fn a_new_controller_knows_of_nothing() {
    let p = controller().playback;
    assert!(!p.is_paused && !p.is_file_loaded && !p.stop_command_in_flight);
    assert_eq!(p.file_load_epoch, 0);
    assert_eq!((p.current_chapter, p.current_chapter_count), (-1, 0));
    assert_eq!((p.current_time, p.total_duration), (float(0.0), float(0.0)));
    assert_eq!(p.current_volume, float(100.0));
}

#[test]
fn an_end_without_a_name_is_reported() {
    let mut c = controller();
    send(&mut c, command("loadfile", &["http://example.com/a", "replace"]), 0);
    accept_commands(&mut c);
    c.on_start_file();
    c.on_file_loaded();
    c.take_actions();
    c.handle_end_file(EndReason::Other, float(f64::NAN), Clock { now: 1, unix_millis: 0 });
    assert!(c
        .take_actions()
        .iter()
        .any(|a| matches!(a, PlayerAction::Ended(EndReason::Other))));
}

#[test]
fn a_local_stream_that_ends_early_is_loaded_again_once() {
    let mut c = controller();
    send(&mut c, command("loadfile", &[LOCAL, "replace"]), 0);
    accept_commands(&mut c);
    c.on_start_file();
    c.on_file_loaded();
    c.take_actions();
    c.playback.total_duration = float(100.0);
    c.playback.current_time = float(40.0);
    let clock = Clock { now: 1, unix_millis: 5 };
    c.handle_end_file(EndReason::Eof, float(90.0), clock);
    let loads = accept_commands(&mut c);
    assert!(loads
        .iter()
        .any(|(_, cmd, _)| cmd.args[0] == "http://127.0.0.1:11470/hash/3?_reload=5"));
    assert_eq!(c.premature_eof_reloads, 1);
}

#[test]
fn a_load_without_a_start_is_given_up() {
    let mut c = controller();
    send(&mut c, command("loadfile", &["http://example.com/a", "replace"]), 0);
    let sent = accept_commands(&mut c);
    c.on_command_reply(sent.last().unwrap().0, 0);
    c.flush_stale_loadfile(Clock { now: LOADFILE_START_TIMEOUT - 1, unix_millis: 0 });
    assert!(c.active_loadfile.is_some());
    c.take_actions();
    c.flush_stale_loadfile(Clock { now: LOADFILE_START_TIMEOUT, unix_millis: 77 });
    let sent = accept_commands(&mut c);
    assert!(sent.iter().any(|(_, cmd, _)| cmd.name == "stop"));
    assert_eq!(c.state, LoadState::Idle);
    assert!(c.active_loadfile.is_none());
}

#[test]
fn a_load_without_a_reply_is_repeated() {
    let mut c = controller();
    send(&mut c, command("loadfile", &[LOCAL, "replace"]), 0);
    accept_commands(&mut c);
    c.flush_stale_loadfile(Clock { now: MPV_COMMAND_REPLY_TIMEOUT, unix_millis: 77 });
    assert_eq!(c.command_queue_recoveries, 1);
    let sent = accept_commands(&mut c);
    assert!(sent.iter().any(|(_, cmd, _)| cmd.name == "loadfile"
        && cmd.args[0] == "http://127.0.0.1:11470/hash/3?_reload=77"));
}

#[test]
fn observed_properties_are_known() {
    let mut c = controller();
    c.handle_in_msg(
        InMsg::ObserveProp { name: "pause".to_string(), format: Format::Flag },
        0,
    );
    assert!(c
        .take_actions()
        .iter()
        .any(|a| matches!(a, PlayerAction::Observe { name, .. } if name == "pause")));
    c.on_property_change("pause", &PropertyData::Flag(true));
    assert!(c.playback.is_paused);
}

#[test]
fn answers_of_the_player_are_handed_on() {
    let mut c = controller();
    c.on_property_reply("duration", &PropertyData::Double(float(0.0)));
    assert!(c.take_actions().is_empty());
    c.on_property_reply("duration", &PropertyData::Double(float(90.0)));
    assert!(matches!(
        c.take_actions().as_slice(),
        [PlayerAction::Emit { name, .. }] if name == "duration"
    ));
    c.on_property_reply("mute", &PropertyData::Str("yes".to_string()));
    assert!(matches!(
        c.take_actions().as_slice(),
        [PlayerAction::Emit { data: Json::Bool(true), .. }]
    ));
    c.on_property_reply("speed", &PropertyData::Int64(2, float(2.0)));
    assert!(matches!(
        c.take_actions().as_slice(),
        [PlayerAction::Emit { data: Json::Number(n), .. }] if n.signed == Some(2)
    ));
}

#[test]
fn the_shell_observes_what_it_needs() {
    let mut c = controller();
    c.observe_own_properties();
    let actions = c.take_actions();
    assert_eq!(actions.len(), 6);
    assert!(actions.iter().any(|a| matches!(
        a,
        PlayerAction::Observe { name, format: Format::Double } if name == "time-pos"
    )));
    c.handle_in_msg(
        InMsg::ObserveProp { name: "time-pos".to_string(), format: Format::Double },
        0,
    );
    assert!(c.take_actions().is_empty());
}

#[test]
fn the_same_display_is_left_alone() {
    let mut c = controller();
    let state = DisplayOutputState { mode: DisplayOutputMode::Sdr, scale_percent: 100 };
    c.apply_display_output_mode(state);
    assert!(!c.take_actions().is_empty());
    c.apply_display_output_mode(state);
    assert!(c.take_actions().is_empty());
    assert_eq!(display_output_mode(Some(true)), DisplayOutputMode::Hdr);
    assert_eq!(display_output_mode(Some(false)), DisplayOutputMode::Sdr);
    assert_eq!(display_output_mode(None), DisplayOutputMode::Auto);
}

#[test]
fn small_videos_are_scaled_up() {
    let low = Some(float(720.0));
    let high = Some(float(1080.0));
    assert_eq!(video_filter_scale(true, low, high, 150), 150);
    assert_eq!(video_filter_scale(false, low, high, 150), 100);
    assert_eq!(video_filter_scale(true, high, low, 150), 100);
    assert_eq!(video_filter_scale(true, None, high, 150), 100);
    assert_eq!(video_filter_scale(true, Some(float(0.0)), high, 150), 100);
}

#[test]
fn refreshes_keep_their_distance() {
    let mut c = controller();
    assert!(!c.display_refresh_due(5));
    c.state = LoadState::Loaded;
    assert!(c.display_refresh_due(5));
    assert!(!c.display_refresh_due(5 + DISPLAY_REFRESH_INTERVAL - 1));
    assert!(c.display_refresh_due(5 + DISPLAY_REFRESH_INTERVAL));
    assert!(c.surface_refresh_due(5));
    assert!(!c.surface_refresh_due(5 + SURFACE_ORDER_REFRESH_INTERVAL - 1));
    assert!(c.surface_refresh_due(5 + SURFACE_ORDER_REFRESH_INTERVAL));
    assert!(has_passed(5, 15, 10));
    assert!(!has_passed(5, 14, 10));
}

#[test]
fn attempts_come_to_an_end() {
    let mut c = controller();
    send(&mut c, command("loadfile", &[LOCAL, "replace"]), 0);
    accept_commands(&mut c);
    let mut now: u64 = 0;
    for attempt in 1..=LOCAL_STREAM_STARTUP_RETRY_LIMIT {
        c.on_start_file();
        c.handle_end_file(
            EndReason::Error,
            float(f64::NAN),
            Clock { now, unix_millis: u128::from(attempt) },
        );
        assert_eq!(c.startup_retry_attempts, attempt);
        now += LOCAL_STREAM_STARTUP_RETRY_DELAY;
        c.flush_pending_startup_retry(now);
        accept_commands(&mut c);
    }
    c.on_start_file();
    c.handle_end_file(EndReason::Error, float(f64::NAN), Clock { now, unix_millis: 99 });
    assert_eq!(c.startup_retry_attempts, LOCAL_STREAM_STARTUP_RETRY_LIMIT);
    assert!(c
        .take_actions()
        .iter()
        .any(|a| matches!(a, PlayerAction::Ended(EndReason::Error))));
}

#[test]
fn global_properties_are_set_after_a_stop() {
    let mut c = controller();
    send(&mut c, command("loadfile", &[LOCAL, "replace"]), 0);
    accept_commands(&mut c);
    c.on_start_file();
    c.on_file_loaded();
    send(&mut c, command("stop", &[]), 1);
    let stop = accept_commands(&mut c).pop().unwrap().0;
    c.handle_in_msg(InMsg::SetProp { name: "volume".to_string(), value: PropVal::Num(float(5.0)) }, 2);
    c.handle_in_msg(InMsg::SetProp { name: "sid".to_string(), value: text("1") }, 2);
    assert_eq!(c.pending_startup_props.len(), 2);
    c.take_actions();
    c.on_command_reply(stop, 3);
    assert_eq!(c.state, LoadState::Idle);
    assert_eq!(c.pending_startup_props.len(), 1);
    assert_eq!(c.pending_startup_props[0].0, "sid");
    assert!(c
        .take_actions()
        .iter()
        .any(|a| matches!(a, PlayerAction::SetProperty { name, .. } if name == "volume")));
}

#[test]
fn values_of_a_file_are_forgotten_with_it() {
    let mut p = Playback::new(float(50.0));
    p.cache_property_value("video-params", &parse_json(r#"{"h":720}"#).unwrap());
    p.cache_property_value("sid", &Json::Text("2".to_string()));
    p.cache_property_value("speed", &parse_json("2.0").unwrap());
    p.clear_file_scoped_cached_props();
    assert_eq!(p.current_video_height(), None);
    assert_eq!(p.cached_property_value("sid"), Some(Json::Text("no".to_string())));
    assert_eq!(p.cached_property_value("speed"), parse_json("2.0"));
    let once = normalize_property_value_for_web("mute", &Json::Text("1".to_string()));
    assert_eq!(normalize_property_value_for_web("mute", &once), once);
}
