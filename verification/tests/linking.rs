use stremio_shell::json::{parse_json, quote_json, Json};
use stremio_shell::lobby::LobbyRole;
use stremio_shell::player_rules::BoundKeys;
use stremio_shell::requests::{
    auto_host_lobby, handle_request, mpv_arguments, mpv_paths, route_link, setup_arguments,
    webui_address, DiscordActivity, Link, Request,
};
use stremio_shell::server::{
    advertised_endpoint, endpoint_for_port, local_runtime_endpoint, log_tail, text_lines,
    ServerOutput,
};
use stremio_shell::updater::{
    check_download, downloaded_update, latest_release, select_installer, target_arch_suffix, GitHubAsset,
    GitHubRelease, ReleaseSource, UpdateError, UpdateStep, Updater,
};
use stremio_shell::webview::{
    accelerator_pressed, app_command, browser_reserved_mpv_key_with_modifiers,
    build_mpv_keydown_script, dropped_file, is_key_bound, link_for, mpv_keypress_message, new_window_link,
    script_message, sort_message, AcceleratorStep, Modifiers, WebMessage, KEY_F, KEY_F7, KEY_G,
};

const PAGE: &str = "https://web.stremio.com/#/player/x";

fn request(method: &str, params: Option<&str>) -> Request {
    request_as(method, params, LobbyRole::Absent, "")
}

fn request_as(method: &str, params: Option<&str>, role: LobbyRole, command: &str) -> Request {
    let params: Option<Json> = params.map(|p| parse_json(p).unwrap());
    handle_request(&Some(method.to_string()), params.as_ref(), false, role, command)
}

fn bound() -> BoundKeys {
    BoundKeys {
        keys: vec!["q".to_string(), "Ctrl+f".to_string(), "F7".to_string()],
        has_sequences: true,
    }
}

fn held(shift: bool, ctrl: bool) -> Modifiers {
    Modifiers { shift, ctrl, alt: false, meta: false }
}

fn asset(name: &str, url: &str) -> GitHubAsset {
    GitHubAsset { name: name.to_string(), browser_download_url: url.to_string() }
}

fn release(tag: &str, prerelease: bool) -> GitHubRelease {
    GitHubRelease {
        tag_name: tag.to_string(),
        prerelease,
        assets: vec![
            asset("StremioSetup-v1.2.3_x64.exe", "https://example.com/x64.exe"),
            asset("StremioSetup-v1.2.3_arm64.exe", "https://example.com/arm64.exe"),
        ],
    }
}

fn updater(current: &str) -> Updater {
    Updater::new(current.to_string(), "https://example.com/releases", false, true)
}

fn newer(current: &str, candidate: &str) -> bool {
    matches!(
        updater(current).judge_any(&release(candidate, false), "x64"),
        Ok(UpdateStep::Install(_))
    )
}

#[test]
fn child_runtime_endpoint_uses_loopback() {
    assert_eq!(
        local_runtime_endpoint("http://192.168.0.2:11470"),
        "http://127.0.0.1:11470"
    );
}

#[test]
fn child_runtime_endpoint_uses_only_the_advertised_port() {
    assert_eq!(
        local_runtime_endpoint("http://10.0.0.5:11471/base/"),
        "http://127.0.0.1:11471"
    );
}

#[test]
fn invalid_child_runtime_endpoint_is_unchanged() {
    assert_eq!(local_runtime_endpoint("not a url"), "not a url");
}

#[test]
fn known_ports_need_not_be_said() {
    assert_eq!(local_runtime_endpoint("https://example.com/"), "http://127.0.0.1:443");
    assert_eq!(local_runtime_endpoint("stremio://host/"), "stremio://host");
    assert_eq!(endpoint_for_port("x//", None), "x");
    assert_eq!(endpoint_for_port("x", Some(80)), "http://127.0.0.1:80");
}

#[test]
fn the_server_is_announced_once() {
    let mut output = ServerOutput::new();
    assert_eq!(output.on_output_line("starting\n", 10), None);
    assert_eq!(
        output.on_output_line("EngineFS server started at http://192.168.0.2:11470\n", 10),
        Some("http://127.0.0.1:11470".to_string())
    );
    assert_eq!(
        output.on_output_line("EngineFS server started at http://192.168.0.2:11471\n", 10),
        None
    );
    output.on_error_output("oops", 10);
    assert!(output.lines.ends_with("oops"));
    assert_eq!(advertised_endpoint("other"), None);
}

#[test]
fn only_the_end_of_the_output_is_kept() {
    assert_eq!(log_tail("a\nb\nc\n", 2), "b\nc");
    assert_eq!(log_tail("a\nb", 5), "a\nb");
    assert_eq!(log_tail("a\nb", 0), "");
    assert_eq!(text_lines("a\r\n\nb\r"), ["a", "", "b\r"]);
    assert!(text_lines("").is_empty());
}

#[test]
fn browser_reserved_shortcuts_use_mpv_normalization() {
    assert_eq!(
        browser_reserved_mpv_key_with_modifiers(0x46, false, true, false, false),
        Some("Ctrl+f".to_string())
    );
    assert_eq!(
        browser_reserved_mpv_key_with_modifiers(0x46, true, true, false, false),
        Some("Ctrl+F".to_string())
    );
    assert_eq!(
        browser_reserved_mpv_key_with_modifiers(KEY_F7, true, true, false, false,),
        Some("Shift+Ctrl+F7".to_string())
    );
}

#[test]
fn other_keys_have_no_reserved_name() {
    assert_eq!(browser_reserved_mpv_key_with_modifiers(0x41, false, true, false, false), None);
    assert_eq!(
        browser_reserved_mpv_key_with_modifiers(KEY_G, true, true, true, true),
        Some("Ctrl+Alt+Meta+G".to_string())
    );
}

#[test]
fn shortcuts_of_the_browser_go_to_the_player() {
    let pressed = |key, mods, down, url| accelerator_pressed(key, mods, down, url, &bound());
    assert!(matches!(
        pressed(KEY_F, held(false, true), true, PAGE),
        AcceleratorStep::Player(key) if key == "Ctrl+f"
    ));
    assert!(matches!(
        pressed(KEY_F, held(false, true), false, PAGE),
        AcceleratorStep::Swallow
    ));
    assert!(matches!(
        pressed(KEY_F, held(false, true), true, "https://web.stremio.com/#/library"),
        AcceleratorStep::Swallow
    ));
    assert!(matches!(
        pressed(KEY_G, held(false, true), true, PAGE),
        AcceleratorStep::Swallow
    ));
    assert!(matches!(pressed(KEY_F, held(false, false), true, PAGE), AcceleratorStep::PassOn));
    assert!(matches!(
        pressed(KEY_F7, held(false, false), true, PAGE),
        AcceleratorStep::Player(key) if key == "F7"
    ));
    assert!(is_key_bound(&bound(), "q"));
    assert!(!is_key_bound(&bound(), "Q"));
}

#[test]
fn the_script_lists_the_keys_in_order() {
    let script = build_mpv_keydown_script(&bound());
    assert!(script.contains(r#"new Set(["Ctrl+f","F7","q"])"#));
    assert!(script.contains("__stremioShellMpvHasSequences = true;"));
    let empty = build_mpv_keydown_script(&BoundKeys { keys: Vec::new(), has_sequences: false });
    assert!(empty.contains("new Set([])"));
    assert!(empty.contains("__stremioShellMpvHasSequences = false;"));
}

#[test]
fn keys_are_quoted_for_the_player() {
    assert_eq!(
        mpv_keypress_message("\""),
        r#"["mpv-command",["keypress","\""]]"#
    );
    assert_eq!(quote_json("a\n"), r#""a\n""#);
    assert_eq!(
        quote_json("\"\\/\u{8}\t\r\u{c}\u{0}\u{b}\u{1f}\u{7f}\u{e9}\u{2028}"),
        "\"\\\"\\\\/\\b\\t\\r\\f\\u0000\\u000b\\u001f\u{7f}\u{e9}\u{2028}\""
    );
}

#[test]
fn media_keys_control_the_player() {
    assert_eq!(
        app_command(14 << 16),
        Some(r#"["mpv-command", ["cycle", "pause"]]"#.to_string())
    );
    assert_eq!(
        app_command((11 << 16) | 7),
        Some(r#"["mpv-command", ["seek", "10", "relative"]]"#.to_string())
    );
    assert_eq!(
        app_command(0xF000_0000 | (12 << 16)),
        Some(r#"["mpv-command", ["seek", "-10", "relative"]]"#.to_string())
    );
    assert_eq!(app_command(13 << 16), None);
}

#[test]
fn strange_links_are_warned_of() {
    let trusted = vec!["stremio.com".to_string()];
    let warning = "https://www.stremio.com/warning#";
    assert_eq!(
        new_window_link("https://blog.stremio.com/a b", &trusted, warning),
        Some("https://blog.stremio.com/a%20b".to_string())
    );
    assert_eq!(
        new_window_link("https://example.com/?a=b", &trusted, warning),
        Some("https://www.stremio.com/warning#https%3A%2F%2Fexample.com%2F%3Fa%3Db".to_string())
    );
    assert_eq!(new_window_link("nowhere", &trusted, warning), None);
    assert_eq!(link_for("x:é", &None, &trusted, "w:"), "w:x%3A%C3%A9");
}

#[test]
fn dropped_files_are_named() {
    assert_eq!(dropped_file("file:///C:/a%20b.mkv"), Some("file:///C:/a b.mkv".to_string()));
    assert_eq!(dropped_file("100%"), Some("100%".to_string()));
    assert_eq!(dropped_file("%ff"), None);
}

#[test]
fn scripts_are_told_from_messages() {
    let message = script_message("alert(1)");
    assert!(matches!(sort_message(message), WebMessage::Script(s) if s == "alert(1)"));
    assert!(matches!(sort_message("{}".to_string()), WebMessage::Post(m) if m == "{}"));
}

#[test]
fn party_links_are_told_from_media() {
    assert_eq!(
        route_link("stremio://sync/steam/v1/x"),
        Link::Party("stremio://sync/steam/v1/x".to_string())
    );
    assert_eq!(route_link("stremio://detail/x"), Link::Media("stremio://detail/x".to_string()));
    assert!(auto_host_lobby("stremio://detail/x"));
    assert!(!auto_host_lobby("stremio://sync/x"));
}

#[test]
fn the_usual_interface_is_told_about_the_server() {
    let with = || Some("https://web.stremio.com/?server".to_string());
    assert_eq!(
        webui_address("https://web.stremio.com", "https://web.stremio.com/", with()),
        "https://web.stremio.com/?server"
    );
    assert_eq!(
        webui_address("https://web.stremio.com//", "https://web.stremio.com/", None),
        "https://web.stremio.com//"
    );
    assert_eq!(webui_address("http://localhost", "https://web.stremio.com/", with()), "http://localhost");
}

#[test]
fn windows_are_changed_on_request() {
    assert_eq!(
        request("win-set-visibility", Some(r#"{"fullscreen":true}"#)),
        Request::SetFullscreen(true)
    );
    assert_eq!(request("win-set-visibility", Some("{}")), Request::Nothing);
    assert_eq!(request("win-set-pip", None), Request::SetPip(None));
    assert_eq!(
        request("win-set-pip", Some(r#"{"enabled":false}"#)),
        Request::SetPip(Some(false))
    );
    assert_eq!(request("quit", None), Request::Quit);
    assert_eq!(request("win-focus", None), Request::Focus);
    assert_eq!(
        request("shell-route-changed", Some(r#""/a""#)),
        Request::RouteChanged("/a".to_string())
    );
    assert_eq!(request("shell-route-changed", Some("1")), Request::Nothing);
}

#[test]
fn only_hosts_remove_members() {
    let kick = |params, role| request_as("shell-watch-party-kick", Some(params), role, "");
    assert_eq!(kick(r#"{"steamId":"76"}"#, LobbyRole::Host), Request::KickMember(76));
    assert_eq!(kick(r#"{"steamId":76}"#, LobbyRole::Host), Request::KickMember(76));
    assert_eq!(kick(r#"{"steamId":"x"}"#, LobbyRole::Host), Request::Nothing);
    assert_eq!(kick(r#"{"steamId":"76"}"#, LobbyRole::Guest), Request::Nothing);
    assert_eq!(request("shell-watch-party-leave", None), Request::LeaveParty);
}

#[test]
fn a_ready_interface_follows_the_link() {
    let ready = |command| request_as("app-ready", None, LobbyRole::Absent, command);
    assert_eq!(ready(""), Request::AppReady(None));
    assert_eq!(
        ready("stremio://sync/a"),
        Request::AppReady(Some(Link::Party("stremio://sync/a".to_string())))
    );
    assert_eq!(ready("a.mkv"), Request::AppReady(Some(Link::Media("a.mkv".to_string()))));
    assert_eq!(request("app-error", None), Request::AppError);
}

#[test]
fn only_known_schemes_are_opened() {
    let open = |url: &str| request("open-external", Some(url));
    assert_eq!(open(r#""HTTPS://a""#), Request::OpenExternal("HTTPS://a".to_string()));
    for url in ["http://a", "rtp://a", "rtps://a", "ftp://a", "ipfs://a"] {
        assert_eq!(open(&quote_json(url)), Request::OpenExternal(url.to_string()));
    }
    assert_eq!(open(r#""calc""#), Request::Nothing);
    assert_eq!(open("5"), Request::Nothing);
    assert_eq!(request("open-external", None), Request::Nothing);
}

#[test]
fn streams_go_to_other_players() {
    let play = |url| request("play-external", Some(url));
    assert_eq!(play(r#""MPV://http://a""#), Request::PlayWithMpv("http://a".to_string()));
    assert_eq!(play(r#""vlc://a""#), Request::OpenExternal("vlc://a".to_string()));
    assert_eq!(play(r#""potplayer://a""#), Request::OpenExternal("potplayer://a".to_string()));
    assert_eq!(play(r#""http://a""#), Request::Nothing);
    assert_eq!(play(r#""""#), Request::Nothing);
    assert_eq!(mpv_arguments("http://a"), ["--", "http://a"]);
}

#[test]
fn mpv_is_looked_for_where_programs_are() {
    let a = Some("A".to_string());
    let c = Some("C".to_string());
    assert_eq!(
        mpv_paths(&a, &None, &c),
        ["A\\mpv\\mpv.exe", "C\\Programs\\mpv\\mpv.exe", "C\\mpv\\mpv.exe", "mpv.exe"]
    );
    assert_eq!(
        setup_arguments(),
        ["/SILENT", "/NOCANCEL", "/FORCECLOSEAPPLICATIONS", "/TASKS=runapp"]
    );
}

#[test]
fn discord_is_told_what_the_interface_says() {
    assert_eq!(
        request(
            "discord-set-activity",
            Some(r#"{"state":"s","image":"i","startTimestamp":-5,"endTimestamp":"x"}"#)
        ),
        Request::DiscordSetActivity(DiscordActivity {
            state: "s".to_string(),
            details: String::new(),
            image: Some("i".to_string()),
            start_timestamp: Some(-5),
            end_timestamp: None,
        })
    );
    assert_eq!(request("discord-set-activity", None), Request::Nothing);
    assert_eq!(request("discord-connect", None), Request::DiscordConnect);
    assert_eq!(request("discord-disconnect", None), Request::DiscordDisconnect);
    assert_eq!(request("discord-clear-activity", None), Request::DiscordClearActivity);
}

#[test]
fn player_requests_reach_the_player() {
    assert_eq!(request("mpv-set-prop", None), Request::PlayerCommand);
    assert_eq!(request("media.status", None), Request::MediaStatus);
    assert_eq!(request("media.metadata", None), Request::MediaMetadata);
    assert_eq!(request("autoupdater-notif-clicked", None), Request::InstallUpdate);
    assert_eq!(request("nope", None), Request::Unsupported("nope".to_string()));
    assert_eq!(
        handle_request(&None, None, true, LobbyRole::Absent, ""),
        Request::Handshake
    );
    assert_eq!(
        handle_request(&None, None, false, LobbyRole::Absent, ""),
        Request::Nothing
    );
}

#[test]
fn rc_versions_are_accepted_by_semver_ordering() {
    assert!(newer("5.0.20", "5.0.21-rc2"));
    assert!(newer("5.0.21-rc1", "5.0.21-rc2"));
    assert!(newer("5.0.21-rc2", "5.0.21"));
}

#[test]
fn final_release_does_not_update_to_older_rc() {
    assert!(!newer("5.0.21", "5.0.21-rc2"));
}

#[test]
fn prefers_arch_matching_installer_asset() {
    let assets = release("v1.2.3", false).assets;
    for arm in [false, true] {
        let suffix = target_arch_suffix(arm);
        let selected = &assets[select_installer(&assets, &suffix).unwrap()];
        if arm {
            assert!(selected.name.ends_with("_arm64.exe"));
        } else {
            assert!(selected.name.ends_with("_x64.exe"));
        }
    }
}

#[test]
fn releases_are_judged() {
    let judge = |tag: &str| updater("1.0.0").judge_any(&release(tag, false), "x64");
    assert!(matches!(judge("v1.0.1"), Ok(UpdateStep::Install(0))));
    assert!(matches!(judge("v1.0.0"), Ok(UpdateStep::Nothing)));
    assert!(matches!(judge("latest"), Err(UpdateError::BadVersion)));
    assert!(matches!(
        updater("1.0.0").judge_any(&release("v1.0.1", false), "riscv"),
        Err(UpdateError::NoInstaller(message))
            if message == "No Windows installer asset found for architecture suffix riscv"
    ));
    let stable = Updater::new("1.0.0".to_string(), "https://example.com/releases", false, false);
    assert!(matches!(
        stable.judge_any(&release("v1.0.1", true), "x64"),
        Ok(UpdateStep::Nothing)
    ));
    let forced = Updater::new("1.0.0".to_string(), "https://example.com/releases", true, false);
    assert!(matches!(
        forced.judge_any(&release("v0.9.0", false), "x64"),
        Ok(UpdateStep::Install(0))
    ));
}

#[test]
fn the_newest_release_is_taken() {
    let releases = vec![release("v1.0.1", false), release("junk", false), release("v1.0.3", true)];
    assert_eq!(latest_release(&releases), Some(2));
    assert_eq!(latest_release(&vec![release("junk", false)]), None);
    assert!(matches!(
        updater("1.0.0").release_source(),
        ReleaseSource::Latest(url) if url == "https://example.com/releases"
    ));
    let endpoint = "https://api.example.com/repos/a/b/releases/latest?x=1";
    let all = Updater::new("1.0.0".to_string(), endpoint, false, true);
    assert!(matches!(
        all.release_source(),
        ReleaseSource::List(url) if url == "https://api.example.com/repos/a/b/releases?x=1"
    ));
    let stable = Updater::new("1.0.0".to_string(), endpoint, false, false);
    assert!(matches!(stable.release_source(), ReleaseSource::Latest(url) if url == endpoint));
}

#[test]
fn downloads_are_complete_or_refused() {
    assert!(check_download(10, Some(10)).is_ok());
    assert!(check_download(9, Some(10)).is_err());
    assert!(check_download(9, None).is_ok());
    assert_eq!(check_download(0, None), Err("Installer download was empty".to_string()));
    assert_eq!(
        check_download(9, Some(10)),
        Err("Incomplete installer download: expected 10 bytes, received 9".to_string())
    );
    let update =
        downloaded_update(&release("v1.2.3", false), "a.exe".to_string(), 10, Some(10)).unwrap();
    assert_eq!((update.version.as_str(), update.file.as_str()), ("1.2.3", "a.exe"));
    assert!(downloaded_update(&release("v1.2.3", false), String::new(), 0, None).is_err());
}
