use stremio_shell::lobby::{
    end_watch_party, leave_watch_party, lobby_presence, new_party_id, party_id_of, role_label,
    watch_party_menu, watch_party_overlay, LobbyRole, LobbyState, PartyExit,
};
use stremio_shell::number::Real;
use stremio_shell::steam_sync::{
    clean_display_name, connect_to_host, follow_host_state, generate_token, hello_allowed,
    host_lobby_members, host_member, hosting_link, joining_result, kick_member, leave_lobby,
    note_joining, report_init, start_host_lobby, steam_init_error_message, sync_event_notice,
    token_of, Deviation, Exchange, HostState, MemberChange, Mode, NoticeLevel, RuntimeCommand,
    RuntimeSlot, SessionPolicy, Start, SteamInitError, SyncAction, SyncRuntime, SyncUiEvent,
    BROADCAST_INTERVAL,
};
use stremio_shell::steam_sync_unavailable as without;
use stremio_shell::sync_protocol::{
    decode_steam_join_secret, encode_steam_join_secret, validate_steam_join_secret, GuestMsg,
    HostMsg, LobbyMember, SteamJoinSecret, SteamSyncWireMsg, STEAM_JOIN_PREFIX,
    STEAM_SYNC_APP_ID, STEAM_SYNC_PROTOCOL_VERSION,
};

const HOST: u64 = 34;
const GUEST: u64 = 56;

fn float(x: f64) -> Real {
    Real::from_bits(x.to_bits())
}

fn sample_secret() -> SteamJoinSecret {
    SteamJoinSecret {
        app_id: STEAM_SYNC_APP_ID,
        lobby_id: 12,
        host_steam_id: HOST,
        party_id: "party".to_string(),
        token: "token".to_string(),
    }
}

fn same_secret(a: &SteamJoinSecret, b: &SteamJoinSecret) -> bool {
    a.app_id == b.app_id
        && a.lobby_id == b.lobby_id
        && a.host_steam_id == b.host_steam_id
        && a.party_id == b.party_id
        && a.token == b.token
}

/// Reads a secret as serde does for a struct with these fields.
fn parse_secret(bytes: &Vec<u8>) -> Result<SteamJoinSecret, String> {
    let value: serde_json::Value = serde_json::from_slice(bytes).map_err(|e| e.to_string())?;
    let number = |key: &str| value.get(key).and_then(|v| v.as_u64()).ok_or("missing field");
    let text = |key: &str| {
        value.get(key).and_then(|v| v.as_str()).map(|s| s.to_string()).ok_or("missing field")
    };
    Ok(SteamJoinSecret {
        app_id: number("app_id")? as u32,
        lobby_id: number("lobby_id")?,
        host_steam_id: number("host_steam_id")?,
        party_id: text("party_id")?,
        token: text("token")?,
    })
}

fn host() -> LobbyMember {
    host_member(HOST, "Host")
}

fn state(time: f64, paused: bool) -> HostState {
    HostState {
        stream_url: "http://127.0.0.1:11470/a/1".to_string(),
        web_url: "https://web.stremio.com/#/player/x".to_string(),
        time_pos: float(time),
        duration: float(1000.0),
        paused,
    }
}

fn hosting() -> SyncRuntime {
    let mut runtime = SyncRuntime::new();
    runtime.handle_command(
        RuntimeCommand::StartHost {
            party_id: "party".to_string(),
            token: "token".to_string(),
            max_size: 4,
        },
        &host(),
    );
    runtime.take_actions();
    runtime.handle_lobby_created(Ok(12), "party".to_string(), "token".to_string(), 4, &host());
    runtime
}

fn hello(token: &str) -> SteamSyncWireMsg {
    SteamSyncWireMsg::Guest(GuestMsg::Hello {
        protocol_version: STEAM_SYNC_PROTOCOL_VERSION,
        token: token.to_string(),
        name: "viewer".to_string(),
    })
}

fn let_in(runtime: &mut SyncRuntime) {
    runtime.handle_host_incoming(GUEST, hello("token"), "viewer", &host(), &state(5.0, false));
}

fn peers(runtime: &SyncRuntime) -> Vec<u64> {
    match &runtime.mode {
        Some(Mode::Host(h)) => h.authorized_peers.iter().map(|m| m.steam_id).collect(),
        _ => panic!("not hosting"),
    }
}

#[test]
fn hello_token_gate_accepts_only_matching_token_and_version() {
    assert!(hello_allowed("secret", STEAM_SYNC_PROTOCOL_VERSION, "secret"));
    assert!(!hello_allowed("secret", STEAM_SYNC_PROTOCOL_VERSION, "wrong"));
    assert!(!hello_allowed(
        "secret",
        STEAM_SYNC_PROTOCOL_VERSION + 1,
        "secret"
    ));
}

#[test]
fn generated_tokens_are_non_empty_and_distinct() {
    let a = generate_token();
    let b = generate_token();

    assert!(!a.is_empty());
    assert!(!b.is_empty());
    assert_ne!(a, b);
}

#[test]
fn tokens_are_base64_without_padding() {
    assert_eq!(token_of(&vec![0xfb, 0xff]), "-_8");
    assert_eq!(generate_token().len(), 43);
    assert!(generate_token()
        .chars()
        .all(|c| c.is_ascii_alphanumeric() || c == '-' || c == '_'));
    let mut other = vec![0u8; 32];
    other[31] = 1;
    assert_ne!(token_of(&vec![0u8; 32]), token_of(&other));
}

#[test]
fn steam_secret_round_trips() {
    let secret = sample_secret();
    let encoded = encode_steam_join_secret(&secret).unwrap();

    assert!(encoded.starts_with(STEAM_JOIN_PREFIX));
    assert!(same_secret(&decode_steam_join_secret(&encoded, parse_secret).unwrap(), &secret));
}

#[test]
fn rejects_bad_steam_secret_inputs() {
    assert!(decode_steam_join_secret("stremio://sync/127.0.0.1:1234", parse_secret).is_err());

    let mut wrong_app = sample_secret();
    wrong_app.app_id = 481;
    let encoded = encode_steam_join_secret(&wrong_app).unwrap();
    assert!(decode_steam_join_secret(&encoded, parse_secret).is_err());

    let mut missing_token = sample_secret();
    missing_token.token.clear();
    let encoded = encode_steam_join_secret(&missing_token).unwrap();
    assert!(decode_steam_join_secret(&encoded, parse_secret).is_err());
}

#[test]
fn every_part_of_a_secret_is_needed() {
    assert!(validate_steam_join_secret(&sample_secret()).is_ok());
    let mut s = sample_secret();
    s.lobby_id = 0;
    assert!(validate_steam_join_secret(&s).is_err());
    let mut s = sample_secret();
    s.host_steam_id = 0;
    assert!(validate_steam_join_secret(&s).is_err());
    let mut s = sample_secret();
    s.party_id = "  ".to_string();
    assert!(validate_steam_join_secret(&s).is_err());
    let broken = format!("{STEAM_JOIN_PREFIX}%%%");
    assert!(decode_steam_join_secret(&broken, parse_secret).is_err());
}

#[test]
fn quotes_in_a_secret_survive() {
    let mut secret = sample_secret();
    secret.party_id = "a \"b\" \\ é".to_string();
    let encoded = encode_steam_join_secret(&secret).unwrap();
    assert!(same_secret(&decode_steam_join_secret(&encoded, parse_secret).unwrap(), &secret));
}

#[test]
fn a_new_lobby_is_announced() {
    let mut runtime = hosting();
    let actions = runtime.take_actions();
    assert!(actions.iter().any(|a| matches!(
        a,
        SyncAction::ReplyHost(Ok(secret)) if secret.lobby_id == 12 && secret.token == "token"
    )));
    assert!(actions
        .iter()
        .any(|a| matches!(a, SyncAction::Ui(SyncUiEvent::HostStarted))));
    assert_eq!(runtime.lobby.role, LobbyRole::Host);
    assert_eq!(
        runtime.session_policy(),
        SessionPolicy { role: LobbyRole::Host, host_steam_id: None }
    );
}

#[test]
fn a_lobby_that_cannot_be_made_is_reported() {
    let mut runtime = SyncRuntime::new();
    runtime.handle_lobby_created(
        Err("no".to_string()),
        "party".to_string(),
        "token".to_string(),
        4,
        &host(),
    );
    assert!(runtime.take_actions().iter().any(|a| matches!(a, SyncAction::ReplyHost(Err(_)))));
    assert!(runtime.mode.is_none());
}

#[test]
fn guests_with_the_token_are_admitted() {
    let mut runtime = hosting();
    runtime.take_actions();
    let_in(&mut runtime);
    assert_eq!(peers(&runtime), [GUEST]);
    assert_eq!(runtime.lobby.member_count, 2);
    let actions = runtime.take_actions();
    assert!(actions.iter().any(|a| matches!(
        a,
        SyncAction::Send { peer_id: GUEST, message: SteamSyncWireMsg::Host(HostMsg::State { .. }), .. }
    )));
    assert!(actions.iter().any(|a| matches!(
        a,
        SyncAction::Ui(SyncUiEvent::GuestJoined { name, member_count: 2 }) if name == "viewer"
    )));
}

#[test]
fn strangers_are_refused() {
    let mut runtime = hosting();
    runtime.take_actions();
    runtime.handle_host_incoming(GUEST, hello("wrong"), "viewer", &host(), &state(5.0, false));
    assert!(peers(&runtime).is_empty());
    runtime.handle_host_incoming(
        GUEST,
        SteamSyncWireMsg::Guest(GuestMsg::RequestState),
        "viewer",
        &host(),
        &state(5.0, false),
    );
    assert!(runtime.take_actions().iter().all(|a| !matches!(
        a,
        SyncAction::Send { message: SteamSyncWireMsg::Host(HostMsg::State { .. }), .. }
    )));
}

#[test]
fn removed_guests_stay_out() {
    let mut runtime = hosting();
    let_in(&mut runtime);
    runtime.take_actions();
    runtime.handle_command(RuntimeCommand::Kick { steam_id: GUEST }, &host());
    assert!(peers(&runtime).is_empty());
    let_in(&mut runtime);
    assert!(peers(&runtime).is_empty());
}

#[test]
fn guests_who_leave_are_counted_out() {
    let mut runtime = hosting();
    let_in(&mut runtime);
    runtime.take_actions();
    runtime.handle_lobby_chat_update(12, GUEST, MemberChange::Left, &host());
    assert!(peers(&runtime).is_empty());
    assert_eq!(runtime.lobby.member_count, 1);
    assert!(runtime
        .take_actions()
        .iter()
        .any(|a| matches!(a, SyncAction::Ui(SyncUiEvent::GuestLeft { member_count: 1, .. }))));
    runtime.handle_lobby_chat_update(13, GUEST, MemberChange::Left, &host());
    assert!(runtime.take_actions().is_empty());
}

#[test]
fn a_lost_session_counts_as_leaving() {
    let mut runtime = hosting();
    let_in(&mut runtime);
    runtime.handle_session_failed(None, &host());
    assert_eq!(peers(&runtime), [GUEST]);
    runtime.handle_session_failed(Some(GUEST), &host());
    assert!(peers(&runtime).is_empty());
}

#[test]
fn leaving_closes_the_lobby() {
    let mut runtime = hosting();
    let_in(&mut runtime);
    runtime.take_actions();
    runtime.handle_command(RuntimeCommand::Leave, &host());
    assert!(runtime.mode.is_none());
    assert_eq!(runtime.lobby.role, LobbyRole::Absent);
    assert!(runtime.lobby.party_id.is_empty());
    let actions = runtime.take_actions();
    assert!(actions.iter().any(|a| matches!(
        a,
        SyncAction::Send { message: SteamSyncWireMsg::Host(HostMsg::LobbyClosed { .. }), .. }
    )));
    assert!(actions.iter().any(|a| matches!(a, SyncAction::LeaveLobby { lobby_id: 12 })));
    runtime.leave_current_lobby();
    assert!(runtime.take_actions().is_empty());
}

#[test]
fn broadcasts_tell_what_changed() {
    let mut runtime = hosting();
    let_in(&mut runtime);
    runtime.take_actions();
    let still = Deviation { paused: float(0.0), playing: float(0.0) };
    runtime.tick_host_broadcast(&state(5.0, false), still, 0);
    let first = runtime.take_actions();
    assert!(!first.is_empty());
    runtime.tick_host_broadcast(&state(6.0, true), still, BROADCAST_INTERVAL - 1);
    assert!(runtime.take_actions().is_empty());
    runtime.tick_host_broadcast(&state(6.0, true), still, BROADCAST_INTERVAL);
    assert!(runtime.take_actions().iter().any(|a| matches!(
        a,
        SyncAction::Send { message: SteamSyncWireMsg::Host(HostMsg::Pause { .. }), .. }
    )));
}

#[test]
fn guests_follow_the_host() {
    let mut runtime = SyncRuntime::new();
    runtime.handle_lobby_joined(Ok(12), sample_secret(), "viewer");
    let actions = runtime.take_actions();
    assert!(actions.iter().any(|a| matches!(a, SyncAction::ReplyGuest(Ok(())))));
    assert!(actions.iter().any(|a| matches!(
        a,
        SyncAction::Send {
            peer_id: HOST,
            message: SteamSyncWireMsg::Guest(GuestMsg::Hello { .. }),
            ..
        }
    )));
    assert_eq!(
        runtime.session_policy(),
        SessionPolicy { role: LobbyRole::Guest, host_steam_id: Some(HOST) }
    );
    runtime.handle_host_message(HostMsg::Pause { time_pos: float(42.0) }, "42");
    assert!(runtime
        .take_actions()
        .iter()
        .any(|a| matches!(a, SyncAction::Player(cmd) if cmd.contains("pause"))));
    runtime.handle_host_message(
        HostMsg::LobbyClosed { reason: "host left".to_string() },
        "",
    );
    assert!(runtime.mode.is_none());
    assert!(runtime
        .take_actions()
        .iter()
        .any(|a| matches!(a, SyncAction::Ui(SyncUiEvent::HostLeft { reason }) if reason == "host left")));
}

#[test]
fn messages_go_where_they_belong() {
    let mut runtime = hosting();
    runtime.take_actions();
    let play = || SteamSyncWireMsg::Host(HostMsg::Play { time_pos: float(1.0) });
    runtime.handle_incoming(GUEST, play(), "1", "viewer", &host(), &state(5.0, false));
    assert!(runtime.take_actions().is_empty());
    runtime.handle_incoming(GUEST, hello("token"), "", "viewer", &host(), &state(5.0, false));
    assert_eq!(peers(&runtime), [GUEST]);

    let mut guest = SyncRuntime::new();
    guest.handle_incoming(HOST, play(), "1", "", &host(), &state(5.0, false));
    assert!(guest.take_actions().is_empty());
    guest.handle_lobby_joined(Ok(12), sample_secret(), "viewer");
    guest.take_actions();
    guest.handle_incoming(HOST, play(), "1", "", &host(), &state(5.0, false));
    assert!(matches!(
        guest.take_actions().as_slice(),
        [SyncAction::Player(first), SyncAction::Player(second)]
            if first == r#"["mpv-set-prop",["pause",false]]"#
                && second == r#"["mpv-command",["seek","1","absolute"]]"#
    ));
    guest.handle_incoming(
        HOST,
        SteamSyncWireMsg::Host(HostMsg::Seek { time_pos: float(61.5) }),
        "61.5",
        "",
        &host(),
        &state(5.0, false),
    );
    assert!(matches!(
        guest.take_actions().as_slice(),
        [SyncAction::Player(only)] if only == r#"["mpv-command",["seek","61.5","absolute"]]"#
    ));
    guest.handle_incoming(
        HOST,
        SteamSyncWireMsg::Host(HostMsg::State {
            stream_url: String::new(),
            web_url: "https://web.stremio.com/#/player/x".to_string(),
            time_pos: float(7.0),
            duration: float(9.0),
            paused: true,
        }),
        "7",
        "",
        &host(),
        &state(5.0, false),
    );
    assert!(matches!(
        guest.take_actions().as_slice(),
        [SyncAction::OpenMedia(url), SyncAction::WaitMillis(1500), SyncAction::FollowHost { paused: true, .. }]
            if url == "stremio:///player/x"
    ));
}

#[test]
fn a_lobby_that_cannot_be_joined_is_forgotten() {
    let mut runtime = SyncRuntime::new();
    runtime.handle_lobby_joined(Err("no".to_string()), sample_secret(), "viewer");
    assert!(runtime.mode.is_none());
    assert!(runtime.take_actions().iter().any(|a| matches!(
        a,
        SyncAction::ReplyGuest(Err(message)) if message == "failed to join Steam lobby: no"
    )));
}

#[test]
fn guests_listen_to_their_host_alone() {
    let policy = SessionPolicy { role: LobbyRole::Guest, host_steam_id: Some(HOST) };
    assert!(policy.should_accept(HOST));
    assert!(!policy.should_accept(GUEST));
    assert!(!SessionPolicy::default().should_accept(HOST));
    let open = SessionPolicy { role: LobbyRole::Host, host_steam_id: None };
    assert!(open.should_accept(GUEST));
}

#[test]
fn a_drift_is_made_up_for() {
    let near = follow_host_state(true, "42", float(100.0), float(2.0));
    assert_eq!(near.len(), 1);
    let far = follow_host_state(false, "42", float(100.0), float(2.5));
    assert_eq!(far.len(), 2);
    assert_eq!(far[1], r#"["mpv-command",["seek","42","absolute"]]"#);
    assert_eq!(follow_host_state(false, "42", float(0.0), float(9.0)).len(), 1);
}

#[test]
fn names_are_made_presentable() {
    assert_eq!(clean_display_name("  Ann  ", "Guest"), "Ann");
    assert_eq!(clean_display_name("   ", "Guest"), "Guest");
}

#[test]
fn the_host_is_the_first_member() {
    let guest = LobbyMember { steam_id: GUEST, name: "viewer".to_string(), is_host: false };
    let members = host_lobby_members(&host(), &vec![guest]);
    assert_eq!(members.len(), 2);
    assert!(members[0].is_host && members[0].steam_id == HOST);
    assert!(!members[1].is_host);
}

#[test]
fn commands_need_a_runtime() {
    let gone = || -> Result<fn(RuntimeCommand) -> Result<(), String>, String> {
        Err("no Steam".to_string())
    };
    assert_eq!(kick_member(GUEST, gone), Err("no Steam".to_string()));
    let taken = leave_lobby(|| {
        Ok(|c: RuntimeCommand| match c {
            RuntimeCommand::Leave => Ok(()),
            _ => Err("other".to_string()),
        })
    });
    assert_eq!(taken, Ok(()));
}

#[test]
fn hosting_gives_a_link() {
    let link = start_host_lobby("party".to_string(), 4, || {
        Ok(|c: RuntimeCommand| match c {
            RuntimeCommand::StartHost { party_id, token, max_size: 4 } => {
                let mut secret = sample_secret();
                secret.party_id = party_id;
                secret.token = token;
                Exchange::Answered(Ok(secret))
            }
            _ => Exchange::Closed("wrong command".to_string()),
        })
    })
    .unwrap();
    let secret = decode_steam_join_secret(&link, parse_secret).unwrap();
    assert_eq!(secret.party_id, "party");
    assert!(hosting_link(Exchange::TimedOut("timed out".to_string())).is_err());
    assert!(hosting_link(Exchange::Closed("closed".to_string())).is_err());
    assert_eq!(
        hosting_link(Exchange::Answered(Err("full".to_string()))),
        Err("full".to_string())
    );
}

#[test]
fn joining_notes_the_party() {
    let mut lobby = LobbyState::new();
    let link = encode_steam_join_secret(&sample_secret()).unwrap();
    let done = connect_to_host(&link, parse_secret, || {
        let note = |s: &SteamJoinSecret, l: &str| note_joining(&mut lobby, s, l);
        let ask = |c: RuntimeCommand| match c {
            RuntimeCommand::JoinHost { secret } if secret.lobby_id == sample_secret().lobby_id => {
                Exchange::Answered(Ok(()))
            }
            _ => Exchange::Closed("wrong command".to_string()),
        };
        Ok((note, ask))
    });
    assert_eq!(done, Ok(()));
    assert_eq!(lobby.party_id, "party");
    assert_eq!(lobby.join_secret, link);
    assert_eq!(lobby.role, LobbyRole::Guest);
    assert_eq!((lobby.member_count, lobby.max_size), (1, 8));
    assert!(joining_result(Exchange::TimedOut("timed out".to_string())).is_err());
    assert!(joining_result(Exchange::Closed("closed".to_string())).is_err());
    let mut other = LobbyState::new();
    let bad = connect_to_host("stremio://sync/nothing", parse_secret, || {
        let note = |s: &SteamJoinSecret, l: &str| note_joining(&mut other, s, l);
        Ok((note, |_c: RuntimeCommand| Exchange::Answered(Ok(()))))
    });
    assert!(bad.is_err());
    assert!(other.party_id.is_empty());
    let mut started = true;
    let closed = connect_to_host(&link, parse_secret, || {
        started = false;
        let note = |s: &SteamJoinSecret, l: &str| note_joining(&mut other, s, l);
        let ask = |_c: RuntimeCommand| Exchange::Answered(Ok(()));
        if started {
            Ok((note, ask))
        } else {
            Err("Steam is closed".to_string())
        }
    });
    assert_eq!(closed, Err("Steam is closed".to_string()));
    assert!(other.party_id.is_empty());
}

#[test]
fn trouble_with_steam_is_explained() {
    let all = [
        steam_init_error_message(SteamInitError::NoSteamClient),
        steam_init_error_message(SteamInitError::VersionMismatch),
        steam_init_error_message(SteamInitError::FailedGeneric),
    ];
    assert!(all.iter().all(|m| m.contains("Steam")));
    assert_ne!(all[0], all[1]);
}

#[test]
fn a_closed_steam_is_reported_and_tried_again() {
    let mut slot = RuntimeSlot::new();
    assert!(slot.wants_start());
    let report = report_init(Err(SteamInitError::NoSteamClient));
    let text = "Steam is not running. Open Steam, sign in, then try starting the watch party again.";
    assert!(matches!(report.event, Some(SyncUiEvent::Error { message }) if message == text));
    assert_eq!(slot.on_start(Start::Answered(report.answer)), Err(text.to_string()));
    assert!(slot.wants_start());
    assert_eq!(
        slot.on_start(Start::TimedOut("late".to_string())),
        Err("timed out initializing Steam sync runtime: late".to_string())
    );
    assert_eq!(
        slot.on_start(Start::NoThread("none".to_string())),
        Err("failed to spawn Steam sync runtime: none".to_string())
    );
    assert!(slot.wants_start());
    let report = report_init(Ok(()));
    assert!(report.event.is_none());
    assert_eq!(slot.on_start(Start::Answered(report.answer)), Ok(()));
    assert!(!slot.wants_start());
}

#[test]
fn events_become_notices() {
    let notice = sync_event_notice(SyncUiEvent::LobbyUpdated { member_count: 2, max_size: 8 });
    assert_eq!(notice.title, "Watch Party");
    assert_eq!(notice.text, "Watch party 2/8");
    assert_eq!(notice.level, NoticeLevel::Info);
    assert!(!notice.dialog);
    let notice =
        sync_event_notice(SyncUiEvent::GuestJoined { name: "Ann".to_string(), member_count: 3 });
    assert_eq!(notice.text, "Ann joined. 3 people are in the watch party.");
    let notice =
        sync_event_notice(SyncUiEvent::GuestLeft { name: "Ann".to_string(), member_count: 2 });
    assert_eq!(notice.text, "Ann left. 2 people remain in the watch party.");
    let notice = sync_event_notice(SyncUiEvent::HostLeft { reason: "gone".to_string() });
    assert_eq!(notice.title, "Watch Party Ended");
    assert_eq!(notice.level, NoticeLevel::Warning);
    let notice = sync_event_notice(SyncUiEvent::Error { message: "bad".to_string() });
    assert_eq!(notice.title, "Watch Party Error");
    assert!(notice.dialog);
    let notice = sync_event_notice(SyncUiEvent::LeftLobby);
    assert_eq!(notice.text, "Left the watch party.");
    let notice = sync_event_notice(SyncUiEvent::JoinedHost);
    assert_eq!(notice.text, "Joined the watch party. Playback will sync with the host.");
}

#[test]
fn a_cleared_lobby_is_absent() {
    let mut lobby = LobbyState::new();
    lobby.watch_party_started("party".to_string(), "secret".to_string(), 6);
    assert!(!lobby.may_start_watch_party());
    lobby.set_lobby_counts(3, 6);
    lobby.set_lobby_role(LobbyRole::Host);
    let presence = lobby_presence(&lobby).unwrap();
    assert_eq!(presence.member_count, 3);
    assert_eq!(presence.others_text().unwrap(), "with 2 others");
    lobby.clear_lobby_globals();
    assert!(lobby_presence(&lobby).is_none());
    assert!(lobby.may_start_watch_party());
    assert_eq!(lobby.role, LobbyRole::Absent);
}

#[test]
fn the_menu_follows_the_party() {
    let mut lobby = LobbyState::new();
    let menu = watch_party_menu(&lobby, "Stremio");
    assert_eq!(menu.title, "Stremio");
    assert_eq!(menu.tip, "Stremio");
    assert!(menu.can_start && !menu.can_end && !menu.can_leave);
    lobby.set_lobby_identity("party", "secret");
    lobby.set_lobby_counts(2, 8);
    lobby.set_lobby_role(LobbyRole::Host);
    let menu = watch_party_menu(&lobby, "Stremio");
    assert_eq!(menu.title, "Stremio - Hosting watch party 2/8");
    assert_eq!(menu.tip, "Stremio - Watch party 2/8");
    assert!(!menu.can_start && menu.can_end && !menu.can_leave);
    lobby.set_lobby_role(LobbyRole::Guest);
    assert!(watch_party_menu(&lobby, "Stremio").can_leave);
    assert_eq!(role_label(LobbyRole::Guest), "Joined");
}

#[test]
fn the_overlay_follows_the_party() {
    let mut lobby = LobbyState::new();
    let overlay = watch_party_overlay(&lobby, None, None);
    assert!(!overlay.visible && overlay.badge.is_empty());
    let overlay = watch_party_overlay(&lobby, Some("Watch Party Error"), Some("bad"));
    assert!(overlay.visible && !overlay.active);
    assert_eq!(overlay.badge, "Watch Party Error");
    assert_eq!(overlay.event_title.as_deref(), Some("Watch Party Error"));
    assert_eq!(overlay.event_text.as_deref(), Some("bad"));
    lobby.set_lobby_identity("party", "secret");
    lobby.set_lobby_counts(1, 8);
    lobby.set_lobby_role(LobbyRole::Host);
    lobby.set_lobby_members(vec![host()]);
    let overlay = watch_party_overlay(&lobby, None, None);
    assert_eq!(overlay.badge, "Hosting watch party 1/8");
    assert!(overlay.can_kick && !overlay.can_leave);
    assert!(overlay.event_title.is_none() && overlay.event_text.is_none());
    assert_eq!(overlay.members[0].steam_id, "34");
}

#[test]
fn hosts_end_and_guests_leave() {
    assert_eq!(end_watch_party(LobbyRole::Host), PartyExit::Leave);
    assert_eq!(end_watch_party(LobbyRole::Guest), PartyExit::Nothing);
    assert_eq!(leave_watch_party(LobbyRole::Host), PartyExit::HostStays);
    assert_eq!(leave_watch_party(LobbyRole::Guest), PartyExit::Leave);
}

#[test]
fn parties_have_names_of_their_own() {
    assert_eq!(party_id_of("x"), "stremio-x");
    let a = new_party_id();
    let b = new_party_id();
    assert!(a.starts_with("stremio-"));
    assert_eq!(a.len(), 44);
    assert_ne!(a, b);
}

#[test]
fn a_build_without_parties_says_so() {
    assert_eq!(without::leave_lobby(), Ok(()));
    let message = without::unavailable_message();
    assert_eq!(message, "Steam watch parties are not available in this build.");
    assert_eq!(without::kick_member(1), Err(message.clone()));
    assert_eq!(without::start_host_lobby("p".to_string(), 2), Err(message.clone()));
    assert_eq!(without::connect_to_host("s"), Err(message));
}

#[test]
fn a_lobby_has_room_for_its_members() {
    let mut lobby = LobbyState::new();
    lobby.set_lobby_identity("party", "secret");
    lobby.set_lobby_counts(0, 4);
    let presence = lobby_presence(&lobby).unwrap();
    assert_eq!((presence.member_count, presence.max_size), (1, 4));
    assert_eq!(presence.others_text(), None);
    lobby.set_lobby_counts(9, 0);
    let presence = lobby_presence(&lobby).unwrap();
    assert_eq!((presence.member_count, presence.max_size), (9, 9));
    assert_eq!(lobby.max_size, 4);
    lobby.set_lobby_counts(2, 4);
    assert_eq!(lobby_presence(&lobby).unwrap().others_text().unwrap(), "with 1 other");
}

#[test]
fn every_guest_is_told() {
    let mut runtime = hosting();
    for guest in [GUEST, GUEST + 1] {
        runtime.handle_host_incoming(
            guest,
            hello("token"),
            "viewer",
            &host(),
            &state(5.0, false),
        );
    }
    runtime.take_actions();
    let jump = Deviation { paused: float(9.0), playing: float(9.0) };
    runtime.tick_host_broadcast(&state(5.0, true), jump, 0);
    let actions = runtime.take_actions();
    for guest in [GUEST, GUEST + 1] {
        let told: Vec<&SteamSyncWireMsg> = actions
            .iter()
            .filter_map(|a| match a {
                SyncAction::Send { peer_id, message, .. } if *peer_id == guest => Some(message),
                _ => None,
            })
            .collect();
        assert!(matches!(
            told.as_slice(),
            [
                SteamSyncWireMsg::Host(HostMsg::Load { .. }),
                SteamSyncWireMsg::Host(HostMsg::Pause { .. }),
                SteamSyncWireMsg::Host(HostMsg::Seek { .. }),
                SteamSyncWireMsg::Host(HostMsg::State { paused: true, .. }),
            ]
        ));
    }
}

#[test]
fn a_full_party_takes_nobody() {
    let mut runtime = hosting();
    for guest in [1, 2, 3, 4] {
        runtime.handle_host_incoming(
            guest,
            hello("token"),
            "viewer",
            &host(),
            &state(5.0, false),
        );
    }
    assert_eq!(peers(&runtime), [1, 2, 3]);
    assert!(runtime.take_actions().iter().any(|a| matches!(
        a,
        SyncAction::Send { peer_id: 4, message: SteamSyncWireMsg::Error { message }, .. }
            if message == "watch-party lobby is full"
    )));
}
