//! What the shell is for, as laws: what it does for the web interface, what it
//! remembers, and what it shows.

use crate::config::{config_of, without_mark, words_of, Values};
use crate::encoding::{lowercase, url_encoded};
use crate::json::{json_string, JsonView};
use crate::lobby::{
    counts_text, ending_of, leaving_of, others_text_of, party_choices, party_line, presence_of,
    role_label_of, LobbyRole, LobbyView, PartyExit,
};
use crate::mpv_hwnd::{other_window, player_window, ChildWindow};
use crate::number::{decimal, decimal_denotes, real_zero, Real};
use crate::requests::{
    link_of, mpv_places, mpv_stream, play_external_request, request_of, LinkView, RequestView,
};
use crate::server::{local_endpoint, log_end, without_return, ServerOutputView};
use crate::shell_state::{
    placed, remembered, sane_volume, started_with, FoundState, PipPlacement, Rect, ShellState,
    WindowSettings,
};
use crate::steam_sync::{following_commands, policy_of, ModeView};
use crate::sync_protocol::{
    accepted_secret, link_payload, secret_json, STEAM_JOIN_PREFIX, SecretView,
};
use crate::text::{
    ascii_lowered, has_prefix, has_suffix, has_text, joined, occurs_at, split_on, trimmed,
    without_trailing,
};
use crate::urls::UrlPartsView;
use crate::webview::{
    accelerator_step, json_list, key_message, outside_link, quoted, reserved_key, AcceleratorView,
    Modifiers,
};
use crate::window::{PipStep, WindowModes};
use vstd::prelude::*;

verus! {

/// The text begins with the other.
pub open spec fn begins(s: Seq<char>, start: Seq<char>) -> bool {
    start.len() <= s.len() && s.take(start.len() as int) == start
}

proof fn begins_is_prefix(s: Seq<char>, start: Seq<char>)
    ensures
        begins(s, start) == has_prefix(s, start),
{
    if start.len() <= s.len() {
        assert(s.subrange(0, start.len() as int) =~= s.take(start.len() as int));
    }
}

// ---------------------------------------------------------------------------
// Links
// ---------------------------------------------------------------------------

/// The link of a watch party leads to the party, and any other link to
/// something to play; both are handed on as they are.
pub proof fn party_links_lead_to_parties(text: Seq<char>, payload: Seq<char>)
    ensures
        begins(text, "stremio://sync/"@) ==> link_of(text) == LinkView::Party(text),
        !begins(text, "stremio://sync/"@) ==> link_of(text) == LinkView::Media(text),
        link_of(STEAM_JOIN_PREFIX@ + payload) == LinkView::Party(STEAM_JOIN_PREFIX@ + payload),
{
    begins_is_prefix(text, "stremio://sync/"@);
    let link = STEAM_JOIN_PREFIX@ + payload;
    reveal_strlit("stremio://sync/");
    crate::sync_protocol::join_links_are_party_links();
    begins_is_prefix(link, "stremio://sync/"@);
    assert(link.take(15) =~= "stremio://sync/"@);
}

/// A text that is no join link is refused, and so is a payload that cannot be
/// read; a secret that has a fault is refused with it, and one without is
/// handed on as it is.
pub proof fn faulty_links_are_refused(link: Seq<char>, secret: SecretView, why: Seq<char>)
    ensures
        !begins(link, STEAM_JOIN_PREFIX@) ==> link_payload(link) == Err::<Seq<u8>, Seq<char>>(
            "not a Steam sync join URL"@,
        ),
        accepted_secret(Err(why)) == Err::<SecretView, Seq<char>>(
            "invalid Steam sync join JSON: "@ + why,
        ),
        secret.app_id == 480 && secret.lobby_id != 0 && secret.host_steam_id != 0 && trimmed(
            secret.party_id,
        ).len() > 0 && trimmed(secret.token).len() > 0 ==> accepted_secret(Ok(secret)) == Ok::<
            SecretView,
            Seq<char>,
        >(secret),
        secret.app_id != 480 || secret.lobby_id == 0 || secret.host_steam_id == 0 || trimmed(
            secret.party_id,
        ).len() == 0 || trimmed(secret.token).len() == 0 ==> accepted_secret(Ok(secret)) is Err,
        secret.app_id == 480 && secret.lobby_id == 0 ==> accepted_secret(Ok(secret)) == Err::<
            SecretView,
            Seq<char>,
        >("Steam lobby id is missing"@),
        secret.app_id == 480 && secret.lobby_id != 0 && secret.host_steam_id == 0
            ==> accepted_secret(Ok(secret)) == Err::<SecretView, Seq<char>>(
            "host Steam id is missing"@,
        ),
        secret.app_id == 480 && secret.lobby_id != 0 && secret.host_steam_id != 0 && trimmed(
            secret.party_id,
        ).len() > 0 && trimmed(secret.token).len() == 0 ==> accepted_secret(Ok(secret)) == Err::<
            SecretView,
            Seq<char>,
        >("join token is missing"@),
{
    begins_is_prefix(link, STEAM_JOIN_PREFIX@);
}

/// The secret in a link names everything that is needed to join: the
/// application, the lobby, the host, the party and the token, each under its
/// name.
pub proof fn secrets_name_everything(s: SecretView)
    ensures
        ({
            let json = secret_json(s);
            &&& has_text(json, "\"app_id\":"@ + decimal(s.app_id as nat) + ","@)
            &&& has_text(json, "\"lobby_id\":"@ + decimal(s.lobby_id as nat) + ","@)
            &&& has_text(json, "\"host_steam_id\":"@ + decimal(s.host_steam_id as nat) + ","@)
            &&& has_text(json, "\"party_id\":"@ + json_string(s.party_id) + ","@)
            &&& has_text(json, "\"token\":"@ + json_string(s.token) + "}"@)
        }),
{
    reveal_strlit("{\"app_id\":");
    reveal_strlit(",\"lobby_id\":");
    reveal_strlit(",\"host_steam_id\":");
    reveal_strlit(",\"party_id\":");
    reveal_strlit(",\"token\":");
    reveal_strlit("}");
    reveal_strlit("\"app_id\":");
    reveal_strlit("\"lobby_id\":");
    reveal_strlit("\"host_steam_id\":");
    reveal_strlit("\"party_id\":");
    reveal_strlit("\"token\":");
    reveal_strlit(",");
    let json = secret_json(s);
    let app = decimal(s.app_id as nat);
    let lobby = decimal(s.lobby_id as nat);
    let host = decimal(s.host_steam_id as nat);
    let party = json_string(s.party_id);
    let token = json_string(s.token);
    let p1 = "\"app_id\":"@ + app + ","@;
    assert(json.subrange(1, (1 + p1.len()) as int) =~= p1);
    assert(occurs_at(json, p1, 1));
    let o2 = 11 + app.len();
    let p2 = "\"lobby_id\":"@ + lobby + ","@;
    assert(json.subrange(o2 as int, (o2 + p2.len()) as int) =~= p2);
    assert(occurs_at(json, p2, o2 as int));
    let o3 = o2 + 12 + lobby.len();
    let p3 = "\"host_steam_id\":"@ + host + ","@;
    assert(json.subrange(o3 as int, (o3 + p3.len()) as int) =~= p3);
    assert(occurs_at(json, p3, o3 as int));
    let o4 = o3 + 17 + host.len();
    let p4 = "\"party_id\":"@ + party + ","@;
    assert(json.subrange(o4 as int, (o4 + p4.len()) as int) =~= p4);
    assert(occurs_at(json, p4, o4 as int));
    let o5 = o4 + 12 + party.len();
    let p5 = "\"token\":"@ + token + "}"@;
    assert(json.subrange(o5 as int, (o5 + p5.len()) as int) =~= p5);
    assert(occurs_at(json, p5, o5 as int));
}

/// A link that leaves the web interface leads to its page where the host is one
/// of the trusted, or below one, and to the warning otherwise.
pub proof fn trusted_links_are_followed(
    parts: UrlPartsView,
    trusted: Seq<Seq<char>>,
    warning_url: Seq<char>,
    k: int,
)
    ensures
        parts.host is None ==> outside_link(parts, trusted, warning_url) == warning_url
            + url_encoded(parts.text),
        parts.host is Some && 0 <= k < trusted.len() && trusted[k].len() <= parts.host->0.len()
            && parts.host->0.skip(parts.host->0.len() - trusted[k].len()) == trusted[k]
            ==> outside_link(parts, trusted, warning_url) == parts.text,
        parts.host is Some && (forall|i: int|
            0 <= i < trusted.len() ==> !has_suffix(parts.host->0, #[trigger] trusted[i]))
            ==> outside_link(parts, trusted, warning_url) == warning_url + url_encoded(parts.text),
{
    if parts.host is Some && 0 <= k < trusted.len() && trusted[k].len() <= parts.host->0.len()
        && parts.host->0.skip(parts.host->0.len() - trusted[k].len()) == trusted[k] {
        let host = parts.host->0;
        let at = host.len() - trusted[k].len();
        assert(host.subrange(at, at + trusted[k].len()) =~= host.skip(at));
        assert(has_suffix(host, trusted[k]));
    }
}

// ---------------------------------------------------------------------------
// Requests
// ---------------------------------------------------------------------------

/// A message without a method asks for nothing but to be greeted, where it does.
pub proof fn greetings_are_answered(params: Option<JsonView>, role: LobbyRole, command: Seq<char>)
    ensures
        request_of(None, params, true, role, command) == RequestView::Handshake,
        request_of(None, params, false, role, command) == RequestView::Nothing,
{
}

/// What the web interface asks of the window is done as asked, and left alone
/// where it does not say what it wants.
pub proof fn window_requests_are_done(
    params: JsonView,
    on: bool,
    url: Seq<char>,
    role: LobbyRole,
    command: Seq<char>,
)
    ensures
        ({
            let asked = |method: Seq<char>|
                request_of(Some(method), Some(params), false, role, command);
            &&& params.field("fullscreen"@) == Some(JsonView::Bool(on)) ==> asked(
                "win-set-visibility"@,
            ) == RequestView::SetFullscreen(on)
            &&& params.field("fullscreen"@) is None ==> asked("win-set-visibility"@)
                == RequestView::Nothing
            &&& params.field("enabled"@) == Some(JsonView::Bool(on)) ==> asked("win-set-pip"@)
                == RequestView::SetPip(Some(on))
            &&& params.field("enabled"@) is None ==> asked("win-set-pip"@) == RequestView::SetPip(
                None,
            )
            &&& asked("quit"@) == RequestView::Quit
            &&& params == JsonView::Text(url) ==> asked("shell-route-changed"@)
                == RequestView::RouteChanged(url)
            &&& asked("win-focus"@) == RequestView::Focus
            &&& asked("app-error"@) == RequestView::AppError
            &&& asked("autoupdater-notif-clicked"@) == RequestView::InstallUpdate
        }),
{
    methods_differ();
    let names = method_names();
    assert(names[0] == "win-set-visibility"@ && names[1] == "win-set-pip"@ && names[2] == "quit"@);
    assert(names[3] == "shell-route-changed"@ && names[4] == "shell-watch-party-leave"@);
    assert(names[5] == "shell-watch-party-kick"@ && names[6] == "app-ready"@);
    assert(names[7] == "app-error"@ && names[8] == "open-external"@ && names[9]
        == "play-external"@);
    assert(names[10] == "win-focus"@ && names[11] == "autoupdater-notif-clicked"@);
    assert(names[12] == "discord-connect"@ && names[13] == "discord-disconnect"@);
    only_its_own(names, 0);
    only_its_own(names, 1);
    only_its_own(names, 2);
    only_its_own(names, 3);
    only_its_own(names, 7);
    only_its_own(names, 10);
    only_its_own(names, 11);
}

/// The names of the methods are told apart.
proof fn methods_differ()
    ensures
        forall|i: int, j: int|
            0 <= i < method_names().len() && 0 <= j < method_names().len() && i != j
                ==> #[trigger] method_names()[i] != #[trigger] method_names()[j],
{
    reveal_strlit("win-set-visibility");
    reveal_strlit("win-set-pip");
    reveal_strlit("quit");
    reveal_strlit("shell-route-changed");
    reveal_strlit("shell-watch-party-leave");
    reveal_strlit("shell-watch-party-kick");
    reveal_strlit("app-ready");
    reveal_strlit("app-error");
    reveal_strlit("open-external");
    reveal_strlit("play-external");
    reveal_strlit("win-focus");
    reveal_strlit("autoupdater-notif-clicked");
    reveal_strlit("discord-connect");
    reveal_strlit("discord-disconnect");
    reveal_strlit("discord-set-activity");
    reveal_strlit("discord-clear-activity");
    reveal_strlit("media.status");
    reveal_strlit("media.metadata");
    let names = method_names();
    assert(names[0].len() == 18);
    assert(names[1].len() == 11);
    assert(names[2].len() == 4);
    assert(names[3].len() == 19);
    assert(names[4].len() == 23);
    assert(names[5].len() == 22);
    assert(names[6].len() == 9);
    assert(names[7].len() == 9);
    assert(names[8].len() == 13);
    assert(names[9].len() == 13);
    assert(names[10].len() == 9);
    assert(names[11].len() == 25);
    assert(names[12].len() == 15);
    assert(names[13].len() == 18);
    assert(names[14].len() == 20);
    assert(names[15].len() == 22);
    assert(names[16].len() == 12);
    assert(names[17].len() == 14);
    // Names of equal length differ in a character.
    assert(names[6][4] == 'r' && names[7][4] == 'e' && names[10][4] == 'f');
    assert(names[8][0] == 'o' && names[9][0] == 'p');
    assert(names[0][0] == 'w' && names[13][0] == 'd');
    assert(names[5][0] == 's' && names[15][0] == 'd');
    assert forall|i: int, j: int|
        0 <= i < names.len() && 0 <= j < names.len() && i != j implies #[trigger] names[i]
        != #[trigger] names[j] by {
        assert(names[i].len() != names[j].len() || names[i][0] != names[j][0] || names[i][4]
            != names[j][4]);
    }
}

/// The methods that are known by their whole name.
pub open spec fn method_names() -> Seq<Seq<char>> {
    seq![
        "win-set-visibility"@,
        "win-set-pip"@,
        "quit"@,
        "shell-route-changed"@,
        "shell-watch-party-leave"@,
        "shell-watch-party-kick"@,
        "app-ready"@,
        "app-error"@,
        "open-external"@,
        "play-external"@,
        "win-focus"@,
        "autoupdater-notif-clicked"@,
        "discord-connect"@,
        "discord-disconnect"@,
        "discord-set-activity"@,
        "discord-clear-activity"@,
        "media.status"@,
        "media.metadata"@,
    ]
}

/// A stream for mpv is played by mpv, without its scheme; one for another player
/// is handed to the system as it is; anything else is left alone.
pub proof fn streams_reach_their_players(url: Seq<char>)
    ensures
        begins(lowercase(url), "mpv://"@) && url.len() > 0 ==> play_external_request(url)
            == RequestView::PlayWithMpv(mpv_stream(url)),
        url.len() > 6 ==> url == url.take(6) + mpv_stream(url),
        url.len() <= 6 ==> mpv_stream(url).len() == 0,
        url.len() > 0 && !begins(lowercase(url), "mpv://"@) && (begins(lowercase(url), "vlc://"@)
            || begins(lowercase(url), "potplayer://"@)) ==> play_external_request(url)
            == RequestView::OpenExternal(url),
        !begins(lowercase(url), "mpv://"@) && !begins(lowercase(url), "vlc://"@) && !begins(
            lowercase(url),
            "potplayer://"@,
        ) ==> play_external_request(url) == RequestView::Nothing,
        play_external_request(Seq::empty()) == RequestView::Nothing,
{
    begins_is_prefix(lowercase(url), "mpv://"@);
    begins_is_prefix(lowercase(url), "vlc://"@);
    begins_is_prefix(lowercase(url), "potplayer://"@);
    if url.len() > 6 {
        assert(url =~= url.take(6) + url.skip(6));
    }
}

/// What the web interface wants played by another program is what that program
/// gets; without a text nothing is played.
pub proof fn wanted_streams_are_played(params: JsonView, role: LobbyRole, command: Seq<char>)
    ensures
        ({
            let asked = request_of(Some("play-external"@), Some(params), false, role, command);
            &&& params matches JsonView::Text(url) ==> asked == play_external_request(url)
            &&& !(params is Text) ==> asked == RequestView::Nothing
        }),
        request_of(Some("play-external"@), None, false, role, command) == RequestView::Nothing,
{
    methods_differ();
    let names = method_names();
    assert(names[0] == "win-set-visibility"@ && names[1] == "win-set-pip"@ && names[2] == "quit"@);
    assert(names[3] == "shell-route-changed"@ && names[4] == "shell-watch-party-leave"@);
    assert(names[5] == "shell-watch-party-kick"@ && names[6] == "app-ready"@);
    assert(names[7] == "app-error"@ && names[8] == "open-external"@ && names[9]
        == "play-external"@);
    only_its_own(names, 9);
}

/// mpv is looked for in the folders of the system's programs and of the user's,
/// and at last wherever the system finds it.
pub proof fn mpv_is_looked_for(
    program_files: Option<Seq<char>>,
    program_files_x86: Option<Seq<char>>,
    local_app_data: Option<Seq<char>>,
)
    ensures
        ({
            let places = mpv_places(program_files, program_files_x86, local_app_data);
            &&& places.len() >= 1
            &&& places.last() == "mpv.exe"@
            &&& program_files matches Some(folder) ==> places[0] == folder + "\\mpv\\mpv.exe"@
            &&& program_files is None ==> (program_files_x86 matches Some(folder) ==> places[0]
                == folder + "\\mpv\\mpv.exe"@)
            &&& local_app_data matches Some(folder) ==> places.len() >= 3 && places[places.len() - 3]
                == folder + "\\Programs\\mpv\\mpv.exe"@ && places[places.len() - 2] == folder
                + "\\mpv\\mpv.exe"@
            &&& places.len() == 1 + (if program_files is Some {
                1int
            } else {
                0
            }) + (if program_files_x86 is Some {
                1int
            } else {
                0
            }) + (if local_app_data is Some {
                2int
            } else {
                0
            })
        }),
{
}

/// An address of the web is opened outside, as it is; what has another scheme is
/// not.
pub proof fn web_addresses_are_opened(url: Seq<char>, role: LobbyRole, command: Seq<char>)
    ensures
        ({
            let asked = request_of(
                Some("open-external"@),
                Some(JsonView::Text(url)),
                false,
                role,
                command,
            );
            let lower = lowercase(url);
            let known = begins(lower, "http://"@) || begins(lower, "https://"@) || begins(
                lower,
                "rtp://"@,
            ) || begins(lower, "rtps://"@) || begins(lower, "ftp://"@) || begins(
                lower,
                "ipfs://"@,
            );
            &&& known ==> asked == RequestView::OpenExternal(url)
            &&& !known ==> asked == RequestView::Nothing
        }),
        request_of(Some("open-external"@), None, false, role, command) == RequestView::Nothing,
{
    methods_differ();
    let names = method_names();
    assert(names[8] != names[0] && names[8] != names[1] && names[8] != names[2] && names[8]
        != names[3] && names[8] != names[4] && names[8] != names[5] && names[8] != names[6]
        && names[8] != names[7]);
    let lower = lowercase(url);
    begins_is_prefix(lower, "http://"@);
    begins_is_prefix(lower, "https://"@);
    begins_is_prefix(lower, "rtp://"@);
    begins_is_prefix(lower, "rtps://"@);
    begins_is_prefix(lower, "ftp://"@);
    begins_is_prefix(lower, "ipfs://"@);
}

/// A host removes the member whose number it gives, written or as a number;
/// nobody else removes anyone, and anyone may leave.
pub proof fn hosts_name_whom_they_remove(
    params: JsonView,
    id: u64,
    role: LobbyRole,
    command: Seq<char>,
)
    ensures
        ({
            let asked = request_of(
                Some("shell-watch-party-kick"@),
                Some(params),
                false,
                role,
                command,
            );
            &&& role == LobbyRole::Host && params.field("steamId"@) == Some(
                JsonView::Text(decimal(id as nat)),
            ) ==> asked == RequestView::KickMember(id)
            &&& role == LobbyRole::Host && (params.field("steamId"@) matches Some(
                JsonView::Number(n),
            ) && n.unsigned == Some(id)) ==> asked == RequestView::KickMember(id)
            &&& role != LobbyRole::Host || params.field("steamId"@) is None ==> asked
                == RequestView::Nothing
        }),
        request_of(Some("shell-watch-party-leave"@), Some(params), false, role, command)
            == RequestView::LeaveParty,
{
    methods_differ();
    let names = method_names();
    assert(names[5] != names[0] && names[5] != names[1] && names[5] != names[2] && names[5]
        != names[3] && names[5] != names[4]);
    assert(names[4] != names[0] && names[4] != names[1] && names[4] != names[2] && names[4]
        != names[3]);
    decimal_denotes(id as nat);
}

/// When the web interface is ready, the link that the shell was started with is
/// followed, where there is one.
pub proof fn links_are_followed_when_ready(
    params: Option<JsonView>,
    role: LobbyRole,
    command: Seq<char>,
)
    ensures
        command.len() == 0 ==> request_of(Some("app-ready"@), params, false, role, command)
            == RequestView::AppReady(None),
        begins(command, "stremio://sync/"@) ==> request_of(
            Some("app-ready"@),
            params,
            false,
            role,
            command,
        ) == RequestView::AppReady(Some(LinkView::Party(command))),
        command.len() > 0 && !begins(command, "stremio://sync/"@) ==> request_of(
            Some("app-ready"@),
            params,
            false,
            role,
            command,
        ) == RequestView::AppReady(Some(LinkView::Media(command))),
{
    methods_differ();
    let names = method_names();
    assert(names[6] != names[0] && names[6] != names[1] && names[6] != names[2] && names[6]
        != names[3] && names[6] != names[4] && names[6] != names[5]);
    party_links_lead_to_parties(command, command);
    reveal_strlit("stremio://sync/");
}

/// What the web interface reports of playback and title is taken in as such, and
/// what has a name that nobody knows is called unsupported.
pub proof fn reports_are_taken_in(
    method: Seq<char>,
    params: Option<JsonView>,
    role: LobbyRole,
    command: Seq<char>,
)
    ensures
        request_of(Some("media.status"@), params, false, role, command) == RequestView::MediaStatus,
        request_of(Some("media.metadata"@), params, false, role, command)
            == RequestView::MediaMetadata,
        request_of(Some("discord-connect"@), params, false, role, command)
            == RequestView::DiscordConnect,
        request_of(Some("discord-disconnect"@), params, false, role, command)
            == RequestView::DiscordDisconnect,
        request_of(Some("discord-clear-activity"@), params, false, role, command)
            == RequestView::DiscordClearActivity,
        !begins(method, "mpv-"@) && !method_names().contains(method) ==> request_of(
            Some(method),
            params,
            false,
            role,
            command,
        ) == RequestView::Unsupported(method),
{
    methods_differ();
    let names = method_names();
    assert forall|i: int| 0 <= i < 18 implies names.contains(#[trigger] names[i]) by {}
    reveal_strlit("media.status");
    reveal_strlit("media.metadata");
    reveal_strlit("discord-connect");
    reveal_strlit("discord-disconnect");
    reveal_strlit("discord-clear-activity");
    reveal_strlit("mpv-");
    begins_is_prefix(method, "mpv-"@);
    assert("media.status"@.take(4)[1] != "mpv-"@[1]);
    assert("media.metadata"@.take(4)[1] != "mpv-"@[1]);
    begins_is_prefix("media.status"@, "mpv-"@);
    begins_is_prefix("media.metadata"@, "mpv-"@);
    only_its_own(names, 16);
    only_its_own(names, 17);
    only_its_own(names, 12);
    only_its_own(names, 13);
    only_its_own(names, 15);
    assert(names[0] == "win-set-visibility"@ && names[1] == "win-set-pip"@ && names[2] == "quit"@);
    assert(names[3] == "shell-route-changed"@ && names[4] == "shell-watch-party-leave"@);
    assert(names[5] == "shell-watch-party-kick"@ && names[6] == "app-ready"@);
    assert(names[7] == "app-error"@ && names[8] == "open-external"@ && names[9]
        == "play-external"@);
    assert(names[10] == "win-focus"@ && names[11] == "autoupdater-notif-clicked"@);
    assert(names[12] == "discord-connect"@ && names[13] == "discord-disconnect"@);
    assert(names[14] == "discord-set-activity"@ && names[15] == "discord-clear-activity"@);
    assert(names[16] == "media.status"@ && names[17] == "media.metadata"@);
}

proof fn only_its_own(names: Seq<Seq<char>>, k: int)
    requires
        0 <= k < 18,
        names.len() == 18,
        forall|i: int, j: int|
            0 <= i < names.len() && 0 <= j < names.len() && i != j ==> #[trigger] names[i]
                != #[trigger] names[j],
    ensures
        k != 0 ==> names[k] != names[0],
        k != 1 ==> names[k] != names[1],
        k != 2 ==> names[k] != names[2],
        k != 3 ==> names[k] != names[3],
        k != 4 ==> names[k] != names[4],
        k != 5 ==> names[k] != names[5],
        k != 6 ==> names[k] != names[6],
        k != 7 ==> names[k] != names[7],
        k != 8 ==> names[k] != names[8],
        k != 9 ==> names[k] != names[9],
        k != 10 ==> names[k] != names[10],
        k != 11 ==> names[k] != names[11],
        k != 12 ==> names[k] != names[12],
        k != 13 ==> names[k] != names[13],
        k != 14 ==> names[k] != names[14],
        k != 15 ==> names[k] != names[15],
        k != 16 ==> names[k] != names[16],
        k != 17 ==> names[k] != names[17],
{
}

/// What the web interface wants shown on Discord is what is shown.
pub proof fn wanted_activities_are_shown(
    params: JsonView,
    t: Seq<char>,
    role: LobbyRole,
    command: Seq<char>,
)
    ensures
        ({
            let asked = request_of(
                Some("discord-set-activity"@),
                Some(params),
                false,
                role,
                command,
            );
            &&& asked matches RequestView::DiscordSetActivity(a)
            &&& params.text_field("state"@) == Some(t) ==> a.state == t
            &&& params.text_field("state"@) is None ==> a.state.len() == 0
            &&& params.text_field("details"@) == Some(t) ==> a.details == t
            &&& params.text_field("details"@) is None ==> a.details.len() == 0
            &&& a.image == params.text_field("image"@)
            &&& params.field("startTimestamp"@) matches Some(v) ==> a.start_timestamp == v.signed()
            &&& params.field("endTimestamp"@) matches Some(v) ==> a.end_timestamp == v.signed()
            &&& params.field("endTimestamp"@) is None ==> a.end_timestamp is None
        }),
        request_of(Some("discord-set-activity"@), None, false, role, command)
            == RequestView::Nothing,
{
    methods_differ();
    only_its_own(method_names(), 14);
    let names = method_names();
    assert(names[14] == "discord-set-activity"@);
    assert(names[0] == "win-set-visibility"@ && names[1] == "win-set-pip"@ && names[2] == "quit"@);
    assert(names[3] == "shell-route-changed"@ && names[4] == "shell-watch-party-leave"@);
    assert(names[5] == "shell-watch-party-kick"@ && names[6] == "app-ready"@);
    assert(names[7] == "app-error"@ && names[8] == "open-external"@ && names[9]
        == "play-external"@);
    assert(names[10] == "win-focus"@ && names[11] == "autoupdater-notif-clicked"@);
    assert(names[12] == "discord-connect"@ && names[13] == "discord-disconnect"@);
}

// ---------------------------------------------------------------------------
// Keys
// ---------------------------------------------------------------------------

/// The browser's own shortcuts are F7, and Ctrl with F or G: a key that is none
/// of them goes to the page; one of them goes to the player where the player
/// owns it, its page is shown and the key goes down; and to nobody otherwise.
pub proof fn shortcuts_reach_the_player(
    virtual_key: u32,
    held: Modifiers,
    key_down: bool,
    url: Seq<char>,
    keys: Seq<Seq<char>>,
    name: Seq<char>,
)
    requires
        reserved_key(virtual_key, held) == Some(name),
    ensures
        ({
            let step = accelerator_step(virtual_key, held, key_down, url, keys);
            let shortcut = virtual_key == 0x76 || (held.ctrl && (virtual_key == 0x46 || virtual_key
                == 0x47));
            &&& !shortcut ==> step == AcceleratorView::PassOn
            &&& shortcut && key_down && has_text(url, "/player/"@) && keys.contains(name) ==> step
                == AcceleratorView::Player(name)
            &&& shortcut && !(key_down && has_text(url, "/player/"@) && keys.contains(name))
                ==> step == AcceleratorView::Swallow
        }),
{
}

/// The player knows these keys by their names: letters by their case, F7 with
/// Shift, and each with what else is held.
pub proof fn shortcuts_have_names(held: Modifiers)
    ensures
        !held.alt && !held.meta && held.ctrl && !held.shift ==> reserved_key(0x46, held) == Some(
            "Ctrl+f"@,
        ) && reserved_key(0x47, held) == Some("Ctrl+g"@),
        !held.alt && !held.meta && held.ctrl && held.shift ==> reserved_key(0x46, held) == Some(
            "Ctrl+F"@,
        ) && reserved_key(0x47, held) == Some("Ctrl+G"@),
        !held.alt && !held.meta && !held.ctrl && !held.shift ==> reserved_key(0x76, held) == Some(
            "F7"@,
        ),
        !held.alt && !held.meta && !held.ctrl && held.shift ==> reserved_key(0x76, held) == Some(
            "Shift+F7"@,
        ),
        held.alt && !held.meta && !held.ctrl && !held.shift ==> reserved_key(0x76, held) == Some(
            "Alt+F7"@,
        ),
        !held.alt && held.meta && !held.ctrl && !held.shift ==> reserved_key(0x76, held) == Some(
            "Meta+F7"@,
        ),
        reserved_key(0x48, held) is None,
{
    reveal_strlit("Ctrl+f");
    reveal_strlit("Ctrl+g");
    reveal_strlit("Ctrl+F");
    reveal_strlit("Ctrl+G");
    reveal_strlit("Ctrl+");
    reveal_strlit("f");
    reveal_strlit("g");
    reveal_strlit("F");
    reveal_strlit("G");
    reveal_strlit("F7");
    reveal_strlit("Shift+");
    reveal_strlit("Shift+F7");
    reveal_strlit("Alt+");
    reveal_strlit("Alt+F7");
    reveal_strlit("Meta+");
    reveal_strlit("Meta+F7");
    if !held.alt && !held.meta && held.ctrl && !held.shift {
        assert(reserved_key(0x46, held)->0 =~= "Ctrl+f"@);
        assert(reserved_key(0x47, held)->0 =~= "Ctrl+g"@);
    }
    if !held.alt && !held.meta && held.ctrl && held.shift {
        assert(reserved_key(0x46, held)->0 =~= "Ctrl+F"@);
        assert(reserved_key(0x47, held)->0 =~= "Ctrl+G"@);
    }
    if !held.alt && !held.meta && !held.ctrl && !held.shift {
        assert(reserved_key(0x76, held)->0 =~= "F7"@);
    }
    if !held.alt && !held.meta && !held.ctrl && held.shift {
        assert(reserved_key(0x76, held)->0 =~= "Shift+F7"@);
    }
    if held.alt && !held.meta && !held.ctrl && !held.shift {
        assert(reserved_key(0x76, held)->0 =~= "Alt+F7"@);
    }
    if !held.alt && held.meta && !held.ctrl && !held.shift {
        assert(reserved_key(0x76, held)->0 =~= "Meta+F7"@);
    }
}

/// The keyboard's media keys pause, go forward and go back; others do nothing.
pub proof fn media_keys_are_known(l: u64)
    ensures
        ({
            let n = (l / 65536) % 4096;
            &&& n == 14 || n == 46 || n == 47 ==> key_message(l) == Some(
                "[\"mpv-command\", [\"cycle\", \"pause\"]]"@,
            )
            &&& n == 11 ==> key_message(l) == Some(
                "[\"mpv-command\", [\"seek\", \"10\", \"relative\"]]"@,
            )
            &&& n == 12 ==> key_message(l) == Some(
                "[\"mpv-command\", [\"seek\", \"-10\", \"relative\"]]"@,
            )
            &&& key_message(l) is Some ==> n == 11 || n == 12 || n == 14 || n == 46 || n == 47
        }),
{
}

/// The script is told every key of the player's in the notation of JSON, one
/// after the other.
pub proof fn scripts_are_told_the_keys(list: Seq<Seq<char>>, key: Seq<char>)
    ensures
        json_list(Seq::empty()) == "[]"@,
        json_list(seq![key]) == "["@ + json_string(key) + "]"@,
        list.len() > 0 ==> json_list(list.push(key)) == json_list(list).drop_last() + ","@
            + json_string(key) + "]"@,
{
    reveal_strlit("[]");
    reveal_strlit("[");
    reveal_strlit("]");
    let one = quoted(seq![key]);
    assert(one =~= seq![json_string(key)]);
    assert(quoted(Seq::empty()) =~= Seq::<Seq<char>>::empty());
    assert(json_list(Seq::empty()) =~= "[]"@);
    assert(json_list(seq![key]) =~= "["@ + json_string(key) + "]"@);
    if list.len() > 0 {
        let all = quoted(list.push(key));
        assert(all.drop_last() =~= quoted(list));
        assert(all.last() == json_string(key));
        assert(json_list(list).drop_last() =~= "["@ + joined(quoted(list), ","@));
        assert(json_list(list.push(key)) =~= json_list(list).drop_last() + ","@ + json_string(key)
            + "]"@);
    }
}

// ---------------------------------------------------------------------------
// Windows
// ---------------------------------------------------------------------------

/// The small window comes and goes as asked, or turns over where neither is
/// asked for: where there is a window, it was built, and the main one does not
/// fill the screen.
pub proof fn small_windows_follow_requests(modes: WindowModes, found: Option<usize>, on: bool)
    requires
        modes.pip_built,
        !modes.full_screen,
        modes.requested_pip == Some(on) || (modes.requested_pip is None && on
            == !modes.pip_active),
    ensures
        ({
            let (after, step) = modes.pip_toggled(true, found);
            let video = if modes.video is Some {
                modes.video
            } else {
                found
            };
            &&& after.requested_pip is None
            &&& after.full_screen == modes.full_screen
            &&& !on ==> !after.pip_active
            &&& !on && modes.pip_active ==> step == PipStep::Detach
            &&& on && !modes.pip_active && video is Some ==> after.pip_active && step
                == PipStep::Attach(video->0) && after.video == video
            &&& on && !modes.pip_active && video is None ==> !after.pip_active && step
                == PipStep::Missing
            &&& on == modes.pip_active ==> step == PipStep::Nothing && after.pip_active
                == modes.pip_active
        }),
{
}

/// The main window fills the screen as asked, or turns over; the small window is
/// left for it.
pub proof fn main_windows_follow_requests(modes: WindowModes, found: Option<usize>)
    requires
        modes.valid(),
    ensures
        ({
            let after = modes.fullscreen_toggled(true, found);
            &&& modes.requested_fullscreen matches Some(on) ==> after.full_screen == on
            &&& modes.requested_fullscreen is None ==> after.full_screen == !modes.full_screen
            &&& after.requested_fullscreen is None
            &&& !after.pip_active
            &&& modes.pip_active ==> modes.pip_left(true, found).1 == PipStep::Detach
            &&& !modes.pip_active ==> modes.pip_left(true, found) == (modes, PipStep::Nothing)
        }),
{
}

/// Without a window nothing is put into the small one or taken out of it, and
/// while the main one fills the screen a request for the small one is dropped.
pub proof fn small_windows_wait_for_their_place(modes: WindowModes, found: Option<usize>)
    ensures
        modes.pip_toggled(false, found) == (modes, PipStep::Nothing),
        modes.full_screen ==> modes.pip_toggled(true, found) == (
            WindowModes { requested_pip: None, ..modes },
            PipStep::Nothing,
        ),
{
}

/// The player's window is the first of its class, whatever stands before it.
pub proof fn players_are_found_by_class(children: Seq<ChildWindow>, k: int)
    requires
        0 <= k < children.len(),
        ascii_lowered(children[k].class@) == "mpv"@,
        forall|j: int|
            0 <= j < k ==> ascii_lowered((#[trigger] children[j]).class@) != "mpv"@,
    ensures
        player_window(children) == Some(children[k].handle),
    decreases children.len(),
{
    if k > 0 {
        let rest = children.drop_first();
        assert(rest[k - 1] == children[k]);
        assert forall|j: int| 0 <= j < k - 1 implies ascii_lowered((#[trigger] rest[j]).class@)
            != "mpv"@ by {
            assert(rest[j] == children[j + 1]);
        }
        assert(ascii_lowered(children[0].class@) != "mpv"@);
        players_are_found_by_class(rest, k - 1);
    }
}

/// Among others the first is taken that is not the web interface's.
pub proof fn web_windows_are_passed_over(children: Seq<ChildWindow>, k: int)
    requires
        0 <= k < children.len(),
        !begins(children[k].class@, "Chrome_"@),
        children[k].class@ != "Intermediate D3D Window"@,
        forall|j: int|
            0 <= j < k ==> begins((#[trigger] children[j]).class@, "Chrome_"@)
                || children[j].class@ == "Intermediate D3D Window"@,
    ensures
        other_window(children) == Some(children[k].handle),
    decreases children.len(),
{
    begins_is_prefix(children[0].class@, "Chrome_"@);
    if k > 0 {
        let rest = children.drop_first();
        assert(rest[k - 1] == children[k]);
        assert forall|j: int| 0 <= j < k - 1 implies begins((#[trigger] rest[j]).class@, "Chrome_"@)
            || rest[j].class@ == "Intermediate D3D Window"@ by {
            assert(rest[j] == children[j + 1]);
        }
        assert(begins(children[0].class@, "Chrome_"@) || children[0].class@
            == "Intermediate D3D Window"@);
        web_windows_are_passed_over(rest, k - 1);
    }
}

// ---------------------------------------------------------------------------
// What is remembered
// ---------------------------------------------------------------------------

/// The rectangle holds something.
pub open spec fn holds_something(r: Rect) -> bool {
    r.left < r.right && r.top < r.bottom
}

/// What is remembered of a window is where it stands and whether it fills the
/// screen; nothing is remembered of one that is minimised or empty.
pub proof fn windows_are_remembered(iconic: bool, p: WindowSettings)
    ensures
        iconic || !holds_something(p.normal_position) ==> remembered(iconic, Some(p)) is None,
        !iconic && holds_something(p.normal_position) ==> (remembered(iconic, Some(p)) matches Some(
            r,
        ) && r.normal_position == p.normal_position && r.min_position == p.min_position
            && r.max_position == p.max_position && (r.show_cmd == 3 <==> p.show_cmd == 3) && (
        r.show_cmd == 1 <==> p.show_cmd != 3)),
        remembered(iconic, None) is None,
{
}

/// What was remembered comes back as it was; an empty window is shown at its
/// normal size.
pub proof fn remembered_windows_come_back(s: WindowSettings, iconic: bool, p: WindowSettings)
    ensures
        holds_something(s.normal_position) ==> placed(s) == s,
        !holds_something(s.normal_position) ==> placed(s).show_cmd == 1,
        placed(s).normal_position == s.normal_position,
        remembered(iconic, Some(p)) matches Some(r) ==> placed(r) == r,
{
}

/// The place of the window is noted unless it fills the screen, and what else is
/// remembered stays; the next start finds it.
pub proof fn places_are_kept(
    state: ShellState,
    placement: Option<WindowSettings>,
    fullscreen: bool,
    found: FoundState,
)
    ensures
        ({
            let after = state.with_window(placement, fullscreen);
            &&& after.fullscreen == fullscreen
            &&& !fullscreen && placement is Some ==> after.window == placement
            &&& fullscreen || placement is None ==> after.window == state.window
            &&& after.pip == state.pip
            &&& found.current == Some(after) ==> started_with(found).window == after.window
                && started_with(found).fullscreen == after.fullscreen && started_with(found).pip
                == after.pip
        }),
{
}

/// The place of the small window and the volume are noted in the same way: the
/// next start finds them, and the rest as it was.
pub proof fn small_windows_and_volumes_are_kept(
    state: ShellState,
    placement: PipPlacement,
    volume: Real,
    found: FoundState,
)
    ensures
        state.with_pip(placement).pip == Some(placement),
        state.with_pip(placement).window == state.window,
        state.with_pip(placement).fullscreen == state.fullscreen,
        found.current == Some(state.with_pip(placement)) ==> started_with(found).pip == Some(
            placement,
        ),
        volume.finite() && real_zero().at_most(volume) && volume.at_most(
            Real { bits: 0x4060_4000_0000_0000 },
        ) ==> state.with_volume(volume).volume == volume && (found.current == Some(
            state.with_volume(volume),
        ) ==> started_with(found).volume == volume),
        state.with_volume(volume).window == state.window,
        state.with_volume(volume).pip == state.pip,
{
}

/// A volume between 0 and 130 is taken as it is, a smaller or larger one as the
/// nearest of them, and what is no number as 100.
pub proof fn volumes_are_kept_in_bounds(volume: Real)
    ensures
        volume.finite() && real_zero().at_most(volume) && volume.at_most(
            Real { bits: 0x4060_4000_0000_0000 },
        ) ==> sane_volume(volume) == volume,
        volume.finite() && volume.less(real_zero()) ==> sane_volume(volume) == real_zero(),
        volume.finite() && (Real { bits: 0x4060_4000_0000_0000 }).less(volume) ==> sane_volume(
            volume,
        ) == (Real { bits: 0x4060_4000_0000_0000 }),
        !volume.finite() ==> sane_volume(volume) == (Real { bits: 0x4059_0000_0000_0000 }),
{
}

/// The volume of an earlier run is kept in the same bounds, also where an older
/// version left it.
pub proof fn earlier_volumes_are_kept_in_bounds(found: FoundState, state: ShellState, volume: Real)
    requires
        (found.current == Some(state) && state.volume == volume) || (found.current is None
            && found.legacy_volume == Some(volume)),
    ensures
        started_with(found).version == 1,
        volume.finite() && real_zero().at_most(volume) && volume.at_most(
            Real { bits: 0x4060_4000_0000_0000 },
        ) ==> started_with(found).volume == volume,
        volume.finite() && volume.less(real_zero()) ==> started_with(found).volume == real_zero(),
        volume.finite() && (Real { bits: 0x4060_4000_0000_0000 }).less(volume) ==> started_with(
            found,
        ).volume == (Real { bits: 0x4060_4000_0000_0000 }),
        !volume.finite() ==> started_with(found).volume == (Real { bits: 0x4059_0000_0000_0000 }),
        found.current is None ==> started_with(found).window == found.legacy_window && started_with(
            found,
        ).pip == found.legacy_pip && !started_with(found).fullscreen,
{
}

/// Without anything found the shell starts in a window, at full volume and with
/// nothing remembered.
pub proof fn first_starts_are_plain(found: FoundState)
    requires
        found.current is None,
        found.legacy_window is None,
        found.legacy_pip is None,
        found.legacy_volume is None,
    ensures
        started_with(found).window is None,
        started_with(found).pip is None,
        !started_with(found).fullscreen,
        started_with(found).volume == (Real { bits: 0x4059_0000_0000_0000 }),
        started_with(found).version == 1,
{
}

// ---------------------------------------------------------------------------
// Settings
// ---------------------------------------------------------------------------

/// The file says under the name what stands there.
pub open spec fn says(values: Values, section: Seq<char>, key: Seq<char>, value: Seq<char>) -> bool {
    values.contains_key((section, key)) && values[(section, key)] == value
}

/// Each switch is on where the file says `true`, off where it says anything
/// else, and as it is by default where the file says nothing.
pub proof fn switches_obey_the_file(values: Values, value: Seq<char>)
    ensures
        ({
            let c = config_of(values);
            let on = value == "true"@;
            &&& says(values, "Buttons"@, "show_buttons"@, value) ==> c.show_buttons == on
            &&& says(values, "Activity"@, "disable_in_menu"@, value) ==> c.disable_in_menu == on
            &&& says(values, "Activity"@, "disable_when_paused"@, value) ==> c.disable_when_paused
                == on
            &&& says(values, "Activity"@, "show_small_image"@, value) ==> c.show_small_image == on
            &&& says(values, "Activity"@, "swap_name_and_title"@, value) ==> c.swap_name_and_title
                == on
            &&& says(values, "AutoSkip"@, "enabled"@, value) ==> c.auto_skip_enabled == on
            &&& says(values, "AutoSkip"@, "skip_intro"@, value) ==> c.auto_skip_intro == on
            &&& says(values, "AutoSkip"@, "skip_recap"@, value) ==> c.auto_skip_recap == on
            &&& says(values, "AutoSkip"@, "skip_outro"@, value) ==> c.auto_skip_outro == on
        }),
{
}

/// An empty file means: buttons and the small image are shown, everything is
/// skipped, nothing is swapped or switched off, and links lead to the
/// application.
pub proof fn defaults_are_as_documented()
    ensures
        ({
            let c = config_of(Map::empty());
            &&& c.show_buttons
            &&& c.link_target == "app"@
            &&& !c.disable_in_menu
            &&& !c.disable_when_paused
            &&& c.refresh_interval == 5
            &&& c.show_small_image
            &&& !c.swap_name_and_title
            &&& c.lobby_max_size == 8
            &&& c.auto_skip_enabled
            &&& c.auto_skip_intro
            &&& c.auto_skip_recap
            &&& c.auto_skip_outro
            &&& c.introdb_api_key is None
            &&& c.theintrodb_api_key is None
        }),
{
}

/// Texts and numbers are taken from the file: the target of links as it is, the
/// interval and the size of a lobby where they are numbers, the keys without
/// white space around them.
pub proof fn values_are_taken_from_the_file(values: Values, value: Seq<char>, n: u64, size: i32)
    ensures
        ({
            let c = config_of(values);
            &&& says(values, "Buttons"@, "link_target"@, value) ==> c.link_target == value
            &&& says(values, "Activity"@, "refresh_interval"@, decimal(n as nat))
                ==> c.refresh_interval == n
            &&& 2 <= size <= 16 && says(values, "Lobby"@, "lobby_max_size"@, decimal(size as nat))
                ==> c.lobby_max_size == size
            &&& size > 16 && says(values, "Lobby"@, "lobby_max_size"@, decimal(size as nat))
                ==> c.lobby_max_size == 16
            &&& 0 <= size < 2 && says(values, "Lobby"@, "lobby_max_size"@, decimal(size as nat))
                ==> c.lobby_max_size == 2
            &&& says(values, "IntroDB"@, "api_key"@, value) && trimmed(value).len() > 0
                ==> c.introdb_api_key == Some(trimmed(value))
            &&& says(values, "IntroDB"@, "api_key"@, value) && trimmed(value).len() == 0
                ==> c.introdb_api_key is None
            &&& says(values, "TheIntroDB"@, "api_key"@, value) && trimmed(value).len() > 0
                ==> c.theintrodb_api_key == Some(trimmed(value))
        }),
{
    decimal_denotes(n as nat);
    if size >= 0 {
        decimal_denotes(size as nat);
        unsigned_number(size as nat);
    }
}

proof fn unsigned_number(n: nat)
    ensures
        decimal(n).len() > 0,
        decimal(n)[0] != '-',
        crate::number::integer_of(decimal(n)) == Some(n as int),
{
    decimal_denotes(n);
    assert(crate::text::is_digit(decimal(n)[0]));
}

/// A word of a list counts where it is not blank: without the white space around
/// it and in lower case. No other word does.
pub proof fn words_are_taken_from_the_list(pieces: Seq<Seq<char>>, k: int)
    ensures
        0 <= k < pieces.len() && trimmed(pieces[k]).len() > 0 ==> words_of(pieces).contains(
            lowercase(trimmed(pieces[k])),
        ),
        words_of(pieces).len() <= pieces.len(),
        (forall|i: int| 0 <= i < pieces.len() ==> trimmed(#[trigger] pieces[i]).len() == 0)
            ==> words_of(pieces).len() == 0,
    decreases pieces.len(),
{
    if pieces.len() > 0 {
        let before = pieces.drop_last();
        words_are_taken_from_the_list(before, k);
        let words = words_of(pieces);
        if 0 <= k < pieces.len() && trimmed(pieces[k]).len() > 0 {
            let word = lowercase(trimmed(pieces[k]));
            if k == pieces.len() - 1 {
                assert(words[words.len() - 1] == word);
            } else {
                let i = choose|i: int| 0 <= i < words_of(before).len() && words_of(before)[i] == word;
                assert(words[i] == word);
            }
        }
        if forall|i: int| 0 <= i < pieces.len() ==> trimmed(#[trigger] pieces[i]).len() == 0 {
            assert forall|i: int| 0 <= i < before.len() implies trimmed(
                #[trigger] before[i],
            ).len() == 0 by {
                assert(before[i] == pieces[i]);
            }
            assert(pieces.last() == pieces[pieces.len() - 1]);
        }
    }
}

/// The words for each kind of chapter come from the line for that kind, or from
/// the default where there is none.
pub proof fn words_come_from_their_lines(values: Values, value: Seq<char>)
    ensures
        ({
            let c = config_of(values);
            let words = words_of(split_on(value, ','));
            &&& says(values, "AutoSkipChapters"@, "intro"@, value) ==> c.chapter_intro_words == words
            &&& says(values, "AutoSkipChapters"@, "recap"@, value) ==> c.chapter_recap_words == words
            &&& says(values, "AutoSkipChapters"@, "outro"@, value) ==> c.chapter_outro_words == words
            &&& !values.contains_key(("AutoSkipChapters"@, "intro"@)) ==> c.chapter_intro_words
                == words_of(split_on("opening,intro,logo"@, ','))
            &&& !values.contains_key(("AutoSkipChapters"@, "recap"@)) ==> c.chapter_recap_words
                == words_of(split_on("recap"@, ','))
            &&& !values.contains_key(("AutoSkipChapters"@, "outro"@)) ==> c.chapter_outro_words
                == words_of(split_on("credits,outro,ending"@, ','))
        }),
{
}

/// One mark at the start of a file does not count, and nothing else is dropped.
pub proof fn one_mark_is_dropped(text: Seq<char>)
    ensures
        without_mark(seq!['\u{FEFF}'] + text) == text,
        text.len() > 0 && text[0] != '\u{FEFF}' ==> without_mark(text) == text,
        without_mark(Seq::empty()) == Seq::<char>::empty(),
{
    assert((seq!['\u{FEFF}'] + text).skip(1) =~= text);
}

// ---------------------------------------------------------------------------
// The streaming server
// ---------------------------------------------------------------------------

/// The server is reached on this machine at the port that it gave; only where it
/// gave none its own address is used.
pub proof fn servers_are_reached_by_port(endpoint: Seq<char>, parts: UrlPartsView, port: u16)
    ensures
        parts.port == Some(port) ==> local_endpoint(endpoint, Some(parts)) == "http://127.0.0.1:"@
            + decimal(port as nat),
        parts.port is None ==> local_endpoint(endpoint, Some(parts)) == without_trailing(
            endpoint,
            '/',
        ),
        local_endpoint(endpoint, None) == endpoint,
{
}

/// A server is announced by the line that says so, and by no other line.
pub proof fn servers_announce_themselves(
    output: ServerOutputView,
    line: Seq<char>,
    limit: nat,
)
    ensures
        !begins(line, "EngineFS server started at"@) ==> output.announced(line) is None
            && output.read_line(line, limit).endpoint_sent == output.endpoint_sent,
        begins(line, "EngineFS server started at"@) && !output.endpoint_sent ==> output.announced(
            line,
        ) == Some(
            local_endpoint(
                trimmed(line.skip("EngineFS server started at"@.len() as int)),
                crate::urls::url_parts(
                    trimmed(line.skip("EngineFS server started at"@.len() as int)),
                ),
            ),
        ) && output.read_line(line, limit).endpoint_sent,
        output.endpoint_sent ==> output.announced(line) is None && output.read_line(
            line,
            limit,
        ).endpoint_sent,
        output.read_line(line, limit).lines == log_end(output.lines + line, limit),
        output.extended(line, limit).lines == log_end(output.lines + line, limit),
        output.extended(line, limit).endpoint_sent == output.endpoint_sent,
{
    begins_is_prefix(line, "EngineFS server started at"@);
}

/// A line is kept without the carriage return at its end, and nothing else of it
/// is lost.
pub proof fn lines_are_kept(line: Seq<char>)
    ensures
        without_return(line.push('\r')) == line,
        line.len() > 0 && line.last() != '\r' ==> without_return(line) == line,
{
    assert(line.push('\r').drop_last() =~= line);
}

// ---------------------------------------------------------------------------
// The watch party
// ---------------------------------------------------------------------------

/// The user can always do something about a watch party, and only what makes
/// sense: start one where there is none, end one's own, leave another's.
pub proof fn choices_make_sense(lobby: LobbyView)
    ensures
        ({
            let (start, end, leave) = party_choices(lobby);
            let there = lobby.party_id.len() > 0 && lobby.member_count > 0;
            &&& start == !there
            &&& end == (there && lobby.role == LobbyRole::Host)
            &&& leave == (there && lobby.role != LobbyRole::Host)
        }),
        ending_of(LobbyRole::Host) == PartyExit::Leave,
        ending_of(LobbyRole::Guest) == PartyExit::Nothing,
        ending_of(LobbyRole::Absent) == PartyExit::Nothing,
        leaving_of(LobbyRole::Guest) == PartyExit::Leave,
        leaving_of(LobbyRole::Host) == PartyExit::HostStays,
{
}

/// The presence names the party with its link and counts everyone in it, at
/// least the user.
pub proof fn presences_name_their_party(lobby: LobbyView)
    ensures
        lobby.party_id.len() == 0 <==> presence_of(lobby) is None,
        presence_of(lobby) matches Some(p) ==> {
            &&& p.party_id == lobby.party_id
            &&& p.join_secret == lobby.join_secret
            &&& lobby.member_count >= 1 ==> p.member_count == lobby.member_count
            &&& lobby.member_count < 1 ==> p.member_count == 1
            &&& lobby.max_size >= p.member_count ==> p.max_size == lobby.max_size
            &&& lobby.max_size < p.member_count ==> p.max_size == p.member_count
        },
{
}

/// Nobody else, one other, or so many others.
pub proof fn others_are_counted(n: i32)
    requires
        n >= 1,
    ensures
        n == 1 ==> others_text_of(n) is None,
        n == 2 ==> others_text_of(n) == Some("with 1 other"@),
        n > 2 ==> others_text_of(n) == Some("with "@ + decimal((n - 1) as nat) + " others"@),
{
}

/// The line about a party says which part the user has in it and how full it is.
pub proof fn party_lines_say_the_part(lobby: LobbyView)
    requires
        lobby.member_count >= 0,
        lobby.max_size >= 0,
    ensures
        lobby.role == LobbyRole::Host ==> begins(party_line(lobby), "Hosting"@),
        lobby.role == LobbyRole::Guest ==> begins(party_line(lobby), "Joined"@),
        counts_text(lobby.member_count, lobby.max_size) == decimal(lobby.member_count as nat) + "/"@
            + decimal(lobby.max_size as nat),
        has_suffix(
            party_line(lobby),
            decimal(lobby.member_count as nat) + "/"@ + decimal(lobby.max_size as nat),
        ),
{
    let line = party_line(lobby);
    let label = role_label_of(lobby.role);
    assert(line.take(label.len() as int) =~= label);
    let counts = decimal(lobby.member_count as nat) + "/"@ + decimal(lobby.max_size as nat);
    let at = line.len() - counts.len();
    assert(line.subrange(at, at + counts.len()) =~= counts);
}

/// Everyone may connect to a host, only the host to a guest, and no one where
/// there is no party.
pub proof fn connections_follow_the_part(mode: Option<ModeView>, peer_id: u64)
    ensures
        mode is None ==> !policy_of(mode).accepts(peer_id),
        mode is Some && mode->0 is Host ==> policy_of(mode).accepts(peer_id),
        mode matches Some(ModeView::Guest(g)) ==> (policy_of(mode).accepts(peer_id) <==> peer_id
            == g.host_steam_id),
{
}

/// A guest takes over pause in any case, and the position where something plays
/// and it is more than two seconds off.
pub proof fn guests_stay_close(paused: bool, time_text: Seq<char>, duration: Real, drift: Real)
    ensures
        ({
            let commands = following_commands(paused, time_text, duration, drift);
            let far = real_zero().less(duration) && (Real { bits: 0x4000_0000_0000_0000 }).less(
                drift,
            );
            &&& commands.len() == (if far {
                2int
            } else {
                1
            })
            &&& paused ==> commands[0] == "[\"mpv-set-prop\",[\"pause\",true]]"@
            &&& !paused ==> commands[0] == "[\"mpv-set-prop\",[\"pause\",false]]"@
            &&& far ==> commands[1] == "[\"mpv-command\",[\"seek\",\""@ + time_text
                + "\",\"absolute\"]]"@
        }),
{
}

} // verus!
