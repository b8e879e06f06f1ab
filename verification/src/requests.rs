//! What the web interface asks of the shell, and what a link asks of it.

use crate::encoding::lowercase;
use crate::json::{Json, JsonView};
use crate::lobby::LobbyRole;
use crate::number::{natural_up_to, parse_u64};
use crate::playback::text_in;
use crate::text::{
    chars_of, has_prefix, same_text, starts_with, strip_trailing, text_of, texts, without_trailing,
};
use vstd::prelude::*;

verus! {

/// How a link to a watch party begins.
pub const PARTY_LINK: &'static str = "stremio://sync/";

/// Where a link leads.
#[derive(Debug, PartialEq)]
pub enum Link {
    /// To a watch party.
    Party(String),
    /// To something to play.
    Media(String),
}

#[verifier::ext_equal]
pub enum LinkView {
    Party(Seq<char>),
    Media(Seq<char>),
}

impl View for Link {
    type V = LinkView;

    open spec fn view(&self) -> LinkView {
        match *self {
            Link::Party(s) => LinkView::Party(s@),
            Link::Media(s) => LinkView::Media(s@),
        }
    }
}

pub open spec fn link_of(text: Seq<char>) -> LinkView {
    if has_prefix(text, PARTY_LINK@) {
        LinkView::Party(text)
    } else {
        LinkView::Media(text)
    }
}

/// Where a link leads that another instance of the shell was started with.
pub fn route_link(text: &str) -> (link: Link)
    ensures
        link@ == link_of(text@),
{
    if starts_with(text, PARTY_LINK) {
        Link::Party(text.to_string())
    } else {
        Link::Media(text.to_string())
    }
}

/// A watch party of one's own is offered: not where the shell was started to
/// join another.
pub fn auto_host_lobby(command: &str) -> (offered: bool)
    ensures
        offered == !(link_of(command@) is Party),
{
    !starts_with(command, PARTY_LINK)
}

/// The address of the web interface. The usual one is told about the
/// streaming server where that has one.
pub fn webui_address(webui_url: &str, web_endpoint: &str, with_server: Option<String>) -> (address:
    String)
    ensures
        address@ == if without_trailing(webui_url@, '/') == without_trailing(web_endpoint@, '/')
            && with_server is Some {
            with_server->0@
        } else {
            webui_url@
        },
{
    let usual = same_text(
        strip_trailing(webui_url, '/').as_str(),
        strip_trailing(web_endpoint, '/').as_str(),
    );
    match with_server {
        Some(address) => {
            if usual {
                address
            } else {
                webui_url.to_string()
            }
        },
        None => webui_url.to_string(),
    }
}

// ---------------------------------------------------------------------------
// Other programs
// ---------------------------------------------------------------------------

/// The text begins, in lower case, with one of the schemes that the system's
/// own programs are asked to open.
pub open spec fn may_open(url: Seq<char>) -> bool {
    let lower = lowercase(url);
    ||| has_prefix(lower, "http://"@)
    ||| has_prefix(lower, "https://"@)
    ||| has_prefix(lower, "rtp://"@)
    ||| has_prefix(lower, "rtps://"@)
    ||| has_prefix(lower, "ftp://"@)
    ||| has_prefix(lower, "ipfs://"@)
}

pub open spec fn is_for_mpv(url: Seq<char>) -> bool {
    has_prefix(lowercase(url), "mpv://"@)
}

/// The text begins, in lower case, with the scheme of a player other than
/// mpv.
pub open spec fn is_for_other_player(url: Seq<char>) -> bool {
    ||| has_prefix(lowercase(url), "vlc://"@)
    ||| has_prefix(lowercase(url), "potplayer://"@)
}

/// What follows the six characters of mpv's scheme.
pub open spec fn mpv_stream(url: Seq<char>) -> Seq<char> {
    if url.len() <= 6 {
        Seq::empty()
    } else {
        url.skip(6)
    }
}

fn may_open_text(lower: &str) -> (may: bool)
    ensures
        may == (has_prefix(lower@, "http://"@) || has_prefix(lower@, "https://"@) || has_prefix(
            lower@,
            "rtp://"@,
        ) || has_prefix(lower@, "rtps://"@) || has_prefix(lower@, "ftp://"@) || has_prefix(
            lower@,
            "ipfs://"@,
        )),
{
    starts_with(lower, "http://") || starts_with(lower, "https://") || starts_with(lower, "rtp://")
        || starts_with(lower, "rtps://") || starts_with(lower, "ftp://") || starts_with(
        lower,
        "ipfs://",
    )
}

fn stream_for_mpv(url: &str) -> (stream: String)
    ensures
        stream@ == mpv_stream(url@),
{
    let chars = chars_of(url);
    if chars.len() <= 6 {
        String::new()
    } else {
        let stream = text_of(&chars, 6, chars.len());
        assert(stream@ =~= url@.skip(6));
        stream
    }
}

fn appended(start: &str, end: &str) -> (whole: String)
    ensures
        whole@ == start@ + end@,
{
    let mut whole = start.to_string();
    whole.append(end);
    whole
}

/// The texts that are there, each followed by the given ending.
pub open spec fn path_under(folder: Option<Seq<char>>, end: Seq<char>) -> Seq<Seq<char>> {
    match folder {
        Some(f) => seq![f + end],
        None => Seq::empty(),
    }
}

/// Where mpv is looked for, given the folders of the system's programs and of
/// the user's.
pub open spec fn mpv_places(
    program_files: Option<Seq<char>>,
    program_files_x86: Option<Seq<char>>,
    local_app_data: Option<Seq<char>>,
) -> Seq<Seq<char>> {
    path_under(program_files, "\\mpv\\mpv.exe"@) + path_under(
        program_files_x86,
        "\\mpv\\mpv.exe"@,
    ) + path_under(local_app_data, "\\Programs\\mpv\\mpv.exe"@) + path_under(
        local_app_data,
        "\\mpv\\mpv.exe"@,
    ) + seq!["mpv.exe"@]
}

fn push_path(paths: &mut Vec<String>, folder: &Option<String>, end: &str)
    ensures
        texts(final(paths)@) == texts(old(paths)@) + path_under(text_in(*folder), end@),
{
    let ghost before = texts(paths@);
    match folder {
        Some(f) => {
            paths.push(appended(f.as_str(), end));
        },
        None => {},
    }
    assert(texts(paths@) =~= before + path_under(text_in(*folder), end@));
}

/// Where mpv is looked for, in order.
pub fn mpv_paths(
    program_files: &Option<String>,
    program_files_x86: &Option<String>,
    local_app_data: &Option<String>,
) -> (paths: Vec<String>)
    ensures
        texts(paths@) == mpv_places(
            text_in(*program_files),
            text_in(*program_files_x86),
            text_in(*local_app_data),
        ),
{
    let mut paths: Vec<String> = Vec::new();
    push_path(&mut paths, program_files, "\\mpv\\mpv.exe");
    push_path(&mut paths, program_files_x86, "\\mpv\\mpv.exe");
    push_path(&mut paths, local_app_data, "\\Programs\\mpv\\mpv.exe");
    push_path(&mut paths, local_app_data, "\\mpv\\mpv.exe");
    paths.push("mpv.exe".to_string());
    assert(texts(paths@) =~= mpv_places(
        text_in(*program_files),
        text_in(*program_files_x86),
        text_in(*local_app_data),
    ));
    paths
}

/// What mpv is started with: the end of its options, and the stream.
pub fn mpv_arguments(stream: &str) -> (arguments: Vec<String>)
    ensures
        texts(arguments@) == seq!["--"@, stream@],
{
    let mut arguments: Vec<String> = Vec::new();
    arguments.push("--".to_string());
    arguments.push(stream.to_string());
    assert(texts(arguments@) =~= seq!["--"@, stream@]);
    arguments
}

/// What the installer of an update is started with.
pub fn setup_arguments() -> (arguments: Vec<String>)
    ensures
        texts(arguments@) == seq![
            "/SILENT"@,
            "/NOCANCEL"@,
            "/FORCECLOSEAPPLICATIONS"@,
            "/TASKS=runapp"@,
        ],
{
    let mut arguments: Vec<String> = Vec::new();
    arguments.push("/SILENT".to_string());
    arguments.push("/NOCANCEL".to_string());
    arguments.push("/FORCECLOSEAPPLICATIONS".to_string());
    arguments.push("/TASKS=runapp".to_string());
    assert(texts(arguments@) =~= seq![
        "/SILENT"@,
        "/NOCANCEL"@,
        "/FORCECLOSEAPPLICATIONS"@,
        "/TASKS=runapp"@,
    ]);
    arguments
}

// ---------------------------------------------------------------------------
// Requests
// ---------------------------------------------------------------------------

/// What the web interface wants shown on Discord.
#[derive(Debug, PartialEq)]
pub struct DiscordActivity {
    pub state: String,
    pub details: String,
    pub image: Option<String>,
    pub start_timestamp: Option<i64>,
    pub end_timestamp: Option<i64>,
}

#[verifier::ext_equal]
pub struct DiscordActivityView {
    pub state: Seq<char>,
    pub details: Seq<char>,
    pub image: Option<Seq<char>>,
    pub start_timestamp: Option<i64>,
    pub end_timestamp: Option<i64>,
}

impl View for DiscordActivity {
    type V = DiscordActivityView;

    open spec fn view(&self) -> DiscordActivityView {
        DiscordActivityView {
            state: self.state@,
            details: self.details@,
            image: text_in(self.image),
            start_timestamp: self.start_timestamp,
            end_timestamp: self.end_timestamp,
        }
    }
}

/// What the shell does for the web interface.
#[derive(Debug, PartialEq)]
pub enum Request {
    Nothing,
    /// Say what the shell offers.
    Handshake,
    SetFullscreen(bool),
    /// Turn the small window on or off, or over where neither is asked for.
    SetPip(Option<bool>),
    Quit,
    RouteChanged(String),
    LeaveParty,
    KickMember(u64),
    /// Hide the splash screen, say that the window is visible, look for
    /// updates, and follow the link that the shell was started with.
    AppReady(Option<Link>),
    AppError,
    /// Have the system open an address.
    OpenExternal(String),
    /// Have mpv play a stream.
    PlayWithMpv(String),
    Focus,
    InstallUpdate,
    DiscordConnect,
    DiscordDisconnect,
    DiscordSetActivity(DiscordActivity),
    DiscordClearActivity,
    /// Hand the request to the player.
    PlayerCommand,
    MediaStatus,
    MediaMetadata,
    Unsupported(String),
}

#[verifier::ext_equal]
pub enum RequestView {
    Nothing,
    Handshake,
    SetFullscreen(bool),
    SetPip(Option<bool>),
    Quit,
    RouteChanged(Seq<char>),
    LeaveParty,
    KickMember(u64),
    AppReady(Option<LinkView>),
    AppError,
    OpenExternal(Seq<char>),
    PlayWithMpv(Seq<char>),
    Focus,
    InstallUpdate,
    DiscordConnect,
    DiscordDisconnect,
    DiscordSetActivity(DiscordActivityView),
    DiscordClearActivity,
    PlayerCommand,
    MediaStatus,
    MediaMetadata,
    Unsupported(Seq<char>),
}

impl View for Request {
    type V = RequestView;

    open spec fn view(&self) -> RequestView {
        match *self {
            Request::Nothing => RequestView::Nothing,
            Request::Handshake => RequestView::Handshake,
            Request::SetFullscreen(on) => RequestView::SetFullscreen(on),
            Request::SetPip(on) => RequestView::SetPip(on),
            Request::Quit => RequestView::Quit,
            Request::RouteChanged(url) => RequestView::RouteChanged(url@),
            Request::LeaveParty => RequestView::LeaveParty,
            Request::KickMember(id) => RequestView::KickMember(id),
            Request::AppReady(link) => RequestView::AppReady(
                match link {
                    Some(l) => Some(l@),
                    None => None,
                },
            ),
            Request::AppError => RequestView::AppError,
            Request::OpenExternal(url) => RequestView::OpenExternal(url@),
            Request::PlayWithMpv(url) => RequestView::PlayWithMpv(url@),
            Request::Focus => RequestView::Focus,
            Request::InstallUpdate => RequestView::InstallUpdate,
            Request::DiscordConnect => RequestView::DiscordConnect,
            Request::DiscordDisconnect => RequestView::DiscordDisconnect,
            Request::DiscordSetActivity(a) => RequestView::DiscordSetActivity(a@),
            Request::DiscordClearActivity => RequestView::DiscordClearActivity,
            Request::PlayerCommand => RequestView::PlayerCommand,
            Request::MediaStatus => RequestView::MediaStatus,
            Request::MediaMetadata => RequestView::MediaMetadata,
            Request::Unsupported(method) => RequestView::Unsupported(method@),
        }
    }
}

/// The truth value in a field of the parameters.
pub open spec fn flag_in(params: Option<JsonView>, key: Seq<char>) -> Option<bool> {
    match params {
        Some(p) => match p.field(key) {
            Some(value) => value.flag(),
            None => None,
        },
        None => None,
    }
}

/// The integer in a field of an object.
pub open spec fn integer_in(params: JsonView, key: Seq<char>) -> Option<i64> {
    match params.field(key) {
        Some(value) => value.signed(),
        None => None,
    }
}

/// The text of a document, or an empty one.
pub open spec fn text_or_empty(text: Option<Seq<char>>) -> Seq<char> {
    match text {
        Some(t) => t,
        None => Seq::empty(),
    }
}

/// The member that is to leave: their identifier as a text or as a number.
pub open spec fn member_to_kick(params: Option<JsonView>) -> Option<int> {
    match params {
        Some(p) => match p.field("steamId"@) {
            Some(value) => {
                let written = match value.text() {
                    Some(t) => natural_up_to(t, u64::MAX as nat),
                    None => None,
                };
                match written {
                    Some(id) => Some(id as int),
                    None => match value.unsigned() {
                        Some(id) => Some(id as int),
                        None => None,
                    },
                }
            },
            None => None,
        },
        None => None,
    }
}

/// What is done about a stream for another player.
pub open spec fn play_external_request(url: Seq<char>) -> RequestView {
    if url.len() == 0 {
        RequestView::Nothing
    } else if is_for_mpv(url) {
        RequestView::PlayWithMpv(mpv_stream(url))
    } else if is_for_other_player(url) {
        RequestView::OpenExternal(url)
    } else {
        RequestView::Nothing
    }
}

/// What the parameters want shown on Discord.
pub open spec fn activity_in(params: JsonView) -> DiscordActivityView {
    DiscordActivityView {
        state: text_or_empty(params.text_field("state"@)),
        details: text_or_empty(params.text_field("details"@)),
        image: params.text_field("image"@),
        start_timestamp: integer_in(params, "startTimestamp"@),
        end_timestamp: integer_in(params, "endTimestamp"@),
    }
}

/// What the shell does for a request with a method.
pub open spec fn method_request(
    method: Seq<char>,
    params: Option<JsonView>,
    role: LobbyRole,
    command: Seq<char>,
) -> RequestView {
    if method == "win-set-visibility"@ {
        match flag_in(params, "fullscreen"@) {
            Some(on) => RequestView::SetFullscreen(on),
            None => RequestView::Nothing,
        }
    } else if method == "win-set-pip"@ {
        RequestView::SetPip(flag_in(params, "enabled"@))
    } else if method == "quit"@ {
        RequestView::Quit
    } else if method == "shell-route-changed"@ {
        match params {
            Some(p) => match p.text() {
                Some(url) => RequestView::RouteChanged(url),
                None => RequestView::Nothing,
            },
            None => RequestView::Nothing,
        }
    } else if method == "shell-watch-party-leave"@ {
        RequestView::LeaveParty
    } else if method == "shell-watch-party-kick"@ {
        if role == LobbyRole::Host && member_to_kick(params) is Some {
            RequestView::KickMember(member_to_kick(params)->0 as u64)
        } else {
            RequestView::Nothing
        }
    } else if method == "app-ready"@ {
        RequestView::AppReady(
            if command.len() == 0 {
                None
            } else {
                Some(link_of(command))
            },
        )
    } else if method == "app-error"@ {
        RequestView::AppError
    } else if method == "open-external"@ {
        match params {
            Some(p) => if may_open(text_or_empty(p.text())) {
                RequestView::OpenExternal(text_or_empty(p.text()))
            } else {
                RequestView::Nothing
            },
            None => RequestView::Nothing,
        }
    } else if method == "play-external"@ {
        match params {
            Some(p) => play_external_request(text_or_empty(p.text())),
            None => RequestView::Nothing,
        }
    } else if method == "win-focus"@ {
        RequestView::Focus
    } else if method == "autoupdater-notif-clicked"@ {
        RequestView::InstallUpdate
    } else if method == "discord-connect"@ {
        RequestView::DiscordConnect
    } else if method == "discord-disconnect"@ {
        RequestView::DiscordDisconnect
    } else if method == "discord-set-activity"@ {
        match params {
            Some(p) => RequestView::DiscordSetActivity(activity_in(p)),
            None => RequestView::Nothing,
        }
    } else if method == "discord-clear-activity"@ {
        RequestView::DiscordClearActivity
    } else if has_prefix(method, "mpv-"@) {
        RequestView::PlayerCommand
    } else if method == "media.status"@ {
        RequestView::MediaStatus
    } else if method == "media.metadata"@ {
        RequestView::MediaMetadata
    } else {
        RequestView::Unsupported(method)
    }
}

/// What parameters say, where there are any.
pub open spec fn said(params: Option<&Json>) -> Option<JsonView> {
    match params {
        Some(p) => Some(p@),
        None => None,
    }
}

/// What the shell does for a message of the web interface.
pub open spec fn request_of(
    method: Option<Seq<char>>,
    params: Option<JsonView>,
    handshake: bool,
    role: LobbyRole,
    command: Seq<char>,
) -> RequestView {
    match method {
        Some(m) => method_request(m, params, role, command),
        None => if handshake {
            RequestView::Handshake
        } else {
            RequestView::Nothing
        },
    }
}

fn flag_of(params: Option<&Json>, key: &str) -> (flag: Option<bool>)
    ensures
        flag == flag_in(said(params), key@),
{
    match params {
        Some(p) => match p.get(key) {
            Some(value) => value.as_bool(),
            None => None,
        },
        None => None,
    }
}

fn text_or_none(document: &Json) -> (text: Option<String>)
    ensures
        text_in(text) == document@.text(),
{
    match document.as_text() {
        Some(t) => Some(t.clone()),
        None => None,
    }
}

fn or_empty(text: Option<String>) -> (t: String)
    ensures
        t@ == text_or_empty(text_in(text)),
{
    match text {
        Some(t) => t,
        None => String::new(),
    }
}

fn integer_of_field(params: &Json, key: &str) -> (number: Option<i64>)
    ensures
        number == integer_in(params@, key@),
{
    match params.get(key) {
        Some(value) => value.as_i64(),
        None => None,
    }
}

fn kicked_member(params: Option<&Json>) -> (id: Option<u64>)
    ensures
        match id {
            Some(i) => member_to_kick(said(params)) == Some(i as int),
            None => member_to_kick(said(params)) is None,
        },
{
    let value = match params {
        Some(p) => match p.get("steamId") {
            Some(value) => value,
            None => return None,
        },
        None => return None,
    };
    match value.as_text() {
        Some(t) => match parse_u64(t.as_str()) {
            Some(id) => return Some(id),
            None => {},
        },
        None => {},
    }
    value.as_u64()
}

fn play_external(url: String) -> (request: Request)
    ensures
        request@ == play_external_request(url@),
{
    if url.as_str().is_empty() {
        return Request::Nothing;
    }
    let lower = url.as_str().to_lowercase();
    if starts_with(lower.as_str(), "mpv://") {
        Request::PlayWithMpv(stream_for_mpv(url.as_str()))
    } else if starts_with(lower.as_str(), "vlc://") || starts_with(
        lower.as_str(),
        "potplayer://",
    ) {
        Request::OpenExternal(url)
    } else {
        Request::Nothing
    }
}

fn open_external(url: String) -> (request: Request)
    ensures
        request@ == if may_open(url@) {
            RequestView::OpenExternal(url@)
        } else {
            RequestView::Nothing
        },
{
    let lower = url.as_str().to_lowercase();
    if may_open_text(lower.as_str()) {
        Request::OpenExternal(url)
    } else {
        Request::Nothing
    }
}

fn launch_link(command: &str) -> (link: Option<Link>)
    ensures
        Request::AppReady(link)@ == RequestView::AppReady(
            if command@.len() == 0 {
                None
            } else {
                Some(link_of(command@))
            },
        ),
{
    if command.is_empty() {
        None
    } else {
        Some(route_link(command))
    }
}

fn window_request(method: &str, params: Option<&Json>) -> (request: Option<Request>)
    ensures
        match request {
            Some(r) => forall|role: LobbyRole, command: Seq<char>|
                r@ == #[trigger] method_request(method@, said(params), role, command),
            None => method@ != "win-set-visibility"@ && method@ != "win-set-pip"@ && method@
                != "quit"@ && method@ != "shell-route-changed"@,
        },
{
    if same_text(method, "win-set-visibility") {
        return Some(
            match flag_of(params, "fullscreen") {
                Some(on) => Request::SetFullscreen(on),
                None => Request::Nothing,
            },
        );
    }
    if same_text(method, "win-set-pip") {
        return Some(Request::SetPip(flag_of(params, "enabled")));
    }
    if same_text(method, "quit") {
        return Some(Request::Quit);
    }
    if same_text(method, "shell-route-changed") {
        return Some(
            match params {
                Some(p) => match text_or_none(p) {
                    Some(url) => Request::RouteChanged(url),
                    None => Request::Nothing,
                },
                None => Request::Nothing,
            },
        );
    }
    None
}

/// What the shell does for a request with a method, given the role in the
/// watch party and the text that the shell was started with.
pub fn handle_method(method: &str, params: Option<&Json>, role: LobbyRole, command: &str) -> (request:
    Request)
    ensures
        request@ == method_request(method@, said(params), role, command@),
{
    match window_request(method, params) {
        Some(request) => return request,
        None => {},
    }
    if same_text(method, "shell-watch-party-leave") {
        return Request::LeaveParty;
    }
    if same_text(method, "shell-watch-party-kick") {
        if role == LobbyRole::Host {
            return match kicked_member(params) {
                Some(id) => Request::KickMember(id),
                None => Request::Nothing,
            };
        }
        return Request::Nothing;
    }
    if same_text(method, "app-ready") {
        return Request::AppReady(launch_link(command));
    }
    if same_text(method, "app-error") {
        return Request::AppError;
    }
    if same_text(method, "open-external") {
        return match params {
            Some(p) => open_external(or_empty(text_or_none(p))),
            None => Request::Nothing,
        };
    }
    if same_text(method, "play-external") {
        return match params {
            Some(p) => play_external(or_empty(text_or_none(p))),
            None => Request::Nothing,
        };
    }
    if same_text(method, "win-focus") {
        return Request::Focus;
    }
    if same_text(method, "autoupdater-notif-clicked") {
        return Request::InstallUpdate;
    }
    if same_text(method, "discord-connect") {
        return Request::DiscordConnect;
    }
    if same_text(method, "discord-disconnect") {
        return Request::DiscordDisconnect;
    }
    if same_text(method, "discord-set-activity") {
        return match params {
            Some(p) => Request::DiscordSetActivity(
                DiscordActivity {
                    state: or_empty(p.text_at("state")),
                    details: or_empty(p.text_at("details")),
                    image: p.text_at("image"),
                    start_timestamp: integer_of_field(p, "startTimestamp"),
                    end_timestamp: integer_of_field(p, "endTimestamp"),
                },
            ),
            None => Request::Nothing,
        };
    }
    if same_text(method, "discord-clear-activity") {
        return Request::DiscordClearActivity;
    }
    if starts_with(method, "mpv-") {
        return Request::PlayerCommand;
    }
    if same_text(method, "media.status") {
        return Request::MediaStatus;
    }
    if same_text(method, "media.metadata") {
        return Request::MediaMetadata;
    }
    Request::Unsupported(method.to_string())
}

/// What the shell does for a message of the web interface.
pub fn handle_request(
    method: &Option<String>,
    params: Option<&Json>,
    handshake: bool,
    role: LobbyRole,
    command: &str,
) -> (request: Request)
    ensures
        request@ == request_of(text_in(*method), said(params), handshake, role, command@),
{
    match method {
        Some(m) => handle_method(m.as_str(), params, role, command),
        None => if handshake {
            Request::Handshake
        } else {
            Request::Nothing
        },
    }
}

// ---------------------------------------------------------------------------
// Laws
// ---------------------------------------------------------------------------

/// Nothing is opened outside the shell but addresses of the schemes that are
/// meant for it.
pub proof fn only_known_schemes_are_opened(
    method: Option<Seq<char>>,
    params: Option<JsonView>,
    handshake: bool,
    role: LobbyRole,
    command: Seq<char>,
)
    ensures
        request_of(method, params, handshake, role, command) matches RequestView::OpenExternal(
            url,
        ) ==> may_open(url) || is_for_other_player(url),
{
}

/// Only the host of a watch party removes members.
pub proof fn only_hosts_remove_members(
    method: Option<Seq<char>>,
    params: Option<JsonView>,
    handshake: bool,
    role: LobbyRole,
    command: Seq<char>,
)
    requires
        role != LobbyRole::Host,
    ensures
        !(request_of(method, params, handshake, role, command) is KickMember),
{
}

/// Every request whose method begins with `mpv-` goes to the player.
pub proof fn player_requests_reach_the_player(
    method: Seq<char>,
    params: Option<JsonView>,
    handshake: bool,
    role: LobbyRole,
    command: Seq<char>,
)
    requires
        has_prefix(method, "mpv-"@),
    ensures
        request_of(Some(method), params, handshake, role, command) == RequestView::PlayerCommand,
{
    reveal_strlit("mpv-");
    reveal_strlit("win-set-visibility");
    reveal_strlit("win-set-pip");
    reveal_strlit("quit");
    reveal_strlit("shell-route-changed");
    reveal_strlit("shell-watch-party-leave");
    reveal_strlit("shell-watch-party-kick");
    reveal_strlit("app-ready");
    reveal_strlit("app-error");
    reveal_strlit("open-external");
    reveal_strlit("play-external");
    reveal_strlit("win-focus");
    reveal_strlit("autoupdater-notif-clicked");
    reveal_strlit("discord-connect");
    reveal_strlit("discord-disconnect");
    reveal_strlit("discord-set-activity");
    reveal_strlit("discord-clear-activity");
    assert(method.subrange(0, 4)[0] == 'm');
    assert(method[0] == 'm');
}

} // verus!
