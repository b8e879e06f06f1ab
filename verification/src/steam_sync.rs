//! The watch party's runtime: what it does on a command, on an event of the
//! lobby, on a message, and as time passes. Each step changes the runtime and
//! appends to its outbox what is to be sent, shown or asked for.

use crate::encoding::{base64_bytes, base64_text, encode_base64, is_base64_char};
use crate::lobby::{LobbyRole, LobbyState, LobbyView};
use crate::number::{decimal, format_u64, Real, THREE_BITS, TWO_BITS, real_zero};
use crate::sync_protocol::{
    decode_steam_join_secret, encode_steam_join_secret, accepted_secret, link_payload, member_views,
    parsed_view, secret_json, GuestMsg, GuestView, HostMsg, HostView, LobbyMember,
    MemberView, SecretView, SteamJoinSecret, SteamSyncWireMsg, WireView, STEAM_JOIN_PREFIX,
    STEAM_SYNC_APP_ID, STEAM_SYNC_PROTOCOL_VERSION,
};
use crate::text::{after_first, chars_of, same_text, text_after, text_of, trim, trimmed};
use vstd::prelude::*;
use vstd::utf8::encode_utf8;

verus! {

// ---------------------------------------------------------------------------
// Events for the user
// ---------------------------------------------------------------------------

/// Something that happened in the watch party.
#[derive(Debug)]
pub enum SyncUiEvent {
    HostStarted,
    JoinedHost,
    LobbyUpdated { member_count: i32, max_size: i32 },
    GuestJoined { name: String, member_count: i32 },
    GuestLeft { name: String, member_count: i32 },
    HostLeft { reason: String },
    LeftLobby,
    Error { message: String },
}

/// An event by its texts.
#[verifier::ext_equal]
pub enum UiView {
    HostStarted,
    JoinedHost,
    LobbyUpdated { member_count: i32, max_size: i32 },
    GuestJoined { name: Seq<char>, member_count: i32 },
    GuestLeft { name: Seq<char>, member_count: i32 },
    HostLeft { reason: Seq<char> },
    LeftLobby,
    Error { message: Seq<char> },
}

impl View for SyncUiEvent {
    type V = UiView;

    open spec fn view(&self) -> UiView {
        match *self {
            SyncUiEvent::HostStarted => UiView::HostStarted,
            SyncUiEvent::JoinedHost => UiView::JoinedHost,
            SyncUiEvent::LobbyUpdated { member_count, max_size } => UiView::LobbyUpdated {
                member_count,
                max_size,
            },
            SyncUiEvent::GuestJoined { name, member_count } => UiView::GuestJoined {
                name: name@,
                member_count,
            },
            SyncUiEvent::GuestLeft { name, member_count } => UiView::GuestLeft {
                name: name@,
                member_count,
            },
            SyncUiEvent::HostLeft { reason } => UiView::HostLeft { reason: reason@ },
            SyncUiEvent::LeftLobby => UiView::LeftLobby,
            SyncUiEvent::Error { message } => UiView::Error { message: message@ },
        }
    }
}

// ---------------------------------------------------------------------------
// Actions
// ---------------------------------------------------------------------------

/// Something that the runtime wants done.
#[derive(Debug)]
pub enum SyncAction {
    /// Send a message to a member.
    Send { peer_id: u64, message: SteamSyncWireMsg, reliable: bool },
    /// Create a lobby with room for `slots`, and report the outcome together
    /// with the other values.
    CreateLobby { party_id: String, token: String, max_size: i32, slots: u32 },
    /// Join the lobby of a secret, and report the outcome with the secret.
    JoinLobby { secret: SteamJoinSecret },
    LeaveLobby { lobby_id: u64 },
    SetLobbyData { lobby_id: u64, key: String, value: String },
    SetLobbyJoinable { lobby_id: u64 },
    /// Answer whoever asked to host.
    ReplyHost(Result<SteamJoinSecret, String>),
    /// Answer whoever asked to join.
    ReplyGuest(Result<(), String>),
    Ui(SyncUiEvent),
    /// Show the page of a title.
    OpenMedia(String),
    WaitMillis(u64),
    /// Hand a command to the player.
    Player(String),
    /// Read the local playback position and follow the host's.
    FollowHost { time_pos: Real, paused: bool },
}

/// An action by its texts.
#[verifier::ext_equal]
pub enum ActionView {
    Send { peer_id: u64, message: WireView, reliable: bool },
    CreateLobby { party_id: Seq<char>, token: Seq<char>, max_size: i32, slots: u32 },
    JoinLobby { secret: SecretView },
    LeaveLobby { lobby_id: u64 },
    SetLobbyData { lobby_id: u64, key: Seq<char>, value: Seq<char> },
    SetLobbyJoinable { lobby_id: u64 },
    ReplyHost(Result<SecretView, Seq<char>>),
    ReplyGuest(Result<(), Seq<char>>),
    Ui(UiView),
    OpenMedia(Seq<char>),
    WaitMillis(u64),
    Player(Seq<char>),
    FollowHost { time_pos: Real, paused: bool },
}

/// An outcome with its error as text.
pub open spec fn outcome_view(r: Result<(), String>) -> Result<(), Seq<char>> {
    match r {
        Ok(()) => Ok(()),
        Err(e) => Err(e@),
    }
}

impl View for SyncAction {
    type V = ActionView;

    open spec fn view(&self) -> ActionView {
        match *self {
            SyncAction::Send { peer_id, message, reliable } => ActionView::Send {
                peer_id,
                message: message@,
                reliable,
            },
            SyncAction::CreateLobby { party_id, token, max_size, slots } => {
                ActionView::CreateLobby { party_id: party_id@, token: token@, max_size, slots }
            },
            SyncAction::JoinLobby { secret } => ActionView::JoinLobby { secret: secret@ },
            SyncAction::LeaveLobby { lobby_id } => ActionView::LeaveLobby { lobby_id },
            SyncAction::SetLobbyData { lobby_id, key, value } => ActionView::SetLobbyData {
                lobby_id,
                key: key@,
                value: value@,
            },
            SyncAction::SetLobbyJoinable { lobby_id } => ActionView::SetLobbyJoinable { lobby_id },
            SyncAction::ReplyHost(r) => ActionView::ReplyHost(parsed_view(r)),
            SyncAction::ReplyGuest(r) => ActionView::ReplyGuest(outcome_view(r)),
            SyncAction::Ui(e) => ActionView::Ui(e@),
            SyncAction::OpenMedia(url) => ActionView::OpenMedia(url@),
            SyncAction::WaitMillis(n) => ActionView::WaitMillis(n),
            SyncAction::Player(command) => ActionView::Player(command@),
            SyncAction::FollowHost { time_pos, paused } => ActionView::FollowHost {
                time_pos,
                paused,
            },
        }
    }
}

/// The actions in a list.
pub open spec fn action_views(actions: Seq<SyncAction>) -> Seq<ActionView> {
    actions.map_values(|a: SyncAction| a@)
}

// ---------------------------------------------------------------------------
// State
// ---------------------------------------------------------------------------

/// The runtime while it hosts.
#[derive(Debug)]
pub struct HostMode {
    pub lobby_id: u64,
    pub token: String,
    pub max_size: i32,
    /// The guests that were let in, each once.
    pub authorized_peers: Vec<LobbyMember>,
    pub kicked_peers: Vec<u64>,
    pub last_stream_url: String,
    pub last_web_url: String,
    pub last_paused: bool,
    pub last_time: Real,
    /// When the guests were last told the state, in nanoseconds.
    pub last_broadcast: Option<u64>,
}

/// The runtime while it is a guest.
#[derive(Debug)]
pub struct GuestMode {
    pub lobby_id: u64,
    pub host_steam_id: u64,
    pub current_web_url: String,
}

#[derive(Debug)]
pub enum Mode {
    Host(HostMode),
    Guest(GuestMode),
}

#[verifier::ext_equal]
pub struct HostModeView {
    pub lobby_id: u64,
    pub token: Seq<char>,
    pub max_size: i32,
    pub peers: Seq<MemberView>,
    pub kicked: Seq<u64>,
    pub last_stream_url: Seq<char>,
    pub last_web_url: Seq<char>,
    pub last_paused: bool,
    pub last_time: Real,
    pub last_broadcast: Option<u64>,
}

#[verifier::ext_equal]
pub struct GuestModeView {
    pub lobby_id: u64,
    pub host_steam_id: u64,
    pub current_web_url: Seq<char>,
}

#[verifier::ext_equal]
pub enum ModeView {
    Host(HostModeView),
    Guest(GuestModeView),
}

impl View for HostMode {
    type V = HostModeView;

    open spec fn view(&self) -> HostModeView {
        HostModeView {
            lobby_id: self.lobby_id,
            token: self.token@,
            max_size: self.max_size,
            peers: member_views(self.authorized_peers@),
            kicked: self.kicked_peers@,
            last_stream_url: self.last_stream_url@,
            last_web_url: self.last_web_url@,
            last_paused: self.last_paused,
            last_time: self.last_time,
            last_broadcast: self.last_broadcast,
        }
    }
}

impl View for GuestMode {
    type V = GuestModeView;

    open spec fn view(&self) -> GuestModeView {
        GuestModeView {
            lobby_id: self.lobby_id,
            host_steam_id: self.host_steam_id,
            current_web_url: self.current_web_url@,
        }
    }
}

impl View for Mode {
    type V = ModeView;

    open spec fn view(&self) -> ModeView {
        match *self {
            Mode::Host(h) => ModeView::Host(h@),
            Mode::Guest(g) => ModeView::Guest(g@),
        }
    }
}

/// The mode in an option.
pub open spec fn mode_view(mode: Option<Mode>) -> Option<ModeView> {
    match mode {
        Some(m) => Some(m@),
        None => None,
    }
}

/// The watch party's runtime.
#[derive(Debug)]
pub struct SyncRuntime {
    pub mode: Option<Mode>,
    pub lobby: LobbyState,
    pub outbox: Vec<SyncAction>,
}

#[verifier::ext_equal]
pub struct SyncView {
    pub mode: Option<ModeView>,
    pub lobby: LobbyView,
    pub outbox: Seq<ActionView>,
}

impl View for SyncRuntime {
    type V = SyncView;

    open spec fn view(&self) -> SyncView {
        SyncView {
            mode: mode_view(self.mode),
            lobby: self.lobby@,
            outbox: action_views(self.outbox@),
        }
    }
}

/// Everything that a host tells of its playback.
#[derive(Debug)]
pub struct HostState {
    pub stream_url: String,
    pub web_url: String,
    pub time_pos: Real,
    pub duration: Real,
    pub paused: bool,
}

impl HostState {
    /// The message that tells the state.
    pub open spec fn message(self) -> HostView {
        HostView::State {
            stream_url: self.stream_url@,
            web_url: self.web_url@,
            time_pos: self.time_pos,
            duration: self.duration,
            paused: self.paused,
        }
    }

    pub fn to_msg(&self) -> (msg: HostMsg)
        ensures
            msg@ == self.message(),
    {
        HostMsg::State {
            stream_url: self.stream_url.clone(),
            web_url: self.web_url.clone(),
            time_pos: self.time_pos,
            duration: self.duration,
            paused: self.paused,
        }
    }
}

// ---------------------------------------------------------------------------
// The guests of a host
// ---------------------------------------------------------------------------

/// The guest with the given id is among the peers, at position `i`.
pub open spec fn peer_at(peers: Seq<MemberView>, id: u64, i: int) -> bool {
    0 <= i < peers.len() && peers[i].steam_id == id
}

pub open spec fn has_peer(peers: Seq<MemberView>, id: u64) -> bool {
    exists|i: int| peer_at(peers, id, i)
}

/// Where a guest stands among the peers.
pub open spec fn peer_index(peers: Seq<MemberView>, id: u64) -> int {
    choose|i: int| peer_at(peers, id, i)
}

/// No id stands twice among the peers.
pub open spec fn distinct_peers(peers: Seq<MemberView>) -> bool {
    forall|i: int, j: int|
        0 <= i < peers.len() && 0 <= j < peers.len() && peers[i].steam_id == peers[j].steam_id ==> i
            == j
}

/// The peers with a member, in place of the one with the same id if there is
/// one.
pub open spec fn peers_with(peers: Seq<MemberView>, member: MemberView) -> Seq<MemberView> {
    if has_peer(peers, member.steam_id) {
        peers.update(peer_index(peers, member.steam_id), member)
    } else {
        peers.push(member)
    }
}

/// The peers without the guest that has the id.
pub open spec fn peers_without(peers: Seq<MemberView>, id: u64) -> Seq<MemberView> {
    if has_peer(peers, id) {
        peers.remove(peer_index(peers, id))
    } else {
        peers
    }
}

/// Everyone in the lobby: the host first.
pub open spec fn everyone(host: MemberView, peers: Seq<MemberView>) -> Seq<MemberView> {
    seq![host] + peers
}

/// How many are in the lobby.
pub open spec fn count_with(peers: Seq<MemberView>) -> i32 {
    (peers.len() + 1) as i32
}

pub open spec fn lobby_info(host: MemberView, peers: Seq<MemberView>, max_size: i32) -> HostView {
    HostView::LobbyInfo {
        member_count: count_with(peers),
        max_size,
        members: everyone(host, peers),
    }
}

/// One message to each of the peers.
pub open spec fn to_all(peers: Seq<MemberView>, message: HostView) -> Seq<ActionView> {
    Seq::new(
        peers.len(),
        |i: int|
            ActionView::Send {
                peer_id: peers[i].steam_id,
                message: WireView::Host(message),
                reliable: true,
            },
    )
}

/// A message to one peer.
pub open spec fn to_peer(peer_id: u64, message: HostView, reliable: bool) -> ActionView {
    ActionView::Send { peer_id, message: WireView::Host(message), reliable }
}

impl HostModeView {
    /// The guests are distinct, and none of those who were removed is among
    /// them.
    pub open spec fn wf(self) -> bool {
        &&& distinct_peers(self.peers)
        &&& forall|i: int| 0 <= i < self.peers.len() ==> !self.kicked.contains(#[trigger] self.peers[i].steam_id)
    }

    /// A party of this size has no place left.
    pub open spec fn full(self) -> bool {
        self.max_size >= 0 && self.peers.len() + 1 >= self.max_size
    }

    /// Why a guest that says hello is turned away, if it is.
    pub open spec fn refusal(self, peer_id: u64, version: u16, token: Seq<char>) -> Option<
        Seq<char>,
    > {
        if self.kicked.contains(peer_id) {
            Some("you were removed from this watch party"@)
        } else if version != STEAM_SYNC_PROTOCOL_VERSION || token != self.token {
            Some("invalid watch-party token"@)
        } else if self.full() {
            Some("watch-party lobby is full"@)
        } else {
            None
        }
    }
}

impl HostMode {
    pub open spec fn wf(&self) -> bool {
        self@.wf()
    }

    /// Why a guest that says hello is turned away, if it is.
    pub fn hello_refusal(&self, peer_id: u64, version: u16, token: &str) -> (refusal: Option<
        String,
    >)
        ensures
            match refusal {
                Some(text) => self@.refusal(peer_id, version, token@) == Some(text@),
                None => self@.refusal(peer_id, version, token@) is None,
            },
    {
        if has_id(&self.kicked_peers, peer_id) {
            return Some("you were removed from this watch party".to_string());
        }
        if !hello_allowed(self.token.as_str(), version, token) {
            return Some("invalid watch-party token".to_string());
        }
        if self.max_size >= 0 && (self.max_size <= 1 || self.authorized_peers.len()
            >= self.max_size as usize - 1) {
            return Some("watch-party lobby is full".to_string());
        }
        None
    }
}

/// A hello is in order: it speaks this version of the protocol and knows the
/// token.
pub fn hello_allowed(expected: &str, version: u16, token: &str) -> (allowed: bool)
    ensures
        allowed == (version == STEAM_SYNC_PROTOCOL_VERSION && token@ == expected@),
{
    version == STEAM_SYNC_PROTOCOL_VERSION && same_text(token, expected)
}

fn has_id(ids: &Vec<u64>, id: u64) -> (found: bool)
    ensures
        found == ids@.contains(id),
{
    for i in 0..ids.len()
        invariant
            forall|j: int| 0 <= j < i ==> ids@[j] != id,
    {
        if ids[i] == id {
            return true;
        }
    }
    false
}

/// Where a guest stands among the peers.
fn find_peer(peers: &Vec<LobbyMember>, id: u64) -> (found: Option<usize>)
    ensures
        match found {
            Some(i) => i < peers.len() && peer_at(member_views(peers@), id, i as int),
            None => !has_peer(member_views(peers@), id),
        },
{
    for i in 0..peers.len()
        invariant
            forall|j: int| 0 <= j < i ==> peers@[j]@.steam_id != id,
    {
        if peers[i].steam_id == id {
            return Some(i);
        }
    }
    None
}

/// In a list without repetitions a guest stands at one place.
proof fn peer_index_is(peers: Seq<MemberView>, id: u64, i: int)
    requires
        distinct_peers(peers),
        peer_at(peers, id, i),
    ensures
        has_peer(peers, id),
        peer_index(peers, id) == i,
{
    let k = peer_index(peers, id);
    assert(peer_at(peers, id, k));
}

fn insert_peer(peers: &mut Vec<LobbyMember>, member: LobbyMember)
    requires
        distinct_peers(member_views(old(peers)@)),
    ensures
        member_views(final(peers)@) == peers_with(member_views(old(peers)@), member@),
        distinct_peers(member_views(final(peers)@)),
{
    let ghost before = member_views(peers@);
    let ghost m = member@;
    let found = find_peer(peers, member.steam_id);
    match found {
        Some(i) => {
            proof {
                peer_index_is(before, m.steam_id, i as int);
            }
            peers.set(i, member);
            assert(member_views(peers@) =~= before.update(i as int, m));
        },
        None => {
            peers.push(member);
            proof {
                assert(member_views(peers@) =~= before.push(m));
                assert forall|i: int, j: int|
                    0 <= i < before.push(m).len() && 0 <= j < before.push(m).len() && before.push(
                        m,
                    )[i].steam_id == before.push(m)[j].steam_id implies i == j by {
                    if i < before.len() && j == before.len() {
                        assert(peer_at(before, m.steam_id, i));
                    }
                    if j < before.len() && i == before.len() {
                        assert(peer_at(before, m.steam_id, j));
                    }
                }
            }
        },
    }
}

fn remove_peer(peers: &mut Vec<LobbyMember>, id: u64) -> (removed: Option<LobbyMember>)
    requires
        distinct_peers(member_views(old(peers)@)),
    ensures
        member_views(final(peers)@) == peers_without(member_views(old(peers)@), id),
        distinct_peers(member_views(final(peers)@)),
        match removed {
            Some(m) => has_peer(member_views(old(peers)@), id) && m@ == member_views(
                old(peers)@,
            )[peer_index(member_views(old(peers)@), id)],
            None => !has_peer(member_views(old(peers)@), id),
        },
{
    let ghost before = member_views(peers@);
    match find_peer(peers, id) {
        Some(i) => {
            proof {
                peer_index_is(before, id, i as int);
            }
            let removed = peers.remove(i);
            assert(member_views(peers@) =~= before.remove(i as int));
            Some(removed)
        },
        None => None,
    }
}

/// The name to show for someone: the given one without the white space around
/// it, the fallback where that is nothing, and never more than 48 characters.
pub open spec fn display_name(name: Seq<char>, fallback: Seq<char>) -> Seq<char> {
    let cleaned = if trimmed(name).len() == 0 {
        fallback
    } else {
        trimmed(name)
    };
    if cleaned.len() <= 48 {
        cleaned
    } else {
        cleaned.take(48)
    }
}

pub fn clean_display_name(name: &str, fallback: &str) -> (cleaned: String)
    ensures
        cleaned@ == display_name(name@, fallback@),
        cleaned@.len() <= 48,
{
    let own = trim(name);
    let chars = if own.as_str().is_empty() {
        chars_of(fallback)
    } else {
        chars_of(own.as_str())
    };
    let to: usize = if chars.len() <= 48 {
        chars.len()
    } else {
        48
    };
    let cleaned = text_of(&chars, 0, to);
    assert(cleaned@ =~= chars@.take(to as int));
    assert(to == chars.len() ==> cleaned@ =~= chars@);
    cleaned
}

/// The host's own entry in the list of members.
pub fn host_member(steam_id: u64, name: &str) -> (member: LobbyMember)
    ensures
        member@ == (MemberView { steam_id, name: display_name(name@, "Host"@), is_host: true }),
{
    LobbyMember { steam_id, name: clean_display_name(name, "Host"), is_host: true }
}

/// Everyone in the lobby: the host first.
pub fn host_lobby_members(host: &LobbyMember, peers: &Vec<LobbyMember>) -> (members: Vec<
    LobbyMember,
>)
    ensures
        member_views(members@) == everyone(host@, member_views(peers@)),
        members.len() == peers.len() + 1,
{
    let mut members: Vec<LobbyMember> = Vec::new();
    members.push(host.clone());
    for i in 0..peers.len()
        invariant
            members.len() == i + 1,
            members@[0]@ == host@,
            forall|j: int| 0 <= j < i ==> members@[j + 1]@ == (#[trigger] peers@[j])@,
    {
        members.push(peers[i].clone());
    }
    proof {
        let m = member_views(members@);
        let e = everyone(host@, member_views(peers@));
        assert forall|j: int| 0 <= j < m.len() implies m[j] == e[j] by {
            if j > 0 {
                assert(members@[(j - 1) + 1]@ == peers@[j - 1]@);
            }
        }
        assert(m =~= e);
    }
    members
}

// ---------------------------------------------------------------------------
// Steps of the runtime
// ---------------------------------------------------------------------------

pub open spec fn pause_command(paused: bool) -> Seq<char> {
    if paused {
        "[\"mpv-set-prop\",[\"pause\",true]]"@
    } else {
        "[\"mpv-set-prop\",[\"pause\",false]]"@
    }
}

pub open spec fn seek_command(time_text: Seq<char>) -> Seq<char> {
    "[\"mpv-command\",[\"seek\",\""@ + time_text + "\",\"absolute\"]]"@
}

/// How a member's place in the lobby changed.
#[derive(Debug, Clone, Copy, PartialEq, Eq, Structural)]
pub enum MemberChange {
    Entered,
    Left,
    Disconnected,
    Kicked,
    Banned,
}

impl SyncView {
    pub open spec fn wf(self) -> bool {
        self.mode matches Some(ModeView::Host(h)) ==> h.wf()
    }

    pub open spec fn doing(self, action: ActionView) -> SyncView {
        SyncView { outbox: self.outbox.push(action), ..self }
    }

    pub open spec fn doing_all(self, actions: Seq<ActionView>) -> SyncView {
        SyncView { outbox: self.outbox + actions, ..self }
    }

    /// After the lobby was left: everyone concerned is told, and nothing of
    /// the lobby is left.
    pub open spec fn left(self) -> SyncView {
        match self.mode {
            None => self,
            Some(ModeView::Host(h)) => SyncView {
                mode: None,
                lobby: self.lobby.cleared(),
                outbox: (self.outbox + to_all(
                    h.peers,
                    HostView::LobbyClosed { reason: "The host left the watch party"@ },
                )).push(ActionView::LeaveLobby { lobby_id: h.lobby_id }),
            },
            Some(ModeView::Guest(g)) => SyncView {
                mode: None,
                lobby: self.lobby.cleared(),
                outbox: self.outbox.push(
                    ActionView::Send {
                        peer_id: g.host_steam_id,
                        message: WireView::Guest(GuestView::Leave),
                        reliable: true,
                    },
                ).push(ActionView::LeaveLobby { lobby_id: g.lobby_id }),
            },
        }
    }

    /// The lobby's own record after its guests changed.
    pub open spec fn recounted(self, host: MemberView, peers: Seq<MemberView>, max_size: i32) -> LobbyView {
        LobbyView {
            members: everyone(host, peers),
            ..self.lobby.counted(count_with(peers), max_size)
        }
    }

    /// After a guest went away: the host forgets it and tells the others.
    pub open spec fn peer_gone(self, peer_id: u64, host: MemberView) -> SyncView {
        match self.mode {
            Some(ModeView::Host(h)) => if has_peer(h.peers, peer_id) {
                let peers = peers_without(h.peers, peer_id);
                let name = h.peers[peer_index(h.peers, peer_id)].name;
                SyncView {
                    mode: Some(ModeView::Host(HostModeView { peers, ..h })),
                    lobby: self.recounted(host, peers, h.max_size),
                    outbox: self.outbox.push(
                        ActionView::Ui(
                            UiView::GuestLeft { name, member_count: count_with(peers) },
                        ),
                    ) + to_all(peers, lobby_info(host, peers, h.max_size)),
                }
            } else {
                self
            },
            _ => self,
        }
    }

    /// After the host removed a guest: the guest is told, is not let in again,
    /// and the others are told.
    pub open spec fn peer_kicked(self, peer_id: u64, host: MemberView) -> SyncView {
        match self.mode {
            Some(ModeView::Host(h)) => if has_peer(h.peers, peer_id) {
                let peers = peers_without(h.peers, peer_id);
                let name = h.peers[peer_index(h.peers, peer_id)].name;
                SyncView {
                    mode: Some(
                        ModeView::Host(
                            HostModeView { peers, kicked: h.kicked.push(peer_id), ..h },
                        ),
                    ),
                    lobby: self.recounted(host, peers, h.max_size),
                    outbox: self.outbox.push(
                        to_peer(
                            peer_id,
                            HostView::LobbyClosed {
                                reason: "You were removed from the watch party"@,
                            },
                            true,
                        ),
                    ).push(
                        ActionView::Ui(
                            UiView::GuestLeft { name, member_count: count_with(peers) },
                        ),
                    ) + to_all(peers, lobby_info(host, peers, h.max_size)),
                }
            } else {
                self
            },
            _ => self,
        }
    }

    /// After a guest was let in.
    pub open spec fn peer_joined(
        self,
        h: HostModeView,
        member: MemberView,
        host: MemberView,
        state: HostView,
    ) -> SyncView {
        let peers = peers_with(h.peers, member);
        SyncView {
            mode: Some(ModeView::Host(HostModeView { peers, ..h })),
            lobby: self.recounted(host, peers, h.max_size),
            outbox: (self.outbox.push(
                ActionView::Ui(
                    UiView::GuestJoined { name: member.name, member_count: count_with(peers) },
                ),
            ) + to_all(peers, lobby_info(host, peers, h.max_size))).push(
                to_peer(member.steam_id, state, true),
            ),
        }
    }

    /// After a message reached the host.
    pub open spec fn host_heard(
        self,
        peer_id: u64,
        message: WireView,
        peer_name: Seq<char>,
        host: MemberView,
        state: HostView,
    ) -> SyncView {
        match (self.mode, message) {
            (
                Some(ModeView::Host(h)),
                WireView::Guest(GuestView::Hello { protocol_version, token, name }),
            ) => match h.refusal(peer_id, protocol_version, token) {
                Some(reason) => self.doing(
                    ActionView::Send {
                        peer_id,
                        message: WireView::Error { message: reason },
                        reliable: true,
                    },
                ),
                None => self.peer_joined(
                    h,
                    MemberView {
                        steam_id: peer_id,
                        name: display_name(peer_name, name),
                        is_host: false,
                    },
                    host,
                    state,
                ),
            },
            (Some(ModeView::Host(h)), WireView::Guest(GuestView::RequestState)) => if has_peer(
                h.peers,
                peer_id,
            ) {
                self.doing(to_peer(peer_id, lobby_info(host, h.peers, h.max_size), true)).doing(
                    to_peer(peer_id, state, true),
                )
            } else {
                self
            },
            (Some(ModeView::Host(h)), WireView::Guest(GuestView::Leave)) => self.peer_gone(
                peer_id,
                host,
            ),
            _ => self,
        }
    }

    /// After a guest took in what the host says.
    pub open spec fn guest_heard(self, g: GuestModeView, message: HostView, time_text: Seq<char>) -> SyncView {
        match message {
            HostView::State { web_url, time_pos, paused, .. } => {
                let moved = if web_url.len() > 0 && web_url != g.current_web_url {
                    let opened = match after_first(web_url, "#/"@) {
                        Some(rest) => self.doing(ActionView::OpenMedia("stremio:///"@ + rest)),
                        None => self,
                    };
                    SyncView {
                        mode: Some(
                            ModeView::Guest(GuestModeView { current_web_url: web_url, ..g }),
                        ),
                        ..opened.doing(ActionView::WaitMillis(1500))
                    }
                } else {
                    self
                };
                moved.doing(ActionView::FollowHost { time_pos, paused })
            },
            HostView::Load { .. } => self,
            HostView::Play { .. } => self.doing(ActionView::Player(pause_command(false))).doing(
                ActionView::Player(seek_command(time_text)),
            ),
            HostView::Pause { .. } => self.doing(ActionView::Player(pause_command(true))).doing(
                ActionView::Player(seek_command(time_text)),
            ),
            HostView::Seek { .. } => self.doing(ActionView::Player(seek_command(time_text))),
            HostView::LobbyInfo { member_count, max_size, members } => SyncView {
                lobby: LobbyView { members, ..self.lobby.counted(member_count, max_size) },
                ..self.doing(ActionView::Ui(UiView::LobbyUpdated { member_count, max_size }))
            },
            HostView::LobbyClosed { reason } => self.left().doing(
                ActionView::Ui(UiView::HostLeft { reason }),
            ),
        }
    }

    /// After a message arrived.
    pub open spec fn heard(
        self,
        peer_id: u64,
        message: WireView,
        time_text: Seq<char>,
        peer_name: Seq<char>,
        host: MemberView,
        state: HostView,
    ) -> SyncView {
        match self.mode {
            Some(ModeView::Host(h)) => self.host_heard(peer_id, message, peer_name, host, state),
            Some(ModeView::Guest(g)) => match message {
                WireView::Host(m) => self.guest_heard(g, m, time_text),
                _ => self,
            },
            None => self,
        }
    }

    /// After someone's place in a lobby changed.
    pub open spec fn chat_updated(
        self,
        lobby_id: u64,
        user: u64,
        change: MemberChange,
        host: MemberView,
    ) -> SyncView {
        match self.mode {
            Some(ModeView::Host(h)) => if h.lobby_id == lobby_id && change
                != MemberChange::Entered {
                self.peer_gone(user, host)
            } else {
                self
            },
            Some(ModeView::Guest(g)) => if g.lobby_id == lobby_id && user == g.host_steam_id
                && change != MemberChange::Entered {
                self.left().doing(
                    ActionView::Ui(UiView::HostLeft { reason: "The host left the watch party"@ }),
                )
            } else {
                self
            },
            None => self,
        }
    }
}

impl SyncRuntime {
    /// The guests of a host are distinct, and none of those who were removed
    /// is among them.
    pub open spec fn wf(&self) -> bool {
        self@.wf()
    }

    /// A runtime in no lobby.
    pub fn new() -> (runtime: SyncRuntime)
        ensures
            runtime.wf(),
            runtime@.mode is None,
            runtime@.outbox.len() == 0,
            runtime@.lobby.party_id.len() == 0,
            runtime@.lobby.max_size == 8,
            runtime@.lobby == runtime@.lobby.cleared(),
    {
        let runtime = SyncRuntime { mode: None, lobby: LobbyState::new(), outbox: Vec::new() };
        assert(runtime@.lobby =~= runtime@.lobby.cleared());
        runtime
    }

    /// Hands out what is to be done, in order.
    pub fn take_actions(&mut self) -> (actions: Vec<SyncAction>)
        ensures
            action_views(actions@) == old(self)@.outbox,
            final(self)@ == (SyncView { outbox: Seq::empty(), ..old(self)@ }),
    {
        let mut actions: Vec<SyncAction> = Vec::new();
        std::mem::swap(&mut actions, &mut self.outbox);
        assert(self@.outbox =~= Seq::empty());
        actions
    }

    fn act(&mut self, action: SyncAction)
        ensures
            final(self)@ == old(self)@.doing(action@),
            final(self).mode == old(self).mode,
            final(self).lobby == old(self).lobby,
    {
        let ghost a = action@;
        self.outbox.push(action);
        assert(self@.outbox =~= old(self)@.outbox.push(a));
    }

    fn send_host_msg(&mut self, peer_id: u64, msg: HostMsg, reliable: bool)
        ensures
            final(self)@ == old(self)@.doing(to_peer(peer_id, msg@, reliable)),
            final(self).mode == old(self).mode,
            final(self).lobby == old(self).lobby,
    {
        self.act(SyncAction::Send { peer_id, message: SteamSyncWireMsg::Host(msg), reliable });
    }

    fn send_guest_msg(&mut self, peer_id: u64, msg: GuestMsg)
        ensures
            final(self)@ == old(self)@.doing(
                ActionView::Send { peer_id, message: WireView::Guest(msg@), reliable: true },
            ),
            final(self).mode == old(self).mode,
            final(self).lobby == old(self).lobby,
    {
        self.act(
            SyncAction::Send { peer_id, message: SteamSyncWireMsg::Guest(msg), reliable: true },
        );
    }

    /// One message to each of the peers.
    fn send_to_all(&mut self, peers: &Vec<LobbyMember>, msg: &HostMsg)
        ensures
            final(self)@ == old(self)@.doing_all(to_all(member_views(peers@), msg@)),
            final(self).mode == old(self).mode,
            final(self).lobby == old(self).lobby,
    {
        let ghost all = to_all(member_views(peers@), msg@);
        assert(self@.doing_all(all.take(0)) =~= self@);
        for i in 0..peers.len()
            invariant
                all == to_all(member_views(peers@), msg@),
                self@ == old(self)@.doing_all(all.take(i as int)),
                self.mode == old(self).mode,
                self.lobby == old(self).lobby,
        {
            self.send_host_msg(peers[i].steam_id, msg.clone(), true);
            assert(all.take(i + 1) =~= all.take(i as int).push(all[i as int]));
            assert(self@.outbox =~= old(self)@.doing_all(all.take(i + 1)).outbox);
        }
        assert(all.take(all.len() as int) =~= all);
    }

    /// Leaves the lobby and tells those concerned.
    pub fn leave_current_lobby(&mut self)
        ensures
            final(self)@ == old(self)@.left(),
            final(self)@.mode is None,
    {
        match self.mode.take() {
            Some(Mode::Host(host)) => {
                let closed = HostMsg::LobbyClosed {
                    reason: "The host left the watch party".to_string(),
                };
                self.send_to_all(&host.authorized_peers, &closed);
                self.act(SyncAction::LeaveLobby { lobby_id: host.lobby_id });
                self.lobby.clear_lobby_globals();
            },
            Some(Mode::Guest(guest)) => {
                self.send_guest_msg(guest.host_steam_id, GuestMsg::Leave);
                self.act(SyncAction::LeaveLobby { lobby_id: guest.lobby_id });
                self.lobby.clear_lobby_globals();
            },
            None => {},
        }
    }

    /// Brings the lobby's record up to date after its guests changed.
    fn recount(&mut self, host: &LobbyMember, host_mode: &HostMode) -> (count: i32)
        ensures
            count == count_with(host_mode@.peers),
            final(self)@ == (SyncView {
                lobby: old(self)@.recounted(host@, host_mode@.peers, host_mode.max_size),
                ..old(self)@
            }),
            final(self).mode == old(self).mode,
    {
        let members = host_lobby_members(host, &host_mode.authorized_peers);
        let count: i32 = members.len() as i32;
        self.lobby.set_lobby_counts(count, host_mode.max_size);
        self.lobby.set_lobby_members(members);
        count
    }

    /// Tells all guests who is in the lobby.
    fn announce(&mut self, host: &LobbyMember, host_mode: &HostMode)
        ensures
            final(self)@ == old(self)@.doing_all(
                to_all(
                    host_mode@.peers,
                    lobby_info(host@, host_mode@.peers, host_mode.max_size),
                ),
            ),
            final(self).mode == old(self).mode,
            final(self).lobby == old(self).lobby,
    {
        let info = lobby_info_message(host, host_mode);
        self.send_to_all(&host_mode.authorized_peers, &info);
    }

    /// Forgets a guest that went away and tells the others.
    pub fn handle_peer_left(&mut self, peer_id: u64, host: &LobbyMember)
        requires
            old(self).wf(),
        ensures
            final(self).wf(),
            final(self)@ == old(self)@.peer_gone(peer_id, host@),
    {
        match self.mode.take() {
            Some(Mode::Host(mut host_mode)) => {
                let ghost before = host_mode@;
                let removed = remove_peer(&mut host_mode.authorized_peers, peer_id);
                match removed {
                    Some(member) => {
                        let count: i32 = self.recount(host, &host_mode);
                        self.act(
                            SyncAction::Ui(
                                SyncUiEvent::GuestLeft { name: member.name, member_count: count },
                            ),
                        );
                        self.announce(host, &host_mode);
                        proof {
                            removal_keeps_order(before, peer_id);
                            assert(host_mode@ =~= (HostModeView {
                                peers: peers_without(before.peers, peer_id),
                                ..before
                            }));
                        }
                    },
                    None => {
                        assert(host_mode@ =~= before);
                    },
                }
                self.mode = Some(Mode::Host(host_mode));
            },
            other => {
                self.mode = other;
            },
        }
    }

    /// Removes a guest for good and tells everyone.
    pub fn kick_authorized_peer(&mut self, peer_id: u64, host: &LobbyMember)
        requires
            old(self).wf(),
        ensures
            final(self).wf(),
            final(self)@ == old(self)@.peer_kicked(peer_id, host@),
    {
        match self.mode.take() {
            Some(Mode::Host(mut host_mode)) => {
                let ghost before = host_mode@;
                let removed = remove_peer(&mut host_mode.authorized_peers, peer_id);
                match removed {
                    Some(member) => {
                        host_mode.kicked_peers.push(peer_id);
                        self.send_host_msg(
                            peer_id,
                            HostMsg::LobbyClosed {
                                reason: "You were removed from the watch party".to_string(),
                            },
                            true,
                        );
                        let count: i32 = self.recount(host, &host_mode);
                        self.act(
                            SyncAction::Ui(
                                SyncUiEvent::GuestLeft { name: member.name, member_count: count },
                            ),
                        );
                        self.announce(host, &host_mode);
                        proof {
                            removal_keeps_order(before, peer_id);
                            assert(host_mode@ =~= (HostModeView {
                                peers: peers_without(before.peers, peer_id),
                                kicked: before.kicked.push(peer_id),
                                ..before
                            }));
                        }
                    },
                    None => {
                        assert(host_mode@ =~= before);
                    },
                }
                self.mode = Some(Mode::Host(host_mode));
            },
            other => {
                self.mode = other;
            },
        }
    }
}

/// The message that tells who is in the lobby.
fn lobby_info_message(host: &LobbyMember, host_mode: &HostMode) -> (msg: HostMsg)
    ensures
        msg@ == lobby_info(host@, host_mode@.peers, host_mode.max_size),
{
    let members = host_lobby_members(host, &host_mode.authorized_peers);
    HostMsg::LobbyInfo {
        member_count: members.len() as i32,
        max_size: host_mode.max_size,
        members,
    }
}

/// A host without one of its guests is still in order, also when that guest
/// is not to come back.
pub proof fn removal_keeps_order(h: HostModeView, peer_id: u64)
    requires
        h.wf(),
        has_peer(h.peers, peer_id),
    ensures
        (HostModeView { peers: peers_without(h.peers, peer_id), ..h }).wf(),
        (HostModeView {
            peers: peers_without(h.peers, peer_id),
            kicked: h.kicked.push(peer_id),
            ..h
        }).wf(),
        !has_peer(peers_without(h.peers, peer_id), peer_id),
        peers_without(h.peers, peer_id).len() == h.peers.len() - 1,
{
    let k = peer_index(h.peers, peer_id);
    let rest = h.peers.remove(k);
    let kicked = h.kicked.push(peer_id);
    assert(peer_at(h.peers, peer_id, k));
    assert forall|i: int| 0 <= i < rest.len() implies #[trigger] rest[i].steam_id != peer_id
        && !h.kicked.contains(rest[i].steam_id) && !kicked.contains(rest[i].steam_id) by {
        let j = if i < k {
            i
        } else {
            i + 1
        };
        assert(rest[i] == h.peers[j]);
        assert(h.peers[j].steam_id != peer_id);
        if kicked.contains(rest[i].steam_id) {
            let n = choose|n: int| 0 <= n < kicked.len() && kicked[n] == rest[i].steam_id;
            if n < h.kicked.len() {
                assert(h.kicked[n] == rest[i].steam_id);
            }
        }
    }
    if has_peer(rest, peer_id) {
        let i = peer_index(rest, peer_id);
        assert(peer_at(rest, peer_id, i));
    }
    assert forall|i: int, j: int|
        0 <= i < rest.len() && 0 <= j < rest.len() && rest[i].steam_id
            == rest[j].steam_id implies i == j by {
        let a = if i < k {
            i
        } else {
            i + 1
        };
        let b = if j < k {
            j
        } else {
            j + 1
        };
        assert(rest[i] == h.peers[a] && rest[j] == h.peers[b]);
    }
}

/// A host with one more guest is still in order.
pub proof fn admission_keeps_order(h: HostModeView, member: MemberView)
    requires
        h.wf(),
        !h.kicked.contains(member.steam_id),
    ensures
        (HostModeView { peers: peers_with(h.peers, member), ..h }).wf(),
        has_peer(peers_with(h.peers, member), member.steam_id),
{
    let peers = peers_with(h.peers, member);
    let id = member.steam_id;
    if has_peer(h.peers, id) {
        let k = peer_index(h.peers, id);
        assert(peer_at(h.peers, id, k));
        assert(peer_at(peers, id, k));
    } else {
        assert forall|i: int| 0 <= i < h.peers.len() implies #[trigger] h.peers[i].steam_id
            != id by {
            if h.peers[i].steam_id == id {
                assert(peer_at(h.peers, id, i));
            }
        }
        assert(peer_at(peers, id, h.peers.len() as int));
    }
}

impl SyncRuntime {
    /// Lets a guest in.
    fn admit_peer(
        &mut self,
        host_mode: HostMode,
        member: LobbyMember,
        host: &LobbyMember,
        state: &HostState,
    )
        requires
            host_mode.wf(),
            !host_mode@.kicked.contains(member.steam_id),
        ensures
            final(self)@ == old(self)@.peer_joined(host_mode@, member@, host@, state.message()),
            final(self).wf(),
    {
        let ghost before = host_mode@;
        let ghost m = member@;
        let mut host_mode = host_mode;
        let peer_id = member.steam_id;
        let name = member.name.clone();
        insert_peer(&mut host_mode.authorized_peers, member);
        let count: i32 = self.recount(host, &host_mode);
        self.act(SyncAction::Ui(SyncUiEvent::GuestJoined { name, member_count: count }));
        self.announce(host, &host_mode);
        self.send_host_msg(peer_id, state.to_msg(), true);
        proof {
            admission_keeps_order(before, m);
            assert(host_mode@ =~= (HostModeView { peers: peers_with(before.peers, m), ..before }));
        }
        self.mode = Some(Mode::Host(host_mode));
    }

    /// Takes in a message as a host. `peer_name` is the name under which the
    /// sender is known, and matters for a hello alone.
    pub fn handle_host_incoming(
        &mut self,
        peer_id: u64,
        message: SteamSyncWireMsg,
        peer_name: &str,
        host: &LobbyMember,
        state: &HostState,
    )
        requires
            old(self).wf(),
        ensures
            final(self).wf(),
            final(self)@ == old(self)@.host_heard(
                peer_id,
                message@,
                peer_name@,
                host@,
                state.message(),
            ),
    {
        let guest_message = match message {
            SteamSyncWireMsg::Guest(m) => m,
            _ => return ,
        };
        match guest_message {
            GuestMsg::Hello { protocol_version, token, name } => {
                match self.mode.take() {
                    Some(Mode::Host(host_mode)) => {
                        match host_mode.hello_refusal(peer_id, protocol_version, token.as_str()) {
                            Some(reason) => {
                                self.act(
                                    SyncAction::Send {
                                        peer_id,
                                        message: SteamSyncWireMsg::Error { message: reason },
                                        reliable: true,
                                    },
                                );
                                self.mode = Some(Mode::Host(host_mode));
                            },
                            None => {
                                let member = LobbyMember {
                                    steam_id: peer_id,
                                    name: clean_display_name(peer_name, name.as_str()),
                                    is_host: false,
                                };
                                self.admit_peer(host_mode, member, host, state);
                            },
                        }
                    },
                    other => {
                        self.mode = other;
                    },
                }
            },
            GuestMsg::RequestState => {
                match self.mode.take() {
                    Some(Mode::Host(host_mode)) => {
                        let known = find_peer(&host_mode.authorized_peers, peer_id);
                        if known.is_some() {
                            let info = lobby_info_message(host, &host_mode);
                            self.send_host_msg(peer_id, info, true);
                            self.send_host_msg(peer_id, state.to_msg(), true);
                        }
                        self.mode = Some(Mode::Host(host_mode));
                    },
                    other => {
                        self.mode = other;
                    },
                }
            },
            GuestMsg::Leave => {
                self.handle_peer_left(peer_id, host);
            },
        }
    }

    /// Takes in what the host says, as a guest. `time_text` is the position
    /// that the message names, in decimal.
    pub fn handle_host_message(&mut self, message: HostMsg, time_text: &str)
        requires
            old(self)@.mode matches Some(ModeView::Guest(_)),
        ensures
            final(self).wf(),
            final(self)@ == old(self)@.guest_heard(
                old(self)@.mode->0->Guest_0,
                message@,
                time_text@,
            ),
    {
        match message {
            HostMsg::State { stream_url, web_url, time_pos, duration, paused } => {
                match self.mode.take() {
                    Some(Mode::Guest(mut guest)) => {
                        if !web_url.as_str().is_empty() && !same_text(
                            web_url.as_str(),
                            guest.current_web_url.as_str(),
                        ) {
                            match text_after(web_url.as_str(), "#/") {
                                Some(rest) => {
                                    let mut url = "stremio:///".to_string();
                                    url.append(rest.as_str());
                                    self.act(SyncAction::OpenMedia(url));
                                },
                                None => {},
                            }
                            guest.current_web_url = web_url;
                            self.act(SyncAction::WaitMillis(1500));
                        }
                        self.mode = Some(Mode::Guest(guest));
                    },
                    other => {
                        self.mode = other;
                    },
                }
                self.act(SyncAction::FollowHost { time_pos, paused });
            },
            HostMsg::Load { stream_url, web_url } => {},
            HostMsg::Play { time_pos } => {
                self.act(SyncAction::Player(pause_text(false)));
                self.act(SyncAction::Player(seek_text(time_text)));
            },
            HostMsg::Pause { time_pos } => {
                self.act(SyncAction::Player(pause_text(true)));
                self.act(SyncAction::Player(seek_text(time_text)));
            },
            HostMsg::Seek { time_pos } => {
                self.act(SyncAction::Player(seek_text(time_text)));
            },
            HostMsg::LobbyInfo { member_count, max_size, members } => {
                self.lobby.set_lobby_counts(member_count, max_size);
                self.lobby.set_lobby_members(members);
                self.act(SyncAction::Ui(SyncUiEvent::LobbyUpdated { member_count, max_size }));
            },
            HostMsg::LobbyClosed { reason } => {
                self.leave_current_lobby();
                self.act(SyncAction::Ui(SyncUiEvent::HostLeft { reason }));
            },
        }
    }

    /// Takes in a message.
    pub fn handle_incoming(
        &mut self,
        peer_id: u64,
        message: SteamSyncWireMsg,
        time_text: &str,
        peer_name: &str,
        host: &LobbyMember,
        state: &HostState,
    )
        requires
            old(self).wf(),
        ensures
            final(self).wf(),
            final(self)@ == old(self)@.heard(
                peer_id,
                message@,
                time_text@,
                peer_name@,
                host@,
                state.message(),
            ),
    {
        let role = self.session_policy().role;
        match role {
            LobbyRole::Host => {
                self.handle_host_incoming(peer_id, message, peer_name, host, state);
            },
            LobbyRole::Guest => {
                match message {
                    SteamSyncWireMsg::Host(m) => self.handle_host_message(m, time_text),
                    SteamSyncWireMsg::Guest(m) => {},
                    SteamSyncWireMsg::Error { message: m } => {},
                }
            },
            LobbyRole::Absent => {},
        }
    }

    /// Takes in that someone's place in a lobby changed.
    pub fn handle_lobby_chat_update(
        &mut self,
        lobby_id: u64,
        user: u64,
        change: MemberChange,
        host: &LobbyMember,
    )
        requires
            old(self).wf(),
        ensures
            final(self).wf(),
            final(self)@ == old(self)@.chat_updated(lobby_id, user, change, host@),
    {
        if change == MemberChange::Entered {
            return ;
        }
        let mut guest_of_user = false;
        let mut host_of_lobby = false;
        match &self.mode {
            Some(Mode::Host(h)) => {
                host_of_lobby = h.lobby_id == lobby_id;
            },
            Some(Mode::Guest(g)) => {
                guest_of_user = g.lobby_id == lobby_id && g.host_steam_id == user;
            },
            None => {},
        }
        if host_of_lobby {
            self.handle_peer_left(user, host);
        } else if guest_of_user {
            self.leave_current_lobby();
            self.act(
                SyncAction::Ui(
                    SyncUiEvent::HostLeft { reason: "The host left the watch party".to_string() },
                ),
            );
        }
    }

    /// Takes in that the connection to someone broke.
    pub fn handle_session_failed(&mut self, peer_id: Option<u64>, host: &LobbyMember)
        requires
            old(self).wf(),
        ensures
            final(self).wf(),
            final(self)@ == match peer_id {
                Some(id) => old(self)@.peer_gone(id, host@),
                None => old(self)@,
            },
    {
        match peer_id {
            Some(id) => self.handle_peer_left(id, host),
            None => {},
        }
    }

    /// Whom the runtime lets open a connection.
    pub fn session_policy(&self) -> (policy: SessionPolicy)
        ensures
            policy == policy_of(self@.mode),
    {
        match &self.mode {
            Some(Mode::Host(_)) => SessionPolicy { role: LobbyRole::Host, host_steam_id: None },
            Some(Mode::Guest(g)) => SessionPolicy {
                role: LobbyRole::Guest,
                host_steam_id: Some(g.host_steam_id),
            },
            None => SessionPolicy { role: LobbyRole::Absent, host_steam_id: None },
        }
    }
}

fn pause_text(paused: bool) -> (command: String)
    ensures
        command@ == pause_command(paused),
{
    if paused {
        "[\"mpv-set-prop\",[\"pause\",true]]".to_string()
    } else {
        "[\"mpv-set-prop\",[\"pause\",false]]".to_string()
    }
}

fn seek_text(time_text: &str) -> (command: String)
    ensures
        command@ == seek_command(time_text@),
{
    let mut command = "[\"mpv-command\",[\"seek\",\"".to_string();
    command.append(time_text);
    command.append("\",\"absolute\"]]");
    command
}

/// What a guest tells its player to follow the host.
pub open spec fn following_commands(
    paused: bool,
    time_text: Seq<char>,
    local_duration: Real,
    drift: Real,
) -> Seq<Seq<char>> {
    if real_zero().less(local_duration) && (Real { bits: TWO_BITS }).less(drift) {
        seq![pause_command(paused), seek_command(time_text)]
    } else {
        seq![pause_command(paused)]
    }
}

/// What a guest tells its player to follow the host: to pause or play, and to
/// seek where something is playing more than two seconds away. `drift` is the
/// distance between the two positions and `time_text` the host's in decimal.
pub fn follow_host_state(paused: bool, time_text: &str, local_duration: Real, drift: Real) -> (commands: Vec<
    String,
>)
    ensures
        commands@.len() == if real_zero().less(local_duration) && (Real { bits: TWO_BITS }).less(
            drift,
        ) {
            2int
        } else {
            1
        },
        commands@[0]@ == pause_command(paused),
        commands@.len() == 2 ==> commands@[1]@ == seek_command(time_text@),
        crate::text::texts(commands@) == following_commands(
            paused,
            time_text@,
            local_duration,
            drift,
        ),
{
    let mut commands: Vec<String> = Vec::new();
    commands.push(pause_text(paused));
    if Real::from_bits(0).lt(&local_duration) && Real::from_bits(TWO_BITS).lt(&drift) {
        commands.push(seek_text(time_text));
    }
    commands
}

// ---------------------------------------------------------------------------
// Whom to let in
// ---------------------------------------------------------------------------

/// Whom the runtime lets open a connection.
#[derive(Debug, Clone, Copy, PartialEq, Eq, Structural)]
pub struct SessionPolicy {
    pub role: LobbyRole,
    pub host_steam_id: Option<u64>,
}

pub open spec fn policy_of(mode: Option<ModeView>) -> SessionPolicy {
    match mode {
        Some(ModeView::Host(_)) => SessionPolicy { role: LobbyRole::Host, host_steam_id: None },
        Some(ModeView::Guest(g)) => SessionPolicy {
            role: LobbyRole::Guest,
            host_steam_id: Some(g.host_steam_id),
        },
        None => SessionPolicy { role: LobbyRole::Absent, host_steam_id: None },
    }
}

impl Default for SessionPolicy {
    fn default() -> (policy: SessionPolicy)
        ensures
            policy == policy_of(None),
    {
        SessionPolicy { role: LobbyRole::Absent, host_steam_id: None }
    }
}

impl SessionPolicy {
    /// Whether someone may open a connection.
    pub open spec fn accepts(self, peer_id: u64) -> bool {
        match self.role {
            LobbyRole::Host => true,
            LobbyRole::Guest => self.host_steam_id == Some(peer_id),
            LobbyRole::Absent => false,
        }
    }

    /// A host hears everyone, a guest its host, and no one else hears anyone.
    pub fn should_accept(&self, peer_id: u64) -> (accept: bool)
        ensures
            accept == match self.role {
                LobbyRole::Host => true,
                LobbyRole::Guest => self.host_steam_id == Some(peer_id),
                LobbyRole::Absent => false,
            },
            accept == self.accepts(peer_id),
    {
        match self.role {
            LobbyRole::Host => true,
            LobbyRole::Guest => match self.host_steam_id {
                Some(id) => id == peer_id,
                None => false,
            },
            LobbyRole::Absent => false,
        }
    }
}

// ---------------------------------------------------------------------------
// Commands and the outcomes of what they ask for
// ---------------------------------------------------------------------------

/// A request to the runtime.
#[derive(Debug)]
pub enum RuntimeCommand {
    StartHost { party_id: String, token: String, max_size: i32 },
    JoinHost { secret: SteamJoinSecret },
    Kick { steam_id: u64 },
    Leave,
}

/// A request by its texts.
#[verifier::ext_equal]
pub enum CommandView {
    StartHost { party_id: Seq<char>, token: Seq<char>, max_size: i32 },
    JoinHost { secret: SecretView },
    Kick { steam_id: u64 },
    Leave,
}

impl View for RuntimeCommand {
    type V = CommandView;

    open spec fn view(&self) -> CommandView {
        match *self {
            RuntimeCommand::StartHost { party_id, token, max_size } => CommandView::StartHost {
                party_id: party_id@,
                token: token@,
                max_size,
            },
            RuntimeCommand::JoinHost { secret } => CommandView::JoinHost { secret: secret@ },
            RuntimeCommand::Kick { steam_id } => CommandView::Kick { steam_id },
            RuntimeCommand::Leave => CommandView::Leave,
        }
    }
}

/// An outcome that is a number or an error's text.
pub open spec fn lobby_outcome(r: Result<u64, String>) -> Result<u64, Seq<char>> {
    match r {
        Ok(id) => Ok(id),
        Err(e) => Err(e@),
    }
}

/// What a host writes into its lobby for others to read.
pub open spec fn lobby_data(lobby_id: u64, host_id: u64, party_id: Seq<char>) -> Seq<ActionView> {
    seq![
        ActionView::SetLobbyData { lobby_id, key: "stremio_sync"@, value: "1"@ },
        ActionView::SetLobbyData { lobby_id, key: "protocol"@, value: "1"@ },
        ActionView::SetLobbyData { lobby_id, key: "app_id"@, value: "480"@ },
        ActionView::SetLobbyData {
            lobby_id,
            key: "host_steam_id"@,
            value: decimal(host_id as nat),
        },
        ActionView::SetLobbyData { lobby_id, key: "party_id"@, value: party_id },
        ActionView::SetLobbyJoinable { lobby_id },
    ]
}

/// A host in a new lobby: nobody let in, nobody removed, nothing told yet.
pub open spec fn new_host(lobby_id: u64, token: Seq<char>, max_size: i32) -> HostModeView {
    HostModeView {
        lobby_id,
        token,
        max_size,
        peers: Seq::empty(),
        kicked: Seq::empty(),
        last_stream_url: Seq::empty(),
        last_web_url: Seq::empty(),
        last_paused: false,
        last_time: real_zero(),
        last_broadcast: None,
    }
}

impl SyncView {
    /// After a command.
    pub open spec fn commanded(self, command: CommandView, host: MemberView) -> SyncView {
        match command {
            CommandView::StartHost { party_id, token, max_size } => self.left().doing(
                ActionView::CreateLobby {
                    party_id,
                    token,
                    max_size,
                    slots: if max_size >= 2 {
                        max_size as u32
                    } else {
                        2
                    },
                },
            ),
            CommandView::JoinHost { secret } => self.left().doing(ActionView::JoinLobby { secret }),
            CommandView::Kick { steam_id } => self.peer_kicked(steam_id, host),
            CommandView::Leave => self.left().doing(ActionView::Ui(UiView::LeftLobby)),
        }
    }

    /// After it became known whether the lobby for a host was created.
    pub open spec fn lobby_created(
        self,
        result: Result<u64, Seq<char>>,
        party_id: Seq<char>,
        token: Seq<char>,
        max_size: i32,
        host: MemberView,
    ) -> SyncView {
        match result {
            Ok(lobby_id) => SyncView {
                mode: Some(ModeView::Host(new_host(lobby_id, token, max_size))),
                lobby: LobbyView {
                    members: seq![host],
                    role: LobbyRole::Host,
                    ..self.lobby.counted(1, max_size)
                },
                outbox: (self.outbox + lobby_data(lobby_id, host.steam_id, party_id)).push(
                    ActionView::Ui(UiView::HostStarted),
                ).push(
                    ActionView::ReplyHost(
                        Ok(
                            SecretView {
                                app_id: STEAM_SYNC_APP_ID,
                                lobby_id,
                                host_steam_id: host.steam_id,
                                party_id,
                                token,
                            },
                        ),
                    ),
                ),
            },
            Err(e) => {
                let message = "failed to create Steam lobby: "@ + e;
                SyncView {
                    mode: self.mode,
                    lobby: self.lobby.counted(0, max_size),
                    outbox: self.outbox.push(ActionView::Ui(UiView::Error { message })).push(
                        ActionView::ReplyHost(Err(message)),
                    ),
                }
            },
        }
    }

    /// After it became known whether a lobby was joined.
    pub open spec fn lobby_joined(
        self,
        result: Result<u64, Seq<char>>,
        secret: SecretView,
        user_name: Seq<char>,
    ) -> SyncView {
        match result {
            Ok(lobby_id) => SyncView {
                mode: Some(
                    ModeView::Guest(
                        GuestModeView {
                            lobby_id,
                            host_steam_id: secret.host_steam_id,
                            current_web_url: Seq::empty(),
                        },
                    ),
                ),
                lobby: LobbyView { role: LobbyRole::Guest, ..self.lobby },
                outbox: self.outbox.push(
                    ActionView::Send {
                        peer_id: secret.host_steam_id,
                        message: WireView::Guest(
                            GuestView::Hello {
                                protocol_version: STEAM_SYNC_PROTOCOL_VERSION,
                                token: secret.token,
                                name: user_name,
                            },
                        ),
                        reliable: true,
                    },
                ).push(
                    ActionView::Send {
                        peer_id: secret.host_steam_id,
                        message: WireView::Guest(GuestView::RequestState),
                        reliable: true,
                    },
                ).push(ActionView::Ui(UiView::JoinedHost)).push(ActionView::ReplyGuest(Ok(()))),
            },
            Err(e) => {
                let message = "failed to join Steam lobby: "@ + e;
                SyncView {
                    mode: self.mode,
                    lobby: self.lobby.cleared(),
                    outbox: self.outbox.push(ActionView::Ui(UiView::Error { message })).push(
                        ActionView::ReplyGuest(Err(message)),
                    ),
                }
            },
        }
    }
}

impl SyncRuntime {
    /// Carries out a command.
    pub fn handle_command(&mut self, command: RuntimeCommand, host: &LobbyMember)
        requires
            old(self).wf(),
        ensures
            final(self).wf(),
            final(self)@ == old(self)@.commanded(command@, host@),
    {
        match command {
            RuntimeCommand::StartHost { party_id, token, max_size } => {
                self.leave_current_lobby();
                let slots: u32 = if max_size >= 2 {
                    max_size as u32
                } else {
                    2
                };
                self.act(SyncAction::CreateLobby { party_id, token, max_size, slots });
            },
            RuntimeCommand::JoinHost { secret } => {
                self.leave_current_lobby();
                self.act(SyncAction::JoinLobby { secret });
            },
            RuntimeCommand::Kick { steam_id } => {
                self.kick_authorized_peer(steam_id, host);
            },
            RuntimeCommand::Leave => {
                self.leave_current_lobby();
                self.act(SyncAction::Ui(SyncUiEvent::LeftLobby));
            },
        }
    }

    fn set_lobby_data(&mut self, lobby_id: u64, key: &str, value: &str)
        ensures
            final(self)@ == old(self)@.doing(
                ActionView::SetLobbyData { lobby_id, key: key@, value: value@ },
            ),
            final(self).mode == old(self).mode,
            final(self).lobby == old(self).lobby,
    {
        self.act(
            SyncAction::SetLobbyData { lobby_id, key: key.to_string(), value: value.to_string() },
        );
    }

    /// Takes in whether the lobby to host was created.
    pub fn handle_lobby_created(
        &mut self,
        result: Result<u64, String>,
        party_id: String,
        token: String,
        max_size: i32,
        host: &LobbyMember,
    )
        requires
            old(self).wf(),
        ensures
            final(self).wf(),
            final(self)@ == old(self)@.lobby_created(
                lobby_outcome(result),
                party_id@,
                token@,
                max_size,
                host@,
            ),
    {
        match result {
            Ok(lobby_id) => {
                self.set_lobby_data(lobby_id, "stremio_sync", "1");
                self.set_lobby_data(lobby_id, "protocol", "1");
                self.set_lobby_data(lobby_id, "app_id", "480");
                self.set_lobby_data(
                    lobby_id,
                    "host_steam_id",
                    format_u64(host.steam_id).as_str(),
                );
                self.set_lobby_data(lobby_id, "party_id", party_id.as_str());
                self.act(SyncAction::SetLobbyJoinable { lobby_id });
                assert(self@.outbox =~= old(self)@.outbox + lobby_data(
                    lobby_id,
                    host@.steam_id,
                    party_id@,
                ));
                let nobody: Vec<LobbyMember> = Vec::new();
                let members = host_lobby_members(host, &nobody);
                assert(member_views(nobody@) =~= Seq::<MemberView>::empty());
                assert(member_views(members@) =~= seq![host@]);
                let host_mode = HostMode {
                    lobby_id,
                    token: token.clone(),
                    max_size,
                    authorized_peers: nobody,
                    kicked_peers: Vec::new(),
                    last_stream_url: String::new(),
                    last_web_url: String::new(),
                    last_paused: false,
                    last_time: Real::from_bits(0),
                    last_broadcast: None,
                };
                assert(host_mode@ =~= new_host(lobby_id, token@, max_size));
                self.mode = Some(Mode::Host(host_mode));
                self.lobby.set_lobby_counts(1, max_size);
                self.lobby.set_lobby_members(members);
                self.lobby.set_lobby_role(LobbyRole::Host);
                self.act(SyncAction::Ui(SyncUiEvent::HostStarted));
                self.act(
                    SyncAction::ReplyHost(
                        Ok(
                            SteamJoinSecret {
                                app_id: STEAM_SYNC_APP_ID,
                                lobby_id,
                                host_steam_id: host.steam_id,
                                party_id,
                                token,
                            },
                        ),
                    ),
                );
            },
            Err(e) => {
                self.lobby.set_lobby_counts(0, max_size);
                let mut message = "failed to create Steam lobby: ".to_string();
                message.append(e.as_str());
                self.act(SyncAction::Ui(SyncUiEvent::Error { message: message.clone() }));
                self.act(SyncAction::ReplyHost(Err(message)));
            },
        }
    }

    /// Takes in whether the lobby of a secret was joined. `user_name` is the
    /// name under which this user says hello.
    pub fn handle_lobby_joined(
        &mut self,
        result: Result<u64, String>,
        secret: SteamJoinSecret,
        user_name: &str,
    )
        requires
            old(self).wf(),
        ensures
            final(self).wf(),
            final(self)@ == old(self)@.lobby_joined(lobby_outcome(result), secret@, user_name@),
    {
        match result {
            Ok(lobby_id) => {
                self.mode = Some(
                    Mode::Guest(
                        GuestMode {
                            lobby_id,
                            host_steam_id: secret.host_steam_id,
                            current_web_url: String::new(),
                        },
                    ),
                );
                self.send_guest_msg(
                    secret.host_steam_id,
                    GuestMsg::Hello {
                        protocol_version: STEAM_SYNC_PROTOCOL_VERSION,
                        token: secret.token,
                        name: user_name.to_string(),
                    },
                );
                self.send_guest_msg(secret.host_steam_id, GuestMsg::RequestState);
                self.lobby.set_lobby_role(LobbyRole::Guest);
                self.act(SyncAction::Ui(SyncUiEvent::JoinedHost));
                self.act(SyncAction::ReplyGuest(Ok(())));
            },
            Err(e) => {
                self.lobby.clear_lobby_globals();
                let mut message = "failed to join Steam lobby: ".to_string();
                message.append(e.as_str());
                self.act(SyncAction::Ui(SyncUiEvent::Error { message: message.clone() }));
                self.act(SyncAction::ReplyGuest(Err(message)));
            },
        }
    }
}

// ---------------------------------------------------------------------------
// Telling the guests what plays
// ---------------------------------------------------------------------------

/// A host tells its guests the state at most once in this many nanoseconds.
pub const BROADCAST_INTERVAL: u64 = 1_000_000_000;

/// How far the position is from where it was expected, while paused and while
/// playing.
#[derive(Debug, Clone, Copy)]
pub struct Deviation {
    /// The distance from the last known position.
    pub paused: Real,
    /// The distance from one second after the last known position.
    pub playing: Real,
}

impl Deviation {
    /// The position is more than three seconds off.
    pub open spec fn is_jump(self, paused: bool) -> bool {
        (Real { bits: THREE_BITS }).less(
            if paused {
                self.paused
            } else {
                self.playing
            },
        )
    }
}

impl HostModeView {
    /// It is time to tell the guests, and there are some.
    pub open spec fn broadcast_due(self, now: u64) -> bool {
        &&& self.peers.len() > 0
        &&& self.last_broadcast matches Some(last) ==> now - last >= BROADCAST_INTERVAL
    }

    /// The page or the stream changed to another one.
    pub open spec fn moved_on(self, stream_url: Seq<char>, web_url: Seq<char>) -> bool {
        (stream_url != self.last_stream_url && stream_url.len() > 0) || (web_url
            != self.last_web_url && web_url.len() > 0)
    }

    /// The news for the guests: what was loaded, whether playback goes on, and
    /// a jump of more than three seconds.
    pub open spec fn news(self, state: HostState, deviation: Deviation) -> Seq<HostView> {
        let loaded = if self.moved_on(state.stream_url@, state.web_url@) {
            seq![HostView::Load { stream_url: state.stream_url@, web_url: state.web_url@ }]
        } else {
            Seq::<HostView>::empty()
        };
        let paused = if state.paused == self.last_paused {
            loaded
        } else if state.paused {
            loaded.push(HostView::Pause { time_pos: state.time_pos })
        } else {
            loaded.push(HostView::Play { time_pos: state.time_pos })
        };
        if deviation.is_jump(state.paused) {
            paused.push(HostView::Seek { time_pos: state.time_pos })
        } else {
            paused
        }
    }

    /// The host after it told its guests.
    pub open spec fn told(self, state: HostState, now: u64) -> HostModeView {
        let moved = self.moved_on(state.stream_url@, state.web_url@);
        HostModeView {
            last_stream_url: if moved {
                state.stream_url@
            } else {
                self.last_stream_url
            },
            last_web_url: if moved {
                state.web_url@
            } else {
                self.last_web_url
            },
            last_paused: state.paused,
            last_time: state.time_pos,
            last_broadcast: Some(now),
            ..self
        }
    }
}

/// The news for one guest, each reliably, and then the state, which may get
/// lost.
pub open spec fn briefing(peer_id: u64, news: Seq<HostView>, state: HostView) -> Seq<ActionView> {
    Seq::new(news.len(), |i: int| to_peer(peer_id, news[i], true)).push(
        to_peer(peer_id, state, false),
    )
}

/// The briefings of all guests.
pub open spec fn briefings(peers: Seq<MemberView>, news: Seq<HostView>, state: HostView) -> Seq<
    ActionView,
>
    decreases peers.len(),
{
    if peers.len() == 0 {
        Seq::empty()
    } else {
        briefings(peers.drop_last(), news, state) + briefing(peers.last().steam_id, news, state)
    }
}

impl SyncView {
    /// As time passes.
    pub open spec fn ticked(self, state: HostState, deviation: Deviation, now: u64) -> SyncView {
        match self.mode {
            Some(ModeView::Host(h)) => if h.broadcast_due(now) {
                SyncView {
                    mode: Some(ModeView::Host(h.told(state, now))),
                    lobby: self.lobby,
                    outbox: self.outbox + briefings(
                        h.peers,
                        h.news(state, deviation),
                        state.message(),
                    ),
                }
            } else {
                self
            },
            _ => self,
        }
    }
}

/// The host messages in a list.
pub open spec fn host_views(messages: Seq<HostMsg>) -> Seq<HostView> {
    messages.map_values(|m: HostMsg| m@)
}

impl HostMode {
    /// Collects the news for the guests and notes what they will know.
    fn collect_news(&mut self, state: &HostState, deviation: Deviation, now: u64) -> (news: Vec<
        HostMsg,
    >)
        ensures
            host_views(news@) == old(self)@.news(*state, deviation),
            final(self)@ == old(self)@.told(*state, now),
            final(self).authorized_peers == old(self).authorized_peers,
    {
        let mut news: Vec<HostMsg> = Vec::new();
        assert(host_views(news@) =~= Seq::<HostView>::empty());
        if (!same_text(state.stream_url.as_str(), self.last_stream_url.as_str())
            && !state.stream_url.as_str().is_empty()) || (!same_text(
            state.web_url.as_str(),
            self.last_web_url.as_str(),
        ) && !state.web_url.as_str().is_empty()) {
            let load = HostMsg::Load {
                stream_url: state.stream_url.clone(),
                web_url: state.web_url.clone(),
            };
            let ghost v = load@;
            news.push(load);
            assert(host_views(news@) =~= seq![v]);
            self.last_stream_url = state.stream_url.clone();
            self.last_web_url = state.web_url.clone();
        }
        let ghost loaded = host_views(news@);
        if state.paused != self.last_paused {
            if state.paused {
                news.push(HostMsg::Pause { time_pos: state.time_pos });
                assert(host_views(news@) =~= loaded.push(
                    HostView::Pause { time_pos: state.time_pos },
                ));
            } else {
                news.push(HostMsg::Play { time_pos: state.time_pos });
                assert(host_views(news@) =~= loaded.push(
                    HostView::Play { time_pos: state.time_pos },
                ));
            }
            self.last_paused = state.paused;
        }
        let ghost paused = host_views(news@);
        let off = if self.last_paused {
            deviation.paused
        } else {
            deviation.playing
        };
        if Real::from_bits(THREE_BITS).lt(&off) {
            news.push(HostMsg::Seek { time_pos: state.time_pos });
            assert(host_views(news@) =~= paused.push(HostView::Seek { time_pos: state.time_pos }));
        }
        self.last_time = state.time_pos;
        self.last_broadcast = Some(now);
        news
    }
}

impl SyncRuntime {
    fn brief(&mut self, peer_id: u64, news: &Vec<HostMsg>, state: &HostState)
        ensures
            final(self)@ == old(self)@.doing_all(
                briefing(peer_id, host_views(news@), state.message()),
            ),
            final(self).mode == old(self).mode,
            final(self).lobby == old(self).lobby,
    {
        let ghost all = briefing(peer_id, host_views(news@), state.message());
        assert(self@.doing_all(all.take(0)) =~= self@);
        for i in 0..news.len()
            invariant
                all == briefing(peer_id, host_views(news@), state.message()),
                self@ == old(self)@.doing_all(all.take(i as int)),
                self.mode == old(self).mode,
                self.lobby == old(self).lobby,
        {
            self.send_host_msg(peer_id, news[i].clone(), true);
            assert(all.take(i + 1) =~= all.take(i as int).push(all[i as int]));
            assert(self@.outbox =~= old(self)@.doing_all(all.take(i + 1)).outbox);
        }
        self.send_host_msg(peer_id, state.to_msg(), false);
        assert(all =~= all.take(news@.len() as int).push(all[news@.len() as int]));
        assert(self@.outbox =~= old(self)@.doing_all(all).outbox);
    }

    /// Tells the guests of a host what plays, when it is time to.
    pub fn tick_host_broadcast(&mut self, state: &HostState, deviation: Deviation, now: u64)
        requires
            old(self).wf(),
        ensures
            final(self).wf(),
            final(self)@ == old(self)@.ticked(*state, deviation, now),
    {
        match self.mode.take() {
            Some(Mode::Host(mut host_mode)) => {
                let ghost before = host_mode@;
                let waited = match host_mode.last_broadcast {
                    Some(last) => now >= last && now - last >= BROADCAST_INTERVAL,
                    None => true,
                };
                if host_mode.authorized_peers.len() > 0 && waited {
                    let ghost start = self@;
                    let news = host_mode.collect_news(state, deviation, now);
                    let ghost peers = before.peers;
                    let ghost views = host_views(news@);
                    let ghost message = state.message();
                    assert(start.doing_all(briefings(peers.take(0), views, message)) =~= start);
                    for i in 0..host_mode.authorized_peers.len()
                        invariant
                            peers == member_views(host_mode.authorized_peers@),
                            views == host_views(news@),
                            message == state.message(),
                            self@ == start.doing_all(
                                briefings(peers.take(i as int), views, message),
                            ),
                    {
                        let ghost so_far = self@;
                        self.brief(host_mode.authorized_peers[i].steam_id, &news, state);
                        assert(peers.take(i + 1).drop_last() =~= peers.take(i as int));
                        assert(self@.outbox =~= start.doing_all(
                            briefings(peers.take(i + 1), views, message),
                        ).outbox);
                    }
                    assert(peers.take(peers.len() as int) =~= peers);
                }
                self.mode = Some(Mode::Host(host_mode));
            },
            other => {
                self.mode = other;
            },
        }
    }
}

// ---------------------------------------------------------------------------
// Requests to the runtime
// ---------------------------------------------------------------------------

/// Calls `rand::fill` on as many bytes as are asked for: the bytes are random,
/// their number is not.
#[verifier::external_body]
fn random_bytes(count: usize) -> (bytes: Vec<u8>)
    ensures
        bytes@.len() == count,
{
    let mut bytes = vec![0u8; count];
    rand::fill(&mut bytes[..]);
    bytes
}

/// The text is the token of the bytes: their base64, in letters, digits, `-`
/// and `_`, from which they can be read back.
pub open spec fn stands_for(token: Seq<char>, bytes: Seq<u8>) -> bool {
    &&& token == base64_text(bytes)
    &&& token.len() == (bytes.len() * 4 + 2) / 3
    &&& forall|i: int| 0 <= i < token.len() ==> is_base64_char(#[trigger] token[i])
    &&& base64_bytes(token) is Ok && base64_bytes(token)->Ok_0 == bytes
}

/// The text is the token of some 32 bytes.
pub open spec fn is_token(token: Seq<char>) -> bool {
    exists|bytes: Seq<u8>| bytes.len() == 32 && #[trigger] stands_for(token, bytes)
}

/// The token that random bytes stand for.
pub fn token_of(bytes: &Vec<u8>) -> (token: String)
    ensures
        stands_for(token@, bytes@),
{
    encode_base64(bytes)
}

/// A fresh token: 32 random bytes in base64.
pub fn generate_token() -> (token: String)
    ensures
        is_token(token@),
        token@.len() == 43,
{
    let bytes = random_bytes(32);
    let token = token_of(&bytes);
    assert(stands_for(token@, bytes@));
    token
}

/// How a question to the runtime ended.
#[derive(Debug)]
pub enum Exchange<T> {
    /// The runtime is gone; with the error's text.
    Closed(String),
    /// No answer came in time; with the error's text.
    TimedOut(String),
    Answered(Result<T, String>),
}

/// What is said when the runtime is gone.
pub open spec fn unavailable(e: Seq<char>) -> Seq<char> {
    "Steam sync runtime is not available: "@ + e
}

fn unavailable_text(e: &str) -> (text: String)
    ensures
        text@ == unavailable(e@),
{
    let mut text = "Steam sync runtime is not available: ".to_string();
    text.append(e);
    text
}

/// What a sent command leads to: `sent` is the error of the channel, if any.
pub open spec fn sending_outcome(sent: Result<(), String>) -> Result<(), Seq<char>> {
    match sent {
        Ok(()) => Ok(()),
        Err(e) => Err(unavailable(e@)),
    }
}

/// Sends a command to the runtime, which is started where it is not running.
/// `ensure_runtime` starts it and gives its sender.
fn send_command<E, F>(ensure_runtime: E, command: RuntimeCommand) -> (done: Result<(), String>)
    where E: FnOnce() -> Result<F, String>, F: FnOnce(RuntimeCommand) -> Result<(), String>
    requires
        call_requires(ensure_runtime, ()),
        forall|send: F, c: RuntimeCommand| #[trigger] call_requires(send, (c,)),
    ensures
        exists|runtime: Result<F, String>| #[trigger]
            call_ensures(ensure_runtime, (), runtime) && match runtime {
                Err(e) => outcome_view(done) == Err::<(), Seq<char>>(e@),
                Ok(send) => exists|sent: Result<(), String>| #[trigger]
                    call_ensures(send, (command,), sent) && outcome_view(done) == sending_outcome(
                        sent,
                    ),
            },
{
    match ensure_runtime() {
        Err(e) => Err(e),
        Ok(send) => match send(command) {
            Ok(()) => Ok(()),
            Err(e) => Err(unavailable_text(e.as_str())),
        },
    }
}

/// Asks the runtime to leave the lobby.
pub fn leave_lobby<E, F>(ensure_runtime: E) -> (done: Result<(), String>)
    where E: FnOnce() -> Result<F, String>, F: FnOnce(RuntimeCommand) -> Result<(), String>
    requires
        call_requires(ensure_runtime, ()),
        forall|send: F, c: RuntimeCommand| #[trigger] call_requires(send, (c,)),
    ensures
        exists|runtime: Result<F, String>| #[trigger]
            call_ensures(ensure_runtime, (), runtime) && match runtime {
                Err(e) => outcome_view(done) == Err::<(), Seq<char>>(e@),
                Ok(send) => exists|c: RuntimeCommand, sent: Result<(), String>| #[trigger]
                    call_ensures(send, (c,), sent) && c@ == CommandView::Leave && outcome_view(done)
                        == sending_outcome(sent),
            },
{
    send_command(ensure_runtime, RuntimeCommand::Leave)
}

/// Asks the runtime to remove a guest.
pub fn kick_member<E, F>(steam_id: u64, ensure_runtime: E) -> (done: Result<(), String>)
    where E: FnOnce() -> Result<F, String>, F: FnOnce(RuntimeCommand) -> Result<(), String>
    requires
        call_requires(ensure_runtime, ()),
        forall|send: F, c: RuntimeCommand| #[trigger] call_requires(send, (c,)),
    ensures
        exists|runtime: Result<F, String>| #[trigger]
            call_ensures(ensure_runtime, (), runtime) && match runtime {
                Err(e) => outcome_view(done) == Err::<(), Seq<char>>(e@),
                Ok(send) => exists|c: RuntimeCommand, sent: Result<(), String>| #[trigger]
                    call_ensures(send, (c,), sent) && c@ == (CommandView::Kick { steam_id })
                        && outcome_view(done) == sending_outcome(sent),
            },
{
    send_command(ensure_runtime, RuntimeCommand::Kick { steam_id })
}

/// What the request for a lobby leads to: the join link of the secret.
pub open spec fn hosting_outcome(reply: Exchange<SteamJoinSecret>) -> Result<Seq<char>, Seq<char>> {
    match reply {
        Exchange::Closed(e) => Err(unavailable(e@)),
        Exchange::TimedOut(e) => Err("timed out creating Steam lobby: "@ + e@),
        Exchange::Answered(Err(e)) => Err(e@),
        Exchange::Answered(Ok(secret)) => Ok(
            STEAM_JOIN_PREFIX@ + base64_text(encode_utf8(secret_json(secret@))),
        ),
    }
}

/// A result of texts.
pub open spec fn text_result(r: Result<String, String>) -> Result<Seq<char>, Seq<char>> {
    match r {
        Ok(s) => Ok(s@),
        Err(e) => Err(e@),
    }
}

/// The join link that the answer to a request for a lobby leads to.
pub fn hosting_link(reply: Exchange<SteamJoinSecret>) -> (link: Result<String, String>)
    ensures
        text_result(link) == hosting_outcome(reply),
        reply matches Exchange::Answered(Ok(secret)) ==> link_payload(link->Ok_0@) == Ok::<
            Seq<u8>,
            Seq<char>,
        >(encode_utf8(secret_json(secret@))),
{
    match reply {
        Exchange::Closed(e) => Err(unavailable_text(e.as_str())),
        Exchange::TimedOut(e) => {
            let mut text = "timed out creating Steam lobby: ".to_string();
            text.append(e.as_str());
            Err(text)
        },
        Exchange::Answered(answer) => match answer {
            Err(e) => Err(e),
            Ok(secret) => encode_steam_join_secret(&secret),
        },
    }
}

/// Asks the runtime to host a party, with a fresh token, and gives the link
/// that leads to it.
pub fn start_host_lobby<E, F>(party_id: String, max_size: i32, ensure_runtime: E) -> (link: Result<
    String,
    String,
>) where
    E: FnOnce() -> Result<F, String>,
    F: FnOnce(RuntimeCommand) -> Exchange<SteamJoinSecret>,

    requires
        call_requires(ensure_runtime, ()),
        forall|ask: F, c: RuntimeCommand| #[trigger] call_requires(ask, (c,)),
    ensures
        exists|runtime: Result<F, String>| #[trigger]
            call_ensures(ensure_runtime, (), runtime) && match runtime {
                Err(e) => text_result(link) == Err::<Seq<char>, Seq<char>>(e@),
                Ok(ask) => exists|c: RuntimeCommand, reply: Exchange<SteamJoinSecret>| #[trigger]
                    call_ensures(ask, (c,), reply) && {
                        &&& c@ matches CommandView::StartHost { party_id: id, token, max_size: max }
                        &&& id == party_id@
                        &&& is_token(token)
                        &&& max == max_size
                        &&& text_result(link) == hosting_outcome(reply)
                    },
            },
{
    let token = generate_token();
    match ensure_runtime() {
        Err(e) => Err(e),
        Ok(ask) => {
            let reply = ask(RuntimeCommand::StartHost { party_id, token, max_size });
            hosting_link(reply)
        },
    }
}

/// What the request to join leads to.
pub open spec fn joining_outcome(reply: Exchange<()>) -> Result<(), Seq<char>> {
    match reply {
        Exchange::Closed(e) => Err(unavailable(e@)),
        Exchange::TimedOut(e) => Err("timed out joining Steam lobby: "@ + e@),
        Exchange::Answered(r) => outcome_view(r),
    }
}

/// What the answer to a request to join leads to.
pub fn joining_result(reply: Exchange<()>) -> (done: Result<(), String>)
    ensures
        outcome_view(done) == joining_outcome(reply),
{
    match reply {
        Exchange::Closed(e) => Err(unavailable_text(e.as_str())),
        Exchange::TimedOut(e) => {
            let mut text = "timed out joining Steam lobby: ".to_string();
            text.append(e.as_str());
            Err(text)
        },
        Exchange::Answered(r) => r,
    }
}

/// The lobby's record while the party of a secret is being joined.
pub open spec fn joining_lobby(lobby: LobbyView, secret: SecretView, join_secret: Seq<char>) -> LobbyView {
    LobbyView {
        party_id: secret.party_id,
        join_secret,
        member_count: 1,
        max_size: lobby.max_size,
        members: Seq::empty(),
        role: LobbyRole::Guest,
    }
}

/// Notes that the party of a secret is being joined.
pub fn note_joining(lobby: &mut LobbyState, secret: &SteamJoinSecret, join_secret: &str)
    ensures
        final(lobby)@ == joining_lobby(old(lobby)@, secret@, join_secret@),
{
    lobby.set_lobby_identity(secret.party_id.as_str(), join_secret);
    lobby.set_lobby_counts(1, 0);
    let nobody: Vec<LobbyMember> = Vec::new();
    assert(member_views(nobody@) =~= Seq::<MemberView>::empty());
    lobby.set_lobby_members(nobody);
    lobby.set_lobby_role(LobbyRole::Guest);
}

/// The secret and the link were handed to `note`.
pub open spec fn noted<N: FnOnce(&SteamJoinSecret, &str)>(
    note: N,
    secret: SecretView,
    join_secret: Seq<char>,
) -> bool {
    exists|s: &SteamJoinSecret, l: &str| #[trigger]
        call_ensures(note, (s, l), ()) && s@ == secret && l@ == join_secret
}

/// Joins the party of a link: reads the link with the help of `parse`, has
/// `note` take down the party, and asks the runtime to join. The lobby's record
/// is shared with the runtime, so it is not held while the answer is awaited:
/// `note` comes with a runtime that started, and works as `note_joining` does
/// on the record.
pub fn connect_to_host<P, E, N, F>(
    join_secret: &str,
    parse: P,
    ensure_runtime: E,
) -> (done: Result<(), String>) where
    P: Fn(&Vec<u8>) -> Result<SteamJoinSecret, String>,
    E: FnOnce() -> Result<(N, F), String>,
    N: FnOnce(&SteamJoinSecret, &str),
    F: FnOnce(RuntimeCommand) -> Exchange<()>,

    requires
        forall|bytes: &Vec<u8>| #[trigger] call_requires(parse, (bytes,)),
        call_requires(ensure_runtime, ()),
        forall|note: N, s: &SteamJoinSecret, l: &str| #[trigger] call_requires(note, (s, l)),
        forall|ask: F, c: RuntimeCommand| #[trigger] call_requires(ask, (c,)),
    ensures
        link_payload(join_secret@) matches Err(e) ==> outcome_view(done) == Err::<(), Seq<char>>(e),
        link_payload(join_secret@) matches Ok(b) ==> exists|
            bytes: &Vec<u8>,
            parsed: Result<SteamJoinSecret, String>,
        |
            bytes@ == b && #[trigger] call_ensures(parse, (bytes,), parsed) && match accepted_secret(
                parsed_view(parsed),
            ) {
                Err(e) => outcome_view(done) == Err::<(), Seq<char>>(e),
                Ok(secret) => exists|runtime: Result<(N, F), String>| #[trigger]
                    call_ensures(ensure_runtime, (), runtime) && match runtime {
                        Err(e) => outcome_view(done) == Err::<(), Seq<char>>(e@),
                        Ok((note, ask)) => noted(note, secret, join_secret@) && exists|
                            c: RuntimeCommand,
                            reply: Exchange<()>,
                        | #[trigger]
                            call_ensures(ask, (c,), reply) && c@ == (CommandView::JoinHost {
                                secret,
                            }) && outcome_view(done) == joining_outcome(reply),
                    },
            },
{
    let secret = match decode_steam_join_secret(join_secret, parse) {
        Ok(secret) => secret,
        Err(e) => return Err(e),
    };
    match ensure_runtime() {
        Err(e) => Err(e),
        Ok((note, ask)) => {
            note(&secret, join_secret);
            let reply = ask(RuntimeCommand::JoinHost { secret });
            joining_result(reply)
        },
    }
}

/// Why the Steam client could not be reached.
#[derive(Debug, Clone, Copy, PartialEq, Eq, Structural)]
pub enum SteamInitError {
    NoSteamClient,
    VersionMismatch,
    FailedGeneric,
}

/// What the user is told when the Steam client could not be reached.
pub open spec fn init_fault(error: SteamInitError) -> Seq<char> {
    match error {
        SteamInitError::NoSteamClient => {
            "Steam is not running. Open Steam, sign in, then try starting the watch party again."@
        },
        SteamInitError::VersionMismatch => {
            "Steam needs to update before watch parties can use Steam networking. Update or restart Steam, then try again."@
        },
        SteamInitError::FailedGeneric => {
            "Steam networking could not be initialized. Make sure Steam is open and signed in, then try again."@
        },
    }
}

pub fn steam_init_error_message(error: SteamInitError) -> (message: String)
    ensures
        message@ == init_fault(error),
{
    match error {
        SteamInitError::NoSteamClient => {
            "Steam is not running. Open Steam, sign in, then try starting the watch party again.".to_string()
        },
        SteamInitError::VersionMismatch => {
            "Steam needs to update before watch parties can use Steam networking. Update or restart Steam, then try again.".to_string()
        },
        SteamInitError::FailedGeneric => {
            "Steam networking could not be initialized. Make sure Steam is open and signed in, then try again.".to_string()
        },
    }
}

/// What the runtime says of its start: to the user, and to whoever asked for
/// it.
#[derive(Debug)]
pub struct InitReport {
    pub event: Option<SyncUiEvent>,
    pub answer: Result<(), String>,
}

#[verifier::ext_equal]
pub struct InitReportView {
    pub event: Option<UiView>,
    pub answer: Result<(), Seq<char>>,
}

impl View for InitReport {
    type V = InitReportView;

    open spec fn view(&self) -> InitReportView {
        InitReportView {
            event: match self.event {
                Some(e) => Some(e@),
                None => None,
            },
            answer: outcome_view(self.answer),
        }
    }
}

/// A failure is shown to the user and answered, with the same message.
pub open spec fn init_reported(init: Result<(), SteamInitError>) -> InitReportView {
    match init {
        Ok(()) => InitReportView { event: None, answer: Ok(()) },
        Err(e) => InitReportView {
            event: Some(UiView::Error { message: init_fault(e) }),
            answer: Err(init_fault(e)),
        },
    }
}

/// What the runtime says of its start.
pub fn report_init(init: Result<(), SteamInitError>) -> (report: InitReport)
    ensures
        report@ == init_reported(init),
{
    match init {
        Ok(()) => InitReport { event: None, answer: Ok(()) },
        Err(e) => {
            let message = steam_init_error_message(e);
            InitReport {
                event: Some(SyncUiEvent::Error { message: message.clone() }),
                answer: Err(message),
            }
        },
    }
}

/// How the start of the runtime ended.
#[derive(Debug)]
pub enum Start {
    /// There is no thread for it; with the error's text.
    NoThread(String),
    /// It said nothing in time; with the error's text.
    TimedOut(String),
    Answered(Result<(), String>),
}

/// What whoever needs the runtime is told of its start.
pub open spec fn start_outcome(start: Start) -> Result<(), Seq<char>> {
    match start {
        Start::NoThread(e) => Err("failed to spawn Steam sync runtime: "@ + e@),
        Start::TimedOut(e) => Err("timed out initializing Steam sync runtime: "@ + e@),
        Start::Answered(answer) => outcome_view(answer),
    }
}

/// Whether the runtime runs.
#[derive(Debug, Clone, Copy, PartialEq, Eq, Structural)]
pub struct RuntimeSlot {
    pub running: bool,
}

impl RuntimeSlot {
    pub fn new() -> (slot: RuntimeSlot)
        ensures
            slot == (RuntimeSlot { running: false }),
    {
        RuntimeSlot { running: false }
    }

    /// The runtime is to be started before it is used.
    pub fn wants_start(&self) -> (wants: bool)
        ensures
            wants == !self.running,
    {
        !self.running
    }

    /// The slot after a start: the runtime runs only where it said so.
    pub open spec fn after(self, start: Start) -> RuntimeSlot {
        RuntimeSlot { running: start_outcome(start) is Ok }
    }

    /// Takes in how a start ended.
    pub fn on_start(&mut self, start: Start) -> (done: Result<(), String>)
        ensures
            *final(self) == old(self).after(start),
            outcome_view(done) == start_outcome(start),
    {
        let done = match start {
            Start::NoThread(e) => {
                let mut text = "failed to spawn Steam sync runtime: ".to_string();
                text.append(e.as_str());
                Err(text)
            },
            Start::TimedOut(e) => {
                let mut text = "timed out initializing Steam sync runtime: ".to_string();
                text.append(e.as_str());
                Err(text)
            },
            Start::Answered(answer) => answer,
        };
        self.running = done.is_ok();
        done
    }
}

// ---------------------------------------------------------------------------
// What the user is shown
// ---------------------------------------------------------------------------

/// How serious a notice is.
#[derive(Debug, Clone, Copy, PartialEq, Eq, Structural)]
pub enum NoticeLevel {
    Info,
    Warning,
    Error,
}

/// What the user is shown of an event.
#[derive(Debug)]
pub struct Notice {
    pub title: String,
    pub text: String,
    pub level: NoticeLevel,
    /// Whether a dialog asks for attention too.
    pub dialog: bool,
}

#[verifier::ext_equal]
pub struct NoticeView {
    pub title: Seq<char>,
    pub text: Seq<char>,
    pub level: NoticeLevel,
    pub dialog: bool,
}

impl View for Notice {
    type V = NoticeView;

    open spec fn view(&self) -> NoticeView {
        NoticeView {
            title: self.title@,
            text: self.text@,
            level: self.level,
            dialog: self.dialog,
        }
    }
}

/// A notice that only informs.
pub open spec fn info(text: Seq<char>) -> NoticeView {
    NoticeView { title: "Watch Party"@, text, level: NoticeLevel::Info, dialog: false }
}

/// What the user is shown of an event.
pub open spec fn notice_of(event: UiView) -> NoticeView {
    match event {
        UiView::HostStarted => info("Your watch party is ready. Friends can join from Discord."@),
        UiView::JoinedHost => info("Joined the watch party. Playback will sync with the host."@),
        UiView::LobbyUpdated { member_count, max_size } => info(
            "Watch party "@ + crate::lobby::counts_text(member_count, max_size),
        ),
        UiView::GuestJoined { name, member_count } => info(
            name + " joined. "@ + crate::number::signed_decimal(member_count as int)
                + " people are in the watch party."@,
        ),
        UiView::GuestLeft { name, member_count } => info(
            name + " left. "@ + crate::number::signed_decimal(member_count as int)
                + " people remain in the watch party."@,
        ),
        UiView::HostLeft { reason } => NoticeView {
            title: "Watch Party Ended"@,
            text: reason,
            level: NoticeLevel::Warning,
            dialog: false,
        },
        UiView::LeftLobby => info("Left the watch party."@),
        UiView::Error { message } => NoticeView {
            title: "Watch Party Error"@,
            text: message,
            level: NoticeLevel::Error,
            dialog: true,
        },
    }
}

fn info_notice(text: String) -> (notice: Notice)
    ensures
        notice@ == info(text@),
{
    Notice { title: "Watch Party".to_string(), text, level: NoticeLevel::Info, dialog: false }
}

/// What the user is shown of an event.
pub fn sync_event_notice(event: SyncUiEvent) -> (notice: Notice)
    ensures
        notice@ == notice_of(event@),
{
    match event {
        SyncUiEvent::HostStarted => info_notice(
            "Your watch party is ready. Friends can join from Discord.".to_string(),
        ),
        SyncUiEvent::JoinedHost => info_notice(
            "Joined the watch party. Playback will sync with the host.".to_string(),
        ),
        SyncUiEvent::LobbyUpdated { member_count, max_size } => {
            let mut text = "Watch party ".to_string();
            crate::lobby::append_counts(&mut text, member_count, max_size);
            info_notice(text)
        },
        SyncUiEvent::GuestJoined { name, member_count } => {
            let mut text = name;
            text.append(" joined. ");
            text.append(crate::number::format_i64(member_count as i64).as_str());
            text.append(" people are in the watch party.");
            info_notice(text)
        },
        SyncUiEvent::GuestLeft { name, member_count } => {
            let mut text = name;
            text.append(" left. ");
            text.append(crate::number::format_i64(member_count as i64).as_str());
            text.append(" people remain in the watch party.");
            info_notice(text)
        },
        SyncUiEvent::HostLeft { reason } => Notice {
            title: "Watch Party Ended".to_string(),
            text: reason,
            level: NoticeLevel::Warning,
            dialog: false,
        },
        SyncUiEvent::LeftLobby => info_notice("Left the watch party.".to_string()),
        SyncUiEvent::Error { message } => Notice {
            title: "Watch Party Error".to_string(),
            text: message,
            level: NoticeLevel::Error,
            dialog: true,
        },
    }
}

// ---------------------------------------------------------------------------
// Laws
// ---------------------------------------------------------------------------

/// When Steam cannot be reached, the user is shown why, whoever asked is told
/// the same, and the next one to ask has the runtime started anew.
pub proof fn failed_starts_are_told_and_tried_again(
    slot: RuntimeSlot,
    error: SteamInitError,
    answer: Result<(), String>,
)
    requires
        outcome_view(answer) == init_reported(Err(error)).answer,
    ensures
        init_reported(Err(error)).event == Some(UiView::Error { message: init_fault(error) }),
        start_outcome(Start::Answered(answer)) == Err::<(), Seq<char>>(init_fault(error)),
        !slot.after(Start::Answered(answer)).running,
{
}

/// A token tells its bytes: tokens of different bytes differ.
pub proof fn tokens_tell_their_bytes(
    first: Seq<char>,
    first_bytes: Seq<u8>,
    second: Seq<char>,
    second_bytes: Seq<u8>,
)
    requires
        stands_for(first, first_bytes),
        stands_for(second, second_bytes),
    ensures
        first_bytes != second_bytes ==> first != second,
{
}

/// Every token has 43 characters, all of them letters, digits, `-` or `_`.
pub proof fn tokens_are_plain(token: Seq<char>)
    requires
        is_token(token),
    ensures
        token.len() == 43,
        forall|i: int| 0 <= i < token.len() ==> is_base64_char(#[trigger] token[i]),
{
}

/// A removed guest stays out: it is no longer among the guests, and whatever
/// token it shows, its hello is answered with nothing but a refusal.
pub proof fn removed_guest_stays_out(
    v: SyncView,
    peer_id: u64,
    host: MemberView,
    version: u16,
    token: Seq<char>,
    name: Seq<char>,
    peer_name: Seq<char>,
    state: HostView,
)
    requires
        v.wf(),
        v.mode matches Some(ModeView::Host(h)) && has_peer(h.peers, peer_id),
    ensures
        v.peer_kicked(peer_id, host).wf(),
        v.peer_kicked(peer_id, host).mode matches Some(ModeView::Host(h)) && !has_peer(
            h.peers,
            peer_id,
        ) && h.kicked.contains(peer_id),
        v.peer_kicked(peer_id, host).host_heard(
            peer_id,
            WireView::Guest(GuestView::Hello { protocol_version: version, token, name }),
            peer_name,
            host,
            state,
        ) == v.peer_kicked(peer_id, host).doing(
            ActionView::Send {
                peer_id,
                message: WireView::Error { message: "you were removed from this watch party"@ },
                reliable: true,
            },
        ),
{
    let h = v.mode->0->Host_0;
    removal_keeps_order(h, peer_id);
    let kicked = h.kicked.push(peer_id);
    assert(kicked[h.kicked.len() as int] == peer_id);
    assert(kicked.contains(peer_id));
}

/// The list of removed guests only grows while a lobby is hosted: no message,
/// no change of the lobby, no removal and no broadcast takes anyone off it.
pub proof fn removals_are_final(
    v: SyncView,
    id: u64,
    peer_id: u64,
    message: WireView,
    change: MemberChange,
    peer_name: Seq<char>,
    host: MemberView,
    state: HostState,
    deviation: Deviation,
    now: u64,
    lobby_id: u64,
)
    requires
        v.mode matches Some(ModeView::Host(h)) && h.kicked.contains(id),
    ensures
        v.host_heard(peer_id, message, peer_name, host, state.message()).mode matches Some(
            ModeView::Host(h),
        ) && h.kicked.contains(id),
        v.chat_updated(lobby_id, peer_id, change, host).mode matches Some(ModeView::Host(h))
            && h.kicked.contains(id),
        v.peer_kicked(peer_id, host).mode matches Some(ModeView::Host(h)) && h.kicked.contains(id),
        v.ticked(state, deviation, now).mode matches Some(ModeView::Host(h)) && h.kicked.contains(
            id,
        ),
{
    let kicked = v.mode->0->Host_0.kicked;
    let n = choose|n: int| 0 <= n < kicked.len() && kicked[n] == id;
    assert(kicked.push(peer_id)[n] == id);
}

/// Only a guest that shows the token and speaks the protocol is let in, and
/// only while there is room; anyone else changes nothing but the outbox.
pub proof fn only_invited_guests_join(
    v: SyncView,
    peer_id: u64,
    version: u16,
    token: Seq<char>,
    name: Seq<char>,
    peer_name: Seq<char>,
    host: MemberView,
    state: HostView,
)
    requires
        v.wf(),
        v.mode is Some,
        v.mode->0 is Host,
    ensures
        ({
            let h = v.mode->0->Host_0;
            let hello = WireView::Guest(
                GuestView::Hello { protocol_version: version, token, name },
            );
            let after = v.host_heard(peer_id, hello, peer_name, host, state);
            let welcome = version == STEAM_SYNC_PROTOCOL_VERSION && token == h.token && !h.full()
                && !h.kicked.contains(peer_id);
            &&& welcome ==> after.mode is Some && after.mode->0 is Host && has_peer(
                after.mode->0->Host_0.peers,
                peer_id,
            )
            &&& !welcome ==> after.mode == v.mode && after.lobby == v.lobby
            &&& welcome && h.max_size >= 0 ==> after.mode->0->Host_0.peers.len() + 1 <= h.max_size
        }),
{
    let h = v.mode->0->Host_0;
    let member = MemberView {
        steam_id: peer_id,
        name: display_name(peer_name, name),
        is_host: false,
    };
    if h.refusal(peer_id, version, token) is None {
        admission_keeps_order(h, member);
    }
}

/// Someone who was not let in learns nothing by asking for the state.
pub proof fn strangers_learn_nothing(
    v: SyncView,
    peer_id: u64,
    peer_name: Seq<char>,
    host: MemberView,
    state: HostView,
)
    requires
        v.mode matches Some(ModeView::Host(h)) && !has_peer(h.peers, peer_id),
    ensures
        v.host_heard(
            peer_id,
            WireView::Guest(GuestView::RequestState),
            peer_name,
            host,
            state,
        ) == v,
{
}

/// The state is told to guests only: whoever a briefing goes to is among them.
pub proof fn briefings_go_to_guests(
    peers: Seq<MemberView>,
    news: Seq<HostView>,
    state: HostView,
    i: int,
)
    requires
        0 <= i < briefings(peers, news, state).len(),
    ensures
        briefings(peers, news, state)[i] matches ActionView::Send { peer_id, .. } && has_peer(
            peers,
            peer_id,
        ),
    decreases peers.len(),
{
    let rest = briefings(peers.drop_last(), news, state);
    if i < rest.len() {
        briefings_go_to_guests(peers.drop_last(), news, state, i);
        let id = rest[i]->Send_peer_id;
        let k = peer_index(peers.drop_last(), id);
        assert(peer_at(peers.drop_last(), id, k));
        assert(peer_at(peers, id, k));
    } else {
        let own = briefing(peers.last().steam_id, news, state);
        assert(briefings(peers, news, state)[i] == own[i - rest.len()]);
        assert(peer_at(peers, peers.last().steam_id, peers.len() - 1));
    }
}

/// Leaving leaves nothing behind, and leaving again does nothing.
pub proof fn leaving_is_final(v: SyncView)
    ensures
        v.left().mode is None,
        v.left().left() == v.left(),
        v.mode is Some ==> v.left().lobby == v.lobby.cleared(),
{
}

/// A broadcast is followed by silence: until the interval has passed, another
/// tick changes nothing.
pub proof fn broadcasts_keep_their_distance(
    v: SyncView,
    state: HostState,
    deviation: Deviation,
    later_state: HostState,
    later_deviation: Deviation,
    now: u64,
    later: u64,
)
    requires
        v.mode matches Some(ModeView::Host(h)) && h.broadcast_due(now),
        now <= later < now + BROADCAST_INTERVAL,
    ensures
        v.ticked(state, deviation, now).ticked(later_state, later_deviation, later) == v.ticked(
            state,
            deviation,
            now,
        ),
{
}

/// Every guest is told: a broadcast holds, for each of them, all the news and
/// the state.
pub proof fn every_guest_is_told(
    peers: Seq<MemberView>,
    news: Seq<HostView>,
    state: HostView,
    peer_id: u64,
)
    requires
        has_peer(peers, peer_id),
    ensures
        forall|k: int|
            0 <= k < news.len() ==> briefings(peers, news, state).contains(
                to_peer(peer_id, #[trigger] news[k], true),
            ),
        briefings(peers, news, state).contains(to_peer(peer_id, state, false)),
    decreases peers.len(),
{
    let all = briefings(peers, news, state);
    let rest = briefings(peers.drop_last(), news, state);
    let own = briefing(peers.last().steam_id, news, state);
    let place = peer_index(peers, peer_id);
    assert(peer_at(peers, peer_id, place));
    if peers.last().steam_id == peer_id {
        assert forall|k: int| 0 <= k < news.len() implies all.contains(
            to_peer(peer_id, #[trigger] news[k], true),
        ) by {
            assert(all[rest.len() + k] == own[k]);
        }
        assert(all[(rest.len() + news.len()) as int] == own[news.len() as int]);
    } else {
        assert(peer_at(peers.drop_last(), peer_id, place));
        every_guest_is_told(peers.drop_last(), news, state, peer_id);
        assert forall|a: ActionView| rest.contains(a) implies #[trigger] all.contains(a) by {
            let j = choose|j: int| 0 <= j < rest.len() && rest[j] == a;
            assert(all[j] == a);
        }
        assert forall|k: int| 0 <= k < news.len() implies all.contains(
            to_peer(peer_id, #[trigger] news[k], true),
        ) by {
            assert(rest.contains(to_peer(peer_id, news[k], true)));
        }
        assert(rest.contains(to_peer(peer_id, state, false)));
    }
}

/// Where a broadcast tells a guest one of the news, or the state, which comes
/// after them.
pub proof fn news_reach_everyone(
    peers: Seq<MemberView>,
    news: Seq<HostView>,
    state: HostView,
    peer_id: u64,
    k: int,
) -> (i: int)
    requires
        has_peer(peers, peer_id),
        0 <= k <= news.len(),
    ensures
        0 <= i < briefings(peers, news, state).len(),
        briefings(peers, news, state)[i] == (if k < news.len() {
            ActionView::Send { peer_id, message: WireView::Host(news[k]), reliable: true }
        } else {
            ActionView::Send { peer_id, message: WireView::Host(state), reliable: false }
        }),
{
    every_guest_is_told(peers, news, state, peer_id);
    let told = briefings(peers, news, state);
    let said = if k < news.len() {
        to_peer(peer_id, news[k], true)
    } else {
        to_peer(peer_id, state, false)
    };
    assert(told.contains(said));
    choose|i: int| 0 <= i < told.len() && told[i] == said
}

/// Guests follow the host: when the host pauses or goes on, a broadcast tells
/// every guest, and a guest that is told has its player do the same at the
/// host's position.
pub proof fn guests_follow_the_host(
    v: SyncView,
    state: HostState,
    deviation: Deviation,
    now: u64,
    guest_id: u64,
    guest: SyncView,
    host_id: u64,
    time_text: Seq<char>,
    peer_name: Seq<char>,
    host: MemberView,
    guest_state: HostView,
)
    requires
        v.mode is Some,
        v.mode->0 is Host,
        v.mode->0->Host_0.broadcast_due(now),
        has_peer(v.mode->0->Host_0.peers, guest_id),
        v.mode->0->Host_0.last_paused != state.paused,
        guest.mode is Some,
        guest.mode->0 is Guest,
    ensures
        ({
            let said = if state.paused {
                HostView::Pause { time_pos: state.time_pos }
            } else {
                HostView::Play { time_pos: state.time_pos }
            };
            &&& v.ticked(state, deviation, now).outbox.contains(to_peer(guest_id, said, true))
            &&& guest.heard(
                host_id,
                WireView::Host(said),
                time_text,
                peer_name,
                host,
                guest_state,
            ) == guest.doing(ActionView::Player(pause_command(state.paused))).doing(
                ActionView::Player(seek_command(time_text)),
            )
        }),
{
    let h = v.mode->0->Host_0;
    let news = h.news(state, deviation);
    let said = if state.paused {
        HostView::Pause { time_pos: state.time_pos }
    } else {
        HostView::Play { time_pos: state.time_pos }
    };
    let loaded: int = if h.moved_on(state.stream_url@, state.web_url@) {
        1
    } else {
        0
    };
    assert(news[loaded] == said);
    every_guest_is_told(h.peers, news, state.message(), guest_id);
    let told = briefings(h.peers, news, state.message());
    broadcasts_reach_the_outbox(v.outbox, told, to_peer(guest_id, news[loaded], true));
}

/// Guests follow a jump: when the host is more than three seconds from where it
/// was expected, a broadcast tells every guest, and a guest that is told goes
/// to the host's position.
pub proof fn guests_follow_a_jump(
    v: SyncView,
    state: HostState,
    deviation: Deviation,
    now: u64,
    guest_id: u64,
    guest: SyncView,
    host_id: u64,
    time_text: Seq<char>,
    peer_name: Seq<char>,
    host: MemberView,
    guest_state: HostView,
)
    requires
        v.mode is Some,
        v.mode->0 is Host,
        v.mode->0->Host_0.broadcast_due(now),
        has_peer(v.mode->0->Host_0.peers, guest_id),
        deviation.is_jump(state.paused),
        guest.mode is Some,
        guest.mode->0 is Guest,
    ensures
        ({
            let said = HostView::Seek { time_pos: state.time_pos };
            &&& v.ticked(state, deviation, now).outbox.contains(to_peer(guest_id, said, true))
            &&& guest.heard(
                host_id,
                WireView::Host(said),
                time_text,
                peer_name,
                host,
                guest_state,
            ) == guest.doing(ActionView::Player(seek_command(time_text)))
        }),
{
    let h = v.mode->0->Host_0;
    let news = h.news(state, deviation);
    assert(news.last() == (HostView::Seek { time_pos: state.time_pos }));
    every_guest_is_told(h.peers, news, state.message(), guest_id);
    let told = briefings(h.peers, news, state.message());
    broadcasts_reach_the_outbox(v.outbox, told, to_peer(guest_id, news[news.len() - 1], true));
}

/// Guests follow the host to what it loads: every broadcast tells each guest
/// the host's state, and a guest on another page opens the host's, gives it
/// time to load, and then takes over position and pause. A broadcast after the
/// host moved on also says what was loaded.
pub proof fn guests_load_what_the_host_loads(
    v: SyncView,
    state: HostState,
    deviation: Deviation,
    now: u64,
    guest_id: u64,
    guest: SyncView,
    host_id: u64,
    time_text: Seq<char>,
    peer_name: Seq<char>,
    host: MemberView,
    guest_state: HostView,
)
    requires
        v.mode is Some,
        v.mode->0 is Host,
        v.mode->0->Host_0.broadcast_due(now),
        has_peer(v.mode->0->Host_0.peers, guest_id),
        guest.mode is Some,
        guest.mode->0 is Guest,
        state.web_url@.len() > 0,
        state.web_url@ != guest.mode->0->Guest_0.current_web_url,
    ensures
        ({
            let after = v.ticked(state, deviation, now).outbox;
            let heard = guest.heard(
                host_id,
                WireView::Host(state.message()),
                time_text,
                peer_name,
                host,
                guest_state,
            );
            let opened = match after_first(state.web_url@, "#/"@) {
                Some(rest) => guest.doing(ActionView::OpenMedia("stremio:///"@ + rest)),
                None => guest,
            };
            let g = guest.mode->0->Guest_0;
            &&& after.contains(to_peer(guest_id, state.message(), false))
            &&& v.mode->0->Host_0.moved_on(state.stream_url@, state.web_url@) ==> after.contains(
                to_peer(
                    guest_id,
                    HostView::Load { stream_url: state.stream_url@, web_url: state.web_url@ },
                    true,
                ),
            )
            &&& heard.outbox == opened.doing(ActionView::WaitMillis(1500)).doing(
                ActionView::FollowHost { time_pos: state.time_pos, paused: state.paused },
            ).outbox
            &&& heard.mode == Some(
                ModeView::Guest(GuestModeView { current_web_url: state.web_url@, ..g }),
            )
            &&& heard.lobby == guest.lobby
        }),
{
    let h = v.mode->0->Host_0;
    let news = h.news(state, deviation);
    every_guest_is_told(h.peers, news, state.message(), guest_id);
    let told = briefings(h.peers, news, state.message());
    broadcasts_reach_the_outbox(v.outbox, told, to_peer(guest_id, state.message(), false));
    if h.moved_on(state.stream_url@, state.web_url@) {
        let load = HostView::Load { stream_url: state.stream_url@, web_url: state.web_url@ };
        assert(news[0] == load);
        broadcasts_reach_the_outbox(v.outbox, told, to_peer(guest_id, news[0], true));
    }
}

/// What a broadcast holds is in the outbox afterwards.
proof fn broadcasts_reach_the_outbox(
    outbox: Seq<ActionView>,
    told: Seq<ActionView>,
    action: ActionView,
)
    requires
        told.contains(action),
    ensures
        (outbox + told).contains(action),
{
    let j = choose|j: int| 0 <= j < told.len() && told[j] == action;
    assert((outbox + told)[outbox.len() + j] == action);
}

/// The host is in control: nothing that anyone says to it reaches its player
/// or its page. All that follows are answers and notices.
pub proof fn guests_do_not_steer_the_host(
    v: SyncView,
    peer_id: u64,
    message: WireView,
    time_text: Seq<char>,
    peer_name: Seq<char>,
    host: MemberView,
    state: HostView,
    i: int,
)
    requires
        v.mode is Some,
        v.mode->0 is Host,
        v.outbox.len() <= i < v.heard(peer_id, message, time_text, peer_name, host, state).outbox.len(),
    ensures
        v.heard(peer_id, message, time_text, peer_name, host, state).outbox[i] is Send || v.heard(
            peer_id,
            message,
            time_text,
            peer_name,
            host,
            state,
        ).outbox[i] is Ui,
{
}

} // verus!
