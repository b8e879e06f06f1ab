//! What a watch party is for, as laws over its members: what one of them does
//! and what the others see of it.

use crate::lobby::{LobbyRole, LobbyView};
use crate::number::{decimal, Real};
use crate::steam_sync::{
    admission_keeps_order, briefing, briefings, display_name, has_peer, hosting_outcome,
    joining_lobby, joining_outcome, lobby_info, news_reach_everyone, notice_of, peer_at, peer_index,
    peers_with, peers_without, policy_of, removal_keeps_order, to_all, to_peer, ActionView,
    CommandView, Deviation, Exchange, GuestModeView, HostModeView, HostState, MemberChange,
    ModeView, NoticeLevel, SyncView, UiView,
};
use crate::sync_protocol::{GuestView, HostView, MemberView, SecretView, SteamJoinSecret, WireView};
use crate::text::trimmed;
use vstd::prelude::*;

verus! {

/// Someone with this id is in the list.
pub open spec fn among(members: Seq<MemberView>, id: u64) -> bool {
    exists|i: int| 0 <= i < members.len() && (#[trigger] members[i]).steam_id == id
}

/// The action was added to the outbox.
pub open spec fn added(before: SyncView, after: SyncView, action: ActionView) -> bool {
    exists|i: int|
        before.outbox.len() <= i < after.outbox.len() && #[trigger] after.outbox[i] == action
}

/// A reliable message.
pub open spec fn letter(peer_id: u64, message: WireView) -> ActionView {
    ActionView::Send { peer_id, message, reliable: true }
}

proof fn among_the_peers(peers: Seq<MemberView>, id: u64)
    ensures
        among(peers, id) == has_peer(peers, id),
{
    if has_peer(peers, id) {
        let i = peer_index(peers, id);
        assert(peer_at(peers, id, i));
        assert(peers[i].steam_id == id);
    }
    if among(peers, id) {
        let i = choose|i: int| 0 <= i < peers.len() && (#[trigger] peers[i]).steam_id == id;
        assert(peer_at(peers, id, i));
    }
}

/// The peers without one of them: the one is gone and the others stay.
proof fn the_others_stay(h: HostModeView, gone: u64, id: u64)
    requires
        h.wf(),
    ensures
        !among(peers_without(h.peers, gone), gone),
        id != gone ==> among(peers_without(h.peers, gone), id) == among(h.peers, id),
{
    let rest = peers_without(h.peers, gone);
    among_the_peers(h.peers, gone);
    among_the_peers(rest, gone);
    if has_peer(h.peers, gone) {
        removal_keeps_order(h, gone);
        let k = peer_index(h.peers, gone);
        assert(peer_at(h.peers, gone, k));
        if id != gone {
            if among(h.peers, id) {
                let i = choose|i: int|
                    0 <= i < h.peers.len() && (#[trigger] h.peers[i]).steam_id == id;
                let j = if i < k {
                    i
                } else {
                    i - 1
                };
                assert(rest[j] == h.peers[i]);
            }
            if among(rest, id) {
                let j = choose|j: int| 0 <= j < rest.len() && (#[trigger] rest[j]).steam_id == id;
                let i = if j < k {
                    j
                } else {
                    j + 1
                };
                assert(h.peers[i] == rest[j]);
            }
        }
    }
}

/// What is sent to all reaches each of them.
proof fn all_get_it(peers: Seq<MemberView>, message: HostView, id: u64) -> (i: int)
    requires
        among(peers, id),
    ensures
        0 <= i < to_all(peers, message).len(),
        to_all(peers, message)[i] == letter(id, WireView::Host(message)),
{
    choose|i: int| 0 <= i < peers.len() && (#[trigger] peers[i]).steam_id == id
}

// ---------------------------------------------------------------------------
// Joining
// ---------------------------------------------------------------------------

/// Whoever joins with the secret of a host is let in: a guest that entered the
/// lobby of the secret says hello to the host, and a host with the secret's
/// token, a free place and no grudge has it among its guests from then on.
pub proof fn invited_guests_are_let_in(
    v: SyncView,
    h: HostModeView,
    guest: SyncView,
    guest_id: u64,
    lobby_id: u64,
    secret: SecretView,
    user_name: Seq<char>,
    peer_name: Seq<char>,
    host: MemberView,
    state: HostView,
)
    requires
        v.mode == Some(ModeView::Host(h)),
        h.wf(),
        secret.token == h.token,
        h.max_size < 0 || h.peers.len() + 1 < h.max_size,
        !h.kicked.contains(guest_id),
    ensures
        ({
            let after = guest.lobby_joined(Ok(lobby_id), secret, user_name);
            &&& exists|i: int|
                guest.outbox.len() <= i < after.outbox.len() && ({
                    &&& (#[trigger] after.outbox[i]) matches ActionView::Send {
                        peer_id,
                        message: WireView::Guest(GuestView::Hello { .. }),
                        reliable: true,
                    }
                    &&& peer_id == secret.host_steam_id
                })
            &&& forall|i: int|
                guest.outbox.len() <= i < after.outbox.len() ==> ((#[trigger] after.outbox[i]) matches ActionView::Send {
                    message: WireView::Guest(GuestView::Hello { protocol_version, token, name }),
                    ..
                } ==> {
                    let let_in = v.host_heard(
                        guest_id,
                        WireView::Guest(GuestView::Hello { protocol_version, token, name }),
                        peer_name,
                        host,
                        state,
                    );
                    &&& name == user_name
                    &&& let_in.mode matches Some(ModeView::Host(now))
                    &&& among(now.peers, guest_id)
                    &&& now.token == h.token
                    &&& now.lobby_id == h.lobby_id
                    &&& now.max_size == h.max_size
                    &&& now.kicked == h.kicked
                })
        }),
{
    let after = guest.lobby_joined(Ok(lobby_id), secret, user_name);
    let n = guest.outbox.len() as int;
    assert(after.outbox[n] matches ActionView::Send {
        message: WireView::Guest(GuestView::Hello { .. }),
        ..
    });
    assert forall|member: MemberView| member.steam_id == guest_id implies among(
        #[trigger] peers_with(h.peers, member),
        guest_id,
    ) by {
        admission_keeps_order(h, member);
        among_the_peers(peers_with(h.peers, member), guest_id);
    }
}

/// A party that was started can be joined: the secret that the host hands out
/// names the lobby, the host and the party, and whoever joins with it is let
/// in, as long as the party has more than one place.
pub proof fn started_parties_can_be_joined(
    v: SyncView,
    lobby_id: u64,
    party_id: Seq<char>,
    token: Seq<char>,
    max_size: i32,
    host: MemberView,
    guest: SyncView,
    guest_id: u64,
    user_name: Seq<char>,
    peer_name: Seq<char>,
    state: HostView,
)
    requires
        max_size < 0 || max_size > 1,
    ensures
        ({
            let started = v.lobby_created(Ok(lobby_id), party_id, token, max_size, host);
            let secret = SecretView {
                app_id: 480,
                lobby_id,
                host_steam_id: host.steam_id,
                party_id,
                token,
            };
            let hello = WireView::Guest(
                GuestView::Hello { protocol_version: 1, token, name: user_name },
            );
            let joined = guest.commanded(CommandView::JoinHost { secret }, host);
            let entered = joined.lobby_joined(Ok(lobby_id), secret, user_name);
            let let_in = started.host_heard(guest_id, hello, peer_name, host, state);
            &&& added(v, started, ActionView::ReplyHost(Ok(secret)))
            &&& added(guest, joined, ActionView::JoinLobby { secret })
            &&& added(joined, entered, letter(host.steam_id, hello))
            &&& let_in.mode matches Some(ModeView::Host(now))
            &&& among(now.peers, guest_id)
            &&& added(started, let_in, letter(guest_id, WireView::Host(state)))
        }),
{
    let started = v.lobby_created(Ok(lobby_id), party_id, token, max_size, host);
    let secret = SecretView {
        app_id: 480,
        lobby_id,
        host_steam_id: host.steam_id,
        party_id,
        token,
    };
    let hello = WireView::Guest(GuestView::Hello { protocol_version: 1, token, name: user_name });
    let joined = guest.commanded(CommandView::JoinHost { secret }, host);
    let entered = joined.lobby_joined(Ok(lobby_id), secret, user_name);
    let let_in = started.host_heard(guest_id, hello, peer_name, host, state);
    assert(started.outbox[started.outbox.len() - 1] == ActionView::ReplyHost(Ok(secret)));
    assert(joined.outbox[joined.outbox.len() - 1] == (ActionView::JoinLobby { secret }));
    assert(entered.outbox[joined.outbox.len() as int] == letter(host.steam_id, hello));
    let h = started.mode->0->Host_0;
    assert(h.wf());
    let member = MemberView {
        steam_id: guest_id,
        name: display_name(peer_name, user_name),
        is_host: false,
    };
    admission_keeps_order(h, member);
    among_the_peers(peers_with(h.peers, member), guest_id);
    assert(let_in.outbox[let_in.outbox.len() - 1] == letter(guest_id, WireView::Host(state)));
}

/// A host is itself in its party from the start, alone and able to tell
/// others where to find it.
pub proof fn hosts_start_alone(
    v: SyncView,
    lobby_id: u64,
    party_id: Seq<char>,
    token: Seq<char>,
    max_size: i32,
    host: MemberView,
)
    ensures
        ({
            let started = v.lobby_created(Ok(lobby_id), party_id, token, max_size, host);
            &&& started.mode matches Some(ModeView::Host(h))
            &&& h.lobby_id == lobby_id
            &&& h.token == token
            &&& h.max_size == max_size
            &&& h.peers.len() == 0
            &&& h.kicked.len() == 0
            &&& h.last_broadcast is None
            &&& started.lobby.role == LobbyRole::Host
            &&& started.lobby.member_count == 1
            &&& started.lobby.members.len() == 1
            &&& started.lobby.members[0] == host
            &&& max_size > 0 ==> started.lobby.max_size == max_size
            &&& started.lobby.party_id == v.lobby.party_id
            &&& started.lobby.join_secret == v.lobby.join_secret
            &&& added(v, started, ActionView::Ui(UiView::HostStarted))
            &&& added(v, started, ActionView::SetLobbyJoinable { lobby_id })
            &&& added(
                v,
                started,
                ActionView::SetLobbyData { lobby_id, key: "party_id"@, value: party_id },
            )
            &&& added(
                v,
                started,
                ActionView::SetLobbyData {
                    lobby_id,
                    key: "host_steam_id"@,
                    value: decimal(host.steam_id as nat),
                },
            )
            &&& added(
                v,
                started,
                ActionView::SetLobbyData { lobby_id, key: "stremio_sync"@, value: "1"@ },
            )
            &&& added(
                v,
                started,
                ActionView::SetLobbyData { lobby_id, key: "protocol"@, value: "1"@ },
            )
            &&& added(
                v,
                started,
                ActionView::SetLobbyData { lobby_id, key: "app_id"@, value: "480"@ },
            )
        }),
{
    let started = v.lobby_created(Ok(lobby_id), party_id, token, max_size, host);
    let n = v.outbox.len() as int;
    assert(started.outbox[n] == (ActionView::SetLobbyData {
        lobby_id,
        key: "stremio_sync"@,
        value: "1"@,
    }));
    assert(started.outbox[n + 1] == (ActionView::SetLobbyData {
        lobby_id,
        key: "protocol"@,
        value: "1"@,
    }));
    assert(started.outbox[n + 2] == (ActionView::SetLobbyData {
        lobby_id,
        key: "app_id"@,
        value: "480"@,
    }));
    assert(started.outbox[n + 3] == (ActionView::SetLobbyData {
        lobby_id,
        key: "host_steam_id"@,
        value: decimal(host.steam_id as nat),
    }));
    assert(started.outbox[n + 4] == (ActionView::SetLobbyData {
        lobby_id,
        key: "party_id"@,
        value: party_id,
    }));
    assert(started.outbox[n + 5] == (ActionView::SetLobbyJoinable { lobby_id }));
    assert(started.outbox[n + 6] == ActionView::Ui(UiView::HostStarted));
}

/// A lobby that could not be had leaves the mode as it was, and whoever asked
/// hears why: the user as an error, and the one who waits as the answer, in
/// the same words.
pub proof fn failures_are_told(
    v: SyncView,
    reason: Seq<char>,
    party_id: Seq<char>,
    token: Seq<char>,
    max_size: i32,
    host: MemberView,
    secret: SecretView,
    user_name: Seq<char>,
)
    ensures
        ({
            let not_created = v.lobby_created(Err(reason), party_id, token, max_size, host);
            let why = "failed to create Steam lobby: "@ + reason;
            &&& not_created.mode == v.mode
            &&& not_created.lobby.member_count == 0
            &&& added(v, not_created, ActionView::Ui(UiView::Error { message: why }))
            &&& added(v, not_created, ActionView::ReplyHost(Err(why)))
        }),
        ({
            let not_joined = v.lobby_joined(Err(reason), secret, user_name);
            let why = "failed to join Steam lobby: "@ + reason;
            &&& not_joined.mode == v.mode
            &&& not_joined.lobby.party_id.len() == 0
            &&& not_joined.lobby.join_secret.len() == 0
            &&& not_joined.lobby.members.len() == 0
            &&& not_joined.lobby.member_count == 0
            &&& not_joined.lobby.role == LobbyRole::Absent
            &&& added(v, not_joined, ActionView::Ui(UiView::Error { message: why }))
            &&& added(v, not_joined, ActionView::ReplyGuest(Err(why)))
        }),
{
    let n = v.outbox.len() as int;
    let not_created = v.lobby_created(Err(reason), party_id, token, max_size, host);
    let why = "failed to create Steam lobby: "@ + reason;
    assert(not_created.outbox[n] == ActionView::Ui(UiView::Error { message: why }));
    assert(not_created.outbox[n + 1] == ActionView::ReplyHost(Err(why)));
    let not_joined = v.lobby_joined(Err(reason), secret, user_name);
    let why = "failed to join Steam lobby: "@ + reason;
    assert(not_joined.outbox[n] == ActionView::Ui(UiView::Error { message: why }));
    assert(not_joined.outbox[n + 1] == ActionView::ReplyGuest(Err(why)));
}

/// A guest that entered a lobby follows the host of the secret: it asks for the
/// state, has no page of the host's yet, and hears that host alone.
pub proof fn guests_turn_to_their_host(
    v: SyncView,
    lobby_id: u64,
    secret: SecretView,
    user_name: Seq<char>,
)
    ensures
        ({
            let joined = v.lobby_joined(Ok(lobby_id), secret, user_name);
            &&& joined.mode matches Some(ModeView::Guest(g))
            &&& g.lobby_id == lobby_id
            &&& g.host_steam_id == secret.host_steam_id
            &&& g.current_web_url.len() == 0
            &&& joined.lobby.role == LobbyRole::Guest
            &&& joined.lobby.party_id == v.lobby.party_id
            &&& joined.lobby.join_secret == v.lobby.join_secret
            &&& added(
                v,
                joined,
                letter(secret.host_steam_id, WireView::Guest(GuestView::RequestState)),
            )
            &&& added(v, joined, ActionView::Ui(UiView::JoinedHost))
            &&& added(v, joined, ActionView::ReplyGuest(Ok(())))
            &&& policy_of(joined.mode).role == LobbyRole::Guest
            &&& policy_of(joined.mode).host_steam_id == Some(secret.host_steam_id)
        }),
{
    let n = v.outbox.len() as int;
    let joined = v.lobby_joined(Ok(lobby_id), secret, user_name);
    assert(joined.outbox[n + 1] == letter(
        secret.host_steam_id,
        WireView::Guest(GuestView::RequestState),
    ));
    assert(joined.outbox[n + 2] == ActionView::Ui(UiView::JoinedHost));
    assert(joined.outbox[n + 3] == ActionView::ReplyGuest(Ok(())));
}

/// A newcomer is introduced: it stands among the guests under its name, those
/// who were there stay, everyone is told who is there now, the newcomer is told
/// what plays, and the user sees who came.
pub proof fn newcomers_are_introduced(
    v: SyncView,
    h: HostModeView,
    guest_id: u64,
    name: Seq<char>,
    peer_name: Seq<char>,
    host: MemberView,
    state: HostView,
    id: u64,
)
    requires
        v.mode == Some(ModeView::Host(h)),
        h.wf(),
        h.peers.len() < 1_000_000,
        h.max_size < 0 || h.peers.len() + 1 < h.max_size,
        !h.kicked.contains(guest_id),
        !among(h.peers, guest_id),
        0 < trimmed(peer_name).len() <= 48,
    ensures
        ({
            let hello = GuestView::Hello { protocol_version: 1, token: h.token, name };
            let after = v.host_heard(guest_id, WireView::Guest(hello), peer_name, host, state);
            &&& after.mode matches Some(ModeView::Host(now))
            &&& now.peers.len() == h.peers.len() + 1
            &&& now.peers.take(h.peers.len() as int) == h.peers
            &&& now.peers.last() == (MemberView {
                steam_id: guest_id,
                name: trimmed(peer_name),
                is_host: false,
            })
            &&& after.lobby.members == seq![host] + now.peers
            &&& after.lobby.member_count == now.peers.len() + 1
            &&& after.lobby.role == v.lobby.role
            &&& after.lobby.party_id == v.lobby.party_id
            &&& added(
                v,
                after,
                ActionView::Ui(
                    UiView::GuestJoined {
                        name: trimmed(peer_name),
                        member_count: after.lobby.member_count,
                    },
                ),
            )
            &&& added(v, after, letter(guest_id, WireView::Host(state)))
            &&& among(now.peers, id) ==> added(
                v,
                after,
                letter(
                    id,
                    WireView::Host(
                        HostView::LobbyInfo {
                            member_count: after.lobby.member_count,
                            max_size: h.max_size,
                            members: after.lobby.members,
                        },
                    ),
                ),
            )
        }),
{
    let hello = GuestView::Hello { protocol_version: 1, token: h.token, name };
    let after = v.host_heard(guest_id, WireView::Guest(hello), peer_name, host, state);
    among_the_peers(h.peers, guest_id);
    let now = after.mode->0->Host_0;
    assert(now.peers.take(h.peers.len() as int) =~= h.peers);
    let n = v.outbox.len() as int;
    assert(after.outbox[n] is Ui);
    assert(after.outbox[after.outbox.len() - 1] == letter(guest_id, WireView::Host(state)));
    let info = lobby_info(host, now.peers, h.max_size);
    if among(now.peers, id) {
        let i = all_get_it(now.peers, info, id);
        assert(after.outbox[n + 1 + i] == to_all(now.peers, info)[i]);
    }
}

/// Whoever is turned away is told why and nothing else happens: a removed guest
/// whatever it says, another version or token, and a full party.
pub proof fn refusals_say_why(
    v: SyncView,
    h: HostModeView,
    guest_id: u64,
    version: u16,
    token: Seq<char>,
    name: Seq<char>,
    peer_name: Seq<char>,
    host: MemberView,
    state: HostView,
)
    requires
        v.mode == Some(ModeView::Host(h)),
    ensures
        ({
            let hello = GuestView::Hello { protocol_version: version, token, name };
            let after = v.host_heard(guest_id, WireView::Guest(hello), peer_name, host, state);
            let refused = |why: Seq<char>|
                after == (SyncView {
                    outbox: v.outbox.push(letter(guest_id, WireView::Error { message: why })),
                    ..v
                });
            &&& h.kicked.contains(guest_id) ==> refused("you were removed from this watch party"@)
            &&& !h.kicked.contains(guest_id) && (version != 1 || token != h.token) ==> refused(
                "invalid watch-party token"@,
            )
            &&& !h.kicked.contains(guest_id) && version == 1 && token == h.token && 0 <= h.max_size
                <= h.peers.len() + 1 ==> refused("watch-party lobby is full"@)
        }),
{
}

/// A guest that asks is told who is there and what plays; nothing else changes.
pub proof fn guests_are_answered(
    v: SyncView,
    h: HostModeView,
    guest_id: u64,
    peer_name: Seq<char>,
    host: MemberView,
    state: HostView,
)
    requires
        v.mode == Some(ModeView::Host(h)),
        among(h.peers, guest_id),
        h.peers.len() < 1_000_000,
    ensures
        ({
            let after = v.host_heard(
                guest_id,
                WireView::Guest(GuestView::RequestState),
                peer_name,
                host,
                state,
            );
            let info = HostView::LobbyInfo {
                member_count: (h.peers.len() + 1) as i32,
                max_size: h.max_size,
                members: seq![host] + h.peers,
            };
            &&& after.mode == v.mode
            &&& after.lobby == v.lobby
            &&& after.outbox == v.outbox.push(letter(guest_id, WireView::Host(info))).push(
                letter(guest_id, WireView::Host(state)),
            )
        }),
{
    among_the_peers(h.peers, guest_id);
}

// ---------------------------------------------------------------------------
// Leaving
// ---------------------------------------------------------------------------

/// A guest that leaves says so to its host and leaves the lobby, and a host
/// that hears it no longer has it among its guests; the others stay, are told,
/// and the user sees who left. The guest may come back.
pub proof fn guests_can_leave(
    guest: SyncView,
    g: GuestModeView,
    v: SyncView,
    h: HostModeView,
    guest_id: u64,
    peer_name: Seq<char>,
    host: MemberView,
    state: HostView,
    id: u64,
)
    requires
        guest.mode == Some(ModeView::Guest(g)),
        v.mode == Some(ModeView::Host(h)),
        h.wf(),
        h.peers.len() < 1_000_000,
        among(h.peers, guest_id),
    ensures
        ({
            let gone = guest.commanded(CommandView::Leave, host);
            let goodbye = WireView::Guest(GuestView::Leave);
            &&& gone.mode is None
            &&& gone.lobby.role == LobbyRole::Absent
            &&& gone.lobby.party_id.len() == 0
            &&& gone.lobby.members.len() == 0
            &&& gone.lobby.member_count == 0
            &&& added(guest, gone, letter(g.host_steam_id, goodbye))
            &&& added(guest, gone, ActionView::LeaveLobby { lobby_id: g.lobby_id })
            &&& added(guest, gone, ActionView::Ui(UiView::LeftLobby))
        }),
        departed(
            v,
            h,
            v.host_heard(
                guest_id,
                WireView::Guest(GuestView::Leave),
                peer_name,
                host,
                state,
            ),
            guest_id,
            host,
            id,
        ),
{
    let gone = guest.commanded(CommandView::Leave, host);
    let n = guest.outbox.len() as int;
    assert(gone.outbox[n] == letter(g.host_steam_id, WireView::Guest(GuestView::Leave)));
    assert(gone.outbox[n + 1] == (ActionView::LeaveLobby { lobby_id: g.lobby_id }));
    assert(gone.outbox[n + 2] == ActionView::Ui(UiView::LeftLobby));
    departures_are_told(v, h, guest_id, host, id);
}

/// One guest is gone, the others are as they were and know of it.
pub open spec fn departed(
    v: SyncView,
    h: HostModeView,
    after: SyncView,
    guest_id: u64,
    host: MemberView,
    id: u64,
) -> bool {
    &&& after.mode matches Some(ModeView::Host(now))
    &&& now.peers.len() == h.peers.len() - 1
    &&& !among(now.peers, guest_id)
    &&& id != guest_id ==> among(now.peers, id) == among(h.peers, id)
    &&& now.kicked == h.kicked
    &&& now.token == h.token
    &&& now.max_size == h.max_size
    &&& now.lobby_id == h.lobby_id
    &&& after.lobby.members == seq![host] + now.peers
    &&& after.lobby.member_count == h.peers.len()
    &&& exists|i: int|
        0 <= i < h.peers.len() && (#[trigger] h.peers[i]).steam_id == guest_id && added(
            v,
            after,
            ActionView::Ui(
                UiView::GuestLeft { name: h.peers[i].name, member_count: h.peers.len() as i32 },
            ),
        )
    &&& among(now.peers, id) ==> added(
        v,
        after,
        letter(
            id,
            WireView::Host(
                HostView::LobbyInfo {
                    member_count: h.peers.len() as i32,
                    max_size: h.max_size,
                    members: seq![host] + now.peers,
                },
            ),
        ),
    )
}

proof fn departures_are_told(
    v: SyncView,
    h: HostModeView,
    guest_id: u64,
    host: MemberView,
    id: u64,
)
    requires
        v.mode == Some(ModeView::Host(h)),
        h.wf(),
        h.peers.len() < 1_000_000,
        among(h.peers, guest_id),
    ensures
        departed(v, h, v.peer_gone(guest_id, host), guest_id, host, id),
{
    let after = v.peer_gone(guest_id, host);
    among_the_peers(h.peers, guest_id);
    removal_keeps_order(h, guest_id);
    the_others_stay(h, guest_id, id);
    let now = after.mode->0->Host_0;
    let n = v.outbox.len() as int;
    let k = peer_index(h.peers, guest_id);
    assert(peer_at(h.peers, guest_id, k));
    assert(h.peers[k].steam_id == guest_id);
    assert(after.outbox[n] == ActionView::Ui(
        UiView::GuestLeft { name: h.peers[k].name, member_count: h.peers.len() as i32 },
    ));
    let info = lobby_info(host, now.peers, h.max_size);
    if among(now.peers, id) {
        let i = all_get_it(now.peers, info, id);
        assert(after.outbox[n + 1 + i] == to_all(now.peers, info)[i]);
    }
}

/// A guest that leaves the lobby, or drops out of it in whatever way, is gone
/// as if it had said so; someone who enters changes nothing, nor does what
/// happens in another lobby.
pub proof fn dropouts_are_gone(
    v: SyncView,
    h: HostModeView,
    lobby_id: u64,
    guest_id: u64,
    change: MemberChange,
    host: MemberView,
    id: u64,
)
    requires
        v.mode == Some(ModeView::Host(h)),
        h.wf(),
        h.peers.len() < 1_000_000,
    ensures
        ({
            let after = v.chat_updated(lobby_id, guest_id, change, host);
            &&& lobby_id == h.lobby_id && change != MemberChange::Entered && among(
                h.peers,
                guest_id,
            ) ==> departed(v, h, after, guest_id, host, id)
            &&& lobby_id != h.lobby_id || change == MemberChange::Entered || !among(
                h.peers,
                guest_id,
            ) ==> after == v
        }),
{
    among_the_peers(h.peers, guest_id);
    if among(h.peers, guest_id) {
        departures_are_told(v, h, guest_id, host, id);
    }
}

/// When its host goes, a guest's party is over: it leaves, and the user is
/// told. Others who come and go do not matter to it.
pub proof fn parties_end_with_their_host(
    v: SyncView,
    g: GuestModeView,
    lobby_id: u64,
    user: u64,
    change: MemberChange,
    host: MemberView,
)
    requires
        v.mode == Some(ModeView::Guest(g)),
    ensures
        ({
            let after = v.chat_updated(lobby_id, user, change, host);
            let over = lobby_id == g.lobby_id && user == g.host_steam_id && change
                != MemberChange::Entered;
            &&& !over ==> after == v
            &&& over ==> after.mode is None && after.lobby.role == LobbyRole::Absent
                && after.lobby.party_id.len() == 0 && added(
                v,
                after,
                ActionView::LeaveLobby { lobby_id },
            ) && added(
                v,
                after,
                ActionView::Ui(UiView::HostLeft { reason: "The host left the watch party"@ }),
            )
        }),
{
    let after = v.chat_updated(lobby_id, user, change, host);
    let n = v.outbox.len() as int;
    if lobby_id == g.lobby_id && user == g.host_steam_id && change != MemberChange::Entered {
        assert(after.outbox[n + 1] == (ActionView::LeaveLobby { lobby_id }));
        assert(after.outbox[n + 2] == ActionView::Ui(
            UiView::HostLeft { reason: "The host left the watch party"@ },
        ));
    }
}

/// A host that leaves closes the party: each guest is told, the lobby is left,
/// and a guest that is told has no party any more and sees why.
pub proof fn closing_reaches_every_guest(
    v: SyncView,
    h: HostModeView,
    guest: SyncView,
    g: GuestModeView,
    guest_id: u64,
    host_id: u64,
    time_text: Seq<char>,
    peer_name: Seq<char>,
    host: MemberView,
    state: HostView,
)
    requires
        v.mode == Some(ModeView::Host(h)),
        guest.mode == Some(ModeView::Guest(g)),
        among(h.peers, guest_id),
    ensures
        ({
            let reason = "The host left the watch party"@;
            let closed = WireView::Host(HostView::LobbyClosed { reason });
            let left = v.commanded(CommandView::Leave, host);
            let told = guest.heard(host_id, closed, time_text, peer_name, host, state);
            &&& left.mode is None
            &&& left.lobby.role == LobbyRole::Absent
            &&& left.lobby.party_id.len() == 0
            &&& left.lobby.member_count == 0
            &&& left.lobby.members.len() == 0
            &&& added(v, left, letter(guest_id, closed))
            &&& added(v, left, ActionView::LeaveLobby { lobby_id: h.lobby_id })
            &&& added(v, left, ActionView::Ui(UiView::LeftLobby))
            &&& told.mode is None
            &&& told.lobby.role == LobbyRole::Absent
            &&& told.lobby.party_id.len() == 0
            &&& added(guest, told, ActionView::LeaveLobby { lobby_id: g.lobby_id })
            &&& added(guest, told, ActionView::Ui(UiView::HostLeft { reason }))
        }),
{
    let reason = "The host left the watch party"@;
    let closed = HostView::LobbyClosed { reason };
    let left = v.commanded(CommandView::Leave, host);
    let told = guest.heard(host_id, WireView::Host(closed), time_text, peer_name, host, state);
    let n = v.outbox.len() as int;
    let i = all_get_it(h.peers, closed, guest_id);
    assert(left.outbox[n + i] == to_all(h.peers, closed)[i]);
    assert(left.outbox[n + h.peers.len()] == (ActionView::LeaveLobby { lobby_id: h.lobby_id }));
    assert(left.outbox[n + h.peers.len() + 1] == ActionView::Ui(UiView::LeftLobby));
    let m = guest.outbox.len() as int;
    assert(told.outbox[m + 1] == (ActionView::LeaveLobby { lobby_id: g.lobby_id }));
    assert(told.outbox[m + 2] == ActionView::Ui(UiView::HostLeft { reason }));
}

/// A removed guest is told, is gone, and stays on the list of those who are not
/// let in again; the others stay and are told. Removing someone who is no guest
/// does nothing, and only a host removes anyone.
pub proof fn removed_guests_are_told(
    v: SyncView,
    h: HostModeView,
    guest_id: u64,
    host: MemberView,
    id: u64,
)
    requires
        v.mode == Some(ModeView::Host(h)),
        h.wf(),
        h.peers.len() < 1_000_000,
    ensures
        ({
            let after = v.commanded(CommandView::Kick { steam_id: guest_id }, host);
            &&& !among(h.peers, guest_id) ==> after == v
            &&& among(h.peers, guest_id) ==> {
                &&& after.mode matches Some(ModeView::Host(now))
                &&& now.peers.len() == h.peers.len() - 1
                &&& !among(now.peers, guest_id)
                &&& now.kicked == h.kicked.push(guest_id)
                &&& now.token == h.token
                &&& id != guest_id ==> among(now.peers, id) == among(h.peers, id)
                &&& after.lobby.members == seq![host] + now.peers
                &&& after.lobby.member_count == h.peers.len()
                &&& added(
                    v,
                    after,
                    letter(
                        guest_id,
                        WireView::Host(
                            HostView::LobbyClosed {
                                reason: "You were removed from the watch party"@,
                            },
                        ),
                    ),
                )
                &&& exists|i: int|
                    0 <= i < h.peers.len() && (#[trigger] h.peers[i]).steam_id == guest_id && added(
                        v,
                        after,
                        ActionView::Ui(
                            UiView::GuestLeft {
                                name: h.peers[i].name,
                                member_count: h.peers.len() as i32,
                            },
                        ),
                    )
                &&& among(now.peers, id) ==> added(
                    v,
                    after,
                    letter(
                        id,
                        WireView::Host(
                            HostView::LobbyInfo {
                                member_count: h.peers.len() as i32,
                                max_size: h.max_size,
                                members: seq![host] + now.peers,
                            },
                        ),
                    ),
                )
            }
        }),
{
    among_the_peers(h.peers, guest_id);
    if among(h.peers, guest_id) {
        let after = v.commanded(CommandView::Kick { steam_id: guest_id }, host);
        removal_keeps_order(h, guest_id);
        the_others_stay(h, guest_id, id);
        let now = after.mode->0->Host_0;
        let n = v.outbox.len() as int;
        let k = peer_index(h.peers, guest_id);
        assert(peer_at(h.peers, guest_id, k));
        assert(h.peers[k].steam_id == guest_id);
        assert(after.outbox[n] == letter(
            guest_id,
            WireView::Host(
                HostView::LobbyClosed { reason: "You were removed from the watch party"@ },
            ),
        ));
        assert(after.outbox[n + 1] == ActionView::Ui(
            UiView::GuestLeft { name: h.peers[k].name, member_count: h.peers.len() as i32 },
        ));
        let info = lobby_info(host, now.peers, h.max_size);
        if among(now.peers, id) {
            let i = all_get_it(now.peers, info, id);
            assert(after.outbox[n + 2 + i] == to_all(now.peers, info)[i]);
        }
    }
}

/// Guests, and those in no party, remove nobody.
pub proof fn only_hosts_remove_anyone(v: SyncView, guest_id: u64, host: MemberView)
    requires
        v.mode is None || v.mode->0 is Guest,
    ensures
        v.commanded(CommandView::Kick { steam_id: guest_id }, host) == v,
{
}

/// Whoever starts or joins a party leaves the one before, and asks for the
/// other: a new lobby has room for those who are wanted and for two at least,
/// and keeps the token and the party it was asked for with.
pub proof fn one_party_at_a_time(
    v: SyncView,
    party_id: Seq<char>,
    token: Seq<char>,
    max_size: i32,
    secret: SecretView,
    host: MemberView,
)
    ensures
        ({
            let starting = v.commanded(
                CommandView::StartHost { party_id, token, max_size },
                host,
            );
            &&& starting.mode is None
            &&& starting.outbox.len() > v.outbox.len()
            &&& starting.outbox.last() matches ActionView::CreateLobby {
                party_id: p,
                token: t,
                max_size: m,
                slots,
            }
            &&& p == party_id
            &&& t == token
            &&& m == max_size
            &&& slots >= 2
            &&& max_size >= 2 ==> slots == max_size
            &&& max_size < 2 ==> slots == 2
        }),
        ({
            let joining = v.commanded(CommandView::JoinHost { secret }, host);
            &&& joining.mode is None
            &&& joining.outbox.len() > v.outbox.len()
            &&& joining.outbox.last() == (ActionView::JoinLobby { secret })
        }),
        v.mode matches Some(ModeView::Host(h)) ==> added(
            v,
            v.commanded(CommandView::JoinHost { secret }, host),
            ActionView::LeaveLobby { lobby_id: h.lobby_id },
        ),
        v.mode matches Some(ModeView::Guest(g)) ==> added(
            v,
            v.commanded(CommandView::StartHost { party_id, token, max_size }, host),
            ActionView::LeaveLobby { lobby_id: g.lobby_id },
        ),
{
    let n = v.outbox.len() as int;
    if let Some(ModeView::Host(h)) = v.mode {
        let joining = v.commanded(CommandView::JoinHost { secret }, host);
        assert(joining.outbox[n + h.peers.len()] == (ActionView::LeaveLobby {
            lobby_id: h.lobby_id,
        }));
    }
    if let Some(ModeView::Guest(g)) = v.mode {
        let starting = v.commanded(CommandView::StartHost { party_id, token, max_size }, host);
        assert(starting.outbox[n + 1] == (ActionView::LeaveLobby { lobby_id: g.lobby_id }));
    }
}

// ---------------------------------------------------------------------------
// Watching
// ---------------------------------------------------------------------------

/// A guest knows who is there: what the host says of its lobby is what the
/// guest shows, and nothing else changes.
pub proof fn guests_know_who_is_there(
    guest: SyncView,
    g: GuestModeView,
    host_id: u64,
    member_count: i32,
    max_size: i32,
    members: Seq<MemberView>,
    time_text: Seq<char>,
    peer_name: Seq<char>,
    host: MemberView,
    state: HostView,
)
    requires
        guest.mode == Some(ModeView::Guest(g)),
    ensures
        ({
            let info = HostView::LobbyInfo { member_count, max_size, members };
            let told = guest.heard(
                host_id,
                WireView::Host(info),
                time_text,
                peer_name,
                host,
                state,
            );
            &&& told.mode == guest.mode
            &&& told.lobby.members == members
            &&& told.lobby.member_count == member_count
            &&& max_size > 0 ==> told.lobby.max_size == max_size
            &&& max_size <= 0 ==> told.lobby.max_size == guest.lobby.max_size
            &&& told.lobby.role == guest.lobby.role
            &&& told.lobby.party_id == guest.lobby.party_id
            &&& told.lobby.join_secret == guest.lobby.join_secret
            &&& told.outbox == guest.outbox.push(
                ActionView::Ui(UiView::LobbyUpdated { member_count, max_size }),
            )
        }),
{
}

/// A guest listens to hosts and a host to guests: what someone of the same kind
/// says, and an error, changes nothing, and without a party nothing does.
pub proof fn members_keep_to_their_parts(
    v: SyncView,
    peer_id: u64,
    from_host: HostView,
    from_guest: GuestView,
    error: Seq<char>,
    time_text: Seq<char>,
    peer_name: Seq<char>,
    host: MemberView,
    state: HostView,
)
    ensures
        ({
            let hearing = |m: WireView| v.heard(peer_id, m, time_text, peer_name, host, state);
            &&& hearing(WireView::Error { message: error }) == v
            &&& v.mode matches Some(ModeView::Host(_)) ==> hearing(WireView::Host(from_host)) == v
            &&& v.mode matches Some(ModeView::Guest(_)) ==> hearing(WireView::Guest(from_guest)) == v
            &&& v.mode is None ==> hearing(WireView::Host(from_host)) == v && hearing(
                WireView::Guest(from_guest),
            ) == v
        }),
{
}

/// A guest that is on the host's page already stays there and only takes over
/// position and pause; without an address it does the same.
pub proof fn guests_on_the_page_stay(
    guest: SyncView,
    g: GuestModeView,
    state: HostState,
    host_id: u64,
    time_text: Seq<char>,
    peer_name: Seq<char>,
    host: MemberView,
    own: HostView,
)
    requires
        guest.mode == Some(ModeView::Guest(g)),
        state.web_url@ == g.current_web_url || state.web_url@.len() == 0,
    ensures
        guest.heard(
            host_id,
            WireView::Host(
                HostView::State {
                    stream_url: state.stream_url@,
                    web_url: state.web_url@,
                    time_pos: state.time_pos,
                    duration: state.duration,
                    paused: state.paused,
                },
            ),
            time_text,
            peer_name,
            host,
            own,
        ) == (SyncView {
            outbox: guest.outbox.push(
                ActionView::FollowHost { time_pos: state.time_pos, paused: state.paused },
            ),
            ..guest
        }),
{
}

/// A host that has guests tells them when a second has passed since it last
/// did, or at once when it never did; otherwise nothing happens. Afterwards it
/// knows what they know.
pub proof fn guests_hear_every_second(
    v: SyncView,
    h: HostModeView,
    state: HostState,
    deviation: Deviation,
    now: u64,
    guest_id: u64,
)
    requires
        v.mode == Some(ModeView::Host(h)),
        h.wf(),
    ensures
        ({
            let after = v.ticked(state, deviation, now);
            let due = h.peers.len() > 0 && (h.last_broadcast is None || now
                >= h.last_broadcast->0 + 1_000_000_000);
            &&& !due ==> after == v
            &&& due ==> {
                &&& after.mode matches Some(ModeView::Host(told))
                &&& told.last_broadcast == Some(now)
                &&& told.last_paused == state.paused
                &&& told.last_time == state.time_pos
                &&& told.peers == h.peers
                &&& told.kicked == h.kicked
                &&& told.token == h.token
                &&& after.lobby == v.lobby
                &&& state.stream_url@.len() > 0 && state.web_url@.len() > 0
                    ==> told.last_stream_url == state.stream_url@ && told.last_web_url
                    == state.web_url@
                &&& among(h.peers, guest_id) ==> added(
                    v,
                    after,
                    ActionView::Send {
                        peer_id: guest_id,
                        message: WireView::Host(
                            HostView::State {
                                stream_url: state.stream_url@,
                                web_url: state.web_url@,
                                time_pos: state.time_pos,
                                duration: state.duration,
                                paused: state.paused,
                            },
                        ),
                        reliable: false,
                    },
                )
            }
        }),
{
    let after = v.ticked(state, deviation, now);
    if h.broadcast_due(now) && among(h.peers, guest_id) {
        among_the_peers(h.peers, guest_id);
        let i = news_reach_everyone(
            h.peers,
            h.news(state, deviation),
            state.message(),
            guest_id,
            h.news(state, deviation).len() as int,
        );
        let told = briefings(h.peers, h.news(state, deviation), state.message());
        assert(after.outbox[v.outbox.len() + i] == told[i]);
    }
}

/// Each guest hears of what changed, and of nothing else: of another title or
/// page, of a pause or its end, and of a jump of more than three seconds from
/// where the position would be.
pub proof fn guests_hear_what_changed(
    v: SyncView,
    h: HostModeView,
    state: HostState,
    deviation: Deviation,
    now: u64,
    guest_id: u64,
    message: HostView,
)
    requires
        v.mode == Some(ModeView::Host(h)),
        h.peers.len() > 0,
        h.last_broadcast is None || now >= h.last_broadcast->0 + 1_000_000_000,
        among(h.peers, guest_id),
        !(message is State),
    ensures
        ({
            let off = if state.paused {
                deviation.paused
            } else {
                deviation.playing
            };
            let three = Real { bits: 0x4008_0000_0000_0000 };
            let loaded = message == (HostView::Load {
                stream_url: state.stream_url@,
                web_url: state.web_url@,
            }) && ((state.stream_url@.len() > 0 && state.stream_url@ != h.last_stream_url) || (
            state.web_url@.len() > 0 && state.web_url@ != h.last_web_url));
            let paused = message == (HostView::Pause { time_pos: state.time_pos }) && state.paused
                && !h.last_paused;
            let resumed = message == (HostView::Play { time_pos: state.time_pos }) && !state.paused
                && h.last_paused;
            let jumped = message == (HostView::Seek { time_pos: state.time_pos }) && three.less(
                off,
            );
            added(
                v,
                v.ticked(state, deviation, now),
                letter(guest_id, WireView::Host(message)),
            ) <==> loaded || paused || resumed || jumped
        }),
{
    let after = v.ticked(state, deviation, now);
    let news = h.news(state, deviation);
    let told = briefings(h.peers, news, state.message());
    among_the_peers(h.peers, guest_id);
    assert(after.outbox == v.outbox + told);
    if exists|k: int| 0 <= k < news.len() && news[k] == message {
        let k = choose|k: int| 0 <= k < news.len() && news[k] == message;
        let i = news_reach_everyone(h.peers, news, state.message(), guest_id, k);
        assert(after.outbox[v.outbox.len() + i] == told[i]);
    }
    if added(v, after, letter(guest_id, WireView::Host(message))) {
        let i = choose|i: int|
            v.outbox.len() <= i < after.outbox.len() && #[trigger] after.outbox[i] == letter(
                guest_id,
                WireView::Host(message),
            );
        assert(told[i - v.outbox.len()] == after.outbox[i]);
        only_news_are_told(h.peers, news, state.message(), i - v.outbox.len());
    }
    let paused_at: int = if h.moved_on(state.stream_url@, state.web_url@) {
        1
    } else {
        0
    };
    let jump_at: int = if state.paused == h.last_paused {
        paused_at
    } else {
        paused_at + 1
    };
    if h.moved_on(state.stream_url@, state.web_url@) {
        assert(news[0] == (HostView::Load {
            stream_url: state.stream_url@,
            web_url: state.web_url@,
        }));
    }
    if state.paused != h.last_paused {
        assert(news[paused_at] == (if state.paused {
            HostView::Pause { time_pos: state.time_pos }
        } else {
            HostView::Play { time_pos: state.time_pos }
        }));
    }
    if deviation.is_jump(state.paused) {
        assert(news[jump_at] == (HostView::Seek { time_pos: state.time_pos }));
    }
}

proof fn only_news_are_told(peers: Seq<MemberView>, news: Seq<HostView>, state: HostView, i: int)
    requires
        0 <= i < briefings(peers, news, state).len(),
    ensures
        briefings(peers, news, state)[i] matches ActionView::Send {
            message: WireView::Host(m),
            reliable,
            ..
        } && (reliable ==> exists|k: int| 0 <= k < news.len() && news[k] == m),
    decreases peers.len(),
{
    let rest = briefings(peers.drop_last(), news, state);
    if i < rest.len() {
        only_news_are_told(peers.drop_last(), news, state, i);
        assert(briefings(peers, news, state)[i] == rest[i]);
    } else {
        let own = briefing(peers.last().steam_id, news, state);
        assert(briefings(peers, news, state)[i] == own[i - rest.len()]);
        if i - rest.len() < news.len() {
            assert(own[i - rest.len()] == to_peer(
                peers.last().steam_id,
                news[i - rest.len()],
                true,
            ));
        }
    }
}

// ---------------------------------------------------------------------------
// Names, connections and notices
// ---------------------------------------------------------------------------

/// A name is shown as it was given, but for the white space around it and what
/// comes after 48 characters; only a blank name is replaced.
pub proof fn names_are_kept(name: Seq<char>, fallback: Seq<char>)
    ensures
        0 < trimmed(name).len() <= 48 ==> display_name(name, fallback) == trimmed(name),
        trimmed(name).len() > 48 ==> display_name(name, fallback).len() == 48 && display_name(
            name,
            fallback,
        ).is_prefix_of(trimmed(name)),
        trimmed(name).len() == 0 && fallback.len() <= 48 ==> display_name(name, fallback)
            == fallback,
        display_name(name, fallback).len() <= 48,
{
}

/// The role decides who may connect: a host has no single partner, a guest has
/// its host, and without a party there is no one.
pub proof fn roles_decide_who_connects(mode: Option<ModeView>)
    ensures
        mode is None <==> policy_of(mode).role == LobbyRole::Absent,
        mode is Some && mode->0 is Host <==> policy_of(mode).role == LobbyRole::Host,
        mode is Some && mode->0 is Guest <==> policy_of(mode).role == LobbyRole::Guest,
        policy_of(mode).host_steam_id is Some <==> policy_of(mode).role == LobbyRole::Guest,
        mode matches Some(ModeView::Guest(g)) ==> policy_of(mode).host_steam_id == Some(
            g.host_steam_id,
        ),
{
}

/// The record of a party that is being joined names the party and its link, and
/// counts the user alone as a guest.
pub proof fn joining_is_noted(lobby: LobbyView, secret: SecretView, link: Seq<char>)
    ensures
        joining_lobby(lobby, secret, link).party_id == secret.party_id,
        joining_lobby(lobby, secret, link).join_secret == link,
        joining_lobby(lobby, secret, link).member_count == 1,
        joining_lobby(lobby, secret, link).members.len() == 0,
        joining_lobby(lobby, secret, link).max_size == lobby.max_size,
        joining_lobby(lobby, secret, link).role == LobbyRole::Guest,
{
}

/// Errors ask for attention, and what they say is shown as it is; the end of a
/// party is a warning with its reason; all else only informs. What someone did
/// is shown with their name.
pub proof fn notices_fit_their_events(event: UiView)
    ensures
        notice_of(event).dialog <==> event is Error,
        notice_of(event).level == NoticeLevel::Error <==> event is Error,
        notice_of(event).level == NoticeLevel::Warning <==> event is HostLeft,
        event matches UiView::Error { message } ==> notice_of(event).text == message,
        event matches UiView::HostLeft { reason } ==> notice_of(event).text == reason,
        event matches UiView::GuestJoined { name, .. } ==> name.is_prefix_of(notice_of(event).text),
        event matches UiView::GuestLeft { name, .. } ==> name.is_prefix_of(notice_of(event).text),
{
    match event {
        UiView::GuestJoined { name, .. } => {
            let text = notice_of(event).text;
            assert(text.subrange(0, name.len() as int) =~= name);
        },
        UiView::GuestLeft { name, .. } => {
            let text = notice_of(event).text;
            assert(text.subrange(0, name.len() as int) =~= name);
        },
        _ => {},
    }
}

/// Success is answered with success, and every failure with an error.
pub proof fn outcomes_are_passed_on(
    hosting: Exchange<SteamJoinSecret>,
    joining: Exchange<()>,
)
    ensures
        hosting_outcome(hosting) is Ok <==> hosting matches Exchange::Answered(Ok(_)),
        joining_outcome(joining) is Ok <==> joining matches Exchange::Answered(Ok(())),
        hosting matches Exchange::Answered(Err(e)) ==> hosting_outcome(hosting) == Err::<
            Seq<char>,
            Seq<char>,
        >(e@),
        joining matches Exchange::Answered(Err(e)) ==> joining_outcome(joining) == Err::<
            (),
            Seq<char>,
        >(e@),
{
}

} // verus!
