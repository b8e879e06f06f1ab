//! What the shell knows of the watch party it is in, and what it shows of it.

use crate::number::{decimal, format_i64, format_u64, signed_decimal};
use crate::sync_protocol::{member_views, LobbyMember, MemberView};
use vstd::prelude::*;

verus! {

/// The part that this application has in a watch party.
#[derive(Debug, Clone, Copy, PartialEq, Eq, Structural)]
pub enum LobbyRole {
    Absent,
    Host,
    Guest,
}

/// The watch party as the shell knows it. An empty party id means that there
/// is none.
#[derive(Debug)]
pub struct LobbyState {
    pub party_id: String,
    pub join_secret: String,
    pub member_count: i32,
    pub max_size: i32,
    pub members: Vec<LobbyMember>,
    pub role: LobbyRole,
}

/// The watch party by its texts.
#[verifier::ext_equal]
pub struct LobbyView {
    pub party_id: Seq<char>,
    pub join_secret: Seq<char>,
    pub member_count: i32,
    pub max_size: i32,
    pub members: Seq<MemberView>,
    pub role: LobbyRole,
}

impl View for LobbyState {
    type V = LobbyView;

    open spec fn view(&self) -> LobbyView {
        LobbyView {
            party_id: self.party_id@,
            join_secret: self.join_secret@,
            member_count: self.member_count,
            max_size: self.max_size,
            members: member_views(self.members@),
            role: self.role,
        }
    }
}

impl LobbyView {
    /// The lobby with other counts. A maximum that is not positive leaves the
    /// known one in place.
    pub open spec fn counted(self, member_count: i32, max_size: i32) -> LobbyView {
        LobbyView {
            member_count,
            max_size: if max_size > 0 {
                max_size
            } else {
                self.max_size
            },
            ..self
        }
    }

    /// The lobby after it was left: nothing but the known maximum remains.
    pub open spec fn cleared(self) -> LobbyView {
        LobbyView {
            party_id: Seq::empty(),
            join_secret: Seq::empty(),
            member_count: 0,
            max_size: self.max_size,
            members: Seq::empty(),
            role: LobbyRole::Absent,
        }
    }

    /// There is a watch party with someone in it.
    pub open spec fn active(self) -> bool {
        self.party_id.len() > 0 && self.member_count > 0
    }
}

impl LobbyState {
    /// No watch party, with room for eight in the next one.
    pub fn new() -> (lobby: LobbyState)
        ensures
            lobby@ == (LobbyView {
                party_id: Seq::empty(),
                join_secret: Seq::empty(),
                member_count: 0,
                max_size: 8,
                members: Seq::empty(),
                role: LobbyRole::Absent,
            }),
    {
        let lobby = LobbyState {
            party_id: String::new(),
            join_secret: String::new(),
            member_count: 0,
            max_size: 8,
            members: Vec::new(),
            role: LobbyRole::Absent,
        };
        assert(member_views(lobby.members@) =~= Seq::empty());
        lobby
    }

    pub fn set_lobby_identity(&mut self, party_id: &str, join_secret: &str)
        ensures
            final(self)@ == (LobbyView {
                party_id: party_id@,
                join_secret: join_secret@,
                ..old(self)@
            }),
    {
        self.party_id = party_id.to_string();
        self.join_secret = join_secret.to_string();
    }

    pub fn set_lobby_counts(&mut self, member_count: i32, max_size: i32)
        ensures
            final(self)@ == old(self)@.counted(member_count, max_size),
    {
        self.member_count = member_count;
        if max_size > 0 {
            self.max_size = max_size;
        }
    }

    pub fn set_lobby_members(&mut self, members: Vec<LobbyMember>)
        ensures
            final(self)@ == (LobbyView { members: member_views(members@), ..old(self)@ }),
    {
        self.members = members;
    }

    pub fn set_lobby_role(&mut self, role: LobbyRole)
        ensures
            final(self)@ == (LobbyView { role, ..old(self)@ }),
    {
        self.role = role;
    }

    /// Forgets the watch party.
    pub fn clear_lobby_globals(&mut self)
        ensures
            final(self)@ == old(self)@.cleared(),
    {
        self.party_id = String::new();
        self.join_secret = String::new();
        self.set_lobby_counts(0, 0);
        let nobody: Vec<LobbyMember> = Vec::new();
        assert(member_views(nobody@) =~= Seq::empty());
        self.set_lobby_members(nobody);
        self.set_lobby_role(LobbyRole::Absent);
    }

    /// Whether a watch party can be started: there is none yet.
    pub fn may_start_watch_party(&self) -> (may: bool)
        ensures
            may == (self@.party_id.len() == 0),
    {
        self.party_id.as_str().is_empty()
    }

    /// Notes that this application hosts a new watch party.
    pub fn watch_party_started(&mut self, party_id: String, join_secret: String, max_size: i32)
        ensures
            final(self)@ == (LobbyView {
                party_id: party_id@,
                join_secret: join_secret@,
                member_count: 1,
                max_size,
                ..old(self)@
            }),
    {
        self.party_id = party_id;
        self.join_secret = join_secret;
        self.member_count = 1;
        self.max_size = max_size;
    }
}

// ---------------------------------------------------------------------------
// Presence
// ---------------------------------------------------------------------------

/// What the presence of this user says of the watch party.
#[derive(Debug)]
pub struct LobbyPresence {
    pub party_id: String,
    pub join_secret: String,
    pub member_count: i32,
    pub max_size: i32,
}

/// A lobby presence by its texts.
#[verifier::ext_equal]
pub struct PresenceView {
    pub party_id: Seq<char>,
    pub join_secret: Seq<char>,
    pub member_count: i32,
    pub max_size: i32,
}

impl View for LobbyPresence {
    type V = PresenceView;

    open spec fn view(&self) -> PresenceView {
        PresenceView {
            party_id: self.party_id@,
            join_secret: self.join_secret@,
            member_count: self.member_count,
            max_size: self.max_size,
        }
    }
}

/// The larger of two numbers.
pub open spec fn larger(a: i32, b: i32) -> i32 {
    if a >= b {
        a
    } else {
        b
    }
}

/// The presence of a lobby: none without a party, else at least one member in
/// a party that is large enough for its members.
pub open spec fn presence_of(lobby: LobbyView) -> Option<PresenceView> {
    if lobby.party_id.len() == 0 {
        None
    } else {
        let member_count = larger(lobby.member_count, 1);
        Some(
            PresenceView {
                party_id: lobby.party_id,
                join_secret: lobby.join_secret,
                member_count,
                max_size: larger(lobby.max_size, member_count),
            },
        )
    }
}

/// How many others are in a party with this many members; the smallest number
/// has no predecessor.
pub open spec fn others(member_count: i32) -> int {
    if member_count == i32::MIN {
        i32::MIN as int
    } else {
        member_count - 1
    }
}

/// Who else is in a party with this many members.
pub open spec fn others_text_of(member_count: i32) -> Option<Seq<char>> {
    let n = others(member_count);
    if n == 0 {
        None
    } else if n == 1 {
        Some("with 1 other"@)
    } else {
        Some("with "@ + signed_decimal(n) + " others"@)
    }
}

impl LobbyPresence {
    /// Who else is in the party.
    pub fn others_text(&self) -> (text: Option<String>)
        ensures
            match text {
                Some(t) => others_text_of(self.member_count) == Some(t@),
                None => others_text_of(self.member_count) is None,
            },
    {
        let n: i32 = if self.member_count == i32::MIN {
            i32::MIN
        } else {
            self.member_count - 1
        };
        if n == 0 {
            return None;
        }
        if n == 1 {
            return Some("with 1 other".to_string());
        }
        let mut text = "with ".to_string();
        text.append(format_i64(n as i64).as_str());
        text.append(" others");
        Some(text)
    }
}

/// The presence of the watch party, where there is one.
pub fn lobby_presence(lobby: &LobbyState) -> (presence: Option<LobbyPresence>)
    ensures
        match presence {
            Some(p) => presence_of(lobby@) == Some(p@),
            None => presence_of(lobby@) is None,
        },
{
    if lobby.party_id.as_str().is_empty() {
        return None;
    }
    let member_count: i32 = if lobby.member_count >= 1 {
        lobby.member_count
    } else {
        1
    };
    let max_size: i32 = if lobby.max_size >= member_count {
        lobby.max_size
    } else {
        member_count
    };
    Some(
        LobbyPresence {
            party_id: lobby.party_id.clone(),
            join_secret: lobby.join_secret.clone(),
            member_count,
            max_size,
        },
    )
}

// ---------------------------------------------------------------------------
// Party ids
// ---------------------------------------------------------------------------

/// A digit of a hexadecimal number in lower case.
pub open spec fn is_lower_hex(c: char) -> bool {
    '0' <= c <= '9' || 'a' <= c <= 'f'
}

/// The text is a random UUID: groups of eight, four, four, four and twelve
/// hexadecimal digits between hyphens, of the fourth version and the usual
/// variant.
pub open spec fn is_random_uuid(s: Seq<char>) -> bool {
    &&& s.len() == 36
    &&& s[14] == '4'
    &&& s[19] == '8' || s[19] == '9' || s[19] == 'a' || s[19] == 'b'
    &&& forall|i: int|
        0 <= i < 36 ==> if i == 8 || i == 13 || i == 18 || i == 23 {
            #[trigger] s[i] == '-'
        } else {
            is_lower_hex(s[i])
        }
}

/// Calls `uuid::Uuid::new_v4` and writes the result with its `Display`: a
/// random UUID of the fourth version.
#[verifier::external_body]
fn fresh_uuid() -> (id: String)
    ensures
        is_random_uuid(id@),
{
    uuid::Uuid::new_v4().to_string()
}

/// The id of the party that a UUID stands for.
pub fn party_id_of(uuid: &str) -> (id: String)
    ensures
        id@ == "stremio-"@ + uuid@,
{
    let mut id = "stremio-".to_string();
    id.append(uuid);
    id
}

/// An id for a new party.
pub fn new_party_id() -> (id: String)
    ensures
        exists|uuid: Seq<char>| #[trigger]
            is_random_uuid(uuid) && id@ == "stremio-"@ + uuid,
{
    let uuid = fresh_uuid();
    party_id_of(uuid.as_str())
}

// ---------------------------------------------------------------------------
// Menu and overlay
// ---------------------------------------------------------------------------

/// What this application does in the party.
pub open spec fn role_label_of(role: LobbyRole) -> Seq<char> {
    match role {
        LobbyRole::Host => "Hosting"@,
        LobbyRole::Guest => "Joined"@,
        LobbyRole::Absent => "Watch party"@,
    }
}

/// The counts of a party, such as `2/8`.
pub open spec fn counts_text(member_count: i32, max_size: i32) -> Seq<char> {
    signed_decimal(member_count as int) + "/"@ + signed_decimal(max_size as int)
}

/// The line that describes an active party.
pub open spec fn party_line(lobby: LobbyView) -> Seq<char> {
    role_label_of(lobby.role) + " watch party "@ + counts_text(lobby.member_count, lobby.max_size)
}

/// What this application does in the party.
pub fn role_label(role: LobbyRole) -> (label: String)
    ensures
        label@ == role_label_of(role),
{
    match role {
        LobbyRole::Host => "Hosting".to_string(),
        LobbyRole::Guest => "Joined".to_string(),
        LobbyRole::Absent => "Watch party".to_string(),
    }
}

/// Appends the counts of a party.
pub fn append_counts(text: &mut String, member_count: i32, max_size: i32)
    ensures
        final(text)@ == old(text)@ + counts_text(member_count, max_size),
{
    text.append(format_i64(member_count as i64).as_str());
    text.append("/");
    text.append(format_i64(max_size as i64).as_str());
    assert(text@ =~= old(text)@ + counts_text(member_count, max_size));
}

fn party_text(lobby: &LobbyState) -> (text: String)
    ensures
        text@ == party_line(lobby@),
{
    let mut text = role_label(lobby.role);
    text.append(" watch party ");
    append_counts(&mut text, lobby.member_count, lobby.max_size);
    text
}

/// The state of the watch-party entries in the tray, the window's title and
/// the tray's tip.
pub struct WatchPartyMenu {
    pub title: String,
    pub tip: String,
    pub can_start: bool,
    pub can_end: bool,
    pub can_leave: bool,
}

/// What the user can do about a watch party: start one, end it, leave it.
pub open spec fn party_choices(lobby: LobbyView) -> (bool, bool, bool) {
    (
        !lobby.active(),
        lobby.active() && lobby.role == LobbyRole::Host,
        lobby.active() && lobby.role != LobbyRole::Host,
    )
}

/// What the window and the tray show of the watch party.
pub fn watch_party_menu(lobby: &LobbyState, app_name: &str) -> (menu: WatchPartyMenu)
    ensures
        menu.title@ == if lobby@.active() {
            app_name@ + " - "@ + party_line(lobby@)
        } else {
            app_name@
        },
        menu.tip@ == if lobby@.active() {
            "Stremio - Watch party "@ + counts_text(lobby@.member_count, lobby@.max_size)
        } else {
            "Stremio"@
        },
        menu.can_start == !lobby@.active(),
        menu.can_end == (lobby@.active() && lobby@.role == LobbyRole::Host),
        menu.can_leave == (lobby@.active() && lobby@.role != LobbyRole::Host),
        (menu.can_start, menu.can_end, menu.can_leave) == party_choices(lobby@),
{
    if lobby.party_id.as_str().is_empty() || lobby.member_count <= 0 {
        WatchPartyMenu {
            title: app_name.to_string(),
            tip: "Stremio".to_string(),
            can_start: true,
            can_end: false,
            can_leave: false,
        }
    } else {
        let mut title = app_name.to_string();
        title.append(" - ");
        title.append(party_text(lobby).as_str());
        let mut tip = "Stremio - Watch party ".to_string();
        append_counts(&mut tip, lobby.member_count, lobby.max_size);
        WatchPartyMenu {
            title,
            tip,
            can_start: false,
            can_end: lobby.role == LobbyRole::Host,
            can_leave: lobby.role != LobbyRole::Host,
        }
    }
}

/// A member as the overlay lists it.
pub struct OverlayMember {
    pub steam_id: String,
    pub name: String,
    pub is_host: bool,
}

/// The entry of a member in the overlay.
pub open spec fn lists_member(entry: OverlayMember, m: MemberView) -> bool {
    &&& entry.steam_id@ == decimal(m.steam_id as nat)
    &&& entry.name@ == m.name
    &&& entry.is_host == m.is_host
}

/// The state that the overlay shows.
pub struct WatchPartyOverlay {
    pub active: bool,
    pub visible: bool,
    pub badge: String,
    pub can_leave: bool,
    pub can_kick: bool,
    pub members: Vec<OverlayMember>,
    /// The title of the event, where there is one.
    pub event_title: Option<String>,
    /// The text of the event, where there is one.
    pub event_text: Option<String>,
}

/// A text that may be missing is kept as it is.
pub open spec fn keeps(copy: Option<String>, text: Option<&str>) -> bool {
    match text {
        Some(t) => copy is Some && copy->0@ == t@,
        None => copy is None,
    }
}

fn keep(text: Option<&str>) -> (copy: Option<String>)
    ensures
        keeps(copy, text),
{
    match text {
        Some(t) => Some(t.to_string()),
        None => None,
    }
}

/// What the overlay shows of the watch party and of an event in it.
pub fn watch_party_overlay(
    lobby: &LobbyState,
    event_title: Option<&str>,
    event_text: Option<&str>,
) -> (overlay: WatchPartyOverlay)
    ensures
        overlay.active == lobby@.active(),
        overlay.visible == (lobby@.active() || event_title is Some || event_text is Some),
        overlay.badge@ == if lobby@.active() {
            party_line(lobby@)
        } else if event_title is Some {
            event_title->0@
        } else {
            Seq::<char>::empty()
        },
        overlay.can_leave == (lobby@.active() && lobby@.role != LobbyRole::Host),
        overlay.can_kick == (lobby@.active() && lobby@.role == LobbyRole::Host),
        (!overlay.active, overlay.can_kick, overlay.can_leave) == party_choices(lobby@),
        overlay.members@.len() == lobby@.members.len(),
        forall|i: int|
            0 <= i < overlay.members@.len() ==> lists_member(
                #[trigger] overlay.members@[i],
                lobby@.members[i],
            ),
        keeps(overlay.event_title, event_title),
        keeps(overlay.event_text, event_text),
{
    let active = !lobby.party_id.as_str().is_empty() && lobby.member_count > 0;
    let badge = if active {
        party_text(lobby)
    } else {
        match event_title {
            Some(title) => title.to_string(),
            None => String::new(),
        }
    };
    let mut members: Vec<OverlayMember> = Vec::new();
    for i in 0..lobby.members.len()
        invariant
            members.len() == i,
            forall|j: int|
                0 <= j < i ==> lists_member(#[trigger] members@[j], lobby@.members[j]),
    {
        let m = &lobby.members[i];
        members.push(
            OverlayMember {
                steam_id: format_u64(m.steam_id),
                name: m.name.clone(),
                is_host: m.is_host,
            },
        );
    }
    WatchPartyOverlay {
        active,
        visible: active || event_title.is_some() || event_text.is_some(),
        badge,
        can_leave: active && lobby.role != LobbyRole::Host,
        can_kick: active && lobby.role == LobbyRole::Host,
        members,
        event_title: keep(event_title),
        event_text: keep(event_text),
    }
}

/// What to do when the user wants to end or leave the party.
#[derive(Debug, Clone, Copy, PartialEq, Eq, Structural)]
pub enum PartyExit {
    /// Leave the lobby.
    Leave,
    /// Tell the user that a host keeps the party open.
    HostStays,
    /// Only bring the menu up to date.
    Nothing,
}

/// What ending the party means for each part in it.
pub open spec fn ending_of(role: LobbyRole) -> PartyExit {
    if role == LobbyRole::Host {
        PartyExit::Leave
    } else {
        PartyExit::Nothing
    }
}

/// What leaving the party means for each part in it.
pub open spec fn leaving_of(role: LobbyRole) -> PartyExit {
    if role == LobbyRole::Host {
        PartyExit::HostStays
    } else {
        PartyExit::Leave
    }
}

/// Only a host can end a party.
pub fn end_watch_party(role: LobbyRole) -> (exit: PartyExit)
    ensures
        exit == if role == LobbyRole::Host {
            PartyExit::Leave
        } else {
            PartyExit::Nothing
        },
        exit == ending_of(role),
{
    if role == LobbyRole::Host {
        PartyExit::Leave
    } else {
        PartyExit::Nothing
    }
}

/// Anyone but the host can leave a party.
pub fn leave_watch_party(role: LobbyRole) -> (exit: PartyExit)
    ensures
        exit == if role == LobbyRole::Host {
            PartyExit::HostStays
        } else {
            PartyExit::Leave
        },
        exit == leaving_of(role),
{
    if role == LobbyRole::Host {
        PartyExit::HostStays
    } else {
        PartyExit::Leave
    }
}

// ---------------------------------------------------------------------------
// Laws
// ---------------------------------------------------------------------------

/// A lobby that was left has no presence, is not active, and keeps nothing of
/// the party but the largest size that was known.
pub proof fn cleared_lobby_is_absent(lobby: LobbyView)
    ensures
        presence_of(lobby.cleared()) is None,
        !lobby.cleared().active(),
        lobby.cleared().role == LobbyRole::Absent,
        lobby.cleared().members.len() == 0,
        lobby.cleared().cleared() == lobby.cleared(),
{
}

/// A presence names a party, counts at least one member, and has room for all
/// of them.
pub proof fn presence_has_room(lobby: LobbyView)
    ensures
        presence_of(lobby) matches Some(p) ==> {
            &&& p.party_id.len() > 0
            &&& 1 <= p.member_count <= p.max_size
        },
{
}

/// The maximum size of a lobby is positive once it was, whatever counts come.
pub proof fn lobby_size_stays_positive(lobby: LobbyView, member_count: i32, max_size: i32)
    requires
        lobby.max_size > 0,
    ensures
        lobby.counted(member_count, max_size).max_size > 0,
{
}

} // verus!
