//! The messages of a watch party and the join link that leads to one.

use crate::encoding::{base64_bytes, base64_text, decode_base64, encode_base64};
use crate::json::{json_string, quote_json};
use crate::number::{decimal, format_u64, Real};
use crate::text::{strip_prefix, trim, trimmed, without_prefix};
use vstd::prelude::*;
use vstd::string::StrSliceExecFns;
use vstd::utf8::encode_utf8;

verus! {

pub const STEAM_SYNC_APP_ID: u32 = 480;

pub const STEAM_SYNC_PROTOCOL_VERSION: u16 = 1;

pub const STEAM_SYNC_CHANNEL: u32 = 4800;

pub const STEAM_JOIN_PREFIX: &'static str = "stremio://sync/steam/v1/";

// ---------------------------------------------------------------------------
// Messages
// ---------------------------------------------------------------------------

/// Someone in a watch party.
#[derive(Debug)]
pub struct LobbyMember {
    pub steam_id: u64,
    pub name: String,
    pub is_host: bool,
}

/// A member, with the name as text.
#[verifier::ext_equal]
pub struct MemberView {
    pub steam_id: u64,
    pub name: Seq<char>,
    pub is_host: bool,
}

impl View for LobbyMember {
    type V = MemberView;

    open spec fn view(&self) -> MemberView {
        MemberView { steam_id: self.steam_id, name: self.name@, is_host: self.is_host }
    }
}

impl Clone for LobbyMember {
    fn clone(&self) -> (copy: LobbyMember)
        ensures
            copy@ == self@,
    {
        LobbyMember { steam_id: self.steam_id, name: self.name.clone(), is_host: self.is_host }
    }
}

/// The members in a list.
pub open spec fn member_views(members: Seq<LobbyMember>) -> Seq<MemberView> {
    members.map_values(|m: LobbyMember| m@)
}

/// Copies a list of members.
pub fn copy_members(members: &Vec<LobbyMember>) -> (copy: Vec<LobbyMember>)
    ensures
        member_views(copy@) == member_views(members@),
{
    let mut copy: Vec<LobbyMember> = Vec::new();
    for i in 0..members.len()
        invariant
            copy.len() == i,
            forall|j: int| 0 <= j < i ==> (#[trigger] copy@[j])@ == members@[j]@,
    {
        copy.push(members[i].clone());
    }
    assert(member_views(copy@) =~= member_views(members@));
    copy
}

/// What a host tells its guests.
#[derive(Debug)]
pub enum HostMsg {
    State { stream_url: String, web_url: String, time_pos: Real, duration: Real, paused: bool },
    Play { time_pos: Real },
    Pause { time_pos: Real },
    Seek { time_pos: Real },
    Load { stream_url: String, web_url: String },
    LobbyInfo { member_count: i32, max_size: i32, members: Vec<LobbyMember> },
    LobbyClosed { reason: String },
}

/// What a host message says.
#[verifier::ext_equal]
pub enum HostView {
    State {
        stream_url: Seq<char>,
        web_url: Seq<char>,
        time_pos: Real,
        duration: Real,
        paused: bool,
    },
    Play { time_pos: Real },
    Pause { time_pos: Real },
    Seek { time_pos: Real },
    Load { stream_url: Seq<char>, web_url: Seq<char> },
    LobbyInfo { member_count: i32, max_size: i32, members: Seq<MemberView> },
    LobbyClosed { reason: Seq<char> },
}

impl View for HostMsg {
    type V = HostView;

    open spec fn view(&self) -> HostView {
        match *self {
            HostMsg::State { stream_url, web_url, time_pos, duration, paused } => HostView::State {
                stream_url: stream_url@,
                web_url: web_url@,
                time_pos,
                duration,
                paused,
            },
            HostMsg::Play { time_pos } => HostView::Play { time_pos },
            HostMsg::Pause { time_pos } => HostView::Pause { time_pos },
            HostMsg::Seek { time_pos } => HostView::Seek { time_pos },
            HostMsg::Load { stream_url, web_url } => HostView::Load {
                stream_url: stream_url@,
                web_url: web_url@,
            },
            HostMsg::LobbyInfo { member_count, max_size, members } => HostView::LobbyInfo {
                member_count,
                max_size,
                members: member_views(members@),
            },
            HostMsg::LobbyClosed { reason } => HostView::LobbyClosed { reason: reason@ },
        }
    }
}

impl Clone for HostMsg {
    fn clone(&self) -> (copy: HostMsg)
        ensures
            copy@ == self@,
    {
        match self {
            HostMsg::State { stream_url, web_url, time_pos, duration, paused } => HostMsg::State {
                stream_url: stream_url.clone(),
                web_url: web_url.clone(),
                time_pos: *time_pos,
                duration: *duration,
                paused: *paused,
            },
            HostMsg::Play { time_pos } => HostMsg::Play { time_pos: *time_pos },
            HostMsg::Pause { time_pos } => HostMsg::Pause { time_pos: *time_pos },
            HostMsg::Seek { time_pos } => HostMsg::Seek { time_pos: *time_pos },
            HostMsg::Load { stream_url, web_url } => HostMsg::Load {
                stream_url: stream_url.clone(),
                web_url: web_url.clone(),
            },
            HostMsg::LobbyInfo { member_count, max_size, members } => HostMsg::LobbyInfo {
                member_count: *member_count,
                max_size: *max_size,
                members: copy_members(members),
            },
            HostMsg::LobbyClosed { reason } => HostMsg::LobbyClosed { reason: reason.clone() },
        }
    }
}

/// What a guest tells the host.
#[derive(Debug)]
pub enum GuestMsg {
    Hello { protocol_version: u16, token: String, name: String },
    RequestState,
    Leave,
}

/// What a guest message says.
#[verifier::ext_equal]
pub enum GuestView {
    Hello { protocol_version: u16, token: Seq<char>, name: Seq<char> },
    RequestState,
    Leave,
}

impl View for GuestMsg {
    type V = GuestView;

    open spec fn view(&self) -> GuestView {
        match *self {
            GuestMsg::Hello { protocol_version, token, name } => GuestView::Hello {
                protocol_version,
                token: token@,
                name: name@,
            },
            GuestMsg::RequestState => GuestView::RequestState,
            GuestMsg::Leave => GuestView::Leave,
        }
    }
}

/// A message as it travels between two members.
#[derive(Debug)]
pub enum SteamSyncWireMsg {
    Host(HostMsg),
    Guest(GuestMsg),
    Error { message: String },
}

/// What a travelling message says.
#[verifier::ext_equal]
pub enum WireView {
    Host(HostView),
    Guest(GuestView),
    Error { message: Seq<char> },
}

impl View for SteamSyncWireMsg {
    type V = WireView;

    open spec fn view(&self) -> WireView {
        match *self {
            SteamSyncWireMsg::Host(m) => WireView::Host(m@),
            SteamSyncWireMsg::Guest(m) => WireView::Guest(m@),
            SteamSyncWireMsg::Error { message } => WireView::Error { message: message@ },
        }
    }
}

// ---------------------------------------------------------------------------
// The join link
// ---------------------------------------------------------------------------

/// What a guest needs to join a watch party.
#[derive(Debug)]
pub struct SteamJoinSecret {
    pub app_id: u32,
    pub lobby_id: u64,
    pub host_steam_id: u64,
    pub party_id: String,
    pub token: String,
}

/// A join secret, with its texts.
#[verifier::ext_equal]
pub struct SecretView {
    pub app_id: u32,
    pub lobby_id: u64,
    pub host_steam_id: u64,
    pub party_id: Seq<char>,
    pub token: Seq<char>,
}

impl View for SteamJoinSecret {
    type V = SecretView;

    open spec fn view(&self) -> SecretView {
        SecretView {
            app_id: self.app_id,
            lobby_id: self.lobby_id,
            host_steam_id: self.host_steam_id,
            party_id: self.party_id@,
            token: self.token@,
        }
    }
}

impl Clone for SteamJoinSecret {
    fn clone(&self) -> (copy: SteamJoinSecret)
        ensures
            copy@ == self@,
    {
        SteamJoinSecret {
            app_id: self.app_id,
            lobby_id: self.lobby_id,
            host_steam_id: self.host_steam_id,
            party_id: self.party_id.clone(),
            token: self.token.clone(),
        }
    }
}

/// The JSON text of a join secret.
pub open spec fn secret_json(s: SecretView) -> Seq<char> {
    "{\"app_id\":"@ + decimal(s.app_id as nat) + ",\"lobby_id\":"@ + decimal(s.lobby_id as nat)
        + ",\"host_steam_id\":"@ + decimal(s.host_steam_id as nat) + ",\"party_id\":"@
        + json_string(s.party_id) + ",\"token\":"@ + json_string(s.token) + "}"@
}

/// What is wrong with a join secret, if anything is: the first fault in the
/// order of the fields.
pub open spec fn secret_fault(s: SecretView) -> Option<Seq<char>> {
    if s.app_id != STEAM_SYNC_APP_ID {
        Some("unsupported Steam app id "@ + decimal(s.app_id as nat) + "; expected 480"@)
    } else if s.lobby_id == 0 {
        Some("Steam lobby id is missing"@)
    } else if s.host_steam_id == 0 {
        Some("host Steam id is missing"@)
    } else if trimmed(s.party_id).len() == 0 {
        Some("party id is missing"@)
    } else if trimmed(s.token).len() == 0 {
        Some("join token is missing"@)
    } else {
        None
    }
}

/// The bytes that a join link carries, or why it carries none.
pub open spec fn link_payload(link: Seq<char>) -> Result<Seq<u8>, Seq<char>> {
    match without_prefix(link, STEAM_JOIN_PREFIX@) {
        None => Err("not a Steam sync join URL"@),
        Some(payload) => match base64_bytes(payload) {
            Err(e) => Err("invalid Steam sync join payload: "@ + e),
            Ok(bytes) => Ok(bytes),
        },
    }
}

/// What a reader of join links makes of the parsed payload: the secret, where
/// there is one without a fault.
pub open spec fn accepted_secret(parsed: Result<SecretView, Seq<char>>) -> Result<
    SecretView,
    Seq<char>,
> {
    match parsed {
        Err(e) => Err("invalid Steam sync join JSON: "@ + e),
        Ok(s) => match secret_fault(s) {
            Some(fault) => Err(fault),
            None => Ok(s),
        },
    }
}

/// A parse result by its texts.
pub open spec fn parsed_view(r: Result<SteamJoinSecret, String>) -> Result<SecretView, Seq<char>> {
    match r {
        Ok(s) => Ok(s@),
        Err(e) => Err(e@),
    }
}

/// The JSON text of a join secret.
fn secret_to_json(secret: &SteamJoinSecret) -> (json: String)
    ensures
        json@ == secret_json(secret@),
{
    let mut json = "{\"app_id\":".to_string();
    json.append(format_u64(secret.app_id as u64).as_str());
    json.append(",\"lobby_id\":");
    json.append(format_u64(secret.lobby_id).as_str());
    json.append(",\"host_steam_id\":");
    json.append(format_u64(secret.host_steam_id).as_str());
    json.append(",\"party_id\":");
    json.append(quote_json(secret.party_id.as_str()).as_str());
    json.append(",\"token\":");
    json.append(quote_json(secret.token.as_str()).as_str());
    json.append("}");
    json
}

/// The join link of a secret. Reading the link gives the secret's JSON text
/// back.
pub fn encode_steam_join_secret(secret: &SteamJoinSecret) -> (link: Result<String, String>)
    ensures
        link is Ok,
        link->Ok_0@ == STEAM_JOIN_PREFIX@ + base64_text(encode_utf8(secret_json(secret@))),
        link_payload(link->Ok_0@) == Ok::<Seq<u8>, Seq<char>>(encode_utf8(secret_json(secret@))),
{
    let json = secret_to_json(secret);
    let bytes = json.as_str().as_bytes_vec();
    let payload = encode_base64(&bytes);
    let mut link = STEAM_JOIN_PREFIX.to_string();
    link.append(payload.as_str());
    proof {
        let n = STEAM_JOIN_PREFIX@.len() as int;
        assert(link@.subrange(0, n) =~= STEAM_JOIN_PREFIX@);
        assert(link@.skip(n) =~= payload@);
        assert(link@.subrange(n, link@.len() as int) =~= payload@);
    }
    Ok(link)
}

/// Reads a join link: its payload is handed to `parse`, and what comes back is
/// accepted where it has no fault.
pub fn decode_steam_join_secret<F>(join_url: &str, parse: F) -> (secret: Result<
    SteamJoinSecret,
    String,
>) where F: Fn(&Vec<u8>) -> Result<SteamJoinSecret, String>
    requires
        forall|bytes: &Vec<u8>| #[trigger] call_requires(parse, (bytes,)),
    ensures
        link_payload(join_url@) matches Err(e) ==> secret is Err && secret->Err_0@ == e,
        link_payload(join_url@) matches Ok(b) ==> exists|
            bytes: &Vec<u8>,
            parsed: Result<SteamJoinSecret, String>,
        |
            bytes@ == b && #[trigger] call_ensures(parse, (bytes,), parsed) && parsed_view(secret)
                == accepted_secret(parsed_view(parsed)),
{
    let payload = match strip_prefix(join_url, STEAM_JOIN_PREFIX) {
        Some(payload) => payload,
        None => return Err("not a Steam sync join URL".to_string()),
    };
    let bytes = match decode_base64(payload.as_str()) {
        Ok(bytes) => bytes,
        Err(e) => {
            let mut message = "invalid Steam sync join payload: ".to_string();
            message.append(e.as_str());
            return Err(message);
        },
    };
    let parsed = parse(&bytes);
    assert(call_ensures(parse, (&bytes,), parsed));
    accept_secret(parsed)
}

/// What a reader of join links makes of a parsed payload.
pub fn accept_secret(parsed: Result<SteamJoinSecret, String>) -> (secret: Result<
    SteamJoinSecret,
    String,
>)
    ensures
        parsed_view(secret) == accepted_secret(parsed_view(parsed)),
{
    match parsed {
        Err(e) => {
            let mut message = "invalid Steam sync join JSON: ".to_string();
            message.append(e.as_str());
            Err(message)
        },
        Ok(secret) => match validate_steam_join_secret(&secret) {
            Ok(()) => Ok(secret),
            Err(e) => Err(e),
        },
    }
}

/// Checks a join secret. It names the first fault.
pub fn validate_steam_join_secret(secret: &SteamJoinSecret) -> (valid: Result<(), String>)
    ensures
        valid is Ok <==> secret_fault(secret@) is None,
        valid is Err ==> secret_fault(secret@) == Some(valid->Err_0@),
{
    if secret.app_id != STEAM_SYNC_APP_ID {
        let mut message = "unsupported Steam app id ".to_string();
        message.append(format_u64(secret.app_id as u64).as_str());
        message.append("; expected 480");
        return Err(message);
    }
    if secret.lobby_id == 0 {
        return Err("Steam lobby id is missing".to_string());
    }
    if secret.host_steam_id == 0 {
        return Err("host Steam id is missing".to_string());
    }
    if is_blank(secret.party_id.as_str()) {
        return Err("party id is missing".to_string());
    }
    if is_blank(secret.token.as_str()) {
        return Err("join token is missing".to_string());
    }
    Ok(())
}

/// Whether a text holds nothing but white space.
pub fn is_blank(s: &str) -> (blank: bool)
    ensures
        blank == (trimmed(s@).len() == 0),
{
    trim(s).as_str().is_empty()
}

// ---------------------------------------------------------------------------
// Laws
// ---------------------------------------------------------------------------

/// A join link leads back to its secret: where the link carries the secret's
/// JSON text and the parser reads that text as the secret, the reader accepts
/// it exactly if the secret has no fault.
pub proof fn join_link_round_trips(
    secret: SecretView,
    link: Seq<char>,
    parse: spec_fn(Seq<u8>) -> Result<SecretView, Seq<char>>,
)
    requires
        link_payload(link) == Ok::<Seq<u8>, Seq<char>>(encode_utf8(secret_json(secret))),
        parse(encode_utf8(secret_json(secret))) == Ok::<SecretView, Seq<char>>(secret),
    ensures
        secret_fault(secret) is None <==> accepted_secret(parse(link_payload(link)->Ok_0)) == Ok::<
            SecretView,
            Seq<char>,
        >(secret),
        secret_fault(secret) matches Some(fault) ==> accepted_secret(
            parse(link_payload(link)->Ok_0),
        ) == Err::<SecretView, Seq<char>>(fault),
{
}

/// A secret passes exactly if it is meant for this application, names a lobby
/// and a host, and neither its party nor its token is blank.
pub proof fn valid_secret_means(s: SecretView)
    ensures
        secret_fault(s) is None <==> {
            &&& s.app_id == STEAM_SYNC_APP_ID
            &&& s.lobby_id != 0
            &&& s.host_steam_id != 0
            &&& trimmed(s.party_id).len() > 0
            &&& trimmed(s.token).len() > 0
        },
{
}

/// Every join link is the link of a watch party.
pub proof fn join_links_are_party_links()
    ensures
        STEAM_JOIN_PREFIX@.len() >= "stremio://sync/"@.len(),
        STEAM_JOIN_PREFIX@.take("stremio://sync/"@.len() as int) == "stremio://sync/"@,
{
    reveal_strlit("stremio://sync/");
    reveal_strlit("stremio://sync/steam/v1/");
    assert(STEAM_JOIN_PREFIX@.take(15) =~= "stremio://sync/"@);
}

} // verus!
