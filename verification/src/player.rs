//! The player's controller: what it asks of the player, and when. Each step
//! changes the controller and appends to its outbox what is to be done. Whether
//! the player took a request on is reported back.

use crate::json::{Json, JsonView};
use crate::number::{format_u64, decimal, real_zero, Real, THIRTY_BITS};
use crate::playback::{
    is_cached_immediate_property, is_immediate, normalize_property_value_for_web,
    normalized, nothing_played, prop_json, prop_val_to_json, property_data_to_json, reply_json,
    DataView, Format,
    Playback, PlaybackView, PropVal, PropView, PropertyData,
};
use crate::player_rules::{
    cache_busted_loadfile_cmd, cache_busted_url_at, fresh_load, fresh_url, file_scoped, gpu_outputs,
    is_file_scoped_property, is_local_stream_url,
    is_persistent_render_property, is_stop_command, is_unchanged_persistent_render_property,
    loadfile_url, local_stream, must_wait, prop_views, render_property, replace_command, replacing,
    sanitize_loadfile_start, sanitized, sanitized_start, should_defer_property,
    should_retry_startup_failure_event, unchanged_render, with_gpu_next_fallback, CmdVal, CmdView,
    LoadState, StartHint,
};
use crate::text::{contains, has_text, same_text, texts};
use vstd::hash_map::StringHashMap;
use vstd::hash_set::StringHashSet;
use vstd::prelude::*;

verus! {

/// A load without a first sign of life is given up after this many
/// nanoseconds.
pub const LOADFILE_START_TIMEOUT: u64 = 20_000_000_000;

/// A load that the player does not answer is sent anew after this many.
pub const MPV_COMMAND_REPLY_TIMEOUT: u64 = 8_000_000_000;

/// A stop that does not end is given up after this many.
pub const STOP_TIMEOUT: u64 = 2_000_000_000;

pub const LOCAL_STREAM_STARTUP_RETRY_LIMIT: u32 = 60;

pub const LOCAL_STREAM_STARTUP_RETRY_DELAY: u64 = 5_000_000_000;

pub const MPV_COMMAND_QUEUE_RECOVERY_LIMIT: u32 = 3;

pub const PREMATURE_EOF_RELOAD_LIMIT: u32 = 1;

pub const DISPLAY_REFRESH_INTERVAL: u64 = 500_000_000;

pub const SURFACE_ORDER_REFRESH_INTERVAL: u64 = 250_000_000;

/// The time: of a clock that never goes back, in nanoseconds, and of the
/// calendar, in milliseconds.
#[derive(Debug, Clone, Copy)]
pub struct Clock {
    pub now: u64,
    pub unix_millis: u128,
}

// ---------------------------------------------------------------------------
// Actions
// ---------------------------------------------------------------------------

/// What a command is for.
#[derive(Debug, Clone, Copy, PartialEq, Eq, Structural)]
pub enum Purpose {
    Load,
    Stop,
    RemoveFilter,
    AddFilter,
    Other,
}

/// Why a file ended.
#[derive(Debug, Clone, Copy, PartialEq, Eq, Structural)]
pub enum EndReason {
    Eof,
    Stop,
    Quit,
    Error,
    Redirect,
    /// Something that the player has no name for.
    Other,
}

/// Something that the controller wants done.
#[derive(Debug)]
pub enum PlayerAction {
    Observe { name: String, format: Format },
    Read { request_id: u64, name: String, format: Format },
    /// Set a property, and report whether the player took it on.
    SetProperty {
        request_id: u64,
        name: String,
        value: PropVal,
        /// Whether the web interface is to be told.
        notify: bool,
        /// Whether a render property is to be remembered.
        remember: bool,
        /// Whether the display is to be looked at anew.
        refresh: bool,
    },
    /// Set a property, whatever comes of it.
    SetPlain { request_id: u64, name: String, text: String },
    /// Send a command, and report whether the player took it on.
    Command { request_id: u64, cmd: CmdVal, purpose: Purpose },
    /// Send a command to go to a position.
    Seek { request_id: u64, position: Real },
    Abort { request_id: u64 },
    /// Tell the web interface a property's value.
    Emit { name: String, data: Json },
    /// Tell the web interface that the file ended.
    Ended(EndReason),
    SaveVolume(Real),
}

#[verifier::ext_equal]
pub enum PlayerActionView {
    Observe { name: Seq<char>, format: Format },
    Read { request_id: u64, name: Seq<char>, format: Format },
    SetProperty {
        request_id: u64,
        name: Seq<char>,
        value: PropView,
        notify: bool,
        remember: bool,
        refresh: bool,
    },
    SetPlain { request_id: u64, name: Seq<char>, text: Seq<char> },
    Command { request_id: u64, cmd: CmdView, purpose: Purpose },
    Seek { request_id: u64, position: Real },
    Abort { request_id: u64 },
    Emit { name: Seq<char>, data: JsonView },
    Ended(EndReason),
    SaveVolume(Real),
}

impl View for PlayerAction {
    type V = PlayerActionView;

    open spec fn view(&self) -> PlayerActionView {
        match *self {
            PlayerAction::Observe { name, format } => PlayerActionView::Observe {
                name: name@,
                format,
            },
            PlayerAction::Read { request_id, name, format } => PlayerActionView::Read {
                request_id,
                name: name@,
                format,
            },
            PlayerAction::SetProperty { request_id, name, value, notify, remember, refresh } => {
                PlayerActionView::SetProperty {
                    request_id,
                    name: name@,
                    value: value@,
                    notify,
                    remember,
                    refresh,
                }
            },
            PlayerAction::SetPlain { request_id, name, text } => PlayerActionView::SetPlain {
                request_id,
                name: name@,
                text: text@,
            },
            PlayerAction::Command { request_id, cmd, purpose } => PlayerActionView::Command {
                request_id,
                cmd: cmd@,
                purpose,
            },
            PlayerAction::Seek { request_id, position } => PlayerActionView::Seek {
                request_id,
                position,
            },
            PlayerAction::Abort { request_id } => PlayerActionView::Abort { request_id },
            PlayerAction::Emit { name, data } => PlayerActionView::Emit { name: name@, data: data@ },
            PlayerAction::Ended(reason) => PlayerActionView::Ended(reason),
            PlayerAction::SaveVolume(volume) => PlayerActionView::SaveVolume(volume),
        }
    }
}

pub open spec fn player_action_views(actions: Seq<PlayerAction>) -> Seq<PlayerActionView> {
    actions.map_values(|a: PlayerAction| a@)
}

// ---------------------------------------------------------------------------
// State
// ---------------------------------------------------------------------------

/// How the display shows colours.
#[derive(Debug, Clone, Copy, PartialEq, Eq, Structural)]
pub enum DisplayOutputMode {
    Hdr,
    Sdr,
    Auto,
}

#[derive(Debug, Clone, Copy, PartialEq, Eq, Structural)]
pub struct DisplayOutputState {
    pub mode: DisplayOutputMode,
    pub scale_percent: u32,
}

/// A load command that waits, with where it says to start.
#[derive(Debug)]
pub struct PendingLoadfile {
    pub cmd: CmdVal,
    pub start: Option<Real>,
}

#[verifier::ext_equal]
pub struct PendingView {
    pub cmd: CmdView,
    pub start: Option<Real>,
}

impl View for PendingLoadfile {
    type V = PendingView;

    open spec fn view(&self) -> PendingView {
        PendingView { cmd: self.cmd@, start: self.start }
    }
}

/// A load command that was sent and has not loaded its file yet.
#[derive(Debug)]
pub struct ActiveLoadfile {
    pub cmd: CmdVal,
    pub url: String,
    pub command_request_id: u64,
    pub queued_at: u64,
    pub command_replied: bool,
    pub start_file_seen: bool,
    pub requested_start: Option<Real>,
}

#[verifier::ext_equal]
pub struct ActiveView {
    pub cmd: CmdView,
    pub url: Seq<char>,
    pub request_id: u64,
    pub queued_at: u64,
    pub replied: bool,
    pub started: bool,
    pub start: Option<Real>,
}

impl View for ActiveLoadfile {
    type V = ActiveView;

    open spec fn view(&self) -> ActiveView {
        ActiveView {
            cmd: self.cmd@,
            url: self.url@,
            request_id: self.command_request_id,
            queued_at: self.queued_at,
            replied: self.command_replied,
            started: self.start_file_seen,
            start: self.requested_start,
        }
    }
}

/// Another attempt to load a local stream, at a later time.
#[derive(Debug)]
pub struct ScheduledStartupRetry {
    pub scheduled_at: u64,
    pub expected_url: String,
    pub retry_url: String,
    pub attempt: u32,
    pub resume_position: Option<Real>,
}

#[verifier::ext_equal]
pub struct RetryView {
    pub scheduled_at: u64,
    pub expected_url: Seq<char>,
    pub retry_url: Seq<char>,
    pub attempt: u32,
    pub resume: Option<Real>,
}

impl View for ScheduledStartupRetry {
    type V = RetryView;

    open spec fn view(&self) -> RetryView {
        RetryView {
            scheduled_at: self.scheduled_at,
            expected_url: self.expected_url@,
            retry_url: self.retry_url@,
            attempt: self.attempt,
            resume: self.resume_position,
        }
    }
}

/// A view in an option.
pub open spec fn pending_in(p: Option<PendingLoadfile>) -> Option<PendingView> {
    match p {
        Some(p) => Some(p@),
        None => None,
    }
}

pub open spec fn active_in(a: Option<ActiveLoadfile>) -> Option<ActiveView> {
    match a {
        Some(a) => Some(a@),
        None => None,
    }
}

pub open spec fn retry_in(r: Option<ScheduledStartupRetry>) -> Option<RetryView> {
    match r {
        Some(r) => Some(r@),
        None => None,
    }
}

/// The properties that wait, by their texts.
pub open spec fn waiting_views(props: Seq<(String, PropVal)>) -> Seq<(Seq<char>, PropView)> {
    props.map_values(|p: (String, PropVal)| (p.0@, p.1@))
}

/// The player's controller.
pub struct PlayerController {
    pub observed_properties: StringHashSet,
    pub state: LoadState,
    pub current_url: String,
    pub pending_loadfile: Option<PendingLoadfile>,
    pub active_loadfile: Option<ActiveLoadfile>,
    pub pending_startup_props: Vec<(String, PropVal)>,
    pub pending_startup_retry: Option<ScheduledStartupRetry>,
    pub pending_reload_url: Option<String>,
    pub pending_reload_seek: Option<Real>,
    pub startup_retry_attempts: u32,
    pub command_queue_recoveries: u32,
    pub premature_eof_reloads: u32,
    pub stop_started_at: Option<u64>,
    pub stop_command_request_id: Option<u64>,
    pub persistent_render_properties: StringHashMap<PropVal>,
    pub gpu_video_processing: bool,
    pub managed_gpu_filter_applied: bool,
    pub last_display_output: Option<(DisplayOutputState, bool)>,
    pub last_display_refresh: Option<u64>,
    pub last_surface_order_refresh: Option<u64>,
    pub next_request_id: u64,
    pub playback: Playback,
    pub outbox: Vec<PlayerAction>,
}

#[verifier::ext_equal]
pub struct PlayerView {
    pub observed: Set<Seq<char>>,
    pub state: LoadState,
    pub current_url: Seq<char>,
    pub pending: Option<PendingView>,
    pub active: Option<ActiveView>,
    pub waiting: Seq<(Seq<char>, PropView)>,
    pub retry: Option<RetryView>,
    pub reload_url: Option<Seq<char>>,
    pub reload_seek: Option<Real>,
    pub retries: u32,
    pub recoveries: u32,
    pub eof_reloads: u32,
    pub stop_started: Option<u64>,
    pub stop_request: Option<u64>,
    pub render: Map<Seq<char>, PropView>,
    pub gpu: bool,
    pub filter: bool,
    pub display: Option<(DisplayOutputState, bool)>,
    pub display_refresh: Option<u64>,
    pub surface_refresh: Option<u64>,
    pub next_id: u64,
    pub playback: PlaybackView,
    pub outbox: Seq<PlayerActionView>,
}

impl View for PlayerController {
    type V = PlayerView;

    open spec fn view(&self) -> PlayerView {
        PlayerView {
            observed: self.observed_properties@,
            state: self.state,
            current_url: self.current_url@,
            pending: pending_in(self.pending_loadfile),
            active: active_in(self.active_loadfile),
            waiting: waiting_views(self.pending_startup_props@),
            retry: retry_in(self.pending_startup_retry),
            reload_url: crate::playback::text_in(self.pending_reload_url),
            reload_seek: self.pending_reload_seek,
            retries: self.startup_retry_attempts,
            recoveries: self.command_queue_recoveries,
            eof_reloads: self.premature_eof_reloads,
            stop_started: self.stop_started_at,
            stop_request: self.stop_command_request_id,
            render: prop_views(self.persistent_render_properties@),
            gpu: self.gpu_video_processing,
            filter: self.managed_gpu_filter_applied,
            display: self.last_display_output,
            display_refresh: self.last_display_refresh,
            surface_refresh: self.last_surface_order_refresh,
            next_id: self.next_request_id,
            playback: self.playback@,
            outbox: player_action_views(self.outbox@),
        }
    }
}

/// The number of the request after this one.
pub open spec fn following(id: u64) -> u64 {
    if id == u64::MAX {
        0
    } else {
        (id + 1) as u64
    }
}

/// At least `wait` nanoseconds have passed since `since`.
pub open spec fn passed(since: u64, now: u64, wait: u64) -> bool {
    now >= since && now - since >= wait
}

pub fn has_passed(since: u64, now: u64, wait: u64) -> (yes: bool)
    ensures
        yes == passed(since, now, wait),
{
    now >= since && now - since >= wait
}

/// The place of a property among those that wait, or their number.
pub open spec fn place_of(waiting: Seq<(Seq<char>, PropView)>, name: Seq<char>) -> int
    decreases waiting.len(),
{
    if waiting.len() == 0 {
        0
    } else {
        let before = place_of(waiting.drop_last(), name);
        if before < waiting.len() - 1 || waiting.last().0 == name {
            before
        } else {
            waiting.len() as int
        }
    }
}

/// The properties that wait, with one more or a later value of one.
pub open spec fn queued(
    waiting: Seq<(Seq<char>, PropView)>,
    name: Seq<char>,
    value: PropView,
) -> Seq<(Seq<char>, PropView)> {
    let place = place_of(waiting, name);
    if place < waiting.len() {
        waiting.update(place, (waiting[place].0, value))
    } else {
        waiting.push((name, value))
    }
}

impl PlayerView {
    pub open spec fn doing(self, action: PlayerActionView) -> PlayerView {
        PlayerView { outbox: self.outbox.push(action), ..self }
    }

    pub open spec fn numbered(self) -> PlayerView {
        PlayerView { next_id: following(self.next_id), ..self }
    }

    /// After a command was sent.
    pub open spec fn commanding(self, cmd: CmdView, purpose: Purpose) -> PlayerView {
        self.doing(
            PlayerActionView::Command { request_id: self.next_id, cmd, purpose },
        ).numbered()
    }

    /// After a property's value was asked for.
    pub open spec fn reading(self, name: Seq<char>, format: Format) -> PlayerView {
        self.doing(
            PlayerActionView::Read { request_id: self.next_id, name, format },
        ).numbered()
    }

    /// After the player was asked to set a property.
    pub open spec fn setting(
        self,
        name: Seq<char>,
        value: PropView,
        notify: bool,
        remember: bool,
        refresh: bool,
    ) -> PlayerView {
        self.doing(
            PlayerActionView::SetProperty {
                request_id: self.next_id,
                name,
                value,
                notify,
                remember,
                refresh,
            },
        ).numbered()
    }

    pub open spec fn setting_plain(self, name: Seq<char>, value: Seq<char>) -> PlayerView {
        self.doing(
            PlayerActionView::SetPlain { request_id: self.next_id, name, text: value },
        ).numbered()
    }

    /// After the web interface was told a property's value.
    pub open spec fn telling(self, name: Seq<char>, value: JsonView) -> PlayerView {
        PlayerView { playback: self.playback.caching(name, value), ..self }.doing(
            PlayerActionView::Emit { name, data: value },
        )
    }

    /// The display is to be looked at anew.
    pub open spec fn unseen(self) -> PlayerView {
        PlayerView { display: None, display_refresh: None, ..self }
    }

    /// Whether a file is loaded and whether a stop is under way.
    pub open spec fn flagged(self, loaded: bool, stopping: bool) -> PlayerView {
        PlayerView {
            playback: PlaybackView { file_loaded: loaded, stopping, ..self.playback },
            ..self
        }
    }

    pub open spec fn at_url(self, url: Seq<char>) -> PlayerView {
        PlayerView {
            current_url: url,
            playback: PlaybackView { stream_url: url, ..self.playback },
            ..self
        }
    }

    /// After the active load, if any, was given up.
    pub open spec fn aborted(self) -> PlayerView {
        match self.active {
            Some(a) => PlayerView { active: None, ..self }.doing(
                PlayerActionView::Abort { request_id: a.request_id },
            ),
            None => self,
        }
    }

    /// After those of the given properties were set that need no file; the
    /// others wait on.
    pub open spec fn preset(self, props: Seq<(Seq<char>, PropView)>) -> PlayerView
        decreases props.len(),
    {
        if props.len() == 0 {
            PlayerView { waiting: Seq::empty(), ..self }
        } else {
            let before = self.preset(props.drop_last());
            let (name, value) = props.last();
            if file_scoped(name) {
                PlayerView { waiting: before.waiting.push((name, value)), ..before }
            } else {
                before.setting(name, value, false, true, false)
            }
        }
    }

    /// After the given properties were set for a loaded file.
    pub open spec fn file_set(self, props: Seq<(Seq<char>, PropView)>) -> PlayerView
        decreases props.len(),
    {
        if props.len() == 0 {
            PlayerView { waiting: Seq::empty(), ..self }
        } else {
            let (name, value) = props.last();
            self.file_set(props.drop_last()).setting(name, value, true, false, false)
        }
    }

    /// After a load command was sent.
    pub open spec fn loading(self, cmd: CmdView, start: Option<Real>, now: u64) -> PlayerView {
        let ready = self.aborted().preset(self.waiting);
        PlayerView {
            state: LoadState::Loading,
            stop_started: None,
            active: Some(
                ActiveView {
                    cmd,
                    url: if cmd.is_load() {
                        cmd.args[0]
                    } else {
                        Seq::empty()
                    },
                    request_id: ready.next_id,
                    queued_at: now,
                    replied: false,
                    started: false,
                    start,
                },
            ),
            ..ready.flagged(false, false).commanding(cmd, Purpose::Load)
        }
    }

    /// After the load command that waited, if any, was sent.
    pub open spec fn resumed(self, now: u64) -> PlayerView {
        match self.pending {
            Some(p) => PlayerView { pending: None, ..self }.loading(p.cmd, p.start, now),
            None => self,
        }
    }

    /// After a stop is over: what waited for it goes on.
    pub open spec fn released(self, now: u64) -> PlayerView {
        PlayerView {
            state: LoadState::Idle,
            stop_started: None,
            stop_request: None,
            ..self.flagged(false, false).preset(self.waiting)
        }.resumed(now)
    }

    /// After a command to stop.
    pub open spec fn stopped(self, cmd: CmdView, now: u64) -> PlayerView {
        let forgotten = PlayerView { playback: self.playback.without_file(), ..self };
        if self.state == LoadState::Stopping {
            self
        } else if self.state == LoadState::Idle {
            forgotten.aborted()
        } else if self.state == LoadState::Loading && self.active is Some
            && !self.active->0.started {
            PlayerView {
                state: LoadState::Idle,
                stop_started: None,
                stop_request: None,
                ..forgotten.aborted().flagged(false, false)
            }
        } else {
            let given_up = if self.state == LoadState::Loading {
                forgotten.aborted()
            } else {
                forgotten
            };
            PlayerView {
                state: LoadState::Stopping,
                stop_started: Some(now),
                stop_request: Some(given_up.next_id),
                ..given_up.flagged(false, true).commanding(cmd, Purpose::Stop)
            }
        }
    }

    /// After the address of a load command was noted.
    pub open spec fn captured(self, url: Seq<char>) -> PlayerView {
        let ready = if has_text(url, "_reload="@) {
            self
        } else {
            PlayerView {
                retries: 0,
                recoveries: 0,
                eof_reloads: 0,
                retry: None,
                reload_url: None,
                reload_seek: None,
                playback: PlaybackView {
                    time: real_zero(),
                    duration: real_zero(),
                    ..self.playback.without_file()
                },
                ..self
            }
        };
        ready.at_url(url)
    }

    /// After a command from the web interface.
    pub open spec fn commanded(self, cmd: CmdView, hint: StartHint, now: u64) -> PlayerView {
        let clean = sanitized(cmd, hint, self.playback.stream_url, self.playback.time);
        let start = sanitized_start(cmd, hint, self.playback.stream_url, self.playback.time);
        if clean.is_stop() {
            self.stopped(clean, now)
        } else if clean.is_load() {
            let ready = self.captured(clean.args[0]);
            if self.state == LoadState::Stopping {
                PlayerView { pending: Some(PendingView { cmd: clean, start }), ..ready }
            } else {
                ready.loading(clean, start, now)
            }
        } else {
            self.commanding(clean, Purpose::Other)
        }
    }

    /// After the web interface set a property.
    pub open spec fn set_asked(self, name: Seq<char>, value: PropView, refresh: bool) -> PlayerView {
        let noted = PlayerView { playback: self.playback.after_set(name, value), ..self };
        let json = normalized(name, prop_json(value));
        if unchanged_render(self.render, name, value) {
            noted.telling(name, json)
        } else if must_wait(self.state, name) {
            let waits = PlayerView {
                waiting: queued(self.waiting, name, value),
                ..noted.telling(name, json)
            };
            if refresh {
                waits.unseen()
            } else {
                waits
            }
        } else {
            noted.setting(name, value, true, true, refresh)
        }
    }

    /// After it became known whether the player set a property.
    pub open spec fn set_answered(
        self,
        name: Seq<char>,
        value: PropView,
        notify: bool,
        remember: bool,
        refresh: bool,
        accepted: bool,
    ) -> PlayerView {
        if !accepted {
            self
        } else {
            let json = normalized(name, prop_json(value));
            let noted = PlayerView {
                playback: self.playback.after_set(name, value).caching(name, json),
                render: if remember && render_property(name) {
                    self.render.insert(name, value)
                } else {
                    self.render
                },
                ..self
            };
            let told = if notify {
                noted.doing(PlayerActionView::Emit { name, data: json })
            } else {
                noted
            };
            if refresh {
                told.unseen()
            } else {
                told
            }
        }
    }

    /// After it became known whether the player took a command on.
    pub open spec fn submitted(self, id: u64, purpose: Purpose, accepted: bool) -> PlayerView {
        match purpose {
            Purpose::Load => if !accepted && self.active is Some && self.active->0.request_id
                == id {
                PlayerView { active: None, state: LoadState::Idle, ..self }
            } else {
                self
            },
            Purpose::Stop => if !accepted && self.stop_request == Some(id) {
                PlayerView { stop_request: None, ..self }
            } else {
                self
            },
            Purpose::RemoveFilter => PlayerView { filter: self.filter && !accepted, ..self },
            Purpose::AddFilter => PlayerView { filter: self.filter || accepted, ..self },
            Purpose::Other => self,
        }
    }

    /// After the web interface asked to observe a property.
    pub open spec fn observing(self, name: Seq<char>, format: Format) -> PlayerView {
        let watched = if self.observed.contains(name) {
            self
        } else {
            PlayerView { observed: self.observed.insert(name), ..self }.doing(
                PlayerActionView::Observe { name, format },
            )
        };
        if !is_immediate(name) {
            watched
        } else {
            match self.playback.known(name) {
                Some(value) => watched.doing(PlayerActionView::Emit { name, data: value }),
                None => watched.reading(name, format),
            }
        }
    }

    /// After the player began with a file.
    pub open spec fn file_started(self) -> PlayerView {
        PlayerView {
            state: LoadState::Loading,
            stop_started: None,
            active: match self.active {
                Some(a) => Some(ActiveView { started: true, ..a }),
                None => None,
            },
            playback: PlaybackView {
                time: real_zero(),
                duration: real_zero(),
                file_loaded: false,
                stopping: false,
                chapter: (-1) as i64,
                chapter_count: 0,
                chapter_title: Seq::empty(),
                ..self.playback.without_file()
            },
            ..self
        }
    }

    /// After the values of a loaded file were asked for.
    pub open spec fn snapshot(self) -> PlayerView {
        self.reading("duration"@, Format::Double).reading("time-pos"@, Format::Double).reading(
            "pause"@,
            Format::Flag,
        ).reading("volume"@, Format::Double).reading("mute"@, Format::Flag).reading(
            "aid"@,
            Format::Text,
        ).reading("vid"@, Format::Text).reading("sid"@, Format::Text)
    }

    /// After the player loaded a file: what waited for it is set, its values
    /// are asked for, and a reload goes back to where it was.
    pub open spec fn file_loaded(self) -> PlayerView {
        let set = PlayerView {
            state: LoadState::Loaded,
            stop_started: None,
            stop_request: None,
            active: None,
            retry: None,
            retries: 0,
            playback: PlaybackView {
                load_epoch: following(self.playback.load_epoch),
                file_loaded: true,
                stopping: false,
                ..self.playback
            },
            ..self
        }.file_set(self.waiting).unseen().snapshot();
        if set.reload_url is None {
            set
        } else {
            let done = PlayerView { reload_url: None, reload_seek: None, ..set };
            if set.reload_url == Some(set.current_url) && set.reload_seek is Some {
                done.doing(
                    PlayerActionView::Seek {
                        request_id: set.next_id,
                        position: set.reload_seek->0,
                    },
                ).numbered()
            } else {
                done
            }
        }
    }

    /// A later attempt to load a local stream is due to be made.
    pub open spec fn may_retry(self, url: Seq<char>) -> bool {
        &&& self.state != LoadState::Stopping
        &&& local_stream(url)
        &&& self.retries < LOCAL_STREAM_STARTUP_RETRY_LIMIT
    }

    /// After a later attempt to load a local stream was scheduled, where one
    /// may be.
    pub open spec fn retrying(self, url: Seq<char>, resume: Option<Real>, clock: Clock) -> PlayerView {
        if self.may_retry(url) {
            PlayerView {
                retries: (self.retries + 1) as u32,
                retry: Some(
                    RetryView {
                        scheduled_at: clock.now,
                        expected_url: url,
                        retry_url: fresh_url(url, clock.unix_millis),
                        attempt: (self.retries + 1) as u32,
                        resume,
                    },
                ),
                ..self
            }
        } else {
            self
        }
    }

    /// A load that began and failed is tried again.
    pub open spec fn failed_at_start(self) -> bool {
        &&& self.state == LoadState::Loading
        &&& local_stream(self.current_url)
        &&& self.active is Some
        &&& self.active->0.started
    }

    /// After a failure of the player.
    pub open spec fn failed(self, clock: Clock) -> PlayerView {
        if self.failed_at_start() {
            self.retrying(self.current_url, self.active->0.start, clock)
        } else {
            self
        }
    }

    /// After the player was done with a file.
    pub open spec fn file_done(self) -> PlayerView {
        PlayerView {
            state: if self.active is Some {
                LoadState::Loading
            } else {
                LoadState::Idle
            },
            stop_started: None,
            stop_request: None,
            ..self.flagged(false, false)
        }
    }

    /// A local stream that ended well before its end: `tail` is ten seconds
    /// before the end.
    pub open spec fn ended_early(self, tail: Real) -> bool {
        &&& has_text(self.current_url, "127.0.0.1:11470"@)
        &&& (Real { bits: THIRTY_BITS }).less(self.playback.duration)
        &&& real_zero().less(self.playback.time)
        &&& self.playback.time.less(tail)
    }

    /// After a local stream that ended early was loaded anew.
    pub open spec fn reloading(self, clock: Clock) -> PlayerView {
        let url = fresh_url(self.current_url, clock.unix_millis);
        PlayerView {
            eof_reloads: (self.eof_reloads + 1) as u32,
            reload_url: Some(url),
            reload_seek: Some(self.playback.time),
            ..self.at_url(url)
        }.loading(replacing(url), None, clock.now)
    }

    /// After a file ended.
    pub open spec fn file_ended(self, reason: EndReason, tail: Real, clock: Clock) -> PlayerView {
        let failing = reason == EndReason::Error;
        let tried = if failing {
            self.failed(clock)
        } else {
            self
        };
        let retry = failing && self.failed_at_start() && self.may_retry(self.current_url);
        let done = tried.file_done();
        if done.pending is Some {
            done.resumed(clock.now)
        } else if reason == EndReason::Eof && done.ended_early(tail) && done.eof_reloads
            < PREMATURE_EOF_RELOAD_LIMIT {
            done.reloading(clock)
        } else if retry || reason == EndReason::Stop || reason == EndReason::Quit || reason
            == EndReason::Redirect {
            done
        } else {
            done.doing(PlayerActionView::Ended(reason))
        }
    }

    /// After the player answered a command.
    pub open spec fn answered(self, id: u64, now: u64) -> PlayerView {
        if self.stop_request == Some(id) {
            let over = PlayerView { stop_request: None, ..self };
            if self.state == LoadState::Stopping {
                over.released(now)
            } else {
                over
            }
        } else if self.active is Some && self.active->0.request_id == id {
            PlayerView { active: Some(ActiveView { replied: true, ..self.active->0 }), ..self }
        } else {
            self
        }
    }

    /// A stop that does not end is given up.
    pub open spec fn stop_flushed(self, now: u64) -> PlayerView {
        if self.state == LoadState::Stopping && self.stop_started is Some && passed(
            self.stop_started->0,
            now,
            STOP_TIMEOUT,
        ) {
            let given_up = match self.stop_request {
                Some(id) => PlayerView { stop_request: None, ..self }.doing(
                    PlayerActionView::Abort { request_id: id },
                ),
                None => self,
            };
            given_up.released(now)
        } else {
            self
        }
    }

    /// After a load command that got no answer was sent anew.
    pub open spec fn recovered(self, a: ActiveView, clock: Clock) -> PlayerView {
        let cmd = fresh_load(a.cmd, clock.unix_millis);
        let url = if cmd.is_load() {
            cmd.args[0]
        } else {
            a.url
        };
        PlayerView {
            recoveries: (self.recoveries + 1) as u32,
            pending: Some(PendingView { cmd, start: a.start }),
            ..self.aborted().at_url(url)
        }.released(clock.now)
    }

    /// A load that makes no progress is sent anew, and given up in the end.
    pub open spec fn load_flushed(self, clock: Clock) -> PlayerView {
        match self.active {
            None => self,
            Some(a) => if a.started {
                self
            } else if !a.replied && passed(a.queued_at, clock.now, MPV_COMMAND_REPLY_TIMEOUT) {
                if self.recoveries >= MPV_COMMAND_QUEUE_RECOVERY_LIMIT {
                    self
                } else {
                    self.recovered(a, clock)
                }
            } else if !passed(a.queued_at, clock.now, LOADFILE_START_TIMEOUT) || local_stream(
                a.url,
            ) {
                self
            } else {
                let idle = PlayerView {
                    state: LoadState::Idle,
                    ..self.aborted().commanding(
                        CmdView { name: "stop"@, args: Seq::empty() },
                        Purpose::Other,
                    )
                };
                if idle.current_url == a.url {
                    idle.retrying(a.url, a.start, clock)
                } else {
                    idle
                }
            },
        }
    }

    /// A scheduled attempt is made when its time has come.
    pub open spec fn retry_flushed(self, now: u64) -> PlayerView {
        match self.retry {
            None => self,
            Some(r) => if !passed(r.scheduled_at, now, LOCAL_STREAM_STARTUP_RETRY_DELAY) {
                self
            } else {
                let taken = PlayerView { retry: None, ..self };
                if self.state == LoadState::Stopping || self.current_url != r.expected_url {
                    taken
                } else {
                    let moved = taken.at_url(r.retry_url);
                    let ready = if r.resume is Some {
                        PlayerView {
                            reload_url: Some(r.retry_url),
                            reload_seek: r.resume,
                            ..moved
                        }
                    } else {
                        moved
                    };
                    ready.loading(replacing(r.retry_url), None, now)
                }
            },
        }
    }

    /// After the player answered a question for a property's value.
    pub open spec fn replied(self, name: Seq<char>, data: DataView) -> PlayerView {
        match reply_json(name, data) {
            None => self,
            Some(value) => if name == "duration"@ && (value.number() is None
                || value.number()->0.at_most(real_zero())) {
                self
            } else {
                self.telling(name, normalized(name, value))
            },
        }
    }

    /// After the player reported a change.
    pub open spec fn changed(self, name: Seq<char>, data: DataView) -> PlayerView {
        let noted = PlayerView { playback: self.playback.reported(name, data), ..self };
        match data {
            DataView::Double(volume) => if name == "volume"@ {
                noted.doing(PlayerActionView::SaveVolume(volume))
            } else {
                noted
            },
            _ => noted,
        }
    }
}

// ---------------------------------------------------------------------------
// The controller's steps
// ---------------------------------------------------------------------------

/// A request from the web interface.
#[derive(Debug)]
pub enum InMsg {
    ObserveProp { name: String, format: Format },
    SetProp { name: String, value: PropVal },
    SetGpuVideoProcessing(bool),
    Command { cmd: CmdVal, hint: StartHint },
}

#[verifier::ext_equal]
pub enum InView {
    ObserveProp { name: Seq<char>, format: Format },
    SetProp { name: Seq<char>, value: PropView },
    SetGpuVideoProcessing(bool),
    Command { cmd: CmdView, hint: StartHint },
}

impl View for InMsg {
    type V = InView;

    open spec fn view(&self) -> InView {
        match *self {
            InMsg::ObserveProp { name, format } => InView::ObserveProp { name: name@, format },
            InMsg::SetProp { name, value } => InView::SetProp { name: name@, value: value@ },
            InMsg::SetGpuVideoProcessing(enabled) => InView::SetGpuVideoProcessing(enabled),
            InMsg::Command { cmd, hint } => InView::Command { cmd: cmd@, hint },
        }
    }
}

/// The value that a property is set to for a value that was asked for: the
/// styles of subtitles are scaled rather than stripped, and the GPU outputs
/// stand in for each other.
pub open spec fn adapted(name: Seq<char>, value: PropView) -> PropView {
    match value {
        PropView::Str(s) => if name == "sub-ass-override"@ && s == "strip"@ {
            PropView::Str("scale"@)
        } else if name == "vo"@ {
            PropView::Str(gpu_outputs(s))
        } else {
            value
        },
        _ => value,
    }
}

impl PlayerView {
    /// After a request from the web interface.
    pub open spec fn asked(self, msg: InView, now: u64) -> PlayerView {
        match msg {
            InView::ObserveProp { name, format } => self.observing(name, format),
            InView::SetProp { name, value } => self.set_asked(
                name,
                adapted(name, value),
                name == "vo"@ && value is Str,
            ),
            InView::SetGpuVideoProcessing(enabled) => PlayerView { gpu: enabled, ..self }.unseen(),
            InView::Command { cmd, hint } => self.commanded(cmd, hint, now),
        }
    }
}

fn adapt_value(name: &str, value: PropVal) -> (adjusted: PropVal)
    ensures
        adjusted@ == adapted(name@, value@),
{
    match value {
        PropVal::Str(s) => {
            if same_text(name, "sub-ass-override") && same_text(s.as_str(), "strip") {
                PropVal::Str("scale".to_string())
            } else if same_text(name, "vo") {
                PropVal::Str(with_gpu_next_fallback(s.as_str()))
            } else {
                PropVal::Str(s)
            }
        },
        other => other,
    }
}

/// Where a property stands among those that wait.
fn find_waiting(waiting: &Vec<(String, PropVal)>, name: &str) -> (place: usize)
    ensures
        place == place_of(waiting_views(waiting@), name@),
        place <= waiting.len(),
{
    let ghost views = waiting_views(waiting@);
    let mut i: usize = 0;
    assert(place_of(views.take(0), name@) == 0);
    while i < waiting.len()
        invariant
            views == waiting_views(waiting@),
            i <= waiting.len(),
            place_of(views.take(i as int), name@) == i,
        decreases waiting.len() - i,
    {
        let ghost seen = views.take(i + 1);
        assert(seen.drop_last() =~= views.take(i as int));
        assert(seen.last() == views[i as int]);
        if same_text(waiting[i].0.as_str(), name) {
            proof {
                place_stays(views, name@, i + 1);
            }
            return i;
        }
        i = i + 1;
    }
    assert(views.take(views.len() as int) =~= views);
    i
}

/// A property that was found among the first of those that wait stays there.
proof fn place_stays(waiting: Seq<(Seq<char>, PropView)>, name: Seq<char>, n: int)
    requires
        0 <= n <= waiting.len(),
        place_of(waiting.take(n), name) < n,
    ensures
        place_of(waiting, name) == place_of(waiting.take(n), name),
    decreases waiting.len(),
{
    if n == waiting.len() {
        assert(waiting.take(n) =~= waiting);
    } else {
        assert(waiting.drop_last().take(n) =~= waiting.take(n));
        place_stays(waiting.drop_last(), name, n);
    }
}

impl PlayerController {
    /// A controller for a player that just started.
    pub fn new(volume: Real) -> (controller: PlayerController)
        ensures
            controller@.state == LoadState::Idle,
            controller@.observed == Set::<Seq<char>>::empty(),
            controller@.current_url.len() == 0,
            controller@.pending is None,
            controller@.active is None,
            controller@.waiting.len() == 0,
            controller@.retry is None,
            controller@.reload_url is None,
            controller@.reload_seek is None,
            controller@.retries == 0,
            controller@.recoveries == 0,
            controller@.eof_reloads == 0,
            controller@.stop_started is None,
            controller@.stop_request is None,
            controller@.render == Map::<Seq<char>, PropView>::empty(),
            !controller@.gpu,
            !controller@.filter,
            controller@.display is None,
            controller@.display_refresh is None,
            controller@.surface_refresh is None,
            controller@.next_id == 1,
            controller@.playback == nothing_played(volume),
            controller@.outbox.len() == 0,
    {
        let controller = PlayerController {
            observed_properties: StringHashSet::new(),
            state: LoadState::Idle,
            current_url: String::new(),
            pending_loadfile: None,
            active_loadfile: None,
            pending_startup_props: Vec::new(),
            pending_startup_retry: None,
            pending_reload_url: None,
            pending_reload_seek: None,
            startup_retry_attempts: 0,
            command_queue_recoveries: 0,
            premature_eof_reloads: 0,
            stop_started_at: None,
            stop_command_request_id: None,
            persistent_render_properties: StringHashMap::new(),
            gpu_video_processing: false,
            managed_gpu_filter_applied: false,
            last_display_output: None,
            last_display_refresh: None,
            last_surface_order_refresh: None,
            next_request_id: 1,
            playback: Playback::new(volume),
            outbox: Vec::new(),
        };
        assert(controller@.render =~= Map::empty());
        controller
    }

    /// Hands out what is to be done, in order.
    pub fn take_actions(&mut self) -> (actions: Vec<PlayerAction>)
        ensures
            player_action_views(actions@) == old(self)@.outbox,
            final(self)@ == (PlayerView { outbox: Seq::empty(), ..old(self)@ }),
    {
        let mut actions: Vec<PlayerAction> = Vec::new();
        std::mem::swap(&mut actions, &mut self.outbox);
        assert(self@.outbox =~= Seq::empty());
        actions
    }

    fn act(&mut self, action: PlayerAction)
        ensures
            final(self)@ == old(self)@.doing(action@),
    {
        let ghost a = action@;
        self.outbox.push(action);
        assert(self@.outbox =~= old(self)@.outbox.push(a));
    }

    fn take_id(&mut self) -> (id: u64)
        ensures
            id == old(self)@.next_id,
            final(self)@ == old(self)@.numbered(),
    {
        let id = self.next_request_id;
        self.next_request_id = if id == u64::MAX {
            0
        } else {
            id + 1
        };
        id
    }

    fn send_command(&mut self, cmd: CmdVal, purpose: Purpose) -> (id: u64)
        ensures
            id == old(self)@.next_id,
            final(self)@ == old(self)@.commanding(cmd@, purpose),
    {
        let request_id = self.take_id();
        self.act(PlayerAction::Command { request_id, cmd, purpose });
        request_id
    }

    fn request_property(&mut self, name: &str, format: Format)
        ensures
            final(self)@ == old(self)@.reading(name@, format),
    {
        let request_id = self.take_id();
        self.act(PlayerAction::Read { request_id, name: name.to_string(), format });
    }

    fn set_prop_val(
        &mut self,
        name: String,
        value: PropVal,
        notify: bool,
        remember: bool,
        refresh: bool,
    )
        ensures
            final(self)@ == old(self)@.setting(name@, value@, notify, remember, refresh),
    {
        let request_id = self.take_id();
        self.act(
            PlayerAction::SetProperty { request_id, name, value, notify, remember, refresh },
        );
    }

    fn set_plain(&mut self, name: &str, value: &str)
        ensures
            final(self)@ == old(self)@.setting_plain(name@, value@),
    {
        let request_id = self.take_id();
        self.act(
            PlayerAction::SetPlain { request_id, name: name.to_string(), text: value.to_string() },
        );
    }

    /// Notes a property's value and tells the web interface.
    fn tell(&mut self, name: &str, value: Json)
        ensures
            final(self)@ == old(self)@.telling(name@, value@),
    {
        self.playback.cache_property_value(name, &value);
        self.act(PlayerAction::Emit { name: name.to_string(), data: value });
    }

    /// Has the display looked at anew.
    pub fn invalidate_display_output(&mut self)
        ensures
            final(self)@ == old(self)@.unseen(),
    {
        self.last_display_output = None;
        self.last_display_refresh = None;
    }

    fn set_flags(&mut self, loaded: bool, stopping: bool)
        ensures
            final(self)@ == old(self)@.flagged(loaded, stopping),
    {
        self.playback.is_file_loaded = loaded;
        self.playback.stop_command_in_flight = stopping;
    }

    fn set_current_url(&mut self, url: &str)
        ensures
            final(self)@ == old(self)@.at_url(url@),
    {
        self.current_url = url.to_string();
        self.playback.current_stream_url = url.to_string();
    }

    /// Gives the active load up, if there is one.
    fn abort_active_loadfile(&mut self) -> (aborted: bool)
        ensures
            final(self)@ == old(self)@.aborted(),
            aborted == old(self)@.active is Some,
    {
        match self.active_loadfile.take() {
            Some(active) => {
                self.act(PlayerAction::Abort { request_id: active.command_request_id });
                true
            },
            None => false,
        }
    }

    /// Sets the properties that waited and need no file.
    fn apply_pending_preload_properties(&mut self)
        ensures
            final(self)@ == old(self)@.preset(old(self)@.waiting),
    {
        let mut pending: Vec<(String, PropVal)> = Vec::new();
        std::mem::swap(&mut pending, &mut self.pending_startup_props);
        let ghost all = waiting_views(pending@);
        let ghost start = old(self)@;
        assert(self@ =~= start.preset(all.take(0)));
        for i in 0..pending.len()
            invariant
                all == waiting_views(pending@),
                self@ == start.preset(all.take(i as int)),
        {
            let ghost seen = all.take(i + 1);
            let ghost before = self@;
            assert(seen.drop_last() =~= all.take(i as int));
            assert(seen.last() == all[i as int]);
            let name = pending[i].0.clone();
            let value = pending[i].1.clone();
            let ghost entry = (name@, value@);
            if is_file_scoped_property(name.as_str()) {
                self.pending_startup_props.push((name, value));
                assert(self@.waiting =~= before.waiting.push(entry));
            } else {
                self.set_prop_val(name, value, false, true, false);
            }
        }
        assert(all.take(all.len() as int) =~= all);
    }

    /// Sets the properties that waited for a loaded file.
    fn apply_pending_file_properties(&mut self)
        ensures
            final(self)@ == old(self)@.file_set(old(self)@.waiting),
    {
        let mut pending: Vec<(String, PropVal)> = Vec::new();
        std::mem::swap(&mut pending, &mut self.pending_startup_props);
        let ghost all = waiting_views(pending@);
        let ghost start = old(self)@;
        assert(self@ =~= start.file_set(all.take(0)));
        for i in 0..pending.len()
            invariant
                all == waiting_views(pending@),
                self@ == start.file_set(all.take(i as int)),
        {
            let ghost seen = all.take(i + 1);
            assert(seen.drop_last() =~= all.take(i as int));
            assert(seen.last() == all[i as int]);
            let name = pending[i].0.clone();
            let value = pending[i].1.clone();
            self.set_prop_val(name, value, true, false, false);
        }
        assert(all.take(all.len() as int) =~= all);
    }

    /// Sends a load command.
    fn send_loadfile_now(&mut self, cmd: CmdVal, start: Option<Real>, now: u64)
        ensures
            final(self)@ == old(self)@.loading(cmd@, start, now),
    {
        let url = match loadfile_url(&cmd) {
            Some(url) => url,
            None => String::new(),
        };
        let active_cmd = cmd.clone();
        let ghost waiting = self@.waiting;
        let _aborted = self.abort_active_loadfile();
        assert(self@.waiting == waiting);
        self.apply_pending_preload_properties();
        self.set_flags(false, false);
        let command_request_id = self.send_command(cmd, Purpose::Load);
        self.state = LoadState::Loading;
        self.stop_started_at = None;
        self.active_loadfile = Some(
            ActiveLoadfile {
                cmd: active_cmd,
                url,
                command_request_id,
                queued_at: now,
                command_replied: false,
                start_file_seen: false,
                requested_start: start,
            },
        );
    }

    /// Sends the load command that waited, if there is one.
    fn send_pending_loadfile(&mut self, now: u64) -> (sent: bool)
        ensures
            final(self)@ == old(self)@.resumed(now),
            sent == old(self)@.pending is Some,
    {
        match self.pending_loadfile.take() {
            Some(pending) => {
                self.send_loadfile_now(pending.cmd, pending.start, now);
                true
            },
            None => false,
        }
    }

    /// Goes on after a stop.
    fn release_queued_transition_after_stop(&mut self, now: u64)
        ensures
            final(self)@ == old(self)@.released(now),
    {
        self.set_flags(false, false);
        self.apply_pending_preload_properties();
        self.state = LoadState::Idle;
        self.stop_started_at = None;
        self.stop_command_request_id = None;
        let _sent = self.send_pending_loadfile(now);
    }

    /// Stops what plays or loads.
    fn handle_stop(&mut self, cmd: CmdVal, now: u64)
        ensures
            final(self)@ == old(self)@.stopped(cmd@, now),
    {
        if self.state == LoadState::Stopping {
            return ;
        }
        self.playback.clear_file_scoped_cached_props();
        if self.state == LoadState::Idle {
            let _aborted = self.abort_active_loadfile();
            return ;
        }
        let not_started = match &self.active_loadfile {
            Some(active) => !active.start_file_seen,
            None => false,
        };
        if self.state == LoadState::Loading {
            let _aborted = self.abort_active_loadfile();
            if not_started {
                self.set_flags(false, false);
                self.state = LoadState::Idle;
                self.stop_started_at = None;
                self.stop_command_request_id = None;
                return ;
            }
        }
        self.set_flags(false, true);
        let request_id = self.send_command(cmd, Purpose::Stop);
        self.state = LoadState::Stopping;
        self.stop_started_at = Some(now);
        self.stop_command_request_id = Some(request_id);
    }

    /// Notes the address of a load command. A new one starts all counts anew.
    fn capture_loadfile_url(&mut self, url: &str)
        ensures
            final(self)@ == old(self)@.captured(url@),
    {
        if !contains(url, "_reload=") {
            self.playback.clear_file_scoped_cached_props();
            self.playback.current_time = Real::from_bits(0);
            self.playback.total_duration = Real::from_bits(0);
            self.startup_retry_attempts = 0;
            self.command_queue_recoveries = 0;
            self.premature_eof_reloads = 0;
            self.pending_startup_retry = None;
            self.pending_reload_url = None;
            self.pending_reload_seek = None;
        }
        self.set_current_url(url);
    }

    /// Carries out a command from the web interface.
    pub fn handle_command(&mut self, cmd: CmdVal, hint: StartHint, now: u64)
        ensures
            final(self)@ == old(self)@.commanded(cmd@, hint, now),
    {
        let (cmd, start) = sanitize_loadfile_start(
            cmd,
            hint,
            self.playback.current_stream_url.as_str(),
            self.playback.current_time,
        );
        if is_stop_command(&cmd) {
            self.handle_stop(cmd, now);
            return ;
        }
        match loadfile_url(&cmd) {
            Some(url) => {
                self.capture_loadfile_url(url.as_str());
                if self.state == LoadState::Stopping {
                    self.pending_loadfile = Some(PendingLoadfile { cmd, start });
                } else {
                    self.send_loadfile_now(cmd, start, now);
                }
            },
            None => {
                let _id = self.send_command(cmd, Purpose::Other);
            },
        }
    }

    /// Lets a property wait, with its latest value.
    fn queue_startup_property(&mut self, name: String, value: PropVal)
        ensures
            final(self)@ == (PlayerView {
                waiting: queued(old(self)@.waiting, name@, value@),
                ..old(self)@
            }),
    {
        let ghost before = self@.waiting;
        let ghost v = value@;
        let ghost n = name@;
        let place = find_waiting(&self.pending_startup_props, name.as_str());
        if place < self.pending_startup_props.len() {
            let known = self.pending_startup_props[place].0.clone();
            self.pending_startup_props.set(place, (known, value));
            assert(self@.waiting =~= before.update(place as int, (before[place as int].0, v)));
        } else {
            self.pending_startup_props.push((name, value));
            assert(self@.waiting =~= before.push((n, v)));
        }
    }

    /// Sets a property, or lets it wait.
    fn set_or_queue_prop(&mut self, name: String, value: PropVal, refresh: bool)
        ensures
            final(self)@ == old(self)@.set_asked(name@, value@, refresh),
    {
        self.playback.apply_property_set_side_effect(name.as_str(), &value);
        let json = normalize_property_value_for_web(name.as_str(), &prop_val_to_json(&value));
        if is_unchanged_persistent_render_property(
            &self.persistent_render_properties,
            name.as_str(),
            &value,
        ) {
            self.tell(name.as_str(), json);
            return ;
        }
        if should_defer_property(self.state, name.as_str()) {
            self.tell(name.as_str(), json);
            self.queue_startup_property(name, value);
            if refresh {
                self.invalidate_display_output();
            }
            return ;
        }
        self.set_prop_val(name, value, true, true, refresh);
    }

    /// Takes in whether the player set a property.
    pub fn on_property_set(
        &mut self,
        name: String,
        value: PropVal,
        notify: bool,
        remember: bool,
        refresh: bool,
        accepted: bool,
    )
        ensures
            final(self)@ == old(self)@.set_answered(
                name@,
                value@,
                notify,
                remember,
                refresh,
                accepted,
            ),
    {
        if !accepted {
            return ;
        }
        let json = normalize_property_value_for_web(name.as_str(), &prop_val_to_json(&value));
        self.playback.apply_property_set_side_effect(name.as_str(), &value);
        self.playback.cache_property_value(name.as_str(), &json);
        if notify {
            self.act(PlayerAction::Emit { name: name.clone(), data: json });
        }
        if remember && is_persistent_render_property(name.as_str()) {
            let ghost v = value@;
            let ghost n = name@;
            let ghost before = self.persistent_render_properties@;
            self.persistent_render_properties.insert(name, value);
            assert(prop_views(self.persistent_render_properties@) =~= prop_views(before).insert(
                n,
                v,
            ));
        }
        if refresh {
            self.invalidate_display_output();
        }
    }

    /// Takes in whether the player took a command on.
    pub fn on_submission(&mut self, request_id: u64, purpose: Purpose, accepted: bool)
        ensures
            final(self)@ == old(self)@.submitted(request_id, purpose, accepted),
    {
        match purpose {
            Purpose::Load => {
                let mine = match &self.active_loadfile {
                    Some(active) => active.command_request_id == request_id,
                    None => false,
                };
                if !accepted && mine {
                    self.active_loadfile = None;
                    self.state = LoadState::Idle;
                }
            },
            Purpose::Stop => {
                let mine = match self.stop_command_request_id {
                    Some(id) => id == request_id,
                    None => false,
                };
                if !accepted && mine {
                    self.stop_command_request_id = None;
                }
            },
            Purpose::RemoveFilter => {
                if accepted {
                    self.managed_gpu_filter_applied = false;
                }
            },
            Purpose::AddFilter => {
                if accepted {
                    self.managed_gpu_filter_applied = true;
                }
            },
            Purpose::Other => {},
        }
    }

    /// Observes a property and tells its value where it is known at once.
    fn observe_and_emit_current_property(&mut self, name: String, format: Format)
        ensures
            final(self)@ == old(self)@.observing(name@, format),
    {
        if !self.observed_properties.contains(name.as_str()) {
            let _new = self.observed_properties.insert(name.clone());
            self.act(PlayerAction::Observe { name: name.clone(), format });
        }
        if !is_cached_immediate_property(name.as_str()) {
            return ;
        }
        match self.playback.cached_property_value(name.as_str()) {
            Some(value) => self.act(PlayerAction::Emit { name, data: value }),
            None => self.request_property(name.as_str(), format),
        }
    }

    /// Carries out a request from the web interface.
    pub fn handle_in_msg(&mut self, msg: InMsg, now: u64)
        ensures
            final(self)@ == old(self)@.asked(msg@, now),
    {
        match msg {
            InMsg::ObserveProp { name, format } => {
                self.observe_and_emit_current_property(name, format);
            },
            InMsg::SetProp { name, value } => {
                let is_text = match &value {
                    PropVal::Str(_) => true,
                    _ => false,
                };
                let refresh = same_text(name.as_str(), "vo") && is_text;
                let value = adapt_value(name.as_str(), value);
                self.set_or_queue_prop(name, value, refresh);
            },
            InMsg::SetGpuVideoProcessing(enabled) => {
                self.gpu_video_processing = enabled;
                self.invalidate_display_output();
            },
            InMsg::Command { cmd, hint } => {
                self.handle_command(cmd, hint, now);
            },
        }
    }

    /// Takes in that the player began with a file.
    pub fn on_start_file(&mut self)
        ensures
            final(self)@ == old(self)@.file_started(),
    {
        self.state = LoadState::Loading;
        self.stop_started_at = None;
        match self.active_loadfile.take() {
            Some(active) => {
                let mut active = active;
                active.start_file_seen = true;
                self.active_loadfile = Some(active);
            },
            None => {},
        }
        self.playback.clear_file_scoped_cached_props();
        self.playback.current_time = Real::from_bits(0);
        self.playback.total_duration = Real::from_bits(0);
        self.playback.is_file_loaded = false;
        self.playback.stop_command_in_flight = false;
        self.playback.current_chapter = -1;
        self.playback.current_chapter_count = 0;
        self.playback.current_chapter_title = String::new();
    }

    fn request_loaded_property_snapshot(&mut self)
        ensures
            final(self)@ == old(self)@.snapshot(),
    {
        self.request_property("duration", Format::Double);
        self.request_property("time-pos", Format::Double);
        self.request_property("pause", Format::Flag);
        self.request_property("volume", Format::Double);
        self.request_property("mute", Format::Flag);
        self.request_property("aid", Format::Text);
        self.request_property("vid", Format::Text);
        self.request_property("sid", Format::Text);
    }

    /// Takes where a reload is to go on, if this is its address.
    fn take_pending_reload_seek(&mut self) -> (position: Option<Real>)
        ensures
            final(self)@ == if old(self)@.reload_url is Some {
                PlayerView { reload_url: None, reload_seek: None, ..old(self)@ }
            } else {
                old(self)@
            },
            position == if old(self)@.reload_url == Some(old(self)@.current_url) {
                old(self)@.reload_seek
            } else {
                None
            },
    {
        match self.pending_reload_url.take() {
            Some(expected) => {
                let position = self.pending_reload_seek.take();
                if same_text(expected.as_str(), self.current_url.as_str()) {
                    position
                } else {
                    None
                }
            },
            None => None,
        }
    }

    /// Takes in that the player loaded a file.
    pub fn on_file_loaded(&mut self)
        ensures
            final(self)@ == old(self)@.file_loaded(),
    {
        self.state = LoadState::Loaded;
        self.stop_started_at = None;
        self.stop_command_request_id = None;
        self.active_loadfile = None;
        self.pending_startup_retry = None;
        self.startup_retry_attempts = 0;
        let epoch = self.playback.file_load_epoch;
        self.playback.file_load_epoch = if epoch == u64::MAX {
            0
        } else {
            epoch + 1
        };
        self.set_flags(true, false);
        self.apply_pending_file_properties();
        self.invalidate_display_output();
        self.request_loaded_property_snapshot();
        match self.take_pending_reload_seek() {
            Some(position) => {
                let request_id = self.take_id();
                self.act(PlayerAction::Seek { request_id, position });
            },
            None => {},
        }
    }

    /// Schedules a later attempt to load a local stream, where one may be.
    fn schedule_local_stream_startup_retry(
        &mut self,
        url: &str,
        resume_position: Option<Real>,
        clock: Clock,
    ) -> (scheduled: bool)
        ensures
            final(self)@ == old(self)@.retrying(url@, resume_position, clock),
            scheduled == old(self)@.may_retry(url@),
    {
        if self.state == LoadState::Stopping || !is_local_stream_url(url) {
            return false;
        }
        if self.startup_retry_attempts >= LOCAL_STREAM_STARTUP_RETRY_LIMIT {
            return false;
        }
        self.startup_retry_attempts = self.startup_retry_attempts + 1;
        self.pending_startup_retry = Some(
            ScheduledStartupRetry {
                scheduled_at: clock.now,
                expected_url: url.to_string(),
                retry_url: cache_busted_url_at(url, clock.unix_millis),
                attempt: self.startup_retry_attempts,
                resume_position,
            },
        );
        true
    }

    /// Takes in that the player failed.
    pub fn retry_local_stream_startup_failure(&mut self, clock: Clock) -> (scheduled: bool)
        ensures
            final(self)@ == old(self)@.failed(clock),
            scheduled == (old(self)@.failed_at_start() && old(self)@.may_retry(
                old(self)@.current_url,
            )),
    {
        let url = self.current_url.clone();
        let (load_state, resume) = match &self.active_loadfile {
            Some(active) => (Some((active.start_file_seen, false)), active.requested_start),
            None => (None, None),
        };
        if !should_retry_startup_failure_event(
            self.state,
            is_local_stream_url(url.as_str()),
            load_state,
        ) {
            return false;
        }
        self.schedule_local_stream_startup_retry(url.as_str(), resume, clock)
    }

    fn on_end_file(&mut self)
        ensures
            final(self)@ == old(self)@.file_done(),
    {
        self.state = if self.active_loadfile.is_some() {
            LoadState::Loading
        } else {
            LoadState::Idle
        };
        self.stop_started_at = None;
        self.stop_command_request_id = None;
        self.set_flags(false, false);
    }

    /// Takes in that a file ended. `tail` is ten seconds before its end.
    pub fn handle_end_file(&mut self, reason: EndReason, tail: Real, clock: Clock)
        ensures
            final(self)@ == old(self)@.file_ended(reason, tail, clock),
    {
        let retry = if reason == EndReason::Error {
            self.retry_local_stream_startup_failure(clock)
        } else {
            false
        };
        self.on_end_file();
        let ghost done = self@;
        if self.send_pending_loadfile(clock.now) {
            return ;
        }
        assert(self@ == done);
        let early = contains(self.current_url.as_str(), "127.0.0.1:11470") && Real::from_bits(
            THIRTY_BITS,
        ).lt(&self.playback.total_duration) && Real::from_bits(0).lt(&self.playback.current_time)
            && self.playback.current_time.lt(&tail);
        if reason == EndReason::Eof && early && self.premature_eof_reloads
            < PREMATURE_EOF_RELOAD_LIMIT {
            self.premature_eof_reloads = self.premature_eof_reloads + 1;
            let url = cache_busted_url_at(self.current_url.as_str(), clock.unix_millis);
            self.pending_reload_seek = Some(self.playback.current_time);
            self.set_current_url(url.as_str());
            self.pending_reload_url = Some(url.clone());
            self.send_loadfile_now(replace_command(url.as_str()), None, clock.now);
            return ;
        }
        if retry || reason == EndReason::Stop || reason == EndReason::Quit || reason
            == EndReason::Redirect {
            return ;
        }
        self.act(PlayerAction::Ended(reason));
    }

    /// Takes in that the player answered a command.
    pub fn on_command_reply(&mut self, request_id: u64, now: u64)
        ensures
            final(self)@ == old(self)@.answered(request_id, now),
    {
        let of_stop = match self.stop_command_request_id {
            Some(id) => id == request_id,
            None => false,
        };
        if of_stop {
            self.stop_command_request_id = None;
            if self.state == LoadState::Stopping {
                self.release_queued_transition_after_stop(now);
            }
            return ;
        }
        match self.active_loadfile.take() {
            Some(active) => {
                let mut active = active;
                if active.command_request_id == request_id {
                    active.command_replied = true;
                }
                self.active_loadfile = Some(active);
            },
            None => {},
        }
    }

    /// Gives a stop up that does not end.
    pub fn flush_stale_stop(&mut self, now: u64)
        ensures
            final(self)@ == old(self)@.stop_flushed(now),
    {
        if self.state != LoadState::Stopping {
            return ;
        }
        let overdue = match self.stop_started_at {
            Some(since) => has_passed(since, now, STOP_TIMEOUT),
            None => false,
        };
        if !overdue {
            return ;
        }
        match self.stop_command_request_id.take() {
            Some(request_id) => self.act(PlayerAction::Abort { request_id }),
            None => {},
        }
        self.release_queued_transition_after_stop(now);
    }

    /// Sends a load anew that the player does not answer, and gives one up
    /// that does not begin.
    pub fn flush_stale_loadfile(&mut self, clock: Clock)
        ensures
            final(self)@ == old(self)@.load_flushed(clock),
    {
        let (unanswered, url, retry_cmd, start) = match &self.active_loadfile {
            None => return ,
            Some(active) => {
                if active.start_file_seen {
                    return ;
                }
                let unanswered = !active.command_replied && has_passed(
                    active.queued_at,
                    clock.now,
                    MPV_COMMAND_REPLY_TIMEOUT,
                );
                if unanswered && self.command_queue_recoveries
                    >= MPV_COMMAND_QUEUE_RECOVERY_LIMIT {
                    return ;
                }
                if !unanswered && (!has_passed(
                    active.queued_at,
                    clock.now,
                    LOADFILE_START_TIMEOUT,
                ) || is_local_stream_url(active.url.as_str())) {
                    return ;
                }
                (unanswered, active.url.clone(), active.cmd.clone(), active.requested_start)
            },
        };
        if unanswered {
            let retry_cmd = cache_busted_loadfile_cmd(retry_cmd, clock.unix_millis);
            let retry_url = match loadfile_url(&retry_cmd) {
                Some(fresh) => fresh,
                None => url,
            };
            self.command_queue_recoveries = self.command_queue_recoveries + 1;
            let _aborted = self.abort_active_loadfile();
            self.pending_loadfile = Some(PendingLoadfile { cmd: retry_cmd, start });
            self.set_current_url(retry_url.as_str());
            self.release_queued_transition_after_stop(clock.now);
            return ;
        }
        let _aborted = self.abort_active_loadfile();
        let stop = CmdVal { name: "stop".to_string(), args: Vec::new() };
        assert(stop@ =~= (CmdView { name: "stop"@, args: Seq::empty() }));
        let _id = self.send_command(stop, Purpose::Other);
        self.state = LoadState::Idle;
        if same_text(self.current_url.as_str(), url.as_str()) {
            let _scheduled = self.schedule_local_stream_startup_retry(url.as_str(), start, clock);
        }
    }

    /// Makes a scheduled attempt when its time has come.
    pub fn flush_pending_startup_retry(&mut self, now: u64)
        ensures
            final(self)@ == old(self)@.retry_flushed(now),
    {
        let due = match &self.pending_startup_retry {
            Some(retry) => has_passed(retry.scheduled_at, now, LOCAL_STREAM_STARTUP_RETRY_DELAY),
            None => false,
        };
        if !due {
            return ;
        }
        match self.pending_startup_retry.take() {
            Some(retry) => {
                if self.state == LoadState::Stopping || !same_text(
                    self.current_url.as_str(),
                    retry.expected_url.as_str(),
                ) {
                    return ;
                }
                self.set_current_url(retry.retry_url.as_str());
                if retry.resume_position.is_some() {
                    self.pending_reload_url = Some(retry.retry_url.clone());
                    self.pending_reload_seek = retry.resume_position;
                }
                self.send_loadfile_now(replace_command(retry.retry_url.as_str()), None, now);
            },
            None => {},
        }
    }

    /// Takes in the answer to a question for a property's value.
    pub fn on_property_reply(&mut self, name: &str, data: &PropertyData)
        ensures
            final(self)@ == old(self)@.replied(name@, data@),
    {
        let value = match property_data_to_json(name, data) {
            Some(value) => value,
            None => return ,
        };
        if same_text(name, "duration") {
            match value.as_real() {
                Some(duration) => {
                    if duration.le(&Real::from_bits(0)) {
                        return ;
                    }
                },
                None => return ,
            }
        }
        let value = normalize_property_value_for_web(name, &value);
        self.tell(name, value);
    }

    /// Takes in that the player reported a change.
    pub fn on_property_change(&mut self, name: &str, data: &PropertyData)
        ensures
            final(self)@ == old(self)@.changed(name@, data@),
    {
        match self.playback.update_cached_property(name, data) {
            Some(volume) => self.act(PlayerAction::SaveVolume(volume)),
            None => {},
        }
    }
}

// ---------------------------------------------------------------------------
// The display
// ---------------------------------------------------------------------------

/// A percentage as a factor with two decimals.
pub open spec fn factor_text(percent: u32) -> Seq<char> {
    decimal((percent / 100) as nat) + "."@ + decimal(((percent / 10) % 10) as nat) + decimal(
        (percent % 10) as nat,
    )
}

/// The video filter for the graphics card's own processing.
pub open spec fn gpu_filter(state: DisplayOutputState) -> Seq<char> {
    let filter = "@stremio-gpu-processing:d3d11vpp=scaling-mode=nvidia:scale="@ + factor_text(
        state.scale_percent,
    );
    if state.mode == DisplayOutputMode::Hdr {
        filter + ":format=x2bgr10:nvidia-true-hdr"@
    } else {
        filter
    }
}

/// A command that changes the video filters.
pub open spec fn filter_command(operation: Seq<char>, filter: Seq<char>) -> CmdView {
    CmdView { name: "vf"@, args: seq![operation, filter] }
}

impl PlayerView {
    /// It is time to look at the display.
    pub open spec fn display_due(self, now: u64) -> bool {
        &&& self.state == LoadState::Loaded
        &&& self.display_refresh matches Some(last) ==> passed(
            last,
            now,
            DISPLAY_REFRESH_INTERVAL,
        )
    }

    /// After the colours of the display were set.
    pub open spec fn coloured(self, mode: DisplayOutputMode) -> PlayerView {
        if mode == DisplayOutputMode::Sdr {
            self.setting_plain("d3d11-output-csp"@, "srgb"@).setting_plain(
                "target-colorspace-hint"@,
                "yes"@,
            ).setting_plain("target-trc"@, "srgb"@).setting_plain("target-prim"@, "bt.709"@)
        } else {
            self.setting_plain("d3d11-output-csp"@, "auto"@).setting_plain(
                "target-colorspace-hint"@,
                "auto"@,
            ).setting_plain("target-trc"@, "auto"@).setting_plain("target-prim"@, "auto"@)
        }
    }

    /// After the state of the display was taken in.
    pub open spec fn displayed(self, state: DisplayOutputState) -> PlayerView {
        if self.display == Some((state, self.gpu)) {
            self
        } else {
            let bare = if self.filter {
                self.commanding(
                    filter_command("remove"@, "@stremio-gpu-processing"@),
                    Purpose::RemoveFilter,
                )
            } else {
                self
            };
            let filtered = if self.gpu {
                bare.commanding(filter_command("add"@, gpu_filter(state)), Purpose::AddFilter)
            } else {
                bare
            };
            PlayerView {
                display: Some((state, self.gpu)),
                ..filtered.coloured(state.mode)
            }
        }
    }
}

fn filter_cmd(operation: &str, filter: &str) -> (cmd: CmdVal)
    ensures
        cmd@ == filter_command(operation@, filter@),
{
    let mut args: Vec<String> = Vec::new();
    args.push(operation.to_string());
    args.push(filter.to_string());
    assert(texts(args@) =~= seq![operation@, filter@]);
    CmdVal { name: "vf".to_string(), args }
}

fn gpu_filter_text(state: DisplayOutputState) -> (filter: String)
    ensures
        filter@ == gpu_filter(state),
{
    let mut filter = "@stremio-gpu-processing:d3d11vpp=scaling-mode=nvidia:scale=".to_string();
    let percent = state.scale_percent;
    filter.append(format_u64((percent / 100) as u64).as_str());
    filter.append(".");
    filter.append(format_u64(((percent / 10) % 10) as u64).as_str());
    filter.append(format_u64((percent % 10) as u64).as_str());
    assert(filter@ =~= "@stremio-gpu-processing:d3d11vpp=scaling-mode=nvidia:scale="@
        + factor_text(percent));
    if state.mode == DisplayOutputMode::Hdr {
        filter.append(":format=x2bgr10:nvidia-true-hdr");
    }
    filter
}

/// How the display shows colours, where it is known whether it is in HDR mode.
pub fn display_output_mode(hdr_active: Option<bool>) -> (mode: DisplayOutputMode)
    ensures
        mode == match hdr_active {
            Some(true) => DisplayOutputMode::Hdr,
            Some(false) => DisplayOutputMode::Sdr,
            None => DisplayOutputMode::Auto,
        },
{
    match hdr_active {
        Some(active) => if active {
            DisplayOutputMode::Hdr
        } else {
            DisplayOutputMode::Sdr
        },
        None => DisplayOutputMode::Auto,
    }
}

/// By how much the video is enlarged, in percent.
pub open spec fn enlargement(
    gpu: bool,
    video_height: Option<Real>,
    display_height: Option<Real>,
    ratio_percent: u32,
) -> u32 {
    if gpu && video_height is Some && display_height is Some && !video_height->0.at_most(
        real_zero(),
    ) && !display_height->0.at_most(video_height->0) {
        ratio_percent
    } else {
        100
    }
}

/// By how much the video is enlarged, in percent: not at all where a height is
/// unknown or the display is no larger than the video. `ratio_percent` is the
/// rounded ratio of the heights, at most 400.
pub fn video_filter_scale(
    gpu_video_processing: bool,
    video_height: Option<Real>,
    display_height: Option<Real>,
    ratio_percent: u32,
) -> (percent: u32)
    ensures
        percent == if gpu_video_processing && video_height is Some && display_height is Some
            && !video_height->0.at_most(real_zero()) && !display_height->0.at_most(
            video_height->0,
        ) {
            ratio_percent
        } else {
            100
        },
        percent == enlargement(gpu_video_processing, video_height, display_height, ratio_percent),
{
    if !gpu_video_processing {
        return 100;
    }
    match (video_height, display_height) {
        (Some(video), Some(display)) => if video.le(&Real::from_bits(0)) || display.le(&video) {
            100
        } else {
            ratio_percent
        },
        _ => 100,
    }
}

impl PlayerController {
    /// Whether it is time to look at the display, which is noted.
    pub fn display_refresh_due(&mut self, now: u64) -> (due: bool)
        ensures
            due == old(self)@.display_due(now),
            final(self)@ == if due {
                PlayerView { display_refresh: Some(now), ..old(self)@ }
            } else {
                old(self)@
            },
    {
        if self.state != LoadState::Loaded {
            return false;
        }
        let waited = match self.last_display_refresh {
            Some(last) => has_passed(last, now, DISPLAY_REFRESH_INTERVAL),
            None => true,
        };
        if waited {
            self.last_display_refresh = Some(now);
        }
        waited
    }

    /// Takes in the state of the display.
    pub fn apply_display_output_mode(&mut self, state: DisplayOutputState)
        ensures
            final(self)@ == old(self)@.displayed(state),
    {
        let known = match self.last_display_output {
            Some((seen, gpu)) => seen == state && gpu == self.gpu_video_processing,
            None => false,
        };
        if known {
            return ;
        }
        if self.managed_gpu_filter_applied {
            let _id = self.send_command(
                filter_cmd("remove", "@stremio-gpu-processing"),
                Purpose::RemoveFilter,
            );
        }
        if self.gpu_video_processing {
            let filter = gpu_filter_text(state);
            let _id = self.send_command(filter_cmd("add", filter.as_str()), Purpose::AddFilter);
        }
        if state.mode == DisplayOutputMode::Sdr {
            self.set_plain("d3d11-output-csp", "srgb");
            self.set_plain("target-colorspace-hint", "yes");
            self.set_plain("target-trc", "srgb");
            self.set_plain("target-prim", "bt.709");
        } else {
            self.set_plain("d3d11-output-csp", "auto");
            self.set_plain("target-colorspace-hint", "auto");
            self.set_plain("target-trc", "auto");
            self.set_plain("target-prim", "auto");
        }
        self.last_display_output = Some((state, self.gpu_video_processing));
    }

    /// Whether it is time to put the video behind the web interface again,
    /// which is noted.
    pub fn surface_refresh_due(&mut self, now: u64) -> (due: bool)
        ensures
            due == (old(self)@.surface_refresh matches Some(last) ==> passed(
                last,
                now,
                SURFACE_ORDER_REFRESH_INTERVAL,
            )),
            final(self)@ == if due {
                PlayerView { surface_refresh: Some(now), ..old(self)@ }
            } else {
                old(self)@
            },
    {
        let waited = match self.last_surface_order_refresh {
            Some(last) => has_passed(last, now, SURFACE_ORDER_REFRESH_INTERVAL),
            None => true,
        };
        if waited {
            self.last_surface_order_refresh = Some(now);
        }
        waited
    }

    /// Observes what the shell itself wants to know of the playback.
    pub fn observe_own_properties(&mut self)
        ensures
            final(self)@ == old(self)@.watching("time-pos"@, Format::Double).watching(
                "duration"@,
                Format::Double,
            ).watching("pause"@, Format::Flag).watching("chapter"@, Format::Int64).watching(
                "chapters"@,
                Format::Int64,
            ).watching("chapter-metadata/by-key/title"@, Format::Text),
    {
        self.watch("time-pos", Format::Double);
        self.watch("duration", Format::Double);
        self.watch("pause", Format::Flag);
        self.watch("chapter", Format::Int64);
        self.watch("chapters", Format::Int64);
        self.watch("chapter-metadata/by-key/title", Format::Text);
    }

    fn watch(&mut self, name: &str, format: Format)
        ensures
            final(self)@ == old(self)@.watching(name@, format),
    {
        self.act(PlayerAction::Observe { name: name.to_string(), format });
        let _new = self.observed_properties.insert(name.to_string());
    }
}

impl PlayerView {
    /// After a property was put under observation.
    pub open spec fn watching(self, name: Seq<char>, format: Format) -> PlayerView {
        PlayerView { observed: self.observed.insert(name), ..self }.doing(
            PlayerActionView::Observe { name, format },
        )
    }
}

// ---------------------------------------------------------------------------
// Laws
// ---------------------------------------------------------------------------

/// No property waits twice.
pub open spec fn each_waits_once(waiting: Seq<(Seq<char>, PropView)>) -> bool {
    forall|i: int, j: int|
        0 <= i < waiting.len() && 0 <= j < waiting.len() && waiting[i].0 == waiting[j].0 ==> i == j
}

pub proof fn place_is_first(waiting: Seq<(Seq<char>, PropView)>, name: Seq<char>)
    ensures
        0 <= place_of(waiting, name) <= waiting.len(),
        place_of(waiting, name) < waiting.len() ==> waiting[place_of(waiting, name)].0 == name,
        forall|i: int| 0 <= i < place_of(waiting, name) ==> (#[trigger] waiting[i]).0 != name,
    decreases waiting.len(),
{
    if waiting.len() > 0 {
        let rest = waiting.drop_last();
        place_is_first(rest, name);
        assert forall|i: int| 0 <= i < place_of(waiting, name) implies (#[trigger] waiting[i]).0
            != name by {
            if i < rest.len() {
                assert(waiting[i] == rest[i]);
            }
        }
    }
}

/// Of a property that waits only the latest value is kept, and the others wait
/// on with theirs.
pub proof fn latest_waiting_value_wins(
    waiting: Seq<(Seq<char>, PropView)>,
    name: Seq<char>,
    value: PropView,
)
    requires
        each_waits_once(waiting),
    ensures
        each_waits_once(queued(waiting, name, value)),
        queued(waiting, name, value).contains((name, value)),
        forall|i: int|
            0 <= i < waiting.len() && (#[trigger] waiting[i]).0 != name ==> queued(
                waiting,
                name,
                value,
            )[i] == waiting[i],
{
    place_is_first(waiting, name);
    let place = place_of(waiting, name);
    let after = queued(waiting, name, value);
    if place < waiting.len() {
        assert(after[place] == (name, value));
    } else {
        assert(after[waiting.len() as int] == (name, value));
    }
}

/// What needs no file is set before a load, in order; what belongs to the file
/// waits on, in order.
pub proof fn only_file_properties_wait_on(v: PlayerView, props: Seq<(Seq<char>, PropView)>)
    ensures
        forall|i: int|
            0 <= i < v.preset(props).waiting.len() ==> file_scoped(
                (#[trigger] v.preset(props).waiting[i]).0,
            ) && props.contains(v.preset(props).waiting[i]),
        v.preset(props).outbox.len() + v.preset(props).waiting.len() == v.outbox.len()
            + props.len(),
        v.preset(props).state == v.state,
        v.preset(props).pending == v.pending,
        v.preset(props).active == v.active,
    decreases props.len(),
{
    if props.len() > 0 {
        let rest = props.drop_last();
        only_file_properties_wait_on(v, rest);
        let after = v.preset(props).waiting;
        let before = v.preset(rest).waiting;
        assert forall|i: int| 0 <= i < after.len() implies file_scoped((#[trigger] after[i]).0)
            && props.contains(after[i]) by {
            if i < before.len() {
                assert(after[i] == before[i]);
                let k = rest.index_of(before[i]);
                assert(rest[k] == before[i]);
                assert(props[k] == after[i]);
            } else {
                assert(after[i] == props.last());
                assert(props[props.len() - 1] == after[i]);
            }
        }
    }
}

/// A load command that comes while a stop is under way is not sent but kept,
/// and is sent when the stop is over.
pub proof fn loads_wait_for_stops(v: PlayerView, cmd: CmdView, hint: StartHint, now: u64, later: u64)
    requires
        v.state == LoadState::Stopping,
        sanitized(cmd, hint, v.playback.stream_url, v.playback.time).is_load(),
    ensures
        v.commanded(cmd, hint, now).outbox == v.outbox,
        v.commanded(cmd, hint, now).state == LoadState::Stopping,
        ({
            let clean = sanitized(cmd, hint, v.playback.stream_url, v.playback.time);
            let after = v.commanded(cmd, hint, now).released(later);
            &&& after.pending is None
            &&& after.state == LoadState::Loading
            &&& after.active is Some && after.active->0.cmd == clean
            &&& after.outbox.len() > 0
            &&& after.outbox.last() matches PlayerActionView::Command { cmd: sent, purpose, .. }
            &&& sent == clean
            &&& purpose == Purpose::Load
        }),
{
    let waits = v.commanded(cmd, hint, now);
    only_file_properties_wait_on(waits.flagged(false, false), waits.waiting);
    let ready = PlayerView {
        state: LoadState::Idle,
        stop_started: None,
        stop_request: None,
        ..waits.flagged(false, false).preset(waits.waiting)
    };
    let taken = PlayerView { pending: None, ..ready };
    only_file_properties_wait_on(taken.aborted(), taken.waiting);
}

/// A second stop while one is under way does nothing.
pub proof fn stops_are_not_repeated(v: PlayerView, first: CmdView, second: CmdView, now: u64, later: u64)
    requires
        v.stopped(first, now).state == LoadState::Stopping,
    ensures
        v.stopped(first, now).stopped(second, later) == v.stopped(first, now),
{
}

/// The counts of attempts never pass their limits.
pub open spec fn within_limits(v: PlayerView) -> bool {
    &&& v.retries <= LOCAL_STREAM_STARTUP_RETRY_LIMIT
    &&& v.recoveries <= MPV_COMMAND_QUEUE_RECOVERY_LIMIT
    &&& v.eof_reloads <= PREMATURE_EOF_RELOAD_LIMIT
}

proof fn presets_keep_counts(v: PlayerView, props: Seq<(Seq<char>, PropView)>)
    ensures
        v.preset(props).retries == v.retries,
        v.preset(props).recoveries == v.recoveries,
        v.preset(props).eof_reloads == v.eof_reloads,
        v.file_set(props).retries == v.retries,
        v.file_set(props).recoveries == v.recoveries,
        v.file_set(props).eof_reloads == v.eof_reloads,
    decreases props.len(),
{
    if props.len() > 0 {
        presets_keep_counts(v, props.drop_last());
    }
}

proof fn loading_keeps_counts(v: PlayerView, cmd: CmdView, start: Option<Real>, now: u64)
    ensures
        v.loading(cmd, start, now).retries == v.retries,
        v.loading(cmd, start, now).recoveries == v.recoveries,
        v.loading(cmd, start, now).eof_reloads == v.eof_reloads,
{
    presets_keep_counts(v.aborted(), v.waiting);
}

proof fn releasing_keeps_counts(v: PlayerView, now: u64)
    ensures
        v.released(now).retries == v.retries,
        v.released(now).recoveries == v.recoveries,
        v.released(now).eof_reloads == v.eof_reloads,
{
    presets_keep_counts(v.flagged(false, false), v.waiting);
    let ready = PlayerView {
        state: LoadState::Idle,
        stop_started: None,
        stop_request: None,
        ..v.flagged(false, false).preset(v.waiting)
    };
    if ready.pending is Some {
        loading_keeps_counts(
            PlayerView { pending: None, ..ready },
            ready.pending->0.cmd,
            ready.pending->0.start,
            now,
        );
    }
}

/// Whatever happens, a local stream is tried at most sixty times more, a
/// command that gets no answer is sent anew at most three times, and a stream
/// that ends early is loaded anew at most once.
pub proof fn attempts_are_limited(
    v: PlayerView,
    msg: InView,
    reason: EndReason,
    tail: Real,
    clock: Clock,
    id: u64,
)
    requires
        within_limits(v),
    ensures
        within_limits(v.asked(msg, clock.now)),
        within_limits(v.file_started()),
        within_limits(v.file_loaded()),
        within_limits(v.failed(clock)),
        within_limits(v.file_ended(reason, tail, clock)),
        within_limits(v.answered(id, clock.now)),
        within_limits(v.stop_flushed(clock.now)),
        within_limits(v.load_flushed(clock)),
        within_limits(v.retry_flushed(clock.now)),
{
    commands_stay_within_limits(v, msg, clock.now);
    ends_stay_within_limits(v, reason, tail, clock);
    presets_keep_counts(
        PlayerView {
            state: LoadState::Loaded,
            stop_started: None,
            stop_request: None,
            active: None,
            retry: None,
            retries: 0,
            playback: PlaybackView {
                load_epoch: following(v.playback.load_epoch),
                file_loaded: true,
                stopping: false,
                ..v.playback
            },
            ..v
        },
        v.waiting,
    );
    releasing_keeps_counts(PlayerView { stop_request: None, ..v }, clock.now);
    releasing_keeps_counts(v, clock.now);
    if v.stop_request is Some {
        releasing_keeps_counts(
            PlayerView { stop_request: None, ..v }.doing(
                PlayerActionView::Abort { request_id: v.stop_request->0 },
            ),
            clock.now,
        );
    }
    recoveries_stay_within_limits(v, clock);
    retries_stay_within_limits(v, clock.now);
}

proof fn commands_stay_within_limits(v: PlayerView, msg: InView, now: u64)
    requires
        within_limits(v),
    ensures
        within_limits(v.asked(msg, now)),
{
    if let InView::Command { cmd, hint } = msg {
        let clean = sanitized(cmd, hint, v.playback.stream_url, v.playback.time);
        let start = sanitized_start(cmd, hint, v.playback.stream_url, v.playback.time);
        if clean.is_load() {
            loading_keeps_counts(v.captured(clean.args[0]), clean, start, now);
        }
    }
}

proof fn ends_stay_within_limits(v: PlayerView, reason: EndReason, tail: Real, clock: Clock)
    requires
        within_limits(v),
    ensures
        within_limits(v.file_ended(reason, tail, clock)),
{
    let tried = if reason == EndReason::Error {
        v.failed(clock)
    } else {
        v
    };
    let done = tried.file_done();
    if done.pending is Some {
        loading_keeps_counts(
            PlayerView { pending: None, ..done },
            done.pending->0.cmd,
            done.pending->0.start,
            clock.now,
        );
    }
    let url = fresh_url(done.current_url, clock.unix_millis);
    loading_keeps_counts(
        PlayerView {
            eof_reloads: (done.eof_reloads + 1) as u32,
            reload_url: Some(url),
            reload_seek: Some(done.playback.time),
            ..done.at_url(url)
        },
        replacing(url),
        None,
        clock.now,
    );
}

proof fn recoveries_stay_within_limits(v: PlayerView, clock: Clock)
    requires
        within_limits(v),
    ensures
        within_limits(v.load_flushed(clock)),
{
    if let Some(a) = v.active {
        let cmd = fresh_load(a.cmd, clock.unix_millis);
        let url = if cmd.is_load() {
            cmd.args[0]
        } else {
            a.url
        };
        releasing_keeps_counts(
            PlayerView {
                recoveries: (v.recoveries + 1) as u32,
                pending: Some(PendingView { cmd, start: a.start }),
                ..v.aborted().at_url(url)
            },
            clock.now,
        );
    }
}

proof fn retries_stay_within_limits(v: PlayerView, now: u64)
    requires
        within_limits(v),
    ensures
        within_limits(v.retry_flushed(now)),
{
    if let Some(r) = v.retry {
        let moved = PlayerView { retry: None, ..v }.at_url(r.retry_url);
        loading_keeps_counts(moved, replacing(r.retry_url), None, now);
        loading_keeps_counts(
            PlayerView { reload_url: Some(r.retry_url), reload_seek: r.resume, ..moved },
            replacing(r.retry_url),
            None,
            now,
        );
    }
}

/// The same display is not set up twice in a row.
pub proof fn same_display_is_left_alone(v: PlayerView, state: DisplayOutputState)
    ensures
        v.displayed(state).displayed(state) == v.displayed(state),
{
}

/// A property that is known to be rendered with the same value is not set
/// again: nothing is asked of the player.
pub proof fn repeated_render_setup_is_coalesced(
    v: PlayerView,
    name: Seq<char>,
    value: PropView,
    refresh: bool,
)
    requires
        unchanged_render(v.render, name, value),
    ensures
        v.set_asked(name, value, refresh).next_id == v.next_id,
        v.set_asked(name, value, refresh).outbox.len() == v.outbox.len() + 1,
        v.set_asked(name, value, refresh).outbox.last() is Emit,
{
}

} // verus!
