//! The decision core of a desktop media shell: watch-party protocol, player
//! control, automatic skipping, presence, settings and updates, as verified
//! functions from plain values to plain values.

pub mod config;
pub mod encoding;
pub mod intro_skip;
pub mod json;
pub mod lobby;
pub mod media_id;
pub mod mpv_hwnd;
pub mod number;
pub mod party_laws;
pub mod playback;
pub mod player;
pub mod player_laws;
pub mod player_rules;
pub mod player_settings;
pub mod presence;
pub mod presence_laws;
pub mod requests;
pub mod rule_laws;
pub mod server;
pub mod shell_laws;
pub mod shell_state;
pub mod skip_laws;
pub mod steam_sync;
pub mod steam_sync_unavailable;
pub mod sync_protocol;
pub mod text;
pub mod text_laws;
pub mod updater;
pub mod urls;
pub mod video_info;
pub mod webview;
pub mod window;
