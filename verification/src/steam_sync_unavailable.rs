//! Watch parties in a build without them.

pub use crate::steam_sync::SyncUiEvent;
use vstd::prelude::*;

verus! {

/// What is said of watch parties in this build.
pub fn unavailable_message() -> (message: String)
    ensures
        message@ == "Steam watch parties are not available in this build."@,
{
    "Steam watch parties are not available in this build.".to_string()
}

/// There is nothing to leave.
pub fn leave_lobby() -> (done: Result<(), String>)
    ensures
        done is Ok,
{
    Ok(())
}

/// There is nobody to remove.
pub fn kick_member(_steam_id: u64) -> (done: Result<(), String>)
    ensures
        done is Err && done->Err_0@ == "Steam watch parties are not available in this build."@,
{
    Err(unavailable_message())
}

/// There is nothing to host.
pub fn start_host_lobby(_party_id: String, _max_size: i32) -> (link: Result<String, String>)
    ensures
        link is Err && link->Err_0@ == "Steam watch parties are not available in this build."@,
{
    Err(unavailable_message())
}

/// There is nothing to join.
pub fn connect_to_host(_join_secret: &str) -> (done: Result<(), String>)
    ensures
        done is Err && done->Err_0@ == "Steam watch parties are not available in this build."@,
{
    Err(unavailable_message())
}

} // verus!
