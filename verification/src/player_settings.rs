//! The player's own settings file: the volume.

use crate::number::Real;
use crate::shell_state::{default_volume, default_volume_spec, sane_volume, sanitize_volume};
use vstd::prelude::*;

verus! {

/// What the settings file holds.
#[derive(Debug, Clone, Copy)]
pub struct PlayerSettings {
    pub volume: Real,
}

/// The volume to start with: that of the file, where it could be read.
pub fn load_volume(settings: Option<PlayerSettings>) -> (volume: Real)
    ensures
        volume == match settings {
            Some(s) => sane_volume(s.volume),
            None => default_volume_spec(),
        },
{
    match settings {
        Some(settings) => sanitize_volume(settings.volume),
        None => default_volume(),
    }
}

/// The settings to write for a volume.
pub fn settings_for(volume: Real) -> (settings: PlayerSettings)
    ensures
        settings.volume == sane_volume(volume),
{
    PlayerSettings { volume: sanitize_volume(volume) }
}

/// A sane volume that was written is read back.
pub proof fn saved_volume_comes_back(volume: Real)
    requires
        volume == sane_volume(volume),
    ensures
        sane_volume((PlayerSettings { volume: sane_volume(volume) }).volume) == volume,
{
}

} // verus!
