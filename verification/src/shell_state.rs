//! What the shell remembers between runs: the window, the small window and the
//! volume.

use crate::number::{real_zero, Real, HUNDRED_BITS, HUNDRED_THIRTY_BITS};
use vstd::prelude::*;

verus! {

pub const SHELL_STATE_VERSION: u32 = 1;

/// The window is shown at its normal size.
pub const SHOW_NORMAL: u32 = 1;

/// The window fills the screen.
pub const SHOW_MAXIMIZED: u32 = 3;

// ---------------------------------------------------------------------------
// Volume
// ---------------------------------------------------------------------------

pub open spec fn default_volume_spec() -> Real {
    Real { bits: HUNDRED_BITS }
}

pub open spec fn max_volume_spec() -> Real {
    Real { bits: HUNDRED_THIRTY_BITS }
}

/// A volume that the player takes: between 0 and 130, and 100 for what is no
/// finite number.
pub open spec fn sane_volume(volume: Real) -> Real {
    if !volume.finite() {
        default_volume_spec()
    } else if volume.less(real_zero()) {
        real_zero()
    } else if max_volume_spec().less(volume) {
        max_volume_spec()
    } else {
        volume
    }
}

pub fn default_volume() -> (volume: Real)
    ensures
        volume == default_volume_spec(),
{
    Real::from_bits(HUNDRED_BITS)
}

pub fn max_volume() -> (volume: Real)
    ensures
        volume == max_volume_spec(),
{
    Real::from_bits(HUNDRED_THIRTY_BITS)
}

pub fn sanitize_volume(volume: Real) -> (sane: Real)
    ensures
        sane == sane_volume(volume),
{
    if !volume.is_finite() {
        default_volume()
    } else if volume.lt(&Real::from_bits(0)) {
        Real::from_bits(0)
    } else if max_volume().lt(&volume) {
        max_volume()
    } else {
        volume
    }
}

/// Saves a volume once it stays the same for a while.
#[derive(Debug, Clone, Copy)]
pub struct VolumeSaver {
    pub last_saved: Real,
}

impl VolumeSaver {
    /// The volume to hand to the saver, where it is a finite number.
    pub fn to_queue(volume: Real) -> (queued: Option<Real>)
        ensures
            queued == if volume.finite() {
                Some(sane_volume(volume))
            } else {
                None
            },
    {
        if volume.is_finite() {
            Some(sanitize_volume(volume))
        } else {
            None
        }
    }

    /// Whether the volume at which the user stopped is to be saved: another one
    /// than was saved last.
    pub fn wants(&self, volume: Real) -> (save: bool)
        ensures
            save == !volume.equals(self.last_saved),
    {
        !volume.same(&self.last_saved)
    }

    /// Takes in whether the volume was saved.
    pub fn done(&mut self, volume: Real, saved: bool)
        ensures
            final(self).last_saved == if saved {
                volume
            } else {
                old(self).last_saved
            },
    {
        if saved {
            self.last_saved = volume;
        }
    }
}

// ---------------------------------------------------------------------------
// Windows
// ---------------------------------------------------------------------------

#[derive(Debug, Clone, Copy, PartialEq, Eq, Structural)]
pub struct Point {
    pub x: i32,
    pub y: i32,
}

#[derive(Debug, Clone, Copy, PartialEq, Eq, Structural)]
pub struct Rect {
    pub left: i32,
    pub top: i32,
    pub right: i32,
    pub bottom: i32,
}

/// The rectangle holds something.
pub open spec fn restorable(rect: Rect) -> bool {
    rect.right > rect.left && rect.bottom > rect.top
}

pub fn is_restorable_size(rect: &Rect) -> (yes: bool)
    ensures
        yes == restorable(*rect),
{
    rect.right > rect.left && rect.bottom > rect.top
}

/// Where the small window stands.
#[derive(Debug, Clone, Copy, PartialEq, Eq, Structural)]
pub struct PipPlacement {
    pub x: i32,
    pub y: i32,
    pub width: i32,
    pub height: i32,
    pub transparent: bool,
}

/// Where the window stands and how it is shown.
#[derive(Debug, Clone, Copy, PartialEq, Eq, Structural)]
pub struct WindowSettings {
    pub show_cmd: u32,
    pub min_position: Point,
    pub max_position: Point,
    pub normal_position: Rect,
}

/// The placement to give to a window for what was remembered of it.
pub open spec fn placed(settings: WindowSettings) -> WindowSettings {
    WindowSettings {
        show_cmd: if restorable(settings.normal_position) {
            settings.show_cmd
        } else {
            SHOW_NORMAL
        },
        ..settings
    }
}

/// What to remember of a window's placement.
pub open spec fn remembered(iconic: bool, placement: Option<WindowSettings>) -> Option<
    WindowSettings,
> {
    match placement {
        Some(p) => if !iconic && restorable(p.normal_position) {
            Some(
                WindowSettings {
                    show_cmd: if p.show_cmd == SHOW_MAXIMIZED {
                        SHOW_MAXIMIZED
                    } else {
                        SHOW_NORMAL
                    },
                    ..p
                },
            )
        } else {
            None
        },
        None => None,
    }
}

impl WindowSettings {
    /// The placement to give to the window: an empty one is shown at its
    /// normal size.
    pub fn to_window_placement(&self) -> (placement: WindowSettings)
        ensures
            placement == (WindowSettings {
                show_cmd: if restorable(self.normal_position) {
                    self.show_cmd
                } else {
                    SHOW_NORMAL
                },
                ..*self
            }),
            placement == placed(*self),
    {
        let show_cmd: u32 = if is_restorable_size(&self.normal_position) {
            self.show_cmd
        } else {
            SHOW_NORMAL
        };
        WindowSettings {
            show_cmd,
            min_position: self.min_position,
            max_position: self.max_position,
            normal_position: self.normal_position,
        }
    }

    /// What to remember of a window's placement: nothing of a minimised window
    /// or an empty one, and of the way it is shown only whether it fills the
    /// screen.
    pub fn from_placement(iconic: bool, placement: Option<WindowSettings>) -> (settings: Option<
        WindowSettings,
    >)
        ensures
            settings == match placement {
                Some(p) => if !iconic && restorable(p.normal_position) {
                    Some(
                        WindowSettings {
                            show_cmd: if p.show_cmd == SHOW_MAXIMIZED {
                                SHOW_MAXIMIZED
                            } else {
                                SHOW_NORMAL
                            },
                            ..p
                        },
                    )
                } else {
                    None
                },
                None => None,
            },
            settings == remembered(iconic, placement),
    {
        if iconic {
            return None;
        }
        match placement {
            Some(p) => {
                if !is_restorable_size(&p.normal_position) {
                    return None;
                }
                let show_cmd: u32 = if p.show_cmd == SHOW_MAXIMIZED {
                    SHOW_MAXIMIZED
                } else {
                    SHOW_NORMAL
                };
                Some(
                    WindowSettings {
                        show_cmd,
                        min_position: p.min_position,
                        max_position: p.max_position,
                        normal_position: p.normal_position,
                    },
                )
            },
            None => None,
        }
    }
}

// ---------------------------------------------------------------------------
// The state
// ---------------------------------------------------------------------------

/// Everything that the shell remembers.
#[derive(Debug, Clone, Copy)]
pub struct ShellState {
    pub version: u32,
    pub window: Option<WindowSettings>,
    pub fullscreen: bool,
    pub pip: Option<PipPlacement>,
    pub volume: Real,
}

pub open spec fn new_state() -> ShellState {
    ShellState {
        version: SHELL_STATE_VERSION,
        window: None,
        fullscreen: false,
        pip: None,
        volume: default_volume_spec(),
    }
}

impl Default for ShellState {
    fn default() -> (state: ShellState)
        ensures
            state == new_state(),
    {
        ShellState {
            version: SHELL_STATE_VERSION,
            window: None,
            fullscreen: false,
            pip: None,
            volume: default_volume(),
        }
    }
}

impl ShellState {
    /// The state as it is kept: of this version and with a sane volume.
    pub open spec fn settled(self) -> ShellState {
        ShellState { version: SHELL_STATE_VERSION, volume: sane_volume(self.volume), ..self }
    }

    /// The state once the place of the window was noted.
    pub open spec fn with_window(self, placement: Option<WindowSettings>, fullscreen: bool) -> ShellState {
        (ShellState {
            fullscreen,
            window: if !fullscreen && placement is Some {
                placement
            } else {
                self.window
            },
            ..self
        }).settled()
    }

    /// The state once the place of the small window was noted.
    pub open spec fn with_pip(self, placement: PipPlacement) -> ShellState {
        (ShellState { pip: Some(placement), ..self }).settled()
    }

    /// The state once the volume was noted.
    pub open spec fn with_volume(self, volume: Real) -> ShellState {
        (ShellState { volume: sane_volume(volume), ..self }).settled()
    }

    /// Brings the state into the form in which it is kept.
    fn settle(&mut self)
        ensures
            *final(self) == old(self).settled(),
    {
        self.version = SHELL_STATE_VERSION;
        self.volume = sanitize_volume(self.volume);
    }
}

impl PipPlacement {
    /// Where the small window stood.
    pub fn load(state: &ShellState) -> (placement: Option<PipPlacement>)
        ensures
            placement == state.pip,
    {
        state.pip
    }

    /// Remembers where the small window stands, and has the state written.
    pub fn save<W, E>(placement: PipPlacement, state: &mut ShellState, write: W) -> (done: Result<
        (),
        E,
    >) where W: FnOnce(ShellState) -> Result<(), E>
        requires
            forall|s: ShellState| #[trigger] call_requires(write, (s,)),
        ensures
            *final(state) == (ShellState { pip: Some(placement), ..*old(state) }).settled(),
            *final(state) == old(state).with_pip(placement),
            call_ensures(write, (*final(state),), done),
    {
        state.pip = Some(placement);
        state.settle();
        write(*state)
    }
}

/// Where the window stood, and whether it filled the screen.
pub fn load_window_state(state: &ShellState) -> (window: (Option<WindowSettings>, bool))
    ensures
        window == (state.window, state.fullscreen),
{
    (state.window, state.fullscreen)
}

/// Remembers where the window stands, unless it fills the screen, and has the
/// state written.
pub fn save_window_state<W, E>(
    placement: Option<WindowSettings>,
    fullscreen: bool,
    state: &mut ShellState,
    write: W,
) -> (done: Result<(), E>) where W: FnOnce(ShellState) -> Result<(), E>
    requires
        forall|s: ShellState| #[trigger] call_requires(write, (s,)),
    ensures
        *final(state) == (ShellState {
            fullscreen,
            window: if !fullscreen && placement is Some {
                placement
            } else {
                old(state).window
            },
            ..*old(state)
        }).settled(),
        *final(state) == old(state).with_window(placement, fullscreen),
        call_ensures(write, (*final(state),), done),
{
    state.fullscreen = fullscreen;
    if !fullscreen && placement.is_some() {
        state.window = placement;
    }
    state.settle();
    write(*state)
}

/// The volume to start with.
pub fn load_volume(state: &ShellState) -> (volume: Real)
    ensures
        volume == sane_volume(state.volume),
{
    sanitize_volume(state.volume)
}

/// Remembers the volume, and has the state written.
pub fn save_volume_now<W, E>(volume: Real, state: &mut ShellState, write: W) -> (done: Result<
    (),
    E,
>) where W: FnOnce(ShellState) -> Result<(), E>
    requires
        forall|s: ShellState| #[trigger] call_requires(write, (s,)),
    ensures
        *final(state) == (ShellState { volume: sane_volume(volume), ..*old(state) }).settled(),
        *final(state) == old(state).with_volume(volume),
        call_ensures(write, (*final(state),), done),
{
    state.volume = sanitize_volume(volume);
    state.settle();
    write(*state)
}

/// What was found of the state at the start: the file in which it is kept, and
/// the three that older versions kept.
#[derive(Debug, Clone, Copy)]
pub struct FoundState {
    pub current: Option<ShellState>,
    pub legacy_window: Option<WindowSettings>,
    pub legacy_pip: Option<PipPlacement>,
    pub legacy_volume: Option<Real>,
    /// Whether any of the older files is there.
    pub has_legacy_files: bool,
}

/// The state to start with.
pub open spec fn started_with(found: FoundState) -> ShellState {
    match found.current {
        Some(state) => state.settled(),
        None => ShellState {
            window: found.legacy_window,
            pip: found.legacy_pip,
            volume: match found.legacy_volume {
                Some(volume) => sane_volume(volume),
                None => default_volume_spec(),
            },
            ..new_state()
        },
    }
}

/// The state is to be written anew: older versions left theirs, and this one
/// none that can be read.
pub open spec fn migrates(found: FoundState) -> bool {
    found.current is None && found.has_legacy_files
}

/// The older files are removed, given whether the state is to be written anew
/// and whether that succeeded.
pub open spec fn removes_older(migrate: bool, written: bool) -> bool {
    migrate && written
}

/// The state to start with, and whether it is to be written and the older files
/// removed once that is done.
pub fn load_or_migrate_state(found: FoundState) -> (start: (ShellState, bool))
    ensures
        start.0 == started_with(found),
        start.1 == migrates(found),
{
    match found.current {
        Some(state) => {
            let mut state = state;
            state.settle();
            (state, false)
        },
        None => {
            let volume = match found.legacy_volume {
                Some(volume) => sanitize_volume(volume),
                None => default_volume(),
            };
            let state = ShellState {
                version: SHELL_STATE_VERSION,
                window: found.legacy_window,
                fullscreen: false,
                pip: found.legacy_pip,
                volume,
            };
            (state, found.has_legacy_files)
        },
    }
}

/// Whether the older files are removed, given whether the state was to be
/// written anew and whether that succeeded.
pub fn migrated(migrate: bool, written: bool) -> (remove: bool)
    ensures
        remove == removes_older(migrate, written),
{
    migrate && written
}

// ---------------------------------------------------------------------------
// Laws
// ---------------------------------------------------------------------------

/// A sane volume is a number between 0 and 130, and stays as it is.
pub proof fn sane_volumes_stay(volume: Real)
    ensures
        sane_volume(volume).finite(),
        real_zero().at_most(sane_volume(volume)),
        sane_volume(volume).at_most(max_volume_spec()),
        sane_volume(sane_volume(volume)) == sane_volume(volume),
{
}

/// Settling a state twice is the same as settling it once, and touches nothing
/// but its version and its volume.
pub proof fn settling_is_final(state: ShellState)
    ensures
        state.settled().settled() == state.settled(),
        state.settled().window == state.window,
        state.settled().fullscreen == state.fullscreen,
        state.settled().pip == state.pip,
{
    sane_volumes_stay(state.volume);
}

/// A state that was saved is the state that the next run starts with.
pub proof fn saved_state_comes_back(state: ShellState, found: FoundState)
    requires
        found.current == Some(state.settled()),
    ensures
        started_with(found) == state.settled(),
{
    settling_is_final(state);
}

/// What older versions kept comes into the state of this one.
pub proof fn older_state_is_taken_over(found: FoundState)
    requires
        found.current is None,
    ensures
        started_with(found).window == found.legacy_window,
        started_with(found).pip == found.legacy_pip,
        found.legacy_volume matches Some(volume) ==> started_with(found).volume == sane_volume(
            volume,
        ),
        started_with(found).settled() == started_with(found),
{
    sane_volumes_stay(default_volume_spec());
    if found.legacy_volume is Some {
        sane_volumes_stay(found.legacy_volume->0);
    }
}

/// The older files outlive a write that fails, and a state that can be read:
/// they are removed only once the state that was made of them was written.
pub proof fn older_files_outlive_failures(found: FoundState, written: bool)
    ensures
        removes_older(migrates(found), written) <==> found.current is None
            && found.has_legacy_files && written,
        found.current is Some ==> !migrates(found) && started_with(found)
            == found.current->0.settled(),
{
}

} // verus!
