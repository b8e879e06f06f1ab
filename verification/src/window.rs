//! The modes of the main window: filling the screen, and the small window that
//! floats above the others with the video in it.

use vstd::prelude::*;

verus! {

/// The modes of the main window, and the changes that were asked for.
#[derive(Clone, Copy, Debug, PartialEq, Eq, Structural)]
pub struct WindowModes {
    pub full_screen: bool,
    pub requested_fullscreen: Option<bool>,
    /// The small window was built.
    pub pip_built: bool,
    /// The small window is shown.
    pub pip_active: bool,
    pub requested_pip: Option<bool>,
    /// The window of the video, once it is known.
    pub video: Option<usize>,
}

/// What is done about the small window.
#[derive(Clone, Copy, Debug, PartialEq, Eq, Structural)]
pub enum PipStep {
    Nothing,
    /// The window of the video is not there yet.
    Missing,
    /// Put the window of the video into the small window, and show it.
    Attach(usize),
    /// Save where the small window is, take the window of the video out of
    /// it, and hide it.
    Detach,
}

/// The first of two values that is there.
pub open spec fn first_of(a: Option<usize>, b: Option<usize>) -> Option<usize> {
    if a is Some {
        a
    } else {
        b
    }
}

/// What was asked for, or else the opposite of what is.
pub open spec fn wanted(requested: Option<bool>, current: bool) -> bool {
    match requested {
        Some(target) => target,
        None => !current,
    }
}

impl WindowModes {
    /// The video is not in the small window while the main one fills the
    /// screen, and a small window is shown only once it was built.
    pub open spec fn valid(self) -> bool {
        &&& !(self.full_screen && self.pip_active)
        &&& self.pip_active ==> self.pip_built
    }

    /// The modes after a change of the small window. While the main window
    /// fills the screen the request is dropped.
    pub open spec fn pip_toggled(self, window: bool, found: Option<usize>) -> (WindowModes, PipStep) {
        let asked = WindowModes { requested_pip: None, ..self };
        let target = wanted(self.requested_pip, self.pip_active);
        let video = first_of(self.video, found);
        if !window {
            (self, PipStep::Nothing)
        } else if self.full_screen || target == self.pip_active || !self.pip_built {
            (asked, PipStep::Nothing)
        } else if !target {
            (WindowModes { pip_active: false, ..asked }, PipStep::Detach)
        } else if video is Some {
            (WindowModes { pip_active: true, video, ..asked }, PipStep::Attach(video->0))
        } else {
            (asked, PipStep::Missing)
        }
    }

    /// The modes once the small window was left.
    pub open spec fn pip_left(self, window: bool, found: Option<usize>) -> (WindowModes, PipStep) {
        if self.pip_active {
            WindowModes { requested_pip: Some(false), ..self }.pip_toggled(window, found)
        } else {
            (self, PipStep::Nothing)
        }
    }

    /// The modes after a change of the main window: the small window is left
    /// first.
    pub open spec fn fullscreen_toggled(self, window: bool, found: Option<usize>) -> WindowModes {
        let left = self.pip_left(window, found).0;
        if window {
            WindowModes {
                full_screen: wanted(left.requested_fullscreen, left.full_screen),
                requested_fullscreen: None,
                ..left
            }
        } else {
            left
        }
    }

    pub fn new() -> (modes: WindowModes)
        ensures
            modes == (WindowModes {
                full_screen: false,
                requested_fullscreen: None,
                pip_built: false,
                pip_active: false,
                requested_pip: None,
                video: None,
            }),
            modes.valid(),
    {
        WindowModes {
            full_screen: false,
            requested_fullscreen: None,
            pip_built: false,
            pip_active: false,
            requested_pip: None,
            video: None,
        }
    }

    /// Changes the small window as was asked, where `window` says that the
    /// main window is there, and `found` is the window of the video.
    pub fn on_toggle_pip_notice(&mut self, window: bool, found: Option<usize>) -> (step: PipStep)
        ensures
            (*final(self), step) == old(self).pip_toggled(window, found),
    {
        if !window {
            return PipStep::Nothing;
        }
        let requested = self.requested_pip.take();
        if self.full_screen {
            return PipStep::Nothing;
        }
        let target = match requested {
            Some(target) => target,
            None => !self.pip_active,
        };
        if target == self.pip_active || !self.pip_built {
            return PipStep::Nothing;
        }
        if !target {
            self.pip_active = false;
            return PipStep::Detach;
        }
        let video = match self.video {
            Some(video) => Some(video),
            None => found,
        };
        match video {
            Some(child) => {
                self.video = Some(child);
                self.pip_active = true;
                PipStep::Attach(child)
            },
            None => PipStep::Missing,
        }
    }

    /// Changes the small window whichever way it is.
    pub fn on_tray_toggle_pip(&mut self)
        ensures
            *final(self) == (WindowModes { requested_pip: None, ..*old(self) }),
    {
        self.requested_pip = None;
    }

    fn leave_pip(&mut self, window: bool, found: Option<usize>) -> (step: PipStep)
        ensures
            (*final(self), step) == old(self).pip_left(window, found),
    {
        if self.pip_active {
            self.requested_pip = Some(false);
            self.on_toggle_pip_notice(window, found)
        } else {
            PipStep::Nothing
        }
    }

    /// Changes the main window as was asked. The small window is left first.
    pub fn on_toggle_fullscreen_notice(&mut self, window: bool, found: Option<usize>) -> (step:
        PipStep)
        ensures
            *final(self) == old(self).fullscreen_toggled(window, found),
            step == old(self).pip_left(window, found).1,
    {
        let step = self.leave_pip(window, found);
        if window {
            let requested = self.requested_fullscreen.take();
            self.full_screen = match requested {
                Some(target) => target,
                None => !self.full_screen,
            };
        }
        step
    }

    /// Leaves the small window before the shell ends. Where it is not shown,
    /// only its place is saved, as the result says.
    pub fn on_exit(&mut self, window: bool, found: Option<usize>) -> (step: (PipStep, bool))
        ensures
            (*final(self), step.0) == old(self).pip_left(window, found),
            step.1 == !old(self).pip_active,
    {
        let save_place = !self.pip_active;
        (self.leave_pip(window, found), save_place)
    }

    /// The place of the main window is saved: not while it fills the screen.
    pub fn saves_window_settings(&self) -> (saves: bool)
        ensures
            saves == !self.full_screen,
    {
        !self.full_screen
    }
}

// ---------------------------------------------------------------------------
// Laws
// ---------------------------------------------------------------------------

/// No change of the windows leaves the video in the small window while the
/// main one fills the screen.
pub proof fn modes_stay_apart(modes: WindowModes, window: bool, found: Option<usize>)
    requires
        modes.valid(),
    ensures
        modes.pip_toggled(window, found).0.valid(),
        modes.pip_left(window, found).0.valid(),
        modes.fullscreen_toggled(window, found).valid(),
{
}

/// Leaving the small window leaves it, where there is a main window for the
/// video.
pub proof fn leaving_ends_the_small_window(modes: WindowModes, found: Option<usize>)
    requires
        modes.valid(),
    ensures
        !modes.pip_left(true, found).0.pip_active,
        !modes.fullscreen_toggled(true, found).pip_active,
{
}

/// Turning the small window over twice, with nothing asked for between, brings
/// back what was shown.
pub proof fn turning_over_twice_changes_nothing(modes: WindowModes, found: Option<usize>)
    requires
        modes.valid(),
        modes.requested_pip is None,
        modes.video is Some,
    ensures
        modes.pip_toggled(true, found).0.pip_toggled(true, found).0 == modes,
{
}

} // verus!
