use stremio_shell::mpv_hwnd::{
    find_exact_mpv_child_hwnd, find_mpv_child_hwnd, is_webview_class, ChildWindow,
};
use stremio_shell::number::Real;
use stremio_shell::player_settings::{settings_for, PlayerSettings};
use stremio_shell::shell_state::{
    default_volume, is_restorable_size, load_or_migrate_state, load_volume, load_window_state,
    max_volume, migrated, sanitize_volume, save_volume_now, save_window_state, FoundState, PipPlacement,
    Point, Rect, ShellState, VolumeSaver, WindowSettings, SHELL_STATE_VERSION, SHOW_MAXIMIZED,
    SHOW_NORMAL,
};
use stremio_shell::window::{PipStep, WindowModes};

fn float(x: f64) -> Real {
    Real::from_bits(x.to_bits())
}

fn sample_window() -> WindowSettings {
    WindowSettings {
        show_cmd: SHOW_NORMAL,
        min_position: Point { x: 0, y: 0 },
        max_position: Point { x: 0, y: 0 },
        normal_position: Rect { left: 10, top: 20, right: 1010, bottom: 620 },
    }
}

fn same_state(a: &ShellState, b: &ShellState) -> bool {
    a.version == b.version
        && a.window == b.window
        && a.fullscreen == b.fullscreen
        && a.pip == b.pip
        && a.volume == b.volume
}

#[test]
fn player_settings_volume_is_limited_to_mpv_range() {
    assert_eq!(sanitize_volume(float(-1.0)), float(0.0));
    assert_eq!(sanitize_volume(float(52.5)), float(52.5));
    assert_eq!(sanitize_volume(float(500.0)), max_volume());
}

#[test]
fn invalid_volume_uses_default() {
    assert_eq!(sanitize_volume(float(f64::NAN)), default_volume());
    assert_eq!(sanitize_volume(float(f64::INFINITY)), default_volume());
}

#[test]
fn a_saved_volume_comes_back() {
    let written = settings_for(float(47.25));
    assert_eq!(stremio_shell::player_settings::load_volume(Some(written)), float(47.25));
}

#[test]
fn missing_settings_mean_the_default_volume() {
    assert_eq!(stremio_shell::player_settings::load_volume(None), default_volume());
    let loud = PlayerSettings { volume: float(1000.0) };
    assert_eq!(stremio_shell::player_settings::load_volume(Some(loud)), max_volume());
    assert_eq!(default_volume(), float(100.0));
    assert_eq!(max_volume(), float(130.0));
}

#[test]
fn rejects_empty_window_rect() {
    assert!(!is_restorable_size(&Rect { left: 10, top: 10, right: 10, bottom: 20 }));
}

#[test]
fn accepts_non_empty_window_rect() {
    assert!(is_restorable_size(&Rect { left: 10, top: 10, right: 20, bottom: 20 }));
}

#[test]
fn shell_state_volume_is_limited_to_mpv_range() {
    assert_eq!(sanitize_volume(float(-1.0)), float(0.0));
    assert_eq!(sanitize_volume(float(52.5)), float(52.5));
    assert_eq!(sanitize_volume(float(500.0)), max_volume());
    assert_eq!(sanitize_volume(float(f64::NAN)), default_volume());
}

#[test]
fn a_saved_state_comes_back() {
    let state = ShellState {
        window: Some(sample_window()),
        fullscreen: true,
        pip: Some(PipPlacement { x: 50, y: 60, width: 640, height: 360, transparent: true }),
        volume: float(47.25),
        ..ShellState::default()
    };
    let found = FoundState {
        current: Some(state),
        legacy_window: None,
        legacy_pip: None,
        legacy_volume: None,
        has_legacy_files: false,
    };
    let (loaded, write) = load_or_migrate_state(found);
    assert!(same_state(&loaded, &state));
    assert!(!write);
}

#[test]
fn older_states_are_taken_over() {
    let window = sample_window();
    let pip = PipPlacement { x: 100, y: 200, width: 480, height: 270, transparent: false };
    let found = FoundState {
        current: None,
        legacy_window: Some(window),
        legacy_pip: Some(pip),
        legacy_volume: Some(float(63.5)),
        has_legacy_files: true,
    };

    let (migrated, write) = load_or_migrate_state(found);

    assert_eq!(migrated.window, Some(window));
    assert_eq!(migrated.pip, Some(pip));
    assert_eq!(migrated.volume, float(63.5));
    assert!(write);
}

#[test]
fn older_files_are_removed_after_the_write() {
    assert!(migrated(true, true));
    assert!(!migrated(true, false));
    assert!(!migrated(false, true));
    assert!(!migrated(false, false));
}

#[test]
fn a_state_that_can_be_read_wins() {
    let mut state = ShellState::default();
    state.version = 7;
    state.volume = float(500.0);
    let found = FoundState {
        current: Some(state),
        legacy_window: Some(sample_window()),
        legacy_pip: None,
        legacy_volume: Some(float(1.0)),
        has_legacy_files: true,
    };
    let (loaded, write) = load_or_migrate_state(found);
    assert!(!write);
    assert_eq!(loaded.version, SHELL_STATE_VERSION);
    assert_eq!(loaded.volume, max_volume());
    assert_eq!(loaded.window, None);
}

#[test]
fn a_new_state_has_the_current_version() {
    let state = ShellState::default();
    assert_eq!(state.version, SHELL_STATE_VERSION);
    assert_eq!(load_volume(&state), default_volume());
    assert_eq!(load_window_state(&state), (None, false));
    assert!(PipPlacement::load(&state).is_none());
}

#[test]
fn saving_keeps_what_was_written() {
    let mut state = ShellState::default();
    let done: Result<(), String> = save_volume_now(float(42.0), &mut state, |_| Ok(()));
    assert_eq!(done, Ok(()));
    assert_eq!(load_volume(&state), float(42.0));
    let window = sample_window();
    let done: Result<(), String> =
        save_window_state(Some(window), false, &mut state, |_| Ok(()));
    assert_eq!(done, Ok(()));
    assert_eq!(load_window_state(&state), (Some(window), false));
    let done: Result<(), String> = save_window_state(None, true, &mut state, |_| Ok(()));
    assert_eq!(done, Ok(()));
    assert_eq!(load_window_state(&state), (Some(window), true));
    let pip = PipPlacement { x: 1, y: 2, width: 3, height: 4, transparent: true };
    let done: Result<(), String> = PipPlacement::save(pip, &mut state, |_| Ok(()));
    assert_eq!(done, Ok(()));
    assert_eq!(PipPlacement::load(&state), Some(pip));
}

#[test]
fn a_failed_write_is_reported() {
    let mut state = ShellState::default();
    let done: Result<(), String> =
        save_volume_now(float(42.0), &mut state, |_| Err("disk".to_string()));
    assert_eq!(done, Err("disk".to_string()));
}

#[test]
fn unusable_volumes_are_not_queued() {
    assert!(VolumeSaver::to_queue(float(f64::NAN)).is_none());
    assert_eq!(VolumeSaver::to_queue(float(200.0)), Some(max_volume()));
    let mut saver = VolumeSaver { last_saved: float(50.0) };
    assert!(!saver.wants(float(50.0)));
    assert!(saver.wants(float(60.0)));
    saver.done(float(60.0), false);
    assert!(saver.wants(float(60.0)));
    saver.done(float(60.0), true);
    assert!(!saver.wants(float(60.0)));
}

#[test]
fn minimized_windows_are_not_saved() {
    assert!(WindowSettings::from_placement(true, Some(sample_window())).is_none());
    assert!(WindowSettings::from_placement(false, None).is_none());
    let mut shown = sample_window();
    shown.show_cmd = SHOW_MAXIMIZED;
    let saved = WindowSettings::from_placement(false, Some(shown)).unwrap();
    assert_eq!(saved.normal_position, shown.normal_position);
    assert_eq!(saved.to_window_placement().show_cmd, SHOW_MAXIMIZED);
}

#[test]
fn the_window_of_the_player_is_found() {
    let child = |handle: usize, class: &str| ChildWindow { handle, class: class.to_string() };
    let children =
        vec![child(1, "Chrome_WidgetWin_1"), child(2, "Other"), child(3, "mpv"), child(4, "mpv")];
    assert_eq!(find_exact_mpv_child_hwnd(&children), Some(3));
    assert_eq!(find_mpv_child_hwnd(&children), Some(3));
    let without = vec![child(1, "Chrome_WidgetWin_1"), child(2, "Other")];
    assert_eq!(find_exact_mpv_child_hwnd(&without), None);
    assert_eq!(find_mpv_child_hwnd(&without), Some(2));
    assert!(is_webview_class("Chrome_WidgetWin_1"));
    assert!(!is_webview_class("mpv"));
}

#[test]
fn the_small_window_is_left_for_the_whole_screen() {
    let mut modes = WindowModes::new();
    modes.pip_built = true;
    assert_eq!(modes.on_toggle_pip_notice(true, Some(7)), PipStep::Attach(7));
    assert!(modes.pip_active);
    modes.requested_fullscreen = Some(true);
    assert_eq!(modes.on_toggle_fullscreen_notice(true, None), PipStep::Detach);
    assert!(modes.full_screen && !modes.pip_active);
    assert!(!modes.saves_window_settings());
    modes.requested_pip = Some(true);
    assert_eq!(modes.on_toggle_pip_notice(true, None), PipStep::Nothing);
    assert_eq!(modes.requested_pip, None);
    assert_eq!(modes.on_toggle_fullscreen_notice(true, None), PipStep::Nothing);
    assert!(!modes.full_screen);
}

#[test]
fn the_small_window_needs_a_video() {
    let mut modes = WindowModes::new();
    assert_eq!(modes.on_toggle_pip_notice(true, Some(7)), PipStep::Nothing);
    modes.pip_built = true;
    assert_eq!(modes.on_toggle_pip_notice(false, Some(7)), PipStep::Nothing);
    assert_eq!(modes.on_toggle_pip_notice(true, None), PipStep::Missing);
    modes.requested_pip = Some(false);
    assert_eq!(modes.on_toggle_pip_notice(true, Some(7)), PipStep::Nothing);
    modes.requested_pip = Some(false);
    modes.on_tray_toggle_pip();
    assert_eq!(modes.on_toggle_pip_notice(true, Some(7)), PipStep::Attach(7));
    assert_eq!(modes.on_exit(true, None), (PipStep::Detach, false));
    assert_eq!(modes.on_exit(true, None), (PipStep::Nothing, true));
}

#[test]
fn turning_the_small_window_over_twice_changes_nothing() {
    let mut modes = WindowModes::new();
    modes.pip_built = true;
    modes.video = Some(7);
    let before = modes;
    assert_eq!(modes.on_toggle_pip_notice(true, None), PipStep::Attach(7));
    assert_eq!(modes.on_toggle_pip_notice(true, None), PipStep::Detach);
    assert_eq!(modes, before);
}
