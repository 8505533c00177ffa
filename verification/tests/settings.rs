use clover_viewer::capture::resolve_effective_prev_state;
use clover_viewer::config::{
    default_launch_on_startup, default_magnifier_enabled, default_minimize_on_close,
    launch_on_startup_changed, save_step, HotkeysConfig, SaveScheduler, SaveStep,
};
use clover_viewer::device::DeviceInfo;
use clover_viewer::history::{ScreenshotAction, WindowPrevState};
use clover_viewer::hotkeys::{collect_hotkey_actions, hotkey_prev_state, HotkeyAction};
use clover_viewer::launch::parse_launch_options;
use clover_viewer::mode::AppMode;

#[test]
fn defaults_of_the_configuration() {
    let h = HotkeysConfig::default();
    assert_eq!(h.show_screenshot, "Alt+S");
    assert_eq!(h.copy_color, "Alt+C");
    assert!(default_minimize_on_close());
    assert!(default_magnifier_enabled());
    assert!(!default_launch_on_startup());
}

#[test]
fn saves_are_debounced() {
    assert_eq!(save_step(None, 0), SaveStep::Idle);
    assert_eq!(save_step(Some(100_000_000), 5_000_000_000), SaveStep::Wait(400_000_000));
    assert_eq!(save_step(Some(500_000_000), 1_000_000_000), SaveStep::Save);
    assert_eq!(save_step(Some(600_000_000), 999_999_999), SaveStep::Wait(1));
    assert!(launch_on_startup_changed(false, true));
    assert!(!launch_on_startup_changed(true, true));
}

#[test]
fn launch_arguments() {
    let args: Vec<String> = vec!["--startup".into(), "C:/pics/a.png".into(), "b".into()];
    let o = parse_launch_options(&args);
    assert!(o.start_in_background);
    assert_eq!(o.start_path.as_deref(), Some("C:/pics/a.png"));
    let o = parse_launch_options(&vec![]);
    assert!(!o.start_in_background);
    assert!(o.start_path.is_none());
    let o = parse_launch_options(&vec!["x".into()]);
    assert!(!o.start_in_background);
    assert_eq!(o.start_path.as_deref(), Some("x"));
}

#[test]
fn desktop_origin_is_least_monitor_position() {
    assert_eq!(DeviceInfo::from_monitor_positions(&vec![]), DeviceInfo { phys_min_x: 0, phys_min_y: 0 });
    let d = DeviceInfo::from_monitor_positions(&vec![(0, 0), (-1920, 200), (1920, -300)]);
    assert_eq!(d, DeviceInfo { phys_min_x: -1920, phys_min_y: -300 });
}

#[test]
fn window_state_when_hotkey_pressed() {
    assert_eq!(hotkey_prev_state(false, true), (WindowPrevState::Tray, true));
    assert_eq!(hotkey_prev_state(true, true), (WindowPrevState::Minimized, true));
    assert_eq!(hotkey_prev_state(true, false), (WindowPrevState::Normal, false));
}

#[test]
fn one_screenshot_action_per_frame() {
    let events = vec![(7, WindowPrevState::Normal), (3, WindowPrevState::Tray), (3, WindowPrevState::Minimized)];
    assert_eq!(
        collect_hotkey_actions(&events, 3, AppMode::Viewer),
        vec![HotkeyAction::SetScreenshotMode { prev_state: WindowPrevState::Tray }]
    );
    assert!(collect_hotkey_actions(&events, 3, AppMode::Screenshot).is_empty());
    assert!(collect_hotkey_actions(&events, 9, AppMode::Viewer).is_empty());
}

#[test]
fn window_restored_after_screenshot() {
    assert_eq!(resolve_effective_prev_state(true, ScreenshotAction::Ocr, WindowPrevState::Minimized), WindowPrevState::Tray);
    assert_eq!(resolve_effective_prev_state(false, ScreenshotAction::Ocr, WindowPrevState::Minimized), WindowPrevState::Normal);
    assert_eq!(resolve_effective_prev_state(false, ScreenshotAction::Close, WindowPrevState::Minimized), WindowPrevState::Minimized);
}

#[test]
fn scheduler_debounces_and_spaces_saves() {
    let ms: u128 = 1_000_000;
    let mut s = SaveScheduler::new(0);
    assert_eq!(s.step(10 * ms), SaveStep::Idle);
    s.request_save(2_000 * ms);
    assert_eq!(s.step(2_100 * ms), SaveStep::Wait(400 * ms));
    // a newer change restarts the debounce
    s.request_save(2_300 * ms);
    assert_eq!(s.step(2_600 * ms), SaveStep::Wait(200 * ms));
    assert_eq!(s.step(2_800 * ms), SaveStep::Save);
    assert_eq!(s.last_saved, 2_800 * ms);
    assert_eq!(s.pending_since, None);
    assert_eq!(s.step(5_000 * ms), SaveStep::Idle);
    // a change right after a save waits until a second has passed since that save
    s.request_save(2_810 * ms);
    assert_eq!(s.step(3_400 * ms), SaveStep::Wait(400 * ms));
    assert_eq!(s.pending_since, Some(2_810 * ms));
    assert_eq!(s.last_saved, 2_800 * ms);
    assert_eq!(s.step(3_800 * ms), SaveStep::Save);
    assert_eq!(s.last_saved, 3_800 * ms);
    // a clock that seems to run backwards counts as no time
    s.request_save(9_000 * ms);
    assert_eq!(s.step(8_000 * ms), SaveStep::Wait(500 * ms));
}
