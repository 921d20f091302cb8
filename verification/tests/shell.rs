use deepchat_desktop::platform::Platform;
use deepchat_desktop::shell::{
    AppAction, AppEvent, AppState, LoadPhase, MouseButton, MouseButtonState, Watchdog,
    WatchdogAction,
};

const PLATFORMS: [Platform; 3] = [Platform::MacOs, Platform::Windows, Platform::Linux];

#[test]
fn the_program_starts_fresh() {
    let state = AppState::default();
    assert!(!state.quitting);
    assert!(!state.page_loaded_once);
    assert_eq!(state.watchdog_reloads, 0);
}

#[test]
fn exit_is_held_back_until_quit_is_chosen() {
    let mut state = AppState::default();
    let platform = Platform::MacOs;
    assert_eq!(state.handle(platform, &AppEvent::ExitRequested), AppAction::StayAndHide);
    assert_eq!(state.handle(platform, &AppEvent::MenuItem("show".to_string())), AppAction::ShowMain);
    assert_eq!(state.handle(platform, &AppEvent::ExitRequested), AppAction::StayAndHide);
    assert_eq!(
        state.handle(platform, &AppEvent::MenuItem("quit".to_string())),
        AppAction::RequestExit
    );
    assert!(state.quitting);
    assert_eq!(state.handle(platform, &AppEvent::ExitRequested), AppAction::Nothing);
    assert_eq!(state.handle(platform, &AppEvent::Exit), AppAction::LogExit);
}

#[test]
fn unknown_menu_items_do_nothing() {
    let mut state = AppState::default();
    assert_eq!(
        state.handle(Platform::Linux, &AppEvent::MenuItem("other".to_string())),
        AppAction::Nothing
    );
    assert_eq!(state, AppState::default());
}

#[test]
fn closing_the_main_window_keeps_it() {
    let mut state = AppState::default();
    let close = AppEvent::CloseRequested("main".to_string());
    assert_eq!(state.handle(Platform::MacOs, &close), AppAction::KeepAndHide);
    assert_eq!(state.handle(Platform::Linux, &close), AppAction::KeepAndHide);
    assert_eq!(state.handle(Platform::Windows, &close), AppAction::KeepAndMinimize);
    let other = AppEvent::CloseRequested("about".to_string());
    for platform in PLATFORMS {
        assert_eq!(state.handle(platform, &other), AppAction::Nothing);
    }
    assert_eq!(state, AppState::default());
}

#[test]
fn the_window_comes_back() {
    let mut state = AppState::default();
    for platform in PLATFORMS {
        assert_eq!(state.handle(platform, &AppEvent::SecondInstance), AppAction::ShowMain);
        let click = AppEvent::TrayClick(MouseButton::Left, MouseButtonState::Up);
        assert_eq!(state.handle(platform, &click), AppAction::ShowMain);
        let press = AppEvent::TrayClick(MouseButton::Left, MouseButtonState::Down);
        assert_eq!(state.handle(platform, &press), AppAction::Nothing);
        let right = AppEvent::TrayClick(MouseButton::Right, MouseButtonState::Up);
        assert_eq!(state.handle(platform, &right), AppAction::Nothing);
        let middle = AppEvent::TrayClick(MouseButton::Middle, MouseButtonState::Up);
        assert_eq!(state.handle(platform, &middle), AppAction::Nothing);
    }
    assert_eq!(state.handle(Platform::MacOs, &AppEvent::Reopen), AppAction::ShowMain);
    assert_eq!(state.handle(Platform::Windows, &AppEvent::Reopen), AppAction::Nothing);
}

#[test]
fn only_the_main_window_counts_as_loaded() {
    let mut state = AppState::default();
    let finished = AppEvent::PageLoad("about".to_string(), LoadPhase::Finished);
    assert_eq!(state.handle(Platform::Linux, &finished), AppAction::Nothing);
    assert!(!state.page_loaded_once);
    let finished = AppEvent::PageLoad("main".to_string(), LoadPhase::Finished);
    assert_eq!(state.handle(Platform::Linux, &finished), AppAction::Nothing);
    assert!(state.page_loaded_once);
}

#[test]
fn only_finished_loads_count() {
    let mut state = AppState::default();
    let mut watchdog = Watchdog::new();
    let started = AppEvent::PageLoad("main".to_string(), LoadPhase::Started);
    assert_eq!(state.handle(Platform::Windows, &started), AppAction::Nothing);
    assert_eq!(state, AppState::default());
    assert_eq!(watchdog.tick(&mut state), WatchdogAction::Reload);
    state.handle(
        Platform::Windows,
        &AppEvent::PageLoad("main".to_string(), LoadPhase::Finished),
    );
    state.handle(Platform::Windows, &started);
    assert!(state.page_loaded_once);
}

#[test]
fn without_a_page_the_watchdog_reloads_twice_and_goes_offline() {
    let mut state = AppState::default();
    let mut watchdog = Watchdog::new();
    assert_eq!(watchdog.tick(&mut state), WatchdogAction::Reload);
    assert_eq!(watchdog.tick(&mut state), WatchdogAction::Reload);
    assert!(!watchdog.is_over());
    assert_eq!(watchdog.tick(&mut state), WatchdogAction::ShowOffline);
    assert!(watchdog.is_over());
    assert_eq!(state.watchdog_reloads, 2);
    assert_eq!(watchdog.tick(&mut state), WatchdogAction::Stop);
    assert_eq!(state.watchdog_reloads, 2);
}

#[test]
fn a_loaded_page_stops_the_watchdog() {
    let mut state = AppState::default();
    let mut watchdog = Watchdog::new();
    assert_eq!(watchdog.tick(&mut state), WatchdogAction::Reload);
    state.handle(
        Platform::Windows,
        &AppEvent::PageLoad("main".to_string(), LoadPhase::Finished),
    );
    assert_eq!(watchdog.tick(&mut state), WatchdogAction::Stop);
    assert!(watchdog.is_over());
    assert_eq!(state.watchdog_reloads, 1);
}

#[test]
fn a_watchdog_that_finds_two_reloads_counted_gives_up() {
    let mut state = AppState { watchdog_reloads: 2, ..AppState::default() };
    let mut watchdog = Watchdog::new();
    assert_eq!(watchdog.tick(&mut state), WatchdogAction::Stop);
    assert!(watchdog.is_over());
    assert_eq!(state.watchdog_reloads, 2);
}
