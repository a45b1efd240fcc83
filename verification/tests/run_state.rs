use hardware_alarm::state::{AppState, Launch};

#[test]
fn starts_idle() {
    let state = AppState::default();
    assert!(!state.is_running());
    assert!(!state.has_watcher());
    assert!(!state.has_player());
}

#[test]
fn create_starts_a_watch_and_second_create_stops_it() {
    let mut state = AppState::default();
    let (watcher, player) = match state.create(false) {
        Launch::Watch { watcher, player } => (watcher, player),
        _ => panic!("expected a watch"),
    };
    assert!(state.is_running());
    assert!(state.has_watcher());
    assert!(state.has_player());
    assert!(!watcher.is_cancelled());
    assert!(!player.is_cancelled());
    assert!(watcher != player);

    match state.create(true) {
        Launch::Stopped { notice, released } => {
            assert_eq!(notice.title, "Stop");
            assert_eq!(notice.body, "App was already running in background, now it's stopped.");
            assert!(released.had_watcher());
            assert!(released.watcher.as_ref() == Some(&watcher));
            assert!(released.player.as_ref() == Some(&player));
            released.cancel();
        }
        _ => panic!("expected a stop"),
    }
    assert!(!state.is_running());
    assert!(!state.has_watcher());
    assert!(!state.has_player());
    assert!(watcher.is_cancelled());
    assert!(player.is_cancelled());
}

#[test]
fn test_sound_registers_only_the_player() {
    let mut state = AppState::default();
    let player = match state.create(true) {
        Launch::TestSound { player } => player,
        _ => panic!("expected a test sound"),
    };
    assert!(state.is_running());
    assert!(!state.has_watcher());
    assert!(state.has_player());
    let released = state.stop();
    assert!(!released.had_watcher());
    assert!(released.player.as_ref() == Some(&player));
    released.cancel();
    assert!(player.is_cancelled());
    assert!(!state.is_running());
}

#[test]
fn stop_twice_is_stop_once() {
    let mut state = AppState::default();
    let _ = state.create(false);
    let first = state.stop();
    assert!(first.had_watcher());
    first.cancel();
    let second = state.stop();
    assert!(!second.had_watcher());
    assert!(second.player.is_none());
    second.cancel();
    assert!(!state.is_running());
    assert!(!state.has_watcher());
    assert!(!state.has_player());
}

#[test]
fn stop_watcher_only_keeps_the_player() {
    let mut state = AppState::default();
    let (watcher, player) = state.register_watch();
    let released = state.stop_watcher_only();
    assert!(released.watcher.as_ref() == Some(&watcher));
    assert!(released.player.is_none());
    released.cancel();
    assert!(watcher.is_cancelled());
    assert!(!player.is_cancelled());
    assert!(state.is_running());
    assert!(!state.has_watcher());
    assert!(state.has_player());
    let rest = state.stop();
    assert!(!rest.had_watcher());
    assert!(rest.player.as_ref() == Some(&player));
    rest.cancel();
    assert!(player.is_cancelled());
}

#[test]
fn player_cancelled_ends_the_run_and_create_starts_again() {
    let mut state = AppState::default();
    let (watcher, _player) = state.register_watch();
    state.player_cancelled();
    assert!(!state.is_running());
    assert!(!state.has_watcher());
    assert!(state.has_player());
    assert!(!watcher.is_cancelled());
    assert!(matches!(state.create(false), Launch::Watch { .. }));
    assert!(state.is_running());
}

#[test]
fn register_test_keeps_a_registered_watcher() {
    let mut state = AppState::default();
    let (watcher, _) = state.register_watch();
    let player = state.register_test();
    assert!(state.is_running());
    assert!(state.has_watcher());
    assert!(state.has_player());
    let released = state.stop();
    assert!(released.watcher.as_ref() == Some(&watcher));
    assert!(released.player.as_ref() == Some(&player));
    released.cancel();
}

#[test]
fn a_new_session_gets_new_tokens() {
    let mut state = AppState::default();
    let (old_watcher, old_player) = state.register_watch();
    state.player_cancelled();
    let (watcher, player) = match state.create(false) {
        Launch::Watch { watcher, player } => (watcher, player),
        _ => panic!("expected a watch"),
    };
    assert!(watcher != old_watcher && watcher != old_player);
    assert!(player != old_watcher && player != old_player);
    assert!(watcher != player);
    state.stop_watcher_only().cancel();
    let test_player = state.register_test();
    assert!(test_player != player && test_player != watcher);
}
