use wcore::clock::{Clock, SyncClock};
use wcore::AppConfig;

#[test]
fn new_clock_is_paused_at_zero() {
    let mut clock = SyncClock::new();
    assert!(clock.is_paused());
    assert_eq!(clock.get_time(), 0);
    assert_eq!(clock.get_length(), 0);
}

#[test]
fn paused_clock_reports_its_anchor() {
    let mut clock = SyncClock::new();
    clock.set_length(10_000);
    clock.set_paused(true, 42);
    assert_eq!(clock.get_time(), 42);
    assert_eq!(clock.get_time(), 42);
}

#[test]
fn running_clock_never_reports_less_than_its_anchor() {
    let mut clock = SyncClock::new();
    clock.set_length(10_000);
    clock.set_paused(false, 100);
    assert!(!clock.is_paused());
    assert!(clock.get_time() >= 100);
}

#[test]
fn running_clock_pauses_itself_at_its_length() {
    let mut clock = SyncClock::new();
    clock.set_length(50);
    clock.set_paused(false, 50);
    // already at the length: the first read clamps the anchor and pauses
    assert!(clock.get_time() >= 50);
    assert!(clock.is_paused());
    assert_eq!(clock.get_time(), 50);
}

#[test]
fn toggling_flips_the_paused_state_and_reanchors() {
    let mut clock = SyncClock::new();
    clock.set_length(10_000);
    clock.toggle_paused(7);
    assert!(!clock.is_paused());
    clock.toggle_paused(9);
    assert!(clock.is_paused());
    assert_eq!(clock.get_time(), 9);
}

#[test]
fn set_time_moves_only_the_anchor() {
    let mut clock = SyncClock::new();
    clock.set_length(10_000);
    clock.set_time(1234);
    assert!(clock.is_paused());
    assert_eq!(clock.get_time(), 1234);
    assert_eq!(clock.get_length(), 10_000);
}

#[test]
fn app_config_defaults() {
    let config = AppConfig::default();
    assert_eq!(config.width, 1200);
    assert_eq!(config.height, 800);
    assert_eq!(config.title, "App");
}
