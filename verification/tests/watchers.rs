use hardware_alarm::config::Limits;
use hardware_alarm::watch::{
    contains_str, is_package_sensor, memory_limit_crossed, memory_watch_step, watch_step, WatchStep,
};

const GB: u64 = 1_000_000_000;

#[test]
fn memory_above_rate_crosses() {
    // 9 GB used of 16 GB: 50 percent is 8 GB.
    assert!(memory_limit_crossed(9 * GB, 16 * GB, 50));
    // 8.5 GB counts as 8 GB, which is not above 8 GB.
    assert!(!memory_limit_crossed(8 * GB + GB / 2, 16 * GB, 50));
}

#[test]
fn memory_rounds_down_to_whole_gigabytes() {
    // 15.9 GB total counts as 15 GB; 60 percent of 15 is 9.
    assert!(!memory_limit_crossed(9 * GB + GB - 1, 15 * GB + 9 * GB / 10, 60));
    assert!(memory_limit_crossed(10 * GB, 15 * GB + 9 * GB / 10, 60));
    // 75 percent of 15 is 11.25, rounded down to 11.
    assert!(memory_limit_crossed(12 * GB, 15 * GB, 75));
    assert!(!memory_limit_crossed(11 * GB, 15 * GB, 75));
}

#[test]
fn memory_full_limit_is_never_crossed() {
    assert!(!memory_limit_crossed(16 * GB, 16 * GB, 100));
    assert!(!memory_limit_crossed(16 * GB, 16 * GB, 255));
    assert!(!memory_limit_crossed(u64::MAX, u64::MAX, 255));
}

#[test]
fn memory_crossing_is_monotone_on_examples() {
    assert!(memory_limit_crossed(5 * GB, 8 * GB, 50));
    assert!(memory_limit_crossed(7 * GB, 8 * GB, 50));
    assert!(memory_limit_crossed(5 * GB, 8 * GB, 25));
    assert!(memory_limit_crossed(1, 8 * GB, 0) == false);
    assert!(memory_limit_crossed(GB, 8 * GB, 0));
}

#[test]
fn memory_step_raises_alarm_and_ends() {
    match memory_watch_step(50, 9 * GB, 16 * GB) {
        WatchStep::RaiseAlarm { notice, keep_watching } => {
            assert_eq!(notice.title, "Hardware limit reached");
            assert_eq!(notice.body, "Memory usage crossed the configured limit: 50%");
            assert!(!keep_watching);
        }
        WatchStep::KeepWatching => panic!("expected an alarm"),
    }
    assert!(matches!(memory_watch_step(50, 3 * GB, 16 * GB), WatchStep::KeepWatching));
}

#[test]
fn heat_watcher_keeps_reading_after_alarm() {
    match watch_step(&Limits::Heat { Rate: 85 }, true) {
        WatchStep::RaiseAlarm { notice, keep_watching } => {
            assert_eq!(notice.body, "Temperature crossed the configured limit: 85°C");
            assert!(keep_watching);
        }
        WatchStep::KeepWatching => panic!("expected an alarm"),
    }
    match watch_step(&Limits::Cpu { Rate: 70 }, true) {
        WatchStep::RaiseAlarm { notice, keep_watching } => {
            assert_eq!(notice.body, "CPU usage crossed the configured limit: 70%");
            assert!(!keep_watching);
        }
        WatchStep::KeepWatching => panic!("expected an alarm"),
    }
    assert!(matches!(watch_step(&Limits::Cpu { Rate: 70 }, false), WatchStep::KeepWatching));
    assert!(matches!(watch_step(&Limits::Heat { Rate: 70 }, false), WatchStep::KeepWatching));
}

#[test]
fn substring_search() {
    assert!(contains_str("k10temp tctl", "tctl"));
    assert!(contains_str("tctl", "tctl"));
    assert!(contains_str("abc", ""));
    assert!(contains_str("", ""));
    assert!(!contains_str("tct", "tctl"));
    assert!(!contains_str("t c t l", "tctl"));
    assert!(contains_str("héllo wörld", "ö"));
    assert!(!contains_str("Tctl", "tctl"));
}

#[test]
fn package_sensors_are_watched() {
    assert!(is_package_sensor("Tctl"));
    assert!(is_package_sensor("k10temp Tctl"));
    assert!(is_package_sensor("Package id 0"));
    assert!(is_package_sensor("coretemp PACKAGE ID 0"));
    assert!(!is_package_sensor("Core 0"));
    assert!(!is_package_sensor("nvme Composite"));
    assert!(!is_package_sensor(""));
}
