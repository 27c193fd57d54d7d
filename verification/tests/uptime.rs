use checkup::background::garbage_collector::gc_cutoff;
use checkup::background::heartbeat::UptimeEvent;
use checkup::features::metrics::metrics_handlers::{
    calculate_uptime, reuse_cached_uptime, uptime_cutoff, UptimeFigure,
};

const SEC: i128 = 1_000_000_000;
const MIN: i128 = 60 * SEC;
const DAY: i128 = 86_400 * SEC;
const NOW: i128 = 1_750_000_000 * SEC;

fn ev(event: i64, timestamp: i128) -> UptimeEvent {
    UptimeEvent { id: 0, event, timestamp }
}

fn percent(f: UptimeFigure) -> f64 {
    match f {
        UptimeFigure::Full => 100.0,
        UptimeFigure::Measured { online_secs, window_secs } => {
            ((online_secs as f64 / window_secs as f64) * 100.0).clamp(0.0, 100.0)
        }
    }
}

#[test]
fn test_calculate_uptime_scenarios() {
    let cutoff = uptime_cutoff(NOW).unwrap();

    // Scenario A: no events at all -> 100%.
    let uptime = percent(calculate_uptime(&[], NOW, cutoff));
    assert_eq!(uptime, 100.0);

    // Scenario B: a single online_until at now -> 100%.
    let uptime = percent(calculate_uptime(&[ev(0, NOW)], NOW, cutoff));
    assert_eq!(uptime, 100.0);

    // Scenario C: online until t-40, offline until t-20, online until t-5.
    let events = [ev(0, NOW - 60 * MIN), ev(0, NOW - 40 * MIN), ev(1, NOW - 20 * MIN), ev(0, NOW - 5 * MIN)];
    let uptime = percent(calculate_uptime(&events, NOW, cutoff));
    assert!(uptime > 66.6 && uptime < 66.7);
}

#[test]
fn uptime_counts_whole_seconds() {
    let cutoff = uptime_cutoff(NOW).unwrap();
    let events = [ev(0, NOW - 60 * MIN), ev(0, NOW - 40 * MIN), ev(1, NOW - 20 * MIN), ev(0, NOW - 5 * MIN)];
    assert_eq!(
        calculate_uptime(&events, NOW, cutoff),
        UptimeFigure::Measured { online_secs: 2400, window_secs: 3600 }
    );
}

#[test]
fn stale_online_record_stops_counting() {
    // The last online_until is 30 minutes old: the time since is not online.
    let cutoff = uptime_cutoff(NOW).unwrap();
    let events = [ev(0, NOW - 60 * MIN), ev(0, NOW - 30 * MIN)];
    assert_eq!(
        calculate_uptime(&events, NOW, cutoff),
        UptimeFigure::Measured { online_secs: 1800, window_secs: 3600 }
    );
}

#[test]
fn server_back_after_offline_record() {
    // After an offline_until the server is back: the tail counts as online.
    let cutoff = uptime_cutoff(NOW).unwrap();
    let events = [ev(0, NOW - 60 * MIN), ev(1, NOW - 30 * MIN)];
    assert_eq!(
        calculate_uptime(&events, NOW, cutoff),
        UptimeFigure::Measured { online_secs: 1800, window_secs: 3600 }
    );
}

#[test]
fn window_starts_at_the_cutoff() {
    // A record older than seven days is clipped to the cutoff.
    let cutoff = uptime_cutoff(NOW).unwrap();
    assert_eq!(cutoff, NOW - 7 * DAY);
    let events = [ev(0, NOW - 8 * DAY), ev(0, NOW)];
    assert_eq!(
        calculate_uptime(&events, NOW, cutoff),
        UptimeFigure::Measured { online_secs: 7 * 86_400, window_secs: 7 * 86_400 }
    );
}

#[test]
fn cutoffs_are_seven_days_back() {
    assert_eq!(gc_cutoff(NOW), Some(NOW - 7 * DAY));
    let earliest: i128 = -8_334_601_315_200_000_000_000;
    assert_eq!(gc_cutoff(earliest + DAY), None);
    assert_eq!(uptime_cutoff(earliest + 7 * DAY), Some(earliest));
}

#[test]
fn cached_uptime_is_reused_for_a_minute() {
    assert!(!reuse_cached_uptime(None));
    assert!(reuse_cached_uptime(Some(59_999_999_999)));
    assert!(!reuse_cached_uptime(Some(60_000_000_000)));
}
