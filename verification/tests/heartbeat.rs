use checkup::background::heartbeat::{
    decide_heartbeat, HeartbeatAction, UptimeEvent, OFFLINE_UNTIL, ONLINE_UNTIL,
};

const SEC: i128 = 1_000_000_000;
const MIN: i128 = 60 * SEC;
const NOW: i128 = 1_750_000_000 * SEC;

/// Applies a heartbeat's writes to an in-memory table, handing out ids in order.
fn apply(log: &mut Vec<UptimeEvent>, action: HeartbeatAction, now: i128) {
    let next_id = log.iter().map(|e| e.id).max().unwrap_or(0) + 1;
    match action {
        HeartbeatAction::OpenOnline | HeartbeatAction::ResumeOnline => {
            log.push(UptimeEvent { id: next_id, event: ONLINE_UNTIL, timestamp: now })
        }
        HeartbeatAction::ExtendOnline { id } => {
            for e in log.iter_mut() {
                if e.id == id {
                    e.timestamp = now;
                }
            }
        }
        HeartbeatAction::RecordOutage => {
            log.push(UptimeEvent { id: next_id, event: OFFLINE_UNTIL, timestamp: now });
            log.push(UptimeEvent { id: next_id + 1, event: ONLINE_UNTIL, timestamp: now });
        }
    }
}

/// The row `ORDER BY timestamp DESC, id DESC LIMIT 1` selects.
fn latest(log: &[UptimeEvent]) -> Option<UptimeEvent> {
    log.iter().copied().max_by_key(|e| (e.timestamp, e.id))
}

fn heartbeat(log: &mut Vec<UptimeEvent>, now: i128) {
    let action = decide_heartbeat(latest(log), now);
    apply(log, action, now);
}

fn run_heartbeat_scenarios() {
    let mut log: Vec<UptimeEvent> = Vec::new();

    // 1. First run: a single online_until (event = 0).
    heartbeat(&mut log, NOW);
    assert_eq!(log.len(), 1);
    assert_eq!(log[0].event, 0);

    // 2. Second run within 9 minutes: the existing row moves to now.
    let five_mins_ago = NOW - 5 * MIN;
    log[0].timestamp = five_mins_ago;
    heartbeat(&mut log, NOW);
    assert_eq!(log.len(), 1);
    assert_eq!(log[0].event, 0);
    assert!(log[0].timestamp > five_mins_ago);

    // 3. Third run after 10 minutes: offline_until, then a new online_until.
    let ten_mins_ago = NOW - 10 * MIN;
    log[0].timestamp = ten_mins_ago;
    heartbeat(&mut log, NOW);
    assert_eq!(log.len(), 3);
    assert_eq!(log[0].event, 0);
    assert_eq!(log[1].event, 1);
    assert_eq!(log[2].event, 0);
}

#[test]
fn background_test_heartbeat_scenarios() {
    run_heartbeat_scenarios();
}

#[test]
fn heartbeat_test_heartbeat_scenarios() {
    run_heartbeat_scenarios();
}

#[test]
fn nine_minutes_and_change_is_still_uptime() {
    let last = UptimeEvent { id: 7, event: ONLINE_UNTIL, timestamp: NOW - 9 * MIN - 59 * SEC };
    assert_eq!(decide_heartbeat(Some(last), NOW), HeartbeatAction::ExtendOnline { id: 7 });
    let last = UptimeEvent { id: 7, event: ONLINE_UNTIL, timestamp: NOW - 10 * MIN };
    assert_eq!(decide_heartbeat(Some(last), NOW), HeartbeatAction::RecordOutage);
}

#[test]
fn recent_offline_record_resumes_online() {
    let last = UptimeEvent { id: 3, event: OFFLINE_UNTIL, timestamp: NOW - 2 * MIN };
    assert_eq!(decide_heartbeat(Some(last), NOW), HeartbeatAction::ResumeOnline);
}

#[test]
fn record_in_the_future_counts_as_recent() {
    let last = UptimeEvent { id: 3, event: ONLINE_UNTIL, timestamp: NOW + 30 * MIN };
    assert_eq!(decide_heartbeat(Some(last), NOW), HeartbeatAction::ExtendOnline { id: 3 });
}

#[test]
fn empty_table_opens_online() {
    assert_eq!(decide_heartbeat(None, NOW), HeartbeatAction::OpenOnline);
}

#[test]
fn heartbeat_always_ends_with_online_now() {
    // Whatever the latest record, the latest one afterwards is online at now.
    let starts = [
        vec![],
        vec![UptimeEvent { id: 1, event: 0, timestamp: NOW - 3 * MIN }],
        vec![UptimeEvent { id: 1, event: 1, timestamp: NOW - 3 * MIN }],
        vec![UptimeEvent { id: 1, event: 0, timestamp: NOW - 60 * MIN }],
        vec![
            UptimeEvent { id: 1, event: 1, timestamp: NOW - 60 * MIN },
            UptimeEvent { id: 2, event: 0, timestamp: NOW - 60 * MIN },
        ],
    ];
    for start in starts {
        let mut log = start.clone();
        heartbeat(&mut log, NOW);
        let l = latest(&log).unwrap();
        assert_eq!(l.event, ONLINE_UNTIL);
        assert_eq!(l.timestamp, NOW);
    }
}
