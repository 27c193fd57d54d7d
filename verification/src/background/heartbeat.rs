//! The system heartbeat: every few minutes the server records that it is
//! online, and a gap of more than nine minutes since the last record is an
//! outage.
use vstd::prelude::*;

use crate::clock::{is_timestamp, minutes_between, whole_minutes};

verus! {

/// `event` value of an "online until" record.
pub const ONLINE_UNTIL: i64 = 0;

/// `event` value of an "offline until" record.
pub const OFFLINE_UNTIL: i64 = 1;

/// Longest gap, in whole minutes, that still counts as continuous uptime.
pub const MAX_HEARTBEAT_GAP_MINUTES: i128 = 9;

/// One row of `system_uptime_events`.
#[derive(Clone, Copy, Debug, PartialEq, Eq)]
pub struct UptimeEvent {
    pub id: i64,
    pub event: i64,
    /// Nanoseconds since the Unix epoch.
    pub timestamp: i128,
}

/// What a heartbeat writes.
#[derive(Clone, Copy, Debug, PartialEq, Eq)]
pub enum HeartbeatAction {
    /// No record yet: insert an "online until now".
    OpenOnline,
    /// The latest record is a recent "online until": move it to now.
    ExtendOnline { id: i64 },
    /// The latest record is a recent "offline until": insert a new
    /// "online until now".
    ResumeOnline,
    /// The gap is too long: insert an "offline until now", then an
    /// "online until now".
    RecordOutage,
}

/// The heartbeat's decision, given the latest record (by timestamp, then id)
/// and the current time.
pub open spec fn heartbeat_action(last: Option<UptimeEvent>, now: int) -> HeartbeatAction {
    match last {
        None => HeartbeatAction::OpenOnline,
        Some(l) => if whole_minutes(now - l.timestamp) <= MAX_HEARTBEAT_GAP_MINUTES {
            if l.event == ONLINE_UNTIL {
                HeartbeatAction::ExtendOnline { id: l.id }
            } else {
                HeartbeatAction::ResumeOnline
            }
        } else {
            HeartbeatAction::RecordOutage
        },
    }
}

/// Decides what one heartbeat at `now` writes, given the latest uptime record.
pub fn decide_heartbeat(last: Option<UptimeEvent>, now: i128) -> (a: HeartbeatAction)
    requires
        is_timestamp(now as int),
        last matches Some(l) ==> is_timestamp(l.timestamp as int),
    ensures
        a == heartbeat_action(last, now as int),
        last matches Some(l) && now - l.timestamp >= 600_000_000_000 ==> a
            == HeartbeatAction::RecordOutage,
        last matches Some(l) && now - l.timestamp < 600_000_000_000 ==> a != HeartbeatAction::RecordOutage,
{
    proof {
        if last is Some {
            lemma_gap_decides_outage(last->0, now as int);
        }
    }
    match last {
        None => HeartbeatAction::OpenOnline,
        Some(l) => {
            let diff_mins = minutes_between(now, l.timestamp);
            if diff_mins <= MAX_HEARTBEAT_GAP_MINUTES {
                if l.event == ONLINE_UNTIL {
                    HeartbeatAction::ExtendOnline { id: l.id }
                } else {
                    HeartbeatAction::ResumeOnline
                }
            } else {
                HeartbeatAction::RecordOutage
            }
        },
    }
}

// ---------------------------------------------------------------------------
// The record log, and what a heartbeat does to it
// ---------------------------------------------------------------------------

/// `a` comes before `b` in the order `ORDER BY timestamp, id`.
pub open spec fn precedes(a: UptimeEvent, b: UptimeEvent) -> bool {
    a.timestamp < b.timestamp || (a.timestamp == b.timestamp && a.id <= b.id)
}

/// `log[k]` is the record that `ORDER BY timestamp DESC, id DESC LIMIT 1`
/// selects.
pub open spec fn is_latest(log: Seq<UptimeEvent>, k: int) -> bool {
    &&& 0 <= k < log.len()
    &&& forall|j: int| 0 <= j < log.len() ==> precedes(#[trigger] log[j], log[k])
}

/// `last` is what the heartbeat's query returns on `log`.
pub open spec fn is_latest_of(log: Seq<UptimeEvent>, last: Option<UptimeEvent>) -> bool {
    match last {
        None => log.len() == 0,
        Some(l) => exists|k: int| is_latest(log, k) && log[k] == l,
    }
}

/// Ids are unique, as the table's primary key makes them.
pub open spec fn ids_unique(log: Seq<UptimeEvent>) -> bool {
    forall|i: int, j: int|
        0 <= i < log.len() && 0 <= j < log.len() && i != j ==> #[trigger] log[i].id
            != #[trigger] log[j].id
}

/// Inserts a record with id `id`.
pub open spec fn insert_event(log: Seq<UptimeEvent>, id: int, event: i64, now: int) -> Seq<
    UptimeEvent,
> {
    log.push(UptimeEvent { id: id as i64, event, timestamp: now as i128 })
}

/// `UPDATE system_uptime_events SET timestamp = now WHERE id = id`.
pub open spec fn touch_event(log: Seq<UptimeEvent>, id: i64, now: int) -> Seq<UptimeEvent> {
    log.map_values(
        |e: UptimeEvent|
            if e.id == id {
                UptimeEvent { timestamp: now as i128, ..e }
            } else {
                e
            },
    )
}

/// The log after the writes of `a`, where the table hands out the ids
/// `next_id`, `next_id + 1`, ... to new rows.
pub open spec fn apply_heartbeat(
    log: Seq<UptimeEvent>,
    a: HeartbeatAction,
    now: int,
    next_id: int,
) -> Seq<UptimeEvent> {
    match a {
        HeartbeatAction::OpenOnline => insert_event(log, next_id, ONLINE_UNTIL, now),
        HeartbeatAction::ResumeOnline => insert_event(log, next_id, ONLINE_UNTIL, now),
        HeartbeatAction::ExtendOnline { id } => touch_event(log, id, now),
        HeartbeatAction::RecordOutage => insert_event(
            insert_event(log, next_id, OFFLINE_UNTIL, now),
            next_id + 1,
            ONLINE_UNTIL,
            now,
        ),
    }
}

/// After a heartbeat at `now`, the latest record is an "online until now",
/// whatever the log held before, as long as no record lies in the future and
/// new rows get ids above the existing ones.
pub proof fn lemma_heartbeat_leaves_online_now(
    log: Seq<UptimeEvent>,
    last: Option<UptimeEvent>,
    now: int,
    next_id: int,
)
    requires
        is_timestamp(now),
        is_latest_of(log, last),
        ids_unique(log),
        forall|j: int| 0 <= j < log.len() ==> (#[trigger] log[j]).timestamp <= now,
        forall|j: int| 0 <= j < log.len() ==> (#[trigger] log[j]).id < next_id,
        next_id + 1 <= i64::MAX,
    ensures
        ({
            let after = apply_heartbeat(log, heartbeat_action(last, now), now, next_id);
            exists|k: int|
                is_latest(after, k) && after[k].event == ONLINE_UNTIL && after[k].timestamp
                    == now
        }),
{
    let a = heartbeat_action(last, now);
    let after = apply_heartbeat(log, a, now, next_id);
    match a {
        HeartbeatAction::ExtendOnline { id } => {
            let l = last->0;
            let k = choose|k: int| is_latest(log, k) && log[k] == l;
            assert(l.id == id);
            assert forall|j: int| 0 <= j < after.len() implies precedes(
                #[trigger] after[j],
                after[k],
            ) by {
                if j != k {
                    assert(log[j].id != log[k].id);
                    assert(precedes(log[j], log[k]));
                }
            }
            assert(is_latest(after, k));
        },
        HeartbeatAction::RecordOutage => {
            let k = after.len() - 1;
            assert forall|j: int| 0 <= j < after.len() implies precedes(
                #[trigger] after[j],
                after[k],
            ) by {
                if j < log.len() {
                    assert(after[j] == log[j]);
                }
            }
            assert(is_latest(after, k));
        },
        _ => {
            let k = after.len() - 1;
            assert forall|j: int| 0 <= j < after.len() implies precedes(
                #[trigger] after[j],
                after[k],
            ) by {
                if j < log.len() {
                    assert(after[j] == log[j]);
                }
            }
            assert(is_latest(after, k));
        },
    }
}

/// A heartbeat records an outage exactly when the latest record is more than
/// nine whole minutes old, and then it appends an "offline until now"
/// followed by an "online until now".
pub proof fn lemma_outage_iff_long_gap(log: Seq<UptimeEvent>, l: UptimeEvent, now: int, next_id: int)
    ensures
        (heartbeat_action(Some(l), now) == HeartbeatAction::RecordOutage) <==> whole_minutes(
            now - l.timestamp,
        ) > MAX_HEARTBEAT_GAP_MINUTES,
        heartbeat_action(Some(l), now) == HeartbeatAction::RecordOutage ==> ({
            let after = apply_heartbeat(log, HeartbeatAction::RecordOutage, now, next_id);
            &&& after.len() == log.len() + 2
            &&& after[log.len() as int].event == OFFLINE_UNTIL
            &&& after[log.len() + 1int].event == ONLINE_UNTIL
            &&& after.subrange(0, log.len() as int) == log
        }),
{
    let after = apply_heartbeat(log, HeartbeatAction::RecordOutage, now, next_id);
    assert(after.subrange(0, log.len() as int) =~= log);
}

/// The gap is measured in nanoseconds of real time: a latest record ten
/// minutes old or older always leads to an outage, whatever the length of
/// the gap beyond that, and a younger one (or one from the future) never
/// does; it is then moved on when it is an "online until", and followed by
/// a new "online until" otherwise.
pub proof fn lemma_gap_decides_outage(l: UptimeEvent, now: int)
    ensures
        now - l.timestamp >= 600_000_000_000 ==> heartbeat_action(Some(l), now)
            == HeartbeatAction::RecordOutage,
        now - l.timestamp < 600_000_000_000 ==> heartbeat_action(Some(l), now) == (if l.event
            == 0 {
            HeartbeatAction::ExtendOnline { id: l.id }
        } else {
            HeartbeatAction::ResumeOnline
        }),
{
    let d = now - l.timestamp;
    crate::clock::lemma_whole_minutes_of_span(d);
    if d >= 0 {
        if d < 600_000_000_000 {
            vstd::arithmetic::div_mod::lemma_div_is_ordered(d, 599_999_999_999, 60_000_000_000);
        } else {
            vstd::arithmetic::div_mod::lemma_div_is_ordered(600_000_000_000, d, 60_000_000_000);
        }
        assert(599_999_999_999int / 60_000_000_000int == 9);
        assert(600_000_000_000int / 60_000_000_000int == 10);
    } else {
        vstd::arithmetic::div_mod::lemma_div_pos_is_pos(-d, 60_000_000_000);
    }
}

proof fn lemma_heartbeat_keeps_ids_unique(log: Seq<UptimeEvent>, a: HeartbeatAction, now: int, next_id: int)
    requires
        ids_unique(log),
        forall|j: int| 0 <= j < log.len() ==> (#[trigger] log[j]).id < next_id,
        next_id + 1 <= i64::MAX,
        0 <= next_id,
    ensures
        ids_unique(apply_heartbeat(log, a, now, next_id)),
        forall|j: int|
            0 <= j < log.len() ==> (#[trigger] apply_heartbeat(log, a, now, next_id)[j]).id
                == log[j].id,
{
    let after = apply_heartbeat(log, a, now, next_id);
    assert forall|i: int, j: int|
        0 <= i < after.len() && 0 <= j < after.len() && i != j implies #[trigger] after[i].id
        != #[trigger] after[j].id by {
        if i < log.len() && j < log.len() {
            assert(after[i].id == log[i].id);
            assert(after[j].id == log[j].id);
        }
    }
}

/// Heartbeats at most nine whole minutes apart never record an outage: after
/// a heartbeat at `t1`, the next one at `t2` finds the latest record to be an
/// "online until" and moves it on.
pub proof fn lemma_regular_heartbeats_record_no_outage(
    log: Seq<UptimeEvent>,
    last: Option<UptimeEvent>,
    t1: int,
    next_id: int,
    last2: Option<UptimeEvent>,
    t2: int,
)
    requires
        is_timestamp(t1),
        is_latest_of(log, last),
        ids_unique(log),
        forall|j: int| 0 <= j < log.len() ==> (#[trigger] log[j]).timestamp <= t1,
        forall|j: int| 0 <= j < log.len() ==> (#[trigger] log[j]).id < next_id,
        0 <= next_id,
        next_id + 1 <= i64::MAX,
        is_latest_of(apply_heartbeat(log, heartbeat_action(last, t1), t1, next_id), last2),
        t1 <= t2,
        whole_minutes(t2 - t1) <= MAX_HEARTBEAT_GAP_MINUTES,
    ensures
        heartbeat_action(last2, t2) is ExtendOnline,
{
    let after = apply_heartbeat(log, heartbeat_action(last, t1), t1, next_id);
    lemma_heartbeat_leaves_online_now(log, last, t1, next_id);
    lemma_heartbeat_keeps_ids_unique(log, heartbeat_action(last, t1), t1, next_id);
    let k = choose|k: int|
        is_latest(after, k) && after[k].event == ONLINE_UNTIL && after[k].timestamp == t1;
    let l2 = last2->0;
    let k2 = choose|k2: int| is_latest(after, k2) && after[k2] == l2;
    assert(precedes(after[k], after[k2]));
    assert(precedes(after[k2], after[k]));
    assert(k == k2);
}


/// What a heartbeat does to the rows of its reference: it deletes none; it
/// adds none when it moves a recent "online until" (the latest row, of which
/// only the timestamp changes to now), one when there was no row or the
/// latest is a recent "offline until", and two (offline, then online) after
/// a gap of more than nine whole minutes; every other row stays as it was.
pub proof fn lemma_heartbeat_row_changes(
    log: Seq<UptimeEvent>,
    last: Option<UptimeEvent>,
    now: int,
    next_id: int,
)
    requires
        is_latest_of(log, last),
        ids_unique(log),
    ensures
        ({
            let a = heartbeat_action(last, now);
            let after = apply_heartbeat(log, a, now, next_id);
            &&& after.len() == log.len() + match a {
                HeartbeatAction::ExtendOnline { .. } => 0int,
                HeartbeatAction::OpenOnline => 1int,
                HeartbeatAction::ResumeOnline => 1int,
                HeartbeatAction::RecordOutage => 2int,
            }
            &&& (a is OpenOnline <==> last is None)
            &&& (a is ExtendOnline <==> (last matches Some(l) && l.event == ONLINE_UNTIL
                && whole_minutes(now - l.timestamp) <= MAX_HEARTBEAT_GAP_MINUTES))
            &&& (a is ResumeOnline <==> (last matches Some(l) && l.event != ONLINE_UNTIL
                && whole_minutes(now - l.timestamp) <= MAX_HEARTBEAT_GAP_MINUTES))
            &&& (a is RecordOutage <==> (last matches Some(l) && whole_minutes(now - l.timestamp)
                > MAX_HEARTBEAT_GAP_MINUTES))
            &&& (a is ExtendOnline ==> exists|k: int|
                #![trigger log[k]]
                is_latest(log, k) && after[k] == UptimeEvent { timestamp: now as i128, ..log[k] }
                    && forall|j: int| 0 <= j < log.len() && j != k ==> after[j] == log[j])
            &&& (!(a is ExtendOnline) ==> after.subrange(0, log.len() as int) == log)
        }),
{
    let a = heartbeat_action(last, now);
    let after = apply_heartbeat(log, a, now, next_id);
    match a {
        HeartbeatAction::ExtendOnline { id } => {
            let l = last->0;
            let k = choose|k: int| is_latest(log, k) && log[k] == l;
            assert forall|j: int| 0 <= j < log.len() && j != k implies after[j] == log[j] by {
                assert(log[j].id != log[k].id);
            }
            assert(after[k] == UptimeEvent { timestamp: now as i128, ..log[k] });
        },
        HeartbeatAction::RecordOutage => {
            assert(after.subrange(0, log.len() as int) =~= log);
        },
        _ => {
            assert(after.subrange(0, log.len() as int) =~= log);
        },
    }
}

} // verus!
