use checkup::background::ping::classify_ping;
use checkup::features::pings::pings_handlers::{down_pings_query, get_down_pings, DownPingsQuery};
use checkup::features::pings::{GetPingsResponse, Ping};
use checkup::features::watchers::watcher_handlers::{get_my_watchers, post_watcher, watcher_added_message};
use checkup::features::watchers::{CreateWatcherResponse, GetWatchersResponse, Watcher};
use checkup::handlers::watcher_handler::interval_column;
use checkup::helpers::DbError;
use checkup::repositories::pings_repository::log_status_change;
use checkup::repositories::watcher_repository::create_watcher;
use checkup::watching::{logs_offline, ping_status_code};

fn db_err(m: &str) -> DbError {
    DbError { code: None, message: m.to_string() }
}

#[test]
fn watcher_messages() {
    assert_eq!(watcher_added_message(12), "Watcher added with id: 12");
    assert_eq!(post_watcher(Ok(3)), CreateWatcherResponse::Created("Watcher added with id: 3".to_string()));
    assert_eq!(post_watcher(Err(db_err("boom"))), CreateWatcherResponse::InternalError("boom".to_string()));
    assert_eq!(checkup::features::watchers::watcher_handler::add_watcher(None), "Could not save new watcher");
    assert_eq!(checkup::handlers::watcher_handler::add_watcher(Some(-4)), "Watcher added with id: -4");
    assert_eq!(
        checkup::handlers::add_watcher::add_watcher(Err(db_err("locked"))),
        "Could not save new watcher. Error: locked"
    );
    assert_eq!(create_watcher(Ok(9)), Some(9));
    assert_eq!(create_watcher(Err(db_err("x"))), None);
}

#[test]
fn watcher_listing() {
    let w = Watcher { id: 1, url: "https://example.com".to_string(), created_by: 2 };
    match get_my_watchers(Ok(vec![w.clone()])) {
        GetWatchersResponse::Success(r) => assert_eq!(r.watchers, vec![w]),
        _ => panic!("expected watchers"),
    }
    assert_eq!(get_my_watchers(Err(db_err("e"))), GetWatchersResponse::InternalError("e".to_string()));
}

#[test]
fn ping_classification() {
    assert_eq!(classify_ping(Some(200)), (200, "online"));
    assert_eq!(classify_ping(Some(399)), (399, "online"));
    assert_eq!(classify_ping(Some(400)), (400, "offline"));
    assert_eq!(classify_ping(Some(503)), (503, "offline"));
    assert_eq!(classify_ping(None), (599, "offline"));
    assert_eq!(ping_status_code(None), 599);
    assert!(logs_offline(404));
    assert!(!logs_offline(302));
}

#[test]
fn status_changes_only() {
    assert!(!log_status_change(Some("offline"), "offline"));
    assert!(log_status_change(None, "offline"));
    assert!(log_status_change(Some("online"), "offline"));
    assert!(log_status_change(Some("offline"), "offlin"));
}

#[test]
fn interval_is_stored_as_i64_bits() {
    assert_eq!(interval_column(60), 60);
    assert_eq!(interval_column(u64::MAX), -1);
}

#[test]
fn down_pings() {
    assert_eq!(down_pings_query(Some(5)), DownPingsQuery::OfWatcher(5));
    assert_eq!(down_pings_query(None), DownPingsQuery::All);
    let p = Ping { id: 1, watcher_id: 5, timestamp: 0, status_code: 500, status: "offline".to_string() };
    assert_eq!(get_down_pings(Ok(vec![p.clone()])), GetPingsResponse::Success(vec![p]));
    assert_eq!(get_down_pings(Err(db_err("q"))), GetPingsResponse::InternalError("q".to_string()));
}
