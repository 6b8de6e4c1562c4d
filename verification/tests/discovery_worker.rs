use sync_service::event_log::{EventRecord, Worker};
use sync_service::local_db::{AssetEntry, LocalDatabase};
use sync_service::sync::PathFilter;
use sync_service::workers::asset_info::FileTime;
use sync_service::workers::discovery::{
    DiscoveryAction, DiscoveryEvent, DiscoveryStep, DiscoveryWorker,
};

fn record(event: &str, path: Option<&str>) -> Option<EventRecord> {
    Some(EventRecord {
        worker: Worker::Discovery,
        event: event.to_string(),
        user_id: "user1".to_string(),
        path: path.map(|t| t.to_string()),
        asset_id: None,
        detail: None,
    })
}

fn worker() -> DiscoveryWorker {
    DiscoveryWorker::new("user1", PathFilter { exclude_extensions: vec!["mp4".to_string()] })
}

fn silent(action: DiscoveryAction) -> DiscoveryStep {
    DiscoveryStep { log: None, action }
}

/// A worker that is about to look at an entry.
fn at_entry() -> DiscoveryWorker {
    let mut w = worker();
    assert_eq!(w.first_action(), DiscoveryAction::CheckCancelled);
    assert_eq!(
        w.step(DiscoveryEvent::Cancelled(false)),
        DiscoveryStep { log: record("scan_started", None), action: DiscoveryAction::BeginWalk }
    );
    assert_eq!(w.step(DiscoveryEvent::Entry), silent(DiscoveryAction::CheckCancelled));
    assert_eq!(w.step(DiscoveryEvent::Cancelled(false)), silent(DiscoveryAction::Inspect));
    w
}

fn inspected(file_name: Option<&str>, is_dir: bool) -> DiscoveryEvent {
    DiscoveryEvent::Inspected { file_name: file_name.map(|n| n.to_string()), is_dir }
}

fn located(exists: bool, relative: Option<&str>) -> DiscoveryEvent {
    DiscoveryEvent::Located { exists, relative: relative.map(|n| n.to_string()) }
}

/// A worker that is about to look a path up.
fn at_lookup() -> DiscoveryWorker {
    let mut w = at_entry();
    assert_eq!(w.step(inspected(Some("a.jpg"), false)), silent(DiscoveryAction::Locate));
    assert_eq!(
        w.step(located(true, Some("album/a.jpg"))),
        silent(DiscoveryAction::Lookup { path: "album/a.jpg".to_string() })
    );
    w
}

#[test]
fn a_new_file_is_recorded() {
    let mut w = at_lookup();
    assert_eq!(w.step(DiscoveryEvent::Found(None)), silent(DiscoveryAction::Hash));
    assert_eq!(w.step(DiscoveryEvent::Hashed(vec![1, 2])), silent(DiscoveryAction::Stat));
    assert_eq!(
        w.step(DiscoveryEvent::Facts {
            modified: FileTime::Seconds(1705321800),
            created: FileTime::Unavailable,
        }),
        silent(DiscoveryAction::Record {
            path: "album/a.jpg".to_string(),
            checksum: vec![1, 2],
            created_at: Some("2024-01-15T12:30:00Z".to_string()),
        })
    );
    assert_eq!(
        w.step(DiscoveryEvent::Stored),
        DiscoveryStep {
            log: record("file_discovered", Some("album/a.jpg")),
            action: DiscoveryAction::NextEntry,
        }
    );
    assert_eq!(
        w.step(DiscoveryEvent::WalkEnded),
        DiscoveryStep {
            log: record("scan_completed", None),
            action: DiscoveryAction::SleepOrCancel,
        }
    );
    assert_eq!(
        w.step(DiscoveryEvent::Slept { cancelled: false }),
        silent(DiscoveryAction::CheckCancelled)
    );
}

#[test]
fn a_file_without_times_is_recorded_without_them() {
    let mut w = at_lookup();
    assert_eq!(w.step(DiscoveryEvent::LookupFailed), silent(DiscoveryAction::Hash));
    w.step(DiscoveryEvent::Hashed(vec![9]));
    assert_eq!(
        w.step(DiscoveryEvent::StatFailed),
        silent(DiscoveryAction::Record {
            path: "album/a.jpg".to_string(),
            checksum: vec![9],
            created_at: None,
        })
    );
    assert_eq!(w.step(DiscoveryEvent::StoreFailed), silent(DiscoveryAction::NextEntry));
}

fn row(asset_id: Option<&str>, created_at: Option<&str>) -> AssetEntry {
    AssetEntry {
        user_id: "user1".to_string(),
        asset_path: "album/a.jpg".to_string(),
        checksum: vec![1, 2],
        asset_id: asset_id.map(|t| t.to_string()),
        created_at: created_at.map(|t| t.to_string()),
    }
}

#[test]
fn a_known_file_is_passed_over() {
    for asset_id in [None, Some("uuid-1")] {
        let mut w = at_lookup();
        let found = DiscoveryEvent::Found(Some(row(asset_id, Some("2024-01-15T12:30:00Z"))));
        assert_eq!(w.step(found), silent(DiscoveryAction::NextEntry));
    }
}

/// A worker that has found a row without a creation time.
fn at_missing_date() -> DiscoveryWorker {
    let mut w = at_lookup();
    let found = DiscoveryEvent::Found(Some(row(Some("uuid-1"), None)));
    assert_eq!(w.step(found), silent(DiscoveryAction::Stat));
    w
}

#[test]
fn a_missing_creation_time_is_filled_in() {
    let facts = || DiscoveryEvent::Facts {
        modified: FileTime::Seconds(1705321800),
        created: FileTime::Unavailable,
    };
    let mut w = at_missing_date();
    assert_eq!(
        w.step(facts()),
        silent(DiscoveryAction::Backfill {
            path: "album/a.jpg".to_string(),
            created_at: "2024-01-15T12:30:00Z".to_string(),
        })
    );
    assert_eq!(w.step(DiscoveryEvent::Stored), silent(DiscoveryAction::NextEntry));
    let mut w = at_missing_date();
    w.step(facts());
    assert_eq!(w.step(DiscoveryEvent::StoreFailed), silent(DiscoveryAction::NextEntry));
}

#[test]
fn a_creation_time_that_cannot_be_read_stays_missing() {
    let mut w = at_missing_date();
    assert_eq!(w.step(DiscoveryEvent::StatFailed), silent(DiscoveryAction::NextEntry));
}

/// Scans a folder with one file, and hands back how often it was hashed and what was
/// recorded.
fn scan(db: &mut LocalDatabase) -> (usize, Vec<String>) {
    let mut w = worker();
    let mut action = w.first_action();
    let mut hashed: usize = 0;
    let mut log: Vec<String> = vec![];
    loop {
        let event = match action {
            DiscoveryAction::CheckCancelled => DiscoveryEvent::Cancelled(false),
            DiscoveryAction::BeginWalk => DiscoveryEvent::Entry,
            DiscoveryAction::NextEntry => DiscoveryEvent::WalkEnded,
            DiscoveryAction::Inspect => inspected(Some("a.jpg"), false),
            DiscoveryAction::Locate => located(true, Some("album/a.jpg")),
            DiscoveryAction::Lookup { path } => DiscoveryEvent::Found(db.entry("user1", &path)),
            DiscoveryAction::Hash => {
                hashed += 1;
                DiscoveryEvent::Hashed(vec![9])
            }
            DiscoveryAction::Stat => DiscoveryEvent::Facts {
                modified: FileTime::Seconds(60),
                created: FileTime::Seconds(30),
            },
            DiscoveryAction::Record { path, checksum, created_at } => {
                db.upsert_asset("user1", &path, &checksum, None, created_at.as_deref());
                DiscoveryEvent::Stored
            }
            DiscoveryAction::Backfill { path, created_at } => {
                db.date_asset("user1", &path, &created_at);
                DiscoveryEvent::Stored
            }
            DiscoveryAction::SleepOrCancel => DiscoveryEvent::Slept { cancelled: true },
            DiscoveryAction::Stop => return (hashed, log),
        };
        let step = w.step(event);
        if let Some(record) = step.log {
            log.push(record.event);
        }
        action = step.action;
    }
}

#[test]
fn a_scan_dates_what_the_table_has() {
    let mut db = LocalDatabase::new();
    db.upsert_asset("user1", "album/a.jpg", &[1, 2], Some("uuid-1"), None);

    assert_eq!(
        scan(&mut db),
        (0, vec!["scan_started".to_string(), "scan_completed".to_string()])
    );

    assert_eq!(
        db.entry("user1", "album/a.jpg"),
        Some(row(Some("uuid-1"), Some("1970-01-01T00:00:30Z")))
    );
}

#[test]
fn a_scan_records_a_new_file_once() {
    let mut db = LocalDatabase::new();
    let (hashed, log) = scan(&mut db);
    assert_eq!(hashed, 1);
    assert_eq!(log, vec!["scan_started", "file_discovered", "scan_completed"]);
    let once = db.entry("user1", "album/a.jpg");
    let (hashed, log) = scan(&mut db);
    assert_eq!(hashed, 0);
    assert_eq!(log, vec!["scan_started", "scan_completed"]);
    assert_eq!(db.entry("user1", "album/a.jpg"), once);
}

#[test]
fn a_file_that_cannot_be_hashed_is_passed_over() {
    let mut w = at_lookup();
    w.step(DiscoveryEvent::Found(None));
    assert_eq!(w.step(DiscoveryEvent::HashFailed), silent(DiscoveryAction::NextEntry));
}

#[test]
fn ignored_entries_are_passed_over() {
    for (name, is_dir) in [(".hidden", false), ("a.MP4", false), ("folder", true)] {
        let mut w = at_entry();
        assert_eq!(w.step(inspected(Some(name), is_dir)), silent(DiscoveryAction::NextEntry));
    }
    let mut w = at_entry();
    assert_eq!(w.step(inspected(None, false)), silent(DiscoveryAction::Locate));
}

#[test]
fn entries_that_are_gone_or_elsewhere_are_passed_over() {
    for event in [located(false, Some("a")), located(true, None), located(false, None)] {
        let mut w = at_entry();
        w.step(inspected(Some("a.jpg"), false));
        assert_eq!(w.step(event), silent(DiscoveryAction::NextEntry));
    }
}

#[test]
fn a_shutdown_ends_the_scan() {
    let mut w = worker();
    assert_eq!(w.step(DiscoveryEvent::Cancelled(true)), silent(DiscoveryAction::Stop));
    assert_eq!(w.step(DiscoveryEvent::Cancelled(false)), silent(DiscoveryAction::Stop));

    let mut w = worker();
    w.step(DiscoveryEvent::Cancelled(false));
    w.step(DiscoveryEvent::Entry);
    assert_eq!(w.step(DiscoveryEvent::Cancelled(true)), silent(DiscoveryAction::Stop));

    let mut w = worker();
    w.step(DiscoveryEvent::Cancelled(false));
    w.step(DiscoveryEvent::WalkEnded);
    assert_eq!(w.step(DiscoveryEvent::Slept { cancelled: true }), silent(DiscoveryAction::Stop));
}
