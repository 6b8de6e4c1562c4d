use sync_service::api::{BulkCheckResult, UploadResponse};
use sync_service::event_log::{EventRecord, Worker};
use sync_service::hash::checksum_to_hex;
use sync_service::local_db::LocalDatabase;
use sync_service::workers::asset_info::{AssetInfo, FileTime};
use sync_service::workers::upload_model::BATCH_SIZE;
use sync_service::workers::uploader::{
    bulk_check_inputs, file_facts, find_checksum, UploadAction, UploadEvent, UploadStep, UploadWorker,
};

fn result(id: &str, action: &str, asset_id: Option<&str>) -> BulkCheckResult {
    BulkCheckResult {
        id: id.to_string(),
        action: action.to_string(),
        asset_id: asset_id.map(|a| a.to_string()),
    }
}

fn asset(path: &str, checksum: &[u8]) -> (String, Vec<u8>) {
    (path.to_string(), checksum.to_vec())
}

fn record(
    event: &str,
    path: Option<&str>,
    asset_id: Option<&str>,
    detail: Option<&str>,
) -> Option<EventRecord> {
    Some(EventRecord {
        worker: Worker::Uploader,
        event: event.to_string(),
        user_id: "user1".to_string(),
        path: path.map(|t| t.to_string()),
        asset_id: asset_id.map(|t| t.to_string()),
        detail: detail.map(|t| t.to_string()),
    })
}

/// A worker that has been told the server's word on one batch.
fn checked(
    dry_run: bool,
    assets: Vec<(String, Vec<u8>)>,
    results: Vec<BulkCheckResult>,
) -> UploadWorker {
    let mut worker = UploadWorker::new("user1", dry_run);
    assert_eq!(worker.first_action(), UploadAction::CheckCancelled);
    assert_eq!(worker.step(UploadEvent::Cancelled(false)).action, UploadAction::FindUnlinked);
    assert_eq!(worker.step(UploadEvent::Unlinked(assets)).action, UploadAction::CheckCancelled);
    let step = worker.step(UploadEvent::Cancelled(false));
    assert!(matches!(step.action, UploadAction::BulkCheck { .. }));
    assert_eq!(worker.step(UploadEvent::Checked(results)).action, UploadAction::CheckCancelled);
    worker
}

#[test]
fn what_the_server_has_is_linked() {
    let mut worker = checked(
        false,
        vec![asset("a.jpg", &[1])],
        vec![result("a.jpg", "reject", Some("uuid-1"))],
    );
    let step = worker.step(UploadEvent::Cancelled(false));
    assert_eq!(step.log, None);
    assert_eq!(
        step.action,
        UploadAction::Link { checksum: vec![1], asset_id: "uuid-1".to_string(), created_at: None }
    );
    assert_eq!(
        worker.step(UploadEvent::Stored),
        UploadStep {
            log: record("asset_linked", Some("a.jpg"), Some("uuid-1"), None),
            action: UploadAction::SleepOrCancel,
        }
    );
    assert_eq!(
        worker.step(UploadEvent::Slept { cancelled: false }),
        UploadStep { log: None, action: UploadAction::CheckCancelled }
    );
}

#[test]
fn a_link_that_fails_is_not_recorded() {
    let mut worker = checked(
        false,
        vec![asset("a.jpg", &[1])],
        vec![result("a.jpg", "reject", Some("uuid-1"))],
    );
    worker.step(UploadEvent::Cancelled(false));
    assert_eq!(
        worker.step(UploadEvent::StoreFailed("locked".to_string())),
        UploadStep { log: None, action: UploadAction::SleepOrCancel }
    );
}

#[test]
fn a_rejection_without_an_asset_or_a_known_path_is_passed_over() {
    let mut worker = checked(
        false,
        vec![asset("a.jpg", &[1])],
        vec![result("a.jpg", "reject", None), result("b.jpg", "reject", Some("uuid-1"))],
    );
    assert_eq!(worker.step(UploadEvent::Cancelled(false)).action, UploadAction::CheckCancelled);
    assert_eq!(worker.step(UploadEvent::Cancelled(false)).action, UploadAction::SleepOrCancel);
}

#[test]
fn what_the_server_lacks_is_uploaded() {
    let mut worker = checked(
        false,
        vec![asset("album/a.jpg", &[1])],
        vec![result("album/a.jpg", "accept", None)],
    );
    assert_eq!(
        worker.step(UploadEvent::Cancelled(false)).action,
        UploadAction::Probe { path: "album/a.jpg".to_string() }
    );
    assert_eq!(
        worker.step(UploadEvent::Exists(true)).action,
        UploadAction::Stat { path: "album/a.jpg".to_string() }
    );
    assert_eq!(
        worker
            .step(UploadEvent::Facts {
                file_name: Some("a.jpg".to_string()),
                modified: FileTime::Seconds(60),
                created: FileTime::Seconds(30),
            })
            .action,
        UploadAction::Upload {
            path: "album/a.jpg".to_string(),
            checksum: vec![1],
            info: AssetInfo {
                device_asset_id: "a.jpg-60".to_string(),
                file_created_at: "1970-01-01T00:00:30Z".to_string(),
                file_modified_at: "1970-01-01T00:01:00Z".to_string(),
            },
        }
    );
    let reply = UploadResponse { id: Some("uuid-9".to_string()) };
    assert_eq!(
        worker.step(UploadEvent::Uploaded(Some(reply))),
        UploadStep {
            log: None,
            action: UploadAction::Link {
                checksum: vec![1],
                asset_id: "uuid-9".to_string(),
                created_at: Some("1970-01-01T00:00:30Z".to_string()),
            },
        }
    );
    assert_eq!(
        worker.step(UploadEvent::Stored),
        UploadStep {
            log: record("file_uploaded", Some("album/a.jpg"), Some("uuid-9"), None),
            action: UploadAction::SleepOrCancel,
        }
    );
}

fn about_to_upload() -> UploadWorker {
    let mut worker =
        checked(false, vec![asset("a.jpg", &[1])], vec![result("a.jpg", "accept", None)]);
    worker.step(UploadEvent::Cancelled(false));
    assert!(matches!(worker.step(UploadEvent::Exists(true)).action, UploadAction::Stat { .. }));
    worker
}

fn uploading() -> UploadWorker {
    let mut worker = about_to_upload();
    let step = worker.step(UploadEvent::Facts {
        file_name: None,
        modified: FileTime::Unavailable,
        created: FileTime::Unavailable,
    });
    assert!(matches!(step.action, UploadAction::Upload { .. }));
    worker
}

#[test]
fn an_upload_that_fails_is_recorded_with_the_reason() {
    let failed = |reason: &str| UploadStep {
        log: record("upload_failed", Some("a.jpg"), None, Some(reason)),
        action: UploadAction::SleepOrCancel,
    };
    let mut worker = about_to_upload();
    assert_eq!(worker.step(UploadEvent::StatFailed("no file".to_string())), failed("no file"));
    let mut worker = about_to_upload();
    assert_eq!(worker.step(UploadEvent::Outside("elsewhere".to_string())), failed("elsewhere"));
    let mut worker = uploading();
    assert_eq!(worker.step(UploadEvent::UploadFailed("timeout".to_string())), failed("timeout"));
    let mut worker = uploading();
    let reply = UploadResponse { id: Some("uuid-9".to_string()) };
    worker.step(UploadEvent::Uploaded(Some(reply)));
    assert_eq!(worker.step(UploadEvent::StoreFailed("locked".to_string())), failed("locked"));
}

#[test]
fn an_upload_without_an_asset_is_passed_over() {
    let next = UploadStep { log: None, action: UploadAction::SleepOrCancel };
    assert_eq!(uploading().step(UploadEvent::Uploaded(None)), next);
    assert_eq!(uploading().step(UploadEvent::Uploaded(Some(UploadResponse { id: None }))), next);
}

#[test]
fn a_file_that_is_gone_is_forgotten() {
    let mut worker =
        checked(true, vec![asset("a.jpg", &[1])], vec![result("a.jpg", "accept", None)]);
    worker.step(UploadEvent::Cancelled(false));
    assert_eq!(
        worker.step(UploadEvent::Exists(false)),
        UploadStep {
            log: record("file_disappeared", Some("a.jpg"), None, None),
            action: UploadAction::RemoveRow { path: "a.jpg".to_string() },
        }
    );
    assert_eq!(
        worker.step(UploadEvent::StoreFailed("locked".to_string())),
        UploadStep { log: None, action: UploadAction::SleepOrCancel }
    );
}

#[test]
fn a_path_that_was_not_asked_about_is_not_uploaded() {
    let mut worker =
        checked(false, vec![asset("a.jpg", &[1])], vec![result("b.jpg", "accept", None)]);
    worker.step(UploadEvent::Cancelled(false));
    assert_eq!(
        worker.step(UploadEvent::Exists(true)),
        UploadStep { log: None, action: UploadAction::SleepOrCancel }
    );
}

#[test]
fn a_dry_run_uploads_nothing() {
    let mut worker = checked(
        true,
        vec![asset("a.jpg", &[1]), asset("b.jpg", &[1])],
        vec![result("a.jpg", "accept", None), result("b.jpg", "accept", None)],
    );
    worker.step(UploadEvent::Cancelled(false));
    assert_eq!(
        worker.step(UploadEvent::Exists(true)),
        UploadStep {
            log: record("upload_skipped", Some("a.jpg"), None, Some("dry-run")),
            action: UploadAction::CheckCancelled,
        }
    );
    worker.step(UploadEvent::Cancelled(false));
    assert_eq!(
        worker.step(UploadEvent::Exists(true)),
        UploadStep {
            log: record("upload_skipped_dedup", Some("b.jpg"), None, None),
            action: UploadAction::SleepOrCancel,
        }
    );
}

#[test]
fn what_was_linked_in_the_batch_is_not_uploaded() {
    let mut worker = checked(
        false,
        vec![asset("a.jpg", &[1]), asset("b.jpg", &[1])],
        vec![result("a.jpg", "reject", Some("uuid-1")), result("b.jpg", "accept", None)],
    );
    worker.step(UploadEvent::Cancelled(false));
    worker.step(UploadEvent::Stored);
    worker.step(UploadEvent::Cancelled(false));
    assert_eq!(
        worker.step(UploadEvent::Exists(true)),
        UploadStep {
            log: record("upload_skipped_dedup", Some("b.jpg"), None, None),
            action: UploadAction::SleepOrCancel,
        }
    );
}

#[test]
fn a_failed_query_pauses() {
    let mut worker = UploadWorker::new("user1", false);
    worker.step(UploadEvent::Cancelled(false));
    assert_eq!(worker.step(UploadEvent::QueryFailed).action, UploadAction::Sleep);
    assert_eq!(
        worker.step(UploadEvent::Slept { cancelled: true }).action,
        UploadAction::CheckCancelled
    );
}

#[test]
fn a_failed_check_ends_the_poll() {
    let mut worker = UploadWorker::new("user1", false);
    worker.step(UploadEvent::Cancelled(false));
    let assets = (0..BATCH_SIZE + 1).map(|i| asset(&i.to_string(), &[1])).collect();
    worker.step(UploadEvent::Unlinked(assets));
    worker.step(UploadEvent::Cancelled(false));
    assert_eq!(worker.step(UploadEvent::CheckFailed).action, UploadAction::SleepOrCancel);
}

#[test]
fn nothing_to_do() {
    let mut worker = UploadWorker::new("user1", false);
    worker.step(UploadEvent::Cancelled(false));
    assert_eq!(
        worker.step(UploadEvent::Unlinked(vec![])),
        UploadStep { log: None, action: UploadAction::SleepOrCancel }
    );
}

#[test]
fn a_shutdown_ends_the_worker() {
    let stop = UploadStep { log: None, action: UploadAction::Stop };
    let mut worker = UploadWorker::new("user1", false);
    assert_eq!(worker.step(UploadEvent::Cancelled(true)), stop);
    assert_eq!(worker.step(UploadEvent::Cancelled(false)), stop);

    let mut worker = UploadWorker::new("user1", false);
    worker.step(UploadEvent::Cancelled(false));
    worker.step(UploadEvent::Unlinked(vec![asset("a", &[1])]));
    assert_eq!(worker.step(UploadEvent::Cancelled(true)), stop);

    let mut worker = checked(false, vec![asset("a", &[1])], vec![result("a", "accept", None)]);
    assert_eq!(worker.step(UploadEvent::Cancelled(true)), stop);

    let mut worker = UploadWorker::new("user1", false);
    worker.step(UploadEvent::Cancelled(false));
    worker.step(UploadEvent::Unlinked(vec![]));
    assert_eq!(worker.step(UploadEvent::Slept { cancelled: true }), stop);
}

#[test]
fn an_answer_to_another_question_ends_the_worker() {
    let mut worker = UploadWorker::new("user1", false);
    assert_eq!(worker.step(UploadEvent::Exists(true)).action, UploadAction::Stop);
}

#[test]
fn a_poll_asks_about_every_asset_in_batches() {
    let all: Vec<(String, Vec<u8>)> =
        (0..2 * BATCH_SIZE + 1).map(|i| asset(&i.to_string(), &[(i % 256) as u8])).collect();
    let mut worker = UploadWorker::new("user1", false);
    worker.step(UploadEvent::Cancelled(false));
    let mut step = worker.step(UploadEvent::Unlinked(all.clone()));
    let mut asked: Vec<(String, String)> = vec![];
    let mut details: Vec<Option<String>> = vec![];
    while step.action == UploadAction::CheckCancelled {
        step = worker.step(UploadEvent::Cancelled(false));
        let log = step.log.unwrap();
        assert_eq!(log.event, "upload_check");
        assert_eq!(log.path, None);
        details.push(log.detail);
        match step.action {
            UploadAction::BulkCheck { inputs } => {
                asked.extend(inputs.into_iter().map(|i| (i.id, i.checksum_hex)));
            }
            other => panic!("{:?}", other),
        }
        step = worker.step(UploadEvent::Checked(vec![]));
    }
    assert_eq!(step.action, UploadAction::SleepOrCancel);
    let expected: Vec<(String, String)> =
        all.iter().map(|(path, checksum)| (path.clone(), checksum_to_hex(checksum))).collect();
    assert_eq!(asked, expected);
    assert_eq!(
        details,
        vec![
            Some("2000 assets".to_string()),
            Some("2000 assets".to_string()),
            Some("1 assets".to_string()),
        ]
    );
}

#[test]
fn the_last_checksum_of_a_path_counts() {
    let batch = vec![asset("a", &[1]), asset("b", &[2]), asset("a", &[3])];
    assert_eq!(find_checksum(&batch, "a"), Some(vec![3]));
    assert_eq!(find_checksum(&batch, "b"), Some(vec![2]));
    assert_eq!(find_checksum(&batch, "c"), None);
    let inputs = bulk_check_inputs(&batch[..2]);
    assert_eq!(inputs.len(), 2);
    assert_eq!(inputs[1].id, "b");
    assert_eq!(inputs[1].checksum_hex, "02");
}

/// Runs a worker against a table and a server that knows what was uploaded to it, until
/// the worker has polled twice. A forgetful server takes everything again.
fn run(
    db: &mut LocalDatabase,
    server: &mut Vec<String>,
    dry_run: bool,
    forgetful: bool,
) -> (usize, Vec<String>) {
    let mut worker = UploadWorker::new("user1", dry_run);
    let mut action = worker.first_action();
    let mut uploads: usize = 0;
    let mut log: Vec<String> = vec![];
    let mut polls: usize = 0;
    loop {
        let event = match action {
            UploadAction::CheckCancelled => UploadEvent::Cancelled(false),
            UploadAction::FindUnlinked => {
                UploadEvent::Unlinked(db.find_unlinked_assets("user1"))
            }
            UploadAction::Sleep => UploadEvent::Slept { cancelled: false },
            UploadAction::SleepOrCancel => {
                polls += 1;
                UploadEvent::Slept { cancelled: polls == 2 }
            }
            UploadAction::BulkCheck { inputs } => UploadEvent::Checked(
                inputs
                    .iter()
                    .map(|i| {
                        if !forgetful && server.contains(&i.checksum_hex) {
                            result(&i.id, "reject", Some(&format!("asset-{}", i.checksum_hex)))
                        } else {
                            result(&i.id, "accept", None)
                        }
                    })
                    .collect(),
            ),
            UploadAction::Link { checksum, asset_id, created_at } => {
                db.link_asset_by_checksum("user1", &checksum, &asset_id, created_at.as_deref());
                UploadEvent::Stored
            }
            UploadAction::Probe { path } => UploadEvent::Exists(path != "gone.jpg"),
            UploadAction::RemoveRow { path } => {
                db.delete_asset("user1", &path);
                UploadEvent::Stored
            }
            UploadAction::Stat { path } => UploadEvent::Facts {
                file_name: Some(path),
                modified: FileTime::Seconds(1),
                created: FileTime::Seconds(0),
            },
            UploadAction::Upload { checksum, .. } => {
                uploads += 1;
                let hex = checksum_to_hex(&checksum);
                let id = format!("asset-{}", hex);
                server.push(hex);
                UploadEvent::Uploaded(Some(UploadResponse { id: Some(id) }))
            }
            UploadAction::Stop => return (uploads, log),
        };
        let step = worker.step(event);
        if let Some(record) = step.log {
            log.push(record.event);
        }
        action = step.action;
    }
}

#[test]
fn identical_files_are_uploaded_once_and_all_linked() {
    let mut db = LocalDatabase::new();
    db.upsert_asset("user1", "album1/photo.jpg", &[1u8; 20], None, None);
    db.upsert_asset("user1", "album2/photo.jpg", &[1u8; 20], None, None);
    db.upsert_asset("user1", "other.jpg", &[2u8; 20], None, None);
    let mut server: Vec<String> = vec![];

    let (uploads, log) = run(&mut db, &mut server, false, false);

    assert_eq!(uploads, 2);
    assert_eq!(
        log,
        vec!["upload_check", "file_uploaded", "upload_skipped_dedup", "file_uploaded"]
    );
    let first = db.find_asset_by_path("user1", "album1/photo.jpg").unwrap();
    let second = db.find_asset_by_path("user1", "album2/photo.jpg").unwrap();
    assert!(first.asset_id.is_some());
    assert_eq!(first, second);
    assert!(db.find_unlinked_assets("user1").is_empty());
    assert_eq!(db.asset_created_at("user1", "other.jpg").as_deref(), Some("1970-01-01T00:00:00Z"));
}

#[test]
fn content_on_the_server_is_linked_over_batches() {
    let mut db = LocalDatabase::new();
    for i in 0..BATCH_SIZE + 1 {
        let path = format!("{}.jpg", i);
        db.upsert_asset("user1", &path, &[1u8; 20], None, None);
    }
    let mut server: Vec<String> = vec![];

    let (uploads, log) = run(&mut db, &mut server, false, false);

    assert_eq!(uploads, 1);
    assert_eq!(log.iter().filter(|e| e.as_str() == "file_uploaded").count(), 1);
    assert_eq!(log.last().unwrap(), "asset_linked");
    assert!(db.find_unlinked_assets("user1").is_empty());
}

#[test]
fn a_dry_run_changes_nothing_on_the_server() {
    let mut db = LocalDatabase::new();
    db.upsert_asset("user1", "new.jpg", &[1u8; 20], None, None);
    db.upsert_asset("user1", "gone.jpg", &[2u8; 20], None, None);
    let mut server: Vec<String> = vec![];

    let (uploads, log) = run(&mut db, &mut server, true, false);

    assert_eq!(uploads, 0);
    assert!(server.is_empty());
    assert_eq!(
        log,
        vec!["upload_check", "upload_skipped", "file_disappeared", "upload_check", "upload_skipped"]
    );
    assert_eq!(db.find_unlinked_assets("user1").len(), 1);
}

#[test]
fn no_content_is_uploaded_twice_in_a_poll() {
    let mut db = LocalDatabase::new();
    for i in 0..2 * BATCH_SIZE + 1 {
        let path = format!("{}.jpg", i);
        db.upsert_asset("user1", &path, &[1u8; 20], None, None);
    }
    let mut server: Vec<String> = vec![];

    let (uploads, log) = run(&mut db, &mut server, false, true);

    assert_eq!(uploads, 1);
    assert_eq!(log.iter().filter(|e| e.as_str() == "file_uploaded").count(), 1);
    assert_eq!(log.iter().filter(|e| e.as_str() == "upload_check").count(), 3);
    assert_eq!(
        log.iter().filter(|e| e.as_str() == "upload_skipped_dedup").count(),
        2 * BATCH_SIZE
    );
    assert!(db.find_unlinked_assets("user1").is_empty());
}

#[test]
fn a_failed_upload_is_tried_again_in_the_next_batch() {
    let mut assets: Vec<(String, Vec<u8>)> = vec![asset("first", &[7])];
    assets.extend((0..BATCH_SIZE - 1).map(|i| asset(&i.to_string(), &[1])));
    assets.push(asset("second", &[7]));
    let mut worker = checked(false, assets, vec![result("first", "accept", None)]);
    worker.step(UploadEvent::Cancelled(false));
    worker.step(UploadEvent::Exists(true));
    worker.step(file_facts("/p/first", FileTime::Seconds(1), FileTime::Seconds(1)));
    worker.step(UploadEvent::UploadFailed("timeout".to_string()));
    worker.step(UploadEvent::Cancelled(false));
    worker.step(UploadEvent::Checked(vec![result("second", "accept", None)]));
    worker.step(UploadEvent::Cancelled(false));
    assert_eq!(
        worker.step(UploadEvent::Exists(true)).action,
        UploadAction::Stat { path: "second".to_string() }
    );
}

#[test]
fn the_facts_of_a_file_name_it() {
    let times = (FileTime::Seconds(60), FileTime::Seconds(30));
    assert_eq!(
        file_facts("/photos/album/a.jpg", times.0, times.1),
        UploadEvent::Facts {
            file_name: Some("a.jpg".to_string()),
            modified: times.0,
            created: times.1,
        }
    );
    assert_eq!(
        file_facts("/", times.0, times.1),
        UploadEvent::Facts { file_name: None, modified: times.0, created: times.1 }
    );
}
