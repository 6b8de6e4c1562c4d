use sync_service::local_db::{AssetEntry, LocalDatabase};

fn test_db() -> LocalDatabase {
    LocalDatabase::new()
}

#[test]
fn create_and_retrieve_asset() {
    let mut db = test_db();
    let checksum = vec![1u8; 20];
    db.upsert_asset("user1", "photos/test.jpg", &checksum, None, None);

    let row = db.find_asset_by_path("user1", "photos/test.jpg");
    assert!(row.is_some());
    assert!(row.unwrap().asset_id.is_none());
}

#[test]
fn upsert_preserves_asset_id_when_checksum_unchanged() {
    let mut db = test_db();
    let checksum = vec![1u8; 20];
    db.upsert_asset(
        "user1",
        "photos/test.jpg",
        &checksum,
        Some("uuid-123"),
        Some("2024-01-01T00:00:00Z"),
    );

    db.upsert_asset("user1", "photos/test.jpg", &checksum, None, None);

    let row = db.find_asset_by_path("user1", "photos/test.jpg").unwrap();
    assert_eq!(row.asset_id.as_deref(), Some("uuid-123"));
}

#[test]
fn upsert_clears_asset_id_when_checksum_changes() {
    let mut db = test_db();
    let checksum = vec![1u8; 20];
    db.upsert_asset(
        "user1",
        "photos/test.jpg",
        &checksum,
        Some("uuid-123"),
        Some("2024-01-01T00:00:00Z"),
    );

    let new_checksum = vec![2u8; 20];
    db.upsert_asset("user1", "photos/test.jpg", &new_checksum, None, None);

    let row = db.find_asset_by_path("user1", "photos/test.jpg").unwrap();
    assert!(row.asset_id.is_none(), "asset_id should be cleared when checksum changes");
}

#[test]
fn get_assets_without_id() {
    let mut db = test_db();
    db.upsert_asset("user1", "a.jpg", &[1u8; 20], None, None);
    db.upsert_asset("user1", "b.jpg", &[2u8; 20], Some("uuid-1"), None);
    db.upsert_asset("user1", "c.jpg", &[3u8; 20], None, None);

    let missing = db.find_unlinked_assets("user1");
    assert_eq!(missing.len(), 2);
    let paths: Vec<&str> = missing.iter().map(|(p, _)| p.as_str()).collect();
    assert!(paths.contains(&"a.jpg"));
    assert!(paths.contains(&"c.jpg"));
}

#[test]
fn update_asset_id_by_checksum() {
    let mut db = test_db();
    let checksum = vec![1u8; 20];
    db.upsert_asset("user1", "test.jpg", &checksum, None, None);

    db.link_asset_by_checksum("user1", &checksum, "uuid-456", Some("2024-06-15T12:00:00Z"));

    let row = db.find_asset_by_path("user1", "test.jpg").unwrap();
    assert_eq!(row.asset_id.as_deref(), Some("uuid-456"));
}

#[test]
fn remove_asset() {
    let mut db = test_db();
    db.upsert_asset("user1", "test.jpg", &[1u8; 20], None, None);
    db.delete_asset("user1", "test.jpg");
    assert!(db.find_asset_by_path("user1", "test.jpg").is_none());
}

#[test]
fn get_all_assets() {
    let mut db = test_db();
    db.upsert_asset("user1", "a.jpg", &[1u8; 20], Some("id-a"), None);
    db.upsert_asset("user1", "b.jpg", &[2u8; 20], None, None);
    db.upsert_asset("user2", "c.jpg", &[3u8; 20], Some("id-c"), None);

    let assets = db.list_tracked_assets("user1");
    assert_eq!(assets.len(), 1);
    assert_eq!(assets[0].asset_path, "a.jpg");
}

#[test]
fn user_isolation() {
    let mut db = test_db();
    db.upsert_asset("user1", "photo.jpg", &[1u8; 20], Some("id-1"), None);
    db.upsert_asset("user2", "photo.jpg", &[2u8; 20], Some("id-2"), None);

    let row1 = db.find_asset_by_path("user1", "photo.jpg").unwrap();
    let row2 = db.find_asset_by_path("user2", "photo.jpg").unwrap();
    assert_eq!(row1.asset_id.as_deref(), Some("id-1"));
    assert_eq!(row2.asset_id.as_deref(), Some("id-2"));
}

#[test]
fn a_row_holds_what_was_recorded() {
    let mut db = test_db();
    db.upsert_asset("u", "p", &[7, 8], Some("id"), Some("t"));
    assert_eq!(
        db.entry("u", "p"),
        Some(AssetEntry {
            user_id: "u".to_string(),
            asset_path: "p".to_string(),
            checksum: vec![7, 8],
            asset_id: Some("id".to_string()),
            created_at: Some("t".to_string()),
        })
    );
    assert_eq!(db.entry("u", "q"), None);
    assert_eq!(db.entry("p", "u"), None);
}

#[test]
fn a_new_asset_id_is_taken_whatever_the_checksum() {
    let mut db = test_db();
    db.upsert_asset("u", "p", &[1], Some("old"), None);
    db.upsert_asset("u", "p", &[1], Some("new"), None);
    assert_eq!(db.entry("u", "p").unwrap().asset_id.as_deref(), Some("new"));
    db.upsert_asset("u", "p", &[2], Some("newer"), None);
    assert_eq!(db.entry("u", "p").unwrap().asset_id.as_deref(), Some("newer"));
    assert_eq!(db.entry("u", "p").unwrap().checksum, vec![2]);
}

#[test]
fn creation_times_are_not_lost() {
    let mut db = test_db();
    db.upsert_asset("u", "p", &[1], None, Some("t1"));
    db.upsert_asset("u", "p", &[2], None, None);
    assert_eq!(db.asset_created_at("u", "p").as_deref(), Some("t1"));
    db.upsert_asset("u", "p", &[2], None, Some("t2"));
    assert_eq!(db.asset_created_at("u", "p").as_deref(), Some("t2"));
    db.link_asset_by_checksum("u", &[2], "id", None);
    assert_eq!(db.asset_created_at("u", "p").as_deref(), Some("t2"));
    assert_eq!(db.asset_created_at("u", "q"), None);
    db.upsert_asset("u", "q", &[3], None, None);
    assert_eq!(db.asset_created_at("u", "q"), None);
    db.link_asset_by_checksum("u", &[3], "id", Some("t3"));
    assert_eq!(db.asset_created_at("u", "q").as_deref(), Some("t3"));
}

#[test]
fn a_link_reaches_every_unlinked_file_with_the_content() {
    let mut db = test_db();
    db.upsert_asset("u", "a", &[1], None, None);
    db.upsert_asset("u", "b", &[1], None, None);
    db.upsert_asset("u", "c", &[2], None, None);
    db.upsert_asset("u", "d", &[1], Some("other"), None);
    db.upsert_asset("v", "a", &[1], None, None);
    db.link_asset_by_checksum("u", &[1], "id", None);
    assert_eq!(db.entry("u", "a").unwrap().asset_id.as_deref(), Some("id"));
    assert_eq!(db.entry("u", "b").unwrap().asset_id.as_deref(), Some("id"));
    assert_eq!(db.entry("u", "c").unwrap().asset_id, None);
    assert_eq!(db.entry("u", "d").unwrap().asset_id.as_deref(), Some("other"));
    assert_eq!(db.entry("v", "a").unwrap().asset_id, None);
    assert_eq!(db.find_unlinked_assets("u"), vec![("c".to_string(), vec![2])]);
    db.link_asset_by_checksum("u", &[1], "later", Some("t"));
    assert_eq!(db.entry("u", "a").unwrap().asset_id.as_deref(), Some("id"));
    assert_eq!(db.asset_created_at("u", "a"), None);
}

#[test]
fn recording_twice_is_recording_once() {
    let mut db = test_db();
    db.upsert_asset("u", "p", &[1], None, Some("t"));
    let once = db.entry("u", "p");
    db.upsert_asset("u", "p", &[1], None, Some("t"));
    assert_eq!(db.entry("u", "p"), once);
    assert_eq!(db.find_unlinked_assets("u").len(), 1);
}

#[test]
fn a_forgotten_file_leaves_the_others() {
    let mut db = test_db();
    db.upsert_asset("u", "a", &[1], None, None);
    db.upsert_asset("u", "b", &[2], None, None);
    db.upsert_asset("v", "a", &[3], Some("id"), None);
    db.delete_asset("u", "a");
    db.delete_asset("u", "no such path");
    assert_eq!(db.entry("u", "a"), None);
    assert_eq!(db.find_unlinked_assets("u"), vec![("b".to_string(), vec![2])]);
    assert_eq!(db.list_tracked_assets("v").len(), 1);
    assert_eq!(db.list_tracked_assets("v")[0].checksum, vec![3]);
}

#[test]
fn unlinked_and_tracked_divide_the_table() {
    let mut db = test_db();
    for i in 0..10u8 {
        let path = format!("{}.jpg", i);
        let id = if i % 3 == 0 { Some("id") } else { None };
        db.upsert_asset("u", &path, &[i], id, None);
    }
    let mut paths: Vec<String> = db.find_unlinked_assets("u").into_iter().map(|(p, _)| p).collect();
    assert_eq!(paths.len(), 6);
    paths.extend(db.list_tracked_assets("u").into_iter().map(|a| a.asset_path));
    paths.sort();
    assert_eq!(paths, (0..10u8).map(|i| format!("{}.jpg", i)).collect::<Vec<String>>());
}

#[test]
fn a_missing_date_is_filled_in_once() {
    let mut db = test_db();
    db.upsert_asset("u", "p", &[1], Some("id"), None);
    db.upsert_asset("u", "q", &[2], None, None);
    db.upsert_asset("v", "p", &[3], None, None);
    db.date_asset("u", "p", "t1");
    assert_eq!(
        db.entry("u", "p"),
        Some(AssetEntry {
            user_id: "u".to_string(),
            asset_path: "p".to_string(),
            checksum: vec![1],
            asset_id: Some("id".to_string()),
            created_at: Some("t1".to_string()),
        })
    );
    db.date_asset("u", "p", "t2");
    assert_eq!(db.asset_created_at("u", "p").as_deref(), Some("t1"));
    assert_eq!(db.asset_created_at("u", "q"), None);
    assert_eq!(db.asset_created_at("v", "p"), None);
    db.date_asset("u", "no such path", "t");
    assert_eq!(db.entry("u", "no such path"), None);
    assert_eq!(db.find_unlinked_assets("u"), vec![("q".to_string(), vec![2])]);
}
