use sync_service::config::{Config, ImmichConfig, UserConfig};
use sync_service::local_db::LocalDatabase;
use sync_service::sync::{
    file_name, matches_extension, plan_user_sync, purge_excluded_extensions, purge_list, DeletionWatcherPlan,
    DiscoveryPlan, FileWatcherPlan, PathFilter, SyncError, SyncPlan, UploadPlan,
};

#[test]
fn ignored_dotfiles() {
    let f = PathFilter { exclude_extensions: vec![] };
    assert!(f.is_ignored("/data/.hidden", false));
    assert!(f.is_ignored("/data/.DS_Store", false));
    assert!(f.is_ignored(".gitignore", false));
}

#[test]
fn ignored_directories() {
    let f = PathFilter { exclude_extensions: vec![] };
    assert!(f.is_ignored("/tmp/subdir", true));
}

#[test]
fn not_ignored_regular_files() {
    let f = PathFilter { exclude_extensions: vec![] };
    assert!(!f.is_ignored("/tmp/photo.jpg", false));
}

#[test]
fn not_ignored_nested_file() {
    let f = PathFilter { exclude_extensions: vec![] };
    assert!(!f.is_ignored("/tmp/album/photo.png", false));
}

#[test]
fn excluded_extension() {
    let f = PathFilter { exclude_extensions: vec!["mp4".to_string(), "mov".to_string()] };
    assert!(f.is_ignored("video.mp4", false));
    assert!(f.is_ignored("video.mov", false));
    assert!(!f.is_ignored("photo.jpg", false));
}

#[test]
fn excluded_extension_file_case_insensitive() {
    let f = PathFilter { exclude_extensions: vec!["mp4".to_string(), "mov".to_string()] };
    assert!(f.is_ignored("video.MP4", false));
    assert!(f.is_ignored("video.MOV", false));
}

#[test]
fn excluded_compound_extension() {
    let f = PathFilter { exclude_extensions: vec!["tar.gz".to_string()] };
    assert!(f.is_ignored("backup.tar.gz", false));
    assert!(f.is_ignored("backup.TAR.GZ", false));
    assert!(!f.is_ignored("notes.gz", false));
    assert!(!f.is_ignored("targz", false));
}

#[test]
fn excluded_suffix_matches_compound_filename() {
    let f = PathFilter { exclude_extensions: vec!["gz".to_string()] };
    assert!(f.is_ignored("backup.tar.gz", false));
}

#[test]
fn bare_extension_filename_not_excluded() {
    let f = PathFilter { exclude_extensions: vec!["mp4".to_string()] };
    assert!(!f.is_ignored("mp4", false));
}

#[test]
fn no_excludes_allows_all() {
    let f = PathFilter { exclude_extensions: vec![] };
    assert!(!f.is_ignored("video.mp4", false));
}

fn test_config(exclude_extensions: Vec<String>) -> Config {
    Config {
        database_path: String::new(),
        event_log: None,
        immich: ImmichConfig {
            server_url: String::new(),
            delete_threshold: 0,
            delete_max_age: 3650,
            delete_poll_interval: 0,
            import_poll_interval: 0,
            upload_poll_interval: 60,
        },
        users: vec![UserConfig {
            user_id: "user1".to_string(),
            user_key: String::new(),
            path: String::new(),
        }],
        exclude_extensions,
    }
}

fn purge_test_db() -> LocalDatabase {
    let mut db = LocalDatabase::new();
    db.upsert_asset("user1", "video.mp4", &[1u8; 20], None, None);
    db.upsert_asset("user1", "keep.mp4", &[2u8; 20], Some("id-1"), None);
    db.upsert_asset("user1", "photo.jpg", &[3u8; 20], None, None);
    db
}

#[test]
fn purge_removes_only_unlinked_excluded_assets() {
    let mut db = purge_test_db();
    let config = test_config(vec!["mp4".to_string()]);

    purge_excluded_extensions(&mut db, &config, false);

    assert!(db.find_asset_by_path("user1", "video.mp4").is_none());
    assert!(db.find_asset_by_path("user1", "keep.mp4").is_some());
    assert!(db.find_asset_by_path("user1", "photo.jpg").is_some());
}

#[test]
fn purge_ignores_filesystem_state() {
    let mut db = purge_test_db();
    db.upsert_asset("user1", "src", &[4u8; 20], None, None);
    let config = test_config(vec!["mp4".to_string()]);

    purge_excluded_extensions(&mut db, &config, false);

    assert!(db.find_asset_by_path("user1", "src").is_some());
}

#[test]
fn purge_with_no_excludes_keeps_everything() {
    let mut db = purge_test_db();
    let config = test_config(vec![]);

    purge_excluded_extensions(&mut db, &config, false);

    assert!(db.find_asset_by_path("user1", "video.mp4").is_some());
    assert!(db.find_asset_by_path("user1", "keep.mp4").is_some());
    assert!(db.find_asset_by_path("user1", "photo.jpg").is_some());
}

#[test]
fn purge_dry_run_keeps_everything() {
    let mut db = purge_test_db();
    let config = test_config(vec!["mp4".to_string()]);

    purge_excluded_extensions(&mut db, &config, true);

    assert!(db.find_asset_by_path("user1", "video.mp4").is_some());
    assert!(db.find_asset_by_path("user1", "keep.mp4").is_some());
    assert!(db.find_asset_by_path("user1", "photo.jpg").is_some());
}

#[test]
fn purge_leaves_other_users_alone() {
    let mut db = purge_test_db();
    db.upsert_asset("user2", "video.mp4", &[1u8; 20], None, None);
    let config = test_config(vec!["MP4".to_string(), "jpg".to_string()]);

    purge_excluded_extensions(&mut db, &config, false);

    assert!(db.find_asset_by_path("user1", "video.mp4").is_none());
    assert!(db.find_asset_by_path("user1", "photo.jpg").is_none());
    assert!(db.find_asset_by_path("user2", "video.mp4").is_some());
}

#[test]
fn the_list_of_a_purge() {
    let filter = PathFilter { exclude_extensions: vec!["mp4".to_string()] };
    let unlinked = vec![
        ("a/video.mp4".to_string(), vec![1]),
        ("a.mp4/photo.jpg".to_string(), vec![2]),
        ("b.Mp4".to_string(), vec![3]),
    ];
    assert_eq!(purge_list(&filter, &unlinked, false), vec!["a/video.mp4", "b.Mp4"]);
    assert!(purge_list(&filter, &unlinked, true).is_empty());
    let none = PathFilter { exclude_extensions: vec![] };
    assert!(purge_list(&none, &unlinked, false).is_empty());
}

#[test]
fn extensions_match_the_end_of_a_name() {
    assert!(matches_extension("a.mp4", "mp4"));
    assert!(matches_extension("a.mp4", "MP4"));
    assert!(!matches_extension(".mp4", "mp4"));
    assert!(!matches_extension("mp4", "mp4"));
    assert!(!matches_extension("amp4", "mp4"));
    assert!(!matches_extension("", ""));
    assert!(!matches_extension(".", ""));
    assert!(matches_extension("a.", ""));
    assert!(matches_extension("\u{fc}.\u{e9}", "\u{e9}"));
    assert!(!matches_extension("\u{fc}.\u{c9}", "\u{e9}"));
    assert!(!matches_extension("a.{", "["));
    assert!(!matches_extension("a.`", "@"));
    assert!(matches_extension("a.Z", "z"));
}

#[test]
fn the_file_name_is_the_last_part_of_a_path() {
    let f = PathFilter { exclude_extensions: vec!["mp4".to_string()] };
    assert!(f.has_excluded_extension("/a/b.jpg/c.mp4"));
    assert!(f.has_excluded_extension("c.mp4/"));
    assert!(f.has_excluded_extension("c.mp4/."));
    assert!(!f.has_excluded_extension("c.mp4/.."));
    assert!(!f.has_excluded_extension("a.mp4/b"));
    assert!(!f.has_excluded_extension("/"));
    assert!(!f.has_excluded_extension(""));
    assert!(!f.has_excluded_extension("/data/.mp4"));
    assert!(f.is_ignored("/data/.mp4", false));
    assert!(!f.is_ignored("/.hidden/photo.jpg", false));
}

#[test]
fn a_name_that_is_no_text_is_not_excluded() {
    let f = PathFilter { exclude_extensions: vec!["mp4".to_string()] };
    assert!(!f.excludes_name(None));
    assert!(!f.ignores_name(None, false));
    assert!(f.ignores_name(None, true));
    assert!(f.excludes_name(Some("a.mp4")));
}

#[test]
fn the_filter_of_a_configuration() {
    let f = PathFilter::from_config(&test_config(vec!["mp4".to_string(), "MOV".to_string()]));
    assert_eq!(f.exclude_extensions, vec!["mp4", "MOV"]);
}

fn two_users() -> Config {
    let mut config = test_config(vec![]);
    config.immich = ImmichConfig {
        server_url: "http://localhost:2283".to_string(),
        delete_threshold: 14,
        delete_max_age: 3650,
        delete_poll_interval: 3600,
        import_poll_interval: 86400,
        upload_poll_interval: 60,
    };
    config.users = vec![
        UserConfig {
            user_id: "uuid-1".to_string(),
            user_key: "key-1".to_string(),
            path: "/data/photos/user1".to_string(),
        },
        UserConfig {
            user_id: "uuid-2".to_string(),
            user_key: "key-2".to_string(),
            path: "/data/photos/user2".to_string(),
        },
    ];
    config
}

fn plan_of_second_user() -> SyncPlan {
    SyncPlan {
        user_id: "uuid-2".to_string(),
        user_key: "key-2".to_string(),
        user_path: "/data/photos/user2".to_string(),
        server_url: "http://localhost:2283".to_string(),
        discovery: DiscoveryPlan { poll_interval: 86400 },
        upload: UploadPlan { poll_interval: 60, dry_run: true },
        file_watcher: FileWatcherPlan { delete_threshold: 14, delete_max_age: 3650, dry_run: true },
        deletion_watcher: DeletionWatcherPlan {
            poll_interval: 3600,
            delete_max_age: 3650,
            dry_run: true,
        },
    }
}

#[test]
fn what_runs_for_a_user() {
    assert_eq!(plan_user_sync(&two_users(), "uuid-2", true), plan_of_second_user());
}

#[test]
fn nothing_runs_without_the_folder() {
    assert_eq!(plan_of_second_user().start(true), Ok(plan_of_second_user()));
    assert_eq!(
        plan_of_second_user().start(false),
        Err(SyncError::PathMissing { path: "/data/photos/user2".to_string() })
    );
}

#[test]
fn a_missing_folder_has_a_message() {
    let error = plan_of_second_user().start(false).unwrap_err();
    assert_eq!(error.message(), "User path does not exist: /data/photos/user2");
}

#[test]
fn a_second_purge_changes_nothing() {
    let mut db = purge_test_db();
    db.upsert_asset("user1", "1:30.jpg", &[4u8; 20], None, None);
    let config = test_config(vec!["mp4".to_string()]);
    purge_excluded_extensions(&mut db, &config, false);
    let once = db.find_unlinked_assets("user1");
    purge_excluded_extensions(&mut db, &config, false);
    assert_eq!(db.find_unlinked_assets("user1"), once);
    assert!(db.find_asset_by_path("user1", "1:30.jpg").is_some());
    assert!(db.find_asset_by_path("user1", "keep.mp4").is_some());
}

#[test]
fn extensions_add_up() {
    let filter = |list: &[&str]| PathFilter {
        exclude_extensions: list.iter().map(|e| e.to_string()).collect(),
    };
    for name in ["a.mp4", "a.mov", "a.jpg"] {
        let either = filter(&["mp4"]).has_excluded_extension(name)
            || filter(&["mov"]).has_excluded_extension(name);
        assert_eq!(filter(&["mp4", "mov"]).has_excluded_extension(name), either);
    }
}

#[test]
fn the_last_name_of_a_path_counts_on_every_system() {
    assert_eq!(file_name("1:30.jpg").as_deref(), Some("1:30.jpg"));
    assert_eq!(file_name("C:/data/.hidden").as_deref(), Some(".hidden"));
    assert_eq!(file_name("C:/data/a.mp4/./").as_deref(), Some("a.mp4"));
    assert_eq!(file_name("a/..."), Some("...".to_string()));
    assert_eq!(file_name("C:/.."), None);
    let f = PathFilter { exclude_extensions: vec!["mp4".to_string()] };
    assert!(f.is_ignored("C:/data/.hidden", false));
    assert!(!f.is_ignored("C:/data/photo.jpg", false));
    assert!(f.has_excluded_extension("album\\video.mp4"));
    assert!(!f.has_excluded_extension("album\\photo.jpg"));
    assert!(f.has_excluded_extension("C:video.MP4"));
}

#[test]
fn a_purge_reads_backslashes_too() {
    let mut db = LocalDatabase::new();
    db.upsert_asset("user1", "album\\video.mp4", &[1u8; 20], None, None);
    db.upsert_asset("user1", "album\\photo.jpg", &[2u8; 20], None, None);
    purge_excluded_extensions(&mut db, &test_config(vec!["mp4".to_string()]), false);
    assert!(db.find_asset_by_path("user1", "album\\video.mp4").is_none());
    assert!(db.find_asset_by_path("user1", "album\\photo.jpg").is_some());
}
