use sync_service::hash::{checksum_to_hex, content_checksum};
use sync_service::text::{
    chars_of, copy_bytes, copy_opt, decimal, has_end, same_bytes, same_text, without_end,
    without_start,
};
use sync_service::workers::asset_info::{
    asset_info, asset_info_named, file_created_at_string, system_time_to_secs,
    timestamp_to_string, FileTime,
};

#[test]
fn timestamp_epoch_zero() {
    assert_eq!(timestamp_to_string(0.0f64 as i64), "1970-01-01T00:00:00Z");
}

#[test]
fn timestamp_known_date() {
    assert_eq!(timestamp_to_string(1705321800.0f64 as i64), "2024-01-15T12:30:00Z");
}

#[test]
fn timestamp_fractional_truncated() {
    assert_eq!(timestamp_to_string(0.999f64 as i64), "1970-01-01T00:00:00Z");
}

#[test]
fn asset_info_from_metadata() {
    let ts = FileTime::Seconds(1705321800);
    let info = asset_info("/tmp/dir/IMG_001.jpg", ts, FileTime::Unavailable);

    assert_eq!(info.device_asset_id, "IMG_001.jpg-1705321800");
    assert_eq!(info.file_modified_at, "2024-01-15T12:30:00Z");
}

#[test]
fn asset_info_no_filename() {
    let ts = FileTime::Seconds(1705321800);
    let info = asset_info("/", ts, FileTime::Unavailable);

    assert_eq!(info.device_asset_id, "unknown-1705321800");
}

#[test]
fn timestamps_at_the_edges_of_the_calendar() {
    assert_eq!(timestamp_to_string(951782399), "2000-02-28T23:59:59Z");
    assert_eq!(timestamp_to_string(951782400), "2000-02-29T00:00:00Z");
    assert_eq!(timestamp_to_string(4107542399), "2100-02-28T23:59:59Z");
    assert_eq!(timestamp_to_string(4107542400), "2100-03-01T00:00:00Z");
    assert_eq!(timestamp_to_string(1735689599), "2024-12-31T23:59:59Z");
    assert_eq!(timestamp_to_string(253402300799), "9999-12-31T23:59:59Z");
    assert_eq!(timestamp_to_string(-1), "1969-12-31T23:59:59Z");
}

#[test]
fn a_second_beyond_the_calendar_is_the_epoch() {
    assert_eq!(timestamp_to_string(8210266876800), "1970-01-01T00:00:00Z");
    assert_eq!(timestamp_to_string(-8334601228801), "1970-01-01T00:00:00Z");
    assert_eq!(timestamp_to_string(i64::MAX), "1970-01-01T00:00:00Z");
    assert_eq!(timestamp_to_string(i64::MIN), "1970-01-01T00:00:00Z");
    assert_ne!(timestamp_to_string(8210266876799), "1970-01-01T00:00:00Z");
    assert_ne!(timestamp_to_string(-8334601228800), "1970-01-01T00:00:00Z");
}

#[test]
fn timestamps_have_one_shape() {
    for secs in [0i64, 59, 60, 86399, 86400, 1705321800, 253402300799] {
        let text = timestamp_to_string(secs);
        assert_eq!(text.len(), 20);
        let shape: String =
            text.chars().map(|c| if c.is_ascii_digit() { '0' } else { c }).collect();
        assert_eq!(shape, "0000-00-00T00:00:00Z");
    }
}

#[test]
fn different_seconds_are_written_differently() {
    assert_ne!(timestamp_to_string(1), timestamp_to_string(2));
    assert_ne!(timestamp_to_string(0), timestamp_to_string(86400));
}

#[test]
fn file_times_that_are_not_there() {
    assert_eq!(system_time_to_secs(FileTime::Unavailable, 7), 7);
    assert_eq!(system_time_to_secs(FileTime::BeforeEpoch, 7), 0);
    assert_eq!(system_time_to_secs(FileTime::Seconds(5), 7), 5);

    let info = asset_info_named(Some("a"), FileTime::Unavailable, FileTime::Unavailable);
    assert_eq!(info.device_asset_id, "a-0");
    assert_eq!(info.file_created_at, "1970-01-01T00:00:00Z");
    assert_eq!(info.file_modified_at, "1970-01-01T00:00:00Z");

    let info = asset_info_named(Some("a"), FileTime::Seconds(60), FileTime::BeforeEpoch);
    assert_eq!(info.file_created_at, "1970-01-01T00:00:00Z");
    assert_eq!(info.file_modified_at, "1970-01-01T00:01:00Z");
}

#[test]
fn the_modification_stands_in_for_the_creation() {
    assert_eq!(
        file_created_at_string(FileTime::Seconds(60), FileTime::Unavailable),
        "1970-01-01T00:01:00Z"
    );
    assert_eq!(
        file_created_at_string(FileTime::Seconds(60), FileTime::Seconds(30)),
        "1970-01-01T00:00:30Z"
    );
    assert_eq!(
        file_created_at_string(FileTime::Seconds(u64::MAX), FileTime::Unavailable),
        "1970-01-01T00:00:00Z"
    );
}

#[test]
fn checksums_are_written_in_hexadecimal() {
    assert_eq!(checksum_to_hex(&[]), "");
    assert_eq!(checksum_to_hex(&[0, 1, 0x0a, 0x9f, 0xff]), "00010a9fff");
    assert_eq!(checksum_to_hex(&[1u8; 20]), "01".repeat(20));
}

#[test]
fn hexadecimal_tells_checksums_apart() {
    assert_ne!(checksum_to_hex(&[1, 0]), checksum_to_hex(&[0, 1]));
    assert_ne!(checksum_to_hex(&[0x10]), checksum_to_hex(&[0x01]));
}

#[test]
fn numbers_are_written_in_decimal() {
    for n in [0u64, 1, 9, 10, 11, 99, 100, 2000, 1705321800, u64::MAX] {
        assert_eq!(decimal(n), n.to_string());
    }
}

#[test]
fn characters_are_dropped_at_the_ends() {
    assert_eq!(without_end("a//", '/'), "a");
    assert_eq!(without_end("//", '/'), "");
    assert_eq!(without_end("/a", '/'), "/a");
    assert_eq!(without_start("//a/", '/'), "a/");
    assert_eq!(without_start("", '/'), "");
    assert_eq!(without_end("\u{fc}\u{e9}\u{e9}", '\u{e9}'), "\u{fc}");
    assert!(has_end("http://host/api", "/api"));
    assert!(has_end("/api", "/api"));
    assert!(!has_end("api", "/api"));
    assert!(has_end("x", ""));
}

#[test]
fn texts_and_bytes_are_compared_and_copied() {
    assert!(same_text("\u{fc}a", "\u{fc}a"));
    assert!(!same_text("a", "b"));
    assert!(!same_text("a", "ab"));
    assert!(same_bytes(&[1, 2], &[1, 2]));
    assert!(!same_bytes(&[1, 2], &[1, 3]));
    assert!(!same_bytes(&[1], &[1, 2]));
    assert_eq!(copy_bytes(&[1, 2]), vec![1, 2]);
    assert_eq!(copy_opt(&Some("a".to_string())), Some("a".to_string()));
    assert_eq!(copy_opt(&None), None);
    assert_eq!(chars_of("a\u{fc}"), vec!['a', '\u{fc}']);
}

#[test]
fn contents_have_their_sha1() {
    assert_eq!(
        checksum_to_hex(&content_checksum(b"")),
        "da39a3ee5e6b4b0d3255bfef95601890afd80709"
    );
    assert_eq!(
        checksum_to_hex(&content_checksum(b"abc")),
        "a9993e364706816aba3e25717850c26c9cd0d89d"
    );
    assert_eq!(content_checksum(&[7u8; 100]).len(), 20);
}

#[test]
fn a_file_is_told_of_by_its_name() {
    let now = FileTime::Seconds(7);
    assert_eq!(asset_info("album/a.jpg", now, now).device_asset_id, "a.jpg-7");
    assert_eq!(asset_info("album/..", now, now).device_asset_id, "unknown-7");
    assert_eq!(asset_info_named(None, now, now).device_asset_id, "unknown-7");
    assert_eq!(asset_info("a.jpg", now, now), asset_info_named(Some("a.jpg"), now, now));
}
