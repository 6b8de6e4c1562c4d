//! What is told to the server about a file besides its content.
use vstd::prelude::*;

use crate::calendar::{format_utc, is_timestamp, utc_text, LAST_FOUR_DIGIT_SECOND, TIMESTAMP_FORMAT};
use crate::sync::{can_be_name, file_name, file_name_of, portable};
use crate::text::{decimal, decimal_text, opt_str};

verus! {

/// A time of a file as the file system gives it: none, one before 1970, or the whole
/// seconds since the start of 1970.
#[derive(Debug, Clone, Copy, PartialEq, Eq, Structural)]
pub enum FileTime {
    Unavailable,
    BeforeEpoch,
    Seconds(u64),
}

/// What is told to the server about a file.
#[derive(Debug, PartialEq, Eq)]
pub struct AssetInfo {
    pub device_asset_id: String,
    pub file_created_at: String,
    pub file_modified_at: String,
}

/// What an asset info says.
pub struct AssetInfoView {
    pub device_asset_id: Seq<char>,
    pub file_created_at: Seq<char>,
    pub file_modified_at: Seq<char>,
}

impl View for AssetInfo {
    type V = AssetInfoView;

    open spec fn view(&self) -> AssetInfoView {
        AssetInfoView {
            device_asset_id: self.device_asset_id@,
            file_created_at: self.file_created_at@,
            file_modified_at: self.file_modified_at@,
        }
    }
}

/// The seconds of a file time; `default` where there is none, 0 before 1970.
pub open spec fn secs_or(time: FileTime, default: u64) -> u64 {
    match time {
        FileTime::Unavailable => default,
        FileTime::BeforeEpoch => 0,
        FileTime::Seconds(secs) => secs,
    }
}

/// How a timestamp is written: the start of 1970 stands in for a second that the
/// calendar does not reach.
pub open spec fn timestamp_text(ts: i64) -> Seq<char> {
    match utc_text(ts, TIMESTAMP_FORMAT@) {
        Some(text) => text,
        None => utc_text(0, TIMESTAMP_FORMAT@)->0,
    }
}

/// The creation second of a file, or its modification second where the file system
/// does not keep the former.
pub open spec fn created_secs(modified: FileTime, created: FileTime) -> u64 {
    secs_or(created, secs_or(modified, 0))
}

/// A number of seconds as a timestamp; the largest timestamp stands for a larger number.
pub open spec fn as_timestamp(secs: u64) -> i64 {
    if secs <= i64::MAX {
        secs as i64
    } else {
        i64::MAX
    }
}

/// What is told of a file with these times and this name.
pub open spec fn asset_info_of(
    file_name: Option<Seq<char>>,
    modified: FileTime,
    created: FileTime,
) -> AssetInfoView {
    let name = match file_name {
        Some(n) => n,
        None => "unknown"@,
    };
    let mtime = secs_or(modified, 0);
    AssetInfoView {
        device_asset_id: name + "-"@ + decimal_text(mtime as nat),
        file_created_at: timestamp_text(as_timestamp(created_secs(modified, created))),
        file_modified_at: timestamp_text(as_timestamp(mtime)),
    }
}

/// A time that the file system gives counts as it is, one before 1970 as the start of 1970, and
/// the default only where there is none. As a timestamp a number of seconds is itself, as far
/// as timestamps go.
pub proof fn a_time_that_is_given_counts(secs: u64, default: u64)
    ensures
        secs_or(FileTime::Seconds(secs), default) == secs,
        secs_or(FileTime::BeforeEpoch, default) == 0,
        secs_or(FileTime::Unavailable, default) == default,
        secs <= 9223372036854775807 ==> as_timestamp(secs) == secs,
        secs > 9223372036854775807 ==> as_timestamp(secs) == 9223372036854775807,
{
}

/// Where the file system gives a creation time, it alone decides what is told of the
/// creation, whatever the time of modification.
pub proof fn the_creation_time_decides(
    file_name: Option<Seq<char>>,
    modified: FileTime,
    other: FileTime,
    c: u64,
)
    ensures
        created_secs(modified, FileTime::Seconds(c)) == c,
        created_secs(modified, FileTime::BeforeEpoch) == 0,
        asset_info_of(file_name, modified, FileTime::Seconds(c)).file_created_at == asset_info_of(
            file_name,
            other,
            FileTime::Seconds(c),
        ).file_created_at,
        c <= i64::MAX ==> asset_info_of(file_name, modified, FileTime::Seconds(c)).file_created_at
            == timestamp_text(c as i64),
        c > i64::MAX ==> asset_info_of(file_name, modified, FileTime::Seconds(c)).file_created_at
            == timestamp_text(i64::MAX),
        asset_info_of(file_name, modified, FileTime::BeforeEpoch).file_created_at
            == timestamp_text(0),
{
}

/// Where the file system keeps no creation time, the time of modification stands in for it.
pub proof fn the_modification_stands_in_for_the_creation(
    file_name: Option<Seq<char>>,
    modified: FileTime,
    m: u64,
)
    ensures
        created_secs(FileTime::Seconds(m), FileTime::Unavailable) == m,
        created_secs(FileTime::BeforeEpoch, FileTime::Unavailable) == 0,
        created_secs(FileTime::Unavailable, FileTime::Unavailable) == 0,
        asset_info_of(file_name, modified, FileTime::Unavailable).file_created_at == asset_info_of(
            file_name,
            modified,
            FileTime::Unavailable,
        ).file_modified_at,
{
}

/// The time of modification is told as it is, whatever the creation time; with the name of
/// the file it makes up the ID on the device.
pub proof fn the_modification_time_is_told(
    name: Seq<char>,
    created: FileTime,
    m: u64,
    other: FileTime,
)
    ensures
        m <= i64::MAX ==> asset_info_of(
            Some(name),
            FileTime::Seconds(m),
            created,
        ).file_modified_at == timestamp_text(m as i64),
        m > i64::MAX ==> asset_info_of(
            Some(name),
            FileTime::Seconds(m),
            created,
        ).file_modified_at == timestamp_text(i64::MAX),
        other is Unavailable || other is BeforeEpoch ==> asset_info_of(
            Some(name),
            other,
            created,
        ).file_modified_at == timestamp_text(0),
        asset_info_of(Some(name), FileTime::Seconds(m), created).device_asset_id == name + "-"@
            + decimal_text(m as nat),
        other is Unavailable || other is BeforeEpoch ==> asset_info_of(
            Some(name),
            other,
            created,
        ).device_asset_id == name + "-"@ + decimal_text(0),
        asset_info_of(None, FileTime::Seconds(m), created) == asset_info_of(
            Some("unknown"@),
            FileTime::Seconds(m),
            created,
        ),
        asset_info_of(None, other, created) == asset_info_of(Some("unknown"@), other, created),
{
}

/// A timestamp is written as the calendar has it, and as the start of 1970 where the calendar
/// does not reach it.
pub proof fn timestamps_are_those_of_the_calendar(ts: i64, text: Seq<char>)
    ensures
        utc_text(ts, TIMESTAMP_FORMAT@) == Some(text) ==> timestamp_text(ts) == text,
        utc_text(ts, TIMESTAMP_FORMAT@) is None && utc_text(0, TIMESTAMP_FORMAT@) == Some(text)
            ==> timestamp_text(ts) == text,
        TIMESTAMP_FORMAT@ == "%Y-%m-%dT%H:%M:%SZ"@,
{
}

/// The whole seconds of a file time; `default` where there is none, 0 before 1970.
pub fn system_time_to_secs(time: FileTime, default: u64) -> (r: u64)
    ensures
        r == secs_or(time, default),
{
    match time {
        FileTime::Unavailable => default,
        FileTime::BeforeEpoch => 0,
        FileTime::Seconds(secs) => secs,
    }
}

/// A timestamp written out in UTC.
pub fn timestamp_to_string(ts: i64) -> (r: String)
    ensures
        r@ == timestamp_text(ts),
        0 <= ts <= LAST_FOUR_DIGIT_SECOND ==> is_timestamp(r@, ts as int),
        ts < -8334601228800 || ts > 8210266876799 ==> is_timestamp(r@, 0),
{
    match format_utc(ts, TIMESTAMP_FORMAT) {
        Some(text) => text,
        None => {
            let epoch: Option<String> = format_utc(0, TIMESTAMP_FORMAT);
            epoch.unwrap()
        },
    }
}

fn secs_to_string(secs: u64) -> (r: String)
    ensures
        r@ == timestamp_text(as_timestamp(secs)),
        secs <= LAST_FOUR_DIGIT_SECOND ==> is_timestamp(r@, secs as int),
{
    timestamp_to_string(
        if secs <= 9223372036854775807 {
            secs as i64
        } else {
            i64::MAX
        },
    )
}

/// What is told to the server about a file with this name. A file without a name is called
/// `unknown`; where the file system gives no time of modification, the start of 1970 is
/// taken.
pub fn asset_info_named(file_name: Option<&str>, modified: FileTime, created: FileTime) -> (r:
    AssetInfo)
    ensures
        r@ == asset_info_of(
            opt_str(file_name),
            modified,
            created,
        ),
        secs_or(modified, 0) <= LAST_FOUR_DIGIT_SECOND ==> is_timestamp(
            r.file_modified_at@,
            secs_or(modified, 0) as int,
        ),
        created_secs(modified, created) <= LAST_FOUR_DIGIT_SECOND ==> is_timestamp(
            r.file_created_at@,
            created_secs(modified, created) as int,
        ),
        created is Seconds && created->Seconds_0 <= LAST_FOUR_DIGIT_SECOND ==> is_timestamp(
            r.file_created_at@,
            created->Seconds_0 as int,
        ),
        created is Unavailable && modified is Seconds && modified->Seconds_0
            <= LAST_FOUR_DIGIT_SECOND ==> is_timestamp(r.file_created_at@, modified->Seconds_0 as int),
        created is BeforeEpoch ==> is_timestamp(r.file_created_at@, 0),
        created is Unavailable && !(modified is Seconds) ==> is_timestamp(r.file_created_at@, 0),
        modified is Seconds && modified->Seconds_0 <= LAST_FOUR_DIGIT_SECOND ==> is_timestamp(
            r.file_modified_at@,
            modified->Seconds_0 as int,
        ),
        !(modified is Seconds) ==> is_timestamp(r.file_modified_at@, 0),
{
    let mtime: u64 = system_time_to_secs(modified, 0);
    let ctime: u64 = system_time_to_secs(created, mtime);
    let name: String = match file_name {
        Some(n) => n.to_owned(),
        None => "unknown".to_owned(),
    };
    let mtime_text: String = decimal(mtime);
    AssetInfo {
        device_asset_id: name.concat("-").concat(mtime_text.as_str()),
        file_created_at: secs_to_string(ctime),
        file_modified_at: secs_to_string(mtime),
    }
}

/// What is told to the server about the file under a path, by its file name.
pub fn asset_info(path: &str, modified: FileTime, created: FileTime) -> (r: AssetInfo)
    ensures
        portable(path@) ==> r@ == asset_info_of(file_name_of(path@), modified, created),
        exists|name: Option<Seq<char>>| #[trigger]
            can_be_name(path@, name) && r@ == asset_info_of(name, modified, created),
        secs_or(modified, 0) <= LAST_FOUR_DIGIT_SECOND ==> is_timestamp(
            r.file_modified_at@,
            secs_or(modified, 0) as int,
        ),
        created_secs(modified, created) <= LAST_FOUR_DIGIT_SECOND ==> is_timestamp(
            r.file_created_at@,
            created_secs(modified, created) as int,
        ),
        created is Seconds && created->Seconds_0 <= LAST_FOUR_DIGIT_SECOND ==> is_timestamp(
            r.file_created_at@,
            created->Seconds_0 as int,
        ),
        created is Unavailable && modified is Seconds && modified->Seconds_0
            <= LAST_FOUR_DIGIT_SECOND ==> is_timestamp(r.file_created_at@, modified->Seconds_0 as int),
        created is BeforeEpoch ==> is_timestamp(r.file_created_at@, 0),
        created is Unavailable && !(modified is Seconds) ==> is_timestamp(r.file_created_at@, 0),
        modified is Seconds && modified->Seconds_0 <= LAST_FOUR_DIGIT_SECOND ==> is_timestamp(
            r.file_modified_at@,
            modified->Seconds_0 as int,
        ),
        !(modified is Seconds) ==> is_timestamp(r.file_modified_at@, 0),
{
    let name: Option<String> = file_name(path);
    match &name {
        Some(name) => asset_info_named(Some(name.as_str()), modified, created),
        None => asset_info_named(None, modified, created),
    }
}

/// When a file was created, written out in UTC; the time of its modification stands in
/// for a time that the file system does not keep.
pub fn file_created_at_string(modified: FileTime, created: FileTime) -> (r: String)
    ensures
        r@ == timestamp_text(as_timestamp(created_secs(modified, created))),
        created_secs(modified, created) <= LAST_FOUR_DIGIT_SECOND ==> is_timestamp(
            r@,
            created_secs(modified, created) as int,
        ),
        created is Seconds && created->Seconds_0 <= LAST_FOUR_DIGIT_SECOND ==> is_timestamp(
            r@,
            created->Seconds_0 as int,
        ),
        created is Unavailable && modified is Seconds && modified->Seconds_0
            <= LAST_FOUR_DIGIT_SECOND ==> is_timestamp(r@, modified->Seconds_0 as int),
        created is BeforeEpoch ==> is_timestamp(r@, 0),
        created is Unavailable && !(modified is Seconds) ==> is_timestamp(r@, 0),
{
    let mtime: u64 = system_time_to_secs(modified, 0);
    secs_to_string(system_time_to_secs(created, mtime))
}

} // verus!
