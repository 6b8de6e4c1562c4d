//! What holds of every run of the discovery worker.
use vstd::prelude::*;

use crate::local_db::{with_date, AssetView, Table};
use crate::sync::ignored;
use crate::workers::asset_info::{as_timestamp, created_secs, timestamp_text, FileTime};
use crate::workers::discovery::{
    DiscoveryActionView, DiscoveryEventView, DiscoveryPhaseView, DiscoveryView,
};

verus! {

/// The state after a run of events.
pub open spec fn scan_state(start: DiscoveryView, events: Seq<DiscoveryEventView>) -> DiscoveryView
    decreases events.len(),
{
    if events.len() == 0 {
        start
    } else {
        scan_state(start, events.drop_last()).step(events.last()).state
    }
}

/// The action that follows the event `i` of a run.
pub open spec fn scan_action(
    start: DiscoveryView,
    events: Seq<DiscoveryEventView>,
    i: int,
) -> DiscoveryActionView {
    scan_state(start, events.take(i)).step(events[i]).action
}

proof fn scan_moves(start: DiscoveryView, events: Seq<DiscoveryEventView>, i: int)
    requires
        0 <= i < events.len(),
    ensures
        scan_state(start, events.take(i + 1)) == scan_state(start, events.take(i)).step(
            events[i],
        ).state,
{
    assert(events.take(i + 1).drop_last() =~= events.take(i));
    assert(events.take(i + 1).last() == events[i]);
}

proof fn scans_keep_their_rules(start: DiscoveryView, events: Seq<DiscoveryEventView>)
    ensures
        scan_state(start, events).extensions == start.extensions,
        scan_state(start, events).user_id == start.user_id,
    decreases events.len(),
{
    if events.len() > 0 {
        scans_keep_their_rules(start, events.drop_last());
    }
}

/// A file is recorded only where it is not to be left alone, is there, is not known to
/// the table as far as that could be read, and with the checksum that was just computed.
pub proof fn only_new_files_are_recorded(
    start: DiscoveryView,
    events: Seq<DiscoveryEventView>,
    i: int,
)
    requires
        start.phase is ScanGate,
        0 <= i < events.len(),
        scan_action(start, events, i) is Record,
    ensures
        i >= 4,
        events[i - 4] matches DiscoveryEventView::Inspected { file_name, is_dir } && !ignored(
            start.extensions,
            file_name,
            is_dir,
        ),
        events[i - 3] == (DiscoveryEventView::Located {
            exists: true,
            relative: Some(scan_action(start, events, i)->Record_path),
        }),
        scan_action(start, events, i - 3) == (DiscoveryActionView::Lookup {
            path: scan_action(start, events, i)->Record_path,
        }),
        events[i - 2] == DiscoveryEventView::Found(None) || events[i - 2]
            == DiscoveryEventView::LookupFailed,
        events[i - 1] == DiscoveryEventView::Hashed(scan_action(start, events, i)->Record_checksum),
{
    assert(events.take(0) =~= Seq::<DiscoveryEventView>::empty());
    assert(scan_state(start, events.take(0)) == start);
    assert(scan_state(start, events.take(i)).phase is Stating);
    assert(i > 0);
    scan_moves(start, events, i - 1);
    assert(scan_state(start, events.take(i - 1)).phase is Hashing);
    assert(i > 1);
    scan_moves(start, events, i - 2);
    assert(scan_state(start, events.take(i - 2)).phase is LookingUp);
    assert(i > 2);
    scan_moves(start, events, i - 3);
    assert(scan_state(start, events.take(i - 3)).phase is Locating);
    assert(i > 3);
    scan_moves(start, events, i - 4);
    assert(scan_state(start, events.take(i - 4)).phase is Inspecting);
    scans_keep_their_rules(start, events.take(i - 4));
}

/// A file that is new to the table and not to be left alone is recorded, with its checksum
/// and the time of its creation.
pub proof fn new_files_are_recorded(
    start: DiscoveryView,
    file_name: Option<Seq<char>>,
    path: Seq<char>,
    checksum: Seq<u8>,
    modified: FileTime,
    created: FileTime,
)
    requires
        start.phase is Inspecting,
        !ignored(start.extensions, file_name, false),
    ensures
        scan_action(
            start,
            seq![
                DiscoveryEventView::Inspected { file_name, is_dir: false },
                DiscoveryEventView::Located { exists: true, relative: Some(path) },
                DiscoveryEventView::Found(None),
                DiscoveryEventView::Hashed(checksum),
                DiscoveryEventView::Facts { modified, created },
            ],
            4,
        ) == (DiscoveryActionView::Record {
            path,
            checksum,
            created_at: Some(timestamp_text(as_timestamp(created_secs(modified, created)))),
        }),
{
    let events = seq![
        DiscoveryEventView::Inspected { file_name, is_dir: false },
        DiscoveryEventView::Located { exists: true, relative: Some(path) },
        DiscoveryEventView::Found(None),
        DiscoveryEventView::Hashed(checksum),
        DiscoveryEventView::Facts { modified, created },
    ];
    assert(scan_state(start, events.take(0)) == start);
    scan_moves(start, events, 0);
    scan_moves(start, events, 1);
    scan_moves(start, events, 2);
    scan_moves(start, events, 3);
}

/// A file that the table has with its creation time is passed over.
pub proof fn known_files_are_passed_over(state: DiscoveryView, row: AssetView)
    requires
        state.phase is LookingUp,
        row.created_at is Some,
    ensures
        state.step(DiscoveryEventView::Found(Some(row))).action is NextEntry,
        state.step(DiscoveryEventView::Found(Some(row))).log is None,
{
}

/// A file that the table has without its creation time gets it. It is not hashed, and no
/// event is recorded of it.
pub proof fn missing_dates_are_filled_in(
    start: DiscoveryView,
    path: Seq<char>,
    row: AssetView,
    modified: FileTime,
    created: FileTime,
)
    requires
        start.phase == (DiscoveryPhaseView::LookingUp { path }),
        row.created_at is None,
    ensures
        ({
            let found = start.step(DiscoveryEventView::Found(Some(row)));
            let dated = found.state.step(DiscoveryEventView::Facts { modified, created });
            let stored = dated.state.step(DiscoveryEventView::Stored);
            &&& found.action is Stat && found.log is None
            &&& dated.action == (DiscoveryActionView::Backfill {
                path,
                created_at: timestamp_text(as_timestamp(created_secs(modified, created))),
            })
            &&& dated.log is None
            &&& stored.action is NextEntry && stored.log is None
        }),
{
}

/// A scan that comes upon a file whose row lacks the creation time leaves the row with the
/// time that the file system gives, and with the checksum and the link that it had.
pub proof fn a_scan_dates_what_the_table_has(
    start: DiscoveryView,
    table: Table,
    path: Seq<char>,
    modified: FileTime,
    created: FileTime,
)
    requires
        start.phase == (DiscoveryPhaseView::LookingUp { path }),
        table.contains_key((start.user_id, path)),
        table[(start.user_id, path)].created_at is None,
    ensures
        ({
            let key = (start.user_id, path);
            let found = start.step(DiscoveryEventView::Found(table.get(key)));
            let dated = found.state.step(DiscoveryEventView::Facts { modified, created });
            &&& dated.action is Backfill
            &&& dated.action->Backfill_path == path
            &&& with_date(table, key, dated.action->Backfill_created_at)[key] == (AssetView {
                created_at: Some(timestamp_text(as_timestamp(created_secs(modified, created)))),
                ..table[key]
            })
        }),
{
    missing_dates_are_filled_in(start, path, table[(start.user_id, path)], modified, created);
}

/// A creation time is filled in only for a file that is not to be left alone, is there, and
/// is in the table without one.
pub proof fn only_missing_dates_are_filled_in(
    start: DiscoveryView,
    events: Seq<DiscoveryEventView>,
    i: int,
)
    requires
        start.phase is ScanGate,
        0 <= i < events.len(),
        scan_action(start, events, i) is Backfill,
    ensures
        i >= 3,
        events[i - 3] matches DiscoveryEventView::Inspected { file_name, is_dir } && !ignored(
            start.extensions,
            file_name,
            is_dir,
        ),
        events[i - 2] == (DiscoveryEventView::Located {
            exists: true,
            relative: Some(scan_action(start, events, i)->Backfill_path),
        }),
        events[i - 1] matches DiscoveryEventView::Found(Some(row)) && row.created_at is None,
{
    assert(events.take(0) =~= Seq::<DiscoveryEventView>::empty());
    assert(scan_state(start, events.take(0)) == start);
    assert(scan_state(start, events.take(i)).phase is Dating);
    assert(i > 0);
    scan_moves(start, events, i - 1);
    assert(scan_state(start, events.take(i - 1)).phase is LookingUp);
    assert(i > 1);
    scan_moves(start, events, i - 2);
    assert(scan_state(start, events.take(i - 2)).phase is Locating);
    assert(i > 2);
    scan_moves(start, events, i - 3);
    assert(scan_state(start, events.take(i - 3)).phase is Inspecting);
    scans_keep_their_rules(start, events.take(i - 3));
}

/// A worker that has stopped does nothing more.
pub proof fn a_stopped_scan_rests(
    start: DiscoveryView,
    events: Seq<DiscoveryEventView>,
    i: int,
    j: int,
)
    requires
        0 <= i < j < events.len(),
        scan_action(start, events, i) is Stop,
    ensures
        scan_action(start, events, j) is Stop,
        scan_state(start, events.take(j)).phase is Stopped,
    decreases j - i,
{
    scan_moves(start, events, i);
    if j > i + 1 {
        a_stopped_scan_rests(start, events, i, j - 1);
        scan_moves(start, events, j - 1);
    }
}

/// A shutdown that is noticed ends the worker.
pub proof fn a_shutdown_ends_the_scan(state: DiscoveryView)
    requires
        state.phase is ScanGate || state.phase is EntryGate,
    ensures
        state.step(DiscoveryEventView::Cancelled(true)).action is Stop,
        state.step(DiscoveryEventView::Cancelled(true)).state.phase is Stopped,
{
}

} // verus!
