//! What a scan comes to, over all entries of a walk.
use vstd::prelude::*;

use crate::event_log::{EventView, Worker};
use crate::local_db::AssetView;
use crate::sync::ignored;
use crate::workers::asset_info::{asset_info_of, FileTime};
use crate::workers::discovery::{
    DiscoveryActionView, DiscoveryEventView, DiscoveryStepView, DiscoveryView,
};

verus! {

/// Whether an event is an answer to an action.
pub open spec fn answers_scan(action: DiscoveryActionView, event: DiscoveryEventView) -> bool {
    match action {
        DiscoveryActionView::CheckCancelled => event is Cancelled,
        DiscoveryActionView::BeginWalk => event is Entry || event is WalkEnded,
        DiscoveryActionView::NextEntry => event is Entry || event is WalkEnded,
        DiscoveryActionView::Inspect => event is Inspected,
        DiscoveryActionView::Locate => event is Located,
        DiscoveryActionView::Lookup { .. } => event is Found || event is LookupFailed,
        DiscoveryActionView::Hash => event is Hashed || event is HashFailed,
        DiscoveryActionView::Stat => event is Facts || event is StatFailed,
        DiscoveryActionView::Record { .. } => event is Stored || event is StoreFailed,
        DiscoveryActionView::Backfill { .. } => event is Stored || event is StoreFailed,
        DiscoveryActionView::SleepOrCancel => event is Slept,
        DiscoveryActionView::Stop => false,
    }
}

/// Whether an event is the news of a shutdown.
pub open spec fn ends_scan(event: DiscoveryEventView) -> bool {
    event == DiscoveryEventView::Cancelled(true) || event == (DiscoveryEventView::Slept {
        cancelled: true,
    })
}

/// A worker whose last action was answered, and that heard of no shutdown, goes on.
pub proof fn an_answered_scan_goes_on(
    before: DiscoveryView,
    event: DiscoveryEventView,
    answer: DiscoveryEventView,
)
    requires
        answers_scan(before.step(event).action, answer),
        !ends_scan(answer),
    ensures
        !(before.step(event).state.step(answer).action is Stop),
{
}

/// A worker that hears of a shutdown when it asks, or in the pause between two walks, stops,
/// and stays stopped.
pub proof fn a_shutdown_stops_the_scan(
    before: DiscoveryView,
    event: DiscoveryEventView,
    later: DiscoveryEventView,
)
    ensures
        before.step(event).action is CheckCancelled ==> before.step(event).state.step(
            DiscoveryEventView::Cancelled(true),
        ).action is Stop,
        before.step(event).action is SleepOrCancel ==> before.step(event).state.step(
            DiscoveryEventView::Slept { cancelled: true },
        ).action is Stop,
        before.step(event).action is Stop ==> before.step(event).state.step(later).action is Stop,
{
}

/// A new worker that hears of no shutdown starts a walk and records that it does.
pub proof fn a_scan_starts_with_a_walk(start: DiscoveryView)
    requires
        start.phase is ScanGate,
    ensures
        start.step(DiscoveryEventView::Cancelled(false)).action is BeginWalk,
        start.step(DiscoveryEventView::Cancelled(false)).log == Some(
            EventView {
                worker: Worker::Discovery,
                event: "scan_started"@,
                user_id: start.user_id,
                path: None,
                asset_id: None,
                detail: None,
            },
        ),
{
}

/// Every entry of a walk is inspected, whatever became of the entries before it: to a walk
/// that goes on the worker answers with the question about a shutdown, and, where there is
/// none, with a look at the entry. Nothing is recorded meanwhile.
pub proof fn every_entry_is_inspected(before: DiscoveryView, event: DiscoveryEventView)
    requires
        before.step(event).action is BeginWalk || before.step(event).action is NextEntry,
    ensures
        ({
            let entry = before.step(event).state.step(DiscoveryEventView::Entry);
            let looked = entry.state.step(DiscoveryEventView::Cancelled(false));
            &&& entry.action is CheckCancelled && entry.log is None
            &&& looked.action is Inspect && looked.log is None
        }),
{
}

/// A walk that has ended is recorded, and followed by a pause, then by another walk.
pub proof fn walks_follow_each_other(before: DiscoveryView, event: DiscoveryEventView)
    requires
        before.step(event).action is BeginWalk || before.step(event).action is NextEntry,
    ensures
        ({
            let ended = before.step(event).state.step(DiscoveryEventView::WalkEnded);
            let rested = ended.state.step(DiscoveryEventView::Slept { cancelled: false });
            let begun = rested.state.step(DiscoveryEventView::Cancelled(false));
            &&& ended.action is SleepOrCancel
            &&& ended.log == Some(
                EventView {
                    worker: Worker::Discovery,
                    event: "scan_completed"@,
                    user_id: before.user_id,
                    path: None,
                    asset_id: None,
                    detail: None,
                },
            )
            &&& rested.action is CheckCancelled && rested.log is None
            &&& begun.action is BeginWalk && begun.log is Some
            &&& begun.log->0.event == "scan_started"@
        }),
{
}

/// An entry is looked into further if and only if it is not to be left alone; it is looked up
/// under its path if and only if it is there and lies below the user's folder.
pub proof fn entries_are_told_apart(
    before: DiscoveryView,
    event: DiscoveryEventView,
    file_name: Option<Seq<char>>,
    is_dir: bool,
    there: bool,
    relative: Option<Seq<char>>,
)
    ensures
        before.step(event).action is Inspect ==> ({
            let inspected = before.step(event).state.step(
                DiscoveryEventView::Inspected { file_name, is_dir },
            );
            &&& inspected.log is None
            &&& ignored(before.extensions, file_name, is_dir) ==> inspected.action is NextEntry
            &&& !ignored(before.extensions, file_name, is_dir) ==> inspected.action is Locate
        }),
        before.step(event).action is Locate ==> ({
            let located = before.step(event).state.step(
                DiscoveryEventView::Located { exists: there, relative },
            );
            &&& located.log is None
            &&& there && relative is Some ==> located.action == (DiscoveryActionView::Lookup {
                path: relative->0,
            })
            &&& !(there && relative is Some) ==> located.action is NextEntry
        }),
{
}

/// What goes wrong with an entry ends the work on that entry alone. A lookup that fails is
/// taken for a new file, and a new file whose times cannot be read is recorded without them.
pub proof fn a_failure_ends_one_entry(
    before: DiscoveryView,
    event: DiscoveryEventView,
    checksum: Seq<u8>,
)
    ensures
        before.step(event).action is Hash ==> before.step(event).state.step(
            DiscoveryEventView::HashFailed,
        ).action is NextEntry,
        before.step(event).action is Record || before.step(event).action is Backfill ==> ({
            let failed = before.step(event).state.step(DiscoveryEventView::StoreFailed);
            failed.action is NextEntry && failed.log is None
        }),
        before.step(event).action is Lookup ==> ({
            let hashing = before.step(event).state.step(DiscoveryEventView::LookupFailed);
            let hashed = hashing.state.step(DiscoveryEventView::Hashed(checksum));
            let failed = hashed.state.step(DiscoveryEventView::StatFailed);
            &&& hashing.action is Hash
            &&& hashed.action is Stat
            &&& failed.action == (DiscoveryActionView::Record {
                path: before.step(event).action->Lookup_path,
                checksum,
                created_at: None,
            })
        }),
{
}

/// An entry of a walk, with what is found out about it: its name, whether it is a folder, its
/// path below the user's folder, its row in the table, its checksum and its times.
pub struct WalkEntry {
    pub file_name: Option<Seq<char>>,
    pub is_dir: bool,
    pub path: Seq<char>,
    pub row: Option<AssetView>,
    pub checksum: Seq<u8>,
    pub modified: FileTime,
    pub created: FileTime,
}

/// What happens while a worker is at an entry, where nothing goes wrong and there is no
/// shutdown.
pub open spec fn entry_events(extensions: Seq<Seq<char>>, entry: WalkEntry) -> Seq<
    DiscoveryEventView,
> {
    let seen = seq![
        DiscoveryEventView::Entry,
        DiscoveryEventView::Cancelled(false),
        DiscoveryEventView::Inspected { file_name: entry.file_name, is_dir: entry.is_dir },
    ];
    let found = seq![
        DiscoveryEventView::Located { exists: true, relative: Some(entry.path) },
        DiscoveryEventView::Found(entry.row),
    ];
    let facts = DiscoveryEventView::Facts { modified: entry.modified, created: entry.created };
    if ignored(extensions, entry.file_name, entry.is_dir) {
        seen
    } else if entry.row is None {
        seen + found + seq![
            DiscoveryEventView::Hashed(entry.checksum),
            facts,
            DiscoveryEventView::Stored,
        ]
    } else if entry.row->0.created_at is None {
        seen + found + seq![facts, DiscoveryEventView::Stored]
    } else {
        seen + found
    }
}

/// What happens over a walk.
pub open spec fn walk_events(extensions: Seq<Seq<char>>, entries: Seq<WalkEntry>) -> Seq<
    DiscoveryEventView,
>
    decreases entries.len(),
{
    if entries.len() == 0 {
        Seq::empty()
    } else {
        entry_events(extensions, entries[0]) + walk_events(extensions, entries.drop_first())
    }
}

/// What a step writes into the table.
pub open spec fn write_of(step: DiscoveryStepView) -> Seq<DiscoveryActionView> {
    if step.action is Record || step.action is Backfill {
        seq![step.action]
    } else {
        Seq::empty()
    }
}

/// What a step records in the event log.
pub open spec fn record_of(step: DiscoveryStepView) -> Seq<EventView> {
    match step.log {
        Some(record) => seq![record],
        None => Seq::empty(),
    }
}

/// What a run writes into the table, in order.
pub open spec fn writes_of(start: DiscoveryView, events: Seq<DiscoveryEventView>) -> Seq<
    DiscoveryActionView,
>
    decreases events.len(),
{
    if events.len() == 0 {
        Seq::empty()
    } else {
        write_of(start.step(events[0])) + writes_of(
            start.step(events[0]).state,
            events.drop_first(),
        )
    }
}

/// What a run records in the event log, in order.
pub open spec fn records_of(start: DiscoveryView, events: Seq<DiscoveryEventView>) -> Seq<EventView>
    decreases events.len(),
{
    if events.len() == 0 {
        Seq::empty()
    } else {
        record_of(start.step(events[0])) + records_of(
            start.step(events[0]).state,
            events.drop_first(),
        )
    }
}

/// Where a run gets to.
pub open spec fn end_of(start: DiscoveryView, events: Seq<DiscoveryEventView>) -> DiscoveryView
    decreases events.len(),
{
    if events.len() == 0 {
        start
    } else {
        end_of(start.step(events[0]).state, events.drop_first())
    }
}

/// What is to be written for an entry: a new file is recorded with its checksum, without an
/// asset, and with its creation time, for which the time of modification stands in; a known
/// file without a creation time gets it; nothing is written for any other.
pub open spec fn due_writes(extensions: Seq<Seq<char>>, entry: WalkEntry) -> Seq<
    DiscoveryActionView,
> {
    let created_at = asset_info_of(None, entry.modified, entry.created).file_created_at;
    if ignored(extensions, entry.file_name, entry.is_dir) {
        Seq::empty()
    } else {
        match entry.row {
            None => seq![
                DiscoveryActionView::Record {
                    path: entry.path,
                    checksum: entry.checksum,
                    created_at: Some(created_at),
                },
            ],
            Some(row) => if row.created_at is None {
                seq![DiscoveryActionView::Backfill { path: entry.path, created_at }]
            } else {
                Seq::empty()
            },
        }
    }
}

/// What is to be recorded in the event log for an entry: the discovery of a new file.
pub open spec fn due_records(
    user_id: Seq<char>,
    extensions: Seq<Seq<char>>,
    entry: WalkEntry,
) -> Seq<EventView> {
    if !ignored(extensions, entry.file_name, entry.is_dir) && entry.row is None {
        seq![
            EventView {
                worker: Worker::Discovery,
                event: "file_discovered"@,
                user_id,
                path: Some(entry.path),
                asset_id: None,
                detail: None,
            },
        ]
    } else {
        Seq::empty()
    }
}

proof fn runs_add_up(
    start: DiscoveryView,
    first: Seq<DiscoveryEventView>,
    second: Seq<DiscoveryEventView>,
)
    ensures
        end_of(start, first + second) == end_of(end_of(start, first), second),
        writes_of(start, first + second) == writes_of(start, first) + writes_of(
            end_of(start, first),
            second,
        ),
        records_of(start, first + second) == records_of(start, first) + records_of(
            end_of(start, first),
            second,
        ),
    decreases first.len(),
{
    if first.len() == 0 {
        assert(first + second =~= second);
    } else {
        assert((first + second).drop_first() =~= first.drop_first() + second);
        runs_add_up(start.step(first[0]).state, first.drop_first(), second);
        assert(writes_of(start, first + second) =~= writes_of(start, first) + writes_of(
            end_of(start, first),
            second,
        ));
        assert(records_of(start, first + second) =~= records_of(start, first) + records_of(
            end_of(start, first),
            second,
        ));
    }
}

proof fn one_event(start: DiscoveryView, event: DiscoveryEventView)
    ensures
        end_of(start, seq![event]) == start.step(event).state,
        writes_of(start, seq![event]) == write_of(start.step(event)),
        records_of(start, seq![event]) == record_of(start.step(event)),
{
    assert(seq![event].drop_first() =~= Seq::<DiscoveryEventView>::empty());
    reveal_with_fuel(end_of, 2);
    reveal_with_fuel(writes_of, 2);
    reveal_with_fuel(records_of, 2);
    assert(writes_of(start, seq![event]) =~= write_of(start.step(event)));
    assert(records_of(start, seq![event]) =~= record_of(start.step(event)));
}

proof fn next_event(
    start: DiscoveryView,
    events: Seq<DiscoveryEventView>,
    event: DiscoveryEventView,
)
    ensures
        end_of(start, events.push(event)) == end_of(start, events).step(event).state,
        writes_of(start, events.push(event)) == writes_of(start, events) + write_of(
            end_of(start, events).step(event),
        ),
        records_of(start, events.push(event)) == records_of(start, events) + record_of(
            end_of(start, events).step(event),
        ),
{
    runs_add_up(start, events, seq![event]);
    one_event(end_of(start, events), event);
    assert(events + seq![event] =~= events.push(event));
}

/// The work on one entry: what is due for it is written and recorded, and the worker waits
/// for the next entry as it did for this one.
pub proof fn an_entry_is_worked_through(start: DiscoveryView, entry: WalkEntry)
    requires
        start.phase is Walking,
    ensures
        end_of(start, entry_events(start.extensions, entry)) == start,
        writes_of(start, entry_events(start.extensions, entry)) == due_writes(
            start.extensions,
            entry,
        ),
        records_of(start, entry_events(start.extensions, entry)) == due_records(
            start.user_id,
            start.extensions,
            entry,
        ),
{
    let events = entry_events(start.extensions, entry);
    let none = Seq::<DiscoveryEventView>::empty();
    let e1 = none.push(DiscoveryEventView::Entry);
    next_event(start, none, DiscoveryEventView::Entry);
    let e2 = e1.push(DiscoveryEventView::Cancelled(false));
    next_event(start, e1, DiscoveryEventView::Cancelled(false));
    let inspected = DiscoveryEventView::Inspected {
        file_name: entry.file_name,
        is_dir: entry.is_dir,
    };
    let e3 = e2.push(inspected);
    next_event(start, e2, inspected);
    if ignored(start.extensions, entry.file_name, entry.is_dir) {
        assert(events =~= e3);
    } else {
        let located = DiscoveryEventView::Located { exists: true, relative: Some(entry.path) };
        let e4 = e3.push(located);
        next_event(start, e3, located);
        let e5 = e4.push(DiscoveryEventView::Found(entry.row));
        next_event(start, e4, DiscoveryEventView::Found(entry.row));
        let facts = DiscoveryEventView::Facts { modified: entry.modified, created: entry.created };
        if entry.row is None {
            let e6 = e5.push(DiscoveryEventView::Hashed(entry.checksum));
            next_event(start, e5, DiscoveryEventView::Hashed(entry.checksum));
            let e7 = e6.push(facts);
            next_event(start, e6, facts);
            let e8 = e7.push(DiscoveryEventView::Stored);
            next_event(start, e7, DiscoveryEventView::Stored);
            assert(events =~= e8);
        } else if entry.row->0.created_at is None {
            let e6 = e5.push(facts);
            next_event(start, e5, facts);
            let e7 = e6.push(DiscoveryEventView::Stored);
            next_event(start, e6, DiscoveryEventView::Stored);
            assert(events =~= e7);
        } else {
            assert(events =~= e5);
        }
    }
    assert(writes_of(start, events) =~= due_writes(start.extensions, entry));
    assert(records_of(start, events) =~= due_records(start.user_id, start.extensions, entry));
}

/// What is to be written over a walk.
pub open spec fn all_due_writes(extensions: Seq<Seq<char>>, entries: Seq<WalkEntry>) -> Seq<
    DiscoveryActionView,
>
    decreases entries.len(),
{
    if entries.len() == 0 {
        Seq::empty()
    } else {
        due_writes(extensions, entries[0]) + all_due_writes(extensions, entries.drop_first())
    }
}

/// What is to be recorded in the event log over a walk.
pub open spec fn all_due_records(
    user_id: Seq<char>,
    extensions: Seq<Seq<char>>,
    entries: Seq<WalkEntry>,
) -> Seq<EventView>
    decreases entries.len(),
{
    if entries.len() == 0 {
        Seq::empty()
    } else {
        due_records(user_id, extensions, entries[0]) + all_due_records(
            user_id,
            extensions,
            entries.drop_first(),
        )
    }
}

/// A walk over any number of entries, of any kind and in any order, writes and records what is
/// due for each of them, in order, and nothing else.
pub proof fn a_walk_deals_with_every_entry(start: DiscoveryView, entries: Seq<WalkEntry>)
    requires
        start.phase is Walking,
    ensures
        end_of(start, walk_events(start.extensions, entries)) == start,
        writes_of(start, walk_events(start.extensions, entries)) == all_due_writes(
            start.extensions,
            entries,
        ),
        records_of(start, walk_events(start.extensions, entries)) == all_due_records(
            start.user_id,
            start.extensions,
            entries,
        ),
    decreases entries.len(),
{
    if entries.len() > 0 {
        an_entry_is_worked_through(start, entries[0]);
        a_walk_deals_with_every_entry(start, entries.drop_first());
        runs_add_up(
            start,
            entry_events(start.extensions, entries[0]),
            walk_events(start.extensions, entries.drop_first()),
        );
    }
}

/// A walk over new files that are not to be left alone records every one of them, once, with
/// its own path and checksum, in the order of the walk.
pub proof fn every_new_file_of_a_walk_is_recorded(start: DiscoveryView, entries: Seq<WalkEntry>)
    requires
        start.phase is Walking,
        forall|i: int|
            0 <= i < entries.len() ==> (#[trigger] entries[i]).row is None && !ignored(
                start.extensions,
                entries[i].file_name,
                entries[i].is_dir,
            ),
    ensures
        ({
            let writes = writes_of(start, walk_events(start.extensions, entries));
            &&& writes.len() == entries.len()
            &&& forall|i: int|
                0 <= i < entries.len() ==> {
                    &&& (#[trigger] writes[i]) is Record
                    &&& writes[i]->Record_path == entries[i].path
                    &&& writes[i]->Record_checksum == entries[i].checksum
                    &&& writes[i]->Record_created_at is Some
                }
        }),
    decreases entries.len(),
{
    a_walk_deals_with_every_entry(start, entries);
    if entries.len() > 0 {
        let rest = entries.drop_first();
        assert forall|i: int| 0 <= i < rest.len() implies (#[trigger] rest[i]).row is None
            && !ignored(start.extensions, rest[i].file_name, rest[i].is_dir) by {
            assert(rest[i] == entries[i + 1]);
        }
        every_new_file_of_a_walk_is_recorded(start, rest);
        a_walk_deals_with_every_entry(start, rest);
        let writes = writes_of(start, walk_events(start.extensions, entries));
        let later = writes_of(start, walk_events(start.extensions, rest));
        assert(entries[0].row is None);
        assert(writes =~= due_writes(start.extensions, entries[0]) + later);
        assert forall|i: int| 0 <= i < entries.len() implies {
            &&& (#[trigger] writes[i]) is Record
            &&& writes[i]->Record_path == entries[i].path
            &&& writes[i]->Record_checksum == entries[i].checksum
            &&& writes[i]->Record_created_at is Some
        } by {
            if i > 0 {
                assert(writes[i] == later[i - 1]);
                assert(entries[i] == rest[i - 1]);
            }
        }
    }
}

} // verus!
