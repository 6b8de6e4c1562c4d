//! The discovery worker.
//!
//! It walks the folder of a user from time to time. New files are hashed and recorded
//! without an Immich asset, for the upload worker to pick up. Files that the table has are
//! passed over, but for those whose creation time it lacks: they get it, and are neither
//! hashed nor recorded again. The worker finds what was there before the service started,
//! and what the file watcher missed.
//!
//! The worker is a state machine: it names the next action, the program performs it, and
//! the outcome is handed back.
use vstd::prelude::*;

use crate::event_log::{opt_event, EventRecord, EventView, Worker};
use crate::local_db::{AssetEntry, AssetView};
use crate::sync::{ignored, PathFilter};
use crate::text::opt_text;
use crate::workers::asset_info::{
    as_timestamp, created_secs, file_created_at_string, timestamp_text, FileTime,
};

verus! {

/// What the worker wants done next.
#[allow(inconsistent_fields)]
#[derive(Debug, PartialEq, Eq)]
pub enum DiscoveryAction {
    /// Find out whether the service is being shut down.
    CheckCancelled,
    /// Start a new walk and go to its first entry.
    BeginWalk,
    /// Go to the next entry of the walk.
    NextEntry,
    /// Read the name of the entry and whether it is a folder.
    Inspect,
    /// Find out whether the entry is still there, and its path below the user's folder.
    Locate,
    /// Look the path up in the table.
    Lookup { path: String },
    /// Compute the checksum of the entry.
    Hash,
    /// Read the times of the entry.
    Stat,
    /// Record the entry, without an asset.
    Record { path: String, checksum: Vec<u8>, created_at: Option<String> },
    /// Give the entry its creation time in the table.
    Backfill { path: String, created_at: String },
    /// Wait for the poll interval or for the shutdown.
    SleepOrCancel,
    /// End.
    Stop,
}

/// What came of the last action.
#[derive(Debug, PartialEq, Eq)]
pub enum DiscoveryEvent {
    /// Whether the service is being shut down.
    Cancelled(bool),
    /// There is an entry.
    Entry,
    /// There is no further entry.
    WalkEnded,
    /// The name of the entry, if it is text, and whether it is a folder.
    Inspected { file_name: Option<String>, is_dir: bool },
    /// Whether the entry is still there, and its path below the user's folder, if it has
    /// one.
    Located { exists: bool, relative: Option<String> },
    /// What the table has under the path.
    Found(Option<AssetEntry>),
    LookupFailed,
    Hashed(Vec<u8>),
    HashFailed,
    Facts { modified: FileTime, created: FileTime },
    StatFailed,
    Stored,
    StoreFailed,
    /// A pause is over, by the shutdown or by the time.
    Slept { cancelled: bool },
}

/// An event to record, if any, and the next action.
#[derive(Debug, PartialEq, Eq)]
pub struct DiscoveryStep {
    pub log: Option<EventRecord>,
    pub action: DiscoveryAction,
}

/// What the worker wants done next.
#[allow(inconsistent_fields)]
pub enum DiscoveryActionView {
    CheckCancelled,
    BeginWalk,
    NextEntry,
    Inspect,
    Locate,
    Lookup { path: Seq<char> },
    Hash,
    Stat,
    Record { path: Seq<char>, checksum: Seq<u8>, created_at: Option<Seq<char>> },
    Backfill { path: Seq<char>, created_at: Seq<char> },
    SleepOrCancel,
    Stop,
}

/// What came of the last action.
pub enum DiscoveryEventView {
    Cancelled(bool),
    Entry,
    WalkEnded,
    Inspected { file_name: Option<Seq<char>>, is_dir: bool },
    Located { exists: bool, relative: Option<Seq<char>> },
    Found(Option<AssetView>),
    LookupFailed,
    Hashed(Seq<u8>),
    HashFailed,
    Facts { modified: FileTime, created: FileTime },
    StatFailed,
    Stored,
    StoreFailed,
    Slept { cancelled: bool },
}

/// What the worker waits for.
pub enum DiscoveryPhaseView {
    ScanGate,
    Walking,
    EntryGate,
    Inspecting,
    Locating,
    LookingUp { path: Seq<char> },
    Hashing { path: Seq<char> },
    Stating { path: Seq<char>, checksum: Seq<u8> },
    Recording { path: Seq<char> },
    Dating { path: Seq<char> },
    Backfilling,
    Sleeping,
    Stopped,
}

/// The state of the worker.
pub struct DiscoveryView {
    pub user_id: Seq<char>,
    pub extensions: Seq<Seq<char>>,
    pub phase: DiscoveryPhaseView,
}

/// One transition.
pub struct DiscoveryStepView {
    pub state: DiscoveryView,
    pub log: Option<EventView>,
    pub action: DiscoveryActionView,
}

impl View for DiscoveryAction {
    type V = DiscoveryActionView;

    open spec fn view(&self) -> DiscoveryActionView {
        match *self {
            DiscoveryAction::CheckCancelled => DiscoveryActionView::CheckCancelled,
            DiscoveryAction::BeginWalk => DiscoveryActionView::BeginWalk,
            DiscoveryAction::NextEntry => DiscoveryActionView::NextEntry,
            DiscoveryAction::Inspect => DiscoveryActionView::Inspect,
            DiscoveryAction::Locate => DiscoveryActionView::Locate,
            DiscoveryAction::Lookup { path } => DiscoveryActionView::Lookup { path: path@ },
            DiscoveryAction::Hash => DiscoveryActionView::Hash,
            DiscoveryAction::Stat => DiscoveryActionView::Stat,
            DiscoveryAction::Record { path, checksum, created_at } => DiscoveryActionView::Record {
                path: path@,
                checksum: checksum@,
                created_at: opt_text(created_at),
            },
            DiscoveryAction::Backfill { path, created_at } => DiscoveryActionView::Backfill {
                path: path@,
                created_at: created_at@,
            },
            DiscoveryAction::SleepOrCancel => DiscoveryActionView::SleepOrCancel,
            DiscoveryAction::Stop => DiscoveryActionView::Stop,
        }
    }
}

impl View for DiscoveryEvent {
    type V = DiscoveryEventView;

    open spec fn view(&self) -> DiscoveryEventView {
        match *self {
            DiscoveryEvent::Cancelled(cancelled) => DiscoveryEventView::Cancelled(cancelled),
            DiscoveryEvent::Entry => DiscoveryEventView::Entry,
            DiscoveryEvent::WalkEnded => DiscoveryEventView::WalkEnded,
            DiscoveryEvent::Inspected { file_name, is_dir } => DiscoveryEventView::Inspected {
                file_name: opt_text(file_name),
                is_dir,
            },
            DiscoveryEvent::Located { exists, relative } => DiscoveryEventView::Located {
                exists,
                relative: opt_text(relative),
            },
            DiscoveryEvent::Found(row) => DiscoveryEventView::Found(
                match row {
                    Some(row) => Some(row.content()),
                    None => None,
                },
            ),
            DiscoveryEvent::LookupFailed => DiscoveryEventView::LookupFailed,
            DiscoveryEvent::Hashed(checksum) => DiscoveryEventView::Hashed(checksum@),
            DiscoveryEvent::HashFailed => DiscoveryEventView::HashFailed,
            DiscoveryEvent::Facts { modified, created } => DiscoveryEventView::Facts {
                modified,
                created,
            },
            DiscoveryEvent::StatFailed => DiscoveryEventView::StatFailed,
            DiscoveryEvent::Stored => DiscoveryEventView::Stored,
            DiscoveryEvent::StoreFailed => DiscoveryEventView::StoreFailed,
            DiscoveryEvent::Slept { cancelled } => DiscoveryEventView::Slept { cancelled },
        }
    }
}

impl DiscoveryView {
    /// Goes to a phase.
    pub open spec fn go(
        self,
        phase: DiscoveryPhaseView,
        log: Option<EventView>,
        action: DiscoveryActionView,
    ) -> DiscoveryStepView {
        DiscoveryStepView { state: DiscoveryView { phase, ..self }, log, action }
    }

    /// An event of this worker.
    pub open spec fn event(self, event: Seq<char>, path: Option<Seq<char>>) -> Option<EventView> {
        Some(
            EventView {
                worker: Worker::Discovery,
                event,
                user_id: self.user_id,
                path,
                asset_id: None,
                detail: None,
            },
        )
    }

    /// Leaves the entry at hand.
    pub open spec fn next(self, log: Option<EventView>) -> DiscoveryStepView {
        self.go(DiscoveryPhaseView::Walking, log, DiscoveryActionView::NextEntry)
    }

    /// Records the entry at hand.
    pub open spec fn record(
        self,
        path: Seq<char>,
        checksum: Seq<u8>,
        created_at: Option<Seq<char>>,
    ) -> DiscoveryStepView {
        self.go(
            DiscoveryPhaseView::Recording { path },
            None,
            DiscoveryActionView::Record { path, checksum, created_at },
        )
    }

    /// One transition. An event that does not answer the last action ends the worker.
    pub open spec fn step(self, event: DiscoveryEventView) -> DiscoveryStepView {
        match (self.phase, event) {
            (DiscoveryPhaseView::ScanGate, DiscoveryEventView::Cancelled(false)) => self.go(
                DiscoveryPhaseView::Walking,
                self.event("scan_started"@, None),
                DiscoveryActionView::BeginWalk,
            ),
            (DiscoveryPhaseView::Walking, DiscoveryEventView::Entry) => self.go(
                DiscoveryPhaseView::EntryGate,
                None,
                DiscoveryActionView::CheckCancelled,
            ),
            (DiscoveryPhaseView::Walking, DiscoveryEventView::WalkEnded) => self.go(
                DiscoveryPhaseView::Sleeping,
                self.event("scan_completed"@, None),
                DiscoveryActionView::SleepOrCancel,
            ),
            (DiscoveryPhaseView::EntryGate, DiscoveryEventView::Cancelled(false)) => self.go(
                DiscoveryPhaseView::Inspecting,
                None,
                DiscoveryActionView::Inspect,
            ),
            (
                DiscoveryPhaseView::Inspecting,
                DiscoveryEventView::Inspected { file_name, is_dir },
            ) => if ignored(self.extensions, file_name, is_dir) {
                self.next(None)
            } else {
                self.go(DiscoveryPhaseView::Locating, None, DiscoveryActionView::Locate)
            },
            (
                DiscoveryPhaseView::Locating,
                DiscoveryEventView::Located { exists, relative },
            ) => if exists && relative is Some {
                self.go(
                    DiscoveryPhaseView::LookingUp { path: relative->0 },
                    None,
                    DiscoveryActionView::Lookup { path: relative->0 },
                )
            } else {
                self.next(None)
            },
            (DiscoveryPhaseView::LookingUp { path }, DiscoveryEventView::Found(Some(row))) =>
                if row.created_at is Some {
                    self.next(None)
                } else {
                    self.go(DiscoveryPhaseView::Dating { path }, None, DiscoveryActionView::Stat)
                },
            (DiscoveryPhaseView::LookingUp { path }, DiscoveryEventView::Found(None)) => self.go(
                DiscoveryPhaseView::Hashing { path },
                None,
                DiscoveryActionView::Hash,
            ),
            (DiscoveryPhaseView::LookingUp { path }, DiscoveryEventView::LookupFailed) => self.go(
                DiscoveryPhaseView::Hashing { path },
                None,
                DiscoveryActionView::Hash,
            ),
            (DiscoveryPhaseView::Hashing { .. }, DiscoveryEventView::HashFailed) => self.next(None),
            (DiscoveryPhaseView::Hashing { path }, DiscoveryEventView::Hashed(checksum)) => self.go(
                DiscoveryPhaseView::Stating { path, checksum },
                None,
                DiscoveryActionView::Stat,
            ),
            (
                DiscoveryPhaseView::Stating { path, checksum },
                DiscoveryEventView::Facts { modified, created },
            ) => self.record(
                path,
                checksum,
                Some(timestamp_text(as_timestamp(created_secs(modified, created)))),
            ),
            (DiscoveryPhaseView::Stating { path, checksum }, DiscoveryEventView::StatFailed) =>
                self.record(path, checksum, None),
            (DiscoveryPhaseView::Recording { path }, DiscoveryEventView::Stored) => self.next(
                self.event("file_discovered"@, Some(path)),
            ),
            (DiscoveryPhaseView::Recording { .. }, DiscoveryEventView::StoreFailed) => self.next(
                None,
            ),
            (
                DiscoveryPhaseView::Dating { path },
                DiscoveryEventView::Facts { modified, created },
            ) => self.go(
                DiscoveryPhaseView::Backfilling,
                None,
                DiscoveryActionView::Backfill {
                    path,
                    created_at: timestamp_text(as_timestamp(created_secs(modified, created))),
                },
            ),
            (DiscoveryPhaseView::Dating { .. }, DiscoveryEventView::StatFailed) => self.next(None),
            (DiscoveryPhaseView::Backfilling, DiscoveryEventView::Stored) => self.next(None),
            (DiscoveryPhaseView::Backfilling, DiscoveryEventView::StoreFailed) => self.next(None),
            (DiscoveryPhaseView::Sleeping, DiscoveryEventView::Slept { cancelled: false }) =>
                self.go(DiscoveryPhaseView::ScanGate, None, DiscoveryActionView::CheckCancelled),
            _ => self.go(DiscoveryPhaseView::Stopped, None, DiscoveryActionView::Stop),
        }
    }
}

enum Phase {
    ScanGate,
    Walking,
    EntryGate,
    Inspecting,
    Locating,
    LookingUp { path: String },
    Hashing { path: String },
    Stating { path: String, checksum: Vec<u8> },
    Recording { path: String },
    Dating { path: String },
    Backfilling,
    Sleeping,
    Stopped,
}

impl View for Phase {
    type V = DiscoveryPhaseView;

    closed spec fn view(&self) -> DiscoveryPhaseView {
        match *self {
            Phase::ScanGate => DiscoveryPhaseView::ScanGate,
            Phase::Walking => DiscoveryPhaseView::Walking,
            Phase::EntryGate => DiscoveryPhaseView::EntryGate,
            Phase::Inspecting => DiscoveryPhaseView::Inspecting,
            Phase::Locating => DiscoveryPhaseView::Locating,
            Phase::LookingUp { path } => DiscoveryPhaseView::LookingUp { path: path@ },
            Phase::Hashing { path } => DiscoveryPhaseView::Hashing { path: path@ },
            Phase::Stating { path, checksum } => DiscoveryPhaseView::Stating {
                path: path@,
                checksum: checksum@,
            },
            Phase::Recording { path } => DiscoveryPhaseView::Recording { path: path@ },
            Phase::Dating { path } => DiscoveryPhaseView::Dating { path: path@ },
            Phase::Backfilling => DiscoveryPhaseView::Backfilling,
            Phase::Sleeping => DiscoveryPhaseView::Sleeping,
            Phase::Stopped => DiscoveryPhaseView::Stopped,
        }
    }
}

/// The discovery worker of one user.
pub struct DiscoveryWorker {
    user_id: String,
    filter: PathFilter,
    phase: Phase,
}

impl View for DiscoveryWorker {
    type V = DiscoveryView;

    closed spec fn view(&self) -> DiscoveryView {
        DiscoveryView {
            user_id: self.user_id@,
            extensions: self.filter.extensions(),
            phase: self.phase@,
        }
    }
}

impl DiscoveryWorker {
    /// Whether a step of the worker is the transition `expected`.
    pub open spec fn took(
        state: DiscoveryView,
        step: DiscoveryStep,
        expected: DiscoveryStepView,
    ) -> bool {
        &&& state == expected.state
        &&& opt_event(step.log) == expected.log
        &&& step.action@ == expected.action
    }

    /// The worker of a user before its first scan.
    pub fn new(user_id: &str, filter: PathFilter) -> (r: DiscoveryWorker)
        ensures
            r@ == (DiscoveryView {
                user_id: user_id@,
                extensions: filter.extensions(),
                phase: DiscoveryPhaseView::ScanGate,
            }),
    {
        DiscoveryWorker { user_id: user_id.to_owned(), filter, phase: Phase::ScanGate }
    }

    /// The first action: to find out whether the service is being shut down.
    pub fn first_action(&self) -> (r: DiscoveryAction)
        ensures
            r@ is CheckCancelled,
    {
        DiscoveryAction::CheckCancelled
    }

    fn event(&self, event: &str, path: Option<String>) -> (r: Option<EventRecord>)
        ensures
            opt_event(r) == self@.event(event@, opt_text(path)),
    {
        Some(
            EventRecord {
                worker: Worker::Discovery,
                event: event.to_owned(),
                user_id: self.user_id.clone(),
                path,
                asset_id: None,
                detail: None,
            },
        )
    }

    fn go(&mut self, phase: Phase, log: Option<EventRecord>, action: DiscoveryAction) -> (r:
        DiscoveryStep)
        ensures
            Self::took(final(self)@, r, old(self)@.go(phase@, opt_event(log), action@)),
    {
        self.phase = phase;
        DiscoveryStep { log, action }
    }

    fn next(&mut self, log: Option<EventRecord>) -> (r: DiscoveryStep)
        ensures
            Self::took(final(self)@, r, old(self)@.next(opt_event(log))),
    {
        self.go(Phase::Walking, log, DiscoveryAction::NextEntry)
    }

    fn record(&mut self, path: String, checksum: Vec<u8>, created_at: Option<String>) -> (r:
        DiscoveryStep)
        ensures
            Self::took(
                final(self)@,
                r,
                old(self)@.record(path@, checksum@, opt_text(created_at)),
            ),
    {
        let copy: String = path.clone();
        self.go(
            Phase::Recording { path: copy },
            None,
            DiscoveryAction::Record { path, checksum, created_at },
        )
    }

    /// Takes the outcome of the last action and names the next one. An event that does
    /// not answer the last action ends the worker.
    pub fn step(&mut self, event: DiscoveryEvent) -> (r: DiscoveryStep)
        ensures
            Self::took(final(self)@, r, old(self)@.step(event@)),
    {
        let mut phase = Phase::Stopped;
        std::mem::swap(&mut phase, &mut self.phase);
        match (phase, event) {
            (Phase::ScanGate, DiscoveryEvent::Cancelled(false)) => {
                let log = self.event("scan_started", None);
                self.go(Phase::Walking, log, DiscoveryAction::BeginWalk)
            },
            (Phase::Walking, DiscoveryEvent::Entry) => self.go(
                Phase::EntryGate,
                None,
                DiscoveryAction::CheckCancelled,
            ),
            (Phase::Walking, DiscoveryEvent::WalkEnded) => {
                let log = self.event("scan_completed", None);
                self.go(Phase::Sleeping, log, DiscoveryAction::SleepOrCancel)
            },
            (Phase::EntryGate, DiscoveryEvent::Cancelled(false)) => self.go(
                Phase::Inspecting,
                None,
                DiscoveryAction::Inspect,
            ),
            (Phase::Inspecting, DiscoveryEvent::Inspected { file_name, is_dir }) => {
                let skip: bool = match &file_name {
                    Some(name) => self.filter.ignores_name(Some(name.as_str()), is_dir),
                    None => self.filter.ignores_name(None, is_dir),
                };
                if skip {
                    self.next(None)
                } else {
                    self.go(Phase::Locating, None, DiscoveryAction::Locate)
                }
            },
            (Phase::Locating, DiscoveryEvent::Located { exists: true, relative: Some(path) }) => {
                let copy: String = path.clone();
                self.go(
                    Phase::LookingUp { path: copy },
                    None,
                    DiscoveryAction::Lookup { path },
                )
            },
            (Phase::Locating, DiscoveryEvent::Located { exists: _, relative: _ }) => self.next(
                None,
            ),
            (Phase::LookingUp { path }, DiscoveryEvent::Found(Some(row))) => {
                if row.created_at.is_some() {
                    self.next(None)
                } else {
                    self.go(Phase::Dating { path }, None, DiscoveryAction::Stat)
                }
            },
            (Phase::LookingUp { path }, DiscoveryEvent::Found(None)) => self.go(
                Phase::Hashing { path },
                None,
                DiscoveryAction::Hash,
            ),
            (Phase::LookingUp { path }, DiscoveryEvent::LookupFailed) => self.go(
                Phase::Hashing { path },
                None,
                DiscoveryAction::Hash,
            ),
            (Phase::Hashing { path: _ }, DiscoveryEvent::HashFailed) => self.next(None),
            (Phase::Hashing { path }, DiscoveryEvent::Hashed(checksum)) => self.go(
                Phase::Stating { path, checksum },
                None,
                DiscoveryAction::Stat,
            ),
            (Phase::Stating { path, checksum }, DiscoveryEvent::Facts { modified, created }) => {
                let created_at: String = file_created_at_string(modified, created);
                self.record(path, checksum, Some(created_at))
            },
            (Phase::Stating { path, checksum }, DiscoveryEvent::StatFailed) => self.record(
                path,
                checksum,
                None,
            ),
            (Phase::Recording { path }, DiscoveryEvent::Stored) => {
                let log = self.event("file_discovered", Some(path));
                self.next(log)
            },
            (Phase::Recording { path: _ }, DiscoveryEvent::StoreFailed) => self.next(None),
            (Phase::Dating { path }, DiscoveryEvent::Facts { modified, created }) => {
                let created_at: String = file_created_at_string(modified, created);
                self.go(
                    Phase::Backfilling,
                    None,
                    DiscoveryAction::Backfill { path, created_at },
                )
            },
            (Phase::Dating { path: _ }, DiscoveryEvent::StatFailed) => self.next(None),
            (Phase::Backfilling, DiscoveryEvent::Stored) => self.next(None),
            (Phase::Backfilling, DiscoveryEvent::StoreFailed) => self.next(None),
            (Phase::Sleeping, DiscoveryEvent::Slept { cancelled: false }) => self.go(
                Phase::ScanGate,
                None,
                DiscoveryAction::CheckCancelled,
            ),
            _ => self.go(Phase::Stopped, None, DiscoveryAction::Stop),
        }
    }
}

} // verus!
