//! The upload worker.
//!
//! Assets are put into the local table without an Immich asset ID. This worker polls for
//! them and reconciles them with the server by its bulk upload check:
//!
//! - what the server has already is linked to its asset, without another upload;
//! - what the server does not have is uploaded, and linked to the new asset.
//!
//! Assets are taken in batches. No content is uploaded again in a poll that has found or
//! made an asset for it, whatever the server says of another file with that content. The
//! worker is a state machine: it names the next action,
//! the program performs it, and the outcome is handed back.
use vstd::prelude::*;
use vstd::slice::slice_subrange;

use crate::api::{BulkCheckInput, BulkCheckResult, UploadResponse};
use crate::event_log::{opt_event, EventRecord, Worker};
use crate::hash::checksum_to_hex;
use crate::local_db::assets_view;
use crate::sync::{can_be_name, file_name, file_name_of, portable};
use crate::text::{copy_bytes, copy_opt, decimal, opt_text, same_bytes, same_text};
use crate::workers::asset_info::{asset_info_named, AssetInfo, FileTime};
use crate::workers::upload_model::{
    check_inputs, checksum_in, UploadActionView, UploadEventView, UploadPhaseView, UploadStepView,
    UploadView, BATCH_SIZE,
};

verus! {

/// What the worker wants done next.
#[derive(Debug, PartialEq, Eq)]
pub enum UploadAction {
    /// Find out whether the service is being shut down.
    CheckCancelled,
    /// List the assets that are not linked yet.
    FindUnlinked,
    /// Wait for the poll interval, whatever happens.
    Sleep,
    /// Wait for the poll interval or for the shutdown.
    SleepOrCancel,
    /// Ask the server which of these it would reject.
    BulkCheck { inputs: Vec<BulkCheckInput> },
    /// Link every unlinked asset with this content to an asset of the server.
    Link { checksum: Vec<u8>, asset_id: String, created_at: Option<String> },
    /// Find out whether the file is there.
    Probe { path: String },
    /// Forget the asset.
    RemoveRow { path: String },
    /// Read the name and the times of the file.
    Stat { path: String },
    /// Upload the file.
    Upload { path: String, checksum: Vec<u8>, info: AssetInfo },
    /// End.
    Stop,
}

/// What came of the last action.
#[derive(Debug, PartialEq, Eq)]
pub enum UploadEvent {
    /// Whether the service is being shut down.
    Cancelled(bool),
    /// The paths and checksums of the unlinked assets.
    Unlinked(Vec<(String, Vec<u8>)>),
    QueryFailed,
    /// A pause is over, by the shutdown or by the time.
    Slept { cancelled: bool },
    /// The server's word on the batch.
    Checked(Vec<BulkCheckResult>),
    CheckFailed,
    /// The table was changed.
    Stored,
    /// The table could not be changed, for this reason.
    StoreFailed(String),
    /// Whether the file is there.
    Exists(bool),
    /// The name and the times of the file.
    Facts { file_name: Option<String>, modified: FileTime, created: FileTime },
    StatFailed(String),
    /// The file is not below the folder of the user, for this reason.
    Outside(String),
    /// What the server replied to the upload; nothing where it refused it.
    Uploaded(Option<UploadResponse>),
    UploadFailed(String),
}

/// An event to record, if any, and the next action.
#[derive(Debug, PartialEq, Eq)]
pub struct UploadStep {
    pub log: Option<EventRecord>,
    pub action: UploadAction,
}

enum Phase {
    PollGate,
    Querying,
    Pausing,
    BatchGate,
    Checking,
    ResultGate,
    LinkingKnown,
    Probing,
    Removing,
    Stating,
    Uploading { created_at: String },
    LinkingNew { asset_id: String },
    Sleeping,
    Stopped,
}

/// The upload worker of one user.
pub struct UploadWorker {
    user_id: String,
    dry_run: bool,
    phase: Phase,
    assets: Vec<(String, Vec<u8>)>,
    next: usize,
    results: Vec<BulkCheckResult>,
    pos: usize,
    handled: Vec<Vec<u8>>,
    linked: Vec<Vec<u8>>,
}

/// What an upload reply names.
pub open spec fn uploaded_id(reply: Option<UploadResponse>) -> Option<Seq<char>> {
    match reply {
        Some(response) => opt_text(response.id),
        None => None,
    }
}

impl View for UploadAction {
    type V = UploadActionView;

    open spec fn view(&self) -> UploadActionView {
        match *self {
            UploadAction::CheckCancelled => UploadActionView::CheckCancelled,
            UploadAction::FindUnlinked => UploadActionView::FindUnlinked,
            UploadAction::Sleep => UploadActionView::Sleep,
            UploadAction::SleepOrCancel => UploadActionView::SleepOrCancel,
            UploadAction::BulkCheck { inputs } => UploadActionView::BulkCheck {
                inputs: inputs@.map_values(|input: BulkCheckInput| input@),
            },
            UploadAction::Link { checksum, asset_id, created_at } => UploadActionView::Link {
                checksum: checksum@,
                asset_id: asset_id@,
                created_at: opt_text(created_at),
            },
            UploadAction::Probe { path } => UploadActionView::Probe { path: path@ },
            UploadAction::RemoveRow { path } => UploadActionView::RemoveRow { path: path@ },
            UploadAction::Stat { path } => UploadActionView::Stat { path: path@ },
            UploadAction::Upload { path, checksum, info } => UploadActionView::Upload {
                path: path@,
                checksum: checksum@,
                info: info@,
            },
            UploadAction::Stop => UploadActionView::Stop,
        }
    }
}

impl View for UploadEvent {
    type V = UploadEventView;

    open spec fn view(&self) -> UploadEventView {
        match *self {
            UploadEvent::Cancelled(cancelled) => UploadEventView::Cancelled(cancelled),
            UploadEvent::Unlinked(assets) => UploadEventView::Unlinked(assets_view(assets@)),
            UploadEvent::QueryFailed => UploadEventView::QueryFailed,
            UploadEvent::Slept { cancelled } => UploadEventView::Slept { cancelled },
            UploadEvent::Checked(results) => UploadEventView::Checked(
                results@.map_values(|result: BulkCheckResult| result@),
            ),
            UploadEvent::CheckFailed => UploadEventView::CheckFailed,
            UploadEvent::Stored => UploadEventView::Stored,
            UploadEvent::StoreFailed(reason) => UploadEventView::StoreFailed(reason@),
            UploadEvent::Exists(exists) => UploadEventView::Exists(exists),
            UploadEvent::Facts { file_name, modified, created } => UploadEventView::Facts {
                file_name: opt_text(file_name),
                modified,
                created,
            },
            UploadEvent::StatFailed(reason) => UploadEventView::StatFailed(reason@),
            UploadEvent::Outside(reason) => UploadEventView::Outside(reason@),
            UploadEvent::Uploaded(reply) => UploadEventView::Uploaded {
                asset_id: uploaded_id(reply),
            },
            UploadEvent::UploadFailed(reason) => UploadEventView::UploadFailed(reason@),
        }
    }
}

impl View for Phase {
    type V = UploadPhaseView;

    closed spec fn view(&self) -> UploadPhaseView {
        match *self {
            Phase::PollGate => UploadPhaseView::PollGate,
            Phase::Querying => UploadPhaseView::Querying,
            Phase::Pausing => UploadPhaseView::Pausing,
            Phase::BatchGate => UploadPhaseView::BatchGate,
            Phase::Checking => UploadPhaseView::Checking,
            Phase::ResultGate => UploadPhaseView::ResultGate,
            Phase::LinkingKnown => UploadPhaseView::LinkingKnown,
            Phase::Probing => UploadPhaseView::Probing,
            Phase::Removing => UploadPhaseView::Removing,
            Phase::Stating => UploadPhaseView::Stating,
            Phase::Uploading { created_at } => UploadPhaseView::Uploading {
                created_at: created_at@,
            },
            Phase::LinkingNew { asset_id } => UploadPhaseView::LinkingNew { asset_id: asset_id@ },
            Phase::Sleeping => UploadPhaseView::Sleeping,
            Phase::Stopped => UploadPhaseView::Stopped,
        }
    }
}

impl View for UploadWorker {
    type V = UploadView;

    closed spec fn view(&self) -> UploadView {
        UploadView {
            user_id: self.user_id@,
            dry_run: self.dry_run,
            phase: self.phase@,
            assets: assets_view(self.assets@),
            next: self.next as int,
            results: self.results@.map_values(|result: BulkCheckResult| result@),
            pos: self.pos as int,
            handled: contents(self.handled@),
            linked: contents(self.linked@),
        }
    }
}

/// The contents in a list.
spec fn contents(list: Seq<Vec<u8>>) -> Set<Seq<u8>> {
    list.map_values(|c: Vec<u8>| c@).to_set()
}

fn has_content(list: &Vec<Vec<u8>>, checksum: &[u8]) -> (r: bool)
    ensures
        r == contents(list@).contains(checksum@),
{
    let ghost all = list@.map_values(|c: Vec<u8>| c@);
    let mut i: usize = 0;
    while i < list.len()
        invariant
            i <= list.len(),
            all == list@.map_values(|c: Vec<u8>| c@),
            forall|j: int| 0 <= j < i ==> all[j] != checksum@,
        decreases list.len() - i,
    {
        if same_bytes(list[i].as_slice(), checksum) {
            assert(all[i as int] == checksum@);
            return true;
        }
        i = i + 1;
    }
    false
}

fn add_content(list: &mut Vec<Vec<u8>>, checksum: Vec<u8>)
    ensures
        contents(final(list)@) == contents(old(list)@).insert(checksum@),
{
    let ghost before = list@.map_values(|c: Vec<u8>| c@);
    let ghost content = checksum@;
    list.push(checksum);
    proof {
        let after = list@.map_values(|c: Vec<u8>| c@);
        assert(after =~= before.push(content));
        assert forall|c: Seq<u8>| after.to_set().contains(c) <==> before.to_set().insert(
            content,
        ).contains(c) by {
            if before.contains(c) {
                let i = choose|i: int| 0 <= i < before.len() && before[i] == c;
                assert(after[i] == c);
            }
            if c == content {
                assert(after[before.len() as int] == c);
            }
            if after.contains(c) && c != content {
                let i = choose|i: int| 0 <= i < after.len() && after[i] == c;
                assert(before[i] == c);
            }
        }
        assert(after.to_set() =~= before.to_set().insert(content));
    }
}

fn copy_contents(list: &Vec<Vec<u8>>) -> (r: Vec<Vec<u8>>)
    ensures
        contents(r@) == contents(list@),
{
    let mut r: Vec<Vec<u8>> = Vec::new();
    let mut i: usize = 0;
    while i < list.len()
        invariant
            i <= list.len(),
            r.len() == i,
            forall|j: int| 0 <= j < i ==> (#[trigger] r@[j])@ == list@[j]@,
        decreases list.len() - i,
    {
        r.push(copy_bytes(list[i].as_slice()));
        i = i + 1;
    }
    assert(r@.map_values(|c: Vec<u8>| c@) =~= list@.map_values(|c: Vec<u8>| c@));
    r
}

/// The checksum that a batch gives for a path.
pub fn find_checksum(batch: &[(String, Vec<u8>)], path: &str) -> (r: Option<Vec<u8>>)
    ensures
        r is Some <==> checksum_in(assets_view(batch@), path@) is Some,
        r is Some ==> r->0@ == checksum_in(assets_view(batch@), path@)->0,
{
    let ghost all = assets_view(batch@);
    let mut i: usize = batch.len();
    assert(all.take(i as int) =~= all);
    while i > 0
        invariant
            i <= batch.len(),
            all == assets_view(batch@),
            checksum_in(all, path@) == checksum_in(all.take(i as int), path@),
        decreases i,
    {
        i = i - 1;
        proof {
            assert(all.take(i + 1).drop_last() =~= all.take(i as int));
            assert(all.take(i + 1).last() == all[i as int]);
        }
        if same_text(batch[i].0.as_str(), path) {
            return Some(copy_bytes(batch[i].1.as_slice()));
        }
    }
    None
}

/// What the server is asked about a batch.
pub fn bulk_check_inputs(batch: &[(String, Vec<u8>)]) -> (r: Vec<BulkCheckInput>)
    ensures
        r@.map_values(|input: BulkCheckInput| input@) == check_inputs(assets_view(batch@)),
{
    let mut r: Vec<BulkCheckInput> = Vec::new();
    let mut i: usize = 0;
    while i < batch.len()
        invariant
            i <= batch.len(),
            r.len() == i,
            forall|j: int|
                0 <= j < i ==> (#[trigger] r@[j])@ == check_inputs(assets_view(batch@))[j],
        decreases batch.len() - i,
    {
        r.push(
            BulkCheckInput {
                id: batch[i].0.clone(),
                checksum_hex: checksum_to_hex(batch[i].1.as_slice()),
            },
        );
        i = i + 1;
    }
    assert(r@.map_values(|input: BulkCheckInput| input@) =~= check_inputs(assets_view(batch@)));
    r
}

/// The name and the times of the file under a path, by its file name.
pub fn file_facts(path: &str, modified: FileTime, created: FileTime) -> (r: UploadEvent)
    ensures
        portable(path@) ==> r@ == (UploadEventView::Facts {
            file_name: file_name_of(path@),
            modified,
            created,
        }),
        exists|name: Option<Seq<char>>| #[trigger]
            can_be_name(path@, name) && r@ == (UploadEventView::Facts {
                file_name: name,
                modified,
                created,
            }),
{
    UploadEvent::Facts { file_name: file_name(path), modified, created }
}

impl UploadWorker {
    /// What holds of a worker between two steps.
    pub open spec fn wf(&self) -> bool {
        self@.valid()
    }

    /// The worker of a user before its first poll.
    pub fn new(user_id: &str, dry_run: bool) -> (r: UploadWorker)
        ensures
            r.wf(),
            r@ == (UploadView {
                user_id: user_id@,
                dry_run,
                phase: UploadPhaseView::PollGate,
                assets: Seq::empty(),
                next: 0,
                results: Seq::empty(),
                pos: 0,
                handled: Set::empty(),
                linked: Set::empty(),
            }),
    {
        let r = UploadWorker {
            user_id: user_id.to_owned(),
            dry_run,
            phase: Phase::PollGate,
            assets: Vec::new(),
            next: 0,
            results: Vec::new(),
            pos: 0,
            handled: Vec::new(),
            linked: Vec::new(),
        };
        assert(r@.assets =~= Seq::empty());
        assert(r@.results =~= Seq::empty());
        assert(r@.handled =~= Set::empty());
        assert(r@.linked =~= Set::empty());
        r
    }

    /// The first action: to find out whether the service is being shut down.
    pub fn first_action(&self) -> (r: UploadAction)
        ensures
            r@ is CheckCancelled,
    {
        UploadAction::CheckCancelled
    }

    /// Whether a step of the worker is the transition `expected`.
    pub open spec fn took(state: UploadView, step: UploadStep, expected: UploadStepView) -> bool {
        &&& state == expected.state
        &&& opt_event(step.log) == expected.log
        &&& step.action@ == expected.action
    }

    fn event(&self, event: &str, asset_id: Option<String>, detail: Option<String>) -> (r: Option<
        EventRecord,
    >)
        requires
            0 <= self@.pos < self@.results.len(),
        ensures
            opt_event(r) == self@.event(event@, opt_text(asset_id), opt_text(detail)),
    {
        Some(
            EventRecord {
                worker: Worker::Uploader,
                event: event.to_owned(),
                user_id: self.user_id.clone(),
                path: Some(self.results[self.pos].id.clone()),
                asset_id,
                detail,
            },
        )
    }

    fn batch_end(&self) -> (r: usize)
        requires
            self@.next <= self@.assets.len(),
        ensures
            r == self@.batch_end(),
    {
        if self.assets.len() - self.next > BATCH_SIZE {
            self.next + BATCH_SIZE
        } else {
            self.assets.len()
        }
    }

    fn batch(&self) -> (r: &[(String, Vec<u8>)])
        requires
            self@.next <= self@.assets.len(),
        ensures
            assets_view(r@) == self@.batch(),
    {
        let end: usize = self.batch_end();
        let r = slice_subrange(self.assets.as_slice(), self.next, end);
        assert(assets_view(r@) =~= self@.batch());
        r
    }

    fn content(&self) -> (r: Option<Vec<u8>>)
        requires
            self@.next <= self@.assets.len(),
            0 <= self@.pos < self@.results.len(),
        ensures
            r is Some <==> self@.content() is Some,
            r is Some ==> r->0@ == self@.content()->0,
    {
        find_checksum(self.batch(), self.results[self.pos].id.as_str())
    }

    fn stop(&mut self) -> (r: UploadStep)
        ensures
            Self::took(final(self)@, r, old(self)@.stop()),
    {
        self.phase = Phase::Stopped;
        UploadStep { log: None, action: UploadAction::Stop }
    }

    fn start_poll(&mut self) -> (r: UploadStep)
        ensures
            Self::took(final(self)@, r, old(self)@.start_poll()),
    {
        self.phase = Phase::PollGate;
        UploadStep { log: None, action: UploadAction::CheckCancelled }
    }

    fn rest(&mut self, log: Option<EventRecord>) -> (r: UploadStep)
        ensures
            Self::took(
                final(self)@,
                r,
                (UploadStepView { log: opt_event(log), ..old(self)@.rest() }),
            ),
    {
        self.phase = Phase::Sleeping;
        UploadStep { log, action: UploadAction::SleepOrCancel }
    }

    fn go_to_batch(&mut self, next: usize, log: Option<EventRecord>) -> (r: UploadStep)
        ensures
            Self::took(
                final(self)@,
                r,
                (UploadStepView { log: opt_event(log), ..old(self)@.go_to_batch(next as int) }),
            ),
    {
        self.next = next;
        if next < self.assets.len() {
            self.phase = Phase::BatchGate;
            UploadStep { log, action: UploadAction::CheckCancelled }
        } else {
            self.rest(log)
        }
    }

    fn go_to_result(&mut self, pos: usize, log: Option<EventRecord>) -> (r: UploadStep)
        requires
            0 <= old(self)@.next <= old(self)@.assets.len(),
        ensures
            Self::took(
                final(self)@,
                r,
                old(self)@.go_to_result(pos as int, opt_event(log)),
            ),
    {
        self.pos = pos;
        if pos < self.results.len() {
            self.phase = Phase::ResultGate;
            UploadStep { log, action: UploadAction::CheckCancelled }
        } else {
            let end: usize = self.batch_end();
            self.go_to_batch(end, log)
        }
    }

    fn done(&mut self, log: Option<EventRecord>) -> (r: UploadStep)
        requires
            0 <= old(self)@.next <= old(self)@.assets.len(),
            0 <= old(self)@.pos < old(self)@.results.len(),
        ensures
            Self::took(final(self)@, r, old(self)@.done(opt_event(log))),
    {
        assert(self.pos < self.results.len());
        let next: usize = self.pos + 1;
        self.go_to_result(next, log)
    }

    fn give_up(&mut self, reason: String) -> (r: UploadStep)
        requires
            0 <= old(self)@.next <= old(self)@.assets.len(),
            0 <= old(self)@.pos < old(self)@.results.len(),
        ensures
            Self::took(final(self)@, r, old(self)@.give_up(reason@)),
    {
        let log = self.event("upload_failed", None, Some(reason));
        self.done(log)
    }

    fn take_up_result(&mut self) -> (r: UploadStep)
        requires
            0 <= old(self)@.next <= old(self)@.assets.len(),
            0 <= old(self)@.pos < old(self)@.results.len(),
        ensures
            Self::took(final(self)@, r, old(self)@.take_up_result()),
    {
        if same_text(self.results[self.pos].action.as_str(), "reject") {
            let asset_id: Option<String> = copy_opt(&self.results[self.pos].asset_id);
            let content: Option<Vec<u8>> = self.content();
            match (asset_id, content) {
                (Some(asset_id), Some(checksum)) => {
                    add_content(&mut self.handled, copy_bytes(checksum.as_slice()));
                    add_content(&mut self.linked, copy_bytes(checksum.as_slice()));
                    self.phase = Phase::LinkingKnown;
                    UploadStep {
                        log: None,
                        action: UploadAction::Link { checksum, asset_id, created_at: None },
                    }
                },
                _ => self.done(None),
            }
        } else {
            self.phase = Phase::Probing;
            let path: String = self.results[self.pos].id.clone();
            UploadStep { log: None, action: UploadAction::Probe { path } }
        }
    }

    fn drop_missing(&mut self) -> (r: UploadStep)
        requires
            0 <= old(self)@.pos < old(self)@.results.len(),
        ensures
            Self::took(final(self)@, r, old(self)@.drop_missing()),
    {
        let log = self.event("file_disappeared", None, None);
        self.phase = Phase::Removing;
        let path: String = self.results[self.pos].id.clone();
        UploadStep { log, action: UploadAction::RemoveRow { path } }
    }

    fn consider_upload(&mut self) -> (r: UploadStep)
        requires
            0 <= old(self)@.next <= old(self)@.assets.len(),
            0 <= old(self)@.pos < old(self)@.results.len(),
        ensures
            Self::took(final(self)@, r, old(self)@.consider_upload()),
    {
        match self.content() {
            None => self.done(None),
            Some(checksum) => {
                if has_content(&self.handled, checksum.as_slice()) {
                    let log = self.event("upload_skipped_dedup", None, None);
                    return self.done(log);
                }
                add_content(&mut self.handled, checksum);
                if self.dry_run {
                    let log = self.event("upload_skipped", None, Some("dry-run".to_owned()));
                    return self.done(log);
                }
                self.phase = Phase::Stating;
                let path: String = self.results[self.pos].id.clone();
                UploadStep { log: None, action: UploadAction::Stat { path } }
            },
        }
    }

    /// Takes the outcome of the last action and names the next one. An event that does
    /// not answer the last action ends the worker.
    pub fn step(&mut self, event: UploadEvent) -> (r: UploadStep)
        requires
            old(self).wf(),
        ensures
            final(self).wf(),
            Self::took(final(self)@, r, old(self)@.step(event@)),
    {
        let mut phase = Phase::Stopped;
        std::mem::swap(&mut phase, &mut self.phase);
        match (phase, event) {
            (Phase::PollGate, UploadEvent::Cancelled(false)) => {
                self.phase = Phase::Querying;
                UploadStep { log: None, action: UploadAction::FindUnlinked }
            },
            (Phase::Querying, UploadEvent::QueryFailed) => {
                self.phase = Phase::Pausing;
                UploadStep { log: None, action: UploadAction::Sleep }
            },
            (Phase::Pausing, UploadEvent::Slept { cancelled: _ }) => self.start_poll(),
            (Phase::Querying, UploadEvent::Unlinked(assets)) => {
                self.assets = assets;
                self.linked = Vec::new();
                assert(self@.linked =~= Set::<Seq<u8>>::empty());
                self.go_to_batch(0, None)
            },
            (Phase::BatchGate, UploadEvent::Cancelled(false)) => {
                self.phase = Phase::Checking;
                let batch = self.batch();
                let count: String = decimal(batch.len() as u64);
                let inputs: Vec<BulkCheckInput> = bulk_check_inputs(batch);
                let log = Some(
                    EventRecord {
                        worker: Worker::Uploader,
                        event: "upload_check".to_owned(),
                        user_id: self.user_id.clone(),
                        path: None,
                        asset_id: None,
                        detail: Some(count.concat(" assets")),
                    },
                );
                UploadStep { log, action: UploadAction::BulkCheck { inputs } }
            },
            (Phase::Checking, UploadEvent::CheckFailed) => self.rest(None),
            (Phase::Checking, UploadEvent::Checked(results)) => {
                self.results = results;
                self.handled = copy_contents(&self.linked);
                self.go_to_result(0, None)
            },
            (Phase::ResultGate, UploadEvent::Cancelled(false)) => self.take_up_result(),
            (Phase::LinkingKnown, UploadEvent::Stored) => {
                let asset_id: Option<String> = copy_opt(&self.results[self.pos].asset_id);
                let log = self.event("asset_linked", asset_id, None);
                self.done(log)
            },
            (Phase::LinkingKnown, UploadEvent::StoreFailed(_)) => self.done(None),
            (Phase::Probing, UploadEvent::Exists(false)) => self.drop_missing(),
            (Phase::Removing, UploadEvent::Stored) => self.done(None),
            (Phase::Removing, UploadEvent::StoreFailed(_)) => self.done(None),
            (Phase::Probing, UploadEvent::Exists(true)) => self.consider_upload(),
            (Phase::Stating, UploadEvent::StatFailed(reason)) => self.give_up(reason),
            (Phase::Stating, UploadEvent::Outside(reason)) => self.give_up(reason),
            (Phase::Stating, UploadEvent::Facts { file_name, modified, created }) => {
                let info: AssetInfo = match &file_name {
                    Some(name) => asset_info_named(Some(name.as_str()), modified, created),
                    None => asset_info_named(None, modified, created),
                };
                self.phase = Phase::Uploading { created_at: info.file_created_at.clone() };
                let path: String = self.results[self.pos].id.clone();
                let content: Option<Vec<u8>> = self.content();
                UploadStep {
                    log: None,
                    action: UploadAction::Upload { path, checksum: content.unwrap(), info },
                }
            },
            (Phase::Uploading { created_at: _ }, UploadEvent::UploadFailed(reason)) =>
                self.give_up(reason),
            (Phase::Uploading { created_at }, UploadEvent::Uploaded(reply)) => {
                let asset_id: Option<String> = match reply {
                    Some(response) => response.id,
                    None => None,
                };
                match asset_id {
                    None => self.done(None),
                    Some(asset_id) => {
                        self.phase = Phase::LinkingNew { asset_id: asset_id.clone() };
                        let content: Option<Vec<u8>> = self.content();
                        let checksum: Vec<u8> = content.unwrap();
                        add_content(&mut self.linked, copy_bytes(checksum.as_slice()));
                        UploadStep {
                            log: None,
                            action: UploadAction::Link {
                                checksum,
                                asset_id,
                                created_at: Some(created_at),
                            },
                        }
                    },
                }
            },
            (Phase::LinkingNew { asset_id }, UploadEvent::Stored) => {
                let log = self.event("file_uploaded", Some(asset_id), None);
                self.done(log)
            },
            (Phase::LinkingNew { asset_id: _ }, UploadEvent::StoreFailed(reason)) =>
                self.give_up(reason),
            (Phase::Sleeping, UploadEvent::Slept { cancelled: false }) => self.start_poll(),
            _ => self.stop(),
        }
    }
}

} // verus!
