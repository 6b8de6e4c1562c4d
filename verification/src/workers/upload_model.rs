//! What the upload worker does, as a transition function: from a state and the outcome
//! of the last action to the next state, an event to record, and the next action.
use vstd::prelude::*;

use crate::api::{CheckView, InputView};
use crate::event_log::{EventView, Worker};
use crate::hash::hex_text;
use crate::text::decimal_text;
use crate::workers::asset_info::{asset_info_of, AssetInfoView, FileTime};

verus! {

/// How many assets one bulk check asks about, at most.
pub const BATCH_SIZE: usize = 2000;

/// What the worker wants done next.
pub enum UploadActionView {
    /// Find out whether the service is being shut down.
    CheckCancelled,
    /// List the assets that are not linked yet.
    FindUnlinked,
    /// Wait for the poll interval, whatever happens.
    Sleep,
    /// Wait for the poll interval or for the shutdown.
    SleepOrCancel,
    /// Ask the server which of these it would reject.
    BulkCheck { inputs: Seq<InputView> },
    /// Link every unlinked asset with this content to an asset of the server.
    Link { checksum: Seq<u8>, asset_id: Seq<char>, created_at: Option<Seq<char>> },
    /// Find out whether the file is there.
    Probe { path: Seq<char> },
    /// Forget the asset.
    RemoveRow { path: Seq<char> },
    /// Read the name and the times of the file.
    Stat { path: Seq<char> },
    /// Upload the file.
    Upload { path: Seq<char>, checksum: Seq<u8>, info: AssetInfoView },
    /// End.
    Stop,
}

/// What came of the last action.
pub enum UploadEventView {
    Cancelled(bool),
    Unlinked(Seq<(Seq<char>, Seq<u8>)>),
    QueryFailed,
    Slept { cancelled: bool },
    Checked(Seq<CheckView>),
    CheckFailed,
    Stored,
    StoreFailed(Seq<char>),
    Exists(bool),
    Facts { file_name: Option<Seq<char>>, modified: FileTime, created: FileTime },
    StatFailed(Seq<char>),
    Outside(Seq<char>),
    Uploaded { asset_id: Option<Seq<char>> },
    UploadFailed(Seq<char>),
}

/// What the worker waits for.
pub enum UploadPhaseView {
    /// Whether to start a poll.
    PollGate,
    /// The unlinked assets.
    Querying,
    /// The end of the pause after a failed query.
    Pausing,
    /// Whether to start the next batch.
    BatchGate,
    /// The server's word on the batch.
    Checking,
    /// Whether to go on to the next result.
    ResultGate,
    /// The link to an asset that the server has.
    LinkingKnown,
    /// Whether the file is there.
    Probing,
    /// The removal of an asset whose file is gone.
    Removing,
    /// The name and the times of the file.
    Stating,
    /// The reply to the upload.
    Uploading { created_at: Seq<char> },
    /// The link to the asset that was uploaded.
    LinkingNew { asset_id: Seq<char> },
    /// The end of the pause between two polls.
    Sleeping,
    /// Nothing.
    Stopped,
}

/// The state of the worker. `assets` are those of the current poll, `next` is where
/// the current batch starts, `results` is the server's word on that batch, and `pos` is the
/// result at hand. `handled` holds the contents that are not to be uploaded any more: those
/// that the batch has dealt with, and `linked`, those that the poll has found or made an
/// asset for.
pub struct UploadView {
    pub user_id: Seq<char>,
    pub dry_run: bool,
    pub phase: UploadPhaseView,
    pub assets: Seq<(Seq<char>, Seq<u8>)>,
    pub next: int,
    pub results: Seq<CheckView>,
    pub pos: int,
    pub handled: Set<Seq<u8>>,
    pub linked: Set<Seq<u8>>,
}

/// One transition.
pub struct UploadStepView {
    pub state: UploadView,
    pub log: Option<EventView>,
    pub action: UploadActionView,
}

/// The checksum that a batch gives for a path; the last one, should the path occur
/// twice.
pub open spec fn checksum_in(batch: Seq<(Seq<char>, Seq<u8>)>, path: Seq<char>) -> Option<Seq<u8>>
    decreases batch.len(),
{
    if batch.len() == 0 {
        None
    } else if batch.last().0 == path {
        Some(batch.last().1)
    } else {
        checksum_in(batch.drop_last(), path)
    }
}

/// What the server is asked about a batch.
pub open spec fn check_inputs(batch: Seq<(Seq<char>, Seq<u8>)>) -> Seq<InputView> {
    batch.map_values(
        |asset: (Seq<char>, Seq<u8>)| InputView { id: asset.0, checksum_hex: hex_text(asset.1) },
    )
}

impl UploadView {
    /// Where the current batch ends.
    pub open spec fn batch_end(self) -> int {
        if self.next + BATCH_SIZE < self.assets.len() {
            self.next + BATCH_SIZE
        } else {
            self.assets.len() as int
        }
    }

    /// The current batch.
    pub open spec fn batch(self) -> Seq<(Seq<char>, Seq<u8>)> {
        self.assets.subrange(self.next, self.batch_end())
    }

    /// The result at hand.
    pub open spec fn result(self) -> CheckView {
        self.results[self.pos]
    }

    /// The content that the result at hand is about.
    pub open spec fn content(self) -> Option<Seq<u8>> {
        checksum_in(self.batch(), self.result().id)
    }

    /// Whether the worker is dealing with a result.
    pub open spec fn at_result(self) -> bool {
        match self.phase {
            UploadPhaseView::ResultGate
            | UploadPhaseView::LinkingKnown
            | UploadPhaseView::Probing
            | UploadPhaseView::Removing
            | UploadPhaseView::Stating
            | UploadPhaseView::Uploading { .. }
            | UploadPhaseView::LinkingNew { .. } => true,
            _ => false,
        }
    }

    /// Whether the worker is at a batch.
    pub open spec fn in_batch(self) -> bool {
        self.phase is BatchGate || self.phase is Checking || self.at_result()
    }

    /// What holds of every state that the worker gets into.
    pub open spec fn valid(self) -> bool {
        &&& 0 <= self.next <= self.assets.len()
        &&& self.in_batch() ==> self.next < self.assets.len()
        &&& self.at_result() ==> 0 <= self.pos < self.results.len()
        &&& self.at_result() ==> self.linked.subset_of(self.handled)
        &&& self.phase is LinkingKnown ==> self.content() is Some && self.result().asset_id is Some
            && self.handled.contains(self.content()->0)
        &&& (self.phase is Stating || self.phase is Uploading || self.phase is LinkingNew)
            ==> self.content() is Some && !self.dry_run && self.handled.contains(
            self.content()->0,
        )
    }

    /// An event about the result at hand.
    pub open spec fn event(
        self,
        event: Seq<char>,
        asset_id: Option<Seq<char>>,
        detail: Option<Seq<char>>,
    ) -> Option<EventView> {
        Some(
            EventView {
                worker: Worker::Uploader,
                event,
                user_id: self.user_id,
                path: Some(self.result().id),
                asset_id,
                detail,
            },
        )
    }

    /// Ends the worker.
    pub open spec fn stop(self) -> UploadStepView {
        UploadStepView {
            state: UploadView { phase: UploadPhaseView::Stopped, ..self },
            log: None,
            action: UploadActionView::Stop,
        }
    }

    /// Starts the next poll.
    pub open spec fn start_poll(self) -> UploadStepView {
        UploadStepView {
            state: UploadView { phase: UploadPhaseView::PollGate, ..self },
            log: None,
            action: UploadActionView::CheckCancelled,
        }
    }

    /// Pauses until the next poll.
    pub open spec fn rest(self) -> UploadStepView {
        UploadStepView {
            state: UploadView { phase: UploadPhaseView::Sleeping, ..self },
            log: None,
            action: UploadActionView::SleepOrCancel,
        }
    }

    /// Goes to the batch that starts at `next`, or rests where there is none.
    pub open spec fn go_to_batch(self, next: int) -> UploadStepView {
        if next < self.assets.len() {
            UploadStepView {
                state: UploadView { phase: UploadPhaseView::BatchGate, next, ..self },
                log: None,
                action: UploadActionView::CheckCancelled,
            }
        } else {
            UploadView { next, ..self }.rest()
        }
    }

    /// Goes to the result `pos`, or to the next batch where there is none.
    pub open spec fn go_to_result(self, pos: int, log: Option<EventView>) -> UploadStepView {
        if pos < self.results.len() {
            UploadStepView {
                state: UploadView { phase: UploadPhaseView::ResultGate, pos, ..self },
                log,
                action: UploadActionView::CheckCancelled,
            }
        } else {
            UploadStepView { log, ..UploadView { pos, ..self }.go_to_batch(self.batch_end()) }
        }
    }

    /// Ends the result at hand.
    pub open spec fn done(self, log: Option<EventView>) -> UploadStepView {
        self.go_to_result(self.pos + 1, log)
    }

    /// Turns to the result at hand: what the server would reject is linked to the asset
    /// that it names; of anything else the file is looked for.
    pub open spec fn take_up_result(self) -> UploadStepView {
        if self.result().action == "reject"@ {
            if self.result().asset_id is Some && self.content() is Some {
                UploadStepView {
                    state: UploadView {
                        phase: UploadPhaseView::LinkingKnown,
                        handled: self.handled.insert(self.content()->0),
                        linked: self.linked.insert(self.content()->0),
                        ..self
                    },
                    log: None,
                    action: UploadActionView::Link {
                        checksum: self.content()->0,
                        asset_id: self.result().asset_id->0,
                        created_at: None,
                    },
                }
            } else {
                self.done(None)
            }
        } else {
            UploadStepView {
                state: UploadView { phase: UploadPhaseView::Probing, ..self },
                log: None,
                action: UploadActionView::Probe { path: self.result().id },
            }
        }
    }

    /// The file of the result at hand is gone: the asset is forgotten.
    pub open spec fn drop_missing(self) -> UploadStepView {
        UploadStepView {
            state: UploadView { phase: UploadPhaseView::Removing, ..self },
            log: self.event("file_disappeared"@, None, None),
            action: UploadActionView::RemoveRow { path: self.result().id },
        }
    }

    /// The file of the result at hand is there: it is uploaded, unless the batch has dealt
    /// with its content, the poll has an asset for it, or nothing is to be changed.
    pub open spec fn consider_upload(self) -> UploadStepView {
        match self.content() {
            None => self.done(None),
            Some(checksum) => {
                let marked = UploadView { handled: self.handled.insert(checksum), ..self };
                if self.handled.contains(checksum) {
                    self.done(self.event("upload_skipped_dedup"@, None, None))
                } else if self.dry_run {
                    marked.done(self.event("upload_skipped"@, None, Some("dry-run"@)))
                } else {
                    UploadStepView {
                        state: UploadView { phase: UploadPhaseView::Stating, ..marked },
                        log: None,
                        action: UploadActionView::Stat { path: self.result().id },
                    }
                }
            },
        }
    }

    /// The upload of the result at hand failed.
    pub open spec fn give_up(self, reason: Seq<char>) -> UploadStepView {
        self.done(self.event("upload_failed"@, None, Some(reason)))
    }

    /// One transition. An event that does not answer the last action ends the worker.
    pub open spec fn step(self, event: UploadEventView) -> UploadStepView {
        match (self.phase, event) {
            (UploadPhaseView::PollGate, UploadEventView::Cancelled(false)) => UploadStepView {
                state: UploadView { phase: UploadPhaseView::Querying, ..self },
                log: None,
                action: UploadActionView::FindUnlinked,
            },
            (UploadPhaseView::Querying, UploadEventView::QueryFailed) => UploadStepView {
                state: UploadView { phase: UploadPhaseView::Pausing, ..self },
                log: None,
                action: UploadActionView::Sleep,
            },
            (UploadPhaseView::Pausing, UploadEventView::Slept { .. }) => self.start_poll(),
            (UploadPhaseView::Querying, UploadEventView::Unlinked(assets)) => UploadView {
                assets,
                linked: Set::empty(),
                ..self
            }.go_to_batch(0),
            (UploadPhaseView::BatchGate, UploadEventView::Cancelled(false)) => UploadStepView {
                state: UploadView { phase: UploadPhaseView::Checking, ..self },
                log: Some(
                    EventView {
                        worker: Worker::Uploader,
                        event: "upload_check"@,
                        user_id: self.user_id,
                        path: None,
                        asset_id: None,
                        detail: Some(decimal_text(self.batch().len()) + " assets"@),
                    },
                ),
                action: UploadActionView::BulkCheck { inputs: check_inputs(self.batch()) },
            },
            (UploadPhaseView::Checking, UploadEventView::CheckFailed) => self.rest(),
            (UploadPhaseView::Checking, UploadEventView::Checked(results)) => UploadView {
                results,
                handled: self.linked,
                ..self
            }.go_to_result(0, None),
            (
                UploadPhaseView::ResultGate,
                UploadEventView::Cancelled(false),
            ) => self.take_up_result(),
            (UploadPhaseView::LinkingKnown, UploadEventView::Stored) => self.done(
                self.event("asset_linked"@, self.result().asset_id, None),
            ),
            (UploadPhaseView::LinkingKnown, UploadEventView::StoreFailed(_)) => self.done(None),
            (UploadPhaseView::Probing, UploadEventView::Exists(false)) => self.drop_missing(),
            (UploadPhaseView::Removing, UploadEventView::Stored) => self.done(None),
            (UploadPhaseView::Removing, UploadEventView::StoreFailed(_)) => self.done(None),
            (UploadPhaseView::Probing, UploadEventView::Exists(true)) => self.consider_upload(),
            (UploadPhaseView::Stating, UploadEventView::StatFailed(reason)) => self.give_up(reason),
            (UploadPhaseView::Stating, UploadEventView::Outside(reason)) => self.give_up(reason),
            (
                UploadPhaseView::Stating,
                UploadEventView::Facts { file_name, modified, created },
            ) => {
                let info = asset_info_of(file_name, modified, created);
                UploadStepView {
                    state: UploadView {
                        phase: UploadPhaseView::Uploading { created_at: info.file_created_at },
                        ..self
                    },
                    log: None,
                    action: UploadActionView::Upload {
                        path: self.result().id,
                        checksum: self.content()->0,
                        info,
                    },
                }
            },
            (UploadPhaseView::Uploading { .. }, UploadEventView::UploadFailed(reason)) =>
                self.give_up(reason),
            (
                UploadPhaseView::Uploading { created_at },
                UploadEventView::Uploaded { asset_id },
            ) => match asset_id {
                None => self.done(None),
                Some(asset_id) => UploadStepView {
                    state: UploadView {
                        phase: UploadPhaseView::LinkingNew { asset_id },
                        linked: self.linked.insert(self.content()->0),
                        ..self
                    },
                    log: None,
                    action: UploadActionView::Link {
                        checksum: self.content()->0,
                        asset_id,
                        created_at: Some(created_at),
                    },
                },
            },
            (UploadPhaseView::LinkingNew { asset_id }, UploadEventView::Stored) => self.done(
                self.event("file_uploaded"@, Some(asset_id), None),
            ),
            (UploadPhaseView::LinkingNew { .. }, UploadEventView::StoreFailed(reason)) =>
                self.give_up(reason),
            (UploadPhaseView::Sleeping, UploadEventView::Slept { cancelled: false }) =>
                self.start_poll(),
            _ => self.stop(),
        }
    }
}

} // verus!
