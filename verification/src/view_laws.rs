//! What the models show of the values that stand for them.
use vstd::prelude::*;

use crate::api::{
    body_view, fields_view, found_view, ApiError, ApiErrorView, ApiRequest, BulkCheckInput,
    BulkCheckResult, Notice, NoticeView,
};
use crate::config::CliArgs;
use crate::event_log::{opt_event, EventRecord, EventView};
use crate::local_db::{assets_view, tracked_view, AssetEntry, TrackedAsset};
use crate::text::{opt_text, texts};
use crate::workers::asset_info::AssetInfo;
use crate::workers::discovery::{
    DiscoveryAction, DiscoveryActionView, DiscoveryEvent, DiscoveryEventView, DiscoveryStep,
    DiscoveryStepView, DiscoveryView, DiscoveryWorker,
};
use crate::workers::upload_model::{
    UploadActionView, UploadEventView, UploadStepView, UploadView,
};
use crate::workers::uploader::{UploadAction, UploadEvent, UploadStep, UploadWorker};

verus! {

/// A row of the table shows its user, its path, and everything that it holds.
pub proof fn rows_are_seen_in_full(row: AssetEntry)
    ensures
        row.key() == (row.user_id@, row.asset_path@),
        row.content().checksum == row.checksum@,
        row.content().asset_id == opt_text(row.asset_id),
        row.content().created_at == opt_text(row.created_at),
{
}

/// Lists of assets show every asset in its place, with its path and its checksum.
pub proof fn assets_are_seen_in_full(
    assets: Seq<(String, Vec<u8>)>,
    rows: Seq<TrackedAsset>,
    fields: Seq<(String, String)>,
    i: int,
)
    ensures
        assets_view(assets).len() == assets.len(),
        0 <= i < assets.len() ==> assets_view(assets)[i] == (assets[i].0@, assets[i].1@),
        tracked_view(rows).len() == rows.len(),
        0 <= i < rows.len() ==> tracked_view(rows)[i] == (rows[i].asset_path@, rows[i].checksum@),
        fields_view(fields).len() == fields.len(),
        0 <= i < fields.len() ==> fields_view(fields)[i] == (fields[i].0@, fields[i].1@),
{
}

/// A record shows all its fields.
pub proof fn records_are_seen_in_full(record: EventRecord)
    ensures
        record@ == (EventView {
            worker: record.worker,
            event: record.event@,
            user_id: record.user_id@,
            path: opt_text(record.path),
            asset_id: opt_text(record.asset_id),
            detail: opt_text(record.detail),
        }),
        opt_event(Some(record)) == Some(record@),
        opt_event(None) is None,
{
}

/// What is asked of the server, and what it answers, is seen in full.
pub proof fn requests_are_seen_in_full(
    request: ApiRequest,
    input: BulkCheckInput,
    result: BulkCheckResult,
    info: AssetInfo,
    cli: CliArgs,
)
    ensures
        request@.method == request.method,
        request@.url == request.url@,
        request@.body == opt_text(request.body),
        input@.id == input.id@,
        input@.checksum_hex == input.checksum_hex@,
        result@.id == result.id@,
        result@.action == result.action@,
        result@.asset_id == opt_text(result.asset_id),
        info@.device_asset_id == info.device_asset_id@,
        info@.file_created_at == info.file_created_at@,
        info@.file_modified_at == info.file_modified_at@,
        cli@.config_path == cli.config_path@,
        cli@.dry_run == cli.dry_run,
{
}

/// Errors and notices are seen in full.
pub proof fn errors_are_seen_in_full(error: ApiError, notice: Notice)
    ensures
        match error {
            ApiError::InvalidFileName { path } => error@ == (ApiErrorView::InvalidFileName {
                path: path@,
            }),
            ApiError::Status { operation, status, body } => error@ == (ApiErrorView::Status {
                operation,
                status,
                body: body@,
            }),
            ApiError::NotDeleted { asset_id, status, body } => error@ == (
            ApiErrorView::NotDeleted { asset_id: asset_id@, status, body: body@ }),
            ApiError::Malformed { reply, body } => error@ == (ApiErrorView::Malformed {
                reply,
                body: body@,
            }),
        },
        match notice {
            Notice::Info(text) => notice@ == NoticeView::Info(text@),
            Notice::Warning(text) => notice@ == NoticeView::Warning(text@),
        },
{
}

/// What a search found is seen in full.
pub proof fn findings_are_seen_in_full(
    found: Result<Vec<String>, ApiError>,
    body: Option<Option<Vec<String>>>,
)
    ensures
        found is Ok ==> found_view(found) == Ok::<Seq<Seq<char>>, ApiErrorView>(
            texts(found->Ok_0@),
        ),
        found is Err ==> found_view(found) == Err::<Seq<Seq<char>>, ApiErrorView>(
            found->Err_0@,
        ),
        body is None ==> body_view(body) is None,
        body is Some && body->0 is None ==> body_view(body) == Some(None::<Seq<Seq<char>>>),
        body is Some && body->0 is Some ==> body_view(body) == Some(Some(texts(body->0->0@))),
{
}

/// What is told to the upload worker is seen in full.
pub proof fn upload_events_are_seen_in_full(event: UploadEvent)
    ensures
        match event {
            UploadEvent::Cancelled(cancelled) => event@ == UploadEventView::Cancelled(cancelled),
            UploadEvent::Unlinked(assets) => event@ == UploadEventView::Unlinked(
                assets_view(assets@),
            ),
            UploadEvent::QueryFailed => event@ is QueryFailed,
            UploadEvent::Slept { cancelled } => event@ == (UploadEventView::Slept { cancelled }),
            UploadEvent::Checked(results) => {
                &&& event@ is Checked
                &&& event@->Checked_0.len() == results@.len()
                &&& forall|i: int|
                    0 <= i < results@.len() ==> #[trigger] event@->Checked_0[i] == results@[i]@
            },
            UploadEvent::CheckFailed => event@ is CheckFailed,
            UploadEvent::Stored => event@ is Stored,
            UploadEvent::StoreFailed(reason) => event@ == UploadEventView::StoreFailed(reason@),
            UploadEvent::Exists(there) => event@ == UploadEventView::Exists(there),
            UploadEvent::Facts { file_name, modified, created } => event@ == (
            UploadEventView::Facts { file_name: opt_text(file_name), modified, created }),
            UploadEvent::StatFailed(reason) => event@ == UploadEventView::StatFailed(reason@),
            UploadEvent::Outside(reason) => event@ == UploadEventView::Outside(reason@),
            UploadEvent::Uploaded(reply) => event@ == (UploadEventView::Uploaded {
                asset_id: if reply is Some {
                    opt_text(reply->0.id)
                } else {
                    None
                },
            }),
            UploadEvent::UploadFailed(reason) => event@ == UploadEventView::UploadFailed(reason@),
        },
{
}

/// What the upload worker asks for is seen in full.
pub proof fn upload_actions_are_seen_in_full(action: UploadAction)
    ensures
        match action {
            UploadAction::CheckCancelled => action@ is CheckCancelled,
            UploadAction::FindUnlinked => action@ is FindUnlinked,
            UploadAction::Sleep => action@ is Sleep,
            UploadAction::SleepOrCancel => action@ is SleepOrCancel,
            UploadAction::BulkCheck { inputs } => {
                &&& action@ is BulkCheck
                &&& action@->BulkCheck_inputs.len() == inputs@.len()
                &&& forall|i: int|
                    0 <= i < inputs@.len() ==> #[trigger] action@->BulkCheck_inputs[i]
                        == inputs@[i]@
            },
            UploadAction::Link { checksum, asset_id, created_at } => action@ == (
            UploadActionView::Link {
                checksum: checksum@,
                asset_id: asset_id@,
                created_at: opt_text(created_at),
            }),
            UploadAction::Probe { path } => action@ == (UploadActionView::Probe { path: path@ }),
            UploadAction::RemoveRow { path } => action@ == (UploadActionView::RemoveRow {
                path: path@,
            }),
            UploadAction::Stat { path } => action@ == (UploadActionView::Stat { path: path@ }),
            UploadAction::Upload { path, checksum, info } => action@ == (
            UploadActionView::Upload { path: path@, checksum: checksum@, info: info@ }),
            UploadAction::Stop => action@ is Stop,
        },
{
}

/// What is told to the discovery worker is seen in full.
pub proof fn discovery_events_are_seen_in_full(event: DiscoveryEvent)
    ensures
        match event {
            DiscoveryEvent::Cancelled(cancelled) => event@ == DiscoveryEventView::Cancelled(
                cancelled,
            ),
            DiscoveryEvent::Entry => event@ is Entry,
            DiscoveryEvent::WalkEnded => event@ is WalkEnded,
            DiscoveryEvent::Inspected { file_name, is_dir } => event@ == (
            DiscoveryEventView::Inspected { file_name: opt_text(file_name), is_dir }),
            DiscoveryEvent::Located { exists, relative } => event@ == (
            DiscoveryEventView::Located { exists, relative: opt_text(relative) }),
            DiscoveryEvent::Found(row) => {
                &&& row is None ==> event@ == DiscoveryEventView::Found(None)
                &&& row is Some ==> event@ == DiscoveryEventView::Found(Some(row->0.content()))
            },
            DiscoveryEvent::LookupFailed => event@ is LookupFailed,
            DiscoveryEvent::Hashed(checksum) => event@ == DiscoveryEventView::Hashed(checksum@),
            DiscoveryEvent::HashFailed => event@ is HashFailed,
            DiscoveryEvent::Facts { modified, created } => event@ == (DiscoveryEventView::Facts {
                modified,
                created,
            }),
            DiscoveryEvent::StatFailed => event@ is StatFailed,
            DiscoveryEvent::Stored => event@ is Stored,
            DiscoveryEvent::StoreFailed => event@ is StoreFailed,
            DiscoveryEvent::Slept { cancelled } => event@ == (DiscoveryEventView::Slept {
                cancelled,
            }),
        },
{
}

/// What the discovery worker asks for is seen in full.
pub proof fn discovery_actions_are_seen_in_full(action: DiscoveryAction)
    ensures
        match action {
            DiscoveryAction::CheckCancelled => action@ is CheckCancelled,
            DiscoveryAction::BeginWalk => action@ is BeginWalk,
            DiscoveryAction::NextEntry => action@ is NextEntry,
            DiscoveryAction::Inspect => action@ is Inspect,
            DiscoveryAction::Locate => action@ is Locate,
            DiscoveryAction::Lookup { path } => action@ == (DiscoveryActionView::Lookup {
                path: path@,
            }),
            DiscoveryAction::Hash => action@ is Hash,
            DiscoveryAction::Stat => action@ is Stat,
            DiscoveryAction::Record { path, checksum, created_at } => action@ == (
            DiscoveryActionView::Record {
                path: path@,
                checksum: checksum@,
                created_at: opt_text(created_at),
            }),
            DiscoveryAction::Backfill { path, created_at } => action@ == (
            DiscoveryActionView::Backfill { path: path@, created_at: created_at@ }),
            DiscoveryAction::SleepOrCancel => action@ is SleepOrCancel,
            DiscoveryAction::Stop => action@ is Stop,
        },
{
}

/// A step that a worker took is the transition: the same state, record and action.
pub proof fn steps_are_the_transitions(
    upload: UploadView,
    upload_step: UploadStep,
    upload_expected: UploadStepView,
    discovery: DiscoveryView,
    discovery_step: DiscoveryStep,
    discovery_expected: DiscoveryStepView,
)
    ensures
        UploadWorker::took(upload, upload_step, upload_expected) <==> {
            &&& upload == upload_expected.state
            &&& opt_event(upload_step.log) == upload_expected.log
            &&& upload_step.action@ == upload_expected.action
        },
        DiscoveryWorker::took(discovery, discovery_step, discovery_expected) <==> {
            &&& discovery == discovery_expected.state
            &&& opt_event(discovery_step.log) == discovery_expected.log
            &&& discovery_step.action@ == discovery_expected.action
        },
{
}

} // verus!
