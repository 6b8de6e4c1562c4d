//! What a run of the upload worker comes to, over all results of a batch.
use vstd::prelude::*;

use crate::api::{CheckView, InputView};
use crate::event_log::{EventView, Worker};
use crate::hash::hex_text;
use crate::text::decimal_text;
use crate::workers::asset_info::{asset_info_of, FileTime};
use crate::workers::upload_laws::{
    action_at, content_of, runs_stay_valid, state_after, state_at,
};
use crate::workers::upload_model::{
    check_inputs, checksum_in, UploadActionView, UploadEventView, UploadView, BATCH_SIZE,
};

verus! {

/// Whether an event is an answer to an action.
pub open spec fn answers_upload(action: UploadActionView, event: UploadEventView) -> bool {
    match action {
        UploadActionView::CheckCancelled => event is Cancelled,
        UploadActionView::FindUnlinked => event is Unlinked || event is QueryFailed,
        UploadActionView::Sleep => event is Slept,
        UploadActionView::SleepOrCancel => event is Slept,
        UploadActionView::BulkCheck { .. } => event is Checked || event is CheckFailed,
        UploadActionView::Link { .. } => event is Stored || event is StoreFailed,
        UploadActionView::Probe { .. } => event is Exists,
        UploadActionView::RemoveRow { .. } => event is Stored || event is StoreFailed,
        UploadActionView::Stat { .. } => event is Facts || event is StatFailed || event is Outside,
        UploadActionView::Upload { .. } => event is Uploaded || event is UploadFailed,
        UploadActionView::Stop => false,
    }
}

/// Whether an event is the news of a shutdown.
pub open spec fn ends_upload(event: UploadEventView) -> bool {
    event == UploadEventView::Cancelled(true) || event == (UploadEventView::Slept {
        cancelled: true,
    })
}

/// Whether the worker waits for the answer to an action.
spec fn waits_for_answer(state: UploadView, action: UploadActionView) -> bool {
    match action {
        UploadActionView::CheckCancelled => state.phase is PollGate || state.phase is BatchGate
            || state.phase is ResultGate,
        UploadActionView::FindUnlinked => state.phase is Querying,
        UploadActionView::Sleep => state.phase is Pausing,
        UploadActionView::SleepOrCancel => state.phase is Sleeping,
        UploadActionView::BulkCheck { .. } => state.phase is Checking,
        UploadActionView::Link { .. } => state.phase is LinkingKnown || state.phase is LinkingNew,
        UploadActionView::Probe { .. } => state.phase is Probing,
        UploadActionView::RemoveRow { .. } => state.phase is Removing,
        UploadActionView::Stat { .. } => state.phase is Stating,
        UploadActionView::Upload { .. } => state.phase is Uploading,
        UploadActionView::Stop => state.phase is Stopped,
    }
}

proof fn a_step_waits_for_its_answer(before: UploadView, event: UploadEventView)
    ensures
        waits_for_answer(before.step(event).state, before.step(event).action),
{
}

proof fn an_answer_is_followed_up(
    state: UploadView,
    action: UploadActionView,
    answer: UploadEventView,
)
    requires
        waits_for_answer(state, action),
        answers_upload(action, answer),
        !ends_upload(answer),
    ensures
        !(state.step(answer).action is Stop),
{
}

/// A worker whose last action was answered, and that heard of no shutdown, goes on.
pub proof fn an_answered_worker_goes_on(
    before: UploadView,
    event: UploadEventView,
    answer: UploadEventView,
)
    requires
        before.valid(),
        answers_upload(before.step(event).action, answer),
        !ends_upload(answer),
    ensures
        !(before.step(event).state.step(answer).action is Stop),
{
    a_step_waits_for_its_answer(before, event);
    let asked = before.step(event);
    an_answer_is_followed_up(asked.state, asked.action, answer);
}

/// A worker that hears of a shutdown when it asks, or in the pause between two polls, stops,
/// and stays stopped.
pub proof fn a_shutdown_stops_the_worker(
    before: UploadView,
    event: UploadEventView,
    later: UploadEventView,
)
    ensures
        before.step(event).action is CheckCancelled ==> before.step(event).state.step(
            UploadEventView::Cancelled(true),
        ).action is Stop,
        before.step(event).action is SleepOrCancel ==> before.step(event).state.step(
            UploadEventView::Slept { cancelled: true },
        ).action is Stop,
        before.step(event).action is Stop ==> before.step(event).state.step(later).action is Stop,
{
    a_step_waits_for_its_answer(before, event);
}

/// The work on a result ends with that result. Whatever came of it, the worker is then at the
/// next result of the batch; behind the last one it is at the next batch, or rests where there
/// is none.
pub open spec fn moved_on(before: UploadView, after: UploadView, action: UploadActionView) -> bool {
    &&& after.assets == before.assets
    &&& before.pos + 1 < before.results.len() ==> {
        &&& after.at_result()
        &&& after.phase is ResultGate
        &&& after.pos == before.pos + 1
        &&& after.results == before.results
        &&& after.next == before.next
        &&& action is CheckCancelled
    }
    &&& before.pos + 1 >= before.results.len() && before.next + BATCH_SIZE < before.assets.len()
        ==> {
        &&& after.phase is BatchGate
        &&& after.next == before.next + BATCH_SIZE
        &&& action is CheckCancelled
    }
    &&& before.pos + 1 >= before.results.len() && before.next + BATCH_SIZE >= before.assets.len()
        ==> {
        &&& after.phase is Sleeping
        &&& action is SleepOrCancel
    }
}

/// Whether the worker is still at the same result.
pub open spec fn stayed(before: UploadView, after: UploadView) -> bool {
    &&& after.at_result()
    &&& after.pos == before.pos
    &&& after.results == before.results
    &&& after.assets == before.assets
    &&& after.next == before.next
}

/// How many answers a result takes at most before it ends.
pub open spec fn answers_left(state: UploadView) -> int {
    if state.phase is ResultGate {
        5
    } else if state.phase is Probing {
        4
    } else if state.phase is Stating {
        3
    } else if state.phase is Uploading {
        2
    } else {
        1
    }
}

/// The results of a batch are taken up in order, none is passed over, and none holds up the
/// others: whatever the answer, the worker is at the same result and nearer to its end, or it
/// has moved on by one.
pub proof fn results_are_taken_in_order(
    before: UploadView,
    event: UploadEventView,
    answer: UploadEventView,
)
    requires
        before.valid(),
        before.step(event).state.at_result(),
        answers_upload(before.step(event).action, answer),
        !ends_upload(answer),
    ensures
        ({
            let state = before.step(event).state;
            let next = state.step(answer);
            ||| stayed(state, next.state) && answers_left(next.state) < answers_left(state)
            ||| moved_on(state, next.state, next.action)
        }),
{
}

/// What ends the work on a result: a failed, refused or unnamed upload, a file that cannot be
/// read or lies elsewhere, a table that was or was not changed. In each case the worker moves
/// on by one.
pub proof fn a_failure_ends_one_result(
    before: UploadView,
    event: UploadEventView,
    reason: Seq<char>,
)
    requires
        before.valid(),
    ensures
        ({
            let asked = before.step(event);
            let state = asked.state;
            let failed = state.step(UploadEventView::UploadFailed(reason));
            let refused = state.step(UploadEventView::Uploaded { asset_id: None });
            let unread = state.step(UploadEventView::StatFailed(reason));
            let outside = state.step(UploadEventView::Outside(reason));
            let stored = state.step(UploadEventView::Stored);
            let unstored = state.step(UploadEventView::StoreFailed(reason));
            &&& asked.action is Upload ==> {
                &&& moved_on(state, failed.state, failed.action)
                &&& moved_on(state, refused.state, refused.action)
            }
            &&& asked.action is Stat ==> {
                &&& moved_on(state, unread.state, unread.action)
                &&& moved_on(state, outside.state, outside.action)
            }
            &&& asked.action is Link || asked.action is RemoveRow ==> {
                &&& moved_on(state, stored.state, stored.action)
                &&& moved_on(state, unstored.state, unstored.action)
            }
        }),
{
}

/// An event of the upload worker about a path.
pub open spec fn upload_record(
    user_id: Seq<char>,
    event: Seq<char>,
    path: Seq<char>,
    asset_id: Option<Seq<char>>,
    detail: Option<Seq<char>>,
) -> Option<EventView> {
    Some(EventView { worker: Worker::Uploader, event, user_id, path: Some(path), asset_id, detail })
}

/// What came of a result is recorded under its path: a link to an asset of the server, an
/// upload with its asset, and a failed upload with its reason. Nothing else is.
pub proof fn outcomes_are_recorded(
    before: UploadView,
    event: UploadEventView,
    reason: Seq<char>,
    asset_id: Option<Seq<char>>,
)
    requires
        before.valid(),
    ensures
        ({
            let asked = before.step(event);
            let state = asked.state;
            let user_id = before.user_id;
            let path = state.result().id;
            let failure = upload_record(user_id, "upload_failed"@, path, None, Some(reason));
            let stored = state.step(UploadEventView::Stored).log;
            let unstored = state.step(UploadEventView::StoreFailed(reason)).log;
            &&& asked.action is Link && asked.action->Link_created_at is None ==> {
                &&& stored == upload_record(
                    user_id,
                    "asset_linked"@,
                    path,
                    Some(asked.action->Link_asset_id),
                    None,
                )
                &&& unstored is None
            }
            &&& asked.action is Link && asked.action->Link_created_at is Some ==> {
                &&& stored == upload_record(
                    user_id,
                    "file_uploaded"@,
                    path,
                    Some(asked.action->Link_asset_id),
                    None,
                )
                &&& unstored == failure
            }
            &&& asked.action is Upload ==> {
                &&& asked.action->Upload_path == path
                &&& state.step(UploadEventView::UploadFailed(reason)).log == failure
                &&& state.step(UploadEventView::Uploaded { asset_id }).log is None
            }
            &&& asked.action is Stat ==> {
                &&& asked.action->Stat_path == path
                &&& state.step(UploadEventView::StatFailed(reason)).log == failure
                &&& state.step(UploadEventView::Outside(reason)).log == failure
            }
            &&& asked.action is RemoveRow ==> stored is None && unstored is None
        }),
{
}

/// A file that is gone is recorded as such and forgotten, under its own path, in a dry run
/// too.
pub proof fn a_missing_file_is_forgotten(before: UploadView, event: UploadEventView)
    requires
        before.valid(),
        before.step(event).action is Probe,
    ensures
        ({
            let path = before.step(event).action->Probe_path;
            let gone = before.step(event).state.step(UploadEventView::Exists(false));
            &&& gone.action == (UploadActionView::RemoveRow { path })
            &&& gone.log == upload_record(before.user_id, "file_disappeared"@, path, None, None)
        }),
{
}

/// A file that is there is looked into for upload, unless its content was dealt with, which is
/// recorded, or the run is a dry one, which is recorded too. A path that the batch does not
/// have is passed over.
pub proof fn a_file_that_is_there_is_considered(before: UploadView, event: UploadEventView)
    requires
        before.valid(),
        before.step(event).action is Probe,
    ensures
        ({
            let state = before.step(event).state;
            let path = before.step(event).action->Probe_path;
            let content = checksum_in(state.batch(), path);
            let found = state.step(UploadEventView::Exists(true));
            let dealt = content is Some && state.handled.contains(content->0);
            &&& content is None ==> found.log is None && moved_on(state, found.state, found.action)
            &&& dealt ==> {
                &&& found.log == upload_record(
                    before.user_id,
                    "upload_skipped_dedup"@,
                    path,
                    None,
                    None,
                )
                &&& moved_on(state, found.state, found.action)
            }
            &&& content is Some && !dealt && before.dry_run ==> {
                &&& found.log == upload_record(
                    before.user_id,
                    "upload_skipped"@,
                    path,
                    None,
                    Some("dry-run"@),
                )
                &&& moved_on(state, found.state, found.action)
            }
            &&& content is Some && !dealt && !before.dry_run ==> {
                &&& found.log is None
                &&& found.action == (UploadActionView::Stat { path })
            }
        }),
{
}

/// A file that was looked into is uploaded under its path, with the content that the batch
/// gives for it, and with what is to be told of its name and its times.
pub proof fn facts_lead_to_an_upload(
    before: UploadView,
    event: UploadEventView,
    file_name: Option<Seq<char>>,
    modified: FileTime,
    created: FileTime,
)
    requires
        before.valid(),
        before.step(event).action is Stat,
    ensures
        ({
            let state = before.step(event).state;
            let path = before.step(event).action->Stat_path;
            let told = state.step(UploadEventView::Facts { file_name, modified, created });
            &&& told.log is None
            &&& checksum_in(state.batch(), path) is Some
            &&& told.action == (UploadActionView::Upload {
                path,
                checksum: checksum_in(state.batch(), path)->0,
                info: asset_info_of(file_name, modified, created),
            })
        }),
{
}

/// The server's word on a batch leads to its first result; where it has none, to the next
/// batch, or to the pause.
pub proof fn a_check_leads_to_its_results(
    before: UploadView,
    event: UploadEventView,
    results: Seq<CheckView>,
)
    requires
        before.valid(),
        before.step(event).action is BulkCheck,
    ensures
        ({
            let state = before.step(event).state;
            let next = state.step(UploadEventView::Checked(results));
            let taken = next.state.step(UploadEventView::Cancelled(false));
            &&& next.log is None
            &&& next.state.assets == state.assets
            &&& results.len() > 0 ==> {
                &&& next.action is CheckCancelled
                &&& next.state.pos == 0 && next.state.results == results
                &&& next.state.next == state.next
                &&& takes_up(state.batch(), results[0], taken.action)
            }
            &&& results.len() == 0 && state.next + 2000 < state.assets.len() ==> {
                &&& next.action is CheckCancelled
                &&& taken.action is BulkCheck
                &&& next.state.next == state.next + 2000
            }
            &&& results.len() == 0 && state.next + 2000 >= state.assets.len()
                ==> next.action is SleepOrCancel
        }),
{
}

/// Whether an action takes a result up: what the server would reject under an asset is linked,
/// where the batch has its path, and of anything else the file is looked for.
pub open spec fn takes_up(
    batch: Seq<(Seq<char>, Seq<u8>)>,
    result: CheckView,
    action: UploadActionView,
) -> bool {
    &&& result.action != "reject"@ ==> action == (UploadActionView::Probe { path: result.id })
    &&& result.action == "reject"@ && result.asset_id is Some && checksum_in(
        batch,
        result.id,
    ) is Some ==> action == (UploadActionView::Link {
        checksum: checksum_in(batch, result.id)->0,
        asset_id: result.asset_id->0,
        created_at: None,
    })
}

spec fn taken_up(
    start: UploadView,
    events: Seq<UploadEventView>,
    i: int,
    j: int,
    batch: Seq<(Seq<char>, Seq<u8>)>,
    result: CheckView,
) -> bool {
    exists|k: int| i < k < j && takes_up(batch, result, #[trigger] action_at(start, events, k))
}

/// How far a batch is dealt with before the event `j`.
spec fn dealt_with_so_far(
    start: UploadView,
    events: Seq<UploadEventView>,
    i: int,
    j: int,
) -> bool {
    let first = state_at(start, events, i);
    let state = state_at(start, events, j);
    let results = events[i]->Checked_0;
    ||| {
        &&& state.at_result()
        &&& state.results == results
        &&& state.assets == first.assets
        &&& state.next == first.next
        &&& forall|p: int|
            0 <= p < state.pos || (p == state.pos && !(state.phase is ResultGate)) ==> taken_up(
                start,
                events,
                i,
                j,
                first.batch(),
                #[trigger] results[p],
            )
    }
    ||| {
        &&& !state.at_result()
        &&& forall|p: int|
            0 <= p < results.len() ==> taken_up(
                start,
                events,
                i,
                j,
                first.batch(),
                #[trigger] results[p],
            )
    }
}

proof fn state_goes_on(start: UploadView, events: Seq<UploadEventView>, i: int)
    requires
        0 <= i < events.len(),
    ensures
        state_at(start, events, i + 1) == state_at(start, events, i).step(events[i]).state,
{
    assert(events.take(i + 1).drop_last() =~= events.take(i));
    assert(events.take(i + 1).last() == events[i]);
}

/// What a step leaves of a batch: the worker is at the same result, or has moved on by one.
proof fn a_result_stays_or_ends(state: UploadView, event: UploadEventView)
    requires
        state.valid(),
        state.at_result(),
        !(state.step(event).action is Stop),
    ensures
        ({
            let next = state.step(event);
            &&& stayed(state, next.state) && !(next.state.phase is ResultGate) || moved_on(
                state,
                next.state,
                next.action,
            )
            &&& state.phase is ResultGate ==> takes_up(
                state.batch(),
                state.result(),
                next.action,
            )
        }),
{
}

proof fn no_result_without_a_check(state: UploadView, event: UploadEventView)
    requires
        !state.at_result(),
        !(state.phase is Checking),
    ensures
        !state.step(event).state.at_result(),
        state.step(event).state.phase is Checking ==> state.step(event).action is BulkCheck,
{
}

#[verifier::rlimit(60)]
proof fn a_batch_is_dealt_with(start: UploadView, events: Seq<UploadEventView>, i: int, j: int)
    requires
        start.valid(),
        0 <= i < j <= events.len(),
        state_at(start, events, i).phase is Checking,
        events[i] is Checked,
        forall|k: int| i <= k < j ==> !(#[trigger] action_at(start, events, k) is Stop),
        forall|k: int| i <= k < j - 1 ==> !(#[trigger] action_at(start, events, k) is BulkCheck),
    ensures
        dealt_with_so_far(start, events, i, j),
    decreases j - i,
{
    let first = state_at(start, events, i);
    let results = events[i]->Checked_0;
    runs_stay_valid(start, events.take(j - 1));
    state_goes_on(start, events, j - 1);
    if j > i + 1 {
        a_batch_is_dealt_with(start, events, i, j - 1);
        let before = state_at(start, events, j - 1);
        let state = state_at(start, events, j);
        let action = action_at(start, events, j - 1);
        assert(!(action is Stop));
        assert forall|p: int|
            0 <= p < results.len() && taken_up(
                start,
                events,
                i,
                j - 1,
                first.batch(),
                results[p],
            ) implies taken_up(start, events, i, j, first.batch(), #[trigger] results[p]) by {
            let k = choose|k: int|
                i < k < j - 1 && takes_up(
                    first.batch(),
                    results[p],
                    #[trigger] action_at(start, events, k),
                );
            assert(takes_up(first.batch(), results[p], action_at(start, events, k)));
        }
        if before.at_result() {
            assert(before.batch() == first.batch());
            a_result_stays_or_ends(before, events[j - 1]);
            if before.phase is ResultGate {
                assert(takes_up(first.batch(), results[before.pos], action));
                assert(taken_up(start, events, i, j, first.batch(), results[before.pos]));
            } else {
                assert(taken_up(start, events, i, j - 1, first.batch(), results[before.pos]));
                assert(taken_up(start, events, i, j, first.batch(), results[before.pos]));
            }
            assert forall|p: int| 0 <= p <= before.pos implies taken_up(
                start,
                events,
                i,
                j,
                first.batch(),
                #[trigger] results[p],
            ) by {
                if p < before.pos {
                    assert(taken_up(start, events, i, j - 1, first.batch(), results[p]));
                }
            }
        } else {
            assert forall|p: int| 0 <= p < results.len() implies taken_up(
                start,
                events,
                i,
                j,
                first.batch(),
                #[trigger] results[p],
            ) by {
                assert(taken_up(start, events, i, j - 1, first.batch(), results[p]));
            }
            assert(!(before.phase is Checking)) by {
                if before.phase is Checking {
                    state_goes_on(start, events, j - 2);
                    assert(action_at(start, events, j - 2) is BulkCheck);
                }
            }
            no_result_without_a_check(before, events[j - 1]);
        }
    }
}

/// Every result of a checked batch is taken up: in a run without a shutdown, from the server's
/// word on a batch to the next batch or the pause, each result is linked where the server would
/// reject it, or its file is looked for, whatever came of the results before it.
pub proof fn every_result_is_taken_up(
    start: UploadView,
    events: Seq<UploadEventView>,
    i: int,
    j: int,
    p: int,
)
    requires
        start.valid(),
        0 < i < j < events.len(),
        action_at(start, events, i - 1) is BulkCheck,
        events[i] is Checked,
        forall|k: int| i <= k <= j ==> !(#[trigger] action_at(start, events, k) is Stop),
        forall|k: int| i <= k < j ==> !(#[trigger] action_at(start, events, k) is BulkCheck),
        action_at(start, events, j) is BulkCheck || action_at(start, events, j) is SleepOrCancel,
        0 <= p < events[i]->Checked_0.len(),
    ensures
        exists|k: int|
            i < k <= j && takes_up(
                state_at(start, events, i).batch(),
                events[i]->Checked_0[p],
                #[trigger] action_at(start, events, k),
            ),
{
    state_goes_on(start, events, i - 1);
    assert(state_at(start, events, i).phase is Checking);
    runs_stay_valid(start, events.take(j));
    a_batch_is_dealt_with(start, events, i, j);
    let first = state_at(start, events, i);
    let state = state_at(start, events, j);
    let result = events[i]->Checked_0[p];
    if state.at_result() {
        assert(state.batch() == first.batch());
        assert(state.pos + 1 == state.results.len());
        if p == state.pos && state.phase is ResultGate {
            assert(takes_up(first.batch(), result, action_at(start, events, j)));
        } else {
            assert(taken_up(start, events, i, j, first.batch(), result));
        }
    } else {
        assert(taken_up(start, events, i, j, first.batch(), result));
    }
}

/// A link of `content` in this poll, or the start of its upload in this batch, before the event
/// `j`.
spec fn has_reason(
    start: UploadView,
    events: Seq<UploadEventView>,
    j: int,
    content: Seq<u8>,
    linked_only: bool,
) -> bool {
    exists|i: int|
        0 <= i < j && held_back_by(start, events, i, j, content) && (linked_only ==> action_at(
            start,
            events,
            i,
        ) is Link)
}

/// Whether the action that follows the event `i` is a reason not to upload a content at the
/// event `j`: a link of it in the same poll, or the start of its upload in the same batch.
pub open spec fn held_back_by(
    start: UploadView,
    events: Seq<UploadEventView>,
    i: int,
    j: int,
    content: Seq<u8>,
) -> bool {
    ||| {
        &&& action_at(start, events, i) is Link
        &&& content_of(action_at(start, events, i)) == Some(content)
        &&& forall|k: int| i < k < j ==> !(#[trigger] action_at(start, events, k) is FindUnlinked)
    }
    ||| {
        &&& action_at(start, events, i) is Stat
        &&& checksum_in(
            state_at(start, events, i).batch(),
            action_at(start, events, i)->Stat_path,
        ) == Some(content)
        &&& forall|k: int| i < k < j ==> !(#[trigger] action_at(start, events, k) is BulkCheck)
    }
}

spec fn held_back_for_reasons(start: UploadView, events: Seq<UploadEventView>, j: int) -> bool {
    let state = state_at(start, events, j);
    &&& state.in_batch() ==> forall|c: Seq<u8>| #[trigger]
        state.linked.contains(c) ==> has_reason(start, events, j, c, true)
    &&& state.at_result() ==> forall|c: Seq<u8>| #[trigger]
        state.handled.contains(c) ==> has_reason(start, events, j, c, false)
}

proof fn reasons_last(
    start: UploadView,
    events: Seq<UploadEventView>,
    j: int,
    content: Seq<u8>,
    linked_only: bool,
)
    requires
        0 <= j < events.len(),
        has_reason(start, events, j, content, linked_only),
        !(action_at(start, events, j) is FindUnlinked),
        linked_only || !(action_at(start, events, j) is BulkCheck),
    ensures
        has_reason(start, events, j + 1, content, linked_only),
{
    let i = choose|i: int|
        0 <= i < j && held_back_by(start, events, i, j, content) && (linked_only ==> action_at(
            start,
            events,
            i,
        ) is Link);
    assert(held_back_by(start, events, i, j + 1, content));
}

proof fn linked_reasons_are_reasons(
    start: UploadView,
    events: Seq<UploadEventView>,
    j: int,
    content: Seq<u8>,
)
    requires
        has_reason(start, events, j, content, true),
    ensures
        has_reason(start, events, j, content, false),
{
    let i = choose|i: int|
        0 <= i < j && held_back_by(start, events, i, j, content) && action_at(
            start,
            events,
            i,
        ) is Link;
    assert(held_back_by(start, events, i, j, content));
}

proof fn contents_are_held_back_for_reasons(
    start: UploadView,
    events: Seq<UploadEventView>,
    j: int,
)
    requires
        start.valid(),
        start.phase is PollGate,
        !start.dry_run,
        0 <= j <= events.len(),
    ensures
        held_back_for_reasons(start, events, j),
        !state_at(start, events, j).dry_run,
    decreases j,
{
    if j == 0 {
        assert(events.take(0) =~= Seq::<UploadEventView>::empty());
    } else {
        contents_are_held_back_for_reasons(start, events, j - 1);
        runs_stay_valid(start, events.take(j - 1));
        state_goes_on(start, events, j - 1);
        let before = state_at(start, events, j - 1);
        let after = state_at(start, events, j);
        let action = action_at(start, events, j - 1);
        if after.in_batch() {
            assert(!(action is FindUnlinked));
            assert forall|c: Seq<u8>| #[trigger] after.linked.contains(c) implies has_reason(
                start,
                events,
                j,
                c,
                true,
            ) by {
                if before.in_batch() && before.linked.contains(c) {
                    reasons_last(start, events, j - 1, c, true);
                } else {
                    assert(action is Link && content_of(action) == Some(c));
                    assert(held_back_by(start, events, j - 1, j, c));
                }
            }
        }
        if after.at_result() {
            assert(!(action is BulkCheck));
            assert forall|c: Seq<u8>| #[trigger] after.handled.contains(c) implies has_reason(
                start,
                events,
                j,
                c,
                false,
            ) by {
                if before.phase is Checking {
                    assert(before.linked.contains(c));
                    reasons_last(start, events, j - 1, c, true);
                    linked_reasons_are_reasons(start, events, j, c);
                } else if before.handled.contains(c) {
                    reasons_last(start, events, j - 1, c, false);
                } else {
                    assert(before.content() == Some(c));
                    assert(action is Link || action is Stat);
                    assert(held_back_by(start, events, j - 1, j, c));
                }
            }
        }
    }
}

/// A file that the server lacks, that is there and whose path the batch has, is left without an
/// upload only for a reason: its content was linked before in the same poll, or the worker set
/// about its upload before in the same batch.
pub proof fn an_upload_is_left_out_for_a_reason(
    start: UploadView,
    events: Seq<UploadEventView>,
    j: int,
)
    requires
        start.valid(),
        start.phase is PollGate,
        !start.dry_run,
        0 < j < events.len(),
        action_at(start, events, j - 1) is Probe,
        events[j] == UploadEventView::Exists(true),
        checksum_in(
            state_at(start, events, j).batch(),
            action_at(start, events, j - 1)->Probe_path,
        ) is Some,
        !(action_at(start, events, j) is Stat),
    ensures
        exists|i: int|
            0 <= i < j && #[trigger] held_back_by(
                start,
                events,
                i,
                j,
                checksum_in(
                    state_at(start, events, j).batch(),
                    action_at(start, events, j - 1)->Probe_path,
                )->0,
            ),
{
    let state = state_at(start, events, j);
    let content = checksum_in(state.batch(), action_at(start, events, j - 1)->Probe_path)->0;
    runs_stay_valid(start, events.take(j - 1));
    state_goes_on(start, events, j - 1);
    contents_are_held_back_for_reasons(start, events, j);
    assert(state.handled.contains(content));
    assert(has_reason(start, events, j, content, false));
    let i = choose|i: int| 0 <= i < j && held_back_by(start, events, i, j, content);
    assert(held_back_by(start, events, i, j, content));
}

/// A poll starts with the list of unlinked assets. Where there are any, the server is asked
/// about the first of them, up to a batch; where there are none, and where the server could not
/// be asked, the worker rests. A list that could not be had is asked for again after a pause.
pub proof fn a_poll_takes_its_course(
    before: UploadView,
    event: UploadEventView,
    assets: Seq<(Seq<char>, Seq<u8>)>,
    cancelled: bool,
)
    requires
        before.valid(),
    ensures
        ({
            let asked = before.step(event);
            let listed = asked.state.step(UploadEventView::Unlinked(assets));
            let checking = listed.state.step(UploadEventView::Cancelled(false));
            let failed = asked.state.step(UploadEventView::QueryFailed);
            let paused = failed.state.step(UploadEventView::Slept { cancelled });
            let again = paused.state.step(UploadEventView::Cancelled(false));
            asked.action is FindUnlinked ==> {
                &&& listed.log is None
                &&& assets.len() == 0 ==> listed.action is SleepOrCancel
                &&& assets.len() > 0 ==> {
                    &&& listed.action is CheckCancelled
                    &&& checking.action == (UploadActionView::BulkCheck {
                        inputs: check_inputs(
                            assets.take(
                                if assets.len() < 2000 {
                                    assets.len() as int
                                } else {
                                    2000
                                },
                            ),
                        ),
                    })
                }
                &&& failed.action is Sleep && failed.log is None
                &&& paused.action is CheckCancelled && paused.log is None
                &&& again.action is FindUnlinked && again.log is None
            }
        }),
        ({
            let asked = before.step(event);
            let failed = asked.state.step(UploadEventView::CheckFailed);
            asked.action is BulkCheck ==> failed.action is SleepOrCancel && failed.log is None
        }),
        ({
            let rested = before.step(event);
            let woken = rested.state.step(UploadEventView::Slept { cancelled: false });
            let polled = woken.state.step(UploadEventView::Cancelled(false));
            rested.action is SleepOrCancel ==> {
                &&& woken.action is CheckCancelled && woken.log is None
                &&& polled.action is FindUnlinked && polled.log is None
            }
        }),
{
    let asked = before.step(event);
    if asked.action is FindUnlinked && assets.len() > 0 {
        let listed = asked.state.step(UploadEventView::Unlinked(assets)).state;
        assert(listed.batch() =~= assets.take(
            if assets.len() < 2000 {
                assets.len() as int
            } else {
                2000
            },
        ));
    }
}

/// A new worker that hears of no shutdown asks for the unlinked assets.
pub proof fn a_worker_starts_with_a_poll(start: UploadView)
    requires
        start.phase is PollGate,
    ensures
        start.step(UploadEventView::Cancelled(false)).action is FindUnlinked,
        start.step(UploadEventView::Cancelled(false)).log is None,
{
}

/// Every check is recorded with the number of its assets.
pub proof fn checks_are_recorded(state: UploadView, event: UploadEventView)
    requires
        state.valid(),
        state.step(event).action is BulkCheck,
    ensures
        state.step(event).log == Some(
            EventView {
                worker: Worker::Uploader,
                event: "upload_check"@,
                user_id: state.user_id,
                path: None,
                asset_id: None,
                detail: Some(
                    decimal_text(state.step(event).action->BulkCheck_inputs.len()) + " assets"@,
                ),
            },
        ),
{
}

/// The server is asked about each asset of a batch by its path and its checksum in
/// hexadecimal.
pub proof fn each_asset_is_asked_about(batch: Seq<(Seq<char>, Seq<u8>)>, i: int)
    requires
        0 <= i < batch.len(),
    ensures
        check_inputs(batch).len() == batch.len(),
        check_inputs(batch)[i] == (InputView { id: batch[i].0, checksum_hex: hex_text(batch[i].1) }),
{
}

/// The content of a path is the one that the batch gives for it, the last where there are
/// several; a path that the batch does not have has none.
pub proof fn the_batch_gives_the_content(
    batch: Seq<(Seq<char>, Seq<u8>)>,
    path: Seq<char>,
    i: int,
)
    ensures
        0 <= i < batch.len() && batch[i].0 == path && (forall|k: int|
            i < k < batch.len() ==> (#[trigger] batch[k]).0 != path) ==> checksum_in(batch, path)
            == Some(batch[i].1),
        (forall|k: int| 0 <= k < batch.len() ==> (#[trigger] batch[k]).0 != path) ==> checksum_in(
            batch,
            path,
        ) is None,
    decreases batch.len(),
{
    if batch.len() > 0 {
        let front = batch.drop_last();
        the_batch_gives_the_content(front, path, i);
        assert(batch.last() == batch[batch.len() - 1]);
        assert forall|k: int| 0 <= k < front.len() implies (#[trigger] front[k]) == batch[k] by {}
    }
}

/// The user and the kind of run stay the same over any run.
pub proof fn a_worker_keeps_its_user(start: UploadView, events: Seq<UploadEventView>)
    ensures
        state_after(start, events).user_id == start.user_id,
        state_after(start, events).dry_run == start.dry_run,
    decreases events.len(),
{
    if events.len() > 0 {
        a_worker_keeps_its_user(start, events.drop_last());
    }
}

} // verus!
