//! What holds of every run of the upload worker.
use vstd::prelude::*;

use crate::api::InputView;
use crate::workers::asset_info::{asset_info_of, FileTime};
use crate::workers::upload_model::{
    check_inputs, checksum_in, UploadActionView, UploadEventView, UploadView, BATCH_SIZE,
};

verus! {

/// The state after a run of events.
pub open spec fn state_after(start: UploadView, events: Seq<UploadEventView>) -> UploadView
    decreases events.len(),
{
    if events.len() == 0 {
        start
    } else {
        state_after(start, events.drop_last()).step(events.last()).state
    }
}

/// The state in which the event `i` of a run arrives.
pub open spec fn state_at(start: UploadView, events: Seq<UploadEventView>, i: int) -> UploadView {
    state_after(start, events.take(i))
}

/// The action that follows the event `i` of a run.
pub open spec fn action_at(
    start: UploadView,
    events: Seq<UploadEventView>,
    i: int,
) -> UploadActionView {
    state_at(start, events, i).step(events[i]).action
}

/// The content that an action uploads or links.
pub open spec fn content_of(action: UploadActionView) -> Option<Seq<u8>> {
    match action {
        UploadActionView::Upload { checksum, .. } => Some(checksum),
        UploadActionView::Link { checksum, .. } => Some(checksum),
        _ => None,
    }
}

proof fn state_moves(start: UploadView, events: Seq<UploadEventView>, i: int)
    requires
        0 <= i < events.len(),
    ensures
        state_at(start, events, i + 1) == state_at(start, events, i).step(events[i]).state,
{
    assert(events.take(i + 1).drop_last() =~= events.take(i));
    assert(events.take(i + 1).last() == events[i]);
}

/// Every state that the worker gets into from a valid one is valid.
pub proof fn runs_stay_valid(start: UploadView, events: Seq<UploadEventView>)
    requires
        start.valid(),
    ensures
        state_after(start, events).valid(),
    decreases events.len(),
{
    if events.len() > 0 {
        runs_stay_valid(start, events.drop_last());
    }
}

/// The batch has dealt with `content` and is not about to upload it.
spec fn dealt_with(state: UploadView, content: Seq<u8>) -> bool {
    &&& state.valid()
    &&& state.handled.contains(content)
    &&& !(state.phase is Checking)
    &&& state.phase is Stating ==> state.content() != Some(content)
}

proof fn stays_dealt_with(state: UploadView, event: UploadEventView, content: Seq<u8>)
    requires
        dealt_with(state, content),
        !(state.step(event).action is BulkCheck),
    ensures
        dealt_with(state.step(event).state, content),
        state.step(event).action is Upload ==> content_of(state.step(event).action) != Some(
            content,
        ),
{
    let next = state.step(event).state;
    assert(next.batch() == state.batch() || !next.at_result() || next.phase is ResultGate);
}

/// Within one batch no content is uploaded after it was uploaded or linked: identical
/// files are uploaded once at most, and what the server has is not uploaded again.
pub proof fn no_content_is_uploaded_twice(
    start: UploadView,
    events: Seq<UploadEventView>,
    i: int,
    j: int,
)
    requires
        start.valid(),
        0 <= i < j < events.len(),
        action_at(start, events, i) is Upload || action_at(start, events, i) is Link,
        action_at(start, events, j) is Upload,
        forall|k: int| i < k < j ==> !(#[trigger] action_at(start, events, k) is BulkCheck),
    ensures
        content_of(action_at(start, events, i)) != content_of(action_at(start, events, j)),
{
    let content = content_of(action_at(start, events, i))->0;
    runs_stay_valid(start, events.take(i));
    runs_stay_valid(start, events.take(i + 1));
    state_moves(start, events, i);
    assert(dealt_with(state_at(start, events, i + 1), content));
    content_stays_dealt_with(start, events, i + 1, j, content);
    stays_dealt_with(state_at(start, events, j), events[j], content);
}

proof fn content_stays_dealt_with(
    start: UploadView,
    events: Seq<UploadEventView>,
    i: int,
    j: int,
    content: Seq<u8>,
)
    requires
        0 <= i <= j < events.len(),
        dealt_with(state_at(start, events, i), content),
        forall|k: int| i <= k < j ==> !(#[trigger] action_at(start, events, k) is BulkCheck),
    ensures
        dealt_with(state_at(start, events, j), content),
    decreases j - i,
{
    if i < j {
        content_stays_dealt_with(start, events, i, j - 1, content);
        assert(!(action_at(start, events, j - 1) is BulkCheck));
        stays_dealt_with(state_at(start, events, j - 1), events[j - 1], content);
        state_moves(start, events, j - 1);
    }
}

/// The poll has an asset for `content` and is not about to upload it.
spec fn has_asset(state: UploadView, content: Seq<u8>) -> bool {
    &&& state.valid()
    &&& state.linked.contains(content)
    &&& !(state.phase is Querying)
    &&& !(state.phase is Pausing)
    &&& state.phase is Stating ==> state.content() != Some(content)
}

proof fn stays_with_asset(state: UploadView, event: UploadEventView, content: Seq<u8>)
    requires
        has_asset(state, content),
        !(state.step(event).action is FindUnlinked),
    ensures
        has_asset(state.step(event).state, content),
        state.step(event).action is Upload ==> content_of(state.step(event).action) != Some(
            content,
        ),
{
}

proof fn content_stays_with_asset(
    start: UploadView,
    events: Seq<UploadEventView>,
    i: int,
    j: int,
    content: Seq<u8>,
)
    requires
        0 <= i <= j < events.len(),
        has_asset(state_at(start, events, i), content),
        forall|k: int| i <= k < j ==> !(#[trigger] action_at(start, events, k) is FindUnlinked),
    ensures
        has_asset(state_at(start, events, j), content),
    decreases j - i,
{
    if i < j {
        content_stays_with_asset(start, events, i, j - 1, content);
        assert(!(action_at(start, events, j - 1) is FindUnlinked));
        stays_with_asset(state_at(start, events, j - 1), events[j - 1], content);
        state_moves(start, events, j - 1);
    }
}

/// No content is uploaded in a poll after it was linked, over all batches of the poll and
/// whatever the server answers.
pub proof fn no_linked_content_is_uploaded(
    start: UploadView,
    events: Seq<UploadEventView>,
    i: int,
    j: int,
)
    requires
        start.valid(),
        0 <= i < j < events.len(),
        action_at(start, events, i) is Link,
        action_at(start, events, j) is Upload,
        forall|k: int| i < k < j ==> !(#[trigger] action_at(start, events, k) is FindUnlinked),
    ensures
        content_of(action_at(start, events, i)) != content_of(action_at(start, events, j)),
{
    let content = content_of(action_at(start, events, i))->0;
    runs_stay_valid(start, events.take(i));
    runs_stay_valid(start, events.take(i + 1));
    state_moves(start, events, i);
    assert(has_asset(state_at(start, events, i + 1), content));
    content_stays_with_asset(start, events, i + 1, j, content);
    stays_with_asset(state_at(start, events, j), events[j], content);
}

/// A poll uploads no content twice: once the server has made an asset of an upload, the same
/// content is not uploaded again before the next list of unlinked assets, whatever the server
/// answers.
pub proof fn a_poll_uploads_no_content_twice(
    start: UploadView,
    events: Seq<UploadEventView>,
    i: int,
    j: int,
)
    requires
        start.valid(),
        0 <= i < j < events.len(),
        action_at(start, events, i) is Upload,
        action_at(start, events, j) is Upload,
        events[i + 1] matches UploadEventView::Uploaded { asset_id } && asset_id is Some,
        forall|k: int| i < k < j ==> !(#[trigger] action_at(start, events, k) is FindUnlinked),
    ensures
        content_of(action_at(start, events, i)) != content_of(action_at(start, events, j)),
{
    runs_stay_valid(start, events.take(i));
    runs_stay_valid(start, events.take(i + 1));
    state_moves(start, events, i);
    assert(action_at(start, events, i + 1) is Link);
    assert(content_of(action_at(start, events, i + 1)) == content_of(action_at(start, events, i)));
    assert(i + 1 < j);
    no_linked_content_is_uploaded(start, events, i + 1, j);
}

/// Whether no asset of a list has this content.
pub open spec fn lacks_content(assets: Seq<(Seq<char>, Seq<u8>)>, content: Seq<u8>) -> bool {
    forall|k: int| 0 <= k < assets.len() ==> (#[trigger] assets[k]).1 != content
}

proof fn found_checksums_are_listed(batch: Seq<(Seq<char>, Seq<u8>)>, path: Seq<char>)
    requires
        checksum_in(batch, path) is Some,
    ensures
        exists|k: int| 0 <= k < batch.len() && batch[k] == (path, checksum_in(batch, path)->0),
    decreases batch.len(),
{
    if batch.last().0 == path {
        assert(batch[batch.len() - 1] == (path, checksum_in(batch, path)->0));
    } else {
        let front = batch.drop_last();
        found_checksums_are_listed(front, path);
        let k = choose|k: int|
            0 <= k < front.len() && front[k] == (path, checksum_in(front, path)->0);
        assert(batch[k] == front[k]);
    }
}

/// The poll has an asset for `content` or does not list it, and is not about to upload it.
spec fn is_past(state: UploadView, content: Seq<u8>) -> bool {
    &&& state.valid()
    &&& state.linked.contains(content) || lacks_content(state.assets, content)
    &&& state.phase is Stating ==> state.content() != Some(content)
}

proof fn stays_past(state: UploadView, event: UploadEventView, content: Seq<u8>)
    requires
        is_past(state, content),
        event is Unlinked ==> lacks_content(event->Unlinked_0, content),
    ensures
        is_past(state.step(event).state, content),
        state.step(event).action is Upload ==> content_of(state.step(event).action) != Some(
            content,
        ),
{
    if state.at_result() && state.content() is Some {
        found_checksums_are_listed(state.batch(), state.result().id);
        let k = choose|k: int|
            0 <= k < state.batch().len() && state.batch()[k] == (
                state.result().id,
                state.content()->0,
            );
        assert(state.assets[state.next + k].1 == state.content()->0);
    }
}

proof fn content_stays_past(
    start: UploadView,
    events: Seq<UploadEventView>,
    i: int,
    j: int,
    content: Seq<u8>,
)
    requires
        0 <= i <= j < events.len(),
        is_past(state_at(start, events, i), content),
        forall|k: int|
            i <= k < j && (#[trigger] events[k]) is Unlinked ==> lacks_content(
                events[k]->Unlinked_0,
                content,
            ),
    ensures
        is_past(state_at(start, events, j), content),
    decreases j - i,
{
    if i < j {
        content_stays_past(start, events, i, j - 1, content);
        stays_past(state_at(start, events, j - 1), events[j - 1], content);
        state_moves(start, events, j - 1);
    }
}

/// No content is uploaded after it was linked, over any number of polls and whatever the
/// server answers, as long as no list of unlinked assets has it again. The table keeps it off
/// those lists while the link stands and no further file with that content is recorded.
pub proof fn what_is_not_listed_again_is_not_uploaded_again(
    start: UploadView,
    events: Seq<UploadEventView>,
    i: int,
    j: int,
)
    requires
        start.valid(),
        0 <= i < j < events.len(),
        action_at(start, events, i) is Link,
        action_at(start, events, j) is Upload,
        forall|k: int|
            i < k < j && (#[trigger] events[k]) is Unlinked ==> lacks_content(
                events[k]->Unlinked_0,
                content_of(action_at(start, events, i))->0,
            ),
    ensures
        content_of(action_at(start, events, i)) != content_of(action_at(start, events, j)),
{
    let content = content_of(action_at(start, events, i))->0;
    runs_stay_valid(start, events.take(i));
    runs_stay_valid(start, events.take(i + 1));
    state_moves(start, events, i);
    assert(is_past(state_at(start, events, i + 1), content));
    content_stays_past(start, events, i + 1, j, content);
    assert(state_at(start, events, j).phase is Stating);
    stays_past(state_at(start, events, j), events[j], content);
}

/// Whether the server, where this event is its word on a batch, would reject every asset
/// with this content.
pub open spec fn rejects(state: UploadView, event: UploadEventView, content: Seq<u8>) -> bool {
    state.phase is Checking && event is Checked ==> forall|k: int|
        0 <= k < event->Checked_0.len() && checksum_in(
            state.batch(),
            (#[trigger] event->Checked_0[k]).id,
        ) == Some(content) ==> event->Checked_0[k].action == "reject"@
}

/// `content` is not about to be uploaded: the batch has dealt with it, or the server would
/// reject it.
spec fn settled(state: UploadView, content: Seq<u8>) -> bool {
    &&& state.valid()
    &&& state.phase is Stating ==> state.content() != Some(content)
    &&& state.phase is Probing ==> state.result().action != "reject"@
    &&& state.at_result() ==> state.handled.contains(content) || forall|k: int|
        0 <= k < state.results.len() && checksum_in(
            state.batch(),
            (#[trigger] state.results[k]).id,
        ) == Some(content) ==> state.results[k].action == "reject"@
}

proof fn stays_settled(state: UploadView, event: UploadEventView, content: Seq<u8>)
    requires
        settled(state, content),
        rejects(state, event, content),
    ensures
        settled(state.step(event).state, content),
        state.step(event).action is Upload ==> content_of(state.step(event).action) != Some(
            content,
        ),
{
}

proof fn content_stays_settled(
    start: UploadView,
    events: Seq<UploadEventView>,
    i: int,
    j: int,
    content: Seq<u8>,
)
    requires
        0 <= i <= j < events.len(),
        settled(state_at(start, events, i), content),
        forall|k: int|
            i <= k < j ==> rejects(state_at(start, events, k), #[trigger] events[k], content),
    ensures
        settled(state_at(start, events, j), content),
    decreases j - i,
{
    if i < j {
        content_stays_settled(start, events, i, j - 1, content);
        assert(rejects(state_at(start, events, j - 1), events[j - 1], content));
        stays_settled(state_at(start, events, j - 1), events[j - 1], content);
        state_moves(start, events, j - 1);
    }
}

/// No content is ever uploaded again after it was uploaded or linked, over any number of
/// batches and polls, as long as the server rejects what it has.
pub proof fn nothing_is_uploaded_that_the_server_has(
    start: UploadView,
    events: Seq<UploadEventView>,
    i: int,
    j: int,
    content: Seq<u8>,
)
    requires
        start.valid(),
        0 <= i < j < events.len(),
        content_of(action_at(start, events, i)) == Some(content),
        forall|k: int|
            i < k < j ==> rejects(state_at(start, events, k), #[trigger] events[k], content),
    ensures
        action_at(start, events, j) is Upload ==> content_of(action_at(start, events, j)) != Some(
            content,
        ),
{
    runs_stay_valid(start, events.take(i));
    runs_stay_valid(start, events.take(i + 1));
    state_moves(start, events, i);
    content_stays_settled(start, events, i + 1, j, content);
    let last = state_at(start, events, j);
    if action_at(start, events, j) is Upload {
        assert(last.phase is Stating);
        stays_settled(last, events[j], content);
    }
}

proof fn dry_run_is_kept(start: UploadView, events: Seq<UploadEventView>)
    ensures
        state_after(start, events).dry_run == start.dry_run,
        state_after(start, events).user_id == start.user_id,
    decreases events.len(),
{
    if events.len() > 0 {
        dry_run_is_kept(start, events.drop_last());
    }
}

/// A dry run uploads nothing.
pub proof fn a_dry_run_uploads_nothing(start: UploadView, events: Seq<UploadEventView>, i: int)
    requires
        start.valid(),
        start.dry_run,
        0 <= i < events.len(),
    ensures
        !(action_at(start, events, i) is Upload),
{
    dry_run_is_kept(start, events.take(i));
    runs_stay_valid(start, events.take(i));
}

/// Where a run would go on to upload a file, a dry run records that it does not.
pub proof fn a_dry_run_records_what_it_skips(state: UploadView)
    requires
        state.valid(),
        state.phase is Probing,
        (UploadView { dry_run: false, ..state }).step(UploadEventView::Exists(true)).action is Stat,
    ensures
        (UploadView { dry_run: true, ..state }).step(UploadEventView::Exists(true)).log
            == state.event("upload_skipped"@, None, Some("dry-run"@)),
{
}

/// A file is uploaded only where the server would take it, the file was just found, and
/// the batch gives the checksum for its path.
pub proof fn uploads_follow_the_check(start: UploadView, events: Seq<UploadEventView>, i: int)
    requires
        start.valid(),
        start.phase is PollGate,
        0 <= i < events.len(),
        action_at(start, events, i) is Upload,
    ensures
        i >= 2,
        events[i - 1] == UploadEventView::Exists(true),
        action_at(start, events, i - 2) == (UploadActionView::Probe {
            path: action_at(start, events, i)->Upload_path,
        }),
        ({
            let state = state_at(start, events, i);
            &&& state.result().action != "reject"@
            &&& state.result().id == action_at(start, events, i)->Upload_path
            &&& checksum_in(state.batch(), state.result().id) == Some(
                action_at(start, events, i)->Upload_checksum,
            )
        }),
{
    runs_stay_valid(start, events.take(i));
    assert(state_at(start, events, i).phase is Stating);
    assert(events.take(0) =~= Seq::<UploadEventView>::empty());
    assert(i > 0);
    state_moves(start, events, i - 1);
    runs_stay_valid(start, events.take(i - 1));
    assert(state_at(start, events, i - 1).phase is Probing);
    assert(i > 1);
    state_moves(start, events, i - 2);
    runs_stay_valid(start, events.take(i - 2));
}

/// A file that the server lacks is uploaded, with its checksum and what is known of it,
/// unless the batch has dealt with its content.
pub proof fn what_the_server_lacks_is_uploaded(
    start: UploadView,
    file_name: Option<Seq<char>>,
    modified: FileTime,
    created: FileTime,
)
    requires
        start.valid(),
        start.phase is ResultGate,
        !start.dry_run,
        start.result().action != "reject"@,
        start.content() is Some,
        !start.handled.contains(start.content()->0),
    ensures
        action_at(
            start,
            seq![
                UploadEventView::Cancelled(false),
                UploadEventView::Exists(true),
                UploadEventView::Facts { file_name, modified, created },
            ],
            2,
        ) == (UploadActionView::Upload {
            path: start.result().id,
            checksum: start.content()->0,
            info: asset_info_of(file_name, modified, created),
        }),
{
    let events = seq![
        UploadEventView::Cancelled(false),
        UploadEventView::Exists(true),
        UploadEventView::Facts { file_name, modified, created },
    ];
    assert(state_at(start, events, 0) == start);
    state_moves(start, events, 0);
    state_moves(start, events, 1);
}

/// A content that the server has is linked to the asset that it names, without an upload.
pub proof fn what_the_server_has_is_linked(state: UploadView)
    requires
        state.valid(),
        state.phase is ResultGate,
        state.result().action == "reject"@,
        state.result().asset_id is Some,
        state.content() is Some,
    ensures
        state.step(UploadEventView::Cancelled(false)).action == (UploadActionView::Link {
            checksum: state.content()->0,
            asset_id: state.result().asset_id->0,
            created_at: None,
        }),
{
}

/// A new upload is linked to the asset that the server made of it, with the creation time
/// that the server was told.
pub proof fn uploads_are_linked(start: UploadView, event: UploadEventView, asset_id: Seq<char>)
    requires
        start.valid(),
        start.step(event).action is Upload,
    ensures
        start.step(event).state.step(
            UploadEventView::Uploaded { asset_id: Some(asset_id) },
        ).action == (UploadActionView::Link {
            checksum: start.step(event).action->Upload_checksum,
            asset_id,
            created_at: Some(start.step(event).action->Upload_info.file_created_at),
        }),
{
}

/// What is linked is the content that the batch gives for the path of the result at
/// hand.
pub proof fn links_name_a_content_of_the_batch(
    start: UploadView,
    events: Seq<UploadEventView>,
    i: int,
)
    requires
        start.valid(),
        0 <= i < events.len(),
        action_at(start, events, i) is Link,
    ensures
        ({
            let state = state_at(start, events, i);
            checksum_in(state.batch(), state.result().id) == Some(
                action_at(start, events, i)->Link_checksum,
            )
        }),
{
    runs_stay_valid(start, events.take(i));
}

/// A worker that has stopped does nothing more.
pub proof fn a_stopped_worker_rests(start: UploadView, events: Seq<UploadEventView>, i: int, j: int)
    requires
        0 <= i < j < events.len(),
        action_at(start, events, i) is Stop,
    ensures
        action_at(start, events, j) is Stop,
        state_at(start, events, j).phase is Stopped,
    decreases j - i,
{
    state_moves(start, events, i);
    if j > i + 1 {
        a_stopped_worker_rests(start, events, i, j - 1);
        state_moves(start, events, j - 1);
    }
}

/// A shutdown that is noticed ends the worker.
pub proof fn a_shutdown_ends_the_worker(state: UploadView)
    requires
        state.phase is PollGate || state.phase is BatchGate || state.phase is ResultGate,
    ensures
        state.step(UploadEventView::Cancelled(true)).action is Stop,
        state.step(UploadEventView::Cancelled(true)).state.phase is Stopped,
{
}

/// What the server was asked about since the last list of unlinked assets.
pub open spec fn asked(start: UploadView, events: Seq<UploadEventView>) -> Seq<InputView>
    decreases events.len(),
{
    if events.len() == 0 {
        Seq::empty()
    } else {
        let state = state_after(start, events.drop_last());
        let before = asked(start, events.drop_last());
        match state.step(events.last()).action {
            UploadActionView::BulkCheck { inputs } => before + inputs,
            _ => if state.phase is Querying {
                Seq::empty()
            } else {
                before
            },
        }
    }
}

spec fn covered(state: UploadView, asked: Seq<InputView>) -> bool {
    &&& state.phase is BatchGate ==> asked == check_inputs(state.assets.take(state.next))
    &&& state.phase is Checking || state.at_result() ==> asked == check_inputs(
        state.assets.take(state.batch_end()),
    )
}

proof fn polls_cover(start: UploadView, events: Seq<UploadEventView>)
    requires
        start.valid(),
        start.phase is PollGate,
    ensures
        covered(state_after(start, events), asked(start, events)),
    decreases events.len(),
{
    if events.len() > 0 {
        let state = state_after(start, events.drop_last());
        let before = asked(start, events.drop_last());
        polls_cover(start, events.drop_last());
        runs_stay_valid(start, events.drop_last());
        let next = state.step(events.last()).state;
        assert(check_inputs(next.assets.take(0)) =~= Seq::<InputView>::empty());
        if state.phase is BatchGate {
            assert(check_inputs(state.assets.take(state.batch_end())) =~= check_inputs(
                state.assets.take(state.next),
            ) + check_inputs(state.batch()));
        }
    }
}

/// A poll that comes to its end without a failed check has asked the server about every
/// unlinked asset, once and in order.
pub proof fn a_poll_asks_about_every_asset(start: UploadView, events: Seq<UploadEventView>)
    requires
        start.valid(),
        start.phase is PollGate,
        events.len() > 0,
        action_at(start, events, events.len() - 1) is SleepOrCancel,
        events.last() != UploadEventView::CheckFailed,
    ensures
        asked(start, events) == check_inputs(state_after(start, events).assets),
{
    let state = state_after(start, events.drop_last());
    assert(events.take(events.len() - 1) =~= events.drop_last());
    polls_cover(start, events.drop_last());
    runs_stay_valid(start, events.drop_last());
    let next = state.step(events.last()).state;
    assert(next.assets.take(next.assets.len() as int) =~= next.assets);
    assert(check_inputs(next.assets.take(0)) =~= Seq::<InputView>::empty());
}

/// Every check asks about at least one asset, and about no more than a batch holds.
pub proof fn checks_are_bounded(start: UploadView, events: Seq<UploadEventView>, i: int)
    requires
        start.valid(),
        0 <= i < events.len(),
        action_at(start, events, i) is BulkCheck,
    ensures
        1 <= action_at(start, events, i)->BulkCheck_inputs.len() <= BATCH_SIZE,
{
    runs_stay_valid(start, events.take(i));
}

/// The worker is at the last batch of a poll, or behind it.
spec fn at_last_batch(state: UploadView) -> bool {
    ||| (state.phase is Checking || state.at_result()) && state.batch_end() == state.assets.len()
    ||| state.phase is Sleeping
    ||| state.phase is PollGate
    ||| state.phase is Stopped
}

proof fn stays_at_last_batch(start: UploadView, events: Seq<UploadEventView>, i: int, j: int)
    requires
        start.valid(),
        0 <= i <= j < events.len(),
        at_last_batch(state_at(start, events, i)),
        forall|k: int| i <= k < j ==> !(#[trigger] action_at(start, events, k) is FindUnlinked),
    ensures
        at_last_batch(state_at(start, events, j)),
    decreases j - i,
{
    if i < j {
        stays_at_last_batch(start, events, i, j - 1);
        runs_stay_valid(start, events.take(j - 1));
        assert(!(action_at(start, events, j - 1) is FindUnlinked));
        state_moves(start, events, j - 1);
    }
}

/// Of the checks of one poll all but the last ask about a whole batch.
pub proof fn checks_but_the_last_are_full(
    start: UploadView,
    events: Seq<UploadEventView>,
    i: int,
    j: int,
)
    requires
        start.valid(),
        0 <= i < j < events.len(),
        action_at(start, events, i) is BulkCheck,
        action_at(start, events, j) is BulkCheck,
        forall|k: int| i < k < j ==> !(#[trigger] action_at(start, events, k) is FindUnlinked),
    ensures
        action_at(start, events, i)->BulkCheck_inputs.len() == BATCH_SIZE,
{
    runs_stay_valid(start, events.take(i));
    state_moves(start, events, i);
    if action_at(start, events, i)->BulkCheck_inputs.len() != BATCH_SIZE {
        assert(at_last_batch(state_at(start, events, i + 1)));
        stays_at_last_batch(start, events, i + 1, j);
    }
}

} // verus!
