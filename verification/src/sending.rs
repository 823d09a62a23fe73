//! What an upload comes to: who may upload, what is sent where, and what the
//! user gets to see of it.
use vstd::prelude::*;

use crate::access::{AccessCheck, AccessEvent, AccessStage, AccessStep};
use crate::cloud;
use crate::cloud::{CloudClient, CloudError, Method};
use crate::coordinator::Command;
use crate::encoding;
use crate::json::JsonView;
use crate::lifecycle;
use crate::text;
use crate::transfer;
use crate::transfer::{Putting, Transfer, TransferEvent, TransferStage, TransferStep};
use crate::upload::{
    ProgressThrottle, UploadAction, UploadEvent, UploadJob, UploadStep, UploadWorker, WorkerEvent,
    WorkerStage,
};
use crate::uploaded;

verus! {

// --- the worker ---

/// An upload checks the account, sends the recording and fetches its link, in
/// this order, and reports the link as that of the recording; it goes to the
/// clipboard only if the user asked for the upload.
pub proof fn uploads_end_with_their_link(
    waiting: UploadWorker,
    job: UploadJob,
    checking: UploadWorker,
    uploading: UploadWorker,
    linking: UploadWorker,
    url: String,
    reporting: UploadWorker,
    steps: Seq<UploadStep>,
)
    requires
        waiting.stage is Waiting,
        job.action == UploadAction::Upload,
        steps.len() == 4,
        waiting.follows(WorkerEvent::Job(job), checking, steps[0]),
        checking.follows(WorkerEvent::Checked(Ok(())), uploading, steps[1]),
        uploading.follows(WorkerEvent::Uploaded(Ok(())), linking, steps[2]),
        linking.follows(WorkerEvent::Linked(Ok(url)), reporting, steps[3]),
    ensures
        steps[0] is CheckAccess,
        steps[1] is Upload,
        steps[2] is FetchLink,
        steps[3] matches UploadStep::Report(UploadEvent::Finished {
            id,
            title,
            link,
            link_error,
            requested,
        }) && id == job.entry.id && title == job.entry.title && link == Some(url) && link_error
            is None && requested == job.requested,
{
}

/// Fetching a link sends nothing: the worker goes straight to the link, and
/// without one the job has failed.
pub proof fn fetching_a_link_sends_nothing(
    waiting: UploadWorker,
    job: UploadJob,
    linking: UploadWorker,
    error: CloudError,
    reporting: UploadWorker,
    steps: Seq<UploadStep>,
)
    requires
        waiting.stage is Waiting,
        job.action == UploadAction::ShareLink,
        steps.len() == 2,
        waiting.follows(WorkerEvent::Job(job), linking, steps[0]),
        linking.follows(WorkerEvent::Linked(Err(error)), reporting, steps[1]),
    ensures
        steps[0] is FetchLink,
        steps[1] matches UploadStep::Report(UploadEvent::Failed { id, title, action, .. }) && id
            == job.entry.id && title == job.entry.title && action == UploadAction::ShareLink,
{
}

/// A refused account and a failed upload are reported as failures of that
/// recording, and nothing more is sent; a recording that went up is reported
/// as finished even if no link came back.
pub proof fn failures_are_reported_as_such(
    worker: UploadWorker,
    job: UploadJob,
    error: CloudError,
    next: UploadWorker,
    step: UploadStep,
    event: WorkerEvent,
)
    requires
        worker.follows(event, next, step),
        (worker.stage == WorkerStage::Checking(job) && event == WorkerEvent::Checked(Err(error)))
            || (worker.stage == WorkerStage::Uploading(job) && event == WorkerEvent::Uploaded(
            Err(error),
        )) || (worker.stage == WorkerStage::Linking(job) && event == WorkerEvent::Linked(
            Err(error),
        )),
    ensures
        next.stage is Reporting,
        !(worker.stage is Linking && job.action == UploadAction::Upload) ==> (
        step matches UploadStep::Report(UploadEvent::Failed { id, title, action, message }) && id
            == job.entry.id && title == job.entry.title && action == job.action && message@
            == error.words(cloud::quoted(error.guild()))),
        worker.stage is Linking && job.action == UploadAction::Upload ==> (
        step matches UploadStep::Report(UploadEvent::Finished { id, link, link_error, .. }) && id
            == job.entry.id && link is None && link_error is Some),
{
}

/// After each report the next job is waited for, as long as somebody listens.
pub proof fn the_worker_goes_on_while_heard(
    worker: UploadWorker,
    event: WorkerEvent,
    next: UploadWorker,
    step: UploadStep,
)
    requires
        worker.follows(event, next, step),
    ensures
        event == WorkerEvent::Reported(true) ==> step is Receive && next.stage is Waiting,
        step is Stop <==> event == WorkerEvent::Reported(false) || event is JobsClosed,
{
}

/// The last byte is always reported; before that, reports are at least a
/// quarter of a second apart.
pub proof fn progress_is_reported_in_time(
    throttle: ProgressThrottle,
    sent: u64,
    total: u64,
    now_ms: u64,
    after: ProgressThrottle,
    pass: bool,
)
    requires
        throttle.lets_through(sent, total, now_ms, after, pass),
    ensures
        sent >= total ==> pass,
        throttle.last_ms is None ==> pass,
        throttle.last_ms matches Some(last) ==> (now_ms - last >= 250 ==> pass) && (sent < total
            && now_ms - last < 250 ==> !pass),
        pass ==> after.last_ms == Some(now_ms),
        !pass ==> after.last_ms == throttle.last_ms,
{
}

// --- access ---

/// An account that does not belong to the guild, may not upload to it, or
/// whose guild has moved is refused with the guild's name; any other may go
/// on.
pub proof fn refused_accounts_are_told_why(
    check: AccessCheck,
    event: AccessEvent,
    next: AccessStage,
    step: AccessStep,
)
    requires
        check.follows(event, next, step),
    ensures
        event matches AccessEvent::Listed(Ok(affiliations)) ==> {
            let found = cloud::find_affiliation(affiliations@, check.client.guild@);
            &&& found is None <==> step == AccessStep::Finish(
                Err(CloudError::NotAffiliated(check.client.guild)),
            )
            &&& (found matches Some(membership) && !membership.write) <==> step
                == AccessStep::Finish(Err(CloudError::NoWritePermission(check.client.guild)))
            &&& (found matches Some(membership) && membership.write) <==> step is Call
        },
        event == AccessEvent::Described(Ok(true)) ==> step == AccessStep::Finish(
            Err(CloudError::Migrated(check.client.guild)),
        ),
        event == AccessEvent::Described(Ok(false)) ==> step == AccessStep::Finish(Ok(())),
{
}

/// An answer of the API is a success exactly in the two hundreds; 401 means
/// that the account was rejected, and any other is passed on with its number.
pub proof fn answers_mean_what_they_say(status: u16, body: Seq<char>, error: Option<CloudError>)
    requires
        cloud::means(status, body, error),
    ensures
        error is None <==> status / 100 == 2,
        error == Some(CloudError::Unauthorized) <==> status == 401,
        error matches Some(CloudError::Http { status: number, .. }) ==> number == status,
        error matches Some(CloudError::Http { body: said, .. }) ==> said@ == text::trim(body),
{
}

// --- the transfer ---

/// A file below the part size is asked one URL for, and any other one for each
/// part; either way with its own key and size, in its own guild.
pub proof fn the_size_decides_how_a_file_goes_up(
    client: CloudClient,
    key: Seq<char>,
    size: u64,
    stage: TransferStage,
    step: TransferStep,
)
    requires
        Transfer::begins(client, key, size, stage, step),
    ensures
        step matches TransferStep::Call(request) && {
            &&& request.method == Method::Post
            &&& request.authorization == client.auth
            &&& request.body matches Some(body) && {
                &&& uploaded::holds(body.model(), "key"@, JsonView::Text(key))
                &&& size < client.part_bytes ==> uploaded::holds(
                    body.model(),
                    "bytes"@,
                    JsonView::Int(size as int),
                )
                &&& size >= client.part_bytes ==> uploaded::holds(
                    body.model(),
                    "total"@,
                    JsonView::Int(size as int),
                ) && uploaded::holds(
                    body.model(),
                    "part"@,
                    JsonView::Int(client.part_bytes as int),
                )
            }
            &&& size < client.part_bytes ==> request.url@ == client.guild_path("/upload"@)
            &&& size >= client.part_bytes ==> request.url@ == client.guild_path(
                "/create-multipart-upload"@,
            )
        },
        stage is Signing <==> size < client.part_bytes,
        stage is SigningParts <==> size >= client.part_bytes,
{
    if let TransferStep::Call(request) = step {
        if let Some(body) = request.body {
            let fields = body.model()->Record_0;
            assert(fields[0] == ("key"@, JsonView::Text(key)));
            if size < client.part_bytes {
                assert(fields[1] == ("bytes"@, JsonView::Int(size as int)));
            } else {
                assert(fields[1] == ("total"@, JsonView::Int(size as int)));
                assert(fields[2] == ("part"@, JsonView::Int(client.part_bytes as int)));
            }
        }
    }
}

/// What belongs to a guild is asked for under the guild's own name, which
/// reads back from the address.
pub proof fn addresses_name_the_guild(client: CloudClient, suffix: Seq<char>)
    ensures
        client.guild_path(suffix) == client.api@ + "/guild/"@ + encoding::percent_text(
            vstd::utf8::encode_utf8(client.guild@),
        ) + suffix,
        client.guild_path(suffix).take(client.api@.len() as int) == client.api@,
        text::has_suffix(client.guild_path(suffix), suffix),
{
    let path = client.guild_path(suffix);
    assert(path.take(client.api@.len() as int) =~= client.api@);
    assert(path.skip(path.len() - suffix.len()) =~= suffix);
}

/// Each part is sent to its own URL, from where the part before it ended, and
/// no part is longer than the part size: together they are the file.
pub proof fn parts_are_sent_one_after_another(
    before: Transfer,
    putting: Putting,
    tag: String,
    after: Transfer,
    step: TransferStep,
    url: String,
    offset: u64,
    len: u64,
    kind: &'static str,
)
    requires
        before.wf(),
        before.stage == TransferStage::Putting(putting),
        putting.parts,
        before.follows(TransferEvent::Sent(Ok(Some(tag))), after, step),
        step == (TransferStep::Send { url, offset, len, content_type: kind }),
    ensures
        url == putting.urls@[putting.index + 1],
        offset == before.range(putting).1,
        0 < len <= before.client.part_bytes,
        offset + len <= before.size,
        putting.index + 2 == putting.urls@.len() ==> offset + len == before.size,
{
    transfer::parts_cover_the_file(before.size, before.client.part_bytes);
    let k = putting.index as int;
    assert(transfer::part_end(k, before.size, before.client.part_bytes)
        == transfer::part_start(k + 1, before.client.part_bytes));
    let next = transfer::part_end(k + 1, before.size, before.client.part_bytes);
    assert(next <= before.size);
}

/// A file that goes up in one piece is sent whole, from its beginning.
pub proof fn small_files_are_sent_whole(
    before: Transfer,
    signed: String,
    after: Transfer,
    step: TransferStep,
)
    requires
        before.stage is Signing,
        before.follows(TransferEvent::Signed(Ok(signed)), after, step),
    ensures
        step matches TransferStep::Send { url, offset, len, .. } && url == signed && offset == 0
            && len == before.size,
{
}

/// Parts are put together from the tags that came back for them, in their
/// order and without quotes.
pub proof fn parts_are_put_together_in_order(
    before: Transfer,
    putting: Putting,
    tag: String,
    after: Transfer,
    step: TransferStep,
)
    requires
        before.stage == TransferStage::Putting(putting),
        putting.parts,
        putting.index + 1 == putting.urls@.len(),
        before.follows(TransferEvent::Sent(Ok(Some(tag))), after, step),
    ensures
        step matches TransferStep::Call(request) && {
            &&& request.url@ == before.client.guild_path("/complete-multipart-upload"@)
            &&& request.body matches Some(body) && {
                &&& uploaded::holds(body.model(), "key"@, JsonView::Text(before.key@))
                &&& exists|tags: Seq<JsonView>|
                    {
                        &&& #[trigger] uploaded::holds(
                            body.model(),
                            "etags"@,
                            JsonView::List(tags),
                        )
                        &&& tags.len() == putting.etags@.len() + 1
                        &&& tags.last() == JsonView::Text(text::without_char(tag@, '"'))
                        &&& forall|i: int|
                            0 <= i < putting.etags@.len() ==> #[trigger] tags[i] == JsonView::Text(
                                putting.etags@[i]@,
                            )
                    }
            }
        },
{
    if let TransferStep::Call(request) = step {
        if let Some(body) = request.body {
            let fields = body.model()->Record_0;
            let tags = text::texts(putting.etags@).push(
                text::without_char(tag@, '"'),
            ).map_values(|t: Seq<char>| JsonView::Text(t));
            assert(fields[0] == ("key"@, JsonView::Text(before.key@)));
            assert(fields[1] == ("etags"@, JsonView::List(tags)));
            assert(uploaded::holds(body.model(), "etags"@, JsonView::List(tags)));
        }
    }
}

/// A text without a character holds none of it, and is otherwise the same.
pub proof fn stripped_texts_keep_the_rest(text: Seq<char>, c: char)
    ensures
        forall|i: int|
            0 <= i < text::without_char(text, c).len() ==> #[trigger] text::without_char(
                text,
                c,
            )[i] != c,
        !text.contains(c) ==> text::without_char(text, c) == text,
    decreases text.len(),
{
    if text.len() > 0 {
        let front = text.drop_last();
        stripped_texts_keep_the_rest(front, c);
        let kept = text::without_char(front, c);
        assert forall|i: int| 0 <= i < text::without_char(text, c).len() implies
            #[trigger] text::without_char(text, c)[i] != c by {
            if i < kept.len() {
                assert(kept[i] != c);
            }
        }
        if !text.contains(c) {
            assert(text[text.len() - 1] != c);
            if front.contains(c) {
                let i = choose|i: int| 0 <= i < front.len() && front[i] == c;
                assert(text[i] == c);
            }
            assert(front.push(text.last()) =~= text);
        }
    }
}

/// The kind of a file goes by its name.
pub proof fn files_are_sent_as_what_they_are(
    transfer: Transfer,
    putting: Putting,
    step: TransferStep,
)
    requires
        transfer.sends(putting, step),
    ensures
        step matches TransferStep::Send { content_type, .. } && {
            &&& text::has_suffix(transfer.key@, ".png"@) ==> content_type@ == "image/png"@
            &&& !text::has_suffix(transfer.key@, ".png"@) ==> content_type@ == "video/mp4"@
        },
{
}

// --- quitting ---

/// Of a batch of commands, those before the first request to quit are handled
/// and none after it.
pub proof fn commands_before_quitting_are_handled(batch: Seq<Command>)
    ensures
        0 <= lifecycle::first_shutdown(batch) <= batch.len(),
        forall|i: int|
            0 <= i < lifecycle::first_shutdown(batch) ==> !((#[trigger] batch[i]) is Shutdown),
        lifecycle::first_shutdown(batch) < batch.len() ==> batch[lifecycle::first_shutdown(
            batch,
        )] is Shutdown,
    decreases batch.len(),
{
    if batch.len() > 0 && !(batch[0] is Shutdown) {
        let rest = batch.skip(1);
        commands_before_quitting_are_handled(rest);
        assert forall|i: int| 0 <= i < lifecycle::first_shutdown(batch) implies !((
        #[trigger] batch[i]) is Shutdown) by {
            if i > 0 {
                assert(batch[i] == rest[i - 1]);
            }
        }
    }
}

} // verus!
