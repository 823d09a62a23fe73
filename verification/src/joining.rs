//! What finalizing a capture comes to: the end of the replay in front of the
//! regular recording, in this order, and stored with the lead-in it got.
use vstd::prelude::*;

use crate::domain::LibraryEntry;
use crate::media_jobs;
use crate::media_jobs::{
    Combine, CombineAction, CombineEvent, CombineStage, FfmpegOutcome, MediaJob, MediaWorker,
    WorkerStep,
};
use crate::media_work::{FinalizeAction, FinalizeEvent, FinalizeStage, FinalizeWork};
use crate::text;

verus! {

/// What FFmpeg reads of a word in a list of files: inside quotes every
/// character stands for itself, outside them a backslash takes the next one as
/// it is, and a blank ends the word.
pub open spec fn unquoted(word: Seq<char>, inside: bool) -> Seq<char>
    decreases word.len(),
{
    if word.len() == 0 || (!inside && (word[0] == ' ' || word[0] == '\t' || word[0] == '\r')) {
        seq![]
    } else if word[0] == '\'' {
        unquoted(word.skip(1), !inside)
    } else if !inside && word[0] == '\\' && word.len() > 1 {
        seq![word[1]] + unquoted(word.skip(2), inside)
    } else {
        seq![word[0]] + unquoted(word.skip(1), inside)
    }
}

/// The files that a list names, line by line.
pub open spec fn listed(list: Seq<char>) -> Seq<Seq<char>>
    decreases list.len(),
{
    let at = text::first_index(list, '\n');
    if !(0 <= at < list.len()) {
        seq![]
    } else {
        let line = list.take(at);
        (if text::has_prefix(line, seq!['f', 'i', 'l', 'e', ' ']) {
            seq![unquoted(line.skip(5), false)]
        } else {
            seq![]
        }) + listed(list.skip(at + 1))
    }
}

/// A text without a line feed.
pub open spec fn one_line(text: Seq<char>) -> bool {
    forall|i: int| 0 <= i < text.len() ==> #[trigger] text[i] != '\n'
}

spec fn escaped(path: Seq<char>) -> Seq<char> {
    text::replace_char(path, '\'', seq!['\'', '\\', '\'', '\''])
}

proof fn lemma_unquoted(path: Seq<char>, tail: Seq<char>)
    ensures
        unquoted(escaped(path) + tail, true) == path + unquoted(tail, true),
    decreases path.len(),
{
    if path.len() == 0 {
        assert(escaped(path) + tail =~= tail);
        assert(path + unquoted(tail, true) =~= unquoted(tail, true));
    } else {
        let front = path.drop_last();
        let last = path.last();
        let piece = if last == '\'' {
            seq!['\'', '\\', '\'', '\'']
        } else {
            seq![last]
        };
        let rest = piece + tail;
        assert(escaped(path) + tail =~= escaped(front) + rest);
        lemma_unquoted(front, rest);
        if last == '\'' {
            let one = rest.skip(1);
            let two = one.skip(2);
            assert(one[0] == '\\' && one[1] == '\'');
            assert(two[0] == '\'');
            assert(two.skip(1) =~= tail);
            assert(unquoted(two, false) == unquoted(tail, true));
            assert(unquoted(one, false) == seq!['\''] + unquoted(two, false));
            assert(unquoted(rest, true) == unquoted(one, false));
        } else {
            assert(rest.skip(1) =~= tail);
        }
        assert(unquoted(rest, true) == seq![last] + unquoted(tail, true));
        assert(front + (seq![last] + unquoted(tail, true)) =~= path + unquoted(tail, true));
    }
}

proof fn lemma_escaped_line(path: Seq<char>)
    requires
        one_line(path),
    ensures
        one_line(escaped(path)),
    decreases path.len(),
{
    if path.len() > 0 {
        let front = path.drop_last();
        assert forall|i: int| 0 <= i < front.len() implies #[trigger] front[i] != '\n' by {
            assert(front[i] == path[i]);
        }
        lemma_escaped_line(front);
        let all = escaped(path);
        let before = escaped(front);
        assert forall|i: int| 0 <= i < all.len() implies #[trigger] all[i] != '\n' by {
            if i < before.len() {
                assert(all[i] == before[i]);
            } else {
                assert(path[path.len() - 1] != '\n');
            }
        }
    }
}

proof fn lemma_listed_line(path: Seq<char>, rest: Seq<char>)
    requires
        one_line(path),
    ensures
        listed(seq!['f', 'i', 'l', 'e', ' ', '\''] + escaped(path) + seq!['\'', '\n'] + rest)
            == seq![path] + listed(rest),
{
    let head = seq!['f', 'i', 'l', 'e', ' '];
    let list = seq!['f', 'i', 'l', 'e', ' ', '\''] + escaped(path) + seq!['\'', '\n'] + rest;
    let at: int = escaped(path).len() as int + 7;
    lemma_escaped_line(path);
    assert forall|i: int| 0 <= i < at implies list[i] != '\n' by {
        if 6 <= i < at - 1 {
            assert(list[i] == escaped(path)[i - 6]);
        }
    }
    text::lemma_first_index(list, '\n', at);
    let line = list.take(at);
    assert(line.take(5) =~= head);
    let word = line.skip(5);
    assert(word[0] == '\'');
    assert(word.skip(1) =~= escaped(path) + seq!['\'']);
    lemma_unquoted(path, seq!['\'']);
    let end = seq!['\''];
    assert(end.skip(1) =~= Seq::<char>::empty());
    assert(unquoted(end.skip(1), false) =~= Seq::<char>::empty());
    assert(unquoted(end, true) =~= Seq::<char>::empty());
    assert(path + unquoted(end, true) =~= path);
    assert(unquoted(word, false) == path);
    assert(list.skip(at + 1) =~= rest);
    assert(text::has_prefix(line, head));
    assert(listed(list) == seq![unquoted(line.skip(5), false)] + listed(list.skip(at + 1)));
}

/// The list that is handed to FFmpeg names two files, whatever their names
/// hold: the trimmed replay first and the regular recording after it. So the
/// lead-in plays before what it leads into.
pub proof fn the_lead_in_is_joined_in_front(
    combine: Combine,
    trim: String,
    actual_ms: u64,
    list: String,
    next: Combine,
    remove: Seq<Seq<char>>,
    action: CombineAction,
)
    requires
        combine.stage == (CombineStage::MakingList { trim, actual_ms }),
        combine.follows(CombineEvent::FileMade(Ok(list)), next, remove, action),
        one_line(trim@),
        one_line(combine.regular@),
    ensures
        action matches CombineAction::WriteList { path, text } && {
            &&& path == list
            &&& listed(text@).len() == 2
            &&& listed(text@)[0] == trim@
            &&& listed(text@)[1] == combine.regular@
        },
{
    reveal_strlit("file '");
    reveal_strlit("'\nfile '");
    reveal_strlit("'\n");
    reveal_strlit("'\\''");
    let regular = combine.regular@;
    let head = seq!['f', 'i', 'l', 'e', ' ', '\''];
    let tail = seq!['\'', '\n'];
    assert("'\\''"@ =~= seq!['\'', '\\', '\'', '\'']);
    let second = head + escaped(regular) + tail + Seq::<char>::empty();
    let whole = head + escaped(trim@) + tail + second;
    assert(media_jobs::concat_list_text(trim@, regular) =~= whole);
    lemma_listed_line(regular, Seq::<char>::empty());
    lemma_listed_line(trim@, second);
    assert(listed(Seq::<char>::empty()) =~= Seq::<Seq<char>>::empty());
    assert(listed(whole) =~= seq![trim@, regular]);
}

/// An argument list gives an option this value.
pub open spec fn gives(args: Seq<Seq<char>>, option: Seq<char>, value: Seq<char>) -> bool {
    exists|i: int|
        0 <= i && i + 1 < args.len() && #[trigger] args[i] == option && args[i + 1] == value
}

/// The replay is cut from its end, by the lead-in that was asked for in whole
/// seconds, to the nearest and at least one; nothing is encoded again.
pub proof fn the_replay_is_cut_to_the_lead_in(
    combine: Combine,
    replay: String,
    trim: String,
    next: Combine,
    remove: Seq<Seq<char>>,
    action: CombineAction,
    seconds: nat,
)
    requires
        combine.stage == (CombineStage::MakingTrim { replay }),
        combine.follows(CombineEvent::FileMade(Ok(trim)), next, remove, action),
        seconds >= 1,
        1_000 * seconds <= combine.requested_replay_ms + 500 < 1_000 * seconds + 1_000 || (seconds
            == 1 && combine.requested_replay_ms < 1_500),
    ensures
        action matches CombineAction::RunFfmpeg { args } && {
            &&& gives(text::texts(args@), "-sseof"@, "-"@ + text::decimal(seconds))
            &&& gives(text::texts(args@), "-i"@, replay@)
            &&& gives(text::texts(args@), "-c:v"@, "copy"@)
            &&& gives(text::texts(args@), "-c:a"@, "copy"@)
            &&& text::texts(args@).last() == trim@
        },
        next.stage == (CombineStage::Trimming { trim }),
{
    reveal_strlit("-");
    assert("-"@ =~= seq!['-']);
    let args = text::texts(action->args@);
    assert((combine.requested_replay_ms as nat + 500) / 1_000 == seconds
        || combine.requested_replay_ms < 1_500);
    assert(args[2] == "-sseof"@ && args[3] == seq!['-'] + text::decimal(seconds));
    assert(args[4] == "-i"@ && args[5] == replay@);
    assert(args[6] == "-c:v"@ && args[7] == "copy"@);
    assert(args[8] == "-c:a"@ && args[9] == "copy"@);
}

/// The two files are joined into the working file of the recording, from the
/// list that names them; nothing is encoded again.
pub proof fn the_listed_files_are_joined(
    combine: Combine,
    trim: String,
    list: String,
    actual_ms: u64,
    next: Combine,
    remove: Seq<Seq<char>>,
    action: CombineAction,
)
    requires
        combine.stage == (CombineStage::Writing { trim, list, actual_ms }),
        combine.follows(CombineEvent::ListWritten(Ok(())), next, remove, action),
    ensures
        action matches CombineAction::RunFfmpeg { args } && {
            &&& gives(text::texts(args@), "-f"@, "concat"@)
            &&& gives(text::texts(args@), "-i"@, list@)
            &&& gives(text::texts(args@), "-c:v"@, "copy"@)
            &&& gives(text::texts(args@), "-c:a"@, "copy"@)
            &&& text::texts(args@).last() == combine.final_temp@
        },
{
    let args = text::texts(action->args@);
    assert(args[2] == "-f"@ && args[3] == "concat"@);
    assert(args[6] == "-i"@ && args[7] == list@);
    assert(args[8] == "-c:v"@ && args[9] == "copy"@);
    assert(args[10] == "-c:a"@ && args[11] == "copy"@);
}

/// The trimmed replay is what is measured, and what the measuring says is what
/// the recording is reported to have in front; where it says nothing, the
/// trimming's own account counts. Both working files are removed.
pub proof fn the_measured_lead_in_is_reported(
    trimming: Combine,
    trim: String,
    trimmed_ms: u64,
    measuring: Combine,
    measured: FfmpegOutcome,
    listing: Combine,
    list: String,
    writing: Combine,
    joining: Combine,
    joined_ms: u64,
    done: Combine,
    removes: Seq<Seq<Seq<char>>>,
    actions: Seq<CombineAction>,
)
    requires
        trimming.stage == (CombineStage::Trimming { trim }),
        trimmed_ms > 0,
        !(measured is Cancelled),
        removes.len() == 5,
        actions.len() == 5,
        trimming.follows(
            CombineEvent::Ffmpeg(FfmpegOutcome::Done { out_time_ms: trimmed_ms }),
            measuring,
            removes[0],
            actions[0],
        ),
        measuring.follows(CombineEvent::Ffmpeg(measured), listing, removes[1], actions[1]),
        listing.follows(CombineEvent::FileMade(Ok(list)), writing, removes[2], actions[2]),
        writing.follows(CombineEvent::ListWritten(Ok(())), joining, removes[3], actions[3]),
        joining.follows(
            CombineEvent::Ffmpeg(FfmpegOutcome::Done { out_time_ms: joined_ms }),
            done,
            removes[4],
            actions[4],
        ),
    ensures
        actions[0] matches CombineAction::RunFfmpeg { args } && gives(
            text::texts(args@),
            "-i"@,
            trim@,
        ),
        actions[4] == CombineAction::Finish(
            Ok(
                Some(
                    match measured {
                        FfmpegOutcome::Done { out_time_ms } if out_time_ms > 0 => out_time_ms,
                        _ => trimmed_ms,
                    },
                ),
            ),
        ),
        removes[4] == seq![trim@, list@],
        done.stage is Over,
{
    let args = text::texts(actions[0]->args@);
    assert(args[2] == "-i"@ && args[3] == trim@);
}

/// Where the replay cannot be used, the regular recording is kept alone: it
/// is copied to the recording's working file, and nothing counts as lead-in.
pub proof fn a_recording_without_replay_has_no_lead_in(
    combine: Combine,
    event: CombineEvent,
    copying: Combine,
    remove: Seq<Seq<char>>,
    action: CombineAction,
    done: Combine,
    later_remove: Seq<Seq<char>>,
    last: CombineAction,
)
    requires
        combine.follows(event, copying, remove, action),
        action is CopyRegular,
        copying.follows(CombineEvent::Copied(Ok(())), done, later_remove, last),
    ensures
        action == (CombineAction::CopyRegular { from: combine.regular, to: combine.final_temp }),
        last == CombineAction::Finish(Ok(Some(0))),
{
}

/// A missing replay, and one that cannot be trimmed to anything, mean that the
/// regular recording is kept alone; one that is there is made use of.
pub proof fn a_usable_replay_is_used(
    combine: Combine,
    event: CombineEvent,
    next: Combine,
    remove: Seq<Seq<char>>,
    action: CombineAction,
)
    requires
        combine.follows(event, next, remove, action),
    ensures
        combine.stage is Looking ==> (event == CombineEvent::ReplayThere(true) <==> action
            is MakeFile) && (event == CombineEvent::ReplayThere(false) <==> action is CopyRegular),
        combine.stage is Trimming ==> (action is CopyRegular <==> {
            ||| event matches CombineEvent::Ffmpeg(FfmpegOutcome::Failed { .. })
            ||| event == CombineEvent::Ffmpeg(FfmpegOutcome::Done { out_time_ms: 0 })
        }),
        combine.stage is Joining ==> (action is CopyRegular <==> event matches CombineEvent::Ffmpeg(
            FfmpegOutcome::Failed { .. },
        )),
{
}

/// A recording is stored from the file it was put together in, with the
/// lead-in that putting it together came to, and what was stored is what the
/// job reports.
pub proof fn what_was_put_together_is_stored(
    making: FinalizeWork,
    temp: String,
    combining: FinalizeWork,
    lead_in_ms: u64,
    measuring: FinalizeWork,
    bytes: u64,
    storing: FinalizeWork,
    entry: LibraryEntry,
    done: FinalizeWork,
    actions: Seq<FinalizeAction>,
)
    requires
        making.stage is MakingFile,
        bytes > 0,
        actions.len() == 4,
        making.follows(FinalizeEvent::FileMade(Ok(temp)), combining, actions[0]),
        combining.follows(FinalizeEvent::Combined(Ok(Some(lead_in_ms))), measuring, actions[1]),
        measuring.follows(FinalizeEvent::Measured(bytes), storing, actions[2]),
        storing.follows(FinalizeEvent::Stored(Ok(entry)), done, actions[3]),
    ensures
        actions[0] == (FinalizeAction::Combine { path: temp }),
        actions[1] == (FinalizeAction::Measure { path: temp }),
        actions[2] == (FinalizeAction::Store { path: temp, actual_replay_ms: lead_in_ms }),
        actions[3] matches FinalizeAction::Finish { remove, outcome } && remove is None && (
        outcome matches Ok(Some(stored)) && *stored == entry),
        done.stage is Over,
{
}

/// A recording that could not be made leaves no working file behind, and is
/// not reported as made.
pub proof fn failed_recordings_are_not_reported_as_made(
    work: FinalizeWork,
    event: FinalizeEvent,
    next: FinalizeWork,
    action: FinalizeAction,
)
    requires
        work.follows(event, next, action),
    ensures
        action matches FinalizeAction::Finish { outcome: Ok(Some(entry)), .. } ==> (
        event matches FinalizeEvent::Stored(Ok(stored)) && *entry == stored),
        action matches FinalizeAction::Finish { outcome: Ok(None), .. } ==> (
        event matches FinalizeEvent::Combined(Ok(None))),
        event matches FinalizeEvent::Stored(Err(_)) ==> {
            &&& work.stage matches FinalizeStage::Storing { temp } && (
            action matches FinalizeAction::Finish { remove, .. } && remove == Some(temp))
        },
        event == FinalizeEvent::Measured(0) ==> {
            &&& work.stage matches FinalizeStage::Measuring { temp, .. } && (
            action matches FinalizeAction::Finish { remove, outcome } && remove == Some(temp)
                && outcome is Err)
        },
{
}

/// Once shutdown is requested, the recordings that came with the request are
/// saved one by one in their order, and then the worker stops; before that it
/// waits for jobs.
pub proof fn pending_recordings_are_saved_before_stopping(
    worker: MediaWorker,
    pending: Seq<MediaJob>,
    now_ms: u64,
    closing: MediaWorker,
    steps: Seq<WorkerStep>,
    states: Seq<MediaWorker>,
)
    requires
        worker.closing() is None,
        worker.pending().len() == 0,
        worker.shut_down(pending, now_ms, closing),
        states.len() == pending.len() + 2,
        steps.len() == pending.len() + 1,
        states[0] == closing,
        forall|i: int, j: int|
            #![trigger states[i], states[j]]
            0 <= i < steps.len() && j == i + 1 ==> states[i].runs(states[j], steps[i]),
    ensures
        forall|i: int| 0 <= i < pending.len() ==> #[trigger] steps[i] == WorkerStep::Run(pending[i]),
        steps.last() is Stop,
{
    lemma_pending_left(pending, closing, steps, states, pending.len() as int);
    assert forall|i: int| 0 <= i < pending.len() implies #[trigger] steps[i] == WorkerStep::Run(
        pending[i],
    ) by {
        lemma_pending_left(pending, closing, steps, states, i);
        assert(states[i].runs(states[i + 1], steps[i]));
        assert(pending.skip(i)[0] == pending[i]);
    }
    let end = pending.len() as int;
    assert(states[end].runs(states[end + 1], steps[end]));
}

proof fn lemma_pending_left(
    pending: Seq<MediaJob>,
    closing: MediaWorker,
    steps: Seq<WorkerStep>,
    states: Seq<MediaWorker>,
    i: int,
)
    requires
        closing.closing() is Some,
        closing.pending() == pending,
        states.len() == pending.len() + 2,
        steps.len() == pending.len() + 1,
        states[0] == closing,
        forall|i: int, j: int|
            #![trigger states[i], states[j]]
            0 <= i < steps.len() && j == i + 1 ==> states[i].runs(states[j], steps[i]),
        0 <= i <= pending.len(),
    ensures
        states[i].closing() is Some,
        states[i].pending() == pending.skip(i),
    decreases i,
{
    if i == 0 {
        assert(pending.skip(0) =~= pending);
    } else {
        lemma_pending_left(pending, closing, steps, states, i - 1);
        assert(states[i - 1].runs(states[i], steps[i - 1]));
        assert(pending.skip(i - 1).skip(1) =~= pending.skip(i));
    }
}

} // verus!
