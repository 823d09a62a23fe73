//! What cutting a clip comes to: which part of the recording it shows, what of
//! the timeline lies in it, and what it is called and kept as.
use std::sync::Arc;

use vstd::prelude::*;

use crate::domain::{ActivityDetails, Category, LibraryEntry, TimelineItem};
use crate::joining;
use crate::media_jobs;
use crate::media_jobs::FfmpegOutcome;
use crate::media_work::{ClipAction, ClipClaim, ClipEvent, ClipStage, ClipWork};
use crate::text;

verus! {

// --- the timeline ---

/// A marker shares a moment with the cut.
pub open spec fn overlaps(item: TimelineItem, start_ms: u64, end_ms: u64) -> bool {
    item.start_ms <= end_ms && start_ms <= (match item.end_ms {
        Some(end) => end,
        None => item.start_ms,
    })
}

/// `part` is what the cut shows of `item`: the same marker, from the later of
/// the two starts to the earlier of the two ends, counted from the cut's start.
pub open spec fn is_part(part: TimelineItem, item: TimelineItem, start_ms: u64, end_ms: u64) -> bool {
    &&& part.kind == item.kind
    &&& part.label == item.label
    &&& part.outcome == item.outcome
    &&& part.player_reference == item.player_reference
    &&& part.end_ms is Some <==> item.end_ms is Some
    &&& start_ms + part.start_ms >= item.start_ms
    &&& part.start_ms == 0 || start_ms + part.start_ms == item.start_ms
    &&& item.end_ms matches Some(end) ==> {
        &&& part.end_ms matches Some(cut) && start_ms + cut <= end && start_ms + cut <= end_ms && (
        start_ms + cut == end || start_ms + cut == end_ms)
    }
}

/// How many markers share a moment with the cut.
pub open spec fn overlapping(items: Seq<TimelineItem>, start_ms: u64, end_ms: u64) -> nat
    decreases items.len(),
{
    if items.len() == 0 {
        0
    } else {
        overlapping(items.drop_last(), start_ms, end_ms) + (if overlaps(
            items.last(),
            start_ms,
            end_ms,
        ) {
            1nat
        } else {
            0nat
        })
    }
}

/// The part of a marker is among `cut`.
pub open spec fn is_shown(
    item: TimelineItem,
    cut: Seq<TimelineItem>,
    start_ms: u64,
    end_ms: u64,
) -> bool {
    exists|k: int| 0 <= k < cut.len() && is_part(#[trigger] cut[k], item, start_ms, end_ms)
}

/// `part` shows one of the markers that share a moment with the cut.
pub open spec fn shows_one(
    part: TimelineItem,
    items: Seq<TimelineItem>,
    start_ms: u64,
    end_ms: u64,
) -> bool {
    exists|i: int|
        0 <= i < items.len() && overlaps(#[trigger] items[i], start_ms, end_ms) && is_part(
            part,
            items[i],
            start_ms,
            end_ms,
        )
}

/// A cut's timeline holds the part of every marker that shares a moment with
/// the cut, and of no other: as many as there are such markers.
pub proof fn clips_keep_what_lies_inside(items: Seq<TimelineItem>, start_ms: u64, end_ms: u64)
    requires
        start_ms <= end_ms,
        forall|i: int| 0 <= i < items.len() ==> (#[trigger] items[i]).wf(),
    ensures
        media_jobs::clipped_items(items, start_ms, end_ms).len() == overlapping(
            items,
            start_ms,
            end_ms,
        ),
        forall|i: int|
            0 <= i < items.len() && overlaps(#[trigger] items[i], start_ms, end_ms) ==> is_shown(
                items[i],
                media_jobs::clipped_items(items, start_ms, end_ms),
                start_ms,
                end_ms,
            ),
        forall|k: int|
            0 <= k < media_jobs::clipped_items(items, start_ms, end_ms).len() ==> shows_one(
                #[trigger] media_jobs::clipped_items(items, start_ms, end_ms)[k],
                items,
                start_ms,
                end_ms,
            ),
    decreases items.len(),
{
    let cut = media_jobs::clipped_items(items, start_ms, end_ms);
    if items.len() > 0 {
        let front = items.drop_last();
        let last = items.last();
        assert(items[items.len() - 1].wf());
        assert forall|i: int| 0 <= i < front.len() implies (#[trigger] front[i]).wf() by {
            assert(front[i] == items[i]);
        }
        clips_keep_what_lies_inside(front, start_ms, end_ms);
        let before = media_jobs::clipped_items(front, start_ms, end_ms);
        assert forall|i: int|
            0 <= i < items.len() && overlaps(#[trigger] items[i], start_ms, end_ms) implies is_shown(
            items[i],
            cut,
            start_ms,
            end_ms,
        ) by {
            if i < front.len() {
                assert(front[i] == items[i]);
                let k = choose|k: int|
                    0 <= k < before.len() && is_part(
                        #[trigger] before[k],
                        items[i],
                        start_ms,
                        end_ms,
                    );
                assert(cut[k] == before[k]);
            } else {
                assert(is_part(cut[before.len() as int], last, start_ms, end_ms));
            }
        }
        assert forall|k: int| 0 <= k < cut.len() implies shows_one(
            #[trigger] cut[k],
            items,
            start_ms,
            end_ms,
        ) by {
            if k < before.len() {
                assert(cut[k] == before[k]);
                assert(shows_one(before[k], front, start_ms, end_ms));
                let i = choose|i: int|
                    0 <= i < front.len() && overlaps(#[trigger] front[i], start_ms, end_ms)
                        && is_part(before[k], front[i], start_ms, end_ms);
                assert(items[i] == front[i]);
            } else {
                let i = items.len() - 1;
                assert(overlaps(items[i], start_ms, end_ms));
                assert(is_part(cut[k], items[i], start_ms, end_ms));
            }
        }
    }
}

/// A timeline is cut marker by marker, in order: cutting one after another is
/// cutting each, one after another.
pub proof fn timelines_are_cut_in_order(
    first: Seq<TimelineItem>,
    second: Seq<TimelineItem>,
    start_ms: u64,
    end_ms: u64,
)
    ensures
        media_jobs::clipped_items(first + second, start_ms, end_ms) == media_jobs::clipped_items(
            first,
            start_ms,
            end_ms,
        ) + media_jobs::clipped_items(second, start_ms, end_ms),
    decreases second.len(),
{
    let all = first + second;
    let cut = media_jobs::clipped_items(first, start_ms, end_ms);
    if second.len() == 0 {
        assert(all =~= first);
        assert(cut + media_jobs::clipped_items(second, start_ms, end_ms) =~= cut);
    } else {
        timelines_are_cut_in_order(first, second.drop_last(), start_ms, end_ms);
        assert(all.drop_last() =~= first + second.drop_last());
        assert(media_jobs::clipped_items(all, start_ms, end_ms) =~= cut
            + media_jobs::clipped_items(second, start_ms, end_ms));
    }
}

// --- the cut ---

/// The milliseconds that a number of seconds with a fraction stands for.
pub open spec fn read_milliseconds(seconds: Seq<char>) -> nat {
    let at = text::first_index(seconds, '.');
    let whole = text::digits_value(seconds.take(at));
    let fraction = seconds.skip(at + 1);
    1_000 * whole + (if at >= seconds.len() || fraction.len() == 0 {
        0
    } else if fraction.len() == 1 {
        100 * text::digits_value(fraction)
    } else if fraction.len() == 2 {
        10 * text::digits_value(fraction)
    } else {
        text::digits_value(fraction)
    })
}

proof fn lemma_three_digits(n: nat)
    requires
        n < 1_000,
    ensures
        text::padded(n, 3) == seq![
            text::digit(n / 100),
            text::digit((n / 10) % 10),
            text::digit(n % 10),
        ],
{
    reveal_with_fuel(text::decimal, 3);
    if n < 10 {
        assert(text::padded(n, 3) =~= seq!['0', '0', text::digit(n)]);
    } else if n < 100 {
        assert(text::padded(n, 3) =~= seq!['0', text::digit(n / 10), text::digit(n % 10)]);
    } else {
        assert((n / 10) / 10 == n / 100);
        assert(text::padded(n, 3) =~= seq![
            text::digit(n / 100),
            text::digit((n / 10) % 10),
            text::digit(n % 10),
        ]);
    }
}

proof fn lemma_fraction(n: nat)
    requires
        0 < n < 1_000,
    ensures
        ({
            let fraction = text::trim_end_char(text::padded(n, 3), '0');
            &&& 1 <= fraction.len() <= 3
            &&& n == text::digits_value(fraction) * (if fraction.len() == 1 {
                100nat
            } else if fraction.len() == 2 {
                10nat
            } else {
                1nat
            })
        }),
{
    lemma_three_digits(n);
    let a = text::digit(n / 100);
    let b = text::digit((n / 10) % 10);
    let c = text::digit(n % 10);
    let all = seq![a, b, c];
    reveal_with_fuel(text::digits_value, 4);
    let two = seq![a, b];
    let one = seq![a];
    assert(all.drop_last() =~= two);
    assert(two.drop_last() =~= one);
    assert(one.drop_last() =~= Seq::<char>::empty());
    assert(n == 100 * (n / 100) + 10 * ((n / 10) % 10) + n % 10);
    if n % 10 == 0 {
        assert(text::trim_end_char(all, '0') == text::trim_end_char(two, '0'));
        if (n / 10) % 10 == 0 {
            assert(text::trim_end_char(two, '0') == text::trim_end_char(one, '0'));
            assert(a != '0');
        }
    }
}

/// A time that is handed to FFmpeg in seconds stands for exactly the
/// milliseconds it was made from.
pub proof fn times_are_handed_over_exactly(milliseconds: nat)
    ensures
        read_milliseconds(media_jobs::seconds_text(milliseconds)) == milliseconds,
{
    let whole = text::decimal(milliseconds / 1_000);
    let rest = milliseconds % 1_000;
    let written = media_jobs::seconds_text(milliseconds);
    text::numbers_read_back(milliseconds / 1_000);
    assert forall|i: int| 0 <= i < whole.len() implies written[i] != '.' by {
        assert(written[i] == whole[i]);
        assert(text::is_digit(whole[i]));
    }
    text::lemma_first_index(written, '.', whole.len() as int);
    assert(written.take(whole.len() as int) =~= whole);
    if rest != 0 {
        let fraction = text::trim_end_char(text::padded(rest, 3), '0');
        lemma_fraction(rest);
        assert(written.skip(whole.len() as int + 1) =~= fraction);
    }
}

/// A clip can be cut exactly where its range starts before it ends and lies
/// inside a source that is there; it is then as long as the range.
pub proof fn clips_lie_inside_their_source(
    source: LibraryEntry,
    start_ms: u64,
    end_ms: u64,
    source_there: bool,
    checked: Result<u64, String>,
)
    requires
        media_jobs::clip_checked(source, start_ms, end_ms, source_there, checked),
    ensures
        checked is Ok <==> source_there && start_ms < end_ms && end_ms <= source.duration_ms,
        checked matches Ok(length) ==> start_ms + length == end_ms,
{
}

/// A clip is cut from its source at the start of the range and for the length
/// of the range, into the working file, without encoding anything again.
pub proof fn clips_are_cut_at_their_range(
    work: ClipWork,
    claim: ClipClaim,
    temp: String,
    next: ClipStage,
    action: ClipAction,
)
    requires
        work.wf(),
        work.stage == (ClipStage::MakingFile { claim }),
        work.follows(ClipEvent::FileMade(Ok(temp)), next, action),
    ensures
        action matches ClipAction::RunFfmpeg { args, total_ms } && {
            &&& exists|start: Seq<char>, length: Seq<char>|
                {
                    &&& #[trigger] joining::gives(text::texts(args@), "-ss"@, start)
                    &&& #[trigger] joining::gives(text::texts(args@), "-t"@, length)
                    &&& read_milliseconds(start) == work.start_ms
                    &&& read_milliseconds(start) + read_milliseconds(length) == work.end_ms
                }
            &&& joining::gives(text::texts(args@), "-i"@, work.source.media_path@)
            &&& joining::gives(text::texts(args@), "-c:v"@, "copy"@)
            &&& joining::gives(text::texts(args@), "-c:a"@, "copy"@)
            &&& text::texts(args@).last() == temp@
            &&& work.start_ms + total_ms == work.end_ms
        },
        next == (ClipStage::Cutting { claim, temp }),
{
    let args = text::texts(action->args@);
    let start = media_jobs::seconds_text(work.start_ms as nat);
    let length = media_jobs::seconds_text((work.end_ms - work.start_ms) as nat);
    times_are_handed_over_exactly(work.start_ms as nat);
    times_are_handed_over_exactly((work.end_ms - work.start_ms) as nat);
    assert(args[2] == "-ss"@ && args[3] == start);
    assert(args[4] == "-i"@ && args[5] == work.source.media_path@);
    assert(args[6] == "-t"@ && args[7] == length);
    assert(args[8] == "-c:v"@ && args[9] == "copy"@);
    assert(args[10] == "-c:a"@ && args[11] == "copy"@);
    assert(joining::gives(args, "-ss"@, start));
    assert(joining::gives(args, "-t"@, length));
}

/// A clip is kept in its claimed place as long as it was cut, protected from
/// clean-up, under its source's name and with a note of what it was cut from;
/// it has no tag and no meter of its own.
pub proof fn clips_are_kept_as_clips(
    work: ClipWork,
    claim: ClipClaim,
    temp: String,
    out_time_ms: u64,
    next: ClipStage,
    action: ClipAction,
)
    requires
        work.stage == (ClipStage::Cutting { claim, temp }),
        work.follows(ClipEvent::Ffmpeg(FfmpegOutcome::Done { out_time_ms }), next, action),
    ensures
        action matches ClipAction::WriteEntry { entry, temp: moved } && {
            &&& moved == temp
            &&& entry.id == claim.id
            &&& entry.media_path == claim.media_path
            &&& entry.sidecar_path == claim.sidecar_path
            &&& entry.start_unix_ms == claim.created_at_ms
            &&& work.start_ms + entry.duration_ms == work.end_ms
            &&& entry.protected
            &&& entry.tag is None
            &&& entry.meter.fights@.len() == 0
            &&& entry.category == Category::Clip
            &&& entry.title == work.source.title
            &&& entry.outcome == work.source.outcome
            &&& entry.flavor == work.source.flavor
            &&& entry.player == work.source.player
            &&& entry.combatants@ == work.source.combatants@
            &&& entry.media == work.source.media
            &&& entry.activity_hash == work.source.activity_hash
            &&& entry.details matches ActivityDetails::Clip {
                source_recording,
                source_category,
                source_title,
            } && source_recording == work.source.id && source_category == work.source.category
                && source_title == Some(work.source.title)
        },
{
}

/// The markers of a clip are those of its source that lie in its range.
pub proof fn clips_carry_their_part_of_the_timeline(
    work: ClipWork,
    claim: ClipClaim,
    temp: String,
    out_time_ms: u64,
    next: ClipStage,
    entry: Arc<LibraryEntry>,
    i: int,
)
    requires
        work.wf(),
        work.stage == (ClipStage::Cutting { claim, temp }),
        work.follows(
            ClipEvent::Ffmpeg(FfmpegOutcome::Done { out_time_ms }),
            next,
            ClipAction::WriteEntry { entry, temp },
        ),
        forall|j: int|
            0 <= j < work.source.timeline@.len() ==> (#[trigger] work.source.timeline@[j]).wf(),
        0 <= i < work.source.timeline@.len(),
    ensures
        overlaps(work.source.timeline@[i], work.start_ms, work.end_ms) ==> is_shown(
            work.source.timeline@[i],
            entry.timeline@,
            work.start_ms,
            work.end_ms,
        ),
        entry.timeline@.len() == overlapping(work.source.timeline@, work.start_ms, work.end_ms),
{
    clips_keep_what_lies_inside(work.source.timeline@, work.start_ms, work.end_ms);
}

/// A clip that was written is what the job reports; one that was not is not
/// reported as made.
pub proof fn written_clips_are_reported(
    work: ClipWork,
    event: ClipEvent,
    next: ClipStage,
    action: ClipAction,
)
    requires
        work.follows(event, next, action),
        action is Finish,
    ensures
        action matches ClipAction::Finish { outcome, .. } && match outcome {
            Ok(Some(made)) => (event matches ClipEvent::EntryWritten(Ok(_))) && (
            work.stage matches ClipStage::Writing { entry, .. } && made == entry),
            Ok(None) => event matches ClipEvent::Ffmpeg(FfmpegOutcome::Cancelled),
            Err(_) => !(event matches ClipEvent::EntryWritten(Ok(_))),
        },
        next is Over,
{
}

// --- progress ---

/// A line in which FFmpeg tells how far it is, in microseconds, is read as
/// that many milliseconds; the newest one counts.
pub proof fn reported_progress_is_read(micros: nat, earlier: Seq<char>)
    requires
        micros <= u64::MAX,
        earlier.len() == 0 || earlier.last() == '\n',
    ensures
        media_jobs::latest_out_time(
            earlier + "out_time_us="@ + text::decimal(micros) + "\n"@,
        ) == Some(micros / 1_000),
{
    reveal_strlit("out_time_us=");
    reveal_strlit("\n");
    let number = text::decimal(micros);
    text::numbers_read_back(micros);
    let line = "out_time_us="@ + number;
    let lines = earlier + "out_time_us="@ + number + "\n"@;
    let body = lines.drop_last();
    assert(body =~= earlier + line);
    assert forall|i: int| 0 <= i < line.len() implies line[i] != '\n' by {
        if i >= 12 {
            assert(line[i] == number[i - 12]);
            assert(text::is_digit(number[i - 12]));
        }
    }
    lemma_last_line(earlier, line, body.len() as int);
    assert(body.skip(earlier.len() as int) =~= line);
    text::lemma_first_index(line, '=', 11);
    assert(line.take(11) =~= "out_time_us"@) by {
        reveal_strlit("out_time_us");
    }
    let key = line.take(11);
    assert(key[0] == 'o' && key.last() == 's');
    assert(text::trim(key) == key);
    assert(line.skip(12) =~= number);
    assert(text::is_digit(number[0]));
    assert(text::is_digit(number[number.len() - 1]));
    assert(text::trim(number) == number);
    assert(text::without_plus(number) == number);
}

proof fn lemma_last_line(earlier: Seq<char>, line: Seq<char>, end: int)
    requires
        earlier.len() == 0 || earlier.last() == '\n',
        forall|i: int| 0 <= i < line.len() ==> line[i] != '\n',
        earlier.len() <= end <= earlier.len() + line.len(),
    ensures
        text::after_last('\n', earlier + line, end) == earlier.len(),
    decreases end,
{
    if end > earlier.len() {
        assert((earlier + line)[end - 1] == line[end - 1 - earlier.len()]);
        lemma_last_line(earlier, line, end - 1);
    } else if end > 0 {
        assert((earlier + line)[end - 1] == earlier.last());
    }
}

/// A clip that cannot be made says why: its range with the length of the
/// source, or the file that is missing.
pub proof fn refused_clips_say_why(
    source: LibraryEntry,
    start_ms: u64,
    end_ms: u64,
    source_there: bool,
    checked: Result<u64, String>,
)
    requires
        media_jobs::clip_checked(source, start_ms, end_ms, source_there, checked),
    ensures
        start_ms >= end_ms || end_ms > source.duration_ms ==> (checked matches Err(message)
            && message@ == "clip range "@ + text::decimal(start_ms as nat) + ".."@ + text::decimal(
            end_ms as nat,
        ) + " ms is outside the "@ + text::decimal(source.duration_ms as nat) + " ms source"@),
        start_ms < end_ms <= source.duration_ms && !source_there ==> (checked matches Err(message)
            && message@ == "clip source "@ + source.media_path@ + " is missing"@),
{
}

} // verus!
