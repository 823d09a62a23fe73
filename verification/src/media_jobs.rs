//! Serialized media and storage jobs.
//!
//! One worker consumes `MediaJob`s in order: finalizing a finished capture, or
//! cutting a clip. What it decides stands here; spawning FFmpeg, waiting and
//! moving files is left to the caller, who reports back what happened.
use std::collections::VecDeque;
use std::sync::Arc;

use vstd::prelude::*;

use crate::activity::RecordingDraft;
use crate::calendar;
use crate::calendar::format_local_stamp;
use crate::domain::{
    copy_text, ActivityDetails, Category, CombatantSummary, LibraryEntry, MediaFacts, MeterData,
    RecordingId, TimelineItem, TimelineShape, WorkKind, WorkProgress,
};
use crate::recorder::CaptureArtifacts;
use crate::text;
use crate::text::{
    chars_of, decimal_text, find_between, parse_between, piece_start, push_decimal, push_padded,
    push_text, push_texts, replaced, same_text, text_between, trim_bounds, trimmed, trimmed_end,
};

verus! {

/// Bytes of the per-job stderr log read back for diagnostics.
pub const LOG_TAIL_BYTES: u64 = 8_192;

/// Emitting progress more often is visually indistinguishable but makes every
/// snapshot repeat work.
pub const PROGRESS_EMIT_INTERVAL_MS: u64 = 250;

#[derive(Clone, Debug, PartialEq, Eq)]
pub struct MediaConfig {
    pub ffmpeg: String,
    /// Local UTC offset for generated display names, supplied by the coordinator.
    pub utc_offset_minutes: i32,
    /// Poll interval for control and FFmpeg progress.
    pub poll_interval_ms: u64,
    /// Grace an in-flight automatic finalization gets after a shutdown request.
    pub finalize_grace_ms: u64,
    /// Grace an interrupted child is given before it is killed.
    pub sigint_grace_ms: u64,
}

impl Default for MediaConfig {
    fn default() -> (result: Self)
        ensures
            result.ffmpeg@ == "ffmpeg"@,
            result.utc_offset_minutes == 0,
            result.poll_interval_ms == 50,
            result.finalize_grace_ms == 30_000,
            result.sigint_grace_ms == 2_000,
    {
        MediaConfig {
            ffmpeg: "ffmpeg".to_owned(),
            utc_offset_minutes: 0,
            poll_interval_ms: 50,
            finalize_grace_ms: 30_000,
            sigint_grace_ms: 2_000,
        }
    }
}

/// The part of a marker that a cut from `start_ms` to `end_ms` keeps, at its
/// place in the cut. A point outside is dropped; a span is shortened to the
/// part inside, and dropped where nothing of it lies inside.
pub open spec fn clipped_item(item: TimelineItem, start_ms: u64, end_ms: u64) -> Option<
    TimelineItem,
> {
    match item.end_ms {
        None => if start_ms <= item.start_ms <= end_ms {
            Some(TimelineItem { start_ms: (item.start_ms - start_ms) as u64, ..item })
        } else {
            None
        },
        Some(end) => {
            let from = if item.start_ms > start_ms {
                item.start_ms
            } else {
                start_ms
            };
            let to = if end < end_ms {
                end
            } else {
                end_ms
            };
            if from <= to {
                Some(
                    TimelineItem {
                        start_ms: (from - start_ms) as u64,
                        end_ms: Some((to - start_ms) as u64),
                        ..item
                    },
                )
            } else {
                None
            }
        },
    }
}

/// The markers a cut keeps, in their order.
pub open spec fn clipped_items(items: Seq<TimelineItem>, start_ms: u64, end_ms: u64) -> Seq<
    TimelineItem,
>
    decreases items.len(),
{
    if items.len() == 0 {
        seq![]
    } else {
        let before = clipped_items(items.drop_last(), start_ms, end_ms);
        match clipped_item(items.last(), start_ms, end_ms) {
            Some(item) => before.push(item),
            None => before,
        }
    }
}

/// The timeline of the part of a recording from `start_ms` to `end_ms`.
pub fn clip_timeline(timeline: &Vec<TimelineItem>, start_ms: u64, end_ms: u64) -> (clipped: Vec<
    TimelineItem,
>)
    requires
        start_ms <= end_ms,
    ensures
        clipped@ == clipped_items(timeline@, start_ms, end_ms),
{
    let mut clipped: Vec<TimelineItem> = Vec::new();
    let mut i: usize = 0;
    while i < timeline.len()
        invariant
            i <= timeline@.len(),
            start_ms <= end_ms,
            clipped@ == clipped_items(timeline@.take(i as int), start_ms, end_ms),
        decreases timeline@.len() - i,
    {
        let item = &timeline[i];
        assert(timeline@.take(i + 1).drop_last() =~= timeline@.take(i as int));
        let item_start: u64 = item.start_ms;
        let item_end: u64 = match item.end_ms {
            Some(end) => end,
            None => item_start,
        };
        if item_end >= start_ms && item_start <= end_ms {
            match item.shape() {
                TimelineShape::Point => {
                    if item_start >= start_ms {
                        clipped.push(
                            TimelineItem::point(
                                item.kind,
                                item_start - start_ms,
                                copy_text(&item.label),
                                item.outcome,
                                copy_text(&item.player_reference),
                            ),
                        );
                    }
                },
                TimelineShape::Span => {
                    let from: u64 = if item_start > start_ms {
                        item_start
                    } else {
                        start_ms
                    };
                    let to: u64 = if item_end < end_ms {
                        item_end
                    } else {
                        end_ms
                    };
                    match TimelineItem::span(
                        item.kind,
                        from - start_ms,
                        to - start_ms,
                        copy_text(&item.label),
                        item.outcome,
                        copy_text(&item.player_reference),
                    ) {
                        Ok(span) => clipped.push(span),
                        Err(_) => {},
                    }
                },
            }
        }
        i = i + 1;
    }
    assert(timeline@.take(i as int) =~= timeline@);
    clipped
}

/// Every marker of a cut lies inside the cut, and spans stay in order.
pub proof fn clipped_markers_lie_inside(items: Seq<TimelineItem>, start_ms: u64, end_ms: u64)
    requires
        start_ms <= end_ms,
    ensures
        forall|i: int|
            0 <= i < clipped_items(items, start_ms, end_ms).len() ==> {
                let item = #[trigger] clipped_items(items, start_ms, end_ms)[i];
                item.wf() && item.finish() <= end_ms - start_ms
            },
    decreases items.len(),
{
    if items.len() > 0 {
        clipped_markers_lie_inside(items.drop_last(), start_ms, end_ms);
    }
}

/// Cutting out the whole recording changes no marker.
pub proof fn cutting_everything_keeps_everything(items: Seq<TimelineItem>, end_ms: u64)
    requires
        forall|i: int| 0 <= i < items.len() ==> (#[trigger] items[i]).wf() && items[i].finish() <= end_ms,
    ensures
        clipped_items(items, 0, end_ms) == items,
    decreases items.len(),
{
    if items.len() > 0 {
        let before = items.drop_last();
        assert forall|i: int| 0 <= i < before.len() implies (#[trigger] before[i]).wf()
            && before[i].finish() <= end_ms by {
            assert(before[i] == items[i]);
        }
        cutting_everything_keeps_everything(before, end_ms);
        assert(items.last().wf() && items.last().finish() <= end_ms);
        assert(clipped_item(items.last(), 0, end_ms) == Some(items.last()));
        assert(before.push(items.last()) =~= items);
    }
}

/// A cut of a cut is the cut of the whole at the moved offsets.
pub proof fn cutting_twice_is_cutting_once(
    items: Seq<TimelineItem>,
    start_ms: u64,
    end_ms: u64,
    inner_start_ms: u64,
    inner_end_ms: u64,
)
    requires
        start_ms <= end_ms,
        inner_start_ms <= inner_end_ms <= end_ms - start_ms,
    ensures
        clipped_items(clipped_items(items, start_ms, end_ms), inner_start_ms, inner_end_ms)
            == clipped_items(
            items,
            (start_ms + inner_start_ms) as u64,
            (start_ms + inner_end_ms) as u64,
        ),
    decreases items.len(),
{
    if items.len() > 0 {
        let before = items.drop_last();
        cutting_twice_is_cutting_once(before, start_ms, end_ms, inner_start_ms, inner_end_ms);
        let outer = clipped_items(before, start_ms, end_ms);
        match clipped_item(items.last(), start_ms, end_ms) {
            Some(item) => {
                assert(outer.push(item).drop_last() =~= outer);
                assert(outer.push(item).last() == item);
            },
            None => {},
        }
    }
}

/// A number of milliseconds in seconds, as a decimal fraction without
/// trailing zeros.
pub open spec fn seconds_text(milliseconds: nat) -> Seq<char> {
    text::decimal(milliseconds / 1_000) + (if milliseconds % 1_000 == 0 {
        seq![]
    } else {
        seq!['.'] + text::trim_end_char(text::padded(milliseconds % 1_000, 3), '0')
    })
}

/// Seconds without trailing zeros, so whole seconds stay readable.
pub fn format_seconds(milliseconds: u64) -> (out: String)
    ensures
        out@ == seconds_text(milliseconds as nat),
{
    let mut out = decimal_text(milliseconds / 1_000);
    let rest: u64 = milliseconds % 1_000;
    if rest > 0 {
        out.push('.');
        let mut digits = String::new();
        push_padded(&mut digits, rest, 3);
        out.append(&trimmed_end(&digits, '0'));
    }
    out
}

/// A lead-in in whole seconds, one at the least.
pub open spec fn whole_seconds(requested_replay_ms: u64) -> int {
    if requested_replay_ms < 1_500 {
        1
    } else {
        (requested_replay_ms + 500) / 1_000
    }
}

/// The lead-in to take from the end of the replay, in whole seconds: rounded
/// to the nearest, and never less than one.
pub fn wanted_seconds(requested_replay_ms: u64) -> (seconds: u64)
    ensures
        seconds == whole_seconds(requested_replay_ms),
{
    let whole: u64 = requested_replay_ms / 1_000;
    let rounded: u64 = if requested_replay_ms % 1_000 >= 500 {
        whole + 1
    } else {
        whole
    };
    if rounded < 1 {
        1
    } else {
        rounded
    }
}

/// A path as FFmpeg's concat list quotes it.
pub fn escape_concat(path: &str) -> (out: String)
    ensures
        out@ == text::replace_char(path@, '\'', "'\\''"@),
{
    replaced(path, '\'', "'\\''")
}

/// The arguments that take the final `seconds` of the replay without needing
/// its duration.
pub open spec fn trim_arguments(replay: Seq<char>, seconds: nat, output: Seq<char>) -> Seq<
    Seq<char>,
> {
    seq!["-nostdin"@, "-hide_banner"@, "-sseof"@, seq!['-'] + text::decimal(seconds), "-i"@, replay]
        + seq!["-c:v"@, "copy"@, "-c:a"@, "copy"@, "-avoid_negative_ts"@, "make_zero"@, "-y"@]
        + seq![output]
}

pub fn trim_args(replay: &str, seconds: u64, output: &str) -> (args: Vec<String>)
    ensures
        text::texts(args@) == trim_arguments(replay@, seconds as nat, output@),
{
    let mut from_end = String::new();
    from_end.push('-');
    push_decimal(&mut from_end, seconds);
    let mut args: Vec<String> = Vec::new();
    push_texts(&mut args, &["-nostdin", "-hide_banner", "-sseof", from_end.as_str(), "-i", replay]);
    push_texts(
        &mut args,
        &["-c:v", "copy", "-c:a", "copy", "-avoid_negative_ts", "make_zero", "-y"],
    );
    push_texts(&mut args, &[output]);
    assert(text::texts(args@) =~= trim_arguments(replay@, seconds as nat, output@));
    args
}

/// The arguments that remux to the null sink purely to learn a file's real
/// duration.
pub open spec fn measure_arguments(media: Seq<char>) -> Seq<Seq<char>> {
    seq!["-nostdin"@, "-hide_banner"@, "-i"@, media, "-c"@, "copy"@, "-y"@, "-f"@, "matroska"@]
        + seq!["/dev/null"@]
}

pub fn measure_args(media: &str) -> (args: Vec<String>)
    ensures
        text::texts(args@) == measure_arguments(media@),
{
    let mut args: Vec<String> = Vec::new();
    push_texts(
        &mut args,
        &["-nostdin", "-hide_banner", "-i", media, "-c", "copy", "-y", "-f", "matroska"],
    );
    push_texts(&mut args, &["/dev/null"]);
    assert(text::texts(args@) =~= measure_arguments(media@));
    args
}

/// The arguments that join the files named in `list`.
pub open spec fn concat_arguments(list: Seq<char>, output: Seq<char>) -> Seq<Seq<char>> {
    seq!["-nostdin"@, "-hide_banner"@, "-f"@, "concat"@, "-safe"@, "0"@, "-i"@, list] + seq![
        "-c:v"@,
        "copy"@,
        "-c:a"@,
        "copy"@,
        "-avoid_negative_ts"@,
        "make_zero"@,
        "-y"@,
    ] + seq![output]
}

pub fn concat_args(list: &str, output: &str) -> (args: Vec<String>)
    ensures
        text::texts(args@) == concat_arguments(list@, output@),
{
    let mut args: Vec<String> = Vec::new();
    push_texts(
        &mut args,
        &["-nostdin", "-hide_banner", "-f", "concat", "-safe", "0", "-i", list],
    );
    push_texts(
        &mut args,
        &["-c:v", "copy", "-c:a", "copy", "-avoid_negative_ts", "make_zero", "-y"],
    );
    push_texts(&mut args, &[output]);
    assert(text::texts(args@) =~= concat_arguments(list@, output@));
    args
}

/// The arguments that cut a clip: an input-side seek plus an output-side
/// duration, with a pure stream copy.
pub open spec fn clip_arguments(
    source: Seq<char>,
    start_ms: nat,
    duration_ms: nat,
    output: Seq<char>,
) -> Seq<Seq<char>> {
    seq!["-nostdin"@, "-hide_banner"@, "-ss"@, seconds_text(start_ms), "-i"@, source, "-t"@]
        + seq![seconds_text(duration_ms)] + seq![
        "-c:v"@,
        "copy"@,
        "-c:a"@,
        "copy"@,
        "-avoid_negative_ts"@,
        "make_zero"@,
        "-movflags"@,
        "+faststart"@,
        "-y"@,
    ] + seq![output]
}

pub fn clip_args(source: &str, start_ms: u64, duration_ms: u64, output: &str) -> (args: Vec<String>)
    ensures
        text::texts(args@) == clip_arguments(
            source@,
            start_ms as nat,
            duration_ms as nat,
            output@,
        ),
{
    let start = format_seconds(start_ms);
    let duration = format_seconds(duration_ms);
    let mut args: Vec<String> = Vec::new();
    push_texts(
        &mut args,
        &["-nostdin", "-hide_banner", "-ss", start.as_str(), "-i", source, "-t"],
    );
    push_texts(&mut args, &[duration.as_str()]);
    push_texts(
        &mut args,
        &[
            "-c:v",
            "copy",
            "-c:a",
            "copy",
            "-avoid_negative_ts",
            "make_zero",
            "-movflags",
            "+faststart",
            "-y",
        ],
    );
    push_texts(&mut args, &[output]);
    assert(text::texts(args@) =~= clip_arguments(
        source@,
        start_ms as nat,
        duration_ms as nat,
        output@,
    ));
    args
}

/// The output time that one line of FFmpeg's progress reports, in
/// milliseconds. Both keys have carried microseconds since 2017.
pub open spec fn line_out_time(line: Seq<char>) -> Option<nat> {
    let at = text::first_index(line, '=');
    let key = text::trim(line.take(at));
    if at < line.len() && (key == "out_time_us"@ || key == "out_time_ms"@) {
        match text::parse_number(text::trim(line.skip(at + 1))) {
            Some(micros) => Some(micros / 1_000),
            None => None,
        }
    } else {
        None
    }
}

/// The output time that the last reporting line of `lines` gives, in
/// milliseconds. Each line ends in a line feed.
pub open spec fn latest_out_time(lines: Seq<char>) -> Option<nat>
    decreases lines.len(),
{
    if lines.len() == 0 {
        None
    } else {
        let body = lines.drop_last();
        let start = text::after_last('\n', body, body.len() as int);
        match line_out_time(body.skip(start)) {
            Some(ms) => Some(ms),
            None => {
                proof {
                    text::lemma_after_last('\n', body, body.len() as int);
                }
                latest_out_time(body.take(start))
            },
        }
    }
}

/// A time in milliseconds as a number.
pub open spec fn as_nat(value: Option<u64>) -> Option<nat> {
    match value {
        Some(ms) => Some(ms as nat),
        None => None,
    }
}

fn line_out_time_between(chars: &Vec<char>, from: usize, to: usize) -> (ms: Option<u64>)
    requires
        from <= to <= chars@.len(),
    ensures
        as_nat(ms) == line_out_time(chars@.subrange(from as int, to as int)),
{
    let ghost line = chars@.subrange(from as int, to as int);
    let at: usize = find_between(chars, from, to, '=');
    if at == to {
        return None;
    }
    let (key_from, key_to) = trim_bounds(chars, from, at);
    assert(line.take(at - from) =~= chars@.subrange(from as int, at as int));
    let key = text_between(chars, key_from, key_to);
    if same_text(&key, "out_time_us") || same_text(&key, "out_time_ms") {
        let (value_from, value_to) = trim_bounds(chars, at + 1, to);
        assert(line.skip(at - from + 1) =~= chars@.subrange(at + 1, to as int));
        match parse_between(chars, value_from, value_to) {
            Some(micros) => Some(micros / 1_000),
            None => None,
        }
    } else {
        None
    }
}

/// Incremental reader of FFmpeg's progress output: it keeps the line that is
/// not complete yet, so only complete `key=value` lines are consumed.
#[derive(Clone, Debug, PartialEq, Eq)]
pub struct ProgressReader {
    partial: Vec<char>,
}

impl View for ProgressReader {
    type V = Seq<char>;

    closed spec fn view(&self) -> Seq<char> {
        self.partial@
    }
}

impl ProgressReader {
    pub fn new() -> (reader: Self)
        ensures
            reader@ == Seq::<char>::empty(),
    {
        ProgressReader { partial: Vec::new() }
    }

    /// Take in what was appended to the progress file: the latest output
    /// time of the lines that are complete now, in milliseconds. The rest
    /// stays for the next call.
    pub fn read(&mut self, appended: &str) -> (latest: Option<u64>)
        ensures
            ({
                let all = old(self)@ + appended@;
                let complete = text::after_last('\n', all, all.len() as int);
                &&& final(self)@ == all.skip(complete)
                &&& as_nat(latest) == latest_out_time(all.take(complete))
            }),
    {
        let mut chars: Vec<char> = Vec::new();
        chars.append(&mut self.partial);
        let mut added = chars_of(appended);
        chars.append(&mut added);
        let ghost all = chars@;
        assert(all =~= old(self)@ + appended@);
        assert(all.take(all.len() as int) =~= all);
        let complete: usize = piece_start('\n', &chars, chars.len());
        let mut rest: Vec<char> = Vec::new();
        let mut i: usize = complete;
        while i < chars.len()
            invariant
                complete <= i <= chars@.len(),
                rest@ == chars@.subrange(complete as int, i as int),
            decreases chars@.len() - i,
        {
            rest.push(chars[i]);
            i = i + 1;
            assert(chars@.subrange(complete as int, i as int) =~= chars@.subrange(
                complete as int,
                i - 1,
            ).push(chars@[i - 1]));
        }
        assert(rest@ =~= all.skip(complete as int));
        self.partial = rest;
        let mut end: usize = complete;
        while end > 0
            invariant
                end <= complete <= chars@.len(),
                chars@ == all,
                end > 0 ==> chars@[end - 1] == '\n',
                latest_out_time(chars@.take(end as int)) == latest_out_time(
                    chars@.take(complete as int),
                ),
                self@ == all.skip(complete as int),
                all == old(self)@ + appended@,
                complete == text::after_last('\n', all, all.len() as int),
            decreases end,
        {
            let ghost lines = chars@.take(end as int);
            assert(lines.drop_last() =~= chars@.take(end - 1));
            let start: usize = piece_start('\n', &chars, end - 1);
            assert(lines.drop_last().skip(start as int) =~= chars@.subrange(
                start as int,
                end - 1,
            ));
            assert(lines.drop_last().take(start as int) =~= chars@.take(start as int));
            match line_out_time_between(&chars, start, end - 1) {
                Some(ms) => {
                    return Some(ms);
                },
                None => {},
            }
            end = start;
        }
        None
    }
}

proof fn lemma_latest_of_both(earlier: Seq<char>, later: Seq<char>)
    requires
        earlier.len() == 0 || earlier.last() == '\n',
        later.len() == 0 || later.last() == '\n',
    ensures
        latest_out_time(earlier + later) == (match latest_out_time(later) {
            Some(ms) => Some(ms),
            None => latest_out_time(earlier),
        }),
    decreases later.len(),
{
    if later.len() == 0 {
        assert(earlier + later =~= earlier);
    } else {
        let body = later.drop_last();
        let start = text::after_last('\n', body, body.len() as int);
        text::lemma_after_last('\n', body, body.len() as int);
        text::lemma_after_last_holds('\n', body, body.len() as int);
        text::lemma_after_last_behind('\n', earlier, body, body.len() as int);
        let both = earlier + later;
        assert(both.drop_last() =~= earlier + body);
        assert((earlier + body).skip(earlier.len() + start) =~= body.skip(start));
        assert((earlier + body).take(earlier.len() + start) =~= earlier + body.take(start));
        lemma_latest_of_both(earlier, body.take(start));
    }
}

/// Progress comes out the same however the file's growth is cut up: reading
/// `first` and then `second` leaves the same rest as reading both at once,
/// and the later report wins.
pub proof fn progress_does_not_depend_on_chunks(
    partial: Seq<char>,
    first: Seq<char>,
    second: Seq<char>,
)
    ensures
        ({
            let one = partial + first;
            let cut_one = text::after_last('\n', one, one.len() as int);
            let two = one.skip(cut_one) + second;
            let cut_two = text::after_last('\n', two, two.len() as int);
            let all = partial + (first + second);
            let cut = text::after_last('\n', all, all.len() as int);
            &&& two.skip(cut_two) == all.skip(cut)
            &&& latest_out_time(all.take(cut)) == (match latest_out_time(two.take(cut_two)) {
                Some(ms) => Some(ms),
                None => latest_out_time(one.take(cut_one)),
            })
        }),
{
    let one = partial + first;
    let cut_one = text::after_last('\n', one, one.len() as int);
    text::lemma_after_last('\n', one, one.len() as int);
    text::lemma_after_last_holds('\n', one, one.len() as int);
    let two = one.skip(cut_one) + second;
    let cut_two = text::after_last('\n', two, two.len() as int);
    text::lemma_after_last('\n', two, two.len() as int);
    text::lemma_after_last_holds('\n', two, two.len() as int);
    let front = one.take(cut_one);
    let all = partial + (first + second);
    assert(all =~= front + two);
    text::lemma_after_last_behind('\n', front, two, two.len() as int);
    assert((front + two).skip(cut_one + cut_two) =~= two.skip(cut_two));
    assert((front + two).take(cut_one + cut_two) =~= front + two.take(cut_two));
    lemma_latest_of_both(front, two.take(cut_two));
}

/// What the worker is asked to do.
#[derive(Clone, Debug, PartialEq, Eq)]
pub enum MediaJob {
    FinalizeRecording {
        draft: Box<RecordingDraft>,
        artifacts: CaptureArtifacts,
        facts: MediaFacts,
    },
    CreateClip { source: Arc<LibraryEntry>, start_ms: u64, end_ms: u64 },
}

impl MediaJob {
    pub open spec fn work(self) -> WorkKind {
        match self {
            MediaJob::FinalizeRecording { .. } => WorkKind::Finalize,
            MediaJob::CreateClip { .. } => WorkKind::Clip,
        }
    }

    pub fn kind(&self) -> (kind: WorkKind)
        ensures
            kind == self.work(),
    {
        match self {
            MediaJob::FinalizeRecording { .. } => WorkKind::Finalize,
            MediaJob::CreateClip { .. } => WorkKind::Clip,
        }
    }
}

/// What the worker is told besides its jobs.
#[derive(Clone, Debug, PartialEq, Eq)]
pub enum MediaControl {
    Shutdown { pending_finalizations: Vec<MediaJob> },
}

#[derive(Clone, Debug, PartialEq, Eq)]
pub enum MediaEvent {
    Progress(WorkProgress),
    Completed { kind: WorkKind, entry: Arc<LibraryEntry> },
    /// The recording produced no library entry (discarded draft, failed job).
    Failed { kind: WorkKind, message: String },
    Cancelled { kind: WorkKind },
}

/// What the worker does next.
#[derive(Clone, Debug, PartialEq, Eq)]
pub enum WorkerStep {
    /// Wait for a job, for one poll interval.
    Receive,
    /// Look at the control channel, without waiting.
    CheckControl,
    Run(MediaJob),
    Stop,
}

/// How waiting for a job ended.
#[derive(Clone, Debug, PartialEq, Eq)]
pub enum JobPoll {
    Job(MediaJob),
    Timeout,
    Disconnected,
}

/// What the control channel held.
#[derive(Clone, Debug, PartialEq, Eq)]
pub enum ControlPoll {
    Control(MediaControl),
    Empty,
    Disconnected,
}

/// The worker's decisions: which job comes next, and when it stops. Times are
/// milliseconds of a clock that never goes back.
pub struct MediaWorker {
    config: MediaConfig,
    shutdown_at_ms: Option<u64>,
    shutdown_finalizations: VecDeque<MediaJob>,
}

impl MediaWorker {
    pub closed spec fn settings(self) -> MediaConfig {
        self.config
    }

    /// When shutdown was requested.
    pub closed spec fn closing(self) -> Option<u64> {
        self.shutdown_at_ms
    }

    /// The finalizations to make before stopping.
    pub closed spec fn pending(self) -> Seq<MediaJob> {
        self.shutdown_finalizations@
    }

    pub fn new(config: MediaConfig) -> (worker: Self)
        ensures
            worker.settings() == config,
            worker.closing() is None,
            worker.pending().len() == 0,
    {
        MediaWorker { config, shutdown_at_ms: None, shutdown_finalizations: VecDeque::new() }
    }

    pub fn shutdown_at(&self) -> (at_ms: Option<u64>)
        ensures
            at_ms == self.closing(),
    {
        self.shutdown_at_ms
    }

    pub fn config(&self) -> (config: &MediaConfig)
        ensures
            *config == self.settings(),
    {
        &self.config
    }

    /// The next step: jobs are consumed until shutdown is requested; from then
    /// on only the finalizations that came with the request are made.
    pub open spec fn runs(self, after: MediaWorker, step: WorkerStep) -> bool {
        &&& after.settings() == self.settings()
        &&& after.closing() == self.closing()
        &&& match self.closing() {
            None => step is Receive && after.pending() == self.pending(),
            Some(_) => if self.pending().len() == 0 {
                step is Stop && after.pending() == self.pending()
            } else {
                step == WorkerStep::Run(self.pending()[0]) && after.pending()
                    == self.pending().skip(1)
            },
        }
    }

    /// Jobs are consumed until shutdown is requested; from then on only the
    /// finalizations that came with the request are made, in their order.
    pub fn run(&mut self) -> (step: WorkerStep)
        ensures
            old(self).runs(*final(self), step),
    {
        match self.shutdown_at_ms {
            None => WorkerStep::Receive,
            Some(_) => match self.shutdown_finalizations.pop_front() {
                Some(job) => {
                    assert(self.pending() =~= old(self).pending().skip(1));
                    WorkerStep::Run(job)
                },
                None => WorkerStep::Stop,
            },
        }
    }

    /// What is done about what the job channel held.
    pub open spec fn turn(poll: JobPoll) -> WorkerStep {
        match poll {
            JobPoll::Job(job) => WorkerStep::Run(job),
            JobPoll::Timeout => WorkerStep::CheckControl,
            JobPoll::Disconnected => WorkerStep::Stop,
        }
    }

    /// A job is run; silence is used to look at the control channel; a closed
    /// job channel ends the worker.
    pub fn received(poll: JobPoll) -> (step: WorkerStep)
        ensures
            step == MediaWorker::turn(poll),
    {
        match poll {
            JobPoll::Job(job) => WorkerStep::Run(job),
            JobPoll::Timeout => WorkerStep::CheckControl,
            JobPoll::Disconnected => WorkerStep::Stop,
        }
    }

    /// What a request to shut down leaves behind: the first one counts.
    pub open spec fn shut_down(self, pending: Seq<MediaJob>, now_ms: u64, after: Self) -> bool {
        &&& after.settings() == self.settings()
        &&& match self.closing() {
            Some(_) => after.closing() == self.closing() && after.pending() == self.pending(),
            None => after.closing() == Some(now_ms) && after.pending() == self.pending() + pending,
        }
    }

    /// What the control channel held makes of the worker: a closed channel
    /// counts as a request to shut down.
    pub open spec fn observes(self, poll: ControlPoll, now_ms: u64, after: MediaWorker) -> bool {
        match poll {
            ControlPoll::Empty => after == self,
            ControlPoll::Disconnected => self.shut_down(seq![], now_ms, after),
            ControlPoll::Control(MediaControl::Shutdown { pending_finalizations }) => self.shut_down(
                pending_finalizations@,
                now_ms,
                after,
            ),
        }
    }

    /// A closed control channel counts as a request to shut down.
    pub fn observe_shutdown(&mut self, poll: ControlPoll, now_ms: u64)
        ensures
            old(self).observes(poll, now_ms, *final(self)),
    {
        match poll {
            ControlPoll::Empty => {},
            ControlPoll::Disconnected => {
                self.begin_shutdown(Vec::new(), now_ms);
            },
            ControlPoll::Control(MediaControl::Shutdown { pending_finalizations }) => {
                self.begin_shutdown(pending_finalizations, now_ms);
            },
        }
    }

    fn begin_shutdown(&mut self, pending: Vec<MediaJob>, now_ms: u64)
        ensures
            old(self).shut_down(pending@, now_ms, *final(self)),
    {
        if self.shutdown_at_ms.is_some() {
            return;
        }
        self.shutdown_at_ms = Some(now_ms);
        let ghost before = self.shutdown_finalizations@;
        let mut rest = pending;
        while rest.len() > 0
            invariant
                self.config == old(self).config,
                self.shutdown_at_ms == Some(now_ms),
                self.shutdown_finalizations@ + rest@ == before + pending@,
            decreases rest@.len(),
        {
            let ghost left = rest@;
            let job = rest.remove(0);
            let ghost taken = self.shutdown_finalizations@;
            self.shutdown_finalizations.push_back(job);
            assert(self.shutdown_finalizations@ + rest@ =~= taken + left);
        }
        assert(self.pending() =~= old(self).pending() + pending@);
    }
}

/// Only the first request to shut down has an effect.
pub proof fn the_first_shutdown_counts(
    worker: MediaWorker,
    first: Seq<MediaJob>,
    first_ms: u64,
    second: Seq<MediaJob>,
    second_ms: u64,
    once: MediaWorker,
    twice: MediaWorker,
)
    requires
        worker.shut_down(first, first_ms, once),
        once.shut_down(second, second_ms, twice),
    ensures
        twice.closing() == once.closing(),
        twice.pending() == once.pending(),
{
}

/// The event that tells of a job's outcome.
pub open spec fn event_of(
    kind: WorkKind,
    outcome: Result<Option<Arc<LibraryEntry>>, String>,
) -> MediaEvent {
    match outcome {
        Ok(Some(entry)) => MediaEvent::Completed { kind, entry },
        Ok(None) => MediaEvent::Cancelled { kind },
        Err(message) => MediaEvent::Failed { kind, message },
    }
}

/// How a finished job is reported.
pub fn job_event(kind: WorkKind, outcome: Result<Option<Arc<LibraryEntry>>, String>) -> (event:
    MediaEvent)
    ensures
        event == event_of(kind, outcome),
{
    match outcome {
        Ok(Some(entry)) => MediaEvent::Completed { kind, entry },
        Ok(None) => MediaEvent::Cancelled { kind },
        Err(message) => MediaEvent::Failed { kind, message },
    }
}

/// `context: error`, the form every failure of a job takes.
pub fn failure(context: &str, error: &str) -> (message: String)
    ensures
        message@ == context@ + ": "@ + error@,
{
    let mut message = context.to_owned();
    message.append(": ");
    message.append(error);
    message
}

/// How a run of FFmpeg ended.
#[derive(Clone, Debug, PartialEq, Eq)]
pub enum FfmpegOutcome {
    Done { out_time_ms: u64 },
    Failed { message: String },
    Cancelled,
}

/// Where the joining of a capture's replay and regular recording stands.
#[derive(Debug, PartialEq, Eq)]
pub enum CombineStage {
    /// It is being looked up whether the replay file is there.
    Looking { replay: String },
    MakingTrim { replay: String },
    Trimming { trim: String },
    Measuring { trim: String, trimmed_ms: u64 },
    MakingList { trim: String, actual_ms: u64 },
    Writing { trim: String, list: String, actual_ms: u64 },
    Joining { trim: String, list: String, actual_ms: u64 },
    /// Only the regular recording is kept. `cause` says which earlier failure
    /// to report if copying it fails too.
    Copying { cause: Option<String> },
    Over,
}

/// What came of the last action.
#[derive(Debug, PartialEq, Eq)]
pub enum CombineEvent {
    ReplayThere(bool),
    FileMade(Result<String, String>),
    Ffmpeg(FfmpegOutcome),
    ListWritten(Result<(), String>),
    Copied(Result<(), String>),
}

/// What to do next about the capture.
#[derive(Debug, PartialEq, Eq)]
pub enum CombineAction {
    LookFor { path: String },
    /// Create a job file with this prefix and extension.
    MakeFile { prefix: &'static str, extension: &'static str },
    RunFfmpeg { args: Vec<String> },
    WriteList { path: String, text: String },
    CopyRegular { from: String, to: String },
    /// The usable replay in milliseconds, nothing when cancelled, or the error.
    Finish(Result<Option<u64>, String>),
}

/// An action, and the files that are no longer needed before it.
pub struct CombineStep {
    pub remove: Vec<String>,
    pub action: CombineAction,
}

/// Trims the replay to the requested lead-in and puts it in front of the
/// regular recording. Any replay problem falls back to the regular recording
/// alone.
pub struct Combine {
    pub regular: String,
    pub requested_replay_ms: u64,
    pub final_temp: String,
    pub stage: CombineStage,
}

impl Combine {
    /// Start with the artifacts of a capture.
    pub fn start(artifacts: &CaptureArtifacts, final_temp: &str) -> (started: (
        Combine,
        CombineStep,
    ))
        ensures
            started.0.regular == artifacts.regular,
            started.0.requested_replay_ms == artifacts.requested_replay_ms,
            started.0.final_temp@ == final_temp@,
            started.1.remove@.len() == 0,
            match artifacts.replay {
                Some(replay) => started.0.stage == (CombineStage::Looking { replay })
                    && started.1.action == (CombineAction::LookFor { path: replay }),
                None => started.0.stage == (CombineStage::Copying { cause: None })
                    && copies_regular(started.0, started.1.action),
            },
    {
        match &artifacts.replay {
            Some(replay) => (
                Combine {
                    regular: artifacts.regular.clone(),
                    requested_replay_ms: artifacts.requested_replay_ms,
                    final_temp: final_temp.to_owned(),
                    stage: CombineStage::Looking { replay: replay.clone() },
                },
                CombineStep {
                    remove: Vec::new(),
                    action: CombineAction::LookFor { path: replay.clone() },
                },
            ),
            None => {
                let to = final_temp.to_owned();
                let copy = to.clone();
                (
                    Combine {
                        regular: artifacts.regular.clone(),
                        requested_replay_ms: artifacts.requested_replay_ms,
                        final_temp: to,
                        stage: CombineStage::Copying { cause: None },
                    },
                    CombineStep {
                        remove: Vec::new(),
                        action: CombineAction::CopyRegular {
                            from: artifacts.regular.clone(),
                            to: copy,
                        },
                    },
                )
            },
        }
    }

    /// Whether `event` answers the action of this stage.
    pub open spec fn expects(self, event: CombineEvent) -> bool {
        match self.stage {
            CombineStage::Looking { .. } => event is ReplayThere,
            CombineStage::MakingTrim { .. } | CombineStage::MakingList { .. } => event is FileMade,
            CombineStage::Trimming { .. } | CombineStage::Measuring { .. } | CombineStage::Joining {
                ..
            } => event is Ffmpeg,
            CombineStage::Writing { .. } => event is ListWritten,
            CombineStage::Copying { .. } => event is Copied,
            CombineStage::Over => false,
        }
    }

    /// What follows from `event`: the next stage, the files to remove and the
    /// next action.
    pub open spec fn follows(
        self,
        event: CombineEvent,
        next: Combine,
        remove: Seq<Seq<char>>,
        action: CombineAction,
    ) -> bool {
        let stage = next.stage;
        match (self.stage, event) {
            (CombineStage::Looking { replay }, CombineEvent::ReplayThere(there)) => {
                &&& remove.len() == 0
                &&& if there {
                    stage == (CombineStage::MakingTrim { replay }) && makes_file(
                        action,
                        "replay-trim"@,
                        "mkv"@,
                    )
                } else {
                    stage == (CombineStage::Copying { cause: None }) && copies_regular(self, action)
                }
            },
            (CombineStage::MakingTrim { replay }, CombineEvent::FileMade(Ok(trim))) => {
                &&& remove.len() == 0
                &&& stage == (CombineStage::Trimming { trim })
                &&& action matches CombineAction::RunFfmpeg { args } && text::texts(args@)
                    == trim_arguments(
                    replay@,
                    if self.requested_replay_ms < 1_500 {
                        1
                    } else {
                        (self.requested_replay_ms as nat + 500) / 1_000
                    },
                    trim@,
                )
            },
            (CombineStage::MakingTrim { .. }, CombineEvent::FileMade(Err(error))) => {
                remove.len() == 0 && stage is Over && fails(
                    action,
                    "replay trim temp"@ + ": "@ + error@,
                )
            },
            (CombineStage::Trimming { trim }, CombineEvent::Ffmpeg(outcome)) => match outcome {
                FfmpegOutcome::Done { out_time_ms } if out_time_ms > 0 => {
                    &&& remove.len() == 0
                    &&& stage == (CombineStage::Measuring { trim, trimmed_ms: out_time_ms })
                    &&& action matches CombineAction::RunFfmpeg { args } && text::texts(args@)
                        == measure_arguments(trim@)
                },
                FfmpegOutcome::Cancelled => {
                    remove == seq![trim@] && stage is Over && action == CombineAction::Finish(
                        Ok(None),
                    )
                },
                _ => {
                    remove == seq![trim@] && stage == (CombineStage::Copying { cause: None })
                        && copies_regular(self, action)
                },
            },
            (CombineStage::Measuring { trim, trimmed_ms }, CombineEvent::Ffmpeg(outcome)) =>
            match outcome {
                FfmpegOutcome::Cancelled => {
                    remove == seq![trim@] && stage is Over && action == CombineAction::Finish(
                        Ok(None),
                    )
                },
                _ => {
                    let actual_ms = match outcome {
                        FfmpegOutcome::Done { out_time_ms } if out_time_ms > 0 => out_time_ms,
                        _ => trimmed_ms,
                    };
                    &&& remove.len() == 0
                    &&& stage == (CombineStage::MakingList { trim, actual_ms })
                    &&& makes_file(action, "concat"@, "txt"@)
                },
            },
            (CombineStage::MakingList { trim, actual_ms }, CombineEvent::FileMade(Ok(list))) => {
                &&& remove.len() == 0
                &&& stage == (CombineStage::Writing { trim, list, actual_ms })
                &&& action matches CombineAction::WriteList { path, text } && path == list && text@
                    == concat_list_text(trim@, self.regular@)
            },
            (CombineStage::MakingList { .. }, CombineEvent::FileMade(Err(error))) => {
                remove.len() == 0 && stage is Over && fails(
                    action,
                    "concat list temp"@ + ": "@ + error@,
                )
            },
            (CombineStage::Writing { trim, list, actual_ms }, CombineEvent::ListWritten(Ok(_))) => {
                &&& remove.len() == 0
                &&& stage == (CombineStage::Joining { trim, list, actual_ms })
                &&& action matches CombineAction::RunFfmpeg { args } && text::texts(args@)
                    == concat_arguments(list@, self.final_temp@)
            },
            (CombineStage::Writing { trim, list, .. }, CombineEvent::ListWritten(Err(error))) => {
                &&& remove == seq![trim@, list@]
                &&& stage matches CombineStage::Copying { cause: Some(cause) } && cause@
                    == "write concat list"@ + ": "@ + error@
                &&& copies_regular(self, action)
            },
            (CombineStage::Joining { trim, list, actual_ms }, CombineEvent::Ffmpeg(outcome)) => {
                &&& remove == seq![trim@, list@]
                &&& match outcome {
                    FfmpegOutcome::Done { .. } => stage is Over && action == CombineAction::Finish(
                        Ok(Some(actual_ms)),
                    ),
                    FfmpegOutcome::Cancelled => stage is Over && action == CombineAction::Finish(
                        Ok(None),
                    ),
                    FfmpegOutcome::Failed { .. } => stage == (CombineStage::Copying { cause: None })
                        && copies_regular(self, action),
                }
            },
            (CombineStage::Copying { .. }, CombineEvent::Copied(Ok(_))) => {
                remove.len() == 0 && stage is Over && action == CombineAction::Finish(Ok(Some(0)))
            },
            (CombineStage::Copying { cause }, CombineEvent::Copied(Err(error))) => {
                remove.len() == 0 && stage is Over && fails(
                    action,
                    match cause {
                        Some(cause) => cause@,
                        None => "copy regular recording"@ + ": "@ + error@,
                    },
                )
            },
            _ => false,
        }
    }

    fn copy_action(&self) -> (action: CombineAction)
        ensures
            copies_regular(*self, action),
    {
        CombineAction::CopyRegular { from: self.regular.clone(), to: self.final_temp.clone() }
    }

    /// Take in what came of the last action and say what to do next.
    pub fn next(self, event: CombineEvent) -> (result: (Combine, CombineStep))
        requires
            self.expects(event),
        ensures
            result.0 == (Combine { stage: result.0.stage, ..self }),
            self.follows(event, result.0, text::texts(result.1.remove@), result.1.action),
    {
        let mut remove: Vec<String> = Vec::new();
        let copy = self.copy_action();
        let Combine { regular, requested_replay_ms, final_temp, stage } = self;
        let (next_stage, action) = match (stage, event) {
            (CombineStage::Looking { replay }, CombineEvent::ReplayThere(there)) => {
                if there {
                    (
                        CombineStage::MakingTrim { replay },
                        CombineAction::MakeFile { prefix: "replay-trim", extension: "mkv" },
                    )
                } else {
                    (CombineStage::Copying { cause: None }, copy)
                }
            },
            (CombineStage::MakingTrim { replay }, CombineEvent::FileMade(Ok(trim))) => {
                let seconds: u64 = wanted_seconds(requested_replay_ms);
                let args = trim_args(&replay, seconds, &trim);
                (CombineStage::Trimming { trim }, CombineAction::RunFfmpeg { args })
            },
            (CombineStage::MakingTrim { .. }, CombineEvent::FileMade(Err(error))) => {
                (
                    CombineStage::Over,
                    CombineAction::Finish(Err(failure("replay trim temp", &error))),
                )
            },
            (CombineStage::Trimming { trim }, CombineEvent::Ffmpeg(outcome)) => match outcome {
                FfmpegOutcome::Done { out_time_ms } if out_time_ms > 0 => {
                    let args = measure_args(&trim);
                    (
                        CombineStage::Measuring { trim, trimmed_ms: out_time_ms },
                        CombineAction::RunFfmpeg { args },
                    )
                },
                FfmpegOutcome::Cancelled => {
                    push_text(&mut remove, &trim);
                    assert(text::texts(remove@) =~= seq![trim@]);
                    (CombineStage::Over, CombineAction::Finish(Ok(None)))
                },
                _ => {
                    push_text(&mut remove, &trim);
                    assert(text::texts(remove@) =~= seq![trim@]);
                    (CombineStage::Copying { cause: None }, copy)
                },
            },
            (CombineStage::Measuring { trim, trimmed_ms }, CombineEvent::Ffmpeg(outcome)) =>
            match outcome {
                FfmpegOutcome::Done { out_time_ms } if out_time_ms > 0 => (
                    CombineStage::MakingList { trim, actual_ms: out_time_ms },
                    CombineAction::MakeFile { prefix: "concat", extension: "txt" },
                ),
                FfmpegOutcome::Cancelled => {
                    push_text(&mut remove, &trim);
                    assert(text::texts(remove@) =~= seq![trim@]);
                    (CombineStage::Over, CombineAction::Finish(Ok(None)))
                },
                _ => (
                    CombineStage::MakingList { trim, actual_ms: trimmed_ms },
                    CombineAction::MakeFile { prefix: "concat", extension: "txt" },
                ),
            },
            (CombineStage::MakingList { trim, actual_ms }, CombineEvent::FileMade(Ok(list))) => {
                let text = concat_list(&trim, &regular);
                let path = list.clone();
                (
                    CombineStage::Writing { trim, list, actual_ms },
                    CombineAction::WriteList { path, text },
                )
            },
            (CombineStage::MakingList { .. }, CombineEvent::FileMade(Err(error))) => {
                (
                    CombineStage::Over,
                    CombineAction::Finish(Err(failure("concat list temp", &error))),
                )
            },
            (CombineStage::Writing { trim, list, actual_ms }, CombineEvent::ListWritten(Ok(_))) => {
                let args = concat_args(&list, &final_temp);
                (
                    CombineStage::Joining { trim, list, actual_ms },
                    CombineAction::RunFfmpeg { args },
                )
            },
            (CombineStage::Writing { trim, list, .. }, CombineEvent::ListWritten(Err(error))) => {
                push_text(&mut remove, &trim);
                push_text(&mut remove, &list);
                assert(text::texts(remove@) =~= seq![trim@, list@]);
                (
                    CombineStage::Copying { cause: Some(failure("write concat list", &error)) },
                    copy,
                )
            },
            (CombineStage::Joining { trim, list, actual_ms }, CombineEvent::Ffmpeg(outcome)) => {
                push_text(&mut remove, &trim);
                push_text(&mut remove, &list);
                assert(text::texts(remove@) =~= seq![trim@, list@]);
                match outcome {
                    FfmpegOutcome::Done { .. } => (
                        CombineStage::Over,
                        CombineAction::Finish(Ok(Some(actual_ms))),
                    ),
                    FfmpegOutcome::Cancelled => (
                        CombineStage::Over,
                        CombineAction::Finish(Ok(None)),
                    ),
                    FfmpegOutcome::Failed { .. } => (CombineStage::Copying { cause: None }, copy),
                }
            },
            (CombineStage::Copying { .. }, CombineEvent::Copied(Ok(_))) => {
                (CombineStage::Over, CombineAction::Finish(Ok(Some(0))))
            },
            (CombineStage::Copying { cause }, CombineEvent::Copied(Err(error))) => {
                let message = match cause {
                    Some(cause) => cause,
                    None => failure("copy regular recording", &error),
                };
                (CombineStage::Over, CombineAction::Finish(Err(message)))
            },
            (_, _) => {
                assert(false);
                (CombineStage::Over, CombineAction::Finish(Ok(None)))
            },
        };
        let next = Combine { regular, requested_replay_ms, final_temp, stage: next_stage };
        (next, CombineStep { remove, action })
    }
}

/// The action copies the regular recording to the final file.
pub open spec fn copies_regular(combine: Combine, action: CombineAction) -> bool {
    action == (CombineAction::CopyRegular { from: combine.regular, to: combine.final_temp })
}

pub open spec fn makes_file(
    action: CombineAction,
    wanted_prefix: Seq<char>,
    wanted_extension: Seq<char>,
) -> bool {
    action matches CombineAction::MakeFile { prefix, extension } && prefix@ == wanted_prefix
        && extension@ == wanted_extension
}

pub open spec fn fails(action: CombineAction, wanted: Seq<char>) -> bool {
    action matches CombineAction::Finish(Err(message)) && message@ == wanted
}

/// The list that names the trimmed replay and then the regular recording.
pub open spec fn concat_list_text(trim: Seq<char>, regular: Seq<char>) -> Seq<char> {
    "file '"@ + text::replace_char(trim, '\'', "'\\''"@) + "'\nfile '"@ + text::replace_char(
        regular,
        '\'',
        "'\\''"@,
    ) + "'\n"@
}

fn concat_list(trim: &str, regular: &str) -> (list: String)
    ensures
        list@ == concat_list_text(trim@, regular@),
{
    let mut list = "file '".to_owned();
    list.append(&escape_concat(trim));
    list.append("'\nfile '");
    list.append(&escape_concat(regular));
    list.append("'\n");
    list
}

/// How many actions may still come at most.
pub open spec fn combine_rank(stage: CombineStage) -> int {
    match stage {
        CombineStage::Looking { .. } => 8,
        CombineStage::MakingTrim { .. } => 7,
        CombineStage::Trimming { .. } => 6,
        CombineStage::Measuring { .. } => 5,
        CombineStage::MakingList { .. } => 4,
        CombineStage::Writing { .. } => 3,
        CombineStage::Joining { .. } => 2,
        CombineStage::Copying { .. } => 1,
        CombineStage::Over => 0,
    }
}

/// Every step brings the joining of a capture closer to its end, and it is
/// over exactly when it says how it finished.
pub proof fn combining_ends(
    combine: Combine,
    event: CombineEvent,
    next: Combine,
    remove: Seq<Seq<char>>,
    action: CombineAction,
)
    requires
        combine.follows(event, next, remove, action),
    ensures
        combine_rank(next.stage) < combine_rank(combine.stage),
        next.stage is Over <==> action is Finish,
{
}

/// A failing FFmpeg never fails the job: it goes on, or falls back to the
/// regular recording alone. A cancelled one ends it without an error.
pub proof fn replay_problems_fall_back(
    combine: Combine,
    outcome: FfmpegOutcome,
    next: Combine,
    remove: Seq<Seq<char>>,
    action: CombineAction,
)
    requires
        combine.follows(CombineEvent::Ffmpeg(outcome), next, remove, action),
    ensures
        outcome is Cancelled <==> action == CombineAction::Finish(Ok(None)),
        outcome is Failed && action !is CopyRegular ==> combine.stage is Measuring
            && action is MakeFile,
        !(action matches CombineAction::Finish(Err(_))),
{
}

/// A clip must lie inside its source and not be empty.
pub open spec fn clip_in_range(source: LibraryEntry, start_ms: u64, end_ms: u64) -> bool {
    start_ms < end_ms <= source.duration_ms
}

/// A clip is made only of a range inside its source, and only of a source
/// that is there.
pub open spec fn clip_checked(
    source: LibraryEntry,
    start_ms: u64,
    end_ms: u64,
    source_there: bool,
    checked: Result<u64, String>,
) -> bool {
    &&& checked is Ok <==> clip_in_range(source, start_ms, end_ms) && source_there
    &&& checked matches Ok(duration_ms) ==> duration_ms == end_ms - start_ms
    &&& checked matches Err(message) ==> message@ == (if !clip_in_range(source, start_ms, end_ms) {
        "clip range "@ + text::decimal(start_ms as nat) + ".."@ + text::decimal(end_ms as nat)
            + " ms is outside the "@ + text::decimal(source.duration_ms as nat) + " ms source"@
    } else {
        "clip source "@ + source.media_path@ + " is missing"@
    })
}

/// The length of a clip, or why it cannot be made.
pub fn check_clip(source: &LibraryEntry, start_ms: u64, end_ms: u64, source_there: bool) -> (checked:
    Result<u64, String>)
    ensures
        clip_checked(*source, start_ms, end_ms, source_there, checked),
{
    if end_ms <= start_ms || end_ms > source.duration_ms {
        let mut message = "clip range ".to_owned();
        push_decimal(&mut message, start_ms);
        message.append("..");
        push_decimal(&mut message, end_ms);
        message.append(" ms is outside the ");
        push_decimal(&mut message, source.duration_ms);
        message.append(" ms source");
        return Err(message);
    }
    if !source_there {
        let mut message = "clip source ".to_owned();
        message.append(&source.media_path);
        message.append(" is missing");
        return Err(message);
    }
    Ok(end_ms - start_ms)
}

/// The name a clip is stored under: its source's name and when it was cut.
pub fn clip_name(source_name: &str, created_at_ms: i64, utc_offset_minutes: i32) -> (name: String)
    ensures
        name@ == source_name@ + " - Clipped at "@ + calendar::local_stamp(
            created_at_ms as int,
            utc_offset_minutes as int,
        ),
{
    let mut name = source_name.to_owned();
    name.append(" - Clipped at ");
    name.append(&format_local_stamp(created_at_ms, utc_offset_minutes));
    name
}

fn copy_combatants(combatants: &Vec<CombatantSummary>) -> (copy: Vec<CombatantSummary>)
    ensures
        copy@ == combatants@,
{
    let mut copy: Vec<CombatantSummary> = Vec::new();
    let mut i: usize = 0;
    while i < combatants.len()
        invariant
            i <= combatants@.len(),
            copy@ == combatants@.take(i as int),
        decreases combatants@.len() - i,
    {
        copy.push(combatants[i].clone());
        i = i + 1;
        assert(combatants@.take(i as int) =~= combatants@.take(i - 1).push(combatants@[i - 1]));
    }
    assert(combatants@.take(i as int) =~= combatants@);
    copy
}

/// What the library entry of a clip holds.
pub open spec fn is_clip_entry(
    entry: LibraryEntry,
    source: LibraryEntry,
    id: RecordingId,
    media_path: String,
    sidecar_path: String,
    created_at_ms: i64,
    start_ms: u64,
    end_ms: u64,
) -> bool {
    &&& entry.id == id
    &&& entry.media_path == media_path
    &&& entry.sidecar_path == sidecar_path
    &&& entry.category == Category::Clip
    &&& entry.flavor == source.flavor
    &&& entry.title == source.title
    &&& entry.start_unix_ms == created_at_ms
    &&& entry.duration_ms == end_ms - start_ms
    &&& entry.outcome == source.outcome
    &&& entry.protected
    &&& entry.tag is None
    &&& entry.activity_hash == source.activity_hash
    &&& entry.player == source.player
    &&& entry.combatants@ == source.combatants@
    &&& entry.details == (ActivityDetails::Clip {
            source_recording: source.id,
            source_category: source.category,
            source_title: Some(source.title),
        })
    &&& entry.timeline@ == clipped_items(source.timeline@, start_ms, end_ms)
    &&& entry.media == source.media
    &&& entry.meter.fights@.len() == 0
}

/// The library entry of a clip. Clips are protected so eviction cannot
/// reclaim deliberate work, and carry no meter data: pre-aggregated fights
/// cannot be re-cut to an arbitrary range.
pub fn clip_entry(
    source: &LibraryEntry,
    id: RecordingId,
    media_path: String,
    sidecar_path: String,
    created_at_ms: i64,
    start_ms: u64,
    end_ms: u64,
) -> (entry: LibraryEntry)
    requires
        start_ms <= end_ms,
    ensures
        is_clip_entry(
            entry,
            *source,
            id,
            media_path,
            sidecar_path,
            created_at_ms,
            start_ms,
            end_ms,
        ),
{
    LibraryEntry {
        id,
        media_path,
        sidecar_path,
        category: Category::Clip,
        flavor: source.flavor.duplicate(),
        title: source.title.clone(),
        start_unix_ms: created_at_ms,
        duration_ms: end_ms - start_ms,
        outcome: source.outcome,
        protected: true,
        tag: None,
        activity_hash: copy_text(&source.activity_hash),
        player: match &source.player {
            Some(player) => Some(player.clone()),
            None => None,
        },
        combatants: copy_combatants(&source.combatants),
        details: ActivityDetails::Clip {
            source_recording: source.id.duplicate(),
            source_category: source.category,
            source_title: Some(source.title.clone()),
        },
        timeline: clip_timeline(&source.timeline, start_ms, end_ms),
        media: source.media,
        meter: MeterData::default(),
    }
}

/// The whole command line of one FFmpeg run: progress goes to a file.
pub fn command_args(progress_path: &str, args: Vec<String>) -> (all: Vec<String>)
    ensures
        text::texts(all@) == seq!["-progress"@, progress_path@, "-nostats"@] + text::texts(args@),
{
    let mut all: Vec<String> = Vec::new();
    push_texts(&mut all, &["-progress", progress_path, "-nostats"]);
    let ghost head = all@;
    assert(text::texts(head) =~= seq!["-progress"@, progress_path@, "-nostats"@]);
    let mut rest = args;
    all.append(&mut rest);
    assert(text::texts(all@) =~= text::texts(head) + text::texts(args@));
    assert(text::texts(all@) =~= seq!["-progress"@, progress_path@, "-nostats"@] + text::texts(
        args@,
    ));
    all
}

/// A failed run is reported with the end of its log, where more than blanks
/// stands there.
pub open spec fn with_tail(message: Seq<char>, log_tail: Seq<char>) -> Seq<char> {
    if text::trim(log_tail).len() == 0 {
        message
    } else {
        message + ": "@ + text::trim(log_tail)
    }
}

/// A failure is reported with the end of the log, and nothing else is changed.
pub open spec fn explains(
    outcome: FfmpegOutcome,
    log_tail: Seq<char>,
    reported: FfmpegOutcome,
) -> bool {
    match outcome {
        FfmpegOutcome::Failed { message } => reported matches FfmpegOutcome::Failed { message: m }
            && m@ == with_tail(message@, log_tail),
        _ => reported == outcome,
    }
}

pub fn with_log_tail(outcome: FfmpegOutcome, log_tail: &str) -> (reported: FfmpegOutcome)
    ensures
        explains(outcome, log_tail@, reported),
{
    match outcome {
        FfmpegOutcome::Failed { message } => {
            let tail = trimmed(log_tail);
            if tail.as_str().is_empty() {
                FfmpegOutcome::Failed { message }
            } else {
                FfmpegOutcome::Failed { message: failure(&message, &tail) }
            }
        },
        other => other,
    }
}

/// Where the last bytes of a log start.
pub open spec fn tail_start(size: u64) -> int {
    if size > LOG_TAIL_BYTES {
        size - LOG_TAIL_BYTES
    } else {
        0
    }
}

/// Where reading a log of `size` bytes starts: its last bytes are enough.
pub fn log_tail_start(size: u64) -> (offset: u64)
    ensures
        offset == tail_start(size),
{
    size.saturating_sub(LOG_TAIL_BYTES)
}

/// Watches one FFmpeg child: what it has written, when progress is reported,
/// and when it has to go. Times are milliseconds of a clock that never goes
/// back.
#[derive(Clone, Copy, Debug, PartialEq, Eq)]
pub struct ChildWatch {
    pub kind: WorkKind,
    pub total_ms: Option<u64>,
    pub out_time_ms: u64,
    pub last_emit_ms: Option<u64>,
    pub interrupt_at_ms: Option<u64>,
}

impl ChildWatch {
    /// The watch over a child that starts now.
    pub open spec fn begun(
        worker: MediaWorker,
        kind: WorkKind,
        total_ms: Option<u64>,
        now_ms: u64,
    ) -> ChildWatch {
        ChildWatch {
            kind,
            total_ms,
            out_time_ms: 0,
            last_emit_ms: None,
            interrupt_at_ms: match worker.closing() {
                None => None,
                Some(at) => Some(
                    if kind == WorkKind::Finalize {
                        (at + worker.settings().finalize_grace_ms) as u64
                    } else {
                        now_ms
                    },
                ),
            },
        }
    }

    /// Watch a child that starts now. A shutdown that was requested before
    /// leaves a finalization the rest of its grace and a clip no time at all.
    pub fn start(
        worker: &MediaWorker,
        kind: WorkKind,
        total_ms: Option<u64>,
        now_ms: u64,
    ) -> (watch: Self)
        requires
            kind == WorkKind::Finalize ==> (worker.closing() matches Some(at) ==> at
                + worker.settings().finalize_grace_ms <= u64::MAX),
        ensures
            watch == ChildWatch::begun(*worker, kind, total_ms, now_ms),
    {
        let interrupt_at_ms = match worker.shutdown_at() {
            None => None,
            Some(at) => match kind {
                WorkKind::Finalize => Some(at + worker.config().finalize_grace_ms),
                WorkKind::Clip => Some(now_ms),
            },
        };
        ChildWatch { kind, total_ms, out_time_ms: 0, last_emit_ms: None, interrupt_at_ms }
    }

    /// Shutdown is requested while the child runs: a finalization gets its
    /// grace, a clip no time at all. The deadline is set once: a closed control
    /// channel must not keep pushing it into the future.
    pub open spec fn asked_to_go(self, finalize_grace_ms: u64, now_ms: u64) -> ChildWatch {
        ChildWatch {
            interrupt_at_ms: match self.interrupt_at_ms {
                Some(at) => Some(at),
                None => Some(
                    if self.kind == WorkKind::Finalize {
                        (now_ms + finalize_grace_ms) as u64
                    } else {
                        now_ms
                    },
                ),
            },
            ..self
        }
    }

    pub fn shutdown_requested(&mut self, finalize_grace_ms: u64, now_ms: u64)
        requires
            now_ms + finalize_grace_ms <= u64::MAX,
        ensures
            *final(self) == old(self).asked_to_go(finalize_grace_ms, now_ms),
    {
        if self.interrupt_at_ms.is_none() {
            self.interrupt_at_ms = match self.kind {
                WorkKind::Finalize => Some(now_ms + finalize_grace_ms),
                WorkKind::Clip => Some(now_ms),
            };
        }
    }

    /// The newest output time is taken in: progress is reported at once and
    /// then no more often than the interval.
    pub open spec fn takes_in(
        self,
        latest: Option<u64>,
        now_ms: u64,
        after: ChildWatch,
        report: Option<WorkProgress>,
    ) -> bool {
        match latest {
            None => after == self && report is None,
            Some(ms) => {
                let due = self.last_emit_ms matches Some(last) ==> now_ms - last
                    >= PROGRESS_EMIT_INTERVAL_MS;
                &&& report == (if due {
                    Some(WorkProgress { kind: self.kind, completed: ms, total: self.total_ms })
                } else {
                    None
                })
                &&& after == (ChildWatch {
                    out_time_ms: ms,
                    last_emit_ms: if due {
                        Some(now_ms)
                    } else {
                        self.last_emit_ms
                    },
                    ..self
                })
            },
        }
    }

    /// Take in the newest output time, and say what to report.
    pub fn progressed(&mut self, latest: Option<u64>, now_ms: u64) -> (report: Option<WorkProgress>)
        ensures
            old(self).takes_in(latest, now_ms, *final(self), report),
    {
        match latest {
            None => None,
            Some(ms) => {
                self.out_time_ms = ms;
                let due = match self.last_emit_ms {
                    None => true,
                    Some(last) => now_ms >= last && now_ms - last >= PROGRESS_EMIT_INTERVAL_MS,
                };
                if due {
                    self.last_emit_ms = Some(now_ms);
                    Some(WorkProgress { kind: self.kind, completed: ms, total: self.total_ms })
                } else {
                    None
                }
            },
        }
    }

    /// How the run of a child that has exited ended. A child that was asked to
    /// go and did not succeed counts as cancelled.
    pub open spec fn ends(
        self,
        success: bool,
        latest: Option<u64>,
        status: Seq<char>,
        outcome: FfmpegOutcome,
    ) -> bool {
        if success {
            outcome == (FfmpegOutcome::Done {
                out_time_ms: match latest {
                    Some(ms) => ms,
                    None => self.out_time_ms,
                },
            })
        } else if self.interrupt_at_ms is Some {
            outcome is Cancelled
        } else {
            outcome matches FfmpegOutcome::Failed { message } && message@ == "FFmpeg exited with "@
                + status
        }
    }

    /// The child has exited.
    pub fn exited(&self, success: bool, latest: Option<u64>, status: &str) -> (outcome: FfmpegOutcome)
        ensures
            self.ends(success, latest, status@, outcome),
    {
        if success {
            FfmpegOutcome::Done {
                out_time_ms: match latest {
                    Some(ms) => ms,
                    None => self.out_time_ms,
                },
            }
        } else if self.interrupt_at_ms.is_some() {
            FfmpegOutcome::Cancelled
        } else {
            let mut message = "FFmpeg exited with ".to_owned();
            message.append(status);
            FfmpegOutcome::Failed { message }
        }
    }

    /// The child could not be asked whether it is still there.
    pub fn wait_failed(error: &str) -> (outcome: FfmpegOutcome)
        ensures
            outcome matches FfmpegOutcome::Failed { message } && message@ == "spawning FFmpeg: "@
                + error@,
    {
        let mut message = "spawning FFmpeg: ".to_owned();
        message.append(error);
        FfmpegOutcome::Failed { message }
    }

    /// The child's time is up.
    pub open spec fn is_overdue(self, now_ms: u64) -> bool {
        self.interrupt_at_ms matches Some(deadline) && now_ms >= deadline
    }

    pub fn overdue(&self, now_ms: u64) -> (yes: bool)
        ensures
            yes == self.is_overdue(now_ms),
    {
        match self.interrupt_at_ms {
            Some(deadline) => now_ms >= deadline,
            None => false,
        }
    }
}

/// A shutdown ends a clip at once and a finalization only after its grace, and
/// asking again does not put the end off.
pub proof fn shutdown_spares_finalizations(
    watch: ChildWatch,
    finalize_grace_ms: u64,
    now_ms: u64,
    later_ms: u64,
)
    requires
        watch.interrupt_at_ms is None,
        now_ms <= later_ms,
        now_ms + finalize_grace_ms <= u64::MAX,
    ensures
        !watch.is_overdue(later_ms),
        watch.asked_to_go(finalize_grace_ms, now_ms).is_overdue(later_ms) == (watch.kind
            == WorkKind::Clip || later_ms >= now_ms + finalize_grace_ms),
        watch.asked_to_go(finalize_grace_ms, now_ms).asked_to_go(finalize_grace_ms, later_ms)
            == watch.asked_to_go(finalize_grace_ms, now_ms),
{
}

} // verus!
