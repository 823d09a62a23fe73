//! Media jobs: FFmpeg's arguments and progress, clips, and the order of work.
use std::sync::Arc;

use warcraft_recorder::calendar::{civil_from_days, format_local_stamp, year_of};
use warcraft_recorder::child_watch::{ChildRun, WatchAction, WatchEvent, WatchStage};
use warcraft_recorder::domain::{
    ActivityDetails, Category, GameFlavor, LibraryEntry, MediaFacts, MeterData, Outcome,
    RecordingId, TimelineItem, TimelineKind, WorkKind, WorkProgress,
};
use warcraft_recorder::ffmpeg_run::{FfmpegRun, RunAction, RunEvent};
use warcraft_recorder::media_jobs::{
    check_clip, clip_args, clip_entry, clip_name, clip_timeline,
    command_args, concat_args, escape_concat, failure, format_seconds, job_event, log_tail_start,
    measure_args, trim_args, wanted_seconds, with_log_tail, ChildWatch, Combine, CombineAction,
    CombineEvent, CombineStep, ControlPoll, FfmpegOutcome, JobPoll, MediaConfig,
    MediaControl, MediaEvent, MediaJob, MediaWorker, ProgressReader, WorkerStep,
};
use warcraft_recorder::media_work::{
    ClipAction, ClipClaim, ClipEvent, ClipWork, FinalizeAction, FinalizeEvent, FinalizeWork,
};
use warcraft_recorder::names::{fresh_probe_name, job_file_name, probe_name, unique_name};
use warcraft_recorder::recorder::CaptureArtifacts;

#[test]
fn local_stamps_and_clip_ranges_are_deterministic() {
    assert_eq!(
        format_local_stamp(1_772_323_200_000, 0),
        "2026-03-01 00-00-00"
    );
    assert_eq!(
        format_local_stamp(1_772_323_200_000, 120),
        "2026-03-01 02-00-00"
    );
    assert_eq!(format_local_stamp(0, -60), "1969-12-31 23-00-00");
    assert_eq!(format_seconds(1_500), "1.5");
    assert_eq!(format_seconds(30_000), "30");
}

#[test]
fn days_and_dates_answer_each_other() {
    assert_eq!(civil_from_days(0), (1970, 1, 1));
    assert_eq!(civil_from_days(-1), (1969, 12, 31));
    assert_eq!(civil_from_days(11_016), (2000, 2, 29));
    assert_eq!(year_of(1_790_276_105_689), 2026);
    assert_eq!(year_of(-5), 1970);
}

#[test]
fn fractions_of_seconds_are_written_without_trailing_zeros() {
    assert_eq!(format_seconds(0), "0");
    assert_eq!(format_seconds(1), "0.001");
    assert_eq!(format_seconds(1_050), "1.05");
    assert_eq!(wanted_seconds(0), 1);
    assert_eq!(wanted_seconds(1_499), 1);
    assert_eq!(wanted_seconds(1_500), 2);
    assert_eq!(wanted_seconds(18_000), 18);
}

fn entry() -> LibraryEntry {
    LibraryEntry {
        id: RecordingId::from_media_name("Raid POV"),
        media_path: "/library/Raid POV.mp4".to_owned(),
        sidecar_path: "/library/Raid POV.json".to_owned(),
        category: Category::Raids,
        flavor: GameFlavor::Retail,
        title: "Raid POV".to_owned(),
        start_unix_ms: 1_000_000,
        duration_ms: 60_000,
        outcome: Outcome::Win,
        protected: true,
        tag: Some("keep".to_owned()),
        activity_hash: Some("hash".to_owned()),
        player: None,
        combatants: Vec::new(),
        details: ActivityDetails::Manual,
        timeline: vec![
            TimelineItem::span(TimelineKind::Encounter, 5_000, 20_000, None, None, None).unwrap(),
            TimelineItem::point(TimelineKind::Death, 12_000, None, None, None),
            TimelineItem::point(TimelineKind::Death, 50_000, None, None, None),
        ],
        media: MediaFacts {
            fps: Some(60),
            width: None,
            height: None,
            codec: None,
            has_content: true,
        },
        meter: MeterData::default(),
    }
}

#[test]
fn clipped_markers_lie_inside_the_clip() {
    let clipped = clip_timeline(&entry().timeline, 10_000, 35_000);
    assert_eq!(clipped.len(), 2);
    assert_eq!(clipped[0].start_ms(), 0);
    assert_eq!(clipped[0].end_ms(), Some(10_000));
    assert_eq!(clipped[1].start_ms(), 2_000);
    assert_eq!(clipped[1].end_ms(), None);
}

#[test]
fn cutting_everything_or_twice_changes_nothing_more() {
    let timeline = entry().timeline;
    assert_eq!(clip_timeline(&timeline, 0, 60_000), timeline);
    let once = clip_timeline(&timeline, 15_000, 30_000);
    let twice = clip_timeline(&clip_timeline(&timeline, 10_000, 40_000), 5_000, 20_000);
    assert_eq!(once, twice);
}

#[test]
fn a_clip_carries_its_source_and_its_own_length() {
    let source = entry();
    assert_eq!(check_clip(&source, 10_000, 35_000, true), Ok(25_000));
    let clip = clip_entry(
        &source,
        RecordingId::from_media_name("clip"),
        "/library/clip.mp4".to_owned(),
        "/library/clip.json".to_owned(),
        2_000_000,
        10_000,
        35_000,
    );
    assert_eq!(clip.category, Category::Clip);
    assert_eq!(clip.duration_ms, 25_000);
    assert_eq!(clip.timeline.len(), 2);
    match clip.details {
        ActivityDetails::Clip {
            source_recording,
            source_category,
            source_title,
        } => {
            assert_eq!(source_recording.as_str(), "Raid POV");
            assert_eq!(source_category, Category::Raids);
            assert_eq!(source_title.as_deref(), Some("Raid POV"));
        }
        other => panic!("not a clip: {other:?}"),
    }
    assert_eq!(
        clip_name("Raid POV", 0, 0),
        "Raid POV - Clipped at 1970-01-01 00-00-00"
    );
}

#[test]
fn clips_outside_their_source_or_without_it_are_refused() {
    let source = entry();
    assert_eq!(
        check_clip(&source, 10_000, 60_001, true),
        Err("clip range 10000..60001 ms is outside the 60000 ms source".to_owned())
    );
    assert!(check_clip(&source, 10_000, 10_000, true).is_err());
    assert_eq!(
        check_clip(&source, 0, 1, false),
        Err("clip source /library/Raid POV.mp4 is missing".to_owned())
    );
}

#[test]
fn arguments_name_their_files_and_times() {
    let trim = trim_args("/b/replay.mp4", 18, "/b/trim.mp4");
    assert!(trim.windows(2).any(|pair| pair == ["-sseof", "-18"]));
    assert_eq!(trim.last().map(String::as_str), Some("/b/trim.mp4"));
    let clip = clip_args("/l/a.mp4", 10_000, 25_500, "/l/clip.mp4");
    assert!(clip.windows(2).any(|pair| pair == ["-ss", "10"]));
    assert!(clip.windows(2).any(|pair| pair == ["-t", "25.5"]));
    let concat = concat_args("/b/list.txt", "/b/out.mp4");
    assert!(concat.windows(2).any(|pair| pair == ["-i", "/b/list.txt"]));
    assert!(measure_args("/b/trim.mp4").contains(&"/b/trim.mp4".to_owned()));
    let all = command_args("/b/progress", vec!["-i".to_owned(), "x".to_owned()]);
    assert!(all.contains(&"-progress".to_owned()));
    assert!(all.contains(&"-nostats".to_owned()));
    assert_eq!(escape_concat("/it's"), "/it'\\''s");
}

#[test]
fn progress_does_not_depend_on_how_it_was_split() {
    let report = "frame=1\nout_time_us=1500000\nprogress=continue\nout_time_us=2500000\n";
    let mut whole = ProgressReader::new();
    assert_eq!(whole.read(report), Some(2_500));
    for split in 0..report.len() {
        let mut reader = ProgressReader::new();
        let first = reader.read(&report[..split]);
        let second = reader.read(&report[split..]);
        assert_eq!(second.or(first), Some(2_500));
    }
    let mut partial = ProgressReader::new();
    assert_eq!(partial.read("out_time_us=9000000"), None);
    assert_eq!(partial.read("\n"), Some(9_000));
}

fn artifacts(replay: Option<&str>) -> CaptureArtifacts {
    CaptureArtifacts {
        replay: replay.map(str::to_owned),
        regular: "/b/regular.mp4".to_owned(),
        requested_replay_ms: 18_000,
        regular_started_at_ms: 0,
        regular_stopped_at_ms: 55_000,
    }
}

fn args_of(step: &CombineStep) -> &Vec<String> {
    match &step.action {
        CombineAction::RunFfmpeg { args } => args,
        other => panic!("expected FFmpeg: {other:?}"),
    }
}

#[test]
fn finalization_trims_measures_and_joins_the_replay() {
    let (combine, step) = Combine::start(&artifacts(Some("/b/replay.mp4")), "/b/final.mp4");
    assert_eq!(
        step.action,
        CombineAction::LookFor {
            path: "/b/replay.mp4".to_owned()
        }
    );
    let (combine, step) = combine.next(CombineEvent::ReplayThere(true));
    assert!(matches!(step.action, CombineAction::MakeFile { .. }));
    let (combine, step) = combine.next(CombineEvent::FileMade(Ok("/b/trim.mp4".to_owned())));
    assert!(args_of(&step).contains(&"/b/replay.mp4".to_owned()));
    let (combine, step) = combine.next(CombineEvent::Ffmpeg(FfmpegOutcome::Done {
        out_time_ms: 18_000,
    }));
    assert!(args_of(&step).contains(&"/b/trim.mp4".to_owned()));
    let (combine, step) = combine.next(CombineEvent::Ffmpeg(FfmpegOutcome::Done {
        out_time_ms: 17_900,
    }));
    assert!(matches!(step.action, CombineAction::MakeFile { .. }));
    let (combine, step) = combine.next(CombineEvent::FileMade(Ok("/b/list.txt".to_owned())));
    match &step.action {
        CombineAction::WriteList { path, text } => {
            assert_eq!(path, "/b/list.txt");
            assert!(text.contains("file '/b/trim.mp4'"));
            assert!(text.contains("file '/b/regular.mp4'"));
        }
        other => panic!("expected the list: {other:?}"),
    }
    let (combine, step) = combine.next(CombineEvent::ListWritten(Ok(())));
    assert!(args_of(&step).contains(&"/b/final.mp4".to_owned()));
    let (_, step) = combine.next(CombineEvent::Ffmpeg(FfmpegOutcome::Done {
        out_time_ms: 72_900,
    }));
    assert!(matches!(step.action, CombineAction::Finish(Ok(Some(_)))));
    assert!(step.remove.contains(&"/b/trim.mp4".to_owned()));
    assert!(step.remove.contains(&"/b/list.txt".to_owned()));
}

#[test]
fn a_failed_trim_falls_back_to_the_regular_recording() {
    let (combine, _) = Combine::start(&artifacts(Some("/b/replay.mp4")), "/b/final.mp4");
    let (combine, _) = combine.next(CombineEvent::ReplayThere(true));
    let (combine, _) = combine.next(CombineEvent::FileMade(Ok("/b/trim.mp4".to_owned())));
    let (combine, step) = combine.next(CombineEvent::Ffmpeg(FfmpegOutcome::Failed {
        message: "boom".to_owned(),
    }));
    assert_eq!(
        step.action,
        CombineAction::CopyRegular {
            from: "/b/regular.mp4".to_owned(),
            to: "/b/final.mp4".to_owned()
        }
    );
    let (_, step) = combine.next(CombineEvent::Copied(Ok(())));
    assert_eq!(step.action, CombineAction::Finish(Ok(Some(0))));
}

#[test]
fn a_capture_without_replay_is_copied() {
    let (combine, step) = Combine::start(&artifacts(None), "/b/final.mp4");
    assert!(matches!(step.action, CombineAction::CopyRegular { .. }));
    let (_, step) = combine.next(CombineEvent::Copied(Err("disk full".to_owned())));
    assert!(matches!(step.action, CombineAction::Finish(Err(_))));
}

/// A finalization whose media was put together like this.
fn combined(outcome: Result<Option<u64>, String>) -> (FinalizeWork, FinalizeAction) {
    let (work, action) = FinalizeWork::start();
    assert!(matches!(
        action,
        FinalizeAction::MakeFile {
            prefix: "final",
            extension: "mp4"
        }
    ));
    let (work, action) = work.next(FinalizeEvent::FileMade(Ok("/b/final.mp4".to_owned())));
    assert!(matches!(action, FinalizeAction::Combine { ref path } if path == "/b/final.mp4"));
    work.next(FinalizeEvent::Combined(outcome))
}

#[test]
fn a_finished_recording_is_measured_and_stored() {
    let (work, action) = combined(Ok(Some(18_000)));
    assert!(matches!(action, FinalizeAction::Measure { .. }));
    let (work, action) = work.next(FinalizeEvent::Measured(10));
    assert!(matches!(
        action,
        FinalizeAction::Store {
            actual_replay_ms: 18_000,
            ..
        }
    ));
    let (_, action) = work.next(FinalizeEvent::Stored(Ok(entry())));
    match action {
        FinalizeAction::Finish {
            remove: None,
            outcome: Ok(Some(stored)),
        } => assert_eq!(stored.title, "Raid POV"),
        _ => panic!("the recording was not stored"),
    }
}

#[test]
fn an_empty_or_cancelled_result_is_not_stored() {
    let (work, _) = combined(Ok(Some(18_000)));
    let (_, action) = work.next(FinalizeEvent::Measured(0));
    match action {
        FinalizeAction::Finish {
            remove: Some(remove),
            outcome: Err(_),
        } => assert_eq!(remove, "/b/final.mp4"),
        _ => panic!("empty media was kept"),
    }
    let (_, action) = combined(Ok(None));
    assert!(matches!(
        action,
        FinalizeAction::Finish {
            remove: Some(_),
            outcome: Ok(None)
        }
    ));
    let (_, action) = combined(Err("e".to_owned()));
    assert!(matches!(
        action,
        FinalizeAction::Finish {
            outcome: Err(_),
            ..
        }
    ));
    let (work, _) = FinalizeWork::start();
    let (_, action) = work.next(FinalizeEvent::FileMade(Err("denied".to_owned())));
    match action {
        FinalizeAction::Finish {
            remove: None,
            outcome: Err(message),
        } => assert!(message.ends_with(": denied")),
        _ => panic!("no file was made"),
    }
}

/// A clip that FFmpeg is cutting.
fn cutting() -> ClipWork {
    let (work, action) = ClipWork::start(Arc::new(entry()), 10_000, 35_000);
    assert!(
        matches!(action, ClipAction::LookFor { ref path } if path == "/library/Raid POV.mp4")
    );
    let (work, action) = work.next(ClipEvent::SourceThere(true));
    assert!(matches!(action, ClipAction::Claim));
    let (work, action) = work.next(ClipEvent::Claimed(Ok(ClipClaim {
        id: RecordingId::from_media_name("Clip"),
        created_at_ms: 5,
        media_path: "/library/Clip.mp4".to_owned(),
        sidecar_path: "/library/Clip.json".to_owned(),
    })));
    assert!(matches!(
        action,
        ClipAction::MakeFile {
            prefix: "clip",
            extension: "mp4"
        }
    ));
    let (work, action) = work.next(ClipEvent::FileMade(Ok("/b/clip.mp4".to_owned())));
    match action {
        ClipAction::RunFfmpeg { args, total_ms } => {
            assert_eq!(total_ms, 25_000);
            assert_eq!(
                args,
                clip_args("/library/Raid POV.mp4", 10_000, 25_000, "/b/clip.mp4")
            );
        }
        _ => panic!("nothing is cut"),
    }
    work
}

#[test]
fn a_clip_is_cut_and_written() {
    let (work, action) = cutting().next(ClipEvent::Ffmpeg(FfmpegOutcome::Done {
        out_time_ms: 25_000,
    }));
    match action {
        ClipAction::WriteEntry { entry, temp } => {
            assert_eq!(temp, "/b/clip.mp4");
            assert_eq!(entry.media_path, "/library/Clip.mp4");
            assert_eq!(entry.category, Category::Clip);
        }
        _ => panic!("nothing is written"),
    }
    let (_, action) = work.next(ClipEvent::EntryWritten(Ok(())));
    match action {
        ClipAction::Finish {
            remove,
            outcome: Ok(Some(_)),
        } => assert!(remove.is_empty()),
        _ => panic!("the clip was not finished"),
    }
}

#[test]
fn an_abandoned_clip_leaves_nothing() {
    let (_, action) = cutting().next(ClipEvent::Ffmpeg(FfmpegOutcome::Cancelled));
    match action {
        ClipAction::Finish {
            remove,
            outcome: Ok(None),
        } => assert_eq!(remove, ["/b/clip.mp4", "/library/Clip.mp4"]),
        _ => panic!("the clip was not cancelled"),
    }
    let (_, action) = cutting().next(ClipEvent::Ffmpeg(FfmpegOutcome::Failed {
        message: "m".to_owned(),
    }));
    match action {
        ClipAction::Finish {
            remove,
            outcome: Err(message),
        } => {
            assert_eq!(remove, ["/b/clip.mp4", "/library/Clip.mp4"]);
            assert_eq!(message, "m");
        }
        _ => panic!("the clip did not fail"),
    }
    let (work, _) = ClipWork::start(Arc::new(entry()), 10_000, 35_000);
    let (_, action) = work.next(ClipEvent::SourceThere(false));
    assert!(matches!(
        action,
        ClipAction::Finish {
            outcome: Err(_),
            ..
        }
    ));
}

fn config() -> MediaConfig {
    MediaConfig {
        ffmpeg: "ffmpeg".to_owned(),
        utc_offset_minutes: 0,
        poll_interval_ms: 25,
        finalize_grace_ms: 500,
        sigint_grace_ms: 200,
    }
}

fn clip_job() -> MediaJob {
    MediaJob::CreateClip {
        source: Arc::new(entry()),
        start_ms: 0,
        end_ms: 30_000,
    }
}

#[test]
fn a_worker_takes_jobs_until_it_is_shut_down() {
    let mut worker = MediaWorker::new(config());
    assert!(matches!(worker.run(), WorkerStep::Receive));
    assert!(matches!(
        MediaWorker::received(JobPoll::Job(clip_job())),
        WorkerStep::Run(_)
    ));
    assert_eq!(clip_job().kind(), WorkKind::Clip);
    worker.observe_shutdown(ControlPoll::Empty, 1_000);
    assert_eq!(worker.shutdown_at(), None);
    worker.observe_shutdown(
        ControlPoll::Control(MediaControl::Shutdown {
            pending_finalizations: Vec::new(),
        }),
        2_000,
    );
    assert_eq!(worker.shutdown_at(), Some(2_000));
    worker.observe_shutdown(ControlPoll::Disconnected, 3_000);
    assert_eq!(worker.shutdown_at(), Some(2_000));
    assert!(matches!(worker.run(), WorkerStep::Stop));
}

#[test]
fn a_shutdown_gives_a_finalization_time_and_a_clip_none() {
    let worker = MediaWorker::new(config());
    let mut clip = ChildWatch::start(&worker, WorkKind::Clip, Some(30_000), 0);
    assert!(!clip.overdue(10_000));
    clip.shutdown_requested(500, 1_000);
    assert!(clip.overdue(1_000));
    let mut finalize = ChildWatch::start(&worker, WorkKind::Finalize, None, 0);
    finalize.shutdown_requested(500, 1_000);
    assert!(!finalize.overdue(1_400));
    assert!(finalize.overdue(1_500));
}

#[test]
fn progress_is_reported_at_a_bounded_rate() {
    let worker = MediaWorker::new(config());
    let mut watch = ChildWatch::start(&worker, WorkKind::Clip, Some(30_000), 0);
    assert_eq!(
        watch.progressed(Some(1_000), 10),
        Some(WorkProgress {
            kind: WorkKind::Clip,
            completed: 1_000,
            total: Some(30_000)
        })
    );
    assert_eq!(watch.progressed(Some(2_000), 100), None);
    assert_eq!(watch.progressed(None, 300), None);
    assert!(watch.progressed(Some(3_000), 300).is_some());
    assert_eq!(
        watch.exited(true, Some(4_000), "exit 0"),
        FfmpegOutcome::Done { out_time_ms: 4_000 }
    );
    assert!(matches!(
        watch.exited(false, None, "exit 1"),
        FfmpegOutcome::Failed { .. }
    ));
}

#[test]
fn failures_carry_the_tail_of_the_log() {
    let reported = with_log_tail(
        FfmpegOutcome::Failed {
            message: "FFmpeg failed".to_owned(),
        },
        "deliberate failure detail",
    );
    match reported {
        FfmpegOutcome::Failed { message } => {
            assert!(message.contains("deliberate failure detail"))
        }
        other => panic!("not a failure: {other:?}"),
    }
    let failed = |message: &str| FfmpegOutcome::Failed {
        message: message.to_owned(),
    };
    assert_eq!(
        with_log_tail(failed("FFmpeg failed"), " \n no such codec\n\n"),
        failed("FFmpeg failed: no such codec")
    );
    assert_eq!(
        with_log_tail(failed("FFmpeg failed"), " \n\t"),
        failed("FFmpeg failed")
    );
    assert_eq!(
        with_log_tail(FfmpegOutcome::Cancelled, "detail"),
        FfmpegOutcome::Cancelled
    );
    assert_eq!(log_tail_start(100), 0);
    assert_eq!(log_tail_start(10_000), 10_000 - 8_192);
    assert!(failure("open", "denied").contains("denied"));
    assert!(matches!(
        job_event(WorkKind::Clip, Ok(None)),
        MediaEvent::Cancelled {
            kind: WorkKind::Clip
        }
    ));
    assert!(matches!(
        job_event(WorkKind::Clip, Err("m".to_owned())),
        MediaEvent::Failed { .. }
    ));
    assert!(matches!(
        job_event(WorkKind::Clip, Ok(Some(Arc::new(entry())))),
        MediaEvent::Completed { .. }
    ));
}

#[test]
fn names_are_fresh_and_say_what_they_are_for() {
    assert_eq!(unique_name("trim", "abc", "mp4"), "trim-abc.mp4");
    assert_eq!(probe_name("abc"), ".warcraft-recorder-probe-abc");
    let first = job_file_name("trim", "mp4");
    let second = job_file_name("trim", "mp4");
    assert_ne!(first, second);
    assert!(first.starts_with("trim-") && first.ends_with(".mp4"));
    assert_eq!(first.len(), "trim-".len() + 36 + ".mp4".len());
    let uuid = &first[5..41];
    assert_eq!(&uuid[8..9], "-");
    assert_eq!(&uuid[14..15], "4");
    assert!(uuid
        .chars()
        .all(|c| c == '-' || c.is_ascii_digit() || ('a'..='f').contains(&c)));
    assert_ne!(fresh_probe_name(), fresh_probe_name());
}

/// A run of FFmpeg that is being watched.
fn watched() -> FfmpegRun {
    let (run, action) = FfmpegRun::start(vec!["-y".to_owned()]);
    assert!(matches!(
        action,
        RunAction::MakeFile {
            prefix: "progress",
            extension: "txt"
        }
    ));
    let (run, action) = run.next(RunEvent::FileMade(Ok("/b/progress.txt".to_owned())));
    assert!(matches!(
        action,
        RunAction::MakeFile {
            prefix: "ffmpeg",
            extension: "log"
        }
    ));
    let (run, action) = run.next(RunEvent::FileMade(Ok("/b/ffmpeg.log".to_owned())));
    assert!(matches!(action, RunAction::OpenLog { ref path } if path == "/b/ffmpeg.log"));
    let (run, action) = run.next(RunEvent::LogOpened(Ok(())));
    match action {
        RunAction::Spawn { args } => {
            assert_eq!(args, ["-progress", "/b/progress.txt", "-nostats", "-y"]);
        }
        _ => panic!("nothing is spawned"),
    }
    let (run, action) = run.next(RunEvent::Spawned(Ok(())));
    assert!(matches!(action, RunAction::Watch { ref progress } if progress == "/b/progress.txt"));
    run
}

#[test]
fn a_run_of_ffmpeg_leaves_no_file() {
    let (_, action) = watched().next(RunEvent::Ended(FfmpegOutcome::Done { out_time_ms: 7 }));
    match action {
        RunAction::Finish { remove, outcome } => {
            assert_eq!(remove, ["/b/progress.txt", "/b/ffmpeg.log"]);
            assert_eq!(outcome, FfmpegOutcome::Done { out_time_ms: 7 });
        }
        _ => panic!("the run is not over"),
    }
    let (run, action) = watched().next(RunEvent::Ended(FfmpegOutcome::Failed {
        message: "FFmpeg exited with 1".to_owned(),
    }));
    assert!(matches!(action, RunAction::ReadLog { ref path } if path == "/b/ffmpeg.log"));
    let (_, action) = run.next(RunEvent::LogRead("no such codec\n".to_owned()));
    match action {
        RunAction::Finish { remove, outcome } => {
            assert_eq!(remove, ["/b/progress.txt", "/b/ffmpeg.log"]);
            assert_eq!(
                outcome,
                FfmpegOutcome::Failed {
                    message: "FFmpeg exited with 1: no such codec".to_owned()
                }
            );
        }
        _ => panic!("the run is not over"),
    }
    let (run, _) = FfmpegRun::start(Vec::new());
    let (run, _) = run.next(RunEvent::FileMade(Ok("/b/progress.txt".to_owned())));
    let (_, action) = run.next(RunEvent::FileMade(Err("disk full".to_owned())));
    match action {
        RunAction::Finish { remove, outcome } => {
            assert_eq!(remove, ["/b/progress.txt"]);
            assert_eq!(
                outcome,
                FfmpegOutcome::Failed {
                    message: "log file: disk full".to_owned()
                }
            );
        }
        _ => panic!("the run is not over"),
    }
}

#[test]
fn shutdown_ends_a_clip_at_once_and_a_finalization_after_its_grace() {
    let worker = MediaWorker::new(config());
    let mut clip = ChildWatch::start(&worker, WorkKind::Clip, None, 0);
    assert!(!clip.overdue(1_000));
    clip.shutdown_requested(500, 1_000);
    assert!(clip.overdue(1_000));
    let mut finalization = ChildWatch::start(&worker, WorkKind::Finalize, None, 0);
    finalization.shutdown_requested(500, 1_000);
    finalization.shutdown_requested(500, 1_400);
    assert!(!finalization.overdue(1_499));
    assert!(finalization.overdue(1_500));
    assert_eq!(
        ChildWatch::wait_failed("gone"),
        FfmpegOutcome::Failed {
            message: "spawning FFmpeg: gone".to_owned()
        }
    );
}

fn asked(worker: &mut MediaWorker, run: ChildRun, latest: Option<u64>, now_ms: u64) -> ChildRun {
    let (run, action) = run.next(worker, WatchEvent::Read { latest, now_ms });
    assert!(matches!(action, WatchAction::Ask { .. }));
    run
}

#[test]
fn a_child_is_watched_in_rounds_until_it_exits() {
    let mut worker = MediaWorker::new(config());
    let (run, action) = ChildRun::start(&worker, WorkKind::Clip, Some(30_000), 0);
    assert!(matches!(action, WatchAction::Poll));
    let (run, action) = run.next(
        &mut worker,
        WatchEvent::Polled {
            poll: ControlPoll::Empty,
            now_ms: 25,
        },
    );
    assert!(matches!(action, WatchAction::ReadProgress));
    let (run, action) = run.next(
        &mut worker,
        WatchEvent::Read {
            latest: Some(1_000),
            now_ms: 26,
        },
    );
    match action {
        WatchAction::Ask { report } => assert_eq!(
            report,
            Some(WorkProgress {
                kind: WorkKind::Clip,
                completed: 1_000,
                total: Some(30_000)
            })
        ),
        _ => panic!("the child is not asked"),
    }
    let (run, action) = run.next(&mut worker, WatchEvent::Running { now_ms: 27 });
    assert!(matches!(action, WatchAction::Poll));
    assert_eq!(worker.shutdown_at(), None);
    let (run, _) = run.next(
        &mut worker,
        WatchEvent::Polled {
            poll: ControlPoll::Empty,
            now_ms: 52,
        },
    );
    let run = asked(&mut worker, run, None, 53);
    let (run, action) = run.next(
        &mut worker,
        WatchEvent::Exited {
            success: true,
            status: "exit status: 0".to_owned(),
        },
    );
    assert!(matches!(action, WatchAction::ReadProgress));
    let (run, action) = run.next(
        &mut worker,
        WatchEvent::Read {
            latest: None,
            now_ms: 54,
        },
    );
    assert!(matches!(
        action,
        WatchAction::Finish(FfmpegOutcome::Done { out_time_ms: 1_000 })
    ));
    assert!(matches!(run.stage, WatchStage::Over));
}

#[test]
fn a_shutdown_stops_the_polling_and_ends_the_child_in_time() {
    let mut worker = MediaWorker::new(config());
    let (run, _) = ChildRun::start(&worker, WorkKind::Finalize, None, 0);
    let (run, action) = run.next(
        &mut worker,
        WatchEvent::Polled {
            poll: ControlPoll::Disconnected,
            now_ms: 1_000,
        },
    );
    assert!(matches!(action, WatchAction::ReadProgress));
    assert_eq!(worker.shutdown_at(), Some(1_000));
    assert_eq!(run.watch.interrupt_at_ms, Some(1_500));
    let run = asked(&mut worker, run, None, 1_001);
    let (run, action) = run.next(&mut worker, WatchEvent::Running { now_ms: 1_499 });
    assert!(matches!(action, WatchAction::Pause));
    let (run, action) = run.next(&mut worker, WatchEvent::Paused);
    assert!(matches!(action, WatchAction::ReadProgress));
    let run = asked(&mut worker, run, None, 1_524);
    let (run, action) = run.next(&mut worker, WatchEvent::Running { now_ms: 1_525 });
    assert!(matches!(action, WatchAction::Terminate));
    let (_, action) = run.next(&mut worker, WatchEvent::Terminated);
    assert!(matches!(
        action,
        WatchAction::Finish(FfmpegOutcome::Cancelled)
    ));
}

#[test]
fn a_child_that_exits_after_its_deadline_is_not_terminated() {
    let mut worker = MediaWorker::new(config());
    let (run, _) = ChildRun::start(&worker, WorkKind::Clip, None, 0);
    let poll = ControlPoll::Control(MediaControl::Shutdown {
        pending_finalizations: Vec::new(),
    });
    let (run, _) = run.next(&mut worker, WatchEvent::Polled { poll, now_ms: 10 });
    let run = asked(&mut worker, run, Some(700), 11);
    let (run, _) = run.next(
        &mut worker,
        WatchEvent::Exited {
            success: true,
            status: "exit status: 0".to_owned(),
        },
    );
    let (_, action) = run.next(
        &mut worker,
        WatchEvent::Read {
            latest: Some(900),
            now_ms: 12,
        },
    );
    assert!(matches!(
        action,
        WatchAction::Finish(FfmpegOutcome::Done { out_time_ms: 900 })
    ));
}

#[test]
fn children_that_fail_say_why() {
    let mut worker = MediaWorker::new(config());
    let (run, _) = ChildRun::start(&worker, WorkKind::Clip, None, 0);
    let (run, _) = run.next(
        &mut worker,
        WatchEvent::Polled {
            poll: ControlPoll::Empty,
            now_ms: 1,
        },
    );
    let run = asked(&mut worker, run, None, 2);
    let (run, _) = run.next(
        &mut worker,
        WatchEvent::Exited {
            success: false,
            status: "exit status: 1".to_owned(),
        },
    );
    let (_, action) = run.next(
        &mut worker,
        WatchEvent::Read {
            latest: None,
            now_ms: 3,
        },
    );
    match action {
        WatchAction::Finish(FfmpegOutcome::Failed { message }) => {
            assert_eq!(message, "FFmpeg exited with exit status: 1")
        }
        _ => panic!("the child did not fail"),
    }
    let (run, _) = ChildRun::start(&worker, WorkKind::Clip, None, 0);
    let (run, _) = run.next(
        &mut worker,
        WatchEvent::Polled {
            poll: ControlPoll::Empty,
            now_ms: 1,
        },
    );
    let run = asked(&mut worker, run, None, 2);
    let (_, action) = run.next(&mut worker, WatchEvent::WaitFailed("no child".to_owned()));
    match action {
        WatchAction::Finish(FfmpegOutcome::Failed { message }) => {
            assert_eq!(message, "spawning FFmpeg: no child")
        }
        _ => panic!("the child did not fail"),
    }
}
