//! The rounds in which an FFmpeg child is watched until it is gone: wait,
//! read its progress, ask whether it still runs, and end it once its time is
//! up.
use vstd::prelude::*;

use crate::domain::{WorkKind, WorkProgress};
use crate::media_jobs::{ChildWatch, ControlPoll, FfmpegOutcome, MediaWorker};

verus! {

pub enum WatchStage {
    /// A round starts: the control channel is polled, or the poll interval
    /// slept through.
    Waiting,
    /// The child's progress is read.
    Reading,
    /// The child is asked whether it has exited.
    Asking,
    /// The child has exited; what it wrote last is read.
    Ending { success: bool, status: String },
    Terminating,
    Over,
}

/// What came of the last action. Times are milliseconds of a clock that never
/// goes back.
pub enum WatchEvent {
    Polled { poll: ControlPoll, now_ms: u64 },
    Paused,
    /// The newest output time, where there is one.
    Read { latest: Option<u64>, now_ms: u64 },
    Running { now_ms: u64 },
    Exited { success: bool, status: String },
    /// The child could not be asked.
    WaitFailed(String),
    Terminated,
}

pub enum WatchAction {
    /// Wait for a control message, no longer than the poll interval.
    Poll,
    /// Sleep through the poll interval.
    Pause,
    ReadProgress,
    /// Report the progress, where some is given, and ask the child whether it
    /// has exited.
    Ask { report: Option<WorkProgress> },
    /// Interrupt the child, and kill it if it does not go.
    Terminate,
    Finish(FfmpegOutcome),
}

/// Watches one FFmpeg child.
pub struct ChildRun {
    pub watch: ChildWatch,
    pub stage: WatchStage,
}

impl ChildRun {
    /// Only a child that has a deadline is terminated.
    pub open spec fn wf(self) -> bool {
        self.stage is Terminating ==> self.watch.interrupt_at_ms is Some
    }

    /// The child has a deadline exactly if the worker is shutting down.
    pub open spec fn in_step(self, worker: MediaWorker) -> bool {
        self.watch.interrupt_at_ms is Some <==> worker.closing() is Some
    }

    /// A round starts: control is polled only while there is no deadline.
    pub open spec fn waits(self, next: ChildRun, action: WatchAction) -> bool {
        &&& next == (ChildRun { stage: WatchStage::Waiting, ..self })
        &&& action == (if self.watch.interrupt_at_ms is Some {
            WatchAction::Pause
        } else {
            WatchAction::Poll
        })
    }

    fn waiting(watch: ChildWatch) -> (result: (ChildRun, WatchAction))
        ensures
            result.0.watch == watch,
            result.0.waits(result.0, result.1),
    {
        // Shutdown is one-shot: polling a closed channel would spin.
        let action = if watch.interrupt_at_ms.is_some() {
            WatchAction::Pause
        } else {
            WatchAction::Poll
        };
        (ChildRun { watch, stage: WatchStage::Waiting }, action)
    }

    /// Watch a child that starts now.
    pub fn start(
        worker: &MediaWorker,
        kind: WorkKind,
        total_ms: Option<u64>,
        now_ms: u64,
    ) -> (started: (ChildRun, WatchAction))
        requires
            kind == WorkKind::Finalize ==> (worker.closing() matches Some(at) ==> at
                + worker.settings().finalize_grace_ms <= u64::MAX),
        ensures
            started.0.wf(),
            started.0.in_step(*worker),
            started.0.watch == ChildWatch::begun(*worker, kind, total_ms, now_ms),
            started.0.waits(started.0, started.1),
    {
        Self::waiting(ChildWatch::start(worker, kind, total_ms, now_ms))
    }

    /// Whether `event` answers the action of this stage.
    pub open spec fn expects(self, worker: MediaWorker, event: WatchEvent) -> bool {
        match self.stage {
            WatchStage::Waiting => if self.watch.interrupt_at_ms is Some {
                event is Paused
            } else {
                event matches WatchEvent::Polled { poll, now_ms } && (poll is Empty || now_ms
                    + worker.settings().finalize_grace_ms <= u64::MAX)
            },
            WatchStage::Reading => event is Read,
            WatchStage::Asking => event is Running || event is Exited || event is WaitFailed,
            WatchStage::Ending { .. } => event is Read,
            WatchStage::Terminating => event is Terminated,
            WatchStage::Over => false,
        }
    }

    /// What follows from `event`: the worker after it, the next stage and the
    /// next action. Only the control channel changes the worker.
    pub open spec fn follows(
        self,
        worker: MediaWorker,
        event: WatchEvent,
        after: MediaWorker,
        next: ChildRun,
        action: WatchAction,
    ) -> bool {
        &&& !(event is Polled) ==> after == worker
        &&& match (self.stage, event) {
            (WatchStage::Waiting, WatchEvent::Polled { poll, now_ms }) => {
                &&& worker.observes(poll, now_ms, after)
                &&& next.stage is Reading
                &&& next.watch == (if poll is Empty {
                    self.watch
                } else {
                    self.watch.asked_to_go(worker.settings().finalize_grace_ms, now_ms)
                })
                &&& action is ReadProgress
            },
            (WatchStage::Waiting, WatchEvent::Paused) => {
                &&& next == (ChildRun { stage: WatchStage::Reading, ..self })
                &&& action is ReadProgress
            },
            (WatchStage::Reading, WatchEvent::Read { latest, now_ms }) => {
                &&& next.stage is Asking
                &&& action matches WatchAction::Ask { report } && self.watch.takes_in(
                    latest,
                    now_ms,
                    next.watch,
                    report,
                )
            },
            (WatchStage::Asking, WatchEvent::Exited { success, status }) => {
                &&& next == (ChildRun { stage: WatchStage::Ending { success, status }, ..self })
                &&& action is ReadProgress
            },
            (WatchStage::Asking, WatchEvent::WaitFailed(error)) => {
                &&& next == (ChildRun { stage: WatchStage::Over, ..self })
                &&& action matches WatchAction::Finish(FfmpegOutcome::Failed { message })
                    && message@ == "spawning FFmpeg: "@ + error@
            },
            (WatchStage::Asking, WatchEvent::Running { now_ms }) => if self.watch.is_overdue(
                now_ms,
            ) {
                &&& next == (ChildRun { stage: WatchStage::Terminating, ..self })
                &&& action is Terminate
            } else {
                self.waits(next, action)
            },
            (WatchStage::Ending { success, status }, WatchEvent::Read { latest, .. }) => {
                &&& next == (ChildRun { stage: WatchStage::Over, ..self })
                &&& action matches WatchAction::Finish(outcome) && self.watch.ends(
                    success,
                    latest,
                    status@,
                    outcome,
                )
            },
            (WatchStage::Terminating, WatchEvent::Terminated) => {
                &&& next == (ChildRun { stage: WatchStage::Over, ..self })
                &&& action == WatchAction::Finish(FfmpegOutcome::Cancelled)
            },
            _ => false,
        }
    }

    /// Take in what came of the last action and say what to do next. A control
    /// message reaches the worker too.
    pub fn next(self, worker: &mut MediaWorker, event: WatchEvent) -> (result: (
        ChildRun,
        WatchAction,
    ))
        requires
            self.wf(),
            self.expects(*old(worker), event),
        ensures
            result.0.wf(),
            self.follows(*old(worker), event, *final(worker), result.0, result.1),
    {
        let mut watch: ChildWatch = self.watch;
        match (self.stage, event) {
            (WatchStage::Waiting, WatchEvent::Polled { poll, now_ms }) => {
                let asked: bool = match &poll {
                    ControlPoll::Empty => false,
                    _ => true,
                };
                if asked {
                    let grace_ms: u64 = worker.config().finalize_grace_ms;
                    watch.shutdown_requested(grace_ms, now_ms);
                }
                worker.observe_shutdown(poll, now_ms);
                (ChildRun { watch, stage: WatchStage::Reading }, WatchAction::ReadProgress)
            },
            (WatchStage::Waiting, WatchEvent::Paused) => (
                ChildRun { watch, stage: WatchStage::Reading },
                WatchAction::ReadProgress,
            ),
            (WatchStage::Reading, WatchEvent::Read { latest, now_ms }) => {
                let report = watch.progressed(latest, now_ms);
                (ChildRun { watch, stage: WatchStage::Asking }, WatchAction::Ask { report })
            },
            (WatchStage::Asking, WatchEvent::Exited { success, status }) => (
                ChildRun { watch, stage: WatchStage::Ending { success, status } },
                WatchAction::ReadProgress,
            ),
            (WatchStage::Asking, WatchEvent::WaitFailed(error)) => (
                ChildRun { watch, stage: WatchStage::Over },
                WatchAction::Finish(ChildWatch::wait_failed(&error)),
            ),
            (WatchStage::Asking, WatchEvent::Running { now_ms }) => {
                if watch.overdue(now_ms) {
                    (ChildRun { watch, stage: WatchStage::Terminating }, WatchAction::Terminate)
                } else {
                    Self::waiting(watch)
                }
            },
            (WatchStage::Ending { success, status }, WatchEvent::Read { latest, .. }) => {
                let outcome = watch.exited(success, latest, &status);
                (ChildRun { watch, stage: WatchStage::Over }, WatchAction::Finish(outcome))
            },
            (WatchStage::Terminating, WatchEvent::Terminated) => (
                ChildRun { watch, stage: WatchStage::Over },
                WatchAction::Finish(FfmpegOutcome::Cancelled),
            ),
            (_, _) => {
                assert(false);
                (
                    ChildRun { watch, stage: WatchStage::Over },
                    WatchAction::Finish(FfmpegOutcome::Cancelled),
                )
            },
        }
    }
}

/// Each round goes in order: wait, read the progress, ask the child, and only
/// then look at the deadline. The control channel is polled only while there
/// is no deadline, and a child is terminated only if it was still running when
/// its time was up.
pub proof fn rounds_go_in_order(
    run: ChildRun,
    worker: MediaWorker,
    event: WatchEvent,
    after: MediaWorker,
    next: ChildRun,
    action: WatchAction,
)
    requires
        run.follows(worker, event, after, next, action),
    ensures
        match action {
            WatchAction::Poll => event is Running && next.watch.interrupt_at_ms is None,
            WatchAction::Pause => event is Running && next.watch.interrupt_at_ms is Some,
            WatchAction::ReadProgress => run.stage is Waiting || event is Exited,
            WatchAction::Ask { .. } => run.stage is Reading,
            WatchAction::Terminate => event matches WatchEvent::Running { now_ms }
                && run.watch.is_overdue(now_ms),
            WatchAction::Finish(_) => event is Terminated || event is WaitFailed
                || run.stage is Ending,
        },
{
}

/// A child has a deadline exactly if its worker is shutting down, and a
/// deadline that is set stays.
pub proof fn deadlines_come_with_the_shutdown(
    run: ChildRun,
    worker: MediaWorker,
    event: WatchEvent,
    after: MediaWorker,
    next: ChildRun,
    action: WatchAction,
)
    requires
        run.in_step(worker),
        run.expects(worker, event),
        run.follows(worker, event, after, next, action),
    ensures
        next.in_step(after),
        run.watch.interrupt_at_ms is Some ==> next.watch.interrupt_at_ms
            == run.watch.interrupt_at_ms,
{
}

/// A child is reported as done only if it exited well, and as cancelled only
/// if it had been asked to go.
pub proof fn only_hurried_children_are_cancelled(
    run: ChildRun,
    worker: MediaWorker,
    event: WatchEvent,
    after: MediaWorker,
    next: ChildRun,
    action: WatchAction,
)
    requires
        run.wf(),
        run.follows(worker, event, after, next, action),
    ensures
        action matches WatchAction::Finish(FfmpegOutcome::Cancelled) ==> run.watch.interrupt_at_ms
            is Some,
        action matches WatchAction::Finish(FfmpegOutcome::Done { .. }) ==> run.stage matches
            WatchStage::Ending { success, .. } && success,
{
}

} // verus!
