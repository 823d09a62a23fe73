//! The order of work that takes several steps: starting up, taking over new
//! settings, changing many recordings, and shutting down.
use vstd::prelude::*;

use crate::configure::ConfigChanges;
use crate::domain::RecordingId;

verus! {

// --- starting up ---

#[derive(Clone, Copy, Debug, PartialEq, Eq, Structural)]
pub enum StartupStep {
    /// Check the configuration.
    Validate,
    /// Prepare the recording directory.
    Prepare,
    /// Move what an interrupted run left out of the way.
    Sweep,
    Rescan,
    EnforceLimit,
    /// Show the library before arming: starting the screen recorder waits out
    /// a stability check, and there is no reason for the window to sit empty
    /// through it.
    ShowLibrary,
    OpenLogs,
    Arm,
    /// Make the armed recorder visible before the event loop takes over.
    ShowRecorder,
    Done,
}

impl StartupStep {
    pub open spec fn spec_next(self, ok: bool) -> StartupStep {
        match self {
            StartupStep::Validate => if ok {
                StartupStep::Prepare
            } else {
                StartupStep::Done
            },
            StartupStep::Prepare => if ok {
                StartupStep::Sweep
            } else {
                StartupStep::Done
            },
            StartupStep::Sweep => StartupStep::Rescan,
            StartupStep::Rescan => StartupStep::EnforceLimit,
            StartupStep::EnforceLimit => StartupStep::ShowLibrary,
            StartupStep::ShowLibrary => StartupStep::OpenLogs,
            StartupStep::OpenLogs => if ok {
                StartupStep::Arm
            } else {
                StartupStep::ShowRecorder
            },
            StartupStep::Arm => StartupStep::ShowRecorder,
            StartupStep::ShowRecorder => StartupStep::Done,
            StartupStep::Done => StartupStep::Done,
        }
    }

    /// What comes after this step, which went well or not.
    pub fn next(self, ok: bool) -> (step: StartupStep)
        ensures
            step == self.spec_next(ok),
    {
        match self {
            StartupStep::Validate => if ok {
                StartupStep::Prepare
            } else {
                StartupStep::Done
            },
            StartupStep::Prepare => if ok {
                StartupStep::Sweep
            } else {
                StartupStep::Done
            },
            StartupStep::Sweep => StartupStep::Rescan,
            StartupStep::Rescan => StartupStep::EnforceLimit,
            StartupStep::EnforceLimit => StartupStep::ShowLibrary,
            StartupStep::ShowLibrary => StartupStep::OpenLogs,
            StartupStep::OpenLogs => if ok {
                StartupStep::Arm
            } else {
                StartupStep::ShowRecorder
            },
            StartupStep::Arm => StartupStep::ShowRecorder,
            StartupStep::ShowRecorder => StartupStep::Done,
            StartupStep::Done => StartupStep::Done,
        }
    }

    /// How many steps can still come.
    pub open spec fn left(self) -> nat {
        match self {
            StartupStep::Validate => 9,
            StartupStep::Prepare => 8,
            StartupStep::Sweep => 7,
            StartupStep::Rescan => 6,
            StartupStep::EnforceLimit => 5,
            StartupStep::ShowLibrary => 4,
            StartupStep::OpenLogs => 3,
            StartupStep::Arm => 2,
            StartupStep::ShowRecorder => 1,
            StartupStep::Done => 0,
        }
    }
}

/// Starting up comes to an end, and capture is armed only after the logs could
/// be opened.
pub proof fn startup_ends_and_arms_only_with_logs(step: StartupStep, ok: bool)
    ensures
        step != StartupStep::Done ==> step.spec_next(ok).left() < step.left(),
        step.spec_next(ok) == StartupStep::Arm <==> step == StartupStep::OpenLogs && ok,
{
}

// --- taking over new settings ---

#[derive(Clone, Copy, Debug, PartialEq, Eq, Structural)]
pub enum ReconfigureStep {
    OpenLogs,
    PrepareStorage,
    Rescan,
    RestartMedia,
    Arm,
    Disarm,
    EnforceLimit,
    /// Tell the user if capture is down after all.
    Settle,
    Done,
}

/// The parts of the recorder that changed are set up again, one by one.
#[derive(Clone, Copy, Debug, PartialEq, Eq)]
pub struct Reconfigure {
    pub changes: ConfigChanges,
    /// Every part that was set up so far is ready.
    pub ready: bool,
    pub step: ReconfigureStep,
}

/// Capture is touched by the change.
pub open spec fn touches_capture(changes: ConfigChanges) -> bool {
    changes.capture || changes.storage
}

/// What comes once every part was set up and capture was armed where it is
/// touched.
pub open spec fn after_arming(changes: ConfigChanges, ready: bool) -> ReconfigureStep {
    if !ready {
        ReconfigureStep::Disarm
    } else if changes.limit || changes.storage {
        ReconfigureStep::EnforceLimit
    } else {
        ReconfigureStep::Settle
    }
}

/// What comes once every part was set up.
pub open spec fn after_setup(changes: ConfigChanges, ready: bool) -> ReconfigureStep {
    if ready && touches_capture(changes) {
        ReconfigureStep::Arm
    } else {
        after_arming(changes, ready)
    }
}

/// What comes once the logs were opened.
pub open spec fn after_logs(changes: ConfigChanges, ready: bool) -> ReconfigureStep {
    if changes.storage {
        ReconfigureStep::PrepareStorage
    } else {
        after_setup(changes, ready)
    }
}

impl ReconfigureStep {
    /// A part that is not ready keeps capture from being armed.
    pub open spec fn counts(self) -> bool {
        self is OpenLogs || self is PrepareStorage || self is RestartMedia
    }

    /// What comes after this step.
    pub open spec fn followed_by(self, changes: ConfigChanges, ready: bool) -> ReconfigureStep {
        match self {
            ReconfigureStep::OpenLogs => after_logs(changes, ready),
            ReconfigureStep::PrepareStorage => ReconfigureStep::Rescan,
            ReconfigureStep::Rescan => ReconfigureStep::RestartMedia,
            ReconfigureStep::RestartMedia => after_setup(changes, ready),
            ReconfigureStep::Arm => after_arming(changes, ready),
            ReconfigureStep::Disarm => ReconfigureStep::Settle,
            ReconfigureStep::EnforceLimit => ReconfigureStep::Settle,
            ReconfigureStep::Settle => ReconfigureStep::Done,
            ReconfigureStep::Done => ReconfigureStep::Done,
        }
    }

    /// How many steps can still come.
    pub open spec fn left(self) -> nat {
        match self {
            ReconfigureStep::OpenLogs => 7,
            ReconfigureStep::PrepareStorage => 6,
            ReconfigureStep::Rescan => 5,
            ReconfigureStep::RestartMedia => 4,
            ReconfigureStep::Arm => 3,
            ReconfigureStep::Disarm => 2,
            ReconfigureStep::EnforceLimit => 2,
            ReconfigureStep::Settle => 1,
            ReconfigureStep::Done => 0,
        }
    }
}

impl Reconfigure {
    /// Capture is armed only while everything is ready, and disarmed only
    /// where something is not.
    pub open spec fn wf(self) -> bool {
        &&& self.step is Arm ==> self.ready && touches_capture(self.changes)
        &&& self.step is Disarm ==> !self.ready
        &&& self.step is EnforceLimit ==> self.ready
    }

    pub fn start(changes: ConfigChanges) -> (work: Reconfigure)
        ensures
            work.wf(),
            work == (Reconfigure {
                changes,
                ready: true,
                step: if changes.logs {
                    ReconfigureStep::OpenLogs
                } else {
                    after_logs(changes, true)
                },
            }),
    {
        let step = if changes.logs {
            ReconfigureStep::OpenLogs
        } else {
            next_after_logs(changes, true)
        };
        Reconfigure { changes, ready: true, step }
    }

    /// The step was made, and went well or not: what comes next.
    pub fn next(self, ok: bool) -> (work: Reconfigure)
        requires
            self.wf(),
        ensures
            work.wf(),
            work.changes == self.changes,
            work.ready == (self.ready && (ok || !self.step.counts())),
            work.step == self.step.followed_by(self.changes, work.ready),
    {
        let counts = match self.step {
            ReconfigureStep::OpenLogs
            | ReconfigureStep::PrepareStorage
            | ReconfigureStep::RestartMedia => true,
            _ => false,
        };
        let ready = self.ready && (ok || !counts);
        let step = match self.step {
            ReconfigureStep::OpenLogs => next_after_logs(self.changes, ready),
            ReconfigureStep::PrepareStorage => ReconfigureStep::Rescan,
            ReconfigureStep::Rescan => ReconfigureStep::RestartMedia,
            ReconfigureStep::RestartMedia => next_after_setup(self.changes, ready),
            ReconfigureStep::Arm => next_after_arming(self.changes, ready),
            ReconfigureStep::Disarm => ReconfigureStep::Settle,
            ReconfigureStep::EnforceLimit => ReconfigureStep::Settle,
            ReconfigureStep::Settle => ReconfigureStep::Done,
            ReconfigureStep::Done => ReconfigureStep::Done,
        };
        Reconfigure { changes: self.changes, ready, step }
    }
}

fn next_after_arming(changes: ConfigChanges, ready: bool) -> (step: ReconfigureStep)
    ensures
        step == after_arming(changes, ready),
{
    if !ready {
        ReconfigureStep::Disarm
    } else if changes.limit || changes.storage {
        ReconfigureStep::EnforceLimit
    } else {
        ReconfigureStep::Settle
    }
}

fn next_after_setup(changes: ConfigChanges, ready: bool) -> (step: ReconfigureStep)
    ensures
        step == after_setup(changes, ready),
{
    if ready && (changes.capture || changes.storage) {
        ReconfigureStep::Arm
    } else {
        next_after_arming(changes, ready)
    }
}

fn next_after_logs(changes: ConfigChanges, ready: bool) -> (step: ReconfigureStep)
    ensures
        step == after_logs(changes, ready),
{
    if changes.storage {
        ReconfigureStep::PrepareStorage
    } else {
        next_after_setup(changes, ready)
    }
}

/// Taking over new settings comes to an end; a part that failed is never
/// forgotten, and capture is then taken down rather than armed.
pub proof fn reconfiguring_ends(work: Reconfigure, ok: bool, next: Reconfigure)
    requires
        work.wf(),
        next.changes == work.changes,
        next.ready == (work.ready && (ok || !work.step.counts())),
        next.step == work.step.followed_by(work.changes, next.ready),
    ensures
        !(work.step is Done) ==> next.step.left() < work.step.left(),
        !work.ready ==> !next.ready && !(next.step is Arm) && !(next.step is EnforceLimit),
        work.step.counts() && !ok ==> !next.ready,
{
}

// --- changing many recordings ---

#[derive(Clone, Copy, Debug, PartialEq, Eq, Structural)]
pub enum BatchStep {
    /// Serve the recorder, the logs and the deadlines.
    Serve,
    /// Change the recording at this place of the list.
    Change(usize),
    EnforceLimit,
    Done,
}

/// Changes recordings one by one. Serving between writes keeps a bulk pass
/// from delaying log handling and recorder deadlines by the full batch.
/// Commands are not drained, so their order is kept, and media completions are
/// not polled: their fold enforces the storage limit, which could evict
/// entries this batch has not protected yet.
pub struct Batch {
    pub ids: Vec<RecordingId>,
    pub step: BatchStep,
    /// The next recording to change.
    pub place: usize,
}

impl Batch {
    pub open spec fn wf(self) -> bool {
        &&& self.place <= self.ids@.len()
        &&& self.step is Serve ==> self.place < self.ids@.len()
        &&& self.step matches BatchStep::Change(place) ==> place == self.place && place
            < self.ids@.len()
        &&& self.step is EnforceLimit || self.step is Done ==> self.place == self.ids@.len()
    }

    /// The steps that are still to be made, the current one first.
    pub open spec fn remaining(self) -> Seq<BatchStep> {
        let steps = batch_steps(self.ids@.len(), self.place as nat);
        match self.step {
            BatchStep::Serve => steps,
            BatchStep::Change(_) => steps.skip(1),
            BatchStep::EnforceLimit => steps,
            BatchStep::Done => Seq::empty(),
        }
    }

    pub fn start(ids: Vec<RecordingId>) -> (batch: Batch)
        ensures
            batch.wf(),
            batch.ids == ids,
            batch.remaining() == batch_steps(ids@.len(), 0),
    {
        let step = if ids.len() > 0 {
            BatchStep::Serve
        } else {
            BatchStep::EnforceLimit
        };
        Batch { ids, step, place: 0 }
    }

    /// The step was made: what comes next.
    pub fn next(self) -> (batch: Batch)
        requires
            self.wf(),
        ensures
            batch.wf(),
            batch.ids == self.ids,
            self.step is Done ==> batch == self,
            !(self.step is Done) ==> self.remaining() == seq![self.step] + batch.remaining(),
    {
        match self.step {
            BatchStep::Serve => {
                let step = BatchStep::Change(self.place);
                Batch { ids: self.ids, step, place: self.place }
            },
            BatchStep::Change(_) => {
                let count: usize = self.ids.len();
                let place: usize = self.place + 1;
                let step = if place < count {
                    BatchStep::Serve
                } else {
                    BatchStep::EnforceLimit
                };
                Batch { ids: self.ids, step, place }
            },
            BatchStep::EnforceLimit => Batch {
                ids: self.ids,
                step: BatchStep::Done,
                place: self.place,
            },
            BatchStep::Done => self,
        }
    }
}

/// The steps of a batch from one on: serve and change, recording by recording,
/// and enforce the limit at the end.
pub open spec fn batch_steps(count: nat, place: nat) -> Seq<BatchStep>
    decreases count - place,
{
    if place < count {
        seq![BatchStep::Serve, BatchStep::Change(place as usize)] + batch_steps(count, place + 1)
    } else {
        seq![BatchStep::EnforceLimit]
    }
}

/// Every recording is changed once, in order, and each right after serving.
pub proof fn batches_serve_before_every_change(count: nat, place: nat, other: nat)
    requires
        place <= other < count,
        count <= usize::MAX,
    ensures
        batch_steps(count, place).len() == 2 * (count - place) + 1,
        batch_steps(count, place)[2 * (other - place)] == BatchStep::Serve,
        batch_steps(count, place)[2 * (other - place) + 1] == BatchStep::Change(other as usize),
        batch_steps(count, place).last() == BatchStep::EnforceLimit,
    decreases count - place,
{
    let rest = batch_steps(count, place + 1);
    if place < other {
        batches_serve_before_every_change(count, place + 1, other);
        assert(batch_steps(count, place)[2 * (other - place)] == rest[2 * (other - place - 1)]);
        assert(batch_steps(count, place)[2 * (other - place) + 1] == rest[2 * (other - place - 1)
            + 1]);
    } else if place + 1 < count {
        batches_serve_before_every_change(count, place + 1, place + 1);
    }
}

// --- shutting down ---

#[derive(Clone, Copy, Debug, PartialEq, Eq, Structural)]
pub enum ShutdownStep {
    /// End the active capture the same way a force end would.
    EndCapture,
    /// Wait for the files of the capture whose end is under way. Stopping the
    /// recorder kills it, so they have to be there first or the recording is
    /// lost.
    AwaitEnd,
    StopRecorder,
    /// Let go of uploads and user jobs, and hand every recording that is still
    /// to be saved to the media worker. An upload in flight must not hold the
    /// window open.
    ReleaseWorkers,
    /// Wait for the media worker to save them.
    JoinMedia,
    /// Move what is left over out of the way.
    Sweep,
    /// Take in what the media worker reported.
    CollectMedia,
    Done,
}

impl ShutdownStep {
    /// What comes before the recorder is stopped, and else stopping it.
    pub open spec fn spec_resolve(ending: bool) -> ShutdownStep {
        if ending {
            ShutdownStep::AwaitEnd
        } else {
            ShutdownStep::StopRecorder
        }
    }

    pub open spec fn spec_first(active: bool, ending: bool) -> ShutdownStep {
        if active {
            ShutdownStep::EndCapture
        } else {
            ShutdownStep::spec_resolve(ending)
        }
    }

    /// The first step. `active` is whether a capture runs, and `ending`
    /// whether the recorder has an end under way.
    pub fn first(active: bool, ending: bool) -> (step: ShutdownStep)
        ensures
            step == ShutdownStep::spec_first(active, ending),
    {
        if active {
            ShutdownStep::EndCapture
        } else if ending {
            ShutdownStep::AwaitEnd
        } else {
            ShutdownStep::StopRecorder
        }
    }

    pub open spec fn spec_next(self, ending: bool) -> ShutdownStep {
        match self {
            ShutdownStep::EndCapture => ShutdownStep::spec_resolve(ending),
            ShutdownStep::AwaitEnd => ShutdownStep::StopRecorder,
            ShutdownStep::StopRecorder => ShutdownStep::ReleaseWorkers,
            ShutdownStep::ReleaseWorkers => ShutdownStep::JoinMedia,
            ShutdownStep::JoinMedia => ShutdownStep::Sweep,
            ShutdownStep::Sweep => ShutdownStep::CollectMedia,
            ShutdownStep::CollectMedia => ShutdownStep::Done,
            ShutdownStep::Done => ShutdownStep::Done,
        }
    }

    /// What comes after this step. `ending` is whether the recorder has an end
    /// under way now; the wait for one is bounded and is not repeated.
    pub fn next(self, ending: bool) -> (step: ShutdownStep)
        ensures
            step == self.spec_next(ending),
    {
        match self {
            ShutdownStep::EndCapture => ShutdownStep::first(false, ending),
            ShutdownStep::AwaitEnd => ShutdownStep::StopRecorder,
            ShutdownStep::StopRecorder => ShutdownStep::ReleaseWorkers,
            ShutdownStep::ReleaseWorkers => ShutdownStep::JoinMedia,
            ShutdownStep::JoinMedia => ShutdownStep::Sweep,
            ShutdownStep::Sweep => ShutdownStep::CollectMedia,
            ShutdownStep::CollectMedia => ShutdownStep::Done,
            ShutdownStep::Done => ShutdownStep::Done,
        }
    }

    /// How many steps can still come.
    pub open spec fn left(self) -> nat {
        match self {
            ShutdownStep::EndCapture => 7,
            ShutdownStep::AwaitEnd => 6,
            ShutdownStep::StopRecorder => 5,
            ShutdownStep::ReleaseWorkers => 4,
            ShutdownStep::JoinMedia => 3,
            ShutdownStep::Sweep => 2,
            ShutdownStep::CollectMedia => 1,
            ShutdownStep::Done => 0,
        }
    }
}

/// The steps of a shutdown, each with whether the recorder had an end under
/// way after it.
pub open spec fn is_shutdown(
    active: bool,
    ending: bool,
    run: Seq<(ShutdownStep, bool)>,
) -> bool {
    &&& run.len() > 0
    &&& run[0].0 == ShutdownStep::spec_first(active, ending)
    &&& forall|i: int, j: int|
        0 <= i < run.len() && j == i + 1 && j < run.len() ==> (#[trigger] run[j]).0 == (
        #[trigger] run[i]).0.spec_next(run[i].1)
}

/// A shutdown goes through its steps in their order, none of them twice, and
/// comes to an end.
pub proof fn shutting_down_goes_in_order(
    active: bool,
    ending: bool,
    run: Seq<(ShutdownStep, bool)>,
    earlier: int,
    later: int,
)
    requires
        is_shutdown(active, ending, run),
        0 <= earlier < later < run.len(),
    ensures
        run[earlier].0 is Done ==> run[later].0 is Done,
        !(run[earlier].0 is Done) ==> run[later].0.left() < run[earlier].0.left(),
        later >= 7 ==> run[later].0 is Done,
    decreases later - earlier,
{
    if earlier + 1 < later {
        shutting_down_goes_in_order(active, ending, run, earlier, later - 1);
    }
    assert(run[later].0 == run[later - 1].0.spec_next(run[later - 1].1));
    if later >= 7 {
        lemma_steps_left(active, ending, run, later);
    }
}

proof fn lemma_steps_left(active: bool, ending: bool, run: Seq<(ShutdownStep, bool)>, place: int)
    requires
        is_shutdown(active, ending, run),
        0 <= place < run.len(),
    ensures
        run[place].0 is Done || run[place].0.left() + place <= 7,
    decreases place,
{
    if place > 0 {
        lemma_steps_left(active, ending, run, place - 1);
    }
}

/// The recorder is stopped only once a capture that ran was ended and an end
/// that was under way was waited for, and what is to be saved goes to the
/// media worker only after that. So a recording that quitting cuts short has
/// its files, and is saved.
pub proof fn the_recorder_stops_after_the_end_is_resolved(
    active: bool,
    ending: bool,
    run: Seq<(ShutdownStep, bool)>,
    place: int,
)
    requires
        is_shutdown(active, ending, run),
        0 <= place < run.len(),
    ensures
        run[place].0 is StopRecorder ==> {
            &&& active ==> run[0].0 is EndCapture && place > 0
            &&& place == 0 ==> !ending
            &&& place > 0 ==> run[place - 1].0 is AwaitEnd || !run[place - 1].1
        },
        run[place].0 is ReleaseWorkers ==> place > 0 && run[place - 1].0 is StopRecorder,
        run[place].0 is JoinMedia ==> place > 0 && run[place - 1].0 is ReleaseWorkers,
{
    if place > 0 {
        assert(run[place].0 == run[place - 1].0.spec_next(run[place - 1].1));
    }
}

} // verus!
