//! The user's commands.
use vstd::prelude::*;

use crate::capture::{ForceEnd, StartCapture, TestStart};
use crate::capture;
use crate::config::Config;
use crate::configure::{InterfaceChange, PendingConfig};
use crate::coordinator::{Command, Coordinator};
use crate::domain::{Category, RecordingId};
use crate::test_recording;
use crate::upload::UploadAction;

verus! {

/// A change to a recording's sidecar.
#[derive(Clone, Debug, PartialEq, Eq)]
pub enum EntryUpdate {
    Protected(bool),
    Tag(String),
}

/// What the caller does about a command.
pub enum CommandEffect {
    Nothing,
    /// Arm the recorder.
    Arm,
    /// Shut the recorder down.
    Disarm,
    /// Let the user pick another capture target.
    Reselect,
    /// End the activity in the activity engine.
    ForceEnd(ForceEnd),
    /// Start a capture.
    Start(StartCapture),
    /// Feed a test recording's events.
    Test(TestStart),
    /// Write the configuration; on failure it goes back to this one.
    SaveInterface(Config),
    /// Write the new settings.
    SaveConfig(PendingConfig),
    /// Change these recordings, one by one.
    Update { ids: Vec<RecordingId>, change: EntryUpdate },
    /// Delete these recordings.
    Delete { ids: Vec<RecordingId> },
}

impl Coordinator {
    /// The coordinator once a command was taken up: it has something to show.
    pub open spec fn shown(self) -> Coordinator {
        Coordinator { dirty: true, ..self }
    }

    /// The uploads of several recordings were queued one after the other.
    pub open spec fn queues_uploads(
        self,
        ids: Seq<RecordingId>,
        now_ms: i64,
        after: Coordinator,
    ) -> bool {
        exists|steps: Seq<Coordinator>|
            {
                &&& steps.len() == ids.len() + 1
                &&& steps[0] == self
                &&& steps.last() == after
                &&& forall|i: int|
                    0 <= i < ids.len() ==> (#[trigger] steps[i]).queues_upload(
                        ids[i]@,
                        UploadAction::Upload,
                        true,
                        now_ms,
                        steps[i + 1],
                    )
            }
    }

    /// Queue the upload of each of these recordings, at the user's request.
    pub fn queue_uploads(&mut self, ids: &Vec<RecordingId>, now_ms: i64)
        requires
            old(self).wf(),
        ensures
            final(self).wf(),
            old(self).dirty ==> final(self).dirty,
            old(self).queues_uploads(ids@, now_ms, *final(self)),
    {
        let ghost mut steps: Seq<Coordinator> = seq![*self];
        let mut i: usize = 0;
        while i < ids.len()
            invariant
                i <= ids@.len(),
                self.wf(),
                old(self).dirty ==> self.dirty,
                steps.len() == i + 1,
                steps[0] == *old(self),
                steps.last() == *self,
                forall|j: int|
                    0 <= j < i ==> (#[trigger] steps[j]).queues_upload(
                        ids@[j]@,
                        UploadAction::Upload,
                        true,
                        now_ms,
                        steps[j + 1],
                    ),
            decreases ids@.len() - i,
        {
            self.queue_upload(&ids[i], UploadAction::Upload, true, now_ms);
            proof {
                let longer = steps.push(*self);
                assert forall|j: int| 0 <= j < i + 1 implies (#[trigger] longer[j]).queues_upload(
                    ids@[j]@,
                    UploadAction::Upload,
                    true,
                    now_ms,
                    longer[j + 1],
                ) by {
                    assert(longer[j] == steps[j]);
                    if j < i {
                        assert(longer[j + 1] == steps[j + 1]);
                    }
                }
                steps = longer;
            }
            i = i + 1;
        }
        assert(steps.len() == ids@.len() + 1 && steps[0] == *old(self) && steps.last() == *self);
    }

    /// The times of a test recording that starts now can be written.
    pub open spec fn test_fits(command: Command, test_duration_ms: u64, now_ms: i64) -> bool {
        command matches Command::RunTest { category } ==> {
            let end_ms = now_ms + capture::test_duration(category, test_duration_ms);
            end_ms <= i64::MAX && test_recording::test_times_fit(now_ms, end_ms as i64)
        }
    }

    /// The configuration is checked, and capture armed if it is usable.
    pub open spec fn takes_up_arm(
        self,
        now_ms: i64,
        after: Coordinator,
        effect: CommandEffect,
    ) -> bool {
        let checked = Coordinator { setup_problems: after.setup_problems, ..self };
        &&& crate::config::problem_texts(after.setup_problems@) == crate::config::usable_problems(
            self.config,
        )
        &&& effect is Arm || effect is Nothing
        &&& if crate::config::usable_problems(self.config).len() == 0 {
            checked.rearms(now_ms, after, effect is Arm)
        } else {
            effect is Nothing && after == checked
        }
    }

    fn take_up_arm(&mut self, now_ms: i64) -> (effect: CommandEffect)
        requires
            old(self).wf(),
            old(self).dirty,
        ensures
            final(self).wf(),
            final(self).dirty,
            old(self).takes_up_arm(now_ms, *final(self), effect),
    {
        if self.validate_setup() && self.arm(now_ms) {
            CommandEffect::Arm
        } else {
            CommandEffect::Nothing
        }
    }

    pub open spec fn takes_up_disarm(
        self,
        now_ms: i64,
        after: Coordinator,
        effect: CommandEffect,
    ) -> bool {
        (effect is Disarm || effect is Nothing) && self.disarms(now_ms, after, effect is Disarm)
    }

    fn take_up_disarm(&mut self, now_ms: i64) -> (effect: CommandEffect)
        requires
            old(self).wf(),
            old(self).dirty,
        ensures
            final(self).wf(),
            final(self).dirty,
            old(self).takes_up_disarm(now_ms, *final(self), effect),
    {
        if self.disarm(now_ms) {
            CommandEffect::Disarm
        } else {
            CommandEffect::Nothing
        }
    }

    pub open spec fn takes_up_reselect(
        self,
        now_ms: i64,
        after: Coordinator,
        effect: CommandEffect,
    ) -> bool {
        (effect is Reselect || effect is Nothing) && self.retargets(
            now_ms,
            after,
            effect is Reselect,
        )
    }

    fn take_up_reselect(&mut self, now_ms: i64) -> (effect: CommandEffect)
        requires
            old(self).wf(),
            old(self).dirty,
        ensures
            final(self).wf(),
            final(self).dirty,
            old(self).takes_up_reselect(now_ms, *final(self), effect),
    {
        if self.reselect_target(now_ms) {
            CommandEffect::Reselect
        } else {
            CommandEffect::Nothing
        }
    }

    pub open spec fn takes_up_force_end(
        self,
        now_ms: i64,
        after: Coordinator,
        effect: CommandEffect,
    ) -> bool {
        match effect {
            CommandEffect::ForceEnd(end) => self.ends_by_force(now_ms, after, Some(end)),
            CommandEffect::Nothing => self.ends_by_force(now_ms, after, None),
            _ => false,
        }
    }

    fn take_up_force_end(&mut self, now_ms: i64) -> (effect: CommandEffect)
        requires
            old(self).wf(),
            old(self).dirty,
        ensures
            final(self).wf(),
            final(self).dirty,
            old(self).takes_up_force_end(now_ms, *final(self), effect),
    {
        match self.force_end(now_ms) {
            Some(end) => CommandEffect::ForceEnd(end),
            None => CommandEffect::Nothing,
        }
    }

    pub open spec fn takes_up_manual(
        self,
        id: RecordingId,
        now_ms: i64,
        after: Coordinator,
        effect: CommandEffect,
    ) -> bool {
        match effect {
            CommandEffect::Start(start) => self.starts_manual(id, now_ms, after, Some(start)),
            CommandEffect::Nothing => self.starts_manual(id, now_ms, after, None),
            _ => false,
        }
    }

    fn take_up_manual(&mut self, id: RecordingId, now_ms: i64) -> (effect: CommandEffect)
        requires
            old(self).wf(),
            old(self).dirty,
        ensures
            final(self).wf(),
            final(self).dirty,
            old(self).takes_up_manual(id, now_ms, *final(self), effect),
    {
        match self.start_manual(id, now_ms) {
            Some(start) => CommandEffect::Start(start),
            None => CommandEffect::Nothing,
        }
    }

    pub open spec fn takes_up_test(
        self,
        category: Category,
        test_duration_ms: u64,
        now_ms: i64,
        after: Coordinator,
        effect: CommandEffect,
    ) -> bool {
        match effect {
            CommandEffect::Test(test) => self.starts_test(
                category,
                test_duration_ms,
                now_ms,
                after,
                Some(test),
            ),
            CommandEffect::Nothing => self.starts_test(
                category,
                test_duration_ms,
                now_ms,
                after,
                None,
            ),
            _ => false,
        }
    }

    fn take_up_test(&mut self, category: Category, test_duration_ms: u64, now_ms: i64) -> (effect:
        CommandEffect)
        requires
            old(self).wf(),
            old(self).dirty,
            Self::test_fits(Command::RunTest { category }, test_duration_ms, now_ms),
        ensures
            final(self).wf(),
            final(self).dirty,
            old(self).takes_up_test(category, test_duration_ms, now_ms, *final(self), effect),
    {
        match self.run_test(category, test_duration_ms, now_ms) {
            Some(test) => CommandEffect::Test(test),
            None => CommandEffect::Nothing,
        }
    }

    pub open spec fn takes_up_config(
        self,
        draft: Config,
        now_ms: i64,
        after: Coordinator,
        effect: CommandEffect,
    ) -> bool {
        match effect {
            CommandEffect::SaveConfig(pending) => self.saves_config(
                draft,
                now_ms,
                after,
                Some(pending),
            ),
            CommandEffect::Nothing => self.saves_config(draft, now_ms, after, None),
            _ => false,
        }
    }

    fn take_up_config(&mut self, draft: Config, now_ms: i64) -> (effect: CommandEffect)
        requires
            old(self).wf(),
            old(self).dirty,
        ensures
            final(self).wf(),
            final(self).dirty,
            old(self).takes_up_config(draft, now_ms, *final(self), effect),
    {
        match self.save_config(draft, now_ms) {
            Some(pending) => CommandEffect::SaveConfig(pending),
            None => CommandEffect::Nothing,
        }
    }

    /// What a command leads to: the next state and what the caller does.
    pub open spec fn handles(
        self,
        command: Command,
        fresh_id: RecordingId,
        test_duration_ms: u64,
        now_ms: i64,
        after: Coordinator,
        effect: CommandEffect,
    ) -> bool {
        match command {
            Command::Arm => self.takes_up_arm(now_ms, after, effect),
            Command::Disarm => self.takes_up_disarm(now_ms, after, effect),
            Command::ForceEnd => self.takes_up_force_end(now_ms, after, effect),
            Command::StartManual => self.takes_up_manual(fresh_id, now_ms, after, effect),
            Command::StopManual => effect is Nothing && self.stops_manual(now_ms, after),
            Command::RunTest { category } => self.takes_up_test(
                category,
                test_duration_ms,
                now_ms,
                after,
                effect,
            ),
            Command::ReselectCaptureTarget => self.takes_up_reselect(now_ms, after, effect),
            Command::SaveConfig { draft } => self.takes_up_config(*draft, now_ms, after, effect),
            Command::SetProtected { ids, value } => {
                &&& effect == (CommandEffect::Update {
                    ids,
                    change: EntryUpdate::Protected(value),
                })
                &&& after == self
            },
            Command::SetTag { id, tag } => {
                &&& effect matches CommandEffect::Update { ids, change } && ids@ == seq![id]
                    && change == EntryUpdate::Tag(tag)
                &&& after == self
            },
            Command::Delete { ids } => effect == (CommandEffect::Delete { ids }) && after == self,
            Command::CreateClip(range) => effect is Nothing && self.queues_clip(
                range,
                now_ms,
                after,
            ),
            Command::Upload { ids } => effect is Nothing && self.queues_uploads(
                ids@,
                now_ms,
                after,
            ),
            Command::ShareLink { id } => effect is Nothing && self.queues_upload(
                id@,
                UploadAction::ShareLink,
                true,
                now_ms,
                after,
            ),
            Command::SetSelectedCategory { category } => self.takes_up(
                InterfaceChange::SelectedCategory(category),
                after,
                effect,
            ),
            Command::SetMarkerVisibility { deaths, encounters, rounds } => self.takes_up(
                InterfaceChange::Markers { deaths, encounters, rounds },
                after,
                effect,
            ),
            Command::SaveLayout { layout } => self.takes_up(
                InterfaceChange::Layout(layout),
                after,
                effect,
            ),
            Command::DismissReleaseNotes => self.takes_up(
                InterfaceChange::ReleaseNotesSeen,
                after,
                effect,
            ),
            Command::Shutdown => effect is Nothing && after == self,
        }
    }

    /// Take up a command. `fresh_id` names the recording that it may start.
    pub fn handle_command(
        &mut self,
        command: Command,
        fresh_id: RecordingId,
        test_duration_ms: u64,
        now_ms: i64,
    ) -> (effect: CommandEffect)
        requires
            old(self).wf(),
            Self::test_fits(command, test_duration_ms, now_ms),
        ensures
            final(self).wf(),
            final(self).dirty,
            old(self).shown().handles(
                command,
                fresh_id,
                test_duration_ms,
                now_ms,
                *final(self),
                effect,
            ),
    {
        self.dirty = true;
        match command {
            Command::Arm => self.take_up_arm(now_ms),
            Command::Disarm => self.take_up_disarm(now_ms),
            Command::ForceEnd => self.take_up_force_end(now_ms),
            Command::StartManual => self.take_up_manual(fresh_id, now_ms),
            Command::StopManual => {
                self.stop_manual(now_ms);
                CommandEffect::Nothing
            },
            Command::RunTest { category } => self.take_up_test(category, test_duration_ms, now_ms),
            Command::ReselectCaptureTarget => self.take_up_reselect(now_ms),
            Command::SaveConfig { draft } => self.take_up_config(*draft, now_ms),
            Command::SetProtected { ids, value } => CommandEffect::Update {
                ids,
                change: EntryUpdate::Protected(value),
            },
            Command::SetTag { id, tag } => {
                let mut ids: Vec<RecordingId> = Vec::new();
                ids.push(id);
                assert(ids@ =~= seq![id]);
                CommandEffect::Update { ids, change: EntryUpdate::Tag(tag) }
            },
            Command::Delete { ids } => CommandEffect::Delete { ids },
            Command::CreateClip(range) => {
                self.queue_clip(&range, now_ms);
                CommandEffect::Nothing
            },
            Command::Upload { ids } => {
                self.queue_uploads(&ids, now_ms);
                CommandEffect::Nothing
            },
            Command::ShareLink { id } => {
                self.queue_upload(&id, UploadAction::ShareLink, true, now_ms);
                CommandEffect::Nothing
            },
            Command::SetSelectedCategory { category } => self.take_up(
                InterfaceChange::SelectedCategory(category),
            ),
            Command::SetMarkerVisibility { deaths, encounters, rounds } => self.take_up(
                InterfaceChange::Markers { deaths, encounters, rounds },
            ),
            Command::SaveLayout { layout } => self.take_up(InterfaceChange::Layout(layout)),
            Command::DismissReleaseNotes => self.take_up(InterfaceChange::ReleaseNotesSeen),
            Command::Shutdown => CommandEffect::Nothing,
        }
    }

    /// A change of preferences was taken up.
    pub open spec fn takes_up(
        self,
        change: InterfaceChange,
        after: Coordinator,
        effect: CommandEffect,
    ) -> bool {
        if change.matters(self.config) {
            &&& effect == CommandEffect::SaveInterface(self.config)
            &&& change.makes(self.config, after.config)
            &&& after == (Coordinator { config: after.config, ..self.shown() })
        } else {
            effect is Nothing && after == self.shown()
        }
    }

    fn take_up(&mut self, change: InterfaceChange) -> (effect: CommandEffect)
        requires
            old(self).wf(),
        ensures
            final(self).wf(),
            final(self).dirty,
            old(self).takes_up(change, *final(self), effect),
    {
        match self.change_interface(change) {
            Some(previous) => CommandEffect::SaveInterface(previous),
            None => CommandEffect::Nothing,
        }
    }
}

} // verus!
