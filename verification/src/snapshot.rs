//! What the shell is shown of the coordinator's state.

use vstd::prelude::*;

use crate::config::ValidationProblem;
use crate::coordinator::{
    ActiveRecording, ActiveRecordingView, AppSnapshot, CloudView, Coordinator, EndingCapture,
};
use crate::domain::{share, Category, Problem, RecorderStatus, WorkKind};
use crate::index;
use crate::index::category_counts;
use crate::recorder::RecordingMode;

verus! {

/// A category's own name, for a recording that has no title yet.
pub open spec fn category_word(category: Category) -> Seq<char> {
    match category {
        Category::TwoVTwo => "TwoVTwo"@,
        Category::ThreeVThree => "ThreeVThree"@,
        Category::FiveVFive => "FiveVFive"@,
        Category::Skirmish => "Skirmish"@,
        Category::SoloShuffle => "SoloShuffle"@,
        Category::MythicPlus => "MythicPlus"@,
        Category::Raids => "Raids"@,
        Category::Battlegrounds => "Battlegrounds"@,
        Category::Clip => "Clip"@,
        Category::Manual => "Manual"@,
    }
}

fn category_text(category: Category) -> (word: &'static str)
    ensures
        word@ == category_word(category),
{
    match category {
        Category::TwoVTwo => "TwoVTwo",
        Category::ThreeVThree => "ThreeVThree",
        Category::FiveVFive => "FiveVFive",
        Category::Skirmish => "Skirmish",
        Category::SoloShuffle => "SoloShuffle",
        Category::MythicPlus => "MythicPlus",
        Category::Raids => "Raids",
        Category::Battlegrounds => "Battlegrounds",
        Category::Clip => "Clip",
        Category::Manual => "Manual",
    }
}

/// What the recording in flight is called.
pub open spec fn active_title(active: ActiveRecording) -> Seq<char> {
    match active.draft.title {
        Some(title) => title@,
        None => category_word(active.draft.category),
    }
}

fn title_of(active: &ActiveRecording) -> (title: String)
    ensures
        title@ == active_title(*active),
{
    match &active.draft.title {
        Some(title) => title.clone(),
        None => category_text(active.draft.category).to_owned(),
    }
}

impl Coordinator {
    /// What the recorder is doing, for the user. A stop that was requested is
    /// not over from the user's side until the recording is written, so it
    /// does not fall back to ready; a discarded capture is not being saved, so
    /// it says what is actually happening.
    pub open spec fn is_status(self, status: RecorderStatus) -> bool {
        if self.setup_problems@.len() > 0 {
            status is SetupRequired
        } else {
            match self.capture.active {
                Some(active) => match active.stop_at_ms {
                    Some(_) => status matches RecorderStatus::Overrunning { title, started_unix_ms }
                        && title@ == active_title(active) && started_unix_ms
                        == active.started_unix_ms,
                    None => status matches RecorderStatus::Recording {
                        category,
                        title,
                        started_unix_ms,
                        manual,
                        test,
                    } && {
                        &&& category == active.draft.category
                        &&& title@ == active_title(active)
                        &&& started_unix_ms == active.started_unix_ms
                        &&& manual == (active.mode == RecordingMode::Manual)
                        &&& test == (active.mode is Test)
                    },
                },
                None => match self.capture.ending {
                    Some(EndingCapture::Discard) => status matches RecorderStatus::Finalizing {
                        title,
                    } && title@ == "Discarding recording"@,
                    Some(EndingCapture::Finalize(_)) => status matches RecorderStatus::Finalizing {
                        title,
                    } && title@ == "Saving recording"@,
                    None => if self.media.busy == Some(WorkKind::Finalize) {
                        status matches RecorderStatus::Finalizing { title } && title@
                            == "Saving recording"@
                    } else if !self.armed {
                        status is WaitingForWow
                    } else {
                        status is Ready
                    },
                },
            }
        }
    }

    pub fn status(&self) -> (status: RecorderStatus)
        ensures
            self.is_status(status),
    {
        if self.setup_problems.len() > 0 {
            return RecorderStatus::SetupRequired;
        }
        match &self.capture.active {
            Some(active) => {
                let title = title_of(active);
                return match active.stop_at_ms {
                    Some(_) => RecorderStatus::Overrunning {
                        title,
                        started_unix_ms: active.started_unix_ms,
                    },
                    None => RecorderStatus::Recording {
                        category: active.draft.category,
                        title,
                        started_unix_ms: active.started_unix_ms,
                        manual: active.mode == RecordingMode::Manual,
                        test: matches!(active.mode, RecordingMode::Test(_)),
                    },
                };
            },
            None => {},
        }
        match &self.capture.ending {
            Some(EndingCapture::Discard) => {
                return RecorderStatus::Finalizing { title: "Discarding recording".to_owned() };
            },
            Some(EndingCapture::Finalize(_)) => {
                return RecorderStatus::Finalizing { title: "Saving recording".to_owned() };
            },
            None => {},
        }
        match self.media.busy {
            Some(WorkKind::Finalize) => {
                return RecorderStatus::Finalizing { title: "Saving recording".to_owned() };
            },
            _ => {},
        }
        if !self.armed {
            return RecorderStatus::WaitingForWow;
        }
        RecorderStatus::Ready
    }

    fn active_view(&self) -> (view: Option<ActiveRecordingView>)
        ensures
            match self.capture.active {
                None => view is None,
                Some(active) => view matches Some(v) && v.title@ == active_title(active) && v == (
                ActiveRecordingView {
                    id: active.draft.id,
                    category: active.draft.category,
                    title: v.title,
                    mode: active.mode,
                    started_unix_ms: active.started_unix_ms,
                    requested_replay_ms: active.requested_replay_ms,
                }),
            },
    {
        match &self.capture.active {
            None => None,
            Some(active) => Some(
                ActiveRecordingView {
                    id: active.draft.id.duplicate(),
                    category: active.draft.category,
                    title: title_of(active),
                    mode: active.mode,
                    started_unix_ms: active.started_unix_ms,
                    requested_replay_ms: active.requested_replay_ms,
                },
            ),
        }
    }

    /// `snapshot` shows this state.
    pub open spec fn shown_by(self, snapshot: AppSnapshot) -> bool {
        &&& snapshot.entries == self.library.entries
        &&& snapshot.correlations == self.library.correlations
        &&& snapshot.category_counts@.len() == index::kinds_of(self.library.entries@).len()
        &&& forall|i: int|
            0 <= i < snapshot.category_counts@.len() ==> (
            #[trigger] snapshot.category_counts@[i]).0 == index::kinds_of(
                self.library.entries@,
            )[i] && snapshot.category_counts@[i].1 == index::count_of(
                self.library.entries@,
                snapshot.category_counts@[i].0,
            )
        &&& self.is_status(snapshot.status)
        &&& match self.capture.active {
            None => snapshot.active is None,
            Some(active) => snapshot.active matches Some(v) && v.title@ == active_title(active) && v
                == (ActiveRecordingView {
                id: active.draft.id,
                category: active.draft.category,
                title: v.title,
                mode: active.mode,
                started_unix_ms: active.started_unix_ms,
                requested_replay_ms: active.requested_replay_ms,
            }),
        }
        &&& snapshot.config.same(self.config)
        &&& snapshot.setup_problems@ == self.setup_problems@
        &&& snapshot.advanced_logging@ == self.advanced_logging@
        &&& snapshot.problems@ == self.problems@
        &&& snapshot.work == self.media.work
        &&& snapshot.queued_jobs == self.media.finalizations@.len() + self.media.user_jobs@.len()
        &&& snapshot.storage_used_bytes == self.library.used_bytes
        &&& snapshot.protected_over_limit == self.library.protected_over_limit
        &&& snapshot.cloud == (CloudView {
            configured: self.config.cloud.configured(),
            current: self.uploads.current,
            queued: self.uploads.queue@.len() as usize,
            link: self.uploads.link,
        })
    }

    pub fn build_snapshot(&self) -> (snapshot: AppSnapshot)
        requires
            self.wf(),
        ensures
            self.shown_by(snapshot),
    {
        AppSnapshot {
            entries: share(&self.library.entries),
            correlations: share(&self.library.correlations),
            category_counts: category_counts(&self.library.entries),
            status: self.status(),
            active: self.active_view(),
            config: self.config.clone(),
            setup_problems: copy_validation(&self.setup_problems),
            advanced_logging: copy_flags(&self.advanced_logging),
            problems: copy_problems(&self.problems),
            work: self.media.work,
            queued_jobs: self.media.finalizations.len() + self.media.user_jobs.len(),
            storage_used_bytes: self.library.used_bytes,
            protected_over_limit: self.library.protected_over_limit,
            cloud: CloudView {
                configured: self.config.cloud.credentials().is_some(),
                current: match &self.uploads.current {
                    Some(current) => Some(current.clone()),
                    None => None,
                },
                queued: self.uploads.queue.len(),
                link: match &self.uploads.link {
                    Some(link) => Some(link.clone()),
                    None => None,
                },
            },
        }
    }

    /// What is sent to the shell.
    pub open spec fn sends(self, unsent: bool) -> PublishStep {
        if self.dirty {
            PublishStep::SendNew
        } else if unsent {
            PublishStep::SendUnsent
        } else {
            PublishStep::Nothing
        }
    }

    /// Whether a snapshot goes out: a new one whenever something changed, or
    /// else the one that could not be sent the last time.
    pub fn publish(&mut self, unsent: bool) -> (step: PublishStep)
        ensures
            old(self).wf() ==> final(self).wf(),
            *final(self) == (Coordinator { dirty: false, ..*old(self) }),
            step == old(self).sends(unsent),
    {
        if self.dirty {
            self.dirty = false;
            PublishStep::SendNew
        } else if unsent {
            PublishStep::SendUnsent
        } else {
            PublishStep::Nothing
        }
    }
}

/// What publishing does.
#[derive(Clone, Copy, Debug, PartialEq, Eq, Structural)]
pub enum PublishStep {
    Nothing,
    /// Build a snapshot and send it; an unsent one is out of date.
    SendNew,
    /// Try the unsent snapshot again.
    SendUnsent,
}

fn copy_validation(problems: &Vec<ValidationProblem>) -> (copy: Vec<ValidationProblem>)
    ensures
        copy@ == problems@,
{
    let mut copy: Vec<ValidationProblem> = Vec::new();
    let mut i: usize = 0;
    while i < problems.len()
        invariant
            i <= problems@.len(),
            copy@ == problems@.take(i as int),
        decreases problems@.len() - i,
    {
        copy.push(problems[i].clone());
        i = i + 1;
        assert(problems@.take(i as int) =~= problems@.take(i - 1).push(problems@[i - 1]));
    }
    assert(problems@.take(i as int) =~= problems@);
    copy
}

/// The same problems again.
pub fn copy_problems(problems: &Vec<Problem>) -> (copy: Vec<Problem>)
    ensures
        copy@ == problems@,
{
    let mut copy: Vec<Problem> = Vec::new();
    let mut i: usize = 0;
    while i < problems.len()
        invariant
            i <= problems@.len(),
            copy@ == problems@.take(i as int),
        decreases problems@.len() - i,
    {
        copy.push(problems[i].clone());
        i = i + 1;
        assert(problems@.take(i as int) =~= problems@.take(i - 1).push(problems@[i - 1]));
    }
    assert(problems@.take(i as int) =~= problems@);
    copy
}

fn copy_flags(flags: &Vec<(&'static str, Option<bool>)>) -> (copy: Vec<
    (&'static str, Option<bool>),
>)
    ensures
        copy@ == flags@,
{
    let mut copy: Vec<(&'static str, Option<bool>)> = Vec::new();
    let mut i: usize = 0;
    while i < flags.len()
        invariant
            i <= flags@.len(),
            copy@ == flags@.take(i as int),
        decreases flags@.len() - i,
    {
        copy.push((flags[i].0, flags[i].1));
        i = i + 1;
        assert(flags@.take(i as int) =~= flags@.take(i - 1).push(flags@[i - 1]));
    }
    assert(flags@.take(i as int) =~= flags@);
    copy
}

} // verus!
