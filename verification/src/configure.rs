//! Changing the configuration while the recorder runs.
use vstd::prelude::*;

use crate::config;
use crate::config::{AuthorizedPath, Config, ConfigError, InterfaceSettings, LayoutSettings};
use crate::coordinator::Coordinator;
use crate::domain::{Category, DeathMarkerVisibility, MarkerVisibility, RecoveryAction};
use crate::paths;
use crate::text::same_text;

verus! {

/// A change of preferences that reconfigures nothing.
pub enum InterfaceChange {
    SelectedCategory(Category),
    Markers {
        deaths: DeathMarkerVisibility,
        encounters: MarkerVisibility,
        rounds: MarkerVisibility,
    },
    Layout(LayoutSettings),
    /// The user has seen the release notes of the running version.
    ReleaseNotesSeen,
}

impl InterfaceChange {
    /// Whether the change changes anything that is worth saving.
    pub open spec fn matters(self, config: Config) -> bool {
        match self {
            InterfaceChange::Layout(layout) => config.interface.layout@ != layout@,
            InterfaceChange::ReleaseNotesSeen => config.last_seen_version@ != crate::VERSION@,
            _ => true,
        }
    }

    /// `after` is `before` with the change, and nothing else.
    pub open spec fn makes(self, before: Config, after: Config) -> bool {
        match self {
            InterfaceChange::SelectedCategory(category) => after.same(
                Config {
                    interface: InterfaceSettings {
                        selected_category: category,
                        ..before.interface
                    },
                    ..before
                },
            ),
            InterfaceChange::Markers { deaths, encounters, rounds } => after.same(
                Config {
                    interface: InterfaceSettings {
                        death_markers: deaths,
                        encounter_markers: encounters,
                        round_markers: rounds,
                        ..before.interface
                    },
                    ..before
                },
            ),
            InterfaceChange::Layout(layout) => after.same(
                Config {
                    interface: InterfaceSettings { layout, ..before.interface },
                    ..before
                },
            ),
            InterfaceChange::ReleaseNotesSeen => {
                &&& after.last_seen_version@ == crate::VERSION@
                &&& after.same(Config { last_seen_version: after.last_seen_version, ..before })
            },
        }
    }
}

impl InterfaceChange {
    /// A copy of the configuration with the change.
    fn made(self, config: &Config) -> (draft: Config)
        ensures
            self.makes(*config, draft),
    {
        let mut draft = config.clone();
        match self {
            InterfaceChange::SelectedCategory(category) => {
                draft.interface.selected_category = category;
            },
            InterfaceChange::Markers { deaths, encounters, rounds } => {
                draft.interface.death_markers = deaths;
                draft.interface.encounter_markers = encounters;
                draft.interface.round_markers = rounds;
            },
            InterfaceChange::Layout(layout) => {
                draft.interface.layout = layout;
            },
            InterfaceChange::ReleaseNotesSeen => {
                draft.last_seen_version = crate::VERSION.to_owned();
            },
        }
        draft
    }
}

impl Coordinator {
    /// A change of preferences is in force at once, where it changes anything.
    pub open spec fn changes_interface(
        self,
        change: InterfaceChange,
        after: Coordinator,
        previous: Option<Config>,
    ) -> bool {
        &&& previous is Some <==> change.matters(self.config)
        &&& previous is None ==> after == (Coordinator { dirty: true, ..self })
        &&& previous matches Some(previous) ==> {
            &&& previous == self.config
            &&& change.makes(self.config, after.config)
            &&& after == (Coordinator { config: after.config, dirty: true, ..self })
        }
    }

    /// Adopt a change of preferences and show it; saving it comes after.
    /// Persisting first would put two syncs in front of every category click.
    /// What comes back is the configuration to return to if saving fails.
    pub fn change_interface(&mut self, change: InterfaceChange) -> (previous: Option<Config>)
        ensures
            old(self).wf() ==> final(self).wf(),
            old(self).changes_interface(change, *final(self), previous),
    {
        self.dirty = true;
        let matters = match &change {
            InterfaceChange::Layout(layout) => !self.config.interface.layout.same_as(layout),
            InterfaceChange::ReleaseNotesSeen => !same_text(
                &self.config.last_seen_version,
                crate::VERSION,
            ),
            _ => true,
        };
        if !matters {
            return None;
        }
        let mut draft = change.made(&self.config);
        std::mem::swap(&mut self.config, &mut draft);
        Some(draft)
    }

    /// What is left of changed preferences after they were written.
    pub open spec fn keeps_interface(
        self,
        previous: Config,
        outcome: Result<(), ConfigError>,
        now_ms: i64,
        after: Coordinator,
    ) -> bool {
        match outcome {
            Ok(_) => after == self,
            Err(error) => (Coordinator {
                config: if error.committed() {
                    self.config
                } else {
                    previous
                },
                ..self
            }).complains(
                after,
                "Settings could not be saved."@,
                Some(error.words()),
                Some(RecoveryAction::Retry),
                now_ms,
            ),
        }
    }

    /// The changed preferences were written. A failed write rolls them back,
    /// unless the new file is visible already: rolling back then would leave
    /// the next launch loading a value this one just told the user it dropped.
    pub fn interface_saved(
        &mut self,
        previous: Config,
        outcome: Result<(), ConfigError>,
        now_ms: i64,
    )
        requires
            old(self).wf(),
        ensures
            final(self).wf(),
            old(self).keeps_interface(previous, outcome, now_ms, *final(self)),
    {
        match outcome {
            Ok(_) => {},
            Err(error) => {
                if !error.is_committed() {
                    self.config = previous;
                }
                self.push_problem(
                    "Settings could not be saved.",
                    Some(error.message()),
                    Some(RecoveryAction::Retry),
                    now_ms,
                );
            },
        }
    }
}

/// A preference that could not be written is gone again: the configuration is
/// the one from before the change.
pub proof fn failed_preferences_roll_back(
    before: Coordinator,
    changed: Coordinator,
    previous: Config,
    error: ConfigError,
    now_ms: i64,
    after: Coordinator,
)
    requires
        previous == before.config,
        !error.committed(),
        (Coordinator { config: previous, ..changed }).complains(
            after,
            "Settings could not be saved."@,
            Some(error.words()),
            Some(RecoveryAction::Retry),
            now_ms,
        ),
    ensures
        after.config == before.config,
{
}

/// Release notes are shown once per version: having seen them is worth saving
/// once, and never again for the version that runs.
pub proof fn seen_release_notes_stay_seen(before: Config, after: Config)
    requires
        InterfaceChange::ReleaseNotesSeen.makes(before, after),
    ensures
        !InterfaceChange::ReleaseNotesSeen.matters(after),
{
}

/// Which parts of the recorder a new configuration touches.
#[derive(Clone, Copy, Debug, PartialEq, Eq, Structural)]
pub struct ConfigChanges {
    pub logs: bool,
    pub storage: bool,
    pub capture: bool,
    pub limit: bool,
}

/// The parts of the recorder that differ between two configurations.
pub open spec fn changes_between(before: Config, after: Config) -> ConfigChanges {
    ConfigChanges {
        logs: !after.flavors.same(before.flavors) || after.validate_log_paths
            != before.validate_log_paths,
        storage: !after.storage.recording_dir.same(before.storage.recording_dir)
            || after.storage.separate_buffer_dir != before.storage.separate_buffer_dir
            || !after.storage.buffer_dir.same(before.storage.buffer_dir),
        capture: after.capture@ != before.capture@,
        limit: after.storage.limit != before.storage.limit,
    }
}

fn find_changes(before: &Config, after: &Config) -> (changes: ConfigChanges)
    ensures
        changes == changes_between(*before, *after),
{
    ConfigChanges {
        logs: !after.flavors.same_as(&before.flavors) || after.validate_log_paths
            != before.validate_log_paths,
        storage: !after.storage.recording_dir.same_as(&before.storage.recording_dir)
            || after.storage.separate_buffer_dir != before.storage.separate_buffer_dir
            || !after.storage.buffer_dir.same_as(&before.storage.buffer_dir),
        capture: !after.capture.same_as(&before.capture),
        limit: after.storage.limit != before.storage.limit,
    }
}

/// A folder that is merely written in another way is the same folder: settings
/// that differ in nothing else change no part of the recorder.
pub proof fn respelled_folders_change_nothing(before: Config, recordings: AuthorizedPath)
    requires
        paths::same_path(recordings.path@, before.storage.recording_dir.path@),
        recordings.authorization == before.storage.recording_dir.authorization,
    ensures
        changes_between(
            before,
            Config {
                storage: config::StorageSettings { recording_dir: recordings, ..before.storage },
                ..before
            },
        ) == (ConfigChanges { logs: false, storage: false, capture: false, limit: false }),
{
}

/// A configuration on its way to disk.
pub struct PendingConfig {
    pub draft: Config,
    pub changes: ConfigChanges,
}

impl Coordinator {
    /// Settings only change while nothing is being captured or saved.
    pub open spec fn settled(self) -> bool {
        &&& !self.in_flight()
        &&& self.media.busy is None
        &&& self.media.finalizations@.len() == 0
        &&& self.media.user_jobs@.len() == 0
    }

    /// Settings never own the release-notes acknowledgement: their draft may
    /// have been made while the "What's new" dialog was still up.
    pub open spec fn keeping_notes(self, draft: Config) -> Config {
        Config { last_seen_version: self.config.last_seen_version, ..draft }
    }

    /// New settings go to disk if they are usable and nothing is being
    /// captured or saved.
    pub open spec fn saves_config(
        self,
        draft: Config,
        now_ms: i64,
        after: Coordinator,
        pending: Option<PendingConfig>,
    ) -> bool {
        let kept = self.keeping_notes(draft);
        if !self.settled() {
            &&& pending is None
            &&& self.complains(
                after,
                "Settings cannot change while a recording is being captured or saved."@,
                None,
                Some(RecoveryAction::Retry),
                now_ms,
            )
        } else if config::usable_problems(kept).len() > 0 {
            &&& pending is None
            &&& config::problem_texts(after.setup_problems@) == config::usable_problems(kept)
            &&& (Coordinator { setup_problems: after.setup_problems, ..self }).complains(
                after,
                "Those settings are not usable yet."@,
                None,
                Some(RecoveryAction::OpenSettings),
                now_ms,
            )
        } else {
            &&& after == self
            &&& pending matches Some(pending) && pending.draft == kept && pending.changes
                == changes_between(self.config, kept)
        }
    }

    /// Whether new settings may be saved; if not, the user is told why.
    pub fn save_config(&mut self, draft: Config, now_ms: i64) -> (pending: Option<PendingConfig>)
        requires
            old(self).wf(),
        ensures
            final(self).wf(),
            old(self).saves_config(draft, now_ms, *final(self), pending),
    {
        if self.capture_in_flight() || self.media.busy.is_some() || self.media.finalizations.len()
            > 0 || self.media.user_jobs.len() > 0 {
            self.push_problem(
                "Settings cannot change while a recording is being captured or saved.",
                None,
                Some(RecoveryAction::Retry),
                now_ms,
            );
            return None;
        }
        let mut draft = draft;
        draft.last_seen_version = self.config.last_seen_version.clone();
        let problems = draft.validate();
        assert(config::problem_texts(problems@).len() == problems@.len());
        if problems.len() > 0 {
            self.setup_problems = problems;
            self.push_problem(
                "Those settings are not usable yet.",
                None,
                Some(RecoveryAction::OpenSettings),
                now_ms,
            );
            return None;
        }
        let changes = find_changes(&self.config, &draft);
        Some(PendingConfig { draft, changes })
    }

    /// `after` has the settings in force, whose problems are gone.
    pub open spec fn adopts(self, draft: Config, after: Coordinator) -> bool {
        &&& after.setup_problems@.len() == 0
        &&& after == (Coordinator {
            config: draft,
            setup_problems: after.setup_problems,
            ..self
        })
    }

    /// What comes of writing new settings. Those that reached the disk are in
    /// force and what they change is set up again, even where the write ended
    /// in an error: going back to the old ones would leave the next launch
    /// loading settings that this one dropped. An error is always told, and
    /// one from before the file was replaced changes nothing else.
    pub open spec fn takes_over(
        self,
        pending: PendingConfig,
        outcome: Result<(), ConfigError>,
        now_ms: i64,
        after: Coordinator,
        changes: Option<ConfigChanges>,
    ) -> bool {
        match outcome {
            Ok(_) => changes == Some(pending.changes) && self.adopts(pending.draft, after),
            Err(error) => {
                let told = Coordinator { problems: self.problems, dirty: self.dirty, ..after };
                &&& if error.committed() {
                    changes == Some(pending.changes) && self.adopts(pending.draft, told)
                } else {
                    changes is None && told == self
                }
                &&& told.complains(
                    after,
                    "Settings could not be saved."@,
                    Some(error.words()),
                    Some(RecoveryAction::Retry),
                    now_ms,
                )
            },
        }
    }

    /// The new settings were written, or could not be. What comes back is what
    /// has to be set up again, where they are in force.
    pub fn config_saved(
        &mut self,
        pending: PendingConfig,
        outcome: Result<(), ConfigError>,
        now_ms: i64,
    ) -> (changes: Option<ConfigChanges>)
        requires
            old(self).wf(),
        ensures
            final(self).wf(),
            old(self).takes_over(pending, outcome, now_ms, *final(self), changes),
    {
        let PendingConfig { draft, changes } = pending;
        let written = match &outcome {
            Ok(_) => true,
            Err(error) => error.is_committed(),
        };
        if written {
            self.config = draft;
            self.setup_problems = Vec::new();
        }
        match outcome {
            Ok(_) => {},
            Err(error) => {
                self.push_problem(
                    "Settings could not be saved.",
                    Some(error.message()),
                    Some(RecoveryAction::Retry),
                    now_ms,
                );
            },
        }
        if written {
            Some(changes)
        } else {
            None
        }
    }

    /// The new recording directory could not be prepared.
    pub fn new_storage_failed(&mut self, detail: String, now_ms: i64)
        requires
            old(self).wf(),
        ensures
            final(self).wf(),
            old(self).complains(
                *final(self),
                "The new recording directory could not be prepared."@,
                Some(detail@),
                Some(RecoveryAction::OpenSettings),
                now_ms,
            ),
    {
        self.push_problem(
            "The new recording directory could not be prepared.",
            Some(detail),
            Some(RecoveryAction::OpenSettings),
            now_ms,
        );
    }

    /// The media worker could not be started on the new directory.
    pub fn media_restart_failed(&mut self, detail: String, now_ms: i64)
        requires
            old(self).wf(),
        ensures
            final(self).wf(),
            old(self).complains(
                *final(self),
                "The media worker could not switch to the new storage directory."@,
                Some(detail@),
                Some(RecoveryAction::Retry),
                now_ms,
            ),
    {
        self.push_problem(
            "The media worker could not switch to the new storage directory.",
            Some(detail),
            Some(RecoveryAction::Retry),
            now_ms,
        );
    }

    /// Capture that is down with new settings is told of.
    pub open spec fn settles_changes(
        self,
        changes: ConfigChanges,
        now_ms: i64,
        after: Coordinator,
    ) -> bool {
        if (changes.capture || changes.storage) && !self.armed {
            self.complains(
                after,
                "Screen capture did not restart with the new settings."@,
                None,
                Some(RecoveryAction::Retry),
                now_ms,
            )
        } else {
            after == self
        }
    }

    /// The saved settings stand; if capture is down after all, the user is
    /// told.
    pub fn reconfigured(&mut self, changes: ConfigChanges, now_ms: i64)
        requires
            old(self).wf(),
        ensures
            final(self).wf(),
            old(self).settles_changes(changes, now_ms, *final(self)),
    {
        if (changes.capture || changes.storage) && !self.armed {
            self.push_problem(
                "Screen capture did not restart with the new settings.",
                None,
                Some(RecoveryAction::Retry),
                now_ms,
            );
        }
    }
}

/// The settings in force are the ones on disk: a write that replaced the file
/// puts the new ones in force whether or not it ended in an error, and any
/// other write leaves the old ones.
pub proof fn settings_in_force_are_on_disk(
    before: Coordinator,
    pending: PendingConfig,
    outcome: Result<(), ConfigError>,
    now_ms: i64,
    after: Coordinator,
    changes: Option<ConfigChanges>,
)
    requires
        before.takes_over(pending, outcome, now_ms, after, changes),
    ensures
        ({
            let written = outcome is Ok || outcome->Err_0.committed();
            &&& after.config == if written {
                pending.draft
            } else {
                before.config
            }
            &&& changes is Some == written
        }),
{
}

} // verus!
