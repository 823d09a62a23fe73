//! The Settings dialog: which rows are greyed, when a draft may be applied,
//! and what the dialog says about it.
use vstd::prelude::*;

use crate::config;
use crate::config::{AuthorizedPath, Config, ValidationProblem};
use crate::coordinator::AppSnapshot;
use crate::domain::{Problem, RecorderStatus};
use crate::recorder::AudioDevice;
use crate::text;
use crate::text::same_text;
use crate::ui::amount;
use crate::ui::amount::push_gib;
use crate::ui::rows::PathSetting;
use crate::ui::status;
use crate::ui::status::advanced_logging_warnings;

verus! {

/// Whether a row's parent is on; a row without one always is.
pub open spec fn row_active(field: Seq<char>, config: Config) -> bool {
    if field == "activities.min_raid_difficulty"@ || field
        == "activities.min_raid_duration_seconds"@ || field == "activities.current_raid_only"@
        || field == "activities.raid_overrun_seconds"@ {
        config.activities.record_raids
    } else if field == "activities.min_keystone_level"@ || field
        == "activities.dungeon_overrun_seconds"@ {
        config.activities.record_dungeons
    } else if field == "storage.buffer_dir"@ {
        config.storage.separate_buffer_dir
    } else if field == "manual.sound"@ {
        config.manual.enabled
    } else if field == "capture.audio_input"@ {
        config.capture.audio_input is Some
    } else if field == "cloud.account"@ || field == "cloud.password"@ || field == "cloud.guild"@
        || field == "cloud.auto_upload"@ {
        config.cloud.enabled
    } else {
        true
    }
}

/// Dependency sensitivity: a disabled parent greys its children without
/// erasing their values.
pub fn row_sensitive(field: &str, config: &Config) -> (sensitive: bool)
    ensures
        sensitive == row_active(field@, *config),
{
    if same_text(field, "activities.min_raid_difficulty") || same_text(
        field,
        "activities.min_raid_duration_seconds",
    ) || same_text(field, "activities.current_raid_only") || same_text(
        field,
        "activities.raid_overrun_seconds",
    ) {
        config.activities.record_raids
    } else if same_text(field, "activities.min_keystone_level") || same_text(
        field,
        "activities.dungeon_overrun_seconds",
    ) {
        config.activities.record_dungeons
    } else if same_text(field, "storage.buffer_dir") {
        config.storage.separate_buffer_dir
    } else if same_text(field, "manual.sound") {
        config.manual.enabled
    } else if same_text(field, "capture.audio_input") {
        config.capture.audio_input.is_some()
    } else if same_text(field, "cloud.account") || same_text(field, "cloud.password")
        || same_text(field, "cloud.guild") || same_text(field, "cloud.auto_upload") {
        config.cloud.enabled
    } else {
        true
    }
}

/// Why reconfiguring is unsafe now.
pub open spec fn unsafe_words(snapshot: AppSnapshot) -> Option<Seq<char>> {
    match snapshot.status {
        RecorderStatus::Recording { .. } => Some("while a recording is active"@),
        RecorderStatus::Overrunning { .. } => Some("while a recording finishes its overrun"@),
        RecorderStatus::Finalizing { .. } => Some("while a recording is being saved"@),
        _ => if snapshot.work is Some || snapshot.queued_jobs > 0 {
            Some("while media work is in progress"@)
        } else {
            None
        },
    }
}

pub open spec fn reason_words(reason: Option<&'static str>) -> Option<Seq<char>> {
    match reason {
        Some(reason) => Some(reason@),
        None => None,
    }
}

/// Reconfiguration is unsafe while capturing, overrunning, or finalizing or
/// queueing media work.
pub fn unsafe_reason(snapshot: &AppSnapshot) -> (reason: Option<&'static str>)
    ensures
        reason_words(reason) == unsafe_words(*snapshot),
{
    match &snapshot.status {
        RecorderStatus::Recording { .. } => Some("while a recording is active"),
        RecorderStatus::Overrunning { .. } => Some("while a recording finishes its overrun"),
        RecorderStatus::Finalizing { .. } => Some("while a recording is being saved"),
        _ => if snapshot.work.is_some() || snapshot.queued_jobs > 0 {
            Some("while media work is in progress")
        } else {
            None
        },
    }
}

/// What applying a draft comes to.
#[derive(PartialEq)]
pub enum ApplyOutcome {
    Blocked(&'static str),
    Invalid(Vec<ValidationProblem>),
    Save(Box<Config>),
}

/// A draft is applied if nothing blocks it and it is usable.
pub open spec fn is_outcome(
    draft: Config,
    reason: Option<&'static str>,
    outcome: ApplyOutcome,
) -> bool {
    match reason {
        Some(reason) => outcome == ApplyOutcome::Blocked(reason),
        None => if config::usable_problems(draft).len() == 0 {
            outcome matches ApplyOutcome::Save(saved) && saved.same(draft)
        } else {
            outcome matches ApplyOutcome::Invalid(problems) && config::problem_texts(problems@)
                == config::usable_problems(draft)
        },
    }
}

pub fn apply_outcome(draft: &Config, unsafe_reason: Option<&'static str>) -> (outcome: ApplyOutcome)
    ensures
        is_outcome(*draft, unsafe_reason, outcome),
{
    match unsafe_reason {
        Some(reason) => ApplyOutcome::Blocked(reason),
        None => {
            let problems = draft.validate();
            assert(problems@.len() == config::problem_texts(problems@).len());
            if problems.len() == 0 {
                ApplyOutcome::Save(Box::new(draft.clone()))
            } else {
                ApplyOutcome::Invalid(problems)
            }
        },
    }
}

/// A folder is usable if a file can be written to it and removed again.
pub open spec fn is_probed(
    write_error: Option<String>,
    remove_error: Option<String>,
    result: Result<(), String>,
) -> bool {
    match (write_error, remove_error) {
        (Some(error), _) => result matches Err(message) && message@
            == "The folder cannot be written: "@ + error@,
        (None, Some(error)) => result matches Err(message) && message@
            == "The folder cannot be written: "@ + error@,
        (None, None) => result is Ok,
    }
}

/// What a folder probe found, once the folder could be read: a failed write
/// counts before a probe file that stays behind.
pub fn probe_result(write_error: Option<String>, remove_error: Option<String>) -> (result: Result<
    (),
    String,
>)
    ensures
        is_probed(write_error, remove_error, result),
{
    match (write_error, remove_error) {
        (Some(error), _) => Err(probe_write_failed(&error)),
        (None, Some(error)) => Err(probe_write_failed(&error)),
        (None, None) => Ok(()),
    }
}

/// What is said of a folder that cannot be read.
pub fn probe_read_failed(error: &str) -> (message: String)
    ensures
        message@ == "The folder cannot be read: "@ + error@,
{
    let mut message = "The folder cannot be read: ".to_owned();
    message.append(error);
    message
}

/// What is said of a folder that cannot be written.
pub fn probe_write_failed(error: &str) -> (message: String)
    ensures
        message@ == "The folder cannot be written: "@ + error@,
{
    let mut message = "The folder cannot be written: ".to_owned();
    message.append(error);
    message
}

/// What a directory's row says, and whether the directory has to be chosen
/// again.
pub open spec fn path_words(path: AuthorizedPath) -> (Seq<char>, bool) {
    if path.path@.len() == 0 {
        ("Not selected"@, false)
    } else if path.usable() {
        (path.path@, false)
    } else {
        (
            "Permission required. Flatpak needs you to select this folder again: "@ + path.path@,
            true,
        )
    }
}

/// Subtitle text and whether the path needs Flatpak reauthorization.
pub fn path_state(path: &AuthorizedPath) -> (state: (String, bool))
    ensures
        (state.0@, state.1) == path_words(*path),
{
    if path.path.as_str().is_empty() {
        return ("Not selected".to_owned(), false);
    }
    if path.is_authorized() {
        (path.path.clone(), false)
    } else {
        let mut shown = "Permission required. Flatpak needs you to select this folder again: ".to_owned();
        shown.append(&path.path);
        (shown, true)
    }
}

/// What the button of a directory's row says.
pub open spec fn button_words(path: AuthorizedPath) -> Seq<char> {
    if path_words(path).1 {
        "Select this folder…"@
    } else {
        "Select folder…"@
    }
}

/// The label of the button that chooses a directory: one that has to be chosen
/// again is named as such.
pub fn folder_button(path: &AuthorizedPath) -> (label: &'static str)
    ensures
        label@ == button_words(*path),
{
    if path_state(path).1 {
        "Select this folder…"
    } else {
        "Select folder…"
    }
}

/// A directory's row asks for attention.
pub open spec fn asks_for_attention(field: Seq<char>, config: Config) -> bool {
    match PathSetting::of_field(field) {
        None => false,
        Some(setting) => {
            &&& row_active(field, config)
            &&& setting.is_flavor() ==> setting.on(config)
            &&& !setting.path(config).usable()
        },
    }
}

/// A required folder that is unset, or one whose authorization did not
/// survive the move into the sandbox, is the only thing standing between a
/// fresh install and a working recorder. Rows the user
/// does not have to fill in stay quiet: a greyed-out dependant such as the
/// replay-buffer folder while it shares the recording folder, and the log
/// folder of a flavour that is switched off.
pub fn path_needs_attention(field: &str, config: &Config) -> (attention: bool)
    ensures
        attention == asks_for_attention(field@, *config),
{
    match PathSetting::from_field(field) {
        None => false,
        Some(setting) => {
            let spec = setting.spec();
            if !row_sensitive(field, config) {
                return false;
            }
            match spec.enabled {
                Some(enabled) => {
                    if !enabled.get(config) {
                        return false;
                    }
                },
                None => {},
            }
            let path = spec.get(config);
            path.path.as_str().is_empty() || path_state(path).1
        },
    }
}

/// A configuration that is usable leaves no directory's row asking.
pub proof fn usable_configs_ask_for_nothing(field: Seq<char>, config: Config)
    requires
        config::usable_problems(config).len() == 0,
    ensures
        !asks_for_attention(field, config),
{
    reveal_strlit("storage.buffer_dir");
    reveal_strlit("activities.min_raid_difficulty");
    reveal_strlit("activities.min_raid_duration_seconds");
    reveal_strlit("activities.current_raid_only");
    reveal_strlit("activities.raid_overrun_seconds");
    reveal_strlit("activities.min_keystone_level");
    reveal_strlit("activities.dungeon_overrun_seconds");
    assert("storage.buffer_dir"@[0] == 's');
    let flavors = config.flavors;
    let named = config.validate_log_paths;
    assert(config.storage.recording_dir.usable());
    assert(config.storage.separate_buffer_dir ==> config.storage.buffer_dir.usable());
    assert(config::flavor_problems("flavors.retail"@, flavors.retail, named).len() == 0);
    assert(config::flavor_problems("flavors.retail_ptr"@, flavors.retail_ptr, named).len() == 0);
    assert(config::flavor_problems("flavors.classic"@, flavors.classic, named).len() == 0);
    assert(config::flavor_problems("flavors.classic_ptr"@, flavors.classic_ptr, named).len() == 0);
    assert(config::flavor_problems("flavors.era"@, flavors.era, named).len() == 0);
}

/// A folder that recording needs asks for attention until it is chosen and
/// its use is allowed: the recording folder, and the log folder of every
/// flavour that is switched on.
pub proof fn missing_folders_keep_asking(setting: PathSetting, config: Config)
    requires
        setting == PathSetting::RecordingDir || (setting.is_flavor() && setting.on(config)),
        !setting.path(config).usable(),
    ensures
        asks_for_attention(setting.row().0, config),
{
    reveal_strlit("flavors.retail");
    reveal_strlit("flavors.retail_ptr");
    reveal_strlit("flavors.classic");
    reveal_strlit("flavors.classic_ptr");
    reveal_strlit("flavors.era");
    reveal_strlit("storage.recording_dir");
    reveal_strlit("storage.buffer_dir");
    reveal_strlit("activities.min_raid_difficulty");
    reveal_strlit("activities.min_raid_duration_seconds");
    reveal_strlit("activities.current_raid_only");
    reveal_strlit("activities.raid_overrun_seconds");
    reveal_strlit("activities.min_keystone_level");
    reveal_strlit("activities.dungeon_overrun_seconds");
    reveal_strlit("manual.sound");
    reveal_strlit("capture.audio_input");
    reveal_strlit("cloud.account");
    reveal_strlit("cloud.password");
    reveal_strlit("cloud.guild");
    reveal_strlit("cloud.auto_upload");
    let field = setting.row().0;
    assert(field[0] == 'f' || field[0] == 's');
    assert(field.len() == 14 || field.len() == 18 || field.len() == 15 || field.len() == 19
        || field.len() == 11 || field.len() == 21);
    assert("storage.buffer_dir"@.len() == 18 && "storage.buffer_dir"@[0] == 's');
    assert("activities.min_raid_difficulty"@[0] == 'a');
    assert("activities.min_raid_duration_seconds"@[0] == 'a');
    assert("activities.current_raid_only"@[0] == 'a');
    assert("activities.raid_overrun_seconds"@[0] == 'a');
    assert("activities.min_keystone_level"@[0] == 'a');
    assert("activities.dungeon_overrun_seconds"@[0] == 'a');
    assert("manual.sound"@[0] == 'm');
    assert("capture.audio_input"@[0] == 'c');
    assert("cloud.account"@[0] == 'c');
    assert("cloud.password"@[0] == 'c');
    assert("cloud.guild"@[0] == 'c');
    assert("cloud.auto_upload"@[0] == 'c');
    assert(row_active(field, config));
    assert(PathSetting::of_field(field) == Some(setting));
}

/// The first device of a list that has this id, or the list's length.
pub open spec fn device_place(devices: Seq<AudioDevice>, id: Seq<char>) -> int
    decreases devices.len(),
{
    if devices.len() == 0 {
        0
    } else if devices[0].id@ == id {
        0
    } else {
        1 + device_place(devices.skip(1), id)
    }
}

/// What an audio row offers: the devices, and the selected one as unavailable
/// where it is not among them.
pub open spec fn is_audio_model(
    devices: Seq<AudioDevice>,
    selected: Seq<char>,
    model: Seq<AudioDevice>,
) -> bool {
    if device_place(devices, selected) < devices.len() {
        model == devices
    } else {
        &&& model.len() == devices.len() + 1
        &&& model.drop_last() == devices
        &&& model.last().id@ == selected
        &&& model.last().label@ == selected + " - Unavailable"@
    }
}

/// What an audio row offers always holds the selected device, at the place
/// that the row shows.
pub proof fn the_selected_device_stays_selected(
    devices: Seq<AudioDevice>,
    selected: Seq<char>,
    model: Seq<AudioDevice>,
)
    requires
        is_audio_model(devices, selected, model),
    ensures
        0 <= device_place(devices, selected) < model.len(),
        model[device_place(devices, selected)].id@ == selected,
{
    lemma_device_place(devices, selected);
}

proof fn lemma_device_place(devices: Seq<AudioDevice>, id: Seq<char>)
    ensures
        0 <= device_place(devices, id) <= devices.len(),
        device_place(devices, id) < devices.len() ==> devices[device_place(devices, id)].id@ == id,
    decreases devices.len(),
{
    if devices.len() > 0 && devices[0].id@ != id {
        lemma_device_place(devices.skip(1), id);
    }
}

/// The unavailable-device rule: a selected device missing from the list stays
/// visible as unavailable and remains selected until the user chooses.
pub fn audio_model(devices: &[AudioDevice], selected: &str) -> (shown: (Vec<AudioDevice>, u32))
    ensures
        is_audio_model(devices@, selected@, shown.0@),
        shown.1 == device_place(devices@, selected@) as u32,
{
    let mut model: Vec<AudioDevice> = Vec::new();
    let mut place: usize = devices.len();
    let mut i: usize = 0;
    assert(devices@.skip(0) =~= devices@);
    while i < devices.len()
        invariant
            i <= devices@.len(),
            model@ == devices@.take(i as int),
            place <= devices@.len(),
            place < i ==> place == device_place(devices@, selected@),
            place >= i ==> place == devices@.len() && device_place(devices@, selected@) == i
                + device_place(devices@.skip(i as int), selected@),
        decreases devices@.len() - i,
    {
        assert(devices@.skip(i as int).skip(1) =~= devices@.skip(i + 1));
        if place == devices.len() && same_text(&devices[i].id, selected) {
            place = i;
        }
        model.push(devices[i].clone());
        i = i + 1;
        assert(devices@.take(i as int) =~= devices@.take(i - 1).push(devices@[i - 1]));
    }
    assert(devices@.take(i as int) =~= devices@);
    assert(devices@.skip(devices@.len() as int).len() == 0);
    if place == devices.len() {
        let mut label = selected.to_owned();
        label.append(" - Unavailable");
        model.push(AudioDevice { id: selected.to_owned(), label });
        assert(model@.drop_last() =~= devices@);
    }
    (model, place as u32)
}

/// The line on how much the library takes.
pub open spec fn storage_words(used_bytes: u64) -> Seq<char> {
    "Currently using "@ + amount::gib_text(used_bytes as nat) + " GiB."@
}

/// How much the library takes.
pub fn storage_summary(used_bytes: u64) -> (summary: String)
    ensures
        summary@ == storage_words(used_bytes),
{
    let mut summary = "Currently using ".to_owned();
    push_gib(&mut summary, used_bytes);
    summary.append(" GiB.");
    summary
}

/// How the dialog's feedback line is styled.
#[derive(Clone, Copy, Debug, PartialEq, Eq, Structural)]
pub enum FeedbackTone {
    Error,
    Warning,
    Success,
    Dim,
}

/// What the dialog's feedback line says.
#[derive(Clone, Debug, PartialEq, Eq)]
pub struct Feedback {
    pub text: String,
    pub tone: FeedbackTone,
}

impl View for Feedback {
    type V = (Seq<char>, FeedbackTone);

    open spec fn view(&self) -> (Seq<char>, FeedbackTone) {
        (self.text@, self.tone)
    }
}

pub open spec fn feedback_view(feedback: Option<Feedback>) -> Option<(Seq<char>, FeedbackTone)> {
    match feedback {
        Some(feedback) => Some(feedback@),
        None => None,
    }
}

/// One bullet per line.
pub open spec fn bulleted(lines: Seq<Seq<char>>) -> Seq<char> {
    text::interleaved(lines.map_values(|line: Seq<char>| "• "@ + line), "\n"@)
}

fn push_bullet(out: &mut String, first: bool, line: &str, Ghost(before): Ghost<Seq<Seq<char>>>)
    requires
        old(out)@ == bulleted(before),
        first == (before.len() == 0),
    ensures
        final(out)@ == bulleted(before.push(line@)),
{
    if !first {
        out.append("\n");
    }
    out.append("• ");
    out.append(line);
    proof {
        let all = before.push(line@).map_values(|line: Seq<char>| "• "@ + line);
        let front = before.map_values(|line: Seq<char>| "• "@ + line);
        assert(all.drop_last() =~= front);
        assert(out@ =~= bulleted(before.push(line@)));
    }
}

/// The messages of a list of validation problems.
pub open spec fn messages(problems: Seq<ValidationProblem>) -> Seq<Seq<char>> {
    problems.map_values(|problem: ValidationProblem| problem.message@)
}

/// What the dialog says of a draft with problems.
pub fn problem_feedback(problems: &Vec<ValidationProblem>) -> (feedback: Feedback)
    ensures
        feedback@ == (bulleted(messages(problems@)), FeedbackTone::Error),
{
    let mut out = String::new();
    let mut i: usize = 0;
    assert(out@ =~= bulleted(messages(problems@.take(0))));
    while i < problems.len()
        invariant
            i <= problems@.len(),
            out@ == bulleted(messages(problems@.take(i as int))),
        decreases problems@.len() - i,
    {
        let ghost before = messages(problems@.take(i as int));
        push_bullet(&mut out, i == 0, &problems[i].message, Ghost(before));
        i = i + 1;
        assert(messages(problems@.take(i as int)) =~= before.push(problems@[i - 1].message@));
    }
    assert(problems@.take(i as int) =~= problems@);
    Feedback { text: out, tone: FeedbackTone::Error }
}

/// The first row that edits a field, or the number of rows.
pub open spec fn row_place(fields: Seq<&'static str>, field: Seq<char>) -> int
    decreases fields.len(),
{
    if fields.len() == 0 {
        0
    } else if fields[0]@ == field {
        0
    } else {
        1 + row_place(fields.skip(1), field)
    }
}

/// The row that edits a field, where there is one.
pub open spec fn marked(fields: Seq<&'static str>, field: Seq<char>) -> Option<usize> {
    if row_place(fields, field) < fields.len() {
        Some(row_place(fields, field) as usize)
    } else {
        None
    }
}

/// The row that a problem is marked on: the first that edits its field.
pub fn marked_row(fields: &Vec<&'static str>, problem: &ValidationProblem) -> (row: Option<usize>)
    ensures
        row == marked(fields@, problem.field@),
{
    let mut i: usize = 0;
    assert(fields@.skip(0) =~= fields@);
    while i < fields.len()
        invariant
            i <= fields@.len(),
            row_place(fields@, problem.field@) == i + row_place(
                fields@.skip(i as int),
                problem.field@,
            ),
        decreases fields@.len() - i,
    {
        assert(fields@.skip(i as int).skip(1) =~= fields@.skip(i + 1));
        if same_text(fields[i], problem.field) {
            return Some(i);
        }
        i = i + 1;
    }
    assert(fields@.skip(fields@.len() as int).len() == 0);
    None
}

/// The summaries of the problems since a moment.
pub open spec fn summaries_since(problems: Seq<Problem>, since_ms: i64) -> Seq<Seq<char>>
    decreases problems.len(),
{
    if problems.len() == 0 {
        seq![]
    } else {
        let before = summaries_since(problems.drop_last(), since_ms);
        if problems.last().occurred_unix_ms >= since_ms {
            before.push(problems.last().summary@)
        } else {
            before
        }
    }
}

fn runtime_problems(problems: &Vec<Problem>, since_ms: i64) -> (list: String)
    ensures
        list@ == bulleted(summaries_since(problems@, since_ms)),
        (list@.len() == 0) == (summaries_since(problems@, since_ms).len() == 0),
{
    let mut out = String::new();
    let mut first = true;
    let mut i: usize = 0;
    assert(out@ =~= bulleted(summaries_since(problems@.take(0), since_ms)));
    while i < problems.len()
        invariant
            i <= problems@.len(),
            out@ == bulleted(summaries_since(problems@.take(i as int), since_ms)),
            first == (summaries_since(problems@.take(i as int), since_ms).len() == 0),
            first == (out@.len() == 0),
        decreases problems@.len() - i,
    {
        let ghost before = summaries_since(problems@.take(i as int), since_ms);
        let problem = &problems[i];
        assert(problems@.take(i + 1).drop_last() =~= problems@.take(i as int));
        if problem.occurred_unix_ms >= since_ms {
            push_bullet(&mut out, first, &problem.summary, Ghost(before));
            first = false;
            proof {
                lemma_bullets_show(before, problem.summary@);
            }
        }
        i = i + 1;
    }
    assert(problems@.take(i as int) =~= problems@);
    out
}

proof fn lemma_bullets_show(before: Seq<Seq<char>>, line: Seq<char>)
    ensures
        bulleted(before.push(line)).len() > 0,
{
    reveal_strlit("• ");
    let all = before.push(line).map_values(|line: Seq<char>| "• "@ + line);
    assert(all.last() == "• "@ + line);
}

/// The newest problem that says the capture settings cannot be used.
pub open spec fn capture_problem(problems: Seq<Problem>) -> Option<Problem>
    decreases problems.len(),
{
    if problems.len() == 0 {
        None
    } else if problems.last().summary@ == "The capture settings are not usable."@ {
        Some(problems.last())
    } else {
        capture_problem(problems.drop_last())
    }
}

/// What is said of it, with the recorder's own words.
pub open spec fn capture_words(problems: Seq<Problem>) -> Option<Seq<char>> {
    match capture_problem(problems) {
        None => None,
        Some(problem) => Some(
            problem.summary@ + " "@ + (match problem.safe_detail {
                Some(detail) => detail@,
                None => seq![],
            }),
        ),
    }
}

/// The recorder's own capture-settings rejection, shown inline instead of a
/// duplicated compatibility table.
pub fn capture_warning(problems: &Vec<Problem>) -> (warning: Option<String>)
    ensures
        crate::domain::text_view(warning) == capture_words(problems@),
{
    let mut i: usize = problems.len();
    assert(problems@.take(i as int) =~= problems@);
    while i > 0
        invariant
            i <= problems@.len(),
            capture_problem(problems@) == capture_problem(problems@.take(i as int)),
        decreases i,
    {
        let problem = &problems[i - 1];
        assert(problems@.take(i as int).drop_last() =~= problems@.take(i - 1));
        if same_text(&problem.summary, "The capture settings are not usable.") {
            let mut warning = problem.summary.clone();
            warning.append(" ");
            match &problem.safe_detail {
                Some(detail) => {
                    warning.append(detail);
                },
                None => {
                    assert(warning@ =~= warning@ + seq![]);
                },
            }
            return Some(warning);
        }
        i = i - 1;
    }
    None
}

/// A draft sent to the coordinator and when, until a snapshot confirms that
/// disk and runtime match.
pub struct PendingSave {
    pub config: Config,
    pub sent_at_ms: i64,
}

/// What the dialog edits.
pub struct Settings {
    pub draft: Config,
    /// The last config known applied; the discard warning compares the draft
    /// against it.
    pub baseline: Config,
    pub pending: Option<PendingSave>,
    /// Without a tray, closing the window quits, and the dialog says so.
    pub tray_available: bool,
}

/// What the dialog shows of a snapshot.
pub struct SettingsUpdate {
    /// Apply can be pressed.
    pub apply_sensitive: bool,
    /// Recorder and path controls can be used.
    pub gated_sensitive: bool,
    /// A new text for the feedback line, where there is one.
    pub feedback: Option<Feedback>,
    /// Whether the snapshot's setup problems are marked on their rows.
    pub mark_problems: bool,
    pub target_subtitle: &'static str,
    pub capture_warning: Option<String>,
    pub protected_note: bool,
    pub logging_warnings: Vec<String>,
}

impl Settings {
    /// The dialog as it opens: nothing edited, nothing sent.
    pub fn open(snapshot: &AppSnapshot, tray_available: bool) -> (settings: Settings)
        ensures
            settings.draft.same(snapshot.config),
            settings.baseline.same(snapshot.config),
            settings.pending is None,
            settings.tray_available == tray_available,
    {
        Settings {
            draft: snapshot.config.clone(),
            baseline: snapshot.config.clone(),
            pending: None,
            tray_available,
        }
    }

    pub fn set_tray_available(&mut self, available: bool)
        ensures
            *final(self) == (Settings { tray_available: available, ..*old(self) }),
    {
        self.tray_available = available;
    }

    /// Closing with unapplied edits warns first.
    pub fn unapplied(&self) -> (warn: bool)
        ensures
            warn == !self.draft.agrees(self.baseline),
    {
        !self.draft.same_as(&self.baseline)
    }

    /// Apply was pressed: send the draft, or show what is wrong with it. The
    /// button is greyed while applying is unsafe, so that is not asked again.
    pub fn on_apply(&self) -> (outcome: ApplyOutcome)
        ensures
            is_outcome(self.draft, None, outcome),
    {
        apply_outcome(&self.draft, None)
    }

    /// What handing the draft over changes and says.
    pub open spec fn hands_over(
        self,
        config: Config,
        now_ms: i64,
        accepted: bool,
        after: Settings,
        feedback: Feedback,
    ) -> bool {
        &&& after == (if accepted {
            Settings { pending: Some(PendingSave { config, sent_at_ms: now_ms }), ..self }
        } else {
            self
        })
        &&& feedback@ == (if accepted {
            ("Applying…"@, FeedbackTone::Dim)
        } else {
            ("The app is busy, try again in a moment."@, FeedbackTone::Warning)
        })
    }

    /// The draft was handed to the coordinator, or was not because it is busy.
    pub fn sent(&mut self, config: Config, now_ms: i64, accepted: bool) -> (feedback: Feedback)
        ensures
            old(self).hands_over(config, now_ms, accepted, *final(self), feedback),
    {
        if accepted {
            self.pending = Some(PendingSave { config, sent_at_ms: now_ms });
            Feedback { text: "Applying…".to_owned(), tone: FeedbackTone::Dim }
        } else {
            Feedback {
                text: "The app is busy, try again in a moment.".to_owned(),
                tone: FeedbackTone::Warning,
            }
        }
    }

    /// The snapshot holds the configuration that was sent.
    pub open spec fn confirmed_by(self, snapshot: AppSnapshot) -> bool {
        self.pending matches Some(pending) && snapshot.config.agrees(pending.config)
    }

    /// The coordinator rejected the save without changing its configuration.
    pub open spec fn refused_by(self, snapshot: AppSnapshot) -> bool {
        self.pending is Some && !self.confirmed_by(snapshot) && snapshot.setup_problems@.len() > 0
    }

    /// What the feedback line says after a snapshot, where it changes.
    pub open spec fn told_by(self, snapshot: AppSnapshot) -> Option<(Seq<char>, FeedbackTone)> {
        if self.refused_by(snapshot) {
            Some((bulleted(messages(snapshot.setup_problems@)), FeedbackTone::Error))
        } else if self.confirmed_by(snapshot) && snapshot.setup_problems@.len() == 0 {
            let since = summaries_since(snapshot.problems@, self.pending->0.sent_at_ms);
            if since.len() == 0 {
                Some(("Saved."@, FeedbackTone::Success))
            } else {
                Some(("Saved, but with problems:\n"@ + bulleted(since), FeedbackTone::Warning))
            }
        } else {
            match unsafe_words(snapshot) {
                Some(reason) => Some(
                    (
                        "Settings cannot be applied "@ + reason
                            + ". The fields stay visible; Apply is re-enabled when the recorder is idle."@,
                        FeedbackTone::Warning,
                    ),
                ),
                None => None,
            }
        }
    }

    /// What the dialog becomes with a snapshot.
    pub open spec fn updated_by(self, snapshot: AppSnapshot) -> Settings {
        Settings {
            baseline: if self.confirmed_by(snapshot) {
                self.pending->0.config
            } else {
                self.baseline
            },
            pending: if self.confirmed_by(snapshot) || self.refused_by(snapshot) {
                None
            } else {
                self.pending
            },
            ..self
        }
    }

    /// What the dialog shows of a snapshot.
    pub open spec fn shows(self, snapshot: AppSnapshot, update: SettingsUpdate) -> bool {
        &&& update.apply_sensitive == (unsafe_words(snapshot) is None && (self.pending is None
            || self.confirmed_by(snapshot)))
        &&& update.gated_sensitive == unsafe_words(snapshot) is None
        &&& feedback_view(update.feedback) == self.told_by(snapshot)
        &&& update.mark_problems == self.refused_by(snapshot)
        &&& update.target_subtitle@ == (if snapshot.config.capture.capture_target_token is Some {
            "Selected: restored automatically from the saved portal token"@
        } else {
            "Not selected yet: the desktop portal will ask on the next capture"@
        })
        &&& crate::domain::text_view(update.capture_warning) == capture_words(snapshot.problems@)
        &&& update.protected_note == snapshot.protected_over_limit
        &&& text::texts(update.logging_warnings@) == status::logging_warnings(
            snapshot.advanced_logging@,
        )
    }

    /// Snapshot-driven state: unsafe gating, capture-target status, inline
    /// recorder warning, advanced-logging warnings, and the Apply
    /// confirmation.
    pub fn apply_snapshot(&mut self, snapshot: &AppSnapshot) -> (update: SettingsUpdate)
        ensures
            *final(self) == old(self).updated_by(*snapshot),
            old(self).shows(*snapshot, update),
    {
        let reason = unsafe_reason(snapshot);
        let mut feedback: Option<Feedback> = match reason {
            Some(reason) => {
                let mut words = "Settings cannot be applied ".to_owned();
                words.append(reason);
                words.append(
                    ". The fields stay visible; Apply is re-enabled when the recorder is idle.",
                );
                Some(Feedback { text: words, tone: FeedbackTone::Warning })
            },
            None => None,
        };
        let mut mark_problems = false;
        let mut waiting = false;
        match self.pending.take() {
            None => {},
            Some(pending) => {
                if snapshot.config.same_as(&pending.config) {
                    if snapshot.setup_problems.len() == 0 {
                        feedback = Some(
                            saved_feedback(&snapshot.problems, pending.sent_at_ms),
                        );
                    }
                    self.baseline = pending.config;
                } else if snapshot.setup_problems.len() > 0 {
                    feedback = Some(problem_feedback(&snapshot.setup_problems));
                    mark_problems = true;
                    waiting = true;
                } else {
                    self.pending = Some(pending);
                    waiting = true;
                }
            },
        }
        SettingsUpdate {
            apply_sensitive: reason.is_none() && !waiting,
            gated_sensitive: reason.is_none(),
            feedback,
            mark_problems,
            target_subtitle: if snapshot.config.capture.capture_target_token.is_some() {
                "Selected: restored automatically from the saved portal token"
            } else {
                "Not selected yet: the desktop portal will ask on the next capture"
            },
            capture_warning: capture_warning(&snapshot.problems),
            protected_note: snapshot.protected_over_limit,
            logging_warnings: advanced_logging_warnings(snapshot),
        }
    }

    /// What turning input audio on or off changes.
    pub open spec fn turns_input(self, on: bool, shown: Option<&String>, after: Settings) -> bool {
        &&& after.draft.capture.audio_input matches Some(id) ==> on && id@ == (
        match self.draft.capture.audio_input {
            Some(kept) => kept@,
            None => match shown {
                Some(shown) => shown@,
                None => "default_input"@,
            },
        })
        &&& after.draft.capture.audio_input is Some == on
        &&& after == (Settings {
            draft: Config {
                capture: config::CaptureSettings {
                    audio_input: after.draft.capture.audio_input,
                    ..self.draft.capture
                },
                ..self.draft
            },
            ..self
        })
    }

    /// Input audio was turned on or off. Turned on, it starts with the device
    /// that the row shows, or the default one.
    pub fn switch_input(&mut self, on: bool, shown: Option<&String>)
        ensures
            old(self).turns_input(on, shown, *final(self)),
    {
        if on {
            if self.draft.capture.audio_input.is_none() {
                self.draft.capture.audio_input = Some(
                    match shown {
                        Some(id) => id.clone(),
                        None => "default_input".to_owned(),
                    },
                );
            }
        } else {
            self.draft.capture.audio_input = None;
        }
    }

    /// The input device that is selected in the row.
    pub open spec fn input_shown(self) -> Seq<char> {
        match self.draft.capture.audio_input {
            Some(chosen) => chosen@,
            None => "default_input"@,
        }
    }

    /// The input device that the row shows as selected: the draft's, or the
    /// default one while input audio is off.
    pub fn shown_input(&self) -> (id: String)
        ensures
            id@ == self.input_shown(),
    {
        match &self.draft.capture.audio_input {
            Some(chosen) => chosen.clone(),
            None => "default_input".to_owned(),
        }
    }

    /// The settings with another output device.
    pub open spec fn with_output(self, id: String) -> Settings {
        Settings {
            draft: Config {
                capture: config::CaptureSettings { audio_output: id, ..self.draft.capture },
                ..self.draft
            },
            ..self
        }
    }

    /// The settings with another input device; while input audio is off there
    /// is none.
    pub open spec fn with_input(self, id: String) -> Settings {
        Settings {
            draft: Config {
                capture: config::CaptureSettings {
                    audio_input: match self.draft.capture.audio_input {
                        Some(_) => Some(id),
                        None => None,
                    },
                    ..self.draft.capture
                },
                ..self.draft
            },
            ..self
        }
    }

    /// An output device was chosen.
    pub fn choose_output(&mut self, id: String)
        ensures
            *final(self) == old(self).with_output(id),
    {
        self.draft.capture.audio_output = id;
    }

    /// An input device was chosen; while input audio is off, the choice does
    /// not turn it on.
    pub fn choose_input(&mut self, id: String)
        ensures
            *final(self) == old(self).with_input(id),
    {
        if self.draft.capture.audio_input.is_some() {
            self.draft.capture.audio_input = Some(id);
        }
    }

    /// What a chosen folder changes and what its row says.
    pub open spec fn takes_folder(
        self,
        setting: PathSetting,
        path: Seq<char>,
        probed: Result<(), String>,
        after: Settings,
        shown: (String, bool),
    ) -> bool {
        match probed {
            Ok(_) => {
                let chosen = setting.path(after.draft);
                &&& chosen.path@ == path
                &&& chosen.authorization == config::PathAuthorization::Authorized
                &&& after == (Settings { draft: setting.changed(self.draft, chosen), ..self })
                &&& (shown.0@, shown.1) == (path_words(chosen).0, false)
                &&& button_words(chosen) == "Select folder…"@
            },
            Err(message) => after == self && shown == (message, true),
        }
    }

    /// A folder was chosen and probed. It is stored as authorized only when
    /// the probe passed; the result is what the row says, and whether that is
    /// an error.
    pub fn choose_folder(
        &mut self,
        setting: PathSetting,
        path: &str,
        probed: Result<(), String>,
    ) -> (shown: (String, bool))
        ensures
            old(self).takes_folder(setting, path@, probed, *final(self), shown),
    {
        match probed {
            Ok(_) => {
                let chosen = AuthorizedPath::authorized(path);
                let words = path_state(&chosen).0;
                setting.spec().set(&mut self.draft, chosen);
                (words, false)
            },
            Err(message) => (message, true),
        }
    }
}

fn saved_feedback(problems: &Vec<Problem>, sent_at_ms: i64) -> (feedback: Feedback)
    ensures
        feedback@ == (if summaries_since(problems@, sent_at_ms).len() == 0 {
            ("Saved."@, FeedbackTone::Success)
        } else {
            (
                "Saved, but with problems:\n"@ + bulleted(summaries_since(problems@, sent_at_ms)),
                FeedbackTone::Warning,
            )
        }),
{
    let list = runtime_problems(problems, sent_at_ms);
    if list.as_str().is_empty() {
        Feedback { text: "Saved.".to_owned(), tone: FeedbackTone::Success }
    } else {
        let mut words = "Saved, but with problems:\n".to_owned();
        words.append(&list);
        Feedback { text: words, tone: FeedbackTone::Warning }
    }
}

/// While something is captured or saved, neither Apply nor a recorder control
/// can be used, and the feedback line says why unless it reports on a save.
pub proof fn unsafe_states_block_applying(settings: Settings, snapshot: AppSnapshot)
    requires
        snapshot.status is Recording || snapshot.status is Overrunning || snapshot.status is Finalizing
            || snapshot.work is Some || snapshot.queued_jobs > 0,
    ensures
        unsafe_words(snapshot) is Some,
        settings.told_by(snapshot) is Some,
{
}

/// A confirmed save leaves nothing unapplied where the draft is still what
/// was sent.
pub proof fn confirmed_saves_leave_nothing_unapplied(settings: Settings, snapshot: AppSnapshot)
    requires
        settings.confirmed_by(snapshot),
        settings.draft.agrees(settings.pending->0.config),
    ensures
        settings.updated_by(snapshot).pending is None,
        settings.updated_by(snapshot).draft.agrees(settings.updated_by(snapshot).baseline),
{
}

} // verus!
