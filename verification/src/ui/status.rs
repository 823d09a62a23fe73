//! The status card: recorder state, elapsed time, the offer to force an end,
//! per-flavour advanced-combat-logging warnings, and one line on the cloud.
use vstd::prelude::*;

use crate::config::Config;
use crate::coordinator::{AppSnapshot, CloudView, Command};
use crate::domain::{RecorderStatus, RecoveryAction, WorkProgress};
use crate::text;
use crate::text::{interleave, push_decimal, push_padded, same_text};
use crate::upload::UploadAction;

verus! {

#[derive(Clone, Copy, Debug, PartialEq, Eq, Structural)]
pub enum Tone {
    Ready,
    Recording,
    Waiting,
    Overrunning,
    Finalizing,
    Invalid,
    Error,
}

impl Tone {
    pub open spec fn spec_css_class(self) -> Seq<char> {
        match self {
            Tone::Ready => "tone-ready"@,
            Tone::Recording => "tone-recording"@,
            Tone::Waiting => "tone-waiting"@,
            Tone::Overrunning => "tone-overrunning"@,
            Tone::Finalizing => "tone-finalizing"@,
            Tone::Invalid => "tone-invalid"@,
            Tone::Error => "tone-error"@,
        }
    }

    /// The style class of the status light.
    pub fn css_class(self) -> (class: &'static str)
        ensures
            class@ == self.spec_css_class(),
    {
        match self {
            Tone::Ready => "tone-ready",
            Tone::Recording => "tone-recording",
            Tone::Waiting => "tone-waiting",
            Tone::Overrunning => "tone-overrunning",
            Tone::Finalizing => "tone-finalizing",
            Tone::Invalid => "tone-invalid",
            Tone::Error => "tone-error",
        }
    }
}

/// What the card shows, derived from one snapshot. `elapsed_anchor_ms` is the
/// wall-clock anchor the card's own one-second timeout renders from; the
/// coordinator never publishes per-second snapshots for this.
#[derive(Clone, Debug, PartialEq, Eq)]
pub struct StatusView {
    pub title: String,
    pub detail: String,
    pub tone: Tone,
    pub elapsed_anchor_ms: Option<i64>,
    pub show_force_end: bool,
    pub show_spinner: bool,
}

/// What the card shows, with its texts as characters.
pub struct StatusModel {
    pub title: Seq<char>,
    pub detail: Seq<char>,
    pub tone: Tone,
    pub elapsed_anchor_ms: Option<i64>,
    pub show_force_end: bool,
    pub show_spinner: bool,
}

impl View for StatusView {
    type V = StatusModel;

    open spec fn view(&self) -> StatusModel {
        StatusModel {
            title: self.title@,
            detail: self.detail@,
            tone: self.tone,
            elapsed_anchor_ms: self.elapsed_anchor_ms,
            show_force_end: self.show_force_end,
            show_spinner: self.show_spinner,
        }
    }
}

/// One text of a list, or nothing.
pub open spec fn shown_if(on: bool, word: Seq<char>) -> Seq<Seq<char>> {
    if on {
        seq![word]
    } else {
        seq![]
    }
}

/// The labels of the enabled flavours, in config order.
pub open spec fn flavor_words(config: Config) -> Seq<Seq<char>> {
    shown_if(config.flavors.retail.enabled, "Retail"@) + shown_if(
        config.flavors.retail_ptr.enabled,
        "Retail PTR"@,
    ) + shown_if(config.flavors.classic.enabled, "Classic"@) + shown_if(
        config.flavors.classic_ptr.enabled,
        "Classic PTR"@,
    ) + shown_if(config.flavors.era.enabled, "Era"@)
}

fn push_if(list: &mut Vec<&'static str>, on: bool, word: &'static str)
    ensures
        final(list)@.map_values(|item: &str| item@) == old(list)@.map_values(|item: &str| item@)
            + shown_if(on, word@),
{
    if on {
        list.push(word);
    }
    assert(list@.map_values(|item: &str| item@) =~= old(list)@.map_values(|item: &str| item@)
        + shown_if(on, word@));
}

/// Enabled flavour labels in config order, for the Ready detail line.
pub fn enabled_flavors(config: &Config) -> (flavors: Vec<&'static str>)
    ensures
        flavors@.map_values(|item: &str| item@) == flavor_words(*config),
{
    let mut flavors: Vec<&'static str> = Vec::new();
    assert(flavors@.map_values(|item: &str| item@) =~= seq![]);
    push_if(&mut flavors, config.flavors.retail.enabled, "Retail");
    push_if(&mut flavors, config.flavors.retail_ptr.enabled, "Retail PTR");
    push_if(&mut flavors, config.flavors.classic.enabled, "Classic");
    push_if(&mut flavors, config.flavors.classic_ptr.enabled, "Classic PTR");
    push_if(&mut flavors, config.flavors.era.enabled, "Era");
    assert(flavors@.map_values(|item: &str| item@) =~= flavor_words(*config));
    flavors
}

/// What a flavour's config field is called in a warning.
pub open spec fn flavor_word(field: Seq<char>) -> Seq<char> {
    if field == "retail"@ {
        "Retail"@
    } else if field == "retail_ptr"@ {
        "Retail PTR"@
    } else if field == "classic"@ {
        "Classic"@
    } else if field == "classic_ptr"@ {
        "Classic PTR"@
    } else if field == "era"@ {
        "Era"@
    } else {
        field
    }
}

fn flavor_text(field: &'static str) -> (word: &'static str)
    ensures
        word@ == flavor_word(field@),
{
    if same_text(field, "retail") {
        "Retail"
    } else if same_text(field, "retail_ptr") {
        "Retail PTR"
    } else if same_text(field, "classic") {
        "Classic"
    } else if same_text(field, "classic_ptr") {
        "Classic PTR"
    } else if same_text(field, "era") {
        "Era"
    } else {
        field
    }
}

/// A warning for each flavour whose logging is known to be off, in order.
pub open spec fn logging_warnings(flags: Seq<(&'static str, Option<bool>)>) -> Seq<Seq<char>>
    decreases flags.len(),
{
    if flags.len() == 0 {
        seq![]
    } else {
        let before = logging_warnings(flags.drop_last());
        if flags.last().1 == Some(false) {
            before.push(
                "Advanced combat logging is off for "@ + flavor_word(flags.last().0@) + "."@,
            )
        } else {
            before
        }
    }
}

/// A warning is shown exactly when some flavour's logging is known to be off:
/// one that could not be read is unknown, not off, and stays silent.
pub proof fn only_known_off_logging_warns(flags: Seq<(&'static str, Option<bool>)>)
    ensures
        (logging_warnings(flags).len() > 0) <==> (exists|i: int|
            0 <= i < flags.len() && (#[trigger] flags[i]).1 == Some(false)),
        logging_warnings(flags).len() <= flags.len(),
    decreases flags.len(),
{
    if flags.len() > 0 {
        let front = flags.drop_last();
        only_known_off_logging_warns(front);
        if exists|i: int| 0 <= i < front.len() && (#[trigger] front[i]).1 == Some(false) {
            let i = choose|i: int| 0 <= i < front.len() && (#[trigger] front[i]).1 == Some(false);
            assert(flags[i] == front[i]);
        }
        if exists|i: int| 0 <= i < flags.len() && (#[trigger] flags[i]).1 == Some(false) {
            let i = choose|i: int| 0 <= i < flags.len() && (#[trigger] flags[i]).1 == Some(false);
            if i < front.len() {
                assert(front[i] == flags[i]);
            }
        }
        if flags.last().1 == Some(false) {
            assert(flags[flags.len() - 1].1 == Some(false));
        }
    }
}

/// The `advanced_logging` snapshot field carries short field names; these
/// are the per-flavour warning rows the card renders. Only a `Config.wtf`
/// that was read and says "off" warrants a warning; an unreadable one is
/// unknown, not off, and must stay silent.
pub fn advanced_logging_warnings(snapshot: &AppSnapshot) -> (warnings: Vec<String>)
    ensures
        text::texts(warnings@) == logging_warnings(snapshot.advanced_logging@),
{
    let mut warnings: Vec<String> = Vec::new();
    let flags = &snapshot.advanced_logging;
    let mut i: usize = 0;
    assert(text::texts(warnings@) =~= logging_warnings(flags@.take(0)));
    while i < flags.len()
        invariant
            i <= flags@.len(),
            text::texts(warnings@) == logging_warnings(flags@.take(i as int)),
        decreases flags@.len() - i,
    {
        let ghost before = warnings@;
        let flag = flags[i];
        if flag.1 == Some(false) {
            let mut warning = "Advanced combat logging is off for ".to_owned();
            warning.append(flavor_text(flag.0));
            warning.append(".");
            warnings.push(warning);
            assert(text::texts(warnings@) =~= text::texts(before).push(warning@));
        }
        i = i + 1;
        assert(flags@.take(i as int).drop_last() =~= flags@.take(i - 1));
    }
    assert(flags@.take(i as int) =~= flags@);
    warnings
}

/// How much of `total` is `done`, in whole percent.
pub open spec fn percentage(done: u64, total: u64) -> nat {
    let hundredfold = if done * 100 <= u64::MAX {
        done * 100
    } else {
        u64::MAX as int
    };
    (hundredfold / total as int) as nat
}

/// Work that is not over-reported never shows more than the whole.
pub proof fn progress_stays_within_the_whole(done: u64, total: u64)
    requires
        0 < total,
        done <= total,
    ensures
        percentage(done, total) <= 100,
        done * 100 <= u64::MAX ==> (percentage(done, total) == 100 <==> done == total),
{
    let hundredfold = if done * 100 <= u64::MAX {
        done * 100
    } else {
        u64::MAX as int
    };
    let share = hundredfold / total as int;
    assert(share <= 100) by (nonlinear_arith)
        requires
            share == hundredfold / total as int,
            0 <= hundredfold <= 100 * total,
            0 < total,
    ;
    assert(0 <= share) by (nonlinear_arith)
        requires
            share == hundredfold / total as int,
            0 <= hundredfold,
            0 < total,
    ;
    if done * 100 <= u64::MAX {
        assert((share == 100) == (done == total)) by (nonlinear_arith)
            requires
                share == (done * 100) / total as int,
                done <= total,
                0 < total,
        ;
    }
}

fn push_percentage(out: &mut String, done: u64, total: u64)
    requires
        total > 0,
    ensures
        final(out)@ == old(out)@ + text::decimal(percentage(done, total)) + "%"@,
{
    let hundredfold: u64 = if done <= u64::MAX / 100 {
        done * 100
    } else {
        u64::MAX
    };
    push_decimal(out, hundredfold / total);
    out.append("%");
}

/// What saving a recording says: its title, and how far it is where that is
/// known.
pub open spec fn saving_line(title: Seq<char>, work: Option<WorkProgress>) -> Seq<char> {
    match work {
        Some(work) => match work.total {
            Some(total) if total > 0 => title + ": "@ + text::decimal(
                percentage(work.completed, total),
            ) + "%"@,
            _ => title,
        },
        None => title,
    }
}

fn saving_text(title: &String, work: &Option<WorkProgress>) -> (line: String)
    ensures
        line@ == saving_line(title@, *work),
{
    let mut line = title.clone();
    match work {
        Some(work) => match work.total {
            Some(total) => {
                if total > 0 {
                    line.append(": ");
                    push_percentage(&mut line, work.completed, total);
                }
            },
            None => {},
        },
        None => {},
    }
    line
}

/// The card's contents for a snapshot.
pub open spec fn card(snapshot: AppSnapshot) -> StatusModel {
    let plain = StatusModel {
        title: seq![],
        detail: seq![],
        tone: Tone::Waiting,
        elapsed_anchor_ms: None,
        show_force_end: false,
        show_spinner: false,
    };
    match snapshot.status {
        RecorderStatus::SetupRequired => StatusModel {
            title: "Setup required"@,
            detail: if snapshot.setup_problems@.len() > 0 {
                snapshot.setup_problems@[0].message@
            } else {
                "Finish setup in Settings."@
            },
            tone: Tone::Invalid,
            ..plain
        },
        RecorderStatus::WaitingForWow => StatusModel {
            title: "Waiting"@,
            detail: "Waiting for World of Warcraft to start."@,
            ..plain
        },
        RecorderStatus::Reconfiguring => StatusModel {
            title: "Reconfiguring"@,
            detail: "Applying new capture settings."@,
            show_spinner: true,
            ..plain
        },
        RecorderStatus::Ready => StatusModel {
            title: "Ready"@,
            detail: "Watching combat logs: "@ + text::interleaved(
                flavor_words(snapshot.config),
                ", "@,
            ) + "."@,
            tone: Tone::Ready,
            ..plain
        },
        RecorderStatus::Buffering => StatusModel {
            title: "Arming capture"@,
            detail: "The replay buffer is starting."@,
            show_spinner: true,
            ..plain
        },
        RecorderStatus::Recording { title, started_unix_ms, manual, test, .. } => StatusModel {
            title: if manual {
                "Manual recording"@
            } else if test {
                "Test recording"@
            } else {
                "Recording"@
            },
            detail: title@,
            tone: Tone::Recording,
            elapsed_anchor_ms: Some(started_unix_ms),
            show_force_end: !manual,
            ..plain
        },
        RecorderStatus::Overrunning { title, started_unix_ms } => StatusModel {
            title: "Overrunning"@,
            detail: title@ + ": recording a few seconds of aftermath."@,
            tone: Tone::Overrunning,
            elapsed_anchor_ms: Some(started_unix_ms),
            ..plain
        },
        RecorderStatus::Finalizing { title } => StatusModel {
            title: "Saving"@,
            detail: saving_line(title@, snapshot.work),
            tone: Tone::Finalizing,
            show_spinner: true,
            ..plain
        },
        RecorderStatus::Fatal { problem } => StatusModel {
            title: "Error"@,
            detail: problem.summary@,
            tone: Tone::Error,
            ..plain
        },
    }
}

/// An end can be forced exactly while an automatic recording runs: a manual
/// one gets its own Stop, and one that overruns ends by itself.
pub proof fn only_automatic_recordings_can_be_forced(snapshot: AppSnapshot)
    ensures
        card(snapshot).show_force_end <==> (snapshot.status matches RecorderStatus::Recording {
            manual,
            ..
        } && !manual),
{
}

/// The elapsed time runs exactly while something is being captured.
pub proof fn the_clock_runs_while_capturing(snapshot: AppSnapshot)
    ensures
        card(snapshot).elapsed_anchor_ms is Some <==> (snapshot.status is Recording
            || snapshot.status is Overrunning),
{
}

fn quiet_view(title: &str, detail: String, tone: Tone, show_spinner: bool) -> (view: StatusView)
    ensures
        view@ == (StatusModel {
            title: title@,
            detail: detail@,
            tone,
            elapsed_anchor_ms: None,
            show_force_end: false,
            show_spinner,
        }),
{
    StatusView {
        title: title.to_owned(),
        detail,
        tone,
        elapsed_anchor_ms: None,
        show_force_end: false,
        show_spinner,
    }
}

/// What the card shows for a snapshot.
pub fn view(snapshot: &AppSnapshot) -> (shown: StatusView)
    ensures
        shown@ == card(*snapshot),
{
    match &snapshot.status {
        RecorderStatus::SetupRequired => {
            let detail = if snapshot.setup_problems.len() > 0 {
                snapshot.setup_problems[0].message.clone()
            } else {
                "Finish setup in Settings.".to_owned()
            };
            quiet_view("Setup required", detail, Tone::Invalid, false)
        },
        RecorderStatus::WaitingForWow => quiet_view(
            "Waiting",
            "Waiting for World of Warcraft to start.".to_owned(),
            Tone::Waiting,
            false,
        ),
        RecorderStatus::Reconfiguring => quiet_view(
            "Reconfiguring",
            "Applying new capture settings.".to_owned(),
            Tone::Waiting,
            true,
        ),
        RecorderStatus::Ready => {
            let mut detail = "Watching combat logs: ".to_owned();
            let flavors = interleave(&enabled_flavors(&snapshot.config), ", ");
            detail.append(&flavors);
            detail.append(".");
            quiet_view("Ready", detail, Tone::Ready, false)
        },
        RecorderStatus::Buffering => quiet_view(
            "Arming capture",
            "The replay buffer is starting.".to_owned(),
            Tone::Waiting,
            true,
        ),
        RecorderStatus::Recording { title, started_unix_ms, manual, test, .. } => StatusView {
            title: if *manual {
                "Manual recording".to_owned()
            } else if *test {
                "Test recording".to_owned()
            } else {
                "Recording".to_owned()
            },
            detail: title.clone(),
            tone: Tone::Recording,
            elapsed_anchor_ms: Some(*started_unix_ms),
            // Force end is automatic-only; manual recordings get their own Stop.
            show_force_end: !*manual,
            show_spinner: false,
        },
        RecorderStatus::Overrunning { title, started_unix_ms } => {
            let mut detail = title.clone();
            detail.append(": recording a few seconds of aftermath.");
            StatusView {
                title: "Overrunning".to_owned(),
                detail,
                tone: Tone::Overrunning,
                elapsed_anchor_ms: Some(*started_unix_ms),
                show_force_end: false,
                show_spinner: false,
            }
        },
        RecorderStatus::Finalizing { title } => quiet_view(
            "Saving",
            saving_text(title, &snapshot.work),
            Tone::Finalizing,
            true,
        ),
        RecorderStatus::Fatal { problem } => quiet_view(
            "Error",
            problem.summary.clone(),
            Tone::Error,
            false,
        ),
    }
}

/// What is said of the jobs behind the current one.
pub open spec fn queued_words(queued: usize) -> Seq<char> {
    if queued == 0 {
        seq![]
    } else {
        " ("@ + text::decimal(queued as nat) + " more queued)"@
    }
}

fn queued_text(queued: usize) -> (words: String)
    ensures
        words@ == queued_words(queued),
{
    let mut words = String::new();
    if queued != 0 {
        words.append(" (");
        push_decimal(&mut words, queued as u64);
        words.append(" more queued)");
        assert(words@ =~= queued_words(queued));
    } else {
        assert(words@ =~= queued_words(queued));
    }
    words
}

/// What is said of the cloud.
pub open spec fn cloud_words(cloud: CloudView) -> Seq<char> {
    match cloud.current {
        Some(current) => match current.action {
            UploadAction::ShareLink => "Getting a share link for "@ + current.title@ + queued_words(
                cloud.queued,
            ),
            UploadAction::Upload => if current.total > 0 {
                "Uploading "@ + current.title@ + ": "@ + text::decimal(
                    percentage(current.sent, current.total),
                ) + "%"@ + queued_words(cloud.queued)
            } else {
                "Uploading "@ + current.title@ + queued_words(cloud.queued)
            },
        },
        None => match cloud.link {
            Some(link) => if link.copy {
                "Share link copied: "@ + link.url@
            } else {
                "Uploaded "@ + link.title@ + ": "@ + link.url@
            },
            None => seq![],
        },
    }
}

/// One line of cloud activity: the upload in progress, else the newest share
/// link. Empty when there is nothing to say.
pub fn cloud_line(snapshot: &AppSnapshot) -> (line: String)
    ensures
        line@ == cloud_words(snapshot.cloud),
{
    let cloud = &snapshot.cloud;
    let mut line = String::new();
    match &cloud.current {
        Some(current) => {
            match current.action {
                UploadAction::ShareLink => {
                    line = "Getting a share link for ".to_owned();
                    line.append(&current.title);
                },
                UploadAction::Upload => {
                    line = "Uploading ".to_owned();
                    line.append(&current.title);
                    if current.total > 0 {
                        line.append(": ");
                        push_percentage(&mut line, current.sent, current.total);
                    }
                },
            }
            line.append(&queued_text(cloud.queued));
        },
        None => match &cloud.link {
            Some(link) => {
                if link.copy {
                    line = "Share link copied: ".to_owned();
                } else {
                    line = "Uploaded ".to_owned();
                    line.append(&link.title);
                    line.append(": ");
                }
                line.append(&link.url);
            },
            None => {
                assert(line@ =~= seq![]);
            },
        },
    }
    line
}

/// Whole seconds from the anchor to now; a now before the anchor counts as
/// none.
pub open spec fn elapsed_seconds(anchor_unix_ms: i64, now_unix_ms: i64) -> nat {
    let elapsed = now_unix_ms - anchor_unix_ms;
    if elapsed <= 0 {
        0
    } else if elapsed > i64::MAX {
        (i64::MAX as int / 1000) as nat
    } else {
        (elapsed / 1000) as nat
    }
}

/// A number of seconds as `m:ss`, or `h:mm:ss` from one hour on.
pub open spec fn clock(seconds: nat) -> Seq<char> {
    if seconds >= 3600 {
        text::decimal(seconds / 3600) + ":"@ + text::padded(seconds % 3600 / 60, 2) + ":"@
            + text::padded(seconds % 60, 2)
    } else {
        text::decimal(seconds / 60) + ":"@ + text::padded(seconds % 60, 2)
    }
}

/// Format the elapsed anchor as `m:ss` (or `h:mm:ss`) against `now_unix_ms`.
pub fn elapsed_label(anchor_unix_ms: i64, now_unix_ms: i64) -> (label: String)
    ensures
        label@ == clock(elapsed_seconds(anchor_unix_ms, now_unix_ms)),
{
    // A difference that does not fit saturates; a now-before-anchor snapshot
    // never renders a negative time.
    let seconds: u64 = if now_unix_ms <= anchor_unix_ms {
        0
    } else if anchor_unix_ms < 0 && now_unix_ms > i64::MAX + anchor_unix_ms {
        (i64::MAX / 1000) as u64
    } else {
        ((now_unix_ms - anchor_unix_ms) / 1000) as u64
    };
    clock_label(seconds)
}

/// Format a number of seconds as `m:ss`, or `h:mm:ss` from one hour on.
pub fn clock_label(seconds: u64) -> (label: String)
    ensures
        label@ == clock(seconds as nat),
{
    let hours: u64 = seconds / 3600;
    let minutes: u64 = seconds % 3600 / 60;
    let rest: u64 = seconds % 60;
    let mut label = String::new();
    if hours > 0 {
        push_decimal(&mut label, hours);
        label.append(":");
        push_padded(&mut label, minutes, 2);
    } else {
        push_decimal(&mut label, minutes);
    }
    label.append(":");
    push_padded(&mut label, rest, 2);
    assert(label@ =~= clock(seconds as nat));
    label
}

pub open spec fn recovery_words(action: RecoveryAction) -> Seq<char> {
    match action {
        RecoveryAction::OpenSettings => "Open Settings"@,
        RecoveryAction::ReselectCaptureTarget => "Reselect capture target"@,
        RecoveryAction::Retry => "Try again"@,
        RecoveryAction::OpenLogs => "Open logs"@,
        RecoveryAction::Quit => "Quit"@,
    }
}

/// The button of a problem's recovery action.
pub fn recovery_label(action: RecoveryAction) -> (label: &'static str)
    ensures
        label@ == recovery_words(action),
{
    match action {
        RecoveryAction::OpenSettings => "Open Settings",
        RecoveryAction::ReselectCaptureTarget => "Reselect capture target",
        RecoveryAction::Retry => "Try again",
        RecoveryAction::OpenLogs => "Open logs",
        RecoveryAction::Quit => "Quit",
    }
}

/// What a widget asks of the shell.
pub enum ShellAction {
    Command(Command),
    OpenSettings,
    TestRecording,
    Retry,
    OpenLogs,
    Quit,
}

/// The way out that a recovery action asks the shell for.
pub open spec fn asks_for(action: RecoveryAction, asked: ShellAction) -> bool {
    match action {
        RecoveryAction::OpenSettings => asked is OpenSettings,
        RecoveryAction::ReselectCaptureTarget => asked == ShellAction::Command(
            Command::ReselectCaptureTarget,
        ),
        RecoveryAction::Retry => asked is Retry,
        RecoveryAction::OpenLogs => asked is OpenLogs,
        RecoveryAction::Quit => asked is Quit,
    }
}

/// What a problem's recovery button does.
pub fn shell_action(action: RecoveryAction) -> (asked: ShellAction)
    ensures
        asks_for(action, asked),
{
    match action {
        RecoveryAction::OpenSettings => ShellAction::OpenSettings,
        RecoveryAction::ReselectCaptureTarget => ShellAction::Command(
            Command::ReselectCaptureTarget,
        ),
        RecoveryAction::Retry => ShellAction::Retry,
        RecoveryAction::OpenLogs => ShellAction::OpenLogs,
        RecoveryAction::Quit => ShellAction::Quit,
    }
}

} // verus!
