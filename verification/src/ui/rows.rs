//! The rows of the settings pages: which field of the configuration each row
//! edits, what it is called and what it accepts.
use vstd::prelude::*;

use crate::config;
use crate::config::{
    ActivitySettings, AuthorizedPath, CaptureSettings, CloudSettings, Config, FlavorConfig,
    FlavorSettings, InterfaceSettings, ManualSettings, StorageSettings,
};
use crate::domain::{Codec, RaidDifficulty, ReplayStorage, StorageLimit};
use crate::text::same_text;

verus! {

/// A number brought into a range.
pub open spec fn clamped(value: int, low: int, high: int) -> int {
    if value < low {
        low
    } else if value > high {
        high
    } else {
        value
    }
}

fn as_u32(value: i128) -> (number: u32)
    ensures
        number == clamped(value as int, 0, u32::MAX as int),
{
    if value < 0 {
        0
    } else if value > u32::MAX as i128 {
        u32::MAX
    } else {
        value as u32
    }
}

fn as_i32(value: i128) -> (number: i32)
    ensures
        number == clamped(value as int, i32::MIN as int, i32::MAX as int),
{
    if value < i32::MIN as i128 {
        i32::MIN
    } else if value > i32::MAX as i128 {
        i32::MAX
    } else {
        value as i32
    }
}

fn as_u64(value: i128) -> (number: u64)
    ensures
        number == clamped(value as int, 0, u64::MAX as int),
{
    if value < 0 {
        0
    } else if value > u64::MAX as i128 {
        u64::MAX
    } else {
        value as u64
    }
}

/// A number of the configuration that a row edits.
#[derive(Clone, Copy, Debug, PartialEq, Eq, Structural)]
pub enum SpinSetting {
    Fps,
    Bitrate,
    ReplayBuffer,
    ExtraLeadIn,
    MinRaidDuration,
    RaidOverrun,
    MinKeystoneLevel,
    DungeonOverrun,
    StorageLimit,
}

/// A row that edits a number.
#[derive(Clone, Copy, Debug, PartialEq, Eq)]
pub struct SpinSpec {
    pub field: &'static str,
    pub title: &'static str,
    /// Units and bounds, matching config validation.
    pub subtitle: &'static str,
    pub min: u32,
    pub max: u32,
    pub step: u32,
    pub setting: SpinSetting,
}

/// What a number's row says and accepts.
pub struct SpinRow {
    pub field: Seq<char>,
    pub title: Seq<char>,
    pub subtitle: Seq<char>,
    pub min: u32,
    pub max: u32,
    pub step: u32,
}

impl View for SpinSpec {
    type V = SpinRow;

    open spec fn view(&self) -> SpinRow {
        SpinRow {
            field: self.field@,
            title: self.title@,
            subtitle: self.subtitle@,
            min: self.min,
            max: self.max,
            step: self.step,
        }
    }
}

impl SpinSetting {
    /// The row of this number.
    pub open spec fn row(self) -> SpinRow {
        match self {
            SpinSetting::Fps => SpinRow {
                field: "capture.fps"@,
                title: "FPS"@,
                subtitle: "Frames per second (15–60)"@,
                min: 15,
                max: 60,
                step: 1,
            },
            SpinSetting::Bitrate => SpinRow {
                field: "capture.bitrate_kbps"@,
                title: "Bitrate"@,
                subtitle: "Kbps (1000–200000)"@,
                min: 1000,
                max: 200000,
                step: 500,
            },
            SpinSetting::ReplayBuffer => SpinRow {
                field: "capture.replay_buffer_seconds"@,
                title: "Replay buffer"@,
                subtitle: "Seconds of lead-in kept before an activity is detected (30–600)"@,
                min: 30,
                max: 600,
                step: 10,
            },
            SpinSetting::ExtraLeadIn => SpinRow {
                field: "capture.extra_lead_in_seconds"@,
                title: "Extra lead-in"@,
                subtitle: "Seconds added to the measured detection delay (0–30)"@,
                min: 0,
                max: 30,
                step: 1,
            },
            SpinSetting::MinRaidDuration => SpinRow {
                field: "activities.min_raid_duration_seconds"@,
                title: "Minimum raid duration"@,
                subtitle: "Seconds; shorter raid pulls are discarded (0–10000)"@,
                min: 0,
                max: 10000,
                step: 5,
            },
            SpinSetting::RaidOverrun => SpinRow {
                field: "activities.raid_overrun_seconds"@,
                title: "Raid overrun"@,
                subtitle: "Seconds recorded after a raid ends (0–60)"@,
                min: 0,
                max: 60,
                step: 1,
            },
            SpinSetting::MinKeystoneLevel => SpinRow {
                field: "activities.min_keystone_level"@,
                title: "Minimum keystone level"@,
                subtitle: "Lower keys are not recorded (minimum 2)"@,
                min: 2,
                max: 100,
                step: 1,
            },
            SpinSetting::DungeonOverrun => SpinRow {
                field: "activities.dungeon_overrun_seconds"@,
                title: "Dungeon overrun"@,
                subtitle: "Seconds recorded after a dungeon ends (0–60)"@,
                min: 0,
                max: 60,
                step: 1,
            },
            SpinSetting::StorageLimit => SpinRow {
                field: "storage.limit"@,
                title: "Storage limit"@,
                subtitle: "GiB; 0 = Unlimited. Oldest unprotected recordings are deleted over the limit."@,
                min: 0,
                max: 64000,
                step: 5,
            },
        }
    }

    /// The row of this number.
    pub fn spec(self) -> (spec: SpinSpec)
        ensures
            spec@ == self.row(),
            spec.setting == self,
    {
        match self {
            SpinSetting::Fps => SpinSpec {
                field: "capture.fps",
                title: "FPS",
                subtitle: "Frames per second (15–60)",
                min: 15,
                max: 60,
                step: 1,
                setting: self,
            },
            SpinSetting::Bitrate => SpinSpec {
                field: "capture.bitrate_kbps",
                title: "Bitrate",
                subtitle: "Kbps (1000–200000)",
                min: 1000,
                max: 200000,
                step: 500,
                setting: self,
            },
            SpinSetting::ReplayBuffer => SpinSpec {
                field: "capture.replay_buffer_seconds",
                title: "Replay buffer",
                subtitle: "Seconds of lead-in kept before an activity is detected (30–600)",
                min: 30,
                max: 600,
                step: 10,
                setting: self,
            },
            SpinSetting::ExtraLeadIn => SpinSpec {
                field: "capture.extra_lead_in_seconds",
                title: "Extra lead-in",
                subtitle: "Seconds added to the measured detection delay (0–30)",
                min: 0,
                max: 30,
                step: 1,
                setting: self,
            },
            SpinSetting::MinRaidDuration => SpinSpec {
                field: "activities.min_raid_duration_seconds",
                title: "Minimum raid duration",
                subtitle: "Seconds; shorter raid pulls are discarded (0–10000)",
                min: 0,
                max: 10000,
                step: 5,
                setting: self,
            },
            SpinSetting::RaidOverrun => SpinSpec {
                field: "activities.raid_overrun_seconds",
                title: "Raid overrun",
                subtitle: "Seconds recorded after a raid ends (0–60)",
                min: 0,
                max: 60,
                step: 1,
                setting: self,
            },
            SpinSetting::MinKeystoneLevel => SpinSpec {
                field: "activities.min_keystone_level",
                title: "Minimum keystone level",
                subtitle: "Lower keys are not recorded (minimum 2)",
                min: 2,
                max: 100,
                step: 1,
                setting: self,
            },
            SpinSetting::DungeonOverrun => SpinSpec {
                field: "activities.dungeon_overrun_seconds",
                title: "Dungeon overrun",
                subtitle: "Seconds recorded after a dungeon ends (0–60)",
                min: 0,
                max: 60,
                step: 1,
                setting: self,
            },
            SpinSetting::StorageLimit => SpinSpec {
                field: "storage.limit",
                title: "Storage limit",
                subtitle: "GiB; 0 = Unlimited. Oldest unprotected recordings are deleted over the limit.",
                min: 0,
                max: 64000,
                step: 5,
                setting: self,
            },
        }
    }

    /// The number the configuration holds.
    pub open spec fn value(self, config: Config) -> int {
        match self {
            SpinSetting::Fps => config.capture.fps as int,
            SpinSetting::Bitrate => config.capture.bitrate_kbps as int,
            SpinSetting::ReplayBuffer => config.capture.replay_buffer_seconds as int,
            SpinSetting::ExtraLeadIn => config.capture.extra_lead_in_seconds as int,
            SpinSetting::MinRaidDuration => config.activities.min_raid_duration_seconds as int,
            SpinSetting::RaidOverrun => config.activities.raid_overrun_seconds as int,
            SpinSetting::MinKeystoneLevel => config.activities.min_keystone_level as int,
            SpinSetting::DungeonOverrun => config.activities.dungeon_overrun_seconds as int,
            SpinSetting::StorageLimit => match config.storage.limit {
                StorageLimit::Unlimited => 0,
                StorageLimit::Gib(gib) => gib as int,
            },
        }
    }

    /// The capture settings with another number, where it is one of theirs.
    pub open spec fn in_capture(self, capture: CaptureSettings, value: int) -> CaptureSettings {
        match self {
            SpinSetting::Fps => CaptureSettings {
                fps: clamped(value, 0, u32::MAX as int) as u32,
                ..capture
            },
            SpinSetting::Bitrate => CaptureSettings {
                bitrate_kbps: clamped(value, 0, u32::MAX as int) as u32,
                ..capture
            },
            SpinSetting::ReplayBuffer => CaptureSettings {
                replay_buffer_seconds: clamped(value, 0, u32::MAX as int) as u32,
                ..capture
            },
            SpinSetting::ExtraLeadIn => CaptureSettings {
                extra_lead_in_seconds: clamped(value, 0, u32::MAX as int) as u32,
                ..capture
            },
            _ => capture,
        }
    }

    /// The activity settings with another number, where it is one of theirs.
    pub open spec fn in_activities(
        self,
        activities: ActivitySettings,
        value: int,
    ) -> ActivitySettings {
        match self {
            SpinSetting::MinRaidDuration => ActivitySettings {
                min_raid_duration_seconds: clamped(value, i32::MIN as int, i32::MAX as int) as i32,
                ..activities
            },
            SpinSetting::RaidOverrun => ActivitySettings {
                raid_overrun_seconds: clamped(value, 0, u32::MAX as int) as u32,
                ..activities
            },
            SpinSetting::MinKeystoneLevel => ActivitySettings {
                min_keystone_level: clamped(value, 0, u32::MAX as int) as u32,
                ..activities
            },
            SpinSetting::DungeonOverrun => ActivitySettings {
                dungeon_overrun_seconds: clamped(value, 0, u32::MAX as int) as u32,
                ..activities
            },
            _ => activities,
        }
    }

    /// The storage settings with another number, where it is one of theirs.
    pub open spec fn in_storage(self, storage: StorageSettings, value: int) -> StorageSettings {
        let gib = clamped(value, 0, u64::MAX as int) as u64;
        match self {
            SpinSetting::StorageLimit => StorageSettings {
                limit: if gib == 0 {
                    StorageLimit::Unlimited
                } else {
                    StorageLimit::Gib(gib)
                },
                ..storage
            },
            _ => storage,
        }
    }

    /// The configuration with another number; one that its field cannot hold
    /// becomes the nearest that it can.
    pub open spec fn changed(self, config: Config, value: int) -> Config {
        Config {
            capture: self.in_capture(config.capture, value),
            activities: self.in_activities(config.activities, value),
            storage: self.in_storage(config.storage, value),
            ..config
        }
    }

    /// The number is within the row's bounds.
    pub open spec fn fits(self, config: Config) -> bool {
        self.row().min <= self.value(config) <= self.row().max
    }
}

impl SpinSpec {
    /// The number the row shows.
    pub fn get(&self, config: &Config) -> (value: i128)
        ensures
            value == self.setting.value(*config),
    {
        match self.setting {
            SpinSetting::Fps => config.capture.fps as i128,
            SpinSetting::Bitrate => config.capture.bitrate_kbps as i128,
            SpinSetting::ReplayBuffer => config.capture.replay_buffer_seconds as i128,
            SpinSetting::ExtraLeadIn => config.capture.extra_lead_in_seconds as i128,
            SpinSetting::MinRaidDuration => config.activities.min_raid_duration_seconds as i128,
            SpinSetting::RaidOverrun => config.activities.raid_overrun_seconds as i128,
            SpinSetting::MinKeystoneLevel => config.activities.min_keystone_level as i128,
            SpinSetting::DungeonOverrun => config.activities.dungeon_overrun_seconds as i128,
            SpinSetting::StorageLimit => config.storage.limit.gib() as i128,
        }
    }

    /// Take the number of the row into the configuration.
    pub fn set(&self, config: &mut Config, value: i128)
        ensures
            *final(config) == self.setting.changed(*old(config), value as int),
    {
        self.setting.put_capture(&mut config.capture, value);
        self.setting.put_activity(&mut config.activities, value);
        self.setting.put_storage(&mut config.storage, value);
    }
}

impl SpinSetting {
    fn put_capture(self, capture: &mut CaptureSettings, value: i128)
        ensures
            *final(capture) == self.in_capture(*old(capture), value as int),
    {
        match self {
            SpinSetting::Fps => capture.fps = as_u32(value),
            SpinSetting::Bitrate => capture.bitrate_kbps = as_u32(value),
            SpinSetting::ReplayBuffer => capture.replay_buffer_seconds = as_u32(value),
            SpinSetting::ExtraLeadIn => capture.extra_lead_in_seconds = as_u32(value),
            _ => {},
        }
    }

    fn put_activity(self, activities: &mut ActivitySettings, value: i128)
        ensures
            *final(activities) == self.in_activities(*old(activities), value as int),
    {
        match self {
            SpinSetting::MinRaidDuration => activities.min_raid_duration_seconds = as_i32(value),
            SpinSetting::RaidOverrun => activities.raid_overrun_seconds = as_u32(value),
            SpinSetting::MinKeystoneLevel => activities.min_keystone_level = as_u32(value),
            SpinSetting::DungeonOverrun => activities.dungeon_overrun_seconds = as_u32(value),
            _ => {},
        }
    }

    fn put_storage(self, storage: &mut StorageSettings, value: i128)
        ensures
            *final(storage) == self.in_storage(*old(storage), value as int),
    {
        match self {
            SpinSetting::StorageLimit => storage.limit = StorageLimit::from_gib(as_u64(value)),
            _ => {},
        }
    }
}

/// A choice of the configuration that a row turns on or off.
#[derive(Clone, Copy, Debug, PartialEq, Eq, Structural)]
pub enum SwitchSetting {
    CaptureCursor,
    RecordRaids,
    RecordDungeons,
    RecordTwoVTwo,
    RecordThreeVThree,
    RecordFiveVFive,
    RecordSkirmish,
    RecordSoloShuffle,
    RecordBattlegrounds,
    RecordChallengeModes,
    CurrentRaidOnly,
    ValidateLogPaths,
    ManualEnabled,
    ManualSound,
    SeparateBuffer,
    HideEmptyCategories,
    MinimizeToTray,
    CloseToTray,
    StartMinimized,
    CloudEnabled,
    AutoUpload,
}

/// A row that turns something on or off.
#[derive(Clone, Copy, Debug, PartialEq, Eq)]
pub struct SwitchSpec {
    pub field: &'static str,
    pub title: &'static str,
    pub subtitle: &'static str,
    pub setting: SwitchSetting,
}

/// What a switch's row says: its field, title and subtitle.
pub struct SwitchRow {
    pub field: Seq<char>,
    pub title: Seq<char>,
    pub subtitle: Seq<char>,
}

impl View for SwitchSpec {
    type V = SwitchRow;

    open spec fn view(&self) -> SwitchRow {
        SwitchRow { field: self.field@, title: self.title@, subtitle: self.subtitle@ }
    }
}

impl SwitchSetting {
    /// The row of this switch.
    pub open spec fn row(self) -> SwitchRow {
        match self {
            SwitchSetting::CaptureCursor => SwitchRow {
                field: "capture.capture_cursor"@,
                title: "Capture cursor"@,
                subtitle: ""@,
            },
            SwitchSetting::RecordRaids => SwitchRow {
                field: "activities.record_raids"@,
                title: "Record raids"@,
                subtitle: ""@,
            },
            SwitchSetting::RecordDungeons => SwitchRow {
                field: "activities.record_dungeons"@,
                title: "Record Mythic+ dungeons"@,
                subtitle: ""@,
            },
            SwitchSetting::RecordTwoVTwo => SwitchRow {
                field: "activities.record_two_v_two"@,
                title: "Record 2v2"@,
                subtitle: ""@,
            },
            SwitchSetting::RecordThreeVThree => SwitchRow {
                field: "activities.record_three_v_three"@,
                title: "Record 3v3"@,
                subtitle: ""@,
            },
            SwitchSetting::RecordFiveVFive => SwitchRow {
                field: "activities.record_five_v_five"@,
                title: "Record 5v5"@,
                subtitle: ""@,
            },
            SwitchSetting::RecordSkirmish => SwitchRow {
                field: "activities.record_skirmish"@,
                title: "Record skirmishes"@,
                subtitle: ""@,
            },
            SwitchSetting::RecordSoloShuffle => SwitchRow {
                field: "activities.record_solo_shuffle"@,
                title: "Record Solo Shuffle"@,
                subtitle: ""@,
            },
            SwitchSetting::RecordBattlegrounds => SwitchRow {
                field: "activities.record_battlegrounds"@,
                title: "Record battlegrounds"@,
                subtitle: ""@,
            },
            SwitchSetting::RecordChallengeModes => SwitchRow {
                field: "activities.record_challenge_modes"@,
                title: "Record challenge modes"@,
                subtitle: "Classic challenge-mode dungeons"@,
            },
            SwitchSetting::CurrentRaidOnly => SwitchRow {
                field: "activities.current_raid_only"@,
                title: "Current raid tier only"@,
                subtitle: "Skip encounters from older raids"@,
            },
            SwitchSetting::ValidateLogPaths => SwitchRow {
                field: "validate_log_paths"@,
                title: "Validate log folders"@,
                subtitle: "Require each chosen folder to be a World of Warcraft Logs directory"@,
            },
            SwitchSetting::ManualEnabled => SwitchRow {
                field: "manual.enabled"@,
                title: "Manual recording"@,
                subtitle: "Show Start/Stop recording in the Manual category"@,
            },
            SwitchSetting::ManualSound => SwitchRow {
                field: "manual.sound"@,
                title: "Manual recording sound"@,
                subtitle: "Play an alert when a manual recording starts or stops"@,
            },
            SwitchSetting::SeparateBuffer => SwitchRow {
                field: "storage.separate_buffer_dir"@,
                title: "Separate replay-buffer folder"@,
                subtitle: "Store the disk replay buffer outside the recording folder"@,
            },
            SwitchSetting::HideEmptyCategories => SwitchRow {
                field: "interface.hide_empty_categories"@,
                title: "Hide empty categories"@,
                subtitle: ""@,
            },
            SwitchSetting::MinimizeToTray => SwitchRow {
                field: "interface.minimize_to_tray"@,
                title: "Minimize to tray"@,
                subtitle: ""@,
            },
            SwitchSetting::CloseToTray => SwitchRow {
                field: "interface.close_to_tray"@,
                title: "Close to tray"@,
                subtitle: "Keep recording in the background when the window closes"@,
            },
            SwitchSetting::StartMinimized => SwitchRow {
                field: "interface.start_minimized"@,
                title: "Start minimized"@,
                subtitle: ""@,
            },
            SwitchSetting::CloudEnabled => SwitchRow {
                field: "cloud.enabled"@,
                title: "Upload to Warcraft Recorder Pro"@,
                subtitle: "Share recordings through your guild's warcraftrecorder.com cloud"@,
            },
            SwitchSetting::AutoUpload => SwitchRow {
                field: "cloud.auto_upload"@,
                title: "Upload new recordings automatically"@,
                subtitle: "Clips and existing recordings are uploaded from their menu"@,
            },
        }
    }

    /// The row of this switch.
    pub fn spec(self) -> (spec: SwitchSpec)
        ensures
            spec@ == self.row(),
            spec.setting == self,
    {
        match self {
            SwitchSetting::CaptureCursor => SwitchSpec {
                field: "capture.capture_cursor",
                title: "Capture cursor",
                subtitle: "",
                setting: self,
            },
            SwitchSetting::RecordRaids => SwitchSpec {
                field: "activities.record_raids",
                title: "Record raids",
                subtitle: "",
                setting: self,
            },
            SwitchSetting::RecordDungeons => SwitchSpec {
                field: "activities.record_dungeons",
                title: "Record Mythic+ dungeons",
                subtitle: "",
                setting: self,
            },
            SwitchSetting::RecordTwoVTwo => SwitchSpec {
                field: "activities.record_two_v_two",
                title: "Record 2v2",
                subtitle: "",
                setting: self,
            },
            SwitchSetting::RecordThreeVThree => SwitchSpec {
                field: "activities.record_three_v_three",
                title: "Record 3v3",
                subtitle: "",
                setting: self,
            },
            SwitchSetting::RecordFiveVFive => SwitchSpec {
                field: "activities.record_five_v_five",
                title: "Record 5v5",
                subtitle: "",
                setting: self,
            },
            SwitchSetting::RecordSkirmish => SwitchSpec {
                field: "activities.record_skirmish",
                title: "Record skirmishes",
                subtitle: "",
                setting: self,
            },
            SwitchSetting::RecordSoloShuffle => SwitchSpec {
                field: "activities.record_solo_shuffle",
                title: "Record Solo Shuffle",
                subtitle: "",
                setting: self,
            },
            SwitchSetting::RecordBattlegrounds => SwitchSpec {
                field: "activities.record_battlegrounds",
                title: "Record battlegrounds",
                subtitle: "",
                setting: self,
            },
            SwitchSetting::RecordChallengeModes => SwitchSpec {
                field: "activities.record_challenge_modes",
                title: "Record challenge modes",
                subtitle: "Classic challenge-mode dungeons",
                setting: self,
            },
            SwitchSetting::CurrentRaidOnly => SwitchSpec {
                field: "activities.current_raid_only",
                title: "Current raid tier only",
                subtitle: "Skip encounters from older raids",
                setting: self,
            },
            SwitchSetting::ValidateLogPaths => SwitchSpec {
                field: "validate_log_paths",
                title: "Validate log folders",
                subtitle: "Require each chosen folder to be a World of Warcraft Logs directory",
                setting: self,
            },
            SwitchSetting::ManualEnabled => SwitchSpec {
                field: "manual.enabled",
                title: "Manual recording",
                subtitle: "Show Start/Stop recording in the Manual category",
                setting: self,
            },
            SwitchSetting::ManualSound => SwitchSpec {
                field: "manual.sound",
                title: "Manual recording sound",
                subtitle: "Play an alert when a manual recording starts or stops",
                setting: self,
            },
            SwitchSetting::SeparateBuffer => SwitchSpec {
                field: "storage.separate_buffer_dir",
                title: "Separate replay-buffer folder",
                subtitle: "Store the disk replay buffer outside the recording folder",
                setting: self,
            },
            SwitchSetting::HideEmptyCategories => SwitchSpec {
                field: "interface.hide_empty_categories",
                title: "Hide empty categories",
                subtitle: "",
                setting: self,
            },
            SwitchSetting::MinimizeToTray => SwitchSpec {
                field: "interface.minimize_to_tray",
                title: "Minimize to tray",
                subtitle: "",
                setting: self,
            },
            SwitchSetting::CloseToTray => SwitchSpec {
                field: "interface.close_to_tray",
                title: "Close to tray",
                subtitle: "Keep recording in the background when the window closes",
                setting: self,
            },
            SwitchSetting::StartMinimized => SwitchSpec {
                field: "interface.start_minimized",
                title: "Start minimized",
                subtitle: "",
                setting: self,
            },
            SwitchSetting::CloudEnabled => SwitchSpec {
                field: "cloud.enabled",
                title: "Upload to Warcraft Recorder Pro",
                subtitle: "Share recordings through your guild's warcraftrecorder.com cloud",
                setting: self,
            },
            SwitchSetting::AutoUpload => SwitchSpec {
                field: "cloud.auto_upload",
                title: "Upload new recordings automatically",
                subtitle: "Clips and existing recordings are uploaded from their menu",
                setting: self,
            },
        }
    }

    /// Whether the configuration has it on.
    pub open spec fn on(self, config: Config) -> bool {
        match self {
            SwitchSetting::CaptureCursor => config.capture.capture_cursor,
            SwitchSetting::RecordRaids => config.activities.record_raids,
            SwitchSetting::RecordDungeons => config.activities.record_dungeons,
            SwitchSetting::RecordTwoVTwo => config.activities.record_two_v_two,
            SwitchSetting::RecordThreeVThree => config.activities.record_three_v_three,
            SwitchSetting::RecordFiveVFive => config.activities.record_five_v_five,
            SwitchSetting::RecordSkirmish => config.activities.record_skirmish,
            SwitchSetting::RecordSoloShuffle => config.activities.record_solo_shuffle,
            SwitchSetting::RecordBattlegrounds => config.activities.record_battlegrounds,
            SwitchSetting::RecordChallengeModes => config.activities.record_challenge_modes,
            SwitchSetting::CurrentRaidOnly => config.activities.current_raid_only,
            SwitchSetting::ValidateLogPaths => config.validate_log_paths,
            SwitchSetting::ManualEnabled => config.manual.enabled,
            SwitchSetting::ManualSound => config.manual.sound,
            SwitchSetting::SeparateBuffer => config.storage.separate_buffer_dir,
            SwitchSetting::HideEmptyCategories => config.interface.hide_empty_categories,
            SwitchSetting::MinimizeToTray => config.interface.minimize_to_tray,
            SwitchSetting::CloseToTray => config.interface.close_to_tray,
            SwitchSetting::StartMinimized => config.interface.start_minimized,
            SwitchSetting::CloudEnabled => config.cloud.enabled,
            SwitchSetting::AutoUpload => config.cloud.auto_upload,
        }
    }

    /// The capture settings with it turned on or off, where it is one of theirs.
    pub open spec fn in_capture(self, capture: CaptureSettings, on: bool) -> CaptureSettings {
        match self {
            SwitchSetting::CaptureCursor => CaptureSettings { capture_cursor: on, ..capture },
            _ => capture,
        }
    }

    /// The activity settings with it turned on or off, where it is one of theirs.
    pub open spec fn in_activities(self, activities: ActivitySettings, on: bool) -> ActivitySettings {
        match self {
            SwitchSetting::RecordRaids => ActivitySettings { record_raids: on, ..activities },
            SwitchSetting::RecordDungeons => ActivitySettings { record_dungeons: on, ..activities },
            SwitchSetting::RecordTwoVTwo => ActivitySettings { record_two_v_two: on, ..activities },
            SwitchSetting::RecordThreeVThree => ActivitySettings { record_three_v_three: on, ..activities },
            SwitchSetting::RecordFiveVFive => ActivitySettings { record_five_v_five: on, ..activities },
            SwitchSetting::RecordSkirmish => ActivitySettings { record_skirmish: on, ..activities },
            SwitchSetting::RecordSoloShuffle => ActivitySettings { record_solo_shuffle: on, ..activities },
            SwitchSetting::RecordBattlegrounds => ActivitySettings { record_battlegrounds: on, ..activities },
            SwitchSetting::RecordChallengeModes => ActivitySettings { record_challenge_modes: on, ..activities },
            SwitchSetting::CurrentRaidOnly => ActivitySettings { current_raid_only: on, ..activities },
            _ => activities,
        }
    }

    /// The manual recording's settings with it turned on or off, where it is one of theirs.
    pub open spec fn in_manual(self, manual: ManualSettings, on: bool) -> ManualSettings {
        match self {
            SwitchSetting::ManualEnabled => ManualSettings { enabled: on, ..manual },
            SwitchSetting::ManualSound => ManualSettings { sound: on, ..manual },
            _ => manual,
        }
    }

    /// The storage settings with it turned on or off, where it is one of theirs.
    pub open spec fn in_storage(self, storage: StorageSettings, on: bool) -> StorageSettings {
        match self {
            SwitchSetting::SeparateBuffer => StorageSettings { separate_buffer_dir: on, ..storage },
            _ => storage,
        }
    }

    /// The preferences with it turned on or off, where it is one of theirs.
    pub open spec fn in_interface(self, interface: InterfaceSettings, on: bool) -> InterfaceSettings {
        match self {
            SwitchSetting::HideEmptyCategories => InterfaceSettings { hide_empty_categories: on, ..interface },
            SwitchSetting::MinimizeToTray => InterfaceSettings { minimize_to_tray: on, ..interface },
            SwitchSetting::CloseToTray => InterfaceSettings { close_to_tray: on, ..interface },
            SwitchSetting::StartMinimized => InterfaceSettings { start_minimized: on, ..interface },
            _ => interface,
        }
    }

    /// The cloud settings with it turned on or off, where it is one of theirs.
    pub open spec fn in_cloud(self, cloud: CloudSettings, on: bool) -> CloudSettings {
        match self {
            SwitchSetting::CloudEnabled => CloudSettings { enabled: on, ..cloud },
            SwitchSetting::AutoUpload => CloudSettings { auto_upload: on, ..cloud },
            _ => cloud,
        }
    }

    /// The configuration with it turned on or off.
    pub open spec fn changed(self, config: Config, on: bool) -> Config {
        Config {
            capture: self.in_capture(config.capture, on),
            activities: self.in_activities(config.activities, on),
            manual: self.in_manual(config.manual, on),
            storage: self.in_storage(config.storage, on),
            interface: self.in_interface(config.interface, on),
            cloud: self.in_cloud(config.cloud, on),
            validate_log_paths: if self is ValidateLogPaths {
                on
            } else {
                config.validate_log_paths
            },
            ..config
        }
    }
}

impl SwitchSpec {
    /// Whether the row is on.
    pub fn get(&self, config: &Config) -> (on: bool)
        ensures
            on == self.setting.on(*config),
    {
        match self.setting {
            SwitchSetting::CaptureCursor => config.capture.capture_cursor,
            SwitchSetting::RecordRaids => config.activities.record_raids,
            SwitchSetting::RecordDungeons => config.activities.record_dungeons,
            SwitchSetting::RecordTwoVTwo => config.activities.record_two_v_two,
            SwitchSetting::RecordThreeVThree => config.activities.record_three_v_three,
            SwitchSetting::RecordFiveVFive => config.activities.record_five_v_five,
            SwitchSetting::RecordSkirmish => config.activities.record_skirmish,
            SwitchSetting::RecordSoloShuffle => config.activities.record_solo_shuffle,
            SwitchSetting::RecordBattlegrounds => config.activities.record_battlegrounds,
            SwitchSetting::RecordChallengeModes => config.activities.record_challenge_modes,
            SwitchSetting::CurrentRaidOnly => config.activities.current_raid_only,
            SwitchSetting::ValidateLogPaths => config.validate_log_paths,
            SwitchSetting::ManualEnabled => config.manual.enabled,
            SwitchSetting::ManualSound => config.manual.sound,
            SwitchSetting::SeparateBuffer => config.storage.separate_buffer_dir,
            SwitchSetting::HideEmptyCategories => config.interface.hide_empty_categories,
            SwitchSetting::MinimizeToTray => config.interface.minimize_to_tray,
            SwitchSetting::CloseToTray => config.interface.close_to_tray,
            SwitchSetting::StartMinimized => config.interface.start_minimized,
            SwitchSetting::CloudEnabled => config.cloud.enabled,
            SwitchSetting::AutoUpload => config.cloud.auto_upload,
        }
    }

    /// Take the row's position into the configuration.
    pub fn set(&self, config: &mut Config, on: bool)
        ensures
            *final(config) == self.setting.changed(*old(config), on),
    {
        let setting = self.setting;
        setting.put_capture(&mut config.capture, on);
        setting.put_activity(&mut config.activities, on);
        setting.put_manual(&mut config.manual, on);
        setting.put_storage(&mut config.storage, on);
        setting.put_interface(&mut config.interface, on);
        setting.put_cloud(&mut config.cloud, on);
        if setting == SwitchSetting::ValidateLogPaths {
            config.validate_log_paths = on;
        }
    }
}

impl SwitchSetting {
    fn put_capture(self, capture: &mut CaptureSettings, on: bool)
        ensures
            *final(capture) == self.in_capture(*old(capture), on),
    {
        match self {
            SwitchSetting::CaptureCursor => capture.capture_cursor = on,
            _ => {},
        }
    }

    fn put_activity(self, activities: &mut ActivitySettings, on: bool)
        ensures
            *final(activities) == self.in_activities(*old(activities), on),
    {
        match self {
            SwitchSetting::RecordRaids => activities.record_raids = on,
            SwitchSetting::RecordDungeons => activities.record_dungeons = on,
            SwitchSetting::RecordTwoVTwo => activities.record_two_v_two = on,
            SwitchSetting::RecordThreeVThree => activities.record_three_v_three = on,
            SwitchSetting::RecordFiveVFive => activities.record_five_v_five = on,
            SwitchSetting::RecordSkirmish => activities.record_skirmish = on,
            SwitchSetting::RecordSoloShuffle => activities.record_solo_shuffle = on,
            SwitchSetting::RecordBattlegrounds => activities.record_battlegrounds = on,
            SwitchSetting::RecordChallengeModes => activities.record_challenge_modes = on,
            SwitchSetting::CurrentRaidOnly => activities.current_raid_only = on,
            _ => {},
        }
    }

    fn put_manual(self, manual: &mut ManualSettings, on: bool)
        ensures
            *final(manual) == self.in_manual(*old(manual), on),
    {
        match self {
            SwitchSetting::ManualEnabled => manual.enabled = on,
            SwitchSetting::ManualSound => manual.sound = on,
            _ => {},
        }
    }

    fn put_storage(self, storage: &mut StorageSettings, on: bool)
        ensures
            *final(storage) == self.in_storage(*old(storage), on),
    {
        match self {
            SwitchSetting::SeparateBuffer => storage.separate_buffer_dir = on,
            _ => {},
        }
    }

    fn put_interface(self, interface: &mut InterfaceSettings, on: bool)
        ensures
            *final(interface) == self.in_interface(*old(interface), on),
    {
        match self {
            SwitchSetting::HideEmptyCategories => interface.hide_empty_categories = on,
            SwitchSetting::MinimizeToTray => interface.minimize_to_tray = on,
            SwitchSetting::CloseToTray => interface.close_to_tray = on,
            SwitchSetting::StartMinimized => interface.start_minimized = on,
            _ => {},
        }
    }

    fn put_cloud(self, cloud: &mut CloudSettings, on: bool)
        ensures
            *final(cloud) == self.in_cloud(*old(cloud), on),
    {
        match self {
            SwitchSetting::CloudEnabled => cloud.enabled = on,
            SwitchSetting::AutoUpload => cloud.auto_upload = on,
            _ => {},
        }
    }
}

/// A choice among several that a row offers.
#[derive(Clone, Copy, Debug, PartialEq, Eq, Structural)]
pub enum ComboSetting {
    Codec,
    ReplayStorage,
    MinRaidDifficulty,
}

/// A row that offers several choices.
#[derive(Clone, Copy, Debug, PartialEq, Eq)]
pub struct ComboSpec {
    pub field: &'static str,
    pub title: &'static str,
    pub setting: ComboSetting,
}

impl ComboSetting {
    /// The row's field and title.
    pub open spec fn row(self) -> (Seq<char>, Seq<char>) {
        match self {
            ComboSetting::Codec => ("capture.codec"@, "Video codec"@),
            ComboSetting::ReplayStorage => ("capture.replay_storage"@, "Replay buffer storage"@),
            ComboSetting::MinRaidDifficulty => ("activities.min_raid_difficulty"@, "Minimum raid difficulty"@),
        }
    }

    /// The row of this choice.
    pub fn spec(self) -> (spec: ComboSpec)
        ensures
            (spec.field@, spec.title@) == self.row(),
            spec.setting == self,
    {
        match self {
            ComboSetting::Codec => ComboSpec {
                field: "capture.codec",
                title: "Video codec",
                setting: self,
            },
            ComboSetting::ReplayStorage => ComboSpec {
                field: "capture.replay_storage",
                title: "Replay buffer storage",
                setting: self,
            },
            ComboSetting::MinRaidDifficulty => ComboSpec {
                field: "activities.min_raid_difficulty",
                title: "Minimum raid difficulty",
                setting: self,
            },
        }
    }

    /// What the row offers, in order.
    pub open spec fn offers(self) -> Seq<Seq<char>> {
        match self {
            ComboSetting::Codec => seq!["H.264"@, "HEVC"@, "AV1"@],
            ComboSetting::ReplayStorage => seq!["RAM"@, "Disk"@],
            ComboSetting::MinRaidDifficulty => seq!["LFR"@, "Normal"@, "Heroic"@, "Mythic"@],
        }
    }

    /// Which of the choices the configuration holds.
    pub open spec fn index(self, config: Config) -> int {
        match self {
            ComboSetting::Codec => match config.capture.codec {
                Codec::H264 => 0,
                Codec::Hevc => 1,
                Codec::Av1 => 2,
            },
            ComboSetting::ReplayStorage => match config.capture.replay_storage {
                ReplayStorage::Ram => 0,
                ReplayStorage::Disk => 1,
            },
            ComboSetting::MinRaidDifficulty => match config.activities.min_raid_difficulty {
                RaidDifficulty::Lfr => 0,
                RaidDifficulty::Normal => 1,
                RaidDifficulty::Heroic => 2,
                RaidDifficulty::Mythic => 3,
            },
        }
    }

    /// The configuration with another choice; one that is not offered is the
    /// first.
    pub open spec fn changed(self, config: Config, index: u32) -> Config {
        match self {
            ComboSetting::Codec => Config {
                capture: CaptureSettings { codec: codec_at(index), ..config.capture },
                ..config
            },
            ComboSetting::ReplayStorage => Config {
                capture: CaptureSettings { replay_storage: storage_at(index), ..config.capture },
                ..config
            },
            ComboSetting::MinRaidDifficulty => Config {
                activities: ActivitySettings { min_raid_difficulty: difficulty_at(index), ..config.activities },
                ..config
            },
        }
    }
}

impl ComboSpec {
    /// What the row offers, in order.
    pub fn choices(&self) -> (choices: Vec<&'static str>)
        ensures
            choices@.map_values(|choice: &str| choice@) == self.setting.offers(),
    {
        let choices: Vec<&'static str> = match self.setting {
            ComboSetting::Codec => vec!["H.264", "HEVC", "AV1"],
            ComboSetting::ReplayStorage => vec!["RAM", "Disk"],
            ComboSetting::MinRaidDifficulty => vec!["LFR", "Normal", "Heroic", "Mythic"],
        };
        assert(choices@.map_values(|choice: &str| choice@) =~= self.setting.offers());
        choices
    }

    /// Which choice the row shows.
    pub fn get(&self, config: &Config) -> (index: u32)
        ensures
            index == self.setting.index(*config),
            index < self.setting.offers().len(),
    {
        match self.setting {
            ComboSetting::Codec => match config.capture.codec {
                Codec::H264 => 0,
                Codec::Hevc => 1,
                Codec::Av1 => 2,
            },
            ComboSetting::ReplayStorage => match config.capture.replay_storage {
                ReplayStorage::Ram => 0,
                ReplayStorage::Disk => 1,
            },
            ComboSetting::MinRaidDifficulty => match config.activities.min_raid_difficulty {
                RaidDifficulty::Lfr => 0,
                RaidDifficulty::Normal => 1,
                RaidDifficulty::Heroic => 2,
                RaidDifficulty::Mythic => 3,
            },
        }
    }

    /// Take the row's choice into the configuration.
    pub fn set(&self, config: &mut Config, index: u32)
        ensures
            *final(config) == self.setting.changed(*old(config), index),
    {
        match self.setting {
            ComboSetting::Codec => config.capture.codec = nth_codec(index),
            ComboSetting::ReplayStorage => config.capture.replay_storage = nth_storage(index),
            ComboSetting::MinRaidDifficulty => config.activities.min_raid_difficulty =
            nth_difficulty(index),
        }
    }
}

/// A choice by its place; a place that is not offered is the first.
pub open spec fn codec_at(index: u32) -> Codec {
    match index {
        1 => Codec::Hevc,
        2 => Codec::Av1,
        _ => Codec::H264,
    }
}

fn nth_codec(index: u32) -> (choice: Codec)
    ensures
        choice == codec_at(index),
{
    match index {
        1 => Codec::Hevc,
        2 => Codec::Av1,
        _ => Codec::H264,
    }
}

/// A choice by its place; a place that is not offered is the first.
pub open spec fn storage_at(index: u32) -> ReplayStorage {
    match index {
        1 => ReplayStorage::Disk,
        _ => ReplayStorage::Ram,
    }
}

fn nth_storage(index: u32) -> (choice: ReplayStorage)
    ensures
        choice == storage_at(index),
{
    match index {
        1 => ReplayStorage::Disk,
        _ => ReplayStorage::Ram,
    }
}

/// A choice by its place; a place that is not offered is the first.
pub open spec fn difficulty_at(index: u32) -> RaidDifficulty {
    match index {
        1 => RaidDifficulty::Normal,
        2 => RaidDifficulty::Heroic,
        3 => RaidDifficulty::Mythic,
        _ => RaidDifficulty::Lfr,
    }
}

fn nth_difficulty(index: u32) -> (choice: RaidDifficulty)
    ensures
        choice == difficulty_at(index),
{
    match index {
        1 => RaidDifficulty::Normal,
        2 => RaidDifficulty::Heroic,
        3 => RaidDifficulty::Mythic,
        _ => RaidDifficulty::Lfr,
    }
}

/// A directory of the configuration.
#[derive(Clone, Copy, Debug, PartialEq, Eq, Structural)]
pub enum PathSetting {
    Retail,
    RetailPtr,
    Classic,
    ClassicPtr,
    Era,
    RecordingDir,
    BufferDir,
}

/// A row that chooses a directory, with what access it needs and, for the
/// game flavours, a switch on the same row.
#[derive(Clone, Copy, Debug, PartialEq, Eq)]
pub struct PathSpec {
    pub field: &'static str,
    pub title: &'static str,
    pub needs_write: bool,
    pub setting: PathSetting,
    pub enabled: Option<EnabledAccess>,
}

/// The flavour-enabled toggle rendered on a path row.
#[derive(Clone, Copy, Debug, PartialEq, Eq)]
pub struct EnabledAccess {
    pub setting: PathSetting,
}

impl PathSetting {
    /// The row's field and title, and whether the recorder writes there.
    pub open spec fn row(self) -> (Seq<char>, Seq<char>, bool) {
        match self {
            PathSetting::Retail => ("flavors.retail"@, "Retail"@, false),
            PathSetting::RetailPtr => ("flavors.retail_ptr"@, "Retail PTR"@, false),
            PathSetting::Classic => ("flavors.classic"@, "Classic"@, false),
            PathSetting::ClassicPtr => ("flavors.classic_ptr"@, "Classic PTR"@, false),
            PathSetting::Era => ("flavors.era"@, "Era"@, false),
            PathSetting::RecordingDir => ("storage.recording_dir"@, "Recording folder"@, true),
            PathSetting::BufferDir => ("storage.buffer_dir"@, "Replay-buffer folder"@, true),
        }
    }

    /// The directory belongs to a game flavour, which can be turned off.
    pub open spec fn is_flavor(self) -> bool {
        !(self is RecordingDir) && !(self is BufferDir)
    }

    /// The row of this directory.
    pub fn spec(self) -> (spec: PathSpec)
        ensures
            (spec.field@, spec.title@, spec.needs_write) == self.row(),
            spec.setting == self,
            spec.enabled == (if self.is_flavor() {
                Some(EnabledAccess { setting: self })
            } else {
                None
            }),
    {
        match self {
            PathSetting::Retail => PathSpec {
                field: "flavors.retail",
                title: "Retail",
                needs_write: false,
                setting: self,
                enabled: Some(EnabledAccess { setting: self }),
            },
            PathSetting::RetailPtr => PathSpec {
                field: "flavors.retail_ptr",
                title: "Retail PTR",
                needs_write: false,
                setting: self,
                enabled: Some(EnabledAccess { setting: self }),
            },
            PathSetting::Classic => PathSpec {
                field: "flavors.classic",
                title: "Classic",
                needs_write: false,
                setting: self,
                enabled: Some(EnabledAccess { setting: self }),
            },
            PathSetting::ClassicPtr => PathSpec {
                field: "flavors.classic_ptr",
                title: "Classic PTR",
                needs_write: false,
                setting: self,
                enabled: Some(EnabledAccess { setting: self }),
            },
            PathSetting::Era => PathSpec {
                field: "flavors.era",
                title: "Era",
                needs_write: false,
                setting: self,
                enabled: Some(EnabledAccess { setting: self }),
            },
            PathSetting::RecordingDir => PathSpec {
                field: "storage.recording_dir",
                title: "Recording folder",
                needs_write: true,
                setting: self,
                enabled: None,
            },
            PathSetting::BufferDir => PathSpec {
                field: "storage.buffer_dir",
                title: "Replay-buffer folder",
                needs_write: true,
                setting: self,
                enabled: None,
            },
        }
    }

    /// The directory the configuration holds.
    pub open spec fn path(self, config: Config) -> AuthorizedPath {
        match self {
            PathSetting::Retail => config.flavors.retail.log_dir,
            PathSetting::RetailPtr => config.flavors.retail_ptr.log_dir,
            PathSetting::Classic => config.flavors.classic.log_dir,
            PathSetting::ClassicPtr => config.flavors.classic_ptr.log_dir,
            PathSetting::Era => config.flavors.era.log_dir,
            PathSetting::RecordingDir => config.storage.recording_dir,
            PathSetting::BufferDir => config.storage.buffer_dir,
        }
    }

    /// The configuration with another directory.
    pub open spec fn changed(self, config: Config, path: AuthorizedPath) -> Config {
        match self {
            PathSetting::Retail => Config {
                flavors: FlavorSettings {
                    retail: FlavorConfig { log_dir: path, ..config.flavors.retail },
                    ..config.flavors
                },
                ..config
            },
            PathSetting::RetailPtr => Config {
                flavors: FlavorSettings {
                    retail_ptr: FlavorConfig { log_dir: path, ..config.flavors.retail_ptr },
                    ..config.flavors
                },
                ..config
            },
            PathSetting::Classic => Config {
                flavors: FlavorSettings {
                    classic: FlavorConfig { log_dir: path, ..config.flavors.classic },
                    ..config.flavors
                },
                ..config
            },
            PathSetting::ClassicPtr => Config {
                flavors: FlavorSettings {
                    classic_ptr: FlavorConfig { log_dir: path, ..config.flavors.classic_ptr },
                    ..config.flavors
                },
                ..config
            },
            PathSetting::Era => Config {
                flavors: FlavorSettings {
                    era: FlavorConfig { log_dir: path, ..config.flavors.era },
                    ..config.flavors
                },
                ..config
            },
            PathSetting::RecordingDir => Config {
                storage: StorageSettings { recording_dir: path, ..config.storage },
                ..config
            },
            PathSetting::BufferDir => Config {
                storage: StorageSettings { buffer_dir: path, ..config.storage },
                ..config
            },
        }
    }

    /// Whether the flavour of the directory is enabled.
    pub open spec fn on(self, config: Config) -> bool {
        match self {
            PathSetting::Retail => config.flavors.retail.enabled,
            PathSetting::RetailPtr => config.flavors.retail_ptr.enabled,
            PathSetting::Classic => config.flavors.classic.enabled,
            PathSetting::ClassicPtr => config.flavors.classic_ptr.enabled,
            PathSetting::Era => config.flavors.era.enabled,
            _ => true,
        }
    }

    /// The configuration with the directory's flavour turned on or off.
    pub open spec fn switched(self, config: Config, on: bool) -> Config {
        match self {
            PathSetting::Retail => Config {
                flavors: FlavorSettings {
                    retail: FlavorConfig { enabled: on, ..config.flavors.retail },
                    ..config.flavors
                },
                ..config
            },
            PathSetting::RetailPtr => Config {
                flavors: FlavorSettings {
                    retail_ptr: FlavorConfig { enabled: on, ..config.flavors.retail_ptr },
                    ..config.flavors
                },
                ..config
            },
            PathSetting::Classic => Config {
                flavors: FlavorSettings {
                    classic: FlavorConfig { enabled: on, ..config.flavors.classic },
                    ..config.flavors
                },
                ..config
            },
            PathSetting::ClassicPtr => Config {
                flavors: FlavorSettings {
                    classic_ptr: FlavorConfig { enabled: on, ..config.flavors.classic_ptr },
                    ..config.flavors
                },
                ..config
            },
            PathSetting::Era => Config {
                flavors: FlavorSettings {
                    era: FlavorConfig { enabled: on, ..config.flavors.era },
                    ..config.flavors
                },
                ..config
            },
            _ => config,
        }
    }

    /// The directory of a row's field.
    pub open spec fn of_field(field: Seq<char>) -> Option<PathSetting> {
        if field == "flavors.retail"@ {
            Some(PathSetting::Retail)
        } else if field == "flavors.retail_ptr"@ {
            Some(PathSetting::RetailPtr)
        } else if field == "flavors.classic"@ {
            Some(PathSetting::Classic)
        } else if field == "flavors.classic_ptr"@ {
            Some(PathSetting::ClassicPtr)
        } else if field == "flavors.era"@ {
            Some(PathSetting::Era)
        } else if field == "storage.recording_dir"@ {
            Some(PathSetting::RecordingDir)
        } else if field == "storage.buffer_dir"@ {
            Some(PathSetting::BufferDir)
        } else {
            None
        }
    }

    /// The directory of a row's field.
    pub fn from_field(field: &str) -> (setting: Option<PathSetting>)
        ensures
            setting == PathSetting::of_field(field@),
    {
        if same_text(field, "flavors.retail") {
            Some(PathSetting::Retail)
        } else if same_text(field, "flavors.retail_ptr") {
            Some(PathSetting::RetailPtr)
        } else if same_text(field, "flavors.classic") {
            Some(PathSetting::Classic)
        } else if same_text(field, "flavors.classic_ptr") {
            Some(PathSetting::ClassicPtr)
        } else if same_text(field, "flavors.era") {
            Some(PathSetting::Era)
        } else if same_text(field, "storage.recording_dir") {
            Some(PathSetting::RecordingDir)
        } else if same_text(field, "storage.buffer_dir") {
            Some(PathSetting::BufferDir)
        } else {
            None
        }
    }
}

impl PathSpec {
    /// The directory the row shows.
    pub fn get<'a>(&self, config: &'a Config) -> (path: &'a AuthorizedPath)
        ensures
            *path == self.setting.path(*config),
    {
        match self.setting {
            PathSetting::Retail => &config.flavors.retail.log_dir,
            PathSetting::RetailPtr => &config.flavors.retail_ptr.log_dir,
            PathSetting::Classic => &config.flavors.classic.log_dir,
            PathSetting::ClassicPtr => &config.flavors.classic_ptr.log_dir,
            PathSetting::Era => &config.flavors.era.log_dir,
            PathSetting::RecordingDir => &config.storage.recording_dir,
            PathSetting::BufferDir => &config.storage.buffer_dir,
        }
    }

    /// Take the row's directory into the configuration.
    pub fn set(&self, config: &mut Config, path: AuthorizedPath)
        ensures
            *final(config) == self.setting.changed(*old(config), path),
    {
        match self.setting {
            PathSetting::Retail => config.flavors.retail.log_dir = path,
            PathSetting::RetailPtr => config.flavors.retail_ptr.log_dir = path,
            PathSetting::Classic => config.flavors.classic.log_dir = path,
            PathSetting::ClassicPtr => config.flavors.classic_ptr.log_dir = path,
            PathSetting::Era => config.flavors.era.log_dir = path,
            PathSetting::RecordingDir => config.storage.recording_dir = path,
            PathSetting::BufferDir => config.storage.buffer_dir = path,
        }
    }
}

impl EnabledAccess {
    /// Whether the row's flavour is enabled.
    pub fn get(&self, config: &Config) -> (on: bool)
        ensures
            on == self.setting.on(*config),
    {
        match self.setting {
            PathSetting::Retail => config.flavors.retail.enabled,
            PathSetting::RetailPtr => config.flavors.retail_ptr.enabled,
            PathSetting::Classic => config.flavors.classic.enabled,
            PathSetting::ClassicPtr => config.flavors.classic_ptr.enabled,
            PathSetting::Era => config.flavors.era.enabled,
            _ => true,
        }
    }

    /// Enable or disable the row's flavour.
    pub fn set(&self, config: &mut Config, on: bool)
        ensures
            *final(config) == self.setting.switched(*old(config), on),
    {
        match self.setting {
            PathSetting::Retail => config.flavors.retail.enabled = on,
            PathSetting::RetailPtr => config.flavors.retail_ptr.enabled = on,
            PathSetting::Classic => config.flavors.classic.enabled = on,
            PathSetting::ClassicPtr => config.flavors.classic_ptr.enabled = on,
            PathSetting::Era => config.flavors.era.enabled = on,
            _ => {},
        }
    }
}

/// The choices of the capture page.
pub fn capture_combos() -> (rows: Vec<ComboSpec>)
    ensures
        rows@.map_values(|row: ComboSpec| row.setting) == seq![
            ComboSetting::Codec,
            ComboSetting::ReplayStorage,
        ],
        forall|i: int|
            0 <= i < rows@.len() ==> ((#[trigger] rows@[i]).field@, rows@[i].title@)
                == rows@[i].setting.row(),
{
    let rows: Vec<ComboSpec> = vec![
        ComboSetting::Codec.spec(),
        ComboSetting::ReplayStorage.spec(),
    ];
    assert(rows@.map_values(|row: ComboSpec| row.setting) =~= seq![
        ComboSetting::Codec,
        ComboSetting::ReplayStorage,
    ]);
    rows
}

/// The numbers of the capture page.
pub fn capture_spins() -> (rows: Vec<SpinSpec>)
    ensures
        rows@.map_values(|row: SpinSpec| row.setting) == seq![
            SpinSetting::Fps,
            SpinSetting::Bitrate,
            SpinSetting::ReplayBuffer,
            SpinSetting::ExtraLeadIn,
        ],
        forall|i: int| 0 <= i < rows@.len() ==> (#[trigger] rows@[i])@ == rows@[i].setting.row(),
{
    let rows: Vec<SpinSpec> = vec![
        SpinSetting::Fps.spec(),
        SpinSetting::Bitrate.spec(),
        SpinSetting::ReplayBuffer.spec(),
        SpinSetting::ExtraLeadIn.spec(),
    ];
    assert(rows@.map_values(|row: SpinSpec| row.setting) =~= seq![
        SpinSetting::Fps,
        SpinSetting::Bitrate,
        SpinSetting::ReplayBuffer,
        SpinSetting::ExtraLeadIn,
    ]);
    rows
}

/// The switches of the capture page.
pub fn capture_switches() -> (rows: Vec<SwitchSpec>)
    ensures
        rows@.map_values(|row: SwitchSpec| row.setting) == seq![
            SwitchSetting::CaptureCursor,
        ],
        forall|i: int| 0 <= i < rows@.len() ==> (#[trigger] rows@[i])@ == rows@[i].setting.row(),
{
    let rows: Vec<SwitchSpec> = vec![
        SwitchSetting::CaptureCursor.spec(),
    ];
    assert(rows@.map_values(|row: SwitchSpec| row.setting) =~= seq![
        SwitchSetting::CaptureCursor,
    ]);
    rows
}

/// Rail order: raids, dungeons, arena sizes, skirmish, shuffle, battlegrounds,
/// challenge modes.
pub fn activity_switches() -> (rows: Vec<SwitchSpec>)
    ensures
        rows@.map_values(|row: SwitchSpec| row.setting) == seq![
            SwitchSetting::RecordRaids,
            SwitchSetting::RecordDungeons,
            SwitchSetting::RecordTwoVTwo,
            SwitchSetting::RecordThreeVThree,
            SwitchSetting::RecordFiveVFive,
            SwitchSetting::RecordSkirmish,
            SwitchSetting::RecordSoloShuffle,
            SwitchSetting::RecordBattlegrounds,
            SwitchSetting::RecordChallengeModes,
        ],
        forall|i: int| 0 <= i < rows@.len() ==> (#[trigger] rows@[i])@ == rows@[i].setting.row(),
{
    let rows: Vec<SwitchSpec> = vec![
        SwitchSetting::RecordRaids.spec(),
        SwitchSetting::RecordDungeons.spec(),
        SwitchSetting::RecordTwoVTwo.spec(),
        SwitchSetting::RecordThreeVThree.spec(),
        SwitchSetting::RecordFiveVFive.spec(),
        SwitchSetting::RecordSkirmish.spec(),
        SwitchSetting::RecordSoloShuffle.spec(),
        SwitchSetting::RecordBattlegrounds.spec(),
        SwitchSetting::RecordChallengeModes.spec(),
    ];
    assert(rows@.map_values(|row: SwitchSpec| row.setting) =~= seq![
        SwitchSetting::RecordRaids,
        SwitchSetting::RecordDungeons,
        SwitchSetting::RecordTwoVTwo,
        SwitchSetting::RecordThreeVThree,
        SwitchSetting::RecordFiveVFive,
        SwitchSetting::RecordSkirmish,
        SwitchSetting::RecordSoloShuffle,
        SwitchSetting::RecordBattlegrounds,
        SwitchSetting::RecordChallengeModes,
    ]);
    rows
}

/// The choices of the activities page.
pub fn activity_combos() -> (rows: Vec<ComboSpec>)
    ensures
        rows@.map_values(|row: ComboSpec| row.setting) == seq![
            ComboSetting::MinRaidDifficulty,
        ],
        forall|i: int|
            0 <= i < rows@.len() ==> ((#[trigger] rows@[i]).field@, rows@[i].title@)
                == rows@[i].setting.row(),
{
    let rows: Vec<ComboSpec> = vec![
        ComboSetting::MinRaidDifficulty.spec(),
    ];
    assert(rows@.map_values(|row: ComboSpec| row.setting) =~= seq![
        ComboSetting::MinRaidDifficulty,
    ]);
    rows
}

/// The numbers of the activities page.
pub fn activity_spins() -> (rows: Vec<SpinSpec>)
    ensures
        rows@.map_values(|row: SpinSpec| row.setting) == seq![
            SpinSetting::MinRaidDuration,
            SpinSetting::RaidOverrun,
            SpinSetting::MinKeystoneLevel,
            SpinSetting::DungeonOverrun,
        ],
        forall|i: int| 0 <= i < rows@.len() ==> (#[trigger] rows@[i])@ == rows@[i].setting.row(),
{
    let rows: Vec<SpinSpec> = vec![
        SpinSetting::MinRaidDuration.spec(),
        SpinSetting::RaidOverrun.spec(),
        SpinSetting::MinKeystoneLevel.spec(),
        SpinSetting::DungeonOverrun.spec(),
    ];
    assert(rows@.map_values(|row: SpinSpec| row.setting) =~= seq![
        SpinSetting::MinRaidDuration,
        SpinSetting::RaidOverrun,
        SpinSetting::MinKeystoneLevel,
        SpinSetting::DungeonOverrun,
    ]);
    rows
}

/// The further switches of the activities page.
pub fn activity_extra_switches() -> (rows: Vec<SwitchSpec>)
    ensures
        rows@.map_values(|row: SwitchSpec| row.setting) == seq![
            SwitchSetting::CurrentRaidOnly,
            SwitchSetting::ValidateLogPaths,
            SwitchSetting::ManualEnabled,
            SwitchSetting::ManualSound,
        ],
        forall|i: int| 0 <= i < rows@.len() ==> (#[trigger] rows@[i])@ == rows@[i].setting.row(),
{
    let rows: Vec<SwitchSpec> = vec![
        SwitchSetting::CurrentRaidOnly.spec(),
        SwitchSetting::ValidateLogPaths.spec(),
        SwitchSetting::ManualEnabled.spec(),
        SwitchSetting::ManualSound.spec(),
    ];
    assert(rows@.map_values(|row: SwitchSpec| row.setting) =~= seq![
        SwitchSetting::CurrentRaidOnly,
        SwitchSetting::ValidateLogPaths,
        SwitchSetting::ManualEnabled,
        SwitchSetting::ManualSound,
    ]);
    rows
}

/// The numbers of the storage page.
pub fn storage_spins() -> (rows: Vec<SpinSpec>)
    ensures
        rows@.map_values(|row: SpinSpec| row.setting) == seq![
            SpinSetting::StorageLimit,
        ],
        forall|i: int| 0 <= i < rows@.len() ==> (#[trigger] rows@[i])@ == rows@[i].setting.row(),
{
    let rows: Vec<SpinSpec> = vec![
        SpinSetting::StorageLimit.spec(),
    ];
    assert(rows@.map_values(|row: SpinSpec| row.setting) =~= seq![
        SpinSetting::StorageLimit,
    ]);
    rows
}

/// The switches of the storage and interface page.
pub fn interface_switches() -> (rows: Vec<SwitchSpec>)
    ensures
        rows@.map_values(|row: SwitchSpec| row.setting) == seq![
            SwitchSetting::SeparateBuffer,
            SwitchSetting::HideEmptyCategories,
            SwitchSetting::MinimizeToTray,
            SwitchSetting::CloseToTray,
            SwitchSetting::StartMinimized,
        ],
        forall|i: int| 0 <= i < rows@.len() ==> (#[trigger] rows@[i])@ == rows@[i].setting.row(),
{
    let rows: Vec<SwitchSpec> = vec![
        SwitchSetting::SeparateBuffer.spec(),
        SwitchSetting::HideEmptyCategories.spec(),
        SwitchSetting::MinimizeToTray.spec(),
        SwitchSetting::CloseToTray.spec(),
        SwitchSetting::StartMinimized.spec(),
    ];
    assert(rows@.map_values(|row: SwitchSpec| row.setting) =~= seq![
        SwitchSetting::SeparateBuffer,
        SwitchSetting::HideEmptyCategories,
        SwitchSetting::MinimizeToTray,
        SwitchSetting::CloseToTray,
        SwitchSetting::StartMinimized,
    ]);
    rows
}

/// The directories: the flavours' log folders, then the recorder's own.
pub fn paths() -> (rows: Vec<PathSpec>)
    ensures
        rows@.map_values(|row: PathSpec| row.setting) == seq![
            PathSetting::Retail,
            PathSetting::RetailPtr,
            PathSetting::Classic,
            PathSetting::ClassicPtr,
            PathSetting::Era,
            PathSetting::RecordingDir,
            PathSetting::BufferDir,
        ],
        forall|i: int|
            0 <= i < rows@.len() ==> ((#[trigger] rows@[i]).field@, rows@[i].title@, rows@[i].needs_write)
                == rows@[i].setting.row(),
        forall|i: int|
            0 <= i < rows@.len() ==> (#[trigger] rows@[i]).enabled == (if rows@[i].setting.is_flavor() {
                Some(EnabledAccess { setting: rows@[i].setting })
            } else {
                None
            }),
{
    let rows: Vec<PathSpec> = vec![
        PathSetting::Retail.spec(),
        PathSetting::RetailPtr.spec(),
        PathSetting::Classic.spec(),
        PathSetting::ClassicPtr.spec(),
        PathSetting::Era.spec(),
        PathSetting::RecordingDir.spec(),
        PathSetting::BufferDir.spec(),
    ];
    assert(rows@.map_values(|row: PathSpec| row.setting) =~= seq![
        PathSetting::Retail,
        PathSetting::RetailPtr,
        PathSetting::Classic,
        PathSetting::ClassicPtr,
        PathSetting::Era,
        PathSetting::RecordingDir,
        PathSetting::BufferDir,
    ]);
    rows
}

/// The switches of the cloud page.
pub fn cloud_switches() -> (rows: Vec<SwitchSpec>)
    ensures
        rows@.map_values(|row: SwitchSpec| row.setting) == seq![
            SwitchSetting::CloudEnabled,
            SwitchSetting::AutoUpload,
        ],
        forall|i: int| 0 <= i < rows@.len() ==> (#[trigger] rows@[i])@ == rows@[i].setting.row(),
{
    let rows: Vec<SwitchSpec> = vec![
        SwitchSetting::CloudEnabled.spec(),
        SwitchSetting::AutoUpload.spec(),
    ];
    assert(rows@.map_values(|row: SwitchSpec| row.setting) =~= seq![
        SwitchSetting::CloudEnabled,
        SwitchSetting::AutoUpload,
    ]);
    rows
}

/// A number's row shows what was set in it within its bounds.
pub proof fn numbers_show_what_was_set(number: SpinSetting, value: int, config: Config)
    requires
        number.row().min <= value <= number.row().max,
    ensures
        number.value(number.changed(config, value)) == value,
{
}

/// A switch's row shows the position it was given.
pub proof fn switches_show_what_was_set(switch: SwitchSetting, on: bool, config: Config)
    ensures
        switch.on(switch.changed(config, on)) == on,
{
}

/// A choice's row shows the choice it was given, of those it offers.
pub proof fn choices_show_what_was_set(choice: ComboSetting, index: u32, config: Config)
    requires
        index < choice.offers().len(),
    ensures
        choice.index(choice.changed(config, index)) == index,
{
}

/// A directory's row shows the directory and the flavour's position that it
/// was given, and neither disturbs the other.
pub proof fn directories_show_what_was_set(
    directory: PathSetting,
    path: AuthorizedPath,
    on: bool,
    config: Config,
)
    ensures
        directory.path(directory.changed(config, path)) == path,
        directory.on(directory.changed(config, path)) == directory.on(config),
        directory.is_flavor() ==> directory.on(directory.switched(config, on)) == on,
        directory.path(directory.switched(config, on)) == directory.path(config),
{
}

/// Setting one number leaves every other number as it was.
pub proof fn numbers_are_independent(
    number: SpinSetting,
    value: int,
    other: SpinSetting,
    config: Config,
)
    requires
        other != number,
    ensures
        other.value(number.changed(config, value)) == other.value(config),
{
}

/// Setting a number turns no switch, takes no other choice and moves no
/// directory.
pub proof fn numbers_leave_other_rows_alone(
    number: SpinSetting,
    value: int,
    switch: SwitchSetting,
    choice: ComboSetting,
    directory: PathSetting,
    config: Config,
)
    ensures
        switch.on(number.changed(config, value)) == switch.on(config),
        choice.index(number.changed(config, value)) == choice.index(config),
        directory.path(number.changed(config, value)) == directory.path(config),
        directory.on(number.changed(config, value)) == directory.on(config),
{
}

proof fn lemma_capture_and_storage_switches(switch: SwitchSetting, on: bool, config: Config)
    ensures
        switch != SwitchSetting::CaptureCursor ==> SwitchSetting::CaptureCursor.on(switch.changed(config, on)) == SwitchSetting::CaptureCursor.on(
            config,
        ),
        switch != SwitchSetting::ValidateLogPaths ==> SwitchSetting::ValidateLogPaths.on(switch.changed(config, on)) == SwitchSetting::ValidateLogPaths.on(
            config,
        ),
        switch != SwitchSetting::ManualEnabled ==> SwitchSetting::ManualEnabled.on(switch.changed(config, on)) == SwitchSetting::ManualEnabled.on(
            config,
        ),
        switch != SwitchSetting::ManualSound ==> SwitchSetting::ManualSound.on(switch.changed(config, on)) == SwitchSetting::ManualSound.on(
            config,
        ),
        switch != SwitchSetting::SeparateBuffer ==> SwitchSetting::SeparateBuffer.on(switch.changed(config, on)) == SwitchSetting::SeparateBuffer.on(
            config,
        ),
{
}

proof fn lemma_group_switches(switch: SwitchSetting, on: bool, config: Config)
    ensures
        switch != SwitchSetting::RecordRaids ==> SwitchSetting::RecordRaids.on(switch.changed(config, on)) == SwitchSetting::RecordRaids.on(
            config,
        ),
        switch != SwitchSetting::RecordDungeons ==> SwitchSetting::RecordDungeons.on(switch.changed(config, on)) == SwitchSetting::RecordDungeons.on(
            config,
        ),
        switch != SwitchSetting::RecordTwoVTwo ==> SwitchSetting::RecordTwoVTwo.on(switch.changed(config, on)) == SwitchSetting::RecordTwoVTwo.on(
            config,
        ),
{
}

proof fn lemma_arena_switches(switch: SwitchSetting, on: bool, config: Config)
    ensures
        switch != SwitchSetting::RecordThreeVThree ==> SwitchSetting::RecordThreeVThree.on(switch.changed(config, on)) == SwitchSetting::RecordThreeVThree.on(
            config,
        ),
        switch != SwitchSetting::RecordFiveVFive ==> SwitchSetting::RecordFiveVFive.on(switch.changed(config, on)) == SwitchSetting::RecordFiveVFive.on(
            config,
        ),
        switch != SwitchSetting::RecordSkirmish ==> SwitchSetting::RecordSkirmish.on(switch.changed(config, on)) == SwitchSetting::RecordSkirmish.on(
            config,
        ),
{
}

proof fn lemma_other_activity_switches(switch: SwitchSetting, on: bool, config: Config)
    ensures
        switch != SwitchSetting::RecordSoloShuffle ==> SwitchSetting::RecordSoloShuffle.on(switch.changed(config, on)) == SwitchSetting::RecordSoloShuffle.on(
            config,
        ),
        switch != SwitchSetting::RecordBattlegrounds ==> SwitchSetting::RecordBattlegrounds.on(switch.changed(config, on)) == SwitchSetting::RecordBattlegrounds.on(
            config,
        ),
        switch != SwitchSetting::RecordChallengeModes ==> SwitchSetting::RecordChallengeModes.on(switch.changed(config, on)) == SwitchSetting::RecordChallengeModes.on(
            config,
        ),
        switch != SwitchSetting::CurrentRaidOnly ==> SwitchSetting::CurrentRaidOnly.on(switch.changed(config, on)) == SwitchSetting::CurrentRaidOnly.on(
            config,
        ),
{
}

proof fn lemma_interface_switches(switch: SwitchSetting, on: bool, config: Config)
    ensures
        switch != SwitchSetting::HideEmptyCategories ==> SwitchSetting::HideEmptyCategories.on(switch.changed(config, on)) == SwitchSetting::HideEmptyCategories.on(
            config,
        ),
        switch != SwitchSetting::MinimizeToTray ==> SwitchSetting::MinimizeToTray.on(switch.changed(config, on)) == SwitchSetting::MinimizeToTray.on(
            config,
        ),
        switch != SwitchSetting::CloseToTray ==> SwitchSetting::CloseToTray.on(switch.changed(config, on)) == SwitchSetting::CloseToTray.on(
            config,
        ),
        switch != SwitchSetting::StartMinimized ==> SwitchSetting::StartMinimized.on(switch.changed(config, on)) == SwitchSetting::StartMinimized.on(
            config,
        ),
{
}

proof fn lemma_cloud_switches(switch: SwitchSetting, on: bool, config: Config)
    ensures
        switch != SwitchSetting::CloudEnabled ==> SwitchSetting::CloudEnabled.on(switch.changed(config, on)) == SwitchSetting::CloudEnabled.on(
            config,
        ),
        switch != SwitchSetting::AutoUpload ==> SwitchSetting::AutoUpload.on(switch.changed(config, on)) == SwitchSetting::AutoUpload.on(
            config,
        ),
{
}

/// Turning one switch leaves every other switch as it was.
pub proof fn switches_are_independent(
    switch: SwitchSetting,
    on: bool,
    other: SwitchSetting,
    config: Config,
)
    requires
        other != switch,
    ensures
        other.on(switch.changed(config, on)) == other.on(config),
{
    lemma_capture_and_storage_switches(switch, on, config);
    lemma_group_switches(switch, on, config);
    lemma_arena_switches(switch, on, config);
    lemma_other_activity_switches(switch, on, config);
    lemma_interface_switches(switch, on, config);
    lemma_cloud_switches(switch, on, config);
    match other {
        SwitchSetting::CaptureCursor => {},
        SwitchSetting::RecordRaids => {},
        SwitchSetting::RecordDungeons => {},
        SwitchSetting::RecordTwoVTwo => {},
        SwitchSetting::RecordThreeVThree => {},
        SwitchSetting::RecordFiveVFive => {},
        SwitchSetting::RecordSkirmish => {},
        SwitchSetting::RecordSoloShuffle => {},
        SwitchSetting::RecordBattlegrounds => {},
        SwitchSetting::RecordChallengeModes => {},
        SwitchSetting::CurrentRaidOnly => {},
        SwitchSetting::ValidateLogPaths => {},
        SwitchSetting::ManualEnabled => {},
        SwitchSetting::ManualSound => {},
        SwitchSetting::SeparateBuffer => {},
        SwitchSetting::HideEmptyCategories => {},
        SwitchSetting::MinimizeToTray => {},
        SwitchSetting::CloseToTray => {},
        SwitchSetting::StartMinimized => {},
        SwitchSetting::CloudEnabled => {},
        SwitchSetting::AutoUpload => {},
    }
}

proof fn lemma_switch_rows(switch: SwitchSetting, on: bool, config: Config)
    ensures
        SpinSetting::Fps.value(switch.changed(config, on)) == SpinSetting::Fps.value(config),
        SpinSetting::Bitrate.value(switch.changed(config, on)) == SpinSetting::Bitrate.value(config),
        SpinSetting::ReplayBuffer.value(switch.changed(config, on)) == SpinSetting::ReplayBuffer.value(config),
        SpinSetting::ExtraLeadIn.value(switch.changed(config, on)) == SpinSetting::ExtraLeadIn.value(config),
        SpinSetting::MinRaidDuration.value(switch.changed(config, on)) == SpinSetting::MinRaidDuration.value(config),
        SpinSetting::RaidOverrun.value(switch.changed(config, on)) == SpinSetting::RaidOverrun.value(config),
        SpinSetting::MinKeystoneLevel.value(switch.changed(config, on)) == SpinSetting::MinKeystoneLevel.value(config),
        SpinSetting::DungeonOverrun.value(switch.changed(config, on)) == SpinSetting::DungeonOverrun.value(config),
        SpinSetting::StorageLimit.value(switch.changed(config, on)) == SpinSetting::StorageLimit.value(config),
        ComboSetting::Codec.index(switch.changed(config, on)) == ComboSetting::Codec.index(config),
        ComboSetting::ReplayStorage.index(switch.changed(config, on)) == ComboSetting::ReplayStorage.index(config),
        ComboSetting::MinRaidDifficulty.index(switch.changed(config, on)) == ComboSetting::MinRaidDifficulty.index(config),
        PathSetting::Retail.path(switch.changed(config, on)) == PathSetting::Retail.path(config),
        PathSetting::RetailPtr.path(switch.changed(config, on)) == PathSetting::RetailPtr.path(config),
        PathSetting::Classic.path(switch.changed(config, on)) == PathSetting::Classic.path(config),
        PathSetting::ClassicPtr.path(switch.changed(config, on)) == PathSetting::ClassicPtr.path(config),
        PathSetting::Era.path(switch.changed(config, on)) == PathSetting::Era.path(config),
        PathSetting::RecordingDir.path(switch.changed(config, on)) == PathSetting::RecordingDir.path(config),
        PathSetting::BufferDir.path(switch.changed(config, on)) == PathSetting::BufferDir.path(config),
        PathSetting::Retail.on(switch.changed(config, on)) == PathSetting::Retail.on(config),
        PathSetting::RetailPtr.on(switch.changed(config, on)) == PathSetting::RetailPtr.on(config),
        PathSetting::Classic.on(switch.changed(config, on)) == PathSetting::Classic.on(config),
        PathSetting::ClassicPtr.on(switch.changed(config, on)) == PathSetting::ClassicPtr.on(config),
        PathSetting::Era.on(switch.changed(config, on)) == PathSetting::Era.on(config),
{
}

/// Turning a switch sets no number, takes no other choice and moves no
/// directory.
pub proof fn switches_leave_other_rows_alone(
    switch: SwitchSetting,
    on: bool,
    number: SpinSetting,
    choice: ComboSetting,
    directory: PathSetting,
    config: Config,
)
    ensures
        number.value(switch.changed(config, on)) == number.value(config),
        choice.index(switch.changed(config, on)) == choice.index(config),
        directory.path(switch.changed(config, on)) == directory.path(config),
        directory.on(switch.changed(config, on)) == directory.on(config),
{
    lemma_switch_rows(switch, on, config);
    match number {
        SpinSetting::Fps => {},
        SpinSetting::Bitrate => {},
        SpinSetting::ReplayBuffer => {},
        SpinSetting::ExtraLeadIn => {},
        SpinSetting::MinRaidDuration => {},
        SpinSetting::RaidOverrun => {},
        SpinSetting::MinKeystoneLevel => {},
        SpinSetting::DungeonOverrun => {},
        SpinSetting::StorageLimit => {},
    }
    match choice {
        ComboSetting::Codec => {},
        ComboSetting::ReplayStorage => {},
        ComboSetting::MinRaidDifficulty => {},
    }
    match directory {
        PathSetting::Retail => {},
        PathSetting::RetailPtr => {},
        PathSetting::Classic => {},
        PathSetting::ClassicPtr => {},
        PathSetting::Era => {},
        PathSetting::RecordingDir => {},
        PathSetting::BufferDir => {},
    }
}

/// The numbers' bounds agree with what can be stored: a configuration stays
/// storable under every number within its row's bounds.
pub proof fn numbers_keep_configs_storable(number: SpinSetting, value: int, config: Config)
    requires
        config::storable_problems(config).len() == 0,
        number.row().min <= value <= number.row().max,
    ensures
        config::storable_problems(number.changed(config, value)).len() == 0,
{
    config::silence_means_storable(config);
    config::silence_means_storable(number.changed(config, value));
}

/// No switch and no choice keeps a configuration from being stored.
pub proof fn switches_and_choices_keep_configs_storable(
    switch: SwitchSetting,
    on: bool,
    choice: ComboSetting,
    index: u32,
    config: Config,
)
    requires
        config::storable_problems(config).len() == 0,
    ensures
        config::storable_problems(switch.changed(config, on)).len() == 0,
        config::storable_problems(choice.changed(config, index)).len() == 0,
{
    config::silence_means_storable(config);
    config::silence_means_storable(switch.changed(config, on));
    config::silence_means_storable(choice.changed(config, index));
}

/// A number that can be stored is within its row's bounds, but for three
/// that the stored form bounds less: the shortest raid, whose number may be
/// negative, the lowest key and the storage limit.
pub proof fn storable_numbers_fit_their_rows(number: SpinSetting, config: Config)
    requires
        config::storable_problems(config).len() == 0,
        !(number is MinRaidDuration),
        !(number is MinKeystoneLevel),
        !(number is StorageLimit),
    ensures
        number.fits(config),
{
    config::silence_means_storable(config);
}

/// Every default is within its row's bounds.
pub proof fn defaults_fit_their_rows(number: SpinSetting, config: Config)
    requires
        call_ensures(Config::default, (), config),
    ensures
        number.fits(config),
{
    storable_defaults(config);
}

proof fn storable_defaults(config: Config)
    requires
        call_ensures(Config::default, (), config),
    ensures
        config::storable_problems(config).len() == 0,
        config.activities == config::default_activities(),
        config.storage.limit == StorageLimit::Gib(50),
{
}

} // verus!
