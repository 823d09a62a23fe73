//! The user's configuration: its defaults, what makes it usable, and where it
//! is kept.
use vstd::prelude::*;

use crate::cloud::CloudCredentials;
use crate::domain::{
    copy_text, Category, Codec, DeathMarkerVisibility, MarkerVisibility, RaidDifficulty,
    ReplayStorage, StorageLimit,
};
use crate::paths;
use crate::paths::name_one_path;
use crate::text;
use crate::text::{
    file_name_of, is_absolute_path, is_blank, join_path, push_decimal, same_text, trimmed,
};

verus! {

pub const CONFIG_VERSION: u32 = 1;

pub const APP_ID: &'static str = "io.github.JohanWes.WarcraftRecorder";

pub const CONFIG_FILENAME: &'static str = "config.json";

#[derive(Clone, Copy, Debug, PartialEq, Eq, Structural)]
pub enum PathAuthorization {
    Unset,
    ImportedInactive,
    Authorized,
}

/// A directory together with the user's permission to use it. Two of them are
/// equal where they name one directory by its components.
#[derive(Debug, Eq)]
pub struct AuthorizedPath {
    pub path: String,
    pub authorization: PathAuthorization,
}

impl AuthorizedPath {
    /// No directory chosen.
    pub fn unset() -> (result: Self)
        ensures
            result.path@ == Seq::<char>::empty(),
            result.authorization == PathAuthorization::Unset,
    {
        AuthorizedPath { path: String::new(), authorization: PathAuthorization::Unset }
    }

    /// A directory the user picked.
    pub fn authorized(path: &str) -> (result: Self)
        ensures
            result.path@ == path@,
            result.authorization == PathAuthorization::Authorized,
    {
        AuthorizedPath { path: path.to_owned(), authorization: PathAuthorization::Authorized }
    }

    /// A path is usable once it is chosen and its use is allowed.
    pub open spec fn usable(self) -> bool {
        self.authorization == PathAuthorization::Authorized && self.path@.len() > 0
    }

    pub fn is_authorized(&self) -> (yes: bool)
        ensures
            yes == self.usable(),
    {
        self.authorization == PathAuthorization::Authorized && !self.path.as_str().is_empty()
    }

    /// Same directory, same permission.
    pub open spec fn same(self, other: AuthorizedPath) -> bool {
        paths::same_path(self.path@, other.path@) && self.authorization == other.authorization
    }

    pub fn same_as(&self, other: &AuthorizedPath) -> (same: bool)
        ensures
            same == self.same(*other),
    {
        self.authorization == other.authorization && name_one_path(&self.path, &other.path)
    }
}

impl PartialEq for AuthorizedPath {
    fn eq(&self, other: &Self) -> (same: bool) {
        self.same_as(other)
    }
}

impl vstd::std_specs::cmp::PartialEqSpecImpl for AuthorizedPath {
    open spec fn obeys_eq_spec() -> bool {
        true
    }

    open spec fn eq_spec(&self, other: &Self) -> bool {
        self.same(*other)
    }
}

impl Clone for AuthorizedPath {
    fn clone(&self) -> (copy: Self)
        ensures
            copy == *self,
    {
        AuthorizedPath { path: self.path.clone(), authorization: self.authorization }
    }
}

impl Default for AuthorizedPath {
    fn default() -> (result: Self)
        ensures
            result.path@ == Seq::<char>::empty(),
            result.authorization == PathAuthorization::Unset,
    {
        AuthorizedPath::unset()
    }
}

#[derive(Debug, PartialEq, Eq)]
pub struct FlavorConfig {
    pub enabled: bool,
    pub log_dir: AuthorizedPath,
}

impl FlavorConfig {
    pub open spec fn same(self, other: FlavorConfig) -> bool {
        self.enabled == other.enabled && self.log_dir.same(other.log_dir)
    }

    pub fn same_as(&self, other: &FlavorConfig) -> (same: bool)
        ensures
            same == self.same(*other),
    {
        self.enabled == other.enabled && self.log_dir.same_as(&other.log_dir)
    }
}

impl Clone for FlavorConfig {
    fn clone(&self) -> (copy: Self)
        ensures
            copy == *self,
    {
        FlavorConfig { enabled: self.enabled, log_dir: self.log_dir.clone() }
    }
}

impl Default for FlavorConfig {
    fn default() -> (result: Self)
        ensures
            !result.enabled,
            result.log_dir.path@ == Seq::<char>::empty(),
            result.log_dir.authorization == PathAuthorization::Unset,
    {
        FlavorConfig { enabled: false, log_dir: AuthorizedPath::unset() }
    }
}

#[derive(Debug, PartialEq, Eq)]
pub struct FlavorSettings {
    pub retail: FlavorConfig,
    pub retail_ptr: FlavorConfig,
    pub classic: FlavorConfig,
    pub classic_ptr: FlavorConfig,
    pub era: FlavorConfig,
}

impl FlavorSettings {
    pub open spec fn same(self, other: FlavorSettings) -> bool {
        &&& self.retail.same(other.retail)
        &&& self.retail_ptr.same(other.retail_ptr)
        &&& self.classic.same(other.classic)
        &&& self.classic_ptr.same(other.classic_ptr)
        &&& self.era.same(other.era)
    }

    pub fn same_as(&self, other: &FlavorSettings) -> (same: bool)
        ensures
            same == self.same(*other),
    {
        self.retail.same_as(&other.retail) && self.retail_ptr.same_as(&other.retail_ptr)
            && self.classic.same_as(&other.classic) && self.classic_ptr.same_as(&other.classic_ptr)
            && self.era.same_as(&other.era)
    }

    /// No flavour is enabled and no log folder chosen.
    pub open spec fn untouched(self) -> bool {
        &&& untouched_flavor(self.retail)
        &&& untouched_flavor(self.retail_ptr)
        &&& untouched_flavor(self.classic)
        &&& untouched_flavor(self.classic_ptr)
        &&& untouched_flavor(self.era)
    }
}

pub open spec fn untouched_flavor(flavor: FlavorConfig) -> bool {
    !flavor.enabled && untouched_path(flavor.log_dir)
}

pub open spec fn untouched_path(path: AuthorizedPath) -> bool {
    path.path@ == Seq::<char>::empty() && path.authorization == PathAuthorization::Unset
}

impl Clone for FlavorSettings {
    fn clone(&self) -> (copy: Self)
        ensures
            copy == *self,
    {
        FlavorSettings {
            retail: self.retail.clone(),
            retail_ptr: self.retail_ptr.clone(),
            classic: self.classic.clone(),
            classic_ptr: self.classic_ptr.clone(),
            era: self.era.clone(),
        }
    }
}

impl Default for FlavorSettings {
    fn default() -> (result: Self)
        ensures
            result.untouched(),
    {
        FlavorSettings {
            retail: FlavorConfig::default(),
            retail_ptr: FlavorConfig::default(),
            classic: FlavorConfig::default(),
            classic_ptr: FlavorConfig::default(),
            era: FlavorConfig::default(),
        }
    }
}

#[derive(Clone, Copy, Debug, PartialEq, Eq, Structural)]
pub struct ActivitySettings {
    pub record_raids: bool,
    pub record_dungeons: bool,
    pub record_two_v_two: bool,
    pub record_three_v_three: bool,
    pub record_five_v_five: bool,
    pub record_skirmish: bool,
    pub record_solo_shuffle: bool,
    pub record_battlegrounds: bool,
    pub record_challenge_modes: bool,
    pub min_keystone_level: u32,
    pub min_raid_difficulty: RaidDifficulty,
    pub min_raid_duration_seconds: i32,
    pub current_raid_only: bool,
    pub raid_overrun_seconds: u32,
    pub dungeon_overrun_seconds: u32,
}

/// The activities a clean install records: all of them.
pub open spec fn default_activities() -> ActivitySettings {
    ActivitySettings {
        record_raids: true,
        record_dungeons: true,
        record_two_v_two: true,
        record_three_v_three: true,
        record_five_v_five: true,
        record_skirmish: true,
        record_solo_shuffle: true,
        record_battlegrounds: true,
        record_challenge_modes: true,
        min_keystone_level: 2,
        min_raid_difficulty: RaidDifficulty::Lfr,
        min_raid_duration_seconds: 15,
        current_raid_only: false,
        raid_overrun_seconds: 15,
        dungeon_overrun_seconds: 5,
    }
}

impl Default for ActivitySettings {
    fn default() -> (result: Self)
        ensures
            result == default_activities(),
    {
        ActivitySettings {
            record_raids: true,
            record_dungeons: true,
            record_two_v_two: true,
            record_three_v_three: true,
            record_five_v_five: true,
            record_skirmish: true,
            record_solo_shuffle: true,
            record_battlegrounds: true,
            record_challenge_modes: true,
            min_keystone_level: 2,
            min_raid_difficulty: RaidDifficulty::Lfr,
            min_raid_duration_seconds: 15,
            current_raid_only: false,
            raid_overrun_seconds: 15,
            dungeon_overrun_seconds: 5,
        }
    }
}

impl ActivitySettings {
    /// At least one kind of activity is recorded by itself.
    pub open spec fn records_something(self) -> bool {
        ||| self.record_raids
        ||| self.record_dungeons
        ||| self.record_two_v_two
        ||| self.record_three_v_three
        ||| self.record_five_v_five
        ||| self.record_skirmish
        ||| self.record_solo_shuffle
        ||| self.record_battlegrounds
        ||| self.record_challenge_modes
    }

    pub fn any_enabled(&self) -> (any: bool)
        ensures
            any == self.records_something(),
    {
        self.record_raids || self.record_dungeons || self.record_two_v_two
            || self.record_three_v_three || self.record_five_v_five || self.record_skirmish
            || self.record_solo_shuffle || self.record_battlegrounds || self.record_challenge_modes
    }
}

#[derive(Debug, PartialEq, Eq)]
pub struct StorageSettings {
    pub recording_dir: AuthorizedPath,
    pub separate_buffer_dir: bool,
    pub buffer_dir: AuthorizedPath,
    pub limit: StorageLimit,
}

impl Clone for StorageSettings {
    fn clone(&self) -> (copy: Self)
        ensures
            copy == *self,
    {
        StorageSettings {
            recording_dir: self.recording_dir.clone(),
            separate_buffer_dir: self.separate_buffer_dir,
            buffer_dir: self.buffer_dir.clone(),
            limit: self.limit,
        }
    }
}

impl Default for StorageSettings {
    fn default() -> (result: Self)
        ensures
            untouched_path(result.recording_dir),
            !result.separate_buffer_dir,
            untouched_path(result.buffer_dir),
            result.limit == StorageLimit::Gib(50),
    {
        StorageSettings {
            recording_dir: AuthorizedPath::unset(),
            separate_buffer_dir: false,
            buffer_dir: AuthorizedPath::unset(),
            limit: StorageLimit::Gib(50),
        }
    }
}

#[derive(Debug, PartialEq, Eq)]
pub struct CaptureSettings {
    pub fps: u32,
    pub codec: Codec,
    pub bitrate_kbps: u32,
    pub replay_buffer_seconds: u32,
    pub extra_lead_in_seconds: u32,
    pub replay_storage: ReplayStorage,
    pub capture_cursor: bool,
    pub audio_output: String,
    pub audio_input: Option<String>,
    pub capture_target_token: Option<String>,
}

/// Capture settings with their texts as characters.
pub struct CaptureView {
    pub fps: u32,
    pub codec: Codec,
    pub bitrate_kbps: u32,
    pub replay_buffer_seconds: u32,
    pub extra_lead_in_seconds: u32,
    pub replay_storage: ReplayStorage,
    pub capture_cursor: bool,
    pub audio_output: Seq<char>,
    pub audio_input: Option<Seq<char>>,
    pub capture_target_token: Option<Seq<char>>,
}

impl View for CaptureSettings {
    type V = CaptureView;

    open spec fn view(&self) -> CaptureView {
        CaptureView {
            fps: self.fps,
            codec: self.codec,
            bitrate_kbps: self.bitrate_kbps,
            replay_buffer_seconds: self.replay_buffer_seconds,
            extra_lead_in_seconds: self.extra_lead_in_seconds,
            replay_storage: self.replay_storage,
            capture_cursor: self.capture_cursor,
            audio_output: self.audio_output@,
            audio_input: crate::domain::text_view(self.audio_input),
            capture_target_token: crate::domain::text_view(self.capture_target_token),
        }
    }
}

/// Whether two optional texts agree.
pub fn same_optional_text(a: &Option<String>, b: &Option<String>) -> (same: bool)
    ensures
        same == (crate::domain::text_view(*a) == crate::domain::text_view(*b)),
{
    match (a, b) {
        (Some(x), Some(y)) => same_text(x, y),
        (None, None) => true,
        _ => false,
    }
}

impl CaptureSettings {
    pub fn same_as(&self, other: &CaptureSettings) -> (same: bool)
        ensures
            same == (self@ == other@),
    {
        self.fps == other.fps && self.codec == other.codec && self.bitrate_kbps
            == other.bitrate_kbps && self.replay_buffer_seconds == other.replay_buffer_seconds
            && self.extra_lead_in_seconds == other.extra_lead_in_seconds && self.replay_storage
            == other.replay_storage && self.capture_cursor == other.capture_cursor && same_text(
            &self.audio_output,
            &other.audio_output,
        ) && same_optional_text(&self.audio_input, &other.audio_input) && same_optional_text(
            &self.capture_target_token,
            &other.capture_target_token,
        )
    }
}

impl Clone for CaptureSettings {
    fn clone(&self) -> (copy: Self)
        ensures
            copy == *self,
    {
        CaptureSettings {
            fps: self.fps,
            codec: self.codec,
            bitrate_kbps: self.bitrate_kbps,
            replay_buffer_seconds: self.replay_buffer_seconds,
            extra_lead_in_seconds: self.extra_lead_in_seconds,
            replay_storage: self.replay_storage,
            capture_cursor: self.capture_cursor,
            audio_output: self.audio_output.clone(),
            audio_input: copy_text(&self.audio_input),
            capture_target_token: copy_text(&self.capture_target_token),
        }
    }
}

impl Default for CaptureSettings {
    fn default() -> (result: Self)
        ensures
            result@ == (CaptureView {
                fps: 60,
                codec: Codec::H264,
                bitrate_kbps: 20_000,
                replay_buffer_seconds: 180,
                extra_lead_in_seconds: 0,
                replay_storage: ReplayStorage::Ram,
                capture_cursor: false,
                audio_output: "default_output"@,
                audio_input: None,
                capture_target_token: None,
            }),
    {
        CaptureSettings {
            fps: 60,
            codec: Codec::H264,
            bitrate_kbps: 20_000,
            replay_buffer_seconds: 180,
            extra_lead_in_seconds: 0,
            replay_storage: ReplayStorage::Ram,
            capture_cursor: false,
            audio_output: "default_output".to_owned(),
            audio_input: None,
            capture_target_token: None,
        }
    }
}

#[derive(Clone, Copy, Debug, PartialEq, Eq, Structural)]
pub struct ManualSettings {
    pub enabled: bool,
    pub sound: bool,
}

impl Default for ManualSettings {
    fn default() -> (result: Self)
        ensures
            result == (ManualSettings { enabled: false, sound: true }),
    {
        ManualSettings { enabled: false, sound: true }
    }
}

/// The width the user gave a column.
#[derive(Debug, PartialEq, Eq)]
pub struct ColumnWidth {
    pub title: String,
    pub width: i32,
}

impl View for ColumnWidth {
    type V = (Seq<char>, i32);

    open spec fn view(&self) -> (Seq<char>, i32) {
        (self.title@, self.width)
    }
}

impl Clone for ColumnWidth {
    fn clone(&self) -> (copy: Self)
        ensures
            copy == *self,
    {
        ColumnWidth { title: self.title.clone(), width: self.width }
    }
}

/// Sizes the user dragged: the player/library divider and the table columns.
/// Empty on a clean install, which is the only state in which the player pane
/// may autoscale itself to the video's aspect ratio.
///
/// The widths come in ascending order of their titles, each title once.
/// Titles are shared across category families, so a width dragged in Mythic+
/// also applies to the raid column of that name.
#[derive(Debug, PartialEq, Eq)]
pub struct LayoutSettings {
    pub player_split: Option<i32>,
    pub column_widths: Vec<ColumnWidth>,
}

impl View for LayoutSettings {
    type V = (Option<i32>, Seq<(Seq<char>, i32)>);

    open spec fn view(&self) -> (Option<i32>, Seq<(Seq<char>, i32)>) {
        (self.player_split, self.column_widths@.map_values(|width: ColumnWidth| width@))
    }
}

impl LayoutSettings {
    pub fn same_as(&self, other: &LayoutSettings) -> (same: bool)
        ensures
            same == (self@ == other@),
    {
        let same_split = match (self.player_split, other.player_split) {
            (Some(a), Some(b)) => a == b,
            (None, None) => true,
            _ => false,
        };
        if !same_split || self.column_widths.len() != other.column_widths.len() {
            assert(self@.1.len() == self.column_widths@.len());
            assert(other@.1.len() == other.column_widths@.len());
            return false;
        }
        let mut i: usize = 0;
        while i < self.column_widths.len()
            invariant
                i <= self.column_widths@.len() == other.column_widths@.len(),
                self.player_split == other.player_split,
                forall|j: int| 0 <= j < i ==> self@.1[j] == other@.1[j],
            decreases self.column_widths@.len() - i,
        {
            let a = &self.column_widths[i];
            let b = &other.column_widths[i];
            if a.width != b.width || !same_text(&a.title, &b.title) {
                assert(self@.1[i as int] != other@.1[i as int]);
                return false;
            }
            i = i + 1;
        }
        assert(self@.1 =~= other@.1);
        true
    }
}

impl Clone for LayoutSettings {
    fn clone(&self) -> (copy: Self)
        ensures
            copy.player_split == self.player_split,
            copy.column_widths@ == self.column_widths@,
    {
        let mut column_widths: Vec<ColumnWidth> = Vec::new();
        let mut i: usize = 0;
        while i < self.column_widths.len()
            invariant
                i <= self.column_widths@.len(),
                column_widths@ == self.column_widths@.take(i as int),
            decreases self.column_widths@.len() - i,
        {
            column_widths.push(self.column_widths[i].clone());
            i = i + 1;
            assert(self.column_widths@.take(i as int) =~= self.column_widths@.take(i - 1).push(
                self.column_widths@[i - 1],
            ));
        }
        assert(self.column_widths@.take(i as int) =~= self.column_widths@);
        LayoutSettings { player_split: self.player_split, column_widths }
    }
}

impl Default for LayoutSettings {
    fn default() -> (result: Self)
        ensures
            result.player_split is None,
            result.column_widths@.len() == 0,
    {
        LayoutSettings { player_split: None, column_widths: Vec::new() }
    }
}

#[derive(Debug, PartialEq, Eq)]
pub struct InterfaceSettings {
    pub hide_empty_categories: bool,
    pub death_markers: DeathMarkerVisibility,
    pub encounter_markers: MarkerVisibility,
    pub round_markers: MarkerVisibility,
    pub selected_category: Category,
    pub minimize_to_tray: bool,
    pub close_to_tray: bool,
    pub start_minimized: bool,
    pub layout: LayoutSettings,
}

impl InterfaceSettings {
    /// The same preferences, with the same layout.
    pub open spec fn same(self, other: InterfaceSettings) -> bool {
        &&& self.layout@ == other.layout@
        &&& self == (InterfaceSettings { layout: self.layout, ..other })
    }
}

impl Clone for InterfaceSettings {
    fn clone(&self) -> (copy: Self)
        ensures
            copy.same(*self),
    {
        InterfaceSettings {
            hide_empty_categories: self.hide_empty_categories,
            death_markers: self.death_markers,
            encounter_markers: self.encounter_markers,
            round_markers: self.round_markers,
            selected_category: self.selected_category,
            minimize_to_tray: self.minimize_to_tray,
            close_to_tray: self.close_to_tray,
            start_minimized: self.start_minimized,
            layout: self.layout.clone(),
        }
    }
}

impl Default for InterfaceSettings {
    fn default() -> (result: Self)
        ensures
            !result.hide_empty_categories,
            result.death_markers == DeathMarkerVisibility::Own,
            result.encounter_markers == MarkerVisibility::Visible,
            result.round_markers == MarkerVisibility::Visible,
            result.selected_category == Category::ThreeVThree,
            result.minimize_to_tray,
            result.close_to_tray,
            !result.start_minimized,
            result.layout.player_split is None,
            result.layout.column_widths@.len() == 0,
    {
        InterfaceSettings {
            hide_empty_categories: false,
            death_markers: DeathMarkerVisibility::Own,
            encounter_markers: MarkerVisibility::Visible,
            round_markers: MarkerVisibility::Visible,
            selected_category: Category::ThreeVThree,
            minimize_to_tray: true,
            close_to_tray: true,
            start_minimized: false,
            layout: LayoutSettings::default(),
        }
    }
}

/// Warcraft Recorder Pro cloud account. The password is stored like the rest
/// of the config, in the owner-only config file, and is never logged.
#[derive(PartialEq, Eq)]
pub struct CloudSettings {
    pub enabled: bool,
    pub account: String,
    pub password: String,
    pub guild: String,
    /// Upload every new automatic recording once it is saved.
    pub auto_upload: bool,
}

impl Clone for CloudSettings {
    fn clone(&self) -> (copy: Self)
        ensures
            copy == *self,
    {
        CloudSettings {
            enabled: self.enabled,
            account: self.account.clone(),
            password: self.password.clone(),
            guild: self.guild.clone(),
            auto_upload: self.auto_upload,
        }
    }
}

impl Default for CloudSettings {
    fn default() -> (result: Self)
        ensures
            !result.enabled,
            result.account@ == Seq::<char>::empty(),
            result.password@ == Seq::<char>::empty(),
            result.guild@ == Seq::<char>::empty(),
            !result.auto_upload,
    {
        CloudSettings {
            enabled: false,
            account: String::new(),
            password: String::new(),
            guild: String::new(),
            auto_upload: false,
        }
    }
}

impl CloudSettings {
    /// Cloud upload is on and has an account, a password and a guild.
    pub open spec fn configured(self) -> bool {
        &&& self.enabled
        &&& text::trim(self.account@).len() > 0
        &&& self.password@.len() > 0
        &&& text::trim(self.guild@).len() > 0
    }

    /// What the account's credentials are.
    pub open spec fn signs_in_with(self, credentials: Option<CloudCredentials>) -> bool {
        &&& credentials is Some <==> self.configured()
        &&& credentials matches Some(c) ==> {
            &&& c.user@ == text::trim(self.account@)
            &&& c.password@ == self.password@
            &&& c.guild@ == text::trim(self.guild@)
        }
    }

    /// The credentials, when cloud upload is on and fully configured. Account
    /// and guild are trimmed; the password is used as it is.
    pub fn credentials(&self) -> (credentials: Option<CloudCredentials>)
        ensures
            self.signs_in_with(credentials),
    {
        let complete = self.enabled && !is_blank(&self.account) && !self.password.as_str().is_empty()
            && !is_blank(&self.guild);
        if complete {
            Some(
                CloudCredentials {
                    user: trimmed(&self.account),
                    password: self.password.clone(),
                    guild: trimmed(&self.guild),
                },
            )
        } else {
            None
        }
    }

    /// The settings in the form a log may hold: the password never shows.
    pub fn redacted(&self) -> (shown: CloudSettings)
        ensures
            shown.enabled == self.enabled,
            shown.account@ == self.account@,
            shown.password@ == "<redacted>"@,
            shown.guild@ == self.guild@,
            shown.auto_upload == self.auto_upload,
    {
        CloudSettings {
            enabled: self.enabled,
            account: self.account.clone(),
            password: "<redacted>".to_owned(),
            guild: self.guild.clone(),
            auto_upload: self.auto_upload,
        }
    }
}

#[derive(PartialEq, Eq)]
pub struct Config {
    pub version: u32,
    pub flavors: FlavorSettings,
    pub activities: ActivitySettings,
    pub storage: StorageSettings,
    pub capture: CaptureSettings,
    pub manual: ManualSettings,
    pub interface: InterfaceSettings,
    pub validate_log_paths: bool,
    /// The version whose release notes were last acknowledged. Empty until
    /// the user closes the "What's new" dialog, so an install that predates
    /// the dialog still gets one for the version it just updated to.
    pub last_seen_version: String,
    pub cloud: CloudSettings,
}

impl Config {
    /// The same configuration throughout.
    pub open spec fn same(self, other: Config) -> bool {
        &&& self.interface.same(other.interface)
        &&& self == (Config { interface: self.interface, ..other })
    }
}

impl InterfaceSettings {
    pub fn same_as(&self, other: &InterfaceSettings) -> (same: bool)
        ensures
            same == self.same(*other),
    {
        self.hide_empty_categories == other.hide_empty_categories && self.death_markers
            == other.death_markers && self.encounter_markers == other.encounter_markers
            && self.round_markers == other.round_markers && self.selected_category
            == other.selected_category && self.minimize_to_tray == other.minimize_to_tray
            && self.close_to_tray == other.close_to_tray && self.start_minimized
            == other.start_minimized && self.layout.same_as(&other.layout)
    }
}

impl StorageSettings {
    pub open spec fn same(self, other: StorageSettings) -> bool {
        &&& self.recording_dir.same(other.recording_dir)
        &&& self.separate_buffer_dir == other.separate_buffer_dir
        &&& self.buffer_dir.same(other.buffer_dir)
        &&& self.limit == other.limit
    }

    pub fn same_as(&self, other: &StorageSettings) -> (same: bool)
        ensures
            same == self.same(*other),
    {
        self.recording_dir.same_as(&other.recording_dir) && self.separate_buffer_dir
            == other.separate_buffer_dir && self.buffer_dir.same_as(&other.buffer_dir)
            && self.limit == other.limit
    }
}

impl CloudSettings {
    pub open spec fn same(self, other: CloudSettings) -> bool {
        &&& self.enabled == other.enabled
        &&& self.account@ == other.account@
        &&& self.password@ == other.password@
        &&& self.guild@ == other.guild@
        &&& self.auto_upload == other.auto_upload
    }

    pub fn same_as(&self, other: &CloudSettings) -> (same: bool)
        ensures
            same == self.same(*other),
    {
        self.enabled == other.enabled && same_text(&self.account, &other.account) && same_text(
            &self.password,
            &other.password,
        ) && same_text(&self.guild, &other.guild) && self.auto_upload == other.auto_upload
    }
}

impl Config {
    /// Every setting of the two says the same.
    pub open spec fn agrees(self, other: Config) -> bool {
        &&& self.version == other.version
        &&& self.flavors.same(other.flavors)
        &&& self.activities == other.activities
        &&& self.storage.same(other.storage)
        &&& self.capture@ == other.capture@
        &&& self.manual == other.manual
        &&& self.interface.same(other.interface)
        &&& self.validate_log_paths == other.validate_log_paths
        &&& self.last_seen_version@ == other.last_seen_version@
        &&& self.cloud.same(other.cloud)
    }

    pub fn same_as(&self, other: &Config) -> (same: bool)
        ensures
            same == self.agrees(*other),
    {
        self.version == other.version && self.flavors.same_as(&other.flavors) && self.activities
            == other.activities && self.storage.same_as(&other.storage) && self.capture.same_as(
            &other.capture,
        ) && self.manual == other.manual && self.interface.same_as(&other.interface)
            && self.validate_log_paths == other.validate_log_paths && same_text(
            &self.last_seen_version,
            &other.last_seen_version,
        ) && self.cloud.same_as(&other.cloud)
    }
}

impl Clone for Config {
    fn clone(&self) -> (copy: Self)
        ensures
            copy.same(*self),
    {
        Config {
            version: self.version,
            flavors: self.flavors.clone(),
            activities: self.activities,
            storage: self.storage.clone(),
            capture: self.capture.clone(),
            manual: self.manual,
            interface: self.interface.clone(),
            validate_log_paths: self.validate_log_paths,
            last_seen_version: self.last_seen_version.clone(),
            cloud: self.cloud.clone(),
        }
    }
}

impl Default for Config {
    fn default() -> (result: Self)
        ensures
            result.version == CONFIG_VERSION,
            result.flavors.untouched(),
            result.activities == default_activities(),
            untouched_path(result.storage.recording_dir),
            !result.storage.separate_buffer_dir,
            untouched_path(result.storage.buffer_dir),
            result.storage.limit == StorageLimit::Gib(50),
            call_ensures(CaptureSettings::default, (), result.capture),
            result.manual == (ManualSettings { enabled: false, sound: true }),
            call_ensures(InterfaceSettings::default, (), result.interface),
            result.validate_log_paths,
            result.last_seen_version@ == crate::VERSION@,
            call_ensures(CloudSettings::default, (), result.cloud),
            storable_problems(result).len() == 0,
    {
        proof {
            reveal_strlit("default_output");
            assert(text::trim("default_output"@) == "default_output"@);
        }
        Config {
            version: CONFIG_VERSION,
            flavors: FlavorSettings::default(),
            activities: ActivitySettings::default(),
            storage: StorageSettings::default(),
            capture: CaptureSettings::default(),
            manual: ManualSettings::default(),
            interface: InterfaceSettings::default(),
            validate_log_paths: true,
            // A clean install has no earlier version to report on.
            last_seen_version: crate::VERSION.to_owned(),
            cloud: CloudSettings::default(),
        }
    }
}

/// What is wrong with one field of the configuration.
#[derive(Debug, PartialEq, Eq)]
pub struct ValidationProblem {
    pub field: &'static str,
    pub message: String,
}

impl View for ValidationProblem {
    type V = (Seq<char>, Seq<char>);

    open spec fn view(&self) -> (Seq<char>, Seq<char>) {
        (self.field@, self.message@)
    }
}

impl Clone for ValidationProblem {
    fn clone(&self) -> (copy: Self)
        ensures
            copy == *self,
    {
        ValidationProblem { field: self.field, message: self.message.clone() }
    }
}

/// Fields and messages of a list of problems.
pub open spec fn problem_texts(problems: Seq<ValidationProblem>) -> Seq<(Seq<char>, Seq<char>)> {
    problems.map_values(|problem: ValidationProblem| problem@)
}

/// One problem where `broken` holds, and none otherwise.
pub open spec fn complaint(broken: bool, field: Seq<char>, message: Seq<char>) -> Seq<
    (Seq<char>, Seq<char>),
> {
    if broken {
        seq![(field, message)]
    } else {
        seq![]
    }
}

fn report(
    problems: &mut Vec<ValidationProblem>,
    broken: bool,
    field: &'static str,
    message: &'static str,
)
    ensures
        problem_texts(final(problems)@) == problem_texts(old(problems)@) + complaint(
            broken,
            field@,
            message@,
        ),
{
    if broken {
        problems.push(ValidationProblem { field, message: message.to_owned() });
    }
    assert(problem_texts(problems@) =~= problem_texts(old(problems)@) + complaint(
        broken,
        field@,
        message@,
    ));
}

/// A saved path and its authorization go together: no path is unset, and a
/// path in use is absolute.
pub open spec fn path_state_problems(field: Seq<char>, path: AuthorizedPath) -> Seq<
    (Seq<char>, Seq<char>),
> {
    complaint(
        (path.path@.len() == 0) != (path.authorization == PathAuthorization::Unset),
        field,
        "The saved path and its authorization state are inconsistent."@,
    ) + complaint(
        path.authorization == PathAuthorization::Authorized && !text::is_absolute(path.path@),
        field,
        "Choose an absolute directory path."@,
    )
}

fn validate_path_state(
    problems: &mut Vec<ValidationProblem>,
    field: &'static str,
    path: &AuthorizedPath,
)
    ensures
        problem_texts(final(problems)@) == problem_texts(old(problems)@) + path_state_problems(
            field@,
            *path,
        ),
{
    let empty = path.path.as_str().is_empty();
    let unset = path.authorization == PathAuthorization::Unset;
    report(
        problems,
        empty != unset,
        field,
        "The saved path and its authorization state are inconsistent.",
    );
    report(
        problems,
        path.authorization == PathAuthorization::Authorized && !is_absolute_path(&path.path),
        field,
        "Choose an absolute directory path.",
    );
}

/// What keeps the version and the saved paths from being stored.
pub open spec fn path_problems(config: Config) -> Seq<(Seq<char>, Seq<char>)> {
    complaint(
        config.version != CONFIG_VERSION,
        "version"@,
        "Unsupported config version "@ + text::decimal(config.version as nat) + "."@,
    )
        + path_state_problems("storage.recording_dir"@, config.storage.recording_dir)
        + path_state_problems("storage.buffer_dir"@, config.storage.buffer_dir)
        + path_state_problems("flavors.retail"@, config.flavors.retail.log_dir)
        + path_state_problems("flavors.retail_ptr"@, config.flavors.retail_ptr.log_dir)
        + path_state_problems("flavors.classic"@, config.flavors.classic.log_dir)
        + path_state_problems("flavors.classic_ptr"@, config.flavors.classic_ptr.log_dir)
        + path_state_problems("flavors.era"@, config.flavors.era.log_dir)
}

/// What keeps the capture settings from being stored.
pub open spec fn capture_problems(capture: CaptureSettings) -> Seq<(Seq<char>, Seq<char>)> {
    complaint(
        !(15 <= capture.fps <= 60),
        "capture.fps"@,
        "FPS must be between 15 and 60."@,
    )
        + complaint(
        !(1_000 <= capture.bitrate_kbps <= 200_000),
        "capture.bitrate_kbps"@,
        "Bitrate must be between 1000 and 200000 Kbps."@,
    )
        + complaint(
        !(30 <= capture.replay_buffer_seconds <= 600),
        "capture.replay_buffer_seconds"@,
        "Replay buffer must be between 30 and 600 seconds."@,
    )
        + complaint(
        capture.extra_lead_in_seconds > 30,
        "capture.extra_lead_in_seconds"@,
        "Extra lead-in must be between 0 and 30 seconds."@,
    )
        + complaint(
        text::trim(capture.audio_output@).len() == 0,
        "capture.audio_output"@,
        "Choose an output-audio device."@,
    )
        + complaint(
        capture.audio_input matches Some(input) && text::trim(input@).len() == 0,
        "capture.audio_input"@,
        "Disable input audio or choose an input-audio device."@,
    )
        + complaint(
        capture.capture_target_token matches Some(token) && token@.len() == 0,
        "capture.capture_target_token"@,
        "The capture-target token cannot be empty."@,
    )
}

/// What keeps the activity settings from being stored.
pub open spec fn activity_problems(activities: ActivitySettings) -> Seq<(Seq<char>, Seq<char>)> {
    complaint(
        activities.min_raid_duration_seconds > 10_000,
        "activities.min_raid_duration_seconds"@,
        "Minimum raid duration cannot exceed 10000 seconds."@,
    )
        + complaint(
        activities.raid_overrun_seconds > 60,
        "activities.raid_overrun_seconds"@,
        "Raid overrun must be between 0 and 60 seconds."@,
    )
        + complaint(
        activities.dungeon_overrun_seconds > 60,
        "activities.dungeon_overrun_seconds"@,
        "Dungeon overrun must be between 0 and 60 seconds."@,
    )
}

/// What keeps a configuration from being stored, in field order: each rule
/// that the configuration breaks gives one problem.
pub open spec fn storable_problems(config: Config) -> Seq<(Seq<char>, Seq<char>)> {
    path_problems(config) + capture_problems(config.capture) + activity_problems(config.activities)
}

/// A directory the recorder is about to use has to be chosen and authorized.
pub open spec fn active_path_problems(
    field: Seq<char>,
    missing: Seq<char>,
    unauthorized: Seq<char>,
    path: AuthorizedPath,
) -> Seq<(Seq<char>, Seq<char>)> {
    if path.path@.len() == 0 {
        seq![(field, missing)]
    } else {
        complaint(!path.usable(), field, unauthorized)
    }
}

fn validate_active_path(
    problems: &mut Vec<ValidationProblem>,
    field: &'static str,
    missing: &'static str,
    unauthorized: &'static str,
    path: &AuthorizedPath,
)
    ensures
        problem_texts(final(problems)@) == problem_texts(old(problems)@) + active_path_problems(
            field@,
            missing@,
            unauthorized@,
            *path,
        ),
{
    if path.path.as_str().is_empty() {
        report(problems, true, field, missing);
    } else {
        report(problems, !path.is_authorized(), field, unauthorized);
    }
}

/// An enabled flavour has an authorized log folder, named `Logs` where that is
/// asked for.
pub open spec fn flavor_problems(field: Seq<char>, flavor: FlavorConfig, named_logs: bool) -> Seq<
    (Seq<char>, Seq<char>),
> {
    if !flavor.enabled {
        seq![]
    } else if flavor.log_dir.path@.len() == 0 {
        seq![(field, "Choose the enabled flavor's Logs directory."@)]
    } else if !flavor.log_dir.usable() {
        seq![
            (field, "Choose the enabled flavor's Logs directory again to authorize access."@),
        ]
    } else {
        complaint(
            named_logs && text::file_name(flavor.log_dir.path@) != Some("Logs"@),
            field,
            "Choose this flavor's World of Warcraft Logs directory."@,
        )
    }
}

fn validate_flavor(
    problems: &mut Vec<ValidationProblem>,
    field: &'static str,
    flavor: &FlavorConfig,
    validate_log_paths: bool,
)
    ensures
        problem_texts(final(problems)@) == problem_texts(old(problems)@) + flavor_problems(
            field@,
            *flavor,
            validate_log_paths,
        ),
{
    if !flavor.enabled {
        return;
    }
    if flavor.log_dir.path.as_str().is_empty() {
        report(problems, true, field, "Choose the enabled flavor's Logs directory.");
    } else if !flavor.log_dir.is_authorized() {
        report(
            problems,
            true,
            field,
            "Choose the enabled flavor's Logs directory again to authorize access.",
        );
    } else {
        let named = match file_name_of(&flavor.log_dir.path) {
            Some(name) => same_text(&name, "Logs"),
            None => false,
        };
        report(
            problems,
            validate_log_paths && !named,
            field,
            "Choose this flavor's World of Warcraft Logs directory.",
        );
    }
}

/// What keeps a configuration from being used: everything that keeps it from
/// being stored, then what is missing for recording.
pub open spec fn usable_problems(config: Config) -> Seq<(Seq<char>, Seq<char>)> {
    storable_problems(config) + active_path_problems(
        "storage.recording_dir"@,
        "Choose a recording directory."@,
        "Choose the recording directory again to authorize access."@,
        config.storage.recording_dir,
    ) + (if config.storage.separate_buffer_dir {
        active_path_problems(
            "storage.buffer_dir"@,
            "Choose a replay-buffer directory."@,
            "Choose the replay-buffer directory again to authorize access."@,
            config.storage.buffer_dir,
        )
    } else {
        seq![]
    }) + complaint(
        !config.some_flavor_enabled(),
        "flavors"@,
        "Enable at least one World of Warcraft flavor."@,
    ) + flavor_problems("flavors.retail"@, config.flavors.retail, config.validate_log_paths)
        + flavor_problems(
        "flavors.retail_ptr"@,
        config.flavors.retail_ptr,
        config.validate_log_paths,
    ) + flavor_problems("flavors.classic"@, config.flavors.classic, config.validate_log_paths)
        + flavor_problems(
        "flavors.classic_ptr"@,
        config.flavors.classic_ptr,
        config.validate_log_paths,
    ) + flavor_problems("flavors.era"@, config.flavors.era, config.validate_log_paths) + complaint(
        !config.activities.records_something(),
        "activities"@,
        "Enable at least one automatic activity type."@,
    )
}

impl Config {
    pub open spec fn some_flavor_enabled(self) -> bool {
        ||| self.flavors.retail.enabled
        ||| self.flavors.retail_ptr.enabled
        ||| self.flavors.classic.enabled
        ||| self.flavors.classic_ptr.enabled
        ||| self.flavors.era.enabled
    }

    pub fn any_flavor_enabled(&self) -> (any: bool)
        ensures
            any == self.some_flavor_enabled(),
    {
        self.flavors.retail.enabled || self.flavors.retail_ptr.enabled
            || self.flavors.classic.enabled || self.flavors.classic_ptr.enabled
            || self.flavors.era.enabled
    }

    /// Everything that keeps the configuration from being used, in stable
    /// field order.
    pub fn validate(&self) -> (problems: Vec<ValidationProblem>)
        ensures
            problem_texts(problems@) == usable_problems(*self),
    {
        let mut problems = self.persistence_problems();
        validate_active_path(
            &mut problems,
            "storage.recording_dir",
            "Choose a recording directory.",
            "Choose the recording directory again to authorize access.",
            &self.storage.recording_dir,
        );
        if self.storage.separate_buffer_dir {
            validate_active_path(
                &mut problems,
                "storage.buffer_dir",
                "Choose a replay-buffer directory.",
                "Choose the replay-buffer directory again to authorize access.",
                &self.storage.buffer_dir,
            );
        } else {
            assert(problem_texts(problems@) =~= problem_texts(problems@) + seq![]);
        }
        report(
            &mut problems,
            !self.any_flavor_enabled(),
            "flavors",
            "Enable at least one World of Warcraft flavor.",
        );
        let named = self.validate_log_paths;
        validate_flavor(&mut problems, "flavors.retail", &self.flavors.retail, named);
        validate_flavor(&mut problems, "flavors.retail_ptr", &self.flavors.retail_ptr, named);
        validate_flavor(&mut problems, "flavors.classic", &self.flavors.classic, named);
        validate_flavor(&mut problems, "flavors.classic_ptr", &self.flavors.classic_ptr, named);
        validate_flavor(&mut problems, "flavors.era", &self.flavors.era, named);
        report(
            &mut problems,
            !self.activities.any_enabled(),
            "activities",
            "Enable at least one automatic activity type.",
        );
        problems
    }

    /// Everything that keeps the configuration from being stored.
    pub fn persistence_problems(&self) -> (problems: Vec<ValidationProblem>)
        ensures
            problem_texts(problems@) == storable_problems(*self),
    {
        let mut problems: Vec<ValidationProblem> = Vec::new();
        if self.version != CONFIG_VERSION {
            let mut message = "Unsupported config version ".to_owned();
            push_decimal(&mut message, self.version as u64);
            message.append(".");
            problems.push(ValidationProblem { field: "version", message });
        }
        assert(problem_texts(problems@) =~= complaint(
            self.version != CONFIG_VERSION,
            "version"@,
            "Unsupported config version "@ + text::decimal(self.version as nat) + "."@,
        ));
        validate_path_state(&mut problems, "storage.recording_dir", &self.storage.recording_dir);
        validate_path_state(&mut problems, "storage.buffer_dir", &self.storage.buffer_dir);
        validate_path_state(&mut problems, "flavors.retail", &self.flavors.retail.log_dir);
        validate_path_state(&mut problems, "flavors.retail_ptr", &self.flavors.retail_ptr.log_dir);
        validate_path_state(&mut problems, "flavors.classic", &self.flavors.classic.log_dir);
        validate_path_state(
            &mut problems,
            "flavors.classic_ptr",
            &self.flavors.classic_ptr.log_dir,
        );
        validate_path_state(&mut problems, "flavors.era", &self.flavors.era.log_dir);
        push_all(&mut problems, self.capture.stored_problems());
        push_all(&mut problems, self.activities.stored_problems());
        problems
    }
}

fn push_all(problems: &mut Vec<ValidationProblem>, more: Vec<ValidationProblem>)
    ensures
        problem_texts(final(problems)@) == problem_texts(old(problems)@) + problem_texts(more@),
{
    let mut more = more;
    let ghost added = more@;
    problems.append(&mut more);
    assert(problem_texts(problems@) =~= problem_texts(old(problems)@) + problem_texts(added));
}

impl CaptureSettings {
    /// What keeps the settings from being stored.
    fn stored_problems(&self) -> (problems: Vec<ValidationProblem>)
        ensures
            problem_texts(problems@) == capture_problems(*self),
    {
        let mut problems: Vec<ValidationProblem> = Vec::new();
        assert(problem_texts(problems@) =~= seq![]);
        let fps: u32 = self.fps;
        report(
            &mut problems,
            fps < 15 || fps > 60,
            "capture.fps",
            "FPS must be between 15 and 60.",
        );
        assert(forall|list: Seq<(Seq<char>, Seq<char>)>| #[trigger] (seq![] + list) =~= list);
        let bitrate: u32 = self.bitrate_kbps;
        report(
            &mut problems,
            bitrate < 1_000 || bitrate > 200_000,
            "capture.bitrate_kbps",
            "Bitrate must be between 1000 and 200000 Kbps.",
        );
        let buffer: u32 = self.replay_buffer_seconds;
        report(
            &mut problems,
            buffer < 30 || buffer > 600,
            "capture.replay_buffer_seconds",
            "Replay buffer must be between 30 and 600 seconds.",
        );
        report(
            &mut problems,
            self.extra_lead_in_seconds > 30,
            "capture.extra_lead_in_seconds",
            "Extra lead-in must be between 0 and 30 seconds.",
        );
        report(
            &mut problems,
            is_blank(&self.audio_output),
            "capture.audio_output",
            "Choose an output-audio device.",
        );
        let blank_input = match &self.audio_input {
            Some(input) => is_blank(input),
            None => false,
        };
        report(
            &mut problems,
            blank_input,
            "capture.audio_input",
            "Disable input audio or choose an input-audio device.",
        );
        let empty_token = match &self.capture_target_token {
            Some(token) => token.as_str().is_empty(),
            None => false,
        };
        report(
            &mut problems,
            empty_token,
            "capture.capture_target_token",
            "The capture-target token cannot be empty.",
        );
        problems
    }
}

impl ActivitySettings {
    /// What keeps the settings from being stored.
    fn stored_problems(&self) -> (problems: Vec<ValidationProblem>)
        ensures
            problem_texts(problems@) == activity_problems(*self),
    {
        let mut problems: Vec<ValidationProblem> = Vec::new();
        assert(problem_texts(problems@) =~= seq![]);
        report(
            &mut problems,
            self.min_raid_duration_seconds > 10_000,
            "activities.min_raid_duration_seconds",
            "Minimum raid duration cannot exceed 10000 seconds.",
        );
        assert(forall|list: Seq<(Seq<char>, Seq<char>)>| #[trigger] (seq![] + list) =~= list);
        report(
            &mut problems,
            self.raid_overrun_seconds > 60,
            "activities.raid_overrun_seconds",
            "Raid overrun must be between 0 and 60 seconds.",
        );
        report(
            &mut problems,
            self.dungeon_overrun_seconds > 60,
            "activities.dungeon_overrun_seconds",
            "Dungeon overrun must be between 0 and 60 seconds.",
        );
        problems
    }
}

/// A saved path and its authorization go together.
pub open spec fn consistent(path: AuthorizedPath) -> bool {
    &&& (path.path@.len() == 0) == (path.authorization == PathAuthorization::Unset)
    &&& path.authorization == PathAuthorization::Authorized ==> text::is_absolute(path.path@)
}

/// Every rule on the version and the saved paths holds.
pub open spec fn storable_paths(config: Config) -> bool {
    &&& config.version == CONFIG_VERSION
    &&& consistent(config.storage.recording_dir)
    &&& consistent(config.storage.buffer_dir)
    &&& consistent(config.flavors.retail.log_dir)
    &&& consistent(config.flavors.retail_ptr.log_dir)
    &&& consistent(config.flavors.classic.log_dir)
    &&& consistent(config.flavors.classic_ptr.log_dir)
    &&& consistent(config.flavors.era.log_dir)
}

/// Every rule on the capture settings holds.
pub open spec fn storable_capture(capture: CaptureSettings) -> bool {
    &&& 15 <= capture.fps <= 60
    &&& 1_000 <= capture.bitrate_kbps <= 200_000
    &&& 30 <= capture.replay_buffer_seconds <= 600
    &&& capture.extra_lead_in_seconds <= 30
    &&& text::trim(capture.audio_output@).len() > 0
    &&& capture.audio_input matches Some(input) ==> text::trim(input@).len() > 0
    &&& capture.capture_target_token matches Some(token) ==> token@.len() > 0
}

/// Every rule on the activity settings holds.
pub open spec fn storable_activities(activities: ActivitySettings) -> bool {
    &&& activities.min_raid_duration_seconds <= 10_000
    &&& activities.raid_overrun_seconds <= 60
    &&& activities.dungeon_overrun_seconds <= 60
}

/// Every rule on the stored form holds.
pub open spec fn storable(config: Config) -> bool {
    &&& storable_paths(config)
    &&& storable_capture(config.capture)
    &&& storable_activities(config.activities)
}

proof fn lemma_silent_paths(config: Config)
    ensures
        (path_problems(config).len() == 0) == storable_paths(config),
{
}

proof fn lemma_silent_capture(capture: CaptureSettings)
    ensures
        (capture_problems(capture).len() == 0) == storable_capture(capture),
{
}

/// Nothing is reported exactly when every rule holds.
pub proof fn silence_means_storable(config: Config)
    ensures
        (storable_problems(config).len() == 0) == storable(config),
{
    lemma_silent_paths(config);
    lemma_silent_capture(config.capture);
}

/// A configuration that can be used can also be stored.
pub proof fn usable_configs_are_storable(config: Config)
    requires
        usable_problems(config).len() == 0,
    ensures
        storable_problems(config).len() == 0,
{
}

/// Preferences of the window, the release notes and the cloud account never
/// decide whether a configuration is usable or storable.
pub proof fn interface_and_account_never_invalidate(config: Config, changed: Config)
    requires
        changed == (Config {
            interface: changed.interface,
            last_seen_version: changed.last_seen_version,
            cloud: changed.cloud,
            ..config
        }),
    ensures
        usable_problems(changed) == usable_problems(config),
        storable_problems(changed) == storable_problems(config),
{
}

/// Why a configuration could not be loaded, stored or located.
#[derive(Debug, PartialEq, Eq)]
pub enum ConfigError {
    NotFound(String),
    InvalidJson { path: String, source: String },
    Validation(Vec<ValidationProblem>),
    Io { operation: &'static str, path: String, source: String },
    UnresolvedHome,
}

/// Naming the one post-rename step lets a caller tell "the write never
/// happened" from "the write is visible but its durability is unconfirmed".
pub const SYNC_DIRECTORY: &'static str = "sync config directory";

impl ConfigError {
    /// The new config is already on disk despite the error.
    pub open spec fn committed(self) -> bool {
        self matches ConfigError::Io { operation, .. } && operation@ == SYNC_DIRECTORY@
    }

    /// True when the new config is already on disk despite the error, so the
    /// caller must keep the value it just wrote rather than roll it back.
    pub fn is_committed(&self) -> (yes: bool)
        ensures
            yes == self.committed(),
    {
        match self {
            ConfigError::Io { operation, .. } => same_text(operation, SYNC_DIRECTORY),
            _ => false,
        }
    }

    /// The error in words.
    pub open spec fn words(self) -> Seq<char> {
        match self {
            ConfigError::NotFound(path) => "config not found: "@ + path@,
            ConfigError::InvalidJson { path, .. } => "invalid JSON in "@ + path@,
            ConfigError::Validation(problems) => "config has "@ + text::decimal(problems@.len())
                + " validation problem(s)"@,
            ConfigError::Io { operation, path, .. } => "failed to "@ + operation@ + ": "@ + path@,
            ConfigError::UnresolvedHome =>
                "Cannot find the config directory because XDG_CONFIG_HOME and HOME are unset."@,
        }
    }

    pub fn message(&self) -> (text: String)
        ensures
            text@ == self.words(),
    {
        match self {
            ConfigError::NotFound(path) => {
                let mut out = "config not found: ".to_owned();
                out.append(path);
                out
            },
            ConfigError::InvalidJson { path, .. } => {
                let mut out = "invalid JSON in ".to_owned();
                out.append(path);
                out
            },
            ConfigError::Validation(problems) => {
                let mut out = "config has ".to_owned();
                push_decimal(&mut out, problems.len() as u64);
                out.append(" validation problem(s)");
                out
            },
            ConfigError::Io { operation, path, .. } => {
                let mut out = "failed to ".to_owned();
                out.append(operation);
                out.append(": ");
                out.append(path);
                out
            },
            ConfigError::UnresolvedHome =>
                "Cannot find the config directory because XDG_CONFIG_HOME and HOME are unset.".to_owned(),
        }
    }
}

/// The file operations that replace the stored configuration, in the order
/// they are made.
#[derive(Clone, Copy, Debug, PartialEq, Eq, Structural)]
pub enum WriteStep {
    CreateDirectory,
    CreateTemporary,
    WriteTemporary,
    SyncTemporary,
    Replace,
    SyncDirectory,
}

impl WriteStep {
    /// What the step is called in an error.
    pub open spec fn name(self) -> Seq<char> {
        match self {
            WriteStep::CreateDirectory => "create config directory"@,
            WriteStep::CreateTemporary => "create temporary config"@,
            WriteStep::WriteTemporary => "write temporary config"@,
            WriteStep::SyncTemporary => "sync temporary config"@,
            WriteStep::Replace => "replace config"@,
            WriteStep::SyncDirectory => SYNC_DIRECTORY@,
        }
    }

    fn operation(self) -> (operation: &'static str)
        ensures
            operation@ == self.name(),
    {
        match self {
            WriteStep::CreateDirectory => "create config directory",
            WriteStep::CreateTemporary => "create temporary config",
            WriteStep::WriteTemporary => "write temporary config",
            WriteStep::SyncTemporary => "sync temporary config",
            WriteStep::Replace => "replace config",
            WriteStep::SyncDirectory => SYNC_DIRECTORY,
        }
    }
}

/// Only the step after the rename leaves the new file in place.
pub proof fn only_the_last_step_is_committed(step: WriteStep)
    ensures
        step.name() == SYNC_DIRECTORY@ <==> step == WriteStep::SyncDirectory,
{
    reveal_strlit("create config directory");
    reveal_strlit("create temporary config");
    reveal_strlit("write temporary config");
    reveal_strlit("sync temporary config");
    reveal_strlit("replace config");
    reveal_strlit("sync config directory");
    assert(SYNC_DIRECTORY@ == "sync config directory"@);
    assert("create config directory"@.len() != SYNC_DIRECTORY@.len());
    assert("create temporary config"@.len() != SYNC_DIRECTORY@.len());
    assert("write temporary config"@.len() != SYNC_DIRECTORY@.len());
    assert("sync temporary config"@[5] != SYNC_DIRECTORY@[5]);
    assert("replace config"@.len() != SYNC_DIRECTORY@.len());
}

/// Where the stored configuration goes and through which file it gets there.
#[derive(Debug, PartialEq, Eq)]
pub struct WritePlan {
    pub directory: String,
    pub path: String,
}

impl WritePlan {
    /// Whether `temporary` is the file that is written first.
    pub open spec fn writes_first(self, temporary: Result<String, ConfigError>) -> bool {
        match text::file_name(self.path@) {
            Some(name) => temporary matches Ok(t) && t@ == text::joined(
                self.directory@,
                name + ".tmp"@,
            ),
            None => temporary matches Err(ConfigError::Io { operation, path, source }) && operation@
                == "resolve config filename"@ && path@ == self.path@ && source@
                == "config path has no filename"@,
        }
    }

    /// The file that is written before it replaces the configuration: the
    /// configuration's own name with `.tmp` behind it, in its directory.
    pub fn temporary_path(&self) -> (temporary: Result<String, ConfigError>)
        ensures
            self.writes_first(temporary),
    {
        match file_name_of(&self.path) {
            Some(name) => {
                let mut temporary = name;
                temporary.append(".tmp");
                Ok(join_path(&self.directory, &temporary))
            },
            None => Err(
                ConfigError::Io {
                    operation: "resolve config filename",
                    path: self.path.clone(),
                    source: "config path has no filename".to_owned(),
                },
            ),
        }
    }

    /// The error for a step that failed, with the file it was about.
    pub fn failed(&self, step: WriteStep, temporary: &str, source: String) -> (error: ConfigError)
        ensures
            error matches ConfigError::Io { operation, path, source: cause } && {
                &&& operation@ == step.name()
                &&& cause == source
                &&& path@ == (match step {
                    WriteStep::CreateDirectory | WriteStep::SyncDirectory => self.directory@,
                    WriteStep::Replace => self.path@,
                    _ => temporary@,
                })
            },
            error.committed() <==> step == WriteStep::SyncDirectory,
    {
        proof {
            only_the_last_step_is_committed(step);
        }
        let path = match step {
            WriteStep::CreateDirectory => self.directory.clone(),
            WriteStep::SyncDirectory => self.directory.clone(),
            WriteStep::Replace => self.path.clone(),
            _ => temporary.to_owned(),
        };
        ConfigError::Io { operation: step.operation(), path, source }
    }
}

impl Config {
    /// A configuration that was read from its file is accepted as it is, or
    /// refused with everything that is wrong with it.
    pub open spec fn loads(parsed: Config, loaded: Result<Config, ConfigError>) -> bool {
        match loaded {
            Ok(config) => config == parsed && storable_problems(parsed).len() == 0,
            Err(ConfigError::Validation(problems)) => problem_texts(problems@)
                == storable_problems(parsed) && storable_problems(parsed).len() > 0,
            Err(_) => false,
        }
    }

    /// Accept a configuration that was read from its file.
    pub fn load(parsed: Config) -> (loaded: Result<Config, ConfigError>)
        ensures
            Config::loads(parsed, loaded),
    {
        let problems = parsed.persistence_problems();
        assert(problem_texts(problems@).len() == problems@.len());
        if problems.len() == 0 {
            Ok(parsed)
        } else {
            Err(ConfigError::Validation(problems))
        }
    }

    /// The configuration goes to `path` if it is storable and the path has a
    /// directory to write in.
    pub open spec fn saves(self, path: Seq<char>, plan: Result<WritePlan, ConfigError>) -> bool {
        match plan {
            Ok(plan) => {
                &&& storable_problems(self).len() == 0
                &&& text::parent(path) == Some(plan.directory@)
                &&& plan.path@ == path
            },
            Err(ConfigError::Validation(problems)) => problem_texts(problems@)
                == storable_problems(self) && storable_problems(self).len() > 0,
            Err(ConfigError::Io { operation, path: at, source }) => {
                &&& storable_problems(self).len() == 0
                &&& text::parent(path) is None
                &&& operation@ == "resolve config parent"@
                &&& at@ == path
                &&& source@ == "config path has no parent"@
            },
            Err(_) => false,
        }
    }

    /// How the configuration replaces the one stored at `path`. An invalid
    /// configuration is refused before any file is touched.
    pub fn save(&self, path: &str) -> (plan: Result<WritePlan, ConfigError>)
        ensures
            self.saves(path@, plan),
    {
        let problems = self.persistence_problems();
        assert(problem_texts(problems@).len() == problems@.len());
        if problems.len() > 0 {
            return Err(ConfigError::Validation(problems));
        }
        match text::parent_of(path) {
            Some(directory) => Ok(WritePlan { directory, path: path.to_owned() }),
            None => Err(
                ConfigError::Io {
                    operation: "resolve config parent",
                    path: path.to_owned(),
                    source: "config path has no parent".to_owned(),
                },
            ),
        }
    }
}

proof fn lemma_agreeing_captures(a: CaptureSettings, b: CaptureSettings)
    requires
        a@ == b@,
    ensures
        storable_capture(a) == storable_capture(b),
{
    assert(crate::domain::text_view(a.audio_input) == crate::domain::text_view(b.audio_input));
    assert(crate::domain::text_view(a.capture_target_token) == crate::domain::text_view(
        b.capture_target_token,
    ));
}

proof fn lemma_agreeing_paths(a: AuthorizedPath, b: AuthorizedPath)
    requires
        a.same(b),
    ensures
        consistent(a) == consistent(b),
{
    paths::only_empty_paths_are_nothing(a.path@);
    paths::only_empty_paths_are_nothing(b.path@);
}

/// Configurations that agree are storable together.
proof fn lemma_agreeing_configs(a: Config, b: Config)
    requires
        a.agrees(b),
    ensures
        storable(a) == storable(b),
{
    lemma_agreeing_captures(a.capture, b.capture);
    lemma_agreeing_paths(a.storage.recording_dir, b.storage.recording_dir);
    lemma_agreeing_paths(a.storage.buffer_dir, b.storage.buffer_dir);
    lemma_agreeing_paths(a.flavors.retail.log_dir, b.flavors.retail.log_dir);
    lemma_agreeing_paths(a.flavors.retail_ptr.log_dir, b.flavors.retail_ptr.log_dir);
    lemma_agreeing_paths(a.flavors.classic.log_dir, b.flavors.classic.log_dir);
    lemma_agreeing_paths(a.flavors.classic_ptr.log_dir, b.flavors.classic_ptr.log_dir);
    lemma_agreeing_paths(a.flavors.era.log_dir, b.flavors.era.log_dir);
}

/// What `save` accepts, `load` gives back: a configuration that was read from
/// its file and says what the saved one says is accepted, and stays as it is.
pub proof fn saved_configs_are_loaded_unchanged(
    config: Config,
    path: Seq<char>,
    plan: Result<WritePlan, ConfigError>,
    parsed: Config,
    loaded: Result<Config, ConfigError>,
)
    requires
        config.saves(path, plan),
        plan is Ok,
        parsed.agrees(config),
        Config::loads(parsed, loaded),
    ensures
        loaded matches Ok(kept) && kept == parsed && kept.agrees(config),
{
    silence_means_storable(config);
    silence_means_storable(parsed);
    lemma_agreeing_configs(parsed, config);
}

/// The error for a configuration file that could not be read.
pub fn map_read_error(path: &str, missing: bool, source: String) -> (error: ConfigError)
    ensures
        missing ==> (error matches ConfigError::NotFound(at) && at@ == path@),
        !missing ==> (error matches ConfigError::Io { operation, path: at, source: cause }
            && operation@ == "read config"@ && at@ == path@ && cause == source),
{
    if missing {
        ConfigError::NotFound(path.to_owned())
    } else {
        ConfigError::Io { operation: "read config", path: path.to_owned(), source }
    }
}

/// The directory configurations are kept in, from the two environment
/// variables that name it; an empty variable counts as unset.
pub open spec fn config_root(xdg: Option<String>, home: Option<String>) -> Option<Seq<char>> {
    match (xdg, home) {
        (Some(path), _) if path@.len() > 0 => Some(path@),
        (_, Some(path)) if path@.len() > 0 => Some(text::joined(path@, ".config"@)),
        _ => None,
    }
}

/// Where the configuration is kept, for the values of `XDG_CONFIG_HOME` and
/// `HOME`.
pub fn config_path_from_values(xdg: &Option<String>, home: &Option<String>) -> (path: Result<
    String,
    ConfigError,
>)
    ensures
        match config_root(*xdg, *home) {
            Some(root) => path matches Ok(p) && p@ == text::joined(
                text::joined(root, APP_ID@),
                CONFIG_FILENAME@,
            ),
            None => path matches Err(ConfigError::UnresolvedHome),
        },
{
    let root = match nonempty(xdg) {
        Some(path) => path,
        None => match nonempty(home) {
            Some(path) => join_path(&path, ".config"),
            None => {
                return Err(ConfigError::UnresolvedHome);
            },
        },
    };
    let directory = join_path(&root, APP_ID);
    Ok(join_path(&directory, CONFIG_FILENAME))
}

fn nonempty(value: &Option<String>) -> (kept: Option<String>)
    ensures
        match *value {
            Some(path) => if path@.len() > 0 {
                kept == Some(path)
            } else {
                kept is None
            },
            None => kept is None,
        },
{
    match value {
        Some(path) => if path.as_str().is_empty() {
            None
        } else {
            Some(path.clone())
        },
        None => None,
    }
}

} // verus!
