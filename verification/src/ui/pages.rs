//! How the Settings dialog is laid out: its pages, their groups, and the rows
//! of each.
use vstd::prelude::*;

use crate::ui::rows::{ComboSetting, PathSetting, SpinSetting, SwitchSetting};

verus! {

/// What can stand in a group.
#[derive(Clone, Copy, Debug, PartialEq, Eq, Structural)]
pub enum DialogRow {
    Spin(SpinSetting),
    Switch(SwitchSetting),
    Combo(ComboSetting),
    Path(PathSetting),
    /// The screen or window that is recorded, and the way to another one.
    CaptureTarget,
    /// The recorder's own rejection of the capture settings.
    CaptureWarning,
    OutputAudio,
    /// Whether an input device is recorded.
    InputSwitch,
    InputAudio,
    /// The flavours whose advanced combat logging is off.
    LoggingWarnings,
    TestRecording,
    /// Protected recordings exceed the storage limit.
    ProtectedNote,
    /// There is no system tray.
    TrayNote,
    Account,
    Password,
    Guild,
}

pub struct DialogGroup {
    pub title: &'static str,
    pub description: Option<&'static str>,
    pub rows: Vec<DialogRow>,
}

pub struct DialogPage {
    pub name: &'static str,
    pub title: &'static str,
    pub icon: &'static str,
    pub groups: Vec<DialogGroup>,
}

/// A group, with its texts as characters.
pub struct GroupModel {
    pub title: Seq<char>,
    pub description: Option<Seq<char>>,
    pub rows: Seq<DialogRow>,
}

/// A page, with its texts as characters.
pub struct PageModel {
    pub name: Seq<char>,
    pub title: Seq<char>,
    pub icon: Seq<char>,
    pub groups: Seq<GroupModel>,
}

impl View for DialogGroup {
    type V = GroupModel;

    open spec fn view(&self) -> GroupModel {
        GroupModel {
            title: self.title@,
            description: match self.description {
                Some(text) => Some(text@),
                None => None,
            },
            rows: self.rows@,
        }
    }
}

impl View for DialogPage {
    type V = PageModel;

    open spec fn view(&self) -> PageModel {
        PageModel {
            name: self.name@,
            title: self.title@,
            icon: self.icon@,
            groups: self.groups@.map_values(|group: DialogGroup| group@),
        }
    }
}

/// While applying settings is unsafe, the row's button is greyed: it would
/// reconfigure or start the recorder.
pub open spec fn reconfigures(row: DialogRow) -> bool {
    row is Path || row is CaptureTarget || row is TestRecording
}

pub fn is_gated(row: DialogRow) -> (gated: bool)
    ensures
        gated == reconfigures(row),
{
    match row {
        DialogRow::Path(_) | DialogRow::CaptureTarget | DialogRow::TestRecording => true,
        _ => false,
    }
}

/// The rows under "Capture".
pub open spec fn capture_rows() -> Seq<DialogRow> {
    seq![
        DialogRow::Combo(ComboSetting::Codec),
        DialogRow::Spin(SpinSetting::Fps),
        DialogRow::Spin(SpinSetting::Bitrate),
        DialogRow::Spin(SpinSetting::ReplayBuffer),
        DialogRow::Spin(SpinSetting::ExtraLeadIn),
        DialogRow::Switch(SwitchSetting::CaptureCursor),
        DialogRow::Combo(ComboSetting::ReplayStorage),
    ]
}

/// The rows under "Capture target".
pub open spec fn capture_target_rows() -> Seq<DialogRow> {
    seq![
        DialogRow::CaptureTarget,
        DialogRow::CaptureWarning,
    ]
}

/// The rows under "Audio devices".
pub open spec fn audio_devices_rows() -> Seq<DialogRow> {
    seq![
        DialogRow::OutputAudio,
        DialogRow::InputSwitch,
        DialogRow::InputAudio,
    ]
}

/// The rows under "Combat logs".
pub open spec fn combat_logs_rows() -> Seq<DialogRow> {
    seq![
        DialogRow::Path(PathSetting::Retail),
        DialogRow::Path(PathSetting::RetailPtr),
        DialogRow::Path(PathSetting::Classic),
        DialogRow::Path(PathSetting::ClassicPtr),
        DialogRow::Path(PathSetting::Era),
        DialogRow::LoggingWarnings,
    ]
}

/// The rows under "Automatic recording".
pub open spec fn automatic_recording_rows() -> Seq<DialogRow> {
    seq![
        DialogRow::Switch(SwitchSetting::RecordRaids),
        DialogRow::Switch(SwitchSetting::RecordDungeons),
        DialogRow::Switch(SwitchSetting::RecordTwoVTwo),
        DialogRow::Switch(SwitchSetting::RecordThreeVThree),
        DialogRow::Switch(SwitchSetting::RecordFiveVFive),
        DialogRow::Switch(SwitchSetting::RecordSkirmish),
        DialogRow::Switch(SwitchSetting::RecordSoloShuffle),
        DialogRow::Switch(SwitchSetting::RecordBattlegrounds),
        DialogRow::Switch(SwitchSetting::RecordChallengeModes),
        DialogRow::Combo(ComboSetting::MinRaidDifficulty),
        DialogRow::Spin(SpinSetting::MinRaidDuration),
        DialogRow::Spin(SpinSetting::RaidOverrun),
        DialogRow::Spin(SpinSetting::MinKeystoneLevel),
        DialogRow::Spin(SpinSetting::DungeonOverrun),
        DialogRow::Switch(SwitchSetting::CurrentRaidOnly),
        DialogRow::Switch(SwitchSetting::ValidateLogPaths),
    ]
}

/// The rows under "Manual and test recording".
pub open spec fn manual_and_test_recording_rows() -> Seq<DialogRow> {
    seq![
        DialogRow::Switch(SwitchSetting::ManualEnabled),
        DialogRow::Switch(SwitchSetting::ManualSound),
        DialogRow::TestRecording,
    ]
}

/// The rows under "Storage".
pub open spec fn storage_rows() -> Seq<DialogRow> {
    seq![
        DialogRow::Path(PathSetting::RecordingDir),
        DialogRow::Switch(SwitchSetting::SeparateBuffer),
        DialogRow::Path(PathSetting::BufferDir),
        DialogRow::Spin(SpinSetting::StorageLimit),
        DialogRow::ProtectedNote,
    ]
}

/// The rows under "Interface".
pub open spec fn interface_rows() -> Seq<DialogRow> {
    seq![
        DialogRow::Switch(SwitchSetting::HideEmptyCategories),
        DialogRow::Switch(SwitchSetting::MinimizeToTray),
        DialogRow::Switch(SwitchSetting::CloseToTray),
        DialogRow::Switch(SwitchSetting::StartMinimized),
        DialogRow::TrayNote,
    ]
}

/// The rows under "Warcraft Recorder Pro".
pub open spec fn warcraft_recorder_pro_rows() -> Seq<DialogRow> {
    seq![
        DialogRow::Switch(SwitchSetting::CloudEnabled),
        DialogRow::Account,
        DialogRow::Password,
        DialogRow::Guild,
        DialogRow::Switch(SwitchSetting::AutoUpload),
    ]
}

/// The dialog, page by page.
pub open spec fn dialog() -> Seq<PageModel> {
    seq![capture_model(), audio_model(), activities_model(), storage_model(), cloud_model()]
}

pub open spec fn capture_model() -> PageModel {
    PageModel {
        name: "capture"@,
        title: "Capture"@,
        icon: "video-display-symbolic"@,
        groups: seq![
            GroupModel {
                title: "Capture"@,
                description: None,
                rows: capture_rows(),
            },
            GroupModel {
                title: "Capture target"@,
                description: None,
                rows: capture_target_rows(),
            },
        ],
    }
}

pub open spec fn audio_model() -> PageModel {
    PageModel {
        name: "audio"@,
        title: "Audio"@,
        icon: "audio-speakers-symbolic"@,
        groups: seq![
            GroupModel {
                title: "Audio devices"@,
                description: Some("Loading audio devices…"@),
                rows: audio_devices_rows(),
            },
        ],
    }
}

pub open spec fn activities_model() -> PageModel {
    PageModel {
        name: "activities"@,
        title: "Activities"@,
        icon: "input-gaming-symbolic"@,
        groups: seq![
            GroupModel {
                title: "Combat logs"@,
                description: Some("Enable each World of Warcraft flavour and choose its Logs folder."@),
                rows: combat_logs_rows(),
            },
            GroupModel {
                title: "Automatic recording"@,
                description: None,
                rows: automatic_recording_rows(),
            },
            GroupModel {
                title: "Manual and test recording"@,
                description: None,
                rows: manual_and_test_recording_rows(),
            },
        ],
    }
}

pub open spec fn storage_model() -> PageModel {
    PageModel {
        name: "storage"@,
        title: "Storage & interface"@,
        icon: "drive-harddisk-symbolic"@,
        groups: seq![
            GroupModel {
                title: "Storage"@,
                description: None,
                rows: storage_rows(),
            },
            GroupModel {
                title: "Interface"@,
                description: None,
                rows: interface_rows(),
            },
        ],
    }
}

pub open spec fn cloud_model() -> PageModel {
    PageModel {
        name: "cloud"@,
        title: "Cloud"@,
        icon: "send-to-symbolic"@,
        groups: seq![
            GroupModel {
                title: "Warcraft Recorder Pro"@,
                description: Some("The same cloud account the Windows app uses. Uploads need write access to the guild."@),
                rows: warcraft_recorder_pro_rows(),
            },
        ],
    }
}

fn capture_page() -> (page: DialogPage)
    ensures
        page@ == capture_model(),
{
    let capture = DialogGroup {
        title: "Capture",
        description: None,
        rows: vec![
            DialogRow::Combo(ComboSetting::Codec),
            DialogRow::Spin(SpinSetting::Fps),
            DialogRow::Spin(SpinSetting::Bitrate),
            DialogRow::Spin(SpinSetting::ReplayBuffer),
            DialogRow::Spin(SpinSetting::ExtraLeadIn),
            DialogRow::Switch(SwitchSetting::CaptureCursor),
            DialogRow::Combo(ComboSetting::ReplayStorage),
        ],
    };
    assert(capture.rows@ =~= capture_rows());
    let capture_target = DialogGroup {
        title: "Capture target",
        description: None,
        rows: vec![
            DialogRow::CaptureTarget,
            DialogRow::CaptureWarning,
        ],
    };
    assert(capture_target.rows@ =~= capture_target_rows());
    let page = DialogPage {
        name: "capture",
        title: "Capture",
        icon: "video-display-symbolic",
        groups: vec![capture, capture_target],
    };
    assert(page@.groups =~= capture_model().groups);
    page
}

fn audio_page() -> (page: DialogPage)
    ensures
        page@ == audio_model(),
{
    let audio_devices = DialogGroup {
        title: "Audio devices",
        description: Some("Loading audio devices…"),
        rows: vec![
            DialogRow::OutputAudio,
            DialogRow::InputSwitch,
            DialogRow::InputAudio,
        ],
    };
    assert(audio_devices.rows@ =~= audio_devices_rows());
    let page = DialogPage {
        name: "audio",
        title: "Audio",
        icon: "audio-speakers-symbolic",
        groups: vec![audio_devices],
    };
    assert(page@.groups =~= audio_model().groups);
    page
}

fn activities_page() -> (page: DialogPage)
    ensures
        page@ == activities_model(),
{
    let combat_logs = DialogGroup {
        title: "Combat logs",
        description: Some("Enable each World of Warcraft flavour and choose its Logs folder."),
        rows: vec![
            DialogRow::Path(PathSetting::Retail),
            DialogRow::Path(PathSetting::RetailPtr),
            DialogRow::Path(PathSetting::Classic),
            DialogRow::Path(PathSetting::ClassicPtr),
            DialogRow::Path(PathSetting::Era),
            DialogRow::LoggingWarnings,
        ],
    };
    assert(combat_logs.rows@ =~= combat_logs_rows());
    let automatic_recording = DialogGroup {
        title: "Automatic recording",
        description: None,
        rows: vec![
            DialogRow::Switch(SwitchSetting::RecordRaids),
            DialogRow::Switch(SwitchSetting::RecordDungeons),
            DialogRow::Switch(SwitchSetting::RecordTwoVTwo),
            DialogRow::Switch(SwitchSetting::RecordThreeVThree),
            DialogRow::Switch(SwitchSetting::RecordFiveVFive),
            DialogRow::Switch(SwitchSetting::RecordSkirmish),
            DialogRow::Switch(SwitchSetting::RecordSoloShuffle),
            DialogRow::Switch(SwitchSetting::RecordBattlegrounds),
            DialogRow::Switch(SwitchSetting::RecordChallengeModes),
            DialogRow::Combo(ComboSetting::MinRaidDifficulty),
            DialogRow::Spin(SpinSetting::MinRaidDuration),
            DialogRow::Spin(SpinSetting::RaidOverrun),
            DialogRow::Spin(SpinSetting::MinKeystoneLevel),
            DialogRow::Spin(SpinSetting::DungeonOverrun),
            DialogRow::Switch(SwitchSetting::CurrentRaidOnly),
            DialogRow::Switch(SwitchSetting::ValidateLogPaths),
        ],
    };
    assert(automatic_recording.rows@ =~= automatic_recording_rows());
    let manual_and_test_recording = DialogGroup {
        title: "Manual and test recording",
        description: None,
        rows: vec![
            DialogRow::Switch(SwitchSetting::ManualEnabled),
            DialogRow::Switch(SwitchSetting::ManualSound),
            DialogRow::TestRecording,
        ],
    };
    assert(manual_and_test_recording.rows@ =~= manual_and_test_recording_rows());
    let page = DialogPage {
        name: "activities",
        title: "Activities",
        icon: "input-gaming-symbolic",
        groups: vec![combat_logs, automatic_recording, manual_and_test_recording],
    };
    assert(page@.groups =~= activities_model().groups);
    page
}

fn storage_page() -> (page: DialogPage)
    ensures
        page@ == storage_model(),
{
    let storage = DialogGroup {
        title: "Storage",
        description: None,
        rows: vec![
            DialogRow::Path(PathSetting::RecordingDir),
            DialogRow::Switch(SwitchSetting::SeparateBuffer),
            DialogRow::Path(PathSetting::BufferDir),
            DialogRow::Spin(SpinSetting::StorageLimit),
            DialogRow::ProtectedNote,
        ],
    };
    assert(storage.rows@ =~= storage_rows());
    let interface = DialogGroup {
        title: "Interface",
        description: None,
        rows: vec![
            DialogRow::Switch(SwitchSetting::HideEmptyCategories),
            DialogRow::Switch(SwitchSetting::MinimizeToTray),
            DialogRow::Switch(SwitchSetting::CloseToTray),
            DialogRow::Switch(SwitchSetting::StartMinimized),
            DialogRow::TrayNote,
        ],
    };
    assert(interface.rows@ =~= interface_rows());
    let page = DialogPage {
        name: "storage",
        title: "Storage & interface",
        icon: "drive-harddisk-symbolic",
        groups: vec![storage, interface],
    };
    assert(page@.groups =~= storage_model().groups);
    page
}

fn cloud_page() -> (page: DialogPage)
    ensures
        page@ == cloud_model(),
{
    let warcraft_recorder_pro = DialogGroup {
        title: "Warcraft Recorder Pro",
        description: Some("The same cloud account the Windows app uses. Uploads need write access to the guild."),
        rows: vec![
            DialogRow::Switch(SwitchSetting::CloudEnabled),
            DialogRow::Account,
            DialogRow::Password,
            DialogRow::Guild,
            DialogRow::Switch(SwitchSetting::AutoUpload),
        ],
    };
    assert(warcraft_recorder_pro.rows@ =~= warcraft_recorder_pro_rows());
    let page = DialogPage {
        name: "cloud",
        title: "Cloud",
        icon: "send-to-symbolic",
        groups: vec![warcraft_recorder_pro],
    };
    assert(page@.groups =~= cloud_model().groups);
    page
}

/// The pages of the dialog, in the order of the switcher.
pub fn dialog_pages() -> (pages: Vec<DialogPage>)
    ensures
        pages@.map_values(|page: DialogPage| page@) == dialog(),
{
    let pages = vec![capture_page(), audio_page(), activities_page(), storage_page(), cloud_page()];
    assert(pages@.map_values(|page: DialogPage| page@) =~= dialog());
    pages
}

/// Where a row stands: its page, the group there, and its place in the group.
pub open spec fn place_of(row: DialogRow) -> (int, int, int) {
    match row {
        DialogRow::Combo(ComboSetting::Codec) => (0, 0, 0),
        DialogRow::Spin(SpinSetting::Fps) => (0, 0, 1),
        DialogRow::Spin(SpinSetting::Bitrate) => (0, 0, 2),
        DialogRow::Spin(SpinSetting::ReplayBuffer) => (0, 0, 3),
        DialogRow::Spin(SpinSetting::ExtraLeadIn) => (0, 0, 4),
        DialogRow::Switch(SwitchSetting::CaptureCursor) => (0, 0, 5),
        DialogRow::Combo(ComboSetting::ReplayStorage) => (0, 0, 6),
        DialogRow::CaptureTarget => (0, 1, 0),
        DialogRow::CaptureWarning => (0, 1, 1),
        DialogRow::OutputAudio => (1, 0, 0),
        DialogRow::InputSwitch => (1, 0, 1),
        DialogRow::InputAudio => (1, 0, 2),
        DialogRow::Path(PathSetting::Retail) => (2, 0, 0),
        DialogRow::Path(PathSetting::RetailPtr) => (2, 0, 1),
        DialogRow::Path(PathSetting::Classic) => (2, 0, 2),
        DialogRow::Path(PathSetting::ClassicPtr) => (2, 0, 3),
        DialogRow::Path(PathSetting::Era) => (2, 0, 4),
        DialogRow::LoggingWarnings => (2, 0, 5),
        DialogRow::Switch(SwitchSetting::RecordRaids) => (2, 1, 0),
        DialogRow::Switch(SwitchSetting::RecordDungeons) => (2, 1, 1),
        DialogRow::Switch(SwitchSetting::RecordTwoVTwo) => (2, 1, 2),
        DialogRow::Switch(SwitchSetting::RecordThreeVThree) => (2, 1, 3),
        DialogRow::Switch(SwitchSetting::RecordFiveVFive) => (2, 1, 4),
        DialogRow::Switch(SwitchSetting::RecordSkirmish) => (2, 1, 5),
        DialogRow::Switch(SwitchSetting::RecordSoloShuffle) => (2, 1, 6),
        DialogRow::Switch(SwitchSetting::RecordBattlegrounds) => (2, 1, 7),
        DialogRow::Switch(SwitchSetting::RecordChallengeModes) => (2, 1, 8),
        DialogRow::Combo(ComboSetting::MinRaidDifficulty) => (2, 1, 9),
        DialogRow::Spin(SpinSetting::MinRaidDuration) => (2, 1, 10),
        DialogRow::Spin(SpinSetting::RaidOverrun) => (2, 1, 11),
        DialogRow::Spin(SpinSetting::MinKeystoneLevel) => (2, 1, 12),
        DialogRow::Spin(SpinSetting::DungeonOverrun) => (2, 1, 13),
        DialogRow::Switch(SwitchSetting::CurrentRaidOnly) => (2, 1, 14),
        DialogRow::Switch(SwitchSetting::ValidateLogPaths) => (2, 1, 15),
        DialogRow::Switch(SwitchSetting::ManualEnabled) => (2, 2, 0),
        DialogRow::Switch(SwitchSetting::ManualSound) => (2, 2, 1),
        DialogRow::TestRecording => (2, 2, 2),
        DialogRow::Path(PathSetting::RecordingDir) => (3, 0, 0),
        DialogRow::Switch(SwitchSetting::SeparateBuffer) => (3, 0, 1),
        DialogRow::Path(PathSetting::BufferDir) => (3, 0, 2),
        DialogRow::Spin(SpinSetting::StorageLimit) => (3, 0, 3),
        DialogRow::ProtectedNote => (3, 0, 4),
        DialogRow::Switch(SwitchSetting::HideEmptyCategories) => (3, 1, 0),
        DialogRow::Switch(SwitchSetting::MinimizeToTray) => (3, 1, 1),
        DialogRow::Switch(SwitchSetting::CloseToTray) => (3, 1, 2),
        DialogRow::Switch(SwitchSetting::StartMinimized) => (3, 1, 3),
        DialogRow::TrayNote => (3, 1, 4),
        DialogRow::Switch(SwitchSetting::CloudEnabled) => (4, 0, 0),
        DialogRow::Account => (4, 0, 1),
        DialogRow::Password => (4, 0, 2),
        DialogRow::Guild => (4, 0, 3),
        DialogRow::Switch(SwitchSetting::AutoUpload) => (4, 0, 4),
    }
}

/// Every row stands in the dialog, and nowhere twice: each setting is edited
/// in one place.
pub proof fn every_row_has_one_place(row: DialogRow, page: int, group: int, place: int)
    ensures
        ({
            let at = place_of(row);
            &&& 0 <= at.0 < dialog().len()
            &&& 0 <= at.1 < dialog()[at.0].groups.len()
            &&& 0 <= at.2 < dialog()[at.0].groups[at.1].rows.len()
            &&& dialog()[at.0].groups[at.1].rows[at.2] == row
        }),
        0 <= page < dialog().len() && 0 <= group < dialog()[page].groups.len() && 0 <= place
            < dialog()[page].groups[group].rows.len() && dialog()[page].groups[group].rows[place]
            == row ==> (page, group, place) == place_of(row),
{
}

} // verus!
