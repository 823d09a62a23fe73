//! What the coordinator starts from: paths, clocks and log folders.
use vstd::prelude::*;

use crate::calendar;
use crate::calendar::year_of;
use crate::config;
use crate::config::{config_path_from_values, Config, ConfigError, FlavorConfig};
use crate::domain::GameFlavor;
use crate::media_jobs::MediaConfig;
use crate::text;
use crate::text::{
    chars_of, find_between, join_path, parent_of, piece_start, same_text, starts_with, text_between,
    trim_bounds,
};

verus! {

/// Everything the coordinator needs that is not user configuration.
#[derive(Clone, Debug, PartialEq, Eq)]
pub struct Setup {
    pub config_path: String,
    /// App-private directory for the recorder's token/hook/events files.
    pub data_dir: String,
    pub gsr_binary: String,
    pub media: MediaConfig,
    /// Year used to expand the combat log's month/day timestamps.
    pub year: i32,
    /// Idle pacing for one coordinator tick.
    pub poll_interval_ms: u64,
    /// Test-recording length; raids run four times as long.
    pub test_duration_ms: u64,
}

impl Setup {
    /// What the setup is for an environment and a local clock.
    pub open spec fn suits(
        xdg_config_home: Option<String>,
        home: Option<String>,
        year: i32,
        utc_offset_minutes: i32,
        setup: Result<Setup, ConfigError>,
    ) -> bool {
        match config::config_root(xdg_config_home, home) {
            None => setup matches Err(ConfigError::UnresolvedHome),
            Some(root) => setup matches Ok(s) && {
                &&& s.config_path@ == text::joined(
                    text::joined(root, config::APP_ID@),
                    config::CONFIG_FILENAME@,
                )
                &&& s.data_dir@ == text::joined(
                    match text::parent(s.config_path@) {
                        Some(directory) => directory,
                        None => "."@,
                    },
                    "recorder"@,
                )
                &&& s.gsr_binary@ == "gpu-screen-recorder"@
                &&& s.media.ffmpeg@ == "ffmpeg"@
                &&& s.media == (MediaConfig {
                    ffmpeg: s.media.ffmpeg,
                    utc_offset_minutes,
                    poll_interval_ms: 50,
                    finalize_grace_ms: 30_000,
                    sigint_grace_ms: 2_000,
                })
                &&& s.year == year
                &&& s.poll_interval_ms == 50
                &&& s.test_duration_ms == 5_000
            },
        }
    }

    /// The setup for the values of `XDG_CONFIG_HOME` and `HOME`, the local
    /// year and the local offset from UTC.
    pub fn from_environment(
        xdg_config_home: &Option<String>,
        home: &Option<String>,
        year: i32,
        utc_offset_minutes: i32,
    ) -> (setup: Result<Setup, ConfigError>)
        ensures
            Setup::suits(*xdg_config_home, *home, year, utc_offset_minutes, setup),
    {
        let config_path = match config_path_from_values(xdg_config_home, home) {
            Ok(path) => path,
            Err(_) => {
                return Err(ConfigError::UnresolvedHome);
            },
        };
        let data_dir = match parent_of(&config_path) {
            Some(directory) => join_path(&directory, "recorder"),
            None => join_path(".", "recorder"),
        };
        let mut media = MediaConfig::default();
        media.utc_offset_minutes = utc_offset_minutes;
        Ok(
            Setup {
                config_path,
                data_dir,
                gsr_binary: "gpu-screen-recorder".to_owned(),
                media,
                year,
                poll_interval_ms: 50,
                test_duration_ms: 5_000,
            },
        )
    }
}

/// The whole minutes of a number of seconds, without its fraction.
pub open spec fn whole_minutes(seconds: int) -> int {
    if seconds >= 0 {
        seconds / 60
    } else {
        -((-seconds) / 60)
    }
}

/// The offset from UTC in minutes, from one in seconds.
pub fn utc_offset_minutes(seconds: i64) -> (minutes: i32)
    ensures
        minutes == whole_minutes(seconds as int) as i32,
{
    let minutes: i128 = if seconds >= 0 {
        seconds as i128 / 60
    } else {
        -((-(seconds as i128)) / 60)
    };
    minutes as i32
}

/// What the local clock is.
pub open spec fn is_clock(now_ms: i64, local: Option<(i32, i64)>, clock: (i32, i32)) -> bool {
    match local {
        Some((years, seconds)) => clock == (
            (years + 1900) as i32,
            whole_minutes(seconds as int) as i32,
        ),
        None => {
            &&& clock.1 == 0
            &&& now_ms >= 0 ==> clock.0 == calendar::date_of(now_ms as int / 86_400_000).0
            &&& now_ms < 0 ==> clock.0 == 1970
        },
    }
}

/// The year and the offset from UTC of the local clock. `local` is what the
/// system says: years since 1900, and the offset in seconds. Without it the
/// year is taken from `now_ms`, in UTC.
pub fn local_clock(now_ms: i64, local: Option<(i32, i64)>) -> (clock: (i32, i32))
    requires
        local matches Some((years, _)) ==> years <= i32::MAX - 1900,
    ensures
        is_clock(now_ms, local, clock),
{
    match local {
        Some((years, seconds)) => (years + 1900, utc_offset_minutes(seconds)),
        None => (year_of(now_ms), 0),
    }
}

/// Where the recorder's own directories live.
pub open spec fn root_of(config: Config) -> String {
    if config.storage.separate_buffer_dir {
        config.storage.buffer_dir.path
    } else {
        config.storage.recording_dir.path
    }
}

/// The recorder's own directories live under the replay-buffer directory when
/// one is configured, and under the library root otherwise.
pub fn capture_root(config: &Config) -> (path: String)
    ensures
        path == root_of(*config),
{
    if config.storage.separate_buffer_dir {
        config.storage.buffer_dir.path.clone()
    } else {
        config.storage.recording_dir.path.clone()
    }
}

/// A log folder to watch.
#[derive(Clone, Debug, PartialEq, Eq)]
pub struct LogSource {
    pub field: &'static str,
    pub flavor: GameFlavor,
    pub path: String,
}

impl View for LogSource {
    type V = (Seq<char>, crate::domain::GameFlavorView, Seq<char>);

    open spec fn view(&self) -> (Seq<char>, crate::domain::GameFlavorView, Seq<char>) {
        (self.field@, self.flavor@, self.path@)
    }
}

/// The log folder of one flavour, if it is enabled and has one.
pub open spec fn source_of(
    field: Seq<char>,
    game: crate::domain::GameFlavorView,
    flavor: FlavorConfig,
) -> Seq<(Seq<char>, crate::domain::GameFlavorView, Seq<char>)> {
    if flavor.enabled && flavor.log_dir.path@.len() > 0 {
        seq![(field, game, flavor.log_dir.path@)]
    } else {
        seq![]
    }
}

/// The log folders of the enabled flavours, in their order.
pub open spec fn log_sources(config: Config) -> Seq<
    (Seq<char>, crate::domain::GameFlavorView, Seq<char>),
> {
    source_of("retail"@, crate::domain::GameFlavorView::Retail, config.flavors.retail) + source_of(
        "retail_ptr"@,
        crate::domain::GameFlavorView::Retail,
        config.flavors.retail_ptr,
    ) + source_of("classic"@, crate::domain::GameFlavorView::Classic, config.flavors.classic)
        + source_of(
        "classic_ptr"@,
        crate::domain::GameFlavorView::Classic,
        config.flavors.classic_ptr,
    ) + source_of("era"@, crate::domain::GameFlavorView::Era, config.flavors.era)
}

pub open spec fn source_views(sources: Seq<LogSource>) -> Seq<
    (Seq<char>, crate::domain::GameFlavorView, Seq<char>),
> {
    sources.map_values(|source: LogSource| source@)
}

fn add_source(
    sources: &mut Vec<LogSource>,
    field: &'static str,
    game: GameFlavor,
    flavor: &FlavorConfig,
)
    ensures
        source_views(final(sources)@) == source_views(old(sources)@) + source_of(
            field@,
            game@,
            *flavor,
        ),
{
    if flavor.enabled && !flavor.log_dir.path.as_str().is_empty() {
        sources.push(LogSource { field, flavor: game, path: flavor.log_dir.path.clone() });
    }
    assert(source_views(sources@) =~= source_views(old(sources)@) + source_of(
        field@,
        game@,
        *flavor,
    ));
}

pub fn enabled_log_sources(config: &Config) -> (sources: Vec<LogSource>)
    ensures
        source_views(sources@) == log_sources(*config),
{
    let mut sources: Vec<LogSource> = Vec::new();
    add_source(&mut sources, "retail", GameFlavor::Retail, &config.flavors.retail);
    add_source(&mut sources, "retail_ptr", GameFlavor::Retail, &config.flavors.retail_ptr);
    add_source(&mut sources, "classic", GameFlavor::Classic, &config.flavors.classic);
    add_source(&mut sources, "classic_ptr", GameFlavor::Classic, &config.flavors.classic_ptr);
    add_source(&mut sources, "era", GameFlavor::Era, &config.flavors.era);
    assert(source_views(sources@) =~= log_sources(*config));
    sources
}

/// Whether `path` is the settings file that goes with a log folder.
pub open spec fn is_wtf_path(log_dir: Seq<char>, path: Option<String>) -> bool {
    match text::parent(log_dir) {
        Some(directory) => path matches Some(p) && p@ == text::joined(
            text::joined(directory, "WTF"@),
            "Config.wtf"@,
        ),
        None => path is None,
    }
}

/// The game's settings file beside a log folder.
pub fn config_wtf_path(log_dir: &str) -> (path: Option<String>)
    ensures
        is_wtf_path(log_dir@, path),
{
    match parent_of(log_dir) {
        Some(directory) => {
            let folder = join_path(&directory, "WTF");
            Some(join_path(&folder, "Config.wtf"))
        },
        None => None,
    }
}

/// The line turns advanced combat logging on.
pub open spec fn turns_logging_on(line: Seq<char>) -> bool {
    let trimmed = text::trim(line);
    &&& text::has_prefix(trimmed, "SET advancedCombatLogging"@)
    &&& trimmed.skip(text::after_last(' ', trimmed, trimmed.len() as int)) == "\"1\""@
}

/// Some line of the game's settings turns advanced combat logging on.
pub open spec fn logging_turned_on(settings: Seq<char>) -> bool
    decreases settings.len(),
{
    let at = text::first_index(settings, '\n');
    ||| turns_logging_on(settings.take(at))
    ||| 0 <= at < settings.len() && logging_turned_on(settings.skip(at + 1))
}

fn line_turns_on(chars: &Vec<char>, from: usize, to: usize) -> (on: bool)
    requires
        from <= to <= chars@.len(),
    ensures
        on == turns_logging_on(chars@.subrange(from as int, to as int)),
{
    let (low, high) = trim_bounds(chars, from, to);
    let line = text_between(chars, low, high);
    let ghost trimmed = line@;
    if !starts_with(&line, "SET advancedCombatLogging") {
        return false;
    }
    let own = chars_of(&line);
    assert(own@.take(own@.len() as int) =~= trimmed);
    let start: usize = piece_start(' ', &own, own.len());
    let value = text_between(&own, start, own.len());
    assert(value@ =~= trimmed.skip(start as int));
    same_text(&value, "\"1\"")
}

/// Whether the game's settings turn advanced combat logging on.
pub fn advanced_logging_enabled(settings: &str) -> (on: bool)
    ensures
        on == logging_turned_on(settings@),
{
    let chars = chars_of(settings);
    let mut from: usize = 0;
    assert(chars@.subrange(0, chars@.len() as int) =~= settings@);
    loop
        invariant
            from <= chars@.len(),
            logging_turned_on(settings@) == logging_turned_on(
                chars@.subrange(from as int, chars@.len() as int),
            ),
        decreases chars@.len() - from,
    {
        let ghost rest = chars@.subrange(from as int, chars@.len() as int);
        let at: usize = find_between(&chars, from, chars.len(), '\n');
        assert(rest.take(at - from) =~= chars@.subrange(from as int, at as int));
        if line_turns_on(&chars, from, at) {
            return true;
        }
        if at == chars.len() {
            return false;
        }
        assert(rest.skip(at - from + 1) =~= chars@.subrange(at + 1, chars@.len() as int));
        from = at + 1;
    }
}

} // verus!
