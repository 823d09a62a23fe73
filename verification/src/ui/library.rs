//! The library view: the rows of a category, its columns, and what the
//! actions on selected rows ask for.
use std::sync::Arc;

use vstd::prelude::*;

use crate::coordinator::{AppSnapshot, Command};
use crate::domain;
use crate::domain::{
    copy_text, ActivityDetails, Category, CorrelatedActivity, LibraryEntry, Outcome, RecordingId,
};
use crate::text;
use crate::text::{decimal_text, push_decimal, same_text, trimmed};
use crate::ui::status;
use crate::ui::status::clock_label;

verus! {

/// What the player area needs when a single row is chosen.
#[derive(Clone, Debug, PartialEq, Eq)]
pub struct Selection {
    pub id: RecordingId,
    /// Correlated local POV ids (primary first) for the viewpoint selector.
    pub viewpoints: Vec<RecordingId>,
}

/// Column families: the selected category maps to one family, which decides
/// the column set.
#[derive(Clone, Copy, Debug, PartialEq, Eq, Structural)]
pub enum Family {
    Raid,
    Dungeon,
    Pvp,
    Clip,
    Manual,
}

pub open spec fn spec_family(category: Category) -> Family {
    match category {
        Category::Raids => Family::Raid,
        Category::MythicPlus => Family::Dungeon,
        Category::Clip => Family::Clip,
        Category::Manual => Family::Manual,
        _ => Family::Pvp,
    }
}

pub fn family_of(category: Category) -> (family: Family)
    ensures
        family == spec_family(category),
{
    match category {
        Category::Raids => Family::Raid,
        Category::MythicPlus => Family::Dungeon,
        Category::TwoVTwo
        | Category::ThreeVThree
        | Category::FiveVFive
        | Category::Skirmish
        | Category::SoloShuffle
        | Category::Battlegrounds => Family::Pvp,
        Category::Clip => Family::Clip,
        Category::Manual => Family::Manual,
    }
}

pub open spec fn spec_outcome_rank(outcome: Outcome) -> u8 {
    match outcome {
        Outcome::Win => 0,
        Outcome::Complete => 0,
        Outcome::Loss => 1,
        Outcome::Abandoned => 1,
        Outcome::Unknown => 2,
    }
}

pub fn outcome_rank(outcome: Outcome) -> (rank: u8)
    ensures
        rank == spec_outcome_rank(outcome),
{
    match outcome {
        Outcome::Win | Outcome::Complete => 0,
        Outcome::Loss | Outcome::Abandoned => 1,
        Outcome::Unknown => 2,
    }
}

pub open spec fn spec_difficulty_rank(id: Option<u32>) -> u8 {
    match id {
        Some(17) => 0,
        Some(14) => 1,
        Some(15) => 2,
        Some(16) => 3,
        _ => 4,
    }
}

/// Raid difficulties from the easiest: LFR, Normal, Heroic, Mythic, then the
/// unknown ones.
pub fn difficulty_rank(id: Option<u32>) -> (rank: u8)
    ensures
        rank == spec_difficulty_rank(id),
{
    match id {
        Some(17) => 0,
        Some(14) => 1,
        Some(15) => 2,
        Some(16) => 3,
        _ => 4,
    }
}

/// A difficulty's stored name, or else the one its number has.
pub open spec fn difficulty_words(id: Option<u32>, stored: Option<Seq<char>>) -> Seq<char> {
    if stored matches Some(name) && name.len() > 0 {
        stored->0
    } else {
        match id {
            Some(17) => "LFR"@,
            Some(14) => "Normal"@,
            Some(15) => "Heroic"@,
            Some(16) => "Mythic"@,
            _ => ""@,
        }
    }
}

pub fn raid_difficulty_label(id: Option<u32>, stored: &Option<String>) -> (label: String)
    ensures
        label@ == difficulty_words(id, domain::text_view(*stored)),
{
    match stored {
        Some(name) => {
            if !name.as_str().is_empty() {
                return name.clone();
            }
        },
        None => {},
    }
    (match id {
        Some(17) => "LFR",
        Some(14) => "Normal",
        Some(15) => "Heroic",
        Some(16) => "Mythic",
        _ => "",
    }).to_owned()
}

/// A duration as `m:ss`, or `h:mm:ss` from one hour on.
pub fn format_duration(ms: u64) -> (label: String)
    ensures
        label@ == status::clock((ms / 1000) as nat),
{
    clock_label(ms / 1000)
}

/// Whose recording it is, or else what it is called.
pub open spec fn details_words(entry: LibraryEntry) -> Seq<char> {
    match entry.player {
        Some(player) => if player.name@.len() > 0 {
            player.name@
        } else {
            entry.title@
        },
        None => entry.title@,
    }
}

pub fn details_line(entry: &LibraryEntry) -> (line: String)
    ensures
        line@ == details_words(*entry),
{
    match &entry.player {
        Some(player) => if !player.name.as_str().is_empty() {
            player.name.clone()
        } else {
            entry.title.clone()
        },
        None => entry.title.clone(),
    }
}

pub open spec fn win_loss_words(outcome: Outcome) -> Seq<char> {
    match outcome {
        Outcome::Win => "Win"@,
        Outcome::Loss => "Loss"@,
        _ => ""@,
    }
}

fn win_loss(outcome: Outcome) -> (label: String)
    ensures
        label@ == win_loss_words(outcome),
{
    (match outcome {
        Outcome::Win => "Win",
        Outcome::Loss => "Loss",
        _ => "",
    }).to_owned()
}

/// How an activity ended.
pub open spec fn result_words(entry: LibraryEntry) -> Seq<char> {
    match entry.details {
        ActivityDetails::Raid { .. } => if entry.outcome == Outcome::Win {
            "Kill"@
        } else {
            "Wipe"@
        },
        ActivityDetails::Dungeon { upgrade_level, .. } => if entry.outcome != Outcome::Complete {
            "Abandoned"@
        } else {
            match upgrade_level {
                Some(level) if level > 0 => "Timed +"@ + text::decimal(level as nat),
                _ => "Depleted"@,
            }
        },
        ActivityDetails::SoloRounds { rounds_won, rounds_played, .. } => match (
            rounds_won,
            rounds_played,
        ) {
            (Some(won), Some(played)) => text::decimal(won as nat) + "/"@ + text::decimal(
                played as nat,
            ),
            _ => win_loss_words(entry.outcome),
        },
        _ => win_loss_words(entry.outcome),
    }
}

pub fn result_label(entry: &LibraryEntry) -> (label: String)
    ensures
        label@ == result_words(*entry),
{
    match &entry.details {
        ActivityDetails::Raid { .. } => if entry.outcome == Outcome::Win {
            "Kill".to_owned()
        } else {
            "Wipe".to_owned()
        },
        ActivityDetails::Dungeon { upgrade_level, .. } => {
            if entry.outcome != Outcome::Complete {
                return "Abandoned".to_owned();
            }
            match upgrade_level {
                Some(level) => {
                    if *level > 0 {
                        let mut label = "Timed +".to_owned();
                        push_decimal(&mut label, *level as u64);
                        return label;
                    }
                },
                None => {},
            }
            "Depleted".to_owned()
        },
        ActivityDetails::SoloRounds { rounds_won, rounds_played, .. } => match (
            *rounds_won,
            *rounds_played,
        ) {
            (Some(won), Some(played)) => {
                let mut label = decimal_text(won as u64);
                label.append("/");
                push_decimal(&mut label, played as u64);
                label
            },
            _ => win_loss(entry.outcome),
        },
        _ => win_loss(entry.outcome),
    }
}

/// The name of a keystone affix.
#[derive(Clone, Debug, PartialEq, Eq)]
pub struct AffixName {
    pub id: u32,
    pub name: String,
}

/// The label of a category.
#[derive(Clone, Debug, PartialEq, Eq)]
pub struct CategoryLabel {
    pub category: Category,
    pub label: String,
}

/// Names that rows show and the recordings do not hold.
#[derive(Clone, Debug, PartialEq, Eq)]
pub struct RowNames {
    pub affixes: Vec<AffixName>,
    pub categories: Vec<CategoryLabel>,
}

/// An affix by its name, or by its number where it has none here.
pub open spec fn affix_word(names: Seq<AffixName>, id: u32) -> Seq<char>
    decreases names.len(),
{
    if names.len() == 0 {
        text::decimal(id as nat)
    } else if names[0].id == id {
        names[0].name@
    } else {
        affix_word(names.skip(1), id)
    }
}

fn affix_text(names: &Vec<AffixName>, id: u32) -> (word: String)
    ensures
        word@ == affix_word(names@, id),
{
    let mut i: usize = 0;
    assert(names@.skip(0) =~= names@);
    while i < names.len()
        invariant
            i <= names@.len(),
            affix_word(names@, id) == affix_word(names@.skip(i as int), id),
        decreases names@.len() - i,
    {
        assert(names@.skip(i as int).skip(1) =~= names@.skip(i + 1));
        if names[i].id == id {
            return names[i].name.clone();
        }
        i = i + 1;
    }
    decimal_text(id as u64)
}

/// A category's label, or nothing where it has none here.
pub open spec fn category_word(labels: Seq<CategoryLabel>, category: Category) -> Seq<char>
    decreases labels.len(),
{
    if labels.len() == 0 {
        seq![]
    } else if labels[0].category == category {
        labels[0].label@
    } else {
        category_word(labels.skip(1), category)
    }
}

fn category_text(labels: &Vec<CategoryLabel>, category: Category) -> (word: String)
    ensures
        word@ == category_word(labels@, category),
{
    let mut i: usize = 0;
    assert(labels@.skip(0) =~= labels@);
    while i < labels.len()
        invariant
            i <= labels@.len(),
            category_word(labels@, category) == category_word(labels@.skip(i as int), category),
        decreases labels@.len() - i,
    {
        assert(labels@.skip(i as int).skip(1) =~= labels@.skip(i + 1));
        if labels[i].category == category {
            return labels[i].label.clone();
        }
        i = i + 1;
    }
    let word = String::new();
    assert(word@ =~= seq![]);
    word
}

/// A keystone's affixes, by name, with commas between them.
pub open spec fn affix_words(names: Seq<AffixName>, affixes: Seq<u32>) -> Seq<char> {
    text::interleaved(affixes.map_values(|id: u32| affix_word(names, id)), ", "@)
}

pub fn affixes_label(affixes: &Vec<u32>, names: &Vec<AffixName>) -> (label: String)
    ensures
        label@ == affix_words(names@, affixes@),
{
    let ghost all = affixes@.map_values(|id: u32| affix_word(names@, id));
    let mut label = String::new();
    let mut i: usize = 0;
    assert(label@ =~= text::interleaved(all.take(0), ", "@));
    while i < affixes.len()
        invariant
            i <= affixes@.len(),
            all == affixes@.map_values(|id: u32| affix_word(names@, id)),
            label@ == text::interleaved(all.take(i as int), ", "@),
        decreases affixes@.len() - i,
    {
        if i > 0 {
            label.append(", ");
        }
        label.append(&affix_text(names, affixes[i]));
        i = i + 1;
        assert(all.take(i as int).drop_last() =~= all.take(i - 1));
        assert(label@ =~= text::interleaved(all.take(i as int), ", "@));
    }
    assert(all.take(i as int) =~= all);
    label
}

/// The display fields of a family; only the family's columns read them.
#[derive(Clone, Debug, PartialEq, Eq)]
pub struct CategoryFields {
    pub encounter: String,
    pub place: String,
    pub pull: Option<u32>,
    pub difficulty: String,
    pub difficulty_order: u8,
    pub level: i64,
    pub affixes: String,
    pub kind: String,
    pub source: String,
}

/// The display fields, with their texts as characters.
pub struct FieldsModel {
    pub encounter: Seq<char>,
    pub place: Seq<char>,
    pub pull: Option<u32>,
    pub difficulty: Seq<char>,
    pub difficulty_order: u8,
    pub level: i64,
    pub affixes: Seq<char>,
    pub kind: Seq<char>,
    pub source: Seq<char>,
}

impl View for CategoryFields {
    type V = FieldsModel;

    open spec fn view(&self) -> FieldsModel {
        FieldsModel {
            encounter: self.encounter@,
            place: self.place@,
            pull: self.pull,
            difficulty: self.difficulty@,
            difficulty_order: self.difficulty_order,
            level: self.level,
            affixes: self.affixes@,
            kind: self.kind@,
            source: self.source@,
        }
    }
}

/// A text, or none where it is missing.
pub open spec fn or_empty(value: Option<String>) -> Seq<char> {
    match value {
        Some(value) => value@,
        None => seq![],
    }
}

fn text_or_empty(value: &Option<String>) -> (out: String)
    ensures
        out@ == or_empty(*value),
{
    match value {
        Some(value) => value.clone(),
        None => {
            let out = String::new();
            assert(out@ =~= seq![]);
            out
        },
    }
}

/// Display fields that show nothing.
pub open spec fn blank_fields() -> FieldsModel {
    FieldsModel {
        encounter: seq![],
        place: seq![],
        pull: None,
        difficulty: seq![],
        difficulty_order: 4,
        level: 0,
        affixes: seq![],
        kind: seq![],
        source: seq![],
    }
}

/// What a recording shows in the columns of a family.
pub open spec fn fields_of(entry: LibraryEntry, family: Family, names: RowNames) -> FieldsModel {
    match (entry.details, family) {
        (
            ActivityDetails::Raid {
                zone_name,
                encounter_name,
                difficulty_id,
                difficulty,
                pull,
                ..
            },
            Family::Raid,
        ) => FieldsModel {
            encounter: or_empty(encounter_name),
            place: or_empty(zone_name),
            pull,
            difficulty: difficulty_words(difficulty_id, domain::text_view(difficulty)),
            difficulty_order: spec_difficulty_rank(difficulty_id),
            ..blank_fields()
        },
        (
            ActivityDetails::Dungeon { dungeon_name, keystone_level, affixes, .. },
            Family::Dungeon,
        ) => FieldsModel {
            place: or_empty(dungeon_name),
            level: match keystone_level {
                Some(level) => level as i64,
                None => 0,
            },
            affixes: affix_words(names.affixes@, affixes@),
            ..blank_fields()
        },
        (ActivityDetails::ArenaOrBattleground { map_name, .. }, Family::Pvp) => FieldsModel {
            place: or_empty(map_name),
            ..blank_fields()
        },
        (ActivityDetails::SoloRounds { map_name, .. }, Family::Pvp) => FieldsModel {
            place: or_empty(map_name),
            ..blank_fields()
        },
        (
            ActivityDetails::Clip { source_category, source_title, .. },
            Family::Clip,
        ) => FieldsModel {
            kind: category_word(names.categories@, source_category),
            source: or_empty(source_title),
            ..blank_fields()
        },
        (_, Family::Manual) => FieldsModel { kind: "Manual"@, ..blank_fields() },
        _ => blank_fields(),
    }
}

fn no_fields() -> (fields: CategoryFields)
    ensures
        fields@ == blank_fields(),
{
    let fields = CategoryFields {
        encounter: String::new(),
        place: String::new(),
        pull: None,
        difficulty: String::new(),
        difficulty_order: 4,
        level: 0,
        affixes: String::new(),
        kind: String::new(),
        source: String::new(),
    };
    assert(fields.encounter@ =~= seq![]);
    assert(fields.place@ =~= seq![]);
    assert(fields.difficulty@ =~= seq![]);
    assert(fields.affixes@ =~= seq![]);
    assert(fields.kind@ =~= seq![]);
    assert(fields.source@ =~= seq![]);
    fields
}

pub fn category_fields(entry: &LibraryEntry, family: Family, names: &RowNames) -> (fields:
    CategoryFields)
    ensures
        fields@ == fields_of(*entry, family, *names),
{
    let mut fields = no_fields();
    match (&entry.details, family) {
        (
            ActivityDetails::Raid {
                zone_name,
                encounter_name,
                difficulty_id,
                difficulty,
                pull,
                ..
            },
            Family::Raid,
        ) => {
            fields.encounter = text_or_empty(encounter_name);
            fields.place = text_or_empty(zone_name);
            fields.pull = *pull;
            fields.difficulty = raid_difficulty_label(*difficulty_id, difficulty);
            fields.difficulty_order = difficulty_rank(*difficulty_id);
        },
        (
            ActivityDetails::Dungeon { dungeon_name, keystone_level, affixes, .. },
            Family::Dungeon,
        ) => {
            fields.place = text_or_empty(dungeon_name);
            fields.level = match keystone_level {
                Some(level) => *level as i64,
                None => 0,
            };
            fields.affixes = affixes_label(affixes, &names.affixes);
        },
        (ActivityDetails::ArenaOrBattleground { map_name, .. }, Family::Pvp) => {
            fields.place = text_or_empty(map_name);
        },
        (ActivityDetails::SoloRounds { map_name, .. }, Family::Pvp) => {
            fields.place = text_or_empty(map_name);
        },
        (ActivityDetails::Clip { source_category, source_title, .. }, Family::Clip) => {
            fields.kind = category_text(&names.categories, *source_category);
            fields.source = text_or_empty(source_title);
        },
        (_, Family::Manual) => {
            fields.kind = "Manual".to_owned();
        },
        _ => {},
    }
    fields
}

/// Everything one table row displays, computed ahead so that drawing a cell
/// only reads fields.
#[derive(Clone, Debug, PartialEq, Eq)]
pub struct RowModel {
    pub id: RecordingId,
    pub media_path: String,
    /// Primary + correlated POV ids, the target of protect/delete.
    pub correlated_ids: Vec<RecordingId>,
    pub protected: bool,
    pub all_protected: bool,
    pub tag: Option<String>,
    pub details: String,
    pub result: String,
    pub date_ms: i64,
    pub duration_ms: u64,
    pub fields: CategoryFields,
    pub outcome_order: u8,
    /// The recording player's specialization, for the class-colored name.
    pub spec_id: Option<u32>,
}

/// The identities of a list, as characters.
pub open spec fn id_views(ids: Seq<RecordingId>) -> Seq<Seq<char>> {
    ids.map_values(|id: RecordingId| id@)
}

/// The recording of the library with this identity; of several, the last.
pub open spec fn entry_by_id(entries: Seq<Arc<LibraryEntry>>, id: Seq<char>) -> Option<
    LibraryEntry,
>
    decreases entries.len(),
{
    if entries.len() == 0 {
        None
    } else if entries.last().id@ == id {
        Some(*entries.last())
    } else {
        entry_by_id(entries.drop_last(), id)
    }
}

fn find_by_id<'a>(entries: &'a Vec<Arc<LibraryEntry>>, id: &RecordingId) -> (entry: Option<
    &'a LibraryEntry,
>)
    ensures
        match entry {
            Some(entry) => entry_by_id(entries@, id@) == Some(*entry),
            None => entry_by_id(entries@, id@) is None,
        },
{
    let mut i: usize = entries.len();
    assert(entries@.take(i as int) =~= entries@);
    while i > 0
        invariant
            i <= entries@.len(),
            entry_by_id(entries@, id@) == entry_by_id(entries@.take(i as int), id@),
        decreases i,
    {
        assert(entries@.take(i as int).drop_last() =~= entries@.take(i - 1));
        i = i - 1;
        if entries[i].id.same_as(id) {
            return Some(&*entries[i]);
        }
    }
    None
}

/// Every viewpoint of an activity that the library holds is protected.
pub open spec fn viewpoints_protected(
    entries: Seq<Arc<LibraryEntry>>,
    viewpoints: Seq<RecordingId>,
) -> bool {
    forall|i: int|
        0 <= i < viewpoints.len() ==> (entry_by_id(
            entries,
            (#[trigger] viewpoints[i])@,
        ) matches Some(entry) ==> entry.protected)
}

fn all_viewpoints_protected(
    entries: &Vec<Arc<LibraryEntry>>,
    viewpoints: &Vec<RecordingId>,
) -> (protected: bool)
    ensures
        protected == viewpoints_protected(entries@, viewpoints@),
{
    let mut i: usize = 0;
    while i < viewpoints.len()
        invariant
            i <= viewpoints@.len(),
            forall|j: int|
                0 <= j < i ==> (entry_by_id(
                    entries@,
                    (#[trigger] viewpoints@[j])@,
                ) matches Some(entry) ==> entry.protected),
        decreases viewpoints@.len() - i,
    {
        match find_by_id(entries, &viewpoints[i]) {
            Some(entry) => {
                if !entry.protected {
                    assert(viewpoints@[i as int]@ == viewpoints[i as int]@);
                    return false;
                }
            },
            None => {},
        }
        i = i + 1;
    }
    true
}

/// `row` shows an activity: its primary recording and its other viewpoints.
pub open spec fn is_row(
    row: RowModel,
    primary: LibraryEntry,
    viewpoints: Seq<RecordingId>,
    entries: Seq<Arc<LibraryEntry>>,
    family: Family,
    names: RowNames,
) -> bool {
    &&& row.id@ == primary.id@
    &&& row.media_path@ == primary.media_path@
    &&& id_views(row.correlated_ids@) == seq![primary.id@] + id_views(viewpoints)
    &&& row.protected == primary.protected
    &&& row.all_protected == (primary.protected && viewpoints_protected(entries, viewpoints))
    &&& domain::text_view(row.tag) == domain::text_view(primary.tag)
    &&& row.details@ == details_words(primary)
    &&& row.result@ == result_words(primary)
    &&& row.date_ms == primary.start_unix_ms
    &&& row.duration_ms == primary.duration_ms
    &&& row.fields@ == fields_of(primary, family, names)
    &&& row.outcome_order == spec_outcome_rank(primary.outcome)
    &&& row.spec_id == (match primary.player {
        Some(player) => player.spec_id,
        None => None,
    })
}

fn row_of(
    primary: &LibraryEntry,
    viewpoints: &Vec<RecordingId>,
    entries: &Vec<Arc<LibraryEntry>>,
    family: Family,
    names: &RowNames,
) -> (row: RowModel)
    ensures
        is_row(row, *primary, viewpoints@, entries@, family, *names),
{
    let mut correlated_ids: Vec<RecordingId> = Vec::new();
    correlated_ids.push(primary.id.duplicate());
    let mut i: usize = 0;
    assert(id_views(correlated_ids@) =~= seq![primary.id@] + id_views(viewpoints@.take(0)));
    while i < viewpoints.len()
        invariant
            i <= viewpoints@.len(),
            id_views(correlated_ids@) == seq![primary.id@] + id_views(viewpoints@.take(i as int)),
        decreases viewpoints@.len() - i,
    {
        let ghost before = correlated_ids@;
        correlated_ids.push(viewpoints[i].duplicate());
        i = i + 1;
        assert(id_views(correlated_ids@) =~= id_views(before).push(viewpoints@[i - 1]@));
        assert(id_views(viewpoints@.take(i as int)) =~= id_views(viewpoints@.take(i - 1)).push(
            viewpoints@[i - 1]@,
        ));
        assert(id_views(correlated_ids@) =~= seq![primary.id@] + id_views(
            viewpoints@.take(i as int),
        ));
    }
    assert(viewpoints@.take(i as int) =~= viewpoints@);
    RowModel {
        id: primary.id.duplicate(),
        media_path: primary.media_path.clone(),
        correlated_ids,
        protected: primary.protected,
        all_protected: primary.protected && all_viewpoints_protected(entries, viewpoints),
        tag: copy_text(&primary.tag),
        details: details_line(primary),
        result: result_label(primary),
        date_ms: primary.start_unix_ms,
        duration_ms: primary.duration_ms,
        fields: category_fields(primary, family, names),
        outcome_order: outcome_rank(primary.outcome),
        spec_id: match &primary.player {
            Some(player) => player.spec_id,
            None => None,
        },
    }
}

/// The activities whose primary recording is of a category.
pub open spec fn activities_of(
    correlations: Seq<CorrelatedActivity>,
    entries: Seq<Arc<LibraryEntry>>,
    category: Category,
) -> Seq<CorrelatedActivity>
    decreases correlations.len(),
{
    if correlations.len() == 0 {
        seq![]
    } else {
        let before = activities_of(correlations.drop_last(), entries, category);
        let last = correlations.last();
        match entry_by_id(entries, last.primary_id@) {
            Some(entry) if entry.category == category => before.push(last),
            _ => before,
        }
    }
}

/// Where a row of a moment goes among rows that have the newest first: behind
/// those that are as new.
pub open spec fn newest_place(rows: Seq<RowModel>, date_ms: i64) -> int
    decreases rows.len(),
{
    if rows.len() == 0 {
        0
    } else if rows.last().date_ms < date_ms {
        newest_place(rows.drop_last(), date_ms)
    } else {
        rows.len() as int
    }
}

/// Rows with the newest first; those of one moment keep their order.
pub open spec fn newest_first(rows: Seq<RowModel>) -> Seq<RowModel>
    decreases rows.len(),
{
    if rows.len() == 0 {
        seq![]
    } else {
        let before = newest_first(rows.drop_last());
        before.insert(newest_place(before, rows.last().date_ms), rows.last())
    }
}

proof fn lemma_newest_place(rows: Seq<RowModel>, date_ms: i64)
    requires
        forall|i: int, j: int| 0 <= i < j < rows.len() ==> rows[i].date_ms >= rows[j].date_ms,
    ensures
        0 <= newest_place(rows, date_ms) <= rows.len(),
        forall|i: int|
            0 <= i < newest_place(rows, date_ms) ==> (#[trigger] rows[i]).date_ms >= date_ms,
        forall|i: int|
            newest_place(rows, date_ms) <= i < rows.len() ==> (#[trigger] rows[i]).date_ms
                < date_ms,
    decreases rows.len(),
{
    if rows.len() > 0 && rows.last().date_ms < date_ms {
        let front = rows.drop_last();
        lemma_newest_place(front, date_ms);
        assert forall|i: int| 0 <= i < newest_place(rows, date_ms) implies (
        #[trigger] rows[i]).date_ms >= date_ms by {
            assert(rows[i] == front[i]);
        }
        assert forall|i: int| newest_place(rows, date_ms) <= i < rows.len() implies (
        #[trigger] rows[i]).date_ms < date_ms by {
            if i < front.len() {
                assert(rows[i] == front[i]);
            }
        }
    }
}

/// Rows shown newest first are the rows that were there, and none is above a
/// newer one.
pub proof fn rows_are_shown_newest_first(rows: Seq<RowModel>)
    ensures
        newest_first(rows).len() == rows.len(),
        newest_first(rows).to_multiset() == rows.to_multiset(),
        forall|i: int, j: int|
            0 <= i < j < rows.len() ==> newest_first(rows)[i].date_ms
                >= newest_first(rows)[j].date_ms,
    decreases rows.len(),
{
    broadcast use vstd::seq_lib::group_to_multiset_ensures;

    if rows.len() > 0 {
        let front = rows.drop_last();
        rows_are_shown_newest_first(front);
        let before = newest_first(front);
        let row = rows.last();
        let place = newest_place(before, row.date_ms);
        lemma_newest_place(before, row.date_ms);
        assert(rows =~= front.push(row));
        assert(before.insert(place, row).to_multiset() =~= before.to_multiset().insert(row)) by {
            assert(before =~= before.take(place) + before.skip(place));
            assert(before.insert(place, row) =~= before.take(place).push(row) + before.skip(
                place,
            ));
            vstd::seq_lib::lemma_multiset_commutative(before.take(place), before.skip(place));
            vstd::seq_lib::lemma_multiset_commutative(
                before.take(place).push(row),
                before.skip(place),
            );
        }
    } else {
        assert(newest_first(rows) =~= rows);
    }
}

/// Rows of one moment keep the order they came in.
pub proof fn rows_of_one_moment_keep_their_order(rows: Seq<RowModel>, date_ms: i64)
    ensures
        newest_first(rows).filter(|row: RowModel| row.date_ms == date_ms) == rows.filter(
            |row: RowModel| row.date_ms == date_ms,
        ),
    decreases rows.len(),
{
    let same = |row: RowModel| row.date_ms == date_ms;
    if rows.len() > 0 {
        let front = rows.drop_last();
        rows_of_one_moment_keep_their_order(front, date_ms);
        rows_are_shown_newest_first(front);
        let before = newest_first(front);
        let row = rows.last();
        let place = newest_place(before, row.date_ms);
        lemma_newest_place(before, row.date_ms);
        let head = before.take(place);
        let tail = before.skip(place);
        assert(before =~= head + tail);
        assert(before.insert(place, row) =~= head.push(row) + tail);
        Seq::filter_distributes_over_add(head, tail, same);
        Seq::filter_distributes_over_add(head.push(row), tail, same);
        assert(rows =~= front.push(row));
        front.lemma_filter_push(row, same);
        head.lemma_filter_push(row, same);
        if same(row) {
            tail.lemma_all_neg_filter_empty(same);
            assert(head.filter(same) + tail.filter(same) =~= head.filter(same));
            assert(head.push(row).filter(same) + tail.filter(same) =~= head.filter(same).push(row));
        }
    } else {
        assert(newest_first(rows) =~= rows);
    }
}

fn insert_newest(rows: &mut Vec<RowModel>, row: RowModel)
    requires
        forall|i: int, j: int|
            0 <= i < j < old(rows)@.len() ==> old(rows)@[i].date_ms >= old(rows)@[j].date_ms,
    ensures
        final(rows)@ == old(rows)@.insert(newest_place(old(rows)@, row.date_ms), row),
{
    let mut place: usize = rows.len();
    assert(rows@.take(place as int) =~= rows@);
    while place > 0 && rows[place - 1].date_ms < row.date_ms
        invariant
            place <= rows@.len(),
            rows@ == old(rows)@,
            newest_place(rows@, row.date_ms) == newest_place(
                rows@.take(place as int),
                row.date_ms,
            ),
        decreases place,
    {
        assert(rows@.take(place as int).drop_last() =~= rows@.take(place - 1));
        place = place - 1;
    }
    rows.insert(place, row);
}

/// A row shows an activity whose primary recording the library holds.
pub open spec fn shows(
    row: RowModel,
    activity: CorrelatedActivity,
    entries: Seq<Arc<LibraryEntry>>,
    family: Family,
    names: RowNames,
) -> bool {
    match entry_by_id(entries, activity.primary_id@) {
        Some(primary) => is_row(row, primary, activity.local_pov_ids@, entries, family, names),
        None => false,
    }
}

/// The rows show these activities, in their order.
pub open spec fn are_rows(
    rows: Seq<RowModel>,
    activities: Seq<CorrelatedActivity>,
    entries: Seq<Arc<LibraryEntry>>,
    family: Family,
    names: RowNames,
) -> bool {
    &&& rows.len() == activities.len()
    &&& forall|i: int|
        0 <= i < rows.len() ==> shows(
            #[trigger] rows[i],
            activities[i],
            entries,
            family,
            names,
        )
}

/// Build one row per correlated activity of `category`, newest first.
pub fn build_rows(snapshot: &AppSnapshot, category: Category, names: &RowNames) -> (rows: Vec<
    RowModel,
>)
    ensures
        exists|listed: Seq<RowModel>|
            rows@ == newest_first(listed) && #[trigger] are_rows(
                listed,
                activities_of(snapshot.correlations@, snapshot.entries@, category),
                snapshot.entries@,
                spec_family(category),
                *names,
            ),
{
    let family = family_of(category);
    let entries: &Vec<Arc<LibraryEntry>> = &snapshot.entries;
    let correlations: &Vec<CorrelatedActivity> = &snapshot.correlations;
    let mut rows: Vec<RowModel> = Vec::new();
    let ghost mut listed: Seq<RowModel> = seq![];
    let mut i: usize = 0;
    assert(newest_first(listed) =~= rows@);
    while i < correlations.len()
        invariant
            i <= correlations@.len(),
            family == spec_family(category),
            entries@ == snapshot.entries@,
            correlations@ == snapshot.correlations@,
            rows@ == newest_first(listed),
            are_rows(
                listed,
                activities_of(correlations@.take(i as int), entries@, category),
                entries@,
                family,
                *names,
            ),
        decreases correlations@.len() - i,
    {
        let correlation = &correlations[i];
        assert(correlations@.take(i + 1).drop_last() =~= correlations@.take(i as int));
        assert(correlations@.take(i + 1).last() == *correlation);
        match find_by_id(entries, &correlation.primary_id) {
            Some(primary) => {
                if primary.category == category {
                    let row = row_of(primary, &correlation.local_pov_ids, entries, family, names);
                    proof {
                        rows_are_shown_newest_first(listed);
                        let longer = listed.push(row);
                        assert(longer.drop_last() =~= listed);
                        let shown = activities_of(correlations@.take(i as int), entries@, category);
                        let all = shown.push(*correlation);
                        assert forall|j: int| 0 <= j < longer.len() implies shows(
                            #[trigger] longer[j],
                            all[j],
                            entries@,
                            family,
                            *names,
                        ) by {
                            if j < listed.len() {
                                assert(longer[j] == listed[j]);
                            }
                        }
                        listed = longer;
                    }
                    insert_newest(&mut rows, row);
                }
            },
            None => {},
        }
        i = i + 1;
    }
    assert(correlations@.take(i as int) =~= correlations@);
    rows
}

/// The rows of a category that a snapshot makes, newest first.
pub open spec fn rows_for(
    rows: Seq<RowModel>,
    snapshot: AppSnapshot,
    category: Category,
    names: RowNames,
) -> bool {
    exists|listed: Seq<RowModel>|
        rows == newest_first(listed) && #[trigger] are_rows(
            listed,
            activities_of(snapshot.correlations@, snapshot.entries@, category),
            snapshot.entries@,
            spec_family(category),
            names,
        )
}

/// Two rows agree in what makes the table worth redrawing. Changes of the
/// correlated viewpoints still refresh the player's viewpoint selector.
pub open spec fn unchanged_row(a: RowModel, b: RowModel) -> bool {
    &&& a.id@ == b.id@
    &&& a.protected == b.protected
    &&& a.all_protected == b.all_protected
    &&& domain::text_view(a.tag) == domain::text_view(b.tag)
    &&& a.correlated_ids@.len() == b.correlated_ids@.len()
    &&& a.date_ms == b.date_ms
}

/// Nothing the table shows changed.
pub open spec fn unchanged_rows(a: Seq<RowModel>, b: Seq<RowModel>) -> bool {
    &&& a.len() == b.len()
    &&& forall|i: int| 0 <= i < a.len() ==> unchanged_row(#[trigger] a[i], b[i])
}

fn same_rows(a: &Vec<RowModel>, b: &Vec<RowModel>) -> (same: bool)
    ensures
        same == unchanged_rows(a@, b@),
{
    if a.len() != b.len() {
        return false;
    }
    let mut i: usize = 0;
    while i < a.len()
        invariant
            i <= a@.len() == b@.len(),
            forall|j: int| 0 <= j < i ==> unchanged_row(#[trigger] a@[j], b@[j]),
        decreases a@.len() - i,
    {
        let x = &a[i];
        let y = &b[i];
        let same = x.id.same_as(&y.id) && x.protected == y.protected && x.all_protected
            == y.all_protected && crate::config::same_optional_text(&x.tag, &y.tag)
            && x.correlated_ids.len() == y.correlated_ids.len() && x.date_ms == y.date_ms;
        if !same {
            assert(!unchanged_row(a@[i as int], b@[i as int]));
            return false;
        }
        i = i + 1;
    }
    true
}

/// What the view holds between snapshots.
pub struct Library {
    pub category: Option<Category>,
    pub rows: Vec<RowModel>,
    /// A protect/tag/delete is in flight; the bulk bar stays disabled until
    /// the authoritative snapshot arrives.
    pub mutation_pending: bool,
    /// Cloud upload is set up, so the upload actions are offered.
    pub cloud_configured: bool,
    /// The labels of the chosen chips, each once.
    pub chips: Vec<String>,
    /// The first and the last moment shown.
    pub date_range: Option<(i64, i64)>,
}

/// What a snapshot changes in the view.
#[derive(Clone, Copy, Debug, PartialEq, Eq)]
pub struct LibraryUpdate {
    /// The category changed: chips, dates, selection and sorting are cleared.
    /// Inside, whether the columns change too.
    pub reset: Option<bool>,
    /// The rows changed.
    pub replace: bool,
}

impl Library {
    /// No chip is chosen twice, and a date range is not empty.
    pub open spec fn wf(self) -> bool {
        &&& text::texts(self.chips@).no_duplicates()
        &&& self.date_range matches Some(range) ==> range.0 <= range.1
    }

    pub fn new() -> (library: Library)
        ensures
            library.wf(),
            library.category is None,
            library.rows@.len() == 0,
            !library.mutation_pending,
            !library.cloud_configured,
            library.chips@.len() == 0,
            library.date_range is None,
    {
        Library {
            category: None,
            rows: Vec::new(),
            mutation_pending: false,
            cloud_configured: false,
            chips: Vec::new(),
            date_range: None,
        }
    }

    /// The snapshot selects another category than the view shows.
    pub open spec fn leaves(self, snapshot: AppSnapshot) -> bool {
        self.category != Some(snapshot.config.interface.selected_category)
    }

    /// What a snapshot makes of the view: another category starts afresh, and
    /// rows are rebuilt only where the library changed.
    pub open spec fn takes_in(
        self,
        snapshot: AppSnapshot,
        index_changed: bool,
        names: RowNames,
        after: Library,
        update: LibraryUpdate,
    ) -> bool {
        let category = snapshot.config.interface.selected_category;
        &&& after.category == Some(category)
        &&& !after.mutation_pending
        &&& after.cloud_configured == snapshot.cloud.configured
        &&& update.reset == (if self.leaves(snapshot) {
            Some(
                match self.category {
                    Some(previous) => spec_family(previous) != spec_family(category),
                    None => true,
                },
            )
        } else {
            None
        })
        &&& if self.leaves(snapshot) {
            after.chips@.len() == 0 && after.date_range is None
        } else {
            after.chips@ == self.chips@ && after.date_range == self.date_range
        }
        &&& if !self.leaves(snapshot) && !index_changed {
            !update.replace && after.rows@ == self.rows@
        } else {
            exists|fresh: Seq<RowModel>| #[trigger]
                rows_for(fresh, snapshot, category, names) && if !self.leaves(snapshot)
                    && unchanged_rows(fresh, self.rows@) {
                    !update.replace && after.rows@ == self.rows@
                } else {
                    update.replace && after.rows@ == fresh
                }
        }
    }

    /// Rebuild from the authoritative snapshot. Cheap when nothing relevant
    /// changed: progress, recorder-state and active-timeline snapshots do not
    /// change the library, and rows that show the same are kept.
    pub fn apply(&mut self, snapshot: &AppSnapshot, index_changed: bool, names: &RowNames) -> (update:
        LibraryUpdate)
        requires
            old(self).wf(),
        ensures
            final(self).wf(),
            old(self).takes_in(*snapshot, index_changed, *names, *final(self), update),
    {
        self.mutation_pending = false;
        self.cloud_configured = snapshot.cloud.configured;
        let category = snapshot.config.interface.selected_category;
        let previous = self.category;
        self.category = Some(category);
        let category_changed = match previous {
            Some(previous) => previous != category,
            None => true,
        };
        let mut reset: Option<bool> = None;
        if category_changed {
            self.chips = Vec::new();
            self.date_range = None;
            // Categories in one family share their column set, so 2v2 to 3v3
            // keeps its columns, and the widths the user dragged them to.
            reset = Some(
                match previous {
                    Some(previous) => family_of(previous) != family_of(category),
                    None => true,
                },
            );
        }
        if !category_changed && !index_changed {
            return LibraryUpdate { reset, replace: false };
        }
        let fresh = build_rows(snapshot, category, names);
        assert(rows_for(fresh@, *snapshot, category, *names));
        if !category_changed && same_rows(&fresh, &self.rows) {
            return LibraryUpdate { reset, replace: false };
        }
        self.rows = fresh;
        LibraryUpdate { reset, replace: true }
    }

    /// A chip is chosen once.
    pub open spec fn chooses(self, label: Seq<char>, after: Library, added: bool) -> bool {
        &&& added == !text::texts(self.chips@).contains(label)
        &&& text::texts(after.chips@) == (if added {
            text::texts(self.chips@).push(label)
        } else {
            text::texts(self.chips@)
        })
        &&& after == (Library { chips: after.chips, ..self })
    }

    /// Choose a chip; one that is chosen already changes nothing.
    pub fn add_chip(&mut self, label: &str) -> (added: bool)
        requires
            old(self).wf(),
        ensures
            final(self).wf(),
            old(self).chooses(label@, *final(self), added),
    {
        let mut i: usize = 0;
        while i < self.chips.len()
            invariant
                i <= self.chips@.len(),
                self.wf(),
                *self == *old(self),
                forall|j: int|
                    0 <= j < i ==> #[trigger] text::texts(self.chips@)[j] != label@,
            decreases self.chips@.len() - i,
        {
            if same_text(&self.chips[i], label) {
                assert(text::texts(self.chips@)[i as int] == label@);
                return false;
            }
            i = i + 1;
        }
        let ghost before = text::texts(self.chips@);
        self.chips.push(label.to_owned());
        assert(text::texts(self.chips@) =~= before.push(label@));
        true
    }

    /// Take a chip away.
    pub fn remove_chip(&mut self, label: &str)
        requires
            old(self).wf(),
        ensures
            final(self).wf(),
            text::texts(final(self).chips@) == without(text::texts(old(self).chips@), label@),
            *final(self) == (Library { chips: final(self).chips, ..*old(self) }),
    {
        let mut kept: Vec<String> = Vec::new();
        let mut i: usize = 0;
        assert(text::texts(kept@) =~= without(text::texts(self.chips@).take(0), label@));
        while i < self.chips.len()
            invariant
                i <= self.chips@.len(),
                *self == *old(self),
                text::texts(kept@) == without(text::texts(self.chips@).take(i as int), label@),
            decreases self.chips@.len() - i,
        {
            let ghost all = text::texts(self.chips@);
            let ghost before = text::texts(kept@);
            assert(all.take(i + 1).drop_last() =~= all.take(i as int));
            if !same_text(&self.chips[i], label) {
                kept.push(self.chips[i].clone());
                assert(text::texts(kept@) =~= before.push(all[i as int]));
            }
            i = i + 1;
        }
        proof {
            let all = text::texts(self.chips@);
            assert(all.take(i as int) =~= all);
            lemma_without(all, label@);
        }
        self.chips = kept;
    }

    /// Show everything again.
    pub fn clear_filters(&mut self)
        ensures
            final(self).wf(),
            final(self).chips@.len() == 0,
            final(self).date_range is None,
            *final(self) == (Library {
                chips: final(self).chips,
                date_range: None,
                ..*old(self)
            }),
    {
        self.chips = Vec::new();
        self.date_range = None;
    }

    /// Show every date again.
    pub fn clear_date_range(&mut self)
        ensures
            old(self).wf() ==> final(self).wf(),
            *final(self) == (Library { date_range: None, ..*old(self) }),
    {
        self.date_range = None;
    }

    /// The range of days that is shown from now on; an empty one is not taken.
    pub open spec fn takes_range(
        self,
        start_ms: i64,
        last_start_ms: i64,
        next_start_ms: Option<i64>,
        after: Library,
        taken: bool,
    ) -> bool {
        let end = match next_start_ms {
            Some(next) => next - 1,
            None => last_start_ms + 86_400_000 - 1,
        };
        &&& taken == (start_ms <= end)
        &&& after == (if taken {
            Library { date_range: Some((start_ms, end as i64)), ..self }
        } else {
            self
        })
    }

    /// Inclusive local-day boundaries: 00:00:00.000 of the first day to
    /// 23:59:59.999 of the last. The end is the start of the following local
    /// day minus a millisecond, so days on which the clock changes stay
    /// exactly one calendar day wide; where that day is not known, the last
    /// day counts 24 hours. A range that would be empty is not taken.
    pub fn apply_date_range(&mut self, start_ms: i64, last_start_ms: i64, next_start_ms: Option<
        i64,
    >) -> (taken: bool)
        requires
            next_start_ms matches Some(next) ==> next > i64::MIN,
            last_start_ms + 86_400_000 <= i64::MAX,
        ensures
            old(self).wf() ==> final(self).wf(),
            old(self).takes_range(start_ms, last_start_ms, next_start_ms, *final(self), taken),
    {
        let end: i64 = match next_start_ms {
            Some(next) => next - 1,
            None => last_start_ms + 86_400_000 - 1,
        };
        if start_ms <= end {
            self.date_range = Some((start_ms, end));
            true
        } else {
            false
        }
    }

    /// The row of active chips is shown.
    pub fn has_filter(&self) -> (filtered: bool)
        ensures
            filtered == (self.chips@.len() > 0 || self.date_range is Some),
    {
        self.chips.len() > 0 || self.date_range.is_some()
    }

    /// A change was handed to the coordinator, or was not because it is busy.
    pub fn sent(&mut self, accepted: bool)
        ensures
            old(self).wf() ==> final(self).wf(),
            *final(self) == (Library {
                mutation_pending: old(self).mutation_pending || accepted,
                ..*old(self)
            }),
    {
        if accepted {
            self.mutation_pending = true;
        }
    }
}

/// A list without every occurrence of a text.
pub open spec fn without(list: Seq<Seq<char>>, label: Seq<char>) -> Seq<Seq<char>>
    decreases list.len(),
{
    if list.len() == 0 {
        seq![]
    } else if list.last() == label {
        without(list.drop_last(), label)
    } else {
        without(list.drop_last(), label).push(list.last())
    }
}

proof fn lemma_without(list: Seq<Seq<char>>, label: Seq<char>)
    ensures
        forall|item: Seq<char>|
            #![trigger without(list, label).contains(item)]
            #![trigger list.contains(item)]
            without(list, label).contains(item) <==> list.contains(item) && item != label,
        list.no_duplicates() ==> without(list, label).no_duplicates(),
    decreases list.len(),
{
    if list.len() > 0 {
        let front = list.drop_last();
        lemma_without(front, label);
        let rest = without(front, label);
        assert(list =~= front.push(list.last()));
        assert forall|item: Seq<char>|
            without(list, label).contains(item) <==> list.contains(item) && item != label by {
            if list.contains(item) {
                let at = choose|at: int| 0 <= at < list.len() && list[at] == item;
                if at < front.len() {
                    assert(front[at] == item);
                }
            }
            if front.contains(item) {
                let at = choose|at: int| 0 <= at < front.len() && front[at] == item;
                assert(list[at] == item);
            }
            if list.last() == item {
                assert(list[list.len() - 1] == item);
            }
            if without(list, label).contains(item) {
                let at = choose|at: int|
                    0 <= at < without(list, label).len() && without(list, label)[at] == item;
                if at < rest.len() {
                    assert(rest[at] == item);
                }
            }
            if rest.contains(item) {
                let at = choose|at: int| 0 <= at < rest.len() && rest[at] == item;
                assert(without(list, label)[at] == item);
            }
            if list.last() == item && item != label {
                assert(without(list, label)[rest.len() as int] == item);
            }
        }
        if list.no_duplicates() {
            assert forall|i: int, j: int| 0 <= i < front.len() && 0 <= j < front.len() && i
                != j implies front[i] != front[j] by {
                assert(list[i] == front[i] && list[j] == front[j]);
            }
            if list.last() != label {
                assert(!rest.contains(list.last())) by {
                    if rest.contains(list.last()) {
                        assert(front.contains(list.last()));
                        let at = choose|at: int| 0 <= at < front.len() && front[at] == list.last();
                        assert(list[at] == list[list.len() - 1]);
                    }
                }
                let all = rest.push(list.last());
                assert forall|i: int, j: int| 0 <= i < all.len() && 0 <= j < all.len() && i
                    != j implies all[i] != all[j] by {
                    if i == rest.len() {
                        assert(rest[j] == all[j]);
                    } else if j == rest.len() {
                        assert(rest[i] == all[i]);
                    }
                }
            }
        }
    }
}

/// A chip that was taken away is gone, and every other stays.
pub proof fn removing_a_chip_keeps_the_others(
    chips: Seq<Seq<char>>,
    label: Seq<char>,
    other: Seq<char>,
)
    requires
        other != label,
    ensures
        !without(chips, label).contains(label),
        without(chips, label).contains(other) == chips.contains(other),
{
    lemma_without(chips, label);
}

/// What the table's place shows.
#[derive(Clone, Copy, Debug, PartialEq, Eq, Structural)]
pub enum LibraryPage {
    /// No recordings in this category.
    Empty,
    /// The filters removed every recording.
    FilteredEmpty,
    Table,
}

/// The table is shown while there is a row in it.
pub open spec fn page_of(rows: u32, shown: u32) -> LibraryPage {
    if rows == 0 {
        LibraryPage::Empty
    } else if shown == 0 {
        LibraryPage::FilteredEmpty
    } else {
        LibraryPage::Table
    }
}

pub fn page(rows: u32, shown: u32) -> (page: LibraryPage)
    ensures
        page == page_of(rows, shown),
{
    if rows == 0 {
        LibraryPage::Empty
    } else if shown == 0 {
        LibraryPage::FilteredEmpty
    } else {
        LibraryPage::Table
    }
}

/// The places of the rows that were selected before.
pub open spec fn kept_places(visible: Seq<Seq<char>>, previous: Seq<Seq<char>>) -> Seq<int>
    decreases visible.len(),
{
    if visible.len() == 0 {
        seq![]
    } else {
        let before = kept_places(visible.drop_last(), previous);
        if previous.contains(visible.last()) {
            before.push(visible.len() - 1)
        } else {
            before
        }
    }
}

/// The places selected after the rows changed: the surviving rows, or the
/// newest where none survives.
pub open spec fn selected_places(visible: Seq<Seq<char>>, previous: Seq<Seq<char>>) -> Seq<int> {
    if kept_places(visible, previous).len() > 0 {
        kept_places(visible, previous)
    } else if visible.len() > 0 {
        seq![0]
    } else {
        seq![]
    }
}

fn holds_id(ids: &Vec<RecordingId>, id: &RecordingId) -> (held: bool)
    ensures
        held == id_views(ids@).contains(id@),
{
    let mut i: usize = 0;
    while i < ids.len()
        invariant
            i <= ids@.len(),
            forall|j: int| 0 <= j < i ==> #[trigger] id_views(ids@)[j] != id@,
        decreases ids@.len() - i,
    {
        if ids[i].same_as(id) {
            assert(id_views(ids@)[i as int] == id@);
            return true;
        }
        i = i + 1;
    }
    false
}

/// Re-select the surviving rows, so a snapshot-driven rebuild does not
/// silently jump the player to a different recording. If none survive (a
/// fresh category, or the selection was deleted or filtered out) the newest is
/// opened.
pub fn reselection(visible: &Vec<RecordingId>, previous: &Vec<RecordingId>) -> (places: Vec<usize>)
    ensures
        places@.map_values(|place: usize| place as int) == selected_places(
            id_views(visible@),
            id_views(previous@),
        ),
{
    let ghost all = id_views(visible@);
    let ghost kept = id_views(previous@);
    let mut places: Vec<usize> = Vec::new();
    let mut i: usize = 0;
    assert(places@.map_values(|place: usize| place as int) =~= kept_places(all.take(0), kept));
    while i < visible.len()
        invariant
            i <= visible@.len(),
            all == id_views(visible@),
            kept == id_views(previous@),
            places@.map_values(|place: usize| place as int) == kept_places(
                all.take(i as int),
                kept,
            ),
        decreases visible@.len() - i,
    {
        let ghost before = places@;
        assert(all.take(i + 1).drop_last() =~= all.take(i as int));
        if holds_id(previous, &visible[i]) {
            places.push(i);
            assert(places@.map_values(|place: usize| place as int) =~= before.map_values(
                |place: usize| place as int,
            ).push(i as int));
        }
        i = i + 1;
    }
    assert(all.take(i as int) =~= all);
    assert(places@.len() == places@.map_values(|place: usize| place as int).len());
    if places.len() == 0 && visible.len() > 0 {
        places.push(0);
        assert(places@.map_values(|place: usize| place as int) =~= seq![0int]);
    }
    assert(places@.map_values(|place: usize| place as int) =~= selected_places(all, kept));
    places
}

/// Something is selected whenever something is visible, and a row that was
/// selected stays so while it is visible.
pub proof fn surviving_rows_stay_selected(
    visible: Seq<Seq<char>>,
    previous: Seq<Seq<char>>,
    place: int,
)
    requires
        0 <= place < visible.len(),
        previous.contains(visible[place]),
    ensures
        selected_places(visible, previous).contains(place),
    decreases visible.len(),
{
    lemma_kept(visible, previous, place);
    let kept = kept_places(visible, previous);
    let at = choose|at: int| 0 <= at < kept.len() && kept[at] == place;
    assert(kept.len() > 0);
    assert(selected_places(visible, previous)[at] == place);
}

proof fn lemma_kept(visible: Seq<Seq<char>>, previous: Seq<Seq<char>>, place: int)
    requires
        0 <= place < visible.len(),
        previous.contains(visible[place]),
    ensures
        kept_places(visible, previous).contains(place),
    decreases visible.len(),
{
    let front = visible.drop_last();
    let before = kept_places(front, previous);
    let all = kept_places(visible, previous);
    if place == visible.len() - 1 {
        assert(all[before.len() as int] == place);
    } else {
        assert(front[place] == visible[place]);
        lemma_kept(front, previous, place);
        let at = choose|at: int| 0 <= at < before.len() && before[at] == place;
        assert(all[at] == place);
    }
}

/// A sole selected row is loaded, with its other viewpoints.
pub open spec fn loads(selected: Seq<&RowModel>, selection: Option<Selection>) -> bool {
    &&& selection is Some <==> selected.len() == 1
    &&& selection matches Some(selection) ==> {
        &&& selection.id@ == selected[0].id@
        &&& id_views(selection.viewpoints@) == id_views(selected[0].correlated_ids@)
    }
}

/// Load the sole selection into the player; multiselect does not load.
pub fn selection_of(selected: &Vec<&RowModel>) -> (selection: Option<Selection>)
    ensures
        loads(selected@, selection),
{
    if selected.len() != 1 {
        return None;
    }
    let row: &RowModel = selected[0];
    Some(Selection { id: row.id.duplicate(), viewpoints: copy_ids(&row.correlated_ids) })
}

fn copy_ids(ids: &Vec<RecordingId>) -> (copy: Vec<RecordingId>)
    ensures
        copy@ == ids@,
{
    let mut copy: Vec<RecordingId> = Vec::new();
    let mut i: usize = 0;
    while i < ids.len()
        invariant
            i <= ids@.len(),
            copy@ == ids@.take(i as int),
        decreases ids@.len() - i,
    {
        copy.push(ids[i].duplicate());
        i = i + 1;
        assert(ids@.take(i as int) =~= ids@.take(i - 1).push(ids@[i - 1]));
    }
    assert(ids@.take(i as int) =~= ids@);
    copy
}

/// A list with each item once, where it first came.
pub open spec fn firsts(list: Seq<Seq<char>>) -> Seq<Seq<char>>
    decreases list.len(),
{
    if list.len() == 0 {
        seq![]
    } else {
        let before = firsts(list.drop_last());
        if before.contains(list.last()) {
            before
        } else {
            before.push(list.last())
        }
    }
}

/// Every item is there once, and nothing else.
pub proof fn firsts_hold_each_once(list: Seq<Seq<char>>)
    ensures
        firsts(list).no_duplicates(),
        forall|item: Seq<char>|
            #![trigger firsts(list).contains(item)]
            #![trigger list.contains(item)]
            firsts(list).contains(item) <==> list.contains(item),
    decreases list.len(),
{
    if list.len() > 0 {
        let front = list.drop_last();
        let last = list.last();
        let before = firsts(front);
        firsts_hold_each_once(front);
        assert forall|item: Seq<char>| firsts(list).contains(item) <==> list.contains(item) by {
            if list.contains(item) {
                let at = choose|at: int| 0 <= at < list.len() && list[at] == item;
                if at < front.len() {
                    assert(front[at] == item);
                    assert(front.contains(item));
                    assert(before.contains(item));
                    let place = choose|place: int|
                        0 <= place < before.len() && before[place] == item;
                    assert(firsts(list)[place] == item);
                } else if before.contains(item) {
                } else {
                    assert(firsts(list)[before.len() as int] == item);
                }
            }
            if firsts(list).contains(item) {
                let at = choose|at: int| 0 <= at < firsts(list).len() && firsts(list)[at] == item;
                if at < before.len() {
                    assert(before[at] == item);
                    assert(before.contains(item));
                    let place = choose|place: int| 0 <= place < front.len() && front[place] == item;
                    assert(list[place] == item);
                } else {
                    assert(list[list.len() - 1] == item);
                }
            }
        }
        if !before.contains(last) {
            let all = before.push(last);
            assert forall|i: int, j: int| 0 <= i < all.len() && 0 <= j < all.len() && i
                != j implies all[i] != all[j] by {
                if i == before.len() {
                    assert(before[j] == all[j]);
                } else if j == before.len() {
                    assert(before[i] == all[i]);
                }
            }
        }
    }
}

/// The identities behind several rows, one after the other.
pub open spec fn row_ids(rows: Seq<&RowModel>) -> Seq<Seq<char>>
    decreases rows.len(),
{
    if rows.len() == 0 {
        seq![]
    } else {
        row_ids(rows.drop_last()) + id_views(rows.last().correlated_ids@)
    }
}

/// The viewpoints behind several rows, each once.
pub fn viewpoint_ids(rows: &Vec<&RowModel>) -> (ids: Vec<RecordingId>)
    ensures
        id_views(ids@) == firsts(row_ids(rows@)),
{
    let mut ids: Vec<RecordingId> = Vec::new();
    let mut i: usize = 0;
    assert(id_views(ids@) =~= firsts(row_ids(rows@.take(0))));
    while i < rows.len()
        invariant
            i <= rows@.len(),
            id_views(ids@) == firsts(row_ids(rows@.take(i as int))),
        decreases rows@.len() - i,
    {
        let own: &Vec<RecordingId> = &rows[i].correlated_ids;
        let ghost before = row_ids(rows@.take(i as int));
        let mut j: usize = 0;
        assert(before + id_views(own@.take(0)) =~= before);
        while j < own.len()
            invariant
                j <= own@.len(),
                id_views(ids@) == firsts(before + id_views(own@.take(j as int))),
            decreases own@.len() - j,
        {
            let ghost listed = ids@;
            let ghost longer = before + id_views(own@.take(j + 1));
            assert(longer.drop_last() =~= before + id_views(own@.take(j as int)));
            assert(longer.last() == own@[j as int]@);
            if !holds_id(&ids, &own[j]) {
                ids.push(own[j].duplicate());
                assert(id_views(ids@) =~= id_views(listed).push(own@[j as int]@));
            }
            j = j + 1;
        }
        assert(own@.take(j as int) =~= own@);
        assert(rows@.take(i + 1).drop_last() =~= rows@.take(i as int));
        i = i + 1;
    }
    assert(rows@.take(i as int) =~= rows@);
    ids
}

pub open spec fn plural_word(count: nat) -> Seq<char> {
    if count == 1 {
        ""@
    } else {
        "s"@
    }
}

fn plural(count: usize) -> (ending: &'static str)
    ensures
        ending@ == plural_word(count as nat),
{
    if count == 1 {
        ""
    } else {
        "s"
    }
}

/// Every viewpoint of every row is protected.
pub open spec fn fully_protected(rows: Seq<&RowModel>) -> bool {
    forall|i: int| 0 <= i < rows.len() ==> (#[trigger] rows[i]).all_protected
}

fn all_protected(rows: &Vec<&RowModel>) -> (protected: bool)
    ensures
        protected == fully_protected(rows@),
{
    let mut i: usize = 0;
    while i < rows.len()
        invariant
            i <= rows@.len(),
            forall|j: int| 0 <= j < i ==> (#[trigger] rows@[j]).all_protected,
        decreases rows@.len() - i,
    {
        if !rows[i].all_protected {
            assert(!rows@[i as int].all_protected);
            return false;
        }
        i = i + 1;
    }
    true
}

/// What the bar of actions on a selection shows.
#[derive(Clone, Debug, PartialEq, Eq)]
pub struct BulkBar {
    pub count: String,
    pub protect: &'static str,
    pub sensitive: bool,
}

/// What the bar shows for a selection.
pub open spec fn bars(
    selected: Seq<&RowModel>,
    mutation_pending: bool,
    bar: Option<BulkBar>,
) -> bool {
    &&& bar is Some <==> selected.len() > 0
    &&& bar matches Some(bar) ==> {
        &&& bar.count@ == text::decimal(selected.len()) + " recording"@ + plural_word(
            selected.len(),
        ) + " selected"@
        &&& bar.protect@ == protect_word(fully_protected(selected))
        &&& bar.sensitive == !mutation_pending
    }
}

/// The bar of actions on a selection; without one it is hidden. Unless every
/// selected viewpoint is protected the action is Protect; only an
/// all-protected selection unprotects.
pub fn bulk_bar(selected: &Vec<&RowModel>, mutation_pending: bool) -> (bar: Option<BulkBar>)
    ensures
        bars(selected@, mutation_pending, bar),
{
    if selected.len() == 0 {
        return None;
    }
    let mut count = decimal_text(selected.len() as u64);
    count.append(" recording");
    count.append(plural(selected.len()));
    count.append(" selected");
    Some(
        BulkBar {
            count,
            protect: protect_label(all_protected(selected)),
            sensitive: !mutation_pending,
        },
    )
}

/// What the protect action is called.
pub open spec fn protect_word(all_protected: bool) -> Seq<char> {
    if all_protected {
        "Unprotect"@
    } else {
        "Protect"@
    }
}

pub fn protect_label(all_protected: bool) -> (label: &'static str)
    ensures
        label@ == protect_word(all_protected),
{
    if all_protected {
        "Unprotect"
    } else {
        "Protect"
    }
}

/// What protecting a selection asks for: all of its viewpoints are protected,
/// or unprotected where every one of them is.
pub open spec fn sets_protected(selected: Seq<&RowModel>, command: Option<Command>) -> bool {
    match command {
        Some(command) => selected.len() > 0 && (command matches Command::SetProtected { ids, value }
            && id_views(ids@) == firsts(row_ids(selected)) && value == !fully_protected(selected)),
        None => selected.len() == 0,
    }
}

/// Protect the selection, or unprotect it where all of it is protected.
pub fn bulk_set_protected(selected: &Vec<&RowModel>) -> (command: Option<Command>)
    ensures
        sets_protected(selected@, command),
{
    if selected.len() == 0 {
        return None;
    }
    let value = !all_protected(selected);
    Some(Command::SetProtected { ids: viewpoint_ids(selected), value })
}

/// What the user is asked before a deletion.
#[derive(Clone, Debug, PartialEq, Eq)]
pub struct DeletePrompt {
    pub body: String,
    pub ids: Vec<RecordingId>,
}

/// What is asked before a selection is deleted: how many recordings and files
/// go, and which.
pub open spec fn asks_to_delete(selected: Seq<&RowModel>, prompt: Option<DeletePrompt>) -> bool {
    &&& prompt is Some <==> selected.len() > 0
    &&& prompt matches Some(prompt) ==> {
        let files = firsts(row_ids(selected)).len();
        &&& id_views(prompt.ids@) == firsts(row_ids(selected))
        &&& prompt.body@ == "Delete "@ + text::decimal(selected.len()) + " recording"@
            + plural_word(selected.len()) + " and their "@ + text::decimal(files)
            + " viewpoint file"@ + plural_word(files)
            + "? This permanently removes the media files and their metadata sidecars."@
    }
}

/// Ask before the selection is deleted.
pub fn confirm_delete(selected: &Vec<&RowModel>) -> (prompt: Option<DeletePrompt>)
    ensures
        asks_to_delete(selected@, prompt),
{
    if selected.len() == 0 {
        return None;
    }
    let ids = viewpoint_ids(selected);
    assert(id_views(ids@).len() == ids@.len());
    let mut body = "Delete ".to_owned();
    push_decimal(&mut body, selected.len() as u64);
    body.append(" recording");
    body.append(plural(selected.len()));
    body.append(" and their ");
    push_decimal(&mut body, ids.len() as u64);
    body.append(" viewpoint file");
    body.append(plural(ids.len()));
    body.append("? This permanently removes the media files and their metadata sidecars.");
    Some(DeletePrompt { body, ids })
}

/// What a row's star asks for, of every viewpoint of its activity.
pub open spec fn toggles(row: RowModel, command: Command) -> bool {
    command matches Command::SetProtected { ids, value } && ids@ == row.correlated_ids@ && value
        == !row.all_protected
}

/// A single-row star applies to that activity's viewpoints, using the same
/// all-protected toggle rule as the bulk bar.
pub fn toggle_protect(row: &RowModel) -> (command: Command)
    ensures
        toggles(*row, command),
{
    Command::SetProtected { ids: copy_ids(&row.correlated_ids), value: !row.all_protected }
}

/// Change a row's tag; spaces around it are dropped, and storage clears the
/// tag when nothing is left.
pub fn edit_tag(row: &RowModel, entered: &str) -> (command: Command)
    ensures
        command matches Command::SetTag { id, tag } && id@ == row.id@ && tag@ == text::trim(
            entered@,
        ),
{
    Command::SetTag { id: row.id.duplicate(), tag: trimmed(entered) }
}

/// Recordings are uploaded, if there are any.
pub open spec fn asks_to_upload(ids: Vec<RecordingId>) -> Option<Command> {
    if ids@.len() > 0 {
        Some(Command::Upload { ids })
    } else {
        None
    }
}

/// Upload recordings, if there are any.
pub fn upload(ids: Vec<RecordingId>) -> (command: Option<Command>)
    ensures
        command == asks_to_upload(ids),
{
    if ids.len() > 0 {
        Some(Command::Upload { ids })
    } else {
        None
    }
}

/// Copy the share link of a row's recording.
pub fn share_link(row: &RowModel) -> (command: Command)
    ensures
        command matches Command::ShareLink { id } && id@ == row.id@,
{
    Command::ShareLink { id: row.id.duplicate() }
}

/// What a row's menu offers.
#[derive(Clone, Copy, Debug, PartialEq, Eq, Structural)]
pub enum RowAction {
    ToggleProtect,
    EditTag,
    Upload,
    ShareLink,
    Reveal,
    Delete,
}

/// What a row's menu offers.
pub open spec fn menu_of(cloud_configured: bool) -> Seq<RowAction> {
    if cloud_configured {
        seq![
            RowAction::ToggleProtect,
            RowAction::EditTag,
            RowAction::Upload,
            RowAction::ShareLink,
            RowAction::Reveal,
            RowAction::Delete,
        ]
    } else {
        seq![RowAction::ToggleProtect, RowAction::EditTag, RowAction::Reveal, RowAction::Delete]
    }
}

/// The row's menu; the cloud actions are offered while the cloud is set up.
pub fn row_menu(cloud_configured: bool) -> (actions: Vec<RowAction>)
    ensures
        actions@ == menu_of(cloud_configured),
{
    let mut actions: Vec<RowAction> = Vec::new();
    actions.push(RowAction::ToggleProtect);
    actions.push(RowAction::EditTag);
    if cloud_configured {
        actions.push(RowAction::Upload);
        actions.push(RowAction::ShareLink);
    }
    actions.push(RowAction::Reveal);
    actions.push(RowAction::Delete);
    assert(actions@ =~= menu_of(cloud_configured));
    actions
}

/// What a menu entry is called.
pub open spec fn action_words(action: RowAction, all_protected: bool) -> Seq<char> {
    match action {
        RowAction::ToggleProtect => protect_word(all_protected),
        RowAction::EditTag => "Edit tag"@,
        RowAction::Upload => "Upload to cloud"@,
        RowAction::ShareLink => "Copy share link"@,
        RowAction::Reveal => "Reveal in folder"@,
        RowAction::Delete => "Delete"@,
    }
}

pub fn action_label(action: RowAction, all_protected: bool) -> (label: &'static str)
    ensures
        label@ == action_words(action, all_protected),
{
    match action {
        RowAction::ToggleProtect => protect_label(all_protected),
        RowAction::EditTag => "Edit tag",
        RowAction::Upload => "Upload to cloud",
        RowAction::ShareLink => "Copy share link",
        RowAction::Reveal => "Reveal in folder",
        RowAction::Delete => "Delete",
    }
}

} // verus!
