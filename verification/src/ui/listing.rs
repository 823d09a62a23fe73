//! What the library shows of a recording: how it ended, where and of whom it
//! is, and in what order the rows stand.
use std::sync::Arc;

use vstd::prelude::*;

use crate::coordinator::{AppSnapshot, Command};
use crate::domain;
use crate::domain::{
    ActivityDetails, Category, CorrelatedActivity, LibraryEntry, Outcome, RecordingId,
};
use crate::text;
use crate::text::Place;
use crate::ui::columns;
use crate::ui::columns::Column;
use crate::ui::library;
use crate::ui::library::{
    AffixName, BulkBar, CategoryLabel, DeletePrompt, Family, Library, LibraryUpdate, RowModel,
    RowNames,
};
use crate::ui::status;

verus! {

// --- results ---

/// An arena or battleground shows "Win" exactly if it was won and "Loss"
/// exactly if it was lost; otherwise nothing is said.
pub proof fn matches_show_who_won(entry: LibraryEntry)
    requires
        entry.details is ArenaOrBattleground,
    ensures
        library::result_words(entry) == "Win"@ <==> entry.outcome == Outcome::Win,
        library::result_words(entry) == "Loss"@ <==> entry.outcome == Outcome::Loss,
        library::result_words(entry).len() == 0 <==> entry.outcome != Outcome::Win && entry.outcome
            != Outcome::Loss,
{
    reveal_strlit("Win");
    reveal_strlit("Loss");
    reveal_strlit("");
    assert("Win"@.len() == 3 && "Loss"@.len() == 4 && ""@.len() == 0);
}

/// A clip or a manual recording shows a win or a loss as such, and nothing
/// otherwise.
pub proof fn clips_show_who_won(entry: LibraryEntry)
    requires
        entry.details is Clip || entry.details is Manual,
    ensures
        library::result_words(entry) == "Win"@ <==> entry.outcome == Outcome::Win,
        library::result_words(entry) == "Loss"@ <==> entry.outcome == Outcome::Loss,
        library::result_words(entry).len() == 0 <==> entry.outcome != Outcome::Win && entry.outcome
            != Outcome::Loss,
{
    reveal_strlit("Win");
    reveal_strlit("Loss");
    reveal_strlit("");
    assert("Win"@.len() == 3 && "Loss"@.len() == 4 && ""@.len() == 0);
}

/// A raid encounter shows "Kill" exactly if it was won, and "Wipe" otherwise.
pub proof fn encounters_show_kill_or_wipe(entry: LibraryEntry)
    requires
        entry.details is Raid,
    ensures
        library::result_words(entry) == "Kill"@ <==> entry.outcome == Outcome::Win,
        library::result_words(entry) == "Wipe"@ <==> entry.outcome != Outcome::Win,
{
    reveal_strlit("Kill");
    reveal_strlit("Wipe");
    assert("Kill"@[0] != "Wipe"@[0]);
}

/// A keystone shows how many levels it was upgraded by, "Depleted" if it was
/// completed without an upgrade, and "Abandoned" if it was not completed.
pub proof fn keystones_show_their_upgrade(
    entry: LibraryEntry,
    zone_id: Option<u32>,
    dungeon_name: Option<String>,
    map_id: Option<u32>,
    keystone_level: Option<u32>,
    affixes: Vec<u32>,
    upgrade_level: Option<u32>,
)
    requires
        entry.details == (ActivityDetails::Dungeon {
            zone_id,
            dungeon_name,
            map_id,
            keystone_level,
            affixes,
            upgrade_level,
        }),
    ensures
        library::result_words(entry) == "Abandoned"@ <==> entry.outcome != Outcome::Complete,
        library::result_words(entry) == "Depleted"@ <==> entry.outcome == Outcome::Complete && (
        upgrade_level is None || upgrade_level == Some(0u32)),
        entry.outcome == Outcome::Complete ==> (upgrade_level matches Some(level) ==> level > 0 ==> {
            &&& library::result_words(entry).take(7) == "Timed +"@
            &&& text::digits_value(library::result_words(entry).skip(7)) == level
        }),
{
    reveal_strlit("Abandoned");
    reveal_strlit("Depleted");
    reveal_strlit("Timed +");
    assert("Abandoned"@[0] == 'A' && "Depleted"@[0] == 'D' && "Timed +"@[0] == 'T');
    if let Some(level) = upgrade_level {
        if level > 0 {
            let digits = text::decimal(level as nat);
            text::numbers_read_back(level as nat);
            let words = "Timed +"@ + digits;
            assert(words[0] == 'T');
            assert(words.take(7) =~= "Timed +"@);
            assert(words.skip(7) =~= digits);
        }
    }
}

/// A solo shuffle shows how many of its rounds were won.
pub proof fn shuffles_show_their_rounds(
    entry: LibraryEntry,
    won: u32,
    played: u32,
)
    requires
        entry.details matches ActivityDetails::SoloRounds { rounds_won, rounds_played, .. }
            && rounds_won == Some(won) && rounds_played == Some(played),
    ensures
        ({
            let words = library::result_words(entry);
            let at = text::first_index(words, '/');
            &&& 0 < at < words.len()
            &&& text::digits_value(words.take(at)) == won
            &&& text::digits_value(words.skip(at + 1)) == played
        }),
{
    reveal_strlit("/");
    let first = text::decimal(won as nat);
    let second = text::decimal(played as nat);
    text::numbers_read_back(won as nat);
    text::numbers_read_back(played as nat);
    let words = library::result_words(entry);
    assert(words =~= first + "/"@ + second);
    let at = first.len() as int;
    assert forall|i: int| 0 <= i < at implies words[i] != '/' by {
        assert(words[i] == first[i]);
        assert(text::is_digit(first[i]));
    }
    assert(words[at] == '/');
    text::lemma_first_index(words, '/', at);
    assert(words.take(at) =~= first);
    assert(words.skip(at + 1) =~= second);
}

/// A win or a completed run sorts before a loss or an abandoned one, and
/// those before what is not known.
pub proof fn better_results_come_first()
    ensures
        library::spec_outcome_rank(Outcome::Win) == library::spec_outcome_rank(Outcome::Complete),
        library::spec_outcome_rank(Outcome::Complete) < library::spec_outcome_rank(Outcome::Loss),
        library::spec_outcome_rank(Outcome::Loss) == library::spec_outcome_rank(Outcome::Abandoned),
        library::spec_outcome_rank(Outcome::Abandoned) < library::spec_outcome_rank(
            Outcome::Unknown,
        ),
{
}

// --- difficulties ---

/// Difficulties sort from the easiest: LFR, Normal, Heroic and Mythic, and
/// then those that are not known.
pub proof fn harder_difficulties_come_later(other: Option<u32>)
    requires
        other != Some(17u32),
        other != Some(14u32),
        other != Some(15u32),
        other != Some(16u32),
    ensures
        library::spec_difficulty_rank(Some(17)) < library::spec_difficulty_rank(Some(14)),
        library::spec_difficulty_rank(Some(14)) < library::spec_difficulty_rank(Some(15)),
        library::spec_difficulty_rank(Some(15)) < library::spec_difficulty_rank(Some(16)),
        library::spec_difficulty_rank(Some(16)) < library::spec_difficulty_rank(other),
{
}

/// A difficulty is shown by the name it was stored with, or else by the one
/// that goes with its number.
pub proof fn difficulties_are_shown_by_name(id: Option<u32>, stored: Option<Seq<char>>)
    ensures
        (stored matches Some(name) && name.len() > 0) ==> library::difficulty_words(id, stored)
            == stored->0,
        !(stored matches Some(name) && name.len() > 0) ==> {
            &&& id == Some(17u32) ==> library::difficulty_words(id, stored) == "LFR"@
            &&& id == Some(14u32) ==> library::difficulty_words(id, stored) == "Normal"@
            &&& id == Some(15u32) ==> library::difficulty_words(id, stored) == "Heroic"@
            &&& id == Some(16u32) ==> library::difficulty_words(id, stored) == "Mythic"@
            &&& library::spec_difficulty_rank(id) == 4 ==> library::difficulty_words(
                id,
                stored,
            ).len() == 0
        },
{
    reveal_strlit("");
}

// --- rows ---

/// Every category has its own kind of table: raids, keystones, clips and
/// manual recordings each theirs, and all player-versus-player ones the same.
pub proof fn categories_have_their_table(category: Category)
    ensures
        library::spec_family(category) == Family::Raid <==> category == Category::Raids,
        library::spec_family(category) == Family::Dungeon <==> category == Category::MythicPlus,
        library::spec_family(category) == Family::Clip <==> category == Category::Clip,
        library::spec_family(category) == Family::Manual <==> category == Category::Manual,
        library::spec_family(category) == Family::Pvp <==> category == Category::TwoVTwo || category
            == Category::ThreeVThree || category == Category::FiveVFive || category
            == Category::Skirmish || category == Category::SoloShuffle || category
            == Category::Battlegrounds,
{
}

/// A row is about its own recording: its file, date, length, tag and star,
/// whose it is, and that player's specialization; its other viewpoints come
/// behind it.
pub proof fn rows_show_their_recording(
    row: RowModel,
    primary: LibraryEntry,
    viewpoints: Seq<RecordingId>,
    entries: Seq<Arc<LibraryEntry>>,
    family: Family,
    names: RowNames,
)
    requires
        library::is_row(row, primary, viewpoints, entries, family, names),
    ensures
        row.id@ == primary.id@,
        row.media_path@ == primary.media_path@,
        row.date_ms == primary.start_unix_ms,
        row.duration_ms == primary.duration_ms,
        domain::text_view(row.tag) == domain::text_view(primary.tag),
        row.protected == primary.protected,
        primary.player matches Some(player) ==> {
            &&& row.spec_id == player.spec_id
            &&& player.name@.len() > 0 ==> row.details@ == player.name@
            &&& player.name@.len() == 0 ==> row.details@ == primary.title@
        },
        primary.player is None ==> row.spec_id is None && row.details@ == primary.title@,
        row.correlated_ids@.len() == viewpoints.len() + 1,
        row.correlated_ids@[0]@ == primary.id@,
        forall|i: int|
            0 <= i < viewpoints.len() ==> row.correlated_ids@[i + 1]@ == (
            #[trigger] viewpoints[i])@,
{
    let ids = library::id_views(row.correlated_ids@);
    let wanted = seq![primary.id@] + library::id_views(viewpoints);
    assert(ids.len() == wanted.len());
    assert(ids[0] == wanted[0]);
    assert forall|i: int| 0 <= i < viewpoints.len() implies row.correlated_ids@[i + 1]@ == (
    #[trigger] viewpoints[i])@ by {
        assert(ids[i + 1] == wanted[i + 1]);
    }
}

/// The row of an arena or battleground says who won, and is colored and
/// sorted by it.
pub proof fn rows_show_who_won(
    row: RowModel,
    primary: LibraryEntry,
    viewpoints: Seq<RecordingId>,
    entries: Seq<Arc<LibraryEntry>>,
    family: Family,
    names: RowNames,
)
    requires
        library::is_row(row, primary, viewpoints, entries, family, names),
    ensures
        primary.details is ArenaOrBattleground ==> {
            &&& row.result@ == "Win"@ <==> primary.outcome == Outcome::Win
            &&& row.result@ == "Loss"@ <==> primary.outcome == Outcome::Loss
        },
        primary.details is Raid ==> {
            &&& row.result@ == "Kill"@ <==> primary.outcome == Outcome::Win
            &&& row.result@ == "Wipe"@ <==> primary.outcome != Outcome::Win
        },
        row.outcome_order == 0 <==> primary.outcome == Outcome::Win || primary.outcome
            == Outcome::Complete,
        row.outcome_order == 1 <==> primary.outcome == Outcome::Loss || primary.outcome
            == Outcome::Abandoned,
{
    if primary.details is ArenaOrBattleground {
        matches_show_who_won(primary);
    }
    if primary.details is Raid {
        encounters_show_kill_or_wipe(primary);
    }
}

/// A row counts as protected as a whole exactly if its recording is, and every
/// other viewpoint that the library holds.
pub proof fn rows_are_protected_as_a_whole(
    row: RowModel,
    primary: LibraryEntry,
    viewpoints: Seq<RecordingId>,
    entries: Seq<Arc<LibraryEntry>>,
    family: Family,
    names: RowNames,
    i: int,
)
    requires
        library::is_row(row, primary, viewpoints, entries, family, names),
        row.all_protected,
        0 <= i < viewpoints.len(),
    ensures
        primary.protected,
        library::entry_by_id(entries, viewpoints[i]@) matches Some(entry) ==> entry.protected,
{
}

/// The table of a raid shows the encounter, the place and the pull in their
/// own cells.
pub proof fn raid_rows_show_the_encounter(
    row: RowModel,
    primary: LibraryEntry,
    viewpoints: Seq<RecordingId>,
    entries: Seq<Arc<LibraryEntry>>,
    names: RowNames,
    encounter: String,
    number: u32,
)
    requires
        library::is_row(row, primary, viewpoints, entries, Family::Raid, names),
        primary.details matches ActivityDetails::Raid { encounter_name, pull, .. }
            && encounter_name == Some(encounter) && pull == Some(number),
    ensures
        Column::Encounter.cell(row) == Some(encounter@),
        Column::Pull.cell(row) matches Some(cell) && text::digits_value(cell) == number,
        Column::Result.cell(row) == Some(row.result@),
{
    text::numbers_read_back(number as nat);
}

/// The table of a keystone shows the dungeon and the level in their own cells.
pub proof fn dungeon_rows_show_the_keystone(
    row: RowModel,
    primary: LibraryEntry,
    viewpoints: Seq<RecordingId>,
    entries: Seq<Arc<LibraryEntry>>,
    names: RowNames,
    dungeon: String,
    level: u32,
)
    requires
        library::is_row(row, primary, viewpoints, entries, Family::Dungeon, names),
        primary.details matches ActivityDetails::Dungeon { dungeon_name, keystone_level, .. }
            && dungeon_name == Some(dungeon) && keystone_level == Some(level),
        level > 0,
    ensures
        Column::Dungeon.cell(row) == Some(dungeon@),
        Column::Level.cell(row) matches Some(cell) && {
            &&& cell.len() > 0
            &&& cell[0] == '+'
            &&& text::digits_value(cell.skip(1)) == level
        },
{
    reveal_strlit("+");
    let digits = text::decimal(level as nat);
    text::numbers_read_back(level as nat);
    assert(("+"@ + digits).skip(1) =~= digits);
}

/// The table of player-versus-player recordings shows the map, that of clips
/// what they were cut from.
pub proof fn map_and_source_are_shown(
    row: RowModel,
    primary: LibraryEntry,
    viewpoints: Seq<RecordingId>,
    entries: Seq<Arc<LibraryEntry>>,
    family: Family,
    names: RowNames,
)
    requires
        library::is_row(row, primary, viewpoints, entries, family, names),
    ensures
        family == Family::Pvp ==> (primary.details matches ActivityDetails::ArenaOrBattleground {
            map_name: Some(map),
            ..
        } ==> Column::ArenaMap.cell(row) == Some(map@)),
        family == Family::Pvp ==> (primary.details matches ActivityDetails::SoloRounds {
            map_name: Some(map),
            ..
        } ==> Column::ArenaMap.cell(row) == Some(map@)),
        family == Family::Clip ==> (primary.details matches ActivityDetails::Clip {
            source_title: Some(title),
            ..
        } ==> Column::SourceActivity.cell(row) == Some(title@)),
{
}

/// The affixes of a keystone are shown by their names, in their order.
pub proof fn affixes_are_shown_by_name(names: Seq<AffixName>, id: u32, at: int)
    requires
        0 <= at < names.len(),
        names[at].id == id,
        forall|i: int| 0 <= i < at ==> (#[trigger] names[i]).id != id,
    ensures
        library::affix_word(names, id) == names[at].name@,
    decreases at,
{
    if at > 0 {
        let rest = names.skip(1);
        assert(names[0].id != id);
        assert(rest[at - 1] == names[at]);
        assert forall|i: int| 0 <= i < at - 1 implies (#[trigger] rest[i]).id != id by {
            assert(rest[i] == names[i + 1]);
        }
        affixes_are_shown_by_name(rest, id, at - 1);
    }
}

/// The category of a clip's source is shown by its label.
pub proof fn categories_are_shown_by_label(labels: Seq<CategoryLabel>, category: Category, at: int)
    requires
        0 <= at < labels.len(),
        labels[at].category == category,
        forall|i: int| 0 <= i < at ==> (#[trigger] labels[i]).category != category,
    ensures
        library::category_word(labels, category) == labels[at].label@,
    decreases at,
{
    if at > 0 {
        let rest = labels.skip(1);
        assert(labels[0].category != category);
        assert(rest[at - 1] == labels[at]);
        assert forall|i: int| 0 <= i < at - 1 implies (#[trigger] rest[i]).category != category by {
            assert(rest[i] == labels[i + 1]);
        }
        categories_are_shown_by_label(rest, category, at - 1);
    }
}

// --- the table ---

/// How many activities have a primary recording of a category.
pub open spec fn activities_in(
    correlations: Seq<CorrelatedActivity>,
    entries: Seq<Arc<LibraryEntry>>,
    category: Category,
) -> nat
    decreases correlations.len(),
{
    if correlations.len() == 0 {
        0
    } else {
        activities_in(correlations.drop_last(), entries, category) + (if library::entry_by_id(
            entries,
            correlations.last().primary_id@,
        ) matches Some(entry) && entry.category == category {
            1nat
        } else {
            0nat
        })
    }
}

proof fn lemma_activities(
    correlations: Seq<CorrelatedActivity>,
    entries: Seq<Arc<LibraryEntry>>,
    category: Category,
)
    ensures
        library::activities_of(correlations, entries, category).len() == activities_in(
            correlations,
            entries,
            category,
        ),
        forall|i: int|
            0 <= i < library::activities_of(correlations, entries, category).len() ==> (
            library::entry_by_id(
                entries,
                (#[trigger] library::activities_of(correlations, entries, category)[i]).primary_id@,
            ) matches Some(entry) && entry.category == category),
    decreases correlations.len(),
{
    if correlations.len() > 0 {
        let front = correlations.drop_last();
        lemma_activities(front, entries, category);
        let before = library::activities_of(front, entries, category);
        let all = library::activities_of(correlations, entries, category);
        assert forall|i: int| 0 <= i < all.len() implies (library::entry_by_id(
            entries,
            (#[trigger] all[i]).primary_id@,
        ) matches Some(entry) && entry.category == category) by {
            if i < before.len() {
                assert(all[i] == before[i]);
            }
        }
    }
}

/// What is found under an identity has it, and what the library holds is
/// found.
pub proof fn recordings_are_found_by_identity(entries: Seq<Arc<LibraryEntry>>, id: Seq<char>)
    ensures
        library::entry_by_id(entries, id) matches Some(entry) ==> entry.id@ == id,
        library::entry_by_id(entries, id) is None <==> forall|i: int|
            0 <= i < entries.len() ==> (#[trigger] entries[i]).id@ != id,
    decreases entries.len(),
{
    if entries.len() > 0 {
        let front = entries.drop_last();
        recordings_are_found_by_identity(front, id);
        if entries.last().id@ == id {
            assert(entries[entries.len() - 1].id@ == id);
        } else if library::entry_by_id(front, id) is Some {
            let i = choose|i: int| 0 <= i < front.len() && (#[trigger] front[i]).id@ == id;
            assert(entries[i] == front[i]);
        } else {
            assert forall|i: int| 0 <= i < entries.len() implies (#[trigger] entries[i]).id@
                != id by {
                if i < front.len() {
                    assert(front[i] == entries[i]);
                }
            }
        }
    }
}

/// A row shows one of the recordings of a category.
pub open spec fn of_category(
    row: RowModel,
    entries: Seq<Arc<LibraryEntry>>,
    category: Category,
) -> bool {
    library::entry_by_id(entries, row.id@) matches Some(entry) && entry.category == category
        && entry.start_unix_ms == row.date_ms
}

/// The table of a category has one row for each of its activities and no
/// other, and none stands above a newer one.
pub proof fn tables_show_one_category_newest_first(
    rows: Seq<RowModel>,
    snapshot: AppSnapshot,
    category: Category,
    names: RowNames,
)
    requires
        library::rows_for(rows, snapshot, category, names),
    ensures
        rows.len() == activities_in(snapshot.correlations@, snapshot.entries@, category),
        forall|i: int, j: int| 0 <= i < j < rows.len() ==> rows[i].date_ms >= rows[j].date_ms,
        forall|i: int|
            0 <= i < rows.len() ==> of_category(#[trigger] rows[i], snapshot.entries@, category),
{
    broadcast use vstd::seq_lib::group_to_multiset_ensures;

    let activities = library::activities_of(
        snapshot.correlations@,
        snapshot.entries@,
        category,
    );
    let family = library::spec_family(category);
    let listed = choose|listed: Seq<RowModel>|
        rows == library::newest_first(listed) && #[trigger] library::are_rows(
            listed,
            activities,
            snapshot.entries@,
            family,
            names,
        );
    lemma_activities(snapshot.correlations@, snapshot.entries@, category);
    library::rows_are_shown_newest_first(listed);
    assert forall|i: int| 0 <= i < rows.len() implies of_category(
        #[trigger] rows[i],
        snapshot.entries@,
        category,
    ) by {
        assert(rows.contains(rows[i]));
        assert(rows.to_multiset().count(rows[i]) > 0);
        assert(listed.to_multiset().count(rows[i]) > 0);
        assert(listed.contains(rows[i]));
        let k = choose|k: int| 0 <= k < listed.len() && listed[k] == rows[i];
        assert(library::shows(listed[k], activities[k], snapshot.entries@, family, names));
        recordings_are_found_by_identity(snapshot.entries@, activities[k].primary_id@);
    }
}

/// Another category is shown without the filters of the last one, and the
/// table is rebuilt; the same one keeps its filters, and its rows while the
/// library is unchanged.
pub proof fn categories_start_without_filters(
    before: Library,
    snapshot: AppSnapshot,
    index_changed: bool,
    names: RowNames,
    after: Library,
    update: LibraryUpdate,
)
    requires
        before.takes_in(snapshot, index_changed, names, after, update),
    ensures
        after.category == Some(snapshot.config.interface.selected_category),
        before.category != after.category ==> {
            &&& after.chips@.len() == 0
            &&& after.date_range is None
            &&& update.reset is Some
            &&& update.replace
        },
        before.category == after.category ==> {
            &&& after.chips@ == before.chips@
            &&& after.date_range == before.date_range
            &&& update.reset is None
            &&& !index_changed ==> after.rows@ == before.rows@ && !update.replace
        },
        !update.replace ==> after.rows@ == before.rows@,
        after.cloud_configured == snapshot.cloud.configured,
        !after.mutation_pending,
{
}

/// A range of days takes in everything from the start of the first to the
/// last millisecond of the last.
pub proof fn date_ranges_hold_whole_days(
    before: Library,
    start_ms: i64,
    last_start_ms: i64,
    next_start_ms: Option<i64>,
    after: Library,
    taken: bool,
    moment_ms: i64,
)
    requires
        before.takes_range(start_ms, last_start_ms, next_start_ms, after, taken),
        next_start_ms matches Some(next) ==> next > i64::MIN,
        last_start_ms + 86_400_000 <= i64::MAX,
    ensures
        taken ==> (after.date_range matches Some(range) && ((range.0 <= moment_ms <= range.1)
            <==> (start_ms <= moment_ms && (match next_start_ms {
            Some(next) => moment_ms < next,
            None => moment_ms < last_start_ms + 24int * 60 * 60 * 1_000,
        })))),
        !taken ==> after == before,
{
}

/// Sorted by a number, the smaller comes first: older before newer, shorter
/// before longer, lower before higher.
pub proof fn numbers_sort_from_the_smallest(a: RowModel, b: RowModel)
    ensures
        Column::Date.spec_order(a, b) == Place::Before <==> a.date_ms < b.date_ms,
        Column::Duration.spec_order(a, b) == Place::Before <==> a.duration_ms < b.duration_ms,
        Column::Level.spec_order(a, b) == Place::Before <==> a.fields.level < b.fields.level,
        Column::Difficulty.spec_order(a, b) == Place::Before <==> a.fields.difficulty_order
            < b.fields.difficulty_order,
        Column::Result.spec_order(a, b) == Place::Before <==> a.outcome_order < b.outcome_order,
        a.fields.pull matches Some(x) ==> (b.fields.pull matches Some(y) ==> (
        Column::Pull.spec_order(a, b) == Place::Before <==> x < y)),
{
}

/// Sorted by a text, rows come in the order of their texts.
pub proof fn texts_sort_by_their_characters(a: RowModel, b: RowModel)
    ensures
        Column::Details.spec_order(a, b) == Place::Before <==> text::precedes(
            a.details@,
            b.details@,
        ),
        Column::Encounter.spec_order(a, b) == Place::Before <==> text::precedes(
            a.fields.encounter@,
            b.fields.encounter@,
        ),
        Column::Dungeon.spec_order(a, b) == Place::Before <==> text::precedes(
            a.fields.place@,
            b.fields.place@,
        ),
        Column::ArenaMap.spec_order(a, b) == Place::Before <==> text::precedes(
            a.fields.place@,
            b.fields.place@,
        ),
        Column::SourceActivity.spec_order(a, b) == Place::Before <==> text::precedes(
            a.fields.source@,
            b.fields.source@,
        ),
{
    text::texts_are_ordered(a.details@, b.details@, a.details@);
    text::texts_are_ordered(a.fields.encounter@, b.fields.encounter@, a.details@);
    text::texts_are_ordered(a.fields.place@, b.fields.place@, a.details@);
    text::texts_are_ordered(a.fields.source@, b.fields.source@, a.details@);
}

/// A table of each kind has the columns that its recordings are told apart by.
pub proof fn tables_have_their_columns()
    ensures
        columns::family_columns(Family::Raid).contains(Column::Encounter),
        columns::family_columns(Family::Raid).contains(Column::Result),
        columns::family_columns(Family::Raid).contains(Column::Pull),
        columns::family_columns(Family::Raid).contains(Column::Difficulty),
        columns::family_columns(Family::Dungeon).contains(Column::Dungeon),
        columns::family_columns(Family::Dungeon).contains(Column::Result),
        columns::family_columns(Family::Dungeon).contains(Column::Level),
        columns::family_columns(Family::Dungeon).contains(Column::Affixes),
        columns::family_columns(Family::Pvp).contains(Column::ArenaMap),
        columns::family_columns(Family::Pvp).contains(Column::Result),
        columns::family_columns(Family::Clip).contains(Column::ClipType),
        columns::family_columns(Family::Clip).contains(Column::SourceActivity),
        columns::family_columns(Family::Manual).contains(Column::ManualType),
        forall|family: Family| #[trigger]
            columns::family_columns(family).contains(Column::Details),
        forall|family: Family| #[trigger]
            columns::family_columns(family).contains(Column::Duration),
{
    assert(columns::family_columns(Family::Raid)[2] == Column::Encounter);
    assert(columns::family_columns(Family::Raid)[3] == Column::Result);
    assert(columns::family_columns(Family::Raid)[4] == Column::Pull);
    assert(columns::family_columns(Family::Raid)[5] == Column::Difficulty);
    assert(columns::family_columns(Family::Dungeon)[2] == Column::Dungeon);
    assert(columns::family_columns(Family::Dungeon)[3] == Column::Result);
    assert(columns::family_columns(Family::Dungeon)[4] == Column::Level);
    assert(columns::family_columns(Family::Dungeon)[5] == Column::Affixes);
    assert(columns::family_columns(Family::Pvp)[2] == Column::ArenaMap);
    assert(columns::family_columns(Family::Pvp)[3] == Column::Result);
    assert(columns::family_columns(Family::Clip)[2] == Column::ClipType);
    assert(columns::family_columns(Family::Clip)[3] == Column::SourceActivity);
    assert(columns::family_columns(Family::Manual)[2] == Column::ManualType);
    assert forall|family: Family| #[trigger]
        columns::family_columns(family).contains(Column::Details) by {
        assert(columns::family_columns(family)[1] == Column::Details);
    }
    assert forall|family: Family| #[trigger]
        columns::family_columns(family).contains(Column::Duration) by {
        let all = columns::family_columns(family);
        assert(all[all.len() - 2] == Column::Duration);
    }
}

// --- actions on a selection ---

/// Protecting a selection protects all of its viewpoints, each named once,
/// unless every one of them is protected already: then it unprotects them.
/// The bar says which of the two it is.
pub proof fn selections_are_protected_unless_all_are(
    selected: Seq<&RowModel>,
    command: Option<Command>,
    pending: bool,
    bar: Option<BulkBar>,
    i: int,
)
    requires
        library::sets_protected(selected, command),
        library::bars(selected, pending, bar),
        0 <= i < selected.len(),
    ensures
        command matches Some(Command::SetProtected { ids, value }) && {
            &&& !selected[i].all_protected ==> value
            &&& !value ==> selected[i].all_protected
            &&& library::id_views(ids@).no_duplicates()
            &&& forall|k: int|
                0 <= k < selected[i].correlated_ids@.len() ==> library::id_views(ids@).contains(
                    (#[trigger] selected[i].correlated_ids@[k])@,
                )
            &&& bar matches Some(bar) && (bar.protect@ == "Protect"@ <==> value) && (bar.protect@
                == "Unprotect"@ <==> !value) && bar.sensitive == !pending
        },
{
    reveal_strlit("Protect");
    reveal_strlit("Unprotect");
    assert("Protect"@.len() == 7 && "Unprotect"@.len() == 9);
    library::firsts_hold_each_once(library::row_ids(selected));
    lemma_row_ids(selected, i);
}

/// Deleting a selection is asked for all of its viewpoints, each named once,
/// and for nothing else.
pub proof fn deleting_takes_all_viewpoints(
    selected: Seq<&RowModel>,
    prompt: Option<DeletePrompt>,
    i: int,
)
    requires
        library::asks_to_delete(selected, prompt),
        0 <= i < selected.len(),
    ensures
        prompt matches Some(prompt) && {
            &&& library::id_views(prompt.ids@).no_duplicates()
            &&& forall|k: int|
                0 <= k < selected[i].correlated_ids@.len() ==> library::id_views(
                    prompt.ids@,
                ).contains((#[trigger] selected[i].correlated_ids@[k])@)
            &&& forall|id: Seq<char>| #[trigger]
                library::id_views(prompt.ids@).contains(id) ==> is_selected(selected, id)
        },
{
    library::firsts_hold_each_once(library::row_ids(selected));
    lemma_row_ids(selected, i);
    let prompt = prompt->0;
    assert forall|id: Seq<char>| #[trigger]
        library::id_views(prompt.ids@).contains(id) implies is_selected(selected, id) by {
        assert(library::firsts(library::row_ids(selected)).contains(id));
        assert(library::row_ids(selected).contains(id));
        lemma_ids_are_selected(selected, id);
    }
}

/// One of the selected rows has a viewpoint of this identity.
pub open spec fn is_selected(selected: Seq<&RowModel>, id: Seq<char>) -> bool {
    exists|i: int|
        0 <= i < selected.len() && library::id_views(
            (#[trigger] selected[i]).correlated_ids@,
        ).contains(id)
}

proof fn lemma_row_ids(rows: Seq<&RowModel>, i: int)
    requires
        0 <= i < rows.len(),
    ensures
        forall|k: int|
            0 <= k < rows[i].correlated_ids@.len() ==> library::row_ids(rows).contains(
                (#[trigger] rows[i].correlated_ids@[k])@,
            ),
    decreases rows.len(),
{
    let front = rows.drop_last();
    let before = library::row_ids(front);
    let own = library::id_views(rows.last().correlated_ids@);
    let all = library::row_ids(rows);
    if i < front.len() {
        lemma_row_ids(front, i);
    }
    assert forall|k: int| 0 <= k < rows[i].correlated_ids@.len() implies all.contains(
        (#[trigger] rows[i].correlated_ids@[k])@,
    ) by {
        let id = rows[i].correlated_ids@[k]@;
        if i < front.len() {
            assert(front[i] == rows[i]);
            assert(before.contains(id));
            let at = choose|at: int| 0 <= at < before.len() && before[at] == id;
            assert(all[at] == id);
        } else {
            assert(own[k] == id);
            assert(all[before.len() + k] == id);
        }
    }
}

proof fn lemma_ids_are_selected(rows: Seq<&RowModel>, id: Seq<char>)
    requires
        library::row_ids(rows).contains(id),
    ensures
        is_selected(rows, id),
    decreases rows.len(),
{
    let front = rows.drop_last();
    let before = library::row_ids(front);
    let own = library::id_views(rows.last().correlated_ids@);
    let all = library::row_ids(rows);
    let at = choose|at: int| 0 <= at < all.len() && all[at] == id;
    if at < before.len() {
        assert(before[at] == id);
        lemma_ids_are_selected(front, id);
        let i = choose|i: int|
            0 <= i < front.len() && library::id_views(
                (#[trigger] front[i]).correlated_ids@,
            ).contains(id);
        assert(rows[i] == front[i]);
    } else {
        assert(own[at - before.len()] == id);
        assert(rows[rows.len() - 1] == rows.last());
    }
}

/// A star protects the whole activity, or unprotects it if all of it is
/// protected.
pub proof fn stars_are_for_the_whole_activity(row: RowModel, command: Command)
    requires
        library::toggles(row, command),
    ensures
        command matches Command::SetProtected { ids, value } && ids@ == row.correlated_ids@ && (
        value <==> !row.all_protected),
{
}

/// After the rows changed, what is selected was selected before; only if
/// nothing of that is left, the newest row is.
pub proof fn nothing_else_is_selected(
    visible: Seq<Seq<char>>,
    previous: Seq<Seq<char>>,
    place: int,
)
    requires
        library::selected_places(visible, previous).contains(place),
    ensures
        0 <= place < visible.len(),
        previous.contains(visible[place]) || (place == 0 && forall|i: int|
            0 <= i < visible.len() ==> !previous.contains(#[trigger] visible[i])),
{
    lemma_kept_only(visible, previous);
    let kept = library::kept_places(visible, previous);
    if kept.len() > 0 {
        let at = choose|at: int| 0 <= at < kept.len() && kept[at] == place;
        assert(kept[at] == place);
    } else {
        assert forall|i: int| 0 <= i < visible.len() implies !previous.contains(
            #[trigger] visible[i],
        ) by {
            if previous.contains(visible[i]) {
                library::surviving_rows_stay_selected(visible, previous, i);
                lemma_kept_some(visible, previous, i);
            }
        }
    }
}

proof fn lemma_kept_some(visible: Seq<Seq<char>>, previous: Seq<Seq<char>>, i: int)
    requires
        0 <= i < visible.len(),
        previous.contains(visible[i]),
    ensures
        library::kept_places(visible, previous).len() > 0,
    decreases visible.len(),
{
    if i < visible.len() - 1 {
        assert(visible.drop_last()[i] == visible[i]);
        lemma_kept_some(visible.drop_last(), previous, i);
    }
}

proof fn lemma_kept_only(visible: Seq<Seq<char>>, previous: Seq<Seq<char>>)
    ensures
        forall|at: int|
            0 <= at < library::kept_places(visible, previous).len() ==> {
                let place = #[trigger] library::kept_places(visible, previous)[at];
                0 <= place < visible.len() && previous.contains(visible[place])
            },
    decreases visible.len(),
{
    if visible.len() > 0 {
        let front = visible.drop_last();
        lemma_kept_only(front, previous);
        let before = library::kept_places(front, previous);
        let all = library::kept_places(visible, previous);
        assert forall|at: int| 0 <= at < all.len() implies {
            let place = #[trigger] all[at];
            0 <= place < visible.len() && previous.contains(visible[place])
        } by {
            if at < before.len() {
                assert(all[at] == before[at]);
                assert(front[before[at]] == visible[before[at]]);
            }
        }
    }
}

// --- times ---

/// The seconds that a time with colons stands for.
pub open spec fn read_clock(time: Seq<char>) -> nat
    decreases time.len(),
{
    let start = text::after_last(':', time, time.len() as int);
    if 0 < start <= time.len() {
        60 * read_clock(time.take(start - 1)) + text::digits_value(time.skip(start))
    } else {
        text::digits_value(time)
    }
}

proof fn lemma_two_digits(n: nat)
    requires
        n < 100,
    ensures
        text::padded(n, 2).len() == 2,
        text::is_digit(text::padded(n, 2)[0]),
        text::is_digit(text::padded(n, 2)[1]),
        text::digits_value(text::padded(n, 2)) == n,
{
    reveal_with_fuel(text::decimal, 2);
    reveal_with_fuel(text::digits_value, 3);
    let all = seq![text::digit(n / 10), text::digit(n % 10)];
    if n < 10 {
        assert(text::padded(n, 2) =~= seq!['0', text::digit(n)]);
    }
    assert(text::padded(n, 2) =~= all);
    assert(all.drop_last() =~= seq![text::digit(n / 10)]);
    assert(seq![text::digit(n / 10)].drop_last() =~= Seq::<char>::empty());
}

proof fn lemma_last_colon(front: Seq<char>, digits: Seq<char>, end: int)
    requires
        forall|i: int| 0 <= i < digits.len() ==> text::is_digit(#[trigger] digits[i]),
        front.len() + 1 <= end <= front.len() + 1 + digits.len(),
    ensures
        text::after_last(':', front + seq![':'] + digits, end) == front.len() + 1,
    decreases end,
{
    let all = front + seq![':'] + digits;
    if end > front.len() + 1 {
        let at = end - 1 - (front.len() + 1);
        assert(all[end - 1] == digits[at]);
        assert(text::is_digit(digits[at]));
        lemma_last_colon(front, digits, end - 1);
    } else {
        assert(all[end - 1] == ':');
    }
}

proof fn lemma_read_clock(front: Seq<char>, digits: Seq<char>)
    requires
        forall|i: int| 0 <= i < digits.len() ==> text::is_digit(#[trigger] digits[i]),
    ensures
        read_clock(front + seq![':'] + digits) == 60 * read_clock(front) + text::digits_value(digits),
{
    let all = front + seq![':'] + digits;
    lemma_last_colon(front, digits, all.len() as int);
    assert(all.take(front.len() as int) =~= front);
    assert(all.skip(front.len() as int + 1) =~= digits);
}

proof fn lemma_no_colon(digits: Seq<char>, end: int)
    requires
        forall|i: int| 0 <= i < digits.len() ==> text::is_digit(#[trigger] digits[i]),
        0 <= end <= digits.len(),
    ensures
        text::after_last(':', digits, end) == 0,
    decreases end,
{
    if end > 0 {
        assert(text::is_digit(digits[end - 1]));
        lemma_no_colon(digits, end - 1);
    }
}

/// A length is shown in hours, minutes and seconds that add up to it, with two
/// digits for the seconds.
pub proof fn lengths_are_shown_exactly(seconds: nat)
    ensures
        read_clock(status::clock(seconds)) == seconds,
        seconds < 3_600 ==> status::clock(seconds).len() == text::decimal(seconds / 60).len() + 3,
        seconds >= 3_600 ==> status::clock(seconds).len() == text::decimal(seconds / 3_600).len()
            + 6,
{
    reveal_strlit(":");
    assert(":"@ =~= seq![':']);
    let rest = text::padded(seconds % 60, 2);
    lemma_two_digits(seconds % 60);
    if seconds >= 3_600 {
        let hours = text::decimal(seconds / 3_600);
        let minutes = text::padded(seconds % 3_600 / 60, 2);
        text::numbers_read_back(seconds / 3_600);
        lemma_two_digits(seconds % 3_600 / 60);
        lemma_no_colon(hours, hours.len() as int);
        assert(read_clock(hours) == seconds / 3_600);
        lemma_read_clock(hours, minutes);
        lemma_read_clock(hours + seq![':'] + minutes, rest);
        assert(status::clock(seconds) =~= hours + seq![':'] + minutes + seq![':'] + rest);
    } else {
        let minutes = text::decimal(seconds / 60);
        text::numbers_read_back(seconds / 60);
        lemma_no_colon(minutes, minutes.len() as int);
        assert(read_clock(minutes) == seconds / 60);
        lemma_read_clock(minutes, rest);
        assert(status::clock(seconds) =~= minutes + seq![':'] + rest);
    }
}

} // verus!
