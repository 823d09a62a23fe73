//! The columns of the library's table.
use vstd::prelude::*;

use crate::text;
use crate::text::{decimal_text, place_text, push_signed, Place};
use crate::ui::library::{format_duration, Family, RowModel};
use crate::ui::status;

verus! {

#[derive(Clone, Copy, Debug, PartialEq, Eq, Structural)]
pub enum Column {
    /// Whether every viewpoint of the activity is protected.
    Star,
    Details,
    Encounter,
    Result,
    Pull,
    Difficulty,
    Dungeon,
    Level,
    Affixes,
    ArenaMap,
    ClipType,
    SourceActivity,
    ManualType,
    Duration,
    /// When the recording started, in the machine's time zone.
    Date,
}

/// A pull's number, or nothing.
pub open spec fn pull_words(pull: Option<u32>) -> Seq<char> {
    match pull {
        Some(pull) => text::decimal(pull as nat),
        None => seq![],
    }
}

fn pull_label(pull: Option<u32>) -> (label: String)
    ensures
        label@ == pull_words(pull),
{
    match pull {
        Some(pull) => decimal_text(pull as u64),
        None => {
            let label = String::new();
            assert(label@ =~= seq![]);
            label
        },
    }
}

/// A keystone's level, where there is one.
pub open spec fn level_words(level: i64) -> Seq<char> {
    if level > 0 {
        "+"@ + text::signed_decimal(level as int)
    } else {
        seq![]
    }
}

pub fn level_label(level: i64) -> (label: String)
    ensures
        label@ == level_words(level),
{
    let mut label = String::new();
    if level > 0 {
        label.append("+");
        push_signed(&mut label, level);
    }
    assert(label@ =~= level_words(level));
    label
}

/// What a number column sorts by, and a pull that is not known as the zeroth.
pub open spec fn pull_number(pull: Option<u32>) -> int {
    match pull {
        Some(pull) => pull as int,
        None => 0,
    }
}

fn place_number(a: i128, b: i128) -> (place: Place)
    ensures
        place == text::number_place(a as int, b as int),
{
    if a < b {
        Place::Before
    } else if a == b {
        Place::Same
    } else {
        Place::After
    }
}

fn pull_key(pull: Option<u32>) -> (number: i128)
    ensures
        number == pull_number(pull),
{
    match pull {
        Some(pull) => pull as i128,
        None => 0,
    }
}

impl Column {
    pub open spec fn title_words(self) -> Seq<char> {
        match self {
            Column::Star => "★"@,
            Column::Details => "Details"@,
            Column::Encounter => "Encounter"@,
            Column::Result => "Result"@,
            Column::Pull => "Pull"@,
            Column::Difficulty => "Difficulty"@,
            Column::Dungeon => "Dungeon"@,
            Column::Level => "Level"@,
            Column::Affixes => "Affixes"@,
            Column::ArenaMap => "Map"@,
            Column::ClipType => "Type"@,
            Column::SourceActivity => "Source activity"@,
            Column::ManualType => "Type"@,
            Column::Duration => "Duration"@,
            Column::Date => "Date"@,
        }
    }

    pub fn title(self) -> (title: &'static str)
        ensures
            title@ == self.title_words(),
    {
        match self {
            Column::Star => "★",
            Column::Details => "Details",
            Column::Encounter => "Encounter",
            Column::Result => "Result",
            Column::Pull => "Pull",
            Column::Difficulty => "Difficulty",
            Column::Dungeon => "Dungeon",
            Column::Level => "Level",
            Column::Affixes => "Affixes",
            Column::ArenaMap => "Map",
            Column::ClipType => "Type",
            Column::SourceActivity => "Source activity",
            Column::ManualType => "Type",
            Column::Duration => "Duration",
            Column::Date => "Date",
        }
    }

    /// The column takes up what room is left.
    pub open spec fn takes_room(self) -> bool {
        ||| self is Details
        ||| self is Encounter
        ||| self is Dungeon
        ||| self is ArenaMap
        ||| self is SourceActivity
        ||| self is ManualType
    }

    pub fn expands(self) -> (expands: bool)
        ensures
            expands == self.takes_room(),
    {
        match self {
            Column::Details
            | Column::Encounter
            | Column::Dungeon
            | Column::ArenaMap
            | Column::SourceActivity
            | Column::ManualType => true,
            _ => false,
        }
    }

    /// The user can drag the column's width and sort by it.
    pub fn resizable(self) -> (resizable: bool)
        ensures
            resizable == !(self is Star),
    {
        match self {
            Column::Star => false,
            _ => true,
        }
    }

    /// The text of a row's cell; the star is no text, and a date depends on
    /// the machine's time zone.
    pub open spec fn cell(self, row: RowModel) -> Option<Seq<char>> {
        match self {
            Column::Star => None,
            Column::Details => Some(row.details@),
            Column::Encounter => Some(row.fields.encounter@),
            Column::Result => Some(row.result@),
            Column::Pull => Some(pull_words(row.fields.pull)),
            Column::Difficulty => Some(row.fields.difficulty@),
            Column::Dungeon => Some(row.fields.place@),
            Column::Level => Some(level_words(row.fields.level)),
            Column::Affixes => Some(row.fields.affixes@),
            Column::ArenaMap => Some(row.fields.place@),
            Column::ClipType => Some(row.fields.kind@),
            Column::SourceActivity => Some(row.fields.source@),
            Column::ManualType => Some(row.fields.kind@),
            Column::Duration => Some(status::clock((row.duration_ms / 1000) as nat)),
            Column::Date => None,
        }
    }

    pub fn cell_text(self, row: &RowModel) -> (cell: Option<String>)
        ensures
            crate::domain::text_view(cell) == self.cell(*row),
    {
        match self {
            Column::Star => None,
            Column::Details => Some(row.details.clone()),
            Column::Encounter => Some(row.fields.encounter.clone()),
            Column::Result => Some(row.result.clone()),
            Column::Pull => Some(pull_label(row.fields.pull)),
            Column::Difficulty => Some(row.fields.difficulty.clone()),
            Column::Dungeon => Some(row.fields.place.clone()),
            Column::Level => Some(level_label(row.fields.level)),
            Column::Affixes => Some(row.fields.affixes.clone()),
            Column::ArenaMap => Some(row.fields.place.clone()),
            Column::ClipType => Some(row.fields.kind.clone()),
            Column::SourceActivity => Some(row.fields.source.clone()),
            Column::ManualType => Some(row.fields.kind.clone()),
            Column::Duration => Some(format_duration(row.duration_ms)),
            Column::Date => None,
        }
    }

    /// Where one row stands to another when the table is sorted by the column.
    pub open spec fn spec_order(self, a: RowModel, b: RowModel) -> Place {
        match self {
            Column::Star => Place::Same,
            Column::Details => text::text_place(a.details@, b.details@),
            Column::Encounter => text::text_place(a.fields.encounter@, b.fields.encounter@),
            Column::Result => text::number_place(a.outcome_order as int, b.outcome_order as int),
            Column::Pull => text::number_place(pull_number(a.fields.pull), pull_number(b.fields.pull)),
            Column::Difficulty => text::number_place(a.fields.difficulty_order as int, b.fields.difficulty_order as int),
            Column::Dungeon => text::text_place(a.fields.place@, b.fields.place@),
            Column::Level => text::number_place(a.fields.level as int, b.fields.level as int),
            Column::Affixes => text::text_place(a.fields.affixes@, b.fields.affixes@),
            Column::ArenaMap => text::text_place(a.fields.place@, b.fields.place@),
            Column::ClipType => text::text_place(a.fields.kind@, b.fields.kind@),
            Column::SourceActivity => text::text_place(a.fields.source@, b.fields.source@),
            Column::ManualType => text::text_place(a.fields.kind@, b.fields.kind@),
            Column::Duration => text::number_place(a.duration_ms as int, b.duration_ms as int),
            Column::Date => text::number_place(a.date_ms as int, b.date_ms as int),
        }
    }

    pub fn order(self, a: &RowModel, b: &RowModel) -> (place: Place)
        ensures
            place == self.spec_order(*a, *b),
    {
        match self {
            Column::Star => Place::Same,
            Column::Details => place_text(&a.details, &b.details),
            Column::Encounter => place_text(&a.fields.encounter, &b.fields.encounter),
            Column::Result => place_number(a.outcome_order as i128, b.outcome_order as i128),
            Column::Pull => place_number(pull_key(a.fields.pull), pull_key(b.fields.pull)),
            Column::Difficulty => place_number(a.fields.difficulty_order as i128, b.fields.difficulty_order as i128),
            Column::Dungeon => place_text(&a.fields.place, &b.fields.place),
            Column::Level => place_number(a.fields.level as i128, b.fields.level as i128),
            Column::Affixes => place_text(&a.fields.affixes, &b.fields.affixes),
            Column::ArenaMap => place_text(&a.fields.place, &b.fields.place),
            Column::ClipType => place_text(&a.fields.kind, &b.fields.kind),
            Column::SourceActivity => place_text(&a.fields.source, &b.fields.source),
            Column::ManualType => place_text(&a.fields.kind, &b.fields.kind),
            Column::Duration => place_number(a.duration_ms as i128, b.duration_ms as i128),
            Column::Date => place_number(a.date_ms as i128, b.date_ms as i128),
        }
    }
}

/// Every column puts rows into an order: a row stands where it stands, the
/// order of two rows does not depend on which is asked first, and what comes
/// before comes before all that follows.
pub proof fn columns_order_rows(column: Column, a: RowModel, b: RowModel, c: RowModel)
    ensures
        column.spec_order(a, a) == Place::Same,
        column.spec_order(a, b) == Place::Before <==> column.spec_order(b, a) == Place::After,
        column.spec_order(a, b) == Place::Before && column.spec_order(b, c) == Place::Before
            ==> column.spec_order(a, c) == Place::Before,
{
    match column {
        Column::Details => {
            text::texts_are_ordered(a.details@, b.details@, c.details@);
            text::texts_are_ordered(b.details@, a.details@, c.details@);
        },
        Column::Encounter => {
            text::texts_are_ordered(a.fields.encounter@, b.fields.encounter@, c.fields.encounter@);
            text::texts_are_ordered(b.fields.encounter@, a.fields.encounter@, c.fields.encounter@);
        },
        Column::Dungeon => {
            text::texts_are_ordered(a.fields.place@, b.fields.place@, c.fields.place@);
            text::texts_are_ordered(b.fields.place@, a.fields.place@, c.fields.place@);
        },
        Column::Affixes => {
            text::texts_are_ordered(a.fields.affixes@, b.fields.affixes@, c.fields.affixes@);
            text::texts_are_ordered(b.fields.affixes@, a.fields.affixes@, c.fields.affixes@);
        },
        Column::ArenaMap => {
            text::texts_are_ordered(a.fields.place@, b.fields.place@, c.fields.place@);
            text::texts_are_ordered(b.fields.place@, a.fields.place@, c.fields.place@);
        },
        Column::ClipType => {
            text::texts_are_ordered(a.fields.kind@, b.fields.kind@, c.fields.kind@);
            text::texts_are_ordered(b.fields.kind@, a.fields.kind@, c.fields.kind@);
        },
        Column::SourceActivity => {
            text::texts_are_ordered(a.fields.source@, b.fields.source@, c.fields.source@);
            text::texts_are_ordered(b.fields.source@, a.fields.source@, c.fields.source@);
        },
        Column::ManualType => {
            text::texts_are_ordered(a.fields.kind@, b.fields.kind@, c.fields.kind@);
            text::texts_are_ordered(b.fields.kind@, a.fields.kind@, c.fields.kind@);
        },
        _ => {},
    }
}

/// The columns of a family, from left to right.
pub open spec fn family_columns(family: Family) -> Seq<Column> {
    match family {
        Family::Raid => seq![
            Column::Star,
            Column::Details,
            Column::Encounter,
            Column::Result,
            Column::Pull,
            Column::Difficulty,
            Column::Duration,
            Column::Date,
        ],
        Family::Dungeon => seq![
            Column::Star,
            Column::Details,
            Column::Dungeon,
            Column::Result,
            Column::Level,
            Column::Affixes,
            Column::Duration,
            Column::Date,
        ],
        Family::Pvp => seq![
            Column::Star,
            Column::Details,
            Column::ArenaMap,
            Column::Result,
            Column::Duration,
            Column::Date,
        ],
        Family::Clip => seq![
            Column::Star,
            Column::Details,
            Column::ClipType,
            Column::SourceActivity,
            Column::Duration,
            Column::Date,
        ],
        Family::Manual => seq![
            Column::Star,
            Column::Details,
            Column::ManualType,
            Column::Duration,
            Column::Date,
        ],
    }
}

pub fn columns_for(family: Family) -> (columns: Vec<Column>)
    ensures
        columns@ == family_columns(family),
{
    let columns: Vec<Column> = match family {
        Family::Raid => vec![
            Column::Star,
            Column::Details,
            Column::Encounter,
            Column::Result,
            Column::Pull,
            Column::Difficulty,
            Column::Duration,
            Column::Date,
        ],
        Family::Dungeon => vec![
            Column::Star,
            Column::Details,
            Column::Dungeon,
            Column::Result,
            Column::Level,
            Column::Affixes,
            Column::Duration,
            Column::Date,
        ],
        Family::Pvp => vec![
            Column::Star,
            Column::Details,
            Column::ArenaMap,
            Column::Result,
            Column::Duration,
            Column::Date,
        ],
        Family::Clip => vec![
            Column::Star,
            Column::Details,
            Column::ClipType,
            Column::SourceActivity,
            Column::Duration,
            Column::Date,
        ],
        Family::Manual => vec![
            Column::Star,
            Column::Details,
            Column::ManualType,
            Column::Duration,
            Column::Date,
        ],
    };
    assert(columns@ =~= family_columns(family));
    columns
}

/// No column stands twice in a table, every table starts with the star and
/// ends with the date.
pub proof fn tables_hold_each_column_once(family: Family)
    ensures
        family_columns(family).no_duplicates(),
        family_columns(family).first() == Column::Star,
        family_columns(family).last() == Column::Date,
{
}

/// The style that goes with a row's place among the results.
pub open spec fn styled(row: RowModel, class: Option<&'static str>) -> bool {
    match class {
        Some(class) => (row.outcome_order == 0 && class@ == "wr-result-win"@) || (row.outcome_order
            == 1 && class@ == "wr-result-loss"@),
        None => row.outcome_order > 1,
    }
}

/// The style of a row's result: the label conveys the meaning, the color only
/// reinforces it.
pub fn result_class(row: &RowModel) -> (class: Option<&'static str>)
    ensures
        styled(*row, class),
{
    match row.outcome_order {
        0 => Some("wr-result-win"),
        1 => Some("wr-result-loss"),
        _ => None,
    }
}

} // verus!
