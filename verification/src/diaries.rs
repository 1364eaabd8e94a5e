//! The diaries of the opened folder. A diary is named after the moment it was started,
//! `yymmddHHMMSS` followed by a dot and the extension of the folder, so its name tells its day
//! and its hour, and the list of diaries is kept newest first. This module decides which diary
//! a click on a day, an arrow key or the creation of a diary opens, and what opening, starting a
//! draft and saving do to the state; reading and writing the files is left to the caller.

use vstd::prelude::*;

use crate::calendar::{calendar_key_offset, calendar_offset, months_since_year_zero, CalendarMonth};
use crate::keys::KeyInput;
use crate::state::{AppState, CurrentDiary, DiaryListItem};
use crate::text::{chars_of, digit, digit_char, string_from_chars};

verus! {

/// The number of characters at the start of a name that tell the day: `yymmdd`.
pub const DAY_KEY_LENGTH: usize = 6;

/// The number of characters at the start of a name that tell the hour: `yymmddHH`.
pub const HOUR_KEY_LENGTH: usize = 8;

/// A moment, as a diary name tells it.
#[derive(Debug, Clone, Copy, PartialEq, Eq, Structural)]
pub struct DiaryStamp {
    /// The year, of which the name keeps the last two digits.
    pub year: u32,
    pub month: u32,
    pub day: u32,
    pub hour: u32,
    pub minute: u32,
    pub second: u32,
}

/// Whether every part of `stamp` but the year has two digits at most, as the parts of a moment
/// do.
pub open spec fn fits_two_digits(stamp: DiaryStamp) -> bool {
    &&& stamp.month < 100
    &&& stamp.day < 100
    &&& stamp.hour < 100
    &&& stamp.minute < 100
    &&& stamp.second < 100
}

/// The two decimal digits of `n`, which is below a hundred.
pub open spec fn two_digits(n: nat) -> Seq<char> {
    seq![digit_char(n / 10), digit_char(n % 10)]
}

/// The name of the moment `stamp` without extension: `yymmddHHMMSS`.
pub open spec fn stamp_text(stamp: DiaryStamp) -> Seq<char> {
    two_digits((stamp.year % 100) as nat) + two_digits(stamp.month as nat) + two_digits(
        stamp.day as nat,
    ) + two_digits(stamp.hour as nat) + two_digits(stamp.minute as nat) + two_digits(
        stamp.second as nat,
    )
}

/// The start of the names of the diaries of the day of `stamp`: `yymmdd`.
pub open spec fn day_key_of(stamp: DiaryStamp) -> Seq<char> {
    stamp_text(stamp).take(DAY_KEY_LENGTH as int)
}

/// The start of the names of the diaries of the hour of `stamp`: `yymmddHH`.
pub open spec fn hour_key_of(stamp: DiaryStamp) -> Seq<char> {
    stamp_text(stamp).take(HOUR_KEY_LENGTH as int)
}

/// The name of a diary started at `stamp` in a folder whose diaries have `extension`.
pub open spec fn diary_name_of(stamp: DiaryStamp, extension: Seq<char>) -> Seq<char> {
    stamp_text(stamp) + seq!['.'] + extension
}

/// Whether `name` begins with `prefix`.
pub open spec fn has_prefix(name: Seq<char>, prefix: Seq<char>) -> bool {
    prefix.len() <= name.len() && name.take(prefix.len() as int) == prefix
}

/// Appends the two decimal digits of `n`, which is below a hundred, to `text`.
fn push_two_digits(text: &mut Vec<char>, n: u32)
    requires
        n < 100,
    ensures
        final(text)@ == old(text)@ + two_digits(n as nat),
{
    text.push(digit((n / 10) as u64));
    text.push(digit((n % 10) as u64));
    assert(final(text)@ =~= old(text)@ + two_digits(n as nat));
}

/// Returns the characters of the name of the moment `stamp`: `yymmddHHMMSS`.
fn stamp_chars(stamp: &DiaryStamp) -> (chars: Vec<char>)
    requires
        fits_two_digits(*stamp),
    ensures
        chars@ == stamp_text(*stamp),
{
    let mut chars: Vec<char> = Vec::new();
    push_two_digits(&mut chars, stamp.year % 100);
    push_two_digits(&mut chars, stamp.month);
    push_two_digits(&mut chars, stamp.day);
    push_two_digits(&mut chars, stamp.hour);
    push_two_digits(&mut chars, stamp.minute);
    push_two_digits(&mut chars, stamp.second);
    assert(chars@ =~= stamp_text(*stamp));
    chars
}

/// Returns the start of the names of the diaries of the day of `stamp`: `yymmdd`.
pub fn day_key(stamp: &DiaryStamp) -> (key: Vec<char>)
    requires
        fits_two_digits(*stamp),
    ensures
        key@ == day_key_of(*stamp),
{
    let mut chars = stamp_chars(stamp);
    chars.truncate(DAY_KEY_LENGTH);
    chars
}

/// Returns the start of the names of the diaries of the hour of `stamp`: `yymmddHH`.
pub fn hour_key(stamp: &DiaryStamp) -> (key: Vec<char>)
    requires
        fits_two_digits(*stamp),
    ensures
        key@ == hour_key_of(*stamp),
{
    let mut chars = stamp_chars(stamp);
    chars.truncate(HOUR_KEY_LENGTH);
    chars
}

/// Returns the name of a diary started at `stamp` in a folder whose diaries have `extension`,
/// such as `240115090000.md`.
pub fn diary_name(stamp: &DiaryStamp, extension: &str) -> (name: String)
    requires
        fits_two_digits(*stamp),
    ensures
        name@ == diary_name_of(*stamp, extension@),
{
    let mut chars = stamp_chars(stamp);
    chars.push('.');
    let mut name = string_from_chars(&chars);
    name.append(extension);
    name
}

/// Returns whether `name` begins with `prefix`.
pub fn starts_with(name: &str, prefix: &Vec<char>) -> (result: bool)
    ensures
        result == has_prefix(name@, prefix@),
{
    let chars = chars_of(name);
    if prefix.len() > chars.len() {
        return false;
    }
    let mut i: usize = 0;
    while i < prefix.len()
        invariant
            i <= prefix.len(),
            prefix.len() <= chars@.len(),
            chars@ == name@,
            forall|j: int| 0 <= j < i ==> chars@[j] == prefix@[j],
        decreases prefix.len() - i,
    {
        if chars[i] != prefix[i] {
            assert(name@.take(prefix.len() as int)[i as int] != prefix@[i as int]);
            return false;
        }
        i = i + 1;
    }
    assert(name@.take(prefix.len() as int) =~= prefix@);
    true
}

/// Whether `index` is the first position of `diaries` whose diary is named with `prefix`.
pub open spec fn is_first_with_prefix(diaries: Seq<DiaryListItem>, prefix: Seq<char>, index: int) -> bool {
    &&& 0 <= index < diaries.len()
    &&& has_prefix(diaries[index].file_name@, prefix)
    &&& forall|j: int| 0 <= j < index ==> !has_prefix(#[trigger] diaries[j].file_name@, prefix)
}

/// Whether no diary of `diaries` is named with `prefix`.
pub open spec fn none_with_prefix(diaries: Seq<DiaryListItem>, prefix: Seq<char>) -> bool {
    forall|j: int| 0 <= j < diaries.len() ==> !has_prefix(#[trigger] diaries[j].file_name@, prefix)
}

/// Returns the first position of `diaries` whose diary is named with `prefix`, if any.
fn first_with_prefix(diaries: &Vec<DiaryListItem>, prefix: &Vec<char>) -> (found: Option<usize>)
    ensures
        match found {
            Some(index) => is_first_with_prefix(diaries@, prefix@, index as int),
            None => none_with_prefix(diaries@, prefix@),
        },
{
    let mut i: usize = 0;
    while i < diaries.len()
        invariant
            i <= diaries@.len(),
            forall|j: int| 0 <= j < i ==> !has_prefix(#[trigger] diaries@[j].file_name@, prefix@),
        decreases diaries.len() - i,
    {
        if starts_with(diaries[i].file_name.as_str(), prefix) {
            return Some(i);
        }
        i = i + 1;
    }
    None
}

/// What creating a diary for the current moment comes down to.
#[derive(Debug, Clone, PartialEq, Eq)]
pub enum CreateStep {
    /// The draft of this hour is open already and stays open with what was written into it.
    KeepDraft,
    /// The diary at this position of the list belongs to this hour and is opened instead.
    Open(usize),
    /// The hour has no diary yet: a diary of this name is created, listed and opened.
    CreateNamed(String),
}

/// Whether the opened diary is a draft of the hour whose names start with `hour_key`.
pub open spec fn draft_of_hour_open(app_state: &AppState, hour_key: Seq<char>) -> bool {
    &&& app_state.current_diary.is_selected
    &&& app_state.current_diary.is_draft
    &&& has_prefix(app_state.current_diary.diary.file_name@, hour_key)
}

/// Decides what creating a diary at the moment `now` does, in a folder whose diaries have
/// `extension`. Only one diary is made per hour: an open draft of this hour stays open, the
/// first listed diary of this hour is opened, and only an hour without one gets a new diary.
pub fn create_step(app_state: &AppState, now: &DiaryStamp, extension: &str) -> (step: CreateStep)
    requires
        fits_two_digits(*now),
    ensures
        draft_of_hour_open(app_state, hour_key_of(*now)) ==> step == CreateStep::KeepDraft,
        !draft_of_hour_open(app_state, hour_key_of(*now)) ==> match step {
            CreateStep::KeepDraft => false,
            CreateStep::Open(index) => is_first_with_prefix(
                app_state.diaries@,
                hour_key_of(*now),
                index as int,
            ),
            CreateStep::CreateNamed(name) => none_with_prefix(
                app_state.diaries@,
                hour_key_of(*now),
            ) && name@ == diary_name_of(*now, extension@),
        },
{
    let key = hour_key(now);
    let current = &app_state.current_diary;
    if current.is_selected && current.is_draft && starts_with(current.diary.file_name.as_str(), &key) {
        return CreateStep::KeepDraft;
    }
    match first_with_prefix(&app_state.diaries, &key) {
        Some(index) => CreateStep::Open(index),
        None => CreateStep::CreateNamed(diary_name(now, extension)),
    }
}

/// Whether `day` lists, in the order of `diaries`, exactly the positions of the diaries whose
/// names start with `key`.
pub open spec fn positions_of_day(diaries: Seq<DiaryListItem>, key: Seq<char>, day: Seq<usize>) -> bool {
    &&& forall|j: int|
        0 <= j < day.len() ==> #[trigger] day[j] < diaries.len() && has_prefix(
            diaries[day[j] as int].file_name@,
            key,
        )
    &&& forall|i: int, j: int| 0 <= i < j < day.len() ==> #[trigger] day[i] < #[trigger] day[j]
    &&& forall|k: int|
        0 <= k < diaries.len() && has_prefix(#[trigger] diaries[k].file_name@, key) ==> exists|
            j: int,
        |
            0 <= j < day.len() && day[j] == k
}

/// Returns the positions of the diaries of the day whose names start with `key`, in the order
/// of the list, so newest first.
pub fn diaries_of_day(app_state: &AppState, key: &Vec<char>) -> (day: Vec<usize>)
    ensures
        positions_of_day(app_state.diaries@, key@, day@),
{
    let mut day: Vec<usize> = Vec::new();
    let mut i: usize = 0;
    while i < app_state.diaries.len()
        invariant
            i <= app_state.diaries@.len(),
            forall|j: int|
                0 <= j < day@.len() ==> #[trigger] day@[j] < i && has_prefix(
                    app_state.diaries@[day@[j] as int].file_name@,
                    key@,
                ),
            forall|a: int, b: int| 0 <= a < b < day@.len() ==> #[trigger] day@[a] < #[trigger] day@[b],
            forall|k: int|
                0 <= k < i && has_prefix(#[trigger] app_state.diaries@[k].file_name@, key@)
                    ==> exists|j: int| 0 <= j < day@.len() && day@[j] == k,
        decreases app_state.diaries.len() - i,
    {
        if starts_with(app_state.diaries[i].file_name.as_str(), key) {
            let ghost before = day@;
            day.push(i);
            assert forall|k: int|
                0 <= k < i + 1 && has_prefix(#[trigger] app_state.diaries@[k].file_name@, key@)
                    implies exists|j: int| 0 <= j < day@.len() && day@[j] == k by {
                if k == i {
                    assert(day@[before.len() as int] == k);
                } else {
                    let j = choose|j: int| 0 <= j < before.len() && before[j] == k;
                    assert(day@[j] == k);
                }
            }
        }
        i = i + 1;
    }
    day
}

/// What the calendar and the list of diaries ask the window to do when a diary or a day is
/// chosen. The opened diary is always saved first, so that nothing written is lost; only then is
/// the chosen diary opened or a draft of the chosen day started.
#[derive(Debug, Clone, Copy, PartialEq, Eq, Structural)]
pub enum BrowseStep {
    /// Save the opened diary, then open the diary at this position of the list.
    SaveThenOpen(usize),
    /// Save the opened diary, then start a draft of the chosen day, which has no diary
    /// ([`start_draft`]).
    SaveThenStartDraft,
}

/// Whether the diary at position `index` of the list is the opened one.
pub open spec fn is_opened(app_state: &AppState, index: int) -> bool {
    app_state.current_diary.is_selected && app_state.diaries@[index].file_name@
        == app_state.current_diary.diary.file_name@
}

/// The first place of `day` whose diary is the opened one, or the length of `day` when none is.
pub open spec fn opened_place(app_state: &AppState, day: Seq<usize>) -> int
    decreases day.len(),
{
    if day.len() == 0 {
        0
    } else {
        let place = opened_place(app_state, day.drop_last());
        if place < day.len() - 1 {
            place
        } else if is_opened(app_state, day.last() as int) {
            day.len() - 1
        } else {
            day.len() as int
        }
    }
}

/// The place of `day` that a click opens: the one after the opened diary, or the first, which
/// is the latest, when the opened diary is the last of the day or not of the day at all.
pub open spec fn next_in_day(app_state: &AppState, day: Seq<usize>) -> int {
    if opened_place(app_state, day) + 1 < day.len() {
        opened_place(app_state, day) + 1
    } else {
        0
    }
}

/// Decides what a click on a day does. `day` holds the positions in the list of the day's
/// diaries, newest first, as [`diaries_of_day`] gives them. The opened diary is saved first in
/// any case. Then a day without diaries starts a draft; otherwise the click opens the latest
/// diary of the day, and a click on the day of the opened diary opens the next older one,
/// starting over after the oldest.
pub fn day_click(app_state: &AppState, day: &Vec<usize>) -> (click: BrowseStep)
    requires
        forall|k: int| 0 <= k < day@.len() ==> #[trigger] day@[k] < app_state.diaries@.len(),
    ensures
        day@.len() == 0 ==> click == BrowseStep::SaveThenStartDraft,
        day@.len() > 0 ==> click == BrowseStep::SaveThenOpen(day@[next_in_day(app_state, day@)]),
{
    if day.len() == 0 {
        return BrowseStep::SaveThenStartDraft;
    }
    let mut place: usize = 0;
    while place < day.len()
        invariant
            place <= day@.len(),
            forall|k: int| 0 <= k < day@.len() ==> #[trigger] day@[k] < app_state.diaries@.len(),
            opened_place(app_state, day@.take(place as int)) == place,
        decreases day.len() - place,
    {
        let index = day[place];
        let opened = app_state.current_diary.is_selected && app_state.diaries[index].file_name.eq(
            &app_state.current_diary.diary.file_name,
        );
        assert(day@.take(place + 1).drop_last() =~= day@.take(place as int));
        if opened {
            proof {
                lemma_opened_place_keeps(app_state, day@, place as int, place + 1);
            }
            let next = if place + 1 < day.len() {
                place + 1
            } else {
                0
            };
            return BrowseStep::SaveThenOpen(day[next]);
        }
        place = place + 1;
    }
    proof {
        assert(day@.take(day@.len() as int) =~= day@);
    }
    BrowseStep::SaveThenOpen(day[0])
}

/// A place found in a first part of the day stays the place in every longer part.
proof fn lemma_opened_place_keeps(app_state: &AppState, day: Seq<usize>, place: int, length: int)
    requires
        0 <= place < length <= day.len(),
        opened_place(app_state, day.take(length)) == place,
    ensures
        opened_place(app_state, day) == place,
    decreases day.len() - length,
{
    if length < day.len() {
        assert(day.take(length + 1).drop_last() =~= day.take(length));
        lemma_opened_place_keeps(app_state, day, place, length + 1);
    } else {
        assert(day.take(length) =~= day);
    }
}

/// Whether the name `a` comes before the name `b` in the order of characters, so that of two
/// diary names the older one comes first.
pub open spec fn name_before(a: Seq<char>, b: Seq<char>) -> bool
    decreases a.len(),
{
    if a.len() == 0 {
        b.len() > 0
    } else if b.len() == 0 {
        false
    } else if a[0] != b[0] {
        (a[0] as u32) < (b[0] as u32)
    } else {
        name_before(a.drop_first(), b.drop_first())
    }
}

/// Returns whether the name `a` comes before the name `b` in the order of characters.
pub fn is_name_before(a: &str, b: &str) -> (before: bool)
    ensures
        before == name_before(a@, b@),
{
    let x = chars_of(a);
    let y = chars_of(b);
    let mut i: usize = 0;
    assert(a@.skip(0) =~= a@ && b@.skip(0) =~= b@);
    while i < x.len() && i < y.len() && x[i] == y[i]
        invariant
            i <= x@.len(),
            i <= y@.len(),
            x@ == a@,
            y@ == b@,
            name_before(a@, b@) == name_before(a@.skip(i as int), b@.skip(i as int)),
        decreases x.len() - i,
    {
        assert(a@.skip(i as int).drop_first() =~= a@.skip(i + 1));
        assert(b@.skip(i as int).drop_first() =~= b@.skip(i + 1));
        i = i + 1;
    }
    if i == x.len() {
        i < y.len()
    } else if i == y.len() {
        false
    } else {
        (x[i] as u32) < (y[i] as u32)
    }
}

/// Whether the diary at `index` is the first of the list that is older than a diary named
/// `name` would be, or `index` is the length of the list when none is older.
pub open spec fn is_first_older(diaries: Seq<DiaryListItem>, name: Seq<char>, index: int) -> bool {
    &&& 0 <= index <= diaries.len()
    &&& index < diaries.len() ==> name_before(diaries[index].file_name@, name)
    &&& forall|j: int| 0 <= j < index ==> !name_before(#[trigger] diaries[j].file_name@, name)
}

/// Returns the first position of the list whose diary is older than a diary named `name`, or
/// the length of the list when none is.
fn first_older(diaries: &Vec<DiaryListItem>, name: &str) -> (index: usize)
    ensures
        is_first_older(diaries@, name@, index as int),
{
    let mut i: usize = 0;
    while i < diaries.len()
        invariant
            i <= diaries@.len(),
            forall|j: int| 0 <= j < i ==> !name_before(#[trigger] diaries@[j].file_name@, name@),
        decreases diaries.len() - i,
    {
        if is_name_before(diaries[i].file_name.as_str(), name) {
            return i;
        }
        i = i + 1;
    }
    i
}

/// Whether `index` is the first position of the list whose diary is the opened one.
pub open spec fn is_opened_position(app_state: &AppState, index: int) -> bool {
    &&& 0 <= index < app_state.diaries@.len()
    &&& is_opened(app_state, index)
    &&& forall|j: int| 0 <= j < index ==> !is_opened(app_state, j)
}

/// Returns the first position of the list whose diary is the opened one, if any.
fn opened_position(app_state: &AppState) -> (position: Option<usize>)
    requires
        app_state.current_diary.is_selected,
    ensures
        match position {
            Some(index) => is_opened_position(app_state, index as int),
            None => opened_not_listed(app_state),
        },
{
    let mut j: usize = 0;
    while j < app_state.diaries.len()
        invariant
            j <= app_state.diaries@.len(),
            app_state.current_diary.is_selected,
            forall|k: int| 0 <= k < j ==> !is_opened(app_state, k),
        decreases app_state.diaries.len() - j,
    {
        if app_state.diaries[j].file_name.eq(&app_state.current_diary.diary.file_name) {
            return Some(j);
        }
        j = j + 1;
    }
    None
}

/// Whether the opened diary is in no place of the list, as a draft is not.
pub open spec fn opened_not_listed(app_state: &AppState) -> bool {
    forall|j: int| 0 <= j < app_state.diaries@.len() ==> !is_opened(app_state, j)
}

/// The position `offset` places away from `from`, towards older diaries for a positive offset,
/// if it lies in the list.
pub open spec fn moved(from: int, offset: int, count: int) -> Option<usize> {
    if 0 <= from + offset < count {
        Some((from + offset) as usize)
    } else {
        None
    }
}

/// The position of the diary that lies `offset` diaries away from the opened one, as
/// [`relative_diary`] finds it.
pub open spec fn relative_position(app_state: &AppState, offset: int) -> Option<usize> {
    let count = app_state.diaries@.len() as int;
    if !app_state.current_diary.is_selected {
        None
    } else if exists|index: int| is_opened_position(app_state, index) {
        moved(choose|index: int| is_opened_position(app_state, index), offset, count)
    } else {
        let older = choose|index: int|
            is_first_older(app_state.diaries@, app_state.current_diary.diary.file_name@, index);
        if offset > 0 {
            moved(older, offset - 1, count)
        } else {
            moved(older, offset, count)
        }
    }
}

/// Returns the position of the diary that lies `offset` diaries away from the opened one in
/// the list, which holds the newest diary first: a positive offset goes to older diaries, a
/// negative one to newer ones. From an opened diary that is not listed, such as a draft, the
/// count starts between the listed diaries that are newer and those that are older than it.
/// Nothing is returned when no diary is open or the move leaves the list.
pub fn relative_diary(app_state: &AppState, offset: isize) -> (next: Option<usize>)
    ensures
        next == relative_position(app_state, offset as int),
        !app_state.current_diary.is_selected ==> next is None,
        forall|index: int|
            is_opened_position(app_state, index) ==> next == moved(
                index,
                offset as int,
                app_state.diaries@.len() as int,
            ),
        app_state.current_diary.is_selected && opened_not_listed(app_state) ==> forall|
            older: int,
        |
            is_first_older(app_state.diaries@, app_state.current_diary.diary.file_name@, older)
                ==> next == if offset > 0 {
                moved(older, offset - 1, app_state.diaries@.len() as int)
            } else {
                moved(older, offset as int, app_state.diaries@.len() as int)
            },
{
    if !app_state.current_diary.is_selected {
        return None;
    }
    let count = app_state.diaries.len();
    let position = opened_position(app_state);
    let from: i128 = match position {
        Some(index) => {
            assert(is_opened_position(app_state, index as int));
            proof {
                assert forall|other: int| is_opened_position(app_state, other) implies other
                    == index by {
                    if other < index {
                        assert(!is_opened(app_state, other));
                    } else if other > index {
                        assert(!is_opened(app_state, index as int));
                    }
                }
            }
            index as i128 + offset as i128
        },
        None => {
            assert(opened_not_listed(app_state));
            assert(!exists|index: int| is_opened_position(app_state, index));
            let older = first_older(&app_state.diaries, app_state.current_diary.diary.file_name.as_str());
            proof {
                assert forall|other: int|
                    is_first_older(
                        app_state.diaries@,
                        app_state.current_diary.diary.file_name@,
                        other,
                    ) implies other == older by {
                    if other < older {
                        assert(!name_before(
                            app_state.diaries@[other].file_name@,
                            app_state.current_diary.diary.file_name@,
                        ));
                    } else if other > older {
                        assert(!name_before(
                            app_state.diaries@[older as int].file_name@,
                            app_state.current_diary.diary.file_name@,
                        ));
                    }
                }
            }
            if offset > 0 {
                older as i128 + offset as i128 - 1
            } else {
                older as i128 + offset as i128
            }
        },
    };
    if from < 0 || from >= count as i128 {
        None
    } else {
        Some(from as usize)
    }
}

/// Whether `c` is a decimal digit.
pub open spec fn is_digit(c: char) -> bool {
    '0' <= c <= '9'
}

/// The value of the decimal digit `c`.
pub open spec fn digit_value(c: char) -> int {
    c as int - '0' as int
}

/// The year that the first two characters of a name tell: `70` to `99` are the years 1970 to
/// 1999, `00` to `69` the years 2000 to 2069.
pub open spec fn name_year(name: Seq<char>) -> int {
    let year_of_century = 10 * digit_value(name[0]) + digit_value(name[1]);
    if year_of_century < 70 {
        2000 + year_of_century
    } else {
        1900 + year_of_century
    }
}

/// The month, from 1 to 12, that the third and fourth characters of a name tell.
pub open spec fn name_month(name: Seq<char>) -> int {
    10 * digit_value(name[2]) + digit_value(name[3])
}

/// Whether `name` starts with the year and a month of a diary: four digits, the last two
/// between 01 and 12.
pub open spec fn tells_month(name: Seq<char>) -> bool {
    &&& name.len() >= 4
    &&& is_digit(name[0]) && is_digit(name[1]) && is_digit(name[2]) && is_digit(name[3])
    &&& 1 <= name_month(name) <= 12
}

/// The number of months from January of the year 0 to the month that `name` tells.
pub open spec fn name_month_number(name: Seq<char>) -> int {
    months_since_year_zero(name_year(name), name_month(name) - 1)
}

/// Returns the month that the name of a diary tells, or `None` for a name that tells none.
pub fn diary_month(name: &str) -> (month: Option<CalendarMonth>)
    ensures
        month is Some == tells_month(name@),
        month matches Some(m) ==> m.number() == name_month_number(name@),
{
    let chars = chars_of(name);
    if chars.len() < 4 {
        return None;
    }
    let (a, b, c, d) = (chars[0], chars[1], chars[2], chars[3]);
    if !('0' <= a && a <= '9' && '0' <= b && b <= '9' && '0' <= c && c <= '9' && '0' <= d && d
        <= '9') {
        return None;
    }
    let year_of_century = (a as u32 - '0' as u32) * 10 + (b as u32 - '0' as u32);
    let month_number = (c as u32 - '0' as u32) * 10 + (d as u32 - '0' as u32);
    let year: i32 = if year_of_century < 70 {
        2000 + year_of_century as i32
    } else {
        1900 + year_of_century as i32
    };
    match CalendarMonth::new(year, month_number) {
        Some(month) => {
            proof {
                use_type_invariant(month);
                month.lemma_number_of_parts();
            }
            Some(month)
        },
        None => None,
    }
}

/// Whether `after` is the first month of the calendar once it follows a diary named `name`
/// from `before`: a month that is shown already leaves the calendar as it was, another month
/// is put in the middle, and a name that tells no month leaves it too.
pub open spec fn follows_diary(before: CalendarMonth, name: Seq<char>, after: CalendarMonth) -> bool {
    if tells_month(name) {
        let n = name_month_number(name);
        &&& (before.number() <= n < before.number() + 3) ==> after == before
        &&& !(before.number() <= n < before.number() + 3) ==> after.number() == n - 1
    } else {
        after == before
    }
}

/// Moves the calendar so that it shows the month of the diary named `name`.
pub fn follow_diary(app_state: &mut AppState, name: &str)
    ensures
        follows_diary(old(app_state).calendar_month, name@, final(app_state).calendar_month),
        *final(app_state) == (AppState {
            calendar_month: final(app_state).calendar_month,
            ..*old(app_state)
        }),
{
    if let Some(month) = diary_month(name) {
        proof {
            use_type_invariant(month);
            month.lemma_number_of_parts();
        }
        app_state.calendar_month = app_state.calendar_month.window_showing(month);
    }
}

/// Opens `diary`, whose file holds `text`, and moves the calendar so that it shows the diary's
/// month.
pub fn open_diary(app_state: &mut AppState, diary: DiaryListItem, text: String)
    ensures
        final(app_state).current_diary == (CurrentDiary { diary, is_selected: true, is_draft: false }),
        final(app_state).txt_diary == text,
        follows_diary(old(app_state).calendar_month, diary.file_name@, final(app_state).calendar_month),
        *final(app_state) == (AppState {
            current_diary: final(app_state).current_diary,
            txt_diary: final(app_state).txt_diary,
            calendar_month: final(app_state).calendar_month,
            ..*old(app_state)
        }),
{
    follow_diary(app_state, diary.file_name.as_str());
    app_state.current_diary = CurrentDiary::from(diary);
    app_state.txt_diary = text;
}

/// What showing a diary of the list comes down to.
#[derive(Debug, Clone, Copy, PartialEq, Eq, Structural)]
pub enum ShowStep {
    /// The diary is open already: nothing is read again, and only the calendar follows it
    /// ([`follow_diary`]).
    AlreadyOpen,
    /// The opened diary is saved first, then the diary is read and opened ([`open_diary`]).
    SaveThenOpen,
    /// No diary is open: the diary is read and opened.
    Open,
}

/// What showing `diary` does: a diary that is open already, and no draft, is only followed by
/// the calendar; otherwise the opened diary, if any, is saved first.
pub open spec fn show_step_of(app_state: &AppState, diary: DiaryListItem) -> ShowStep {
    if app_state.current_diary.is_selected && !app_state.current_diary.is_draft
        && app_state.current_diary.diary.file_name@ == diary.file_name@ {
        ShowStep::AlreadyOpen
    } else if app_state.current_diary.is_selected {
        ShowStep::SaveThenOpen
    } else {
        ShowStep::Open
    }
}

/// Decides what showing `diary` does.
pub fn show_step(app_state: &AppState, diary: &DiaryListItem) -> (step: ShowStep)
    ensures
        step == show_step_of(app_state, *diary),
{
    let current = &app_state.current_diary;
    if current.is_selected && !current.is_draft && current.diary.file_name.eq(&diary.file_name) {
        ShowStep::AlreadyOpen
    } else if current.is_selected {
        ShowStep::SaveThenOpen
    } else {
        ShowStep::Open
    }
}

/// What choosing a day to write on comes down to.
#[derive(Debug, Clone, Copy, PartialEq, Eq, Structural)]
pub enum DraftStep {
    /// The day has diaries: the one at this position, the latest, is read and opened.
    Open(usize),
    /// The day has none: an empty draft of it was started.
    Started,
}

/// The moment that a draft of the day of `date` is named after when it is started at `now`:
/// the current moment for a draft of today, so that it belongs to the current hour, and the
/// start of the day, 00:00:00, for any other day.
pub open spec fn draft_moment_of(date: DiaryStamp, now: DiaryStamp) -> DiaryStamp {
    if date.year == now.year && date.month == now.month && date.day == now.day {
        now
    } else {
        DiaryStamp { hour: 0, minute: 0, second: 0, ..date }
    }
}

/// Returns the moment that a draft of the day of `date` is named after when it is started at
/// `now`.
pub fn draft_moment(date: &DiaryStamp, now: &DiaryStamp) -> (moment: DiaryStamp)
    ensures
        moment == draft_moment_of(*date, *now),
{
    if date.year == now.year && date.month == now.month && date.day == now.day {
        *now
    } else {
        DiaryStamp { year: date.year, month: date.month, day: date.day, hour: 0, minute: 0, second: 0 }
    }
}

/// Chooses the day of `date` to write on, at the moment `now`. `day` holds the positions in the
/// list of the day's diaries, newest first, as [`diaries_of_day`] gives them. A day with
/// diaries opens its latest one; a day without any gets an empty draft named after
/// [`draft_moment_of`] in a folder whose diaries have `extension`, which has no file until
/// something is written and saved, and the calendar follows it.
pub fn start_draft(
    app_state: &mut AppState,
    day: &Vec<usize>,
    date: &DiaryStamp,
    now: &DiaryStamp,
    extension: &str,
) -> (step: DraftStep)
    requires
        fits_two_digits(*date),
        fits_two_digits(*now),
    ensures
        day@.len() > 0 ==> step == DraftStep::Open(day@[0]) && *final(app_state) == *old(app_state),
        day@.len() == 0 ==> {
            &&& step == DraftStep::Started
            &&& final(app_state).current_diary.is_selected
            &&& final(app_state).current_diary.is_draft
            &&& final(app_state).current_diary.diary.file_name@ == diary_name_of(
                draft_moment_of(*date, *now),
                extension@,
            )
            &&& final(app_state).current_diary.diary.summary@ == Seq::<char>::empty()
            &&& final(app_state).txt_diary@ == Seq::<char>::empty()
            &&& follows_diary(
                old(app_state).calendar_month,
                final(app_state).current_diary.diary.file_name@,
                final(app_state).calendar_month,
            )
            &&& *final(app_state) == (AppState {
                current_diary: final(app_state).current_diary,
                txt_diary: final(app_state).txt_diary,
                calendar_month: final(app_state).calendar_month,
                ..*old(app_state)
            })
        },
{
    if day.len() > 0 {
        return DraftStep::Open(day[0]);
    }
    let moment = draft_moment(date, now);
    let name = diary_name(&moment, extension);
    follow_diary(app_state, name.as_str());
    app_state.current_diary = CurrentDiary {
        diary: DiaryListItem { file_name: name, summary: String::new() },
        is_selected: true,
        is_draft: true,
    };
    app_state.txt_diary = String::new();
    DraftStep::Started
}

/// Whether `after` is `before` with `item` put in at `index`.
pub open spec fn inserted_at(before: Seq<DiaryListItem>, index: int, item: DiaryListItem, after: Seq<DiaryListItem>) -> bool {
    after == before.take(index).push(item) + before.skip(index)
}

/// The opened draft got its file: it is no draft any more and joins the list before the first
/// diary that is older than it, so that a list that is newest first stays so.
pub fn promote_draft(app_state: &mut AppState)
    ensures
        !final(app_state).current_diary.is_draft,
        final(app_state).current_diary.diary == old(app_state).current_diary.diary,
        final(app_state).current_diary.is_selected == old(app_state).current_diary.is_selected,
        forall|index: int|
            is_first_older(old(app_state).diaries@, old(app_state).current_diary.diary.file_name@, index)
                ==> inserted_at(
                old(app_state).diaries@,
                index,
                old(app_state).current_diary.diary,
                final(app_state).diaries@,
            ),
        *final(app_state) == (AppState {
            current_diary: final(app_state).current_diary,
            diaries: final(app_state).diaries,
            ..*old(app_state)
        }),
{
    let item = DiaryListItem {
        file_name: app_state.current_diary.diary.file_name.clone(),
        summary: app_state.current_diary.diary.summary.clone(),
    };
    list_diary(app_state, item);
    app_state.current_diary.is_draft = false;
}

/// Lists `diary`, whose file was just made, before the first diary that is older than it, so
/// that a list that is newest first stays so.
pub fn list_diary(app_state: &mut AppState, diary: DiaryListItem)
    ensures
        forall|index: int|
            is_first_older(old(app_state).diaries@, diary.file_name@, index) ==> inserted_at(
                old(app_state).diaries@,
                index,
                diary,
                final(app_state).diaries@,
            ),
        *final(app_state) == (AppState { diaries: final(app_state).diaries, ..*old(app_state) }),
{
    let index = first_older(&app_state.diaries, diary.file_name.as_str());
    let ghost before = app_state.diaries@;
    proof {
        assert forall|other: int| is_first_older(before, diary.file_name@, other) implies other
            == index by {
            if other < index {
                assert(!name_before(before[other].file_name@, diary.file_name@));
            } else if other > index {
                assert(!name_before(before[index as int].file_name@, diary.file_name@));
            }
        }
    }
    let ghost item = diary;
    app_state.diaries.insert(index, diary);
    assert(app_state.diaries@ =~= before.take(index as int).push(item) + before.skip(index as int));
}

/// The number of characters at the start of a name that tell the moment of its diary:
/// `yymmddHHMMSS`.
pub const MOMENT_KEY_LENGTH: usize = 12;

/// The opened diary was saved with a text whose summary is `summary`: the first diary of the
/// list of the same moment, which is what the start of a name tells, gets that summary, and
/// nothing else changes.
pub fn update_summary(app_state: &mut AppState, summary: String)
    ensures
        ({
            let name = old(app_state).current_diary.diary.file_name@;
            let key = name.take(MOMENT_KEY_LENGTH as int);
            &&& name.len() >= MOMENT_KEY_LENGTH ==> forall|index: int|
                #![trigger is_first_with_prefix(old(app_state).diaries@, key, index)]
                is_first_with_prefix(old(app_state).diaries@, key, index)
                    ==> final(app_state).diaries@ == old(app_state).diaries@.update(
                    index,
                    DiaryListItem { file_name: old(app_state).diaries@[index].file_name, summary },
                )
            &&& (name.len() < MOMENT_KEY_LENGTH || none_with_prefix(old(app_state).diaries@, key))
                ==> final(app_state).diaries@ == old(app_state).diaries@
        }),
        *final(app_state) == (AppState { diaries: final(app_state).diaries, ..*old(app_state) }),
{
    let mut key = chars_of(app_state.current_diary.diary.file_name.as_str());
    if key.len() < MOMENT_KEY_LENGTH {
        return;
    }
    key.truncate(MOMENT_KEY_LENGTH);
    match first_with_prefix(&app_state.diaries, &key) {
        Some(index) => {
            let ghost before = app_state.diaries@;
            let file_name = app_state.diaries[index].file_name.clone();
            app_state.diaries.set(index, DiaryListItem { file_name, summary });
            assert(app_state.diaries@ =~= before.update(
                index as int,
                DiaryListItem { file_name: before[index as int].file_name, summary },
            ));
            proof {
                assert forall|other: int| is_first_with_prefix(before, key@, other) implies other
                    == index by {
                    if other < index {
                        assert(!has_prefix(before[other].file_name@, key@));
                    } else if other > index {
                        assert(has_prefix(before[index as int].file_name@, key@));
                    }
                }
            }
        },
        None => {},
    }
}

/// Whether the names of `diaries` come newest first: no diary is older than one after it.
pub open spec fn newest_first(diaries: Seq<DiaryListItem>) -> bool {
    forall|i: int, j: int|
        0 <= i < j < diaries.len() ==> !name_before(
            #[trigger] diaries[i].file_name@,
            #[trigger] diaries[j].file_name@,
        )
}

/// Of two names, at most one comes before the other.
proof fn lemma_name_before_asymmetric(a: Seq<char>, b: Seq<char>)
    ensures
        !(name_before(a, b) && name_before(b, a)),
    decreases a.len(),
{
    if a.len() > 0 && b.len() > 0 && a[0] == b[0] {
        lemma_name_before_asymmetric(a.drop_first(), b.drop_first());
    }
}

/// The order of names is transitive.
proof fn lemma_name_before_transitive(a: Seq<char>, b: Seq<char>, c: Seq<char>)
    requires
        name_before(a, b),
        name_before(b, c),
    ensures
        name_before(a, c),
    decreases a.len(),
{
    if a.len() > 0 && a[0] == b[0] && b[0] == c[0] {
        lemma_name_before_transitive(a.drop_first(), b.drop_first(), c.drop_first());
    }
}

/// A diary that joins a list that is newest first where [`list_diary`] and [`promote_draft`]
/// put it leaves the list newest first.
pub proof fn law_promoted_draft_keeps_newest_first(
    before: Seq<DiaryListItem>,
    draft: DiaryListItem,
    index: int,
    after: Seq<DiaryListItem>,
)
    requires
        newest_first(before),
        is_first_older(before, draft.file_name@, index),
        inserted_at(before, index, draft, after),
    ensures
        newest_first(after),
{
    let x = draft.file_name@;
    assert(after.len() == before.len() + 1);
    assert forall|i: int, j: int| 0 <= i < j < after.len() implies !name_before(
        #[trigger] after[i].file_name@,
        #[trigger] after[j].file_name@,
    ) by {
        if j < index {
            assert(after[i] == before[i] && after[j] == before[j]);
        } else if j == index {
            assert(after[i] == before[i] && after[j] == draft);
        } else if i < index {
            assert(after[i] == before[i] && after[j] == before[j - 1]);
            assert(!name_before(before[i].file_name@, before[j - 1].file_name@));
        } else if i == index {
            assert(after[i] == draft && after[j] == before[j - 1]);
            let older = before[index].file_name@;
            let later = before[j - 1].file_name@;
            assert(name_before(older, x));
            if name_before(x, later) {
                lemma_name_before_transitive(older, x, later);
                if j - 1 > index {
                    assert(!name_before(older, later));
                } else {
                    lemma_name_before_asymmetric(older, x);
                }
            }
        } else {
            assert(after[i] == before[i - 1] && after[j] == before[j - 1]);
        }
    }
}

/// Decides what a key press does while the calendar has the focus: the left and up arrows go
/// to the next older diary, the right and down arrows to the next newer one
/// ([`relative_diary`]), saving the opened diary first; other keys and moves that leave the
/// list do nothing.
pub fn arrow_key_step(app_state: &AppState, key: &KeyInput) -> (step: Option<BrowseStep>)
    ensures
        step == match calendar_offset(*key) {
            None => None,
            Some(offset) => match relative_position(app_state, offset as int) {
                Some(index) => Some(BrowseStep::SaveThenOpen(index)),
                None => None,
            },
        },
{
    match calendar_key_offset(key) {
        None => None,
        Some(offset) => match relative_diary(app_state, offset) {
            Some(index) => Some(BrowseStep::SaveThenOpen(index)),
            None => None,
        },
    }
}

/// Of the diaries of a day, as [`diaries_of_day`] lists them, the first is the latest, when the
/// list is newest first.
pub proof fn law_first_of_day_is_latest(diaries: Seq<DiaryListItem>, key: Seq<char>, day: Seq<usize>)
    requires
        newest_first(diaries),
        positions_of_day(diaries, key, day),
        day.len() > 0,
    ensures
        forall|j: int|
            0 <= j < day.len() ==> !name_before(
                diaries[day[0] as int].file_name@,
                #[trigger] diaries[day[j] as int].file_name@,
            ),
{
    assert forall|j: int| 0 <= j < day.len() implies !name_before(
        diaries[day[0] as int].file_name@,
        #[trigger] diaries[day[j] as int].file_name@,
    ) by {
        if j > 0 {
            assert(day[0] < day[j]);
            assert(!name_before(diaries[day[0] as int].file_name@, diaries[day[j] as int].file_name@));
        } else {
            lemma_name_before_asymmetric(diaries[day[0] as int].file_name@, diaries[day[0] as int].file_name@);
        }
    }
}

/// A diary created in an hour that had none, and listed where [`list_diary`] puts it, is the
/// first diary of that hour in the list.
pub proof fn law_created_diary_is_first_of_its_hour(
    before: Seq<DiaryListItem>,
    hour_key: Seq<char>,
    diary: DiaryListItem,
    index: int,
    after: Seq<DiaryListItem>,
)
    requires
        none_with_prefix(before, hour_key),
        has_prefix(diary.file_name@, hour_key),
        0 <= index <= before.len(),
        inserted_at(before, index, diary, after),
    ensures
        is_first_with_prefix(after, hour_key, index),
{
    assert(after[index] == diary);
    assert forall|j: int| 0 <= j < index implies !has_prefix(#[trigger] after[j].file_name@, hour_key) by {
        assert(after[j] == before[j]);
    }
}

/// Creating a diary again in the hour of the opened diary keeps that diary: when the opened
/// diary, no draft, is the first listed diary of the hour, [`create_step`] opens it, since no
/// draft of the hour is open, and showing it only lets the calendar follow it.
pub proof fn law_creating_again_in_the_hour_keeps_the_diary(
    app_state: &AppState,
    now: DiaryStamp,
    index: int,
)
    requires
        app_state.current_diary.is_selected,
        !app_state.current_diary.is_draft,
        is_first_with_prefix(app_state.diaries@, hour_key_of(now), index),
        app_state.diaries@[index].file_name@ == app_state.current_diary.diary.file_name@,
    ensures
        !draft_of_hour_open(app_state, hour_key_of(now)),
        show_step_of(app_state, app_state.diaries@[index]) == ShowStep::AlreadyOpen,
{
}

/// The first place of the day whose diary is opened is what [`opened_place`] finds, and the
/// length of the day when none is.
proof fn lemma_opened_place_is_first(app_state: &AppState, day: Seq<usize>)
    ensures
        0 <= opened_place(app_state, day) <= day.len(),
        opened_place(app_state, day) < day.len() ==> is_opened(
            app_state,
            day[opened_place(app_state, day)] as int,
        ),
        forall|q: int|
            0 <= q < opened_place(app_state, day) ==> !is_opened(app_state, #[trigger] day[q] as int),
    decreases day.len(),
{
    if day.len() > 0 {
        let rest = day.drop_last();
        lemma_opened_place_is_first(app_state, rest);
        assert forall|q: int| 0 <= q < opened_place(app_state, day) implies !is_opened(
            app_state,
            #[trigger] day[q] as int,
        ) by {
            if q < rest.len() {
                assert(day[q] == rest[q]);
            }
        }
        if opened_place(app_state, rest) < rest.len() {
            assert(day[opened_place(app_state, rest)] == rest[opened_place(app_state, rest)]);
        }
    }
}

/// A click on a day walks through its diaries one by one: when the opened diary is at place
/// `p` of the day (the first place that holds it), the click opens the diary at place `p + 1`,
/// the next older one, and after the last place it starts over at the first, the latest; a day
/// that does not hold the opened diary opens its first. So every diary of the day is reached.
pub proof fn law_day_click_walks_the_day(app_state: &AppState, day: Seq<usize>, p: int)
    requires
        0 <= p < day.len(),
        is_opened(app_state, day[p] as int),
        forall|q: int| 0 <= q < p ==> !is_opened(app_state, #[trigger] day[q] as int),
    ensures
        p + 1 < day.len() ==> next_in_day(app_state, day) == p + 1,
        p + 1 == day.len() ==> next_in_day(app_state, day) == 0,
{
    lemma_opened_place_is_first(app_state, day);
    let found = opened_place(app_state, day);
    if found < p {
        assert(!is_opened(app_state, day[found] as int));
    } else if found > p {
        assert(!is_opened(app_state, day[p] as int));
    }
}

/// A click on a day that does not hold the opened diary opens the day's first diary, the
/// latest one.
pub proof fn law_day_click_starts_with_the_latest(app_state: &AppState, day: Seq<usize>)
    requires
        day.len() > 0,
        forall|q: int| 0 <= q < day.len() ==> !is_opened(app_state, #[trigger] day[q] as int),
    ensures
        next_in_day(app_state, day) == 0,
{
    lemma_opened_place_is_first(app_state, day);
    if opened_place(app_state, day) < day.len() {
        assert(!is_opened(app_state, day[opened_place(app_state, day)] as int));
    }
}

/// A draft lies on the chosen day: its moment has the year, the month and the day of `date`,
/// for every `date` and `now`. It is the start of that day, 00:00:00, unless the day is today,
/// the day of `now`, where it is the current moment, so that it belongs to the current hour.
pub proof fn law_draft_lies_on_its_day(date: DiaryStamp, now: DiaryStamp)
    ensures
        ({
            let moment = draft_moment_of(date, now);
            &&& moment.year == date.year
            &&& moment.month == date.month
            &&& moment.day == date.day
            &&& (date.year != now.year || date.month != now.month || date.day != now.day) ==> (
            moment.hour == 0 && moment.minute == 0 && moment.second == 0)
            &&& (date.year == now.year && date.month == now.month && date.day == now.day) ==> moment
                == now
        }),
{
}

} // verus!
