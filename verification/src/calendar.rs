//! The calendar: the months that it shows, how its arrows move them, how a day cell is filled
//! and how the arrow keys walk through the diaries.

use vstd::prelude::*;

use crate::keys::KeyInput;
use crate::state::AppState;

verus! {

/// The number of months that the calendar shows one below the other.
pub const MONTHS_SHOWN: usize = 3;

/// The number of days in a week, which is the number of columns of the calendar.
pub const DAYS_IN_WEEK: usize = 7;

/// The largest number of dots that mark the diaries of a day.
pub const MAX_ENTRY_DOTS: usize = 3;

/// A month of a year.
#[derive(Debug, Clone, Copy, PartialEq, Eq, Structural)]
pub struct CalendarMonth {
    year: i32,
    /// The month, counted from 0 for January.
    month_index: u32,
}

/// The number of months from January of the year 0 to `month_index` of `year`.
pub open spec fn months_since_year_zero(year: int, month_index: int) -> int {
    year * 12 + month_index
}

/// The smallest number of months from January of the year 0 that a [`CalendarMonth`] can be.
pub open spec fn first_month_number() -> int {
    months_since_year_zero(i32::MIN as int, 0)
}

/// The largest number of months from January of the year 0 that a [`CalendarMonth`] can be.
pub open spec fn last_month_number() -> int {
    months_since_year_zero(i32::MAX as int, 11)
}

impl CalendarMonth {
    /// Whether the month index names one of the twelve months; every month that the library
    /// hands out is one.
    #[verifier::type_invariant]
    pub closed spec fn is_month(self) -> bool {
        self.month_index < 12
    }

    /// The number of months from January of the year 0 to this month.
    pub closed spec fn number(self) -> int {
        months_since_year_zero(self.year as int, self.month_index as int)
    }

    /// The year of the month.
    pub closed spec fn year_of(self) -> i32 {
        self.year
    }

    /// The number of the month in its year, from 1 for January to 12 for December.
    pub closed spec fn month_number_of(self) -> u32 {
        (self.month_index + 1) as u32
    }

    /// Returns month `month` (1 to 12) of `year`, or `None` when `month` is no month.
    pub fn new(year: i32, month: u32) -> (result: Option<CalendarMonth>)
        ensures
            (1 <= month <= 12) == result is Some,
            result matches Some(m) ==> m.year_of() == year && m.month_number_of() == month,
    {
        if 1 <= month && month <= 12 {
            Some(CalendarMonth { year, month_index: month - 1 })
        } else {
            None
        }
    }

    /// The number of a month is given by its year and its month number.
    pub proof fn lemma_number_of_parts(self)
        requires
            self.is_month(),
        ensures
            self.number() == months_since_year_zero(
                self.year_of() as int,
                self.month_number_of() - 1,
            ),
            first_month_number() <= self.number() <= last_month_number(),
    {
    }

    /// Returns the year of the month.
    pub fn year(&self) -> (year: i32)
        ensures
            year == self.year_of(),
    {
        self.year
    }

    /// Returns the number of the month in its year, from 1 for January to 12 for December.
    pub fn month_number(&self) -> (month: u32)
        ensures
            month == self.month_number_of(),
            1 <= month <= 12,
    {
        proof {
            use_type_invariant(*self);
        }
        self.month_index + 1
    }

    /// Returns the month that lies `months` months after this one, or before it when `months`
    /// is negative.
    pub fn shifted(&self, months: i32) -> (shifted: CalendarMonth)
        requires
            first_month_number() <= self.number() + months <= last_month_number(),
        ensures
            shifted.number() == self.number() + months,
    {
        proof {
            use_type_invariant(*self);
        }
        let number = self.year as i64 * 12 + self.month_index as i64 + months as i64;
        let from_first = (number + 25769803776) as u64;
        let year_from_first = from_first / 12;
        let month_index = (from_first % 12) as u32;
        assert(year_from_first * 12 + month_index == from_first);
        let year = (year_from_first as i64 - 2147483648) as i32;
        CalendarMonth { year, month_index }
    }
}

/// A month is known by its number: two months are the same exactly when they lie the same
/// number of months after January of the year 0.
pub proof fn law_month_is_its_number(a: CalendarMonth, b: CalendarMonth)
    requires
        a.is_month(),
        b.is_month(),
    ensures
        (a.number() == b.number()) == (a == b),
{
    let (ya, ma, yb, mb) = (a.year as int, a.month_index as int, b.year as int, b.month_index as int);
    if a.number() == b.number() {
        assert(ya == yb && ma == mb) by (nonlinear_arith)
            requires
                ya * 12 + ma == yb * 12 + mb,
                0 <= ma < 12,
                0 <= mb < 12,
        ;
    }
}

/// Whether the calendar whose first month is `first` shows `month`.
pub open spec fn shows(first: CalendarMonth, month: CalendarMonth) -> bool {
    first.number() <= month.number() < first.number() + MONTHS_SHOWN
}

impl CalendarMonth {
    /// Returns the first month of a calendar that shows `month`: this one when it shows `month`
    /// already, otherwise the month before `month`, which puts `month` in the middle.
    pub fn window_showing(&self, month: CalendarMonth) -> (first: CalendarMonth)
        requires
            first_month_number() < month.number(),
        ensures
            shows(*self, month) ==> first == *self,
            !shows(*self, month) ==> first.number() == month.number() - 1,
            shows(first, month),
    {
        proof {
            use_type_invariant(*self);
            use_type_invariant(month);
        }
        let gap = (month.year as i64 - self.year as i64) * 12 + month.month_index as i64
            - self.month_index as i64;
        assert(gap == month.number() - self.number());
        if 0 <= gap && gap < 3 {
            *self
        } else {
            month.shifted(-1)
        }
    }
}

/// Moves the calendar by the months that it shows: forward when `direction` is 1, back when it
/// is -1.
pub fn shift_calendar(app_state: &mut AppState, direction: i32)
    requires
        -715827882 <= direction <= 715827882,
        first_month_number() <= old(app_state).calendar_month.number() + direction
            * MONTHS_SHOWN <= last_month_number(),
    ensures
        final(app_state).calendar_month.number() == old(app_state).calendar_month.number()
            + direction * MONTHS_SHOWN,
        *final(app_state) == (AppState {
            calendar_month: final(app_state).calendar_month,
            ..*old(app_state)
        }),
{
    app_state.calendar_month = app_state.calendar_month.shifted(direction * 3);
}

/// How a day cell of the calendar is filled.
#[derive(Debug, Clone, Copy, PartialEq, Eq, Structural)]
pub enum CellFill {
    /// The day of the opened diary, in the full accent color.
    Opened,
    /// A day with diaries under the mouse.
    HoveredWithEntries,
    /// A day with diaries.
    WithEntries,
    /// A day without diaries under the mouse.
    Hovered,
}

/// Returns how a day cell is filled: the day of the opened diary stands out most, then days
/// with diaries, stronger while the mouse is over them, then an empty day under the mouse.
pub fn cell_fill(is_selected: bool, has_entries: bool, is_hovered: bool) -> (fill: Option<
    CellFill,
>)
    ensures
        is_selected ==> fill == Some(CellFill::Opened),
        !is_selected && has_entries && is_hovered ==> fill == Some(CellFill::HoveredWithEntries),
        !is_selected && has_entries && !is_hovered ==> fill == Some(CellFill::WithEntries),
        !is_selected && !has_entries && is_hovered ==> fill == Some(CellFill::Hovered),
        !is_selected && !has_entries && !is_hovered ==> fill is None,
{
    if is_selected {
        Some(CellFill::Opened)
    } else if has_entries && is_hovered {
        Some(CellFill::HoveredWithEntries)
    } else if has_entries {
        Some(CellFill::WithEntries)
    } else if is_hovered {
        Some(CellFill::Hovered)
    } else {
        None
    }
}

/// Returns the number of dots that mark a day with `entry_count` diaries: one per diary, three
/// at most.
pub fn entry_dot_count(entry_count: usize) -> (dots: usize)
    ensures
        dots == if entry_count < MAX_ENTRY_DOTS {
            entry_count
        } else {
            MAX_ENTRY_DOTS
        },
{
    if entry_count < MAX_ENTRY_DOTS {
        entry_count
    } else {
        MAX_ENTRY_DOTS
    }
}

/// How far a key press moves through the diaries while the calendar has the focus.
pub open spec fn calendar_offset(key: KeyInput) -> Option<isize> {
    match key {
        KeyInput::ArrowLeft | KeyInput::ArrowUp => Some(1isize),
        KeyInput::ArrowRight | KeyInput::ArrowDown => Some(-1isize),
        _ => None,
    }
}

/// Returns how far a key press moves through the diaries while the calendar has the focus:
/// the left and up arrows go to the next older diary, the right and down arrows to the next
/// newer one, other keys do nothing.
pub fn calendar_key_offset(key: &KeyInput) -> (offset: Option<isize>)
    ensures
        offset == calendar_offset(*key),
{
    match key {
        KeyInput::ArrowLeft | KeyInput::ArrowUp => Some(1),
        KeyInput::ArrowRight | KeyInput::ArrowDown => Some(-1),
        _ => None,
    }
}

} // verus!
