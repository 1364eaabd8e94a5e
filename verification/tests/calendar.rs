use fast_diary::calendar::{
    calendar_key_offset, cell_fill, entry_dot_count, shift_calendar, CalendarMonth, CellFill,
    MAX_ENTRY_DOTS, MONTHS_SHOWN,
};
use fast_diary::keys::KeyInput;
use fast_diary::state::AppState;

fn month(year: i32, month: u32) -> CalendarMonth {
    CalendarMonth::new(year, month).unwrap()
}

#[test]
fn the_arrows_move_the_calendar_by_the_three_months_that_it_shows() {
    let start = month(2024, 4);
    let mut app_state = AppState::new(start);

    shift_calendar(&mut app_state, 1);
    assert_eq!(app_state.calendar_month, start.shifted(3));

    shift_calendar(&mut app_state, 1);
    assert_eq!(app_state.calendar_month, start.shifted(6));

    shift_calendar(&mut app_state, -1);
    shift_calendar(&mut app_state, -1);
    shift_calendar(&mut app_state, -1);
    assert_eq!(app_state.calendar_month, start.shifted(-3));
    assert_eq!(MONTHS_SHOWN, 3);
}

#[test]
fn months_are_numbered_from_one_to_twelve() {
    assert!(CalendarMonth::new(2024, 0).is_none());
    assert!(CalendarMonth::new(2024, 13).is_none());
    let december = month(2023, 12);
    assert_eq!(december.year(), 2023);
    assert_eq!(december.month_number(), 12);
}

#[test]
fn shifting_crosses_the_year() {
    assert_eq!(month(2024, 11).shifted(3), month(2025, 2));
    assert_eq!(month(2024, 2).shifted(-3), month(2023, 11));
    assert_eq!(month(2024, 1).shifted(-1), month(2023, 12));
    assert_eq!(month(2024, 1).shifted(24), month(2026, 1));
    assert_eq!(month(1, 1).shifted(-13), month(-1, 12));
    assert_eq!(month(2024, 7).shifted(0), month(2024, 7));
}

#[test]
fn shifting_forth_and_back_returns_to_the_month() {
    let start = month(1999, 10);
    assert_eq!(start.shifted(17).shifted(-17), start);
    assert_eq!(start.shifted(-30).shifted(30), start);
}

#[test]
fn the_opened_day_stands_out_most() {
    assert_eq!(cell_fill(true, true, true), Some(CellFill::Opened));
    assert_eq!(cell_fill(true, false, false), Some(CellFill::Opened));
    assert_eq!(cell_fill(false, true, true), Some(CellFill::HoveredWithEntries));
    assert_eq!(cell_fill(false, true, false), Some(CellFill::WithEntries));
    assert_eq!(cell_fill(false, false, true), Some(CellFill::Hovered));
    assert_eq!(cell_fill(false, false, false), None);
}

#[test]
fn a_day_shows_one_dot_per_diary_and_three_at_most() {
    assert_eq!(entry_dot_count(0), 0);
    assert_eq!(entry_dot_count(2), 2);
    assert_eq!(entry_dot_count(3), MAX_ENTRY_DOTS);
    assert_eq!(entry_dot_count(40), 3);
}

#[test]
fn arrow_keys_walk_to_older_and_newer_diaries() {
    assert_eq!(calendar_key_offset(&KeyInput::ArrowLeft), Some(1));
    assert_eq!(calendar_key_offset(&KeyInput::ArrowUp), Some(1));
    assert_eq!(calendar_key_offset(&KeyInput::ArrowRight), Some(-1));
    assert_eq!(calendar_key_offset(&KeyInput::ArrowDown), Some(-1));
    assert_eq!(calendar_key_offset(&KeyInput::Enter), None);
    assert_eq!(calendar_key_offset(&KeyInput::Character("a".into())), None);
}
