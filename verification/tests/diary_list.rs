use fast_diary::calendar::CalendarMonth;
use fast_diary::diaries::BrowseStep;
use fast_diary::diary_list::{list_key_offset, DiaryListController};
use fast_diary::keys::{is_save_shortcut, KeyCode, KeyInput, Modifiers};
use fast_diary::state::{AppState, DiaryListItem};

fn item(file_name: &str) -> DiaryListItem {
    DiaryListItem { file_name: file_name.to_string(), summary: String::new() }
}

fn state_with(diaries: &[&str], opened: Option<&str>) -> AppState {
    let mut app_state = AppState::new(CalendarMonth::new(2024, 1).unwrap());
    app_state.diaries = diaries.iter().map(|name| item(name)).collect();
    if let Some(name) = opened {
        app_state.current_diary = item(name).into();
    }
    app_state
}

#[test]
fn the_arrows_move_the_selection_through_the_list() {
    let controller = DiaryListController::new();
    let app_state = state_with(&["c.md", "b.md", "a.md"], Some("b.md"));
    assert_eq!(controller.select_offset(&app_state, 1), Some(BrowseStep::SaveThenOpen(2)));
    assert_eq!(controller.select_offset(&app_state, -1), Some(BrowseStep::SaveThenOpen(0)));
    assert_eq!(controller.select_offset(&app_state, 2), None);
    assert_eq!(controller.select_offset(&app_state, -2), None);
}

#[test]
fn without_an_opened_diary_of_the_list_the_first_one_is_chosen() {
    let controller = DiaryListController::new();
    assert_eq!(controller.select_offset(&state_with(&["c.md", "b.md"], None), 1), Some(BrowseStep::SaveThenOpen(0)));
    assert_eq!(
        controller.select_offset(&state_with(&["c.md", "b.md"], Some("x.md")), -1),
        Some(BrowseStep::SaveThenOpen(0))
    );
    assert_eq!(controller.select_offset(&state_with(&[], Some("x.md")), 1), None);
}

#[test]
fn the_first_diary_of_a_name_counts() {
    let controller = DiaryListController::new();
    let app_state = state_with(&["a.md", "b.md", "a.md"], Some("a.md"));
    assert_eq!(controller.select_offset(&app_state, 1), Some(BrowseStep::SaveThenOpen(1)));
}

#[test]
fn a_click_on_a_diary_saves_the_opened_one_first() {
    let controller = DiaryListController::new();
    assert_eq!(controller.item_clicked(2), BrowseStep::SaveThenOpen(2));
}

#[test]
fn only_the_vertical_arrows_move_the_list() {
    assert_eq!(list_key_offset(&KeyInput::ArrowUp), Some(-1));
    assert_eq!(list_key_offset(&KeyInput::ArrowDown), Some(1));
    assert_eq!(list_key_offset(&KeyInput::ArrowLeft), None);
}

#[test]
fn control_s_saves() {
    let control = Modifiers { shift: false, control: true, alt: false, meta: false };
    assert!(is_save_shortcut(KeyCode::KeyS, control));
    assert!(!is_save_shortcut(KeyCode::KeyS, Modifiers::empty()));
    assert!(!is_save_shortcut(KeyCode::Other, control));
}
