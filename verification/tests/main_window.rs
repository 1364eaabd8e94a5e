use fast_diary::calendar::CalendarMonth;
use fast_diary::folder::FolderError;
use fast_diary::state::{AppPages, AppState, CurrentDiary, DiaryListItem, FolderKey, FolderProtection};
use fast_diary::window::{
    handle_window_event, success_message, WindowAction, WindowCommand, WindowEvent,
    can_open_folder, folder_status, has_opened_diary, is_diary_page, is_main_page,
    is_plain_folder_selected, report_outcome, save_step, should_auto_lock, MainWindowController,
    SaveError, SaveStep, AUTO_LOCK_AFTER_MILLIS,
};

fn fresh_state() -> AppState {
    AppState::new(CalendarMonth::new(2024, 5).unwrap())
}

fn state_on(page: AppPages, opened_diary: bool) -> AppState {
    let mut app_state = fresh_state();
    app_state.page = page;
    if opened_diary {
        app_state.current_diary = DiaryListItem::new().into();
    }
    app_state
}

#[test]
fn folder_items_are_only_offered_on_the_page_they_belong_to() {
    assert!(is_main_page(&state_on(AppPages::Main, false)));
    assert!(!is_main_page(&state_on(AppPages::Diary, false)));
    assert!(is_diary_page(&state_on(AppPages::Diary, false)));
    assert!(!is_diary_page(&state_on(AppPages::Settings, false)));
}

#[test]
fn editing_items_need_an_opened_diary_on_the_diary_page() {
    assert!(has_opened_diary(&state_on(AppPages::Diary, true)));
    assert!(!has_opened_diary(&state_on(AppPages::Diary, false)));
    assert!(!has_opened_diary(&state_on(AppPages::Main, true)));
}

#[test]
fn an_opened_diary_has_a_file() {
    let current = CurrentDiary::from(DiaryListItem {
        file_name: "2024-05-01.md".to_string(),
        summary: "hello".to_string(),
    });
    assert!(current.is_selected);
    assert!(!current.is_draft);
    assert_eq!(current.diary.file_name, "2024-05-01.md");
}

#[test]
fn the_folder_page_tells_whether_the_folder_is_encrypted() {
    let mut app_state = fresh_state();
    assert_eq!(folder_status(&app_state), "");
    assert!(!can_open_folder(&app_state));
    assert!(!is_plain_folder_selected(&app_state));

    app_state.diary_base_path = Some("/diaries".to_string());
    assert_eq!(folder_status(&app_state), "This folder is not encrypted.");
    assert!(can_open_folder(&app_state));
    assert!(is_plain_folder_selected(&app_state));

    app_state.folder_protection = FolderProtection::Encrypted;
    assert_eq!(folder_status(&app_state), "This folder is encrypted.");
    assert!(!can_open_folder(&app_state));
    assert!(!is_plain_folder_selected(&app_state));

    app_state.password = "secret".to_string();
    assert!(can_open_folder(&app_state));
}

#[test]
fn outcomes_are_told_in_the_status_message() {
    let mut app_state = fresh_state();
    report_outcome(&mut app_state, Ok(()), "Folder encrypted.");
    assert_eq!(app_state.status_message, "Folder encrypted.");

    report_outcome(&mut app_state, Err(FolderError::NoFolderSelected), "unused");
    assert_eq!(app_state.status_message, "Please select a folder.");

    report_outcome(
        &mut app_state,
        Err(FolderError::Vault("Wrong password.".to_string())),
        "unused",
    );
    assert_eq!(app_state.status_message, "Wrong password.");
}

#[test]
fn an_unlocked_folder_locks_itself_after_the_idle_time() {
    assert!(should_auto_lock(true, AUTO_LOCK_AFTER_MILLIS));
    assert!(should_auto_lock(true, AUTO_LOCK_AFTER_MILLIS + 1));
    assert!(!should_auto_lock(true, AUTO_LOCK_AFTER_MILLIS - 1));
    assert!(!should_auto_lock(false, AUTO_LOCK_AFTER_MILLIS * 2));
}

#[test]
fn selecting_another_folder_resets_the_folder_state() {
    let mut controller = MainWindowController::new();
    let mut app_state = fresh_state();
    app_state.diary_base_path = Some("/first".to_string());
    app_state.folder_key = Some(FolderKey { bytes: vec![1, 2, 3] });
    app_state.password = "typed".to_string();
    app_state.status_message = "old news".to_string();

    assert!(controller.base_path_changed(&app_state));
    controller.sync_folder_protection(&mut app_state, true);
    assert_eq!(app_state.folder_protection, FolderProtection::Encrypted);
    assert!(app_state.folder_key.is_none());
    assert_eq!(app_state.password, "");
    assert_eq!(app_state.status_message, "");
    assert!(!controller.base_path_changed(&app_state));

    app_state.password = "kept".to_string();
    controller.sync_folder_protection(&mut app_state, false);
    assert_eq!(app_state.password, "kept");
    assert_eq!(app_state.folder_protection, FolderProtection::Encrypted);

    app_state.diary_base_path = Some("/second".to_string());
    controller.sync_folder_protection(&mut app_state, false);
    assert_eq!(app_state.folder_protection, FolderProtection::Plain);
    assert_eq!(app_state.password, "");
}

#[test]
fn a_draft_without_text_is_not_saved() {
    let mut app_state = fresh_state();
    assert_eq!(save_step(&app_state, true), Err(SaveError::NotSelected));
    assert_eq!(SaveError::NotSelected.message(), "Diary not selected.");

    app_state.current_diary.is_selected = true;
    app_state.current_diary.is_draft = true;
    assert_eq!(save_step(&app_state, false), Err(SaveError::NoFolder));
    assert_eq!(SaveError::NoFolder.message(), "Diary path did not selected.");

    app_state.txt_diary = " \n\t ".to_string();
    assert_eq!(save_step(&app_state, true), Ok(SaveStep::SkipEmptyDraft));

    app_state.txt_diary = "\nDear diary".to_string();
    assert_eq!(save_step(&app_state, true), Ok(SaveStep::CreateThenWrite));

    app_state.current_diary.is_draft = false;
    app_state.txt_diary = String::new();
    assert_eq!(save_step(&app_state, true), Ok(SaveStep::Write));
}

#[test]
fn the_window_handles_its_own_commands_and_passes_on_the_rest() {
    let mut app_state = fresh_state();
    let step = handle_window_event(&mut app_state, WindowEvent::Timer(7), 7);
    assert_eq!(step.action, WindowAction::AutosaveTick);
    assert!(!step.pass_to_child);

    let step = handle_window_event(&mut app_state, WindowEvent::Timer(8), 7);
    assert_eq!(step.action, WindowAction::Nothing);
    assert!(step.pass_to_child);

    let step = handle_window_event(&mut app_state, WindowEvent::KeyDown, 7);
    assert!(step.is_activity && step.pass_to_child);
    assert!(!handle_window_event(&mut app_state, WindowEvent::MouseMove, 7).is_activity);

    let step = handle_window_event(
        &mut app_state,
        WindowEvent::Command(WindowCommand::AddDiary(DiaryListItem::new())),
        7,
    );
    assert_eq!(step.action, WindowAction::Nothing);
    assert!(step.pass_to_child);
    assert_eq!(app_state.diaries.len(), 1);

    let step = handle_window_event(
        &mut app_state,
        WindowEvent::Command(WindowCommand::CursorLineChanged(12)),
        7,
    );
    assert!(!step.pass_to_child);
    assert_eq!(app_state.editor_cursor_line, 12);

    let step = handle_window_event(
        &mut app_state,
        WindowEvent::Command(WindowCommand::ChangeFolderPassword),
        7,
    );
    assert_eq!(step.action, WindowAction::ChangeFolderPassword);
    assert_eq!(success_message(step.action), "Password changed.");
    assert_eq!(success_message(WindowAction::OpenFolder), "");

    let step = handle_window_event(&mut app_state, WindowEvent::WindowDisconnected, 7);
    assert_eq!(step.action, WindowAction::SaveAndRemember);
    assert!(step.pass_to_child);

    let step = handle_window_event(&mut app_state, WindowEvent::Command(WindowCommand::OpenFile), 7);
    assert_eq!(step.action, WindowAction::SetBasePath);
    assert!(step.pass_to_child);
}

#[test]
fn the_settings_page_opens_without_a_message() {
    let mut app_state = state_on(AppPages::Diary, true);
    app_state.status_message = "Password changed.".to_string();
    fast_diary::window::open_settings(&mut app_state);
    assert_eq!(app_state.page, AppPages::Settings);
    assert_eq!(app_state.status_message, "");
    assert!(app_state.current_diary.is_selected);
}
