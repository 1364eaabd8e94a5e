use fast_diary::calendar::CalendarMonth;
use fast_diary::folder::{
    change_folder_password, encrypt_selected_folder, folder_to_unlock, lock_folder,
    open_selected_folder, refresh_folder_protection, selected_folder, show_diary_page,
    FolderError,
};
use fast_diary::state::{AppPages, AppState, DiaryListItem, FolderKey, FolderProtection};

fn folder_state(encrypted: bool) -> AppState {
    let mut app_state = AppState::new(CalendarMonth::new(2024, 3).unwrap());
    app_state.diary_base_path = Some("/home/me/diary".to_string());
    if encrypted {
        app_state.folder_protection = FolderProtection::Encrypted;
    }
    app_state.password = "secret".to_string();
    app_state.password_confirmation = "secret".to_string();
    app_state
}

fn key(byte: u8) -> FolderKey {
    FolderKey { bytes: vec![byte; 4] }
}

#[test]
fn errors_tell_the_user_what_went_wrong() {
    assert_eq!(FolderError::NoFolderSelected.message(), "Please select a folder.");
    assert_eq!(FolderError::Vault("Wrong password.".into()).message(), "Wrong password.");
    assert_eq!(
        FolderError::ConversionFailed("disk full".into()).message(),
        "The folder is encrypted now, but its existing diaries could not be converted: disk full"
    );
    assert_eq!(
        FolderError::DiariesNotConverted(12).message(),
        "The folder is encrypted now, but 12 existing diaries could not be converted. They stay as plain files until you unlock the folder again."
    );
}

#[test]
fn a_folder_has_to_be_selected() {
    let mut app_state = folder_state(true);
    assert_eq!(selected_folder(&app_state).unwrap(), "/home/me/diary");
    assert_eq!(folder_to_unlock(&app_state).unwrap(), Some("/home/me/diary".to_string()));

    app_state.diary_base_path = None;
    assert!(matches!(selected_folder(&app_state), Err(FolderError::NoFolderSelected)));
    assert!(matches!(folder_to_unlock(&app_state), Err(FolderError::NoFolderSelected)));

    app_state.folder_protection = FolderProtection::Plain;
    assert_eq!(folder_to_unlock(&app_state).unwrap(), None);
}

#[test]
fn an_unlocked_folder_opens_on_the_diary_page() {
    let mut app_state = folder_state(true);
    app_state.status_message = "Wrong password.".to_string();
    assert!(open_selected_folder(&mut app_state, Ok(Some(key(7)))).is_ok());
    assert_eq!(app_state.page, AppPages::Diary);
    assert_eq!(app_state.folder_key.as_ref().unwrap().bytes, vec![7; 4]);
    assert_eq!(app_state.password, "");
    assert_eq!(app_state.password_confirmation, "");
    assert_eq!(app_state.status_message, "");
}

#[test]
fn a_folder_that_does_not_open_leaves_everything_as_it_was() {
    let mut app_state = folder_state(true);
    let outcome = open_selected_folder(&mut app_state, Err(FolderError::Vault("Wrong password.".into())));
    assert!(matches!(outcome, Err(FolderError::Vault(message)) if message == "Wrong password."));
    assert_eq!(app_state.page, AppPages::Main);
    assert_eq!(app_state.password, "secret");
    assert!(app_state.folder_key.is_none());
}

#[test]
fn a_plain_folder_opens_without_a_key() {
    let mut app_state = folder_state(false);
    assert!(open_selected_folder(&mut app_state, Ok(None)).is_ok());
    assert_eq!(app_state.page, AppPages::Diary);
    assert!(app_state.folder_key.is_none());
}

#[test]
fn an_encrypted_folder_opens_once_every_diary_is_converted() {
    let mut app_state = folder_state(false);
    assert!(encrypt_selected_folder(&mut app_state, key(3), Ok(0)).is_ok());
    assert_eq!(app_state.folder_protection, FolderProtection::Encrypted);
    assert_eq!(app_state.page, AppPages::Diary);
    assert_eq!(app_state.folder_key.as_ref().unwrap().bytes, vec![3; 4]);
    assert_eq!(app_state.password, "");
}

#[test]
fn diaries_that_were_not_converted_keep_the_folder_closed() {
    let mut app_state = folder_state(false);
    let outcome = encrypt_selected_folder(&mut app_state, key(3), Ok(2));
    assert!(matches!(outcome, Err(FolderError::DiariesNotConverted(2))));
    assert_eq!(app_state.folder_protection, FolderProtection::Encrypted);
    assert_eq!(app_state.page, AppPages::Main);
    assert!(app_state.folder_key.is_none());
    assert_eq!(app_state.password, "");

    let mut app_state = folder_state(false);
    let outcome = encrypt_selected_folder(
        &mut app_state,
        key(3),
        Err(FolderError::Vault("unreadable".into())),
    );
    match outcome {
        Err(error) => assert_eq!(
            error.message(),
            "The folder is encrypted now, but its existing diaries could not be converted: unreadable"
        ),
        Ok(()) => panic!("the folder must not open"),
    }
    assert!(app_state.folder_key.is_none());
}

#[test]
fn a_changed_password_clears_the_form_and_a_refused_one_keeps_it() {
    let mut app_state = folder_state(true);
    app_state.page = AppPages::Settings;
    app_state.password_change.current_password = "old".to_string();
    app_state.password_change.new_password = "new".to_string();
    app_state.password_change.confirmation = "new".to_string();

    let refused = change_folder_password(&mut app_state, Err(FolderError::Vault("Wrong password.".into())));
    assert!(refused.is_err());
    assert_eq!(app_state.password_change.current_password, "old");

    assert!(change_folder_password(&mut app_state, Ok(())).is_ok());
    assert_eq!(app_state.password_change.current_password, "");
    assert_eq!(app_state.password_change.new_password, "");
    assert_eq!(app_state.password_change.confirmation, "");
    assert_eq!(app_state.page, AppPages::Settings);
}

#[test]
fn locking_forgets_the_key_and_the_opened_diaries() {
    let mut app_state = folder_state(true);
    open_selected_folder(&mut app_state, Ok(Some(key(9)))).unwrap();
    app_state.txt_diary = "dear diary".to_string();
    app_state.current_diary = DiaryListItem { file_name: "a.md".into(), summary: "dear".into() }.into();
    app_state.diaries.push(DiaryListItem::new());

    lock_folder(&mut app_state, true);
    assert_eq!(app_state.page, AppPages::Main);
    assert!(app_state.folder_key.is_none());
    assert_eq!(app_state.txt_diary, "");
    assert!(!app_state.current_diary.is_selected);
    assert!(app_state.diaries.is_empty());
    assert_eq!(app_state.folder_protection, FolderProtection::Encrypted);
    assert_eq!(app_state.diary_base_path.as_deref(), Some("/home/me/diary"));
}

#[test]
fn selecting_a_folder_forgets_the_previous_key() {
    let mut app_state = folder_state(true);
    app_state.folder_key = Some(key(1));
    app_state.diary_base_path = None;
    refresh_folder_protection(&mut app_state, true);
    assert_eq!(app_state.folder_protection, FolderProtection::Plain);
    assert!(app_state.folder_key.is_none());
    assert_eq!(app_state.password, "");
}

#[test]
fn the_diary_page_starts_without_a_message() {
    let mut app_state = folder_state(false);
    app_state.status_message = "something".to_string();
    show_diary_page(&mut app_state);
    assert_eq!(app_state.page, AppPages::Diary);
    assert_eq!(app_state.status_message, "");
}

#[test]
fn the_folder_stays_open_when_the_diary_could_not_be_saved() {
    let mut app_state = folder_state(true);
    open_selected_folder(&mut app_state, Ok(Some(key(5)))).unwrap();
    app_state.txt_diary = "unsaved words".to_string();

    let outcome = fast_diary::folder::save_then_lock(
        &mut app_state,
        Err(FolderError::Vault("Could not save diary `a.md`.".into())),
        true,
    );
    assert!(outcome.is_err());
    assert_eq!(app_state.txt_diary, "unsaved words");
    assert!(app_state.folder_key.is_some());
    assert_eq!(app_state.page, AppPages::Diary);

    assert!(fast_diary::folder::save_then_lock(&mut app_state, Ok(()), true).is_ok());
    assert_eq!(app_state.txt_diary, "");
    assert!(app_state.folder_key.is_none());
    assert_eq!(app_state.page, AppPages::Main);
}
