//! What happens to the state when a folder is selected, opened, encrypted, given a new password
//! or locked. The work on the disk (finding out whether a folder is encrypted, unlocking it,
//! encrypting it, converting its diaries) is done by the caller, who hands its outcome in.

use vstd::prelude::*;

use crate::state::{AppPages, AppState, CurrentDiary, FolderKey, FolderProtection, PasswordChangeForm};
use crate::text::{decimal, push_decimal, string_from_chars, zeroize_string};

verus! {

/// Why a folder command failed.
#[derive(Debug, Clone)]
pub enum FolderError {
    /// No folder is selected.
    NoFolderSelected,
    /// The folder could not be read, unlocked or written; the message says why.
    Vault(String),
    /// The folder is encrypted now, but its diaries could not be looked at; the message says why.
    ConversionFailed(String),
    /// The folder is encrypted now, but this many of its diaries could not be converted.
    DiariesNotConverted(usize),
}

/// The message that tells the user about `error`.
pub open spec fn error_message(error: FolderError) -> Seq<char> {
    match error {
        FolderError::NoFolderSelected => "Please select a folder."@,
        FolderError::Vault(message) => message@,
        FolderError::ConversionFailed(cause) =>
            "The folder is encrypted now, but its existing diaries could not be converted: "@
            + cause@,
        FolderError::DiariesNotConverted(count) => "The folder is encrypted now, but "@ + decimal(
            count as nat,
        )
            + " existing diaries could not be converted. They stay as plain files until you unlock the folder again."@,
    }
}

impl FolderError {
    /// Returns the message that tells the user about the error.
    pub fn message(&self) -> (message: String)
        ensures
            message@ == error_message(*self),
    {
        match self {
            FolderError::NoFolderSelected => {
                let mut message = String::new();
                message.append("Please select a folder.");
                message
            },
            FolderError::Vault(message) => message.clone(),
            FolderError::ConversionFailed(cause) => {
                let mut message = String::new();
                message.append(
                    "The folder is encrypted now, but its existing diaries could not be converted: ",
                );
                message.append(cause.as_str());
                message
            },
            FolderError::DiariesNotConverted(count) => {
                let mut digits: Vec<char> = Vec::new();
                push_decimal(&mut digits, *count as u64);
                assert(digits@ =~= decimal(*count as nat));
                let count_text = string_from_chars(&digits);
                let mut message = String::new();
                message.append("The folder is encrypted now, but ");
                message.append(count_text.as_str());
                message.append(
                    " existing diaries could not be converted. They stay as plain files until you unlock the folder again.",
                );
                message
            },
        }
    }
}

/// Whether `after` holds the same folder and diaries as `before`: the selected folder, the
/// opened diary and its text, the listed diaries, the month of the calendar and the line of
/// the caret.
pub open spec fn keeps_diaries(before: &AppState, after: &AppState) -> bool {
    &&& after.diary_base_path == before.diary_base_path
    &&& after.txt_diary == before.txt_diary
    &&& after.current_diary == before.current_diary
    &&& after.diaries == before.diaries
    &&& after.calendar_month == before.calendar_month
    &&& after.editor_cursor_line == before.editor_cursor_line
}

/// Whether `after` differs from `before` at most in the folder protection, the key, the status
/// message and the typed passwords.
pub open spec fn keeps_diaries_and_page(before: &AppState, after: &AppState) -> bool {
    &&& after.page == before.page
    &&& keeps_diaries(before, after)
}

/// Returns the selected folder or an error telling the user to select one.
pub fn selected_folder(app_state: &AppState) -> (folder: Result<String, FolderError>)
    ensures
        match app_state.diary_base_path {
            Some(path) => folder matches Ok(f) && f@ == path@,
            None => folder matches Err(FolderError::NoFolderSelected),
        },
{
    match &app_state.diary_base_path {
        Some(path) => Ok(path.clone()),
        None => Err(FolderError::NoFolderSelected),
    }
}

/// Whether `after` is `before` with no typed password on any page and nothing else changed.
pub open spec fn only_passwords_cleared(before: &AppState, after: &AppState) -> bool {
    &&& after.passwords_cleared()
    &&& *after == (AppState {
        password: after.password,
        password_confirmation: after.password_confirmation,
        password_change: after.password_change,
        ..*before
    })
}

/// Clears the passwords the user typed on any page, overwriting them first.
pub fn clear_typed_passwords(app_state: &mut AppState)
    ensures
        only_passwords_cleared(old(app_state), final(app_state)),
{
    zeroize_string(&mut app_state.password);
    zeroize_string(&mut app_state.password_confirmation);
    zeroize_string(&mut app_state.password_change.current_password);
    zeroize_string(&mut app_state.password_change.new_password);
    zeroize_string(&mut app_state.password_change.confirmation);
    app_state.password_change = PasswordChangeForm::new();
}

/// Switches to the diary page and clears the status message and typed passwords.
pub fn show_diary_page(app_state: &mut AppState)
    ensures
        final(app_state).page == AppPages::Diary,
        final(app_state).status_message@ == Seq::<char>::empty(),
        final(app_state).passwords_cleared(),
        final(app_state).folder_protection == old(app_state).folder_protection,
        final(app_state).folder_key == old(app_state).folder_key,
        keeps_diaries(old(app_state), final(app_state)),
{
    app_state.status_message = String::new();
    clear_typed_passwords(app_state);
    app_state.page = AppPages::Diary;
}

/// Records whether the selected folder is encrypted and drops everything that belonged to the
/// previously selected folder: its key, the typed passwords and the status message.
/// `folder_is_encrypted` is what the vault found for the selected folder; it does not matter
/// when no folder is selected.
pub fn refresh_folder_protection(app_state: &mut AppState, folder_is_encrypted: bool)
    ensures
        final(app_state).folder_protection == if old(app_state).diary_base_path is Some
            && folder_is_encrypted {
            FolderProtection::Encrypted
        } else {
            FolderProtection::Plain
        },
        final(app_state).folder_key is None,
        final(app_state).status_message@ == Seq::<char>::empty(),
        final(app_state).passwords_cleared(),
        keeps_diaries_and_page(old(app_state), final(app_state)),
{
    app_state.folder_protection = if app_state.diary_base_path.is_some() && folder_is_encrypted {
        FolderProtection::Encrypted
    } else {
        FolderProtection::Plain
    };
    app_state.folder_key = None;
    app_state.status_message = String::new();
    clear_typed_passwords(app_state);
}

/// Returns the folder that has to be unlocked before the selected folder opens: `None` for a
/// folder that is not encrypted, and an error when an encrypted folder is expected but no
/// folder is selected.
pub fn folder_to_unlock(app_state: &AppState) -> (folder: Result<Option<String>, FolderError>)
    ensures
        app_state.folder_protection == FolderProtection::Plain ==> folder matches Ok(None),
        app_state.folder_protection == FolderProtection::Encrypted ==> match app_state.diary_base_path {
            Some(path) => folder matches Ok(Some(f)) && f@ == path@,
            None => folder matches Err(FolderError::NoFolderSelected),
        },
{
    match app_state.folder_protection {
        FolderProtection::Plain => Ok(None),
        FolderProtection::Encrypted => match selected_folder(app_state) {
            Ok(folder) => Ok(Some(folder)),
            Err(error) => Err(error),
        },
    }
}

/// Opens the selected folder. `unlocked` is the outcome of unlocking the folder that
/// [`folder_to_unlock`] named with the typed password: the key of an encrypted folder, `None`
/// for a plain one, or why it did not open. A folder that did not open leaves everything as it
/// was; an opened one shows the diary page with the key of the folder.
pub fn open_selected_folder(
    app_state: &mut AppState,
    unlocked: Result<Option<FolderKey>, FolderError>,
) -> (outcome: Result<(), FolderError>)
    ensures
        match unlocked {
            Err(error) => outcome == Err::<(), FolderError>(error) && *final(app_state)
                == *old(app_state),
            Ok(key) => {
                &&& outcome is Ok
                &&& final(app_state).page == AppPages::Diary
                &&& final(app_state).status_message@ == Seq::<char>::empty()
                &&& final(app_state).passwords_cleared()
                &&& final(app_state).folder_key == if key is Some {
                    key
                } else {
                    old(app_state).folder_key
                }
                &&& final(app_state).folder_protection == old(app_state).folder_protection
                &&& keeps_diaries(old(app_state), final(app_state))
            },
        },
{
    match unlocked {
        Err(error) => Err(error),
        Ok(key) => {
            if key.is_some() {
                app_state.folder_key = key;
            }
            show_diary_page(app_state);
            Ok(())
        },
    }
}

/// Finishes encrypting the selected plain folder: the folder was encrypted with the typed
/// password and gave `folder_key`, and `converted` is the outcome of converting the diaries
/// that it already contained, the number of diaries that could not be converted or why none
/// could be looked at. The folder counts as encrypted and the passwords are cleared in any
/// case; it opens only when every diary was converted.
pub fn encrypt_selected_folder(
    app_state: &mut AppState,
    folder_key: FolderKey,
    converted: Result<usize, FolderError>,
) -> (outcome: Result<(), FolderError>)
    ensures
        final(app_state).folder_protection == FolderProtection::Encrypted,
        final(app_state).passwords_cleared(),
        keeps_diaries(old(app_state), final(app_state)),
        match converted {
            Err(error) => {
                &&& outcome matches Err(FolderError::ConversionFailed(cause)) && cause@
                    == error_message(error)
                &&& final(app_state).page == old(app_state).page
                &&& final(app_state).folder_key == old(app_state).folder_key
                &&& final(app_state).status_message == old(app_state).status_message
            },
            Ok(failed) => if failed > 0 {
                &&& outcome matches Err(FolderError::DiariesNotConverted(count)) && count == failed
                &&& final(app_state).page == old(app_state).page
                &&& final(app_state).folder_key == old(app_state).folder_key
                &&& final(app_state).status_message == old(app_state).status_message
            } else {
                &&& outcome is Ok
                &&& final(app_state).page == AppPages::Diary
                &&& final(app_state).status_message@ == Seq::<char>::empty()
                &&& final(app_state).folder_key == Some(folder_key)
            },
        },
{
    app_state.folder_protection = FolderProtection::Encrypted;
    clear_typed_passwords(app_state);
    match converted {
        Err(error) => Err(FolderError::ConversionFailed(error.message())),
        Ok(failed) => {
            if failed > 0 {
                Err(FolderError::DiariesNotConverted(failed))
            } else {
                app_state.folder_key = Some(folder_key);
                show_diary_page(app_state);
                Ok(())
            }
        },
    }
}

/// Finishes changing the password of the selected encrypted folder with the settings form:
/// `changed` is the outcome of changing it. The typed passwords are cleared when it was
/// changed, and kept, so that they can be corrected, when it was not.
pub fn change_folder_password(app_state: &mut AppState, changed: Result<(), FolderError>) -> (outcome:
    Result<(), FolderError>)
    ensures
        outcome == changed,
        changed is Err ==> *final(app_state) == *old(app_state),
        changed is Ok ==> only_passwords_cleared(old(app_state), final(app_state)),
{
    if changed.is_ok() {
        clear_typed_passwords(app_state);
    }
    changed
}

/// Whether `after` is `before` with its folder locked: the folder selection page, no key, no
/// opened diary (none is selected, and the diary held is an empty one that is no draft) or
/// listed diaries, no typed password or message, the same selected folder, and
/// its protection as the vault found it (`folder_is_encrypted`).
pub open spec fn locked(before: &AppState, after: &AppState, folder_is_encrypted: bool) -> bool {
    &&& after.page == AppPages::Main
    &&& after.folder_key is None
    &&& after.txt_diary@ == Seq::<char>::empty()
    &&& !after.current_diary.is_selected
    &&& !after.current_diary.is_draft
    &&& after.current_diary.diary.file_name@ == Seq::<char>::empty()
    &&& after.current_diary.diary.summary@ == Seq::<char>::empty()
    &&& after.diaries@ == Seq::<crate::state::DiaryListItem>::empty()
    &&& after.passwords_cleared()
    &&& after.status_message@ == Seq::<char>::empty()
    &&& after.diary_base_path == before.diary_base_path
    &&& after.folder_protection == if before.diary_base_path is Some && folder_is_encrypted {
        FolderProtection::Encrypted
    } else {
        FolderProtection::Plain
    }
}

/// Forgets the folder key and every opened diary, then returns to the folder selection page.
/// `folder_is_encrypted` is what the vault finds for the selected folder.
pub fn lock_folder(app_state: &mut AppState, folder_is_encrypted: bool)
    ensures
        locked(old(app_state), final(app_state), folder_is_encrypted),
{
    zeroize_string(&mut app_state.txt_diary);
    app_state.current_diary = CurrentDiary::new();
    app_state.diaries.clear();
    refresh_folder_protection(app_state, folder_is_encrypted);
    app_state.page = AppPages::Main;
}

/// Locks the folder once the opened diary is saved. `saved` is the outcome of saving it, `Ok`
/// when no diary is open. When saving failed the folder stays open, so that no unsaved text is
/// lost, and the error is returned.
pub fn save_then_lock(
    app_state: &mut AppState,
    saved: Result<(), FolderError>,
    folder_is_encrypted: bool,
) -> (outcome: Result<(), FolderError>)
    ensures
        match saved {
            Err(error) => outcome == Err::<(), FolderError>(error) && *final(app_state)
                == *old(app_state),
            Ok(()) => outcome is Ok && locked(old(app_state), final(app_state), folder_is_encrypted),
        },
{
    match saved {
        Err(error) => Err(error),
        Ok(()) => {
            lock_folder(app_state, folder_is_encrypted);
            Ok(())
        },
    }
}

} // verus!
