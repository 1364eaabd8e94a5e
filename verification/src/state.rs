//! The state of the application that the windows and widgets read and change: the page that
//! is shown, the selected folder and its protection, the typed passwords, the opened diary and
//! the list of diaries.

use vstd::prelude::*;

use crate::calendar::CalendarMonth;

verus! {

/// The pages of the main window.
#[derive(Debug, Clone, Copy, PartialEq, Eq, Structural)]
pub enum AppPages {
    /// The folder selection and password page.
    Main,
    /// The diaries of the opened folder and the editor.
    Diary,
    /// The settings of the opened folder.
    Settings,
}

/// Whether the selected folder keeps its diaries encrypted.
#[derive(Debug, Clone, Copy, PartialEq, Eq, Structural)]
pub enum FolderProtection {
    Plain,
    Encrypted,
}

/// The key that unlocks the diaries of an encrypted folder.
#[derive(Debug, Clone)]
pub struct FolderKey {
    pub bytes: Vec<u8>,
}

/// A diary of the folder: its file and the first words of its text.
#[derive(Debug, Clone, PartialEq, Eq)]
pub struct DiaryListItem {
    pub file_name: String,
    pub summary: String,
}

impl DiaryListItem {
    /// A diary without file name and summary.
    pub fn new() -> (item: DiaryListItem)
        ensures
            item.file_name@ == Seq::<char>::empty(),
            item.summary@ == Seq::<char>::empty(),
    {
        DiaryListItem { file_name: String::new(), summary: String::new() }
    }
}

/// The diary that is open in the editor, if one is.
#[derive(Debug, Clone)]
pub struct CurrentDiary {
    pub diary: DiaryListItem,
    /// Whether a diary is open at all.
    pub is_selected: bool,
    /// Whether the open diary has no file yet: it is created when something is written.
    pub is_draft: bool,
}

impl CurrentDiary {
    /// No diary is open.
    pub fn new() -> (current: CurrentDiary)
        ensures
            !current.is_selected,
            !current.is_draft,
            current.diary.file_name@ == Seq::<char>::empty(),
            current.diary.summary@ == Seq::<char>::empty(),
    {
        CurrentDiary { diary: DiaryListItem::new(), is_selected: false, is_draft: false }
    }
}

impl From<DiaryListItem> for CurrentDiary {
    /// The diary `diary`, which has a file, is open.
    fn from(diary: DiaryListItem) -> (current: CurrentDiary) {
        CurrentDiary { diary, is_selected: true, is_draft: false }
    }
}

impl vstd::std_specs::convert::FromSpecImpl<DiaryListItem> for CurrentDiary {
    open spec fn obeys_from_spec() -> bool {
        true
    }

    open spec fn from_spec(diary: DiaryListItem) -> CurrentDiary {
        CurrentDiary { diary, is_selected: true, is_draft: false }
    }
}

/// The passwords typed into the form that changes the password of a folder.
#[derive(Debug, Clone)]
pub struct PasswordChangeForm {
    pub current_password: String,
    pub new_password: String,
    pub confirmation: String,
}

impl PasswordChangeForm {
    /// An empty form.
    pub fn new() -> (form: PasswordChangeForm)
        ensures
            form.is_empty(),
    {
        PasswordChangeForm {
            current_password: String::new(),
            new_password: String::new(),
            confirmation: String::new(),
        }
    }

    /// Whether nothing is typed into the form.
    pub open spec fn is_empty(self) -> bool {
        &&& self.current_password@ == Seq::<char>::empty()
        &&& self.new_password@ == Seq::<char>::empty()
        &&& self.confirmation@ == Seq::<char>::empty()
    }
}

/// The state of the application.
#[derive(Debug)]
pub struct AppState {
    pub page: AppPages,
    /// The folder that the user selected, if any.
    pub diary_base_path: Option<String>,
    pub folder_protection: FolderProtection,
    /// The key of the selected encrypted folder while it is unlocked.
    pub folder_key: Option<FolderKey>,
    /// The message that tells the user how the last folder command went.
    pub status_message: String,
    /// The password typed on the folder selection page.
    pub password: String,
    /// The confirmation of the password, needed to encrypt a folder.
    pub password_confirmation: String,
    pub password_change: PasswordChangeForm,
    /// The text of the opened diary.
    pub txt_diary: String,
    pub current_diary: CurrentDiary,
    /// The diaries of the opened folder, newest first.
    pub diaries: Vec<DiaryListItem>,
    /// The first of the months that the calendar shows.
    pub calendar_month: CalendarMonth,
    /// The line of the editor that the caret is on.
    pub editor_cursor_line: usize,
}

impl AppState {
    /// The state when the application starts: the folder selection page, nothing selected,
    /// typed or opened, and the calendar at `calendar_month`.
    pub fn new(calendar_month: CalendarMonth) -> (app_state: AppState)
        ensures
            app_state.page == AppPages::Main,
            app_state.diary_base_path is None,
            app_state.folder_protection == FolderProtection::Plain,
            app_state.folder_key is None,
            app_state.status_message@ == Seq::<char>::empty(),
            app_state.passwords_cleared(),
            app_state.txt_diary@ == Seq::<char>::empty(),
            !app_state.current_diary.is_selected,
            !app_state.current_diary.is_draft,
            app_state.diaries@ == Seq::<DiaryListItem>::empty(),
            app_state.calendar_month == calendar_month,
            app_state.editor_cursor_line == 0,
    {
        AppState {
            page: AppPages::Main,
            diary_base_path: None,
            folder_protection: FolderProtection::Plain,
            folder_key: None,
            status_message: String::new(),
            password: String::new(),
            password_confirmation: String::new(),
            password_change: PasswordChangeForm::new(),
            txt_diary: String::new(),
            current_diary: CurrentDiary::new(),
            diaries: Vec::new(),
            calendar_month,
            editor_cursor_line: 0,
        }
    }

    /// Whether no password is typed on any page.
    pub open spec fn passwords_cleared(&self) -> bool {
        &&& self.password@ == Seq::<char>::empty()
        &&& self.password_confirmation@ == Seq::<char>::empty()
        &&& self.password_change.is_empty()
    }
}

} // verus!
