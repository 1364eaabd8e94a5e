//! The decisions of the main window: which menu items are offered, what the folder page says
//! and allows, when the folder related state is reset, how the outcome of a folder command is
//! told, when the folder locks itself, and how the opened diary is saved.

use vstd::prelude::*;

use crate::folder::{error_message, refresh_folder_protection, FolderError};
use crate::state::{AppPages, AppState, DiaryListItem, FolderProtection};
use crate::text::{chars_of, is_white_space, is_whitespace};

verus! {

/// How often, in milliseconds, the opened diary is saved while it changes.
pub const AUTOSAVE_INTERVAL_MILLIS: u64 = 5000;

/// How long, in milliseconds, an unlocked folder stays open without any key press or click.
pub const AUTO_LOCK_AFTER_MILLIS: u64 = 600000;

/// Tells whether the folder selection page is shown.
pub fn is_main_page(app_state: &AppState) -> (is_main: bool)
    ensures
        is_main == (app_state.page == AppPages::Main),
{
    app_state.page == AppPages::Main
}

/// Tells whether the diary page is shown.
pub fn is_diary_page(app_state: &AppState) -> (is_diary: bool)
    ensures
        is_diary == (app_state.page == AppPages::Diary),
{
    app_state.page == AppPages::Diary
}

/// Tells whether a diary is open on the diary page, which the editing menu items need.
pub fn has_opened_diary(app_state: &AppState) -> (has_diary: bool)
    ensures
        has_diary == (app_state.page == AppPages::Diary && app_state.current_diary.is_selected),
{
    is_diary_page(app_state) && app_state.current_diary.is_selected
}

/// Tells whether a folder is selected that is not encrypted, which can be encrypted then.
pub fn is_plain_folder_selected(app_state: &AppState) -> (is_plain: bool)
    ensures
        is_plain == (app_state.diary_base_path is Some && app_state.folder_protection
            == FolderProtection::Plain),
{
    app_state.diary_base_path.is_some() && app_state.folder_protection == FolderProtection::Plain
}

/// Tells whether the folder can be opened: a folder is selected, and an encrypted one has a
/// typed password.
pub fn can_open_folder(app_state: &AppState) -> (can_open: bool)
    ensures
        can_open == (app_state.diary_base_path is Some && !(app_state.folder_protection
            == FolderProtection::Encrypted && app_state.password@.len() == 0)),
{
    let password_missing = match app_state.folder_protection {
        FolderProtection::Encrypted => app_state.password.as_str().is_empty(),
        FolderProtection::Plain => false,
    };
    app_state.diary_base_path.is_some() && !password_missing
}

/// The sentence that tells whether the selected folder is encrypted.
pub open spec fn folder_status_of(app_state: &AppState) -> Seq<char> {
    if app_state.diary_base_path is None {
        ""@
    } else if app_state.folder_protection == FolderProtection::Plain {
        "This folder is not encrypted."@
    } else {
        "This folder is encrypted."@
    }
}

/// Returns the sentence that tells whether the selected folder is encrypted, or nothing when
/// no folder is selected.
pub fn folder_status(app_state: &AppState) -> (status: &'static str)
    ensures
        status@ == folder_status_of(app_state),
{
    match (&app_state.diary_base_path, app_state.folder_protection) {
        (None, _) => "",
        (Some(_), FolderProtection::Plain) => "This folder is not encrypted.",
        (Some(_), FolderProtection::Encrypted) => "This folder is encrypted.",
    }
}

/// Shows the outcome of a folder command to the user: `success_message` when it worked, what
/// went wrong when it did not.
pub fn report_outcome(
    app_state: &mut AppState,
    outcome: Result<(), FolderError>,
    success_message: &str,
)
    ensures
        final(app_state).status_message@ == match outcome {
            Ok(()) => success_message@,
            Err(error) => error_message(error),
        },
        *final(app_state) == (AppState {
            status_message: final(app_state).status_message,
            ..*old(app_state)
        }),
{
    app_state.status_message = match outcome {
        Ok(()) => {
            let mut message = String::new();
            message.append(success_message);
            message
        },
        Err(error) => error.message(),
    };
}

/// Opens the settings page, as the Settings menu item and the cog button of the toolbar do: the
/// status message is cleared and nothing else changes.
pub fn open_settings(app_state: &mut AppState)
    ensures
        final(app_state).page == AppPages::Settings,
        final(app_state).status_message@ == Seq::<char>::empty(),
        *final(app_state) == (AppState {
            page: AppPages::Settings,
            status_message: final(app_state).status_message,
            ..*old(app_state)
        }),
{
    app_state.status_message = String::new();
    app_state.page = AppPages::Settings;
}

/// Tells whether an unlocked folder locks itself: it has a key and nothing was pressed or
/// clicked for `idle_millis` milliseconds, at least [`AUTO_LOCK_AFTER_MILLIS`].
pub fn should_auto_lock(has_folder_key: bool, idle_millis: u64) -> (lock: bool)
    ensures
        lock == (has_folder_key && idle_millis >= AUTO_LOCK_AFTER_MILLIS),
{
    has_folder_key && idle_millis >= AUTO_LOCK_AFTER_MILLIS
}

/// Whether the two optional paths are the same.
pub open spec fn same_path(a: Option<String>, b: Option<String>) -> bool {
    match (a, b) {
        (None, None) => true,
        (Some(x), Some(y)) => x@ == y@,
        _ => false,
    }
}

/// The window's memory of the folder that it last saw selected.
pub struct MainWindowController {
    observed_base_path: Option<String>,
}

impl MainWindowController {
    /// The folder that the window last saw selected.
    pub closed spec fn observed(&self) -> Option<String> {
        self.observed_base_path
    }

    /// A window that saw no folder yet.
    pub fn new() -> (controller: MainWindowController)
        ensures
            controller.observed() is None,
    {
        MainWindowController { observed_base_path: None }
    }

    /// Tells whether another folder is selected than the one the window saw last.
    pub fn base_path_changed(&self, app_state: &AppState) -> (changed: bool)
        ensures
            changed == !same_path(self.observed(), app_state.diary_base_path),
    {
        match (&self.observed_base_path, &app_state.diary_base_path) {
            (None, None) => false,
            (Some(observed), Some(selected)) => !observed.eq(selected),
            _ => true,
        }
    }

    /// Resets the folder related state when another folder is selected than the one the window
    /// saw last. `folder_is_encrypted` is what the vault finds for the selected folder; it is
    /// only used when the folder changed.
    pub fn sync_folder_protection(&mut self, app_state: &mut AppState, folder_is_encrypted: bool)
        ensures
            same_path(final(self).observed(), old(app_state).diary_base_path),
            same_path(old(self).observed(), old(app_state).diary_base_path) ==> *final(app_state)
                == *old(app_state),
            !same_path(old(self).observed(), old(app_state).diary_base_path) ==> {
                &&& final(app_state).folder_protection == if old(app_state).diary_base_path is Some
                    && folder_is_encrypted {
                    FolderProtection::Encrypted
                } else {
                    FolderProtection::Plain
                }
                &&& final(app_state).folder_key is None
                &&& final(app_state).status_message@ == Seq::<char>::empty()
                &&& final(app_state).passwords_cleared()
                &&& crate::folder::keeps_diaries_and_page(old(app_state), final(app_state))
            },
    {
        if self.base_path_changed(app_state) {
            self.observed_base_path = match &app_state.diary_base_path {
                Some(path) => Some(path.clone()),
                None => None,
            };
            refresh_folder_protection(app_state, folder_is_encrypted);
        }
    }
}

/// What saving the opened diary comes down to.
#[derive(Debug, Clone, Copy, PartialEq, Eq, Structural)]
pub enum SaveStep {
    /// The opened diary is a draft without text: nothing is written and no file is made.
    SkipEmptyDraft,
    /// The opened diary is a draft with text: its file is created and listed, then written.
    CreateThenWrite,
    /// The opened diary has a file, which is written.
    Write,
}

/// Why the opened diary cannot be saved.
#[derive(Debug, Clone, Copy, PartialEq, Eq, Structural)]
pub enum SaveError {
    /// No diary is open.
    NotSelected,
    /// No folder is open to save it into.
    NoFolder,
}

impl SaveError {
    /// Returns the message that tells what went wrong.
    pub fn message(&self) -> (message: &'static str)
        ensures
            message@ == match *self {
                SaveError::NotSelected => "Diary not selected."@,
                SaveError::NoFolder => "Diary path did not selected."@,
            },
    {
        match self {
            SaveError::NotSelected => "Diary not selected.",
            SaveError::NoFolder => "Diary path did not selected.",
        }
    }
}

/// Whether `text` holds nothing but white space.
pub open spec fn is_blank(text: Seq<char>) -> bool {
    forall|i: int| 0 <= i < text.len() ==> is_white_space(#[trigger] text[i])
}

/// Returns what saving the opened diary comes down to, or why it cannot be saved.
/// `has_store` tells whether the selected folder is open for reading and writing.
pub fn save_step(app_state: &AppState, has_store: bool) -> (step: Result<SaveStep, SaveError>)
    ensures
        !app_state.current_diary.is_selected ==> step == Err::<SaveStep, SaveError>(
            SaveError::NotSelected,
        ),
        app_state.current_diary.is_selected && !has_store ==> step == Err::<SaveStep, SaveError>(
            SaveError::NoFolder,
        ),
        app_state.current_diary.is_selected && has_store ==> step == Ok::<SaveStep, SaveError>(
            if !app_state.current_diary.is_draft {
                SaveStep::Write
            } else if is_blank(app_state.txt_diary@) {
                SaveStep::SkipEmptyDraft
            } else {
                SaveStep::CreateThenWrite
            },
        ),
{
    if !app_state.current_diary.is_selected {
        return Err(SaveError::NotSelected);
    }
    if !has_store {
        return Err(SaveError::NoFolder);
    }
    if !app_state.current_diary.is_draft {
        return Ok(SaveStep::Write);
    }
    let chars = chars_of(app_state.txt_diary.as_str());
    let mut i: usize = 0;
    while i < chars.len()
        invariant
            i <= chars.len(),
            chars@ == app_state.txt_diary@,
            app_state.current_diary.is_selected,
            app_state.current_diary.is_draft,
            has_store,
            forall|j: int| 0 <= j < i ==> is_white_space(#[trigger] chars@[j]),
        decreases chars.len() - i,
    {
        if !is_whitespace(chars[i]) {
            return Ok(SaveStep::CreateThenWrite);
        }
        i = i + 1;
    }
    Ok(SaveStep::SkipEmptyDraft)
}


/// A command that reaches the main window.
#[derive(Debug, Clone)]
pub enum WindowCommand {
    /// A diary was made elsewhere and joins the list.
    AddDiary(DiaryListItem),
    /// A diary of the list is to be opened.
    SetCurrentDiary(DiaryListItem),
    /// A day of the calendar was chosen: its latest diary or a draft is to be opened.
    StartDraft,
    /// The opened diary is to be saved.
    SaveCurrentDiary,
    ShowAbout,
    /// The window and the settings are to be remembered.
    SaveSettings,
    OpenFolder,
    EncryptFolder,
    LockFolder,
    ChangeFolderPassword,
    /// The file dialog chose a path.
    OpenFile,
    /// The diaries of the opened folder are to be listed.
    LoadFolder,
    /// A diary for the current moment is to be created.
    CreateDiary,
    /// The caret of the editor moved to another line.
    CursorLineChanged(usize),
    Other,
}

/// An event that reaches the main window.
#[derive(Debug, Clone)]
pub enum WindowEvent {
    WindowSize,
    /// The window is closing.
    WindowDisconnected,
    /// A timer with this token fired.
    Timer(u64),
    MouseMove,
    KeyDown,
    MouseDown,
    Command(WindowCommand),
    Other,
}

/// The work that the window does for an event, besides what [`handle_window_event`] changes in
/// the state itself.
#[derive(Debug, Clone, Copy, PartialEq, Eq, Structural)]
pub enum WindowAction {
    Nothing,
    /// Save the opened diary if there is one, then remember the window and the settings.
    SaveAndRemember,
    /// Save the opened diary, lock an idle folder and ask for the next autosave timer.
    AutosaveTick,
    OpenDiary,
    StartDraft,
    SaveCurrentDiary,
    ShowAbout,
    SaveSettings,
    OpenFolder,
    EncryptFolder,
    LockFolder,
    ChangeFolderPassword,
    SetBasePath,
    LoadFolder,
    CreateDiary,
}

/// What the window does for an event: the work to do, whether the event goes on to the
/// window's content, and whether it counts as the user being active.
#[derive(Debug, Clone, Copy, PartialEq, Eq, Structural)]
pub struct WindowStep {
    pub action: WindowAction,
    pub pass_to_child: bool,
    pub is_activity: bool,
}

/// The work that the window does for `command`.
pub open spec fn command_action(command: WindowCommand) -> WindowAction {
    match command {
        WindowCommand::AddDiary(_) => WindowAction::Nothing,
        WindowCommand::SetCurrentDiary(_) => WindowAction::OpenDiary,
        WindowCommand::StartDraft => WindowAction::StartDraft,
        WindowCommand::SaveCurrentDiary => WindowAction::SaveCurrentDiary,
        WindowCommand::ShowAbout => WindowAction::ShowAbout,
        WindowCommand::SaveSettings => WindowAction::SaveSettings,
        WindowCommand::OpenFolder => WindowAction::OpenFolder,
        WindowCommand::EncryptFolder => WindowAction::EncryptFolder,
        WindowCommand::LockFolder => WindowAction::LockFolder,
        WindowCommand::ChangeFolderPassword => WindowAction::ChangeFolderPassword,
        WindowCommand::OpenFile => WindowAction::SetBasePath,
        WindowCommand::LoadFolder => WindowAction::LoadFolder,
        WindowCommand::CreateDiary => WindowAction::CreateDiary,
        WindowCommand::CursorLineChanged(_) => WindowAction::Nothing,
        WindowCommand::Other => WindowAction::Nothing,
    }
}

/// Whether `command` goes on to the window's content: the commands that the window handles
/// itself stop there, the others go on.
pub open spec fn command_passes(command: WindowCommand) -> bool {
    match command {
        WindowCommand::AddDiary(_) | WindowCommand::OpenFile | WindowCommand::LoadFolder
        | WindowCommand::Other => true,
        _ => false,
    }
}

/// What the window does for `event` while the autosave timer is `autosave_timer`.
pub open spec fn window_step(event: WindowEvent, autosave_timer: u64) -> WindowStep {
    match event {
        WindowEvent::WindowDisconnected => WindowStep {
            action: WindowAction::SaveAndRemember,
            pass_to_child: true,
            is_activity: false,
        },
        WindowEvent::Timer(token) => if token == autosave_timer {
            WindowStep { action: WindowAction::AutosaveTick, pass_to_child: false, is_activity: false }
        } else {
            WindowStep { action: WindowAction::Nothing, pass_to_child: true, is_activity: false }
        },
        WindowEvent::KeyDown | WindowEvent::MouseDown => WindowStep {
            action: WindowAction::Nothing,
            pass_to_child: true,
            is_activity: true,
        },
        WindowEvent::Command(command) => WindowStep {
            action: command_action(command),
            pass_to_child: command_passes(command),
            is_activity: false,
        },
        _ => WindowStep { action: WindowAction::Nothing, pass_to_child: true, is_activity: false },
    }
}

/// Takes in an event of the main window while the autosave timer is `autosave_timer`. A diary
/// that joins the list is added to it and a new line of the caret is noted; everything else is
/// left to the caller, as the returned step says, and after it the caller calls
/// [`MainWindowController::sync_folder_protection`].
pub fn handle_window_event(app_state: &mut AppState, event: WindowEvent, autosave_timer: u64) -> (step:
    WindowStep)
    ensures
        step == window_step(event, autosave_timer),
        match event {
            WindowEvent::Command(WindowCommand::AddDiary(item)) => *final(app_state) == (AppState {
                diaries: final(app_state).diaries,
                ..*old(app_state)
            }) && final(app_state).diaries@ == old(app_state).diaries@.push(item),
            WindowEvent::Command(WindowCommand::CursorLineChanged(line)) => *final(app_state)
                == (AppState { editor_cursor_line: line, ..*old(app_state) }),
            _ => *final(app_state) == *old(app_state),
        },
{
    match event {
        WindowEvent::WindowDisconnected => WindowStep {
            action: WindowAction::SaveAndRemember,
            pass_to_child: true,
            is_activity: false,
        },
        WindowEvent::Timer(token) => if token == autosave_timer {
            WindowStep { action: WindowAction::AutosaveTick, pass_to_child: false, is_activity: false }
        } else {
            WindowStep { action: WindowAction::Nothing, pass_to_child: true, is_activity: false }
        },
        WindowEvent::KeyDown | WindowEvent::MouseDown => WindowStep {
            action: WindowAction::Nothing,
            pass_to_child: true,
            is_activity: true,
        },
        WindowEvent::Command(command) => {
            let action = match &command {
                WindowCommand::AddDiary(_) => WindowAction::Nothing,
                WindowCommand::SetCurrentDiary(_) => WindowAction::OpenDiary,
                WindowCommand::StartDraft => WindowAction::StartDraft,
                WindowCommand::SaveCurrentDiary => WindowAction::SaveCurrentDiary,
                WindowCommand::ShowAbout => WindowAction::ShowAbout,
                WindowCommand::SaveSettings => WindowAction::SaveSettings,
                WindowCommand::OpenFolder => WindowAction::OpenFolder,
                WindowCommand::EncryptFolder => WindowAction::EncryptFolder,
                WindowCommand::LockFolder => WindowAction::LockFolder,
                WindowCommand::ChangeFolderPassword => WindowAction::ChangeFolderPassword,
                WindowCommand::OpenFile => WindowAction::SetBasePath,
                WindowCommand::LoadFolder => WindowAction::LoadFolder,
                WindowCommand::CreateDiary => WindowAction::CreateDiary,
                WindowCommand::CursorLineChanged(_) => WindowAction::Nothing,
                WindowCommand::Other => WindowAction::Nothing,
            };
            let pass_to_child = match &command {
                WindowCommand::AddDiary(_) | WindowCommand::OpenFile | WindowCommand::LoadFolder
                | WindowCommand::Other => true,
                _ => false,
            };
            match command {
                WindowCommand::AddDiary(item) => app_state.diaries.push(item),
                WindowCommand::CursorLineChanged(line) => app_state.editor_cursor_line = line,
                _ => {},
            }
            WindowStep { action, pass_to_child, is_activity: false }
        },
        _ => WindowStep { action: WindowAction::Nothing, pass_to_child: true, is_activity: false },
    }
}

/// The message that a folder command leaves when it worked: a changed password is confirmed,
/// the other commands leave no message.
pub open spec fn success_message_of(action: WindowAction) -> Seq<char> {
    if action == WindowAction::ChangeFolderPassword {
        "Password changed."@
    } else {
        ""@
    }
}

/// Returns the message that tells the user that the folder command of `action` worked.
pub fn success_message(action: WindowAction) -> (message: &'static str)
    ensures
        message@ == success_message_of(action),
{
    match action {
        WindowAction::ChangeFolderPassword => "Password changed.",
        _ => "",
    }
}

/// The commands that call for work of the window are handled by the window itself and never
/// passed on: saving the opened diary (Ctrl+S, File > Save) saves it, and opening, encrypting,
/// locking and re-keying the folder, creating a diary, opening a diary of the list and choosing
/// a day each lead to their own work, whatever the autosave timer is.
pub proof fn law_window_commands_lead_to_their_work(autosave_timer: u64)
    ensures
        window_step(WindowEvent::Command(WindowCommand::SaveCurrentDiary), autosave_timer)
            == (WindowStep {
            action: WindowAction::SaveCurrentDiary,
            pass_to_child: false,
            is_activity: false,
        }),
        window_step(WindowEvent::Command(WindowCommand::OpenFolder), autosave_timer).action
            == WindowAction::OpenFolder,
        window_step(WindowEvent::Command(WindowCommand::EncryptFolder), autosave_timer).action
            == WindowAction::EncryptFolder,
        window_step(WindowEvent::Command(WindowCommand::LockFolder), autosave_timer).action
            == WindowAction::LockFolder,
        window_step(WindowEvent::Command(WindowCommand::ChangeFolderPassword), autosave_timer).action
            == WindowAction::ChangeFolderPassword,
        window_step(WindowEvent::Command(WindowCommand::CreateDiary), autosave_timer).action
            == WindowAction::CreateDiary,
        window_step(WindowEvent::Command(WindowCommand::StartDraft), autosave_timer).action
            == WindowAction::StartDraft,
        forall|item: DiaryListItem|
            #[trigger] window_step(
                WindowEvent::Command(WindowCommand::SetCurrentDiary(item)),
                autosave_timer,
            ).action == WindowAction::OpenDiary,
        forall|command: WindowCommand|
            command_action(command) != WindowAction::Nothing ==> !window_step(
                WindowEvent::Command(command),
                autosave_timer,
            ).pass_to_child || command is OpenFile || command is LoadFolder,
        window_step(WindowEvent::Timer(autosave_timer), autosave_timer).action
            == WindowAction::AutosaveTick,
{
}

} // verus!
