//! The list of diaries: a click and the arrow keys open a diary of it, after the opened one
//! is saved.

use vstd::prelude::*;

use crate::diaries::BrowseStep;
use crate::keys::KeyInput;
use crate::state::{AppState, DiaryListItem};

verus! {

/// Whether `index` is the first position of `diaries` whose diary has the file `file_name`.
pub open spec fn is_first_position(diaries: Seq<DiaryListItem>, file_name: Seq<char>, index: int) -> bool {
    &&& 0 <= index < diaries.len()
    &&& diaries[index].file_name@ == file_name
    &&& forall|j: int| 0 <= j < index ==> #[trigger] diaries[j].file_name@ != file_name
}

/// Whether no diary of `diaries` has the file `file_name`.
pub open spec fn has_no_diary_named(diaries: Seq<DiaryListItem>, file_name: Seq<char>) -> bool {
    forall|j: int| 0 <= j < diaries.len() ==> #[trigger] diaries[j].file_name@ != file_name
}

/// The keyboard handling of the diary list.
#[derive(Debug, Default)]
pub struct DiaryListController;

impl DiaryListController {
    pub fn new() -> (controller: DiaryListController) {
        DiaryListController
    }

    /// Decides what moving the selection by `offset` from the opened diary does: the opened
    /// diary is saved, then the diary `offset` places away is opened. Nothing happens when there
    /// are no diaries or the move leaves the list; the first diary is opened when no diary of
    /// the list is open.
    pub fn select_offset(&self, app_state: &AppState, offset: isize) -> (next: Option<BrowseStep>)
        ensures
            app_state.diaries@.len() == 0 ==> next is None,
            app_state.diaries@.len() > 0 && (!app_state.current_diary.is_selected
                || has_no_diary_named(app_state.diaries@, app_state.current_diary.diary.file_name@))
                ==> next == Some(BrowseStep::SaveThenOpen(0usize)),
            forall|index: int|
                app_state.current_diary.is_selected && is_first_position(
                    app_state.diaries@,
                    app_state.current_diary.diary.file_name@,
                    index,
                ) ==> next == if 0 <= index + offset < app_state.diaries@.len() {
                    Some(BrowseStep::SaveThenOpen((index + offset) as usize))
                } else {
                    None
                },
    {
        let count = app_state.diaries.len();
        if count == 0 {
            return None;
        }
        let mut position: Option<usize> = None;
        if app_state.current_diary.is_selected {
            let mut j: usize = 0;
            while j < count
                invariant
                    j <= count,
                    count == app_state.diaries@.len(),
                    forall|k: int|
                        0 <= k < j ==> #[trigger] app_state.diaries@[k].file_name@
                            != app_state.current_diary.diary.file_name@,
                ensures
                    j < count ==> app_state.diaries@[j as int].file_name@
                        == app_state.current_diary.diary.file_name@,
                    forall|k: int|
                        0 <= k < j ==> #[trigger] app_state.diaries@[k].file_name@
                            != app_state.current_diary.diary.file_name@,
                    j <= count,
                decreases count - j,
            {
                if app_state.diaries[j].file_name.eq(&app_state.current_diary.diary.file_name) {
                    break ;
                }
                j = j + 1;
            }
            if j < count {
                position = Some(j);
                assert(is_first_position(
                    app_state.diaries@,
                    app_state.current_diary.diary.file_name@,
                    j as int,
                ));
            }
        }
        match position {
            Some(index) => {
                let next = index as i128 + offset as i128;
                proof {
                    assert forall|other: int|
                        is_first_position(
                            app_state.diaries@,
                            app_state.current_diary.diary.file_name@,
                            other,
                        ) implies other == index by {
                        if other < index {
                            assert(app_state.diaries@[other].file_name@
                                != app_state.current_diary.diary.file_name@);
                        } else if other > index {
                            assert(app_state.diaries@[index as int].file_name@
                                != app_state.current_diary.diary.file_name@);
                        }
                    }
                }
                if next < 0 || next >= count as i128 {
                    None
                } else {
                    Some(BrowseStep::SaveThenOpen(next as usize))
                }
            },
            None => Some(BrowseStep::SaveThenOpen(0)),
        }
    }
}

impl DiaryListController {
    /// Decides what a click on the diary at `index` of the list does: the opened diary is saved,
    /// then the clicked one is opened.
    pub fn item_clicked(&self, index: usize) -> (step: BrowseStep)
        ensures
            step == BrowseStep::SaveThenOpen(index),
    {
        BrowseStep::SaveThenOpen(index)
    }
}

/// Returns how far a key press moves the selection of the diary list: the up arrow to the
/// diary above, the down arrow to the one below, other keys not at all.
pub fn list_key_offset(key: &KeyInput) -> (offset: Option<isize>)
    ensures
        offset == match *key {
            KeyInput::ArrowUp => Some(-1isize),
            KeyInput::ArrowDown => Some(1isize),
            _ => None,
        },
{
    match key {
        KeyInput::ArrowUp => Some(-1),
        KeyInput::ArrowDown => Some(1),
        _ => None,
    }
}

} // verus!
