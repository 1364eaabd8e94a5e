//! The verified core of Fast Diary: the decisions that its windows and widgets make, the
//! rendering of markdown into plain text with styled ranges, and the rules that the folder and
//! editor state follow.

pub mod editor;
pub mod text;
pub mod markdown;
pub mod calendar;
pub mod keys;
pub mod state;
pub mod preview;
pub mod folder;
pub mod window;
pub mod password;
pub mod diary_list;
pub mod diaries;
