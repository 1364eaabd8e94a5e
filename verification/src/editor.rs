//! The diary editor: which line the caret is on, and when that line is reported.

use vstd::prelude::*;

verus! {

/// The number of line feed bytes in `bytes`.
pub open spec fn count_line_feeds(bytes: Seq<u8>) -> nat
    decreases bytes.len(),
{
    if bytes.len() == 0 {
        0
    } else {
        count_line_feeds(bytes.drop_last()) + if bytes.last() == 10u8 { 1nat } else { 0nat }
    }
}

/// The bytes of `text` that lie before the byte `offset`, or all of them when `offset` is past
/// the end of the text or inside the encoding of a character.
pub open spec fn text_before(text: Seq<char>, offset: int) -> Seq<u8> {
    let bytes = vstd::utf8::encode_utf8(text);
    if offset <= bytes.len() && vstd::utf8::is_char_boundary(bytes, offset) {
        bytes.take(offset)
    } else {
        bytes
    }
}

/// Returns the 0-based line of `text` that the byte `offset` falls on.
pub fn line_at(text: &str, offset: usize) -> (line: usize)
    ensures
        line == count_line_feeds(text_before(text@, offset as int)),
{
    let bytes = text.as_bytes();
    proof {
        vstd::utf8::encode_utf8_valid_utf8(text@);
    }
    let end = if offset <= bytes.len() && text.is_char_boundary(offset) {
        offset
    } else {
        bytes.len()
    };
    let mut line: usize = 0;
    let mut index: usize = 0;
    while index < end
        invariant
            end <= bytes@.len(),
            bytes@ == vstd::utf8::encode_utf8(text@),
            bytes@.take(end as int) == text_before(text@, offset as int),
            index <= end,
            line == count_line_feeds(bytes@.take(index as int)),
            line <= index,
        decreases end - index,
    {
        assert(bytes@.take(index as int + 1).drop_last() == bytes@.take(index as int));
        if bytes[index] == 10u8 {
            line = line + 1;
        }
        index = index + 1;
    }
    line
}

/// The part of the diary editor that decides when it scrolls to the caret and when it tells
/// the rest of the app which line the caret is on.
pub struct DiaryEditor {
    is_caret_follow_due: bool,
    last_reported_cursor_line: Option<usize>,
}

impl DiaryEditor {
    /// Whether the editor scrolls to the caret after the next layout.
    pub closed spec fn caret_follow_due(&self) -> bool {
        self.is_caret_follow_due
    }

    /// The line of the caret that the editor reported last, if any.
    pub closed spec fn last_reported(&self) -> Option<usize> {
        self.last_reported_cursor_line
    }

    /// An editor that has nothing to scroll to and reported no line yet.
    pub fn new() -> (editor: DiaryEditor)
        ensures
            !editor.caret_follow_due(),
            editor.last_reported() is None,
    {
        DiaryEditor { is_caret_follow_due: false, last_reported_cursor_line: None }
    }

    /// Makes the editor scroll to the caret once the next layout has placed the text.
    pub fn schedule_caret_follow(&mut self)
        ensures
            final(self).caret_follow_due(),
            final(self).last_reported() == old(self).last_reported(),
    {
        self.is_caret_follow_due = true;
    }

    /// The text was laid out: returns whether the editor scrolls to the caret now, which it does
    /// once for each time it was scheduled.
    pub fn take_caret_follow(&mut self) -> (follow: bool)
        ensures
            follow == old(self).caret_follow_due(),
            !final(self).caret_follow_due(),
            final(self).last_reported() == old(self).last_reported(),
    {
        let follow = self.is_caret_follow_due;
        self.is_caret_follow_due = false;
        follow
    }

    /// The caret is at the byte `caret` of `text`, or unknown while the input method holds the
    /// text. Returns the caret's line when it differs from the line reported last, which it
    /// then is; returns nothing otherwise.
    pub fn report_cursor_line(&mut self, text: &str, caret: Option<usize>) -> (reported: Option<
        usize,
    >)
        ensures
            final(self).caret_follow_due() == old(self).caret_follow_due(),
            match caret {
                None => reported is None && final(self).last_reported() == old(self).last_reported(),
                Some(offset) => {
                    let line = count_line_feeds(text_before(text@, offset as int));
                    if old(self).last_reported() == Some(line as usize) {
                        reported is None && final(self).last_reported() == old(self).last_reported()
                    } else {
                        reported == Some(line as usize) && final(self).last_reported() == Some(
                            line as usize,
                        )
                    }
                },
            },
    {
        match caret {
            None => None,
            Some(offset) => {
                let cursor_line = line_at(text, offset);
                let same = match self.last_reported_cursor_line {
                    Some(last) => last == cursor_line,
                    None => false,
                };
                if same {
                    None
                } else {
                    self.last_reported_cursor_line = Some(cursor_line);
                    Some(cursor_line)
                }
            },
        }
    }
}

/// The controller of the plain diary text box, which saves the diary on Ctrl+S (see
/// [`crate::keys::is_save_shortcut`]).
#[derive(Debug, Default)]
pub struct DiaryTextController;

impl DiaryTextController {
    pub fn new() -> (controller: DiaryTextController) {
        DiaryTextController
    }
}

} // verus!
