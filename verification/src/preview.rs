//! The markdown preview: what it shows, and when it renders the text of the editor again. Another
//! diary is shown at once, while the edits of the same diary wait until the text has been left
//! alone for a while, because laying out a long text on every key press is slow.

use vstd::prelude::*;

use crate::editor::count_line_feeds;
use crate::markdown::parse::markdown_events;
use crate::markdown::render::render_markdown;
use crate::markdown::spec::renders;
use crate::markdown::RenderedMarkdown;
use crate::state::AppState;

verus! {

/// How long, in milliseconds, the text has to stay unchanged before the preview shows it.
pub const PREVIEW_UPDATE_DELAY_MILLIS: u64 = 600;

/// What the preview does when the data changed.
#[derive(Debug, Clone, Copy, PartialEq, Eq, Structural)]
pub enum PreviewAction {
    RenderNow,
    RenderAfterDelay,
    Nothing,
}

/// What the preview does: it renders at once when another diary is opened or a waiting render
/// is due, it waits when only the text changed, and it does nothing otherwise.
pub open spec fn preview_action(
    diary_changed: bool,
    text_changed: bool,
    is_render_due: bool,
) -> PreviewAction {
    if diary_changed || is_render_due {
        PreviewAction::RenderNow
    } else if text_changed {
        PreviewAction::RenderAfterDelay
    } else {
        PreviewAction::Nothing
    }
}

/// Decides what the preview does when the data changed. Another diary is shown at once, while
/// the edits of the same diary wait until the text has been left alone for a while.
pub fn next_action(diary_changed: bool, text_changed: bool, is_render_due: bool) -> (action:
    PreviewAction)
    ensures
        action == preview_action(diary_changed, text_changed, is_render_due),
{
    if diary_changed || is_render_due {
        PreviewAction::RenderNow
    } else if text_changed {
        PreviewAction::RenderAfterDelay
    } else {
        PreviewAction::Nothing
    }
}

/// Returns what tells the opened diary apart: whether one is open, and its file name.
pub fn diary_key(app_state: &AppState) -> (key: (bool, &str))
    ensures
        key.0 == app_state.current_diary.is_selected,
        key.1@ == app_state.current_diary.diary.file_name@,
{
    (app_state.current_diary.is_selected, app_state.current_diary.diary.file_name.as_str())
}

/// Whether another diary is open in `data` than in `old_data`.
pub open spec fn diary_changed(old_data: &AppState, data: &AppState) -> bool {
    old_data.current_diary.is_selected != data.current_diary.is_selected
        || old_data.current_diary.diary.file_name@ != data.current_diary.diary.file_name@
}

/// The markdown preview: the rendered text that it shows, the timer that makes it catch up
/// with the text when a change is waiting, and whether that timer has fired.
pub struct MarkdownPreview {
    rendered: RenderedMarkdown,
    update_timer: Option<u64>,
    is_render_due: bool,
}

impl MarkdownPreview {
    /// What the preview shows.
    pub closed spec fn shown(&self) -> &RenderedMarkdown {
        &self.rendered
    }

    /// The timer that the preview waits for, if a change is waiting.
    pub closed spec fn waiting_timer(&self) -> Option<u64> {
        self.update_timer
    }

    /// Whether the timer of a waiting change has fired.
    pub closed spec fn render_due(&self) -> bool {
        self.is_render_due
    }

    /// A preview that shows nothing and waits for nothing.
    pub fn new() -> (preview: MarkdownPreview)
        ensures
            preview.shown().text@ == Seq::<char>::empty(),
            preview.shown().spans@ == Seq::<crate::markdown::StyledSpan>::empty(),
            preview.waiting_timer() is None,
            !preview.render_due(),
    {
        MarkdownPreview {
            rendered: RenderedMarkdown { text: String::new(), spans: Vec::new() },
            update_timer: None,
            is_render_due: false,
        }
    }

    /// Returns the plain text that the preview shows right now.
    pub fn rendered_text(&self) -> (text: &str)
        ensures
            text@ == self.shown().text@,
    {
        self.rendered.text.as_str()
    }

    /// Returns the rendered text and ranges that the preview shows right now.
    pub fn rendered(&self) -> (rendered: &RenderedMarkdown)
        ensures
            rendered == self.shown(),
    {
        &self.rendered
    }

    /// Returns the timer that makes the preview catch up with the text, if a change is waiting.
    pub fn update_timer(&self) -> (timer: Option<u64>)
        ensures
            timer == self.waiting_timer(),
    {
        self.update_timer
    }

    /// Shows `markdown` and forgets any waiting change.
    pub fn render(&mut self, markdown: &str)
        ensures
            renders(*final(self).shown(), markdown_events(markdown@)),
            final(self).waiting_timer() is None,
            !final(self).render_due(),
    {
        self.rendered = render_markdown(markdown);
        self.is_render_due = false;
        self.update_timer = None;
    }

    /// A timer with `token` fired. Returns whether it was the timer of the waiting change, which
    /// makes a render due; any other timer, such as one of an earlier edit, changes nothing.
    pub fn timer_fired(&mut self, token: u64) -> (is_own: bool)
        ensures
            is_own == (old(self).waiting_timer() == Some(token)),
            is_own ==> final(self).render_due(),
            final(self).shown() == old(self).shown(),
            final(self).waiting_timer() == old(self).waiting_timer(),
            !is_own ==> final(self).render_due() == old(self).render_due(),
    {
        let is_own = match self.update_timer {
            Some(waiting) => waiting == token,
            None => false,
        };
        if is_own {
            self.is_render_due = true;
        }
        is_own
    }

    /// The preview waits for the timer with `token`, which replaces any timer that it waited
    /// for before.
    pub fn timer_requested(&mut self, token: u64)
        ensures
            final(self).waiting_timer() == Some(token),
            final(self).shown() == old(self).shown(),
            final(self).render_due() == old(self).render_due(),
    {
        self.update_timer = Some(token);
    }

    /// The data changed from `old_data` to `data`. Renders the text of `data` at once when
    /// another diary is open or a waiting change is due, and returns what the preview does; on
    /// [`PreviewAction::RenderAfterDelay`] the caller requests a timer of
    /// [`PREVIEW_UPDATE_DELAY_MILLIS`] and hands its token to [`Self::timer_requested`].
    pub fn update(&mut self, old_data: &AppState, data: &AppState) -> (action: PreviewAction)
        ensures
            action == preview_action(
                diary_changed(old_data, data),
                old_data.txt_diary@ != data.txt_diary@,
                old(self).render_due(),
            ),
            action == PreviewAction::RenderNow ==> {
                &&& renders(*final(self).shown(), markdown_events(data.txt_diary@))
                &&& final(self).waiting_timer() is None
                &&& !final(self).render_due()
            },
            action != PreviewAction::RenderNow ==> {
                &&& final(self).shown() == old(self).shown()
                &&& final(self).waiting_timer() == old(self).waiting_timer()
                &&& final(self).render_due() == old(self).render_due()
            },
    {
        let (was_selected, old_file) = diary_key(old_data);
        let (is_selected, file) = diary_key(data);
        let diary_changed = was_selected != is_selected
            || old_data.current_diary.diary.file_name != data.current_diary.diary.file_name;
        let text_changed = old_data.txt_diary != data.txt_diary;
        let action = next_action(diary_changed, text_changed, self.is_render_due);
        if let PreviewAction::RenderNow = action {
            self.render(data.txt_diary.as_str());
        }
        action
    }
}

/// The number of lines of text whose UTF-8 encoding is `bytes`, as `str::lines` counts them: a
/// line feed ends a line, and a last line without one counts too.
pub open spec fn line_count(bytes: Seq<u8>) -> nat {
    count_line_feeds(bytes) + if bytes.len() > 0 && bytes.last() != 10u8 {
        1nat
    } else {
        0nat
    }
}

/// Returns where the caret's line lies in the text of the editor, as the numerator and the
/// denominator of a fraction: the caret's line, at most the last line, over the last line, and
/// over 1 for a text of one line. The preview scrolls to the same fraction of its height.
pub fn cursor_line_ratio(source_text: &str, cursor_line: usize) -> (ratio: (usize, usize))
    ensures
        ({
            let lines = line_count(vstd::utf8::encode_utf8(source_text@));
            let last_line: nat = if lines <= 2 {
                1
            } else {
                (lines - 1) as nat
            };
            &&& ratio.1 == last_line
            &&& ratio.0 == if cursor_line <= last_line {
                cursor_line as nat
            } else {
                last_line
            }
        }),
{
    let bytes = source_text.as_bytes();
    let mut feeds: usize = 0;
    let mut index: usize = 0;
    while index < bytes.len()
        invariant
            index <= bytes@.len(),
            bytes@ == vstd::utf8::encode_utf8(source_text@),
            feeds == count_line_feeds(bytes@.take(index as int)),
            feeds <= index,
        decreases bytes.len() - index,
    {
        assert(bytes@.take(index as int + 1).drop_last() == bytes@.take(index as int));
        if bytes[index] == 10u8 {
            feeds = feeds + 1;
        }
        index = index + 1;
    }
    assert(bytes@.take(bytes@.len() as int) =~= bytes@);
    let len = bytes.len();
    let unterminated = len > 0 && bytes[len - 1] != 10u8;
    let last_line: usize = if unterminated {
        if feeds <= 1 {
            1
        } else {
            feeds
        }
    } else if feeds <= 2 {
        1
    } else {
        feeds - 1
    };
    let line = if cursor_line <= last_line {
        cursor_line
    } else {
        last_line
    };
    (line, last_line)
}

/// Opening another diary renders at once: when the data changes from one opened diary to
/// another one with a different file, or a diary is opened or closed, the preview renders the
/// new text now, whether the text changed and whether a render was due; and a change of the
/// text alone, with the same diary open, waits for the timer.
pub proof fn law_another_diary_renders_at_once(
    old_data: &AppState,
    data: &AppState,
    is_render_due: bool,
)
    ensures
        (old_data.current_diary.is_selected != data.current_diary.is_selected
            || old_data.current_diary.diary.file_name@ != data.current_diary.diary.file_name@)
            ==> preview_action(
            diary_changed(old_data, data),
            old_data.txt_diary@ != data.txt_diary@,
            is_render_due,
        ) == PreviewAction::RenderNow,
        (old_data.current_diary.is_selected == data.current_diary.is_selected
            && old_data.current_diary.diary.file_name@ == data.current_diary.diary.file_name@
            && old_data.txt_diary@ != data.txt_diary@ && !is_render_due) ==> preview_action(
            diary_changed(old_data, data),
            old_data.txt_diary@ != data.txt_diary@,
            is_render_due,
        ) == PreviewAction::RenderAfterDelay,
{
}

} // verus!
