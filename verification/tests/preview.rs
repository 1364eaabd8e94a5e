use fast_diary::calendar::CalendarMonth;
use fast_diary::preview::{cursor_line_ratio, next_action, MarkdownPreview, PreviewAction};
use fast_diary::state::AppState;

#[test]
fn another_diary_is_shown_at_once() {
    assert_eq!(next_action(true, true, false), PreviewAction::RenderNow);
    assert_eq!(next_action(true, false, false), PreviewAction::RenderNow);
}

#[test]
fn edits_of_the_same_diary_wait() {
    assert_eq!(
        next_action(false, true, false),
        PreviewAction::RenderAfterDelay
    );
}

#[test]
fn a_render_that_is_due_is_done_even_when_nothing_else_changed() {
    assert_eq!(next_action(false, false, true), PreviewAction::RenderNow);
    assert_eq!(next_action(false, true, true), PreviewAction::RenderNow);
}

#[test]
fn unrelated_changes_do_nothing() {
    assert_eq!(next_action(false, false, false), PreviewAction::Nothing);
}

/// The preview together with the data it was last handed and the timers it asked for, as the
/// window drives it.
struct Driver {
    preview: MarkdownPreview,
    data: AppState,
    next_token: u64,
}

impl Driver {
    fn start(text: &str) -> Driver {
        let mut data = AppState::new(CalendarMonth::new(2024, 5).unwrap());
        data.txt_diary = text.to_string();
        let mut preview = MarkdownPreview::new();
        preview.render(&data.txt_diary);
        Driver { preview, data, next_token: 1 }
    }

    fn change(&mut self, new_data: AppState) {
        let old_data = std::mem::replace(&mut self.data, new_data);
        if self.preview.update(&old_data, &self.data) == PreviewAction::RenderAfterDelay {
            self.preview.timer_requested(self.next_token);
            self.next_token += 1;
        }
    }

    fn change_text(&mut self, text: &str) {
        let mut new_data = self.copy_of_data();
        new_data.txt_diary = text.to_string();
        self.change(new_data);
    }

    fn switch_diary(&mut self, file_name: &str, text: &str) {
        let mut new_data = self.copy_of_data();
        new_data.current_diary.is_selected = true;
        new_data.current_diary.diary.file_name = file_name.to_string();
        new_data.txt_diary = text.to_string();
        self.change(new_data);
    }

    fn fire(&mut self, token: u64) {
        if self.preview.timer_fired(token) {
            let data = self.copy_of_data();
            self.change(data);
        }
    }

    fn copy_of_data(&self) -> AppState {
        let mut copy = AppState::new(self.data.calendar_month);
        copy.txt_diary = self.data.txt_diary.clone();
        copy.current_diary = self.data.current_diary.clone();
        copy
    }

    fn shown(&self) -> String {
        self.preview.rendered_text().to_string()
    }
}

#[test]
fn the_first_text_is_shown_at_once() {
    let driver = Driver::start("first");
    assert_eq!(driver.shown(), "first");
}

#[test]
fn an_edit_is_shown_only_after_the_delay() {
    let mut driver = Driver::start("first");
    driver.change_text("second");

    assert_eq!(driver.shown(), "first");
    let token = driver.preview.update_timer().unwrap();

    driver.fire(token);
    assert_eq!(driver.shown(), "second");
    assert_eq!(driver.preview.update_timer(), None);
}

#[test]
fn only_the_timer_of_the_last_edit_updates_the_preview() {
    let mut driver = Driver::start("first");
    driver.change_text("second");
    let early_token = driver.preview.update_timer().unwrap();
    driver.change_text("third");
    let last_token = driver.preview.update_timer().unwrap();
    assert_ne!(early_token, last_token);

    driver.fire(early_token);
    assert_eq!(driver.shown(), "first");

    driver.fire(last_token);
    assert_eq!(driver.shown(), "third");
}

#[test]
fn another_diary_is_shown_at_once_and_drops_the_waiting_edit() {
    let mut driver = Driver::start("first");
    driver.change_text("edit");
    let waiting_token = driver.preview.update_timer().unwrap();

    driver.switch_diary("other.md", "other text");

    assert_eq!(driver.shown(), "other text");
    assert_eq!(driver.preview.update_timer(), None);

    driver.fire(waiting_token);
    assert_eq!(driver.shown(), "other text");
}

#[test]
fn the_preview_shows_the_rendered_markdown() {
    let mut preview = MarkdownPreview::new();
    assert_eq!(preview.rendered_text(), "");
    preview.render("# Title\n\n- item");
    assert_eq!(preview.rendered_text(), "Title\n\n• item");
    assert_eq!(preview.rendered().spans.len(), 1);
}

#[test]
fn the_caret_line_is_placed_by_its_share_of_the_lines() {
    assert_eq!(cursor_line_ratio("a\nb\nc\nd\ne", 2), (2, 4));
    assert_eq!(cursor_line_ratio("a\nb\nc\nd\ne\n", 2), (2, 4));
    assert_eq!(cursor_line_ratio("a\nb\nc", 7), (2, 2));
    assert_eq!(cursor_line_ratio("one line", 0), (0, 1));
    assert_eq!(cursor_line_ratio("", 3), (1, 1));
    assert_eq!(cursor_line_ratio("a\nb", 1), (1, 1));
}
