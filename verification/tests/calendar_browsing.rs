use std::collections::BTreeMap;

use fast_diary::calendar::CalendarMonth;
use fast_diary::diaries::{
    arrow_key_step, create_step, day_click, day_key, diaries_of_day, draft_moment, follow_diary,
    list_diary, open_diary, promote_draft, show_step, start_draft, update_summary, BrowseStep,
    CreateStep, DiaryStamp, DraftStep, ShowStep,
};
use fast_diary::keys::KeyInput;
use fast_diary::state::{AppState, DiaryListItem};
use fast_diary::window::{save_step, SaveStep};

const DIARIES: [(&str, &str); 4] = [
    ("240115090000.md", "morning"),
    ("240115200000.md", "evening"),
    ("240116100000.md", "next day"),
    ("240210100000.md", "february"),
];

/// The moment the tests take as now.
const NOW: DiaryStamp = DiaryStamp { year: 2024, month: 3, day: 5, hour: 14, minute: 22, second: 10 };

fn date(year: u32, month: u32, day: u32) -> DiaryStamp {
    DiaryStamp { year, month, day, hour: 0, minute: 0, second: 0 }
}

fn summary_of(text: &str) -> String {
    text.lines().next().unwrap_or("").to_string()
}

/// A folder of diary files and the state of the window that browses it, driven as the calendar
/// and the window controller drive the library.
struct Browser {
    app_state: AppState,
    files: BTreeMap<String, String>,
    /// The commands that the calendar sent, in their order.
    commands: Vec<&'static str>,
}

impl Browser {
    fn new(diaries: &[(&str, &str)], first_month: CalendarMonth) -> Browser {
        let mut app_state = AppState::new(first_month);
        app_state.diary_base_path = Some("/diaries".to_string());
        let files: BTreeMap<String, String> =
            diaries.iter().map(|(name, text)| (name.to_string(), text.to_string())).collect();
        app_state.diaries = files
            .iter()
            .rev()
            .map(|(name, text)| DiaryListItem { file_name: name.clone(), summary: summary_of(text) })
            .collect();
        Browser { app_state, files, commands: Vec::new() }
    }

    fn opened(&self) -> &str {
        &self.app_state.current_diary.diary.file_name
    }

    fn write(&mut self, text: &str) {
        self.app_state.txt_diary = text.to_string();
    }

    fn save(&mut self) {
        let step = save_step(&self.app_state, true);
        if step == Ok(SaveStep::CreateThenWrite) {
            self.files.insert(self.opened().to_string(), String::new());
            promote_draft(&mut self.app_state);
        }
        if matches!(step, Ok(SaveStep::CreateThenWrite) | Ok(SaveStep::Write)) {
            let text = self.app_state.txt_diary.clone();
            self.files.insert(self.opened().to_string(), text.clone());
            update_summary(&mut self.app_state, summary_of(&text));
        }
    }

    fn set_current(&mut self, diary: DiaryListItem) {
        let text = self.files[&diary.file_name].clone();
        open_diary(&mut self.app_state, diary, text);
    }

    fn start_draft(&mut self, day: DiaryStamp) {
        self.commands.push("draft");
        let positions = diaries_of_day(&self.app_state, &day_key(&day));
        if let DraftStep::Open(index) = start_draft(&mut self.app_state, &positions, &day, &NOW, "md") {
            self.set_current(self.app_state.diaries[index].clone());
        }
    }

    fn perform(&mut self, step: BrowseStep, day: DiaryStamp) {
        match step {
            BrowseStep::SaveThenOpen(index) => {
                let diary = self.app_state.diaries[index].clone();
                self.commands.push("save");
                self.save();
                self.commands.push("open");
                self.set_current(diary);
            }
            BrowseStep::SaveThenStartDraft => {
                self.commands.push("save");
                self.save();
                self.start_draft(day);
            }
        }
    }

    fn click(&mut self, day: DiaryStamp) {
        let positions = diaries_of_day(&self.app_state, &day_key(&day));
        let step = day_click(&self.app_state, &positions);
        self.perform(step, day);
    }

    fn press(&mut self, key: KeyInput) {
        if let Some(step) = arrow_key_step(&self.app_state, &key) {
            self.perform(step, NOW);
        }
    }

    fn show(&mut self, diary: DiaryListItem) {
        match show_step(&self.app_state, &diary) {
            ShowStep::AlreadyOpen => follow_diary(&mut self.app_state, &diary.file_name),
            ShowStep::SaveThenOpen => {
                self.save();
                self.set_current(diary);
            }
            ShowStep::Open => self.set_current(diary),
        }
    }

    fn create(&mut self) {
        match create_step(&self.app_state, &NOW, "md") {
            CreateStep::KeepDraft => {}
            CreateStep::Open(index) => self.show(self.app_state.diaries[index].clone()),
            CreateStep::CreateNamed(name) => {
                self.files.insert(name.clone(), String::new());
                let diary = DiaryListItem { file_name: name, summary: String::new() };
                list_diary(&mut self.app_state, diary.clone());
                self.show(diary);
            }
        }
    }

    fn shows(&self, month: CalendarMonth) -> bool {
        let first = self.app_state.calendar_month;
        [first, first.shifted(1), first.shifted(2)].contains(&month)
    }
}

fn month(year: i32, month: u32) -> CalendarMonth {
    CalendarMonth::new(year, month).unwrap()
}

fn january() -> CalendarMonth {
    month(2024, 1)
}

#[test]
fn clicking_a_day_opens_the_latest_diary_of_that_day() {
    let mut browser = Browser::new(&DIARIES, january());
    browser.click(date(2024, 1, 15));

    assert!(browser.app_state.current_diary.is_selected);
    assert_eq!(browser.opened(), "240115200000.md");
    assert_eq!(browser.app_state.txt_diary, "evening");
}

#[test]
fn clicking_a_day_without_diaries_starts_an_empty_draft_at_the_current_time() {
    let mut browser = Browser::new(&DIARIES, january());
    browser.click(date(2024, 1, 20));

    let current_diary = &browser.app_state.current_diary;
    assert!(current_diary.is_selected);
    assert!(current_diary.is_draft);
    assert!(current_diary.diary.file_name.starts_with("240120"));
    assert_eq!(browser.app_state.txt_diary, "");
    assert_eq!(browser.app_state.diaries.len(), DIARIES.len());
    assert!(!browser.files.contains_key(&current_diary.diary.file_name));
}

#[test]
fn a_draft_without_text_never_creates_a_file() {
    let mut browser = Browser::new(&DIARIES, january());
    browser.click(date(2024, 1, 20));

    browser.save();
    browser.write("  \n ");
    browser.save();

    assert!(browser.app_state.current_diary.is_draft);
    assert!(!browser.files.contains_key("240120000000.md"));
}

#[test]
fn writing_into_a_draft_creates_the_diary_file_of_that_day() {
    let mut browser = Browser::new(&DIARIES, january());
    browser.click(date(2024, 1, 20));
    let file_name = browser.opened().to_string();

    browser.write("hello diary");
    browser.save();

    assert_eq!(browser.files.get(&file_name).map(String::as_str), Some("hello diary"));
    assert!(!browser.app_state.current_diary.is_draft);
    assert_eq!(browser.app_state.diaries.len(), DIARIES.len() + 1);
    assert_eq!(
        browser
            .app_state
            .diaries
            .iter()
            .find(|item| item.file_name == file_name)
            .map(|item| item.summary.as_str()),
        Some("hello diary")
    );
    let names: Vec<&str> = browser.app_state.diaries.iter().map(|item| item.file_name.as_str()).collect();
    assert_eq!(
        names,
        vec!["240210100000.md", "240120000000.md", "240116100000.md", "240115200000.md", "240115090000.md"]
    );

    browser.write("hello again");
    browser.save();
    assert_eq!(browser.files.get(&file_name).map(String::as_str), Some("hello again"));

    browser.click(date(2024, 1, 20));
    assert!(!browser.app_state.current_diary.is_draft);
    assert_eq!(browser.app_state.txt_diary, "hello again");
}

#[test]
fn switching_to_another_day_saves_the_written_draft_first() {
    let mut browser = Browser::new(&DIARIES, january());
    browser.click(date(2024, 1, 20));
    let first_name = browser.opened().to_string();
    browser.write("note of the 20th");
    browser.click(date(2024, 1, 22));
    let second_name = browser.opened().to_string();

    assert_eq!(browser.files.get(&first_name).map(String::as_str), Some("note of the 20th"));
    assert!(!browser.files.contains_key(&second_name));
    assert_eq!(second_name, "240122000000.md");
    assert!(browser.app_state.current_diary.is_draft);
    assert_eq!(browser.app_state.txt_diary, "");
}

#[test]
fn starting_a_draft_on_a_day_with_diaries_opens_the_latest_one() {
    let mut browser = Browser::new(&DIARIES, january());
    browser.start_draft(date(2024, 1, 15));

    assert!(!browser.app_state.current_diary.is_draft);
    assert_eq!(browser.opened(), "240115200000.md");
}

#[test]
fn arrow_keys_from_a_draft_go_to_the_nearest_older_diary() {
    let mut browser = Browser::new(&DIARIES, january());
    browser.click(date(2024, 1, 20));

    browser.press(KeyInput::ArrowLeft);

    assert_eq!(browser.opened(), "240116100000.md");
    assert!(!browser.app_state.current_diary.is_draft);
}

#[test]
fn arrow_keys_walk_through_the_diaries_and_the_calendar_follows() {
    let february = month(2024, 2);
    let mut browser = Browser::new(&DIARIES, january());
    browser.click(date(2024, 1, 15));
    assert_eq!(browser.opened(), "240115200000.md");

    browser.press(KeyInput::ArrowLeft);
    assert_eq!(browser.opened(), "240115090000.md");

    browser.press(KeyInput::ArrowLeft);
    assert_eq!(browser.opened(), "240115090000.md");

    browser.press(KeyInput::ArrowRight);
    browser.press(KeyInput::ArrowRight);
    assert_eq!(browser.opened(), "240116100000.md");

    browser.press(KeyInput::ArrowDown);
    assert_eq!(browser.opened(), "240210100000.md");
    assert_eq!(browser.app_state.txt_diary, "february");
    assert!(browser.shows(february));

    browser.press(KeyInput::ArrowRight);
    assert_eq!(browser.opened(), "240210100000.md");
}

#[test]
fn the_opened_diary_is_saved_before_another_one_is_opened() {
    let mut browser = Browser::new(&DIARIES, january());
    browser.click(date(2024, 1, 16));

    assert_eq!(browser.commands, vec!["save", "open"]);
    assert_eq!(browser.opened(), "240116100000.md");
}

#[test]
fn the_draft_of_today_is_named_after_the_current_moment() {
    assert_eq!(draft_moment(&date(2024, 3, 5), &NOW), NOW);
    assert_eq!(draft_moment(&date(2024, 1, 20), &NOW), date(2024, 1, 20));
    let mut browser = Browser::new(&DIARIES, january());
    browser.click(date(2024, 3, 5));
    assert_eq!(browser.opened(), "240305142210.md");
    assert!(browser.app_state.current_diary.is_draft);
    assert_eq!(browser.commands, vec!["save", "draft"]);
}

#[test]
fn opening_a_diary_of_a_month_that_is_not_shown_puts_that_month_in_the_middle() {
    let mut diaries = DIARIES.to_vec();
    diaries.push(("240610100000.md", "june"));
    let mut browser = Browser::new(&diaries, january());
    let june_diary = browser
        .app_state
        .diaries
        .iter()
        .find(|item| item.file_name == "240610100000.md")
        .cloned()
        .unwrap();

    browser.set_current(june_diary);

    assert_eq!(browser.opened(), "240610100000.md");
    assert_eq!(browser.app_state.calendar_month, month(2024, 6).shifted(-1));
}

#[test]
fn clicking_a_day_again_opens_the_next_diary_of_that_day() {
    let mut browser = Browser::new(&DIARIES, january());

    browser.click(date(2024, 1, 16));
    assert_eq!(browser.opened(), "240116100000.md");

    browser.click(date(2024, 1, 15));
    assert_eq!(browser.opened(), "240115200000.md");
    browser.click(date(2024, 1, 15));
    assert_eq!(browser.opened(), "240115090000.md");
    assert_eq!(browser.app_state.txt_diary, "morning");
    browser.click(date(2024, 1, 15));
    assert_eq!(browser.opened(), "240115200000.md");

    browser.click(date(2024, 1, 16));
    browser.click(date(2024, 1, 16));
    assert_eq!(browser.opened(), "240116100000.md");
}

fn todays_file_of_hour(hour: u32) -> String {
    format!("240305{hour:02}0000.md")
}

#[test]
fn creating_a_diary_in_an_hour_that_has_one_opens_that_diary() {
    let file_of_this_hour = todays_file_of_hour(NOW.hour);
    let mut browser = Browser::new(
        &[("240115090000.md", "old"), (&file_of_this_hour, "text of this hour")],
        january(),
    );
    browser.set_current(browser.app_state.diaries[1].clone());
    assert_eq!(browser.opened(), "240115090000.md");

    browser.create();

    assert_eq!(browser.opened(), file_of_this_hour);
    assert_eq!(browser.app_state.txt_diary, "text of this hour");
    assert_eq!(browser.app_state.diaries.len(), 2);
    assert!(browser.shows(month(2024, 3)));
    assert_eq!(browser.files.len(), 2);
}

#[test]
fn creating_a_diary_saves_the_diary_that_was_open() {
    let file_of_this_hour = todays_file_of_hour(NOW.hour);
    let mut browser = Browser::new(
        &[("240115090000.md", "old"), (&file_of_this_hour, "text of this hour")],
        january(),
    );
    browser.set_current(browser.app_state.diaries[1].clone());
    browser.write("edited old");

    browser.create();

    assert_eq!(browser.opened(), file_of_this_hour);
    assert_eq!(browser.files.get("240115090000.md").map(String::as_str), Some("edited old"));
}

#[test]
fn creating_a_diary_in_an_hour_without_one_makes_and_opens_a_new_one() {
    let other_hour_today = todays_file_of_hour((NOW.hour + 12) % 24);
    let mut browser = Browser::new(
        &[("240115090000.md", "old"), (&other_hour_today, "another hour today")],
        january(),
    );

    browser.create();

    let opened = browser.app_state.current_diary.clone();
    assert!(opened.is_selected);
    assert!(!opened.is_draft);
    assert_ne!(opened.diary.file_name, other_hour_today);
    assert_eq!(opened.diary.file_name, "240305142210.md");
    assert!(opened.diary.file_name.starts_with("24030514"));
    assert_eq!(browser.app_state.txt_diary, "");
    assert_eq!(browser.app_state.diaries.len(), 3);
    assert_eq!(browser.app_state.diaries[0].file_name, "240305142210.md");
    assert_eq!(browser.files.len(), 3);
}

#[test]
fn creating_twice_in_an_hour_keeps_a_single_new_diary() {
    let mut browser = Browser::new(&[("240115090000.md", "old")], january());

    browser.create();
    let first_name = browser.opened().to_string();
    browser.write("typed meanwhile");
    browser.create();

    assert_eq!(browser.opened(), first_name);
    assert_eq!(browser.app_state.txt_diary, "typed meanwhile");
    assert_eq!(browser.app_state.diaries.len(), 2);
    assert_eq!(browser.files.len(), 2);
}

#[test]
fn creating_a_diary_keeps_what_was_written_in_the_draft_of_today() {
    let mut browser = Browser::new(&[("240115090000.md", "old")], january());
    browser.start_draft(date(NOW.year, NOW.month, NOW.day));
    browser.write("draft text");

    browser.create();

    assert!(browser.app_state.current_diary.is_draft);
    assert_eq!(browser.app_state.txt_diary, "draft text");
}

#[test]
fn diary_names_tell_their_moment() {
    assert_eq!(fast_diary::diaries::diary_name(&NOW, "md.enc"), "240305142210.md.enc");
    assert_eq!(day_key(&NOW), "240305".chars().collect::<Vec<_>>());
    assert_eq!(fast_diary::diaries::hour_key(&NOW), "24030514".chars().collect::<Vec<_>>());
    assert_eq!(fast_diary::diaries::diary_month("990101000000.md"), Some(month(1999, 1)));
    assert_eq!(fast_diary::diaries::diary_month("240610100000.md"), Some(month(2024, 6)));
    assert_eq!(fast_diary::diaries::diary_month("241310100000.md"), None);
    assert_eq!(fast_diary::diaries::diary_month("README.md"), None);
    assert!(fast_diary::diaries::is_name_before("240115090000.md", "240115200000.md"));
    assert!(!fast_diary::diaries::is_name_before("240115200000.md", "240115090000.md"));
    assert!(fast_diary::diaries::is_name_before("2401", "240115"));
}

#[test]
fn the_calendar_stays_when_the_month_is_shown() {
    let mut browser = Browser::new(&DIARIES, month(2023, 12));
    browser.set_current(browser.app_state.diaries[0].clone());
    assert_eq!(browser.opened(), "240210100000.md");
    assert_eq!(browser.app_state.calendar_month, month(2023, 12));
    browser.set_current(browser.app_state.diaries[3].clone());
    assert_eq!(browser.app_state.calendar_month, month(2023, 12));
}
