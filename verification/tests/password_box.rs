use fast_diary::keys::{KeyInput, Modifiers};
use fast_diary::password::{
    apply_edit, clipboard_text, interpret_key, masked_password, EditOutcome, PasswordEdit,
};

fn character(text: &str) -> KeyInput {
    KeyInput::Character(text.to_string())
}

fn with(shift: bool, control: bool, alt: bool, meta: bool) -> Modifiers {
    Modifiers { shift, control, alt, meta }
}

#[test]
fn typed_characters_are_appended() {
    assert_eq!(
        interpret_key(&character("a"), Modifiers::empty()),
        PasswordEdit::Append("a".into())
    );
    assert_eq!(
        interpret_key(&character("A"), with(true, false, false, false)),
        PasswordEdit::Append("A".into())
    );
}

#[test]
fn alt_gr_characters_are_appended() {
    assert_eq!(
        interpret_key(&character("@"), with(false, true, true, false)),
        PasswordEdit::Append("@".into())
    );
}

#[test]
fn control_shortcuts_paste_but_never_type() {
    assert_eq!(
        interpret_key(&character("v"), with(false, true, false, false)),
        PasswordEdit::Paste
    );
    assert_eq!(
        interpret_key(&character("V"), with(false, false, false, true)),
        PasswordEdit::Paste
    );
    assert_eq!(
        interpret_key(&character("a"), with(false, true, false, false)),
        PasswordEdit::Ignore
    );
}

#[test]
fn backspace_deletes_and_control_backspace_clears() {
    assert_eq!(
        interpret_key(&KeyInput::Backspace, Modifiers::empty()),
        PasswordEdit::DeleteLast
    );
    assert_eq!(
        interpret_key(&KeyInput::Backspace, with(false, true, false, false)),
        PasswordEdit::Clear
    );
}

#[test]
fn enter_submits_and_other_keys_are_ignored() {
    assert_eq!(
        interpret_key(&KeyInput::Enter, Modifiers::empty()),
        PasswordEdit::Submit
    );
    assert_eq!(
        interpret_key(&KeyInput::ArrowLeft, Modifiers::empty()),
        PasswordEdit::Ignore
    );
}

#[test]
fn edits_change_the_typed_password() {
    let mut password = String::new();
    assert_eq!(apply_edit(&mut password, PasswordEdit::Append("pä".into()), "clip"), EditOutcome::Handled);
    assert_eq!(password, "pä");
    assert_eq!(apply_edit(&mut password, PasswordEdit::Paste, "ss"), EditOutcome::Handled);
    assert_eq!(password, "päss");
    assert_eq!(apply_edit(&mut password, PasswordEdit::DeleteLast, ""), EditOutcome::Handled);
    assert_eq!(password, "päs");
    assert_eq!(apply_edit(&mut password, PasswordEdit::Submit, ""), EditOutcome::Submitted);
    assert_eq!(password, "päs");
    assert_eq!(apply_edit(&mut password, PasswordEdit::Ignore, ""), EditOutcome::Ignored);
    assert_eq!(password, "päs");
    assert_eq!(apply_edit(&mut password, PasswordEdit::Clear, ""), EditOutcome::Handled);
    assert_eq!(password, "");
    assert_eq!(apply_edit(&mut password, PasswordEdit::DeleteLast, ""), EditOutcome::Handled);
    assert_eq!(password, "");
}

#[test]
fn pasted_text_loses_its_line_breaks_and_control_characters() {
    assert_eq!(clipboard_text("se\ncr\tet\r\n\u{7f}!"), "secret!");
    assert_eq!(clipboard_text("üñí"), "üñí");
    assert_eq!(clipboard_text(""), "");
}

#[test]
fn the_password_is_shown_as_one_bullet_per_character() {
    assert_eq!(masked_password(""), "");
    assert_eq!(masked_password("päß"), "•••");
}
