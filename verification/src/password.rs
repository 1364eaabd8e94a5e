//! The password input: which edit a key press makes, how an edit changes the typed password,
//! what is pasted, and how the password is shown.

use vstd::prelude::*;

use crate::keys::{KeyInput, Modifiers};
use crate::text::{chars_of, is_control, is_control_char, string_from_chars, string_pop, string_push};

verus! {

/// An edit of the typed password.
#[derive(Debug, Clone, PartialEq, Eq)]
pub enum PasswordEdit {
    Append(String),
    DeleteLast,
    Clear,
    Paste,
    Submit,
    Ignore,
}

/// Whether the modifiers make a key press a shortcut rather than typing: Control without Alt,
/// or Meta. Control together with Alt is AltGr, which types characters.
pub open spec fn is_shortcut(modifiers: Modifiers) -> bool {
    (modifiers.control && !modifiers.alt) || modifiers.meta
}

/// Whether `text` is the letter v in either case.
pub open spec fn is_letter_v(text: Seq<char>) -> bool {
    text == seq!['v'] || text == seq!['V']
}

/// Returns whether `text` is the letter v in either case, as `eq_ignore_ascii_case("v")` tells.
fn is_v(text: &String) -> (is_v: bool)
    ensures
        is_v == is_letter_v(text@),
{
    let chars = chars_of(text.as_str());
    let result = chars.len() == 1 && (chars[0] == 'v' || chars[0] == 'V');
    proof {
        if chars@.len() == 1 {
            assert(chars@ =~= seq![chars@[0]]);
        }
    }
    result
}

/// Translates a key press into an edit of the password. Ctrl+Alt is treated as AltGr, so
/// characters typed with AltGr are appended like any other.
pub fn interpret_key(key: &KeyInput, modifiers: Modifiers) -> (edit: PasswordEdit)
    ensures
        match *key {
            KeyInput::Enter => edit == PasswordEdit::Submit,
            KeyInput::Backspace => edit == if is_shortcut(modifiers) {
                PasswordEdit::Clear
            } else {
                PasswordEdit::DeleteLast
            },
            KeyInput::Character(text) => if is_shortcut(modifiers) {
                edit == if is_letter_v(text@) {
                    PasswordEdit::Paste
                } else {
                    PasswordEdit::Ignore
                }
            } else {
                edit matches PasswordEdit::Append(typed) && typed@ == text@
            },
            _ => edit == PasswordEdit::Ignore,
        },
{
    let is_shortcut = (modifiers.control && !modifiers.alt) || modifiers.meta;
    match key {
        KeyInput::Enter => PasswordEdit::Submit,
        KeyInput::Backspace => if is_shortcut {
            PasswordEdit::Clear
        } else {
            PasswordEdit::DeleteLast
        },
        KeyInput::Character(text) => if is_shortcut {
            if is_v(text) {
                PasswordEdit::Paste
            } else {
                PasswordEdit::Ignore
            }
        } else {
            PasswordEdit::Append(text.clone())
        },
        _ => PasswordEdit::Ignore,
    }
}

/// What an edit did besides changing the password.
#[derive(Debug, Clone, Copy, PartialEq, Eq, Structural)]
pub enum EditOutcome {
    /// The password was changed, or left as it was; the key press is handled.
    Handled,
    /// The password is submitted; the key press is handled.
    Submitted,
    /// The key press is not for the password input.
    Ignored,
}

/// The characters of `text` that are not control characters, in their order.
pub open spec fn without_control(text: Seq<char>) -> Seq<char> {
    text.filter(|c: char| !is_control_char(c))
}

/// Returns the text of the clipboard without line breaks and other control characters.
pub fn clipboard_text(clipboard: &str) -> (text: String)
    ensures
        text@ == without_control(clipboard@),
{
    let chars = chars_of(clipboard);
    let mut kept: Vec<char> = Vec::new();
    let mut i: usize = 0;
    while i < chars.len()
        invariant
            i <= chars.len(),
            chars@ == clipboard@,
            kept@ == without_control(chars@.take(i as int)),
        decreases chars.len() - i,
    {
        let c = chars[i];
        assert(chars@.take(i + 1).drop_last() =~= chars@.take(i as int));
        reveal_with_fuel(Seq::filter, 1);
        if !is_control(c) {
            kept.push(c);
        }
        i = i + 1;
    }
    assert(chars@.take(chars.len() as int) =~= chars@);
    string_from_chars(&kept)
}

/// Applies `edit` to the typed `password`. `clipboard` is the text that a paste inserts, as
/// [`clipboard_text`] returned it; it is read only for [`PasswordEdit::Paste`].
pub fn apply_edit(password: &mut String, edit: PasswordEdit, clipboard: &str) -> (outcome:
    EditOutcome)
    ensures
        match edit {
            PasswordEdit::Append(text) => final(password)@ == old(password)@ + text@ && outcome
                == EditOutcome::Handled,
            PasswordEdit::DeleteLast => final(password)@ == (if old(password)@.len() == 0 {
                old(password)@
            } else {
                old(password)@.drop_last()
            }) && outcome == EditOutcome::Handled,
            PasswordEdit::Clear => final(password)@ == Seq::<char>::empty() && outcome
                == EditOutcome::Handled,
            PasswordEdit::Paste => final(password)@ == old(password)@ + clipboard@ && outcome
                == EditOutcome::Handled,
            PasswordEdit::Submit => final(password)@ == old(password)@ && outcome
                == EditOutcome::Submitted,
            PasswordEdit::Ignore => final(password)@ == old(password)@ && outcome
                == EditOutcome::Ignored,
        },
{
    match edit {
        PasswordEdit::Append(text) => {
            password.append(text.as_str());
            EditOutcome::Handled
        },
        PasswordEdit::DeleteLast => {
            string_pop(password);
            EditOutcome::Handled
        },
        PasswordEdit::Clear => {
            *password = String::new();
            EditOutcome::Handled
        },
        PasswordEdit::Paste => {
            password.append(clipboard);
            EditOutcome::Handled
        },
        PasswordEdit::Submit => EditOutcome::Submitted,
        PasswordEdit::Ignore => EditOutcome::Ignored,
    }
}

/// The character that stands for each typed character of a password.
pub open spec fn mask_character() -> char {
    '•'
}

/// Returns what the password input shows for `password`: one bullet per typed character.
pub fn masked_password(password: &str) -> (masked: String)
    ensures
        masked@ == Seq::new(password@.len(), |i: int| mask_character()),
{
    let count = chars_of(password).len();
    let mut masked = String::new();
    let mut i: usize = 0;
    while i < count
        invariant
            i <= count,
            masked@ == Seq::new(i as nat, |j: int| mask_character()),
        decreases count - i,
    {
        string_push(&mut masked, '•');
        assert(masked@ =~= Seq::new((i + 1) as nat, |j: int| mask_character()));
        i = i + 1;
    }
    masked
}

} // verus!
