//! The input box's decisions: what a key does to the text being typed,
//! when `@` opens the file popup, and what keys do while it is open.  The
//! text editing itself and the popup's directory scans are the caller's.
//!
//! Positions in the text are counted in characters.
use vstd::prelude::*;
use crate::text::{chars_of, ends_with, extend_str, skip_chars, string_of, subrange_chars};
use crate::ui::tui::tui_state::{KeyCode, KeyInput};

verus! {

/// Mode of the input box.
#[derive(Debug, Clone, Copy, PartialEq, Eq, Structural)]
pub enum InputMode {
    /// Normal text input.
    Normal,
    /// The file popup is open.
    Autocomplete,
}

/// What a key does in normal mode.
#[derive(Debug, Clone, Copy, PartialEq, Eq, Structural)]
pub enum InputAction {
    /// Send the message (Enter).
    Send,
    /// Start a new line (Shift+Enter).
    InsertNewline,
    /// Type a character.
    InsertChar(char),
    DeleteBack,
    DeleteForward,
    MoveUp,
    MoveDown,
    MoveBack,
    MoveForward,
    MoveHead,
    MoveEnd,
    Ignore,
}

/// What a key does while the file popup is open.
#[derive(Debug, PartialEq, Eq)]
pub enum AutocompleteAction {
    SelectPrevious,
    SelectNext,
    /// Start a new line (Shift+Enter); the popup stays.
    InsertNewline,
    /// Enter the selected directory, or take the selected file and close.
    Confirm,
    /// Type the character and close the popup.
    InsertAndExit(char),
    /// Type the character and filter the popup by the given text.
    InsertAndFilter(char, String),
    /// Delete the character before the cursor and close the popup.
    DeleteAndExit,
    /// Go to the parent directory; if it does, delete the given number of
    /// characters (the last path component and its `/`).
    ParentDirectory(usize),
    /// Delete the character before the cursor and filter by what then
    /// follows the `@` (see `filter_after`).
    DeleteAndFilter,
    /// Close the popup and handle the key in normal mode.
    ExitAndRehandle,
}

/// What a key does in normal mode.
pub open spec fn normal_action_of(key: KeyInput) -> InputAction {
    match key.code {
        KeyCode::Enter => if key.shift {
            InputAction::InsertNewline
        } else {
            InputAction::Send
        },
        KeyCode::Char(c) => InputAction::InsertChar(c),
        KeyCode::Backspace => InputAction::DeleteBack,
        KeyCode::Delete => InputAction::DeleteForward,
        KeyCode::Up => InputAction::MoveUp,
        KeyCode::Down => InputAction::MoveDown,
        KeyCode::Left => InputAction::MoveBack,
        KeyCode::Right => InputAction::MoveForward,
        KeyCode::Home => InputAction::MoveHead,
        KeyCode::End => InputAction::MoveEnd,
        _ => InputAction::Ignore,
    }
}

/// The characters after the trigger `@` at `trigger`.
pub open spec fn after_trigger(text: Seq<char>, trigger: nat) -> Seq<char> {
    text.skip((trigger + 1) as int)
}

/// `s` without its trailing `/` characters.
pub open spec fn trim_trailing_slashes(s: Seq<char>) -> Seq<char>
    decreases s.len(),
{
    if s.len() > 0 && s.last() == '/' {
        trim_trailing_slashes(s.drop_last())
    } else {
        s
    }
}

/// What a key does while the popup is open, for the text `text` and the
/// `@` at `trigger` (if known).
pub open spec fn autocomplete_action_of(key: KeyInput, text: Seq<char>, trigger: Option<nat>) -> AutocompleteActionView {
    match key.code {
        KeyCode::Up => AutocompleteActionView::SelectPrevious,
        KeyCode::Down => AutocompleteActionView::SelectNext,
        KeyCode::Enter => if key.shift {
            AutocompleteActionView::InsertNewline
        } else {
            AutocompleteActionView::Confirm
        },
        KeyCode::Char(c) => match trigger {
            Some(t) => if c == ' ' {
                AutocompleteActionView::InsertAndExit(c)
            } else {
                AutocompleteActionView::InsertAndFilter(c, after_trigger(text, t).push(c))
            },
            None => AutocompleteActionView::InsertAndExit(c),
        },
        KeyCode::Backspace => match trigger {
            Some(t) => if text.len() <= t + 1 {
                AutocompleteActionView::DeleteAndExit
            } else if ends_with(after_trigger(text, t), "/"@) && after_trigger(text, t).len() > 1 {
                AutocompleteActionView::ParentDirectory(trim_trailing_slashes(after_trigger(text, t)).len() + 1)
            } else {
                AutocompleteActionView::DeleteAndFilter
            },
            None => AutocompleteActionView::DeleteAndExit,
        },
        _ => AutocompleteActionView::ExitAndRehandle,
    }
}

/// Content of an action while the popup is open.
pub enum AutocompleteActionView {
    SelectPrevious,
    SelectNext,
    InsertNewline,
    Confirm,
    InsertAndExit(char),
    InsertAndFilter(char, Seq<char>),
    DeleteAndExit,
    ParentDirectory(nat),
    DeleteAndFilter,
    ExitAndRehandle,
}

pub open spec fn action_view(a: AutocompleteAction) -> AutocompleteActionView {
    match a {
        AutocompleteAction::SelectPrevious => AutocompleteActionView::SelectPrevious,
        AutocompleteAction::SelectNext => AutocompleteActionView::SelectNext,
        AutocompleteAction::InsertNewline => AutocompleteActionView::InsertNewline,
        AutocompleteAction::Confirm => AutocompleteActionView::Confirm,
        AutocompleteAction::InsertAndExit(c) => AutocompleteActionView::InsertAndExit(c),
        AutocompleteAction::InsertAndFilter(c, f) => AutocompleteActionView::InsertAndFilter(c, f@),
        AutocompleteAction::DeleteAndExit => AutocompleteActionView::DeleteAndExit,
        AutocompleteAction::ParentDirectory(n) => AutocompleteActionView::ParentDirectory(n as nat),
        AutocompleteAction::DeleteAndFilter => AutocompleteActionView::DeleteAndFilter,
        AutocompleteAction::ExitAndRehandle => AutocompleteActionView::ExitAndRehandle,
    }
}

/// What a key does in normal mode (see `normal_action_of`).
pub fn normal_key_action(key: KeyInput) -> (r: InputAction)
    ensures
        r == normal_action_of(key),
{
    match key.code {
        KeyCode::Enter => if key.shift {
            InputAction::InsertNewline
        } else {
            InputAction::Send
        },
        KeyCode::Char(c) => InputAction::InsertChar(c),
        KeyCode::Backspace => InputAction::DeleteBack,
        KeyCode::Delete => InputAction::DeleteForward,
        KeyCode::Up => InputAction::MoveUp,
        KeyCode::Down => InputAction::MoveDown,
        KeyCode::Left => InputAction::MoveBack,
        KeyCode::Right => InputAction::MoveForward,
        KeyCode::Home => InputAction::MoveHead,
        KeyCode::End => InputAction::MoveEnd,
        _ => InputAction::Ignore,
    }
}

/// Whether typing `c` opens the file popup: it is `@` and the text does
/// not already end with `@`.
pub fn opens_popup(text: &str, c: char) -> (r: bool)
    ensures
        r == (c == '@' && !ends_with(text@, "@"@)),
{
    if c != '@' {
        return false;
    }
    let t = chars_of(text);
    let at: [char; 1] = ['@'];
    proof {
        reveal_strlit("@");
        assert(at@ =~= "@"@);
    }
    !crate::text::ends_with_chars(t.as_slice(), &at)
}

/// The filter typed after the `@` at `trigger`: what follows it, or
/// nothing when nothing does.
pub fn filter_after(text: &str, trigger: usize) -> (r: String)
    ensures
        r@ == (if text@.len() > trigger + 1 {
            after_trigger(text@, trigger as nat)
        } else {
            Seq::empty()
        }),
{
    let c = chars_of(text);
    if trigger < c.len() && c.len() - trigger > 1 {
        string_of(skip_chars(c.as_slice(), trigger + 1).as_slice())
    } else {
        String::new()
    }
}

/// The text once a file is taken: what came before the `@`, then the
/// file's path.
pub fn text_with_file(text: &str, trigger: usize, path: &str) -> (r: String)
    requires
        trigger <= text@.len(),
    ensures
        r@ == text@.take(trigger as int) + path@,
{
    let c = chars_of(text);
    let mut r = subrange_chars(c.as_slice(), 0, trigger);
    extend_str(&mut r, path);
    string_of(r.as_slice())
}

/// The text typed when entering a directory: its name and `/`.
pub fn directory_text(name: &str) -> (r: String)
    ensures
        r@ == name@ + "/"@,
{
    let mut r = chars_of(name);
    extend_str(&mut r, "/");
    string_of(r.as_slice())
}

/// What a key does while the popup is open (see `autocomplete_action_of`).
/// A character other than a space after the `@` is only typed where the
/// `@` is still within the text.
pub fn autocomplete_action(key: KeyInput, text: &str, trigger: Option<usize>) -> (r: AutocompleteAction)
    requires
        trigger is Some && (key.code matches KeyCode::Char(c) && c != ' ') ==> trigger->0 + 1 <= text@.len(),
    ensures
        action_view(r) == autocomplete_action_of(key, text@, match trigger {
            Some(t) => Some(t as nat),
            None => None,
        }),
{
    match key.code {
        KeyCode::Up => AutocompleteAction::SelectPrevious,
        KeyCode::Down => AutocompleteAction::SelectNext,
        KeyCode::Enter => if key.shift {
            AutocompleteAction::InsertNewline
        } else {
            AutocompleteAction::Confirm
        },
        KeyCode::Char(c) => match trigger {
            Some(t) => if c == ' ' {
                AutocompleteAction::InsertAndExit(c)
            } else {
                let chars = chars_of(text);
                let n = chars.len();
                assert(t + 1 <= n);
                let mut f = skip_chars(chars.as_slice(), t + 1);
                f.push(c);
                AutocompleteAction::InsertAndFilter(c, string_of(f.as_slice()))
            },
            None => AutocompleteAction::InsertAndExit(c),
        },
        KeyCode::Backspace => match trigger {
            Some(t) => {
                let chars = chars_of(text);
                if chars.len() <= t || chars.len() - t <= 1 {
                    AutocompleteAction::DeleteAndExit
                } else {
                    let after = skip_chars(chars.as_slice(), t + 1);
                    let slash: [char; 1] = ['/'];
                    proof {
                        reveal_strlit("/");
                        assert(slash@ =~= "/"@);
                    }
                    if crate::text::ends_with_chars(after.as_slice(), &slash) && after.len() > 1 {
                        let mut n = after.len();
                        assert(after@.take(n as int) =~= after@);
                        while n > 0 && after[n - 1] == '/'
                            invariant
                                n <= after@.len(),
                                trim_trailing_slashes(after@) == trim_trailing_slashes(after@.take(n as int)),
                            decreases n,
                        {
                            assert(after@.take(n as int).drop_last() =~= after@.take(n - 1));
                            n -= 1;
                        }
                        assert(after@.take(n as int) == trim_trailing_slashes(after@.take(n as int)));
                        AutocompleteAction::ParentDirectory(n + 1)
                    } else {
                        AutocompleteAction::DeleteAndFilter
                    }
                }
            },
            None => AutocompleteAction::DeleteAndExit,
        },
        _ => AutocompleteAction::ExitAndRehandle,
    }
}

/// A character typed after the `@` (other than a space) filters the popup
/// by what `filter_after` gives for the text, followed by the character.
pub proof fn law_typed_filter_extends(text: Seq<char>, trigger: nat, c: char)
    requires
        c != ' ',
        trigger + 1 <= text.len(),
    ensures
        autocomplete_action_of(KeyInput { code: KeyCode::Char(c), control: false, shift: false }, text, Some(trigger))
            == AutocompleteActionView::InsertAndFilter(
            c,
            (if text.len() > trigger + 1 {
                after_trigger(text, trigger)
            } else {
                Seq::<char>::empty()
            }).push(c),
        ),
{
    if text.len() <= trigger + 1 {
        assert(after_trigger(text, trigger) =~= Seq::<char>::empty());
    }
}

} // verus!
