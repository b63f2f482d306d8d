//! How the line editor is set up for the chat.
use crate::text::str_equal;
use vstd::prelude::*;

verus! {

/// How lines are edited.
#[derive(Debug, Clone, Copy, PartialEq, Eq, Structural)]
pub enum EditMode {
    /// Plain editing, the default.
    Emacs,
    /// Modal editing.
    Vi,
}

/// How completion candidates are offered.
#[derive(Debug, Clone, Copy, PartialEq, Eq, Structural)]
pub enum CompletionType {
    /// One candidate after the other, in the line.
    Circular,
    /// All candidates, as a list.
    List,
}

/// A key of a key binding.
#[derive(Debug, Clone, Copy, PartialEq, Eq, Structural)]
pub enum Key {
    Enter,
    Char(char),
}

/// The modifier held with the key of a key binding.
#[derive(Debug, Clone, Copy, PartialEq, Eq, Structural)]
pub enum Modifier {
    Alt,
    Ctrl,
}

/// What a bound key does.
#[derive(Debug, Clone, Copy, PartialEq, Eq, Structural)]
pub enum Action {
    /// Starts a new line in the input.
    InsertNewline,
}

/// A key with its modifier, and what it does.
#[derive(Debug, Clone, Copy, PartialEq, Eq, Structural)]
pub struct KeyBinding {
    pub key: Key,
    pub modifier: Modifier,
    pub action: Action,
}

/// The settings of the line editor.
#[derive(Debug)]
pub struct EditorConfig {
    pub edit_mode: EditMode,
    pub completion_type: CompletionType,
    /// Lines that begin with a blank are kept out of the history.
    pub history_ignore_space: bool,
    /// The bindings added to those of the edit mode.
    pub key_bindings: Vec<KeyBinding>,
}

/// The edit mode for the value of the setting `chat.editMode`: modal for
/// `vi` and `vim`, plain for every other value and where it is not set.
pub open spec fn edit_mode_of(setting: Option<Seq<char>>) -> EditMode {
    match setting {
        Some(value) => if value == "vi"@ || value == "vim"@ {
            EditMode::Vi
        } else {
            EditMode::Emacs
        },
        None => EditMode::Emacs,
    }
}

/// The keys that start a new line: Alt+Enter and Ctrl+J.
pub open spec fn newline_bindings() -> Seq<KeyBinding> {
    seq![
        KeyBinding { key: Key::Enter, modifier: Modifier::Alt, action: Action::InsertNewline },
        KeyBinding { key: Key::Char('j'), modifier: Modifier::Ctrl, action: Action::InsertNewline },
    ]
}

/// The edit mode for the value of the setting `chat.editMode`.
pub fn edit_mode_for(setting: Option<&str>) -> (mode: EditMode)
    ensures
        mode == edit_mode_of(
            match setting {
                Some(value) => Some(value@),
                None => None,
            },
        ),
{
    match setting {
        Some(value) => {
            if str_equal(value, "vi") || str_equal(value, "vim") {
                EditMode::Vi
            } else {
                EditMode::Emacs
            }
        },
        None => EditMode::Emacs,
    }
}

/// The settings of the chat's line editor for the value of the setting
/// `chat.editMode`: candidates as a list, lines that begin with a blank kept
/// out of the history, and the two keys that start a new line.
pub fn editor_config(setting: Option<&str>) -> (config: EditorConfig)
    ensures
        config.edit_mode == edit_mode_of(
            match setting {
                Some(value) => Some(value@),
                None => None,
            },
        ),
        config.completion_type == CompletionType::List,
        config.history_ignore_space,
        config.key_bindings@ == newline_bindings(),
{
    let mut key_bindings: Vec<KeyBinding> = Vec::new();
    key_bindings.push(
        KeyBinding { key: Key::Enter, modifier: Modifier::Alt, action: Action::InsertNewline },
    );
    key_bindings.push(
        KeyBinding { key: Key::Char('j'), modifier: Modifier::Ctrl, action: Action::InsertNewline },
    );
    assert(key_bindings@ =~= newline_bindings());
    EditorConfig {
        edit_mode: edit_mode_for(setting),
        completion_type: CompletionType::List,
        history_ignore_space: true,
        key_bindings,
    }
}

} // verus!
