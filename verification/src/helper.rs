//! What the line editor asks of the chat while a line is typed: whether the
//! input is complete, how to display it, and how to complete it.
use crate::completion::ChatCompleter;
use crate::prompt::{color_prompt, colored_prompt};
use crate::text::{chars_end_with, chars_start_with, to_chars};
use rustyline::highlight::CmdKind;
use std::borrow::Cow;
use std::sync::mpsc::{Receiver, Sender};
use vstd::prelude::*;
use vstd::string::*;

verus! {

/// The mark that opens and closes a block of several lines.
pub const FENCE: &'static str = "```";

/// Whether an input can be submitted.
#[derive(Debug, Clone, Copy, PartialEq, Eq, Structural)]
pub enum Validation {
    /// The input is complete.
    Complete,
    /// More lines are to follow.
    Incomplete,
}

/// Whether more lines are to follow `buffer`: it opens a fenced block and
/// does not close it, or it ends with a backslash.
pub open spec fn wants_more(buffer: Seq<char>) -> bool {
    ||| FENCE@.is_prefix_of(buffer) && !FENCE@.is_suffix_of(buffer)
    ||| buffer.len() > 0 && buffer.last() == '\\'
}

/// Decides whether an input of several lines is complete.
pub struct MultiLineValidator;

impl MultiLineValidator {
    /// Classifies `input`, the whole text typed so far.
    pub fn validate(&self, input: &str) -> (r: Validation)
        ensures
            r == if wants_more(input@) {
                Validation::Incomplete
            } else {
                Validation::Complete
            },
    {
        let chars = to_chars(input);
        let fence = to_chars(FENCE);
        if chars_start_with(chars.as_slice(), fence.as_slice()) && !chars_end_with(
            chars.as_slice(),
            fence.as_slice(),
        ) {
            return Validation::Incomplete;
        }
        if chars.len() > 0 && chars[chars.len() - 1] == '\\' {
            return Validation::Incomplete;
        }
        Validation::Complete
    }
}

/// `rustyline`'s reason for a new display of the line, taken as it is.
#[verifier::external_type_specification]
#[verifier::external_body]
pub struct ExCmdKind(rustyline::highlight::CmdKind);

/// The helper that the line editor holds for the chat.
pub struct ChatHelper {
    completer: ChatCompleter,
    hinter: (),
    validator: MultiLineValidator,
}

impl ChatHelper {
    /// A helper whose completer asks for saved prompts on `sender` and
    /// awaits the answers on `receiver`.
    pub fn new(sender: Sender<Option<String>>, receiver: Receiver<Vec<String>>) -> (helper: Self)
        ensures
            helper.held_completer().prompts().request_channel() == sender,
            helper.held_completer().prompts().answer_channel() == receiver,
    {
        ChatHelper {
            completer: ChatCompleter::new(sender, receiver),
            hinter: (),
            validator: MultiLineValidator,
        }
    }

    /// The completer of the input line.
    pub closed spec fn held_completer(&self) -> ChatCompleter {
        self.completer
    }

    /// The completer of the input line.
    pub fn completer(&self) -> (completer: &ChatCompleter)
        ensures
            *completer == self.held_completer(),
    {
        &self.completer
    }

    /// Classifies `input`, the whole text typed so far.
    pub fn validate(&self, input: &str) -> (r: Validation)
        ensures
            r == if wants_more(input@) {
                Validation::Incomplete
            } else {
                Validation::Complete
            },
    {
        self.validator.validate(input)
    }

    /// A hint as it is displayed: in bold.
    pub fn highlight_hint<'h>(&self, hint: &'h str) -> (shown: Cow<'h, str>)
        ensures
            shown@ == "\x1b[1m"@ + hint@ + "\x1b[m"@,
    {
        let mut text = String::from_str("\x1b[1m");
        text.append(hint);
        text.append("\x1b[m");
        Cow::Owned(text)
    }

    /// The line as it is displayed: as it is.
    pub fn highlight<'l>(&self, line: &'l str, _pos: usize) -> (shown: Cow<'l, str>)
        ensures
            shown@ == line@,
    {
        Cow::Borrowed(line)
    }

    /// Whether the display of the line changes with a character typed or a
    /// cursor moved: never.
    pub fn highlight_char(&self, _line: &str, _pos: usize, _kind: CmdKind) -> (changes: bool)
        ensures
            !changes,
    {
        false
    }

    /// The prompt as it is displayed: coloured, where it is a prompt.
    pub fn highlight_prompt<'b, 's: 'b, 'p: 'b>(&'s self, prompt: &'p str, _default: bool) -> (shown:
        Cow<'b, str>)
        ensures
            shown@ == colored_prompt(prompt@),
    {
        match color_prompt(prompt) {
            Some(text) => Cow::Owned(text),
            None => Cow::Borrowed(prompt),
        }
    }
}

} // verus!
