//! Completion of the input line.
//!
//! Three sources offer candidates, asked in this order: the list of commands,
//! for a word that begins with `/`; the saved prompts, for a line that begins
//! with `@`; the file system. The first source that offers a candidate wins.
//! A source that cannot be asked ends the completion with its error: no
//! candidates and no answer are not the same.
use crate::text::{chars_start_with, to_chars};
use rustyline::completion::{extract_word, Completer, FilenameCompleter};
use rustyline::error::ReadlineError;
use rustyline::Context;
use std::sync::mpsc::{Receiver, RecvError, SendError, Sender};
use vstd::prelude::*;
use vstd::string::*;
use vstd::utf8::{
    decode_utf8, encode_scalar, encode_utf8, encode_utf8_decode_utf8, encode_utf8_first_scalar,
    encode_utf8_valid_utf8, is_ascii_chars, is_ascii_chars_encode_utf8, is_char_boundary,
    pop_first_scalar,
};
use winnow::stream::AsChar;

verus! {

/// The commands and subcommands that completion offers, in the order in
/// which it offers them.
pub const COMMANDS: [&'static str; 38] = [
    "/clear",
    "/help",
    "/editor",
    "/issue",
    "/quit",
    "/tools",
    "/tools trust",
    "/tools untrust",
    "/tools trustall",
    "/tools reset",
    "/profile",
    "/profile help",
    "/profile list",
    "/profile create",
    "/profile delete",
    "/profile rename",
    "/profile set",
    "/context help",
    "/context show",
    "/context show --expand",
    "/context add",
    "/context add --global",
    "/context rm",
    "/context rm --global",
    "/context clear",
    "/context clear --global",
    "/context hooks help",
    "/context hooks add",
    "/context hooks rm",
    "/context hooks enable",
    "/context hooks disable",
    "/context hooks enable-all",
    "/context hooks disable-all",
    "/compact",
    "/compact help",
    "/usage",
    "/save",
    "/load",
];

/// The texts of [`COMMANDS`].
pub open spec fn command_names() -> Seq<Seq<char>> {
    COMMANDS@.map_values(|s: &'static str| s@)
}

/// The commands that begin with `word`, in the order of the list.
pub open spec fn matching_commands(word: Seq<char>) -> Seq<Seq<char>> {
    command_names().filter(|c: Seq<char>| word.is_prefix_of(c))
}

/// The candidates for `word` are the commands of the list that begin with
/// `word`, all of them and no others.
pub proof fn lemma_matching_commands(word: Seq<char>, command: Seq<char>)
    ensures
        matching_commands(word).contains(command) <==> command_names().contains(command)
            && word.is_prefix_of(command),
{
    let keep = |c: Seq<char>| word.is_prefix_of(c);
    let names = command_names();
    let found = names.filter(keep);
    broadcast use vstd::seq_lib::group_filter_ensures;

    if found.contains(command) {
        let j = choose|j: int| 0 <= j < found.len() && found[j] == command;
        assert(keep(found[j]));
        names.lemma_filter_contains_rev(keep, command);
    }
    if names.contains(command) && word.is_prefix_of(command) {
        let i = choose|i: int| 0 <= i < names.len() && names[i] == command;
        assert(keep(names[i]));
    }
}

/// Completes a command: the commands that begin with `word`, to be put in
/// place of the text from `start` on.
pub fn complete_command(word: &str, start: usize) -> (r: (usize, Vec<String>))
    ensures
        r.0 == start,
        r.1.deep_view() == matching_commands(word@),
{
    let prefix = to_chars(word);
    let ghost names = command_names();
    let ghost keep = |c: Seq<char>| word@.is_prefix_of(c);
    let mut found: Vec<String> = Vec::new();
    let mut i: usize = 0;
    proof {
        reveal(Seq::filter);
        assert(names.take(0) =~= Seq::<Seq<char>>::empty());
        assert(found.deep_view() =~= names.take(0).filter(keep));
    }
    while i < COMMANDS.len()
        invariant
            i <= COMMANDS@.len(),
            names == command_names(),
            keep == |c: Seq<char>| word@.is_prefix_of(c),
            prefix@ == word@,
            found.deep_view() == names.take(i as int).filter(keep),
        decreases COMMANDS@.len() - i,
    {
        let command = COMMANDS[i];
        let chars = to_chars(command);
        proof {
            reveal(Seq::filter);
            assert(names.take(i + 1).drop_last() =~= names.take(i as int));
            assert(names[i as int] == command@);
        }
        if chars_start_with(chars.as_slice(), prefix.as_slice()) {
            let ghost before = found.deep_view();
            found.push(command.to_owned());
            assert(found.deep_view() =~= before.push(command@));
        }
        i += 1;
    }
    assert(names.take(i as int) =~= names);
    (start, found)
}

/// Whether `c` ends a word: the blank and the tab do.
pub open spec fn is_word_break(c: char) -> bool {
    c == ' ' || c == '\t'
}

/// The end of `s` back to its last break character: the word that `s` ends
/// with, empty where `s` is empty or ends with a break.
pub open spec fn last_word(s: Seq<char>) -> Seq<char>
    decreases s.len(),
{
    if s.len() == 0 || is_word_break(s.last()) {
        Seq::empty()
    } else {
        last_word(s.drop_last()).push(s.last())
    }
}

/// The word that a text ends with is its longest end without a break
/// character: it is an end of the text, holds no break, and is preceded by a
/// break unless it is the whole text.
pub proof fn lemma_last_word(s: Seq<char>)
    ensures
        last_word(s).is_suffix_of(s),
        forall|i: int| 0 <= i < last_word(s).len() ==> !is_word_break(#[trigger] last_word(s)[i]),
        last_word(s).len() < s.len() ==> is_word_break(s[s.len() - last_word(s).len() - 1]),
    decreases s.len(),
{
    if s.len() == 0 || is_word_break(s.last()) {
        assert(last_word(s) =~= s.subrange(s.len() as int, s.len() as int));
    } else {
        let front = s.drop_last();
        let word = last_word(front);
        lemma_last_word(front);
        assert(word.push(s.last()) =~= s.subrange(s.len() - word.len() - 1, s.len() as int));
    }
}

/// The characters of `line` in front of the byte offset `pos`.
pub open spec fn text_before(line: Seq<char>, pos: int) -> Seq<char> {
    decode_utf8(encode_utf8(line).subrange(0, pos))
}

/// The bytes of a text are the bytes of its front, then those of its rest.
proof fn lemma_encode_concat(a: Seq<char>, b: Seq<char>)
    ensures
        encode_utf8(a + b) == encode_utf8(a) + encode_utf8(b),
    decreases a.len(),
{
    if a.len() == 0 {
        assert(a + b =~= b);
        assert(encode_utf8(a) + encode_utf8(b) =~= encode_utf8(b));
    } else {
        assert((a + b).drop_first() =~= a.drop_first() + b);
        lemma_encode_concat(a.drop_first(), b);
        assert(encode_utf8(a + b) =~= encode_utf8(a) + encode_utf8(b));
    }
}

/// Where the bytes of one text end and those of the next begin, a
/// character begins.
proof fn lemma_boundary_between(a: Seq<char>, b: Seq<char>)
    ensures
        is_char_boundary(encode_utf8(a + b), encode_utf8(a).len() as int),
    decreases a.len(),
{
    let bytes = encode_utf8(a + b);
    encode_utf8_valid_utf8(a + b);
    lemma_encode_concat(a, b);
    if a.len() > 0 {
        let rest = a.drop_first();
        assert((a + b).drop_first() =~= rest + b);
        encode_utf8_first_scalar(a + b);
        assert(pop_first_scalar(bytes) =~= encode_utf8(rest + b));
        lemma_boundary_between(rest, b);
        assert(encode_utf8(a).len() == encode_scalar(a[0] as u32).len() + encode_utf8(rest).len());
        assert(encode_scalar(a[0] as u32).len() > 0);
    }
}

/// Byte offsets and characters: the byte offset at which the first `k`
/// characters of `line` end is a character boundary, and the text in front
/// of it is those `k` characters. For a line of ASCII characters that offset
/// is `k` itself.
pub proof fn lemma_text_before_prefix(line: Seq<char>, k: int)
    requires
        0 <= k <= line.len(),
    ensures
        is_char_boundary(encode_utf8(line), encode_utf8(line.take(k)).len() as int),
        text_before(line, encode_utf8(line.take(k)).len() as int) == line.take(k),
        is_ascii_chars(line) ==> encode_utf8(line.take(k)).len() == k,
{
    let front = line.take(k);
    let rest = line.skip(k);
    assert(front + rest =~= line);
    lemma_boundary_between(front, rest);
    lemma_encode_concat(front, rest);
    assert(encode_utf8(line).subrange(0, encode_utf8(front).len() as int) =~= encode_utf8(front));
    encode_utf8_decode_utf8(front);
    if is_ascii_chars(line) {
        assert(is_ascii_chars(front));
        is_ascii_chars_encode_utf8(front);
    }
}

/// Whether `word` asks for a command: it begins with `/`.
pub open spec fn is_command_word(word: Seq<char>) -> bool {
    word.len() > 0 && word.first() == '/'
}

/// Whether `line` asks for a saved prompt: it begins with `@`.
pub open spec fn is_mention_line(line: Seq<char>) -> bool {
    line.len() > 0 && line.first() == '@'
}

/// `winnow`'s `AsChar::is_space` for `char`: true of the blank and of the
/// tab, false of every other character.
#[verifier::external_body]
fn char_is_space(c: char) -> (b: bool)
    ensures
        b == (c == ' ' || c == '\t'),
{
    c.is_space()
}

/// Whether `c` ends a word.
pub fn is_break_char(c: char) -> (b: bool)
    ensures
        b == is_word_break(c),
{
    char_is_space(c)
}

/// `rustyline`'s `extract_word`, called without an escape character and with
/// [`is_break_char`] as the test for a break: it looks backward from the
/// cursor for the last break character and returns the text between that
/// character and the cursor, with the byte offset at which that text begins;
/// without a break character it returns everything in front of the cursor,
/// and the offset 0. It slices `line` at `pos`, so `pos` has to be a
/// character boundary of `line`.
#[verifier::external_body]
fn word_before_cursor<'a>(line: &'a str, pos: usize) -> (r: (usize, &'a str))
    requires
        is_char_boundary(line.spec_bytes(), pos as int),
    ensures
        r.1@ == last_word(text_before(line@, pos as int)),
        r.0 + r.1.spec_bytes().len() == pos,
{
    extract_word(line, pos, None, is_break_char)
}

/// `rustyline`'s completer of file names, held as it is.
#[verifier::external_type_specification]
#[verifier::external_body]
pub struct ExFilenameCompleter(rustyline::completion::FilenameCompleter);

/// `rustyline`'s completion context, handed on as it is.
#[verifier::external_type_specification]
#[verifier::external_body]
pub struct ExContext<'h>(rustyline::Context<'h>);

/// `rustyline`'s error, handed on as it is.
#[verifier::external_type_specification]
#[verifier::external_body]
pub struct ExReadlineError(rustyline::error::ReadlineError);

/// The sending end of a channel of std, held as it is.
#[verifier::external_type_specification]
#[verifier::external_body]
#[verifier::reject_recursive_types(T)]
pub struct ExSender<T>(std::sync::mpsc::Sender<T>);

/// The receiving end of a channel of std, held as it is.
#[verifier::external_type_specification]
#[verifier::external_body]
#[verifier::reject_recursive_types(T)]
pub struct ExReceiver<T>(std::sync::mpsc::Receiver<T>);

/// The error of a channel whose receiving end is gone; only its presence is
/// read.
#[verifier::external_type_specification]
#[verifier::external_body]
#[verifier::reject_recursive_types(T)]
pub struct ExSendError<T>(std::sync::mpsc::SendError<T>);

/// The error of a channel whose sending end is gone; only its presence is
/// read.
#[verifier::external_type_specification]
#[verifier::external_body]
pub struct ExRecvError(std::sync::mpsc::RecvError);

/// `FilenameCompleter::new` makes a completer; nothing is said of it.
pub assume_specification[ FilenameCompleter::new ]() -> FilenameCompleter;

/// `Sender::send` hands a value to the channel. Whether it succeeds depends
/// on the receiving end, so nothing is said of the result.
pub assume_specification<T>[ Sender::<T>::send ](sender: &Sender<T>, t: T) -> Result<
    (),
    SendError<T>,
>;

/// `Receiver::recv` waits for the next value of the channel. What it returns
/// depends on the sending end, so nothing is said of the result.
pub assume_specification<T>[ Receiver::<T>::recv ](receiver: &Receiver<T>) -> Result<T, RecvError>;

/// `FilenameCompleter`'s `Completer::complete`: the paths on disk that
/// complete the path in front of the cursor, each given by the text to put
/// in place of what stands from the returned offset to the cursor. The
/// candidates depend on the file system; the offset is never beyond the
/// cursor. It slices `line` at `pos`, so `pos` has to be a character
/// boundary of `line`.
#[verifier::external_body]
fn filename_candidates(
    completer: &FilenameCompleter,
    line: &str,
    pos: usize,
    ctx: &Context<'_>,
) -> (r: Result<(usize, Vec<String>), ReadlineError>)
    requires
        is_char_boundary(line.spec_bytes(), pos as int),
    ensures
        r matches Ok(found) ==> found.0 <= pos,
{
    let (start, pairs) = completer.complete(line, pos, ctx)?;
    Ok((start, pairs.into_iter().map(|pair| pair.replacement).collect()))
}

/// Why a completion could not be made.
#[derive(Debug)]
pub enum CompletionError {
    /// The request for saved prompts could not be sent: nobody listens.
    RequestNotSent,
    /// No answer to the request for saved prompts came: nobody answers.
    NoAnswer,
    /// The file system could not be asked.
    Unavailable(ReadlineError),
}

/// What the path completer makes of the file completer's answer: the offset
/// and the candidates as they came, or the error as the reason why the file
/// system could not be asked.
pub fn path_answer(answer: Result<(usize, Vec<String>), ReadlineError>) -> (r: Result<
    (usize, Vec<String>),
    CompletionError,
>)
    ensures
        match answer {
            Ok(found) => r == Ok::<(usize, Vec<String>), CompletionError>(found),
            Err(e) => r == Err::<(usize, Vec<String>), CompletionError>(
                CompletionError::Unavailable(e),
            ),
        },
{
    match answer {
        Ok(found) => Ok(found),
        Err(e) => Err(CompletionError::Unavailable(e)),
    }
}

/// Completes paths of the file system.
pub struct PathCompleter {
    filename_completer: FilenameCompleter,
}

impl PathCompleter {
    /// A completer of paths.
    pub fn new() -> Self {
        Self { filename_completer: FilenameCompleter::new() }
    }

    /// The candidates for the path in front of the cursor, and the byte
    /// offset from which they replace the line. Which candidates there are
    /// depends on the file system; [`path_answer`] says what is made of the
    /// file completer's answer.
    pub fn complete_path(&self, line: &str, pos: usize, ctx: &Context<'_>) -> (r: Result<
        (usize, Vec<String>),
        CompletionError,
    >)
        requires
            is_char_boundary(line.spec_bytes(), pos as int),
        ensures
            r matches Ok(found) ==> found.0 <= pos,
            r matches Err(e) ==> e is Unavailable,
    {
        path_answer(filename_candidates(&self.filename_completer, line, pos, ctx))
    }
}

/// What is asked of the keeper of the saved prompts for the search text
/// `word`: the text itself, or nothing, which asks for every prompt, where
/// the text is empty.
pub open spec fn mention_request_for(word: Seq<char>) -> Option<Seq<char>> {
    if word.len() == 0 {
        None
    } else {
        Some(word)
    }
}

/// The candidates made of the names of saved prompts: each name with `@` in
/// front, in the order given.
pub open spec fn mentions_of(names: Seq<Seq<char>>) -> Seq<Seq<char>> {
    names.map_values(|name: Seq<char>| seq!['@'] + name)
}

/// The request to send for the search text `word`.
pub fn mention_request(word: &str) -> (request: Option<String>)
    ensures
        match request {
            Some(text) => mention_request_for(word@) == Some(text@),
            None => mention_request_for(word@) is None,
        },
{
    if word.is_empty() {
        None
    } else {
        Some(word.to_owned())
    }
}

/// The candidates for the names that came back.
pub fn mention_candidates(names: &Vec<String>) -> (candidates: Vec<String>)
    ensures
        candidates.deep_view() == mentions_of(names.deep_view()),
{
    let mut candidates: Vec<String> = Vec::new();
    let mut i: usize = 0;
    while i < names.len()
        invariant
            i <= names@.len(),
            candidates@.len() == i,
            forall|j: int| 0 <= j < i ==> (#[trigger] candidates@[j])@ == seq!['@'] + names@[j]@,
        decreases names@.len() - i,
    {
        let mut candidate = String::from_str("@");
        proof {
            reveal_strlit("@");
            assert("@"@ =~= seq!['@']);
        }
        candidate.append(names[i].as_str());
        candidates.push(candidate);
        i += 1;
    }
    assert(candidates.deep_view() =~= mentions_of(names.deep_view()));
    candidates
}

/// Completes the names of saved prompts. Their keeper lives on another
/// thread: a request is sent to it on one channel, and its answer is awaited
/// on the other.
pub struct PromptCompleter {
    sender: Sender<Option<String>>,
    receiver: Receiver<Vec<String>>,
}

impl PromptCompleter {
    /// A completer that sends its requests on `sender` and awaits the
    /// answers on `receiver`.
    pub fn new(sender: Sender<Option<String>>, receiver: Receiver<Vec<String>>) -> (completer: Self)
        ensures
            completer.request_channel() == sender,
            completer.answer_channel() == receiver,
    {
        PromptCompleter { sender, receiver }
    }

    /// The channel on which requests are sent.
    pub closed spec fn request_channel(&self) -> Sender<Option<String>> {
        self.sender
    }

    /// The channel on which answers arrive.
    pub closed spec fn answer_channel(&self) -> Receiver<Vec<String>> {
        self.receiver
    }

    /// Asks for the saved prompts that match `word` and waits for the
    /// answer, without a limit of time. The candidates are the names that
    /// came back, each with `@` in front ([`mention_candidates`]); a closed
    /// channel is an error.
    pub fn complete_prompt(&self, word: &str) -> (r: Result<Vec<String>, CompletionError>)
        ensures
            match r {
                Ok(candidates) => exists|names: Seq<Seq<char>>|
                    candidates.deep_view() == mentions_of(names),
                Err(e) => e is RequestNotSent || e is NoAnswer,
            },
    {
        match self.sender.send(mention_request(word)) {
            Ok(()) => {},
            Err(_) => {
                return Err(CompletionError::RequestNotSent);
            },
        }
        match self.receiver.recv() {
            Ok(names) => Ok(mention_candidates(&names)),
            Err(_) => Err(CompletionError::NoAnswer),
        }
    }
}

/// The text that a line asks the saved prompts for: what follows the `@`
/// that the line begins with, up to the end of the line and wherever the
/// cursor stands. A line that does not begin with `@` asks for nothing.
pub fn mention_search(line: &str) -> (word: Option<&str>)
    ensures
        match word {
            Some(text) => is_mention_line(line@) && text@ == line@.skip(1),
            None => !is_mention_line(line@),
        },
{
    let chars = to_chars(line);
    if chars.len() > 0 && chars[0] == '@' {
        Some(line.substring_char(1, chars.len()))
    } else {
        None
    }
}

/// What the dispatcher makes of the answer of the saved prompts: their
/// candidates, to replace the whole line, where there is at least one;
/// nothing, and the next source is asked, where there is none; and where a
/// channel was closed, that error, which ends the completion.
pub fn mention_completion(answer: Result<Vec<String>, CompletionError>) -> (r: Result<
    Option<(usize, Vec<String>)>,
    CompletionError,
>)
    ensures
        match answer {
            Ok(candidates) => if candidates@.len() > 0 {
                r == Ok::<Option<(usize, Vec<String>)>, CompletionError>(
                    Some((0usize, candidates)),
                )
            } else {
                r == Ok::<Option<(usize, Vec<String>)>, CompletionError>(None)
            },
            Err(e) => r == Err::<Option<(usize, Vec<String>)>, CompletionError>(e),
        },
{
    match answer {
        Ok(candidates) => {
            if candidates.len() > 0 {
                Ok(Some((0, candidates)))
            } else {
                Ok(None)
            }
        },
        Err(e) => Err(e),
    }
}

/// What the dispatcher makes of the answer of the file system, the last
/// source: its candidates where there is at least one; no candidate, at the
/// start of the word under the cursor, where there is none; the error where
/// it could not be asked.
pub fn path_completion(word_start: usize, answer: Result<(usize, Vec<String>), CompletionError>) -> (r:
    Result<(usize, Vec<String>), CompletionError>)
    ensures
        match answer {
            Ok(found) => if found.1@.len() > 0 {
                r == Ok::<(usize, Vec<String>), CompletionError>(found)
            } else {
                r matches Ok(none) && none.0 == word_start && none.1@.len() == 0
            },
            Err(e) => r == Err::<(usize, Vec<String>), CompletionError>(e),
        },
{
    match answer {
        Ok(found) => {
            if found.1.len() > 0 {
                Ok(found)
            } else {
                Ok((word_start, Vec::new()))
            }
        },
        Err(e) => Err(e),
    }
}

/// What a completion looks like that came from the saved prompts: the line
/// begins with `@`, there is a candidate, every candidate is a name with `@`
/// in front, and the candidates replace the whole line.
pub open spec fn from_mentions(line: Seq<char>, found: (usize, Vec<String>)) -> bool {
    &&& is_mention_line(line)
    &&& found.0 == 0
    &&& found.1@.len() > 0
    &&& exists|names: Seq<Seq<char>>| found.1.deep_view() == mentions_of(names)
}

/// What a completion looks like that came from the file system: candidates
/// that replace the line from an offset in front of the cursor on, or no
/// candidate, at the start of the word under the cursor.
pub open spec fn from_paths(word_start: int, pos: int, found: (usize, Vec<String>)) -> bool {
    if found.1@.len() > 0 {
        found.0 <= pos
    } else {
        found.0 == word_start
    }
}

/// The completer of the chat's input line.
pub struct ChatCompleter {
    path_completer: PathCompleter,
    prompt_completer: PromptCompleter,
}

impl ChatCompleter {
    /// A completer that asks for saved prompts on `sender` and awaits the
    /// answers on `receiver`.
    pub fn new(sender: Sender<Option<String>>, receiver: Receiver<Vec<String>>) -> (completer: Self)
        ensures
            completer.prompts().request_channel() == sender,
            completer.prompts().answer_channel() == receiver,
    {
        Self {
            path_completer: PathCompleter::new(),
            prompt_completer: PromptCompleter::new(sender, receiver),
        }
    }

    /// The completer of saved prompts that this completer asks.
    pub closed spec fn prompts(&self) -> PromptCompleter {
        self.prompt_completer
    }

    /// The candidates for the cursor at byte offset `pos` of `line`, and the
    /// byte offset from which a candidate replaces the line.
    ///
    /// A word under the cursor that begins with `/` is completed from the
    /// list of commands, and no other source is asked. Otherwise a line that
    /// begins with `@` asks the saved prompts for what follows the `@`
    /// ([`mention_search`], [`mention_completion`]); a channel closed on the
    /// way is an error of the completion. Where the saved prompts offer
    /// nothing, or the line does not begin so, the file system is asked
    /// ([`path_completion`]).
    pub fn complete(&self, line: &str, pos: usize, ctx: &Context<'_>) -> (r: Result<
        (usize, Vec<String>),
        CompletionError,
    >)
        requires
            is_char_boundary(line.spec_bytes(), pos as int),
        ensures
            ({
                let word = last_word(text_before(line@, pos as int));
                let word_start = pos - encode_utf8(word).len();
                if is_command_word(word) {
                    r matches Ok(found) && found.0 == word_start && found.1.deep_view()
                        == matching_commands(word)
                } else {
                    match r {
                        Ok(found) => from_mentions(line@, found) || from_paths(
                            word_start,
                            pos as int,
                            found,
                        ),
                        Err(e) => e is Unavailable || (is_mention_line(line@) && (e
                            is RequestNotSent || e is NoAnswer)),
                    }
                }
            }),
    {
        let (start, word) = word_before_cursor(line, pos);
        let first = to_chars(word);
        if first.len() > 0 && first[0] == '/' {
            return Ok(complete_command(word, start));
        }
        match mention_search(line) {
            Some(search_word) => {
                match mention_completion(self.prompt_completer.complete_prompt(search_word)) {
                    Ok(Some(found)) => {
                        return Ok(found);
                    },
                    Ok(None) => {},
                    Err(e) => {
                        return Err(e);
                    },
                }
            },
            None => {},
        }
        path_completion(start, self.path_completer.complete_path(line, pos, ctx))
    }
}

} // verus!
