//! The prompt shown in front of each input line.
//!
//! A prompt is plain text of the form `[profile] !> `, in which the profile
//! segment and the warning mark may each be absent. [`generate_prompt`] writes
//! it, [`parse_prompt_components`] reads it back.
use crate::text::{
    find_char, first_index_of, is_first_at, is_whitespace, leading_whitespace,
    lemma_first_index_is, lemma_first_index_none, lemma_trim_end_fixed, lemma_trim_start_fixed,
    skip_whitespace, str_equal, to_chars, trim, trim_end, trim_start, trimmed_end,
};
use vstd::prelude::*;
use vstd::slice::slice_subrange;
use vstd::string::*;

verus! {

/// What a prompt says: the profile it names, if any, and whether it carries
/// the warning mark.
#[derive(Debug)]
pub struct PromptComponents {
    pub profile: Option<String>,
    pub warning: bool,
}

/// The mathematical value of [`PromptComponents`].
pub ghost struct PromptParts {
    pub profile: Option<Seq<char>>,
    pub warning: bool,
}

impl View for PromptComponents {
    type V = PromptParts;

    open spec fn view(&self) -> PromptParts {
        PromptParts {
            profile: match self.profile {
                Some(p) => Some(p@),
                None => None,
            },
            warning: self.warning,
        }
    }
}

/// The profile that a prompt names: none for the profile `default`.
pub open spec fn shown_profile(profile: Option<Seq<char>>) -> Option<Seq<char>> {
    match profile {
        Some(p) => if p == "default"@ {
            None
        } else {
            Some(p)
        },
        None => None,
    }
}

/// The profile segment of a prompt: `[name] `, or nothing where no profile is
/// shown.
pub open spec fn profile_segment(profile: Option<Seq<char>>) -> Seq<char> {
    match shown_profile(profile) {
        Some(p) => seq!['['] + p + seq![']', ' '],
        None => Seq::empty(),
    }
}

/// The warning segment of a prompt: `!` or nothing.
pub open spec fn warning_segment(warning: bool) -> Seq<char> {
    if warning {
        seq!['!']
    } else {
        Seq::empty()
    }
}

/// The text of the prompt for a profile and a warning flag.
pub open spec fn prompt_text(profile: Option<Seq<char>>, warning: bool) -> Seq<char> {
    profile_segment(profile) + warning_segment(warning) + seq!['>', ' ']
}

/// Reads the profile segment: the text between the first `[` and the first
/// `]`, where the `[` comes first, and the rest after the `]` without its
/// leading white space. Without such a pair the text is left as it is.
pub open spec fn split_profile(t: Seq<char>) -> (Option<Seq<char>>, Seq<char>) {
    match (first_index_of(t, '['), first_index_of(t, ']')) {
        (Some(open), Some(close)) => if open < close {
            (Some(t.subrange(open + 1, close)), trim_start(t.skip(close + 1)))
        } else {
            (None, t)
        },
        _ => (None, t),
    }
}

/// Reads the warning mark: a leading `!`, and the rest after it without its
/// leading white space.
pub open spec fn split_warning(t: Seq<char>) -> (bool, Seq<char>) {
    if t.len() > 0 && t.first() == '!' {
        (true, trim_start(t.skip(1)))
    } else {
        (false, t)
    }
}

/// The components of a prompt text, or `None` where the text does not end in
/// the `>` that closes every prompt.
pub open spec fn parse_prompt(text: Seq<char>) -> Option<PromptParts> {
    let (profile, after_profile) = split_profile(trim(text));
    let (warning, after_warning) = split_warning(after_profile);
    if trim_end(after_warning) == seq!['>'] {
        Some(PromptParts { profile, warning })
    } else {
        None
    }
}

/// Writes the plain-text prompt for a profile and a warning flag.
pub fn generate_prompt(current_profile: Option<&str>, warning: bool) -> (prompt: String)
    ensures
        prompt@ == prompt_text(
            match current_profile {
                Some(p) => Some(p@),
                None => None,
            },
            warning,
        ),
{
    let mut prompt = String::new();
    proof {
        reveal_strlit("[");
        reveal_strlit("] ");
        reveal_strlit("!");
        reveal_strlit("> ");
    }
    match current_profile {
        Some(p) => {
            if !str_equal(p, "default") {
                prompt.append("[");
                prompt.append(p);
                prompt.append("] ");
                assert(prompt@ =~= seq!['['] + p@ + seq![']', ' ']);
            }
        },
        None => {},
    }
    if warning {
        prompt.append("!");
    }
    prompt.append("> ");
    assert(prompt@ =~= prompt_text(
        match current_profile {
            Some(p) => Some(p@),
            None => None,
        },
        warning,
    ));
    prompt
}

/// Reads a plain-text prompt back into its components.
pub fn parse_prompt_components(prompt: &str) -> (components: Option<PromptComponents>)
    ensures
        match components {
            Some(c) => parse_prompt(prompt@) == Some(c@),
            None => parse_prompt(prompt@) is None,
        },
{
    let all = to_chars(prompt);
    let lo = leading_whitespace(all.as_slice());
    let front = slice_subrange(all.as_slice(), lo, all.len());
    let len = trimmed_end(front);
    let trimmed = slice_subrange(front, 0, len);
    assert(trimmed@ == trim(prompt@));
    assert(trimmed@ =~= prompt@.subrange(lo as int, lo + len));

    let mut profile: Option<String> = None;
    let mut rest: &[char] = trimmed;
    match find_char(trimmed, '[') {
        Some(open) => match find_char(trimmed, ']') {
            Some(close) => {
                if open < close {
                    let name = prompt.substring_char(lo + open + 1, lo + close);
                    assert(name@ =~= trimmed@.subrange(open + 1, close as int));
                    profile = Some(name.to_owned());
                    rest = skip_whitespace(slice_subrange(trimmed, close + 1, trimmed.len()));
                }
            },
            None => {},
        },
        None => {},
    }
    assert(rest@ == split_profile(trimmed@).1);

    let mut warning = false;
    if rest.len() > 0 && rest[0] == '!' {
        warning = true;
        rest = skip_whitespace(slice_subrange(rest, 1, rest.len()));
    }
    let end = trimmed_end(rest);
    if end == 1 && rest[0] == '>' {
        assert(rest@.take(1) =~= seq!['>']);
        Some(PromptComponents { profile, warning })
    } else {
        proof {
            if rest@.take(end as int) == seq!['>'] {
                assert(rest@.take(end as int).len() == 1);
                assert(rest@.take(end as int)[0] == '>');
            }
        }
        None
    }
}

/// The tail of every prompt, `>` and a blank, reads as the closing `>`: after
/// an optional warning mark, `mark + "> "` without its last character splits
/// into the mark and `>`.
proof fn lemma_tail_reads_back(w: bool)
    ensures
        split_warning(warning_segment(w) + seq!['>']) == (w, seq!['>']),
        trim_end(seq!['>']) == seq!['>'],
{
    let tail = warning_segment(w) + seq!['>'];
    if w {
        assert(tail.first() == '!');
        assert(tail.skip(1) =~= seq!['>']);
        lemma_trim_start_fixed(seq!['>']);
    } else {
        assert(tail =~= seq!['>']);
        assert(tail.first() == '>');
    }
    lemma_trim_end_fixed(seq!['>']);
}

/// A prompt written for a profile and read back gives the profile and the
/// warning flag again, for every profile but `default` whose name holds no
/// `]` (the first `]` of a prompt closes the profile segment).
pub proof fn lemma_parse_generated_profile(profile: Seq<char>, warning: bool)
    requires
        profile != "default"@,
        !profile.contains(']'),
    ensures
        parse_prompt(prompt_text(Some(profile), warning)) == Some(
            PromptParts { profile: Some(profile), warning },
        ),
{
    let text = prompt_text(Some(profile), warning);
    let head = seq!['['] + profile + seq![']', ' '];
    let tail = warning_segment(warning) + seq!['>'];
    assert(text =~= head + tail + seq![' ']);
    let body = head + tail;

    // Trimming removes the final blank and nothing else.
    assert(text.first() == '[');
    lemma_trim_start_fixed(text);
    assert(is_whitespace(text.last()));
    assert(text.drop_last() =~= body);
    assert(body.last() == '>');
    lemma_trim_end_fixed(body);
    assert(trim_end(text) == trim_end(body));
    assert(trim(text) == body);

    // The brackets are found around the profile.
    let close = profile.len() as int + 1;
    assert(is_first_at(body, '[', 0));
    lemma_first_index_is(body, '[', 0);
    assert forall|j: int| 0 <= j < close implies body[j] != ']' by {
        if j > 0 {
            assert(body[j] == profile[j - 1]);
            assert(profile.contains(profile[j - 1]));
        }
    }
    assert(body[close] == ']');
    assert(is_first_at(body, ']', close));
    lemma_first_index_is(body, ']', close);
    assert(body.subrange(1, close) =~= profile);

    // What follows the profile segment is the blank and the tail.
    let after = body.skip(close + 1);
    assert(after =~= seq![' '] + tail);
    assert(is_whitespace(after.first()));
    assert(after.drop_first() =~= tail);
    assert(!is_whitespace(tail.first()));
    lemma_trim_start_fixed(tail);
    assert(trim_start(after) == tail);
    assert(split_profile(body) == (Some(profile), tail));
    lemma_tail_reads_back(warning);
}

/// Without a profile, or with the profile `default`, the prompt is the
/// warning mark, if any, and `> `; read back, it names no profile and gives
/// the warning flag again.
pub proof fn lemma_parse_generated_plain(profile: Option<Seq<char>>, warning: bool)
    requires
        profile is None || profile == Some("default"@),
    ensures
        prompt_text(profile, warning) == warning_segment(warning) + seq!['>', ' '],
        parse_prompt(prompt_text(profile, warning)) == Some(
            PromptParts { profile: None, warning },
        ),
{
    let text = prompt_text(profile, warning);
    let tail = warning_segment(warning) + seq!['>'];
    assert(text =~= warning_segment(warning) + seq!['>', ' ']);
    assert(text =~= tail + seq![' ']);

    assert(!is_whitespace(text.first()));
    lemma_trim_start_fixed(text);
    assert(is_whitespace(text.last()));
    assert(text.drop_last() =~= tail);
    assert(tail.last() == '>');
    lemma_trim_end_fixed(tail);
    assert(trim_end(text) == trim_end(tail));
    assert(trim(text) == tail);

    // The tail holds no bracket, so no profile is read.
    assert forall|j: int| 0 <= j < tail.len() implies tail[j] != '[' by {}
    lemma_first_index_none(tail, '[');
    assert(split_profile(tail) == (None::<Seq<char>>, tail));
    lemma_tail_reads_back(warning);
}

/// The profile segment as it is displayed: in cyan.
pub open spec fn colored_profile(profile: Option<Seq<char>>) -> Seq<char> {
    match profile {
        Some(p) => "\x1b[36m["@ + p + "] \x1b[0m"@,
        None => Seq::empty(),
    }
}

/// The warning mark as it is displayed: in red.
pub open spec fn colored_warning(warning: bool) -> Seq<char> {
    if warning {
        "\x1b[31m!\x1b[0m"@
    } else {
        Seq::empty()
    }
}

/// A prompt text as it is displayed: each segment that [`parse_prompt`]
/// reads in its colour, the closing `> ` in bold cyan; a text that is no
/// prompt stays as it is.
pub open spec fn colored_prompt(text: Seq<char>) -> Seq<char> {
    match parse_prompt(text) {
        Some(parts) => colored_profile(parts.profile) + colored_warning(parts.warning)
            + "\x1b[36;1m> \x1b[0m"@,
        None => text,
    }
}

/// A prompt written by [`generate_prompt`] is displayed with the colours of
/// its segments: what is displayed depends on the profile shown and on the
/// warning flag alone. The profile's name must hold no `]`.
pub proof fn lemma_generated_prompt_colored(profile: Option<Seq<char>>, warning: bool)
    requires
        profile matches Some(p) ==> !p.contains(']'),
    ensures
        colored_prompt(prompt_text(profile, warning)) == colored_profile(shown_profile(profile))
            + colored_warning(warning) + "\x1b[36;1m> \x1b[0m"@,
{
    match shown_profile(profile) {
        Some(p) => {
            lemma_parse_generated_profile(p, warning);
        },
        None => {
            lemma_parse_generated_plain(profile, warning);
        },
    }
}

/// Colours the prompt `prompt` for display, or returns `None` for a text
/// that is no prompt and is to be shown as it is.
pub fn color_prompt(prompt: &str) -> (colored: Option<String>)
    ensures
        match colored {
            Some(text) => parse_prompt(prompt@) is Some && text@ == colored_prompt(prompt@),
            None => parse_prompt(prompt@) is None,
        },
{
    match parse_prompt_components(prompt) {
        Some(components) => {
            let mut text = String::new();
            match components.profile {
                Some(profile) => {
                    text.append("\x1b[36m[");
                    text.append(profile.as_str());
                    text.append("] \x1b[0m");
                },
                None => {},
            }
            if components.warning {
                text.append("\x1b[31m!\x1b[0m");
            }
            text.append("\x1b[36;1m> \x1b[0m");
            assert(text@ =~= colored_prompt(prompt@));
            Some(text)
        },
        None => None,
    }
}

} // verus!
