use chat_cli::helper::{ChatHelper, MultiLineValidator, Validation, FENCE};
use rustyline::highlight::CmdKind;
use std::borrow::Cow;

fn helper() -> ChatHelper {
    let (request_sender, _) = std::sync::mpsc::channel::<Option<String>>();
    let (_, response_receiver) = std::sync::mpsc::channel::<Vec<String>>();
    ChatHelper::new(request_sender, response_receiver)
}

#[test]
fn an_open_fence_wants_more_lines() {
    assert_eq!(MultiLineValidator.validate("```abc"), Validation::Incomplete);
    assert_eq!(MultiLineValidator.validate("```\nfn main() {}\n"), Validation::Incomplete);
    assert_eq!(MultiLineValidator.validate("````"), Validation::Complete);
    assert_eq!(MultiLineValidator.validate("```a``"), Validation::Incomplete);
}

#[test]
fn a_closed_fence_is_complete() {
    assert_eq!(MultiLineValidator.validate("```abc```"), Validation::Complete);
    assert_eq!(MultiLineValidator.validate("```\nfn main() {}\n```"), Validation::Complete);
    assert_eq!(MultiLineValidator.validate("```"), Validation::Complete);
    assert_eq!(MultiLineValidator.validate("``````"), Validation::Complete);
}

#[test]
fn a_trailing_backslash_wants_more_lines() {
    assert_eq!(MultiLineValidator.validate("abc\\"), Validation::Incomplete);
    assert_eq!(MultiLineValidator.validate("\\"), Validation::Incomplete);
    assert_eq!(MultiLineValidator.validate("abc\\\\"), Validation::Incomplete);
    assert_eq!(MultiLineValidator.validate("```abc```\\"), Validation::Incomplete);
    assert_eq!(MultiLineValidator.validate("abc\\ "), Validation::Complete);
    assert_eq!(MultiLineValidator.validate("a\\b"), Validation::Complete);
}

#[test]
fn ordinary_input_is_complete() {
    assert_eq!(MultiLineValidator.validate(""), Validation::Complete);
    assert_eq!(MultiLineValidator.validate("hello"), Validation::Complete);
    assert_eq!(MultiLineValidator.validate("``abc"), Validation::Complete);
    assert_eq!(MultiLineValidator.validate(" ```abc"), Validation::Complete);
    assert_eq!(MultiLineValidator.validate("abc```"), Validation::Complete);
    assert_eq!(FENCE, "```");
}

#[test]
fn validation_agrees_with_std_on_every_short_text() {
    let alphabet = ['`', '\\', 'a', ' ', '\n'];
    let mut last: Vec<String> = vec![String::new()];
    let mut texts = last.clone();
    for _ in 0..7 {
        let mut next = Vec::new();
        for text in &last {
            for c in alphabet {
                let mut longer = text.clone();
                longer.push(c);
                next.push(longer);
            }
        }
        texts.extend(next.iter().cloned());
        last = next;
    }
    for text in &texts {
        let incomplete =
            (text.starts_with("```") && !text.ends_with("```")) || text.ends_with('\\');
        let expected = if incomplete { Validation::Incomplete } else { Validation::Complete };
        assert_eq!(MultiLineValidator.validate(text), expected, "text {:?}", text);
    }
}

#[test]
fn the_helper_validates_as_its_validator_does() {
    let h = helper();
    assert_eq!(h.validate("```abc"), Validation::Incomplete);
    assert_eq!(h.validate("```abc```"), Validation::Complete);
    assert_eq!(h.validate("line\\"), Validation::Incomplete);
    assert_eq!(h.validate("line"), Validation::Complete);
}

#[test]
fn hints_are_shown_in_bold() {
    let h = helper();
    assert_eq!(h.highlight_hint("hint"), "\x1b[1mhint\x1b[m");
    assert_eq!(h.highlight_hint(""), "\x1b[1m\x1b[m");
    assert!(matches!(h.highlight_hint("x"), Cow::Owned(_)));
}

#[test]
fn the_line_is_shown_as_it_is() {
    let h = helper();
    assert_eq!(h.highlight("/help me", 3), "/help me");
    assert!(matches!(h.highlight("abc", 0), Cow::Borrowed("abc")));
    assert!(!h.highlight_char("abc", 1, CmdKind::MoveCursor));
    assert!(!h.highlight_char("abc", 3, CmdKind::Other));
    assert!(!h.highlight_char("", 0, CmdKind::ForcedRefresh));
}

#[test]
fn the_prompt_is_shown_in_colour() {
    let h = helper();
    assert_eq!(h.highlight_prompt("> ", true), "\x1b[36;1m> \x1b[0m");
    assert_eq!(h.highlight_prompt("!> ", false), "\x1b[31m!\x1b[0m\x1b[36;1m> \x1b[0m");
    assert_eq!(
        h.highlight_prompt("[dev] !> ", true),
        "\x1b[36m[dev] \x1b[0m\x1b[31m!\x1b[0m\x1b[36;1m> \x1b[0m"
    );
    assert_eq!(
        h.highlight_prompt("[default] > ", true),
        "\x1b[36m[default] \x1b[0m\x1b[36;1m> \x1b[0m"
    );
}

#[test]
fn a_text_that_is_no_prompt_is_shown_as_it_is() {
    let h = helper();
    assert!(matches!(h.highlight_prompt("invalid", true), Cow::Borrowed("invalid")));
    assert!(matches!(h.highlight_prompt("(reverse-i-search)`': ", false), Cow::Borrowed(_)));
    assert_eq!(h.highlight_prompt("", false), "");
}
