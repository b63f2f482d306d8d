use chat_cli::completion::{
    complete_command, is_break_char, mention_candidates, mention_completion, mention_request,
    mention_search, path_answer, path_completion, ChatCompleter, CompletionError,
    PathCompleter, PromptCompleter, COMMANDS,
};
use rustyline::history::DefaultHistory;
use rustyline::Context;
use std::sync::mpsc::{channel, Receiver, Sender, TryRecvError};

fn strings(items: &[&str]) -> Vec<String> {
    items.iter().map(|s| s.to_string()).collect()
}

/// A completer whose keeper of saved prompts is gone.
fn lonely_completer() -> ChatCompleter {
    let (prompt_request_sender, _) = channel::<Option<String>>();
    let (_, prompt_response_receiver) = channel::<Vec<String>>();
    ChatCompleter::new(prompt_request_sender, prompt_response_receiver)
}

/// A completer together with the keeper's ends of its two channels.
fn completer_with_keeper() -> (ChatCompleter, Receiver<Option<String>>, Sender<Vec<String>>) {
    let (request_sender, request_receiver) = channel::<Option<String>>();
    let (response_sender, response_receiver) = channel::<Vec<String>>();
    (ChatCompleter::new(request_sender, response_receiver), request_receiver, response_sender)
}

#[test]
fn test_chat_completer_command_completion() {
    let (prompt_request_sender, _) = std::sync::mpsc::channel::<Option<String>>();
    let (_, prompt_response_receiver) = std::sync::mpsc::channel::<Vec<String>>();
    let completer = ChatCompleter::new(prompt_request_sender, prompt_response_receiver);
    let line = "/h";
    let pos = 2; // Position at the end of "/h"

    // Create a mock context with empty history
    let empty_history = DefaultHistory::new();
    let ctx = Context::new(&empty_history);

    // Get completions
    let (start, completions) = completer.complete(line, pos, &ctx).unwrap();

    // Verify start position
    assert_eq!(start, 0);

    // Verify completions contain expected commands
    assert!(completions.contains(&"/help".to_string()));
}

#[test]
fn test_chat_completer_no_completion() {
    let (prompt_request_sender, _) = std::sync::mpsc::channel::<Option<String>>();
    let (_, prompt_response_receiver) = std::sync::mpsc::channel::<Vec<String>>();
    let completer = ChatCompleter::new(prompt_request_sender, prompt_response_receiver);
    let line = "Hello, how are you?";
    let pos = line.len();

    // Create a mock context with empty history
    let empty_history = DefaultHistory::new();
    let ctx = Context::new(&empty_history);

    // Get completions
    let (_, completions) = completer.complete(line, pos, &ctx).unwrap();

    // Verify no completions are returned for regular text
    assert!(completions.is_empty());
}

#[test]
fn the_command_list_is_the_declared_one() {
    assert_eq!(COMMANDS.len(), 38);
    assert_eq!(COMMANDS[0], "/clear");
    assert_eq!(COMMANDS[1], "/help");
    assert_eq!(COMMANDS[4], "/quit");
    assert_eq!(COMMANDS[37], "/load");
    assert!(COMMANDS.iter().all(|c| c.starts_with('/')));
    assert!(!COMMANDS.contains(&"/acceptall"));
}

#[test]
fn complete_command_filters_by_prefix_in_declared_order() {
    assert_eq!(complete_command("/h", 0), (0, strings(&["/help"])));
    assert_eq!(
        complete_command("/tools", 3),
        (3, strings(&["/tools", "/tools trust", "/tools untrust", "/tools trustall", "/tools reset"]))
    );
    assert_eq!(complete_command("/c", 9), (9, strings(&[
        "/clear", "/context help", "/context show", "/context show --expand", "/context add",
        "/context add --global", "/context rm", "/context rm --global", "/context clear",
        "/context clear --global", "/context hooks help", "/context hooks add",
        "/context hooks rm", "/context hooks enable", "/context hooks disable",
        "/context hooks enable-all", "/context hooks disable-all", "/compact", "/compact help",
    ])));
    assert_eq!(complete_command("/load", 0), (0, strings(&["/load"])));
    assert_eq!(complete_command("/loads", 0), (0, Vec::new()));
    assert_eq!(complete_command("/x", 7), (7, Vec::new()));
    assert_eq!(complete_command("/H", 0), (0, Vec::new()));
}

#[test]
fn complete_command_with_a_bare_slash_or_nothing_offers_every_command() {
    let all: Vec<String> = COMMANDS.iter().map(|c| c.to_string()).collect();
    assert_eq!(complete_command("/", 0), (0, all.clone()));
    assert_eq!(complete_command("", 5), (5, all));
}

#[test]
fn complete_command_agrees_with_std_prefix_test() {
    for word in ["/", "/c", "/co", "/context ", "/context s", "/p", "/profile", "/s", "/u", "/t", "/tools t", "/z", "c", "/é"] {
        let expected: Vec<String> =
            COMMANDS.iter().filter(|c| c.starts_with(word)).map(|c| c.to_string()).collect();
        assert_eq!(complete_command(word, 1), (1, expected));
    }
}

#[test]
fn blank_and_tab_end_a_word() {
    assert!(is_break_char(' '));
    assert!(is_break_char('\t'));
    for c in ['\n', '\r', '\u{a0}', '\u{3000}', 'a', '/', '@', '\0', '\u{b}'] {
        assert!(!is_break_char(c));
    }
}

#[test]
fn the_word_under_the_cursor_is_completed() {
    let completer = lonely_completer();
    let history = DefaultHistory::new();
    let ctx = Context::new(&history);

    // the cursor in the middle of the line
    assert_eq!(completer.complete("/help me", 2, &ctx).unwrap(), (0, strings(&["/help"])));
    // a word after a blank, and after a tab
    assert_eq!(completer.complete("say /qu", 7, &ctx).unwrap(), (4, strings(&["/quit"])));
    assert_eq!(completer.complete("say\t/us", 7, &ctx).unwrap(), (4, strings(&["/usage"])));
    // offsets count bytes: `é` takes two
    assert_eq!(completer.complete("héllo /sa", 10, &ctx).unwrap(), (7, strings(&["/save"])));
    // a command word without a match gives no candidate, and no other source is asked
    assert_eq!(completer.complete("/nothing", 8, &ctx).unwrap(), (0, Vec::new()));
    // a subcommand is a word of its own: the word under the cursor is `tr`
    let (_, found) = completer.complete("/tools tr", 9, &ctx).unwrap();
    assert!(!found.contains(&"/tools trust".to_string()));
}

#[test]
fn a_line_feed_does_not_end_a_word() {
    let completer = lonely_completer();
    let history = DefaultHistory::new();
    let ctx = Context::new(&history);
    // the word under the cursor is the whole line, which is no command:
    // the file system is asked, and it takes the line feed for a break
    let (start, found) = completer.complete("a\n/h", 4, &ctx).unwrap();
    assert!(!found.contains(&"/help".to_string()));
    if found.is_empty() {
        assert_eq!(start, 0);
    } else {
        assert_eq!(start, 2);
    }
}

#[test]
fn an_empty_line_has_the_cursor_at_its_start() {
    let completer = lonely_completer();
    let history = DefaultHistory::new();
    let ctx = Context::new(&history);
    let (start, _) = completer.complete("", 0, &ctx).unwrap();
    assert_eq!(start, 0);
    let (start, found) = completer.complete("/h", 0, &ctx).unwrap();
    assert_eq!(start, 0);
    assert!(!found.contains(&"/help".to_string()));
}

#[test]
fn a_mention_sends_one_request_and_prefixes_the_answer() {
    let (completer, requests, responses) = completer_with_keeper();
    let history = DefaultHistory::new();
    let ctx = Context::new(&history);
    responses.send(strings(&["alice", "bob"])).unwrap();

    let result = completer.complete("@foo", 4, &ctx).unwrap();
    assert_eq!(result, (0, strings(&["@alice", "@bob"])));

    assert_eq!(requests.try_recv(), Ok(Some("foo".to_string())));
    assert_eq!(requests.try_recv(), Err(TryRecvError::Empty));
}

#[test]
fn a_mention_searches_for_the_whole_line_wherever_the_cursor_is() {
    let (completer, requests, responses) = completer_with_keeper();
    let history = DefaultHistory::new();
    let ctx = Context::new(&history);
    responses.send(strings(&["code style"])).unwrap();

    let result = completer.complete("@code sty", 3, &ctx).unwrap();
    assert_eq!(result, (0, strings(&["@code style"])));
    assert_eq!(requests.try_recv(), Ok(Some("code sty".to_string())));
}

#[test]
fn a_bare_mention_asks_for_every_prompt() {
    let (completer, requests, responses) = completer_with_keeper();
    let history = DefaultHistory::new();
    let ctx = Context::new(&history);
    responses.send(strings(&["a", "b", "a"])).unwrap();

    let result = completer.complete("@", 1, &ctx).unwrap();
    assert_eq!(result, (0, strings(&["@a", "@b", "@a"])));
    assert_eq!(requests.try_recv(), Ok(None));
    assert_eq!(requests.try_recv(), Err(TryRecvError::Empty));
}

#[test]
fn a_mention_with_an_empty_answer_falls_through_to_the_file_system() {
    let (completer, requests, responses) = completer_with_keeper();
    let history = DefaultHistory::new();
    let ctx = Context::new(&history);
    responses.send(Vec::new()).unwrap();

    let (start, found) = completer.complete("@no_such_prompt_zq", 18, &ctx).unwrap();
    assert!(found.is_empty());
    assert_eq!(start, 0);
    assert_eq!(requests.try_recv(), Ok(Some("no_such_prompt_zq".to_string())));
}

#[test]
fn a_mention_that_cannot_be_sent_is_an_error() {
    // nobody listens for requests
    let completer = lonely_completer();
    let history = DefaultHistory::new();
    let ctx = Context::new(&history);
    let result = completer.complete("@no_such_prompt_zq", 18, &ctx);
    assert!(matches!(result, Err(CompletionError::RequestNotSent)));
}

#[test]
fn a_mention_that_gets_no_answer_is_an_error() {
    // the request is taken, but the answering end is gone before any answer
    let (completer, requests, responses) = completer_with_keeper();
    let history = DefaultHistory::new();
    let ctx = Context::new(&history);
    drop(responses);

    let result = completer.complete("@foo", 4, &ctx);
    assert!(matches!(result, Err(CompletionError::NoAnswer)));
    // the one request went out, and was not sent again
    assert_eq!(requests.try_recv(), Ok(Some("foo".to_string())));
    assert_eq!(requests.try_recv(), Err(TryRecvError::Empty));
}

#[test]
fn a_closed_channel_is_no_error_where_the_saved_prompts_are_not_asked() {
    let completer = lonely_completer();
    let history = DefaultHistory::new();
    let ctx = Context::new(&history);
    // a command word, also on a line that begins with the mark
    assert_eq!(completer.complete("@foo /he", 8, &ctx).unwrap(), (5, strings(&["/help"])));
    // a line that does not begin with the mark
    let (start, found) = completer.complete("see @no_such_prompt_zq", 22, &ctx).unwrap();
    assert!(found.is_empty());
    assert_eq!(start, 4);
}

#[test]
fn a_command_word_wins_over_a_mention() {
    let (completer, requests, responses) = completer_with_keeper();
    let history = DefaultHistory::new();
    let ctx = Context::new(&history);
    responses.send(strings(&["alice"])).unwrap();

    let result = completer.complete("@foo /he", 8, &ctx).unwrap();
    assert_eq!(result, (5, strings(&["/help"])));
    assert_eq!(requests.try_recv(), Err(TryRecvError::Empty));
}

#[test]
fn mention_request_is_the_search_text_or_nothing() {
    assert_eq!(mention_request("foo"), Some("foo".to_string()));
    assert_eq!(mention_request(" "), Some(" ".to_string()));
    assert_eq!(mention_request(""), None);
}

#[test]
fn mention_candidates_put_the_mark_in_front() {
    assert_eq!(mention_candidates(&strings(&["alice", "bob"])), strings(&["@alice", "@bob"]));
    assert_eq!(mention_candidates(&strings(&["", "@x", "é"])), strings(&["@", "@@x", "@é"]));
    assert_eq!(mention_candidates(&Vec::new()), Vec::<String>::new());
}

#[test]
fn complete_prompt_returns_the_answer_with_marks() {
    let (request_sender, request_receiver) = channel::<Option<String>>();
    let (response_sender, response_receiver) = channel::<Vec<String>>();
    let completer = PromptCompleter::new(request_sender, response_receiver);
    response_sender.send(strings(&["alice", "bob"])).unwrap();
    response_sender.send(Vec::new()).unwrap();

    assert_eq!(completer.complete_prompt("al").unwrap(), strings(&["@alice", "@bob"]));
    assert_eq!(completer.complete_prompt("").unwrap(), Vec::<String>::new());
    assert_eq!(request_receiver.try_recv(), Ok(Some("al".to_string())));
    assert_eq!(request_receiver.try_recv(), Ok(None));
    assert_eq!(request_receiver.try_recv(), Err(TryRecvError::Empty));
}

#[test]
fn complete_prompt_fails_when_nobody_listens() {
    let (request_sender, request_receiver) = channel::<Option<String>>();
    let (response_sender, response_receiver) = channel::<Vec<String>>();
    drop(request_receiver);
    response_sender.send(strings(&["alice"])).unwrap();
    let completer = PromptCompleter::new(request_sender, response_receiver);
    assert!(matches!(completer.complete_prompt("al"), Err(CompletionError::RequestNotSent)));
}

#[test]
fn complete_prompt_fails_when_nobody_answers() {
    let (request_sender, request_receiver) = channel::<Option<String>>();
    let (response_sender, response_receiver) = channel::<Vec<String>>();
    drop(response_sender);
    let completer = PromptCompleter::new(request_sender, response_receiver);
    assert!(matches!(completer.complete_prompt("al"), Err(CompletionError::NoAnswer)));
    assert_eq!(request_receiver.try_recv(), Ok(Some("al".to_string())));
}

#[test]
fn mention_completion_takes_only_an_answer_with_candidates() {
    assert_eq!(mention_completion(Ok(strings(&["@a"]))).unwrap(), Some((0, strings(&["@a"]))));
    assert_eq!(
        mention_completion(Ok(strings(&["@a", "@b"]))).unwrap(),
        Some((0, strings(&["@a", "@b"])))
    );
    assert_eq!(mention_completion(Ok(Vec::new())).unwrap(), None);
}

#[test]
fn mention_completion_hands_on_the_error_of_a_closed_channel() {
    assert!(matches!(
        mention_completion(Err(CompletionError::NoAnswer)),
        Err(CompletionError::NoAnswer)
    ));
    assert!(matches!(
        mention_completion(Err(CompletionError::RequestNotSent)),
        Err(CompletionError::RequestNotSent)
    ));
    assert!(matches!(
        mention_completion(Err(CompletionError::Unavailable(rustyline::error::ReadlineError::Eof))),
        Err(CompletionError::Unavailable(rustyline::error::ReadlineError::Eof))
    ));
}

#[test]
fn mention_search_is_what_follows_the_mark() {
    assert_eq!(mention_search("@foo"), Some("foo"));
    assert_eq!(mention_search("@"), Some(""));
    assert_eq!(mention_search("@@x"), Some("@x"));
    assert_eq!(mention_search("@code sty /x"), Some("code sty /x"));
    assert_eq!(mention_search("@é√ prompt"), Some("é√ prompt"));
    assert_eq!(mention_search("@ "), Some(" "));
}

#[test]
fn mention_search_is_nothing_for_a_line_without_the_mark() {
    assert_eq!(mention_search(""), None);
    assert_eq!(mention_search("foo"), None);
    assert_eq!(mention_search(" @foo"), None);
    assert_eq!(mention_search("a@foo"), None);
    assert_eq!(mention_search("/help @foo"), None);
    assert_eq!(mention_search("\u{ff20}foo"), None);
}

#[test]
fn path_completion_keeps_candidates_and_errors() {
    let found = path_completion(3, Ok((5, strings(&["src/"])))).unwrap();
    assert_eq!(found, (5, strings(&["src/"])));
    let none = path_completion(3, Ok((5, Vec::new()))).unwrap();
    assert_eq!(none, (3, Vec::new()));
    let failed = path_completion(
        3,
        Err(CompletionError::Unavailable(rustyline::error::ReadlineError::Eof)),
    );
    assert!(matches!(
        failed,
        Err(CompletionError::Unavailable(rustyline::error::ReadlineError::Eof))
    ));
    assert!(matches!(path_completion(3, Err(CompletionError::NoAnswer)), Err(CompletionError::NoAnswer)));
}

#[test]
fn paths_on_disk_are_offered() {
    let dir = tempfile::tempdir().unwrap();
    let file = tempfile::Builder::new().prefix("zq_").suffix(".txt").tempfile_in(dir.path()).unwrap();
    let name = file.path().file_name().unwrap().to_str().unwrap().to_string();
    let base = dir.path().to_str().unwrap().to_string();
    let line = format!("{}/zq", base);
    let history = DefaultHistory::new();
    let ctx = Context::new(&history);

    let completer = PathCompleter::new();
    let (start, found) = completer.complete_path(&line, line.len(), &ctx).unwrap();
    assert_eq!(start, 0);
    assert_eq!(found, vec![format!("{}/{}", base, name)]);

    let line = format!("open {}/zq", base);
    let (start, found) = completer.complete_path(&line, line.len(), &ctx).unwrap();
    assert_eq!(start, 5);
    assert_eq!(found, vec![format!("{}/{}", base, name)]);

    let line = format!("{}/no_such_file", base);
    let (_, found) = completer.complete_path(&line, line.len(), &ctx).unwrap();
    assert!(found.is_empty());
}

#[test]
fn the_dispatcher_falls_back_to_paths_on_disk() {
    let dir = tempfile::tempdir().unwrap();
    let file = tempfile::Builder::new().prefix("zq_").tempfile_in(dir.path()).unwrap();
    let name = file.path().file_name().unwrap().to_str().unwrap().to_string();
    let base = dir.path().to_str().unwrap().to_string();
    let history = DefaultHistory::new();
    let ctx = Context::new(&history);
    let completer = lonely_completer();

    // the word under the cursor does not begin with a slash
    let line = format!("read ./../../../../../../../../..{}/zq", base);
    let (start, found) = completer.complete(&line, line.len(), &ctx).unwrap();
    assert_eq!(start, 5);
    assert_eq!(found, vec![format!("./../../../../../../../../..{}/{}", base, name)]);

    // an absolute path begins with a slash, and is taken for a command
    let line = format!("{}/zq", base);
    let (_, found) = completer.complete(&line, line.len(), &ctx).unwrap();
    assert!(found.is_empty());
}

#[test]
fn path_answer_keeps_the_candidates_and_wraps_the_error() {
    assert_eq!(path_answer(Ok((5, strings(&["src/", "src.txt"])))).unwrap(), (5, strings(&["src/", "src.txt"])));
    assert_eq!(path_answer(Ok((0, Vec::new()))).unwrap(), (0, Vec::new()));
    assert!(matches!(
        path_answer(Err(rustyline::error::ReadlineError::Eof)),
        Err(CompletionError::Unavailable(rustyline::error::ReadlineError::Eof))
    ));
    assert!(matches!(
        path_answer(Err(rustyline::error::ReadlineError::Interrupted)),
        Err(CompletionError::Unavailable(rustyline::error::ReadlineError::Interrupted))
    ));
}
