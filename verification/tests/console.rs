use chat_cli::console::{
    next_step, ConsoleAction, ConsoleEvent, ConsoleState, ENABLE_VIRTUAL_TERMINAL_PROCESSING,
};

/// Runs the steps against a console that answers with the given values, and
/// returns what was asked of it and the mode it was left with.
fn run(handle: isize, mode: Option<u32>, takes_mode: bool) -> (Vec<ConsoleAction>, Option<u32>) {
    let mut console_mode = mode;
    let mut asked = Vec::new();
    let (mut state, mut action) = next_step(ConsoleState::Start, ConsoleEvent::Begin);
    loop {
        asked.push(action);
        let event = match action {
            ConsoleAction::GetStdHandle => ConsoleEvent::Handle(handle),
            ConsoleAction::GetConsoleMode { handle: h } => {
                assert_eq!(h, handle);
                ConsoleEvent::Mode(mode)
            }
            ConsoleAction::SetConsoleMode { handle: h, mode: m } => {
                assert_eq!(h, handle);
                if takes_mode {
                    console_mode = Some(m);
                }
                ConsoleEvent::Written(takes_mode)
            }
            ConsoleAction::Finish => {
                assert_eq!(state, ConsoleState::Done);
                return (asked, console_mode);
            }
        };
        assert!(asked.len() < 5);
        let next = next_step(state, event);
        state = next.0;
        action = next.1;
    }
}

#[test]
fn without_a_console_handle_the_run_ends_at_once() {
    let (asked, mode) = run(0, Some(3), true);
    assert_eq!(asked, vec![ConsoleAction::GetStdHandle, ConsoleAction::Finish]);
    assert_eq!(mode, Some(3));
}

#[test]
fn a_mode_that_cannot_be_read_ends_the_run() {
    let (asked, mode) = run(7, None, true);
    assert_eq!(
        asked,
        vec![
            ConsoleAction::GetStdHandle,
            ConsoleAction::GetConsoleMode { handle: 7 },
            ConsoleAction::Finish,
        ]
    );
    assert_eq!(mode, None);
}

#[test]
fn the_flag_is_added_to_the_mode_that_was_read() {
    let (asked, mode) = run(7, Some(0x0003), true);
    assert_eq!(
        asked,
        vec![
            ConsoleAction::GetStdHandle,
            ConsoleAction::GetConsoleMode { handle: 7 },
            ConsoleAction::SetConsoleMode { handle: 7, mode: 0x0007 },
            ConsoleAction::Finish,
        ]
    );
    assert_eq!(mode, Some(0x0007));
    assert!(mode.unwrap() & ENABLE_VIRTUAL_TERMINAL_PROCESSING != 0);
}

#[test]
fn a_mode_that_has_the_flag_keeps_it() {
    let (_, mode) = run(-1, Some(0xFFFF_FFFF), true);
    assert_eq!(mode, Some(0xFFFF_FFFF));
    let (_, mode) = run(1, Some(0x0004), true);
    assert_eq!(mode, Some(0x0004));
    let (_, mode) = run(1, Some(0), true);
    assert_eq!(mode, Some(ENABLE_VIRTUAL_TERMINAL_PROCESSING));
    assert_eq!(ENABLE_VIRTUAL_TERMINAL_PROCESSING, 4);
}

#[test]
fn a_console_that_refuses_the_mode_ends_the_run_in_success() {
    let (asked, mode) = run(7, Some(0x0001), false);
    assert_eq!(asked.len(), 4);
    assert_eq!(asked[3], ConsoleAction::Finish);
    assert_eq!(mode, Some(0x0001));
}

#[test]
fn an_event_out_of_turn_ends_the_run() {
    let states = [
        ConsoleState::Start,
        ConsoleState::AwaitingHandle,
        ConsoleState::AwaitingMode { handle: 5 },
        ConsoleState::AwaitingWrite,
        ConsoleState::Done,
    ];
    let events = [
        ConsoleEvent::Begin,
        ConsoleEvent::Handle(5),
        ConsoleEvent::Handle(0),
        ConsoleEvent::Mode(Some(1)),
        ConsoleEvent::Mode(None),
        ConsoleEvent::Written(true),
        ConsoleEvent::Written(false),
    ];
    let mut going_on = 0;
    for state in states {
        for event in events {
            let (next, action) = next_step(state, event);
            assert_eq!(next == ConsoleState::Done, action == ConsoleAction::Finish);
            if next != ConsoleState::Done {
                going_on += 1;
            }
        }
    }
    assert_eq!(going_on, 3);
    assert_eq!(
        next_step(ConsoleState::AwaitingWrite, ConsoleEvent::Written(true)),
        (ConsoleState::Done, ConsoleAction::Finish)
    );
    assert_eq!(
        next_step(ConsoleState::Start, ConsoleEvent::Handle(5)),
        (ConsoleState::Done, ConsoleAction::Finish)
    );
}

#[test]
fn test_enable_ansi_support() {
    // The run must end in success whatever the console answers, also where
    // there is no console at all
    for handle in [0, 1, -1] {
        for mode in [None, Some(0), Some(0x0007)] {
            for takes_mode in [false, true] {
                let (asked, _) = run(handle, mode, takes_mode);
                assert_eq!(asked.last(), Some(&ConsoleAction::Finish));
            }
        }
    }
}

#[test]
fn test_console_mode_changes() {
    for mode_before in [0u32, 0x0001, 0x0003, 0x0004, 0x01F7] {
        let (_, new_mode) = run(3, Some(mode_before), true);
        let new_mode = new_mode.unwrap();

        assert!(
            new_mode & ENABLE_VIRTUAL_TERMINAL_PROCESSING != 0,
            "ENABLE_VIRTUAL_TERMINAL_PROCESSING flag should be set"
        );
        assert_eq!(new_mode & !ENABLE_VIRTUAL_TERMINAL_PROCESSING, mode_before & !ENABLE_VIRTUAL_TERMINAL_PROCESSING);
    }
}
