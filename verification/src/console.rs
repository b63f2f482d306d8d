//! Switching on the console's handling of ANSI escape sequences.
//!
//! The console belongs to the operating system, so the work is done in
//! steps: [`next_step`] says which call to make next, the caller makes it and
//! reports what came back. Whatever comes back, the run ends in
//! [`ConsoleAction::Finish`]: colours are an ornament, and a console that
//! cannot be set up is no error.
use vstd::prelude::*;

verus! {

/// The console-mode flag that makes the console read escape sequences.
pub const ENABLE_VIRTUAL_TERMINAL_PROCESSING: u32 = 0x0004;

/// Where a run stands.
#[derive(Debug, Clone, Copy, PartialEq, Eq, Structural)]
pub enum ConsoleState {
    /// Nothing was done yet.
    Start,
    /// The handle of the standard output was asked for.
    AwaitingHandle,
    /// The mode of the console behind `handle` was asked for.
    AwaitingMode { handle: isize },
    /// The new mode was handed to the console.
    AwaitingWrite,
    /// The run is over.
    Done,
}

/// What the caller reports.
#[derive(Debug, Clone, Copy, PartialEq, Eq, Structural)]
pub enum ConsoleEvent {
    /// The run begins.
    Begin,
    /// The handle of the standard output; 0 where there is none.
    Handle(isize),
    /// The mode of the console, or `None` where it could not be read.
    Mode(Option<u32>),
    /// Whether the console took the new mode.
    Written(bool),
}

/// What the caller is to do next.
#[derive(Debug, Clone, Copy, PartialEq, Eq, Structural)]
pub enum ConsoleAction {
    /// Ask for the handle of the standard output.
    GetStdHandle,
    /// Ask for the mode of the console behind `handle`.
    GetConsoleMode { handle: isize },
    /// Hand `mode` to the console behind `handle`.
    SetConsoleMode { handle: isize, mode: u32 },
    /// Return to the caller, with success.
    Finish,
}

/// `mode` with the flag for escape sequences set and every other flag as it
/// was.
pub open spec fn with_virtual_terminal(mode: u32) -> u32 {
    mode | ENABLE_VIRTUAL_TERMINAL_PROCESSING
}

/// The state after `event` in `state`, and what to do next. An event that
/// the state does not wait for ends the run.
pub open spec fn step(state: ConsoleState, event: ConsoleEvent) -> (ConsoleState, ConsoleAction) {
    match (state, event) {
        (ConsoleState::Start, ConsoleEvent::Begin) => (
            ConsoleState::AwaitingHandle,
            ConsoleAction::GetStdHandle,
        ),
        (ConsoleState::AwaitingHandle, ConsoleEvent::Handle(handle)) => if handle == 0 {
            (ConsoleState::Done, ConsoleAction::Finish)
        } else {
            (ConsoleState::AwaitingMode { handle }, ConsoleAction::GetConsoleMode { handle })
        },
        (ConsoleState::AwaitingMode { handle }, ConsoleEvent::Mode(Some(mode))) => (
            ConsoleState::AwaitingWrite,
            ConsoleAction::SetConsoleMode { handle, mode: with_virtual_terminal(mode) },
        ),
        _ => (ConsoleState::Done, ConsoleAction::Finish),
    }
}

/// The state after `event` in `state`, and what to do next.
pub fn next_step(state: ConsoleState, event: ConsoleEvent) -> (r: (ConsoleState, ConsoleAction))
    ensures
        r == step(state, event),
{
    match state {
        ConsoleState::Start => match event {
            ConsoleEvent::Begin => (ConsoleState::AwaitingHandle, ConsoleAction::GetStdHandle),
            _ => (ConsoleState::Done, ConsoleAction::Finish),
        },
        ConsoleState::AwaitingHandle => match event {
            ConsoleEvent::Handle(handle) => {
                if handle == 0 {
                    (ConsoleState::Done, ConsoleAction::Finish)
                } else {
                    (
                        ConsoleState::AwaitingMode { handle },
                        ConsoleAction::GetConsoleMode { handle },
                    )
                }
            },
            _ => (ConsoleState::Done, ConsoleAction::Finish),
        },
        ConsoleState::AwaitingMode { handle } => match event {
            ConsoleEvent::Mode(Some(mode)) => (
                ConsoleState::AwaitingWrite,
                ConsoleAction::SetConsoleMode {
                    handle,
                    mode: mode | ENABLE_VIRTUAL_TERMINAL_PROCESSING,
                },
            ),
            _ => (ConsoleState::Done, ConsoleAction::Finish),
        },
        _ => (ConsoleState::Done, ConsoleAction::Finish),
    }
}

/// The mode handed to the console has the flag for escape sequences, and
/// every other flag as the console had it.
pub proof fn lemma_mode_keeps_other_flags(mode: u32)
    ensures
        with_virtual_terminal(mode) & ENABLE_VIRTUAL_TERMINAL_PROCESSING
            == ENABLE_VIRTUAL_TERMINAL_PROCESSING,
        with_virtual_terminal(mode) & !ENABLE_VIRTUAL_TERMINAL_PROCESSING == mode
            & !ENABLE_VIRTUAL_TERMINAL_PROCESSING,
{
    assert((mode | 0x0004u32) & 0x0004u32 == 0x0004u32) by (bit_vector);
    assert((mode | 0x0004u32) & !0x0004u32 == mode & !0x0004u32) by (bit_vector);
}

/// A run cannot fail: the only way to end it is [`ConsoleAction::Finish`],
/// which stands for success, and a step ends the run exactly when it says so.
pub proof fn lemma_run_ends_only_in_success(state: ConsoleState, event: ConsoleEvent)
    ensures
        step(state, event).0 == ConsoleState::Done <==> step(state, event).1
            == ConsoleAction::Finish,
{
}

/// Every failure on the way ends the run at once, in success and without
/// another call: a missing handle, a mode that cannot be read, and a mode
/// that the console does not take.
pub proof fn lemma_failures_end_the_run(handle: isize, taken: bool)
    ensures
        step(ConsoleState::AwaitingHandle, ConsoleEvent::Handle(0)) == (
            ConsoleState::Done,
            ConsoleAction::Finish,
        ),
        step(ConsoleState::AwaitingMode { handle }, ConsoleEvent::Mode(None)) == (
            ConsoleState::Done,
            ConsoleAction::Finish,
        ),
        step(ConsoleState::AwaitingWrite, ConsoleEvent::Written(taken)) == (
            ConsoleState::Done,
            ConsoleAction::Finish,
        ),
{
}

/// A run cannot hang: it begins by asking for the handle, and whatever is
/// reported after that, it is over with the third report at the latest.
pub proof fn lemma_run_is_short(first: ConsoleEvent, second: ConsoleEvent, third: ConsoleEvent)
    ensures
        step(ConsoleState::Start, ConsoleEvent::Begin) == (
            ConsoleState::AwaitingHandle,
            ConsoleAction::GetStdHandle,
        ),
        step(step(step(ConsoleState::AwaitingHandle, first).0, second).0, third).0
            == ConsoleState::Done,
{
}

} // verus!
