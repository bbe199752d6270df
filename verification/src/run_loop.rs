//! The refresh loop as a state machine: its states, what each asks of the
//! terminal, and which state follows.

use vstd::prelude::*;
use crate::color::{ColorError, DisplayColor};

verus! {

/// Milliseconds between two frames.
pub const FRAME_INTERVAL_MILLIS: u64 = 100;

/// Exit status after a quit key.
pub const EXIT_QUIT: i32 = 0;

/// Exit status when the color string is no color.
pub const EXIT_BAD_COLOR: i32 = 103;

/// Where the loop stands.
#[derive(Clone, Copy, Debug, PartialEq, Eq, Structural)]
pub enum LoopState {
    /// About to read the clock.
    Running,
    /// About to draw the frame.
    Rendering,
    /// About to look for a key.
    PollingInput,
    /// About to wait for the next frame.
    Sleeping,
    /// About to leave; nothing follows.
    ShuttingDown,
}

/// What a state asks its driver to do.
#[derive(Clone, Copy, Debug, PartialEq, Eq, Structural)]
pub enum LoopAction {
    /// Read the wall clock and the elapsed time.
    SampleTime,
    /// Compose the frame and draw it.
    DrawFrame,
    /// Look once, without waiting, whether a key has arrived.
    PollInput,
    /// Wait this many milliseconds.
    Sleep { millis: u64 },
    /// Restore the terminal and leave with this status.
    Exit { code: i32 },
}

/// What the terminal reports of the keyboard.
#[derive(Clone, Copy, Debug, PartialEq, Eq, Structural)]
pub enum KeyEvent {
    /// A key that writes a character.
    Char(char),
    /// Any other key, or an event that could not be read.
    Other,
}

/// Where the listener stands.
#[derive(Clone, Copy, Debug, PartialEq, Eq, Structural)]
pub enum ListenerState {
    /// Waiting for the next key.
    Listening,
    /// The loop is gone; nothing is read any more.
    Stopped,
}

/// A start that failed: what to print and the status to leave with.
#[derive(Debug, PartialEq, Eq)]
pub struct StartupFailure {
    pub message: String,
    pub code: i32,
}

/// The keys that end the loop.
pub open spec fn is_quit_key(key: char) -> bool {
    key == 'q' || key == 'Q'
}

/// The state after `state`, given the key that a poll found, if any. The key
/// matters in `PollingInput` alone.
pub open spec fn next_state_of(state: LoopState, key: Option<char>) -> LoopState {
    match state {
        LoopState::Running => LoopState::Rendering,
        LoopState::Rendering => LoopState::PollingInput,
        LoopState::PollingInput => if key is Some && is_quit_key(key.unwrap()) {
            LoopState::ShuttingDown
        } else {
            LoopState::Sleeping
        },
        LoopState::Sleeping => LoopState::Running,
        LoopState::ShuttingDown => LoopState::ShuttingDown,
    }
}

/// What is done in `state`.
pub open spec fn action_of(state: LoopState) -> LoopAction {
    match state {
        LoopState::Running => LoopAction::SampleTime,
        LoopState::Rendering => LoopAction::DrawFrame,
        LoopState::PollingInput => LoopAction::PollInput,
        LoopState::Sleeping => LoopAction::Sleep { millis: 100 },
        LoopState::ShuttingDown => LoopAction::Exit { code: 0 },
    }
}

/// Tells whether a key ends the loop.
pub fn is_quit(key: char) -> (quit: bool)
    ensures
        quit == is_quit_key(key),
{
    key == 'q' || key == 'Q'
}

/// Picks what the listener sends to the loop: the character of a character
/// key, and nothing for any other event.
pub fn forwarded_key(event: KeyEvent) -> (key: Option<char>)
    ensures
        key == match event {
            KeyEvent::Char(c) => Some(c),
            KeyEvent::Other => None::<char>,
        },
{
    match event {
        KeyEvent::Char(c) => Some(c),
        KeyEvent::Other => None,
    }
}

/// The listener after an event: it stops when it had a character to send and
/// the loop no longer took it, and at no other time.
pub fn listener_after(event: KeyEvent, taken: bool) -> (state: ListenerState)
    ensures
        state == ListenerState::Stopped <==> event is Char && !taken,
        state == ListenerState::Listening <==> !(event is Char && !taken),
{
    match event {
        KeyEvent::Char(_) => if taken {
            ListenerState::Listening
        } else {
            ListenerState::Stopped
        },
        KeyEvent::Other => ListenerState::Listening,
    }
}

/// Returns the state that follows `state`.
pub fn next_state(state: LoopState, key: Option<char>) -> (next: LoopState)
    ensures
        next == next_state_of(state, key),
{
    match state {
        LoopState::Running => LoopState::Rendering,
        LoopState::Rendering => LoopState::PollingInput,
        LoopState::PollingInput => match key {
            Some(c) => if is_quit(c) {
                LoopState::ShuttingDown
            } else {
                LoopState::Sleeping
            },
            None => LoopState::Sleeping,
        },
        LoopState::Sleeping => LoopState::Running,
        LoopState::ShuttingDown => LoopState::ShuttingDown,
    }
}

/// Returns what the driver does in `state`.
pub fn action(state: LoopState) -> (act: LoopAction)
    ensures
        act == action_of(state),
{
    match state {
        LoopState::Running => LoopAction::SampleTime,
        LoopState::Rendering => LoopAction::DrawFrame,
        LoopState::PollingInput => LoopAction::PollInput,
        LoopState::Sleeping => LoopAction::Sleep { millis: FRAME_INTERVAL_MILLIS },
        LoopState::ShuttingDown => LoopAction::Exit { code: EXIT_QUIT },
    }
}

/// Decides how the loop starts: with a color it starts in `Running`; without
/// one it does not start, and the failure carries the parser's message and
/// the status 103.
pub fn startup(color: Result<DisplayColor, ColorError>) -> (r: Result<
    (LoopState, DisplayColor),
    StartupFailure,
>)
    ensures
        color is Ok ==> r == Ok::<(LoopState, DisplayColor), StartupFailure>(
            (LoopState::Running, color->Ok_0),
        ),
        color is Err ==> r is Err && r->Err_0.code == 103 && r->Err_0.message@
            == color->Err_0.message@,
{
    match color {
        Ok(c) => Ok((LoopState::Running, c)),
        Err(e) => Err(StartupFailure { message: e.message, code: EXIT_BAD_COLOR }),
    }
}

/// A quit key found by the poll ends the loop with status 0, and nothing
/// else does: from `PollingInput` the loop goes to `ShuttingDown` exactly
/// when the key is `q` or `Q`, no other state leads there, and
/// `ShuttingDown` is never left.
pub proof fn lemma_quit(state: LoopState, key: Option<char>)
    ensures
        next_state_of(LoopState::PollingInput, Some('q')) == LoopState::ShuttingDown,
        next_state_of(LoopState::PollingInput, Some('Q')) == LoopState::ShuttingDown,
        action_of(LoopState::ShuttingDown) == (LoopAction::Exit { code: 0 }),
        next_state_of(state, key) == LoopState::ShuttingDown <==> state == LoopState::ShuttingDown
            || (state == LoopState::PollingInput && key is Some && is_quit_key(key.unwrap())),
        next_state_of(LoopState::ShuttingDown, key) == LoopState::ShuttingDown,
{
}

/// Without a quit key the loop comes back to `Running` after four steps,
/// having sampled, drawn, polled and slept 100 milliseconds in that order.
pub proof fn lemma_cycle(key: Option<char>)
    requires
        !(key is Some && is_quit_key(key.unwrap())),
    ensures
        ({
            let s1 = next_state_of(LoopState::Running, key);
            let s2 = next_state_of(s1, key);
            let s3 = next_state_of(s2, key);
            let s4 = next_state_of(s3, key);
            &&& s1 == LoopState::Rendering
            &&& s2 == LoopState::PollingInput
            &&& s3 == LoopState::Sleeping
            &&& s4 == LoopState::Running
            &&& action_of(s3) == (LoopAction::Sleep { millis: 100 })
        }),
{
}

} // verus!
