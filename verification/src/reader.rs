//! Waiting for the next key: the decisions between one poll of the terminal
//! and the next.
//!
//! The wait is a loop that the owner of the terminal runs. It begins with
//! [`ShellReader::first_step`], performs each step and hands what came of it
//! to [`ShellReader::read_key`], until a key is delivered.

use crate::key::KeyEvent;
use vstd::prelude::*;

verus! {

/// An event of the terminal: a key press, or anything else (a resize, a
/// change of focus, the mouse, pasted text).
#[derive(Clone, Copy, Debug, PartialEq, Eq, Structural)]
pub enum TermEvent {
    Key(KeyEvent),
    Other,
}

/// What came of the step that the reader asked for.
#[derive(Clone, Copy, Debug, PartialEq, Eq, Structural)]
pub enum Polled {
    /// The poll ended with no event waiting.
    TimedOut,
    /// The poll ended with an event waiting.
    Ready,
    /// The event that was read.
    Event(TermEvent),
}

/// What the reader asks for next.
#[derive(Clone, Copy, Debug, PartialEq, Eq, Structural)]
pub enum ReaderStep {
    /// Wait for an event, for at most this many milliseconds.
    Poll { millis: u64 },
    /// Read the event that is waiting.
    Read,
    /// The wait is over: this key was pressed.
    Deliver(KeyEvent),
}

/// The source of key events.
#[derive(Clone, Copy, Debug)]
pub struct ShellReader {}

impl ShellReader {
    /// The longest that one poll waits, in milliseconds.
    pub const POLL_MILLIS: u64 = 500;

    pub fn new() -> Self {
        Self {  }
    }

    /// The step that follows `polled`: after a poll that found an event, the
    /// event is read; a key event that was read is delivered; after a poll
    /// that found nothing, and after any other event, which is dropped, the
    /// terminal is polled again.
    pub open spec fn next_step(polled: Polled) -> ReaderStep {
        match polled {
            Polled::Ready => ReaderStep::Read,
            Polled::Event(TermEvent::Key(key)) => ReaderStep::Deliver(key),
            Polled::TimedOut | Polled::Event(TermEvent::Other) => ReaderStep::Poll {
                millis: Self::POLL_MILLIS,
            },
        }
    }

    /// The step that a wait begins with: a poll.
    pub fn first_step(&self) -> (step: ReaderStep)
        ensures
            step == (ReaderStep::Poll { millis: Self::POLL_MILLIS }),
    {
        ReaderStep::Poll { millis: Self::POLL_MILLIS }
    }

    /// Decides the step that follows `polled`.
    pub fn read_key(&self, polled: Polled) -> (step: ReaderStep)
        ensures
            step == Self::next_step(polled),
    {
        match polled {
            Polled::Ready => ReaderStep::Read,
            Polled::Event(TermEvent::Key(key)) => ReaderStep::Deliver(key),
            Polled::TimedOut => ReaderStep::Poll { millis: Self::POLL_MILLIS },
            Polled::Event(TermEvent::Other) => ReaderStep::Poll { millis: Self::POLL_MILLIS },
        }
    }
}

} // verus!
