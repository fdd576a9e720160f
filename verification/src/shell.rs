//! The line editor: the session's state and its transitions.
//!
//! A session is always at the prompt. Each key event is one transition, which
//! ends at the prompt again or ends the session. A line that is submitted is
//! run by the caller, between [`Shell::process_keypress`], which hands the line
//! out, and [`Shell::finish_command`], which takes what the command printed,
//! records the line and clears it.
//!
//! A key event outside the transition table is refused with
//! [`ShellError::UnhandledEvent`] and leaves the state as it was; whether the
//! session goes on after it is the caller's choice.

use crate::error::ShellError;
use crate::key::{all_printable, KeyAction, KeyEvent};
use crate::terminal::{
    blank_line_ops, output_ops, redraw_ops, submit_ops, ShellOutput, TermOp, TermOpView,
};
use crate::text::{decode, lines_of, split_lines};
use vstd::prelude::*;
use vstd::utf8::{decode_utf8, valid_utf8};

verus! {

/// The state of a session as contracts see it.
pub ghost struct ShellState {
    /// The line that is being typed.
    pub input_buffer: Seq<char>,
    /// The lines submitted so far, oldest first.
    pub history: Seq<Seq<char>>,
    /// A place in the history. No transition moves it.
    pub history_cursor: nat,
}

/// What the caller does after a key event.
#[derive(Debug, PartialEq, Eq)]
pub enum Step {
    /// The session is over.
    Exit,
    /// Perform the operations, then wait for the next key.
    Render(Vec<TermOp>),
    /// Show the history cursor and the history, which are these, then wait for
    /// the next key.
    ShowHistory { cursor: usize, history: Vec<String> },
    /// Perform the operations, run `command`, and hand what it printed to
    /// [`Shell::finish_command`].
    Execute { ops: Vec<TermOp>, command: String },
}

/// A step as contracts see it.
pub ghost enum StepView {
    Exit,
    Render(Seq<TermOpView>),
    ShowHistory { cursor: nat, history: Seq<Seq<char>> },
    Execute { ops: Seq<TermOpView>, command: Seq<char> },
}

impl View for Step {
    type V = StepView;

    open spec fn view(&self) -> StepView {
        match *self {
            Step::Exit => StepView::Exit,
            Step::Render(ops) => StepView::Render(ops.deep_view()),
            Step::ShowHistory { cursor, history } => StepView::ShowHistory {
                cursor: cursor as nat,
                history: history.deep_view(),
            },
            Step::Execute { ops, command } => StepView::Execute {
                ops: ops.deep_view(),
                command: command@,
            },
        }
    }
}

/// The answer to a key event as contracts see it.
pub open spec fn answer_view(r: Result<Step, ShellError>) -> Result<StepView, ShellError> {
    match r {
        Ok(step) => Ok(step@),
        Err(e) => Err(e),
    }
}

impl ShellState {
    /// The state at the start of a session.
    pub open spec fn initial() -> ShellState {
        ShellState { input_buffer: Seq::empty(), history: Seq::empty(), history_cursor: 0 }
    }

    /// The invariant of a session: the line being typed holds printable
    /// characters only, and the history holds lines that were typed and were
    /// not empty.
    pub open spec fn wf(self) -> bool {
        &&& all_printable(self.input_buffer)
        &&& forall|i: int|
            0 <= i < self.history.len() ==> (#[trigger] self.history[i]).len() > 0
                && all_printable(self.history[i])
    }

    /// The state with `c` appended to the line.
    pub open spec fn insert(self, c: char) -> ShellState {
        ShellState { input_buffer: self.input_buffer.push(c), ..self }
    }

    /// The state with the line moved to the end of the history.
    pub open spec fn submit(self) -> ShellState {
        ShellState {
            input_buffer: Seq::empty(),
            history: self.history.push(self.input_buffer),
            ..self
        }
    }

    /// The answer to `key`.
    pub open spec fn answer(self, key: KeyEvent) -> Result<StepView, ShellError> {
        match key.action_of() {
            KeyAction::Quit => Ok(StepView::Exit),
            KeyAction::ShowHistory => Ok(
                StepView::ShowHistory { cursor: self.history_cursor, history: self.history },
            ),
            KeyAction::Submit => if self.input_buffer.len() == 0 {
                Ok(StepView::Render(blank_line_ops()))
            } else {
                Ok(StepView::Execute { ops: submit_ops(), command: self.input_buffer })
            },
            KeyAction::Insert(c) => Ok(StepView::Render(redraw_ops(self.input_buffer.push(c)))),
            KeyAction::Unhandled => Err(ShellError::UnhandledEvent),
        }
    }

    /// The state once `key` has been answered: a character that is inserted
    /// is in the line, and no other key changes anything yet.
    pub open spec fn after_key(self, key: KeyEvent) -> ShellState {
        match key.action_of() {
            KeyAction::Insert(c) => self.insert(c),
            _ => self,
        }
    }

    /// The state at the end of the whole transition that `key` starts: as
    /// `after_key`, and a line that was handed out to be run has been
    /// recorded, as it is once its command's output has been taken.
    pub open spec fn transition(self, key: KeyEvent) -> ShellState {
        if self.answer(key) matches Ok(StepView::Execute { .. }) {
            self.after_key(key).submit()
        } else {
            self.after_key(key)
        }
    }

    /// The state at the end of the transitions of `keys`, one after the other.
    pub open spec fn after_keys(self, keys: Seq<KeyEvent>) -> ShellState
        decreases keys.len(),
    {
        if keys.len() == 0 {
            self
        } else {
            self.after_keys(keys.drop_last()).transition(keys.last())
        }
    }
}

/// A session of the shell.
#[derive(Debug)]
pub struct Shell {
    input_buffer: String,
    history: Vec<String>,
    history_cursor: usize,
}

impl View for Shell {
    type V = ShellState;

    closed spec fn view(&self) -> ShellState {
        ShellState {
            input_buffer: self.input_buffer@,
            history: self.history.deep_view(),
            history_cursor: self.history_cursor as nat,
        }
    }
}

impl Shell {
    /// The invariant of `self@`, stated of the fields.
    #[verifier::type_invariant]
    spec fn inv(&self) -> bool {
        &&& all_printable(self.input_buffer@)
        &&& forall|i: int|
            0 <= i < self.history@.len() ==> (#[trigger] self.history@[i])@.len() > 0
                && all_printable(self.history@[i]@)
    }

    /// A session at its start: nothing typed, nothing submitted.
    pub fn new() -> (shell: Shell)
        ensures
            shell@ == ShellState::initial(),
    {
        let shell = Shell { input_buffer: String::new(), history: Vec::new(), history_cursor: 0 };
        assert(shell.history.deep_view() =~= Seq::<Seq<char>>::empty());
        shell
    }

    /// The line that is being typed.
    pub fn input_buffer(&self) -> (line: &str)
        ensures
            line@ == self@.input_buffer,
            self@.wf(),
    {
        proof {
            use_type_invariant(self);
        }
        self.input_buffer.as_str()
    }

    /// The lines submitted so far, oldest first.
    pub fn history(&self) -> (lines: &Vec<String>)
        ensures
            lines.deep_view() == self@.history,
            self@.wf(),
    {
        proof {
            use_type_invariant(self);
        }
        &self.history
    }

    /// The history cursor.
    pub fn history_cursor(&self) -> (cursor: usize)
        ensures
            cursor == self@.history_cursor,
    {
        self.history_cursor
    }

    /// Answers one key event.
    ///
    /// The answer is `self@.answer(key)` and the state becomes
    /// `self@.after_key(key)`: Escape and Control+`q` end the session;
    /// Control+`h` hands out the history cursor and the history to be shown;
    /// Enter on an empty line draws a new prompt; Enter on any other line
    /// hands the line out to be run; a printable character is appended to the
    /// line, which is drawn anew. Every other event is refused, and nothing
    /// changes.
    pub fn process_keypress(&mut self, key: KeyEvent) -> (r: Result<Step, ShellError>)
        ensures
            answer_view(r) == old(self)@.answer(key),
            final(self)@ == old(self)@.after_key(key),
            final(self)@.history == old(self)@.history,
            final(self)@.wf(),
    {
        proof {
            use_type_invariant(&*self);
        }
        match key.action() {
            KeyAction::Quit => Ok(Step::Exit),
            KeyAction::ShowHistory => {
                let history = self.history.clone();
                Ok(Step::ShowHistory { cursor: self.history_cursor, history })
            },
            KeyAction::Submit => {
                if self.input_buffer.as_str().is_empty() {
                    Ok(Step::Render(ShellOutput::blank_line()))
                } else {
                    Ok(Step::Execute { ops: ShellOutput::submit(), command: self.input_buffer.clone() })
                }
            },
            KeyAction::Insert(c) => {
                // The line is taken out while it grows: the fields of `self`
                // satisfy the invariant at every call.
                let mut line = String::new();
                std::mem::swap(&mut self.input_buffer, &mut line);
                line.push(c);
                self.input_buffer = line;
                Ok(Step::Render(ShellOutput::redraw(self.input_buffer.as_str())))
            },
            KeyAction::Unhandled => Err(ShellError::UnhandledEvent),
        }
    }

    /// Ends the transition of a line that was handed out to be run, with what
    /// the command wrote to its standard output.
    ///
    /// Where `stdout` is valid UTF-8, the operations show its lines and draw
    /// the prompt, the line is recorded at the end of the history, and the
    /// line being typed is empty again. Where it is not, nothing changes.
    pub fn finish_command(&mut self, stdout: Vec<u8>) -> (r: Result<Vec<TermOp>, ShellError>)
        requires
            old(self)@.input_buffer.len() > 0,
        ensures
            r is Ok <==> valid_utf8(stdout@),
            r matches Ok(ops) ==> ops.deep_view() == output_ops(lines_of(decode_utf8(stdout@)))
                && final(self)@ == old(self)@.submit(),
            r matches Err(e) ==> e == ShellError::Decode && final(self)@ == old(self)@,
            old(self)@.history.is_prefix_of(final(self)@.history),
            final(self)@.wf(),
    {
        proof {
            use_type_invariant(&*self);
        }
        match decode(stdout) {
            Err(e) => Err(e),
            Ok(text) => {
                let lines = split_lines(text.as_str());
                let ops = ShellOutput::command_output(&lines);
                let ghost before = self.history.deep_view();
                // The line and the history are taken out while they change, as
                // the line is when a character is inserted.
                let mut line = String::new();
                std::mem::swap(&mut self.input_buffer, &mut line);
                let mut history: Vec<String> = Vec::new();
                std::mem::swap(&mut self.history, &mut history);
                history.push(line);
                proof {
                    assert(history.deep_view() =~= before.push(old(self)@.input_buffer));
                }
                self.history = history;
                Ok(ops)
            },
        }
    }

    /// Answers one key event, as `process_keypress` does.
    pub fn run(&mut self, key: KeyEvent) -> (r: Result<Step, ShellError>)
        ensures
            answer_view(r) == old(self)@.answer(key),
            final(self)@ == old(self)@.after_key(key),
            final(self)@.history == old(self)@.history,
            final(self)@.wf(),
    {
        self.process_keypress(key)
    }
}

} // verus!
