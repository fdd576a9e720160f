//! What the shell asks of the terminal: a small set of operations, and the
//! sequences of them that draw the prompt, the line and a command's output.

use vstd::prelude::*;
use vstd::string::StringExecFns;

verus! {

/// One operation on the terminal. The shell computes sequences of them; whoever
/// owns the terminal performs them in order.
#[derive(Debug, PartialEq, Eq)]
pub enum TermOp {
    /// Put the terminal into raw mode: keys arrive one by one, unbuffered and
    /// without echo.
    EnterRawMode,
    /// Take the terminal out of raw mode. It does no harm where the terminal
    /// is not in raw mode.
    RestoreMode,
    /// Write the text at the cursor.
    Write(String),
    /// Make everything written so far visible.
    Flush,
    /// Erase the line that the cursor is on.
    ClearCurrentLine,
    /// Erase the whole screen.
    ClearScreen,
    /// Move the cursor to the column, counted from 0, on its line.
    MoveToColumn(u16),
    /// Move the cursor to the column and row, both counted from 0.
    MoveTo(u16, u16),
}

/// A terminal operation as contracts see it: `Write` holds the text's
/// characters.
pub ghost enum TermOpView {
    EnterRawMode,
    RestoreMode,
    Write(Seq<char>),
    Flush,
    ClearCurrentLine,
    ClearScreen,
    MoveToColumn(u16),
    MoveTo(u16, u16),
}

impl View for TermOp {
    type V = TermOpView;

    open spec fn view(&self) -> TermOpView {
        match *self {
            TermOp::EnterRawMode => TermOpView::EnterRawMode,
            TermOp::RestoreMode => TermOpView::RestoreMode,
            TermOp::Write(text) => TermOpView::Write(text@),
            TermOp::Flush => TermOpView::Flush,
            TermOp::ClearCurrentLine => TermOpView::ClearCurrentLine,
            TermOp::ClearScreen => TermOpView::ClearScreen,
            TermOp::MoveToColumn(column) => TermOpView::MoveToColumn(column),
            TermOp::MoveTo(column, row) => TermOpView::MoveTo(column, row),
        }
    }
}

impl DeepView for TermOp {
    type V = TermOpView;

    open spec fn deep_view(&self) -> TermOpView {
        self@
    }
}

/// The prompt: `"> "`.
pub open spec fn prompt_text() -> Seq<char> {
    seq!['>', ' ']
}

/// The line terminator of a terminal in raw mode: a carriage return and a line
/// feed.
pub open spec fn line_end() -> Seq<char> {
    seq!['\r', '\n']
}

/// Drawing the prompt: it is written and flushed.
pub open spec fn prompt_ops() -> Seq<TermOpView> {
    seq![TermOpView::Write(prompt_text()), TermOpView::Flush]
}

/// Drawing the line anew: the current line is erased, the cursor goes to
/// column 0, the prompt is drawn, and the whole buffer is written and flushed.
pub open spec fn redraw_ops(buffer: Seq<char>) -> Seq<TermOpView> {
    seq![TermOpView::ClearCurrentLine, TermOpView::MoveToColumn(0)] + prompt_ops() + seq![
        TermOpView::Write(buffer),
        TermOpView::Flush,
    ]
}

/// Answering Enter on an empty line: a line terminator, then the prompt, and
/// one more flush.
pub open spec fn blank_line_ops() -> Seq<TermOpView> {
    seq![TermOpView::Write(line_end())] + prompt_ops() + seq![TermOpView::Flush]
}

/// Answering Enter on a line that will be run: a line terminator.
pub open spec fn submit_ops() -> Seq<TermOpView> {
    seq![TermOpView::Write(line_end())]
}

/// Showing a command's output: each line is written with a line terminator
/// behind it, then an empty line is written and all of it flushed, then the
/// prompt is drawn.
pub open spec fn output_ops(lines: Seq<Seq<char>>) -> Seq<TermOpView> {
    lines.map_values(|line: Seq<char>| TermOpView::Write(line + line_end())) + seq![
        TermOpView::Write(line_end()),
        TermOpView::Flush,
    ] + prompt_ops()
}

/// Erasing the screen: the screen is cleared and the cursor sent to the top
/// left corner, each flushed at once.
pub open spec fn clear_screen_ops() -> Seq<TermOpView> {
    seq![
        TermOpView::ClearScreen,
        TermOpView::Flush,
        TermOpView::MoveTo(0, 0),
        TermOpView::Flush,
    ]
}

/// Starting a session: the terminal goes into raw mode and the prompt is
/// drawn.
pub open spec fn startup_ops() -> Seq<TermOpView> {
    seq![TermOpView::EnterRawMode] + prompt_ops()
}

/// Ending a session, however it ends: the terminal leaves raw mode and the
/// screen is erased.
pub open spec fn cleanup_ops() -> Seq<TermOpView> {
    seq![TermOpView::RestoreMode] + clear_screen_ops()
}

/// A new string that holds the prompt.
fn prompt_string() -> (text: String)
    ensures
        text@ == prompt_text(),
{
    proof {
        reveal_strlit("> ");
    }
    "> ".to_owned()
}

/// A new string that holds the line terminator.
fn line_end_string() -> (text: String)
    ensures
        text@ == line_end(),
{
    proof {
        reveal_strlit("\r\n");
    }
    "\r\n".to_owned()
}

/// The operations that draw the prompt.
pub fn prompt() -> (ops: Vec<TermOp>)
    ensures
        ops.deep_view() == prompt_ops(),
{
    let mut ops: Vec<TermOp> = Vec::new();
    ops.push(TermOp::Write(prompt_string()));
    ops.push(TermOp::Flush);
    ops
}

/// The shell's way of drawing on the terminal.
#[derive(Clone, Copy, Debug)]
pub struct ShellOutput {}

impl ShellOutput {
    pub fn new() -> Self {
        Self {  }
    }

    /// The operations that start a session.
    pub fn startup() -> (ops: Vec<TermOp>)
        ensures
            ops.deep_view() == startup_ops(),
    {
        let mut ops: Vec<TermOp> = Vec::new();
        ops.push(TermOp::EnterRawMode);
        ops.push(TermOp::Write(prompt_string()));
        ops.push(TermOp::Flush);
        ops
    }

    /// The operations that end a session. They are owed on every way out of
    /// it, a failure included.
    pub fn cleanup() -> (ops: Vec<TermOp>)
        ensures
            ops.deep_view() == cleanup_ops(),
    {
        let mut ops: Vec<TermOp> = Vec::new();
        ops.push(TermOp::RestoreMode);
        ops.push(TermOp::ClearScreen);
        ops.push(TermOp::Flush);
        ops.push(TermOp::MoveTo(0, 0));
        ops.push(TermOp::Flush);
        ops
    }

    /// The operations that erase the screen.
    pub fn clear_screen() -> (ops: Vec<TermOp>)
        ensures
            ops.deep_view() == clear_screen_ops(),
    {
        let mut ops: Vec<TermOp> = Vec::new();
        ops.push(TermOp::ClearScreen);
        ops.push(TermOp::Flush);
        ops.push(TermOp::MoveTo(0, 0));
        ops.push(TermOp::Flush);
        ops
    }

    /// The operations that draw the line anew with `buffer` behind the prompt.
    pub fn redraw(buffer: &str) -> (ops: Vec<TermOp>)
        ensures
            ops.deep_view() == redraw_ops(buffer@),
    {
        let mut ops: Vec<TermOp> = Vec::new();
        ops.push(TermOp::ClearCurrentLine);
        ops.push(TermOp::MoveToColumn(0));
        ops.push(TermOp::Write(prompt_string()));
        ops.push(TermOp::Flush);
        ops.push(TermOp::Write(buffer.to_owned()));
        ops.push(TermOp::Flush);
        ops
    }

    /// The operations that answer Enter on an empty line.
    pub fn blank_line() -> (ops: Vec<TermOp>)
        ensures
            ops.deep_view() == blank_line_ops(),
    {
        let mut ops: Vec<TermOp> = Vec::new();
        ops.push(TermOp::Write(line_end_string()));
        ops.push(TermOp::Write(prompt_string()));
        ops.push(TermOp::Flush);
        ops.push(TermOp::Flush);
        ops
    }

    /// The operations that answer Enter on a line that will be run.
    pub fn submit() -> (ops: Vec<TermOp>)
        ensures
            ops.deep_view() == submit_ops(),
    {
        let mut ops: Vec<TermOp> = Vec::new();
        ops.push(TermOp::Write(line_end_string()));
        ops
    }

    /// The operations that show the lines of a command's output and draw the
    /// prompt below them.
    pub fn command_output(lines: &Vec<String>) -> (ops: Vec<TermOp>)
        ensures
            ops.deep_view() == output_ops(lines.deep_view()),
    {
        let ghost texts = lines.deep_view();
        let ghost written = texts.map_values(|line: Seq<char>| TermOpView::Write(line + line_end()));
        let mut ops: Vec<TermOp> = Vec::new();
        let mut i: usize = 0;
        while i < lines.len()
            invariant
                0 <= i <= lines.len(),
                texts == lines.deep_view(),
                written == texts.map_values(|line: Seq<char>| TermOpView::Write(line + line_end())),
                ops.deep_view() == written.subrange(0, i as int),
            decreases lines.len() - i,
        {
            let mut text = lines[i].clone();
            text.append("\r\n");
            proof {
                reveal_strlit("\r\n");
                assert(text@ == texts[i as int] + line_end());
            }
            let ghost op = TermOpView::Write(text@);
            ops.push(TermOp::Write(text));
            proof {
                assert(written.subrange(0, i + 1) =~= written.subrange(0, i as int).push(op));
            }
            i += 1;
        }
        let ghost before = ops.deep_view();
        ops.push(TermOp::Write(line_end_string()));
        ops.push(TermOp::Flush);
        ops.push(TermOp::Write(prompt_string()));
        ops.push(TermOp::Flush);
        proof {
            assert(ops.deep_view() =~= before + seq![
                TermOpView::Write(line_end()),
                TermOpView::Flush,
            ] + prompt_ops());
        }
        ops
    }
}

} // verus!
