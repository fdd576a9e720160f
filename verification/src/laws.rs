//! What holds of every session, proved of the transitions in
//! [`crate::shell`].

use crate::error::ShellError;
use crate::key::{
    all_printable, control_key, enter_key, escape_key, typed_key, KeyAction, KeyEvent,
};
use crate::shell::{ShellState, StepView};
use crate::terminal::{blank_line_ops, redraw_ops, submit_ops};
use vstd::prelude::*;

verus! {

/// A session starts in a state that meets the invariant.
pub proof fn law_initial_state_is_well_formed()
    ensures
        ShellState::initial().wf(),
{
}

/// No transition leaves the invariant: neither the answer to a key, nor the
/// recording of a line that was handed out, nor the two together.
pub proof fn law_transitions_keep_invariant(s: ShellState, key: KeyEvent)
    requires
        s.wf(),
    ensures
        s.after_key(key).wf(),
        s.answer(key) matches Ok(StepView::Execute { .. }) ==> s.after_key(key).submit().wf(),
        s.transition(key).wf(),
{
}

/// The invariant holds at the end of every sequence of transitions that
/// starts where it holds.
pub proof fn law_sessions_keep_invariant(s: ShellState, keys: Seq<KeyEvent>)
    requires
        s.wf(),
    ensures
        s.after_keys(keys).wf(),
    decreases keys.len(),
{
    if keys.len() > 0 {
        law_sessions_keep_invariant(s, keys.drop_last());
        law_transitions_keep_invariant(s.after_keys(keys.drop_last()), keys.last());
    }
}

/// Under the invariant neither the line being typed nor a line of the
/// history holds a line feed.
pub proof fn law_no_line_feed_in_lines(s: ShellState)
    requires
        s.wf(),
    ensures
        !s.input_buffer.contains('\n'),
        forall|i: int| 0 <= i < s.history.len() ==> !(#[trigger] s.history[i]).contains('\n'),
{
}

/// Typing printable characters with no modifier held appends exactly those
/// characters, in their order, to the line and changes nothing else.
pub proof fn law_typed_characters_extend_the_line(s: ShellState, chars: Seq<char>)
    requires
        all_printable(chars),
    ensures
        s.after_keys(chars.map_values(|c: char| typed_key(c))) == (ShellState {
            input_buffer: s.input_buffer + chars,
            ..s
        }),
    decreases chars.len(),
{
    let keys = chars.map_values(|c: char| typed_key(c));
    if chars.len() > 0 {
        let front = chars.drop_last();
        law_typed_characters_extend_the_line(s, front);
        assert(keys.drop_last() == front.map_values(|c: char| typed_key(c)));
        assert((s.input_buffer + front).push(chars.last()) == s.input_buffer + chars);
    }
}

/// In a new session, after printable characters have been typed with no
/// modifier held and nothing else, the line is those characters in their
/// order.
pub proof fn law_typed_characters_form_the_line(chars: Seq<char>)
    requires
        all_printable(chars),
    ensures
        ShellState::initial().after_keys(chars.map_values(|c: char| typed_key(c))).input_buffer
            == chars,
{
    law_typed_characters_extend_the_line(ShellState::initial(), chars);
}

/// What is on the terminal follows the line: a key changes the line only by
/// inserting a character, and the answer to it then erases the current line
/// and writes the prompt and the whole of the new line.
pub proof fn law_every_change_of_the_line_is_drawn(s: ShellState, key: KeyEvent)
    ensures
        s.after_key(key).input_buffer != s.input_buffer <==> key.action_of() is Insert,
        key.action_of() is Insert ==> s.answer(key) == Ok::<StepView, ShellError>(
            StepView::Render(redraw_ops(s.after_key(key).input_buffer)),
        ),
{
    if key.action_of() is Insert {
        assert(s.after_key(key).input_buffer.len() == s.input_buffer.len() + 1);
    }
}

/// Enter on an empty line changes neither the history nor the line: the
/// answer draws a new prompt and the state stays as it was.
pub proof fn law_enter_on_empty_line(s: ShellState)
    requires
        s.input_buffer.len() == 0,
    ensures
        s.answer(enter_key()) == Ok::<StepView, ShellError>(StepView::Render(blank_line_ops())),
        s.after_key(enter_key()) == s,
        s.transition(enter_key()) == s,
{
}

/// Enter on a line that is not empty hands that line out to be run, and the
/// whole transition appends exactly that line to the history, which grows by
/// one, and leaves the line being typed empty.
pub proof fn law_enter_records_the_line(s: ShellState)
    requires
        s.input_buffer.len() > 0,
    ensures
        s.answer(enter_key()) == Ok::<StepView, ShellError>(
            StepView::Execute { ops: submit_ops(), command: s.input_buffer },
        ),
        s.after_key(enter_key()) == s,
        s.transition(enter_key()) == s.submit(),
        s.transition(enter_key()).history == s.history.push(s.input_buffer),
        s.transition(enter_key()).history.len() == s.history.len() + 1,
        s.transition(enter_key()).input_buffer.len() == 0,
{
}

/// The history is append-only: whatever the transition, the history before
/// it is a prefix of the history after it.
pub proof fn law_history_grows_at_its_end(s: ShellState, key: KeyEvent)
    ensures
        s.history.is_prefix_of(s.after_key(key).history),
        s.history.is_prefix_of(s.after_key(key).submit().history),
        s.history.is_prefix_of(s.transition(key).history),
{
}

/// Transitions compose: the keys of `first` and then those of `second` end
/// where those of `first + second` end.
pub proof fn law_sessions_compose(s: ShellState, first: Seq<KeyEvent>, second: Seq<KeyEvent>)
    ensures
        s.after_keys(first + second) == s.after_keys(first).after_keys(second),
    decreases second.len(),
{
    if second.len() > 0 {
        law_sessions_compose(s, first, second.drop_last());
        assert((first + second).drop_last() == first + second.drop_last());
    }
}

/// The history is append-only over a whole session: the history at the start
/// is a prefix of the history at the end.
pub proof fn law_history_is_append_only(s: ShellState, keys: Seq<KeyEvent>)
    ensures
        s.history.is_prefix_of(s.after_keys(keys).history),
    decreases keys.len(),
{
    if keys.len() > 0 {
        let before = s.after_keys(keys.drop_last());
        law_history_is_append_only(s, keys.drop_last());
        law_history_grows_at_its_end(before, keys.last());
    }
}

/// The history keeps the order of submission. The history after the first
/// `i` keys is a prefix of the history after the first `j` keys where
/// `i <= j`: a line recorded by then keeps its place, and every line
/// recorded later stands behind it.
pub proof fn law_history_keeps_order(s: ShellState, keys: Seq<KeyEvent>, i: int, j: int)
    requires
        0 <= i <= j <= keys.len(),
    ensures
        s.after_keys(keys.take(i)).history.is_prefix_of(s.after_keys(keys.take(j)).history),
{
    let rest = keys.subrange(i, j);
    assert(keys.take(j) == keys.take(i) + rest);
    law_sessions_compose(s, keys.take(i), rest);
    law_history_is_append_only(s.after_keys(keys.take(i)), rest);
}

/// No transition moves the history cursor: at the end of every session it is
/// where it was at the start.
pub proof fn law_history_cursor_stays(s: ShellState, keys: Seq<KeyEvent>)
    ensures
        s.after_keys(keys).history_cursor == s.history_cursor,
    decreases keys.len(),
{
    if keys.len() > 0 {
        law_history_cursor_stays(s, keys.drop_last());
    }
}

/// Escape alone and Control+`q` end the session from every state, whatever
/// the line holds, and change nothing.
pub proof fn law_quit_from_every_state(s: ShellState)
    ensures
        s.answer(escape_key()) == Ok::<StepView, ShellError>(StepView::Exit),
        s.answer(control_key('q')) == Ok::<StepView, ShellError>(StepView::Exit),
        s.transition(escape_key()) == s,
        s.transition(control_key('q')) == s,
{
}

/// The session ends on a quit key only.
pub proof fn law_only_quit_ends_the_session(s: ShellState, key: KeyEvent)
    ensures
        s.answer(key) == Ok::<StepView, ShellError>(StepView::Exit) <==> key.action_of()
            == KeyAction::Quit,
        key.action_of() == KeyAction::Quit <==> key == escape_key() || key == control_key('q'),
{
}

} // verus!
