use line_shell::terminal::{prompt, ShellOutput, TermOp};

fn write(text: &str) -> TermOp {
    TermOp::Write(text.to_string())
}

#[test]
fn prompt_is_written_and_flushed() {
    assert_eq!(prompt(), vec![write("> "), TermOp::Flush]);
}

#[test]
fn startup_enters_raw_mode_and_draws_the_prompt() {
    assert_eq!(
        ShellOutput::startup(),
        vec![TermOp::EnterRawMode, write("> "), TermOp::Flush]
    );
}

#[test]
fn cleanup_restores_the_mode_before_it_clears_the_screen() {
    assert_eq!(
        ShellOutput::cleanup(),
        vec![
            TermOp::RestoreMode,
            TermOp::ClearScreen,
            TermOp::Flush,
            TermOp::MoveTo(0, 0),
            TermOp::Flush,
        ]
    );
}

#[test]
fn clear_screen_clears_and_homes_the_cursor() {
    assert_eq!(
        ShellOutput::clear_screen(),
        vec![TermOp::ClearScreen, TermOp::Flush, TermOp::MoveTo(0, 0), TermOp::Flush]
    );
}

#[test]
fn redraw_clears_the_line_and_writes_prompt_and_buffer() {
    assert_eq!(
        ShellOutput::redraw("ls -l"),
        vec![
            TermOp::ClearCurrentLine,
            TermOp::MoveToColumn(0),
            write("> "),
            TermOp::Flush,
            write("ls -l"),
            TermOp::Flush,
        ]
    );
}

#[test]
fn blank_line_ends_the_line_and_draws_the_prompt() {
    assert_eq!(
        ShellOutput::blank_line(),
        vec![write("\r\n"), write("> "), TermOp::Flush, TermOp::Flush]
    );
}

#[test]
fn submit_ends_the_line() {
    assert_eq!(ShellOutput::submit(), vec![write("\r\n")]);
}

#[test]
fn command_output_writes_each_line_and_a_new_prompt() {
    let lines = vec!["a.txt".to_string(), "b.txt".to_string()];
    assert_eq!(
        ShellOutput::command_output(&lines),
        vec![
            write("a.txt\r\n"),
            write("b.txt\r\n"),
            write("\r\n"),
            TermOp::Flush,
            write("> "),
            TermOp::Flush,
        ]
    );
}

#[test]
fn command_output_of_nothing_is_an_empty_line_and_a_prompt() {
    assert_eq!(
        ShellOutput::command_output(&Vec::new()),
        vec![write("\r\n"), TermOp::Flush, write("> "), TermOp::Flush]
    );
}

#[test]
fn shell_output_can_be_made() {
    let out = ShellOutput::new();
    assert_eq!(format!("{:?}", out), "ShellOutput");
}
