use line_shell::key::{KeyCode, KeyEvent, KeyModifiers};
use line_shell::reader::{Polled, ReaderStep, ShellReader, TermEvent};

#[test]
fn a_wait_begins_with_a_poll_of_half_a_second() {
    let reader = ShellReader::new();
    assert_eq!(reader.first_step(), ReaderStep::Poll { millis: 500 });
    assert_eq!(ShellReader::POLL_MILLIS, 500);
}

#[test]
fn a_poll_that_timed_out_is_repeated() {
    let reader = ShellReader::new();
    assert_eq!(reader.read_key(Polled::TimedOut), ReaderStep::Poll { millis: 500 });
}

#[test]
fn a_waiting_event_is_read() {
    let reader = ShellReader::new();
    assert_eq!(reader.read_key(Polled::Ready), ReaderStep::Read);
}

#[test]
fn a_key_event_is_delivered() {
    let reader = ShellReader::new();
    let key = KeyEvent::new(KeyCode::Char('x'), KeyModifiers::shift());
    assert_eq!(reader.read_key(Polled::Event(TermEvent::Key(key))), ReaderStep::Deliver(key));
    let arrow = KeyEvent::new(KeyCode::Other, KeyModifiers::none());
    assert_eq!(reader.read_key(Polled::Event(TermEvent::Key(arrow))), ReaderStep::Deliver(arrow));
}

#[test]
fn another_event_is_dropped_and_the_poll_repeated() {
    let reader = ShellReader::new();
    assert_eq!(
        reader.read_key(Polled::Event(TermEvent::Other)),
        ReaderStep::Poll { millis: 500 }
    );
}

#[test]
fn keys_come_out_in_the_order_they_went_in() {
    let reader = ShellReader::new();
    let script = [
        Polled::TimedOut,
        Polled::Ready,
        Polled::Event(TermEvent::Other),
        Polled::Ready,
        Polled::Event(TermEvent::Key(KeyEvent::new(KeyCode::Char('a'), KeyModifiers::none()))),
        Polled::Ready,
        Polled::Event(TermEvent::Key(KeyEvent::new(KeyCode::Enter, KeyModifiers::none()))),
    ];
    let mut delivered = Vec::new();
    for polled in script {
        if let ReaderStep::Deliver(key) = reader.read_key(polled) {
            delivered.push(key.code);
        }
    }
    assert_eq!(delivered, vec![KeyCode::Char('a'), KeyCode::Enter]);
}
