use line_shell::error::ShellError;
use line_shell::text::{decode, split_lines};

fn lines(text: &str) -> Vec<String> {
    split_lines(text)
}

fn strings(items: &[&str]) -> Vec<String> {
    let mut out = Vec::new();
    for item in items {
        out.push(item.to_string());
    }
    out
}

#[test]
fn empty_text_has_no_lines() {
    assert_eq!(lines(""), strings(&[]));
}

#[test]
fn text_without_line_feed_is_one_line() {
    assert_eq!(lines("abc"), strings(&["abc"]));
}

#[test]
fn final_line_feed_is_optional() {
    assert_eq!(lines("a.txt\nb.txt\n"), strings(&["a.txt", "b.txt"]));
    assert_eq!(lines("a.txt\nb.txt"), strings(&["a.txt", "b.txt"]));
}

#[test]
fn carriage_return_before_line_feed_is_dropped() {
    assert_eq!(lines("a\r\nb\r\n"), strings(&["a", "b"]));
    assert_eq!(lines("\r\n"), strings(&[""]));
}

#[test]
fn only_one_carriage_return_is_dropped() {
    assert_eq!(lines("a\r\r\nb"), strings(&["a\r", "b"]));
}

#[test]
fn bare_carriage_return_stays() {
    assert_eq!(lines("a\rb"), strings(&["a\rb"]));
    assert_eq!(lines("a\rb\n"), strings(&["a\rb"]));
    assert_eq!(lines("\r"), strings(&["\r"]));
}

#[test]
fn carriage_return_at_the_end_of_the_text_stays() {
    assert_eq!(lines("a\nb\r"), strings(&["a", "b\r"]));
}

#[test]
fn empty_lines_are_kept() {
    assert_eq!(lines("\n"), strings(&[""]));
    assert_eq!(lines("\n\n"), strings(&["", ""]));
    assert_eq!(lines("a\n\nb"), strings(&["a", "", "b"]));
    assert_eq!(lines("\na"), strings(&["", "a"]));
}

#[test]
fn characters_of_several_bytes_are_kept() {
    assert_eq!(lines("é\nüber\r\n日本"), strings(&["é", "über", "日本"]));
}

#[test]
fn split_lines_agrees_with_std() {
    let samples = [
        "",
        "x",
        "\n",
        "\r",
        "\r\n",
        "\n\r",
        "\r\r",
        "\r\r\n",
        "\r\n\r\n",
        "one\ntwo\nthree",
        "one\r\ntwo\rthree\n",
        "tail\r",
        "tail\r\n",
        "a\n\n\nb\n",
        " \n \r\n ",
    ];
    for sample in samples {
        let mut expected = Vec::new();
        for line in sample.lines() {
            expected.push(line.to_string());
        }
        assert_eq!(lines(sample), expected);
    }
}

#[test]
fn no_line_holds_a_line_feed() {
    let samples = ["a\nb\n\nc", "\n\n\n", "x\r\ny\rz\n", "no line feed at all"];
    for sample in samples {
        for line in lines(sample) {
            assert!(!line.contains('\n'));
        }
    }
}

#[test]
fn decode_accepts_valid_utf8() {
    assert_eq!(decode(Vec::new()), Ok(String::new()));
    assert_eq!(decode(vec![b'l', b's']), Ok("ls".to_string()));
    assert_eq!(decode(vec![0xc3, 0xa9, b'\n']), Ok("é\n".to_string()));
    assert_eq!(decode(vec![0xf0, 0x9f, 0x98, 0x80]), Ok("\u{1f600}".to_string()));
}

#[test]
fn decode_refuses_invalid_utf8() {
    assert_eq!(decode(vec![0xff]), Err(ShellError::Decode));
    assert_eq!(decode(vec![b'a', 0xc3]), Err(ShellError::Decode));
    assert_eq!(decode(vec![0xc0, 0x80]), Err(ShellError::Decode));
    assert_eq!(decode(vec![0xed, 0xa0, 0x80]), Err(ShellError::Decode));
}

#[test]
fn error_messages_name_the_error() {
    assert_eq!(ShellError::Decode.message(), "command output is not valid UTF-8");
    assert_eq!(ShellError::UnhandledEvent.message(), "unhandled key event");
}
