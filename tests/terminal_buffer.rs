use mavis_term::error::SessionError;
use mavis_term::terminal::TerminalWidgetState;

fn lines(t: &TerminalWidgetState) -> Vec<String> {
    (0..t.line_count()).map(|i| t.line(i)).collect()
}

#[test]
fn fresh_buffer_has_one_empty_line() {
    let t = TerminalWidgetState::new();
    assert_eq!(lines(&t), vec![String::new()]);
    assert_eq!(t.cursor(), (0, 0));
}

#[test]
fn crlf_splits_lines() {
    let mut t = TerminalWidgetState::new();
    t.process_output(b"ab\r\ncd");
    assert_eq!(lines(&t), vec!["ab".to_string(), "cd".to_string()]);
    assert_eq!(t.cursor(), (1, 2));
}

#[test]
fn empty_chunk_appends_end_marker() {
    let mut t = TerminalWidgetState::new();
    t.process_output(b"hello\nworld");
    let before = lines(&t);
    t.process_output(b"");
    let after = lines(&t);
    assert_eq!(after.len(), before.len() + 1);
    assert_eq!(&after[..before.len()], &before[..]);
    assert_eq!(after[before.len()], "--- Terminal session ended ---");
    assert_eq!(t.cursor(), (1, 5));
}

#[test]
fn same_input_gives_same_state() {
    let chunks: Vec<&[u8]> = vec![b"line one\r\n", b"\ttab", b"\rX", b"", b"more"];
    let mut a = TerminalWidgetState::new();
    let mut b = TerminalWidgetState::new();
    for c in &chunks {
        a.process_output(c);
    }
    for c in &chunks {
        b.process_output(c);
    }
    assert_eq!(lines(&a), lines(&b));
    assert_eq!(a.cursor(), b.cursor());
}

#[test]
fn tab_moves_to_next_multiple_of_eight() {
    let mut t = TerminalWidgetState::new();
    t.process_output(b"a\tb");
    assert_eq!(t.line(0), "a       b");
    assert_eq!(t.cursor(), (0, 9));
    t.process_output(b"\t");
    assert_eq!(t.cursor(), (0, 16));
    t.process_output(b"\t");
    assert_eq!(t.cursor(), (0, 24));
}

#[test]
fn tab_then_character_pads_with_spaces() {
    let mut t = TerminalWidgetState::new();
    t.process_output(b"\tx");
    assert_eq!(t.line(0), "        x");
}

#[test]
fn carriage_return_overwrites_in_place() {
    let mut t = TerminalWidgetState::new();
    t.process_output(b"abc\rX");
    assert_eq!(t.line(0), "Xbc");
    assert_eq!(t.cursor(), (0, 1));
}

#[test]
fn newline_adds_lines_on_demand() {
    let mut t = TerminalWidgetState::new();
    t.process_output(b"\n\n");
    assert_eq!(t.line_count(), 3);
    assert_eq!(t.cursor(), (2, 0));
}

#[test]
fn multibyte_characters_take_one_column() {
    let mut t = TerminalWidgetState::new();
    t.process_output("h\u{e9}llo".as_bytes());
    assert_eq!(t.line(0), "h\u{e9}llo");
    assert_eq!(t.cursor(), (0, 5));
}

#[test]
fn invalid_utf8_chunk_is_dropped() {
    let mut t = TerminalWidgetState::new();
    t.process_output(b"ok");
    t.process_output(&[0x66, 0xff, 0x67]);
    assert_eq!(lines(&t), vec!["ok".to_string()]);
    assert_eq!(t.cursor(), (0, 2));
}

#[test]
fn send_input_appends_crlf() {
    let t = TerminalWidgetState::new();
    assert_eq!(t.send_input("dir"), b"dir\r\n".to_vec());
    assert_eq!(t.send_input(""), b"\r\n".to_vec());
    assert_eq!(t.send_input("\u{e9}"), vec![0xc3, 0xa9, 13, 10]);
}

#[test]
fn send_error_adds_marker_line() {
    let mut t = TerminalWidgetState::new();
    t.process_output(b"prompt>");
    t.report_send_error(SessionError::Io(232));
    assert_eq!(t.line(0), "prompt>");
    assert_eq!(t.line(1), "--- Error sending input: I/O error ---");
    t.report_send_error(SessionError::Terminated);
    assert_eq!(t.line(2), "--- Error sending input: session terminated ---");
    t.report_send_error(SessionError::LockPoisoned);
    assert_eq!(t.line(3), "--- Terminal session error (mutex poisoned) ---");
    assert_eq!(t.cursor(), (0, 7));
}
