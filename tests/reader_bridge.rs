use mavis_term::error::SessionError;
use mavis_term::reader::{ReaderBridge, Received, StreamConsumer};
use mavis_term::terminal::TerminalWidgetState;

#[test]
fn data_is_forwarded_and_reader_keeps_running() {
    let mut bridge = ReaderBridge::new();
    let buf = *b"Hello\r\nrest-of-buffer";
    let chunk = bridge.on_read(&buf, Ok(7));
    assert_eq!(chunk, b"Hello\r\n".to_vec());
    assert!(bridge.is_running());
    bridge.on_send(true);
    assert!(bridge.is_running());
}

#[test]
fn closed_pipe_sends_sentinel_and_stops() {
    let mut bridge = ReaderBridge::new();
    let buf = [0u8; 16];
    assert!(bridge.on_read(&buf, Ok(0)).is_empty());
    assert!(!bridge.is_running());
}

#[test]
fn read_error_or_poisoned_lock_sends_sentinel_and_stops() {
    let buf = [0u8; 16];
    let mut bridge = ReaderBridge::new();
    assert!(bridge.on_read(&buf, Err(SessionError::Io(109))).is_empty());
    assert!(!bridge.is_running());
    let mut bridge = ReaderBridge::new();
    assert!(bridge.on_read(&buf, Err(SessionError::LockPoisoned)).is_empty());
    assert!(!bridge.is_running());
}

#[test]
fn dropped_receiver_stops_reader() {
    let mut bridge = ReaderBridge::new();
    let buf = *b"abc";
    bridge.on_read(&buf, Ok(3));
    bridge.on_send(false);
    assert!(!bridge.is_running());
}

#[test]
fn consumer_feeds_chunks_and_marks_end_once() {
    let mut term = TerminalWidgetState::new();
    let mut consumer = StreamConsumer::new();
    consumer.receive(&mut term, Received::Chunk(b"Hello".to_vec()));
    consumer.receive(&mut term, Received::Nothing);
    assert!(consumer.open());
    assert_eq!(term.line(0), "Hello");
    consumer.receive(&mut term, Received::Chunk(Vec::new()));
    assert!(!consumer.open());
    consumer.receive(&mut term, Received::Disconnected);
    consumer.receive(&mut term, Received::Chunk(b"late".to_vec()));
    assert_eq!(term.line_count(), 2);
    assert_eq!(term.line(0), "Hello");
    assert_eq!(term.line(1), "--- Terminal session ended ---");
}

#[test]
fn disconnect_ends_the_stream() {
    let mut term = TerminalWidgetState::new();
    let mut consumer = StreamConsumer::new();
    consumer.receive(&mut term, Received::Disconnected);
    assert!(!consumer.open());
    assert_eq!(term.line(1), "--- Terminal session ended ---");
}

#[test]
fn echo_session_output_reaches_the_buffer() {
    let mut bridge = ReaderBridge::new();
    let mut term = TerminalWidgetState::new();
    let mut consumer = StreamConsumer::new();
    let buf = *b"Hello\r\n\0\0\0";
    let chunk = bridge.on_read(&buf, Ok(7));
    consumer.receive(&mut term, Received::Chunk(chunk));
    let end = bridge.on_read(&buf, Ok(0));
    consumer.receive(&mut term, Received::Chunk(end));
    assert!(term.line(0).contains("Hello"));
    assert_eq!(term.line(2), "--- Terminal session ended ---");
}
