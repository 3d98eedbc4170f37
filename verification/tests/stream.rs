use ip_command::stream::{decode_line, LineStream, Pipe, StreamAction, StreamEvent, StreamState};
use ip_command::Error;

fn line(pipe: Pipe, text: &str) -> StreamEvent {
    StreamEvent::Line { pipe, bytes: text.as_bytes().to_vec() }
}

fn item(text: &str) -> StreamAction {
    StreamAction::Yield(Ok(text.to_string()))
}

#[test]
fn stream_reads_standard_output_only_unless_combined() {
    let stream = LineStream::new(false);
    assert_eq!(stream.state, StreamState::Streaming { stdout: true, stderr: false });
    assert!(stream.reads(Pipe::Stdout));
    assert!(!stream.reads(Pipe::Stderr));
    assert!(!stream.is_terminal());
    let stream = LineStream::new(true);
    assert_eq!(stream.state, StreamState::Streaming { stdout: true, stderr: true });
    assert!(stream.reads(Pipe::Stdout));
    assert!(stream.reads(Pipe::Stderr));
}

#[test]
fn lines_are_yielded_in_the_order_written() {
    let mut stream = LineStream::new(false);
    let written = ["first\n", "second\n", "third\n", "fourth\n"];
    let mut read = Vec::new();
    for text in written {
        match stream.step(line(Pipe::Stdout, text)) {
            StreamAction::Yield(Ok(line)) => read.push(line),
            other => panic!("no line: {:?}", other),
        }
    }
    assert_eq!(read, vec!["first", "second", "third", "fourth"]);
    assert_eq!(stream.step(StreamEvent::Closed { pipe: Pipe::Stdout }), StreamAction::Finish);
    assert_eq!(stream.state, StreamState::Exhausted);
    assert!(stream.is_terminal());
    assert_eq!(stream.step(line(Pipe::Stdout, "late\n")), StreamAction::Continue);
    assert_eq!(stream.state, StreamState::Exhausted);
}

#[test]
fn no_lines_then_end() {
    let mut stream = LineStream::new(false);
    assert_eq!(stream.step(StreamEvent::Closed { pipe: Pipe::Stdout }), StreamAction::Finish);
    assert_eq!(stream.state, StreamState::Exhausted);
}

#[test]
fn merged_lines_come_in_order_of_arrival() {
    let mut stream = LineStream::new(true);
    assert_eq!(stream.step(line(Pipe::Stderr, "e1\n")), item("e1"));
    assert_eq!(stream.step(line(Pipe::Stdout, "o1\n")), item("o1"));
    assert_eq!(stream.step(line(Pipe::Stdout, "o2\n")), item("o2"));
    assert_eq!(stream.step(line(Pipe::Stderr, "e2\n")), item("e2"));
}

#[test]
fn merged_stream_ends_when_both_pipes_are_closed() {
    let mut stream = LineStream::new(true);
    assert_eq!(stream.step(StreamEvent::Closed { pipe: Pipe::Stdout }), StreamAction::Continue);
    assert_eq!(stream.state, StreamState::Streaming { stdout: false, stderr: true });
    assert_eq!(stream.step(line(Pipe::Stdout, "late\n")), StreamAction::Continue);
    assert_eq!(stream.step(line(Pipe::Stderr, "still\n")), item("still"));
    assert_eq!(stream.step(StreamEvent::Closed { pipe: Pipe::Stdout }), StreamAction::Continue);
    assert_eq!(stream.step(StreamEvent::Closed { pipe: Pipe::Stderr }), StreamAction::Finish);
    assert_eq!(stream.state, StreamState::Exhausted);
    let mut stream = LineStream::new(true);
    assert_eq!(stream.step(StreamEvent::Closed { pipe: Pipe::Stderr }), StreamAction::Continue);
    assert_eq!(stream.state, StreamState::Streaming { stdout: true, stderr: false });
    assert_eq!(stream.step(StreamEvent::Closed { pipe: Pipe::Stdout }), StreamAction::Finish);
}

#[test]
fn standard_error_is_dropped_unless_combined() {
    let mut stream = LineStream::new(false);
    assert_eq!(stream.step(line(Pipe::Stderr, "warning\n")), StreamAction::Continue);
    assert_eq!(
        stream.step(StreamEvent::Failed { pipe: Pipe::Stderr, message: "x".to_string() }),
        StreamAction::Continue
    );
    assert_eq!(stream.step(StreamEvent::Closed { pipe: Pipe::Stderr }), StreamAction::Continue);
    assert_eq!(stream.state, StreamState::Streaming { stdout: true, stderr: false });
    assert_eq!(stream.step(line(Pipe::Stdout, "out\n")), item("out"));
}

#[test]
fn read_error_is_an_item_and_not_the_end() {
    let mut stream = LineStream::new(false);
    assert_eq!(
        stream.step(StreamEvent::Failed { pipe: Pipe::Stdout, message: "reset".to_string() }),
        StreamAction::Yield(Err(Error::CommandError { message: "reset".to_string() }))
    );
    assert_eq!(stream.state, StreamState::Streaming { stdout: true, stderr: false });
    assert_eq!(stream.step(line(Pipe::Stdout, "next\n")), item("next"));
}

#[test]
fn undecodable_line_is_an_error_item() {
    let mut stream = LineStream::new(false);
    assert_eq!(
        stream.step(StreamEvent::Line { pipe: Pipe::Stdout, bytes: vec![0x61, 0xff, 0x0a] }),
        StreamAction::Yield(Err(Error::CommandError {
            message: "the line is not valid UTF-8".to_string()
        }))
    );
    assert_eq!(stream.step(line(Pipe::Stdout, "next\n")), item("next"));
}

#[test]
fn abandoned_stream_yields_nothing_more() {
    let mut stream = LineStream::new(true);
    assert_eq!(stream.step(line(Pipe::Stdout, "one\n")), item("one"));
    assert_eq!(stream.step(StreamEvent::Abandoned), StreamAction::Finish);
    assert_eq!(stream.state, StreamState::Abandoned);
    assert!(stream.is_terminal());
    assert!(!stream.reads(Pipe::Stdout));
    assert!(!stream.reads(Pipe::Stderr));
    assert_eq!(stream.step(line(Pipe::Stdout, "two\n")), StreamAction::Continue);
    assert_eq!(
        stream.step(StreamEvent::Failed { pipe: Pipe::Stderr, message: "x".to_string() }),
        StreamAction::Continue
    );
    assert_eq!(stream.step(StreamEvent::Closed { pipe: Pipe::Stdout }), StreamAction::Continue);
    assert_eq!(stream.step(StreamEvent::Abandoned), StreamAction::Continue);
    assert_eq!(stream.state, StreamState::Abandoned);
}

#[test]
fn abandoning_an_exhausted_stream_changes_nothing() {
    let mut stream = LineStream::new(false);
    stream.step(StreamEvent::Closed { pipe: Pipe::Stdout });
    assert_eq!(stream.step(StreamEvent::Abandoned), StreamAction::Continue);
    assert_eq!(stream.state, StreamState::Exhausted);
}

#[test]
fn line_ends_are_taken_off() {
    assert_eq!(decode_line(b"plain".to_vec()), Ok("plain".to_string()));
    assert_eq!(decode_line(b"unix\n".to_vec()), Ok("unix".to_string()));
    assert_eq!(decode_line(b"dos\r\n".to_vec()), Ok("dos".to_string()));
    assert_eq!(decode_line(b"bare\r".to_vec()), Ok("bare\r".to_string()));
    assert_eq!(decode_line(b"two\n\n".to_vec()), Ok("two\n".to_string()));
    assert_eq!(decode_line(b"\r\r\n".to_vec()), Ok("\r".to_string()));
    assert_eq!(decode_line(b"\n".to_vec()), Ok(String::new()));
    assert_eq!(decode_line(b"\r\n".to_vec()), Ok(String::new()));
    assert_eq!(decode_line(vec![]), Ok(String::new()));
    assert_eq!(
        decode_line("add ip-command-test-monitor-namespace\n".as_bytes().to_vec()),
        Ok("add ip-command-test-monitor-namespace".to_string())
    );
    assert_eq!(decode_line("\u{2603}\n".as_bytes().to_vec()), Ok("\u{2603}".to_string()));
}

#[test]
fn undecodable_line() {
    assert_eq!(
        decode_line(vec![0xe2, 0x98, 0x0a]),
        Err(Error::CommandError { message: "the line is not valid UTF-8".to_string() })
    );
}
