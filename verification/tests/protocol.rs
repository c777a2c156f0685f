use std::io::BufRead;

use agent_master::base64_text::{fits, from_text, read_text, to_text};
use agent_master::protocol::{
    message_text, read_message, write_message, Incoming, Refusal, Request, Window, WindowSize,
};
use agent_master::{base64_bytes, base64_bytes_or_nothing};

/// Reads the requests that the tests below send.
fn request(text: &str) -> Result<Request, String> {
    let parsed: serde_json::Value =
        serde_json::from_str(text).map_err(|error| error.to_string())?;
    let field = |name: &str| parsed.get(name).ok_or(format!("missing field `{name}`"));
    match field("op")?.as_str() {
        Some("window") => Ok(Request::Window),
        Some("state") => Ok(Request::State),
        Some("input") => {
            let data = field("data")?.as_str().ok_or("not a string".to_string())?;
            Ok(Request::Input { data: base64_bytes::deserialize(data)? })
        }
        Some("stop") => {
            let grace_ms = field("grace_ms")?.as_u64().ok_or("not a number".to_string())?;
            Ok(Request::Stop { grace_ms })
        }
        other => Err(format!("unknown variant {other:?}")),
    }
}

fn read(source: &mut &[u8]) -> Incoming<Request> {
    let mut line = String::new();
    source.read_line(&mut line).expect("read");
    read_message(&line, request(message_text(&line)))
}

#[test]
fn every_refusal_reads_plainly() {
    assert_eq!(Refusal::NothingStarted.to_string(), "no process has been started");
    assert_eq!(Refusal::AlreadyRunning.to_string(), "a process is already running");
    assert_eq!(Refusal::AlreadyExited.to_string(), "the process has already exited");
    assert_eq!(
        Refusal::UnusableWindowSize { least: WindowSize { rows: 2, cols: 2 } }.to_string(),
        "a window smaller than 2x2 cannot be drawn"
    );
    assert_eq!(
        Refusal::Failed { message: "no such file".to_string() }.to_string(),
        "no such file"
    );
    assert_eq!(Refusal::Unreadable { message: "not json".to_string() }.to_string(), "not json");
}

#[test]
fn a_size_reads_in_full() {
    let least = WindowSize { rows: 65535, cols: 10 };
    assert_eq!(
        Refusal::UnusableWindowSize { least }.to_string(),
        "a window smaller than 65535x10 cannot be drawn"
    );
}

#[test]
fn byte_payloads_travel_as_base64_text() {
    assert_eq!(base64_bytes::serialize(&[0x1b, b'[', b'A']), "G1tB");
    assert_eq!(to_text(b"hi"), "aGk=");
    assert_eq!(base64_bytes::deserialize("G1tB"), Ok(vec![0x1b, b'[', b'A']));
    assert_eq!(from_text("aGk="), Ok(b"hi".to_vec()));
}

#[test]
fn a_window_of_arbitrary_bytes_comes_back_byte_for_byte() {
    let contents: Vec<u8> = (0..=255u8).cycle().take(5000).collect();
    assert_eq!(base64_bytes::deserialize(&base64_bytes::serialize(&contents)), Ok(contents));
}

#[test]
fn an_empty_byte_payload_is_carried_as_such() {
    assert_eq!(base64_bytes::serialize(&[]), "");
    assert_eq!(base64_bytes::deserialize(""), Ok(Vec::new()));
}

#[test]
fn nothing_is_carried_as_nothing() {
    assert_eq!(base64_bytes_or_nothing::serialize(&None), None);
    assert_eq!(base64_bytes_or_nothing::serialize(&Some(Vec::new())), Some(String::new()));
    let held = Some(vec![0x00, 0xff, b'h', b'i']);
    assert_eq!(base64_bytes_or_nothing::serialize(&held), Some("AP9oaQ==".to_string()));
    assert_eq!(base64_bytes_or_nothing::deserialize(None), Ok(None));
    assert_eq!(base64_bytes_or_nothing::deserialize(Some(String::new())), Ok(Some(Vec::new())));
    assert_eq!(base64_bytes_or_nothing::deserialize(Some("AP9oaQ==".to_string())), Ok(held));
}

#[test]
fn a_clipboard_that_is_not_readable_text_is_rejected() {
    assert!(base64_bytes_or_nothing::deserialize(Some("!!!!".to_string())).is_err());
    assert!(base64_bytes::deserialize("!!!!").is_err());
    assert_eq!(base64_bytes::deserialize("!!!!"), Err("Invalid symbol 33, offset 0.".to_string()));
}

#[test]
fn a_message_is_one_line() {
    assert_eq!(write_message("{}".to_string()), "{}\n");
    assert_eq!(message_text("{}\n"), "{}");
    assert_eq!(message_text("{}\r\n"), "{}");
    assert_eq!(message_text("{}\n\r\r\n"), "{}");
    assert_eq!(message_text("{ }"), "{ }");
    assert_eq!(message_text("\n"), "");
}

#[test]
fn lines_that_are_not_messages_come_back_as_unreadable() {
    let unreadable = [
        "not json",
        r#"{"op":"fly"}"#,
        r#"{"op":"input","data":"!!!!"}"#,
        r#"{"op":"stop","grace_ms":"soon"}"#,
        "",
    ];
    for line in unreadable {
        let wire = format!("{line}\n");
        let complaint = match read(&mut wire.as_bytes()) {
            Incoming::Unreadable(complaint) => complaint,
            other => panic!("{line:?} should not have been read as a request: {other:?}"),
        };
        let said = request(line).expect_err("no request");
        assert_eq!(complaint, format!("{said}: {line}"));
    }
}

#[test]
fn lines_that_are_messages_come_back_as_such() {
    let data = vec![0x1b, b'[', b'A'];
    for (line, expected) in [
        (r#"{"op":"input","data":"G1tB"}"#, Request::Input { data }),
        (r#"{"op":"input","data":""}"#, Request::Input { data: Vec::new() }),
        (r#"{"op":"stop","grace_ms":5000}"#, Request::Stop { grace_ms: 5000 }),
    ] {
        let wire = write_message(line.to_string());
        assert_eq!(read(&mut wire.as_bytes()), Incoming::Message(expected));
    }
}

#[test]
fn a_closed_source_ends_the_conversation() {
    assert_eq!(read(&mut b"".as_slice()), Incoming::Ended);
}

#[test]
fn messages_are_read_one_line_at_a_time() {
    let mut wire = write_message(r#"{"op":"window"}"#.to_string());
    wire.push_str(&write_message(r#"{"op":"state"}"#.to_string()));
    let mut source = wire.as_bytes();
    for expected in [Request::Window, Request::State] {
        match read(&mut source) {
            Incoming::Message(request) => assert_eq!(request, expected),
            _ => panic!("expected {expected:?}"),
        }
    }
    assert!(matches!(read(&mut source), Incoming::Ended));
}

#[test]
fn an_unreadable_line_does_not_stand_in_the_way_of_the_next() {
    let mut source = "not a request\n{\"op\":\"state\"}\r\n{\"op\":\"window\"}".as_bytes();
    assert!(matches!(read(&mut source), Incoming::Unreadable(_)));
    assert_eq!(read(&mut source), Incoming::Message(Request::State));
    assert_eq!(read(&mut source), Incoming::Message(Request::Window));
    assert_eq!(read(&mut source), Incoming::Ended);
}

#[test]
fn a_written_message_is_one_line() {
    let said = serde_json::to_string("one\ntwo\r\n").expect("a text");
    let line = write_message(said);
    assert_eq!(line, "\"one\\ntwo\\r\\n\"\n");
    assert_eq!(line.lines().count(), 1);
}

#[test]
fn every_symbol_stands_for_its_six_bits() {
    let bytes: Vec<u8> = (0..48u32)
        .map(|i| {
            let quad = i / 3 * 4;
            let bits = quad << 18 | (quad + 1) << 12 | (quad + 2) << 6 | (quad + 3);
            (bits >> (16 - 8 * (i % 3))) as u8
        })
        .collect();
    let alphabet = "ABCDEFGHIJKLMNOPQRSTUVWXYZabcdefghijklmnopqrstuvwxyz0123456789+/";
    assert_eq!(to_text(&bytes), alphabet);
    assert_eq!(from_text(alphabet), Ok(bytes));
}

#[test]
fn only_the_text_that_is_written_for_bytes_is_read() {
    assert_eq!(to_text(b"f"), "Zg==");
    assert_eq!(to_text(b"fo"), "Zm8=");
    assert_eq!(to_text(b"foo"), "Zm9v");
    assert_eq!(to_text(b"foob"), "Zm9vYg==");
    assert_eq!(read_text(b"Zg=="), Ok(b"f".to_vec()));
    for unread in ["Zg", "Zg=", "Zg===", "Zh==", "Zm9=", "Zm9v\n", "Zg==Zg==", "====", "Z"] {
        assert!(read_text(unread.as_bytes()).is_err(), "{unread:?}");
    }
    assert_eq!(from_text("Zg"), Err("Invalid padding".to_string()));
}

#[test]
fn what_memory_holds_has_a_text() {
    assert!(fits(b""));
    assert!(fits(&vec![0; 100_000]));
}

#[test]
fn a_field_is_what_its_text_was_read_as() {
    assert_eq!(base64_bytes_or_nothing::taken(None), Ok(None));
    let read = Ok(vec![1, 2]);
    assert_eq!(base64_bytes_or_nothing::taken(Some(read)), Ok(Some(vec![1, 2])));
    let complaint = Err("no text".to_string());
    assert_eq!(base64_bytes_or_nothing::taken(Some(complaint)), Err("no text".to_string()));
}

#[test]
fn a_copy_of_a_window_is_the_same_window() {
    let window = Window { size: WindowSize { rows: 24, cols: 80 }, contents: vec![0x1b, b'['] };
    assert_eq!(window.copy(), window);
}
