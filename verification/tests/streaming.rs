//! The streaming decoder: fragmented reads, consumed bytes, and what
//! a closed connection means.
use memento::{Command, CommandResp, Decoder, Incr, Item, Key, MementoError};

fn key(s: &str) -> Key {
    Key::from_str(s).unwrap()
}

/// Feed the whole reply at once and poll.
fn decode_at_once(wire: &[u8], cmd: &Command) -> Option<CommandResp> {
    let mut dec = Decoder::new();
    dec.feed(wire);
    dec.poll(cmd).unwrap()
}

/// Feed the reply one byte at a time, polling after every byte, and
/// keep the first complete response.
fn decode_byte_by_byte(wire: &[u8], cmd: &Command) -> Option<CommandResp> {
    let mut dec = Decoder::new();
    for b in wire {
        dec.feed(&[*b]);
        if let Some(resp) = dec.poll(cmd).unwrap() {
            return Some(resp);
        }
    }
    None
}

#[test]
fn fragmentation_does_not_change_the_result() {
    let cases: Vec<(&[u8], Command)> = vec![
        (b"STORED\r\n", memento::set(key("x"), Item::timeless(b"y".to_vec()))),
        (b"NOT_FOUND\r\n", memento::get(key("x"))),
        (b"END\r\n", memento::get(key("x"))),
        (b"VALUE x 0 3\r\nlol\r\nEND\r\n", memento::get(key("x"))),
        (b"VALUE x 0 3\r\nlol\r\nEND\r\n", memento::gets(vec![key("x")])),
        (b"STAT pid 1234\r\nSTAT version 1.6.0\r\nEND\r\n", memento::stats()),
        (b"7\r\n", Command::Incr(Incr::new(key("x"), 1))),
        (b"VERSION 1.6.1\r\n", Command::Version),
    ];
    for (wire, cmd) in cases {
        let whole = decode_at_once(wire, &cmd).unwrap();
        let pieces = decode_byte_by_byte(wire, &cmd).unwrap();
        assert_eq!(format!("{:?}", whole), format!("{:?}", pieces));
    }
}

#[test]
fn poll_consumes_exactly_one_response() {
    let cmd = memento::set(key("x"), Item::timeless(b"y".to_vec()));
    let mut dec = Decoder::new();
    dec.feed(b"STORED\r\nNOT_STORED\r\n");
    match dec.poll(&cmd).unwrap() {
        Some(CommandResp::Stored) => {},
        other => panic!("unexpected: {:?}", other),
    }
    match dec.poll(&cmd).unwrap() {
        Some(CommandResp::NotStored) => {},
        other => panic!("unexpected: {:?}", other),
    }
    match dec.poll(&cmd).unwrap() {
        None => {},
        other => panic!("unexpected: {:?}", other),
    }
}

#[test]
fn close_before_any_byte_is_no_response() {
    let dec = Decoder::new();
    match dec.eof() {
        Ok(CommandResp::NoResponse) => {},
        other => panic!("unexpected: {:?}", other),
    }
}

#[test]
fn close_after_partial_response_is_a_reset() {
    let mut dec = Decoder::new();
    dec.feed(b"STOR");
    match dec.eof() {
        Err(MementoError::ConnectionReset) => {},
        other => panic!("unexpected: {:?}", other),
    }
}

#[test]
fn error_messages() {
    assert_eq!(
        MementoError::ConnectionReset.message(),
        "connection reset by peer"
    );
    assert_eq!(
        MementoError::TooLongKey(b"k".to_vec()).message(),
        "key is too long"
    );
    assert_eq!(
        MementoError::IoError("broken pipe".to_string()).message(),
        "broken pipe"
    );
}

#[test]
fn default_response_is_no_response() {
    match CommandResp::default() {
        CommandResp::NoResponse => {},
        other => panic!("unexpected: {:?}", other),
    }
}
