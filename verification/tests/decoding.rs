//! The response classifier: one decode attempt per buffered reply,
//! with its exact consumed byte count and its failure cases.
use memento::{Command, CommandResp, Decr, Incr, Item, Key, MementoError, Stat};

fn key(s: &str) -> Key {
    Key::from_str(s).unwrap()
}

fn a_set() -> Command {
    memento::set(key("x"), Item::timeless(b"y".to_vec()))
}

fn a_get() -> Command {
    memento::get(key("x"))
}

fn an_incr() -> Command {
    Command::Incr(Incr::new(key("x"), 1))
}

#[test]
fn stored_line_decodes() {
    match CommandResp::create(b"STORED\r\n", &a_set()) {
        Ok(Some((CommandResp::Stored, 8))) => {},
        other => panic!("unexpected: {:?}", other),
    }
}

#[test]
fn not_found_line_decodes() {
    match CommandResp::create(b"NOT_FOUND\r\n", &a_get()) {
        Ok(Some((CommandResp::NotFound, 11))) => {},
        other => panic!("unexpected: {:?}", other),
    }
}

#[test]
fn bare_end_is_an_empty_retrieval() {
    match CommandResp::create(b"END\r\n", &a_get()) {
        Ok(Some((CommandResp::NotFound, 5))) => {},
        other => panic!("unexpected: {:?}", other),
    }
}

#[test]
fn single_line_replies_decode() {
    let cases: Vec<(&[u8], CommandResp)> = vec![
        (b"NOT_STORED\r\n", CommandResp::NotStored),
        (b"EXISTS\r\n", CommandResp::Exists),
        (b"DELETED\r\n", CommandResp::Deleted),
        (b"TOUCHED\r\n", CommandResp::Touched),
        (b"ERROR\r\n", CommandResp::Error),
    ];
    for (bytes, want) in cases {
        match CommandResp::create(bytes, &a_set()) {
            Ok(Some((got, used))) => {
                assert_eq!(used, bytes.len());
                assert_eq!(format!("{:?}", got), format!("{:?}", want));
            },
            other => panic!("unexpected: {:?}", other),
        }
    }
}

#[test]
fn version_reply_takes_last_token() {
    match CommandResp::create(b"VERSION 1.6.1\r\n", &Command::Version) {
        Ok(Some((CommandResp::Version(v), 15))) => assert_eq!(v, b"1.6.1".to_vec()),
        other => panic!("unexpected: {:?}", other),
    }
}

#[test]
fn value_block_for_get_yields_single_pair() {
    match CommandResp::create(b"VALUE x 0 3\r\nlol\r\nEND\r\n", &a_get()) {
        Ok(Some((CommandResp::Value { key, item }, 23))) => {
            assert_eq!(key.as_bytes(), b"x");
            assert_eq!(item.as_bytes(), b"lol");
            assert_eq!(item.seconds(), 0);
        },
        other => panic!("unexpected: {:?}", other),
    }
}

#[test]
fn value_block_for_gets_yields_one_pair_list() {
    let cmd = memento::gets(vec![key("x")]);
    match CommandResp::create(b"VALUE x 0 3\r\nlol\r\nEND\r\n", &cmd) {
        Ok(Some((CommandResp::Values(vs), 23))) => {
            assert_eq!(vs.len(), 1);
            assert_eq!(vs[0].0.as_bytes(), b"x");
            assert_eq!(vs[0].1.as_bytes(), b"lol");
        },
        other => panic!("unexpected: {:?}", other),
    }
}

#[test]
fn value_block_keeps_server_order() {
    let cmd = memento::gets(vec![key("a"), key("b")]);
    let wire = b"VALUE a 0 1\r\n1\r\nVALUE b 0 1\r\n2\r\nEND\r\n";
    match CommandResp::create(wire, &cmd) {
        Ok(Some((CommandResp::Values(vs), used))) => {
            assert_eq!(used, wire.len());
            assert_eq!(vs.len(), 2);
            assert_eq!(vs[0].0.as_bytes(), b"a");
            assert_eq!(vs[0].1.as_bytes(), b"1");
            assert_eq!(vs[1].0.as_bytes(), b"b");
            assert_eq!(vs[1].1.as_bytes(), b"2");
        },
        other => panic!("unexpected: {:?}", other),
    }
}

#[test]
fn value_block_without_terminator_is_incomplete() {
    match CommandResp::create(b"VALUE x 0 3\r\nlol\r\n", &a_get()) {
        Ok(None) => {},
        other => panic!("unexpected: {:?}", other),
    }
}

#[test]
fn value_block_with_unpaired_header_is_malformed() {
    match CommandResp::create(b"VALUE x 0 3\r\nEND\r\n", &a_get()) {
        Err(MementoError::InvalidItem(_)) => {},
        other => panic!("unexpected: {:?}", other),
    }
}

#[test]
fn stat_block_decodes_in_order() {
    let wire = b"STAT pid 1234\r\nSTAT version 1.6.0\r\nEND\r\n";
    match CommandResp::create(wire, &memento::stats()) {
        Ok(Some((CommandResp::Stats(ss), used))) => {
            assert_eq!(used, wire.len());
            assert_eq!(ss, vec![Stat::Pid(1234), Stat::Version(b"1.6.0".to_vec())]);
        },
        other => panic!("unexpected: {:?}", other),
    }
}

#[test]
fn stat_fields_parse_to_their_types() {
    let wire = b"STAT pointer_size 64\r\nSTAT rusage_user 0.137\r\nSTAT bytes 99\r\nSTAT foo bar\r\nEND\r\n";
    match CommandResp::create(wire, &memento::stats()) {
        Ok(Some((CommandResp::Stats(ss), _))) => {
            assert_eq!(
                ss,
                vec![
                    Stat::PointerSize(64),
                    Stat::RUsageUser(0, 137),
                    Stat::Bytes(99),
                    Stat::Other { name: b"foo".to_vec(), value: b"bar".to_vec() },
                ]
            );
        },
        other => panic!("unexpected: {:?}", other),
    }
}

#[test]
fn stat_with_non_numeric_value_fails() {
    match CommandResp::create(b"STAT pid abc\r\nEND\r\n", &memento::stats()) {
        Err(MementoError::InvalidIntegerValue(t)) => assert_eq!(t, b"abc".to_vec()),
        other => panic!("unexpected: {:?}", other),
    }
}

#[test]
fn stat_with_missing_value_fails() {
    match CommandResp::create(b"STAT pid\r\nEND\r\n", &memento::stats()) {
        Err(MementoError::InvalidItem(l)) => assert_eq!(l, b"STAT pid".to_vec()),
        other => panic!("unexpected: {:?}", other),
    }
}

#[test]
fn rusage_without_dot_fails() {
    match CommandResp::create(b"STAT rusage_user 137\r\nEND\r\n", &memento::stats()) {
        Err(MementoError::InvalidItem(t)) => assert_eq!(t, b"137".to_vec()),
        other => panic!("unexpected: {:?}", other),
    }
}

#[test]
fn counter_reply_for_incr() {
    match CommandResp::create(b"7\r\n", &an_incr()) {
        Ok(Some((CommandResp::Counter(7), 3))) => {},
        other => panic!("unexpected: {:?}", other),
    }
}

#[test]
fn counter_reply_for_decr() {
    let cmd = Command::Decr(Decr::new(key("x"), 2));
    match CommandResp::create(b"5\r\n", &cmd) {
        Ok(Some((CommandResp::Counter(5), 3))) => {},
        other => panic!("unexpected: {:?}", other),
    }
}

#[test]
fn bare_integer_for_get_is_not_a_counter() {
    match CommandResp::create(b"7\r\n", &a_get()) {
        Ok(None) => {},
        other => panic!("unexpected: {:?}", other),
    }
}

#[test]
fn non_numeric_counter_reply_fails() {
    match CommandResp::create(b"abc\r\n", &an_incr()) {
        Err(MementoError::InvalidIntegerValue(t)) => assert_eq!(t, b"abc".to_vec()),
        other => panic!("unexpected: {:?}", other),
    }
}

#[test]
fn counter_reply_too_large_for_u64_fails() {
    match CommandResp::create(b"18446744073709551616\r\n", &an_incr()) {
        Err(MementoError::InvalidIntegerValue(_)) => {},
        other => panic!("unexpected: {:?}", other),
    }
}

#[test]
fn counter_reply_at_u64_max_decodes() {
    match CommandResp::create(b"18446744073709551615\r\n", &an_incr()) {
        Ok(Some((CommandResp::Counter(u64::MAX), 22))) => {},
        other => panic!("unexpected: {:?}", other),
    }
}

#[test]
fn partial_line_is_never_interpreted() {
    match CommandResp::create(b"STORED", &a_set()) {
        Ok(None) => {},
        other => panic!("unexpected: {:?}", other),
    }
}

#[test]
fn empty_buffer_asks_for_more() {
    match CommandResp::create(b"", &a_set()) {
        Ok(None) => {},
        other => panic!("unexpected: {:?}", other),
    }
}

#[test]
fn blank_line_asks_for_more() {
    match CommandResp::create(b"\r\n", &a_set()) {
        Ok(None) => {},
        other => panic!("unexpected: {:?}", other),
    }
}

#[test]
fn unrecognized_token_outside_counter_context_asks_for_more() {
    match CommandResp::create(b"WHATEVER\r\n", &a_set()) {
        Ok(None) => {},
        other => panic!("unexpected: {:?}", other),
    }
}

#[test]
fn key_survives_encoder_and_echoed_reply() {
    let k = key("abc123");
    let cmd = memento::get(k.clone());
    assert_eq!(cmd.encode(), b"get abc123\r\n".to_vec());
    let reply = b"VALUE abc123 0 2\r\nhi\r\nEND\r\n";
    match CommandResp::create(reply, &cmd) {
        Ok(Some((CommandResp::Value { key, item }, used))) => {
            assert_eq!(used, reply.len());
            assert_eq!(key.as_bytes(), k.as_bytes());
            assert_eq!(item.as_bytes(), b"hi");
        },
        other => panic!("unexpected: {:?}", other),
    }
}

#[test]
fn trailing_bytes_are_not_consumed() {
    match CommandResp::create(b"STORED\r\nNOT_FOUND\r\n", &a_set()) {
        Ok(Some((CommandResp::Stored, 8))) => {},
        other => panic!("unexpected: {:?}", other),
    }
}
